//! The command line of the calculator: what a list of arguments asks for,
//! or why it is refused.
//!
//! Nothing here reads the process's arguments or writes to a stream. The
//! functions take the argument list as a value, the program's name first,
//! and give back a value: the number to print, or an error together with the
//! text to show for it.

use crate::decimal::{decimal_u64, parse_u64};
use crate::factorial::{factorial, factorial_iterative, factorial_recursive};
use crate::fibonacci::{fibonacci, fibonacci_iterative, fibonacci_recursive};
use crate::wrap::wrapped;
use vstd::prelude::*;

verus! {

/// The two sequences that the calculator knows.
#[derive(Clone, Copy, Debug, PartialEq, Eq, Structural)]
pub enum Operation {
    /// `n!`, asked for with the keyword `fac`.
    Factorial,
    /// `F(n)`, asked for with the keyword `fib`.
    Fibonacci,
}

/// One well-formed request: an operation, the way to compute it, and the
/// argument.
#[derive(Clone, Copy, Debug, PartialEq, Eq, Structural)]
pub struct Invocation {
    pub operation: Operation,
    /// Whether the recursive implementation was asked for with `--rec`.
    pub recursive: bool,
    pub n: u64,
}

/// Why a list of arguments is refused.
#[derive(Debug, PartialEq, Eq)]
pub enum ArgError {
    /// There are too few arguments, or arguments after the number.
    WrongArgumentCount,
    /// `--rec` is the last argument: the number is missing.
    MissingNumber,
    /// The argument in the number's place, which is not the decimal notation
    /// of an unsigned 64-bit integer.
    InvalidNumber(String),
    /// The argument in the keyword's place, which is neither `fac` nor `fib`.
    UnknownCommand(String),
}

/// The two kinds of refusal. Both end the run with exit code 1.
#[derive(Clone, Copy, Debug, PartialEq, Eq, Structural)]
pub enum ErrorKind {
    /// The command was not used as intended: the usage text is shown.
    Usage,
    /// The number could not be read: the offending argument is named.
    Parse,
}

/// An [`ArgError`] with the text of each argument it holds.
pub enum ArgErrorView {
    WrongArgumentCount,
    MissingNumber,
    InvalidNumber(Seq<char>),
    UnknownCommand(Seq<char>),
}

impl View for ArgError {
    type V = ArgErrorView;

    open spec fn view(&self) -> ArgErrorView {
        match self {
            ArgError::WrongArgumentCount => ArgErrorView::WrongArgumentCount,
            ArgError::MissingNumber => ArgErrorView::MissingNumber,
            ArgError::InvalidNumber(token) => ArgErrorView::InvalidNumber(token@),
            ArgError::UnknownCommand(keyword) => ArgErrorView::UnknownCommand(keyword@),
        }
    }
}

/// A result as contracts see it: the value as it is, the error by its view.
pub open spec fn outcome<T>(result: Result<T, ArgError>) -> Result<T, ArgErrorView> {
    match result {
        Ok(value) => Ok(value),
        Err(error) => Err(error@),
    }
}

/// The operation that a keyword names.
pub open spec fn operation_named(keyword: Seq<char>) -> Option<Operation> {
    if keyword == "fac"@ {
        Some(Operation::Factorial)
    } else if keyword == "fib"@ {
        Some(Operation::Fibonacci)
    } else {
        None
    }
}

/// What the arguments of a command that takes one number ask for. `args`
/// starts with the program's name, so exactly two items are expected.
pub open spec fn single_arg(args: Seq<Seq<char>>) -> Result<u64, ArgErrorView> {
    if args.len() != 2 {
        Err(ArgErrorView::WrongArgumentCount)
    } else {
        match decimal_u64(args[1]) {
            Some(n) => Ok(n),
            None => Err(ArgErrorView::InvalidNumber(args[1])),
        }
    }
}

/// What the arguments `fac|fib [--rec] <n>` ask for. `args` starts with the
/// program's name and ends with the number: a list of fewer than three
/// items, or one that goes on after the number, has the wrong count. The
/// number is looked at before the keyword: when both are wrong, the number
/// is reported.
pub open spec fn invocation(args: Seq<Seq<char>>) -> Result<Invocation, ArgErrorView> {
    if args.len() < 3 {
        Err(ArgErrorView::WrongArgumentCount)
    } else {
        let recursive = args[2] == "--rec"@;
        let at: int = if recursive { 3 } else { 2 };
        if args.len() <= at {
            Err(ArgErrorView::MissingNumber)
        } else if args.len() > at + 1 {
            Err(ArgErrorView::WrongArgumentCount)
        } else {
            match (decimal_u64(args[at]), operation_named(args[1])) {
                (None, _) => Err(ArgErrorView::InvalidNumber(args[at])),
                (Some(_), None) => Err(ArgErrorView::UnknownCommand(args[1])),
                (Some(n), Some(operation)) => Ok(Invocation { operation, recursive, n }),
            }
        }
    }
}

/// An argument list that is accepted holds nothing but the program's name,
/// the keyword, `--rec` if it was given, and the number.
pub proof fn lemma_accepted_count(args: Seq<Seq<char>>)
    ensures
        invocation(args) matches Ok(request) ==> args.len() == (if request.recursive {
            4int
        } else {
            3int
        }),
{
}

/// Tells whether an argument is the given keyword.
fn is_keyword(arg: &String, keyword: &str) -> (same: bool)
    ensures
        same == (arg@ == keyword@),
{
    let wanted = String::from_str(keyword);
    *arg == wanted
}

/// Finds the operation that a keyword names.
fn operation_for(keyword: &String) -> (operation: Option<Operation>)
    ensures
        operation == operation_named(keyword@),
{
    if is_keyword(keyword, "fac") {
        Some(Operation::Factorial)
    } else if is_keyword(keyword, "fib") {
        Some(Operation::Fibonacci)
    } else {
        None
    }
}

/// Checks the arguments of a command that takes exactly one number, and
/// reads the number.
///
/// `args` is the whole argument list, the program's name first. Anything
/// but two items is a [`ArgError::WrongArgumentCount`]; a second item that
/// is no decimal `u64` comes back in [`ArgError::InvalidNumber`].
pub fn parse_single_arg(args: &Vec<String>) -> (result: Result<u64, ArgError>)
    ensures
        outcome(result) == single_arg(args.deep_view()),
{
    if args.len() != 2 {
        return Err(ArgError::WrongArgumentCount);
    }
    match parse_u64(args[1].as_str()) {
        Some(n) => Ok(n),
        None => Err(ArgError::InvalidNumber(args[1].clone())),
    }
}

/// Checks the arguments `fac|fib [--rec] <n>` and tells what they ask for.
///
/// `args` is the whole argument list, the program's name first. The checks
/// come in this order: that there are at least a keyword and one argument,
/// the optional `--rec`, the presence of the number, that nothing follows
/// the number, the number, the keyword.
pub fn parse_invocation(args: &Vec<String>) -> (result: Result<Invocation, ArgError>)
    ensures
        outcome(result) == invocation(args.deep_view()),
{
    if args.len() < 3 {
        return Err(ArgError::WrongArgumentCount);
    }
    let recursive = is_keyword(&args[2], "--rec");
    let at: usize = if recursive { 3 } else { 2 };
    if args.len() <= at {
        return Err(ArgError::MissingNumber);
    }
    if args.len() > at + 1 {
        return Err(ArgError::WrongArgumentCount);
    }
    let n = match parse_u64(args[at].as_str()) {
        Some(n) => n,
        None => {
            return Err(ArgError::InvalidNumber(args[at].clone()));
        },
    };
    match operation_for(&args[1]) {
        Some(operation) => Ok(Invocation { operation, recursive, n }),
        None => Err(ArgError::UnknownCommand(args[1].clone())),
    }
}

impl Invocation {
    /// The number that the request asks for: `n!` or `F(n)`, reduced modulo
    /// 2^64 where it does not fit. It does not depend on the way of
    /// computing it.
    pub open spec fn value(self) -> u64 {
        match self.operation {
            Operation::Factorial => wrapped(factorial(self.n as nat)),
            Operation::Fibonacci => wrapped(fibonacci(self.n as nat)),
        }
    }

    /// Computes what the request asks for, with the recursive or the
    /// iterative implementation as the request says.
    pub fn evaluate(&self) -> (result: u64)
        ensures
            result == self.value(),
    {
        match self.operation {
            Operation::Factorial => {
                if self.recursive {
                    factorial_recursive(self.n)
                } else {
                    factorial_iterative(self.n)
                }
            },
            Operation::Fibonacci => {
                if self.recursive {
                    fibonacci_recursive(self.n)
                } else {
                    fibonacci_iterative(self.n)
                }
            },
        }
    }
}

/// The answer to the arguments `fac|fib [--rec] <n>`: the number to print,
/// or the refusal.
pub open spec fn answer(args: Seq<Seq<char>>) -> Result<u64, ArgErrorView> {
    match invocation(args) {
        Ok(request) => Ok(request.value()),
        Err(error) => Err(error),
    }
}

/// Runs the calculator on a whole argument list, the program's name first:
/// checks the arguments and computes what they ask for.
pub fn run(args: &Vec<String>) -> (result: Result<u64, ArgError>)
    ensures
        outcome(result) == answer(args.deep_view()),
{
    match parse_invocation(args) {
        Ok(request) => Ok(request.evaluate()),
        Err(error) => Err(error),
    }
}

/// The exit code for the end of a run: 0 after an answer, 1 after a refusal
/// of either kind.
pub fn exit_code(result: &Result<u64, ArgError>) -> (code: i32)
    ensures
        code == (if result is Ok { 0i32 } else { 1i32 }),
{
    match result {
        Ok(_) => 0,
        Err(_) => 1,
    }
}

impl ArgErrorView {
    /// The kind of the refusal: only a number that cannot be read is a
    /// parse error.
    pub open spec fn kind(self) -> ErrorKind {
        match self {
            ArgErrorView::InvalidNumber(_) => ErrorKind::Parse,
            _ => ErrorKind::Usage,
        }
    }

    /// The line that names the fault. A wrong argument count has none: the
    /// usage text alone answers it.
    pub open spec fn message(self) -> Option<Seq<char>> {
        match self {
            ArgErrorView::WrongArgumentCount => None,
            ArgErrorView::MissingNumber => Some("Error: Missing number argument"@),
            ArgErrorView::InvalidNumber(token) => Some(
                "Error: '"@ + token + "' is not a valid number"@,
            ),
            ArgErrorView::UnknownCommand(keyword) => Some(
                "Error: Unknown command '"@ + keyword + "'"@,
            ),
        }
    }

    /// The lines to show for the refusal, given the lines of the usage
    /// text: the message if there is one, and for a usage error the usage
    /// text, set off from the message by an empty line.
    pub open spec fn report(self, usage: Seq<Seq<char>>) -> Seq<Seq<char>> {
        match (self.message(), self.kind()) {
            (None, _) => usage,
            (Some(message), ErrorKind::Parse) => seq![message],
            (Some(message), ErrorKind::Usage) => seq![message, ""@] + usage,
        }
    }
}

/// Puts a line together from three parts.
fn line_of(before: &str, middle: &str, after: &str) -> (line: String)
    ensures
        line@ == before@ + middle@ + after@,
{
    let mut line = String::from_str(before);
    line.append(middle);
    line.append(after);
    line
}

impl ArgError {
    /// Tells of which kind the refusal is.
    pub fn kind(&self) -> (kind: ErrorKind)
        ensures
            kind == self@.kind(),
    {
        match self {
            ArgError::InvalidNumber(_) => ErrorKind::Parse,
            _ => ErrorKind::Usage,
        }
    }

    /// Writes the line that names the fault, if the refusal has one.
    pub fn message(&self) -> (message: Option<String>)
        ensures
            message.deep_view() == self@.message(),
    {
        match self {
            ArgError::WrongArgumentCount => None,
            ArgError::MissingNumber => Some(String::from_str("Error: Missing number argument")),
            ArgError::InvalidNumber(token) => Some(
                line_of("Error: '", token.as_str(), "' is not a valid number"),
            ),
            ArgError::UnknownCommand(keyword) => Some(
                line_of("Error: Unknown command '", keyword.as_str(), "'"),
            ),
        }
    }

    /// Writes the lines to show for the refusal. `usage` holds the lines of
    /// the usage text of the command that was called.
    pub fn report(&self, usage: Vec<String>) -> (lines: Vec<String>)
        ensures
            lines.deep_view() == self@.report(usage.deep_view()),
    {
        let message = match self.message() {
            Some(message) => message,
            None => {
                return usage;
            },
        };
        let mut lines: Vec<String> = Vec::new();
        lines.push(message);
        match self.kind() {
            ErrorKind::Parse => {},
            ErrorKind::Usage => {
                let mut usage = usage;
                lines.push(String::from_str(""));
                lines.append(&mut usage);
            },
        }
        lines
    }
}

/// The usage text of the command `fac|fib [--rec] <n>`, line by line, for a
/// program called `program`.
pub open spec fn usage_lines(program: Seq<char>) -> Seq<Seq<char>> {
    seq![
        "Usage:"@,
        "  "@ + program + " fac [--rec] <n>    Calculate factorial"@,
        "  "@ + program + " fib [--rec] <n>    Calculate fibonacci"@,
        ""@,
        "Options:"@,
        "  --rec                 Use recursive implementation (default: iterative)"@,
        ""@,
        "Examples:"@,
        "  "@ + program + " fac 5              Calculate 5! iteratively"@,
        "  "@ + program + " fac --rec 5        Calculate 5! recursively"@,
        "  "@ + program + " fib 10             Calculate fib(10) iteratively"@,
        "  "@ + program + " fib --rec 10       Calculate fib(10) recursively"@,
    ]
}

/// The usage text of a command that takes one number, line by line, with
/// `example` as the number in the sample call.
pub open spec fn single_arg_usage_lines(program: Seq<char>, example: Seq<char>) -> Seq<Seq<char>> {
    seq![
        "Usage: "@ + program + " <n>"@,
        "Example: "@ + program + " "@ + example,
    ]
}

/// Writes the usage text of the command `fac|fib [--rec] <n>`.
pub fn usage(program: &str) -> (lines: Vec<String>)
    ensures
        lines.deep_view() == usage_lines(program@),
{
    let mut lines: Vec<String> = Vec::new();
    lines.push(String::from_str("Usage:"));
    lines.push(line_of("  ", program, " fac [--rec] <n>    Calculate factorial"));
    lines.push(line_of("  ", program, " fib [--rec] <n>    Calculate fibonacci"));
    lines.push(String::from_str(""));
    lines.push(String::from_str("Options:"));
    lines.push(
        String::from_str(
            "  --rec                 Use recursive implementation (default: iterative)",
        ),
    );
    lines.push(String::from_str(""));
    lines.push(String::from_str("Examples:"));
    lines.push(line_of("  ", program, " fac 5              Calculate 5! iteratively"));
    lines.push(line_of("  ", program, " fac --rec 5        Calculate 5! recursively"));
    lines.push(line_of("  ", program, " fib 10             Calculate fib(10) iteratively"));
    lines.push(line_of("  ", program, " fib --rec 10       Calculate fib(10) recursively"));
    lines
}

/// Writes the usage text of a command that takes one number.
pub fn single_arg_usage(program: &str, example: &str) -> (lines: Vec<String>)
    ensures
        lines.deep_view() == single_arg_usage_lines(program@, example@),
{
    let mut second = line_of("Example: ", program, " ");
    second.append(example);
    let mut lines: Vec<String> = Vec::new();
    lines.push(line_of("Usage: ", program, " <n>"));
    lines.push(second);
    lines
}

} // verus!
