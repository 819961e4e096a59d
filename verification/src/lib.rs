//! Small numeric utilities on unsigned 64-bit integers: factorial and
//! Fibonacci numbers, each computed iteratively and recursively, and a
//! primality test by trial division.
//!
//! Every function is total and pure. Its contract equates the result with a
//! mathematical function of the argument, so the iterative and the recursive
//! variant of one operation provably agree on every input.
//!
//! Factorial and Fibonacci numbers outgrow 64 bits quickly. Past that point
//! the functions neither trap nor saturate: they return the mathematical
//! value reduced modulo 2^64, see [`wrap::wrapped`].

pub mod cli;
pub mod decimal;
pub mod factorial;
pub mod fibonacci;
pub mod laws;
pub mod primality;
pub mod wrap;

pub use cli::{
    exit_code, parse_invocation, parse_single_arg, run, single_arg_usage, usage, ArgError,
    ErrorKind, Invocation, Operation,
};
pub use decimal::parse_u64;
pub use factorial::{factorial_iterative, factorial_recursive};
pub use fibonacci::{fibonacci_iterative, fibonacci_recursive};
pub use primality::is_prime;
