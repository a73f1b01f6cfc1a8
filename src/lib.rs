//! Small verified building blocks: an integer wrapper that only ever holds
//! even values, and the classification behind FizzBuzz.
pub mod even;
pub mod fizzbuzz;
