//! A deterministic "intelligence" scoring model built from three scalar
//! layers. This crate holds the integer-valued part of the model: the
//! Fibonacci regulation term of the dynamic layer, and the registry of
//! math-competition problems with their annotated proof steps.

pub mod dynamics;
pub mod problems;

pub use dynamics::fibonacci_sequence;
pub use dynamics::DynamicLayer;
pub use problems::ErdosProblem;
pub use problems::MathSolutions;
pub use problems::ProblemSummary;
pub use problems::ProofStep;
