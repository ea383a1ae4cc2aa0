//! Decision logic of a three-step package-manager maintenance run:
//! which steps run, with which arguments, and how each step's captured
//! output is summarised for the operator.
pub mod render;
pub mod steps;
pub mod text;
