//! Generalised newtype deriving and deriving via for single-field structs.

pub mod tokens;
pub mod text;
pub mod input;
pub mod fields;
pub mod derives;
pub mod syntax;
pub mod errors;
pub mod attrs;
pub mod codegen;
pub mod generate;
pub mod meaning;
pub mod expand;
pub mod invoke;
pub mod example;
pub mod gnd;
pub mod id;
