//! Intermediate representation and dispatch synthesis for message-driven
//! actors: annotation parsing, the structural contract model, selector
//! computation and the method-index dispatch plan.

pub mod error;
pub mod syntax;
pub mod grammar;
pub mod selector;
pub mod attrs;
pub mod utils;
pub mod item_impl;
pub mod item;
pub mod item_mod;
pub mod contract;
pub mod dispatch;
pub mod codegen;
pub mod generator;
pub mod laws;
