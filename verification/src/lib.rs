//! Verified core of TheRustyMod: the rules by which a mod module is turned
//! into exported game functions, the attribute grammar, and the runtime's
//! daemon state.
#![allow(non_snake_case)]

pub mod text;
pub mod args;
pub mod wrapper;
pub mod module;
pub mod runtime;
pub mod syntax;
