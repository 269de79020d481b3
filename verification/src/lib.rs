//! Rewriting of `async fn` methods in traits and impls into ordinary methods
//! that return a pinned, boxed future.
//!
//! The syntax is held in plain data types of this crate. Every type has a
//! mathematical view, in which strings and vectors are sequences, and every
//! rewriting step is stated over those views and proved.
//!
//! - [`token`]: positions, words, lifetimes and token trees;
//! - [`ty`]: types, paths and bounds;
//! - [`sig`]: signatures with their parameters and generics;
//! - [`item`]: traits, impls, methods and bodies;
//! - [`decimal`]: the numbers in generated names;
//! - [`lifetime`]: collecting lifetimes and naming those left out;
//! - [`receiver`]: finding and renaming the receiver and `Self`;
//! - [`expand`]: the rewriting of signatures, bodies, traits and impls;
//! - [`laws`]: what holds of every rewriting.

pub mod token;
pub mod ty;
pub mod sig;
pub mod item;
pub mod decimal;
pub mod lifetime;
pub mod receiver;
pub mod expand;
pub mod laws;
