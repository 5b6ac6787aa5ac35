use vstd::prelude::*;

pub mod abi;
pub mod catalog;
pub mod clean;
pub mod collide;
pub mod decl;
pub mod diag;
pub mod erase;
pub mod func;
pub mod item;
pub mod module;
pub mod pat;
pub mod ty;
pub mod tymap;
pub mod util;
pub mod wasm;

verus! {

} // verus!
