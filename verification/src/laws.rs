//! What the functions of the library promise, said of their arguments and results alone.
//!
//! In each law `call_ensures(f, args, result)` means that calling `f` on `args` can give `result`;
//! what the law concludes holds of every such result.

pub mod chain;
pub mod price;
pub mod runs;
pub mod text;
