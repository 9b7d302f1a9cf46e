//! A typestate declaration generator, modelled and verified at the level of
//! syntax: given an enumeration listing state names, it produces one empty
//! marker trait and, per variant, one zero-sized type implementing that
//! trait, so that states become distinct nominal types usable as generic
//! markers.
//!
//! The annotated item is modelled by [`ast::Item`], the generated
//! declarations by [`ast::Expansion`], and the transformation itself is
//! [`statenum`].

use vstd::prelude::*;

pub mod ast;
pub mod expand;
pub mod laws;
pub mod render;

use crate::ast::{Expansion, Item, StatenumError};

verus! {

/// Applies the transformation to an annotated item: an enumeration yields
/// its marker trait and one unit type per variant; any other item is
/// rejected with [`StatenumError::NotAnEnum`].
pub fn statenum(args: Option<String>, item: Item) -> (r: Result<Expansion, StatenumError>)
    ensures
        expand::result_view(r) == expand::spec_statenum(args.deep_view(), item@),
{
    expand::_statenum(args, item)
}

} // verus!
