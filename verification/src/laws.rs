//! Laws of the transformation, stated over the specification-level rule
//! [`spec_statenum`] and proved once for all inputs.
//!
//! The executable transformation's contract pins its result to
//! [`spec_statenum`], so each law carries over to every call of
//! [`crate::statenum`].

use vstd::prelude::*;

use crate::ast::{EnumDeclV, ExpansionV, ItemV, StatenumError};
use crate::expand::{default_marker_name, spec_statenum};
use crate::render::spec_expansion_text;

verus! {

/// With no explicit name argument, an enumeration with N variants expands to
/// exactly one marker abstraction named `"State"` and N types, each named
/// after its variant and each implementing `"State"`.
pub proof fn lemma_default_marker_name(e: EnumDeclV)
    ensures
        spec_statenum(Option::None, ItemV::Enum(e)) is Ok,
        spec_statenum(Option::None, ItemV::Enum(e)) matches Result::Ok(x) ==> {
            &&& x.marker.name == default_marker_name()
            &&& x.units.len() == e.variants.len()
            &&& forall|i: int|
                0 <= i < x.units.len() ==> (#[trigger] x.units[i]).name == e.variants[i]
            &&& forall|i: int|
                0 <= i < x.units.len() ==> (#[trigger] x.units[i]).implements
                    == default_marker_name()
        },
{
}

/// With an explicit name argument, the marker abstraction is named by that
/// argument instead of `"State"`, and every generated type implements it.
pub proof fn lemma_explicit_marker_name(e: EnumDeclV, marker: Seq<char>)
    ensures
        spec_statenum(Option::Some(marker), ItemV::Enum(e)) is Ok,
        spec_statenum(Option::Some(marker), ItemV::Enum(e)) matches Result::Ok(x) ==> {
            &&& x.marker.name == marker
            &&& x.units.len() == e.variants.len()
            &&& forall|i: int|
                0 <= i < x.units.len() ==> (#[trigger] x.units[i]).name == e.variants[i]
            &&& forall|i: int|
                0 <= i < x.units.len() ==> (#[trigger] x.units[i]).implements == marker
        },
{
}

/// Visibility propagation: every generated declaration carries the source
/// enumeration's own visibility, whatever the name argument.
pub proof fn lemma_visibility_propagation(args: Option<Seq<char>>, e: EnumDeclV)
    ensures
        spec_statenum(args, ItemV::Enum(e)) matches Result::Ok(x) ==> {
            &&& x.marker.vis == e.vis
            &&& forall|i: int| 0 <= i < x.units.len() ==> (#[trigger] x.units[i]).vis == e.vis
        },
{
}

/// A non-enum item is always rejected with the sole error kind, whatever the
/// arguments: no declarations are emitted.
pub proof fn lemma_non_enum_rejected(args: Option<Seq<char>>, item: ItemV)
    requires
        !(item is Enum),
    ensures
        spec_statenum(args, item) == Result::<ExpansionV, StatenumError>::Err(
            StatenumError::NotAnEnum,
        ),
{
}

/// Determinism: the transformation applied twice to the same item with the
/// same arguments yields the same declarations.
pub proof fn lemma_statenum_deterministic(
    args1: Option<Seq<char>>,
    item1: ItemV,
    args2: Option<Seq<char>>,
    item2: ItemV,
)
    requires
        args1 == args2,
        item1 == item2,
    ensures
        spec_statenum(args1, item1) == spec_statenum(args2, item2),
{
}

/// Determinism of the emitted text: equal expansions render to
/// byte-identical source text.
pub proof fn lemma_render_deterministic(x1: ExpansionV, x2: ExpansionV)
    requires
        x1 == x2,
    ensures
        spec_expansion_text(x1) == spec_expansion_text(x2),
{
}

} // verus!
