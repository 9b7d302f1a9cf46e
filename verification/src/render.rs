//! Deterministic rendering of the generated declarations as source text.
//!
//! Output order is fixed: the marker trait first, then one
//! struct-plus-impl unit per variant in declaration order. The order has no
//! semantic effect, since the generated types are independent, but it makes
//! the emitted text reproducible: [`spec_expansion_text`] is a function of
//! the expansion alone, and [`render`] returns exactly it.

use vstd::prelude::*;

use crate::ast::{Expansion, ExpansionV, StatenumError, StructUnit, StructUnitV, TraitDecl,
    TraitDeclV, Visibility};

verus! {

/// The text of a visibility qualifier, including its trailing space when
/// the qualifier is not empty.
pub open spec fn spec_vis_text(v: Visibility) -> Seq<char> {
    match v {
        Visibility::Inherited => Seq::<char>::empty(),
        Visibility::Public => "pub "@,
        Visibility::Crate => "pub(crate) "@,
        Visibility::Super => "pub(super) "@,
    }
}

/// The text of the marker trait declaration.
pub open spec fn spec_trait_text(t: TraitDeclV) -> Seq<char> {
    spec_vis_text(t.vis) + "trait "@ + t.name + " {}\n"@
}

/// The text of one variant's unit: its zero-sized type, then the impl of
/// the marker trait for it. The impl block itself carries no visibility.
pub open spec fn spec_unit_text(u: StructUnitV) -> Seq<char> {
    spec_vis_text(u.vis) + "struct "@ + u.name + ";\n"@ + "impl "@ + u.implements + " for "@
        + u.name + " {}\n"@
}

/// The concatenated text of a sequence of units, in order.
pub open spec fn spec_units_text(units: Seq<StructUnitV>) -> Seq<char>
    decreases units.len(),
{
    if units.len() == 0 {
        Seq::<char>::empty()
    } else {
        spec_units_text(units.drop_last()) + spec_unit_text(units.last())
    }
}

/// The text of a whole expansion: the marker trait, then every unit.
pub open spec fn spec_expansion_text(e: ExpansionV) -> Seq<char> {
    spec_trait_text(e.marker) + spec_units_text(e.units)
}

/// Extending a unit sequence by one appends that unit's text.
proof fn lemma_units_text_snoc(units: Seq<StructUnitV>, i: int)
    requires
        0 <= i < units.len(),
    ensures
        spec_units_text(units.take(i + 1)) == spec_units_text(units.take(i)) + spec_unit_text(
            units[i],
        ),
{
    assert(units.take(i + 1).drop_last() =~= units.take(i));
    assert(units.take(i + 1).last() == units[i]);
}

/// Appends a visibility qualifier's text.
fn append_vis(out: &mut String, v: Visibility)
    ensures
        final(out)@ == old(out)@ + spec_vis_text(v),
{
    match v {
        Visibility::Inherited => {
            proof {
                assert(out@ =~= old(out)@ + spec_vis_text(v));
            }
        },
        Visibility::Public => out.append("pub "),
        Visibility::Crate => out.append("pub(crate) "),
        Visibility::Super => out.append("pub(super) "),
    }
}

/// Appends the marker trait declaration's text.
fn append_trait(out: &mut String, t: &TraitDecl)
    ensures
        final(out)@ == old(out)@ + spec_trait_text(t@),
{
    append_vis(out, t.vis);
    out.append("trait ");
    out.append(t.name.as_str());
    out.append(" {}\n");
}

/// Appends one variant unit's text.
fn append_unit(out: &mut String, u: &StructUnit)
    ensures
        final(out)@ == old(out)@ + spec_unit_text(u@),
{
    append_vis(out, u.vis);
    out.append("struct ");
    out.append(u.name.as_str());
    out.append(";\n");
    out.append("impl ");
    out.append(u.implements.as_str());
    out.append(" for ");
    out.append(u.name.as_str());
    out.append(" {}\n");
}

/// Renders an expansion as source text, exactly as
/// [`spec_expansion_text`] describes it.
pub fn render(e: &Expansion) -> (s: String)
    ensures
        s@ == spec_expansion_text(e@),
{
    let mut out = String::new();
    append_trait(&mut out, &e.marker);
    let n = e.units.len();
    let mut i: usize = 0;
    while i < n
        invariant
            i <= n,
            n == e.units.len(),
            out@ == spec_trait_text(e.marker@) + spec_units_text(e.units.deep_view().take(i as int)),
        decreases n - i,
    {
        append_unit(&mut out, &e.units[i]);
        proof {
            lemma_units_text_snoc(e.units.deep_view(), i as int);
            assert(e.units.deep_view()[i as int] == e.units[i as int]@);
        }
        i = i + 1;
    }
    proof {
        assert(e.units.deep_view().take(n as int) =~= e.units.deep_view());
    }
    out
}

/// The diagnostic carried by the transformation's sole error kind.
pub fn diagnostic(e: &StatenumError) -> (s: String)
    ensures
        s@ == "statenum can only be used with enums"@,
{
    match e {
        StatenumError::NotAnEnum => "statenum can only be used with enums".to_owned(),
    }
}

} // verus!
