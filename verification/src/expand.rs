//! The transformation rule: from an annotated item and an optional marker
//! name to the generated declarations.
//!
//! [`spec_statenum`] is the rule itself, a total function at the
//! specification level; [`_statenum`] executes it. An enumeration yields a
//! marker trait (named by the argument, or `"State"` by default) and one
//! unit per variant; any other item yields the single error
//! [`StatenumError::NotAnEnum`].

use vstd::prelude::*;

use crate::ast::{
    EnumDecl, EnumDeclV, Expansion, ExpansionV, Item, ItemV, StatenumError, StructUnit,
    StructUnitV, TraitDecl, TraitDeclV, Visibility,
};

verus! {

/// The marker trait's name when the annotation carries no argument.
pub open spec fn default_marker_name() -> Seq<char> {
    "State"@
}

/// The effective marker name: the explicit argument if present, the default
/// otherwise.
pub open spec fn spec_marker_name(args: Option<Seq<char>>) -> Seq<char> {
    match args {
        Option::Some(n) => n,
        Option::None => default_marker_name(),
    }
}

/// The unit generated for one variant: a zero-sized type of the variant's
/// name, carrying the enumeration's visibility and implementing the marker.
pub open spec fn spec_unit(vis: Visibility, variant: Seq<char>, marker: Seq<char>) -> StructUnitV {
    StructUnitV { vis, name: variant, implements: marker }
}

/// The full expansion of an enumeration under a given marker name: the
/// marker trait, then one unit per variant in declaration order.
pub open spec fn spec_expand(e: EnumDeclV, marker: Seq<char>) -> ExpansionV {
    ExpansionV {
        marker: TraitDeclV { vis: e.vis, name: marker },
        units: Seq::new(e.variants.len(), |i: int| spec_unit(e.vis, e.variants[i], marker)),
    }
}

/// The transformation rule, total over all inputs: an enumeration expands,
/// everything else is rejected with the sole error kind.
pub open spec fn spec_statenum(args: Option<Seq<char>>, item: ItemV) -> Result<
    ExpansionV,
    StatenumError,
> {
    match item {
        ItemV::Enum(e) => Result::Ok(spec_expand(e, spec_marker_name(args))),
        _ => Result::Err(StatenumError::NotAnEnum),
    }
}

/// View of an executable transformation result, for stating contracts.
pub open spec fn result_view(r: Result<Expansion, StatenumError>) -> Result<
    ExpansionV,
    StatenumError,
> {
    match r {
        Result::Ok(e) => Result::Ok(e@),
        Result::Err(err) => Result::Err(err),
    }
}

/// The annotation's parsed argument: an optional name for the generated
/// marker trait.
pub struct StatenumArgs {
    pub name: Option<String>,
}

impl StatenumArgs {
    /// Parses the annotation's argument list: a name if one was given.
    pub fn parse(input: Option<String>) -> (r: StatenumArgs)
        ensures
            r.name.deep_view() == input.deep_view(),
    {
        StatenumArgs { name: input }
    }

    /// The effective marker name these arguments select.
    pub fn marker_name(self) -> (r: String)
        ensures
            r@ == spec_marker_name(self.name.deep_view()),
    {
        match self.name {
            Option::Some(n) => n,
            Option::None => "State".to_owned(),
        }
    }
}

/// The transformation's executable core: expands an enumeration into its
/// marker trait and units, and rejects every other item.
pub fn _statenum(args: Option<String>, item: Item) -> (r: Result<Expansion, StatenumError>)
    ensures
        result_view(r) == spec_statenum(args.deep_view(), item@),
{
    let ghost args_v = args.deep_view();
    let parsed = StatenumArgs::parse(args);
    let name = parsed.marker_name();
    let data = match item {
        Item::Enum(e) => e,
        _ => {
            return Result::Err(StatenumError::NotAnEnum);
        },
    };
    let mut units: Vec<StructUnit> = Vec::new();
    let n = data.variants.len();
    let mut i: usize = 0;
    while i < n
        invariant
            i <= n,
            n == data.variants.len(),
            name@ == spec_marker_name(args_v),
            units.deep_view().len() == i as int,
            forall|j: int|
                0 <= j < i ==> #[trigger] units.deep_view()[j] == spec_unit(
                    data@.vis,
                    data@.variants[j],
                    name@,
                ),
        decreases n - i,
    {
        let ghost prev = units.deep_view();
        units.push(
            StructUnit {
                vis: data.vis,
                name: data.variants[i].clone(),
                implements: name.clone(),
            },
        );
        proof {
            assert forall|j: int| 0 <= j < i + 1 implies #[trigger] units.deep_view()[j]
                == spec_unit(data@.vis, data@.variants[j], name@) by {
                if j < i {
                    assert(units.deep_view()[j] == prev[j]);
                }
            }
        }
        i = i + 1;
    }
    let expansion = Expansion { marker: TraitDecl { vis: data.vis, name }, units };
    proof {
        assert(expansion@.units =~= spec_expand(data@, spec_marker_name(args_v)).units);
    }
    Result::Ok(expansion)
}

} // verus!
