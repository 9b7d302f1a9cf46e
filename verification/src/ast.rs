//! Syntactic model of the items the transformation reads and emits.
//!
//! The transformation inspects an annotated item: its syntactic category,
//! its visibility qualifier, and (for an enumeration) its ordered list of
//! variant names. It emits a marker trait declaration followed by one
//! unit-struct-plus-impl per variant. These types model exactly that data,
//! with views over `Seq<char>` for use in specifications.

use vstd::prelude::*;

verus! {

/// A visibility qualifier, propagated unchanged from the annotated item to
/// every generated declaration.
#[derive(Clone, Copy, PartialEq, Eq, Structural, Debug)]
pub enum Visibility {
    /// No qualifier: private to the enclosing module.
    Inherited,
    /// `pub`
    Public,
    /// `pub(crate)`
    Crate,
    /// `pub(super)`
    Super,
}

/// An enumeration declaration: the only item category the transformation
/// accepts. Variant names are kept in declaration order; variants are
/// assumed to carry no fields.
pub struct EnumDecl {
    pub vis: Visibility,
    pub name: String,
    pub variants: Vec<String>,
}

/// Specification-level view of an [`EnumDecl`].
pub struct EnumDeclV {
    pub vis: Visibility,
    pub name: Seq<char>,
    pub variants: Seq<Seq<char>>,
}

impl View for EnumDecl {
    type V = EnumDeclV;

    open spec fn view(&self) -> EnumDeclV {
        EnumDeclV { vis: self.vis, name: self.name@, variants: self.variants.deep_view() }
    }
}

/// The annotated item, classified by syntactic category. Only the category
/// matters to the transformation: every non-enum item is rejected.
pub enum Item {
    Enum(EnumDecl),
    Struct(String),
    Union(String),
    Function(String),
}

/// Specification-level view of an [`Item`].
pub enum ItemV {
    Enum(EnumDeclV),
    Struct(Seq<char>),
    Union(Seq<char>),
    Function(Seq<char>),
}

impl View for Item {
    type V = ItemV;

    open spec fn view(&self) -> ItemV {
        match self {
            Item::Enum(e) => ItemV::Enum(e@),
            Item::Struct(n) => ItemV::Struct(n@),
            Item::Union(n) => ItemV::Union(n@),
            Item::Function(n) => ItemV::Function(n@),
        }
    }
}

/// The sole error of the transformation: the annotated item is not an
/// enumeration.
#[derive(Clone, Copy, PartialEq, Eq, Structural, Debug)]
pub enum StatenumError {
    NotAnEnum,
}

/// The generated marker trait: an empty trait used purely as a compile-time
/// tag, carrying the source enumeration's visibility.
pub struct TraitDecl {
    pub vis: Visibility,
    pub name: String,
}

/// Specification-level view of a [`TraitDecl`].
pub struct TraitDeclV {
    pub vis: Visibility,
    pub name: Seq<char>,
}

impl View for TraitDecl {
    type V = TraitDeclV;

    open spec fn view(&self) -> TraitDeclV {
        TraitDeclV { vis: self.vis, name: self.name@ }
    }
}

/// One generated unit per variant: a zero-sized nominal type named after the
/// variant, together with an impl of the marker trait for it.
pub struct StructUnit {
    pub vis: Visibility,
    pub name: String,
    pub implements: String,
}

/// Specification-level view of a [`StructUnit`].
pub struct StructUnitV {
    pub vis: Visibility,
    pub name: Seq<char>,
    pub implements: Seq<char>,
}

impl View for StructUnit {
    type V = StructUnitV;

    open spec fn view(&self) -> StructUnitV {
        StructUnitV { vis: self.vis, name: self.name@, implements: self.implements@ }
    }
}

impl DeepView for StructUnit {
    type V = StructUnitV;

    open spec fn deep_view(&self) -> StructUnitV {
        self@
    }
}

/// The complete output of a successful transformation: the marker trait
/// first, then one unit per variant in the enumeration's declaration order.
pub struct Expansion {
    pub marker: TraitDecl,
    pub units: Vec<StructUnit>,
}

/// Specification-level view of an [`Expansion`].
pub struct ExpansionV {
    pub marker: TraitDeclV,
    pub units: Seq<StructUnitV>,
}

impl View for Expansion {
    type V = ExpansionV;

    open spec fn view(&self) -> ExpansionV {
        ExpansionV { marker: self.marker@, units: self.units.deep_view() }
    }
}

} // verus!
