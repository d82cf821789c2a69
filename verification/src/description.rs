//! The declaration of a type, reduced to what the derivation reads.

use vstd::prelude::*;
use vstd::string::StrSliceExecFns;

verus! {

/// What every name of a declaration is, being an identifier: it is not empty
/// and holds neither a quotation mark nor a backslash, so that it stands for
/// itself when it is written between quotation marks.
pub open spec fn valid_name(name: Seq<char>) -> bool {
    &&& name.len() > 0
    &&& forall|i: int| 0 <= i < name.len() ==> (#[trigger] name[i]) != '"' && name[i] != '\\'
}

/// Tells whether `name` is not empty and holds neither a quotation mark nor
/// a backslash.
pub fn is_valid_name(name: &str) -> (b: bool)
    ensures
        b == valid_name(name@),
{
    let n = name.unicode_len();
    if n == 0 {
        return false;
    }
    let mut i: usize = 0;
    while i < n
        invariant
            i <= n,
            n == name@.len(),
            forall|j: int| 0 <= j < i ==> (#[trigger] name@[j]) != '"' && name@[j] != '\\',
        decreases n - i,
    {
        let c = name.get_char(i);
        if c == '"' || c == '\\' {
            return false;
        }
        i += 1;
    }
    true
}

/// What a variant carries besides its name.
#[derive(Clone, Copy, Debug, PartialEq, Eq, Structural)]
pub enum Fields {
    /// Named fields, as in `Move { x: i32, y: i32 }`.
    Named,
    /// Positional fields, as in `Write(String)`.
    Unnamed,
    /// No fields: the variant is a bare tag.
    Unit,
}

/// One variant of an enumeration.
#[derive(Clone, Debug, PartialEq, Eq)]
pub struct Variant {
    /// The variant's name, exactly as declared.
    pub ident: String,
    /// The kind of data the variant carries.
    pub fields: Fields,
}

/// The mathematical value of a [`Variant`].
pub struct VariantView {
    pub ident: Seq<char>,
    pub fields: Fields,
}

impl View for Variant {
    type V = VariantView;

    open spec fn view(&self) -> VariantView {
        VariantView { ident: self.ident@, fields: self.fields }
    }
}

/// The body of a type declaration.
#[derive(Clone, Debug, PartialEq, Eq)]
pub enum Data {
    /// A `struct`.
    Struct,
    /// An `enum`, with its variants in declaration order.
    Enum(Vec<Variant>),
    /// A `union`.
    Union,
}

/// The mathematical value of a [`Data`].
pub enum DataView {
    Struct,
    Enum(Seq<VariantView>),
    Union,
}

impl View for Data {
    type V = DataView;

    open spec fn view(&self) -> DataView {
        match self {
            Data::Struct => DataView::Struct,
            Data::Enum(variants) => DataView::Enum(variants@.map_values(|v: Variant| v@)),
            Data::Union => DataView::Union,
        }
    }
}

/// A type declaration: its name and its body.
#[derive(Clone, Debug, PartialEq, Eq)]
pub struct TypeDescription {
    /// The name of the type.
    pub ident: String,
    /// The body of the declaration.
    pub data: Data,
}

/// The mathematical value of a [`TypeDescription`].
pub struct TypeDescriptionView {
    pub ident: Seq<char>,
    pub data: DataView,
}

impl View for TypeDescription {
    type V = TypeDescriptionView;

    open spec fn view(&self) -> TypeDescriptionView {
        TypeDescriptionView { ident: self.ident@, data: self.data@ }
    }
}

impl TypeDescriptionView {
    /// The variants of the type, in declaration order; none unless the type
    /// is an enumeration.
    pub open spec fn variants(self) -> Seq<VariantView> {
        match self.data {
            DataView::Enum(variants) => variants,
            _ => Seq::empty(),
        }
    }

    /// Every name is one: the type's and that of each variant.
    pub open spec fn well_formed(self) -> bool {
        &&& valid_name(self.ident)
        &&& forall|i: int|
            0 <= i < self.variants().len() ==> valid_name((#[trigger] self.variants()[i]).ident)
    }
}

impl Variant {
    /// A variant named `ident` that carries `fields`.
    pub fn new(ident: &str, fields: Fields) -> (v: Variant)
        ensures
            v@.ident == ident@,
            v@.fields == fields,
    {
        Variant { ident: ident.to_owned(), fields }
    }

    /// A variant named `ident` that carries no data.
    pub fn unit(ident: &str) -> (v: Variant)
        ensures
            v@.ident == ident@,
            v@.fields == Fields::Unit,
    {
        Variant { ident: ident.to_owned(), fields: Fields::Unit }
    }
}

impl TypeDescription {
    /// The declaration of a type named `ident` with the body `data`.
    pub fn new(ident: &str, data: Data) -> (desc: TypeDescription)
        ensures
            desc@.ident == ident@,
            desc@.data == data@,
    {
        TypeDescription { ident: ident.to_owned(), data }
    }

    /// Tells whether every name of the declaration is one: the type's and
    /// that of each variant.
    pub fn is_well_formed(&self) -> (b: bool)
        ensures
            b == self@.well_formed(),
    {
        if !is_valid_name(self.ident.as_str()) {
            return false;
        }
        match &self.data {
            Data::Enum(variants) => {
                let mut i: usize = 0;
                while i < variants.len()
                    invariant
                        i <= variants.len(),
                        valid_name(self@.ident),
                        self@.variants() == variants@.map_values(|v: Variant| v@),
                        forall|j: int|
                            0 <= j < i ==> valid_name((#[trigger] self@.variants()[j]).ident),
                    decreases variants.len() - i,
                {
                    if !is_valid_name(variants[i].ident.as_str()) {
                        assert(!valid_name(self@.variants()[i as int].ident));
                        return false;
                    }
                    i += 1;
                }
                true
            },
            _ => true,
        }
    }
}

} // verus!
