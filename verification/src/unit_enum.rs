//! Enumerations whose variants are all bare tags, and the conversions
//! between their variants and text.

use vstd::prelude::*;
use vstd::string::StringExecFns;

use crate::description::{
    is_valid_name, valid_name, Data, DataView, Fields, TypeDescription, TypeDescriptionView,
    Variant, VariantView,
};
use crate::error::DeriveError;

verus! {

/// The message with which a string that names no variant of the type named
/// `ident` is refused.
pub open spec fn not_valid_message(ident: Seq<char>) -> Seq<char> {
    "Not a valid "@ + ident
}

/// The tag of the first of `variants` whose name is `value`, if there is
/// one: the names are tried in declaration order, as the arms of a match are.
pub open spec fn first_match(variants: Seq<Seq<char>>, value: Seq<char>) -> Option<int>
    decreases variants.len(),
{
    if variants.len() == 0 {
        None
    } else if variants.first() == value {
        Some(0)
    } else {
        match first_match(variants.drop_first(), value) {
            Some(tag) => Some(tag + 1),
            None => None,
        }
    }
}

/// What [`first_match`] finds: a tag whose name is `value` and before which
/// no name is `value`, or nothing where no name is `value`.
pub proof fn lemma_first_match(variants: Seq<Seq<char>>, value: Seq<char>)
    ensures
        match first_match(variants, value) {
            Some(tag) => {
                &&& 0 <= tag < variants.len()
                &&& variants[tag] == value
                &&& forall|j: int| 0 <= j < tag ==> variants[j] != value
            },
            None => forall|j: int| 0 <= j < variants.len() ==> variants[j] != value,
        },
    decreases variants.len(),
{
    if variants.len() > 0 && variants.first() != value {
        let rest = variants.drop_first();
        lemma_first_match(rest, value);
        assert(forall|j: int| 0 < j < variants.len() ==> variants[j] == rest[j - 1]);
    }
}

impl TypeDescriptionView {
    /// Every variant is a bare tag.
    pub open spec fn all_unit(self) -> bool {
        forall|i: int| 0 <= i < self.variants().len() ==> (#[trigger] self.variants()[i]).fields == Fields::Unit
    }

    /// The reason for which no conversions are derived for this type, if
    /// there is one: the type is not an enumeration, or else one of its
    /// variants carries fields.
    pub open spec fn shape_error(self) -> Option<DeriveError> {
        if !(self.data is Enum) {
            Some(DeriveError::NotAnEnum)
        } else if !self.all_unit() {
            Some(DeriveError::NotUnit)
        } else {
            None
        }
    }

    /// The type as a unit-only enumeration: its name and the names of its
    /// variants, in declaration order.
    pub open spec fn unit_enum(self) -> UnitEnumView {
        UnitEnumView {
            ident: self.ident,
            variants: self.variants().map_values(|v: VariantView| v.ident),
        }
    }
}

/// The unit-only enumeration of a type whose names are identifiers has
/// identifiers for names.
pub proof fn lemma_unit_enum_well_formed(desc: TypeDescriptionView)
    requires
        desc.well_formed(),
    ensures
        desc.unit_enum().well_formed(),
{
    assert forall|tag: int| 0 <= tag < desc.unit_enum().variants.len() implies valid_name(
        #[trigger] desc.unit_enum().variants[tag],
    ) by {
        assert(desc.unit_enum().variants[tag] == desc.variants()[tag].ident);
    }
}

/// An enumeration whose variants all are bare tags.
///
/// A variant is known by its tag: its position in the declaration, counted
/// from zero.
#[derive(Clone, Debug, PartialEq, Eq)]
pub struct UnitEnum {
    /// The name of the type.
    pub ident: String,
    /// The names of the variants, in declaration order.
    pub variants: Vec<String>,
}

/// The mathematical value of a [`UnitEnum`].
pub struct UnitEnumView {
    pub ident: Seq<char>,
    pub variants: Seq<Seq<char>>,
}

impl View for UnitEnum {
    type V = UnitEnumView;

    open spec fn view(&self) -> UnitEnumView {
        UnitEnumView { ident: self.ident@, variants: self.variants@.map_values(|s: String| s@) }
    }
}

impl UnitEnum {
    /// Checks that `desc` declares an enumeration of bare tags, and collects
    /// the names of its variants.
    ///
    /// A type that is not an enumeration is refused with
    /// [`DeriveError::NotAnEnum`]; an enumeration with a variant that carries
    /// fields is refused with [`DeriveError::NotUnit`]. The names of the
    /// declaration are identifiers, which [`TypeDescription::is_well_formed`]
    /// tests as far as the derivation depends on it.
    pub fn from_description(desc: &TypeDescription) -> (r: Result<UnitEnum, DeriveError>)
        requires
            desc@.well_formed(),
        ensures
            match desc@.shape_error() {
                Some(e) => r == Err::<UnitEnum, DeriveError>(e),
                None => r is Ok && r.unwrap()@ == desc@.unit_enum(),
            },
            r matches Ok(unit_enum) ==> unit_enum@.well_formed(),
    {
        let variants = match &desc.data {
            Data::Enum(variants) => variants,
            _ => {
                return Err(DeriveError::NotAnEnum);
            },
        };
        let mut names: Vec<String> = Vec::new();
        let mut i: usize = 0;
        while i < variants.len()
            invariant
                i <= variants.len(),
                desc@.data == DataView::Enum(variants@.map_values(|v: Variant| v@)),
                names@.len() == i,
                forall|j: int| 0 <= j < i ==> (#[trigger] desc@.variants()[j]).fields == Fields::Unit,
                forall|j: int| 0 <= j < i ==> (#[trigger] names@[j])@ == desc@.variants()[j].ident,
            decreases variants.len() - i,
        {
            match variants[i].fields {
                Fields::Unit => {
                    names.push(variants[i].ident.clone());
                },
                _ => {
                    assert(desc@.variants()[i as int].fields != Fields::Unit);
                    return Err(DeriveError::NotUnit);
                },
            }
            i += 1;
        }
        let unit_enum = UnitEnum { ident: desc.ident.clone(), variants: names };
        assert(unit_enum@.variants =~= desc@.unit_enum().variants);
        proof {
            lemma_unit_enum_well_formed(desc@);
        }
        Ok(unit_enum)
    }

    /// The number of variants.
    pub fn len(&self) -> (n: usize)
        ensures
            n == self@.variants.len(),
    {
        self.variants.len()
    }

    /// Tells whether every name is one: the type's and that of each variant.
    pub fn is_well_formed(&self) -> (b: bool)
        ensures
            b == self@.well_formed(),
    {
        if !is_valid_name(self.ident.as_str()) {
            return false;
        }
        let mut i: usize = 0;
        while i < self.variants.len()
            invariant
                i <= self.variants.len(),
                self.variants.len() == self@.variants.len(),
                valid_name(self@.ident),
                forall|j: int| 0 <= j < i ==> valid_name(#[trigger] self@.variants[j]),
            decreases self.variants.len() - i,
        {
            if !is_valid_name(self.variants[i].as_str()) {
                assert(!valid_name(self@.variants[i as int]));
                return false;
            }
            i += 1;
        }
        true
    }

    /// Tells whether the variants bear different names, that is, whether no
    /// name is declared twice.
    pub fn has_distinct_names(&self) -> (b: bool)
        ensures
            b == self@.variants.no_duplicates(),
    {
        let mut i: usize = 0;
        while i < self.variants.len()
            invariant
                i <= self.variants.len(),
                self.variants.len() == self@.variants.len(),
                forall|k: int, l: int| 0 <= k < l < i ==> self@.variants[k] != self@.variants[l],
            decreases self.variants.len() - i,
        {
            let mut j: usize = 0;
            while j < i
                invariant
                    j <= i < self.variants.len(),
                    self.variants.len() == self@.variants.len(),
                    forall|k: int| 0 <= k < j ==> self@.variants[k] != self@.variants[i as int],
                decreases i - j,
            {
                if self.variants[j] == self.variants[i] {
                    assert(self@.variants[j as int] == self@.variants[i as int]);
                    return false;
                }
                j += 1;
            }
            i += 1;
        }
        assert forall|k: int, l: int|
            0 <= k < self@.variants.len() && 0 <= l < self@.variants.len() && k != l implies self@.variants[k]
            != self@.variants[l] by {
            if k < l {
                assert(self@.variants[k] != self@.variants[l]);
            } else {
                assert(self@.variants[l] != self@.variants[k]);
            }
        }
        true
    }

    /// Converts the variant with the given tag into its fixed string: the
    /// variant's name, exactly as declared, which is not empty.
    pub fn to_str(&self, tag: usize) -> (s: &str)
        requires
            self@.well_formed(),
            self@.has_tag(tag as int),
        ensures
            s@ == self@.to_str(tag as int),
            s@.len() > 0,
    {
        assert(valid_name(self@.variants[tag as int]));
        self.variants[tag].as_str()
    }

    /// Converts the variant with the given tag into an owned copy of its
    /// fixed string.
    pub fn to_string(&self, tag: usize) -> (s: String)
        requires
            self@.well_formed(),
            self@.has_tag(tag as int),
        ensures
            s@ == self@.to_str(tag as int),
            s@.len() > 0,
    {
        String::from_str(self.to_str(tag))
    }

    /// The message with which [`UnitEnum::try_from`] refuses a string that
    /// names no variant of this type.
    pub fn not_valid_message(&self) -> (text: String)
        ensures
            text@ == not_valid_message(self@.ident),
    {
        let mut text = String::from_str("Not a valid ");
        text.append(self.ident.as_str());
        text
    }

    /// Converts a string into the tag of the variant that it names.
    ///
    /// The string is compared with the names as it is: no case is folded, no
    /// blank trimmed, no prefix accepted. A string that is no variant's name
    /// is refused with the message of [`UnitEnum::not_valid_message`].
    pub fn try_from(&self, value: String) -> (r: Result<usize, String>)
        ensures
            match self@.try_from(value@) {
                Ok(tag) => r == Ok::<usize, String>(tag as usize),
                Err(message) => r is Err && r.unwrap_err()@ == message,
            },
    {
        let mut i: usize = 0;
        while i < self.variants.len()
            invariant
                i <= self.variants.len(),
                self.variants.len() == self@.variants.len(),
                forall|j: int| 0 <= j < i ==> self@.variants[j] != value@,
            decreases self.variants.len() - i,
        {
            if self.variants[i] == value {
                proof {
                    assert(self@.variants[i as int] == value@);
                    lemma_first_match(self@.variants, value@);
                }
                return Ok(i);
            }
            i += 1;
        }
        proof {
            lemma_first_match(self@.variants, value@);
        }
        Err(self.not_valid_message())
    }
}

impl UnitEnumView {
    /// Every name is one: the type's and that of each variant.
    pub open spec fn well_formed(self) -> bool {
        &&& valid_name(self.ident)
        &&& forall|tag: int|
            0 <= tag < self.variants.len() ==> valid_name(#[trigger] self.variants[tag])
    }

    /// `tag` is the tag of a variant of the type.
    pub open spec fn has_tag(self, tag: int) -> bool {
        0 <= tag < self.variants.len()
    }

    /// The forward conversion: the fixed string of the variant with the given
    /// tag is the variant's name.
    pub open spec fn to_str(self, tag: int) -> Seq<char>
        recommends
            self.has_tag(tag),
    {
        self.variants[tag]
    }

    /// The reverse conversion: the tag of the first variant whose name is
    /// `value`, or the refusal where no variant has that name.
    pub open spec fn try_from(self, value: Seq<char>) -> Result<int, Seq<char>> {
        match first_match(self.variants, value) {
            Some(tag) => Ok(tag),
            None => Err(not_valid_message(self.ident)),
        }
    }
}

} // verus!
