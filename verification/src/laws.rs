//! What holds of the derived conversions, for every type and every string.

use vstd::prelude::*;

use crate::description::{valid_name, Fields, TypeDescriptionView};
use crate::error::DeriveError;
use crate::unit_enum::{first_match, lemma_first_match, not_valid_message, UnitEnumView};

verus! {

/// A variant that is converted into its string and back is the variant it
/// was, in every enumeration whose variants bear different names.
pub proof fn lemma_round_trip(e: UnitEnumView, tag: int)
    requires
        e.has_tag(tag),
        e.variants.no_duplicates(),
    ensures
        e.try_from(e.to_str(tag)) == Ok::<int, Seq<char>>(tag),
{
    lemma_first_match(e.variants, e.to_str(tag));
}

/// A string that is converted into a variant is that variant's string: the
/// forward conversion undoes every reverse conversion that succeeds.
pub proof fn lemma_try_from_then_to_str(e: UnitEnumView, value: Seq<char>)
    ensures
        e.try_from(value) matches Ok(tag) ==> e.has_tag(tag) && e.to_str(tag) == value,
{
    lemma_first_match(e.variants, value);
}

/// The forward conversion is defined for every variant of every type for
/// which conversions are derived; its string is the name that the variant was
/// declared with, and is not empty.
pub proof fn lemma_to_str_is_declared_name(desc: TypeDescriptionView, tag: int)
    requires
        desc.well_formed(),
        desc.shape_error() is None,
        0 <= tag < desc.variants().len(),
    ensures
        desc.unit_enum().has_tag(tag),
        desc.unit_enum().to_str(tag) == desc.variants()[tag].ident,
        desc.unit_enum().to_str(tag).len() > 0,
{
    assert(valid_name(desc.variants()[tag].ident));
}

/// The reverse conversion succeeds on the declared names and on no other
/// string: a string that differs from every name, be it only in the case of
/// a letter or by a blank, is refused, and with the message that bears the
/// type's name.
pub proof fn lemma_try_from_exact(e: UnitEnumView, value: Seq<char>)
    ensures
        e.try_from(value) is Ok <==> e.variants.contains(value),
        !e.variants.contains(value) ==> e.try_from(value) == Err::<int, Seq<char>>(
            not_valid_message(e.ident),
        ),
{
    lemma_first_match(e.variants, value);
    if first_match(e.variants, value) is None {
        assert forall|i: int| 0 <= i < e.variants.len() implies e.variants[i] != value by {}
    }
}

/// Conversions are derived for the enumerations whose variants all are bare
/// tags, and for no other type: a type that is not an enumeration is refused
/// as such, and an enumeration is refused as soon as one of its variants
/// carries fields.
pub proof fn lemma_refused_shapes(desc: TypeDescriptionView)
    ensures
        !(desc.data is Enum) ==> desc.shape_error() == Some(DeriveError::NotAnEnum),
        desc.data is Enum && (exists|i: int|
            0 <= i < desc.variants().len() && (#[trigger] desc.variants()[i]).fields
                != Fields::Unit) ==> desc.shape_error() == Some(DeriveError::NotUnit),
        desc.data is Enum && (forall|i: int|
            0 <= i < desc.variants().len() ==> (#[trigger] desc.variants()[i]).fields
                == Fields::Unit) ==> desc.shape_error() is None,
{
}

/// The string of a variant depends on the variant's name alone: two variants
/// that bear one name have one string, whatever their types and their tags.
pub proof fn lemma_to_str_depends_on_name(a: UnitEnumView, i: int, b: UnitEnumView, j: int)
    requires
        a.has_tag(i),
        b.has_tag(j),
        a.variants[i] == b.variants[j],
    ensures
        a.to_str(i) == b.to_str(j),
{
}

/// Declaring the variants of a type in another order changes no conversion:
/// every variant keeps its string, and every string is converted into the
/// variant of the same name, or refused with the same message.
pub proof fn lemma_order_is_immaterial(a: UnitEnumView, b: UnitEnumView, value: Seq<char>)
    requires
        a.ident == b.ident,
        a.variants.to_multiset() == b.variants.to_multiset(),
    ensures
        forall|i: int| a.has_tag(i) ==> b.variants.contains(#[trigger] a.to_str(i)),
        match a.try_from(value) {
            Ok(i) => b.try_from(value) matches Ok(j) && b.to_str(j) == a.to_str(i),
            Err(message) => b.try_from(value) == Err::<int, Seq<char>>(message),
        },
{
    a.variants.to_multiset_ensures();
    b.variants.to_multiset_ensures();
    assert forall|i: int| a.has_tag(i) implies b.variants.contains(#[trigger] a.to_str(i)) by {
        let name = a.variants[i];
        assert(a.variants.contains(name));
        assert(a.variants.to_multiset().count(name) > 0);
    }
    assert(a.variants.contains(value) <==> a.variants.to_multiset().count(value) > 0);
    lemma_try_from_exact(a, value);
    lemma_try_from_exact(b, value);
    lemma_first_match(a.variants, value);
    lemma_first_match(b.variants, value);
}

} // verus!
