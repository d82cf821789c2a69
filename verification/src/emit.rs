//! The Rust source of the derived conversions.
//!
//! Every function of this module writes one piece of source text, and says in
//! its contract which text that is, character for character. Names are
//! spliced in as they are declared. They are identifiers; what the text
//! depends on is that none is empty and none holds a quotation mark or a
//! backslash, so that a name between quotation marks is a literal of that
//! name.

use vstd::prelude::*;
use vstd::string::StringExecFns;

use crate::description::TypeDescription;
use crate::error::DeriveError;
use crate::unit_enum::{not_valid_message, UnitEnum, UnitEnumView};

verus! {

/// The arm of the forward match for one variant: the variant's path, and the
/// variant's name as a string literal.
pub open spec fn into_arm(ident: Seq<char>, variant: Seq<char>) -> Seq<char> {
    "            "@ + ident + "::"@ + variant + " => \""@ + variant + "\",\n"@
}

/// The arms of the forward match, one for each variant, in declaration order.
pub open spec fn into_arms(ident: Seq<char>, variants: Seq<Seq<char>>) -> Seq<char> {
    variants.map_values(|variant: Seq<char>| into_arm(ident, variant)).flatten()
}

/// The conversion from a reference to the type into a fixed string: a match
/// on the value behind the reference, with one arm for each variant and no
/// other arm. No pattern binds anything, so the value is not moved; and an
/// enumeration without variants gets a match without arms, which is complete
/// for the value though it would not be for the reference.
pub open spec fn ref_to_str_impl(e: UnitEnumView) -> Seq<char> {
    "impl From<&"@ + e.ident + "> for &'static str {\n    fn from(e: &"@ + e.ident
        + ") -> &'static str {\n        match *e {\n"@ + into_arms(e.ident, e.variants)
        + "        }\n    }\n}\n"@
}

/// The conversion from a value of the type into a fixed string, by way of
/// the conversion from a reference.
pub open spec fn value_to_str_impl(ident: Seq<char>) -> Seq<char> {
    "\nimpl From<"@ + ident + "> for &'static str {\n    fn from(e: "@ + ident
        + ") -> &'static str {\n        <&'static str>::from(&e)\n    }\n}\n"@
}

/// The conversion from a reference to the type into an owned string, by way
/// of the fixed string.
pub open spec fn ref_to_string_impl(ident: Seq<char>) -> Seq<char> {
    "\nimpl From<&"@ + ident + "> for String {\n    fn from(e: &"@ + ident
        + ") -> String {\n        <&'static str>::from(e).to_string()\n    }\n}\n"@
}

/// The conversion from a value of the type into an owned string, by way of
/// the conversion from a reference.
pub open spec fn value_to_string_impl(ident: Seq<char>) -> Seq<char> {
    "\nimpl From<"@ + ident + "> for String {\n    fn from(e: "@ + ident
        + ") -> String {\n        String::from(&e)\n    }\n}\n"@
}

/// The hook through which diesel writes a value of the type as text: for
/// every backend that can write a `str`, the value's fixed string is handed
/// to the backend's own writer of `str`.
pub open spec fn to_sql_impl(ident: Seq<char>) -> Seq<char> {
    "\nimpl<DB> diesel::serialize::ToSql<diesel::sql_types::Text, DB> for "@ + ident
        + "\nwhere\n    DB: diesel::backend::Backend,\n    str: diesel::serialize::ToSql<diesel::sql_types::Text, DB>,\n{\n    fn to_sql<'b>(&'b self, out: &mut diesel::serialize::Output<'b, '_, DB>) -> diesel::serialize::Result {\n        let s = <&'static str>::from(self);\n        s.to_sql(out)\n    }\n}\n"@
}

/// The source of the conversions from the type into text: the four
/// conversions into strings, then the hook for diesel.
pub open spec fn into_string_source(e: UnitEnumView) -> Seq<char> {
    ref_to_str_impl(e) + value_to_str_impl(e.ident) + ref_to_string_impl(e.ident)
        + value_to_string_impl(e.ident) + to_sql_impl(e.ident)
}

/// The arm of the reverse match for one variant: the variant's name as a
/// string literal, and the variant.
pub open spec fn tryfrom_arm(variant: Seq<char>) -> Seq<char> {
    "            \""@ + variant + "\" => Self::"@ + variant + ",\n"@
}

/// The arms of the reverse match, one for each variant, in declaration order.
pub open spec fn tryfrom_arms(variants: Seq<Seq<char>>) -> Seq<char> {
    variants.map_values(|variant: Seq<char>| tryfrom_arm(variant)).flatten()
}

/// The source of the conversion from an owned string into the type: a match
/// on the string's content with one arm for each variant, and a last arm
/// that refuses every other string with the message of
/// [`not_valid_message`], written out as a literal.
pub open spec fn tryfrom_source(e: UnitEnumView) -> Seq<char> {
    "impl TryFrom<String> for "@ + e.ident
        + " {\n    type Error = &'static str;\n\n    fn try_from(value: String) -> Result<Self, Self::Error> {\n        Ok(match value.as_str() {\n"@
        + tryfrom_arms(e.variants) + "            _ => {\n                return Err(\""@
        + not_valid_message(e.ident) + "\");\n            }\n        })\n    }\n}\n"@
}

/// The whole derived source: the conversions into text, a blank line, and
/// the conversion from text.
pub open spec fn derived_source(e: UnitEnumView) -> Seq<char> {
    into_string_source(e) + "\n"@ + tryfrom_source(e)
}

/// The arms of the first `n + 1` variants are the arms of the first `n`,
/// followed by the arm of the variant at `n`.
proof fn lemma_arms_step(variants: Seq<Seq<char>>, arm: spec_fn(Seq<char>) -> Seq<char>, n: int)
    requires
        0 <= n < variants.len(),
    ensures
        variants.take(n + 1).map_values(arm).flatten() == variants.take(n).map_values(
            arm,
        ).flatten() + arm(variants[n]),
{
    let done = variants.take(n).map_values(arm);
    assert(variants.take(n + 1).map_values(arm) =~= done.push(arm(variants[n])));
    done.lemma_flatten_push(arm(variants[n]));
}

fn emit_into_arm(ident: &str, variant: &str) -> (text: String)
    ensures
        text@ == into_arm(ident@, variant@),
{
    let mut text = String::from_str("            ");
    text.append(ident);
    text.append("::");
    text.append(variant);
    text.append(" => \"");
    text.append(variant);
    text.append("\",\n");
    text
}

fn emit_into_arms(e: &UnitEnum) -> (text: String)
    ensures
        text@ == into_arms(e@.ident, e@.variants),
{
    let mut text = String::new();
    let mut i: usize = 0;
    while i < e.variants.len()
        invariant
            i <= e.variants.len(),
            e.variants.len() == e@.variants.len(),
            text@ == into_arms(e@.ident, e@.variants.take(i as int)),
        decreases e.variants.len() - i,
    {
        let arm = emit_into_arm(e.ident.as_str(), e.variants[i].as_str());
        proof {
            lemma_arms_step(
                e@.variants,
                |variant: Seq<char>| into_arm(e@.ident, variant),
                i as int,
            );
        }
        text.append(arm.as_str());
        i += 1;
    }
    assert(e@.variants.take(i as int) =~= e@.variants);
    text
}

fn emit_ref_to_str_impl(e: &UnitEnum) -> (text: String)
    ensures
        text@ == ref_to_str_impl(e@),
{
    let arms = emit_into_arms(e);
    let mut text = String::from_str("impl From<&");
    text.append(e.ident.as_str());
    text.append("> for &'static str {\n    fn from(e: &");
    text.append(e.ident.as_str());
    text.append(") -> &'static str {\n        match *e {\n");
    text.append(arms.as_str());
    text.append("        }\n    }\n}\n");
    text
}

fn emit_value_to_str_impl(ident: &str) -> (text: String)
    ensures
        text@ == value_to_str_impl(ident@),
{
    let mut text = String::from_str("\nimpl From<");
    text.append(ident);
    text.append("> for &'static str {\n    fn from(e: ");
    text.append(ident);
    text.append(") -> &'static str {\n        <&'static str>::from(&e)\n    }\n}\n");
    text
}

fn emit_ref_to_string_impl(ident: &str) -> (text: String)
    ensures
        text@ == ref_to_string_impl(ident@),
{
    let mut text = String::from_str("\nimpl From<&");
    text.append(ident);
    text.append("> for String {\n    fn from(e: &");
    text.append(ident);
    text.append(") -> String {\n        <&'static str>::from(e).to_string()\n    }\n}\n");
    text
}

fn emit_value_to_string_impl(ident: &str) -> (text: String)
    ensures
        text@ == value_to_string_impl(ident@),
{
    let mut text = String::from_str("\nimpl From<");
    text.append(ident);
    text.append("> for String {\n    fn from(e: ");
    text.append(ident);
    text.append(") -> String {\n        String::from(&e)\n    }\n}\n");
    text
}

fn emit_to_sql_impl(ident: &str) -> (text: String)
    ensures
        text@ == to_sql_impl(ident@),
{
    let mut text = String::from_str(
        "\nimpl<DB> diesel::serialize::ToSql<diesel::sql_types::Text, DB> for ",
    );
    text.append(ident);
    text.append(
        "\nwhere\n    DB: diesel::backend::Backend,\n    str: diesel::serialize::ToSql<diesel::sql_types::Text, DB>,\n{\n    fn to_sql<'b>(&'b self, out: &mut diesel::serialize::Output<'b, '_, DB>) -> diesel::serialize::Result {\n        let s = <&'static str>::from(self);\n        s.to_sql(out)\n    }\n}\n",
    );
    text
}

fn emit_tryfrom_arm(variant: &str) -> (text: String)
    ensures
        text@ == tryfrom_arm(variant@),
{
    let mut text = String::from_str("            \"");
    text.append(variant);
    text.append("\" => Self::");
    text.append(variant);
    text.append(",\n");
    text
}

fn emit_tryfrom_arms(e: &UnitEnum) -> (text: String)
    ensures
        text@ == tryfrom_arms(e@.variants),
{
    let mut text = String::new();
    let mut i: usize = 0;
    while i < e.variants.len()
        invariant
            i <= e.variants.len(),
            e.variants.len() == e@.variants.len(),
            text@ == tryfrom_arms(e@.variants.take(i as int)),
        decreases e.variants.len() - i,
    {
        let arm = emit_tryfrom_arm(e.variants[i].as_str());
        proof {
            lemma_arms_step(e@.variants, |variant: Seq<char>| tryfrom_arm(variant), i as int);
        }
        text.append(arm.as_str());
        i += 1;
    }
    assert(e@.variants.take(i as int) =~= e@.variants);
    text
}

impl UnitEnum {
    /// Writes the source of the conversions from this type into text.
    pub fn into_string_source(&self) -> (text: String)
        requires
            self@.well_formed(),
        ensures
            text@ == into_string_source(self@),
    {
        let mut text = emit_ref_to_str_impl(self);
        text.append(emit_value_to_str_impl(self.ident.as_str()).as_str());
        text.append(emit_ref_to_string_impl(self.ident.as_str()).as_str());
        text.append(emit_value_to_string_impl(self.ident.as_str()).as_str());
        text.append(emit_to_sql_impl(self.ident.as_str()).as_str());
        text
    }

    /// Writes the source of the conversion from text into this type.
    pub fn tryfrom_source(&self) -> (text: String)
        requires
            self@.well_formed(),
        ensures
            text@ == tryfrom_source(self@),
    {
        let arms = emit_tryfrom_arms(self);
        let mut text = String::from_str("impl TryFrom<String> for ");
        text.append(self.ident.as_str());
        text.append(
            " {\n    type Error = &'static str;\n\n    fn try_from(value: String) -> Result<Self, Self::Error> {\n        Ok(match value.as_str() {\n",
        );
        text.append(arms.as_str());
        text.append("            _ => {\n                return Err(\"");
        text.append(self.not_valid_message().as_str());
        text.append("\");\n            }\n        })\n    }\n}\n");
        text
    }
}

/// Derives the conversions from the type that `desc` declares into text, and
/// the hook for diesel.
///
/// A type that is not an enumeration, or one of whose variants carries
/// fields, is refused; for every other type the source is written. The names
/// of the declaration are identifiers, which
/// [`TypeDescription::is_well_formed`] tests as far as the text depends on it.
pub fn derive_into_string(desc: &TypeDescription) -> (r: Result<String, DeriveError>)
    requires
        desc@.well_formed(),
    ensures
        match desc@.shape_error() {
            Some(e) => r == Err::<String, DeriveError>(e),
            None => r is Ok && r.unwrap()@ == into_string_source(desc@.unit_enum()),
        },
{
    match UnitEnum::from_description(desc) {
        Ok(unit_enum) => Ok(unit_enum.into_string_source()),
        Err(e) => Err(e),
    }
}

/// Derives the conversion from text into the type that `desc` declares.
///
/// A type that is not an enumeration, or one of whose variants carries
/// fields, is refused; for every other type the source is written. The names
/// of the declaration are identifiers, which
/// [`TypeDescription::is_well_formed`] tests as far as the text depends on it.
pub fn derive_tryfrom_string(desc: &TypeDescription) -> (r: Result<String, DeriveError>)
    requires
        desc@.well_formed(),
    ensures
        match desc@.shape_error() {
            Some(e) => r == Err::<String, DeriveError>(e),
            None => r is Ok && r.unwrap()@ == tryfrom_source(desc@.unit_enum()),
        },
{
    match UnitEnum::from_description(desc) {
        Ok(unit_enum) => Ok(unit_enum.tryfrom_source()),
        Err(e) => Err(e),
    }
}

} // verus!
