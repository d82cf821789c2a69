//! From the text of a declaration to the source of its conversions.

use vstd::prelude::*;
use vstd::string::StringExecFns;

use crate::description::{Data, Fields, TypeDescription, TypeDescriptionView, Variant};
use crate::emit::{derive_into_string, derive_tryfrom_string, derived_source};
use crate::error::DeriveError;

verus! {

/// The declaration that syn reads from a text, where it reads one: the name
/// of the type, the kind of its body and, for an enumeration, the name and
/// the kind of fields of each variant, in the order of the text.
pub uninterp spec fn parsed_declaration(source: Seq<char>) -> Option<TypeDescriptionView>;

/// The message with which syn refuses a text from which it reads no
/// declaration.
pub uninterp spec fn syntax_message(source: Seq<char>) -> Seq<char>;

/// Parses `source` with `syn::parse_str`, as a `syn::DeriveInput`.
///
/// Not proved: that the outcome depends on the text alone, and that every
/// name of a declaration read is an identifier, hence not empty and without
/// quotation mark or backslash. The parser is syn's; the crate is built
/// without the compiler's token interface, so that the same lexer runs
/// wherever the library does, and that lexer makes a name of identifier
/// characters only, and of one at least. All that is kept of the syntax tree
/// is copied field by field into the description; of an error, the message
/// that its `Display` writes. The parser descends into nested expressions by
/// recursion, and so is bounded by the stack as every recursion is.
#[verifier::external_body]
fn parse_declaration(source: &str) -> (r: Result<TypeDescription, String>)
    ensures
        match r {
            Ok(desc) => parsed_declaration(source@) == Some(desc@) && desc@.well_formed(),
            Err(message) => parsed_declaration(source@) is None && message@ == syntax_message(
                source@,
            ),
        },
{
    let ast: syn::DeriveInput = syn::parse_str(source).map_err(|e| e.to_string())?;
    let data = match ast.data {
        syn::Data::Struct(_) => Data::Struct,
        syn::Data::Union(_) => Data::Union,
        syn::Data::Enum(e) => Data::Enum(e.variants.iter().map(|v| Variant {
            ident: v.ident.to_string(),
            fields: match v.fields {
                syn::Fields::Named(_) => Fields::Named,
                syn::Fields::Unnamed(_) => Fields::Unnamed,
                syn::Fields::Unit => Fields::Unit,
            },
        }).collect()),
    };
    Ok(TypeDescription { ident: ast.ident.to_string(), data })
}

/// Derives all the conversions for the type that `desc` declares: the
/// conversions into text with the hook for diesel, then the conversion from
/// text.
///
/// A type that is not an enumeration is refused with
/// [`DeriveError::NotAnEnum`], an enumeration with a variant that carries
/// fields with [`DeriveError::NotUnit`]; for every other type the source is
/// written. The names of the declaration are identifiers, which
/// [`TypeDescription::is_well_formed`] tests as far as the text depends on it.
pub fn expand(desc: &TypeDescription) -> (r: Result<String, DeriveError>)
    requires
        desc@.well_formed(),
    ensures
        match desc@.shape_error() {
            Some(e) => r == Err::<String, DeriveError>(e),
            None => r is Ok && r.unwrap()@ == derived_source(desc@.unit_enum()),
        },
{
    let mut source = match derive_into_string(desc) {
        Ok(source) => source,
        Err(e) => {
            return Err(e);
        },
    };
    let tryfrom_string = match derive_tryfrom_string(desc) {
        Ok(source) => source,
        Err(e) => {
            return Err(e);
        },
    };
    source.append("\n");
    source.append(tryfrom_string.as_str());
    Ok(source)
}

/// Derives the conversions for the type whose declaration is the text
/// `input`.
///
/// A text from which no declaration is read is refused with
/// [`DeriveError::Syntax`], which carries the parser's message; the
/// declaration read from any other text is handed to [`expand`], whose
/// outcome is returned.
pub fn diesel_enum_derive(input: &str) -> (r: Result<String, DeriveError>)
    ensures
        match parsed_declaration(input@) {
            None => r matches Err(DeriveError::Syntax(message)) && message@ == syntax_message(
                input@,
            ),
            Some(desc) => match desc.shape_error() {
                Some(e) => r == Err::<String, DeriveError>(e),
                None => r is Ok && r.unwrap()@ == derived_source(desc.unit_enum()),
            },
        },
{
    match parse_declaration(input) {
        Ok(desc) => expand(&desc),
        Err(message) => Err(DeriveError::Syntax(message)),
    }
}

} // verus!
