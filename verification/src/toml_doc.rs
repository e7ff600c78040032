use toml_edit::{DocumentMut, TomlError};
use vstd::prelude::*;

verus! {

#[verifier::external_type_specification]
#[verifier::external_body]
pub struct ExDocumentMut(DocumentMut);

#[verifier::external_type_specification]
#[verifier::external_body]
pub struct ExTomlError(TomlError);

/// What `toml_edit` parses from `text`: `None` when it rejects the text,
/// else, for the parsed document, what `toml_top_level` and
/// `toml_controller_strings` give of it.
pub uninterp spec fn toml_parse_summary(text: Seq<char>) -> Option<
    (Map<Seq<char>, bool>, Map<Seq<char>, Seq<char>>),
>;

/// Whether `text` is a TOML document that `toml_edit` accepts.
pub open spec fn toml_parses(text: Seq<char>) -> bool {
    toml_parse_summary(text) is Some
}

/// The top-level entries of the document parsed from `text`.
pub open spec fn toml_text_top_level(text: Seq<char>) -> Map<Seq<char>, bool> {
    toml_parse_summary(text).unwrap().0
}

/// The string entries of `controller` in the document parsed from `text`.
pub open spec fn toml_text_controller_strings(text: Seq<char>) -> Map<Seq<char>, Seq<char>> {
    toml_parse_summary(text).unwrap().1
}

/// For a document: each top-level key whose item is not `Item::None`,
/// mapped to whether its item is a table or an inline table.
pub uninterp spec fn toml_top_level(doc: DocumentMut) -> Map<Seq<char>, bool>;

/// For a document: the entries of its top-level `controller` table (or
/// inline table) whose value is a string, each key mapped to that string;
/// empty when `controller` is absent or is not table-like.
pub uninterp spec fn toml_controller_strings(doc: DocumentMut) -> Map<Seq<char>, Seq<char>>;

/// For a document: the TOML text that its `Display` writes.
pub uninterp spec fn toml_doc_text(doc: DocumentMut) -> Seq<char>;

/// `str::parse::<toml_edit::DocumentMut>`.
///
/// Trusted: whether parsing succeeds, and what the parsed document holds,
/// depend on the text alone; the summary of both is named
/// `toml_parse_summary`.
#[verifier::external_body]
fn parse_document(text: &str) -> (r: Result<DocumentMut, TomlError>)
    ensures
        r is Ok <==> toml_parse_summary(text@) is Some,
        r matches Ok(doc) ==> toml_parse_summary(text@) == Some(
            (toml_top_level(doc), toml_controller_strings(doc)),
        ),
{
    text.parse::<DocumentMut>()
}

/// `Display` of `toml_edit::TomlError` (its message). Nothing is claimed of
/// the text.
#[verifier::external_body]
fn toml_error_message(e: &TomlError) -> String {
    e.to_string()
}

/// `Table::get` on the document root, then `Item::is_table_like` on the
/// item found: `None` when the key is absent, else whether its item is a
/// table or an inline table.
///
/// Trusted: the contract reads this off the named top-level entries.
#[verifier::external_body]
fn top_level_is_table_like(doc: &DocumentMut, key: &str) -> (r: Option<bool>)
    ensures
        r == (if toml_top_level(*doc).dom().contains(key@) {
            Some(toml_top_level(*doc)[key@])
        } else {
            None
        }),
{
    doc.get(key).map(toml_edit::Item::is_table_like)
}

/// The statement `doc["controller"]["color"] = toml_edit::value(color)`:
/// `IndexMut` inserts `controller` when absent (as an inline table) and
/// sets its `color` entry to the string `color`.
///
/// Trusted: `IndexMut` panics when `controller` holds an item that is
/// neither a table nor an inline table, so `requires` leaves that out.
/// Afterwards `controller` is a table-like item, its `color` is the string
/// `color`, its other string entries are as they were, and no other
/// top-level entry has changed (`entry(..).or_insert` touches only the key
/// it is given). Values elsewhere in the document are not described.
#[verifier::external_body]
fn assign_controller_color(doc: &mut DocumentMut, color: &str)
    requires
        toml_top_level(*old(doc)).dom().contains("controller"@) ==> toml_top_level(
            *old(doc),
        )["controller"@],
    ensures
        toml_top_level(*final(doc)) == toml_top_level(*old(doc)).insert("controller"@, true),
        toml_controller_strings(*final(doc)) == toml_controller_strings(*old(doc)).insert(
            "color"@,
            color@,
        ),
{
    doc["controller"]["color"] = toml_edit::value(color);
}

/// `Display` of `toml_edit::DocumentMut`: the document as TOML text.
///
/// Trusted: the text depends on the document alone; it is named
/// `toml_doc_text`.
#[verifier::external_body]
fn document_text(doc: &DocumentMut) -> (r: String)
    ensures
        r@ == toml_doc_text(*doc),
{
    doc.to_string()
}

/// Why a profile's paint color could not be set.
#[derive(Debug)]
pub enum ColorSaveError {
    /// The profile is not valid TOML; the parser's message.
    Parse(String),
    /// `controller` is there but is neither a table nor an inline table.
    ControllerNotTable,
}

/// Sets `controller.color` of a profile's TOML text to `color`, keeping the
/// rest of the document's formatting, and gives back the new text: the text
/// of the parsed document with `controller` made a table if it was absent,
/// its `color` set to the string `color`, and its other string entries and
/// the other top-level entries kept.
pub fn set_controller_color(content: &str, color: &str) -> (r: Result<String, ColorSaveError>)
    ensures
        r matches Err(ColorSaveError::Parse(_)) <==> !toml_parses(content@),
        r matches Err(ColorSaveError::ControllerNotTable) <==> (toml_parses(content@)
            && toml_text_top_level(content@).dom().contains("controller"@)
            && !toml_text_top_level(content@)["controller"@]),
        r is Ok <==> (toml_parses(content@) && (toml_text_top_level(content@).dom().contains(
            "controller"@,
        ) ==> toml_text_top_level(content@)["controller"@])),
        r matches Ok(t) ==> exists|d: DocumentMut|
            t@ == #[trigger] toml_doc_text(d) && toml_top_level(d) == toml_text_top_level(
                content@,
            ).insert("controller"@, true) && toml_controller_strings(d)
                == toml_text_controller_strings(content@).insert("color"@, color@),
{
    let mut doc = match parse_document(content) {
        Ok(d) => d,
        Err(e) => {
            return Err(ColorSaveError::Parse(toml_error_message(&e)));
        },
    };
    match top_level_is_table_like(&doc, "controller") {
        Some(false) => {
            return Err(ColorSaveError::ControllerNotTable);
        },
        _ => {},
    }
    assign_controller_color(&mut doc, color);
    Ok(document_text(&doc))
}

} // verus!
