//! The manifests of a cargo workspace with one package per day: the
//! workspace's list of members and the manifest of a new package. The
//! documents are read, changed and written by `toml_edit`.

use crate::requests::AocPage;
use crate::scaffold::{package_parts, RustLanguage};
use crate::puzzle::{PuzzleDay, PuzzleYear};
use crate::text::same_text;
use vstd::prelude::*;
use vstd::string::*;

verus! {

/// `toml_edit::DocumentMut`, a TOML document that can be changed.
#[verifier::external_type_specification]
#[verifier::external_body]
pub struct ExDocumentMut(toml_edit::DocumentMut);

/// `toml_edit::TomlError`, why a text is not a TOML document.
#[verifier::external_type_specification]
#[verifier::external_body]
pub struct ExTomlError(toml_edit::TomlError);

/// What a document lists as the members of its workspace: the items of
/// the array `members` of the table `workspace`, each as the string it is,
/// or as nothing if it is not a string. Nothing at all where there is no
/// such array.
pub uninterp spec fn workspace_members(doc: toml_edit::DocumentMut) -> Option<
    Seq<Option<Seq<char>>>,
>;

/// Whether a document can be given workspace members: it has no entry
/// `workspace`, or that entry is a table.
pub uninterp spec fn workspace_usable(doc: toml_edit::DocumentMut) -> bool;

/// The text of a manifest that holds a `package` table with a name, a
/// version and an edition, as `toml_edit` writes it.
pub uninterp spec fn package_table_text(
    name: Seq<char>,
    version: Seq<char>,
    edition: Seq<char>,
) -> Seq<char>;

/// The text of a document in which name, version and edition were set
/// under `package` without a table having been made for them, as
/// `toml_edit` writes it.
pub uninterp spec fn package_inline_text(
    name: Seq<char>,
    version: Seq<char>,
    edition: Seq<char>,
) -> Seq<char>;

/// The views of the items of a member list.
pub open spec fn members_view(items: Seq<Option<String>>) -> Seq<Option<Seq<char>>> {
    items.map_values(
        |item: Option<String>|
            match item {
                Some(s) => Some(s@),
                None => None,
            },
    )
}

/// What `toml_edit` reads in a text: nothing where the text is no TOML
/// document, else whether the document can be given workspace members,
/// and the members that it lists.
pub uninterp spec fn parsed_manifest(text: Seq<char>) -> Option<
    (bool, Option<Seq<Option<Seq<char>>>>),
>;

/// The text that `DocumentMut::to_string` writes for a document: all
/// that the document holds, in the form it was read in or given.
pub uninterp spec fn document_text(doc: toml_edit::DocumentMut) -> Seq<char>;

/// What reading a manifest gives: the document, or why the text is none.
pub type ParsedDocument = Result<toml_edit::DocumentMut, toml_edit::TomlError>;

/// `str::parse::<DocumentMut>`: the document that a text writes, or why
/// it writes none. What the document holds of a workspace is given the
/// name `parsed_manifest`.
#[verifier::external_body]
pub(crate) fn parse_document(text: &str) -> (r: ParsedDocument)
    ensures
        match r {
            Ok(doc) => parsed_manifest(text@) == Some(
                (workspace_usable(doc), workspace_members(doc)),
            ),
            Err(_) => parsed_manifest(text@) is None,
        },
{
    text.parse::<toml_edit::DocumentMut>()
}

/// `Table::get` and `Item::is_table_like`: whether the entry `workspace`
/// is missing or a table. The result is given the name
/// `workspace_usable`.
#[verifier::external_body]
pub(crate) fn can_hold_workspace(doc: &toml_edit::DocumentMut) -> (r: bool)
    ensures
        r == workspace_usable(*doc),
{
    doc.get("workspace").map_or(true, |workspace| workspace.is_table_like())
}

/// `Table::get`, `Item::get`, `Item::as_array`, `Array::iter` and
/// `Value::as_str`: the members that the document lists. The result is
/// given the name `workspace_members`; a document that lists members has
/// a workspace table.
#[verifier::external_body]
pub(crate) fn list_members(doc: &toml_edit::DocumentMut) -> (r: Option<Vec<Option<String>>>)
    ensures
        match r {
            Some(items) => workspace_members(*doc) == Some(members_view(items@)),
            None => workspace_members(*doc) is None,
        },
        r is Some ==> workspace_usable(*doc),
{
    doc.get("workspace").and_then(|workspace| workspace.get("members")).and_then(
        |members| members.as_array(),
    ).map(|array| array.iter().map(|v| v.as_str().map(|s| s.to_string())).collect())
}

/// Indexing a document by `workspace` and `members`, `Item::or_insert`
/// and `Array::push`: the workspace table is made if it is missing, and
/// its `members` become an array of the one string `name`.
#[verifier::external_body]
pub(crate) fn start_members(doc: &mut toml_edit::DocumentMut, name: &str)
    requires
        workspace_usable(*old(doc)),
    ensures
        workspace_members(*final(doc)) == Some(seq![Some(name@)]),
        workspace_usable(*final(doc)),
{
    let workspace = doc["workspace"].or_insert(toml_edit::table());
    let mut array = toml_edit::Array::new();
    array.push(name);
    workspace["members"] = toml_edit::Item::Value(toml_edit::Value::Array(array));
}

/// Indexing a document by `workspace` and `members`, `Item::as_array_mut`
/// and `Array::push`: the string `name` is added at the end of the
/// members.
#[verifier::external_body]
pub(crate) fn push_member(doc: &mut toml_edit::DocumentMut, name: &str)
    requires
        workspace_members(*old(doc)) is Some,
    ensures
        workspace_members(*final(doc)) == Some(workspace_members(*old(doc))->0.push(Some(name@))),
        workspace_usable(*final(doc)),
{
    if let Some(array) = doc["workspace"]["members"].as_array_mut() {
        array.push(name);
    }
}

/// `DocumentMut::to_string`: the text of a document. The result is given
/// the name `document_text`.
#[verifier::external_body]
pub(crate) fn render_document(doc: &toml_edit::DocumentMut) -> (text: String)
    ensures
        text@ == document_text(*doc),
{
    doc.to_string()
}

/// `DocumentMut::new`, indexing by `package`, `table`, `value` and
/// `to_string`: the manifest of a package. The result is given the name
/// `package_table_text`.
#[verifier::external_body]
pub(crate) fn package_table(name: &str, version: &str, edition: &str) -> (text: String)
    ensures
        text@ == package_table_text(name@, version@, edition@),
{
    let mut doc = toml_edit::DocumentMut::new();
    doc["package"] = toml_edit::table();
    doc["package"]["name"] = toml_edit::value(name);
    doc["package"]["version"] = toml_edit::value(version);
    doc["package"]["edition"] = toml_edit::value(edition);
    doc.to_string()
}

/// `DocumentMut::new`, indexing by `package`, `value` and `to_string`,
/// without a table made first. The result is given the name
/// `package_inline_text`.
#[verifier::external_body]
pub(crate) fn package_inline(name: &str, version: &str, edition: &str) -> (text: String)
    ensures
        text@ == package_inline_text(name@, version@, edition@),
{
    let mut doc = toml_edit::DocumentMut::new();
    doc["package"]["name"] = toml_edit::value(name);
    doc["package"]["version"] = toml_edit::value(version);
    doc["package"]["edition"] = toml_edit::value(edition);
    doc.to_string()
}

/// What can go wrong when something is read.
#[derive(Debug)]
pub enum AocParseError {
    /// The puzzle input is not what was expected.
    InputParseError(String),
    /// The page is not what was expected.
    HtmlParseError(AocPage),
    /// The manifest is not a TOML document.
    TomlParseError(toml_edit::TomlError),
    /// The manifest's `workspace` is not a table.
    WorkspaceNotATable,
}

/// The members after `name` has been made one of them: as before where it
/// was one already, else with `name` at the end; and `name` alone where
/// there was no list.
pub open spec fn with_member(members: Option<Seq<Option<Seq<char>>>>, name: Seq<char>) -> Seq<
    Option<Seq<char>>,
> {
    match members {
        None => seq![Some(name)],
        Some(items) => if items.contains(Some(name)) {
            items
        } else {
            items.push(Some(name))
        },
    }
}

fn lists(items: &Vec<Option<String>>, name: &str) -> (r: bool)
    ensures
        r == members_view(items@).contains(Some(name@)),
{
    let mut i: usize = 0;
    while i < items.len()
        invariant
            i <= items.len(),
            forall|k: int| 0 <= k < i ==> members_view(items@)[k] != Some(name@),
        decreases items.len() - i,
    {
        match &items[i] {
            Some(item) => {
                if same_text(item.as_str(), name) {
                    assert(members_view(items@)[i as int] == Some(name@));
                    return true;
                }
            },
            None => {},
        }
        i = i + 1;
    }
    false
}

/// Makes `name` a member of the document's workspace, unless it is one
/// already.
pub fn add_member(doc: &mut toml_edit::DocumentMut, name: &str)
    requires
        workspace_usable(*old(doc)),
    ensures
        workspace_members(*final(doc)) == Some(with_member(workspace_members(*old(doc)), name@)),
        workspace_usable(*final(doc)),
{
    match list_members(doc) {
        None => {
            start_members(doc, name);
        },
        Some(items) => {
            if !lists(&items, name) {
                push_member(doc, name);
            }
        },
    }
}

/// Makes `name` a member of the document's workspace if the document can
/// have a workspace. Says whether it can.
pub fn try_add_member(doc: &mut toml_edit::DocumentMut, name: &str) -> (done: bool)
    ensures
        done == workspace_usable(*old(doc)),
        done ==> workspace_members(*final(doc)) == Some(
            with_member(workspace_members(*old(doc)), name@),
        ),
        !done ==> *final(doc) == *old(doc),
{
    if can_hold_workspace(doc) {
        add_member(doc, name);
        true
    } else {
        false
    }
}

/// The manifest of a workspace that does not have one yet.
pub open spec fn root_manifest_text() -> Seq<char> {
    package_table_text("aocsuite-rust"@, "0.1.0"@, "2021"@)
}

/// The manifest of a workspace that does not have one yet.
pub fn write_root_cargo() -> (text: String)
    ensures
        text@ == root_manifest_text(),
{
    package_table("aocsuite-rust", "0.1.0", "2021")
}

/// The manifest of a new package.
pub fn write_default_exercise_cargo(package_name: &str) -> (text: String)
    ensures
        text@ == package_table_text(package_name@, "0.1.0"@, "2021"@),
{
    package_table(package_name, "0.1.0", "2021")
}

/// The entry point of a new package.
pub fn write_default_main_file(package_name: &str) -> (text: String)
    ensures
        text@ == package_inline_text(package_name@, "0.1.0"@, "2021"@),
{
    package_inline(package_name, "0.1.0", "2021")
}

/// The library of a new package.
pub fn write_default_lib_file(package_name: &str) -> (text: String)
    ensures
        text@ == package_inline_text(package_name@, "0.1.0"@, "2021"@),
{
    package_inline(package_name, "0.1.0", "2021")
}

/// The name of a day's package, as the workspace lists it.
pub open spec fn member_name(day: PuzzleDay, year: PuzzleYear) -> Seq<char> {
    package_parts(day, year)[0] + "/"@ + package_parts(day, year)[1]
}

/// Whether `text` is what is written for a document whose workspace
/// lists exactly `members`.
pub open spec fn writes_members(text: Seq<char>, members: Seq<Option<Seq<char>>>) -> bool {
    exists|doc: toml_edit::DocumentMut|
        text == #[trigger] document_text(doc) && workspace_members(doc) == Some(members)
}

/// The new text of a workspace's manifest once the package of a day is
/// one of its members. `contents` is the text of the manifest, which for
/// a workspace without one is that of `write_root_cargo`. A text that is
/// no TOML document is refused, and so is a document whose `workspace`
/// is not a table; else the result is the text of the document with the
/// day's package among the members of its workspace, added at the end
/// unless it was a member already.
pub fn update_root_cargo(contents: &str, day: PuzzleDay, year: PuzzleYear) -> (r: Result<
    String,
    AocParseError,
>)
    ensures
        match parsed_manifest(contents@) {
            None => r matches Err(AocParseError::TomlParseError(_)),
            Some((usable, members)) => if usable {
                r matches Ok(text) && writes_members(
                    text@,
                    with_member(members, member_name(day, year)),
                )
            } else {
                r matches Err(AocParseError::WorkspaceNotATable)
            },
        },
{
    match parse_document(contents) {
        Err(e) => Err(AocParseError::TomlParseError(e)),
        Ok(doc) => {
            let mut doc = doc;
            let package_name = RustLanguage::package_name(day, year);
            if try_add_member(&mut doc, package_name.as_str()) {
                Ok(render_document(&doc))
            } else {
                Err(AocParseError::WorkspaceNotATable)
            }
        },
    }
}

} // verus!
