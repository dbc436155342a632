//! Library files: which names they may have, and which files of a
//! directory are libraries.

use crate::lang::error::AocLanguageError;
use crate::text::{
    blank, char_alphabetic, char_alphanumeric, chars_of, concat3, find_last, is_alphabetic,
    is_alphanumeric, is_blank, last_index_of, same_text, text_between, texts,
};
use vstd::prelude::*;
use vstd::string::*;

verus! {

/// What the naming rules need to know of one character.
#[derive(Debug, Clone, Copy, PartialEq, Eq, Structural)]
pub struct CharKind {
    /// Whether it is a letter.
    pub alphabetic: bool,
    /// Whether it is a letter or a number.
    pub alphanumeric: bool,
}

/// The kind of a character as std's Unicode tables have it.
pub open spec fn kind_of(c: char) -> CharKind {
    CharKind { alphabetic: char_alphabetic(c), alphanumeric: char_alphanumeric(c) }
}

/// The kinds of the characters of a name.
pub open spec fn kinds_of(name: Seq<char>) -> Seq<CharKind> {
    name.map_values(|c: char| kind_of(c))
}

/// Why a name cannot be that of a library.
#[derive(Debug, Clone, Copy, PartialEq, Eq, Structural)]
pub enum LibNameFault {
    /// It is empty or all white space.
    Empty,
    /// It holds something other than letters, numbers, `_` and `-`.
    BadCharacter,
    /// It begins with something other than a letter or `_`.
    BadStart,
    /// A generated file has this name already.
    Reserved,
}

/// Whether a character may stand in a library name.
pub open spec fn name_char_ok(c: char, kind: CharKind) -> bool {
    kind.alphanumeric || c == '_' || c == '-'
}

/// Whether a character may begin a library name.
pub open spec fn name_start_ok(c: char, kind: CharKind) -> bool {
    kind.alphabetic || c == '_'
}

/// The first rule that `name` breaks, the rules taken in the order of
/// `LibNameFault`, or nothing if it breaks none. `kinds` holds the kind of
/// each character; the reserved names are compared as they are written.
pub open spec fn lib_name_fault(
    name: Seq<char>,
    kinds: Seq<CharKind>,
    reserved: Seq<Seq<char>>,
) -> Option<LibNameFault> {
    if is_blank(name) {
        Some(LibNameFault::Empty)
    } else if !(forall|i: int| 0 <= i < name.len() ==> name_char_ok(#[trigger] name[i], kinds[i])) {
        Some(LibNameFault::BadCharacter)
    } else if !name_start_ok(name[0], kinds[0]) {
        Some(LibNameFault::BadStart)
    } else if reserved.contains(name) {
        Some(LibNameFault::Reserved)
    } else {
        None
    }
}

/// The text that tells the user of a fault.
pub open spec fn fault_text(fault: LibNameFault, name: Seq<char>) -> Seq<char> {
    match fault {
        LibNameFault::Empty => "Library name cannot be empty"@,
        LibNameFault::BadCharacter => "Library name can only contain letters, numbers, underscores, and hyphens"@,
        LibNameFault::BadStart => "Library name must start with a letter or underscore"@,
        LibNameFault::Reserved => "'"@ + name + "' is a reserved name for this language"@,
    }
}

/// Whether `result` is the verdict that goes with `fault`: success for no
/// fault, else the error that carries the fault's text.
pub open spec fn is_verdict(
    result: Result<(), AocLanguageError>,
    fault: Option<LibNameFault>,
    name: Seq<char>,
) -> bool {
    match fault {
        None => result is Ok,
        Some(f) => result matches Err(AocLanguageError::LibInvalid(text)) && text@ == fault_text(
            f,
            name,
        ),
    }
}

/// Looks up the kind of every character of `cs`.
pub fn classify(cs: &Vec<char>) -> (kinds: Vec<CharKind>)
    ensures
        kinds@ == kinds_of(cs@),
{
    let mut kinds: Vec<CharKind> = Vec::new();
    let mut i: usize = 0;
    while i < cs.len()
        invariant
            i <= cs.len(),
            kinds@ == kinds_of(cs@).take(i as int),
        decreases cs.len() - i,
    {
        let c = cs[i];
        kinds.push(CharKind { alphabetic: is_alphabetic(c), alphanumeric: is_alphanumeric(c) });
        assert(kinds@ =~= kinds_of(cs@).take(i + 1));
        i = i + 1;
    }
    assert(kinds_of(cs@).take(i as int) =~= kinds_of(cs@));
    kinds
}

/// Whether `names` holds `name`, letter for letter.
pub fn holds_name(names: &Vec<String>, name: &str) -> (r: bool)
    ensures
        r == texts(names@).contains(name@),
{
    let mut i: usize = 0;
    while i < names.len()
        invariant
            i <= names.len(),
            forall|k: int| 0 <= k < i ==> texts(names@)[k] != name@,
        decreases names.len() - i,
    {
        if same_text(names[i].as_str(), name) {
            assert(texts(names@)[i as int] == name@);
            return true;
        }
        i = i + 1;
    }
    false
}

/// Judges a library name, given the kind of each of its characters.
pub fn check_lib_name(lib_name: &str, kinds: &Vec<CharKind>, reserved: &Vec<String>) -> (r: Result<
    (),
    AocLanguageError,
>)
    requires
        kinds@.len() == lib_name@.len(),
    ensures
        is_verdict(r, lib_name_fault(lib_name@, kinds@, texts(reserved@)), lib_name@),
{
    let cs = chars_of(lib_name);
    if blank(&cs) {
        return Err(AocLanguageError::LibInvalid(String::from_str("Library name cannot be empty")));
    }
    let mut i: usize = 0;
    while i < cs.len()
        invariant
            i <= cs.len(),
            cs@ == lib_name@,
            kinds@.len() == cs@.len(),
            !is_blank(lib_name@),
            forall|k: int| 0 <= k < i ==> name_char_ok(#[trigger] cs@[k], kinds@[k]),
        decreases cs.len() - i,
    {
        let c = cs[i];
        if !(kinds[i].alphanumeric || c == '_' || c == '-') {
            assert(!name_char_ok(lib_name@[i as int], kinds@[i as int]));
            return Err(
                AocLanguageError::LibInvalid(
                    String::from_str(
                        "Library name can only contain letters, numbers, underscores, and hyphens",
                    ),
                ),
            );
        }
        i = i + 1;
    }
    assert(cs.len() > 0);
    if !(kinds[0].alphabetic || cs[0] == '_') {
        return Err(
            AocLanguageError::LibInvalid(
                String::from_str("Library name must start with a letter or underscore"),
            ),
        );
    }
    if holds_name(reserved, lib_name) {
        return Err(
            AocLanguageError::LibInvalid(
                concat3("'", lib_name, "' is a reserved name for this language"),
            ),
        );
    }
    Ok(())
}

/// Judges a library name: it must not be blank, must consist of letters,
/// numbers, `_` and `-`, must begin with a letter or `_`, and must not be
/// one of the reserved names.
pub fn validate_user_lib(lib_name: &str, unallowed_names: &Vec<String>) -> (r: Result<
    (),
    AocLanguageError,
>)
    ensures
        is_verdict(
            r,
            lib_name_fault(lib_name@, kinds_of(lib_name@), texts(unallowed_names@)),
            lib_name@,
        ),
        texts(unallowed_names@).contains(lib_name@) ==> r is Err,
{
    let cs = chars_of(lib_name);
    let kinds = classify(&cs);
    check_lib_name(lib_name, &kinds, unallowed_names)
}

/// A reserved name is never accepted, whatever its characters are.
pub proof fn lemma_reserved_is_rejected(
    name: Seq<char>,
    kinds: Seq<CharKind>,
    reserved: Seq<Seq<char>>,
)
    requires
        reserved.contains(name),
    ensures
        lib_name_fault(name, kinds, reserved) is Some,
{
}

/// A name that is written differently from every reserved name is not
/// rejected for being reserved: the comparison is by the letter.
pub proof fn lemma_reserved_is_by_the_letter(
    name: Seq<char>,
    kinds: Seq<CharKind>,
    reserved: Seq<Seq<char>>,
)
    requires
        !reserved.contains(name),
    ensures
        lib_name_fault(name, kinds, reserved) != Some(LibNameFault::Reserved),
{
}

/// The library that a file of the library directory holds: the file's
/// name up to its last dot, where what follows that dot is `extension`.
/// A name without a dot, or with its only dot in front, has no extension.
pub open spec fn lib_of_file(file_name: Seq<char>, extension: Seq<char>) -> Option<Seq<char>> {
    let dot = last_index_of(file_name, '.');
    if dot <= 0 {
        None
    } else if file_name.skip(dot + 1) == extension {
        Some(file_name.take(dot))
    } else {
        None
    }
}

/// Tells which library a file of the library directory holds, if any.
pub fn lib_name_of_file(file_name: &str, extension: &str) -> (r: Option<String>)
    ensures
        match r {
            Some(name) => lib_of_file(file_name@, extension@) == Some(name@),
            None => lib_of_file(file_name@, extension@) is None,
        },
{
    let cs = chars_of(file_name);
    match find_last(&cs, '.') {
        None => None,
        Some(dot) => {
            if dot == 0 {
                return None;
            }
            let ext = text_between(file_name, dot + 1, cs.len());
            assert(file_name@.subrange(dot + 1, cs.len() as int) =~= file_name@.skip(dot + 1));
            if same_text(ext.as_str(), extension) {
                assert(file_name@.subrange(0, dot as int) =~= file_name@.take(dot as int));
                Some(text_between(file_name, 0, dot))
            } else {
                None
            }
        },
    }
}

} // verus!
