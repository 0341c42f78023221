//! Reading the members of an object, one by one.
//!
//! A member may be required or optional. A required member that is missing
//! and a member that holds a value of the wrong type are failures; an
//! optional member may be missing or null.

use crate::decode::DecodeError;
use crate::json::{lemma_members_view, Json, JsonView};
use crate::message::{entries_view, patch_text_view, text_view, Patch};
use crate::string_map::{distinct_keys, lemma_put_keeps_distinct, put, Entries, StringMap};
use vstd::prelude::*;

verus! {

/// A text value.
pub open spec fn text_of(value: JsonView, name: &'static str) -> Result<Seq<char>, DecodeError> {
    match value {
        JsonView::Str(s) => Ok(s),
        _ => Err(DecodeError::TypeMismatch(name)),
    }
}

/// A whole number that fits 64 bits.
pub open spec fn u64_of(value: JsonView, name: &'static str) -> Result<u64, DecodeError> {
    match value {
        JsonView::Unsigned(n) => Ok(n),
        _ => Err(DecodeError::TypeMismatch(name)),
    }
}

/// A whole number that fits 16 bits.
pub open spec fn u16_of(value: JsonView, name: &'static str) -> Result<u16, DecodeError> {
    match value {
        JsonView::Unsigned(n) if n <= u16::MAX => Ok(n as u16),
        _ => Err(DecodeError::TypeMismatch(name)),
    }
}

/// The required text member `name`.
pub open spec fn required_text(doc: JsonView, name: &'static str) -> Result<
    Seq<char>,
    DecodeError,
> {
    match doc.field(name@) {
        Some(value) => text_of(value, name),
        None => Err(DecodeError::MissingField(name)),
    }
}

/// The required member `name`, a whole number that fits 64 bits.
pub open spec fn required_u64(doc: JsonView, name: &'static str) -> Result<u64, DecodeError> {
    match doc.field(name@) {
        Some(value) => u64_of(value, name),
        None => Err(DecodeError::MissingField(name)),
    }
}

/// The required member `name`, a whole number that fits 16 bits.
pub open spec fn required_u16(doc: JsonView, name: &'static str) -> Result<u16, DecodeError> {
    match doc.field(name@) {
        Some(value) => u16_of(value, name),
        None => Err(DecodeError::MissingField(name)),
    }
}

/// Reads a text value.
pub(crate) fn read_text(value: &Json, name: &'static str) -> (r: Result<String, DecodeError>)
    ensures
        (match r {
            Ok(s) => text_of(value@, name) == Ok::<Seq<char>, DecodeError>(s@),
            Err(e) => text_of(value@, name) == Err::<Seq<char>, DecodeError>(e),
        }),
{
    match value {
        Json::Str(s) => Ok(s.clone()),
        _ => Err(DecodeError::TypeMismatch(name)),
    }
}

/// Reads a whole number that fits 64 bits.
pub(crate) fn read_u64(value: &Json, name: &'static str) -> (r: Result<u64, DecodeError>)
    ensures
        r == u64_of(value@, name),
{
    match value {
        Json::Unsigned(n) => Ok(*n),
        _ => Err(DecodeError::TypeMismatch(name)),
    }
}

/// Reads a whole number that fits 16 bits.
pub(crate) fn read_u16(value: &Json, name: &'static str) -> (r: Result<u16, DecodeError>)
    ensures
        r == u16_of(value@, name),
{
    match value {
        Json::Unsigned(n) => {
            if *n <= 65535 {
                Ok(*n as u16)
            } else {
                Err(DecodeError::TypeMismatch(name))
            }
        },
        _ => Err(DecodeError::TypeMismatch(name)),
    }
}

/// Reads the required text member `name`.
pub(crate) fn get_text(doc: &Json, name: &'static str) -> (r: Result<String, DecodeError>)
    ensures
        (match r {
            Ok(s) => required_text(doc@, name) == Ok::<Seq<char>, DecodeError>(s@),
            Err(e) => required_text(doc@, name) == Err::<Seq<char>, DecodeError>(e),
        }),
{
    match doc.field(name) {
        Some(value) => read_text(value, name),
        None => Err(DecodeError::MissingField(name)),
    }
}

/// Reads the required member `name`, a whole number that fits 64 bits.
pub(crate) fn get_u64(doc: &Json, name: &'static str) -> (r: Result<u64, DecodeError>)
    ensures
        r == required_u64(doc@, name),
{
    match doc.field(name) {
        Some(value) => read_u64(value, name),
        None => Err(DecodeError::MissingField(name)),
    }
}

/// Reads the required member `name`, a whole number that fits 16 bits.
pub(crate) fn get_u16(doc: &Json, name: &'static str) -> (r: Result<u16, DecodeError>)
    ensures
        r == required_u16(doc@, name),
{
    match doc.field(name) {
        Some(value) => read_u16(value, name),
        None => Err(DecodeError::MissingField(name)),
    }
}

/// The member `name`, unless it is missing or null.
pub open spec fn present(doc: JsonView, name: &'static str) -> Option<JsonView> {
    match doc.field(name@) {
        Some(JsonView::Null) => None,
        other => other,
    }
}

/// Finds the member `name`, unless it is missing or null.
pub(crate) fn get_present<'a>(doc: &'a Json, name: &'static str) -> (r: Option<&'a Json>)
    ensures
        (match r {
            Some(value) => present(doc@, name) == Some(value@),
            None => present(doc@, name) is None,
        }),
{
    match doc.field(name) {
        Some(Json::Null) => None,
        other => other,
    }
}

/// The optional text member `name`: `None` where it is missing or null.
pub open spec fn optional_text(doc: JsonView, name: &'static str) -> Result<
    Option<Seq<char>>,
    DecodeError,
> {
    match present(doc, name) {
        None => Ok(None),
        Some(value) => match text_of(value, name) {
            Ok(s) => Ok(Some(s)),
            Err(e) => Err(e),
        },
    }
}

/// Reads the optional text member `name`.
pub(crate) fn get_optional_text(doc: &Json, name: &'static str) -> (r: Result<Option<String>, DecodeError>)
    ensures
        (match r {
            Ok(text) => optional_text(doc@, name) == Ok::<Option<Seq<char>>, DecodeError>(
                text_view(text),
            ),
            Err(e) => optional_text(doc@, name) == Err::<Option<Seq<char>>, DecodeError>(e),
        }),
{
    match get_present(doc, name) {
        None => Ok(None),
        Some(value) => {
            let text = read_text(value, name)?;
            Ok(Some(text))
        },
    }
}

/// The entries that the members of an object make, set one after the other,
/// or `None` where a member holds no text.
pub open spec fn text_members(members: Seq<(Seq<char>, JsonView)>) -> Option<Entries>
    decreases members.len(),
{
    if members.len() == 0 {
        Some(Entries::empty())
    } else {
        match (text_members(members.drop_last()), members.last().1) {
            (Some(entries), JsonView::Str(s)) => Some(put(entries, members.last().0, s)),
            _ => None,
        }
    }
}

/// Where the first members hold something else than text, so do all.
pub(crate) proof fn lemma_text_members_prefix(members: Seq<(Seq<char>, JsonView)>, n: int)
    requires
        0 <= n <= members.len(),
        text_members(members.take(n)) is None,
    ensures
        text_members(members) is None,
    decreases members.len(),
{
    if n < members.len() {
        assert(members.drop_last().take(n) =~= members.take(n));
        lemma_text_members_prefix(members.drop_last(), n);
    } else {
        assert(members.take(n) =~= members);
    }
}

/// A map from text to text, written as an object whose members hold text.
pub open spec fn entries_of(value: JsonView, name: &'static str) -> Result<Entries, DecodeError> {
    match value {
        JsonView::Object(members) => match text_members(members) {
            Some(entries) => Ok(entries),
            None => Err(DecodeError::TypeMismatch(name)),
        },
        _ => Err(DecodeError::TypeMismatch(name)),
    }
}

/// Reads a map from text to text.
pub(crate) fn read_entries(value: &Json, name: &'static str) -> (r: Result<StringMap, DecodeError>)
    ensures
        (match r {
            Ok(map) => entries_of(value@, name) == Ok::<Entries, DecodeError>(map@),
            Err(e) => entries_of(value@, name) == Err::<Entries, DecodeError>(e),
        }),
{
    match value {
        Json::Object(members) => {
            let ghost all = value@->Object_0;
            proof {
                lemma_members_view(members@);
            }
            let mut map = StringMap::new();
            let mut i: usize = 0;
            while i < members.len()
                invariant
                    i <= members.len(),
                    all.len() == members.len(),
                    forall|k: int|
                        0 <= k < members.len() ==> #[trigger] all[k] == (
                            members[k].0@,
                            members[k].1@,
                        ),
                    value@ == JsonView::Object(all),
                    text_members(all.take(i as int)) == Some(map@),
                decreases members.len() - i,
            {
                proof {
                    assert(all.take(i + 1).drop_last() =~= all.take(i as int));
                }
                match &members[i].1 {
                    Json::Str(s) => {
                        map.insert(members[i].0.clone(), s.clone());
                    },
                    _ => {
                        proof {
                            lemma_text_members_prefix(all, i + 1);
                        }
                        return Err(DecodeError::TypeMismatch(name));
                    },
                }
                i += 1;
            }
            proof {
                assert(all.take(i as int) =~= all);
            }
            Ok(map)
        },
        _ => Err(DecodeError::TypeMismatch(name)),
    }
}

/// The required map member `name`.
pub open spec fn required_entries(doc: JsonView, name: &'static str) -> Result<
    Entries,
    DecodeError,
> {
    match doc.field(name@) {
        Some(value) => entries_of(value, name),
        None => Err(DecodeError::MissingField(name)),
    }
}

/// Reads the required map member `name`.
pub(crate) fn get_entries(doc: &Json, name: &'static str) -> (r: Result<StringMap, DecodeError>)
    ensures
        (match r {
            Ok(map) => required_entries(doc@, name) == Ok::<Entries, DecodeError>(map@),
            Err(e) => required_entries(doc@, name) == Err::<Entries, DecodeError>(e),
        }),
{
    match doc.field(name) {
        Some(value) => read_entries(value, name),
        None => Err(DecodeError::MissingField(name)),
    }
}

/// The optional map member `name`: `None` where it is missing or null.
pub open spec fn optional_entries(doc: JsonView, name: &'static str) -> Result<
    Option<Entries>,
    DecodeError,
> {
    match present(doc, name) {
        None => Ok(None),
        Some(value) => match entries_of(value, name) {
            Ok(entries) => Ok(Some(entries)),
            Err(e) => Err(e),
        },
    }
}

/// Reads the optional map member `name`.
pub(crate) fn get_optional_entries(doc: &Json, name: &'static str) -> (r: Result<
    Option<StringMap>,
    DecodeError,
>)
    ensures
        (match r {
            Ok(map) => optional_entries(doc@, name) == Ok::<Option<Entries>, DecodeError>(
                entries_view(map),
            ),
            Err(e) => optional_entries(doc@, name) == Err::<Option<Entries>, DecodeError>(e),
        }),
{
    match get_present(doc, name) {
        None => Ok(None),
        Some(value) => {
            let map = read_entries(value, name)?;
            Ok(Some(map))
        },
    }
}

/// The text attribute `name` of a sparse update.
pub open spec fn patch_text(doc: JsonView, name: &'static str) -> Result<
    Patch<Seq<char>>,
    DecodeError,
> {
    match doc.field(name@) {
        None => Ok(Patch::Absent),
        Some(JsonView::Null) => Ok(Patch::Null),
        Some(value) => match text_of(value, name) {
            Ok(s) => Ok(Patch::Value(s)),
            Err(e) => Err(e),
        },
    }
}

/// The attribute `name` of a sparse update, a whole number that fits 16 bits.
pub open spec fn patch_u16(doc: JsonView, name: &'static str) -> Result<Patch<u16>, DecodeError> {
    match doc.field(name@) {
        None => Ok(Patch::Absent),
        Some(JsonView::Null) => Ok(Patch::Null),
        Some(value) => match u16_of(value, name) {
            Ok(n) => Ok(Patch::Value(n)),
            Err(e) => Err(e),
        },
    }
}

/// The attribute `name` of a sparse update, a whole number that fits 64 bits.
pub open spec fn patch_u64(doc: JsonView, name: &'static str) -> Result<Patch<u64>, DecodeError> {
    match doc.field(name@) {
        None => Ok(Patch::Absent),
        Some(JsonView::Null) => Ok(Patch::Null),
        Some(value) => match u64_of(value, name) {
            Ok(n) => Ok(Patch::Value(n)),
            Err(e) => Err(e),
        },
    }
}

/// Reads the text attribute `name` of a sparse update.
pub(crate) fn get_patch_text(doc: &Json, name: &'static str) -> (r: Result<Patch<String>, DecodeError>)
    ensures
        (match r {
            Ok(patch) => patch_text(doc@, name) == Ok::<Patch<Seq<char>>, DecodeError>(
                patch_text_view(patch),
            ),
            Err(e) => patch_text(doc@, name) == Err::<Patch<Seq<char>>, DecodeError>(e),
        }),
{
    match doc.field(name) {
        None => Ok(Patch::Absent),
        Some(Json::Null) => Ok(Patch::Null),
        Some(value) => {
            let text = read_text(value, name)?;
            Ok(Patch::Value(text))
        },
    }
}

/// Reads the 16-bit attribute `name` of a sparse update.
pub(crate) fn get_patch_u16(doc: &Json, name: &'static str) -> (r: Result<Patch<u16>, DecodeError>)
    ensures
        r == patch_u16(doc@, name),
{
    match doc.field(name) {
        None => Ok(Patch::Absent),
        Some(Json::Null) => Ok(Patch::Null),
        Some(value) => {
            let n = read_u16(value, name)?;
            Ok(Patch::Value(n))
        },
    }
}

/// Reads the 64-bit attribute `name` of a sparse update.
pub(crate) fn get_patch_u64(doc: &Json, name: &'static str) -> (r: Result<Patch<u64>, DecodeError>)
    ensures
        r == patch_u64(doc@, name),
{
    match doc.field(name) {
        None => Ok(Patch::Absent),
        Some(Json::Null) => Ok(Patch::Null),
        Some(value) => {
            let n = read_u64(value, name)?;
            Ok(Patch::Value(n))
        },
    }
}

/// The required member `data`.
pub open spec fn required_data(doc: JsonView) -> Result<JsonView, DecodeError> {
    match doc.field("data"@) {
        Some(value) => Ok(value),
        None => Err(DecodeError::MissingField("data")),
    }
}

/// Finds the required member `data`.
pub(crate) fn get_data(doc: &Json) -> (r: Result<&Json, DecodeError>)
    ensures
        (match r {
            Ok(data) => required_data(doc@) == Ok::<JsonView, DecodeError>(data@),
            Err(e) => required_data(doc@) == Err::<JsonView, DecodeError>(e),
        }),
{
    match doc.field("data") {
        Some(value) => Ok(value),
        None => Err(DecodeError::MissingField("data")),
    }
}

/// Whether a text is a given word.
pub(crate) fn same_text(text: &String, word: &str) -> (r: bool)
    ensures
        r == (text@ == word@),
{
    let other = word.to_owned();
    *text == other
}

/// The entries read from the members of an object have distinct keys: where
/// a name occurs twice, the later value replaces the earlier one.
pub proof fn lemma_text_members_distinct(members: Seq<(Seq<char>, JsonView)>)
    ensures
        text_members(members) matches Some(entries) ==> distinct_keys(entries),
    decreases members.len(),
{
    if members.len() > 0 {
        lemma_text_members_distinct(members.drop_last());
        if text_members(members) is Some {
            let entries = text_members(members.drop_last())->Some_0;
            lemma_put_keeps_distinct(entries, members.last().0, members.last().1->Str_0);
        }
    }
}

/// A member that is added to an object under a new name changes the member
/// of no other name.
pub proof fn lemma_added_member(
    members: Seq<(Seq<char>, JsonView)>,
    added: Seq<char>,
    value: JsonView,
    name: Seq<char>,
)
    requires
        name != added,
    ensures
        JsonView::Object(members.push((added, value))).field(name) == JsonView::Object(
            members,
        ).field(name),
{
    assert(members.push((added, value)).drop_last() =~= members);
}

/// Whether a document is an object.
pub(crate) fn is_object(doc: &Json) -> (r: bool)
    ensures
        r == (doc@ is Object),
{
    match doc {
        Json::Object(_) => true,
        _ => false,
    }
}

} // verus!
