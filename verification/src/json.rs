//! JSON documents as the relay reads them.

use vstd::prelude::*;

verus! {

/// A JSON document.
///
/// The members of an object are kept in the order in which they were
/// written. A name may occur more than once; the last occurrence is the one
/// that [`Json::field`] finds.
#[derive(Debug, PartialEq, Eq)]
pub enum Json {
    Null,
    Bool(bool),
    /// A whole number between 0 and 2^64 - 1.
    Unsigned(u64),
    /// Any other number: negative, fractional or out of range. No message
    /// field holds one, so its value is not kept.
    OtherNumber,
    Str(String),
    Array(Vec<Json>),
    Object(Vec<(String, Json)>),
}

/// The mathematical value of a [`Json`] document.
pub enum JsonView {
    Null,
    Bool(bool),
    Unsigned(u64),
    OtherNumber,
    Str(Seq<char>),
    Array(Seq<JsonView>),
    Object(Seq<(Seq<char>, JsonView)>),
}

/// The values of a sequence of documents, one by one.
pub open spec fn items_view(items: Seq<Json>) -> Seq<JsonView>
    decreases items,
{
    if items.len() == 0 {
        Seq::empty()
    } else {
        items_view(items.drop_last()).push(items.last().tree())
    }
}

/// The names and values of a sequence of members, one by one.
pub open spec fn members_view(members: Seq<(String, Json)>) -> Seq<(Seq<char>, JsonView)>
    decreases members,
{
    if members.len() == 0 {
        Seq::empty()
    } else {
        members_view(members.drop_last()).push((members.last().0@, members.last().1.tree()))
    }
}

/// The value of the last member called `name`, if there is one.
pub open spec fn lookup(members: Seq<(Seq<char>, JsonView)>, name: Seq<char>) -> Option<JsonView>
    decreases members.len(),
{
    if members.len() == 0 {
        None
    } else if members.last().0 == name {
        Some(members.last().1)
    } else {
        lookup(members.drop_last(), name)
    }
}

impl JsonView {
    /// The member called `name` of an object; `None` for a document that is
    /// no object or has no such member.
    pub open spec fn field(self, name: Seq<char>) -> Option<JsonView> {
        match self {
            JsonView::Object(members) => lookup(members, name),
            _ => None,
        }
    }
}

impl Json {
    /// The member called `name` of an object: the last one, where several
    /// have that name.
    pub fn field<'a>(&'a self, name: &str) -> (r: Option<&'a Json>)
        ensures
            (match r {
                Some(json) => self@.field(name@) == Some(json@),
                None => self@.field(name@) is None,
            }),
    {
        match self {
            Json::Object(members) => {
                let wanted = name.to_owned();
                let ghost all = members_view(members@);
                proof {
                    lemma_members_view(members@);
                    assert(all.take(members.len() as int) =~= all);
                }
                let mut i: usize = members.len();
                while i > 0
                    invariant
                        i <= members.len(),
                        wanted@ == name@,
                        self@ == JsonView::Object(all),
                        all.len() == members.len(),
                        forall|k: int|
                            0 <= k < members.len() ==> #[trigger] all[k] == (
                                members[k].0@,
                                members[k].1@,
                            ),
                        lookup(all, name@) == lookup(all.take(i as int), name@),
                    decreases i,
                {
                    i -= 1;
                    proof {
                        assert(all.take(i + 1).drop_last() =~= all.take(i as int));
                    }
                    if members[i].0 == wanted {
                        return Some(&members[i].1);
                    }
                }
                None
            },
            _ => None,
        }
    }

    /// The value of this document; `self@` is the same.
    pub open spec fn tree(&self) -> JsonView
        decreases self,
    {
        match self {
            Json::Null => JsonView::Null,
            Json::Bool(b) => JsonView::Bool(*b),
            Json::Unsigned(n) => JsonView::Unsigned(*n),
            Json::OtherNumber => JsonView::OtherNumber,
            Json::Str(s) => JsonView::Str(s@),
            Json::Array(items) => JsonView::Array(items_view(items@)),
            Json::Object(members) => JsonView::Object(members_view(members@)),
        }
    }
}

impl View for Json {
    type V = JsonView;

    open spec fn view(&self) -> JsonView {
        self.tree()
    }
}

/// `items_view` keeps the length and maps each document to its value.
pub proof fn lemma_items_view(items: Seq<Json>)
    ensures
        items_view(items).len() == items.len(),
        forall|i: int| 0 <= i < items.len() ==> #[trigger] items_view(items)[i] == items[i]@,
    decreases items.len(),
{
    if items.len() > 0 {
        lemma_items_view(items.drop_last());
    }
}

/// `members_view` keeps the length and maps each member to its name and value.
pub proof fn lemma_members_view(members: Seq<(String, Json)>)
    ensures
        members_view(members).len() == members.len(),
        forall|i: int|
            0 <= i < members.len() ==> #[trigger] members_view(members)[i] == (
                members[i].0@,
                members[i].1@,
            ),
    decreases members.len(),
{
    if members.len() > 0 {
        lemma_members_view(members.drop_last());
    }
}

/// The value of an optional document.
pub open spec fn optional_view(value: Option<Json>) -> Option<JsonView> {
    match value {
        Some(json) => Some(json@),
        None => None,
    }
}

/// A place in an object that is being written: the name of a member, and
/// its value where the member is to be written at all.
pub type Slot = (Seq<char>, Option<JsonView>);

/// The member that a slot writes, if any.
pub open spec fn slot_members(slot: Slot) -> Seq<(Seq<char>, JsonView)> {
    match slot.1 {
        Some(value) => seq![(slot.0, value)],
        None => Seq::empty(),
    }
}

/// The members that a sequence of slots writes, in order.
pub open spec fn written(slots: Seq<Slot>) -> Seq<(Seq<char>, JsonView)>
    decreases slots.len(),
{
    if slots.len() == 0 {
        Seq::empty()
    } else {
        written(slots.drop_last()) + slot_members(slots.last())
    }
}

/// No two slots have the same name.
pub open spec fn distinct_names(slots: Seq<Slot>) -> bool {
    forall|i: int, j: int| 0 <= i < j < slots.len() ==> slots[i].0 != slots[j].0
}

/// Looking a name up in two runs of members: the second run is searched
/// first.
pub proof fn lemma_lookup_concat(
    first: Seq<(Seq<char>, JsonView)>,
    second: Seq<(Seq<char>, JsonView)>,
    name: Seq<char>,
)
    ensures
        lookup(first + second, name) == (match lookup(second, name) {
            Some(value) => Some(value),
            None => lookup(first, name),
        }),
    decreases second.len(),
{
    if second.len() > 0 {
        assert((first + second).drop_last() =~= first + second.drop_last());
        lemma_lookup_concat(first, second.drop_last(), name);
    }
}

/// A name that no slot has is the name of no member.
pub proof fn lemma_written_without(slots: Seq<Slot>, name: Seq<char>)
    requires
        forall|i: int| 0 <= i < slots.len() ==> (#[trigger] slots[i]).0 != name,
    ensures
        lookup(written(slots), name) is None,
    decreases slots.len(),
{
    if slots.len() > 0 {
        let init = slots.drop_last();
        lemma_written_without(init, name);
        lemma_lookup_concat(written(init), slot_members(slots.last()), name);
        reveal_with_fuel(lookup, 2);
    }
}

/// Where the names of the slots differ, each name finds what its slot wrote.
pub proof fn lemma_written_field(slots: Seq<Slot>, i: int)
    requires
        distinct_names(slots),
        0 <= i < slots.len(),
    ensures
        lookup(written(slots), slots[i].0) == slots[i].1,
    decreases slots.len(),
{
    let init = slots.drop_last();
    let last = slots.last();
    let name = slots[i].0;
    lemma_lookup_concat(written(init), slot_members(last), name);
    reveal_with_fuel(lookup, 2);
    if i == slots.len() - 1 {
        if last.1 is None {
            lemma_written_without(init, name);
        }
    } else {
        lemma_written_field(init, i);
    }
}

/// Writes an object member by member.
pub(crate) struct ObjectWriter {
    members: Vec<(String, Json)>,
    slots: Ghost<Seq<Slot>>,
}

impl ObjectWriter {
    /// The slots that were written so far.
    pub(crate) closed spec fn slots(&self) -> Seq<Slot> {
        self.slots@
    }

    /// The members are those that the slots write.
    pub(crate) closed spec fn wf(&self) -> bool {
        members_view(self.members@) == written(self.slots@)
    }

    /// A writer that has written nothing.
    pub(crate) fn new() -> (writer: ObjectWriter)
        ensures
            writer.wf(),
            writer.slots() == Seq::<Slot>::empty(),
    {
        ObjectWriter { members: Vec::new(), slots: Ghost(Seq::empty()) }
    }

    /// Writes the member `name` where `value` holds one, and nothing else.
    pub(crate) fn write(&mut self, name: &'static str, value: Option<Json>)
        requires
            old(self).wf(),
        ensures
            final(self).wf(),
            final(self).slots() == old(self).slots().push((name@, optional_view(value))),
    {
        let ghost slot = (name@, optional_view(value));
        let ghost before = self.members@;
        proof {
            assert(self.slots@.push(slot).drop_last() =~= self.slots@);
        }
        if let Some(json) = value {
            self.members.push((name.to_owned(), json));
            proof {
                assert(self.members@.drop_last() =~= before);
                assert(members_view(before) + seq![(name@, json@)] =~= members_view(
                    before,
                ).push((name@, json@)));
            }
        }
        self.slots = Ghost(self.slots@.push(slot));
    }

    /// The object of the members that were written.
    pub(crate) fn finish(self) -> (json: Json)
        requires
            self.wf(),
        ensures
            json@ == JsonView::Object(written(self.slots())),
    {
        Json::Object(self.members)
    }
}

} // verus!
