//! The remote queue: its version, its items, and how items read from JSON.

use vstd::prelude::*;
use vstd::string::*;

use crate::json;
use crate::json::{Json, JsonNumber, JsonView};
use crate::text;

verus! {

/// The version of the remote queue that a state or a command refers to.
#[derive(Debug, Clone, Copy, PartialEq, Eq, Structural)]
pub struct QueueVersion {
    pub major: u64,
    pub minor: u64,
}

impl QueueVersion {
    pub fn new(major: u64, minor: u64) -> (r: Self)
        ensures
            r == (QueueVersion { major, minor }),
    {
        QueueVersion { major, minor }
    }

    /// The version before anything is known of the queue.
    pub open spec fn unknown() -> Self {
        QueueVersion { major: 0, minor: 0 }
    }
}

impl Default for QueueVersion {
    fn default() -> (r: Self)
        ensures
            r == QueueVersion::unknown(),
    {
        QueueVersion { major: 0, minor: 0 }
    }
}

/// The version that an event names, or the unknown one.
pub open spec fn version_or_unknown(version: Option<QueueVersion>) -> QueueVersion {
    match version {
        Some(v) => v,
        None => QueueVersion::unknown(),
    }
}

pub fn version_or_default(version: Option<QueueVersion>) -> (r: QueueVersion)
    ensures
        r == version_or_unknown(version),
{
    match version {
        Some(v) => v,
        None => QueueVersion::default(),
    }
}

/// One entry of the queue.
#[derive(Debug, PartialEq, Eq)]
pub struct QueueItem {
    pub track_context_uuid: String,
    pub track_id: u64,
    pub queue_item_id: u64,
}

/// What a queue entry says.
pub struct QueueItemView {
    pub track_context_uuid: Seq<char>,
    pub track_id: u64,
    pub queue_item_id: u64,
}

impl View for QueueItem {
    type V = QueueItemView;

    open spec fn view(&self) -> QueueItemView {
        QueueItemView {
            track_context_uuid: self.track_context_uuid@,
            track_id: self.track_id,
            queue_item_id: self.queue_item_id,
        }
    }
}

impl Clone for QueueItem {
    fn clone(&self) -> (r: Self)
        ensures
            r == *self,
    {
        QueueItem {
            track_context_uuid: self.track_context_uuid.clone(),
            track_id: self.track_id,
            queue_item_id: self.queue_item_id,
        }
    }
}

impl QueueItem {
    /// The short text of the entry: its queue item id behind a `#`.
    pub fn label(&self) -> (r: String)
        ensures
            r@ == seq!['#'] + text::decimal(self.queue_item_id as nat),
    {
        let mut text = String::new();
        text.push('#');
        let id = text::decimal_text(self.queue_item_id);
        text.append(id.as_str());
        assert(text@ =~= seq!['#'] + text::decimal(self.queue_item_id as nat));
        text
    }

    /// The entry's track id and queue item id around a `#`.
    pub fn track_label(&self) -> (r: String)
        ensures
            r@ == track_label_view(self@),
    {
        let mut text = text::decimal_text(self.track_id);
        let label = self.label();
        text.append(label.as_str());
        text
    }
}

/// The track id and the queue item id of an entry around a `#`.
pub open spec fn track_label_view(item: QueueItemView) -> Seq<char> {
    text::decimal(item.track_id as nat) + (seq!['#'] + text::decimal(item.queue_item_id as nat))
}

/// What an optional entry says.
pub open spec fn item_view(item: Option<QueueItem>) -> Option<QueueItemView> {
    match item {
        Some(it) => Some(it@),
        None => None,
    }
}

pub fn clone_item(item: &Option<QueueItem>) -> (r: Option<QueueItem>)
    ensures
        r == *item,
{
    match item {
        Some(it) => Some(it.clone()),
        None => None,
    }
}

/// What a list of entries says, entry by entry.
pub open spec fn queue_view(items: Seq<QueueItem>) -> Seq<QueueItemView> {
    Seq::new(items.len(), |i: int| items[i]@)
}

pub fn clone_items(items: &Vec<QueueItem>) -> (r: Vec<QueueItem>)
    ensures
        r@ == items@,
{
    let mut copy: Vec<QueueItem> = Vec::new();
    let mut i: usize = 0;
    while i < items.len()
        invariant
            i <= items.len(),
            copy@ == items@.take(i as int),
        decreases items.len() - i,
    {
        copy.push(items[i].clone());
        assert(copy@ =~= items@.take(i + 1));
        i = i + 1;
    }
    assert(copy@ =~= items@);
    copy
}

/// The first entry of `items` with the queue item id `id`.
pub open spec fn find_by_id(items: Seq<QueueItemView>, id: u64) -> Option<QueueItemView>
    decreases items.len(),
{
    if items.len() == 0 {
        None
    } else if items.first().queue_item_id == id {
        Some(items.first())
    } else {
        find_by_id(items.drop_first(), id)
    }
}

/// The index of the first entry of `items` with the queue item id `id`, or the
/// length of `items` without one.
pub open spec fn position_of(items: Seq<QueueItemView>, id: u64) -> nat
    decreases items.len(),
{
    if items.len() == 0 || items.first().queue_item_id == id {
        0
    } else {
        1 + position_of(items.drop_first(), id)
    }
}

pub proof fn lemma_position(items: Seq<QueueItemView>, id: u64)
    ensures
        position_of(items, id) <= items.len(),
        forall|i: int| 0 <= i < position_of(items, id) ==> items[i].queue_item_id != id,
        position_of(items, id) < items.len() ==> {
            &&& items[position_of(items, id) as int].queue_item_id == id
            &&& find_by_id(items, id) == Some(items[position_of(items, id) as int])
        },
        position_of(items, id) == items.len() ==> find_by_id(items, id) is None,
    decreases items.len(),
{
    if items.len() > 0 && items.first().queue_item_id != id {
        let rest = items.drop_first();
        lemma_position(rest, id);
        assert forall|i: int| 0 <= i < position_of(items, id) implies items[i].queue_item_id
            != id by {
            if i > 0 {
                assert(items[i] == rest[i - 1]);
            }
        }
    }
}

/// The index of the first entry with the queue item id `id`.
pub fn position_by_id(items: &Vec<QueueItem>, id: u64) -> (r: Option<usize>)
    ensures
        match r {
            Some(i) => i < items.len() && i == position_of(queue_view(items@), id),
            None => position_of(queue_view(items@), id) == items.len(),
        },
{
    let ghost all = queue_view(items@);
    let mut i: usize = 0;
    while i < items.len()
        invariant
            i <= items.len(),
            all == queue_view(items@),
            forall|k: int| 0 <= k < i ==> all[k].queue_item_id != id,
        decreases items.len() - i,
    {
        if items[i].queue_item_id == id {
            proof {
                lemma_position(all, id);
                assert(all[i as int].queue_item_id == id);
            }
            return Some(i);
        }
        assert(all[i as int].queue_item_id != id);
        i = i + 1;
    }
    proof {
        lemma_position(all, id);
    }
    None
}

/// A copy of the first entry with the queue item id `id`.
pub fn find_item(items: &Vec<QueueItem>, id: Option<u64>) -> (r: Option<QueueItem>)
    ensures
        item_view(r) == (match id {
            Some(wanted) => find_by_id(queue_view(items@), wanted),
            None => None,
        }),
{
    match id {
        Some(wanted) => {
            proof {
                lemma_position(queue_view(items@), wanted);
            }
            match position_by_id(items, wanted) {
                Some(i) => Some(items[i].clone()),
                None => None,
            }
        },
        None => None,
    }
}

// ---------------------------------------------------------------------------
// Entries as JSON
// ---------------------------------------------------------------------------

/// The entry that three JSON values say, when they have the right types.
pub open spec fn entry_of(uuid: JsonView, track: JsonView, id: JsonView) -> Option<QueueItemView> {
    match (json::as_text_view(uuid), json::as_u64_view(track), json::as_u64_view(id)) {
        (Some(track_context_uuid), Some(track_id), Some(queue_item_id)) => Some(
            QueueItemView { track_context_uuid, track_id, queue_item_id },
        ),
        _ => None,
    }
}

/// The entry that a JSON value says: an object with the three fields by name,
/// or an array of exactly the three in order.
pub open spec fn entry_view(v: JsonView) -> Option<QueueItemView> {
    match v {
        JsonView::Object(members) => match (
            json::member_of(members, "track_context_uuid"@),
            json::member_of(members, "track_id"@),
            json::member_of(members, "queue_item_id"@),
        ) {
            (Some(uuid), Some(track), Some(id)) => entry_of(uuid, track, id),
            _ => None,
        },
        JsonView::Array(items) => if items.len() == 3 {
            entry_of(items[0], items[1], items[2])
        } else {
            None
        },
        _ => None,
    }
}

fn entry_from(uuid: &Json, track: &Json, id: &Json) -> (r: Option<QueueItem>)
    ensures
        item_view(r) == entry_of(uuid@, track@, id@),
{
    match (uuid.as_str(), track.as_u64(), id.as_u64()) {
        (Some(track_context_uuid), Some(track_id), Some(queue_item_id)) => Some(
            QueueItem {
                track_context_uuid: track_context_uuid.to_owned(),
                track_id,
                queue_item_id,
            },
        ),
        _ => None,
    }
}

/// Reads a queue entry from a JSON value.
pub fn entry_from_json(v: &Json) -> (r: Option<QueueItem>)
    ensures
        item_view(r) == entry_view(v@),
{
    broadcast use json::lemma_nested_view;

    match v {
        Json::Object(_) => match (
            v.get("track_context_uuid"),
            v.get("track_id"),
            v.get("queue_item_id"),
        ) {
            (Some(uuid), Some(track), Some(id)) => entry_from(uuid, track, id),
            _ => None,
        },
        Json::Array(items) => if items.len() == 3 {
            entry_from(&items[0], &items[1], &items[2])
        } else {
            None
        },
        _ => None,
    }
}

/// The entries that a JSON value lists: every item of an array that has only
/// entries in it.
pub open spec fn entries_view(v: JsonView) -> Option<Seq<QueueItemView>> {
    match v {
        JsonView::Array(items) => if forall|i: int|
            0 <= i < items.len() ==> (#[trigger] entry_view(items[i])) is Some {
            Some(Seq::new(items.len(), |i: int| entry_view(items[i])->0))
        } else {
            None
        },
        _ => None,
    }
}

/// Reads a list of queue entries from a JSON value.
pub fn entries_from_json(v: &Json) -> (r: Option<Vec<QueueItem>>)
    ensures
        match r {
            Some(items) => entries_view(v@) == Some(queue_view(items@)),
            None => entries_view(v@) is None,
        },
{
    broadcast use json::lemma_nested_view;

    match v {
        Json::Array(items) => {
            let ghost said = json::items_view(items@);
            let mut entries: Vec<QueueItem> = Vec::new();
            let mut i: usize = 0;
            while i < items.len()
                invariant
                    i <= items.len(),
                    said == json::items_view(items@),
                    v@ == JsonView::Array(said),
                    entries.len() == i,
                    forall|k: int|
                        0 <= k < i ==> #[trigger] entry_view(said[k]) == Some(entries@[k]@),
                decreases items.len() - i,
            {
                assert(said[i as int] == items@[i as int]@);
                match entry_from_json(&items[i]) {
                    Some(entry) => {
                        entries.push(entry);
                    },
                    None => {
                        assert(entry_view(said[i as int]) is None);
                        return None;
                    },
                }
                i = i + 1;
            }
            assert(queue_view(entries@) =~= Seq::new(
                said.len(),
                |k: int| entry_view(said[k])->0,
            ));
            Some(entries)
        },
        _ => None,
    }
}

/// The unsigned integers that a JSON value lists: every item of an array that
/// has nothing else in it.
pub open spec fn ids_view(v: JsonView) -> Option<Seq<u64>> {
    match v {
        JsonView::Array(items) => if forall|i: int|
            0 <= i < items.len() ==> (#[trigger] json::as_u64_view(items[i])) is Some {
            Some(Seq::new(items.len(), |i: int| json::as_u64_view(items[i])->0))
        } else {
            None
        },
        _ => None,
    }
}

/// Reads a list of unsigned integers from a JSON value.
pub fn ids_from_json(v: &Json) -> (r: Option<Vec<u64>>)
    ensures
        match r {
            Some(ids) => ids_view(v@) == Some(ids@),
            None => ids_view(v@) is None,
        },
{
    broadcast use json::lemma_nested_view;

    match v {
        Json::Array(items) => {
            let ghost said = json::items_view(items@);
            let mut ids: Vec<u64> = Vec::new();
            let mut i: usize = 0;
            while i < items.len()
                invariant
                    i <= items.len(),
                    said == json::items_view(items@),
                    v@ == JsonView::Array(said),
                    ids.len() == i,
                    forall|k: int|
                        0 <= k < i ==> #[trigger] json::as_u64_view(said[k]) == Some(ids@[k]),
                decreases items.len() - i,
            {
                assert(said[i as int] == items@[i as int]@);
                match items[i].as_u64() {
                    Some(id) => {
                        ids.push(id);
                    },
                    None => {
                        assert(json::as_u64_view(said[i as int]) is None);
                        return None;
                    },
                }
                i = i + 1;
            }
            assert(ids@ =~= Seq::new(said.len(), |k: int| json::as_u64_view(said[k])->0));
            Some(ids)
        },
        _ => None,
    }
}

/// The entries listed under `key`, or none at all when the member is missing
/// or malformed.
pub open spec fn entries_at(v: JsonView, key: Seq<char>) -> Seq<QueueItemView> {
    match json::member(v, key) {
        Some(list) => match entries_view(list) {
            Some(items) => items,
            None => Seq::empty(),
        },
        None => Seq::empty(),
    }
}

pub fn get_entries(v: &Json, key: &str) -> (r: Vec<QueueItem>)
    ensures
        queue_view(r@) == entries_at(v@, key@),
{
    if let Some(list) = v.get(key) {
        if let Some(items) = entries_from_json(list) {
            return items;
        }
    }
    let none: Vec<QueueItem> = Vec::new();
    assert(queue_view(none@) =~= Seq::<QueueItemView>::empty());
    none
}

/// The ids listed under `key`, or none at all when the member is missing or
/// malformed.
pub open spec fn ids_at(v: JsonView, key: Seq<char>) -> Seq<u64> {
    match json::member(v, key) {
        Some(list) => match ids_view(list) {
            Some(ids) => ids,
            None => Seq::empty(),
        },
        None => Seq::empty(),
    }
}

pub fn get_ids(v: &Json, key: &str) -> (r: Vec<u64>)
    ensures
        r@ == ids_at(v@, key@),
{
    if let Some(list) = v.get(key) {
        if let Some(ids) = ids_from_json(list) {
            return ids;
        }
    }
    Vec::new()
}

/// An entry is read back from the object that names its three fields, and from
/// the array that holds them in order.
pub proof fn entry_reads_back(item: QueueItemView)
    ensures
        entry_view(
            JsonView::Object(
                seq![
                    ("track_context_uuid"@, JsonView::Text(item.track_context_uuid)),
                    ("track_id"@, json::unsigned_view(item.track_id)),
                    ("queue_item_id"@, json::unsigned_view(item.queue_item_id)),
                ],
            ),
        ) == Some(item),
        entry_view(
            JsonView::Array(
                seq![
                    JsonView::Text(item.track_context_uuid),
                    json::unsigned_view(item.track_id),
                    json::unsigned_view(item.queue_item_id),
                ],
            ),
        ) == Some(item),
{
    reveal_strlit("track_context_uuid");
    reveal_strlit("track_id");
    reveal_strlit("queue_item_id");
    reveal_with_fuel(json::member_of, 4);
    assert("track_context_uuid"@.len() == 18);
    assert("track_id"@.len() == 8);
    assert("queue_item_id"@.len() == 13);
}

/// An event that names a version has that one, and any other the version
/// before anything is known.
pub proof fn named_versions_count(version: QueueVersion)
    ensures
        version_or_unknown(Some(version)) == version,
        version_or_unknown(None) == (QueueVersion { major: 0, minor: 0 }),
{
}

/// An entry is read from an object only by the names of its fields, from an
/// array only by their places, and from nothing else; none of the three may be
/// missing or of another type.
pub proof fn entries_are_read_by_their_fields(v: JsonView, item: QueueItemView)
    ensures
        v is Object ==> (entry_view(v) == Some(item) <==> json::member_text(
            v,
            "track_context_uuid"@,
        ) == Some(item.track_context_uuid) && json::member_u64(v, "track_id"@) == Some(
            item.track_id,
        ) && json::member_u64(v, "queue_item_id"@) == Some(item.queue_item_id)),
        v is Array ==> (entry_view(v) == Some(item) <==> v->Array_0.len() == 3 && v->Array_0[0]
            == JsonView::Text(item.track_context_uuid) && v->Array_0[1] == JsonView::Number(
            JsonNumber::PosInt(item.track_id),
        ) && v->Array_0[2] == JsonView::Number(JsonNumber::PosInt(item.queue_item_id))),
        !(v is Object) && !(v is Array) ==> entry_view(v) is None,
{
}

/// A list of entries is read entry by entry, in its order, or not at all: one
/// member that is no entry spoils the list, and so does a list that is missing.
pub proof fn lists_of_entries_are_read_whole(v: JsonView, key: Seq<char>, list: Seq<JsonView>)
    ensures
        json::member(v, key) == Some(JsonView::Array(list)) && (forall|i: int|
            0 <= i < list.len() ==> (#[trigger] entry_view(list[i])) is Some) ==> {
            &&& entries_at(v, key).len() == list.len()
            &&& forall|i: int|
                0 <= i < list.len() ==> #[trigger] entry_view(list[i]) == Some(
                    entries_at(v, key)[i],
                )
        },
        json::member(v, key) == Some(JsonView::Array(list)) && (exists|i: int|
            0 <= i < list.len() && (#[trigger] entry_view(list[i])) is None) ==> entries_at(
            v,
            key,
        ).len() == 0,
        !(json::member(v, key) matches Some(JsonView::Array(_))) ==> entries_at(v, key).len() == 0,
{
}

/// A list of ids is read id by id, in its order, or not at all.
pub proof fn lists_of_ids_are_read_whole(v: JsonView, key: Seq<char>, list: Seq<JsonView>)
    ensures
        json::member(v, key) == Some(JsonView::Array(list)) && (forall|i: int|
            0 <= i < list.len() ==> #[trigger] list[i] matches JsonView::Number(
                JsonNumber::PosInt(_),
            )) ==> {
            &&& ids_at(v, key).len() == list.len()
            &&& forall|i: int|
                0 <= i < list.len() ==> #[trigger] list[i] == JsonView::Number(
                    JsonNumber::PosInt(ids_at(v, key)[i]),
                )
        },
        json::member(v, key) == Some(JsonView::Array(list)) && (exists|i: int|
            0 <= i < list.len() && !(#[trigger] list[i] is Number && list[i]->Number_0 is PosInt))
            ==> ids_at(v, key).len() == 0,
        !(json::member(v, key) matches Some(JsonView::Array(_))) ==> ids_at(v, key).len() == 0,
{
    if let Some(JsonView::Array(items)) = json::member(v, key) {
        if items == list {
            if forall|i: int|
                0 <= i < list.len() ==> #[trigger] list[i] is Number && list[i]->Number_0
                    is PosInt {
                assert forall|i: int| 0 <= i < list.len() implies (#[trigger] json::as_u64_view(
                    list[i],
                )) is Some by {}
            } else {
                let i = choose|i: int|
                    0 <= i < list.len() && !(#[trigger] list[i] is Number && list[i]->Number_0
                        is PosInt);
                assert(json::as_u64_view(list[i]) is None);
            }
        }
    }
}

/// The entry that is found by its id is the first that has it, and none is
/// found only where none has it.
pub proof fn first_entry_of_an_id_is_found(items: Seq<QueueItemView>, id: u64)
    ensures
        match find_by_id(items, id) {
            Some(item) => exists|i: int|
                0 <= i < items.len() && #[trigger] items[i] == item && item.queue_item_id == id
                    && forall|j: int| 0 <= j < i ==> (#[trigger] items[j]).queue_item_id != id,
            None => forall|i: int|
                0 <= i < items.len() ==> (#[trigger] items[i]).queue_item_id != id,
        },
{
    lemma_position(items, id);
}

/// The label of an entry shows its track first and its place in the queue
/// behind the `#`, each as a number.
pub proof fn labels_show_track_and_item(item: QueueItemView)
    ensures
        track_label_view(item) == text::decimal(item.track_id as nat) + seq!['#'] + text::decimal(
            item.queue_item_id as nat,
        ),
{
    assert(track_label_view(item) =~= text::decimal(item.track_id as nat) + seq!['#']
        + text::decimal(item.queue_item_id as nat));
}

/// What is said of an entry is its track, its place in the queue and what it
/// was queued with.
pub proof fn entries_are_said_as_they_are(item: QueueItem)
    ensures
        item@.track_context_uuid == item.track_context_uuid@,
        item@.track_id == item.track_id,
        item@.queue_item_id == item.queue_item_id,
        item_view(Some(item)) == Some(item@),
        item_view(None) is None,
{
}

/// What is said of a list of entries is what is said of each, in their order.
pub proof fn lists_are_said_entry_by_entry(items: Seq<QueueItem>)
    ensures
        queue_view(items).len() == items.len(),
        forall|i: int| 0 <= i < items.len() ==> #[trigger] queue_view(items)[i] == items[i]@,
{
}

} // verus!
