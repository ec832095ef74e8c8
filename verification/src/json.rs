//! JSON values as the protocol's payloads carry them.

use vstd::prelude::*;

verus! {

/// A JSON number: a non-negative integer, a negative integer, or a float kept
/// as the bits of its IEEE double.
#[derive(Debug, Clone, Copy, PartialEq, Eq, Structural)]
pub enum JsonNumber {
    PosInt(u64),
    NegInt(i64),
    Float(u64),
}

/// A JSON value. An object keeps its members in the order they were written.
#[derive(Debug, PartialEq, Eq)]
pub enum Json {
    Null,
    Bool(bool),
    Number(JsonNumber),
    Text(String),
    Array(Vec<Json>),
    Object(Vec<(String, Json)>),
}

/// What a JSON value says, with texts and lists as mathematical sequences.
pub enum JsonView {
    Null,
    Bool(bool),
    Number(JsonNumber),
    Text(Seq<char>),
    Array(Seq<JsonView>),
    Object(Seq<(Seq<char>, JsonView)>),
}

impl View for Json {
    type V = JsonView;

    open spec fn view(&self) -> JsonView {
        json_view(*self)
    }
}

pub open spec fn json_view(j: Json) -> JsonView
    decreases j,
{
    match j {
        Json::Null => JsonView::Null,
        Json::Bool(b) => JsonView::Bool(b),
        Json::Number(n) => JsonView::Number(n),
        Json::Text(s) => JsonView::Text(s@),
        Json::Array(items) => JsonView::Array(
            Seq::new(
                items@.len(),
                |i: int| if 0 <= i < items@.len() { json_view(items@[i]) } else { JsonView::Null },
            ),
        ),
        Json::Object(members) => JsonView::Object(
            Seq::new(
                members@.len(),
                |i: int|
                    if 0 <= i < members@.len() {
                        (members@[i].0@, json_view(members@[i].1))
                    } else {
                        (Seq::<char>::empty(), JsonView::Null)
                    },
            ),
        ),
    }
}

/// The value of the first member of `v` with the name `key`; none when `v` is
/// no object or has no such member.
pub open spec fn member(v: JsonView, key: Seq<char>) -> Option<JsonView> {
    match v {
        JsonView::Object(members) => member_of(members, key),
        _ => None,
    }
}

pub open spec fn member_of(members: Seq<(Seq<char>, JsonView)>, key: Seq<char>) -> Option<JsonView>
    decreases members.len(),
{
    if members.len() == 0 {
        None
    } else if members.first().0 == key {
        Some(members.first().1)
    } else {
        member_of(members.drop_first(), key)
    }
}

/// The unsigned integer that `v` is, if it is one.
pub open spec fn as_u64_view(v: JsonView) -> Option<u64> {
    match v {
        JsonView::Number(JsonNumber::PosInt(n)) => Some(n),
        _ => None,
    }
}

/// The signed integer that `v` is, if it is one that fits in 64 bits.
pub open spec fn as_i64_view(v: JsonView) -> Option<i64> {
    match v {
        JsonView::Number(JsonNumber::PosInt(n)) => if n <= i64::MAX {
            Some(n as i64)
        } else {
            None
        },
        JsonView::Number(JsonNumber::NegInt(n)) => Some(n),
        _ => None,
    }
}

pub open spec fn as_bool_view(v: JsonView) -> Option<bool> {
    match v {
        JsonView::Bool(b) => Some(b),
        _ => None,
    }
}

pub open spec fn as_text_view(v: JsonView) -> Option<Seq<char>> {
    match v {
        JsonView::Text(s) => Some(s),
        _ => None,
    }
}

/// The member `key` of `v` as an unsigned integer.
pub open spec fn member_u64(v: JsonView, key: Seq<char>) -> Option<u64> {
    match member(v, key) {
        Some(value) => as_u64_view(value),
        None => None,
    }
}

/// The member `key` of `v` as a signed integer.
pub open spec fn member_i64(v: JsonView, key: Seq<char>) -> Option<i64> {
    match member(v, key) {
        Some(value) => as_i64_view(value),
        None => None,
    }
}

/// The low 32 bits of the member `key` of `v`, when that is an integer.
pub open spec fn member_i32(v: JsonView, key: Seq<char>) -> Option<i32> {
    match member_i64(v, key) {
        Some(n) => Some(n as i32),
        None => None,
    }
}

/// The member `key` of `v` as a truth value.
pub open spec fn member_bool(v: JsonView, key: Seq<char>) -> Option<bool> {
    match member(v, key) {
        Some(value) => as_bool_view(value),
        None => None,
    }
}

/// The member `key` of `v` as a text.
pub open spec fn member_text(v: JsonView, key: Seq<char>) -> Option<Seq<char>> {
    match member(v, key) {
        Some(value) => as_text_view(value),
        None => None,
    }
}

/// What `members` says, member by member.
pub open spec fn members_view(members: Seq<(String, Json)>) -> Seq<(Seq<char>, JsonView)> {
    Seq::new(members.len(), |i: int| (members[i].0@, members[i].1@))
}

/// What `items` says, item by item.
pub open spec fn items_view(items: Seq<Json>) -> Seq<JsonView> {
    Seq::new(items.len(), |i: int| items[i]@)
}

/// The view of an object or an array is that of what it holds.
pub broadcast proof fn lemma_nested_view(j: Json)
    ensures
        (#[trigger] j@) == (match j {
            Json::Null => JsonView::Null,
            Json::Bool(b) => JsonView::Bool(b),
            Json::Number(n) => JsonView::Number(n),
            Json::Text(s) => JsonView::Text(s@),
            Json::Array(items) => JsonView::Array(items_view(items@)),
            Json::Object(members) => JsonView::Object(members_view(members@)),
        }),
{
    match j {
        Json::Array(items) => {
            assert(j@->Array_0 =~= items_view(items@));
        },
        Json::Object(members) => {
            assert(j@->Object_0 =~= members_view(members@));
        },
        _ => {},
    }
}

impl Clone for Json {
    fn clone(&self) -> (r: Self)
        ensures
            r@ == self@,
        decreases *self,
    {
        broadcast use lemma_nested_view;

        match self {
            Json::Null => Json::Null,
            Json::Bool(b) => Json::Bool(*b),
            Json::Number(n) => Json::Number(*n),
            Json::Text(s) => Json::Text(s.clone()),
            Json::Array(items) => {
                let mut copy: Vec<Json> = Vec::new();
                let mut i: usize = 0;
                while i < items.len()
                    invariant
                        *self == Json::Array(*items),
                        i <= items.len(),
                        copy.len() == i,
                        forall|k: int| 0 <= k < i ==> (#[trigger] copy@[k])@ == items@[k]@,
                    decreases items.len() - i,
                {
                    assert(decreases_to!(*self => self->Array_0));
                    assert(decreases_to!(items@ => items@[i as int]));
                    copy.push(items[i].clone());
                    i = i + 1;
                }
                assert(items_view(copy@) =~= items_view(items@));
                Json::Array(copy)
            },
            Json::Object(members) => {
                let mut copy: Vec<(String, Json)> = Vec::new();
                let mut i: usize = 0;
                while i < members.len()
                    invariant
                        *self == Json::Object(*members),
                        i <= members.len(),
                        copy.len() == i,
                        forall|k: int|
                            0 <= k < i ==> (#[trigger] copy@[k]).0@ == members@[k].0@
                                && copy@[k].1@ == members@[k].1@,
                    decreases members.len() - i,
                {
                    let entry = &members[i];
                    assert(decreases_to!(*self => self->Object_0));
                    assert(decreases_to!(members@ => members@[i as int]));
                    assert(decreases_to!(members@[i as int] => members@[i as int].1));
                    copy.push((entry.0.clone(), entry.1.clone()));
                    i = i + 1;
                }
                assert(members_view(copy@) =~= members_view(members@));
                Json::Object(copy)
            },
        }
    }
}

impl Json {
    /// A JSON text.
    pub fn text(s: &str) -> (r: Json)
        ensures
            r@ == JsonView::Text(s@),
    {
        Json::Text(s.to_owned())
    }

    /// A JSON number from an unsigned integer.
    pub fn unsigned(n: u64) -> (r: Json)
        ensures
            r@ == unsigned_view(n),
    {
        Json::Number(JsonNumber::PosInt(n))
    }

    /// A JSON number from a signed integer.
    pub fn signed(n: i64) -> (r: Json)
        ensures
            r@ == signed_view(n),
    {
        if n < 0 {
            Json::Number(JsonNumber::NegInt(n))
        } else {
            Json::Number(JsonNumber::PosInt(n as u64))
        }
    }

    /// The value of the first member named `key`.
    pub fn get(&self, key: &str) -> (r: Option<&Json>)
        ensures
            match r {
                Some(value) => member(self@, key@) == Some(value@),
                None => member(self@, key@) is None,
            },
    {
        broadcast use lemma_nested_view;

        match self {
            Json::Object(members) => {
                let mut i: usize = 0;
                assert(members_view(members@).skip(0) =~= members_view(members@));
                while i < members.len()
                    invariant
                        i <= members.len(),
                        *self == Json::Object(*members),
                        member(self@, key@) == member_of(
                            members_view(members@).skip(i as int),
                            key@,
                        ),
                    decreases members.len() - i,
                {
                    let entry = &members[i];
                    let ghost rest = members_view(members@).skip(i as int);
                    assert(rest.first() == (entry.0@, entry.1@));
                    assert(rest.drop_first() =~= members_view(members@).skip(i + 1));
                    if *entry.0.as_str() == *key {
                        return Some(&entry.1);
                    }
                    i = i + 1;
                }
                None
            },
            _ => None,
        }
    }

    /// The unsigned integer that this value is.
    pub fn as_u64(&self) -> (r: Option<u64>)
        ensures
            r == as_u64_view(self@),
    {
        match self {
            Json::Number(JsonNumber::PosInt(n)) => Some(*n),
            _ => None,
        }
    }

    /// The signed integer that this value is.
    pub fn as_i64(&self) -> (r: Option<i64>)
        ensures
            r == as_i64_view(self@),
    {
        match self {
            Json::Number(JsonNumber::PosInt(n)) => if *n <= i64::MAX as u64 {
                Some(*n as i64)
            } else {
                None
            },
            Json::Number(JsonNumber::NegInt(n)) => Some(*n),
            _ => None,
        }
    }

    /// The truth value that this value is.
    pub fn as_bool(&self) -> (r: Option<bool>)
        ensures
            r == as_bool_view(self@),
    {
        match self {
            Json::Bool(b) => Some(*b),
            _ => None,
        }
    }

    /// The text that this value is.
    pub fn as_str(&self) -> (r: Option<&str>)
        ensures
            match r {
                Some(s) => as_text_view(self@) == Some(s@),
                None => as_text_view(self@) is None,
            },
    {
        match self {
            Json::Text(s) => Some(s.as_str()),
            _ => None,
        }
    }

    /// The member `key` as an unsigned integer.
    pub fn get_u64(&self, key: &str) -> (r: Option<u64>)
        ensures
            r == member_u64(self@, key@),
    {
        match self.get(key) {
            Some(value) => value.as_u64(),
            None => None,
        }
    }

    /// The low 32 bits of the member `key`, when that is an integer.
    pub fn get_i32(&self, key: &str) -> (r: Option<i32>)
        ensures
            r == member_i32(self@, key@),
    {
        match self.get(key) {
            Some(value) => match value.as_i64() {
                Some(n) => Some(#[verifier::truncate] (n as i32)),
                None => None,
            },
            None => None,
        }
    }

    /// The member `key` as a truth value.
    pub fn get_bool(&self, key: &str) -> (r: Option<bool>)
        ensures
            r == member_bool(self@, key@),
    {
        match self.get(key) {
            Some(value) => value.as_bool(),
            None => None,
        }
    }

    /// The member `key` as a text.
    pub fn get_str(&self, key: &str) -> (r: Option<&str>)
        ensures
            match r {
                Some(s) => member_text(self@, key@) == Some(s@),
                None => member_text(self@, key@) is None,
            },
    {
        match self.get(key) {
            Some(value) => value.as_str(),
            None => None,
        }
    }
}

/// The JSON number of an unsigned integer.
pub open spec fn unsigned_view(n: u64) -> JsonView {
    JsonView::Number(JsonNumber::PosInt(n))
}

/// The JSON number of a signed integer.
pub open spec fn signed_view(n: i64) -> JsonView {
    if n < 0 {
        JsonView::Number(JsonNumber::NegInt(n))
    } else {
        JsonView::Number(JsonNumber::PosInt(n as u64))
    }
}

/// An object under construction.
pub struct ObjectBuilder {
    members: Vec<(String, Json)>,
}

impl View for ObjectBuilder {
    type V = Seq<(Seq<char>, JsonView)>;

    closed spec fn view(&self) -> Self::V {
        members_view(self.members@)
    }
}

impl ObjectBuilder {
    /// An object without members.
    pub fn new() -> (r: Self)
        ensures
            r@ == Seq::<(Seq<char>, JsonView)>::empty(),
    {
        let r = ObjectBuilder { members: Vec::new() };
        assert(r@ =~= Seq::<(Seq<char>, JsonView)>::empty());
        r
    }

    /// Adds a member at the end.
    pub fn put(&mut self, key: &str, value: Json)
        ensures
            final(self)@ == old(self)@.push((key@, value@)),
    {
        let ghost before = self@;
        let ghost said = value@;
        self.members.push((key.to_owned(), value));
        assert(self@ =~= before.push((key@, said)));
    }

    /// The object as built so far.
    pub fn build(self) -> (r: Json)
        ensures
            r@ == JsonView::Object(self@),
    {
        broadcast use lemma_nested_view;

        Json::Object(self.members)
    }
}

/// What a read of a number gives back is what was written, whatever its sign.
pub proof fn signed_number_reads_back(n: i64)
    ensures
        as_i64_view(signed_view(n)) == Some(n),
{
}

/// What a read of an unsigned number gives back is what was written.
pub proof fn unsigned_number_reads_back(n: u64)
    ensures
        as_u64_view(unsigned_view(n)) == Some(n),
{
}

/// A 32-bit number that was written as JSON is read back unchanged.
pub proof fn i32_reads_back(n: i32)
    ensures
        as_i64_view(signed_view(n as i64)) == Some(n as i64),
        (n as i64) as i32 == n,
{
}

/// The member that a name is looked up by is the first of that name, and none
/// is found only where no member has it.
pub proof fn first_member_is_found(members: Seq<(Seq<char>, JsonView)>, key: Seq<char>)
    ensures
        match member_of(members, key) {
            Some(value) => exists|i: int|
                0 <= i < members.len() && #[trigger] members[i] == (key, value) && forall|j: int|
                    0 <= j < i ==> (#[trigger] members[j]).0 != key,
            None => forall|i: int| 0 <= i < members.len() ==> (#[trigger] members[i]).0 != key,
        },
        member(JsonView::Object(members), key) == member_of(members, key),
    decreases members.len(),
{
    if members.len() > 0 {
        let rest = members.drop_first();
        first_member_is_found(rest, key);
        if members.first().0 == key {
            assert(members[0] == (key, members.first().1));
        } else {
            match member_of(rest, key) {
                Some(value) => {
                    let i = choose|i: int|
                        0 <= i < rest.len() && #[trigger] rest[i] == (key, value) && forall|j: int|
                            0 <= j < i ==> (#[trigger] rest[j]).0 != key;
                    assert(members[i + 1] == (key, value));
                    assert forall|j: int| 0 <= j < i + 1 implies (#[trigger] members[j]).0
                        != key by {
                        if j > 0 {
                            assert(members[j] == rest[j - 1]);
                        }
                    }
                },
                None => {
                    assert forall|i: int| 0 <= i < members.len() implies (#[trigger] members[i]).0
                        != key by {
                        if i > 0 {
                            assert(members[i] == rest[i - 1]);
                        }
                    }
                },
            }
        }
    }
}

/// A member whose name no member before it has is the one that is found.
pub proof fn lemma_member_at(members: Seq<(Seq<char>, JsonView)>, at: int)
    requires
        0 <= at < members.len(),
        forall|j: int| 0 <= j < at ==> (#[trigger] members[j]).0 != members[at].0,
    ensures
        member_of(members, members[at].0) == Some(members[at].1),
{
    let key = members[at].0;
    first_member_is_found(members, key);
    if let Some(value) = member_of(members, key) {
        let i = choose|i: int|
            0 <= i < members.len() && #[trigger] members[i] == (key, value) && forall|j: int|
                0 <= j < i ==> (#[trigger] members[j]).0 != key;
        assert(members[i].0 == key);
    }
}

/// What is no object has no members.
pub proof fn only_objects_have_members(v: JsonView, key: Seq<char>)
    requires
        !(v is Object),
    ensures
        member(v, key) is None,
{
}

/// A member is read as an unsigned number, a truth value or a text only where
/// it is one, and then it is read as it stands.
pub proof fn members_are_read_as_they_stand(
    v: JsonView,
    key: Seq<char>,
    n: u64,
    b: bool,
    s: Seq<char>,
)
    ensures
        member_u64(v, key) == Some(n) <==> member(v, key) == Some(
            JsonView::Number(JsonNumber::PosInt(n)),
        ),
        member_bool(v, key) == Some(b) <==> member(v, key) == Some(JsonView::Bool(b)),
        member_text(v, key) == Some(s) <==> member(v, key) == Some(JsonView::Text(s)),
{
}

/// A member is read as a signed number wherever it is an integer that fits,
/// and as a short one wherever it is read as a signed one: unchanged when it is
/// short, and else by its low bits.
pub proof fn integers_are_read_with_their_sign(v: JsonView, key: Seq<char>)
    ensures
        match member(v, key) {
            Some(JsonView::Number(JsonNumber::PosInt(n))) => if n <= 0x7fff_ffff_ffff_ffff {
                member_i64(v, key) == Some(n as i64)
            } else {
                member_i64(v, key) is None
            },
            Some(JsonView::Number(JsonNumber::NegInt(n))) => member_i64(v, key) == Some(n),
            _ => member_i64(v, key) is None,
        },
        match member_i64(v, key) {
            Some(n) => member_i32(v, key) matches Some(short) && short as u32 == n as u32 && (
            i32::MIN <= n <= i32::MAX ==> short == n),
            None => member_i32(v, key) is None,
        },
{
    if let Some(n) = member_i64(v, key) {
        assert((n as i32) as u32 == n as u32) by (bit_vector);
    }
}

/// A number is written with a sign only where it is below zero.
pub proof fn numbers_are_written_by_their_sign(n: i64, m: u64)
    ensures
        n >= 0 ==> signed_view(n) == JsonView::Number(JsonNumber::PosInt(n as u64)),
        n < 0 ==> signed_view(n) == JsonView::Number(JsonNumber::NegInt(n)),
        unsigned_view(m) == JsonView::Number(JsonNumber::PosInt(m)),
{
}

} // verus!
