//! Notices about what happens, and how they are printed.

use vstd::prelude::*;
use vstd::string::*;

use crate::json;
use crate::json::{Json, JsonView, ObjectBuilder};
use crate::text;

verus! {

/// Something that happened: its name and what is to be told of it.
#[derive(Debug, PartialEq, Eq)]
pub struct Notice {
    pub name: &'static str,
    pub payload: Json,
}

pub struct NoticeView {
    pub name: Seq<char>,
    pub payload: JsonView,
}

impl View for Notice {
    type V = NoticeView;

    open spec fn view(&self) -> NoticeView {
        NoticeView { name: self.name@, payload: self.payload@ }
    }
}

pub open spec fn notice_view(notice: Option<Notice>) -> Option<NoticeView> {
    match notice {
        Some(n) => Some(n@),
        None => None,
    }
}

impl Notice {
    pub fn new(name: &'static str, payload: Json) -> (r: Notice)
        ensures
            r@ == (NoticeView { name: name@, payload: payload@ }),
    {
        Notice { name, payload }
    }

    /// A notice of which nothing but its name is told.
    pub fn plain(name: &'static str) -> (r: Notice)
        ensures
            r@ == plain_notice(name@),
    {
        Notice { name, payload: ObjectBuilder::new().build() }
    }

    /// A notice of which one member is told.
    pub fn with(name: &'static str, key: &str, value: Json) -> (r: Notice)
        ensures
            r@ == notice_with(name@, key@, value@),
    {
        let mut payload = ObjectBuilder::new();
        payload.put(key, value);
        assert(payload@ =~= seq![(key@, value@)]);
        Notice { name, payload: payload.build() }
    }
}

/// The JSON object without members.
pub open spec fn empty_object() -> JsonView {
    JsonView::Object(Seq::empty())
}

pub open spec fn plain_notice(name: Seq<char>) -> NoticeView {
    NoticeView { name, payload: empty_object() }
}

pub open spec fn notice_with(name: Seq<char>, key: Seq<char>, value: JsonView) -> NoticeView {
    NoticeView { name, payload: JsonView::Object(seq![(key, value)]) }
}

// ---------------------------------------------------------------------------
// Lines
// ---------------------------------------------------------------------------

/// The line that a notice is printed as.
#[derive(Debug, PartialEq, Eq)]
pub enum EventLine {
    /// This value, as JSON.
    Machine(Json),
    /// This text.
    Text(String),
    /// This name, a colon, a space, and this value as JSON.
    Named { name: String, payload: Json },
}

pub enum EventLineView {
    Machine(JsonView),
    Text(Seq<char>),
    Named { name: Seq<char>, payload: JsonView },
}

impl View for EventLine {
    type V = EventLineView;

    open spec fn view(&self) -> EventLineView {
        match *self {
            EventLine::Machine(value) => EventLineView::Machine(value@),
            EventLine::Text(text) => EventLineView::Text(text@),
            EventLine::Named { name, payload } => EventLineView::Named {
                name: name@,
                payload: payload@,
            },
        }
    }
}

pub open spec fn text_or(value: Option<Seq<char>>, fallback: Seq<char>) -> Seq<char> {
    match value {
        Some(text) => text,
        None => fallback,
    }
}

pub open spec fn number_or_zero(value: Option<u64>) -> u64 {
    match value {
        Some(n) => n,
        None => 0,
    }
}

/// The texts among `items`, in their order.
pub open spec fn texts_in(items: Seq<JsonView>) -> Seq<Seq<char>>
    decreases items.len(),
{
    if items.len() == 0 {
        Seq::empty()
    } else {
        let before = texts_in(items.drop_last());
        match json::as_text_view(items.last()) {
            Some(text) => before.push(text),
            None => before,
        }
    }
}

/// `texts` with a comma and a space between them.
pub open spec fn comma_separated(texts: Seq<Seq<char>>) -> Seq<char>
    decreases texts.len(),
{
    if texts.len() == 0 {
        Seq::empty()
    } else if texts.len() == 1 {
        texts[0]
    } else {
        comma_separated(texts.drop_last()) + ", "@ + texts.last()
    }
}

/// The list of tracks that a queue notice tells.
pub open spec fn tracks_text(payload: JsonView) -> Seq<char> {
    match json::member(payload, "tracks"@) {
        Some(JsonView::Array(items)) => comma_separated(texts_in(items)),
        _ => Seq::empty(),
    }
}

/// The version that a queue notice tells.
pub open spec fn version_of(payload: JsonView) -> JsonView {
    match json::member(payload, "version"@) {
        Some(version) => version,
        None => JsonView::Null,
    }
}

/// The text that a notice is printed as, for the names that have one.
pub open spec fn known_text(name: Seq<char>, payload: JsonView) -> Option<Seq<char>> {
    if name == "connecting"@ {
        Some(
            "connecting to "@ + text_or(json::member_text(payload, "endpoint"@), "<unknown>"@)
                + " as "@ + text_or(json::member_text(payload, "device_name"@), "qconnect-cli"@) + (
            if json::member_bool(payload, "renderer"@) == Some(true) {
                " (renderer)"@
            } else {
                ""@
            }),
        )
    } else if name == "queue_updated"@ {
        Some(
            "queue v"@ + text::decimal(
                number_or_zero(json::member_u64(version_of(payload), "major"@)) as nat,
            ) + "."@ + text::decimal(
                number_or_zero(json::member_u64(version_of(payload), "minor"@)) as nat,
            ) + " ["@ + tracks_text(payload) + "]"@,
        )
    } else if name == "renderer_command"@ {
        Some(
            "renderer command: "@ + text_or(json::member_text(payload, "command"@), "<unknown>"@),
        )
    } else if name == "session_event"@ {
        Some(
            "session event: "@ + text_or(json::member_text(payload, "message_type"@), "<unknown>"@),
        )
    } else if name == "command_sent"@ {
        Some(
            "sent "@ + text_or(json::member_text(payload, "message_type"@), "<unknown>"@) + " ("@
                + text_or(json::member_text(payload, "action_uuid"@), "<no action>"@) + ")"@,
        )
    } else {
        None
    }
}

/// The line that a notice is printed as: one JSON value for machines, else a
/// text, or the name with whatever is told.
pub open spec fn line_for(machine: bool, name: Seq<char>, payload: JsonView) -> EventLineView {
    if machine {
        EventLineView::Machine(
            JsonView::Object(
                seq![("event"@, JsonView::Text(name)), ("payload"@, payload)],
            ),
        )
    } else {
        match known_text(name, payload) {
            Some(text) => EventLineView::Text(text),
            None => if payload == empty_object() {
                EventLineView::Text(name)
            } else {
                EventLineView::Named { name, payload }
            },
        }
    }
}

fn text_at<'a>(payload: &'a Json, key: &str, fallback: &'a str) -> (r: &'a str)
    ensures
        r@ == text_or(json::member_text(payload@, key@), fallback@),
{
    match payload.get_str(key) {
        Some(text) => text,
        None => fallback,
    }
}

fn append_number(line: &mut String, n: Option<u64>)
    ensures
        final(line)@ == old(line)@ + text::decimal(number_or_zero(n) as nat),
{
    let digits = text::decimal_text(
        match n {
            Some(value) => value,
            None => 0,
        },
    );
    line.append(digits.as_str());
}

/// The texts among `items`, with a comma and a space between them.
pub fn join_texts(items: &Vec<Json>) -> (r: String)
    ensures
        r@ == comma_separated(texts_in(json::items_view(items@))),
{
    let ghost said = json::items_view(items@);
    let mut line = String::new();
    let mut i: usize = 0;
    let mut count: usize = 0;
    assert(said.take(0) =~= Seq::<JsonView>::empty());
    while i < items.len()
        invariant
            i <= items.len(),
            count <= i,
            said == json::items_view(items@),
            count == texts_in(said.take(i as int)).len(),
            line@ == comma_separated(texts_in(said.take(i as int))),
        decreases items.len() - i,
    {
        let ghost before = texts_in(said.take(i as int));
        assert(said.take(i + 1).drop_last() =~= said.take(i as int));
        assert(said.take(i + 1).last() == items@[i as int]@);
        if let Some(text) = items[i].as_str() {
            assert(before.push(text@).drop_last() =~= before);
            if count > 0 {
                line.append(", ");
            } else {
                assert(line@ + text@ =~= text@);
            }
            line.append(text);
            count = count + 1;
        }
        i = i + 1;
    }
    assert(said.take(items.len() as int) =~= said);
    line
}

fn connecting_text(payload: &Json) -> (r: String)
    ensures
        known_text("connecting"@, payload@) == Some(r@),
{
    let mut line = "connecting to ".to_owned();
    line.append(text_at(payload, "endpoint", "<unknown>"));
    line.append(" as ");
    line.append(text_at(payload, "device_name", "qconnect-cli"));
    let renderer = match payload.get_bool("renderer") {
        Some(value) => value,
        None => false,
    };
    line.append(
        if renderer {
            " (renderer)"
        } else {
            ""
        },
    );
    line
}

fn queue_text(payload: &Json) -> (r: String)
    ensures
        r@ == "queue v"@ + text::decimal(
            number_or_zero(json::member_u64(version_of(payload@), "major"@)) as nat,
        ) + "."@ + text::decimal(
            number_or_zero(json::member_u64(version_of(payload@), "minor"@)) as nat,
        ) + " ["@ + tracks_text(payload@) + "]"@,
{
    broadcast use json::lemma_nested_view;

    let nothing = Json::Null;
    let version = match payload.get("version") {
        Some(value) => value,
        None => &nothing,
    };
    let mut line = "queue v".to_owned();
    append_number(&mut line, version.get_u64("major"));
    line.append(".");
    append_number(&mut line, version.get_u64("minor"));
    line.append(" [");
    let tracks = match payload.get("tracks") {
        Some(Json::Array(items)) => join_texts(items),
        _ => String::new(),
    };
    line.append(tracks.as_str());
    line.append("]");
    line
}

fn after_prefix(prefix: &str, text: &str) -> (r: String)
    ensures
        r@ == prefix@ + text@,
{
    let mut line = prefix.to_owned();
    line.append(text);
    line
}

fn sent_text(payload: &Json) -> (r: String)
    ensures
        r@ == "sent "@ + text_or(json::member_text(payload@, "message_type"@), "<unknown>"@)
            + " ("@ + text_or(json::member_text(payload@, "action_uuid"@), "<no action>"@) + ")"@,
{
    let mut line = after_prefix("sent ", text_at(payload, "message_type", "<unknown>"));
    line.append(" (");
    line.append(text_at(payload, "action_uuid", "<no action>"));
    line.append(")");
    line
}

fn is_empty_object(value: &Json) -> (r: bool)
    ensures
        r == (value@ == empty_object()),
{
    broadcast use json::lemma_nested_view;

    match value {
        Json::Object(members) => {
            let ghost said = json::members_view(members@);
            assert(said.len() == members@.len());
            assert(said.len() == 0 ==> said =~= Seq::<(Seq<char>, JsonView)>::empty());
            members.len() == 0
        },
        _ => false,
    }
}

/// Prints notices, for machines or for people.
#[derive(Debug, Clone, Copy, PartialEq, Eq, Structural)]
pub struct Printer {
    pub json: bool,
}

impl Printer {
    pub fn new(json: bool) -> (r: Printer)
        ensures
            r == (Printer { json }),
    {
        Printer { json }
    }

    /// The line that a notice is printed as.
    pub fn event(&self, name: &str, payload: &Json) -> (r: EventLine)
        ensures
            r@ == line_for(self.json, name@, payload@),
    {
        if self.json {
            let mut line = ObjectBuilder::new();
            line.put("event", Json::text(name));
            line.put("payload", payload.clone());
            assert(line@ =~= seq![("event"@, JsonView::Text(name@)), ("payload"@, payload@)]);
            return EventLine::Machine(line.build());
        }
        if *name == *"connecting" {
            EventLine::Text(connecting_text(payload))
        } else if *name == *"queue_updated" {
            EventLine::Text(queue_text(payload))
        } else if *name == *"renderer_command" {
            EventLine::Text(
                after_prefix("renderer command: ", text_at(payload, "command", "<unknown>")),
            )
        } else if *name == *"session_event" {
            EventLine::Text(
                after_prefix("session event: ", text_at(payload, "message_type", "<unknown>")),
            )
        } else if *name == *"command_sent" {
            EventLine::Text(sent_text(payload))
        } else if is_empty_object(payload) {
            EventLine::Text(name.to_owned())
        } else {
            EventLine::Named { name: name.to_owned(), payload: payload.clone() }
        }
    }
}

// ---------------------------------------------------------------------------
// Laws
// ---------------------------------------------------------------------------

/// Machine-readable output loses nothing: whatever the notice, its line is one
/// JSON value that gives back the name and the payload.
pub proof fn machine_lines_read_back(name: Seq<char>, payload: JsonView)
    ensures
        line_for(true, name, payload) is Machine,
        json::member_text(line_for(true, name, payload)->Machine_0, "event"@) == Some(name),
        json::member(line_for(true, name, payload)->Machine_0, "payload"@) == Some(payload),
{
    reveal_strlit("event");
    reveal_strlit("payload");
    reveal_with_fuel(json::member_of, 3);
    assert("event"@.len() != "payload"@.len());
}

/// A notice of one member says that member under its name, and a plain one
/// says nothing but its own name.
pub proof fn notices_say_what_they_are_given(name: Seq<char>, key: Seq<char>, value: JsonView)
    ensures
        notice_with(name, key, value).name == name,
        json::member(notice_with(name, key, value).payload, key) == Some(value),
        plain_notice(name).name == name,
        json::member(plain_notice(name).payload, key) is None,
        plain_notice(name).payload == JsonView::Object(Seq::empty()),
{
    json::lemma_member_at(notice_with(name, key, value).payload->Object_0, 0);
}

/// People are shown a command to the renderer and an event of the session by
/// what it is, and a notice without a form of its own by its name, with what it
/// says where it says anything.
pub proof fn shown_lines_say_what_happened(name: Seq<char>, payload: JsonView, said: Seq<char>)
    ensures
        json::member_text(payload, "command"@) == Some(said) ==> line_for(
            false,
            "renderer_command"@,
            payload,
        ) == EventLineView::Text("renderer command: "@ + said),
        json::member_text(payload, "message_type"@) == Some(said) ==> line_for(
            false,
            "session_event"@,
            payload,
        ) == EventLineView::Text("session event: "@ + said),
        name != "connecting"@ && name != "queue_updated"@ && name != "renderer_command"@ && name
            != "session_event"@ && name != "command_sent"@ ==> {
            &&& payload == JsonView::Object(Seq::empty()) ==> line_for(false, name, payload)
                == EventLineView::Text(name)
            &&& payload != JsonView::Object(Seq::empty()) ==> line_for(false, name, payload) == (
            EventLineView::Named { name, payload })
        },
{
    lemma_shown_names();
}

/// The names of the notices that have a form of their own differ.
proof fn lemma_shown_names()
    ensures
        "connecting"@.len() == 10,
        "queue_updated"@.len() == 13,
        "renderer_command"@.len() == 16,
        "session_event"@.len() == 13,
        "command_sent"@.len() == 12,
        "queue_updated"@ != "session_event"@,
{
    reveal_strlit("connecting");
    reveal_strlit("queue_updated");
    reveal_strlit("renderer_command");
    reveal_strlit("session_event");
    reveal_strlit("command_sent");
    assert("queue_updated"@[0] != "session_event"@[0]);
}

/// What a notice with a form of its own leaves out is shown as unknown, the
/// device by the program's name, and a number as zero.
pub proof fn missing_members_are_shown_as_unknown(payload: JsonView)
    ensures
        json::member(payload, "endpoint"@) is None && json::member(payload, "device_name"@) is None
            && json::member(payload, "renderer"@) is None ==> line_for(
            false,
            "connecting"@,
            payload,
        ) == EventLineView::Text("connecting to "@ + "<unknown>"@ + " as "@ + "qconnect-cli"@),
        json::member(payload, "version"@) is None && json::member(payload, "tracks"@) is None
            ==> line_for(false, "queue_updated"@, payload) == EventLineView::Text(
            "queue v"@ + seq!['0'] + "."@ + seq!['0'] + " ["@ + "]"@,
        ),
        json::member(payload, "command"@) is None ==> line_for(
            false,
            "renderer_command"@,
            payload,
        ) == EventLineView::Text("renderer command: "@ + "<unknown>"@),
        json::member(payload, "message_type"@) is None ==> line_for(
            false,
            "session_event"@,
            payload,
        ) == EventLineView::Text("session event: "@ + "<unknown>"@),
        json::member(payload, "message_type"@) is None && json::member(payload, "action_uuid"@)
            is None ==> line_for(false, "command_sent"@, payload) == EventLineView::Text(
            "sent "@ + "<unknown>"@ + " ("@ + "<no action>"@ + ")"@,
        ),
{
    lemma_shown_names();
    reveal_strlit("");
    let line = "connecting to "@ + "<unknown>"@ + " as "@ + "qconnect-cli"@;
    assert(line + ""@ =~= line);
    assert(text::decimal(0) =~= seq!['0']);
    let list = "queue v"@ + seq!['0'] + "."@ + seq!['0'] + " ["@;
    assert(list + Seq::<char>::empty() + "]"@ =~= list + "]"@);
}

/// The texts of a list stand one behind the other, with a comma and a space
/// before each but the first; what is no text is passed over.
pub proof fn texts_are_separated_by_commas(
    before: Seq<JsonView>,
    item: JsonView,
    texts: Seq<Seq<char>>,
    last: Seq<char>,
)
    ensures
        texts_in(before.push(item)) == (match item {
            JsonView::Text(text) => texts_in(before).push(text),
            _ => texts_in(before),
        }),
        texts_in(Seq::empty()).len() == 0,
        comma_separated(Seq::empty()).len() == 0,
        texts.len() == 0 ==> comma_separated(texts.push(last)) == last,
        texts.len() > 0 ==> comma_separated(texts.push(last)) == comma_separated(texts) + seq![
            ',',
            ' ',
        ] + last,
{
    assert(before.push(item).drop_last() =~= before);
    assert(texts.push(last).drop_last() =~= texts);
    reveal_strlit(", ");
    assert(", "@ =~= seq![',', ' ']);
}

} // verus!
