//! Media keys: which entry of the queue they mean, and what the server is asked
//! to do about them.

use vstd::prelude::*;

use crate::app_types::{
    QConnectQueueState, QConnectRendererState, QueueStateView, RendererStateView,
};
use crate::json;
use crate::json::{Json, JsonNumber, JsonView, ObjectBuilder};
use crate::notices;
use crate::playback;
use crate::protocol::{
    PLAYING_STATE_PAUSED, PLAYING_STATE_PLAYING, PLAYING_STATE_STOPPED,
};
use crate::queue;
use crate::queue::{QueueItem, QueueItemView, QueueVersion};

verus! {

/// A media key.
#[derive(Debug, Clone, Copy, PartialEq, Eq, Structural)]
pub enum MprisCommand {
    Play,
    Pause,
    Toggle,
    Stop,
    Next,
    Previous,
}

impl MprisCommand {
    pub open spec fn name_view(self) -> Seq<char> {
        match self {
            MprisCommand::Play => "Play"@,
            MprisCommand::Pause => "Pause"@,
            MprisCommand::Toggle => "Toggle"@,
            MprisCommand::Stop => "Stop"@,
            MprisCommand::Next => "Next"@,
            MprisCommand::Previous => "Previous"@,
        }
    }

    pub fn name(&self) -> (r: &'static str)
        ensures
            r@ == self.name_view(),
    {
        match self {
            MprisCommand::Play => "Play",
            MprisCommand::Pause => "Pause",
            MprisCommand::Toggle => "Toggle",
            MprisCommand::Stop => "Stop",
            MprisCommand::Next => "Next",
            MprisCommand::Previous => "Previous",
        }
    }
}

/// What media controls show of playback, with a position in seconds.
#[derive(Debug, Clone, Copy, PartialEq, Eq, Structural)]
pub enum MediaStatus {
    Playing { position_secs: u64 },
    Paused { position_secs: u64 },
    Stopped,
}

/// What media controls show of a playing state.
pub fn media_status(playing_state: i32, position_secs: u64) -> (r: MediaStatus)
    ensures
        r == (if playing_state == PLAYING_STATE_PLAYING {
            MediaStatus::Playing { position_secs }
        } else if playing_state == PLAYING_STATE_PAUSED {
            MediaStatus::Paused { position_secs }
        } else {
            MediaStatus::Stopped
        }),
{
    if playing_state == PLAYING_STATE_PLAYING {
        MediaStatus::Playing { position_secs }
    } else if playing_state == PLAYING_STATE_PAUSED {
        MediaStatus::Paused { position_secs }
    } else {
        MediaStatus::Stopped
    }
}

// ---------------------------------------------------------------------------
// Where in the queue
// ---------------------------------------------------------------------------

/// The entries of `items` at the indices in `order`, in that order, without
/// the indices that lie beyond them.
pub open spec fn picked(items: Seq<QueueItemView>, order: Seq<usize>) -> Seq<QueueItemView>
    decreases order.len(),
{
    if order.len() == 0 {
        Seq::empty()
    } else {
        let before = picked(items, order.drop_last());
        if order.last() < items.len() {
            before.push(items[order.last() as int])
        } else {
            before
        }
    }
}

/// The entries of a queue in the order in which they play.
pub open spec fn play_order(queue: QueueStateView) -> Seq<QueueItemView> {
    match queue.shuffle_order {
        Some(order) if queue.shuffle_mode => picked(queue.items, order),
        _ => queue.items,
    }
}

pub fn ordered_queue_items(queue: &QConnectQueueState) -> (r: Vec<QueueItem>)
    ensures
        queue::queue_view(r@) == play_order(queue@),
{
    if queue.shuffle_mode {
        if let Some(order) = &queue.shuffle_order {
            let ghost items = queue@.items;
            let mut ordered: Vec<QueueItem> = Vec::new();
            let mut i: usize = 0;
            proof {
                assert(order@.take(0) =~= Seq::<usize>::empty());
                assert(queue::queue_view(ordered@) =~= Seq::<QueueItemView>::empty());
            }
            while i < order.len()
                invariant
                    i <= order.len(),
                    items == queue@.items,
                    queue::queue_view(ordered@) == picked(items, order@.take(i as int)),
                decreases order.len() - i,
            {
                let ghost before = ordered@;
                assert(order@.take(i + 1).drop_last() =~= order@.take(i as int));
                let index: usize = order[i];
                if index < queue.queue_items.len() {
                    ordered.push(queue.queue_items[index].clone());
                    assert(queue::queue_view(ordered@) =~= queue::queue_view(before).push(
                        items[index as int],
                    ));
                }
                i = i + 1;
            }
            assert(order@.take(order.len() as int) =~= order@);
            return ordered;
        }
    }
    queue::clone_items(&queue.queue_items)
}

/// The entry that stands `direction` places after the renderer's current one.
pub open spec fn neighbour(
    renderer: RendererStateView,
    queue: QueueStateView,
    direction: int,
) -> Option<QueueItemView> {
    match renderer.current_track {
        Some(current) => {
            let ordered = play_order(queue);
            let at = queue::position_of(ordered, current.queue_item_id);
            if at < ordered.len() && 0 <= at + direction < ordered.len() {
                Some(ordered[at + direction])
            } else {
                None
            }
        },
        None => None,
    }
}

/// The entry before or after the renderer's current one, or as far away as
/// `direction` says.
pub fn adjacent_queue_item(
    renderer: &QConnectRendererState,
    queue: &QConnectQueueState,
    direction: i32,
) -> (r: Option<QueueItem>)
    ensures
        queue::item_view(r) == neighbour(renderer@, queue@, direction as int),
{
    match &renderer.current_track {
        Some(current) => {
            let ordered = ordered_queue_items(queue);
            match queue::position_by_id(&ordered, current.queue_item_id) {
                Some(at) => {
                    let target: i128 = at as i128 + direction as i128;
                    if target < 0 || target >= ordered.len() as i128 {
                        None
                    } else {
                        let index: usize = target as usize;
                        assert(queue::queue_view(ordered@)[index as int] == ordered@[index as int]@);
                        Some(ordered[index].clone())
                    }
                },
                None => None,
            }
        },
        None => None,
    }
}

// ---------------------------------------------------------------------------
// What the server is asked
// ---------------------------------------------------------------------------

/// A number or null as JSON.
pub open spec fn i32_or_null(value: Option<i32>) -> JsonView {
    match value {
        Some(n) => json::signed_view(n as i64),
        None => JsonView::Null,
    }
}

pub fn i32_json(value: Option<i32>) -> (r: Json)
    ensures
        r@ == i32_or_null(value),
{
    match value {
        Some(n) => Json::signed(n as i64),
        None => Json::Null,
    }
}

/// An entry of a queue of some version, by its id, or null.
pub open spec fn entry_said(item: Option<QueueItemView>, version: QueueVersion) -> JsonView {
    match item {
        Some(it) => JsonView::Object(
            seq![
                ("queue_version"@, notices::version_said(version)),
                ("id"@, json::unsigned_view(it.queue_item_id)),
            ],
        ),
        None => JsonView::Null,
    }
}

fn entry_json(item: &Option<QueueItem>, version: &QueueVersion) -> (r: Json)
    ensures
        r@ == entry_said(queue::item_view(*item), *version),
{
    match item {
        Some(it) => {
            let mut said = ObjectBuilder::new();
            said.put("queue_version", notices::version_json(version));
            said.put("id", Json::unsigned(it.queue_item_id));
            assert(said@ =~= entry_said(queue::item_view(*item), *version)->Object_0);
            said.build()
        },
        None => Json::Null,
    }
}

/// What a request for a playing state says.
pub open spec fn player_state_said(
    playing_state: i32,
    position: Option<i32>,
    item: Option<QueueItemView>,
    version: QueueVersion,
) -> JsonView {
    JsonView::Object(
        seq![
            ("playing_state"@, json::signed_view(playing_state as i64)),
            ("current_position"@, i32_or_null(position)),
            ("current_queue_item"@, entry_said(item, version)),
        ],
    )
}

fn player_state_json(
    playing_state: i32,
    position: Option<i32>,
    item: &Option<QueueItem>,
    version: &QueueVersion,
) -> (r: Json)
    ensures
        r@ == player_state_said(playing_state, position, queue::item_view(*item), *version),
{
    let mut said = ObjectBuilder::new();
    said.put("playing_state", Json::signed(playing_state as i64));
    said.put("current_position", i32_json(position));
    said.put("current_queue_item", entry_json(item, version));
    assert(said@ =~= player_state_said(
        playing_state,
        position,
        queue::item_view(*item),
        *version,
    )->Object_0);
    said.build()
}

/// A position that fits in 32 bits with a sign.
pub open spec fn small_position(position_ms: Option<u64>) -> Option<i32> {
    match position_ms {
        Some(ms) => if ms <= i32::MAX {
            Some(ms as i32)
        } else {
            None
        },
        None => None,
    }
}

fn position_i32(position_ms: Option<u64>) -> (r: Option<i32>)
    ensures
        r == small_position(position_ms),
{
    match position_ms {
        Some(ms) => if ms <= i32::MAX as u64 {
            Some(ms as i32)
        } else {
            None
        },
        None => None,
    }
}

/// What asks for a playing state of whatever the renderer has.
pub open spec fn plain_state_request(
    playing_state: i32,
    renderer: RendererStateView,
    queue: QueueStateView,
) -> JsonView {
    player_state_said(
        playing_state,
        small_position(renderer.current_position_ms),
        renderer.current_track,
        queue.version,
    )
}

/// The request for a playing state of whatever the renderer has.
pub fn player_state_request(
    playing_state: i32,
    renderer: &QConnectRendererState,
    queue: &QConnectQueueState,
) -> (r: Json)
    ensures
        r@ == plain_state_request(playing_state, renderer@, queue@),
{
    player_state_json(
        playing_state,
        position_i32(renderer.current_position_ms),
        &renderer.current_track,
        &queue.version,
    )
}

/// The entry that a media key is about: the one that it names, else the
/// renderer's, else, for playing, the first of the queue.
pub open spec fn meant_entry(
    playing_state: i32,
    target: Option<QueueItemView>,
    renderer: RendererStateView,
    queue: QueueStateView,
) -> Option<QueueItemView> {
    match playback::either(target, renderer.current_track) {
        Some(item) => Some(item),
        None => if playing_state == PLAYING_STATE_PLAYING && play_order(queue).len() > 0 {
            Some(play_order(queue)[0])
        } else {
            None
        },
    }
}

/// What a media key asks the server for: an entry that it names starts at its
/// beginning.
pub open spec fn mpris_state_request(
    playing_state: i32,
    target: Option<QueueItemView>,
    renderer: RendererStateView,
    queue: QueueStateView,
) -> JsonView {
    player_state_said(
        playing_state,
        if target is Some {
            Some(0i32)
        } else {
            small_position(renderer.current_position_ms)
        },
        meant_entry(playing_state, target, renderer, queue),
        queue.version,
    )
}

/// The request that a media key makes of the server.
pub fn mpris_player_state(
    playing_state: i32,
    target_track: Option<QueueItem>,
    renderer: &QConnectRendererState,
    queue: &QConnectQueueState,
) -> (r: Json)
    ensures
        r@ == mpris_state_request(
            playing_state,
            queue::item_view(target_track),
            renderer@,
            queue@,
        ),
{
    let has_explicit_target = target_track.is_some();
    let mut current_track = if has_explicit_target {
        target_track
    } else {
        queue::clone_item(&renderer.current_track)
    };
    if current_track.is_none() && playing_state == PLAYING_STATE_PLAYING {
        let ordered = ordered_queue_items(queue);
        if ordered.len() > 0 {
            assert(queue::queue_view(ordered@)[0] == ordered@[0]@);
            current_track = Some(ordered[0].clone());
        }
    }
    let current_position: Option<i32> = if has_explicit_target {
        Some(0)
    } else {
        position_i32(renderer.current_position_ms)
    };
    player_state_json(playing_state, current_position, &current_track, &queue.version)
}

/// The playing state that a media key asks for.
pub open spec fn asked_state(command: MprisCommand, renderer: RendererStateView) -> i32 {
    match command {
        MprisCommand::Play | MprisCommand::Next | MprisCommand::Previous => PLAYING_STATE_PLAYING,
        MprisCommand::Pause => PLAYING_STATE_PAUSED,
        MprisCommand::Stop => PLAYING_STATE_STOPPED,
        MprisCommand::Toggle => if renderer.playing_state == Some(PLAYING_STATE_PLAYING) {
            PLAYING_STATE_PAUSED
        } else {
            PLAYING_STATE_PLAYING
        },
    }
}

/// The entry that a media key names.
pub open spec fn asked_entry(
    command: MprisCommand,
    renderer: RendererStateView,
    queue: QueueStateView,
) -> Option<QueueItemView> {
    match command {
        MprisCommand::Next => neighbour(renderer, queue, 1),
        MprisCommand::Previous => neighbour(renderer, queue, -1),
        _ => None,
    }
}

/// What a media key asks the server for.
pub open spec fn mpris_request(
    command: MprisCommand,
    renderer: RendererStateView,
    queue: QueueStateView,
) -> JsonView {
    mpris_state_request(
        asked_state(command, renderer),
        asked_entry(command, renderer, queue),
        renderer,
        queue,
    )
}

/// The request that a media key makes of the server.
pub fn handle_mpris_command(
    command: MprisCommand,
    renderer: &QConnectRendererState,
    queue: &QConnectQueueState,
) -> (r: Json)
    ensures
        r@ == mpris_request(command, renderer@, queue@),
{
    match command {
        MprisCommand::Play => mpris_player_state(PLAYING_STATE_PLAYING, None, renderer, queue),
        MprisCommand::Pause => mpris_player_state(PLAYING_STATE_PAUSED, None, renderer, queue),
        MprisCommand::Stop => mpris_player_state(PLAYING_STATE_STOPPED, None, renderer, queue),
        MprisCommand::Toggle => {
            let playing = match renderer.playing_state {
                Some(state) => state == PLAYING_STATE_PLAYING,
                None => false,
            };
            let next_state: i32 = if playing {
                PLAYING_STATE_PAUSED
            } else {
                PLAYING_STATE_PLAYING
            };
            mpris_player_state(next_state, None, renderer, queue)
        },
        MprisCommand::Next => {
            let target = adjacent_queue_item(renderer, queue, 1);
            mpris_player_state(PLAYING_STATE_PLAYING, target, renderer, queue)
        },
        MprisCommand::Previous => {
            let target = adjacent_queue_item(renderer, queue, -1);
            mpris_player_state(PLAYING_STATE_PLAYING, target, renderer, queue)
        },
    }
}

// ---------------------------------------------------------------------------
// Laws
// ---------------------------------------------------------------------------

/// Without a shuffle order, or with shuffling off, the queue plays in the
/// order of its entries.
pub proof fn unshuffled_queue_plays_in_order(queue: QueueStateView)
    requires
        !queue.shuffle_mode || queue.shuffle_order is None,
    ensures
        play_order(queue) == queue.items,
{
}

/// Whatever plays in a shuffled order is an entry of the queue.
pub proof fn shuffled_entries_are_of_the_queue(items: Seq<QueueItemView>, order: Seq<usize>)
    ensures
        picked(items, order).len() <= order.len(),
        forall|i: int|
            0 <= i < picked(items, order).len() ==> items.contains(
                #[trigger] picked(items, order)[i],
            ),
    decreases order.len(),
{
    if order.len() > 0 {
        shuffled_entries_are_of_the_queue(items, order.drop_last());
    }
}

/// The entry after the entry before the current one is the current one, where
/// every entry has its own id.
pub proof fn next_undoes_previous(renderer: RendererStateView, queue: QueueStateView)
    requires
        forall|i: int, j: int|
            0 <= i < j < play_order(queue).len() ==> (#[trigger] play_order(queue)[i]).queue_item_id
                != (#[trigger] play_order(queue)[j]).queue_item_id,
        neighbour(renderer, queue, -1) is Some,
    ensures
        ({
            let back = RendererStateView {
                current_track: neighbour(renderer, queue, -1),
                ..renderer
            };
            neighbour(back, queue, 1) matches Some(item) && item.queue_item_id
                == renderer.current_track->0.queue_item_id
        }),
{
    let ordered = play_order(queue);
    let id = renderer.current_track->0.queue_item_id;
    let at = queue::position_of(ordered, id);
    queue::lemma_position(ordered, id);
    let before = ordered[at - 1];
    let found = queue::position_of(ordered, before.queue_item_id);
    queue::lemma_position(ordered, before.queue_item_id);
    assert(ordered[at as int].queue_item_id == id);
    if found < at - 1 {
        assert(ordered[found as int].queue_item_id != ordered[at - 1].queue_item_id);
    }
}

/// A queue has nothing after its last entry and nothing before its first.
pub proof fn queue_has_ends(renderer: RendererStateView, queue: QueueStateView)
    requires
        renderer.current_track is Some,
        play_order(queue).len() > 0,
    ensures
        renderer.current_track->0.queue_item_id == play_order(queue).first().queue_item_id
            ==> neighbour(renderer, queue, -1) is None,
        queue::position_of(play_order(queue), renderer.current_track->0.queue_item_id)
            == play_order(queue).len() - 1 ==> neighbour(renderer, queue, 1) is None,
{
}

/// A neighbour is an entry of the queue in its order of play.
pub proof fn neighbours_are_of_the_queue(
    renderer: RendererStateView,
    queue: QueueStateView,
    direction: int,
)
    ensures
        neighbour(renderer, queue, direction) matches Some(item) ==> play_order(queue).contains(item),
{
}

/// Toggling twice asks for what there was, where the server obeys and the
/// renderer was playing or paused.
pub proof fn toggle_is_its_own_inverse(renderer: RendererStateView)
    requires
        renderer.playing_state == Some(PLAYING_STATE_PLAYING) || renderer.playing_state == Some(
            PLAYING_STATE_PAUSED,
        ),
    ensures
        ({
            let toggled = RendererStateView {
                playing_state: Some(asked_state(MprisCommand::Toggle, renderer)),
                ..renderer
            };
            Some(asked_state(MprisCommand::Toggle, toggled)) == renderer.playing_state
        }),
{
}

/// A request for a playing state names that state, and the renderer's current
/// entry by its id in the queue's version: null where there is none, whatever
/// comes next.
pub proof fn state_requests_are_about_the_current_entry(
    playing_state: i32,
    renderer: RendererStateView,
    queue: QueueStateView,
)
    ensures
        json::member_i32(plain_state_request(playing_state, renderer, queue), "playing_state"@)
            == Some(playing_state),
        json::member(
            plain_state_request(playing_state, renderer, queue),
            "current_queue_item"@,
        ) matches Some(entry) && match renderer.current_track {
            Some(track) => {
                &&& json::member(entry, "id"@) == Some(
                    JsonView::Number(JsonNumber::PosInt(track.queue_item_id)),
                )
                &&& json::member(entry, "queue_version"@) matches Some(version)
                    && json::member_u64(version, "major"@) == Some(queue.version.major)
                    && json::member_u64(version, "minor"@) == Some(queue.version.minor)
            },
            None => entry is Null,
        },
        json::member(
            plain_state_request(playing_state, renderer, queue),
            "current_position"@,
        ) == Some(
            match renderer.current_position_ms {
                Some(ms) if ms <= 0x7fff_ffff => JsonView::Number(JsonNumber::PosInt(ms)),
                _ => JsonView::Null,
            },
        ),
{
    lemma_state_keys();
    let said = plain_state_request(playing_state, renderer, queue)->Object_0;
    lemma_state_members(said);
    lemma_entry_members(renderer.current_track, queue.version);
    json::i32_reads_back(playing_state);
}

/// The names of the members of requests for a playing state differ.
proof fn lemma_state_keys()
    ensures
        "playing_state"@ != "current_position"@,
        "playing_state"@ != "current_queue_item"@,
        "current_position"@ != "current_queue_item"@,
        "queue_version"@ != "id"@,
        "major"@ != "minor"@,
{
    reveal_strlit("playing_state");
    reveal_strlit("current_position");
    reveal_strlit("current_queue_item");
    reveal_strlit("queue_version");
    reveal_strlit("id");
    reveal_strlit("major");
    reveal_strlit("minor");
    assert("playing_state"@.len() == 13);
    assert("current_position"@.len() == 16);
    assert("current_queue_item"@.len() == 18);
    assert("queue_version"@.len() == 13);
    assert("id"@.len() == 2);
    assert("major"@[1] != "minor"@[1]);
}

proof fn lemma_state_members(said: Seq<(Seq<char>, JsonView)>)
    requires
        said.len() == 3,
        said[0].0 == "playing_state"@,
        said[1].0 == "current_position"@,
        said[2].0 == "current_queue_item"@,
    ensures
        json::member_of(said, "playing_state"@) == Some(said[0].1),
        json::member_of(said, "current_position"@) == Some(said[1].1),
        json::member_of(said, "current_queue_item"@) == Some(said[2].1),
{
    lemma_state_keys();
    json::lemma_member_at(said, 0);
    json::lemma_member_at(said, 1);
    json::lemma_member_at(said, 2);
}

proof fn lemma_entry_members(item: Option<QueueItemView>, version: QueueVersion)
    ensures
        item matches Some(it) ==> {
            &&& json::member(entry_said(item, version), "id"@) == Some(
                JsonView::Number(JsonNumber::PosInt(it.queue_item_id)),
            )
            &&& json::member(entry_said(item, version), "queue_version"@) matches Some(v)
                && json::member_u64(v, "major"@) == Some(version.major) && json::member_u64(
                v,
                "minor"@,
            ) == Some(version.minor)
        },
        item is None ==> entry_said(item, version) is Null,
{
    lemma_state_keys();
    if item is Some {
        let said = entry_said(item, version)->Object_0;
        json::lemma_member_at(said, 0);
        json::lemma_member_at(said, 1);
        let v = said[0].1->Object_0;
        json::lemma_member_at(v, 0);
        json::lemma_member_at(v, 1);
    }
}

/// Playing, and going to another entry, ask for the state of playing; pausing
/// and stopping for theirs; and the toggle pauses exactly what plays.
pub proof fn media_keys_ask_for_their_state(
    command: MprisCommand,
    renderer: RendererStateView,
    queue: QueueStateView,
)
    ensures
        json::member_i32(mpris_request(command, renderer, queue), "playing_state"@) == Some(
            match command {
                MprisCommand::Pause => 3i32,
                MprisCommand::Stop => 1i32,
                MprisCommand::Toggle => if renderer.playing_state == Some(2i32) {
                    3i32
                } else {
                    2i32
                },
                _ => 2i32,
            },
        ),
{
    let said = mpris_request(command, renderer, queue)->Object_0;
    lemma_state_members(said);
    json::i32_reads_back(asked_state(command, renderer));
}

/// A key that does not go to another entry is about the renderer's current one
/// and leaves its position; where there is none, playing begins with the first
/// entry of the queue, and nothing else means any.
pub proof fn media_keys_are_about_the_current_entry(
    command: MprisCommand,
    renderer: RendererStateView,
    queue: QueueStateView,
)
    requires
        !(command is Next) && !(command is Previous),
    ensures
        json::member(mpris_request(command, renderer, queue), "current_queue_item"@) matches Some(
            entry,
        ) && match renderer.current_track {
            Some(track) => json::member(entry, "id"@) == Some(
                JsonView::Number(JsonNumber::PosInt(track.queue_item_id)),
            ),
            None => if play_order(queue).len() > 0 && (command is Play || (command is Toggle
                && renderer.playing_state != Some(2i32))) {
                json::member(entry, "id"@) == Some(
                    JsonView::Number(JsonNumber::PosInt(play_order(queue)[0].queue_item_id)),
                )
            } else {
                entry is Null
            },
        },
        json::member(mpris_request(command, renderer, queue), "current_position"@) == Some(
            match renderer.current_position_ms {
                Some(ms) if ms <= 0x7fff_ffff => JsonView::Number(JsonNumber::PosInt(ms)),
                _ => JsonView::Null,
            },
        ),
{
    let said = mpris_request(command, renderer, queue)->Object_0;
    lemma_state_members(said);
    lemma_entry_members(
        meant_entry(asked_state(command, renderer), None, renderer, queue),
        queue.version,
    );
}

/// The keys for the next and the previous entry start the one behind or before
/// the current one at its beginning; at the ends of the queue, and where the
/// current entry is not in it, they leave the entry and its position.
pub proof fn media_keys_go_one_entry_on_or_back(
    command: MprisCommand,
    renderer: RendererStateView,
    queue: QueueStateView,
    at: int,
)
    requires
        command is Next || command is Previous,
        renderer.current_track matches Some(current) && 0 <= at <= play_order(queue).len() && (
        at < play_order(queue).len() ==> play_order(queue)[at].queue_item_id
            == current.queue_item_id) && forall|i: int|
            0 <= i < at ==> (#[trigger] play_order(queue)[i]).queue_item_id
                != current.queue_item_id,
    ensures
        ({
            let request = mpris_request(command, renderer, queue);
            let ordered = play_order(queue);
            let target = if command is Next {
                at + 1
            } else {
                at - 1
            };
            &&& json::member(request, "current_queue_item"@) matches Some(entry) && json::member(
                entry,
                "id"@,
            ) == Some(
                JsonView::Number(
                    JsonNumber::PosInt(
                        if at < ordered.len() && 0 <= target < ordered.len() {
                            ordered[target].queue_item_id
                        } else {
                            renderer.current_track->0.queue_item_id
                        },
                    ),
                ),
            )
            &&& json::member(request, "current_position"@) == Some(
                if at < ordered.len() && 0 <= target < ordered.len() {
                    JsonView::Number(JsonNumber::PosInt(0))
                } else {
                    match renderer.current_position_ms {
                        Some(ms) if ms <= 0x7fff_ffff => JsonView::Number(JsonNumber::PosInt(ms)),
                        _ => JsonView::Null,
                    }
                },
            )
        }),
{
    let ordered = play_order(queue);
    let id = renderer.current_track->0.queue_item_id;
    queue::lemma_position(ordered, id);
    let found = queue::position_of(ordered, id) as int;
    if found < at {
        assert(ordered[found].queue_item_id != id);
    }
    if at < found {
        assert(ordered[at].queue_item_id != id);
    }
    let said = mpris_request(command, renderer, queue)->Object_0;
    lemma_state_members(said);
    lemma_entry_members(
        meant_entry(
            asked_state(command, renderer),
            asked_entry(command, renderer, queue),
            renderer,
            queue,
        ),
        queue.version,
    );
}

/// Without a current entry there is no next and no previous one: playing
/// begins with the first entry of the queue.
pub proof fn media_keys_begin_the_queue(
    command: MprisCommand,
    renderer: RendererStateView,
    queue: QueueStateView,
)
    requires
        command is Next || command is Previous,
        renderer.current_track is None,
    ensures
        json::member(mpris_request(command, renderer, queue), "current_queue_item"@) matches Some(
            entry,
        ) && if play_order(queue).len() > 0 {
            json::member(entry, "id"@) == Some(
                JsonView::Number(JsonNumber::PosInt(play_order(queue)[0].queue_item_id)),
            )
        } else {
            entry is Null
        },
{
    let said = mpris_request(command, renderer, queue)->Object_0;
    lemma_state_members(said);
    lemma_entry_members(
        meant_entry(asked_state(command, renderer), None, renderer, queue),
        queue.version,
    );
}

/// A shuffled queue plays the entries that its order names, in that order.
pub proof fn shuffle_order_is_followed(queue: QueueStateView, order: Seq<usize>)
    requires
        queue.shuffle_mode,
        queue.shuffle_order == Some(order),
        forall|i: int| 0 <= i < order.len() ==> order[i] < queue.items.len(),
    ensures
        play_order(queue).len() == order.len(),
        forall|i: int|
            0 <= i < order.len() ==> #[trigger] play_order(queue)[i] == queue.items[order[i] as int],
    decreases order.len(),
{
    if order.len() > 0 {
        let before = order.drop_last();
        shuffle_order_is_followed(
            QueueStateView { shuffle_order: Some(before), ..queue },
            before,
        );
        assert forall|i: int| 0 <= i < order.len() implies #[trigger] play_order(queue)[i]
            == queue.items[order[i] as int] by {
            if i < before.len() {
                assert(play_order(
                    QueueStateView { shuffle_order: Some(before), ..queue },
                )[i] == queue.items[before[i] as int]);
            }
        }
    }
}

/// An index that lies beyond the queue is passed over, wherever in the order
/// it stands.
pub proof fn indices_beyond_the_queue_are_passed_over(
    items: Seq<QueueItemView>,
    before: Seq<usize>,
    index: usize,
    after: Seq<usize>,
)
    requires
        index >= items.len(),
    ensures
        picked(items, before.push(index) + after) == picked(items, before + after),
    decreases after.len(),
{
    let with = before.push(index) + after;
    let without = before + after;
    if after.len() == 0 {
        assert(with =~= before.push(index));
        assert(without =~= before);
        assert(with.drop_last() =~= before);
    } else {
        indices_beyond_the_queue_are_passed_over(items, before, index, after.drop_last());
        assert(with.drop_last() =~= before.push(index) + after.drop_last());
        assert(without.drop_last() =~= before + after.drop_last());
    }
}

/// A request that names an entry is about that entry, from its beginning,
/// whatever the renderer has and whatever state is asked for.
pub proof fn named_entries_start_at_their_beginning(
    playing_state: i32,
    target: QueueItemView,
    renderer: RendererStateView,
    queue: QueueStateView,
)
    ensures
        ({
            let request = mpris_state_request(playing_state, Some(target), renderer, queue);
            &&& json::member_i32(request, "playing_state"@) == Some(playing_state)
            &&& json::member_i32(request, "current_position"@) == Some(0i32)
            &&& json::member(request, "current_queue_item"@) matches Some(entry) && {
                &&& json::member_u64(entry, "id"@) == Some(target.queue_item_id)
                &&& json::member(entry, "queue_version"@) matches Some(version)
                    && json::member_u64(version, "major"@) == Some(queue.version.major)
                    && json::member_u64(version, "minor"@) == Some(queue.version.minor)
            }
        }),
{
    let said = mpris_state_request(playing_state, Some(target), renderer, queue)->Object_0;
    lemma_state_members(said);
    lemma_entry_members(Some(target), queue.version);
    json::i32_reads_back(playing_state);
}

/// The entry some places on from the current one is the one that stands there
/// in the order of play, and none where the queue does not reach so far or
/// does not hold the current entry.
pub proof fn neighbours_stand_where_they_are_looked_for(
    renderer: RendererStateView,
    queue: QueueStateView,
    direction: int,
    at: int,
)
    requires
        renderer.current_track matches Some(current) && 0 <= at <= play_order(queue).len() && (
        at < play_order(queue).len() ==> play_order(queue)[at].queue_item_id
            == current.queue_item_id) && forall|i: int|
            0 <= i < at ==> (#[trigger] play_order(queue)[i]).queue_item_id
                != current.queue_item_id,
    ensures
        neighbour(renderer, queue, direction) == (if at < play_order(queue).len() && 0 <= at
            + direction < play_order(queue).len() {
            Some(play_order(queue)[at + direction])
        } else {
            None
        }),
{
    let ordered = play_order(queue);
    let id = renderer.current_track->0.queue_item_id;
    queue::lemma_position(ordered, id);
    let found = queue::position_of(ordered, id) as int;
    if found < at {
        assert(ordered[found].queue_item_id != id);
    }
    if at < found {
        assert(ordered[at].queue_item_id != id);
    }
}

/// Every media key has a name of its own.
pub proof fn media_keys_are_told_apart(command: MprisCommand, other: MprisCommand)
    requires
        command.name_view() == other.name_view(),
    ensures
        command == other,
{
    reveal_strlit("Play");
    reveal_strlit("Pause");
    reveal_strlit("Toggle");
    reveal_strlit("Stop");
    reveal_strlit("Next");
    reveal_strlit("Previous");
    assert("Play"@.len() == 4);
    assert("Pause"@.len() == 5);
    assert("Toggle"@.len() == 6);
    assert("Stop"@.len() == 4);
    assert("Next"@.len() == 4);
    assert("Previous"@.len() == 8);
    assert("Play"@[0] != "Stop"@[0]);
    assert("Play"@[0] != "Next"@[0]);
    assert("Stop"@[0] != "Next"@[0]);
}

} // verus!
