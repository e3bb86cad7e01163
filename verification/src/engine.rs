//! What the Matrix engine decides on the events it receives: how space-child
//! and space-parent state events change the space hierarchy, which incoming
//! messages raise a desktop notification and with what text, and how the
//! children of a space are put together from its state events and the
//! server's hierarchy listing.
use vstd::prelude::*;
use crate::space::{ChildData, ChildDataView, SpaceHierarchy};
use crate::rooms::{opt_view, clone_opt_string, rooms_view, RoomData, RoomDataView, RoomKind, RoomKindView, JoinRuleView};
use crate::space::{contains_string, strs_view};
use crate::text::concat_str;

verus! {

/// A space-child or space-parent state event.
pub enum SpaceEdgeEvent {
    /// The event as sent: the servers to join through, and for a child
    /// event its ordering key and suggested flag.
    Original { via: Vec<String>, order: Option<String>, suggested: bool },
    /// The event's content was redacted.
    Redacted,
}

/// Whether the event keeps the edge: an original event that names at least
/// one server to join through. Any other event takes the edge away.
pub open spec fn keeps_edge(e: SpaceEdgeEvent) -> bool {
    e matches SpaceEdgeEvent::Original { via, .. } && via@.len() > 0
}

/// The child entry an original child event carries.
pub open spec fn event_child_data(e: SpaceEdgeEvent) -> ChildDataView {
    match e {
        SpaceEdgeEvent::Original { order, suggested, .. } => ChildDataView {
            order: opt_view(order),
            suggested,
        },
        SpaceEdgeEvent::Redacted => ChildDataView { order: None, suggested: false },
    }
}

/// Applies an `m.space.child` event sent in `space_id` about `child_id`: an
/// event with servers to join through records the child with its order and
/// suggested flag; an empty or redacted one removes it.
pub fn apply_space_child_event(
    h: &mut SpaceHierarchy,
    space_id: String,
    child_id: String,
    event: SpaceEdgeEvent,
)
    requires
        old(h).wf(),
    ensures
        final(h).wf(),
        keeps_edge(event) ==> final(h)@.children == old(h)@.children.insert(
            (space_id@, child_id@),
            event_child_data(event),
        ) && final(h)@.known_spaces == old(h)@.known_spaces.insert(space_id@),
        !keeps_edge(event) ==> final(h)@.children == old(h)@.children.remove(
            (space_id@, child_id@),
        ) && final(h)@.known_spaces == old(h)@.known_spaces,
{
    match event {
        SpaceEdgeEvent::Original { via, order, suggested } => {
            if via.len() > 0 {
                h.add_child(space_id, child_id, order, suggested);
            } else {
                h.remove_child(space_id.as_str(), child_id.as_str());
            }
        },
        SpaceEdgeEvent::Redacted => {
            h.remove_child(space_id.as_str(), child_id.as_str());
        },
    }
}

/// Applies an `m.space.parent` event sent in `child_id` about `parent_id`:
/// an event with servers to join through records the relation (keeping an
/// entry the parent already has for the child); an empty or redacted one
/// removes it.
pub fn apply_space_parent_event(
    h: &mut SpaceHierarchy,
    child_id: String,
    parent_id: String,
    event: SpaceEdgeEvent,
)
    requires
        old(h).wf(),
    ensures
        final(h).wf(),
        keeps_edge(event) ==> final(h)@.children == (if old(h)@.children.dom().contains(
            (parent_id@, child_id@),
        ) {
            old(h)@.children
        } else {
            old(h)@.children.insert(
                (parent_id@, child_id@),
                ChildDataView { order: None, suggested: false },
            )
        }) && final(h)@.known_spaces == old(h)@.known_spaces.insert(parent_id@),
        !keeps_edge(event) ==> final(h)@.children == old(h)@.children.remove(
            (parent_id@, child_id@),
        ) && final(h)@.known_spaces == old(h)@.known_spaces,
{
    let kept = match &event {
        SpaceEdgeEvent::Original { via, .. } => via.len() > 0,
        SpaceEdgeEvent::Redacted => false,
    };
    if kept {
        h.add_relationship(parent_id, child_id);
    } else {
        h.remove_child(parent_id.as_str(), child_id.as_str());
    }
}

/// The kind of an incoming message, with the text of a text message.
pub enum MessageKind {
    Text(String),
    Image,
    Video,
    Audio,
    File,
    Other,
}

/// A desktop notification: its title and its body.
pub struct Notification {
    pub summary: String,
    pub body: String,
}

/// How far apart two instants are, in milliseconds.
pub open spec fn time_gap(a: u64, b: u64) -> int {
    if a >= b {
        a - b
    } else {
        b - a
    }
}

/// Messages further than this from now, in milliseconds, raise no
/// notification (they come from catching up after a pause).
pub const NOTIFY_WINDOW_MS: u64 = 300000;

/// Whether a message raises a notification: it is not the user's own, and
/// it was sent within five minutes of now.
pub open spec fn notifies(own_user_id: Option<Seq<char>>, sender_id: Seq<char>, now_ms: u64, event_ms: u64) -> bool {
    !(own_user_id == Some(sender_id)) && time_gap(now_ms, event_ms) <= NOTIFY_WINDOW_MS
}

/// The notification's body for a kind of message.
pub open spec fn notification_body(kind: MessageKind) -> Seq<char> {
    match kind {
        MessageKind::Text(t) => t@,
        MessageKind::Image => "📷 Image"@,
        MessageKind::Video => "🎥 Video"@,
        MessageKind::Audio => "🎵 Audio"@,
        MessageKind::File => "📎 File"@,
        MessageKind::Other => "New message"@,
    }
}

/// The notification's title: who wrote, in which room. The sender is shown
/// by display name where there is one, else by user id; a room without a
/// name is the "Unknown Room".
pub open spec fn notification_summary(
    sender_id: Seq<char>,
    sender_display_name: Option<Seq<char>>,
    room_name: Option<Seq<char>>,
) -> Seq<char> {
    let who = match sender_display_name {
        Some(n) => n,
        None => sender_id,
    };
    let room = match room_name {
        Some(r) => r,
        None => "Unknown Room"@,
    };
    who + " in "@ + room
}

fn abs_gap(a: u64, b: u64) -> (r: u64)
    ensures
        r == time_gap(a, b),
{
    if a >= b {
        a - b
    } else {
        b - a
    }
}

/// The notification an incoming message raises, if any: none for the
/// user's own messages or for messages sent more than five minutes from
/// now; else a title naming sender and room and a body that gives the text,
/// or the kind of attachment.
pub fn message_notification(
    own_user_id: Option<&str>,
    sender_id: &str,
    sender_display_name: Option<String>,
    room_name: Option<String>,
    now_ms: u64,
    event_ms: u64,
    kind: MessageKind,
) -> (r: Option<Notification>)
    ensures
        r is Some <==> notifies(
            match own_user_id {
                Some(u) => Some(u@),
                None => None,
            },
            sender_id@,
            now_ms,
            event_ms,
        ),
        r matches Some(n) ==> n.summary@ == notification_summary(
            sender_id@,
            opt_view(sender_display_name),
            opt_view(room_name),
        ) && n.body@ == notification_body(kind),
{
    if let Some(own) = own_user_id {
        if crate::text::str_eq(own, sender_id) {
            return None;
        }
    }
    if abs_gap(now_ms, event_ms) > NOTIFY_WINDOW_MS {
        return None;
    }
    let who = match sender_display_name {
        Some(n) => n,
        None => String::from_str(sender_id),
    };
    let room = match room_name {
        Some(r) => r,
        None => String::from_str("Unknown Room"),
    };
    let head = concat_str(who.as_str(), " in ");
    let summary = concat_str(head.as_str(), room.as_str());
    let body = match kind {
        MessageKind::Text(t) => t,
        MessageKind::Image => String::from_str("📷 Image"),
        MessageKind::Video => String::from_str("🎥 Video"),
        MessageKind::Audio => String::from_str("🎵 Audio"),
        MessageKind::File => String::from_str("📎 File"),
        MessageKind::Other => String::from_str("New message"),
    };
    Some(Notification { summary, body })
}

/// A room of the server's listing of a space's hierarchy.
pub struct HierarchyRoom {
    pub room_id: String,
    pub name: Option<String>,
    pub avatar_url: Option<String>,
    pub room_type: Option<RoomKind>,
}

/// A listed room as values.
pub struct HierarchyRoomView {
    pub room_id: Seq<char>,
    pub name: Option<Seq<char>>,
    pub avatar_url: Option<Seq<char>>,
    pub room_type: Option<RoomKindView>,
}

impl View for HierarchyRoom {
    type V = HierarchyRoomView;

    open spec fn view(&self) -> HierarchyRoomView {
        HierarchyRoomView {
            room_id: self.room_id@,
            name: opt_view(self.name),
            avatar_url: opt_view(self.avatar_url),
            room_type: match self.room_type {
                Some(k) => Some(k@),
                None => None,
            },
        }
    }
}

/// The views of a list of listed rooms.
pub open spec fn hierarchy_rooms_view(s: Seq<HierarchyRoom>) -> Seq<HierarchyRoomView> {
    s.map_values(|r: HierarchyRoom| r@)
}

/// The entry that the last of a space's child events with servers to join
/// through gives `child`; events without servers are passed over.
pub open spec fn last_child_entry(evs: Seq<(String, SpaceEdgeEvent)>, child: Seq<char>) -> Option<
    ChildDataView,
>
    decreases evs.len(),
{
    if evs.len() == 0 {
        None
    } else if evs.last().0@ == child && keeps_edge(evs.last().1) {
        Some(event_child_data(evs.last().1))
    } else {
        last_child_entry(evs.drop_last(), child)
    }
}

/// The entry of `child` in a space: from its child events, or no order and
/// not suggested where none lists it.
pub open spec fn child_entry_or_default(evs: Seq<(String, SpaceEdgeEvent)>, child: Seq<char>) -> ChildDataView {
    match last_child_entry(evs, child) {
        Some(d) => d,
        None => ChildDataView { order: None, suggested: false },
    }
}

/// The children that a space's child events list (with servers to join
/// through), each once, in the order they first appear.
pub open spec fn listed_child_ids(evs: Seq<(String, SpaceEdgeEvent)>) -> Seq<Seq<char>>
    decreases evs.len(),
{
    if evs.len() == 0 {
        Seq::empty()
    } else {
        let prev = listed_child_ids(evs.drop_last());
        if keeps_edge(evs.last().1) && !prev.contains(evs.last().0@) {
            prev.push(evs.last().0@)
        } else {
            prev
        }
    }
}

/// The rooms a space's children are built from: the server's listing where
/// it answered, else the children its state events list, of which nothing
/// more is known.
pub open spec fn children_source(
    evs: Seq<(String, SpaceEdgeEvent)>,
    listing: Option<Seq<HierarchyRoomView>>,
) -> Seq<HierarchyRoomView> {
    match listing {
        Some(rooms) => rooms,
        None => listed_child_ids(evs).map_values(
            |id: Seq<char>| HierarchyRoomView { room_id: id, name: None, avatar_url: None, room_type: None },
        ),
    }
}

/// The summary the room list shows for a child of `space`.
pub open spec fn child_room_data(space: Seq<char>, room: HierarchyRoomView, entry: ChildDataView) -> RoomDataView {
    RoomDataView {
        id: room.room_id,
        name: room.name,
        last_message: None,
        unread_count: 0,
        unread_count_str: None,
        avatar_url: room.avatar_url,
        room_type: room.room_type,
        is_space: room.room_type == Some(RoomKindView::Space),
        parent_space_id: Some(space),
        join_rule: None,
        allowed_spaces: Seq::empty(),
        order: entry.order,
        suggested: entry.suggested,
    }
}

/// The hierarchy's entries after `space` is recorded to list each room of
/// `rooms` in turn, with its entry from the child events.
pub open spec fn record_children(
    c: Map<(Seq<char>, Seq<char>), ChildDataView>,
    space: Seq<char>,
    evs: Seq<(String, SpaceEdgeEvent)>,
    rooms: Seq<HierarchyRoomView>,
) -> Map<(Seq<char>, Seq<char>), ChildDataView>
    decreases rooms.len(),
{
    if rooms.len() == 0 {
        c
    } else {
        record_children(c, space, evs, rooms.drop_last()).insert(
            (space, rooms.last().room_id),
            child_entry_or_default(evs, rooms.last().room_id),
        )
    }
}

fn child_entry_for(evs: &Vec<(String, SpaceEdgeEvent)>, child: &str) -> (r: ChildData)
    ensures
        r@ == child_entry_or_default(evs@, child@),
{
    let mut k: usize = evs.len();
    assert(evs@.take(evs@.len() as int) =~= evs@);
    while k > 0
        invariant
            k <= evs@.len(),
            last_child_entry(evs@, child@) == last_child_entry(evs@.take(k as int), child@),
        decreases k,
    {
        let ghost t = evs@.take(k as int);
        assert(t.drop_last() =~= evs@.take(k - 1));
        assert(t.last() == evs@[k - 1]);
        if crate::text::str_eq(evs[k - 1].0.as_str(), child) {
            match &evs[k - 1].1 {
                SpaceEdgeEvent::Original { via, order, suggested } => {
                    if via.len() > 0 {
                        return ChildData { order: clone_opt_string(order), suggested: *suggested };
                    }
                },
                SpaceEdgeEvent::Redacted => {},
            }
        }
        k = k - 1;
    }
    assert(evs@.take(0) =~= Seq::<(String, SpaceEdgeEvent)>::empty());
    ChildData { order: None, suggested: false }
}

fn listed_children(evs: &Vec<(String, SpaceEdgeEvent)>) -> (r: Vec<HierarchyRoom>)
    ensures
        hierarchy_rooms_view(r@) == children_source(evs@, None),
{
    let mut ids: Vec<String> = Vec::new();
    let mut i: usize = 0;
    while i < evs.len()
        invariant
            i <= evs@.len(),
            strs_view(ids@) == listed_child_ids(evs@.take(i as int)),
        decreases evs@.len() - i,
    {
        let ghost t = evs@.take(i + 1);
        assert(t.drop_last() =~= evs@.take(i as int));
        assert(t.last() == evs@[i as int]);
        let kept = match &evs[i].1 {
            SpaceEdgeEvent::Original { via, .. } => via.len() > 0,
            SpaceEdgeEvent::Redacted => false,
        };
        if kept && !contains_string(&ids, &evs[i].0) {
            let ghost before = strs_view(ids@);
            ids.push(evs[i].0.clone());
            assert(strs_view(ids@) =~= before.push(evs@[i as int].0@));
        }
        i = i + 1;
    }
    assert(evs@.take(evs@.len() as int) =~= evs@);
    let mut r: Vec<HierarchyRoom> = Vec::new();
    let mut j: usize = 0;
    while j < ids.len()
        invariant
            j <= ids@.len(),
            hierarchy_rooms_view(r@) =~= children_source(evs@, None).take(j as int),
            children_source(evs@, None) == strs_view(ids@).map_values(
                |id: Seq<char>| HierarchyRoomView { room_id: id, name: None, avatar_url: None, room_type: None },
            ),
        decreases ids@.len() - j,
    {
        let ghost before = hierarchy_rooms_view(r@);
        let item = HierarchyRoom { room_id: ids[j].clone(), name: None, avatar_url: None, room_type: None };
        assert(item@ == children_source(evs@, None)[j as int]) by {
            assert(strs_view(ids@)[j as int] == ids@[j as int]@);
        }
        r.push(item);
        assert(hierarchy_rooms_view(r@) =~= before.push(item@));
        assert(children_source(evs@, None).take(j + 1) =~= children_source(evs@, None).take(j as int).push(item@));
        j = j + 1;
    }
    r
}

/// The children of `space_id` for the room list, and their record in the
/// hierarchy. `child_events` are the space's child events, each with the
/// child it names; `listing` is the server's hierarchy listing of the space,
/// `None` where that request failed. Each listed room (or, without a
/// listing, each child the events list) becomes a room summary under the
/// space, with its order and suggested flag from the last child event with
/// servers to join through, and is recorded in the hierarchy as a child of
/// the space.
pub fn space_children(
    space_id: &str,
    child_events: &Vec<(String, SpaceEdgeEvent)>,
    listing: Option<Vec<HierarchyRoom>>,
    h: &mut SpaceHierarchy,
) -> (r: Vec<RoomData>)
    requires
        old(h).wf(),
    ensures
        final(h).wf(),
        ({
            let rooms = children_source(
                child_events@,
                match listing {
                    Some(v) => Some(hierarchy_rooms_view(v@)),
                    None => None,
                },
            );
            &&& rooms_view(r@) == Seq::new(
                rooms.len(),
                |i: int|
                    child_room_data(
                        space_id@,
                        rooms[i],
                        child_entry_or_default(child_events@, rooms[i].room_id),
                    ),
            )
            &&& final(h)@.children == record_children(
                old(h)@.children,
                space_id@,
                child_events@,
                rooms,
            )
            &&& final(h)@.known_spaces == if rooms.len() == 0 {
                old(h)@.known_spaces
            } else {
                old(h)@.known_spaces.insert(space_id@)
            }
        }),
{
    let mut rooms = match listing {
        Some(v) => v,
        None => listed_children(child_events),
    };
    let count = rooms.len();
    let ghost all = hierarchy_rooms_view(rooms@);
    let ghost n = rooms@.len();
    let ghost c0 = h@.children;
    let ghost k0 = h@.known_spaces;
    let mut r: Vec<RoomData> = Vec::new();
    let mut i: usize = 0;
    while rooms.len() > 0
        invariant
            h.wf(),
            i + rooms@.len() == n,
            n == all.len(),
            n == count,
            hierarchy_rooms_view(rooms@) == all.skip(i as int),
            rooms_view(r@) == Seq::new(
                i as nat,
                |j: int|
                    child_room_data(space_id@, all[j], child_entry_or_default(child_events@, all[j].room_id)),
            ),
            h@.children == record_children(c0, space_id@, child_events@, all.take(i as int)),
            h@.known_spaces == if i == 0 {
                k0
            } else {
                k0.insert(space_id@)
            },
        decreases rooms@.len(),
    {
        let ghost before = r@;
        let ghost old_rooms = rooms@;
        assert(hierarchy_rooms_view(rooms@)[0] == all[i as int]);
        let room = rooms.remove(0);
        assert(rooms@ =~= old_rooms.subrange(1, old_rooms.len() as int));
        assert(hierarchy_rooms_view(rooms@) =~= all.skip(i + 1)) by {
            assert forall|j: int| 0 <= j < rooms@.len() implies #[trigger] hierarchy_rooms_view(rooms@)[j] == all.skip(i + 1)[j] by {
                assert(hierarchy_rooms_view(old_rooms)[j + 1] == all.skip(i as int)[j + 1]);
            }
        }
        let entry = child_entry_for(child_events, room.room_id.as_str());
        h.add_child(String::from_str(space_id), room.room_id.clone(), clone_opt_string(&entry.order), entry.suggested);
        let is_space = match &room.room_type {
            Some(RoomKind::Space) => true,
            _ => false,
        };
        let data = RoomData {
            id: room.room_id,
            name: room.name,
            last_message: None,
            unread_count: 0,
            unread_count_str: None,
            avatar_url: room.avatar_url,
            room_type: room.room_type,
            is_space,
            parent_space_id: Some(String::from_str(space_id)),
            join_rule: None,
            allowed_spaces: Vec::new(),
            order: entry.order,
            suggested: entry.suggested,
        };
        let ghost data_view = data@;
        assert(room@ == all[i as int]);
        assert(data_view.allowed_spaces =~= Seq::<Seq<char>>::empty());
        assert(data_view == child_room_data(space_id@, all[i as int], child_entry_or_default(child_events@, all[i as int].room_id)));
        r.push(data);
        proof {
            assert(all.take(i + 1).drop_last() =~= all.take(i as int));
            assert(rooms_view(r@) =~= Seq::new(
                (i + 1) as nat,
                |j: int|
                    child_room_data(space_id@, all[j], child_entry_or_default(child_events@, all[j].room_id)),
            )) by {
                assert(rooms_view(r@) =~= rooms_view(before).push(data_view));
            }
        }
        i = i + 1;
    }
    assert(all.take(n as int) =~= all);
    r
}

} // verus!
