//! The room list: room summaries, the order rooms are listed in, and the
//! filtered views of the list that the sidebar shows (by search query and by
//! selected space).
use vstd::prelude::*;
use crate::text::{chars_of, contains_ignore_ascii_case, contains_ignore_ascii_case_spec, str_eq, str_to_lowercase, unicode_lowercase};
use crate::space::{SpaceHierarchy, reaches, strs_view, contains_string};
use crate::diff::{VectorDiff, ApplyVectorDiffExt, apply_diff_spec};

verus! {

/// Who may join a room.
#[derive(Debug, PartialEq)]
pub enum JoinRule {
    Public,
    Invite,
    Knock,
    Private,
    /// Members of the listed rooms (usually spaces) may join.
    Restricted(Vec<String>),
    /// Members of the listed rooms may join; others may knock.
    KnockRestricted(Vec<String>),
    /// A rule this client does not know.
    Other(String),
}

/// What kind of room a room is.
#[derive(Debug, PartialEq)]
pub enum RoomKind {
    Space,
    Custom(String),
}

/// A room as the room list shows it.
#[derive(Debug)]
pub struct RoomData {
    pub id: String,
    pub name: Option<String>,
    pub last_message: Option<String>,
    pub unread_count: u32,
    pub unread_count_str: Option<String>,
    pub avatar_url: Option<String>,
    pub room_type: Option<RoomKind>,
    pub is_space: bool,
    pub parent_space_id: Option<String>,
    pub join_rule: Option<JoinRule>,
    pub allowed_spaces: Vec<String>,
    pub order: Option<String>,
    pub suggested: bool,
}

/// Who may join a room, as values.
pub enum JoinRuleView {
    Public,
    Invite,
    Knock,
    Private,
    Restricted(Seq<Seq<char>>),
    KnockRestricted(Seq<Seq<char>>),
    Other(Seq<char>),
}

impl View for JoinRule {
    type V = JoinRuleView;

    open spec fn view(&self) -> JoinRuleView {
        match self {
            JoinRule::Public => JoinRuleView::Public,
            JoinRule::Invite => JoinRuleView::Invite,
            JoinRule::Knock => JoinRuleView::Knock,
            JoinRule::Private => JoinRuleView::Private,
            JoinRule::Restricted(v) => JoinRuleView::Restricted(strs_view(v@)),
            JoinRule::KnockRestricted(v) => JoinRuleView::KnockRestricted(strs_view(v@)),
            JoinRule::Other(s) => JoinRuleView::Other(s@),
        }
    }
}

/// What kind of room a room is, as values.
pub enum RoomKindView {
    Space,
    Custom(Seq<char>),
}

impl View for RoomKind {
    type V = RoomKindView;

    open spec fn view(&self) -> RoomKindView {
        match self {
            RoomKind::Space => RoomKindView::Space,
            RoomKind::Custom(s) => RoomKindView::Custom(s@),
        }
    }
}

/// A room summary as values.
pub struct RoomDataView {
    pub id: Seq<char>,
    pub name: Option<Seq<char>>,
    pub last_message: Option<Seq<char>>,
    pub unread_count: u32,
    pub unread_count_str: Option<Seq<char>>,
    pub avatar_url: Option<Seq<char>>,
    pub room_type: Option<RoomKindView>,
    pub is_space: bool,
    pub parent_space_id: Option<Seq<char>>,
    pub join_rule: Option<JoinRuleView>,
    pub allowed_spaces: Seq<Seq<char>>,
    pub order: Option<Seq<char>>,
    pub suggested: bool,
}

impl View for RoomData {
    type V = RoomDataView;

    open spec fn view(&self) -> RoomDataView {
        RoomDataView {
            id: self.id@,
            name: opt_view(self.name),
            last_message: opt_view(self.last_message),
            unread_count: self.unread_count,
            unread_count_str: opt_view(self.unread_count_str),
            avatar_url: opt_view(self.avatar_url),
            room_type: match self.room_type {
                Some(k) => Some(k@),
                None => None,
            },
            is_space: self.is_space,
            parent_space_id: opt_view(self.parent_space_id),
            join_rule: match self.join_rule {
                Some(j) => Some(j@),
                None => None,
            },
            allowed_spaces: strs_view(self.allowed_spaces@),
            order: opt_view(self.order),
            suggested: self.suggested,
        }
    }
}

/// The views of a list of rooms.
pub open spec fn rooms_view(s: Seq<RoomData>) -> Seq<RoomDataView> {
    s.map_values(|r: RoomData| r@)
}

pub open spec fn opt_view(o: Option<String>) -> Option<Seq<char>> {
    match o {
        Some(s) => Some(s@),
        None => None,
    }
}

/// Relative position of two rooms in a listing.
pub enum Order {
    Less,
    Equal,
    Greater,
}

/// Lexicographic order of character sequences (by code point; for strings
/// this is the byte order of their UTF-8 encodings).
pub open spec fn lex_order(a: Seq<char>, b: Seq<char>) -> Order
    decreases a.len(),
{
    if a.len() == 0 && b.len() == 0 {
        Order::Equal
    } else if a.len() == 0 {
        Order::Less
    } else if b.len() == 0 {
        Order::Greater
    } else if (a[0] as u32) < (b[0] as u32) {
        Order::Less
    } else if (a[0] as u32) > (b[0] as u32) {
        Order::Greater
    } else {
        lex_order(a.drop_first(), b.drop_first())
    }
}

/// Compares two strings lexicographically.
pub fn compare_str(a: &str, b: &str) -> (r: Order)
    ensures
        r == lex_order(a@, b@),
{
    let ac = chars_of(a);
    let bc = chars_of(b);
    let mut i: usize = 0;
    assert(ac@.skip(0) =~= ac@);
    assert(bc@.skip(0) =~= bc@);
    while i < ac.len() && i < bc.len()
        invariant
            ac@ == a@,
            bc@ == b@,
            i <= ac@.len(),
            i <= bc@.len(),
            lex_order(a@, b@) == lex_order(ac@.skip(i as int), bc@.skip(i as int)),
        decreases ac@.len() - i,
    {
        let x = ac[i];
        let y = bc[i];
        if (x as u32) < (y as u32) {
            return Order::Less;
        }
        if (x as u32) > (y as u32) {
            return Order::Greater;
        }
        assert(ac@.skip(i as int).drop_first() =~= ac@.skip(i + 1));
        assert(bc@.skip(i as int).drop_first() =~= bc@.skip(i + 1));
        i = i + 1;
    }
    if i == ac.len() && i == bc.len() {
        Order::Equal
    } else if i == ac.len() {
        Order::Less
    } else {
        Order::Greater
    }
}

/// How two rooms compare when listed by id.
pub open spec fn order_by_id(a: RoomDataView, b: RoomDataView) -> Order {
    lex_order(a.id, b.id)
}

/// How two rooms compare when listed by their order in a space: rooms with
/// an order come first, by order then id; rooms without one follow, by id.
pub open spec fn order_by_space_order(a: RoomDataView, b: RoomDataView) -> Order {
    match (a.order, b.order) {
        (Some(oa), Some(ob)) => match lex_order(oa, ob) {
            Order::Equal => lex_order(a.id, b.id),
            o => o,
        },
        (Some(_), None) => Order::Less,
        (None, Some(_)) => Order::Greater,
        (None, None) => lex_order(a.id, b.id),
    }
}

pub open spec fn room_order(a: RoomDataView, b: RoomDataView, by_space_order: bool) -> Order {
    if by_space_order {
        order_by_space_order(a, b)
    } else {
        order_by_id(a, b)
    }
}

fn room_order_exec(a: &RoomData, b: &RoomData, by_space_order: bool) -> (r: Order)
    ensures
        r == room_order(a@, b@, by_space_order),
{
    if by_space_order {
        match (&a.order, &b.order) {
            (Some(oa), Some(ob)) => match compare_str(oa.as_str(), ob.as_str()) {
                Order::Equal => compare_str(a.id.as_str(), b.id.as_str()),
                o => o,
            },
            (Some(_), None) => Order::Less,
            (None, Some(_)) => Order::Greater,
            (None, None) => compare_str(a.id.as_str(), b.id.as_str()),
        }
    } else {
        compare_str(a.id.as_str(), b.id.as_str())
    }
}

/// Inserting `x` into a listing: it goes after every element that does not
/// compare greater, scanning from the end (so equal elements keep the order
/// in which they were inserted).
pub open spec fn insert_stable(
    rooms: Seq<RoomDataView>,
    s: Seq<usize>,
    x: usize,
    by_space_order: bool,
) -> Seq<usize>
    decreases s.len(),
{
    if s.len() == 0 {
        seq![x]
    } else if room_order(rooms[s.last() as int], rooms[x as int], by_space_order) is Greater {
        insert_stable(rooms, s.drop_last(), x, by_space_order).push(s.last())
    } else {
        s.push(x)
    }
}

/// The stable sort of the room indices `s` by the rooms they point to.
pub open spec fn sort_stable(rooms: Seq<RoomDataView>, s: Seq<usize>, by_space_order: bool) -> Seq<usize>
    decreases s.len(),
{
    if s.len() == 0 {
        seq![]
    } else {
        insert_stable(rooms, sort_stable(rooms, s.drop_last(), by_space_order), s.last(), by_space_order)
    }
}

/// Inserting into a listing adds exactly the inserted index.
pub proof fn lemma_insert_stable_multiset(rooms: Seq<RoomDataView>, s: Seq<usize>, x: usize, by_space_order: bool)
    ensures
        insert_stable(rooms, s, x, by_space_order).to_multiset() == s.to_multiset().insert(x),
    decreases s.len(),
{
    broadcast use vstd::seq_lib::group_to_multiset_ensures;
    if s.len() == 0 {
        assert(seq![x] =~= Seq::<usize>::empty().push(x));
    } else {
        let rest = s.drop_last();
        assert(rest.push(s.last()) =~= s);
        if room_order(rooms[s.last() as int], rooms[x as int], by_space_order) is Greater {
            lemma_insert_stable_multiset(rooms, rest, x, by_space_order);
            assert(s.to_multiset() =~= rest.to_multiset().insert(s.last()));
            assert(s.to_multiset().insert(x) =~= rest.to_multiset().insert(x).insert(s.last()));
        }
    }
}

/// Sorting a listing neither adds, drops nor duplicates an index: the
/// result is a permutation of the input.
pub proof fn lemma_sort_stable_permutation(rooms: Seq<RoomDataView>, s: Seq<usize>, by_space_order: bool)
    ensures
        sort_stable(rooms, s, by_space_order).to_multiset() == s.to_multiset(),
        sort_stable(rooms, s, by_space_order).len() == s.len(),
        forall|x: usize| sort_stable(rooms, s, by_space_order).contains(x) <==> s.contains(x),
    decreases s.len(),
{
    broadcast use vstd::seq_lib::group_to_multiset_ensures;
    let r = sort_stable(rooms, s, by_space_order);
    if s.len() > 0 {
        let rest = s.drop_last();
        assert(rest.push(s.last()) =~= s);
        lemma_sort_stable_permutation(rooms, rest, by_space_order);
        lemma_insert_stable_multiset(rooms, sort_stable(rooms, rest, by_space_order), s.last(), by_space_order);
        assert(s.to_multiset() =~= rest.to_multiset().insert(s.last()));
    } else {
        assert(r =~= s);
    }
    assert forall|x: usize| r.contains(x) <==> s.contains(x) by {
        assert(r.contains(x) <==> r.to_multiset().count(x) > 0);
        assert(s.contains(x) <==> s.to_multiset().count(x) > 0);
    }
    assert(r.len() == r.to_multiset().len());
    assert(s.len() == s.to_multiset().len());
}

/// Every index `indices_where` lists is below its bound.
pub proof fn lemma_indices_where_bound(n: nat, f: spec_fn(int) -> bool)
    ensures
        forall|k: int| 0 <= k < indices_where(n, f).len() ==> indices_where(n, f)[k] < n,
    decreases n,
{
    if n > 0 {
        let m = (n - 1) as nat;
        lemma_indices_where_bound(m, f);
        let a = indices_where(m, f);
        let t: Seq<usize> = if f(n - 1) {
            seq![(n - 1) as usize]
        } else {
            seq![]
        };
        assert(indices_where(n, f) == a + t);
        assert forall|k: int| 0 <= k < indices_where(n, f).len() implies indices_where(n, f)[k] < n by {
            if k < a.len() {
                assert(indices_where(n, f)[k] == a[k]);
            } else {
                assert(indices_where(n, f)[k] == t[k - a.len()]);
            }
        }
    }
}

/// Sorts room indices, stably, by the rooms they point to.
pub fn sort_room_indices(rooms: &Vec<RoomData>, idx: Vec<usize>, by_space_order: bool) -> (r: Vec<usize>)
    requires
        forall|k: int| 0 <= k < idx@.len() ==> idx@[k] < rooms@.len(),
    ensures
        r@ == sort_stable(rooms_view(rooms@), idx@, by_space_order),
{
    let mut out: Vec<usize> = Vec::new();
    let mut i: usize = 0;
    while i < idx.len()
        invariant
            i <= idx@.len(),
            forall|k: int| 0 <= k < idx@.len() ==> idx@[k] < rooms@.len(),
            out@ == sort_stable(rooms_view(rooms@), idx@.take(i as int), by_space_order),
            forall|k: int| 0 <= k < out@.len() ==> out@[k] < rooms@.len(),
        decreases idx@.len() - i,
    {
        let x = idx[i];
        assert(idx@.take(i + 1).drop_last() =~= idx@.take(i as int));
        let mut p = out.len();
        assert(out@.take(p as int) =~= out@);
        assert(out@.skip(p as int) =~= Seq::<usize>::empty());
        while p > 0
            invariant
                p <= out@.len(),
                x < rooms@.len(),
                forall|k: int| 0 <= k < out@.len() ==> out@[k] < rooms@.len(),
                insert_stable(rooms_view(rooms@), out@, x, by_space_order) == insert_stable(
                    rooms_view(rooms@),
                    out@.take(p as int),
                    x,
                    by_space_order,
                ) + out@.skip(p as int),
            ensures
                p <= out@.len(),
                insert_stable(rooms_view(rooms@), out@, x, by_space_order) == insert_stable(
                    rooms_view(rooms@),
                    out@.take(p as int),
                    x,
                    by_space_order,
                ) + out@.skip(p as int),
                p > 0 ==> !(room_order(rooms@[out@[p - 1] as int]@, rooms@[x as int]@, by_space_order) is Greater),
            decreases p,
        {
            match room_order_exec(&rooms[out[p - 1]], &rooms[x], by_space_order) {
                Order::Greater => {
                    assert(out@.take(p as int).drop_last() =~= out@.take(p - 1));
                    assert(out@.skip(p - 1) =~= seq![out@[p - 1]] + out@.skip(p as int));
                    p = p - 1;
                },
                _ => {
                    break;
                },
            }
        }
        let ghost before = out@;
        proof {
            if p == 0 {
                assert(before.take(0) =~= Seq::<usize>::empty());
                assert(insert_stable(rooms_view(rooms@), before.take(0), x, by_space_order) =~= seq![x]);
            } else {
                assert(before.take(p as int).last() == before[p - 1]);
            }
            assert(insert_stable(rooms_view(rooms@), before.take(p as int), x, by_space_order) =~= before.take(
                p as int,
            ).push(x));
        }
        out.insert(p, x);
        assert(out@ =~= before.take(p as int).push(x) + before.skip(p as int));
        i = i + 1;
    }
    assert(idx@.take(idx@.len() as int) =~= idx@);
    out
}


pub fn clone_string_vec(v: &Vec<String>) -> (r: Vec<String>)
    ensures
        r@ == v@,
        strs_view(r@) == strs_view(v@),
{
    let mut r: Vec<String> = Vec::new();
    let mut i: usize = 0;
    while i < v.len()
        invariant
            i <= v@.len(),
            r@ == v@.take(i as int),
        decreases v@.len() - i,
    {
        r.push(v[i].clone());
        i = i + 1;
        assert(r@ =~= v@.take(i as int));
    }
    assert(v@.take(v@.len() as int) =~= v@);
    r
}

pub fn clone_opt_string(o: &Option<String>) -> (r: Option<String>)
    ensures
        r == *o,
{
    match o {
        Some(s) => Some(s.clone()),
        None => None,
    }
}

impl Clone for JoinRule {
    fn clone(&self) -> (r: Self)
        ensures
            r@ == self@,
    {
        match self {
            JoinRule::Public => JoinRule::Public,
            JoinRule::Invite => JoinRule::Invite,
            JoinRule::Knock => JoinRule::Knock,
            JoinRule::Private => JoinRule::Private,
            JoinRule::Restricted(v) => JoinRule::Restricted(clone_string_vec(v)),
            JoinRule::KnockRestricted(v) => JoinRule::KnockRestricted(clone_string_vec(v)),
            JoinRule::Other(s) => JoinRule::Other(s.clone()),
        }
    }
}

impl Clone for RoomKind {
    fn clone(&self) -> (r: Self)
        ensures
            r == *self,
    {
        match self {
            RoomKind::Space => RoomKind::Space,
            RoomKind::Custom(s) => RoomKind::Custom(s.clone()),
        }
    }
}

impl Clone for RoomData {
    fn clone(&self) -> (r: Self)
        ensures
            r@ == self@,
    {
        RoomData {
            id: self.id.clone(),
            name: clone_opt_string(&self.name),
            last_message: clone_opt_string(&self.last_message),
            unread_count: self.unread_count,
            unread_count_str: clone_opt_string(&self.unread_count_str),
            avatar_url: clone_opt_string(&self.avatar_url),
            room_type: match &self.room_type {
                Some(k) => Some(k.clone()),
                None => None,
            },
            is_space: self.is_space,
            parent_space_id: clone_opt_string(&self.parent_space_id),
            join_rule: match &self.join_rule {
                Some(j) => Some(j.clone()),
                None => None,
            },
            allowed_spaces: clone_string_vec(&self.allowed_spaces),
            order: clone_opt_string(&self.order),
            suggested: self.suggested,
        }
    }
}

/// A room matches a search query when the query is empty or occurs, ignoring
/// case, in the room's name or in its id.
pub open spec fn room_matches(r: RoomDataView, q: Seq<char>) -> bool {
    q.len() == 0 || (r.name matches Some(n) && contains_ignore_ascii_case_spec(n, q, None))
        || contains_ignore_ascii_case_spec(r.id, q, None)
}

/// The indices below `n` at which `f` holds, in increasing order.
pub open spec fn indices_where(n: nat, f: spec_fn(int) -> bool) -> Seq<usize>
    decreases n,
{
    if n == 0 {
        seq![]
    } else {
        indices_where((n - 1) as nat, f) + if f(n - 1) {
            seq![(n - 1) as usize]
        } else {
            seq![]
        }
    }
}

/// Whether a room matches the query; `fallback` is the query's lowercase
/// when the query is not ASCII.
fn room_matches_exec(r: &RoomData, q: &str, fallback: &Option<String>) -> (b: bool)
    requires
        fallback matches Some(f) ==> f@ == unicode_lowercase(q@),
    ensures
        b == room_matches(r@, q@),
{
    if q.is_empty() {
        return true;
    }
    let fb: Option<&str> = match fallback {
        Some(f) => Some(f.as_str()),
        None => None,
    };
    let by_name = match &r.name {
        Some(n) => contains_ignore_ascii_case(n.as_str(), q, fb),
        None => false,
    };
    by_name || contains_ignore_ascii_case(r.id.as_str(), q, fb)
}

/// How the room list may consult the space hierarchy.
pub enum SpaceLookup<'a> {
    /// There is no Matrix engine (not logged in yet).
    NoEngine,
    /// The engine's hierarchy is being updated and cannot be read now.
    Busy,
    /// The engine's hierarchy.
    Ready(&'a SpaceHierarchy),
}

/// The rooms the sidebar lists and how they are filtered.
pub struct RoomListState {
    /// The joined rooms (and spaces), as the room list service reports them.
    pub room_list: Vec<RoomData>,
    /// Indices into `room_list` of the rooms shown.
    pub filtered_room_list: Vec<usize>,
    /// Rooms of the selected space that the user has not joined.
    pub other_rooms: Vec<RoomData>,
    /// Indices into `other_rooms` of those shown.
    pub filtered_other_rooms: Vec<usize>,
    pub search_query: String,
    pub selected_space: Option<String>,
    /// Ids of the joined rooms.
    pub joined_room_ids: Vec<String>,
    /// Names of rooms learned elsewhere than from the room list.
    pub room_name_cache: RoomTextMap,
}

pub open spec fn not_joined(joined: Seq<Seq<char>>) -> spec_fn(RoomDataView) -> bool {
    |r: RoomDataView| !joined.contains(r.id)
}

/// The shown rooms when no space is selected: every room that is not a
/// space and matches the query, sorted by id.
pub open spec fn rooms_without_space(rooms: Seq<RoomDataView>, q: Seq<char>) -> Seq<usize> {
    sort_stable(
        rooms,
        indices_where(rooms.len(), |i: int| !rooms[i].is_space && room_matches(rooms[i], q)),
        false,
    )
}

/// The rooms of `space`: the shown rooms before (`kept`), followed by every
/// room that is not a space, is below `space` and matches the query, sorted
/// by their order in the space.
pub open spec fn rooms_in_space(
    rooms: Seq<RoomDataView>,
    kept: Seq<usize>,
    h: crate::space::HierarchyView,
    space: Seq<char>,
    q: Seq<char>,
) -> Seq<usize> {
    sort_stable(
        rooms,
        kept + indices_where(
            rooms.len(),
            |i: int| !rooms[i].is_space && reaches(h, space, rooms[i].id, true) && room_matches(rooms[i], q),
        ),
        true,
    )
}

/// The shown other rooms: indices of the rooms in `other` that match the query.
pub open spec fn other_shown(other: Seq<RoomDataView>, q: Seq<char>) -> Seq<usize> {
    indices_where(other.len(), |i: int| room_matches(other[i], q))
}

/// `post` is `pre` with the shown rooms recomputed (see
/// `RoomListState::update_filtered_rooms`).
pub open spec fn refiltered(pre: RoomListState, post: RoomListState, spaces: SpaceLookup) -> bool {
    &&& post.room_list == pre.room_list
    &&& post.search_query == pre.search_query
    &&& post.selected_space == pre.selected_space
    &&& post.joined_room_ids == pre.joined_room_ids
    &&& match pre.selected_space {
        None => {
            &&& post.filtered_room_list@ == rooms_without_space(
                rooms_view(pre.room_list@),
                pre.search_query@,
            )
            &&& post.other_rooms@.len() == 0
            &&& post.filtered_other_rooms@.len() == 0
        },
        Some(space) => match spaces {
            SpaceLookup::Busy => {
                &&& post.filtered_room_list == pre.filtered_room_list
                &&& post.other_rooms == pre.other_rooms
                &&& post.filtered_other_rooms == pre.filtered_other_rooms
            },
            _ => {
                &&& post.filtered_room_list@ == match spaces {
                    SpaceLookup::Ready(h) => rooms_in_space(
                        rooms_view(pre.room_list@),
                        pre.filtered_room_list@,
                        h@,
                        space@,
                        pre.search_query@,
                    ),
                    _ => pre.filtered_room_list@,
                }
                &&& rooms_view(post.other_rooms@) == rooms_view(pre.other_rooms@).filter(
                    not_joined(strs_view(pre.joined_room_ids@)),
                )
                &&& post.filtered_other_rooms@ == other_shown(
                    rooms_view(post.other_rooms@),
                    pre.search_query@,
                )
            },
        },
    }
    &&& post.room_name_cache == pre.room_name_cache
}

impl RoomListState {
    /// Recomputes which rooms are shown, after the room list, the search
    /// query or the selected space changed.
    ///
    /// With no space selected: the rooms that are not spaces and match the
    /// query, by id; the other rooms are cleared. With a space selected and
    /// its hierarchy readable: the rooms below the space that match, added to
    /// the rooms shown before and sorted by their order in the space; the
    /// other rooms lose those since joined, and those matching the query are
    /// shown. When the hierarchy is busy, nothing changes.
    pub fn update_filtered_rooms(&mut self, spaces: &SpaceLookup)
        requires
            spaces matches SpaceLookup::Ready(h) ==> h.wf(),
            old(self).selected_space is Some && spaces is Ready ==> forall|k: int|
                0 <= k < old(self).filtered_room_list@.len() ==> old(self).filtered_room_list@[k]
                    < old(self).room_list@.len(),
        ensures
            refiltered(*old(self), *final(self), *spaces),
    {
        let fallback: Option<String> = if self.search_query.as_str().is_ascii() {
            None
        } else {
            Some(str_to_lowercase(self.search_query.as_str()))
        };
        match &self.selected_space {
            None => {
                let mut idx: Vec<usize> = Vec::new();
                let mut i: usize = 0;
                let ghost rooms = rooms_view(self.room_list@);
                let ghost q = self.search_query@;
                while i < self.room_list.len()
                    invariant
                        rooms == rooms_view(self.room_list@),
                        q == self.search_query@,
                        fallback matches Some(f) ==> f@ == unicode_lowercase(q),
                        i <= rooms.len(),
                        idx@ == indices_where(i as nat, |k: int| !rooms[k].is_space && room_matches(rooms[k], q)),
                        forall|k: int| 0 <= k < idx@.len() ==> idx@[k] < i,
                    decreases rooms.len() - i,
                {
                    if !self.room_list[i].is_space && room_matches_exec(&self.room_list[i], self.search_query.as_str(), &fallback) {
                        idx.push(i);
                    }
                    i = i + 1;
                }
                let sorted = sort_room_indices(&self.room_list, idx, false);
                self.filtered_room_list = sorted;
                self.other_rooms = Vec::new();
                self.filtered_other_rooms = Vec::new();
            },
            Some(space) => {
                match spaces {
                    SpaceLookup::Busy => {
                        return;
                    },
                    SpaceLookup::NoEngine => {},
                    SpaceLookup::Ready(h) => {
                        let descendants = h.get_descendants_strs(space.as_str());
                        let mut idx: Vec<usize> = clone_usize_vec(&self.filtered_room_list);
                        let ghost kept = idx@;
                        let ghost rooms = rooms_view(self.room_list@);
                        let ghost q = self.search_query@;
                        let ghost hv = h@;
                        let ghost sp = space@;
                        let mut i: usize = 0;
                        while i < self.room_list.len()
                            invariant
                                rooms == rooms_view(self.room_list@),
                                q == self.search_query@,
                                fallback matches Some(f) ==> f@ == unicode_lowercase(q),
                                forall|x: Seq<char>| strs_view(descendants@).contains(x) <==> reaches(hv, sp, x, true),
                                i <= rooms.len(),
                                idx@ == kept + indices_where(i as nat, |k: int| !rooms[k].is_space && reaches(hv, sp, rooms[k].id, true) && room_matches(rooms[k], q)),
                                forall|k: int| 0 <= k < kept.len() ==> kept[k] < rooms.len(),
                                forall|k: int| 0 <= k < idx@.len() ==> idx@[k] < rooms.len(),
                            decreases rooms.len() - i,
                        {
                            if !self.room_list[i].is_space && contains_string(&descendants, &self.room_list[i].id)
                                && room_matches_exec(&self.room_list[i], self.search_query.as_str(), &fallback) {
                                idx.push(i);
                            }
                            i = i + 1;
                        }
                        let sorted = sort_room_indices(&self.room_list, idx, true);
                        self.filtered_room_list = sorted;
                    },
                }
                let mut others: Vec<RoomData> = Vec::new();
                let mut j: usize = 0;
                let ghost olds = rooms_view(self.other_rooms@);
                let ghost joined = strs_view(self.joined_room_ids@);
                while j < self.other_rooms.len()
                    invariant
                        olds == rooms_view(self.other_rooms@),
                        joined == strs_view(self.joined_room_ids@),
                        j <= olds.len(),
                        rooms_view(others@) == olds.take(j as int).filter(not_joined(joined)),
                    decreases olds.len() - j,
                {
                    assert(olds.take(j + 1).drop_last() =~= olds.take(j as int));
                    let ghost before = others@;
                    if !contains_string(&self.joined_room_ids, &self.other_rooms[j].id) {
                        others.push(self.other_rooms[j].clone());
                        assert(rooms_view(others@) =~= rooms_view(before).push(olds[j as int]));
                    }
                    assert(olds.take(j + 1).last() == olds[j as int]);
                    reveal_with_fuel(Seq::filter, 1);
                    assert(olds.take(j + 1).filter(not_joined(joined)) == if not_joined(joined)(olds[j as int]) {
                        olds.take(j as int).filter(not_joined(joined)).push(olds[j as int])
                    } else {
                        olds.take(j as int).filter(not_joined(joined))
                    });
                    j = j + 1;
                }
                assert(olds.take(olds.len() as int) =~= olds);
                self.other_rooms = others;
                let mut shown: Vec<usize> = Vec::new();
                let mut k: usize = 0;
                let ghost others_v = rooms_view(self.other_rooms@);
                let ghost q = self.search_query@;
                while k < self.other_rooms.len()
                    invariant
                        others_v == rooms_view(self.other_rooms@),
                        q == self.search_query@,
                        fallback matches Some(f) ==> f@ == unicode_lowercase(q),
                        k <= others_v.len(),
                        shown@ == indices_where(k as nat, |m: int| room_matches(others_v[m], q)),
                    decreases others_v.len() - k,
                {
                    if room_matches_exec(&self.other_rooms[k], self.search_query.as_str(), &fallback) {
                        shown.push(k);
                    }
                    k = k + 1;
                }
                self.filtered_other_rooms = shown;
            },
        }
    }
}

pub fn clone_usize_vec(v: &Vec<usize>) -> (r: Vec<usize>)
    ensures
        r@ == v@,
{
    let mut r: Vec<usize> = Vec::new();
    let mut i: usize = 0;
    while i < v.len()
        invariant
            i <= v@.len(),
            r@ == v@.take(i as int),
        decreases v@.len() - i,
    {
        r.push(v[i]);
        i = i + 1;
        assert(r@ =~= v@.take(i as int));
    }
    assert(v@.take(v@.len() as int) =~= v@);
    r
}


/// The set of strings a list holds.
pub open spec fn str_set(v: Seq<String>) -> Set<Seq<char>> {
    strs_view(v).to_set()
}

/// Adds `s` to a list used as a set.
pub fn set_insert(v: &mut Vec<String>, s: String)
    requires
        strs_view(old(v)@).no_duplicates(),
    ensures
        strs_view(final(v)@).no_duplicates(),
        str_set(final(v)@) == str_set(old(v)@).insert(s@),
{
    if !contains_string(v, &s) {
        let ghost before = strs_view(v@);
        v.push(s);
        proof {
            assert(strs_view(v@) =~= before.push(s@));
            before.lemma_push_to_set_commute(s@);
        }
    } else {
        assert(str_set(v@) =~= str_set(v@).insert(s@));
    }
}

proof fn lemma_remove_from_set(s: Seq<Seq<char>>, i: int)
    requires
        s.no_duplicates(),
        0 <= i < s.len(),
    ensures
        s.remove(i).no_duplicates(),
        s.remove(i).to_set() == s.to_set().remove(s[i]),
{
    let r = s.remove(i);
    assert forall|a: int, b: int| 0 <= a < r.len() && 0 <= b < r.len() && a != b implies r[a] != r[b] by {
        let a2 = if a < i { a } else { a + 1 };
        let b2 = if b < i { b } else { b + 1 };
        assert(r[a] == s[a2] && r[b] == s[b2]);
    }
    assert forall|x: Seq<char>| r.to_set().contains(x) == s.to_set().remove(s[i]).contains(x) by {
        if r.contains(x) {
            let k = choose|k: int| 0 <= k < r.len() && r[k] == x;
            let k2 = if k < i { k } else { k + 1 };
            assert(s[k2] == x && k2 != i);
        }
        if s.contains(x) && x != s[i] {
            let k = choose|k: int| 0 <= k < s.len() && s[k] == x;
            let k2 = if k < i { k } else { k - 1 };
            assert(r[k2] == x);
        }
    }
    assert(r.to_set() =~= s.to_set().remove(s[i]));
}

/// Removes `s` from a list used as a set.
pub fn set_remove(v: &mut Vec<String>, s: &String)
    requires
        strs_view(old(v)@).no_duplicates(),
    ensures
        strs_view(final(v)@).no_duplicates(),
        str_set(final(v)@) == str_set(old(v)@).remove(s@),
{
    let ghost before = strs_view(v@);
    let mut i: usize = 0;
    while i < v.len()
        invariant
            before == strs_view(v@),
            before == strs_view(old(v)@),
            before.no_duplicates(),
            i <= v@.len(),
            forall|k: int| 0 <= k < i ==> v@[k]@ != s@,
        decreases v@.len() - i,
    {
        if v[i] == *s {
            assert(before[i as int] == s@);
            v.remove(i);
            proof {
                assert(strs_view(v@) =~= before.remove(i as int));
                lemma_remove_from_set(before, i as int);
                assert(before == strs_view(old(v)@));
                assert(str_set(v@) == before.remove(i as int).to_set());
            }
            return;
        }
        i = i + 1;
    }
    assert(!before.contains(s@));
    assert(str_set(v@) =~= str_set(v@).remove(s@));
}

/// The ids of the rooms from position `from` on.
pub open spec fn ids_from(rooms: Seq<RoomDataView>, from: int) -> Set<Seq<char>> {
    Set::new(|x: Seq<char>| exists|i: int| from <= i < rooms.len() && rooms[i].id == x)
}

/// The ids of a list of rooms.
pub open spec fn ids_of(rooms: Seq<RoomDataView>) -> Set<Seq<char>> {
    ids_from(rooms, 0)
}

/// The joined room ids after a change to the room list.
pub open spec fn joined_after(
    joined: Set<Seq<char>>,
    rooms: Seq<RoomDataView>,
    d: VectorDiff<RoomData>,
) -> Set<Seq<char>> {
    match d {
        VectorDiff::Insert { value, .. } => joined.insert(value.id@),
        VectorDiff::PushBack { value } => joined.insert(value.id@),
        VectorDiff::PushFront { value } => joined.insert(value.id@),
        VectorDiff::Remove { index } => if index < rooms.len() {
            joined.remove(rooms[index as int].id)
        } else {
            joined
        },
        VectorDiff::Replace { index, value } => if index < rooms.len() {
            joined.remove(rooms[index as int].id).insert(value.id@)
        } else {
            joined.insert(value.id@)
        },
        VectorDiff::PopBack => if rooms.len() > 0 {
            joined.remove(rooms.last().id)
        } else {
            joined
        },
        VectorDiff::PopFront => if rooms.len() > 0 {
            joined.remove(rooms[0].id)
        } else {
            joined
        },
        VectorDiff::Clear => Set::empty(),
        VectorDiff::Reset { values } => joined.union(ids_of(rooms_view(values@))),
        VectorDiff::Append { values } => joined.union(ids_of(rooms_view(values@))),
        VectorDiff::Truncate { length } => joined.difference(ids_from(rooms, length as int)),
    }
}

fn insert_ids(v: &mut Vec<String>, rooms: &Vec<RoomData>)
    requires
        strs_view(old(v)@).no_duplicates(),
    ensures
        strs_view(final(v)@).no_duplicates(),
        str_set(final(v)@) == str_set(old(v)@).union(ids_of(rooms_view(rooms@))),
{
    let ghost start = str_set(v@);
    let ghost rs = rooms_view(rooms@);
    let mut i: usize = 0;
    while i < rooms.len()
        invariant
            rs == rooms_view(rooms@),
            i <= rooms@.len(),
            strs_view(v@).no_duplicates(),
            str_set(v@) == start.union(Set::new(|x: Seq<char>| exists|k: int| 0 <= k < i && rs[k].id == x)),
        decreases rooms@.len() - i,
    {
        let ghost before = str_set(v@);
        set_insert(v, rooms[i].id.clone());
        assert(str_set(v@) =~= start.union(Set::new(|x: Seq<char>| exists|k: int| 0 <= k < i + 1 && rs[k].id == x))) by {
            assert(rs[i as int].id == rooms@[i as int].id@);
        }
        i = i + 1;
    }
    assert(str_set(v@) =~= start.union(ids_of(rs)));
}

fn remove_ids_from(v: &mut Vec<String>, rooms: &Vec<RoomData>, from: usize)
    requires
        strs_view(old(v)@).no_duplicates(),
    ensures
        strs_view(final(v)@).no_duplicates(),
        str_set(final(v)@) == str_set(old(v)@).difference(ids_from(rooms_view(rooms@), from as int)),
{
    let ghost start = str_set(v@);
    let ghost rs = rooms_view(rooms@);
    let mut i: usize = from;
    while i < rooms.len()
        invariant
            rs == rooms_view(rooms@),
            from <= i,
            i <= rooms@.len() || i == from,
            strs_view(v@).no_duplicates(),
            str_set(v@) == start.difference(Set::new(|x: Seq<char>| exists|k: int| from <= k < i && k < rs.len() && rs[k].id == x)),
        decreases rooms@.len() - i,
    {
        set_remove(v, &rooms[i].id);
        assert(str_set(v@) =~= start.difference(Set::new(|x: Seq<char>| exists|k: int| from <= k < i + 1 && k < rs.len() && rs[k].id == x))) by {
            assert(rs[i as int].id == rooms@[i as int].id@);
        }
        i = i + 1;
    }
    assert(str_set(v@) =~= start.difference(ids_from(rs, from as int)));
}

impl RoomListState {
    /// Applies a change reported by the room list service: the joined room ids
    /// follow the change, the list is changed, and the shown rooms are
    /// recomputed.
    pub fn handle_room_diff(&mut self, diff: VectorDiff<RoomData>, spaces: &SpaceLookup)
        requires
            spaces matches SpaceLookup::Ready(h) ==> h.wf(),
            strs_view(old(self).joined_room_ids@).no_duplicates(),
            old(self).selected_space is Some && spaces is Ready ==> forall|k: int|
                0 <= k < old(self).filtered_room_list@.len() ==> old(self).filtered_room_list@[k]
                    < apply_diff_spec(old(self).room_list@, diff).len(),
        ensures
            strs_view(final(self).joined_room_ids@).no_duplicates(),
            str_set(final(self).joined_room_ids@) == joined_after(
                str_set(old(self).joined_room_ids@),
                rooms_view(old(self).room_list@),
                diff,
            ),
            final(self).room_list@ == apply_diff_spec(old(self).room_list@, diff),
            final(self).search_query == old(self).search_query,
            final(self).selected_space == old(self).selected_space,
            match old(self).selected_space {
                None => {
                    &&& final(self).filtered_room_list@ == rooms_without_space(
                        rooms_view(final(self).room_list@),
                        old(self).search_query@,
                    )
                    &&& final(self).other_rooms@.len() == 0
                    &&& final(self).filtered_other_rooms@.len() == 0
                },
                Some(space) => match *spaces {
                    SpaceLookup::Busy => {
                        &&& final(self).filtered_room_list == old(self).filtered_room_list
                        &&& final(self).other_rooms == old(self).other_rooms
                        &&& final(self).filtered_other_rooms == old(self).filtered_other_rooms
                    },
                    _ => {
                        &&& final(self).filtered_room_list@ == match *spaces {
                            SpaceLookup::Ready(h) => rooms_in_space(
                                rooms_view(final(self).room_list@),
                                old(self).filtered_room_list@,
                                h@,
                                space@,
                                old(self).search_query@,
                            ),
                            _ => old(self).filtered_room_list@,
                        }
                        &&& rooms_view(final(self).other_rooms@) == rooms_view(old(self).other_rooms@).filter(
                            not_joined(strs_view(final(self).joined_room_ids@)),
                        )
                        &&& final(self).filtered_other_rooms@ == other_shown(
                            rooms_view(final(self).other_rooms@),
                            old(self).search_query@,
                        )
                    },
                },
            },
    {
        let ghost rs = rooms_view(self.room_list@);
        match &diff {
            VectorDiff::Insert { value, .. } => {
                set_insert(&mut self.joined_room_ids, value.id.clone());
            },
            VectorDiff::PushBack { value } => {
                set_insert(&mut self.joined_room_ids, value.id.clone());
            },
            VectorDiff::PushFront { value } => {
                set_insert(&mut self.joined_room_ids, value.id.clone());
            },
            VectorDiff::Remove { index } => {
                if *index < self.room_list.len() {
                    set_remove(&mut self.joined_room_ids, &self.room_list[*index].id);
                }
            },
            VectorDiff::Replace { index, value } => {
                if *index < self.room_list.len() {
                    set_remove(&mut self.joined_room_ids, &self.room_list[*index].id);
                }
                set_insert(&mut self.joined_room_ids, value.id.clone());
            },
            VectorDiff::PopBack => {
                if self.room_list.len() > 0 {
                    let last = self.room_list.len() - 1;
                    set_remove(&mut self.joined_room_ids, &self.room_list[last].id);
                }
            },
            VectorDiff::PopFront => {
                if self.room_list.len() > 0 {
                    set_remove(&mut self.joined_room_ids, &self.room_list[0].id);
                }
            },
            VectorDiff::Clear => {
                self.joined_room_ids = Vec::new();
                assert(str_set(self.joined_room_ids@) =~= Set::<Seq<char>>::empty());
            },
            VectorDiff::Reset { values } => {
                insert_ids(&mut self.joined_room_ids, values);
            },
            VectorDiff::Append { values } => {
                insert_ids(&mut self.joined_room_ids, values);
            },
            VectorDiff::Truncate { length } => {
                remove_ids_from(&mut self.joined_room_ids, &self.room_list, *length);
            },
        }
        self.room_list.apply_diff(diff);
        self.update_filtered_rooms(spaces);
    }
}

/// What is recorded for a room is what is then read for it, and recording
/// for one room leaves what is read for every other room as it was.
pub proof fn law_text_map_read_after_write(
    m: Map<Seq<char>, Seq<char>>,
    id: Seq<char>,
    text: Seq<char>,
    other: Seq<char>,
)
    ensures
        m.insert(id, text).dom().contains(id),
        m.insert(id, text)[id] == text,
        other != id ==> (m.insert(id, text).dom().contains(other) == m.dom().contains(other)),
        other != id && m.dom().contains(other) ==> m.insert(id, text)[other] == m[other],
{
}

/// Texts by room id (a room's name, a child's pending order); a later
/// entry for an id replaces an earlier one.
pub struct RoomTextMap {
    entries: Vec<(String, String)>,
}

/// The name last recorded for `id` among `e`.
pub open spec fn cache_lookup(e: Seq<(String, String)>, id: Seq<char>) -> Option<Seq<char>>
    decreases e.len(),
{
    if e.len() == 0 {
        None
    } else if e.last().0@ == id {
        Some(e.last().1@)
    } else {
        cache_lookup(e.drop_last(), id)
    }
}

impl View for RoomTextMap {
    type V = Map<Seq<char>, Seq<char>>;

    closed spec fn view(&self) -> Map<Seq<char>, Seq<char>> {
        Map::new(
            |id: Seq<char>| cache_lookup(self.entries@, id) is Some,
            |id: Seq<char>| cache_lookup(self.entries@, id)->0,
        )
    }
}

impl RoomTextMap {
    /// An empty map.
    pub fn new() -> (r: Self)
        ensures
            r@ == Map::<Seq<char>, Seq<char>>::empty(),
    {
        let r = RoomTextMap { entries: Vec::new() };
        assert(r@ =~= Map::<Seq<char>, Seq<char>>::empty());
        r
    }

    /// Records `name` as the text for the room `id`.
    pub fn insert(&mut self, id: String, name: String)
        ensures
            final(self)@ == old(self)@.insert(id@, name@),
    {
        let ghost before = self.entries@;
        let ghost (k, v) = (id@, name@);
        self.entries.push((id, name));
        proof {
            let after = self.entries@;
            assert(after.drop_last() =~= before);
            assert forall|x: Seq<char>| cache_lookup(after, x) == if x == k {
                Some(v)
            } else {
                cache_lookup(before, x)
            } by {}
            assert(self@ =~= old(self)@.insert(k, v));
        }
    }

    /// The text recorded for the room `id`.
    pub fn get(&self, id: &str) -> (r: Option<&str>)
        ensures
            r is Some <==> self@.dom().contains(id@),
            r matches Some(n) ==> n@ == self@[id@],
    {
        let mut i: usize = self.entries.len();
        assert(self.entries@.take(i as int) =~= self.entries@);
        while i > 0
            invariant
                i <= self.entries@.len(),
                cache_lookup(self.entries@, id@) == cache_lookup(self.entries@.take(i as int), id@),
            decreases i,
        {
            let ghost t = self.entries@.take(i as int);
            assert(t.last() == self.entries@[i - 1]);
            if str_eq(self.entries[i - 1].0.as_str(), id) {
                return Some(self.entries[i - 1].1.as_str());
            }
            assert(t.drop_last() =~= self.entries@.take(i - 1));
            i = i - 1;
        }
        None
    }
}

/// The position of the first room with id `id`, from position `k` on.
pub open spec fn first_room_from(rooms: Seq<RoomDataView>, id: Seq<char>, k: int) -> Option<int>
    decreases rooms.len() - k,
{
    if k < 0 || k >= rooms.len() {
        None
    } else if rooms[k].id == id {
        Some(k)
    } else {
        first_room_from(rooms, id, k + 1)
    }
}

/// The name of the first room in the list with id `id`, if it has one.
pub open spec fn listed_name(rooms: Seq<RoomDataView>, id: Seq<char>) -> Option<Seq<char>> {
    match first_room_from(rooms, id, 0) {
        Some(i) => rooms[i].name,
        None => None,
    }
}

fn find_room(rooms: &Vec<RoomData>, id: &str) -> (r: Option<usize>)
    ensures
        r matches Some(i) ==> i < rooms@.len(),
        match r {
            Some(i) => first_room_from(rooms_view(rooms@), id@, 0) == Some(i as int),
            None => first_room_from(rooms_view(rooms@), id@, 0) is None,
        },
{
    let ghost rs = rooms_view(rooms@);
    let mut i: usize = 0;
    while i < rooms.len()
        invariant
            rs == rooms_view(rooms@),
            i <= rooms@.len(),
            first_room_from(rs, id@, 0) == first_room_from(rs, id@, i as int),
        decreases rooms@.len() - i,
    {
        if str_eq(rooms[i].id.as_str(), id) {
            return Some(i);
        }
        i = i + 1;
    }
    None
}

impl RoomListState {
    /// The name to show for the room `room_id`: its name in the room list
    /// (the first room listed with that id), else the name cached for it.
    pub fn get_room_name(&self, room_id: &str) -> (r: Option<&str>)
        ensures
            match listed_name(rooms_view(self.room_list@), room_id@) {
                Some(n) => r matches Some(x) && x@ == n,
                None => match r {
                    Some(x) => self.room_name_cache@.dom().contains(room_id@)
                        && x@ == self.room_name_cache@[room_id@],
                    None => !self.room_name_cache@.dom().contains(room_id@),
                },
            },
    {
        if let Some(i) = find_room(&self.room_list, room_id) {
            if let Some(name) = &self.room_list[i].name {
                return Some(name.as_str());
            }
        }
        self.room_name_cache.get(room_id)
    }
}

/// The window title: the name of the selected room, or the application's
/// title when no room is selected or the selected room has no name.
pub fn window_title(rooms: &Vec<RoomData>, selected_room: &Option<String>) -> (r: String)
    ensures
        r@ == match *selected_room {
            Some(id) => match listed_name(rooms_view(rooms@), id@) {
                Some(n) => n,
                None => "Constellations - Matrix Client"@,
            },
            None => "Constellations - Matrix Client"@,
        },
{
    if let Some(id) = selected_room {
        if let Some(i) = find_room(rooms, id.as_str()) {
            if let Some(name) = &rooms[i].name {
                return name.clone();
            }
        }
    }
    "Constellations - Matrix Client".to_owned()
}

/// The name shown for a room: its name in the room list, else the name
/// cached for it.
pub open spec fn shown_room_name(s: RoomListState, id: Seq<char>) -> Option<Seq<char>> {
    match listed_name(rooms_view(s.room_list@), id) {
        Some(n) => Some(n),
        None => if s.room_name_cache@.dom().contains(id) {
            Some(s.room_name_cache@[id])
        } else {
            None
        },
    }
}

impl RoomListState {
    /// The window title: the shown name of the selected room (from the room
    /// list, else the name cache), or the application's title when no room
    /// is selected or no name is known for it.
    pub fn window_title(&self, selected_room: &Option<String>) -> (r: String)
        ensures
            r@ == match *selected_room {
                Some(id) => match shown_room_name(*self, id@) {
                    Some(n) => n,
                    None => "Constellations - Matrix Client"@,
                },
                None => "Constellations - Matrix Client"@,
            },
    {
        if let Some(id) = selected_room {
            if let Some(name) = self.get_room_name(id.as_str()) {
                return name.to_owned();
            }
        }
        "Constellations - Matrix Client".to_owned()
    }
}

/// The avatars of `children`, in order, that the media cache does not hold yet.
pub open spec fn avatars_to_fetch(children: Seq<RoomDataView>, cached: Seq<Seq<char>>) -> Seq<Seq<char>>
    decreases children.len(),
{
    if children.len() == 0 {
        seq![]
    } else {
        let rest = avatars_to_fetch(children.drop_last(), cached);
        match children.last().avatar_url {
            Some(u) => if cached.contains(u) {
                rest
            } else {
                rest.push(u)
            },
            None => rest,
        }
    }
}

/// The avatars of `children` that the media cache (holding `cached`) lacks.
pub fn avatar_urls_to_fetch(children: &Vec<RoomData>, cached: &Vec<String>) -> (r: Vec<String>)
    ensures
        strs_view(r@) == avatars_to_fetch(rooms_view(children@), strs_view(cached@)),
{
    let ghost cs = rooms_view(children@);
    let mut r: Vec<String> = Vec::new();
    let mut i: usize = 0;
    while i < children.len()
        invariant
            cs == rooms_view(children@),
            i <= children@.len(),
            strs_view(r@) == avatars_to_fetch(cs.take(i as int), strs_view(cached@)),
        decreases children@.len() - i,
    {
        assert(cs.take(i + 1).drop_last() =~= cs.take(i as int));
        assert(cs.take(i + 1).last() == children@[i as int]@);
        let ghost before = strs_view(r@);
        if let Some(u) = &children[i].avatar_url {
            if !contains_string(cached, u) {
                r.push(u.clone());
                assert(strs_view(r@) =~= before.push(u@));
            }
        }
        i = i + 1;
    }
    assert(cs.take(children@.len() as int) =~= cs);
    r
}

/// The rooms of a space that the user has not joined, as the sidebar lists
/// them: the children that are neither joined nor spaces, by their order in
/// the space.
pub open spec fn unjoined_children(children: Seq<RoomDataView>, joined: Seq<Seq<char>>) -> Seq<RoomDataView> {
    sort_stable(children, indices_where(children.len(), unjoined_room(children, joined)), true).map_values(
        |i: usize| children[i as int],
    )
}

/// The child at a position is neither joined nor a space.
pub open spec fn unjoined_room(children: Seq<RoomDataView>, joined: Seq<Seq<char>>) -> spec_fn(int) -> bool {
    |i: int| !joined.contains(children[i].id) && !children[i].is_space
}

/// What became of a batch of space children.
pub enum ChildrenFetched {
    /// They belong to a space that is no longer selected.
    Ignored,
    /// Fetching them failed; the message to show.
    Failed(String),
    /// They were taken in; the avatars to fetch.
    Loaded(Vec<String>),
}

/// `s` with `space` selected and `others` as its other rooms.
pub open spec fn with_space(s: RoomListState, space: Option<String>, others: Vec<RoomData>) -> RoomListState {
    RoomListState { selected_space: space, other_rooms: others, ..s }
}

impl RoomListState {
    /// Selects a space (or none): the other rooms of the space selected
    /// before are dropped and the shown rooms recomputed. Returns whether the
    /// children of the new space are to be fetched: when there is an engine
    /// and a space was selected.
    pub fn select_space(&mut self, space_id: Option<String>, spaces: &SpaceLookup) -> (fetch: bool)
        requires
            spaces matches SpaceLookup::Ready(h) ==> h.wf(),
            space_id is Some && spaces is Ready ==> forall|k: int|
                0 <= k < old(self).filtered_room_list@.len() ==> old(self).filtered_room_list@[k]
                    < old(self).room_list@.len(),
        ensures
            fetch == (space_id is Some && !(spaces is NoEngine)),
            exists|v: Vec<RoomData>| v@.len() == 0 && #[trigger] refiltered(
                with_space(*old(self), space_id, v),
                *final(self),
                *spaces,
            ),
    {
        let fetch = space_id.is_some() && !matches!(spaces, SpaceLookup::NoEngine);
        self.selected_space = space_id;
        self.other_rooms = Vec::new();
        let ghost pre = *self;
        self.update_filtered_rooms(spaces);
        assert(pre == with_space(*old(self), pre.selected_space, pre.other_rooms));
        fetch
    }

    /// Takes in the children fetched for the space `space_id`, if it is still
    /// the selected one: the shown rooms are recomputed, then the children
    /// not joined and not spaces become the other rooms, by their order in
    /// the space. With `fetch_avatars`, the avatars of the children that the
    /// media cache lacks (`cached_media`) are to be fetched. On failure the
    /// state is unchanged and the error is reported.
    pub fn handle_space_children_fetched(
        &mut self,
        space_id: &str,
        res: Result<Vec<RoomData>, String>,
        spaces: &SpaceLookup,
        fetch_avatars: bool,
        cached_media: &Vec<String>,
    ) -> (r: ChildrenFetched)
        requires
            spaces matches SpaceLookup::Ready(h) ==> h.wf(),
            spaces is Ready ==> forall|k: int|
                0 <= k < old(self).filtered_room_list@.len() ==> old(self).filtered_room_list@[k]
                    < old(self).room_list@.len(),
        ensures
            !(old(self).selected_space matches Some(s) && s@ == space_id@) ==> {
                &&& r is Ignored
                &&& *final(self) == *old(self)
            },
            old(self).selected_space matches Some(s) && s@ == space_id@ ==> match res {
                Err(e) => {
                    &&& r matches ChildrenFetched::Failed(m) && m@ == "Failed to fetch space children: "@ + e@
                    &&& *final(self) == *old(self)
                },
                Ok(children) => {
                    &&& r matches ChildrenFetched::Loaded(urls) && strs_view(urls@) == if fetch_avatars {
                        avatars_to_fetch(rooms_view(children@), strs_view(cached_media@))
                    } else {
                        Seq::empty()
                    }
                    &&& rooms_view(final(self).other_rooms@) == unjoined_children(
                        rooms_view(children@),
                        strs_view(old(self).joined_room_ids@),
                    )
                    &&& exists|mid: RoomListState| #[trigger] refiltered(*old(self), mid, *spaces)
                        && *final(self) == (RoomListState { other_rooms: final(self).other_rooms, ..mid })
                },
            },
    {
        let selected = match &self.selected_space {
            Some(s) => str_eq(s.as_str(), space_id),
            None => false,
        };
        if !selected {
            return ChildrenFetched::Ignored;
        }
        match res {
            Err(e) => {
                let mut m = "Failed to fetch space children: ".to_owned();
                m.append(e.as_str());
                ChildrenFetched::Failed(m)
            },
            Ok(children) => {
                self.update_filtered_rooms(spaces);
                let ghost mid = *self;
                let urls = if fetch_avatars {
                    avatar_urls_to_fetch(&children, cached_media)
                } else {
                    Vec::new()
                };
                let ghost cs = rooms_view(children@);
                let ghost joined = strs_view(self.joined_room_ids@);
                let mut keep: Vec<usize> = Vec::new();
                let mut i: usize = 0;
                while i < children.len()
                    invariant
                        cs == rooms_view(children@),
                        joined == strs_view(self.joined_room_ids@),
                        i <= children@.len(),
                        keep@ == indices_where(i as nat, unjoined_room(cs, joined)),
                        forall|k: int| 0 <= k < keep@.len() ==> keep@[k] < i,
                    decreases children@.len() - i,
                {
                    if !contains_string(&self.joined_room_ids, &children[i].id) && !children[i].is_space {
                        keep.push(i);
                    }
                    i = i + 1;
                }
                let order = sort_room_indices(&children, keep, true);
                let ghost ord = order@;
                proof {
                    let sel = indices_where(children@.len() as nat, unjoined_room(cs, joined));
                    lemma_sort_stable_permutation(cs, sel, true);
                    lemma_indices_where_bound(children@.len() as nat, unjoined_room(cs, joined));
                    assert forall|k: int| 0 <= k < ord.len() implies ord[k] < cs.len() by {
                        assert(ord.contains(ord[k]));
                        assert(sel.contains(ord[k]));
                        let m = choose|m: int| 0 <= m < sel.len() && sel[m] == ord[k];
                    }
                }
                let mut others: Vec<RoomData> = Vec::new();
                let mut j: usize = 0;
                while j < order.len()
                    invariant
                        cs == rooms_view(children@),
                        ord == order@,
                        forall|k: int| 0 <= k < ord.len() ==> ord[k] < cs.len(),
                        j <= ord.len(),
                        rooms_view(others@) == ord.take(j as int).map_values(|x: usize| cs[x as int]),
                    decreases ord.len() - j,
                {
                    let ghost before = rooms_view(others@);
                    others.push(children[order[j]].clone());
                    assert(rooms_view(others@) =~= before.push(cs[ord[j as int] as int]));
                    assert(ord.take(j + 1).map_values(|x: usize| cs[x as int]) =~= ord.take(j as int).map_values(
                        |x: usize| cs[x as int],
                    ).push(cs[ord[j as int] as int]));
                    j = j + 1;
                }
                assert(ord.take(ord.len() as int) =~= ord);
                self.other_rooms = others;
                assert(*self == (RoomListState { other_rooms: self.other_rooms, ..mid }));
                ChildrenFetched::Loaded(urls)
            },
        }
    }
}

} // verus!
