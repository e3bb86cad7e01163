//! The space hierarchy: which rooms and sub-spaces each space lists as its
//! children (with their order and suggested flag), the spaces known so far,
//! and the queries the room list makes of it (is a room in a space,
//! directly or through sub-spaces; all rooms below a space).
use vstd::prelude::*;
use crate::text::str_eq;

verus! {

/// How a space lists one child: its ordering key and whether it is suggested.
#[derive(Debug)]
pub struct ChildData {
    pub order: Option<String>,
    pub suggested: bool,
}

/// A child entry seen as values.
pub struct ChildDataView {
    pub order: Option<Seq<char>>,
    pub suggested: bool,
}

impl View for ChildData {
    type V = ChildDataView;

    open spec fn view(&self) -> ChildDataView {
        ChildDataView {
            order: match self.order {
                Some(o) => Some(o@),
                None => None,
            },
            suggested: self.suggested,
        }
    }
}

impl Clone for ChildData {
    fn clone(&self) -> (r: Self)
        ensures
            r@ == self@,
    {
        ChildData {
            order: match &self.order {
                Some(o) => Some(o.clone()),
                None => None,
            },
            suggested: self.suggested,
        }
    }
}

/// One parent-child edge: `space` lists `child`.
struct ChildLink {
    space: String,
    child: String,
    data: ChildData,
}

/// What a hierarchy holds: for each (space, child) pair that is linked, the
/// child's entry; and the set of known spaces.
pub struct HierarchyView {
    pub children: Map<(Seq<char>, Seq<char>), ChildDataView>,
    pub known_spaces: Set<Seq<char>>,
}

/// The spaces, their children and the relations between them.
pub struct SpaceHierarchy {
    links: Vec<ChildLink>,
    known_spaces: Vec<String>,
}

pub open spec fn strs_view(v: Seq<String>) -> Seq<Seq<char>> {
    v.map_values(|s: String| s@)
}

spec fn link_key(l: ChildLink) -> (Seq<char>, Seq<char>) {
    (l.space@, l.child@)
}

spec fn has_key(links: Seq<ChildLink>, k: (Seq<char>, Seq<char>)) -> bool {
    exists|i: int| 0 <= i < links.len() && link_key(#[trigger] links[i]) == k
}

spec fn key_index(links: Seq<ChildLink>, k: (Seq<char>, Seq<char>)) -> int {
    choose|i: int| 0 <= i < links.len() && link_key(#[trigger] links[i]) == k
}

spec fn keys_distinct(links: Seq<ChildLink>) -> bool {
    forall|i: int, j: int|
        0 <= i < links.len() && 0 <= j < links.len() && i != j ==> link_key(#[trigger] links[i])
            != link_key(#[trigger] links[j])
}

spec fn links_view(links: Seq<ChildLink>) -> Map<(Seq<char>, Seq<char>), ChildDataView> {
    Map::new(|k: (Seq<char>, Seq<char>)| has_key(links, k), |k: (Seq<char>, Seq<char>)| links[key_index(links, k)].data@)
}

proof fn lemma_links_view_at(links: Seq<ChildLink>, i: int)
    requires
        keys_distinct(links),
        0 <= i < links.len(),
    ensures
        links_view(links).dom().contains(link_key(links[i])),
        links_view(links)[link_key(links[i])] == links[i].data@,
{
    let k = link_key(links[i]);
    assert(has_key(links, k));
    let j = key_index(links, k);
    assert(link_key(links[j]) == k);
}

proof fn lemma_links_push(links: Seq<ChildLink>, x: ChildLink)
    requires
        keys_distinct(links),
        !has_key(links, link_key(x)),
    ensures
        keys_distinct(links.push(x)),
        links_view(links.push(x)) == links_view(links).insert(link_key(x), x.data@),
{
    let n = links.push(x);
    assert forall|i: int, j: int|
        0 <= i < n.len() && 0 <= j < n.len() && i != j implies link_key(#[trigger] n[i]) != link_key(
        #[trigger] n[j]) by {
        if i == links.len() {
            assert(link_key(links[j]) != link_key(x));
        } else if j == links.len() {
            assert(link_key(links[i]) != link_key(x));
        }
    }
    let lhs = links_view(n);
    let rhs = links_view(links).insert(link_key(x), x.data@);
    assert forall|k: (Seq<char>, Seq<char>)| lhs.dom().contains(k) == rhs.dom().contains(k) by {
        if has_key(n, k) {
            let i = choose|i: int| 0 <= i < n.len() && link_key(#[trigger] n[i]) == k;
            if i < links.len() {
                assert(links[i] == n[i]);
            }
        }
        if has_key(links, k) {
            let i = choose|i: int| 0 <= i < links.len() && link_key(#[trigger] links[i]) == k;
            assert(n[i] == links[i]);
        }
        if k == link_key(x) {
            assert(n[links.len() as int] == x);
        }
    }
    assert forall|k: (Seq<char>, Seq<char>)| lhs.dom().contains(k) implies lhs[k] == rhs[k] by {
        let i = choose|i: int| 0 <= i < n.len() && link_key(#[trigger] n[i]) == k;
        lemma_links_view_at(n, i);
        if i < links.len() {
            assert(n[i] == links[i]);
            lemma_links_view_at(links, i);
        } else {
            assert(n[i] == x);
        }
    }
    assert(lhs =~= rhs);
}

proof fn lemma_links_update(links: Seq<ChildLink>, i: int, x: ChildLink)
    requires
        keys_distinct(links),
        0 <= i < links.len(),
        link_key(links[i]) == link_key(x),
    ensures
        keys_distinct(links.update(i, x)),
        links_view(links.update(i, x)) == links_view(links).insert(link_key(x), x.data@),
{
    let n = links.update(i, x);
    assert forall|a: int, b: int|
        0 <= a < n.len() && 0 <= b < n.len() && a != b implies link_key(#[trigger] n[a]) != link_key(
        #[trigger] n[b]) by {
        assert(link_key(n[a]) == link_key(links[a]));
        assert(link_key(n[b]) == link_key(links[b]));
    }
    let lhs = links_view(n);
    let rhs = links_view(links).insert(link_key(x), x.data@);
    assert forall|k: (Seq<char>, Seq<char>)| lhs.dom().contains(k) == rhs.dom().contains(k) by {
        if has_key(n, k) {
            let j = choose|j: int| 0 <= j < n.len() && link_key(#[trigger] n[j]) == k;
            assert(link_key(links[j]) == k);
        }
        if has_key(links, k) {
            let j = choose|j: int| 0 <= j < links.len() && link_key(#[trigger] links[j]) == k;
            assert(link_key(n[j]) == k);
        }
        if k == link_key(x) {
            assert(link_key(n[i]) == k);
        }
    }
    assert forall|k: (Seq<char>, Seq<char>)| lhs.dom().contains(k) implies lhs[k] == rhs[k] by {
        let j = choose|j: int| 0 <= j < n.len() && link_key(#[trigger] n[j]) == k;
        lemma_links_view_at(n, j);
        if j != i {
            assert(n[j] == links[j]);
            lemma_links_view_at(links, j);
        }
    }
    assert(lhs =~= rhs);
}

proof fn lemma_links_remove(links: Seq<ChildLink>, i: int)
    requires
        keys_distinct(links),
        0 <= i < links.len(),
    ensures
        keys_distinct(links.remove(i)),
        links_view(links.remove(i)) == links_view(links).remove(link_key(links[i])),
{
    let n = links.remove(i);
    assert forall|a: int, b: int|
        0 <= a < n.len() && 0 <= b < n.len() && a != b implies link_key(#[trigger] n[a]) != link_key(
        #[trigger] n[b]) by {
        let a2 = if a < i { a } else { a + 1 };
        let b2 = if b < i { b } else { b + 1 };
        assert(n[a] == links[a2]);
        assert(n[b] == links[b2]);
    }
    let lhs = links_view(n);
    let rhs = links_view(links).remove(link_key(links[i]));
    assert forall|k: (Seq<char>, Seq<char>)| lhs.dom().contains(k) == rhs.dom().contains(k) by {
        if has_key(n, k) {
            let j = choose|j: int| 0 <= j < n.len() && link_key(#[trigger] n[j]) == k;
            let j2 = if j < i { j } else { j + 1 };
            assert(n[j] == links[j2]);
            assert(link_key(links[j2]) != link_key(links[i]));
        }
        if has_key(links, k) && k != link_key(links[i]) {
            let j = choose|j: int| 0 <= j < links.len() && link_key(#[trigger] links[j]) == k;
            let j2 = if j < i { j } else { j - 1 };
            assert(n[j2] == links[j]);
        }
    }
    assert forall|k: (Seq<char>, Seq<char>)| lhs.dom().contains(k) implies lhs[k] == rhs[k] by {
        let j = choose|j: int| 0 <= j < n.len() && link_key(#[trigger] n[j]) == k;
        lemma_links_view_at(n, j);
        let j2 = if j < i { j } else { j + 1 };
        assert(n[j] == links[j2]);
        lemma_links_view_at(links, j2);
    }
    assert(lhs =~= rhs);
}

impl View for SpaceHierarchy {
    type V = HierarchyView;

    closed spec fn view(&self) -> HierarchyView {
        HierarchyView {
            children: links_view(self.links@),
            known_spaces: strs_view(self.known_spaces@).to_set(),
        }
    }
}

/// `a` lists `b` as a child.
pub open spec fn child_edge(h: HierarchyView, a: Seq<char>, b: Seq<char>) -> bool {
    h.children.dom().contains((a, b))
}

/// One step along the hierarchy: down from a space to a child, or (with
/// `down` false) up from a room to a space that lists it.
pub open spec fn step(h: HierarchyView, a: Seq<char>, b: Seq<char>, down: bool) -> bool {
    if down {
        child_edge(h, a, b)
    } else {
        child_edge(h, b, a)
    }
}

/// `p` is a walk in the hierarchy, each element one step from the one before.
pub open spec fn is_walk(h: HierarchyView, p: Seq<Seq<char>>, down: bool) -> bool {
    &&& p.len() >= 1
    &&& forall|i: int| 0 <= i < p.len() - 1 ==> step(h, #[trigger] p[i], p[i + 1], down)
}

/// `b` can be reached from `a` in zero or more steps.
pub open spec fn reaches(h: HierarchyView, a: Seq<char>, b: Seq<char>, down: bool) -> bool {
    exists|p: Seq<Seq<char>>| #[trigger] is_walk(h, p, down) && p[0] == a && p.last() == b
}

/// Extending a walk by one step.
pub proof fn lemma_reaches_step(h: HierarchyView, a: Seq<char>, b: Seq<char>, c: Seq<char>, down: bool)
    requires
        reaches(h, a, b, down),
        step(h, b, c, down),
    ensures
        reaches(h, a, c, down),
{
    let p = choose|p: Seq<Seq<char>>| #[trigger] is_walk(h, p, down) && p[0] == a && p.last() == b;
    let q = p.push(c);
    assert forall|i: int| 0 <= i < q.len() - 1 implies step(h, #[trigger] q[i], q[i + 1], down) by {
        if i < p.len() - 1 {
            assert(q[i] == p[i] && q[i + 1] == p[i + 1]);
        } else {
            assert(q[i] == b && q[i + 1] == c);
        }
    }
    assert(is_walk(h, q, down) && q[0] == a && q.last() == c);
}

/// Every room reaches itself.
pub proof fn lemma_reaches_refl(h: HierarchyView, a: Seq<char>, down: bool)
    ensures
        reaches(h, a, a, down),
{
    let p = seq![a];
    assert(is_walk(h, p, down) && p[0] == a && p.last() == a);
}

/// A walk that starts in a set closed under steps stays in it.
proof fn lemma_closed_walk(h: HierarchyView, v: Seq<Seq<char>>, p: Seq<Seq<char>>, down: bool)
    requires
        is_walk(h, p, down),
        v.contains(p[0]),
        forall|x: Seq<char>, y: Seq<char>| v.contains(x) && #[trigger] step(h, x, y, down) ==> v.contains(y),
    ensures
        v.contains(p.last()),
    decreases p.len(),
{
    if p.len() > 1 {
        let q = p.drop_last();
        assert forall|i: int| 0 <= i < q.len() - 1 implies step(h, #[trigger] q[i], q[i + 1], down) by {
            assert(q[i] == p[i] && q[i + 1] == p[i + 1]);
        }
        lemma_closed_walk(h, v, q, down);
        assert(step(h, p[p.len() - 2], p[p.len() - 1], down));
    }
}

/// Joining two walks end to start.
pub proof fn lemma_reaches_trans(h: HierarchyView, a: Seq<char>, b: Seq<char>, c: Seq<char>, down: bool)
    requires
        reaches(h, a, b, down),
        reaches(h, b, c, down),
    ensures
        reaches(h, a, c, down),
{
    let p = choose|p: Seq<Seq<char>>| #[trigger] is_walk(h, p, down) && p[0] == a && p.last() == b;
    let q = choose|q: Seq<Seq<char>>| #[trigger] is_walk(h, q, down) && q[0] == b && q.last() == c;
    let r = p + q.skip(1);
    assert forall|i: int| 0 <= i < r.len() - 1 implies step(h, #[trigger] r[i], r[i + 1], down) by {
        if i < p.len() - 1 {
            assert(r[i] == p[i] && r[i + 1] == p[i + 1]);
        } else {
            let j = i - (p.len() - 1);
            assert(r[i] == q[j]) by {
                if i == p.len() - 1 {
                    assert(r[i] == p.last());
                } else {
                    assert(r[i] == q.skip(1)[i - p.len()]);
                }
            }
            assert(r[i + 1] == q.skip(1)[i + 1 - p.len()]);
            assert(r[i + 1] == q[j + 1]);
        }
    }
    if q.len() == 1 {
        assert(r =~= p);
    } else {
        assert(r.last() == q.skip(1).last());
    }
    assert(is_walk(h, r, down) && r[0] == a && r.last() == c);
}

/// Being in a space carries over: a room in a space that is itself in
/// another space is in that other space too.
pub proof fn law_in_space_transitive(h: HierarchyView, room: Seq<char>, inner: Seq<char>, outer: Seq<char>)
    requires
        reaches(h, room, inner, false),
        reaches(h, inner, outer, false),
    ensures
        reaches(h, room, outer, false),
{
    lemma_reaches_trans(h, room, inner, outer, false);
}

/// A room that a space lists is in that space, and among its descendants.
pub proof fn law_listed_child_in_space(h: HierarchyView, space: Seq<char>, child: Seq<char>)
    requires
        child_edge(h, space, child),
    ensures
        reaches(h, child, space, false),
        reaches(h, space, child, true),
{
    lemma_reaches_refl(h, child, false);
    lemma_reaches_step(h, child, child, space, false);
    lemma_reaches_reverse(h, child, space, false);
}

/// Removing a child that was just added takes the hierarchy's entries back
/// to what they were, when the space did not list that child before.
pub proof fn law_add_then_remove_child(
    children: Map<(Seq<char>, Seq<char>), ChildDataView>,
    space: Seq<char>,
    child: Seq<char>,
    data: ChildDataView,
)
    requires
        !children.dom().contains((space, child)),
    ensures
        children.insert((space, child), data).remove((space, child)) == children,
{
    assert(children.insert((space, child), data).remove((space, child)) =~= children);
}

/// Going up from `a` reaches `b` exactly when going down from `b` reaches `a`.
pub proof fn lemma_reaches_reverse(h: HierarchyView, a: Seq<char>, b: Seq<char>, down: bool)
    ensures
        reaches(h, a, b, down) == reaches(h, b, a, !down),
{
    if reaches(h, a, b, down) {
        let p = choose|p: Seq<Seq<char>>| #[trigger] is_walk(h, p, down) && p[0] == a && p.last() == b;
        let q = p.reverse();
        assert forall|i: int| 0 <= i < q.len() - 1 implies step(h, #[trigger] q[i], q[i + 1], !down) by {
            let j = p.len() - 2 - i;
            assert(step(h, p[j], p[j + 1], down));
            assert(q[i] == p[j + 1] && q[i + 1] == p[j]);
        }
        assert(is_walk(h, q, !down) && q[0] == b && q.last() == a);
    }
    let up = !down;
    if reaches(h, b, a, up) {
        let p = choose|p: Seq<Seq<char>>| #[trigger] is_walk(h, p, up) && p[0] == b && p.last() == a;
        let q = p.reverse();
        assert forall|i: int| 0 <= i < q.len() - 1 implies step(h, #[trigger] q[i], q[i + 1], down) by {
            let j = p.len() - 2 - i;
            assert(step(h, p[j], p[j + 1], up));
            assert(q[i] == p[j + 1] && q[i + 1] == p[j]);
        }
        assert(is_walk(h, q, down) && q[0] == a && q.last() == b);
    }
}

/// Whether `v` holds a string equal to `s`.
pub fn contains_string(v: &Vec<String>, s: &String) -> (r: bool)
    ensures
        r == strs_view(v@).contains(s@),
{
    let mut i: usize = 0;
    while i < v.len()
        invariant
            i <= v@.len(),
            forall|k: int| 0 <= k < i ==> v@[k]@ != s@,
        decreases v@.len() - i,
    {
        if v[i] == *s {
            assert(strs_view(v@)[i as int] == s@);
            return true;
        }
        i = i + 1;
    }
    false
}

spec fn endpoints(links: Seq<ChildLink>, start: Seq<char>) -> Seq<Seq<char>> {
    Seq::new(links.len(), |i: int| links[i].space@) + Seq::new(links.len(), |i: int| links[i].child@)
        + seq![start]
}

impl SpaceHierarchy {
    /// The representation's invariant: each (space, child) pair is linked at
    /// most once, and each known space is listed once.
    pub closed spec fn wf(&self) -> bool {
        &&& keys_distinct(self.links@)
        &&& strs_view(self.known_spaces@).no_duplicates()
    }

    /// An empty hierarchy.
    pub fn new() -> (h: Self)
        ensures
            h.wf(),
            h@.children == Map::<(Seq<char>, Seq<char>), ChildDataView>::empty(),
            h@.known_spaces == Set::<Seq<char>>::empty(),
    {
        let h = SpaceHierarchy { links: Vec::new(), known_spaces: Vec::new() };
        assert(h@.children =~= Map::<(Seq<char>, Seq<char>), ChildDataView>::empty());
        assert(h@.known_spaces =~= Set::<Seq<char>>::empty());
        h
    }

    fn known_index(&self, id: &str) -> (r: Option<usize>)
        ensures
            r matches Some(i) ==> i < self.known_spaces@.len() && self.known_spaces@[i as int]@
                == id@,
            r is None ==> !strs_view(self.known_spaces@).contains(id@),
    {
        let mut i: usize = 0;
        while i < self.known_spaces.len()
            invariant
                i <= self.known_spaces@.len(),
                forall|k: int| 0 <= k < i ==> self.known_spaces@[k]@ != id@,
            decreases self.known_spaces@.len() - i,
        {
            if str_eq(self.known_spaces[i].as_str(), id) {
                return Some(i);
            }
            i = i + 1;
        }
        None
    }

    /// Records `space_id` as a known space.
    pub fn add_space(&mut self, space_id: String)
        requires
            old(self).wf(),
        ensures
            final(self).wf(),
            final(self)@.children == old(self)@.children,
            final(self)@.known_spaces == old(self)@.known_spaces.insert(space_id@),
    {
        match self.known_index(space_id.as_str()) {
            Some(i) => {
                assert(strs_view(self.known_spaces@)[i as int] == space_id@);
                assert(self@.known_spaces =~= self@.known_spaces.insert(space_id@));
            },
            None => {
                let ghost old_ks = strs_view(self.known_spaces@);
                self.known_spaces.push(space_id);
                assert(strs_view(self.known_spaces@) =~= old_ks.push(space_id@));
                proof { old_ks.lemma_push_to_set_commute(space_id@); }
            },
        }
    }

    /// Whether `room_id` is a known space.
    pub fn is_known_space(&self, room_id: &str) -> (r: bool)
        ensures
            r == self@.known_spaces.contains(room_id@),
    {
        match self.known_index(room_id) {
            Some(i) => {
                assert(strs_view(self.known_spaces@)[i as int] == room_id@);
                true
            },
            None => false,
        }
    }

    fn link_index(&self, space_id: &str, child_id: &str) -> (r: Option<usize>)
        requires
            self.wf(),
        ensures
            r matches Some(i) ==> i < self.links@.len() && link_key(self.links@[i as int]) == (
                space_id@,
                child_id@,
            ),
            r is None ==> !has_key(self.links@, (space_id@, child_id@)),
    {
        let mut i: usize = 0;
        while i < self.links.len()
            invariant
                i <= self.links@.len(),
                forall|k: int| 0 <= k < i ==> link_key(#[trigger] self.links@[k]) != (space_id@, child_id@),
            decreases self.links@.len() - i,
        {
            if str_eq(self.links[i].space.as_str(), space_id) && str_eq(self.links[i].child.as_str(), child_id) {
                return Some(i);
            }
            i = i + 1;
        }
        None
    }

    /// Records that `space_id` lists `child_id` with the given order and
    /// suggested flag (replacing an earlier entry for the pair), and that
    /// `space_id` is a space.
    pub fn add_child(
        &mut self,
        space_id: String,
        child_id: String,
        order: Option<String>,
        suggested: bool,
    )
        requires
            old(self).wf(),
        ensures
            final(self).wf(),
            final(self)@.children == old(self)@.children.insert(
                (space_id@, child_id@),
                ChildDataView {
                    order: match order {
                        Some(o) => Some(o@),
                        None => None,
                    },
                    suggested,
                },
            ),
            final(self)@.known_spaces == old(self)@.known_spaces.insert(space_id@),
    {
        self.add_space(space_id.clone());
        let data = ChildData { order, suggested };
        match self.link_index(space_id.as_str(), child_id.as_str()) {
            Some(i) => {
                let link = ChildLink { space: space_id, child: child_id, data };
                proof {
                    lemma_links_update(self.links@, i as int, link);
                }
                self.links.set(i, link);
            },
            None => {
                let link = ChildLink { space: space_id, child: child_id, data };
                proof {
                    lemma_links_push(self.links@, link);
                }
                self.links.push(link);
            },
        }
    }

    /// Records that `space_id` lists `child_id`, keeping an existing entry for
    /// the pair as it is (a new one has no order and is not suggested), and
    /// that `space_id` is a space.
    pub fn add_relationship(&mut self, space_id: String, child_id: String)
        requires
            old(self).wf(),
        ensures
            final(self).wf(),
            final(self)@.children == if old(self)@.children.dom().contains((space_id@, child_id@)) {
                old(self)@.children
            } else {
                old(self)@.children.insert(
                    (space_id@, child_id@),
                    ChildDataView { order: None, suggested: false },
                )
            },
            final(self)@.known_spaces == old(self)@.known_spaces.insert(space_id@),
    {
        self.add_space(space_id.clone());
        match self.link_index(space_id.as_str(), child_id.as_str()) {
            Some(i) => {
                proof {
                    lemma_links_view_at(self.links@, i as int);
                }
            },
            None => {
                let link = ChildLink {
                    space: space_id,
                    child: child_id,
                    data: ChildData { order: None, suggested: false },
                };
                proof {
                    lemma_links_push(self.links@, link);
                }
                self.links.push(link);
            },
        }
    }

    /// Forgets that `space_id` lists `child_id`.
    pub fn remove_child(&mut self, space_id: &str, child_id: &str)
        requires
            old(self).wf(),
        ensures
            final(self).wf(),
            final(self)@.children == old(self)@.children.remove((space_id@, child_id@)),
            final(self)@.known_spaces == old(self)@.known_spaces,
    {
        match self.link_index(space_id, child_id) {
            Some(i) => {
                proof {
                    lemma_links_remove(self.links@, i as int);
                }
                self.links.remove(i);
            },
            None => {
                assert(self@.children =~= self@.children.remove((space_id@, child_id@)));
            },
        }
    }

    /// Every room reachable from `start` (itself included), each once; down
    /// through children or, with `down` false, up through parent spaces.
    fn reachable(&self, start: &str, down: bool) -> (r: Vec<String>)
        requires
            self.wf(),
        ensures
            strs_view(r@).no_duplicates(),
            forall|x: Seq<char>| strs_view(r@).contains(x) <==> reaches(self@, start@, x, down),
    {
        let ghost h = self@;
        let ghost cand = endpoints(self.links@, start@).to_set();
        let mut visited: Vec<String> = Vec::new();
        let mut stack: Vec<String> = Vec::new();
        stack.push(start.to_owned());
        proof {
            lemma_reaches_refl(h, start@, down);
            assert(endpoints(self.links@, start@)[2 * self.links@.len() as int] == start@);
            assert(endpoints(self.links@, start@).contains(start@));
            assert(strs_view(stack@) =~= seq![start@]);
            assert(strs_view(stack@)[0] == start@);
            assert(strs_view(visited@) =~= Seq::<Seq<char>>::empty());
        }
        while stack.len() > 0
            invariant
                self.wf(),
                h == self@,
                cand == endpoints(self.links@, start@).to_set(),
                strs_view(visited@).no_duplicates(),
                forall|x: Seq<char>| strs_view(visited@).contains(x) ==> cand.contains(x),
                forall|x: Seq<char>| strs_view(stack@).contains(x) ==> cand.contains(x),
                forall|x: Seq<char>| strs_view(visited@).contains(x) ==> reaches(h, start@, x, down),
                forall|x: Seq<char>| #[trigger] strs_view(stack@).contains(x) ==> reaches(h, start@, x, down),
                strs_view(visited@).contains(start@) || strs_view(stack@).contains(start@),
                forall|x: Seq<char>, y: Seq<char>|
                    strs_view(visited@).contains(x) && #[trigger] step(h, x, y, down)
                        ==> strs_view(visited@).contains(y) || strs_view(stack@).contains(y),
            decreases cand.len() - visited@.len(), stack@.len(),
        {
            proof {
                endpoints(self.links@, start@).lemma_cardinality_of_set();
                vstd::seq_lib::seq_to_set_is_finite(endpoints(self.links@, start@));
                strs_view(visited@).unique_seq_to_set();
                assert(strs_view(visited@).to_set().subset_of(cand));
                vstd::set_lib::lemma_len_subset(strs_view(visited@).to_set(), cand);
                assert(visited@.len() <= cand.len());
            }
            let ghost old_visited = strs_view(visited@);
            let ghost old_stack = strs_view(stack@);
            let cur = stack.pop().unwrap();
            proof {
                assert(old_stack == strs_view(stack@).push(cur@));
                assert(old_stack[old_stack.len() - 1] == cur@);
                assert(old_stack.contains(cur@));
            }
            if !contains_string(&visited, &cur) {
                let ghost popped = strs_view(stack@);
                proof {
                    assert forall|x: Seq<char>| popped.contains(x) implies old_stack.contains(x) by {
                        let j = choose|j: int| 0 <= j < popped.len() && popped[j] == x;
                        assert(old_stack[j] == x);
                    }
                }
                let mut i: usize = 0;
                while i < self.links.len()
                    invariant
                        self.wf(),
                        h == self@,
                        cand == endpoints(self.links@, start@).to_set(),
                        i <= self.links@.len(),
                        reaches(h, start@, cur@, down),
                        cand.contains(cur@),
                        strs_view(stack@).len() >= popped.len(),
                        strs_view(stack@).subrange(0, popped.len() as int) == popped,
                        forall|x: Seq<char>| strs_view(stack@).contains(x) ==> cand.contains(x),
                        forall|x: Seq<char>| #[trigger] strs_view(stack@).contains(x) ==> reaches(h, start@, x, down),
                        forall|k: int| 0 <= k < i ==> {
                            &&& (down && (#[trigger] self.links@[k]).space@ == cur@ ==> strs_view(stack@).contains(self.links@[k].child@))
                            &&& (!down && self.links@[k].child@ == cur@ ==> strs_view(stack@).contains(self.links@[k].space@))
                        },
                    decreases self.links@.len() - i,
                {
                    let ghost before = strs_view(stack@);
                    if down && self.links[i].space == cur {
                        let c = self.links[i].child.clone();
                        proof {
                            lemma_links_view_at(self.links@, i as int);
                            lemma_reaches_step(h, start@, cur@, c@, down);
                            assert(endpoints(self.links@, start@)[self.links@.len() + i] == c@);
                            assert(endpoints(self.links@, start@).contains(c@));
                        }
                        stack.push(c);
                        proof {
                            assert(strs_view(stack@) =~= before.push(c@));
                            assert(strs_view(stack@)[before.len() as int] == c@);
                            assert(reaches(h, start@, c@, down));
                            assert(cand.contains(c@));
                            assert forall|x: Seq<char>| #[trigger] strs_view(stack@).contains(x) implies reaches(h, start@, x, down) by {
                                if x != c@ {
                                    let j = choose|j: int| 0 <= j < strs_view(stack@).len() && strs_view(stack@)[j] == x;
                                    assert(before[j] == x);
                                    assert(before.contains(x));
                                }
                            }
                            assert forall|x: Seq<char>| strs_view(stack@).contains(x) implies cand.contains(x) by {
                                if x != c@ {
                                    let j = choose|j: int| 0 <= j < strs_view(stack@).len() && strs_view(stack@)[j] == x;
                                    assert(before[j] == x);
                                    assert(before.contains(x));
                                }
                            }
                        }
                    } else if !down && self.links[i].child == cur {
                        let p = self.links[i].space.clone();
                        proof {
                            lemma_links_view_at(self.links@, i as int);
                            lemma_reaches_step(h, start@, cur@, p@, down);
                            assert(endpoints(self.links@, start@)[i as int] == p@);
                            assert(endpoints(self.links@, start@).contains(p@));
                        }
                        stack.push(p);
                        proof {
                            assert(strs_view(stack@) =~= before.push(p@));
                            assert(strs_view(stack@)[before.len() as int] == p@);
                            assert(reaches(h, start@, p@, down));
                            assert(cand.contains(p@));
                            assert forall|x: Seq<char>| #[trigger] strs_view(stack@).contains(x) implies reaches(h, start@, x, down) by {
                                if x != p@ {
                                    let j = choose|j: int| 0 <= j < strs_view(stack@).len() && strs_view(stack@)[j] == x;
                                    assert(before[j] == x);
                                    assert(before.contains(x));
                                }
                            }
                            assert forall|x: Seq<char>| strs_view(stack@).contains(x) implies cand.contains(x) by {
                                if x != p@ {
                                    let j = choose|j: int| 0 <= j < strs_view(stack@).len() && strs_view(stack@)[j] == x;
                                    assert(before[j] == x);
                                    assert(before.contains(x));
                                }
                            }
                        }
                    }
                    proof {
                        assert forall|x: Seq<char>| before.contains(x) implies strs_view(stack@).contains(x) by {
                            let j = choose|j: int| 0 <= j < before.len() && before[j] == x;
                            assert(strs_view(stack@)[j] == x);
                        }
                        assert(strs_view(stack@).subrange(0, popped.len() as int) =~= popped);
                        assert forall|k: int| 0 <= k < i + 1 implies {
                            &&& (down && (#[trigger] self.links@[k]).space@ == cur@ ==> strs_view(stack@).contains(self.links@[k].child@))
                            &&& (!down && self.links@[k].child@ == cur@ ==> strs_view(stack@).contains(self.links@[k].space@))
                        } by {
                            if k < i {
                                if down && self.links@[k].space@ == cur@ {
                                    assert(before.contains(self.links@[k].child@));
                                }
                                if !down && self.links@[k].child@ == cur@ {
                                    assert(before.contains(self.links@[k].space@));
                                }
                            }
                        }
                    }
                    i = i + 1;
                }
                let ghost pushed = strs_view(stack@);
                visited.push(cur);
                proof {
                    assert(strs_view(visited@) =~= old_visited.push(cur@));
                    assert(strs_view(visited@)[old_visited.len() as int] == cur@);
                    assert forall|x: Seq<char>| old_visited.contains(x) implies strs_view(visited@).contains(x) by {
                        let j = choose|j: int| 0 <= j < old_visited.len() && old_visited[j] == x;
                        assert(strs_view(visited@)[j] == x);
                    }
                    assert forall|x: Seq<char>, y: Seq<char>|
                        strs_view(visited@).contains(x) && #[trigger] step(h, x, y, down)
                            implies strs_view(visited@).contains(y) || strs_view(stack@).contains(y) by {
                        if x == cur@ {
                            if down {
                                assert(has_key(self.links@, (x, y)));
                                let k = choose|k: int| 0 <= k < self.links@.len() && link_key(#[trigger] self.links@[k]) == (x, y);
                                assert(self.links@[k].space@ == cur@);
                            } else {
                                assert(has_key(self.links@, (y, x)));
                                let k = choose|k: int| 0 <= k < self.links@.len() && link_key(#[trigger] self.links@[k]) == (y, x);
                                assert(self.links@[k].child@ == cur@);
                            }
                        } else {
                            assert(old_visited.contains(x));
                            if old_stack.contains(y) && !old_visited.contains(y) {
                                let j = choose|j: int| 0 <= j < old_stack.len() && old_stack[j] == y;
                                if j < popped.len() {
                                    assert(popped[j] == y);
                                    assert(strs_view(stack@)[j] == y);
                                }
                            }
                        }
                    }
                    assert forall|x: Seq<char>| strs_view(visited@).contains(x) implies cand.contains(x) by {
                        if x != cur@ {
                            assert(old_visited.contains(x));
                        }
                    }
                    assert forall|x: Seq<char>| strs_view(visited@).contains(x) implies reaches(h, start@, x, down) by {
                        if x != cur@ {
                            assert(old_visited.contains(x));
                        }
                    }
                    if !old_visited.contains(start@) && old_stack.contains(start@) && start@ != cur@ {
                        let j = choose|j: int| 0 <= j < old_stack.len() && old_stack[j] == start@;
                        assert(popped[j] == start@);
                        assert(strs_view(stack@)[j] == start@);
                    }
                    assert(strs_view(visited@).no_duplicates());
                    strs_view(visited@).unique_seq_to_set();
                    vstd::seq_lib::seq_to_set_is_finite(endpoints(self.links@, start@));
                    assert(strs_view(visited@).to_set().subset_of(cand));
                    vstd::set_lib::lemma_len_subset(strs_view(visited@).to_set(), cand);
                }
            } else {
                proof {
                    assert forall|x: Seq<char>| strs_view(stack@).contains(x) implies old_stack.contains(x) by {
                        let j = choose|j: int| 0 <= j < strs_view(stack@).len() && strs_view(stack@)[j] == x;
                        assert(old_stack[j] == x);
                    }
                    assert forall|x: Seq<char>| #[trigger] strs_view(stack@).contains(x) implies reaches(h, start@, x, down) by {
                        assert(old_stack.contains(x));
                    }
                    assert forall|x: Seq<char>, y: Seq<char>|
                        strs_view(visited@).contains(x) && #[trigger] step(h, x, y, down)
                            implies strs_view(visited@).contains(y) || strs_view(stack@).contains(y) by {
                        if old_stack.contains(y) && !old_visited.contains(y) {
                            let j = choose|j: int| 0 <= j < old_stack.len() && old_stack[j] == y;
                            assert(strs_view(stack@)[j] == y);
                        }
                    }
                    if !old_visited.contains(start@) {
                        let j = choose|j: int| 0 <= j < old_stack.len() && old_stack[j] == start@;
                        assert(strs_view(stack@)[j] == start@);
                    }
                }
            }
        }
        proof {
            assert forall|x: Seq<char>| reaches(h, start@, x, down) implies strs_view(visited@).contains(x) by {
                let p = choose|p: Seq<Seq<char>>| #[trigger] is_walk(h, p, down) && p[0] == start@ && p.last() == x;
                lemma_closed_walk(h, strs_view(visited@), p, down);
            }
        }
        visited
    }

    /// Whether `room_id` is in the space `space_id`: the space itself, or
    /// reached by going up through spaces that list it, any number of levels.
    pub fn is_in_space(&self, room_id: &str, space_id: &str) -> (r: bool)
        requires
            self.wf(),
        ensures
            r == reaches(self@, room_id@, space_id@, false),
    {
        let above = self.reachable(room_id, false);
        contains_string(&above, &space_id.to_owned())
    }

    /// The space `space_id` and every room and space below it, each once.
    pub fn get_descendants_strs(&self, space_id: &str) -> (r: Vec<String>)
        requires
            self.wf(),
        ensures
            strs_view(r@).no_duplicates(),
            forall|x: Seq<char>| strs_view(r@).contains(x) <==> reaches(self@, space_id@, x, true),
    {
        self.reachable(space_id, true)
    }

    /// A space that lists `child_id`, with the entry it lists it under, if
    /// any space does. When several do, any one of them may come back.
    pub fn first_parent(&self, child_id: &str) -> (r: Option<(String, ChildData)>)
        requires
            self.wf(),
        ensures
            r is None <==> !exists|p: Seq<char>| #[trigger] child_edge(self@, p, child_id@),
            r matches Some((p, d)) ==> child_edge(self@, p@, child_id@)
                && self@.children[(p@, child_id@)] == d@,
    {
        let mut i: usize = 0;
        while i < self.links.len()
            invariant
                self.wf(),
                i <= self.links@.len(),
                forall|k: int| 0 <= k < i ==> self.links@[k].child@ != child_id@,
            decreases self.links@.len() - i,
        {
            if str_eq(self.links[i].child.as_str(), child_id) {
                proof { lemma_links_view_at(self.links@, i as int); }
                let p = self.links[i].space.clone();
                let d = self.links[i].data.clone();
                assert(child_edge(self@, p@, child_id@));
                return Some((p, d));
            }
            i = i + 1;
        }
        proof {
            assert forall|p: Seq<char>| !#[trigger] child_edge(self@, p, child_id@) by {
                if child_edge(self@, p, child_id@) {
                    let k = key_index(self.links@, (p, child_id@));
                    assert(link_key(self.links@[k]) == (p, child_id@));
                }
            }
        }
        None
    }
}

} // verus!
