//! The focusable set of a tab: the areas of its widgets, each under the
//! identity of its widget, in the order in which the widgets were declared.

use crate::geometry::{Pos, Rect};
use vstd::prelude::*;

verus! {

/// The model of a focusable set: identity and area, in declaration order.
pub type Areas = Seq<(Seq<char>, Rect)>;

/// Whether no identity occurs twice.
pub open spec fn distinct_ids(m: Areas) -> bool {
    forall|i: int, j: int| 0 <= i < j < m.len() ==> (#[trigger] m[i]).0 != (#[trigger] m[j]).0
}

/// Whether `i` is the first entry under the identity `id`.
pub open spec fn is_first_with_id(m: Areas, id: Seq<char>, i: int) -> bool {
    &&& 0 <= i < m.len()
    &&& m[i].0 == id
    &&& forall|j: int| 0 <= j < i ==> (#[trigger] m[j]).0 != id
}

/// The first entry under the identity `id`, if there is one.
pub open spec fn spec_position(m: Areas, id: Seq<char>) -> Option<int> {
    if exists|i: int| is_first_with_id(m, id, i) {
        Some(choose|i: int| is_first_with_id(m, id, i))
    } else {
        None
    }
}

/// The area under the identity `id`, if there is one.
pub open spec fn spec_get(m: Areas, id: Seq<char>) -> Option<Rect> {
    match spec_position(m, id) {
        Some(i) => Some(m[i].1),
        None => None,
    }
}

/// The set after `id` was given the area `rect`: an identity that is
/// already there keeps its place and takes the new area, a new one goes to
/// the end.
pub open spec fn spec_insert(m: Areas, id: Seq<char>, rect: Rect) -> Areas {
    match spec_position(m, id) {
        Some(i) => m.update(i, (id, rect)),
        None => m.push((id, rect)),
    }
}

/// The set built from a list of declarations, taken in order.
pub open spec fn spec_rebuild(list: Areas) -> Areas
    decreases list.len(),
{
    if list.len() == 0 {
        Seq::empty()
    } else {
        spec_insert(spec_rebuild(list.drop_last()), list.last().0, list.last().1)
    }
}

/// Whether `i` is the first entry whose area contains `p`.
pub open spec fn is_first_containing(m: Areas, p: Pos, i: int) -> bool {
    &&& 0 <= i < m.len()
    &&& m[i].1.spec_contains(p)
    &&& forall|j: int| 0 <= j < i ==> !(#[trigger] m[j]).1.spec_contains(p)
}

/// Whether some area of the set contains `p`.
pub open spec fn spec_covers(m: Areas, p: Pos) -> bool {
    exists|i: int| 0 <= i < m.len() && (#[trigger] m[i]).1.spec_contains(p)
}

/// The first entry whose area contains `p`, if there is one.
pub open spec fn spec_first_containing(m: Areas, p: Pos) -> Option<int> {
    if exists|i: int| is_first_containing(m, p, i) {
        Some(choose|i: int| is_first_containing(m, p, i))
    } else {
        None
    }
}

/// The view of a list of declarations.
pub open spec fn list_view(list: Seq<(String, Rect)>) -> Areas {
    list.map_values(|e: (String, Rect)| (e.0@, e.1))
}

/// At most one entry is the first under an identity.
pub proof fn lemma_first_with_id_unique(m: Areas, id: Seq<char>, i: int, j: int)
    requires
        is_first_with_id(m, id, i),
        is_first_with_id(m, id, j),
    ensures
        i == j,
{
    if i < j {
        assert(m[i].0 != id);
    } else if j < i {
        assert(m[j].0 != id);
    }
}

/// At most one entry is the first to contain a point.
pub proof fn lemma_first_containing_unique(m: Areas, p: Pos, i: int, j: int)
    requires
        is_first_containing(m, p, i),
        is_first_containing(m, p, j),
    ensures
        i == j,
{
    if i < j {
        assert(!m[i].1.spec_contains(p));
    } else if j < i {
        assert(!m[j].1.spec_contains(p));
    }
}

/// The first entry under an identity is the position of that identity.
pub proof fn lemma_position_is(m: Areas, id: Seq<char>, i: int)
    requires
        is_first_with_id(m, id, i),
    ensures
        spec_position(m, id) == Some(i),
        spec_get(m, id) == Some(m[i].1),
{
    lemma_first_with_id_unique(m, id, i, choose|c: int| is_first_with_id(m, id, c));
}

/// The first entry to contain a point is the one that is found for it.
pub proof fn lemma_first_containing_is(m: Areas, p: Pos, i: int)
    requires
        is_first_containing(m, p, i),
    ensures
        spec_first_containing(m, p) == Some(i),
        spec_covers(m, p),
{
    lemma_first_containing_unique(m, p, i, choose|c: int| is_first_containing(m, p, c));
}

/// A point is covered exactly when some entry is the first to contain it.
pub proof fn lemma_covers_iff_first(m: Areas, p: Pos)
    ensures
        spec_covers(m, p) <==> spec_first_containing(m, p) is Some,
        spec_first_containing(m, p) matches Some(i) ==> is_first_containing(m, p, i),
    decreases m.len(),
{
    if spec_covers(m, p) {
        let k = choose|i: int| 0 <= i < m.len() && (#[trigger] m[i]).1.spec_contains(p);
        lemma_least_containing(m, p, k);
    }
    if spec_first_containing(m, p) is Some {
        let i = choose|i: int| is_first_containing(m, p, i);
        assert(m[i].1.spec_contains(p));
    }
}

/// Below any entry that contains `p` there is a first one.
proof fn lemma_least_containing(m: Areas, p: Pos, k: int)
    requires
        0 <= k < m.len(),
        m[k].1.spec_contains(p),
    ensures
        exists|i: int| is_first_containing(m, p, i),
    decreases k,
{
    if exists|j: int| 0 <= j < k && (#[trigger] m[j]).1.spec_contains(p) {
        let j = choose|j: int| 0 <= j < k && (#[trigger] m[j]).1.spec_contains(p);
        lemma_least_containing(m, p, j);
    } else {
        assert(is_first_containing(m, p, k));
    }
}

/// Giving an identity an area keeps the identities distinct.
pub proof fn lemma_insert_distinct(m: Areas, id: Seq<char>, rect: Rect)
    requires
        distinct_ids(m),
    ensures
        distinct_ids(spec_insert(m, id, rect)),
{
    let r = spec_insert(m, id, rect);
    match spec_position(m, id) {
        Some(i) => {
            assert(is_first_with_id(m, id, i));
            assert forall|a: int, b: int| 0 <= a < b < r.len() implies (#[trigger] r[a]).0 != (
            #[trigger] r[b]).0 by {
                assert(m[a].0 != m[b].0);
            }
        },
        None => {
            assert forall|a: int, b: int| 0 <= a < b < r.len() implies (#[trigger] r[a]).0 != (
            #[trigger] r[b]).0 by {
                if b < m.len() {
                    assert(m[a].0 != m[b].0);
                } else {
                    if m[a].0 == id {
                        lemma_least_with_id(m, id, a);
                    }
                }
            }
        },
    }
}

/// Below any entry under `id` there is a first one.
proof fn lemma_least_with_id(m: Areas, id: Seq<char>, k: int)
    requires
        0 <= k < m.len(),
        m[k].0 == id,
    ensures
        exists|i: int| is_first_with_id(m, id, i),
    decreases k,
{
    if exists|j: int| 0 <= j < k && (#[trigger] m[j]).0 == id {
        let j = choose|j: int| 0 <= j < k && (#[trigger] m[j]).0 == id;
        lemma_least_with_id(m, id, j);
    } else {
        assert(is_first_with_id(m, id, k));
    }
}

/// A set built from declarations holds no identity twice.
pub proof fn lemma_rebuild_distinct(list: Areas)
    ensures
        distinct_ids(spec_rebuild(list)),
    decreases list.len(),
{
    if list.len() > 0 {
        lemma_rebuild_distinct(list.drop_last());
        lemma_insert_distinct(spec_rebuild(list.drop_last()), list.last().0, list.last().1);
    }
}

/// Declarations under distinct identities are taken over as they stand.
pub proof fn lemma_rebuild_of_distinct(list: Areas)
    requires
        distinct_ids(list),
    ensures
        spec_rebuild(list) == list,
    decreases list.len(),
{
    if list.len() > 0 {
        let front = list.drop_last();
        assert forall|i: int, j: int| 0 <= i < j < front.len() implies (#[trigger] front[i]).0 != (
        #[trigger] front[j]).0 by {
            assert(list[i].0 != list[j].0);
        }
        lemma_rebuild_of_distinct(front);
        let id = list.last().0;
        if spec_position(front, id) is Some {
            let i = choose|i: int| is_first_with_id(front, id, i);
            assert(list[i].0 != list[list.len() - 1].0);
        }
        assert(front.push(list.last()) =~= list);
    }
}

/// After an identity was given an area, it has that area, and every other
/// identity has what it had.
pub proof fn lemma_get_after_insert(m: Areas, id: Seq<char>, rect: Rect, other: Seq<char>)
    ensures
        spec_get(spec_insert(m, id, rect), id) == Some(rect),
        other != id ==> spec_get(spec_insert(m, id, rect), other) == spec_get(m, other),
{
    let r = spec_insert(m, id, rect);
    match spec_position(m, id) {
        Some(i) => {
            assert(is_first_with_id(m, id, i));
            assert forall|j: int| 0 <= j < i implies (#[trigger] r[j]).0 != id by {
                assert(m[j].0 != id);
            }
            assert(is_first_with_id(r, id, i));
            let c = choose|c: int| is_first_with_id(r, id, c);
            lemma_first_with_id_unique(r, id, i, c);
        },
        None => {
            let n = m.len() as int;
            assert forall|j: int| 0 <= j < n implies (#[trigger] r[j]).0 != id by {
                if m[j].0 == id {
                    lemma_least_with_id(m, id, j);
                }
            }
            assert(is_first_with_id(r, id, n));
            let c = choose|c: int| is_first_with_id(r, id, c);
            lemma_first_with_id_unique(r, id, n, c);
        },
    }
    if other != id {
        assert forall|k: int| is_first_with_id(m, other, k) <==> is_first_with_id(
            r,
            other,
            k,
        ) by {
            if is_first_with_id(m, other, k) {
                assert(r[k] == m[k]);
                assert forall|j: int| 0 <= j < k implies (#[trigger] r[j]).0 != other by {
                    assert(m[j].0 != other);
                }
            }
            if is_first_with_id(r, other, k) {
                assert(k < m.len());
                assert(r[k] == m[k]);
                assert forall|j: int| 0 <= j < k implies (#[trigger] m[j]).0 != other by {
                    assert(r[j].0 != other);
                }
            }
        }
        if spec_position(m, other) is Some {
            let a = choose|k: int| is_first_with_id(m, other, k);
            assert(is_first_with_id(r, other, a));
            let b = choose|k: int| is_first_with_id(r, other, k);
            lemma_first_with_id_unique(r, other, a, b);
            assert(r[a] == m[a]);
        } else {
            if spec_position(r, other) is Some {
                let b = choose|k: int| is_first_with_id(r, other, k);
                assert(is_first_with_id(m, other, b));
            }
        }
    }
}

/// The area that `list` declares last for the identity `id`, if it declares
/// any.
pub open spec fn spec_last_declared(list: Areas, id: Seq<char>) -> Option<Rect>
    decreases list.len(),
{
    if list.len() == 0 {
        None
    } else if list.last().0 == id {
        Some(list.last().1)
    } else {
        spec_last_declared(list.drop_last(), id)
    }
}

/// A set built from declarations gives each identity the area that was
/// declared for it last, and knows no identity that was not declared.
pub proof fn lemma_rebuild_holds_last(list: Areas, id: Seq<char>)
    ensures
        spec_get(spec_rebuild(list), id) == spec_last_declared(list, id),
    decreases list.len(),
{
    if list.len() == 0 {
        assert forall|i: int| !is_first_with_id(Seq::<(Seq<char>, Rect)>::empty(), id, i) by {}
    } else {
        lemma_rebuild_holds_last(list.drop_last(), id);
        lemma_get_after_insert(spec_rebuild(list.drop_last()), list.last().0, list.last().1, id);
    }
}

/// The focusable set of a tab. No identity occurs in it twice.
pub struct AreaMap {
    entries: Vec<(String, Rect)>,
}

impl View for AreaMap {
    type V = Areas;

    closed spec fn view(&self) -> Areas {
        list_view(self.entries@)
    }
}

impl AreaMap {
    #[verifier::type_invariant]
    spec fn inv(self) -> bool {
        distinct_ids(list_view(self.entries@))
    }

    /// The empty set.
    pub fn new() -> (map: Self)
        ensures
            map@ == Seq::<(Seq<char>, Rect)>::empty(),
    {
        let map = AreaMap { entries: Vec::new() };
        assert(map@ =~= Seq::<(Seq<char>, Rect)>::empty());
        map
    }

    pub fn len(&self) -> (n: usize)
        ensures
            n == self@.len(),
    {
        self.entries.len()
    }

    pub fn is_empty(&self) -> (empty: bool)
        ensures
            empty == (self@.len() == 0),
    {
        self.entries.len() == 0
    }

    /// The area of the entry `i`.
    pub fn rect_at(&self, i: usize) -> (rect: Rect)
        requires
            i < self@.len(),
        ensures
            rect == self@[i as int].1,
    {
        self.entries[i].1
    }

    /// The identity of the entry `i`.
    pub fn id_at(&self, i: usize) -> (id: String)
        requires
            i < self@.len(),
        ensures
            id@ == self@[i as int].0,
    {
        self.entries[i].0.clone()
    }

    /// The entry under `id`: there is one at most.
    pub fn position(&self, id: &str) -> (found: Option<usize>)
        ensures
            found matches Some(i) ==> spec_position(self@, id@) == Some(i as int),
            found is None ==> spec_position(self@, id@) is None,
            found matches Some(i) ==> forall|j: int|
                0 <= j < self@.len() && j != i ==> (#[trigger] self@[j]).0 != id@,
            distinct_ids(self@),
    {
        proof {
            use_type_invariant(self);
        }
        let wanted = id.to_owned();
        let mut i: usize = 0;
        while i < self.entries.len()
            invariant
                i <= self.entries.len(),
                wanted@ == id@,
                distinct_ids(self@),
                forall|j: int| 0 <= j < i ==> (#[trigger] self@[j]).0 != id@,
            decreases self.entries.len() - i,
        {
            if self.entries[i].0 == wanted {
                proof {
                    lemma_position_is(self@, id@, i as int);
                }
                return Some(i);
            }
            i += 1;
        }
        proof {
            assert forall|c: int| !is_first_with_id(self@, id@, c) by {
                if 0 <= c < self@.len() {
                    assert(self@[c].0 != id@);
                }
            }
        }
        None
    }

    /// The area under `id`.
    pub fn get(&self, id: &str) -> (rect: Option<Rect>)
        ensures
            rect == spec_get(self@, id@),
    {
        match self.position(id) {
            Some(i) => Some(self.entries[i].1),
            None => None,
        }
    }

    /// Gives `id` the area `rect`.
    pub fn insert(&mut self, id: String, rect: Rect)
        ensures
            final(self)@ == spec_insert(old(self)@, id@, rect),
            distinct_ids(final(self)@),
    {
        proof {
            use_type_invariant(&*self);
            lemma_insert_distinct(self@, id@, rect);
        }
        let found = self.position(id.as_str());
        let mut entries: Vec<(String, Rect)> = Vec::new();
        assert(list_view(entries@) =~= Seq::<(Seq<char>, Rect)>::empty());
        core::mem::swap(&mut entries, &mut self.entries);
        match found {
            Some(i) => {
                entries.set(i, (id, rect));
            },
            None => {
                entries.push((id, rect));
            },
        }
        assert(list_view(entries@) =~= spec_insert(old(self)@, id@, rect));
        core::mem::swap(&mut entries, &mut self.entries);
    }

    /// The set of the declarations in `list`, taken in order: where an
    /// identity is declared again, it keeps its place and takes the later
    /// area.
    pub fn from_list(list: &Vec<(String, Rect)>) -> (map: Self)
        ensures
            map@ == spec_rebuild(list_view(list@)),
            distinct_ids(map@),
            distinct_ids(list_view(list@)) ==> map@ == list_view(list@),
    {
        let mut map = AreaMap::new();
        let mut i: usize = 0;
        assert(list_view(list@).take(0) =~= Seq::<(Seq<char>, Rect)>::empty());
        while i < list.len()
            invariant
                i <= list.len(),
                map@ == spec_rebuild(list_view(list@).take(i as int)),
            decreases list.len() - i,
        {
            let id = list[i].0.clone();
            let rect = list[i].1;
            proof {
                let next = list_view(list@).take(i + 1);
                assert(next.drop_last() =~= list_view(list@).take(i as int));
                assert(next.last() == (id@, rect));
            }
            map.insert(id, rect);
            i += 1;
        }
        proof {
            assert(list_view(list@).take(list.len() as int) =~= list_view(list@));
            lemma_rebuild_distinct(list_view(list@));
            if distinct_ids(list_view(list@)) {
                lemma_rebuild_of_distinct(list_view(list@));
            }
        }
        map
    }

    /// Whether some area contains `p`.
    pub fn covers(&self, p: Pos) -> (covered: bool)
        ensures
            covered == spec_covers(self@, p),
    {
        proof {
            lemma_covers_iff_first(self@, p);
        }
        self.first_containing(p).is_some()
    }

    /// The first entry whose area contains `p`.
    pub fn first_containing(&self, p: Pos) -> (found: Option<usize>)
        ensures
            found matches Some(i) ==> spec_first_containing(self@, p) == Some(i as int),
            found is None ==> spec_first_containing(self@, p) is None,
            found matches Some(i) ==> is_first_containing(self@, p, i as int),
    {
        let mut i: usize = 0;
        while i < self.entries.len()
            invariant
                i <= self.entries.len(),
                forall|j: int| 0 <= j < i ==> !(#[trigger] self@[j]).1.spec_contains(p),
            decreases self.entries.len() - i,
        {
            if self.entries[i].1.contains(p) {
                proof {
                    lemma_first_containing_is(self@, p, i as int);
                }
                return Some(i);
            }
            i += 1;
        }
        proof {
            assert forall|c: int| !is_first_containing(self@, p, c) by {
                if 0 <= c < self@.len() {
                    assert(!self@[c].1.spec_contains(p));
                }
            }
        }
        None
    }
}

} // verus!
