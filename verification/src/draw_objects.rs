//! The registry of drawable entities: creation in draw order, soft deletion
//! through handles, reclamation, and the per-frame flush and draw lists.

use vstd::prelude::*;
use crate::draw_flags::DrawFlags;

verus! {

/// What an entity is drawn as.
#[derive(Clone, Copy, Debug, PartialEq, Eq, Structural)]
pub enum DrawKind {
    Sprite,
    Primitive,
}

/// The registry's record of one drawable entity.
///
/// `id` is the entity's creation number, `handles` the number of external
/// handles that still refer to it.
#[derive(Clone, Copy, Debug, PartialEq, Eq, Structural)]
pub struct DrawEntry {
    pub id: u64,
    pub kind: DrawKind,
    pub z_index: u8,
    pub draw_flags: DrawFlags,
    pub handles: u64,
    pub image_width: u32,
    pub image_height: u32,
}

/// Why the registry could not do what was asked.
#[derive(Clone, Copy, Debug, PartialEq, Eq, Structural)]
pub enum RegistryError {
    /// Every creation number has been handed out.
    IdsExhausted,
    /// No entity has this id.
    UnknownEntity,
    /// The entity is no longer alive.
    DeadEntity,
    /// The entity's handle count cannot grow further.
    TooManyHandles,
}

/// One draw call of the draw pass.
#[derive(Clone, Copy, Debug, PartialEq, Eq, Structural)]
pub struct DrawCall {
    pub id: u64,
    pub kind: DrawKind,
}

/// The order in which the four corners of a quad are drawn, as two
/// triangles that share the diagonal from corner 0 to corner 2.
pub fn quad_indices() -> (indices: [u16; 6])
    ensures
        indices@ == seq![0u16, 1u16, 2u16, 2u16, 3u16, 0u16],
{
    let indices: [u16; 6] = [0, 1, 2, 2, 3, 0];
    assert(indices@ =~= seq![0u16, 1u16, 2u16, 2u16, 3u16, 0u16]);
    indices
}

/// Whether an entity is alive.
pub open spec fn is_used() -> spec_fn(DrawEntry) -> bool {
    |e: DrawEntry| e.draw_flags.used
}

/// Whether an entity has been let go and waits for reclamation.
pub open spec fn is_dead() -> spec_fn(DrawEntry) -> bool {
    |e: DrawEntry| !e.draw_flags.used
}

/// Whether an entity takes part in the draw pass: alive and visible.
pub open spec fn is_drawn() -> spec_fn(DrawEntry) -> bool {
    |e: DrawEntry| e.draw_flags.used && e.draw_flags.visible
}

/// The id of an entry.
pub open spec fn entry_id() -> spec_fn(DrawEntry) -> u64 {
    |e: DrawEntry| e.id
}

/// The draw call that an entry gives rise to.
pub open spec fn entry_call() -> spec_fn(DrawEntry) -> DrawCall {
    |e: DrawEntry| DrawCall { id: e.id, kind: e.kind }
}

/// Draw order: by z-index, and among equal z-indices by creation number.
pub open spec fn draws_before(a: DrawEntry, b: DrawEntry) -> bool {
    a.z_index < b.z_index || (a.z_index == b.z_index && a.id < b.id)
}

/// Whether a sequence of entries stands in strict draw order.
pub open spec fn in_draw_order(s: Seq<DrawEntry>) -> bool {
    forall|i: int, j: int| 0 <= i < j < s.len() ==> draws_before(#[trigger] s[i], #[trigger] s[j])
}

/// Whether no two entries of `s` share an id.
pub open spec fn distinct_ids(s: Seq<DrawEntry>) -> bool {
    forall|i: int, j: int| 0 <= i < j < s.len() ==> (#[trigger] s[i]).id != (#[trigger] s[j]).id
}

/// Whether some entry of `s` has the id `id`.
pub open spec fn has_id(s: Seq<DrawEntry>, id: u64) -> bool {
    exists|i: int| 0 <= i < s.len() && (#[trigger] s[i]).id == id
}

/// Whether the entries `s` and the next creation number `next_id` make up a
/// state of the registry: the entries stand in draw order, their ids are
/// distinct and were handed out already, and an entry without a handle is
/// not alive.
pub open spec fn valid_state(s: Seq<DrawEntry>, next_id: u64) -> bool {
    &&& in_draw_order(s)
    &&& distinct_ids(s)
    &&& forall|i: int| 0 <= i < s.len() ==> (#[trigger] s[i]).id < next_id
    &&& forall|i: int| 0 <= i < s.len() ==> ((#[trigger] s[i]).handles == 0 ==> !s[i].draw_flags.used)
}

/// Where a new entity with z-index `z` goes: behind the last entry whose
/// z-index is not above `z`.
pub open spec fn insertion_point(s: Seq<DrawEntry>, z: u8) -> int
    decreases s.len(),
{
    if s.len() == 0 {
        0
    } else if s.last().z_index <= z {
        s.len() as int
    } else {
        insertion_point(s.drop_last(), z)
    }
}

/// A freshly created entity: alive, visible, held by one handle.
pub open spec fn fresh_entry(
    id: u64,
    kind: DrawKind,
    z_index: u8,
    image_width: u32,
    image_height: u32,
) -> DrawEntry {
    DrawEntry {
        id,
        kind,
        z_index,
        draw_flags: DrawFlags { used: true, visible: true },
        handles: 1,
        image_width,
        image_height,
    }
}

/// An entry after its liveness flag was cleared.
pub open spec fn killed(e: DrawEntry) -> DrawEntry {
    DrawEntry { draw_flags: DrawFlags { used: false, visible: e.draw_flags.visible }, ..e }
}

/// An entry after its visibility was set to `visible`.
pub open spec fn shown(e: DrawEntry, visible: bool) -> DrawEntry {
    DrawEntry { draw_flags: DrawFlags { used: e.draw_flags.used, visible }, ..e }
}

/// An entry after one more handle was taken on it.
pub open spec fn held_once_more(e: DrawEntry) -> DrawEntry {
    DrawEntry { handles: (e.handles + 1) as u64, ..e }
}

/// An entry after one of its handles was dropped: with the last handle gone
/// the entity is no longer alive.
pub open spec fn let_go(e: DrawEntry) -> DrawEntry {
    if e.handles == 0 {
        e
    } else if e.handles == 1 {
        DrawEntry { handles: 0, ..killed(e) }
    } else {
        DrawEntry { handles: (e.handles - 1) as u64, ..e }
    }
}

/// The change that clears an entry's liveness flag.
pub open spec fn killing() -> spec_fn(DrawEntry) -> DrawEntry {
    |e: DrawEntry| killed(e)
}

/// The change that sets an entry's visibility to `visible`.
pub open spec fn showing(visible: bool) -> spec_fn(DrawEntry) -> DrawEntry {
    |e: DrawEntry| shown(e, visible)
}

/// The change that takes one more handle on an entry.
pub open spec fn holding() -> spec_fn(DrawEntry) -> DrawEntry {
    |e: DrawEntry| held_once_more(e)
}

/// The change that drops one handle on an entry.
pub open spec fn letting_go() -> spec_fn(DrawEntry) -> DrawEntry {
    |e: DrawEntry| let_go(e)
}

/// The entry with the id `id`, where `s` has one.
pub open spec fn entry_of(s: Seq<DrawEntry>, id: u64) -> DrawEntry {
    s[choose|i: int| 0 <= i < s.len() && (#[trigger] s[i]).id == id]
}

/// What taking a further handle on the entity `id` comes to: it must be
/// held by the registry, alive, and its handle count must have room.
pub open spec fn handle_verdict(s: Seq<DrawEntry>, id: u64) -> Result<(), RegistryError> {
    if !has_id(s, id) {
        Err(RegistryError::UnknownEntity)
    } else if !entry_of(s, id).draw_flags.used {
        Err(RegistryError::DeadEntity)
    } else if entry_of(s, id).handles == u64::MAX {
        Err(RegistryError::TooManyHandles)
    } else {
        Ok(())
    }
}

/// `s` with `f` applied to the entries whose id is `id`, the others unchanged.
pub open spec fn update_id(s: Seq<DrawEntry>, id: u64, f: spec_fn(DrawEntry) -> DrawEntry) -> Seq<DrawEntry> {
    Seq::new(s.len(), |i: int| if s[i].id == id { f(s[i]) } else { s[i] })
}

/// The filter of a prefix grows by the prefix's next element where the
/// predicate holds of it, and stays as it is where not.
pub proof fn lemma_filter_take_next<A>(s: Seq<A>, pred: spec_fn(A) -> bool, i: int)
    requires
        0 <= i < s.len(),
    ensures
        s.take(i + 1).filter(pred) == if pred(s[i]) {
            s.take(i).filter(pred).push(s[i])
        } else {
            s.take(i).filter(pred)
        },
{
    reveal(Seq::filter);
    assert(s.take(i + 1).drop_last() =~= s.take(i));
}

/// In a sequence in draw order, the insertion point for `z` parts the entries
/// with a z-index up to `z` from those above it.
pub proof fn lemma_insertion_point_parts(s: Seq<DrawEntry>, z: u8)
    requires
        in_draw_order(s),
    ensures
        0 <= insertion_point(s, z) <= s.len(),
        forall|i: int| 0 <= i < insertion_point(s, z) ==> (#[trigger] s[i]).z_index <= z,
        forall|i: int| insertion_point(s, z) <= i < s.len() ==> (#[trigger] s[i]).z_index > z,
    decreases s.len(),
{
    if s.len() == 0 {
    } else if s.last().z_index <= z {
        assert forall|i: int| 0 <= i < s.len() implies (#[trigger] s[i]).z_index <= z by {
            if i < s.len() - 1 {
                assert(draws_before(s[i], s[s.len() - 1]));
            }
        }
    } else {
        let front = s.drop_last();
        assert(in_draw_order(front)) by {
            assert forall|i: int, j: int| 0 <= i < j < front.len() implies draws_before(
                #[trigger] front[i],
                #[trigger] front[j],
            ) by {
                assert(draws_before(s[i], s[j]));
            }
        }
        lemma_insertion_point_parts(front, z);
        assert forall|i: int| 0 <= i < insertion_point(s, z) implies (#[trigger] s[i]).z_index
            <= z by {
            assert(front[i] == s[i]);
        }
        assert forall|i: int| insertion_point(s, z) <= i < s.len() implies (#[trigger] s[i]).z_index
            > z by {
            if i < s.len() - 1 {
                assert(front[i] == s[i]);
            }
        }
    }
}

/// Filtering keeps draw order and distinct ids, and lets in no entry that
/// was not there.
pub proof fn lemma_filter_keeps_order(s: Seq<DrawEntry>, pred: spec_fn(DrawEntry) -> bool)
    requires
        in_draw_order(s),
        distinct_ids(s),
    ensures
        in_draw_order(s.filter(pred)),
        distinct_ids(s.filter(pred)),
        forall|k: int|
            0 <= k < s.filter(pred).len() ==> pred(#[trigger] s.filter(pred)[k]) && s.contains(
                s.filter(pred)[k],
            ),
    decreases s.len(),
{
    reveal(Seq::filter);
    if s.len() > 0 {
        let front = s.drop_last();
        let last = s.last();
        assert forall|i: int, j: int| 0 <= i < j < front.len() implies draws_before(
            #[trigger] front[i],
            #[trigger] front[j],
        ) by {
            assert(draws_before(s[i], s[j]));
        }
        assert forall|i: int, j: int| 0 <= i < j < front.len() implies (#[trigger] front[i]).id != (
        #[trigger] front[j]).id by {
            assert(s[i].id != s[j].id);
        }
        lemma_filter_keeps_order(front, pred);
        let kept = front.filter(pred);
        assert forall|k: int| 0 <= k < kept.len() implies s.contains(#[trigger] kept[k])
            && draws_before(kept[k], last) && kept[k].id != last.id by {
            assert(front.contains(kept[k]));
            let i = choose|i: int| 0 <= i < front.len() && front[i] == kept[k];
            assert(s[i] == kept[k]);
            assert(draws_before(s[i], s[s.len() - 1]));
            assert(s[i].id != s[s.len() - 1].id);
        }
        if pred(last) {
            assert(s.filter(pred) == kept.push(last));
            assert(s[s.len() - 1] == last);
        } else {
            assert(s.filter(pred) == kept);
        }
    }
}

/// Where ids are distinct, the entry with a given id is the one found at any
/// place that holds this id.
pub proof fn lemma_entry_of_unique(s: Seq<DrawEntry>, id: u64, at: int)
    requires
        distinct_ids(s),
        0 <= at < s.len(),
        s[at].id == id,
    ensures
        has_id(s, id),
        entry_of(s, id) == s[at],
{
    let i = choose|i: int| 0 <= i < s.len() && (#[trigger] s[i]).id == id;
    if i < at {
        assert(s[i].id != s[at].id);
    } else if at < i {
        assert(s[at].id != s[i].id);
    }
}

/// The filter of the empty prefix is empty.
pub proof fn lemma_filter_take_none<A>(s: Seq<A>, pred: spec_fn(A) -> bool)
    ensures
        s.take(0).filter(pred) == Seq::<A>::empty(),
{
    reveal(Seq::filter);
    assert(s.take(0) =~= Seq::<A>::empty());
}

/// Creation keeps the draw list sorted by z-index, ties in creation order:
/// an entity that is younger than all of `s`, put at its insertion point,
/// leaves the sequence in draw order.
pub proof fn lemma_insert_keeps_order(s: Seq<DrawEntry>, e: DrawEntry)
    requires
        in_draw_order(s),
        distinct_ids(s),
        forall|i: int| 0 <= i < s.len() ==> (#[trigger] s[i]).id < e.id,
    ensures
        in_draw_order(s.insert(insertion_point(s, e.z_index), e)),
        distinct_ids(s.insert(insertion_point(s, e.z_index), e)),
{
    lemma_insertion_point_parts(s, e.z_index);
    let at = insertion_point(s, e.z_index);
    let after = s.insert(at, e);
    assert forall|i: int, j: int| 0 <= i < j < after.len() implies draws_before(
        #[trigger] after[i],
        #[trigger] after[j],
    ) && after[i].id != after[j].id by {
        if i < at && j > at {
            assert(draws_before(s[i], s[j - 1]));
            assert(s[i].id != s[j - 1].id);
        } else if i < at && j < at {
            assert(draws_before(s[i], s[j]));
            assert(s[i].id != s[j].id);
        } else if i > at {
            assert(draws_before(s[i - 1], s[j - 1]));
            assert(s[i - 1].id != s[j - 1].id);
        } else if j == at {
            assert(s[i].z_index <= e.z_index);
            assert(s[i].id < e.id);
        } else {
            assert(s[j - 1].z_index > e.z_index);
            assert(s[j - 1].id < e.id);
        }
    }
}

/// The registry of drawable entities, kept in draw order.
pub struct DrawObjects {
    entries: Vec<DrawEntry>,
    next_id: u64,
}

impl View for DrawObjects {
    type V = Seq<DrawEntry>;

    closed spec fn view(&self) -> Seq<DrawEntry> {
        self.entries@
    }
}

impl DrawObjects {
    /// The creation number that the next entity gets.
    pub closed spec fn spec_next_id(&self) -> u64 {
        self.next_id
    }

    /// The registry's invariant: what it holds is a state of the registry.
    pub open spec fn wf(&self) -> bool {
        valid_state(self@, self.spec_next_id())
    }

    /// A registry without entities.
    pub fn new() -> (registry: DrawObjects)
        ensures
            registry.wf(),
            registry@ == Seq::<DrawEntry>::empty(),
            registry.spec_next_id() == 0,
    {
        DrawObjects { entries: Vec::new(), next_id: 0 }
    }

    /// The registry that holds `entries` and creates its next entity as
    /// `next_id`, if the two make up a state of the registry.
    pub fn restore(entries: Vec<DrawEntry>, next_id: u64) -> (registry: Option<DrawObjects>)
        ensures
            registry.is_some() <==> valid_state(entries@, next_id),
            registry.is_some() ==> registry.unwrap().wf() && registry.unwrap()@ == entries@
                && registry.unwrap().spec_next_id() == next_id,
    {
        let ghost s = entries@;
        let mut i: usize = 0;
        while i < entries.len()
            invariant
                entries@ == s,
                i <= s.len(),
                valid_state(s.take(i as int), next_id),
            decreases s.len() - i,
        {
            let e = entries[i];
            if e.id >= next_id || (e.handles == 0 && e.draw_flags.used) {
                return None;
            }
            if i > 0 {
                let before = entries[i - 1];
                if !(before.z_index < e.z_index || (before.z_index == e.z_index && before.id < e.id)) {
                    assert(!draws_before(s[i - 1], s[i as int]));
                    return None;
                }
            }
            let mut j: usize = 0;
            while j < i
                invariant
                    entries@ == s,
                    i < s.len(),
                    j <= i,
                    e == s[i as int],
                    forall|k: int| 0 <= k < j ==> (#[trigger] s[k]).id != e.id,
                decreases i - j,
            {
                if entries[j].id == e.id {
                    assert(s[j as int].id == s[i as int].id);
                    return None;
                }
                j += 1;
            }
            proof {
                let front = s.take(i as int);
                let next = s.take(i + 1);
                assert forall|a: int, b: int| 0 <= a < b < next.len() implies draws_before(
                    #[trigger] next[a],
                    #[trigger] next[b],
                ) && next[a].id != next[b].id by {
                    if b < i {
                        assert(draws_before(front[a], front[b]));
                        assert(front[a].id != front[b].id);
                    } else {
                        assert(s[a].id != e.id);
                        if a < i - 1 {
                            assert(draws_before(front[a], front[i - 1]));
                        }
                    }
                }
                assert forall|k: int| 0 <= k < next.len() implies (#[trigger] next[k]).id < next_id
                    && (next[k].handles == 0 ==> !next[k].draw_flags.used) by {
                    if k < i {
                        assert(front[k] == next[k]);
                    }
                }
            }
            i += 1;
        }
        proof {
            assert(s.take(i as int) =~= s);
        }
        Some(DrawObjects { entries, next_id })
    }

    /// The number of entities held, dead ones that wait for reclamation included.
    pub fn len(&self) -> (n: usize)
        ensures
            n == self@.len(),
    {
        self.entries.len()
    }

    /// The creation number that the next entity gets.
    pub fn next_id(&self) -> (id: u64)
        ensures
            id == self.spec_next_id(),
    {
        self.next_id
    }

    fn find(&self, id: u64) -> (at: Option<usize>)
        ensures
            at.is_some() <==> has_id(self@, id),
            at.is_some() ==> at.unwrap() < self@.len() && self@[at.unwrap() as int].id == id,
    {
        let mut i: usize = 0;
        while i < self.entries.len()
            invariant
                i <= self@.len(),
                forall|k: int| 0 <= k < i ==> (#[trigger] self@[k]).id != id,
            decreases self@.len() - i,
        {
            if self.entries[i].id == id {
                return Some(i);
            }
            i += 1;
        }
        None
    }

    fn replace(&mut self, at: usize, entry: DrawEntry, Ghost(f): Ghost<spec_fn(DrawEntry) -> DrawEntry>)
        requires
            old(self).wf(),
            at < old(self)@.len(),
            entry == f(old(self)@[at as int]),
            entry.id == old(self)@[at as int].id,
            entry.z_index == old(self)@[at as int].z_index,
            entry.handles == 0 ==> !entry.draw_flags.used,
        ensures
            final(self).wf(),
            final(self).spec_next_id() == old(self).spec_next_id(),
            final(self)@ == update_id(old(self)@, entry.id, f),
    {
        let ghost before = self@;
        self.entries.set(at, entry);
        proof {
            assert forall|i: int| 0 <= i < before.len() && i != at implies (#[trigger] before[i]).id
                != entry.id by {
                if i < at {
                    assert(before[i].id != before[at as int].id);
                } else {
                    assert(before[at as int].id != before[i].id);
                }
            }
            assert(self@ =~= update_id(before, entry.id, f));
            assert forall|i: int, j: int| 0 <= i < j < self@.len() implies (#[trigger] self@[i]).id != (
            #[trigger] self@[j]).id by {
                assert(before[i].id != before[j].id);
            }
            assert forall|i: int, j: int| 0 <= i < j < self@.len() implies draws_before(
                #[trigger] self@[i],
                #[trigger] self@[j],
            ) by {
                assert(draws_before(before[i], before[j]));
            }
        }
    }

    /// The entry of the entity `id`, if the registry holds it.
    pub fn get(&self, id: u64) -> (entry: Option<DrawEntry>)
        requires
            self.wf(),
        ensures
            entry.is_some() <==> has_id(self@, id),
            entry.is_some() ==> entry.unwrap() == entry_of(self@, id) && entry.unwrap().id == id,
    {
        match self.find(id) {
            Some(at) => {
                proof {
                    lemma_entry_of_unique(self@, id, at as int);
                }
                Some(self.entries[at])
            },
            None => None,
        }
    }

    /// The z-index of the entity `id`, if the registry holds it.
    pub fn get_z_index(&self, id: u64) -> (z_index: Option<u8>)
        requires
            self.wf(),
        ensures
            z_index.is_some() <==> has_id(self@, id),
            z_index.is_some() ==> z_index.unwrap() == entry_of(self@, id).z_index,
    {
        match self.find(id) {
            Some(at) => {
                proof {
                    lemma_entry_of_unique(self@, id, at as int);
                }
                Some(self.entries[at].z_index)
            },
            None => None,
        }
    }

    /// The draw flags of the entity `id`, if the registry holds it.
    pub fn read_flags(&self, id: u64) -> (flags: Option<DrawFlags>)
        requires
            self.wf(),
        ensures
            flags.is_some() <==> has_id(self@, id),
            flags.is_some() ==> flags.unwrap() == entry_of(self@, id).draw_flags,
    {
        match self.find(id) {
            Some(at) => {
                proof {
                    lemma_entry_of_unique(self@, id, at as int);
                }
                Some(self.entries[at].draw_flags)
            },
            None => None,
        }
    }

    /// Creates an entity: alive, visible, held by one handle, and placed
    /// behind every entity whose z-index is not above its own.
    ///
    /// Fails only when the creation numbers have run out.
    pub fn create(&mut self, kind: DrawKind, z_index: u8, image_width: u32, image_height: u32) -> (id: Result<u64, RegistryError>)
        requires
            old(self).wf(),
        ensures
            final(self).wf(),
            id.is_err() <==> old(self).spec_next_id() == u64::MAX,
            id.is_err() ==> id == Err::<u64, RegistryError>(RegistryError::IdsExhausted)
                && final(self)@ == old(self)@ && final(self).spec_next_id() == old(self).spec_next_id(),
            id.is_ok() ==> id.unwrap() == old(self).spec_next_id()
                && final(self).spec_next_id() == old(self).spec_next_id() + 1
                && final(self)@ == old(self)@.insert(
                    insertion_point(old(self)@, z_index),
                    fresh_entry(id.unwrap(), kind, z_index, image_width, image_height),
                ),
    {
        if self.next_id == u64::MAX {
            return Err(RegistryError::IdsExhausted);
        }
        let id: u64 = self.next_id;
        let entry = DrawEntry {
            id,
            kind,
            z_index,
            draw_flags: DrawFlags { used: true, visible: true },
            handles: 1,
            image_width,
            image_height,
        };
        let ghost before = self@;
        let mut at: usize = self.entries.len();
        proof {
            assert(before.take(at as int) =~= before);
        }
        while at > 0 && self.entries[at - 1].z_index > z_index
            invariant
                self@ == before,
                at <= before.len(),
                insertion_point(before, z_index) == insertion_point(before.take(at as int), z_index),
            decreases at,
        {
            proof {
                assert(before.take(at as int).drop_last() =~= before.take(at - 1));
            }
            at -= 1;
        }
        proof {
            assert(insertion_point(before, z_index) == at);
            lemma_insertion_point_parts(before, z_index);
        }
        proof {
            lemma_insert_keeps_order(before, entry);
        }
        self.entries.insert(at, entry);
        self.next_id = id + 1;
        Ok(id)
    }

    /// Clears the liveness flag of the entity `id`, whatever handles remain.
    /// The entity stays in the registry until the next reclamation.
    ///
    /// Returns whether the registry holds such an entity.
    pub fn set_dead(&mut self, id: u64) -> (found: bool)
        requires
            old(self).wf(),
        ensures
            final(self).wf(),
            found == has_id(old(self)@, id),
            final(self).spec_next_id() == old(self).spec_next_id(),
            final(self)@ == update_id(old(self)@, id, killing()),
    {
        match self.find(id) {
            Some(at) => {
                let e = self.entries[at];
                let entry = DrawEntry {
                    draw_flags: DrawFlags { used: false, visible: e.draw_flags.visible },
                    ..e
                };
                self.replace(at, entry, Ghost(killing()));
                true
            },
            None => {
                assert(self@ =~= update_id(self@, id, killing()));
                false
            },
        }
    }

    /// Lets the entity `id` take part in the draw pass, or keeps it out.
    /// Its liveness and its place in the registry stay as they are.
    ///
    /// Returns whether the registry holds such an entity.
    pub fn set_visible(&mut self, id: u64, visible: bool) -> (found: bool)
        requires
            old(self).wf(),
        ensures
            final(self).wf(),
            found == has_id(old(self)@, id),
            final(self).spec_next_id() == old(self).spec_next_id(),
            final(self)@ == update_id(old(self)@, id, showing(visible)),
    {
        match self.find(id) {
            Some(at) => {
                let e = self.entries[at];
                let entry = DrawEntry {
                    draw_flags: DrawFlags { used: e.draw_flags.used, visible },
                    ..e
                };
                self.replace(at, entry, Ghost(showing(visible)));
                true
            },
            None => {
                assert(self@ =~= update_id(self@, id, showing(visible)));
                false
            },
        }
    }

    /// Takes one more handle on the live entity `id`.
    pub fn clone_handle(&mut self, id: u64) -> (taken: Result<(), RegistryError>)
        requires
            old(self).wf(),
        ensures
            final(self).wf(),
            final(self).spec_next_id() == old(self).spec_next_id(),
            taken == handle_verdict(old(self)@, id),
            taken.is_ok() ==> final(self)@ == update_id(old(self)@, id, holding()),
            taken.is_err() ==> final(self)@ == old(self)@,
    {
        match self.find(id) {
            Some(at) => {
                let e = self.entries[at];
                proof {
                    lemma_entry_of_unique(self@, id, at as int);
                }
                if !e.draw_flags.used {
                    Err(RegistryError::DeadEntity)
                } else if e.handles == u64::MAX {
                    Err(RegistryError::TooManyHandles)
                } else {
                    let entry = DrawEntry { handles: e.handles + 1, ..e };
                    self.replace(at, entry, Ghost(holding()));
                    Ok(())
                }
            },
            None => Err(RegistryError::UnknownEntity),
        }
    }

    /// Drops one handle on the entity `id`. With its last handle gone the
    /// entity is no longer alive; it stays in the registry until the next
    /// reclamation.
    ///
    /// Returns whether the registry holds such an entity.
    pub fn drop_handle(&mut self, id: u64) -> (found: bool)
        requires
            old(self).wf(),
        ensures
            final(self).wf(),
            found == has_id(old(self)@, id),
            final(self).spec_next_id() == old(self).spec_next_id(),
            final(self)@ == update_id(old(self)@, id, letting_go()),
    {
        match self.find(id) {
            Some(at) => {
                let e = self.entries[at];
                let entry = if e.handles == 0 {
                    e
                } else if e.handles == 1 {
                    DrawEntry {
                        handles: 0,
                        draw_flags: DrawFlags { used: false, visible: e.draw_flags.visible },
                        ..e
                    }
                } else {
                    DrawEntry { handles: e.handles - 1, ..e }
                };
                self.replace(at, entry, Ghost(letting_go()));
                true
            },
            None => {
                assert(self@ =~= update_id(self@, id, letting_go()));
                false
            },
        }
    }

    /// Removes every entity that is no longer alive, and returns the ids of
    /// those removed, in draw order. The live entities keep their order.
    pub fn reclaim(&mut self) -> (removed: Vec<u64>)
        requires
            old(self).wf(),
        ensures
            final(self).wf(),
            final(self).spec_next_id() == old(self).spec_next_id(),
            final(self)@ == old(self)@.filter(is_used()),
            removed@ == old(self)@.filter(is_dead()).map_values(entry_id()),
    {
        let ghost before = self@;
        let mut kept: Vec<DrawEntry> = Vec::new();
        let mut removed: Vec<u64> = Vec::new();
        let mut i: usize = 0;
        proof {
            lemma_filter_take_none(before, is_used());
            lemma_filter_take_none(before, is_dead());
            assert(removed@ =~= before.take(0).filter(is_dead()).map_values(entry_id()));
        }
        while i < self.entries.len()
            invariant
                self@ == before,
                i <= before.len(),
                kept@ == before.take(i as int).filter(is_used()),
                removed@ == before.take(i as int).filter(is_dead()).map_values(entry_id()),
            decreases before.len() - i,
        {
            let e = self.entries[i];
            proof {
                lemma_filter_take_next(before, is_used(), i as int);
                lemma_filter_take_next(before, is_dead(), i as int);
            }
            if e.draw_flags.used {
                kept.push(e);
            } else {
                removed.push(e.id);
                assert(removed@ =~= before.take(i + 1).filter(is_dead()).map_values(entry_id()));
            }
            i += 1;
        }
        proof {
            assert(before.take(i as int) =~= before);
            lemma_filter_keeps_order(before, is_used());
            assert forall|k: int| 0 <= k < kept@.len() implies (#[trigger] kept@[k]).id
                < self.next_id && (kept@[k].handles == 0 ==> !kept@[k].draw_flags.used) by {
                assert(before.contains(kept@[k]));
            }
        }
        self.entries = kept;
        removed
    }

    /// The ids of the live entities, in draw order: those whose data is
    /// written to the GPU before a frame is recorded.
    pub fn flush_list(&self) -> (ids: Vec<u64>)
        ensures
            ids@ == self@.filter(is_used()).map_values(entry_id()),
    {
        let mut ids: Vec<u64> = Vec::new();
        let mut i: usize = 0;
        proof {
            lemma_filter_take_none(self@, is_used());
            assert(ids@ =~= self@.take(0).filter(is_used()).map_values(entry_id()));
        }
        while i < self.entries.len()
            invariant
                i <= self@.len(),
                ids@ == self@.take(i as int).filter(is_used()).map_values(entry_id()),
            decreases self@.len() - i,
        {
            let e = self.entries[i];
            proof {
                lemma_filter_take_next(self@, is_used(), i as int);
            }
            if e.draw_flags.used {
                ids.push(e.id);
                assert(ids@ =~= self@.take(i + 1).filter(is_used()).map_values(entry_id()));
            }
            i += 1;
        }
        proof {
            assert(self@.take(i as int) =~= self@);
        }
        ids
    }

    /// The draw calls of a frame: one for each entity that is alive and
    /// visible, in draw order.
    pub fn draw_list(&self) -> (calls: Vec<DrawCall>)
        ensures
            calls@ == self@.filter(is_drawn()).map_values(entry_call()),
    {
        let mut calls: Vec<DrawCall> = Vec::new();
        let mut i: usize = 0;
        proof {
            lemma_filter_take_none(self@, is_drawn());
            assert(calls@ =~= self@.take(0).filter(is_drawn()).map_values(entry_call()));
        }
        while i < self.entries.len()
            invariant
                i <= self@.len(),
                calls@ == self@.take(i as int).filter(is_drawn()).map_values(entry_call()),
            decreases self@.len() - i,
        {
            let e = self.entries[i];
            proof {
                lemma_filter_take_next(self@, is_drawn(), i as int);
            }
            if e.draw_flags.used && e.draw_flags.visible {
                calls.push(DrawCall { id: e.id, kind: e.kind });
                assert(calls@ =~= self@.take(i + 1).filter(is_drawn()).map_values(entry_call()));
            }
            i += 1;
        }
        proof {
            assert(self@.take(i as int) =~= self@);
        }
        calls
    }

    /// Every entry the registry holds, in draw order.
    pub fn z_order(&self) -> (entries: Vec<DrawEntry>)
        ensures
            entries@ == self@,
    {
        let mut entries: Vec<DrawEntry> = Vec::new();
        let mut i: usize = 0;
        while i < self.entries.len()
            invariant
                i <= self@.len(),
                entries@ == self@.take(i as int),
            decreases self@.len() - i,
        {
            entries.push(self.entries[i]);
            assert(entries@ =~= self@.take(i + 1));
            i += 1;
        }
        proof {
            assert(self@.take(i as int) =~= self@);
        }
        entries
    }
}

} // verus!
