//! The foreign runtime's observable state: an allocator together with a
//! reference count per allocated object.
//!
//! The handles never interpret their own buffers; everything they do is a
//! call into one of the foreign entry points. [`Runtime`] states what those
//! entry points do to the foreign side: `uninit` allocates a slot with one
//! owner ([`Runtime::allocate`]), `clone` adds an owner ([`Runtime::incref`]),
//! `get` reads the pointee ([`Runtime::read`]), and `drop` removes an owner,
//! freeing the object when the last one goes ([`Runtime::decref`]).

use vstd::prelude::*;

verus! {

/// One object slot of the foreign runtime, as the contracts see it: how many
/// joint owners it has (zero once freed) and the pointee value it holds.
pub struct SlotModel<T> {
    pub count: nat,
    pub value: T,
}

/// Allocating writes a fresh slot with a single owner at the end of the store.
pub open spec fn allocate_model<T>(s: Seq<SlotModel<T>>, value: T) -> Seq<SlotModel<T>> {
    s.push(SlotModel { count: 1nat, value })
}

/// Cloning a handle adds one owner to its slot and touches nothing else.
pub open spec fn incref_model<T>(s: Seq<SlotModel<T>>, i: int) -> Seq<SlotModel<T>> {
    s.update(i, SlotModel { count: s[i].count + 1, value: s[i].value })
}

/// Releasing a handle removes one owner from its slot and touches nothing
/// else; the slot is freed exactly when the removed owner was the last.
pub open spec fn decref_model<T>(s: Seq<SlotModel<T>>, i: int) -> Seq<SlotModel<T>> {
    s.update(i, SlotModel { count: (s[i].count - 1) as nat, value: s[i].value })
}

/// How many slots are still owned: the allocation counter the runtime reports.
pub open spec fn count_live<T>(s: Seq<SlotModel<T>>) -> nat
    decreases s.len(),
{
    if s.len() == 0 {
        0
    } else {
        count_live(s.drop_last()) + (if s.last().count > 0 {
            1nat
        } else {
            0nat
        })
    }
}

pub proof fn lemma_count_live_push<T>(s: Seq<SlotModel<T>>, x: SlotModel<T>)
    ensures
        count_live(s.push(x)) == count_live(s) + (if x.count > 0 {
            1nat
        } else {
            0nat
        }),
{
    assert(s.push(x).drop_last() =~= s);
}

pub proof fn lemma_count_live_update<T>(s: Seq<SlotModel<T>>, i: int, x: SlotModel<T>)
    requires
        0 <= i < s.len(),
    ensures
        count_live(s.update(i, x)) == count_live(s) - (if s[i].count > 0 {
            1int
        } else {
            0int
        }) + (if x.count > 0 {
            1int
        } else {
            0int
        }),
    decreases s.len(),
{
    if i == s.len() - 1 {
        assert(s.update(i, x).drop_last() =~= s.drop_last());
        assert(s.update(i, x).last() == x);
    } else {
        lemma_count_live_update(s.drop_last(), i, x);
        assert(s.update(i, x).drop_last() =~= s.drop_last().update(i, x));
        assert(s.update(i, x).last() == s.last());
    }
}

struct Slot<T> {
    count: usize,
    value: T,
}

/// The foreign runtime: object slots, each with its owner count.
///
/// Slots are never reused; a freed slot keeps its index with count zero, so
/// that a slot index identifies one object for the whole of a run, the way a
/// foreign address does while the object is alive.
pub struct Runtime<T> {
    slots: Vec<Slot<T>>,
}

impl<T> View for Runtime<T> {
    type V = Seq<SlotModel<T>>;

    closed spec fn view(&self) -> Seq<SlotModel<T>> {
        self.slots@.map_values(|s: Slot<T>| SlotModel { count: s.count as nat, value: s.value })
    }
}

impl<T> Runtime<T> {
    /// A runtime that has allocated nothing yet.
    pub fn new() -> (rt: Self)
        ensures
            rt@ == Seq::<SlotModel<T>>::empty(),
    {
        let rt = Runtime { slots: Vec::new() };
        proof {
            assert(rt@ =~= Seq::<SlotModel<T>>::empty());
        }
        rt
    }

    /// The `uninit` entry point followed by the value write: allocates an
    /// object holding `value` with a single owner and returns its slot.
    pub fn allocate(&mut self, value: T) -> (id: usize)
        ensures
            final(self)@ == allocate_model(old(self)@, value),
            id as int == old(self)@.len(),
    {
        let id = self.slots.len();
        self.slots.push(Slot { count: 1, value });
        proof {
            assert(self@ =~= allocate_model(old(self)@, value));
        }
        id
    }

    /// The `clone` entry point: adds one owner to a live slot.
    pub fn incref(&mut self, id: usize)
        requires
            id < old(self)@.len(),
            old(self)@[id as int].count > 0,
            old(self)@[id as int].count < usize::MAX,
        ensures
            final(self)@ == incref_model(old(self)@, id as int),
    {
        let c = self.slots[id].count;
        self.slots[id].count = c + 1;
        proof {
            assert(self@ =~= incref_model(old(self)@, id as int));
        }
    }

    /// The `drop` entry point: removes one owner from a live slot; the
    /// result says whether that freed the object.
    pub fn decref(&mut self, id: usize) -> (freed: bool)
        requires
            id < old(self)@.len(),
            old(self)@[id as int].count > 0,
        ensures
            final(self)@ == decref_model(old(self)@, id as int),
            freed <==> old(self)@[id as int].count == 1,
    {
        let c = self.slots[id].count;
        self.slots[id].count = c - 1;
        proof {
            assert(self@ =~= decref_model(old(self)@, id as int));
        }
        c == 1
    }

    /// The `get` entry point on a live slot: reads the pointee.
    pub fn read(&self, id: usize) -> (r: &T)
        requires
            id < self@.len(),
            self@[id as int].count > 0,
        ensures
            *r == self@[id as int].value,
    {
        &self.slots[id].value
    }

    /// The owner count of a slot; zero once the object has been freed.
    pub fn refcount(&self, id: usize) -> (c: usize)
        requires
            id < self@.len(),
        ensures
            c as nat == self@[id as int].count,
    {
        self.slots[id].count
    }

    /// The allocation counter: how many objects are currently alive.
    pub fn live_objects(&self) -> (n: usize)
        ensures
            n as nat == count_live(self@),
    {
        let mut n: usize = 0;
        let mut k: usize = 0;
        let len = self.slots.len();
        while k < len
            invariant
                k <= len,
                len == self@.len(),
                n <= k,
                n as nat == count_live(self@.take(k as int)),
            decreases len - k,
        {
            proof {
                assert(self@.take(k + 1).drop_last() =~= self@.take(k as int));
                assert(self@.take(k + 1).last() == self@[k as int]);
            }
            if self.slots[k].count > 0 {
                n = n + 1;
            }
            k = k + 1;
        }
        proof {
            assert(self@.take(len as int) =~= self@);
        }
        n
    }
}

} // verus!
