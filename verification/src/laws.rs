//! What the ownership discipline guarantees, proved once over the runtime
//! model that every handle contract is stated in.

use vstd::prelude::*;

use crate::runtime::SlotModel;
use crate::runtime::allocate_model;
use crate::runtime::count_live;
use crate::runtime::decref_model;
use crate::runtime::incref_model;
use crate::runtime::lemma_count_live_push;
use crate::runtime::lemma_count_live_update;
use crate::target::SharedPointee;

verus! {

/// Construction allocates exactly one new object: it arrives with a single
/// owner, holding the given value, and raises the allocation counter by one
/// without touching any other slot.
pub proof fn lemma_new_allocates_one<T>(s: Seq<SlotModel<T>>, value: T)
    ensures
        allocate_model(s, value).len() == s.len() + 1,
        allocate_model(s, value)[s.len() as int].count == 1,
        allocate_model(s, value)[s.len() as int].value == value,
        count_live(allocate_model(s, value)) == count_live(s) + 1,
{
    lemma_count_live_push(s, SlotModel { count: 1nat, value });
}

/// Cloning aliases, never copies: the new owner's slot is the old one's,
/// the object's value is untouched, and the object stays alive.
pub proof fn lemma_clone_aliases_same_object<T>(s: Seq<SlotModel<T>>, i: int)
    requires
        0 <= i < s.len(),
        s[i].count > 0,
    ensures
        incref_model(s, i)[i].value == s[i].value,
        incref_model(s, i)[i].count == s[i].count + 1,
        count_live(incref_model(s, i)) == count_live(s),
{
    lemma_count_live_update(s, i, incref_model(s, i)[i]);
}

/// Dropping one of several joint owners does not invalidate the others:
/// the object stays alive and keeps its value.
pub proof fn lemma_release_keeps_shared_object<T>(s: Seq<SlotModel<T>>, i: int)
    requires
        0 <= i < s.len(),
        s[i].count >= 2,
    ensures
        decref_model(s, i)[i].count == s[i].count - 1,
        decref_model(s, i)[i].count > 0,
        decref_model(s, i)[i].value == s[i].value,
        count_live(decref_model(s, i)) == count_live(s),
{
    lemma_count_live_update(s, i, decref_model(s, i)[i]);
}

/// A release frees the object exactly when it ends the last ownership:
/// the allocation counter drops by one then, and not otherwise.
pub proof fn lemma_last_release_frees<T>(s: Seq<SlotModel<T>>, i: int)
    requires
        0 <= i < s.len(),
        s[i].count > 0,
    ensures
        s[i].count == 1 ==> decref_model(s, i)[i].count == 0 && count_live(decref_model(s, i))
            == count_live(s) - 1,
        s[i].count >= 2 ==> decref_model(s, i)[i].count > 0 && count_live(decref_model(s, i))
            == count_live(s),
{
    lemma_count_live_update(s, i, decref_model(s, i)[i]);
}

/// Two execution contexts may each hold a full-handle clone of one object
/// over a pointee declared shareable, and release in whichever order the
/// schedule happens to take: the object stays alive until both owners are
/// gone, and the runtime ends in the same state either way.
pub proof fn lemma_release_order_immaterial<T: SharedPointee>(s: Seq<SlotModel<T>>, i: int, j: int)
    requires
        0 <= i < s.len(),
        0 <= j < s.len(),
        i != j ==> s[i].count >= 1 && s[j].count >= 1,
        i == j ==> s[i].count >= 2,
    ensures
        decref_model(decref_model(s, i), j) == decref_model(decref_model(s, j), i),
        i == j ==> decref_model(s, i)[i].count > 0,
        i == j && s[i].count == 2 ==> decref_model(decref_model(s, i), j)[i].count == 0,
{
    assert(decref_model(decref_model(s, i), j) =~= decref_model(decref_model(s, j), i));
}

} // verus!
