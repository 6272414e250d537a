//! The compact handle kind: a one-word control block with a non-atomic
//! owner count.
//!
//! A `CompactHandle<T>` either owns nothing (null) or is one of the joint
//! owners of a foreign object. It never interprets its control block; every
//! operation goes to the runtime's entry points, dispatched for `T` through
//! the link names of [`crate::symbol`]. Because the count is not atomic, a
//! compact handle must stay within a single execution context — it carries
//! no cross-context capability, whatever its pointee declares.

use core::marker::PhantomData;
use vstd::prelude::*;
use vstd::string::StringExecFns;

use crate::runtime::Runtime;
use crate::runtime::allocate_model;
use crate::runtime::decref_model;
use crate::runtime::incref_model;
use crate::symbol::compact_kind;
use crate::symbol::mangle;
use crate::symbol::symbol_model;
use crate::target::CompactTarget;
use crate::target::PlainData;

verus! {

/// A handle of the compact kind over pointee type `T`.
///
/// Its view is the slot of the foreign object it owns jointly, or `None`
/// for a null handle. A handle is never copied bytewise: a second owner of
/// the same object only ever arises through [`CompactHandle::clone_in`],
/// which tells the runtime; and ownership only ever ends through
/// [`CompactHandle::release`], which consumes the handle, so each handle
/// releases at most once by construction.
pub struct CompactHandle<T: CompactTarget> {
    slot: Option<usize>,
    pointee: PhantomData<T>,
}

impl<T: CompactTarget> View for CompactHandle<T> {
    type V = Option<int>;

    closed spec fn view(&self) -> Option<int> {
        match self.slot {
            Option::Some(i) => Option::Some(i as int),
            Option::None => Option::None,
        }
    }
}

impl<T: CompactTarget> CompactHandle<T> {
    /// A handle is meaningful against a runtime when it is null or owns a
    /// live slot of it. Operations keep every owner's handle valid.
    pub open spec fn valid_in(&self, rt: Runtime<T>) -> bool {
        match self@ {
            Option::Some(i) => 0 <= i < rt@.len() && rt@[i].count > 0,
            Option::None => true,
        }
    }

    /// Makes a handle owning nothing, as the `null` entry point does.
    pub fn null() -> (h: Self)
        ensures
            h@ is None,
    {
        CompactHandle { slot: None, pointee: PhantomData }
    }

    /// Allocates a foreign object holding `value` and returns its first
    /// owning handle. Only pointees that exist by value on the host side
    /// can be constructed this way; for any other pointee this operation
    /// does not exist.
    pub fn new(rt: &mut Runtime<T>, value: T) -> (h: Self) where T: PlainData
        ensures
            final(rt)@ == allocate_model(old(rt)@, value),
            h@ == Option::Some(old(rt)@.len() as int),
            h.valid_in(*final(rt)),
    {
        let id = rt.allocate(value);
        CompactHandle { slot: Some(id), pointee: PhantomData }
    }

    /// True exactly when the handle owns nothing.
    pub fn is_null(&self) -> (b: bool)
        ensures
            b == (self@ is None),
    {
        match self.slot {
            Some(_) => false,
            None => true,
        }
    }

    /// Borrows the owned object if there is one; a null handle yields
    /// `None`. No ownership moves and no count changes.
    pub fn as_ref<'a>(&self, rt: &'a Runtime<T>) -> (r: Option<&'a T>)
        requires
            self.valid_in(*rt),
        ensures
            match self@ {
                Option::Some(i) => r matches Option::Some(v) && *v == rt@[i].value,
                Option::None => r is None,
            },
    {
        match self.slot {
            Some(id) => Some(rt.read(id)),
            None => None,
        }
    }

    /// Borrows the owned object of a non-null handle. Dereferencing a null
    /// handle is a defect, not a recoverable condition, so null handles are
    /// excluded here; a caller that cannot exclude them reports
    /// [`CompactHandle::null_deref_message`] fatally instead of obtaining
    /// any reference.
    pub fn deref<'a>(&self, rt: &'a Runtime<T>) -> (r: &'a T)
        requires
            self.valid_in(*rt),
            self@ is Some,
        ensures
            self@ matches Option::Some(i) && *r == rt@[i].value,
    {
        rt.read(self.slot.unwrap())
    }

    /// Makes a further owner of the same object: the `clone` trampoline
    /// raises the count and writes a fresh control block. Cloning a null
    /// handle makes another null handle and tells the runtime nothing.
    pub fn clone_in(&self, rt: &mut Runtime<T>) -> (h: Self)
        requires
            self.valid_in(*old(rt)),
            self@ matches Option::Some(i) ==> old(rt)@[i].count < usize::MAX,
        ensures
            h@ == self@,
            match self@ {
                Option::Some(i) => final(rt)@ == incref_model(old(rt)@, i),
                Option::None => final(rt)@ == old(rt)@,
            },
            h.valid_in(*final(rt)),
            self.valid_in(*final(rt)),
    {
        match self.slot {
            Some(id) => {
                rt.incref(id);
                CompactHandle { slot: Some(id), pointee: PhantomData }
            },
            None => CompactHandle { slot: None, pointee: PhantomData },
        }
    }

    /// Gives up this handle's ownership: the `drop` trampoline lowers the
    /// count and frees the object when this owner was the last, which the
    /// result reports. Releasing a null handle does nothing. The handle is
    /// consumed, so its release happens at most once however many owners
    /// were cloned from it.
    pub fn release(self, rt: &mut Runtime<T>) -> (freed: bool)
        requires
            self.valid_in(*old(rt)),
        ensures
            match self@ {
                Option::Some(i) => final(rt)@ == decref_model(old(rt)@, i) && (freed <==> old(
                    rt,
                )@[i].count == 1),
                Option::None => final(rt)@ == old(rt)@ && !freed,
            },
    {
        match self.slot {
            Some(id) => rt.decref(id),
            None => false,
        }
    }

    /// The link name through which an operation on this pointee's compact
    /// handles dispatches.
    pub fn trampoline_symbol(op: &str) -> (r: String)
        ensures
            r@ == symbol_model("compact"@, T::spec_segment(), op@),
    {
        mangle(compact_kind(), T::segment(), op)
    }

    /// The diagnostic a caller reports when it finds itself dereferencing a
    /// null handle: it names the pointee's type identifier.
    pub fn null_deref_message() -> (m: String)
        ensures
            m@ == "called deref on a null CompactHandle<"@ + T::spec_type_ident() + ">"@,
    {
        String::from_str("called deref on a null CompactHandle<").concat(T::type_ident()).concat(
            ">",
        )
    }
}

} // verus!
