//! The full handle kind: a two-word control block with an atomic owner
//! count.
//!
//! A `FullHandle<T>` either owns nothing (null) or is one of the joint
//! owners of a foreign object. It never interprets its control block; every
//! operation goes to the runtime's entry points, dispatched for `T` through
//! the link names of [`crate::symbol`]. Because the count is atomic, full
//! handles over a pointee that declares [`crate::target::SharedPointee`]
//! may be cloned and released from several execution contexts at once —
//! [`crate::laws`] states what that leaves of the counts; over any other
//! pointee a full handle is confined to one context, like the compact kind.

use core::marker::PhantomData;
use vstd::prelude::*;
use vstd::string::StringExecFns;

use crate::runtime::Runtime;
use crate::runtime::allocate_model;
use crate::runtime::decref_model;
use crate::runtime::incref_model;
use crate::symbol::full_kind;
use crate::symbol::mangle;
use crate::symbol::symbol_model;
use crate::target::FullTarget;
use crate::target::PlainData;

verus! {

/// A handle of the full kind over pointee type `T`.
///
/// Its view is the slot of the foreign object it owns jointly, or `None`
/// for a null handle. A handle is never copied bytewise: a second owner of
/// the same object only ever arises through [`FullHandle::clone_in`],
/// which tells the runtime; and ownership only ever ends through
/// [`FullHandle::release`], which consumes the handle, so each handle
/// releases at most once by construction.
pub struct FullHandle<T: FullTarget> {
    slot: Option<usize>,
    pointee: PhantomData<T>,
}

impl<T: FullTarget> View for FullHandle<T> {
    type V = Option<int>;

    closed spec fn view(&self) -> Option<int> {
        match self.slot {
            Option::Some(i) => Option::Some(i as int),
            Option::None => Option::None,
        }
    }
}

impl<T: FullTarget> FullHandle<T> {
    /// A handle is meaningful against a runtime when it is null or owns a
    /// live slot of it. Operations keep every owner's handle valid.
    pub open spec fn valid_in(&self, rt: Runtime<T>) -> bool {
        match self@ {
            Option::Some(i) => 0 <= i < rt@.len() && rt@[i].count > 0,
            Option::None => true,
        }
    }

    /// Makes a handle owning nothing, as the `null` entry point does.
    pub fn null() -> (h: Self)
        ensures
            h@ is None,
    {
        FullHandle { slot: None, pointee: PhantomData }
    }

    /// Allocates a foreign object holding `value` and returns its first
    /// owning handle. Only pointees that exist by value on the host side
    /// can be constructed this way; for any other pointee this operation
    /// does not exist.
    pub fn new(rt: &mut Runtime<T>, value: T) -> (h: Self) where T: PlainData
        ensures
            final(rt)@ == allocate_model(old(rt)@, value),
            h@ == Option::Some(old(rt)@.len() as int),
            h.valid_in(*final(rt)),
    {
        let id = rt.allocate(value);
        FullHandle { slot: Some(id), pointee: PhantomData }
    }

    /// True exactly when the handle owns nothing.
    pub fn is_null(&self) -> (b: bool)
        ensures
            b == (self@ is None),
    {
        match self.slot {
            Some(_) => false,
            None => true,
        }
    }

    /// Borrows the owned object if there is one; a null handle yields
    /// `None`. No ownership moves and no count changes.
    pub fn as_ref<'a>(&self, rt: &'a Runtime<T>) -> (r: Option<&'a T>)
        requires
            self.valid_in(*rt),
        ensures
            match self@ {
                Option::Some(i) => r matches Option::Some(v) && *v == rt@[i].value,
                Option::None => r is None,
            },
    {
        match self.slot {
            Some(id) => Some(rt.read(id)),
            None => None,
        }
    }

    /// Borrows the owned object of a non-null handle. Dereferencing a null
    /// handle is a defect, not a recoverable condition, so null handles are
    /// excluded here; a caller that cannot exclude them reports
    /// [`FullHandle::null_deref_message`] fatally instead of obtaining
    /// any reference.
    pub fn deref<'a>(&self, rt: &'a Runtime<T>) -> (r: &'a T)
        requires
            self.valid_in(*rt),
            self@ is Some,
        ensures
            self@ matches Option::Some(i) && *r == rt@[i].value,
    {
        rt.read(self.slot.unwrap())
    }

    /// Makes a further owner of the same object: the `clone` trampoline
    /// raises the count and writes a fresh control block. Cloning a null
    /// handle makes another null handle and tells the runtime nothing.
    pub fn clone_in(&self, rt: &mut Runtime<T>) -> (h: Self)
        requires
            self.valid_in(*old(rt)),
            self@ matches Option::Some(i) ==> old(rt)@[i].count < usize::MAX,
        ensures
            h@ == self@,
            match self@ {
                Option::Some(i) => final(rt)@ == incref_model(old(rt)@, i),
                Option::None => final(rt)@ == old(rt)@,
            },
            h.valid_in(*final(rt)),
            self.valid_in(*final(rt)),
    {
        match self.slot {
            Some(id) => {
                rt.incref(id);
                FullHandle { slot: Some(id), pointee: PhantomData }
            },
            None => FullHandle { slot: None, pointee: PhantomData },
        }
    }

    /// Gives up this handle's ownership: the `drop` trampoline lowers the
    /// count and frees the object when this owner was the last, which the
    /// result reports. Releasing a null handle does nothing. The handle is
    /// consumed, so its release happens at most once however many owners
    /// were cloned from it.
    pub fn release(self, rt: &mut Runtime<T>) -> (freed: bool)
        requires
            self.valid_in(*old(rt)),
        ensures
            match self@ {
                Option::Some(i) => final(rt)@ == decref_model(old(rt)@, i) && (freed <==> old(
                    rt,
                )@[i].count == 1),
                Option::None => final(rt)@ == old(rt)@ && !freed,
            },
    {
        match self.slot {
            Some(id) => rt.decref(id),
            None => false,
        }
    }

    /// The link name through which an operation on this pointee's full
    /// handles dispatches.
    pub fn trampoline_symbol(op: &str) -> (r: String)
        ensures
            r@ == symbol_model("full"@, T::spec_segment(), op@),
    {
        mangle(full_kind(), T::segment(), op)
    }

    /// The diagnostic a caller reports when it finds itself dereferencing a
    /// null handle: it names the pointee's type identifier.
    pub fn null_deref_message() -> (m: String)
        ensures
            m@ == "called deref on a null FullHandle<"@ + T::spec_type_ident() + ">"@,
    {
        String::from_str("called deref on a null FullHandle<").concat(T::type_ident()).concat(
            ">",
        )
    }
}

} // verus!
