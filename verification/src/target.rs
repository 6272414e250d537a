//! Capability descriptors: what a pointee type must supply before a handle
//! kind can manage it.
//!
//! A descriptor is not a runtime object. Per concrete pointee type it fixes
//! two strings: the segment spliced into the trampoline link names built by
//! [`crate::symbol`], through which every operation dispatches, and the
//! identifier shown by diagnostics. Two further capabilities are markers with
//! no operations: [`PlainData`] admits by-value construction (for pointees
//! that cannot exist by value on the host side the constructor is not
//! callable at all — a missing capability, not a runtime check), and
//! [`SharedPointee`] declares a pointee safe to reach from several execution
//! contexts at once, which only the full handle kind ever exploits.

use vstd::prelude::*;

verus! {

/// Descriptor for pointees managed through the compact handle kind.
pub trait CompactTarget {
    /// The per-type segment of this pointee's trampoline link names.
    spec fn spec_segment() -> Seq<char>;

    /// The identifier diagnostics display for this pointee.
    spec fn spec_type_ident() -> Seq<char>;

    fn segment() -> (r: &'static str)
        ensures
            r@ == Self::spec_segment(),
    ;

    fn type_ident() -> (r: &'static str)
        ensures
            r@ == Self::spec_type_ident(),
    ;
}

/// Descriptor for pointees managed through the full handle kind.
pub trait FullTarget {
    /// The per-type segment of this pointee's trampoline link names.
    spec fn spec_segment() -> Seq<char>;

    /// The identifier diagnostics display for this pointee.
    spec fn spec_type_ident() -> Seq<char>;

    fn segment() -> (r: &'static str)
        ensures
            r@ == Self::spec_segment(),
    ;

    fn type_ident() -> (r: &'static str)
        ensures
            r@ == Self::spec_type_ident(),
    ;
}

/// Capability of pointee types that exist by value on the host side, so a
/// handle can be constructed from a value. Foreign-opaque pointees lack it,
/// which makes by-value construction of their handles uncallable rather
/// than a defect caught at run time.
pub trait PlainData {}

/// Capability of pointee types declared safe to be referenced and mutated
/// from several execution contexts under the foreign model's
/// synchronization. A full handle may only cross contexts over such a
/// pointee; the compact kind never carries this capability.
pub trait SharedPointee {}

impl CompactTarget for bool {
    open spec fn spec_segment() -> Seq<char> {
        "bool"@
    }

    open spec fn spec_type_ident() -> Seq<char> {
        "bool"@
    }

    fn segment() -> (r: &'static str) {
        "bool"
    }

    fn type_ident() -> (r: &'static str) {
        "bool"
    }
}

impl FullTarget for bool {
    open spec fn spec_segment() -> Seq<char> {
        "bool"@
    }

    open spec fn spec_type_ident() -> Seq<char> {
        "bool"@
    }

    fn segment() -> (r: &'static str) {
        "bool"
    }

    fn type_ident() -> (r: &'static str) {
        "bool"
    }
}

impl PlainData for bool {}

impl SharedPointee for bool {}


impl CompactTarget for u8 {
    open spec fn spec_segment() -> Seq<char> {
        "u8"@
    }

    open spec fn spec_type_ident() -> Seq<char> {
        "u8"@
    }

    fn segment() -> (r: &'static str) {
        "u8"
    }

    fn type_ident() -> (r: &'static str) {
        "u8"
    }
}

impl FullTarget for u8 {
    open spec fn spec_segment() -> Seq<char> {
        "u8"@
    }

    open spec fn spec_type_ident() -> Seq<char> {
        "u8"@
    }

    fn segment() -> (r: &'static str) {
        "u8"
    }

    fn type_ident() -> (r: &'static str) {
        "u8"
    }
}

impl PlainData for u8 {}

impl SharedPointee for u8 {}

impl CompactTarget for u16 {
    open spec fn spec_segment() -> Seq<char> {
        "u16"@
    }

    open spec fn spec_type_ident() -> Seq<char> {
        "u16"@
    }

    fn segment() -> (r: &'static str) {
        "u16"
    }

    fn type_ident() -> (r: &'static str) {
        "u16"
    }
}

impl FullTarget for u16 {
    open spec fn spec_segment() -> Seq<char> {
        "u16"@
    }

    open spec fn spec_type_ident() -> Seq<char> {
        "u16"@
    }

    fn segment() -> (r: &'static str) {
        "u16"
    }

    fn type_ident() -> (r: &'static str) {
        "u16"
    }
}

impl PlainData for u16 {}

impl SharedPointee for u16 {}

impl CompactTarget for u32 {
    open spec fn spec_segment() -> Seq<char> {
        "u32"@
    }

    open spec fn spec_type_ident() -> Seq<char> {
        "u32"@
    }

    fn segment() -> (r: &'static str) {
        "u32"
    }

    fn type_ident() -> (r: &'static str) {
        "u32"
    }
}

impl FullTarget for u32 {
    open spec fn spec_segment() -> Seq<char> {
        "u32"@
    }

    open spec fn spec_type_ident() -> Seq<char> {
        "u32"@
    }

    fn segment() -> (r: &'static str) {
        "u32"
    }

    fn type_ident() -> (r: &'static str) {
        "u32"
    }
}

impl PlainData for u32 {}

impl SharedPointee for u32 {}

impl CompactTarget for u64 {
    open spec fn spec_segment() -> Seq<char> {
        "u64"@
    }

    open spec fn spec_type_ident() -> Seq<char> {
        "u64"@
    }

    fn segment() -> (r: &'static str) {
        "u64"
    }

    fn type_ident() -> (r: &'static str) {
        "u64"
    }
}

impl FullTarget for u64 {
    open spec fn spec_segment() -> Seq<char> {
        "u64"@
    }

    open spec fn spec_type_ident() -> Seq<char> {
        "u64"@
    }

    fn segment() -> (r: &'static str) {
        "u64"
    }

    fn type_ident() -> (r: &'static str) {
        "u64"
    }
}

impl PlainData for u64 {}

impl SharedPointee for u64 {}

impl CompactTarget for usize {
    open spec fn spec_segment() -> Seq<char> {
        "usize"@
    }

    open spec fn spec_type_ident() -> Seq<char> {
        "usize"@
    }

    fn segment() -> (r: &'static str) {
        "usize"
    }

    fn type_ident() -> (r: &'static str) {
        "usize"
    }
}

impl FullTarget for usize {
    open spec fn spec_segment() -> Seq<char> {
        "usize"@
    }

    open spec fn spec_type_ident() -> Seq<char> {
        "usize"@
    }

    fn segment() -> (r: &'static str) {
        "usize"
    }

    fn type_ident() -> (r: &'static str) {
        "usize"
    }
}

impl PlainData for usize {}

impl SharedPointee for usize {}

impl CompactTarget for i8 {
    open spec fn spec_segment() -> Seq<char> {
        "i8"@
    }

    open spec fn spec_type_ident() -> Seq<char> {
        "i8"@
    }

    fn segment() -> (r: &'static str) {
        "i8"
    }

    fn type_ident() -> (r: &'static str) {
        "i8"
    }
}

impl FullTarget for i8 {
    open spec fn spec_segment() -> Seq<char> {
        "i8"@
    }

    open spec fn spec_type_ident() -> Seq<char> {
        "i8"@
    }

    fn segment() -> (r: &'static str) {
        "i8"
    }

    fn type_ident() -> (r: &'static str) {
        "i8"
    }
}

impl PlainData for i8 {}

impl SharedPointee for i8 {}

impl CompactTarget for i16 {
    open spec fn spec_segment() -> Seq<char> {
        "i16"@
    }

    open spec fn spec_type_ident() -> Seq<char> {
        "i16"@
    }

    fn segment() -> (r: &'static str) {
        "i16"
    }

    fn type_ident() -> (r: &'static str) {
        "i16"
    }
}

impl FullTarget for i16 {
    open spec fn spec_segment() -> Seq<char> {
        "i16"@
    }

    open spec fn spec_type_ident() -> Seq<char> {
        "i16"@
    }

    fn segment() -> (r: &'static str) {
        "i16"
    }

    fn type_ident() -> (r: &'static str) {
        "i16"
    }
}

impl PlainData for i16 {}

impl SharedPointee for i16 {}

impl CompactTarget for i32 {
    open spec fn spec_segment() -> Seq<char> {
        "i32"@
    }

    open spec fn spec_type_ident() -> Seq<char> {
        "i32"@
    }

    fn segment() -> (r: &'static str) {
        "i32"
    }

    fn type_ident() -> (r: &'static str) {
        "i32"
    }
}

impl FullTarget for i32 {
    open spec fn spec_segment() -> Seq<char> {
        "i32"@
    }

    open spec fn spec_type_ident() -> Seq<char> {
        "i32"@
    }

    fn segment() -> (r: &'static str) {
        "i32"
    }

    fn type_ident() -> (r: &'static str) {
        "i32"
    }
}

impl PlainData for i32 {}

impl SharedPointee for i32 {}

impl CompactTarget for i64 {
    open spec fn spec_segment() -> Seq<char> {
        "i64"@
    }

    open spec fn spec_type_ident() -> Seq<char> {
        "i64"@
    }

    fn segment() -> (r: &'static str) {
        "i64"
    }

    fn type_ident() -> (r: &'static str) {
        "i64"
    }
}

impl FullTarget for i64 {
    open spec fn spec_segment() -> Seq<char> {
        "i64"@
    }

    open spec fn spec_type_ident() -> Seq<char> {
        "i64"@
    }

    fn segment() -> (r: &'static str) {
        "i64"
    }

    fn type_ident() -> (r: &'static str) {
        "i64"
    }
}

impl PlainData for i64 {}

impl SharedPointee for i64 {}

impl CompactTarget for isize {
    open spec fn spec_segment() -> Seq<char> {
        "isize"@
    }

    open spec fn spec_type_ident() -> Seq<char> {
        "isize"@
    }

    fn segment() -> (r: &'static str) {
        "isize"
    }

    fn type_ident() -> (r: &'static str) {
        "isize"
    }
}

impl FullTarget for isize {
    open spec fn spec_segment() -> Seq<char> {
        "isize"@
    }

    open spec fn spec_type_ident() -> Seq<char> {
        "isize"@
    }

    fn segment() -> (r: &'static str) {
        "isize"
    }

    fn type_ident() -> (r: &'static str) {
        "isize"
    }
}

impl PlainData for isize {}

impl SharedPointee for isize {}

impl CompactTarget for String {
    open spec fn spec_segment() -> Seq<char> {
        "string"@
    }

    open spec fn spec_type_ident() -> Seq<char> {
        "String"@
    }

    fn segment() -> (r: &'static str) {
        "string"
    }

    fn type_ident() -> (r: &'static str) {
        "String"
    }
}

impl FullTarget for String {
    open spec fn spec_segment() -> Seq<char> {
        "string"@
    }

    open spec fn spec_type_ident() -> Seq<char> {
        "String"@
    }

    fn segment() -> (r: &'static str) {
        "string"
    }

    fn type_ident() -> (r: &'static str) {
        "String"
    }
}

impl PlainData for String {}

impl SharedPointee for String {}

} // verus!
