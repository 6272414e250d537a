//! The trampoline naming convention: the whole of the dispatch mechanism.
//!
//! For every (handle kind, pointee type) pair the foreign side exports five
//! entry points — `null`, `uninit`, `clone`, `get`, `drop` — and each one's
//! link name is built deterministically from a fixed prefix, the handle
//! kind's segment, the pointee's segment and the operation name. Resolution
//! happens when the program is linked: there is no table of function
//! pointers and no runtime type tag.

use vstd::prelude::*;
use vstd::string::StringExecFns;

verus! {

/// A trampoline link name: prefix, handle kind, pointee segment and
/// operation name, joined by the separator.
pub open spec fn symbol_model(kind: Seq<char>, segment: Seq<char>, op: Seq<char>) -> Seq<char> {
    "bridge1$"@ + kind + "$"@ + segment + "$"@ + op
}

/// The kind segment of the compact handle.
pub fn compact_kind() -> (r: &'static str)
    ensures
        r@ == "compact"@,
{
    "compact"
}

/// The kind segment of the full handle.
pub fn full_kind() -> (r: &'static str)
    ensures
        r@ == "full"@,
{
    "full"
}

/// Builds the link name of one trampoline entry point.
pub fn mangle(kind: &str, segment: &str, op: &str) -> (r: String)
    ensures
        r@ == symbol_model(kind@, segment@, op@),
{
    String::from_str("bridge1$").concat(kind).concat("$").concat(segment).concat("$").concat(op)
}

/// Holds of every kind and pointee segment the bridge uses: the separator
/// appears in neither, which is what keeps the built names unambiguous.
pub open spec fn separator_free(s: Seq<char>) -> bool {
    forall|i: int| 0 <= i < s.len() ==> s[i] != '$'
}

/// Joining two separator-free parts with the separator loses nothing: the
/// joined string determines both parts.
proof fn lemma_separated_parts_unique(a: Seq<char>, x: Seq<char>, b: Seq<char>, y: Seq<char>)
    requires
        separator_free(a),
        separator_free(b),
        a + "$"@ + x == b + "$"@ + y,
    ensures
        a == b,
        x == y,
{
    reveal_strlit("$");
    let s = a + "$"@ + x;
    assert(s[a.len() as int] == '$');
    assert(s[b.len() as int] == '$');
    if a.len() < b.len() {
        assert(s[a.len() as int] == b[a.len() as int]);
        assert(false);
    }
    if b.len() < a.len() {
        assert(s[b.len() as int] == a[b.len() as int]);
        assert(false);
    }
    assert forall|i: int| 0 <= i < a.len() implies a[i] == b[i] by {
        assert(s[i] == a[i]);
        assert((b + "$"@ + y)[i] == b[i]);
    }
    assert(a =~= b);
    assert(s.len() == a.len() + 1 + x.len());
    assert((b + "$"@ + y).len() == b.len() + 1 + y.len());
    assert(x.len() == y.len());
    assert forall|j: int| 0 <= j < x.len() implies x[j] == y[j] by {
        assert(s[a.len() + 1 + j] == x[j]);
        assert((b + "$"@ + y)[b.len() + 1 + j] == y[j]);
    }
    assert(x =~= y);
}

/// The convention never aliases: two trampoline names are equal only when
/// kind, pointee segment and operation all agree, so a resolved symbol
/// identifies one binding of one descriptor.
pub proof fn lemma_symbol_identifies_binding(
    k1: Seq<char>,
    s1: Seq<char>,
    o1: Seq<char>,
    k2: Seq<char>,
    s2: Seq<char>,
    o2: Seq<char>,
)
    requires
        separator_free(k1),
        separator_free(k2),
        separator_free(s1),
        separator_free(s2),
        symbol_model(k1, s1, o1) == symbol_model(k2, s2, o2),
    ensures
        k1 == k2,
        s1 == s2,
        o1 == o2,
{
    let p = "bridge1$"@;
    let t1 = k1 + "$"@ + (s1 + "$"@ + o1);
    let t2 = k2 + "$"@ + (s2 + "$"@ + o2);
    assert(symbol_model(k1, s1, o1) =~= p + t1);
    assert(symbol_model(k2, s2, o2) =~= p + t2);
    assert(t1 =~= (p + t1).skip(p.len() as int));
    assert(t2 =~= (p + t2).skip(p.len() as int));
    lemma_separated_parts_unique(k1, s1 + "$"@ + o1, k2, s2 + "$"@ + o2);
    lemma_separated_parts_unique(s1, o1, s2, o2);
}

/// Distinct operations get distinct link names for the same pointee and
/// kind: the convention never aliases two entry points of one descriptor.
pub proof fn lemma_symbol_separates_ops(
    kind: Seq<char>,
    segment: Seq<char>,
    op1: Seq<char>,
    op2: Seq<char>,
)
    requires
        op1 != op2,
    ensures
        symbol_model(kind, segment, op1) != symbol_model(kind, segment, op2),
{
    let head = "bridge1$"@ + kind + "$"@ + segment + "$"@;
    assert(symbol_model(kind, segment, op1) == head + op1);
    assert(symbol_model(kind, segment, op2) == head + op2);
    if symbol_model(kind, segment, op1) == symbol_model(kind, segment, op2) {
        assert((head + op1).skip(head.len() as int) =~= op1);
        assert((head + op2).skip(head.len() as int) =~= op2);
        assert(op1 == op2);
    }
}

} // verus!
