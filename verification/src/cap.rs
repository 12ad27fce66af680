//! Opaque 128-bit capability identifiers.

use vstd::prelude::*;

verus! {

broadcast use vstd::array::group_array_axioms;

/// A 128-bit capability id (opaque).
///
/// A capability id names a kernel-protected object. It is a pure value: it
/// has no internal structure beyond its 16 raw bytes, equality is byte-wise,
/// and no ordering is defined. The all-zero value is the reserved `nil`
/// sentinel meaning "no capability"; it is never assigned to a live object.
#[derive(Copy, Clone, Eq, PartialEq, Debug)]
#[verifier::ext_equal]
pub struct Cap([u8; 16]);

/// The byte image of the reserved all-zero sentinel.
pub open spec fn nil_bytes() -> Seq<u8> {
    Seq::new(16, |i: int| 0u8)
}

impl View for Cap {
    type V = Seq<u8>;

    closed spec fn view(&self) -> Seq<u8> {
        self.0@
    }
}

/// Every capability id views as exactly 16 bytes.
pub broadcast proof fn lemma_cap_len(c: Cap)
    ensures
        (#[trigger] c@).len() == 16,
{
}

/// A capability id is nothing but its bytes: ids with equal byte views are
/// the same id.
pub broadcast proof fn lemma_cap_eq_bytes(a: Cap, b: Cap)
    ensures
        (#[trigger] a@ == #[trigger] b@) ==> a == b,
{
    if a@ == b@ {
        assert(a.0 =~= b.0);
        assert(a =~= b);
    }
}

impl Cap {
    /// Builds a capability id from raw bytes, total and without validation:
    /// any 16-byte value is constructible, the all-zero sentinel included.
    /// Whether a nonzero id names a live object is a kernel-table property
    /// that this type does not enforce.
    pub fn new(bytes: [u8; 16]) -> (r: Cap)
        ensures
            r@ == bytes@,
    {
        Cap(bytes)
    }

    /// The reserved all-zero "no capability" sentinel.
    pub fn nil() -> (r: Cap)
        ensures
            r@ == nil_bytes(),
    {
        let r = Cap([0u8; 16]);
        proof {
            assert(r@ =~= nil_bytes());
        }
        r
    }

    /// Read-only view of the raw bytes.
    pub fn bytes(&self) -> (r: &[u8; 16])
        ensures
            r@ == self@,
    {
        &self.0
    }
}

/// Nil sentinel distinctness: a capability id equals the sentinel exactly
/// when all of its bytes are zero. In particular the sentinel equals itself,
/// and differs from every id built from a byte array that is nonzero
/// somewhere.
pub proof fn lemma_nil_distinct(n: Cap, c: Cap)
    requires
        n@ == nil_bytes(),
    ensures
        (c == n) <==> (forall|i: int| 0 <= i < 16 ==> c@[i] == 0),
{
    broadcast use lemma_cap_len, lemma_cap_eq_bytes;

    if forall|i: int| 0 <= i < 16 ==> c@[i] == 0 {
        assert(c@ =~= nil_bytes());
    }
}

} // verus!
