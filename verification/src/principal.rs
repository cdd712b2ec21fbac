use vstd::prelude::*;

verus! {

/// An opaque authenticated identity, held as the bytes that name it.
#[derive(Debug)]
pub struct Principal {
    bytes: Vec<u8>,
}

impl View for Principal {
    type V = Seq<u8>;

    closed spec fn view(&self) -> Seq<u8> {
        self.bytes@
    }
}

/// The identifier that the administrative service gave a unit at creation.
#[derive(Debug)]
pub struct UnitId {
    bytes: Vec<u8>,
}

impl View for UnitId {
    type V = Seq<u8>;

    closed spec fn view(&self) -> Seq<u8> {
        self.bytes@
    }
}

/// The names of a list of principals, in order.
pub open spec fn names(list: Seq<Principal>) -> Seq<Seq<u8>> {
    Seq::new(list.len(), |i: int| list[i]@)
}

/// A fresh vector with the same bytes.
pub fn copy_bytes(src: &Vec<u8>) -> (out: Vec<u8>)
    ensures
        out@ == src@,
{
    let mut out: Vec<u8> = Vec::new();
    let mut i: usize = 0;
    while i < src.len()
        invariant
            i <= src.len(),
            out@ == src@.take(i as int),
        decreases src.len() - i,
    {
        out.push(src[i]);
        i += 1;
        assert(out@ =~= src@.take(i as int));
    }
    assert(src@.take(src.len() as int) =~= src@);
    out
}

/// Whether two byte strings are equal.
pub fn bytes_equal(a: &Vec<u8>, b: &Vec<u8>) -> (same: bool)
    ensures
        same == (a@ == b@),
{
    if a.len() != b.len() {
        return false;
    }
    let mut i: usize = 0;
    while i < a.len()
        invariant
            i <= a.len(),
            a.len() == b.len(),
            forall|k: int| 0 <= k < i ==> a@[k] == b@[k],
        decreases a.len() - i,
    {
        if a[i] != b[i] {
            return false;
        }
        i += 1;
    }
    assert(a@ =~= b@);
    true
}

impl Principal {
    /// The principal that the given bytes name.
    pub fn from_bytes(bytes: Vec<u8>) -> (p: Principal)
        ensures
            p@ == bytes@,
    {
        Principal { bytes }
    }

    /// The bytes that name this principal.
    pub fn as_bytes(&self) -> (bytes: &Vec<u8>)
        ensures
            bytes@ == self@,
    {
        &self.bytes
    }

    /// Whether both are the same identity.
    pub fn same(&self, other: &Principal) -> (same: bool)
        ensures
            same == (self@ == other@),
    {
        bytes_equal(&self.bytes, &other.bytes)
    }

    /// A second handle on the same identity.
    pub fn duplicate(&self) -> (p: Principal)
        ensures
            p@ == self@,
    {
        Principal { bytes: copy_bytes(&self.bytes) }
    }
}

impl UnitId {
    /// The identifier that the given bytes spell.
    pub fn from_bytes(bytes: Vec<u8>) -> (id: UnitId)
        ensures
            id@ == bytes@,
    {
        UnitId { bytes }
    }

    /// The bytes of this identifier.
    pub fn as_bytes(&self) -> (bytes: &Vec<u8>)
        ensures
            bytes@ == self@,
    {
        &self.bytes
    }

    /// Whether both identify the same unit.
    pub fn same(&self, other: &UnitId) -> (same: bool)
        ensures
            same == (self@ == other@),
    {
        bytes_equal(&self.bytes, &other.bytes)
    }

    /// A second handle on the same identifier.
    pub fn duplicate(&self) -> (id: UnitId)
        ensures
            id@ == self@,
    {
        UnitId { bytes: copy_bytes(&self.bytes) }
    }
}

/// A fresh list that names the same principals in the same order.
pub fn duplicate_all(list: &Vec<Principal>) -> (out: Vec<Principal>)
    ensures
        names(out@) == names(list@),
{
    let mut out: Vec<Principal> = Vec::new();
    let mut i: usize = 0;
    while i < list.len()
        invariant
            i <= list.len(),
            out.len() == i,
            forall|k: int| 0 <= k < i ==> out@[k]@ == list@[k]@,
        decreases list.len() - i,
    {
        out.push(list[i].duplicate());
        i += 1;
    }
    assert(names(out@) =~= names(list@));
    out
}

} // verus!
