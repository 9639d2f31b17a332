//! Opaque hash identifiers: key hashes and script hashes.
//!
//! Both are fixed-length byte identifiers produced by an external crypto
//! library and compared by value; this crate only moves them around.

use vstd::prelude::*;

verus! {

/// Number of bytes in a key hash or a script hash.
pub const HASH_BYTE_LEN: usize = 28;

/// Hash of an Ed25519 public key: an opaque fixed-length byte identifier,
/// compared by value.
#[derive(Clone, Debug)]
pub struct Ed25519KeyHash {
    bytes: Vec<u8>,
}

/// Hash of a script: an opaque fixed-length byte identifier, compared by
/// value.
#[derive(Clone, Debug)]
pub struct ScriptHash {
    bytes: Vec<u8>,
}

impl View for Ed25519KeyHash {
    type V = Seq<u8>;

    closed spec fn view(&self) -> Seq<u8> {
        self.bytes@
    }
}

impl View for ScriptHash {
    type V = Seq<u8>;

    closed spec fn view(&self) -> Seq<u8> {
        self.bytes@
    }
}

/// Byte-for-byte comparison of two byte vectors.
fn bytes_eq(a: &Vec<u8>, b: &Vec<u8>) -> (r: bool)
    ensures
        r == (a@ == b@),
{
    if a.len() != b.len() {
        return false;
    }
    let mut i: usize = 0;
    while i < a.len()
        invariant
            i <= a@.len(),
            a@.len() == b@.len(),
            forall|j: int| 0 <= j < i ==> a@[j] == b@[j],
        decreases a@.len() - i,
    {
        if a[i] != b[i] {
            return false;
        }
        i += 1;
    }
    proof {
        assert(a@ =~= b@);
    }
    true
}

/// Byte-for-byte copy of a byte vector.
fn copy_bytes(v: &Vec<u8>) -> (r: Vec<u8>)
    ensures
        r@ == v@,
{
    let mut out: Vec<u8> = Vec::new();
    let mut i: usize = 0;
    while i < v.len()
        invariant
            i <= v@.len(),
            out@ == v@.take(i as int),
        decreases v@.len() - i,
    {
        out.push(v[i]);
        proof {
            assert(v@.take(i + 1 as int) =~= v@.take(i as int).push(v@[i as int]));
        }
        i += 1;
    }
    proof {
        assert(v@.take(v@.len() as int) =~= v@);
    }
    out
}

impl Ed25519KeyHash {
    /// Reinterprets raw bytes as a key hash; yields a value exactly when the
    /// byte length is valid for a key hash.
    pub fn from_raw_bytes(bytes: &Vec<u8>) -> (r: Option<Ed25519KeyHash>)
        ensures
            r is Some <==> bytes@.len() == HASH_BYTE_LEN,
            r matches Some(h) ==> h@ == bytes@,
    {
        if bytes.len() == HASH_BYTE_LEN {
            Some(Ed25519KeyHash { bytes: copy_bytes(bytes) })
        } else {
            None
        }
    }

    /// The hash's raw bytes.
    pub fn to_raw_bytes(&self) -> (r: &Vec<u8>)
        ensures
            r@ == self@,
    {
        &self.bytes
    }

    /// A copy with the same bytes.
    pub fn duplicate(&self) -> (r: Ed25519KeyHash)
        ensures
            r@ == self@,
    {
        Ed25519KeyHash { bytes: copy_bytes(&self.bytes) }
    }
}

impl ScriptHash {
    /// Reinterprets raw bytes as a script hash; yields a value exactly when
    /// the byte length is valid for a script hash.
    pub fn from_raw_bytes(bytes: &Vec<u8>) -> (r: Option<ScriptHash>)
        ensures
            r is Some <==> bytes@.len() == HASH_BYTE_LEN,
            r matches Some(h) ==> h@ == bytes@,
    {
        if bytes.len() == HASH_BYTE_LEN {
            Some(ScriptHash { bytes: copy_bytes(bytes) })
        } else {
            None
        }
    }

    /// The hash's raw bytes.
    pub fn to_raw_bytes(&self) -> (r: &Vec<u8>)
        ensures
            r@ == self@,
    {
        &self.bytes
    }

    /// A copy with the same bytes.
    pub fn duplicate(&self) -> (r: ScriptHash)
        ensures
            r@ == self@,
    {
        ScriptHash { bytes: copy_bytes(&self.bytes) }
    }
}

impl PartialEq for Ed25519KeyHash {
    fn eq(&self, other: &Ed25519KeyHash) -> (r: bool) {
        bytes_eq(&self.bytes, &other.bytes)
    }
}

impl vstd::std_specs::cmp::PartialEqSpecImpl for Ed25519KeyHash {
    open spec fn obeys_eq_spec() -> bool {
        true
    }

    open spec fn eq_spec(&self, other: &Ed25519KeyHash) -> bool {
        self@ == other@
    }
}

impl PartialEq for ScriptHash {
    fn eq(&self, other: &ScriptHash) -> (r: bool) {
        bytes_eq(&self.bytes, &other.bytes)
    }
}

impl vstd::std_specs::cmp::PartialEqSpecImpl for ScriptHash {
    open spec fn obeys_eq_spec() -> bool {
        true
    }

    open spec fn eq_spec(&self, other: &ScriptHash) -> bool {
        self@ == other@
    }
}

} // verus!
