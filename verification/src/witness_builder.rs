//! The witness obligation set and the aggregate witness record.
//!
//! A `RequiredWitnessSet` is an order-independent collection of two kinds of
//! witness obligations: key-hash obligations and script-hash obligations.
//! Membership has set semantics (duplicates collapse) and equality is
//! unordered content equality, never sequence equality.

use vstd::prelude::*;

use crate::hashes::{Ed25519KeyHash, ScriptHash};
use crate::scripts::{NativeScript, PartialPlutusWitness, PlutusData};

verus! {

/// Key hashes the caller asserts must sign, for scripts whose signer
/// requirements cannot be inspected statically.
pub type RequiredSigners = Vec<Ed25519KeyHash>;

/// The set of byte strings identified by a sequence of key hashes.
pub open spec fn key_hash_set(s: Seq<Ed25519KeyHash>) -> Set<Seq<u8>> {
    s.map_values(|h: Ed25519KeyHash| h@).to_set()
}

/// The set of byte strings identified by a sequence of script hashes.
pub open spec fn script_hash_set(s: Seq<ScriptHash>) -> Set<Seq<u8>> {
    s.map_values(|h: ScriptHash| h@).to_set()
}

/// No two key hashes in the sequence have the same bytes.
pub open spec fn key_hashes_distinct(s: Seq<Ed25519KeyHash>) -> bool {
    forall|i: int, j: int|
        0 <= i < s.len() && 0 <= j < s.len() && i != j ==> #[trigger] s[i]@ != #[trigger] s[j]@
}

/// No two script hashes in the sequence have the same bytes.
pub open spec fn script_hashes_distinct(s: Seq<ScriptHash>) -> bool {
    forall|i: int, j: int|
        0 <= i < s.len() && 0 <= j < s.len() && i != j ==> #[trigger] s[i]@ != #[trigger] s[j]@
}

/// Membership in the set of key-hash views is existence of an index.
pub proof fn lemma_key_hash_set_contains(s: Seq<Ed25519KeyHash>, b: Seq<u8>)
    ensures
        key_hash_set(s).contains(b) <==> (exists|i: int| 0 <= i < s.len() && #[trigger] s[i]@ == b),
{
    let f = |h: Ed25519KeyHash| h@;
    let m = s.map_values(f);
    if exists|i: int| 0 <= i < s.len() && #[trigger] s[i]@ == b {
        let i = choose|i: int| 0 <= i < s.len() && #[trigger] s[i]@ == b;
        assert(m[i] == b);
        assert(m.contains(b));
    }
    if m.contains(b) {
        let i = choose|i: int| 0 <= i < m.len() && m[i] == b;
        assert(s[i]@ == b);
    }
}

/// Membership in the set of script-hash views is existence of an index.
pub proof fn lemma_script_hash_set_contains(s: Seq<ScriptHash>, b: Seq<u8>)
    ensures
        script_hash_set(s).contains(b) <==> (exists|i: int|
            0 <= i < s.len() && #[trigger] s[i]@ == b),
{
    let f = |h: ScriptHash| h@;
    let m = s.map_values(f);
    if exists|i: int| 0 <= i < s.len() && #[trigger] s[i]@ == b {
        let i = choose|i: int| 0 <= i < s.len() && #[trigger] s[i]@ == b;
        assert(m[i] == b);
        assert(m.contains(b));
    }
    if m.contains(b) {
        let i = choose|i: int| 0 <= i < m.len() && m[i] == b;
        assert(s[i]@ == b);
    }
}

/// The empty sequence of key hashes identifies the empty set.
pub proof fn lemma_key_hash_set_empty()
    ensures
        key_hash_set(Seq::<Ed25519KeyHash>::empty()) == Set::<Seq<u8>>::empty(),
{
    let s = Seq::<Ed25519KeyHash>::empty();
    assert forall|b: Seq<u8>| !key_hash_set(s).contains(b) by {
        lemma_key_hash_set_contains(s, b);
    }
    assert(key_hash_set(s) =~= Set::<Seq<u8>>::empty());
}

/// The empty sequence of script hashes identifies the empty set.
pub proof fn lemma_script_hash_set_empty()
    ensures
        script_hash_set(Seq::<ScriptHash>::empty()) == Set::<Seq<u8>>::empty(),
{
    let s = Seq::<ScriptHash>::empty();
    assert forall|b: Seq<u8>| !script_hash_set(s).contains(b) by {
        lemma_script_hash_set_contains(s, b);
    }
    assert(script_hash_set(s) =~= Set::<Seq<u8>>::empty());
}

/// Pushing a key hash inserts its bytes into the identified set.
pub proof fn lemma_key_hash_set_push(s: Seq<Ed25519KeyHash>, h: Ed25519KeyHash)
    ensures
        key_hash_set(s.push(h)) == key_hash_set(s).insert(h@),
{
    let f = |h2: Ed25519KeyHash| h2@;
    assert(f(h) == h@);
    s.lemma_push_map_commute(f, h);
    s.map_values(f).lemma_push_to_set_commute(f(h));
    assert(key_hash_set(s.push(h)) =~= key_hash_set(s).insert(h@));
}

/// Pushing a script hash inserts its bytes into the identified set.
pub proof fn lemma_script_hash_set_push(s: Seq<ScriptHash>, h: ScriptHash)
    ensures
        script_hash_set(s.push(h)) == script_hash_set(s).insert(h@),
{
    let f = |h2: ScriptHash| h2@;
    assert(f(h) == h@);
    s.lemma_push_map_commute(f, h);
    s.map_values(f).lemma_push_to_set_commute(f(h));
    assert(script_hash_set(s.push(h)) =~= script_hash_set(s).insert(h@));
}

/// Pushing a key hash that is not yet present keeps the hashes distinct.
pub proof fn lemma_key_hashes_distinct_push(s: Seq<Ed25519KeyHash>, h: Ed25519KeyHash)
    requires
        key_hashes_distinct(s),
        !key_hash_set(s).contains(h@),
    ensures
        key_hashes_distinct(s.push(h)),
{
    let t = s.push(h);
    assert forall|i: int, j: int|
        0 <= i < t.len() && 0 <= j < t.len() && i != j implies #[trigger] t[i]@ != #[trigger] t[j]@ by {
        lemma_key_hash_set_contains(s, h@);
        if i < s.len() && j < s.len() {
            assert(t[i] == s[i] && t[j] == s[j]);
        } else if i == s.len() {
            assert(t[i] == h && t[j] == s[j]);
        } else {
            assert(t[j] == h && t[i] == s[i]);
        }
    }
}

/// Pushing a script hash that is not yet present keeps the hashes distinct.
pub proof fn lemma_script_hashes_distinct_push(s: Seq<ScriptHash>, h: ScriptHash)
    requires
        script_hashes_distinct(s),
        !script_hash_set(s).contains(h@),
    ensures
        script_hashes_distinct(s.push(h)),
{
    let t = s.push(h);
    assert forall|i: int, j: int|
        0 <= i < t.len() && 0 <= j < t.len() && i != j implies #[trigger] t[i]@ != #[trigger] t[j]@ by {
        lemma_script_hash_set_contains(s, h@);
        if i < s.len() && j < s.len() {
            assert(t[i] == s[i] && t[j] == s[j]);
        } else if i == s.len() {
            assert(t[i] == h && t[j] == s[j]);
        } else {
            assert(t[j] == h && t[i] == s[i]);
        }
    }
}

/// The set identified by a sequence of key hashes is finite.
pub proof fn lemma_key_hash_set_finite(s: Seq<Ed25519KeyHash>)
    ensures
        key_hash_set(s).finite(),
{
    vstd::seq_lib::seq_to_set_is_finite::<Seq<u8>>(s.map_values(|h: Ed25519KeyHash| h@));
}

/// A sequence of distinct key hashes identifies a finite set of its own size.
pub proof fn lemma_key_hash_set_len(s: Seq<Ed25519KeyHash>)
    requires
        key_hashes_distinct(s),
    ensures
        key_hash_set(s).finite(),
        key_hash_set(s).len() == s.len(),
{
    let f = |h: Ed25519KeyHash| h@;
    let m = s.map_values(f);
    assert forall|i: int, j: int|
        0 <= i < m.len() && 0 <= j < m.len() && i != j implies m[i] != m[j] by {
        assert(m[i] == s[i]@ && m[j] == s[j]@);
    }
    m.unique_seq_to_set();
    vstd::seq_lib::seq_to_set_is_finite::<Seq<u8>>(m);
}

/// A sequence of distinct script hashes identifies a finite set of its own size.
pub proof fn lemma_script_hash_set_len(s: Seq<ScriptHash>)
    requires
        script_hashes_distinct(s),
    ensures
        script_hash_set(s).finite(),
        script_hash_set(s).len() == s.len(),
{
    let f = |h: ScriptHash| h@;
    let m = s.map_values(f);
    assert forall|i: int, j: int|
        0 <= i < m.len() && 0 <= j < m.len() && i != j implies m[i] != m[j] by {
        assert(m[i] == s[i]@ && m[j] == s[j]@);
    }
    m.unique_seq_to_set();
    vstd::seq_lib::seq_to_set_is_finite::<Seq<u8>>(m);
}

/// Removing the entry at an index removes exactly its bytes from the
/// identified set, provided the hashes are distinct.
pub proof fn lemma_script_hash_set_remove(s: Seq<ScriptHash>, i: int)
    requires
        script_hashes_distinct(s),
        0 <= i < s.len(),
    ensures
        script_hash_set(s.remove(i)) == script_hash_set(s).remove(s[i]@),
        script_hashes_distinct(s.remove(i)),
{
    let t = s.remove(i);
    s.remove_ensures(i);
    assert forall|j: int, k: int|
        0 <= j < t.len() && 0 <= k < t.len() && j != k implies #[trigger] t[j]@ != #[trigger] t[k]@ by {
        let j2: int = if j < i { j } else { j + 1 };
        let k2: int = if k < i { k } else { k + 1 };
        assert(t[j] == s[j2] && t[k] == s[k2]);
    }
    assert forall|b: Seq<u8>|
        script_hash_set(t).contains(b) == script_hash_set(s).remove(s[i]@).contains(b) by {
        lemma_script_hash_set_contains(t, b);
        lemma_script_hash_set_contains(s, b);
        if script_hash_set(t).contains(b) {
            let j = choose|j: int| 0 <= j < t.len() && #[trigger] t[j]@ == b;
            let j2: int = if j < i { j } else { j + 1 };
            assert(t[j] == s[j2]);
            assert(s[j2]@ == b);
            assert(b != s[i]@);
        }
        if script_hash_set(s).remove(s[i]@).contains(b) {
            let j = choose|j: int| 0 <= j < s.len() && #[trigger] s[j]@ == b;
            assert(j != i);
            if j < i {
                assert(t[j] == s[j]);
                assert(t[j]@ == b);
            } else {
                assert(t[j - 1] == s[j]);
                assert(t[j - 1]@ == b);
            }
        }
    }
    assert(script_hash_set(t) =~= script_hash_set(s).remove(s[i]@));
}

/// Removing the entry at an index removes exactly its bytes from the
/// identified set, provided the hashes are distinct.
pub proof fn lemma_key_hash_set_remove(s: Seq<Ed25519KeyHash>, i: int)
    requires
        key_hashes_distinct(s),
        0 <= i < s.len(),
    ensures
        key_hash_set(s.remove(i)) == key_hash_set(s).remove(s[i]@),
        key_hashes_distinct(s.remove(i)),
{
    let t = s.remove(i);
    s.remove_ensures(i);
    assert forall|j: int, k: int|
        0 <= j < t.len() && 0 <= k < t.len() && j != k implies #[trigger] t[j]@ != #[trigger] t[k]@ by {
        let j2: int = if j < i { j } else { j + 1 };
        let k2: int = if k < i { k } else { k + 1 };
        assert(t[j] == s[j2] && t[k] == s[k2]);
    }
    assert forall|b: Seq<u8>|
        key_hash_set(t).contains(b) == key_hash_set(s).remove(s[i]@).contains(b) by {
        lemma_key_hash_set_contains(t, b);
        lemma_key_hash_set_contains(s, b);
        if key_hash_set(t).contains(b) {
            let j = choose|j: int| 0 <= j < t.len() && #[trigger] t[j]@ == b;
            let j2: int = if j < i { j } else { j + 1 };
            assert(t[j] == s[j2]);
            assert(s[j2]@ == b);
            assert(b != s[i]@);
        }
        if key_hash_set(s).remove(s[i]@).contains(b) {
            let j = choose|j: int| 0 <= j < s.len() && #[trigger] s[j]@ == b;
            assert(j != i);
            if j < i {
                assert(t[j] == s[j]);
                assert(t[j]@ == b);
            } else {
                assert(t[j - 1] == s[j]);
                assert(t[j - 1]@ == b);
            }
        }
    }
    assert(key_hash_set(t) =~= key_hash_set(s).remove(s[i]@));
}

/// An order-independent accumulator of witness obligations: the key hashes
/// that must sign and the script hashes that must be satisfied.
#[derive(Clone, Debug)]
pub struct RequiredWitnessSet {
    vkeys: Vec<Ed25519KeyHash>,
    scripts: Vec<ScriptHash>,
}

impl RequiredWitnessSet {
    /// The key-hash obligations, as a set of byte strings.
    pub closed spec fn vkey_set(self) -> Set<Seq<u8>> {
        key_hash_set(self.vkeys@)
    }

    /// The script-hash obligations, as a set of byte strings.
    pub closed spec fn script_set(self) -> Set<Seq<u8>> {
        script_hash_set(self.scripts@)
    }

    /// Internal invariant: each obligation is stored once.
    pub closed spec fn wf(self) -> bool {
        key_hashes_distinct(self.vkeys@) && script_hashes_distinct(self.scripts@)
    }

    /// An empty obligation set.
    pub fn new() -> (r: RequiredWitnessSet)
        ensures
            r.wf(),
            r.vkey_set() == Set::<Seq<u8>>::empty(),
            r.script_set() == Set::<Seq<u8>>::empty(),
    {
        proof {
            lemma_key_hash_set_empty();
            lemma_script_hash_set_empty();
        }
        RequiredWitnessSet { vkeys: Vec::new(), scripts: Vec::new() }
    }

    /// Adds a key-hash obligation; already-present obligations collapse.
    pub fn add_vkey_key_hash(&mut self, hash: Ed25519KeyHash)
        requires
            old(self).wf(),
        ensures
            final(self).wf(),
            final(self).vkey_set() == old(self).vkey_set().insert(hash@),
            final(self).script_set() == old(self).script_set(),
    {
        if self.contains_vkey_key_hash(&hash) {
            proof {
                assert(self.vkey_set().insert(hash@) =~= self.vkey_set());
            }
        } else {
            proof {
                lemma_key_hash_set_push(self.vkeys@, hash);
                lemma_key_hashes_distinct_push(self.vkeys@, hash);
            }
            self.vkeys.push(hash);
        }
    }

    /// Adds a script-hash obligation; already-present obligations collapse.
    pub fn add_script_hash(&mut self, hash: ScriptHash)
        requires
            old(self).wf(),
        ensures
            final(self).wf(),
            final(self).script_set() == old(self).script_set().insert(hash@),
            final(self).vkey_set() == old(self).vkey_set(),
    {
        if self.contains_script_hash(&hash) {
            proof {
                assert(self.script_set().insert(hash@) =~= self.script_set());
            }
        } else {
            proof {
                lemma_script_hash_set_push(self.scripts@, hash);
                lemma_script_hashes_distinct_push(self.scripts@, hash);
            }
            self.scripts.push(hash);
        }
    }

    /// Removes a key-hash obligation; absent obligations are left alone.
    pub fn remove_vkey_key_hash(&mut self, hash: &Ed25519KeyHash)
        requires
            old(self).wf(),
        ensures
            final(self).wf(),
            final(self).vkey_set() == old(self).vkey_set().remove(hash@),
            final(self).script_set() == old(self).script_set(),
    {
        let mut i: usize = 0;
        while i < self.vkeys.len()
            invariant
                i <= self.vkeys@.len(),
                self == old(self),
                old(self).wf(),
                forall|j: int| 0 <= j < i ==> #[trigger] self.vkeys@[j]@ != hash@,
            decreases self.vkeys@.len() - i,
        {
            if &self.vkeys[i] == hash {
                proof {
                    lemma_key_hash_set_remove(self.vkeys@, i as int);
                }
                self.vkeys.remove(i);
                return;
            }
            i += 1;
        }
        proof {
            lemma_key_hash_set_contains(self.vkeys@, hash@);
            assert(!self.vkey_set().contains(hash@));
            assert(self.vkey_set().remove(hash@) =~= self.vkey_set());
        }
    }

    /// Removes a script-hash obligation; absent obligations are left alone.
    pub fn remove_script_hash(&mut self, hash: &ScriptHash)
        requires
            old(self).wf(),
        ensures
            final(self).wf(),
            final(self).script_set() == old(self).script_set().remove(hash@),
            final(self).vkey_set() == old(self).vkey_set(),
    {
        let mut i: usize = 0;
        while i < self.scripts.len()
            invariant
                i <= self.scripts@.len(),
                self == old(self),
                old(self).wf(),
                forall|j: int| 0 <= j < i ==> #[trigger] self.scripts@[j]@ != hash@,
            decreases self.scripts@.len() - i,
        {
            if &self.scripts[i] == hash {
                proof {
                    lemma_script_hash_set_remove(self.scripts@, i as int);
                }
                self.scripts.remove(i);
                return;
            }
            i += 1;
        }
        proof {
            lemma_script_hash_set_contains(self.scripts@, hash@);
            assert(!self.script_set().contains(hash@));
            assert(self.script_set().remove(hash@) =~= self.script_set());
        }
    }

    /// Drops every key-hash obligation, keeping the script-hash obligations.
    pub fn clear_vkeys(&mut self)
        requires
            old(self).wf(),
        ensures
            final(self).wf(),
            final(self).vkey_set() == Set::<Seq<u8>>::empty(),
            final(self).script_set() == old(self).script_set(),
    {
        self.vkeys.clear();
        proof {
            lemma_key_hash_set_empty();
        }
    }

    /// Whether the given key hash is an obligation.
    pub fn contains_vkey_key_hash(&self, hash: &Ed25519KeyHash) -> (r: bool)
        ensures
            r == self.vkey_set().contains(hash@),
    {
        let mut i: usize = 0;
        while i < self.vkeys.len()
            invariant
                i <= self.vkeys@.len(),
                forall|j: int| 0 <= j < i ==> #[trigger] self.vkeys@[j]@ != hash@,
            decreases self.vkeys@.len() - i,
        {
            if &self.vkeys[i] == hash {
                proof {
                    lemma_key_hash_set_contains(self.vkeys@, hash@);
                }
                return true;
            }
            i += 1;
        }
        proof {
            lemma_key_hash_set_contains(self.vkeys@, hash@);
        }
        false
    }

    /// Whether the given script hash is an obligation.
    pub fn contains_script_hash(&self, hash: &ScriptHash) -> (r: bool)
        ensures
            r == self.script_set().contains(hash@),
    {
        let mut i: usize = 0;
        while i < self.scripts.len()
            invariant
                i <= self.scripts@.len(),
                forall|j: int| 0 <= j < i ==> #[trigger] self.scripts@[j]@ != hash@,
            decreases self.scripts@.len() - i,
        {
            if &self.scripts[i] == hash {
                proof {
                    lemma_script_hash_set_contains(self.scripts@, hash@);
                }
                return true;
            }
            i += 1;
        }
        proof {
            lemma_script_hash_set_contains(self.scripts@, hash@);
        }
        false
    }

    /// Whether there are no script-hash obligations.
    pub fn scripts_is_empty(&self) -> (r: bool)
        ensures
            r <==> self.script_set().is_empty(),
    {
        let r = self.scripts.len() == 0;
        proof {
            if self.scripts@.len() == 0 {
                assert(self.scripts@ =~= Seq::<ScriptHash>::empty());
                lemma_script_hash_set_empty();
                assert(self.script_set() =~= Set::<Seq<u8>>::empty());
            } else {
                lemma_script_hash_set_contains(self.scripts@, self.scripts@[0]@);
                assert(self.script_set().contains(self.scripts@[0]@));
            }
        }
        r
    }

    /// Whether there are no obligations of either kind.
    pub fn is_empty(&self) -> (r: bool)
        ensures
            r <==> (self.vkey_set().is_empty() && self.script_set().is_empty()),
    {
        let vk = self.vkeys.len() == 0;
        proof {
            if self.vkeys@.len() == 0 {
                assert(self.vkeys@ =~= Seq::<Ed25519KeyHash>::empty());
                lemma_key_hash_set_empty();
                assert(self.vkey_set() =~= Set::<Seq<u8>>::empty());
            } else {
                lemma_key_hash_set_contains(self.vkeys@, self.vkeys@[0]@);
                assert(self.vkey_set().contains(self.vkeys@[0]@));
            }
        }
        vk && self.scripts_is_empty()
    }

    /// The number of obligations: the sizes of the two sets together
    /// (saturating in the unreachable case where the sum exceeds `usize`).
    pub fn len(&self) -> (r: usize)
        requires
            self.wf(),
        ensures
            self.vkey_set().len() + self.script_set().len() <= usize::MAX ==> r == self.vkey_set().len()
                + self.script_set().len(),
            r <= self.vkey_set().len() + self.script_set().len(),
    {
        proof {
            lemma_key_hash_set_len(self.vkeys@);
            lemma_script_hash_set_len(self.scripts@);
        }
        let a = self.vkeys.len();
        let b = self.scripts.len();
        if a <= usize::MAX - b {
            a + b
        } else {
            usize::MAX
        }
    }

    /// A copy holding the same obligations.
    pub fn duplicate(&self) -> (r: RequiredWitnessSet)
        ensures
            r.vkey_set() == self.vkey_set(),
            r.script_set() == self.script_set(),
            self.wf() ==> r.wf(),
    {
        let mut vkeys: Vec<Ed25519KeyHash> = Vec::new();
        let mut i: usize = 0;
        while i < self.vkeys.len()
            invariant
                i <= self.vkeys@.len(),
                vkeys@.len() == i,
                forall|j: int| 0 <= j < i ==> #[trigger] vkeys@[j]@ == self.vkeys@[j]@,
            decreases self.vkeys@.len() - i,
        {
            vkeys.push(self.vkeys[i].duplicate());
            i += 1;
        }
        let mut scripts: Vec<ScriptHash> = Vec::new();
        let mut k: usize = 0;
        while k < self.scripts.len()
            invariant
                k <= self.scripts@.len(),
                scripts@.len() == k,
                forall|j: int| 0 <= j < k ==> #[trigger] scripts@[j]@ == self.scripts@[j]@,
            decreases self.scripts@.len() - k,
        {
            scripts.push(self.scripts[k].duplicate());
            k += 1;
        }
        let r = RequiredWitnessSet { vkeys, scripts };
        proof {
            assert forall|b: Seq<u8>| r.vkey_set().contains(b) == self.vkey_set().contains(b) by {
                lemma_key_hash_set_contains(r.vkeys@, b);
                lemma_key_hash_set_contains(self.vkeys@, b);
                if r.vkey_set().contains(b) {
                    let j = choose|j: int| 0 <= j < r.vkeys@.len() && #[trigger] r.vkeys@[j]@ == b;
                    assert(self.vkeys@[j]@ == b);
                }
                if self.vkey_set().contains(b) {
                    let j = choose|j: int|
                        0 <= j < self.vkeys@.len() && #[trigger] self.vkeys@[j]@ == b;
                    assert(r.vkeys@[j]@ == b);
                }
            }
            assert(r.vkey_set() =~= self.vkey_set());
            assert forall|b: Seq<u8>| r.script_set().contains(b) == self.script_set().contains(b) by {
                lemma_script_hash_set_contains(r.scripts@, b);
                lemma_script_hash_set_contains(self.scripts@, b);
                if r.script_set().contains(b) {
                    let j = choose|j: int|
                        0 <= j < r.scripts@.len() && #[trigger] r.scripts@[j]@ == b;
                    assert(self.scripts@[j]@ == b);
                }
                if self.script_set().contains(b) {
                    let j = choose|j: int|
                        0 <= j < self.scripts@.len() && #[trigger] self.scripts@[j]@ == b;
                    assert(r.scripts@[j]@ == b);
                }
            }
            assert(r.script_set() =~= self.script_set());
            if self.wf() {
                assert forall|i: int, j: int|
                    0 <= i < r.vkeys@.len() && 0 <= j < r.vkeys@.len() && i != j implies #[trigger] r.vkeys@[i]@
                    != #[trigger] r.vkeys@[j]@ by {
                    assert(r.vkeys@[i]@ == self.vkeys@[i]@ && r.vkeys@[j]@ == self.vkeys@[j]@);
                }
                assert forall|i: int, j: int|
                    0 <= i < r.scripts@.len() && 0 <= j < r.scripts@.len() && i != j implies #[trigger] r.scripts@[i]@
                    != #[trigger] r.scripts@[j]@ by {
                    assert(r.scripts@[i]@ == self.scripts@[i]@ && r.scripts@[j]@
                        == self.scripts@[j]@);
                }
            }
        }
        r
    }

    /// Whether every obligation of `self` is an obligation of `other`.
    fn subset_of(&self, other: &RequiredWitnessSet) -> (r: bool)
        ensures
            r <==> (self.vkey_set().subset_of(other.vkey_set())
                && self.script_set().subset_of(other.script_set())),
    {
        let mut i: usize = 0;
        while i < self.vkeys.len()
            invariant
                i <= self.vkeys@.len(),
                forall|j: int|
                    0 <= j < i ==> other.vkey_set().contains(#[trigger] self.vkeys@[j]@),
            decreases self.vkeys@.len() - i,
        {
            if !other.contains_vkey_key_hash(&self.vkeys[i]) {
                proof {
                    lemma_key_hash_set_contains(self.vkeys@, self.vkeys@[i as int]@);
                }
                return false;
            }
            i += 1;
        }
        let mut k: usize = 0;
        while k < self.scripts.len()
            invariant
                k <= self.scripts@.len(),
                forall|j: int|
                    0 <= j < k ==> other.script_set().contains(#[trigger] self.scripts@[j]@),
            decreases self.scripts@.len() - k,
        {
            if !other.contains_script_hash(&self.scripts[k]) {
                proof {
                    lemma_script_hash_set_contains(self.scripts@, self.scripts@[k as int]@);
                }
                return false;
            }
            k += 1;
        }
        proof {
            assert forall|b: Seq<u8>| self.vkey_set().contains(b) implies other.vkey_set().contains(
                b,
            ) by {
                lemma_key_hash_set_contains(self.vkeys@, b);
            }
            assert forall|b: Seq<u8>|
                self.script_set().contains(b) implies other.script_set().contains(b) by {
                lemma_script_hash_set_contains(self.scripts@, b);
            }
        }
        true
    }
}

impl Default for RequiredWitnessSet {
    /// An empty obligation set.
    fn default() -> (r: RequiredWitnessSet)
        ensures
            r.wf(),
            r.vkey_set() == Set::<Seq<u8>>::empty(),
            r.script_set() == Set::<Seq<u8>>::empty(),
    {
        RequiredWitnessSet::new()
    }
}

impl PartialEq for RequiredWitnessSet {
    /// Unordered content equality of the two obligation sets.
    fn eq(&self, other: &RequiredWitnessSet) -> (r: bool) {
        let r = self.subset_of(other) && other.subset_of(self);
        proof {
            if r {
                assert(self.vkey_set() =~= other.vkey_set());
                assert(self.script_set() =~= other.script_set());
            }
        }
        r
    }
}

impl vstd::std_specs::cmp::PartialEqSpecImpl for RequiredWitnessSet {
    open spec fn obeys_eq_spec() -> bool {
        true
    }

    open spec fn eq_spec(&self, other: &RequiredWitnessSet) -> bool {
        self.vkey_set() == other.vkey_set() && self.script_set() == other.script_set()
    }
}

/// How the signatures for a native script will be accounted: an expected
/// signature count, an explicit signer list, or one assumed signature per
/// script key.
#[derive(Clone, Debug, PartialEq)]
pub enum NativeScriptWitnessInfo {
    /// Assume the given number of signatures.
    Count(usize),
    /// These exact signers will sign.
    Vkeys(Vec<Ed25519KeyHash>),
    /// Assume one signature per key named in the script.
    AssumeSignatureCount,
}

/// How a script-based obligation will eventually be satisfied; attached to a
/// builder result only when the chosen script matched an actual obligation.
#[derive(Clone, Debug, PartialEq)]
pub enum InputAggregateWitnessData {
    /// A native script together with its signature accounting.
    NativeScript(NativeScript, NativeScriptWitnessInfo),
    /// A Plutus witness, the signers the caller asserts, and redeemer data
    /// filled in by a later aggregation stage.
    PlutusScript(PartialPlutusWitness, RequiredSigners, Option<PlutusData>),
}

} // verus!
