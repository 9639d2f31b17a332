//! Script values as this crate sees them.
//!
//! Scripts are produced, parsed and hashed by a surrounding ledger data-model
//! and crypto layer; this core never inspects a script's structure, it only
//! reads the script's hash and carries the script value through into the
//! witness record it builds.

use vstd::prelude::*;

use crate::hashes::ScriptHash;

verus! {

/// A native script, carried together with the hash the surrounding layer
/// derived for it; this core reads only the hash.
#[derive(Clone, Debug, PartialEq)]
pub struct NativeScript {
    pub script_hash: ScriptHash,
}

impl NativeScript {
    pub fn new(script_hash: ScriptHash) -> (r: NativeScript)
        ensures
            r.script_hash == script_hash,
    {
        NativeScript { script_hash }
    }

    /// The script's hash.
    pub fn hash(&self) -> (r: ScriptHash)
        ensures
            r@ == self.script_hash@,
    {
        self.script_hash.duplicate()
    }
}

/// A Plutus script witness, carried together with the hash the surrounding
/// layer derived for the script it stands for.
#[derive(Clone, Debug, PartialEq)]
pub struct PlutusScriptWitness {
    pub script_hash: ScriptHash,
}

impl PlutusScriptWitness {
    pub fn new(script_hash: ScriptHash) -> (r: PlutusScriptWitness)
        ensures
            r.script_hash == script_hash,
    {
        PlutusScriptWitness { script_hash }
    }

    /// The hash of the script this witness stands for.
    pub fn hash(&self) -> (r: ScriptHash)
        ensures
            r@ == self.script_hash@,
    {
        self.script_hash.duplicate()
    }
}

/// An opaque Plutus datum or redeemer value, produced and interpreted by the
/// surrounding data-model layer; this core only carries it.
#[derive(Clone, Debug, PartialEq)]
pub struct PlutusData {
    pub bytes: Vec<u8>,
}

/// A Plutus script witness together with its redeemer data, still missing the
/// signer and execution material that later aggregation stages supply.
#[derive(Clone, Debug, PartialEq)]
pub struct PartialPlutusWitness {
    pub script: PlutusScriptWitness,
    pub redeemer: PlutusData,
}

impl PartialPlutusWitness {
    pub fn new(script: PlutusScriptWitness, redeemer: PlutusData) -> (r: PartialPlutusWitness)
        ensures
            r.script == script,
            r.redeemer == redeemer,
    {
        PartialPlutusWitness { script, redeemer }
    }
}

} // verus!
