//! The certificate data model this crate reads.
//!
//! Certificates are produced and parsed by a surrounding ledger data-model and
//! codec layer; this core never mutates one, it only reads the credential and
//! hash material that decides which witnesses the certificate demands.

use vstd::prelude::*;

use crate::hashes::Ed25519KeyHash;

verus! {

/// The authorization method attached to a stake-related action: either a
/// public-key hash or a script hash.
#[derive(Clone, Debug, PartialEq)]
pub enum StakeCredential {
    /// The action is authorized by a signature of the named key.
    PubKey { hash: Ed25519KeyHash },
    /// The action is authorized by satisfying the named script.
    Script { hash: crate::hashes::ScriptHash },
}

/// Registration of a stake key; requires no witness by ledger rule.
#[derive(Clone, Debug, PartialEq)]
pub struct StakeRegistration {
    pub stake_credential: StakeCredential,
}

/// Deregistration of a stake key; witnessed by its credential.
#[derive(Clone, Debug, PartialEq)]
pub struct StakeDeregistration {
    pub stake_credential: StakeCredential,
}

/// Delegation of a stake key to a pool; witnessed by its credential.
#[derive(Clone, Debug, PartialEq)]
pub struct StakeDelegation {
    pub stake_credential: StakeCredential,
    /// The pool delegated to.
    pub pool: Ed25519KeyHash,
}

/// The pool parameters this core reads: the operator and the owners, each of
/// whom must sign a registration.
#[derive(Clone, Debug, PartialEq)]
pub struct PoolParams {
    pub operator: Ed25519KeyHash,
    pub pool_owners: Vec<Ed25519KeyHash>,
}

/// Registration of a stake pool; witnessed by every owner and the operator.
#[derive(Clone, Debug, PartialEq)]
pub struct PoolRegistration {
    pub pool_params: PoolParams,
}

/// Retirement of a stake pool; witnessed by the pool's key.
#[derive(Clone, Debug, PartialEq)]
pub struct PoolRetirement {
    pub ed25519_key_hash: Ed25519KeyHash,
    /// The epoch the pool retires in.
    pub epoch: u64,
}

/// Delegation of a genesis key. The genesis delegate is identified by raw
/// bytes that must be reinterpreted as a key hash; the length is validated
/// where the bytes are used, and a malformed identifier is reported as a
/// recoverable error rather than a crash.
#[derive(Clone, Debug, PartialEq)]
pub struct GenesisKeyDelegation {
    pub genesis_delegate_hash: Vec<u8>,
}

/// Movement of instantaneous rewards; requires no witness, as no single
/// party posts the certificate at the protocol level.
#[derive(Clone, Debug, PartialEq)]
pub struct MoveInstantaneousRewardsCert {}

/// A ledger instruction changing stake-pool or stake-key state; a closed
/// tagged union, so that a new certificate kind forces every consumer to
/// handle it.
#[derive(Clone, Debug, PartialEq)]
pub enum Certificate {
    StakeRegistration(StakeRegistration),
    StakeDeregistration(StakeDeregistration),
    StakeDelegation(StakeDelegation),
    PoolRegistration(PoolRegistration),
    PoolRetirement(PoolRetirement),
    GenesisKeyDelegation(GenesisKeyDelegation),
    MoveInstantaneousRewardsCert(MoveInstantaneousRewardsCert),
}

} // verus!
