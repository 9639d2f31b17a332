//! The certificate witness builder.
//!
//! The requirement deriver maps a certificate to the witness obligations it
//! imposes (the ledger's witnesses-needed rule for certificates); the key-only
//! projector does the same restricted to key hashes, failing loudly on
//! script-based credentials; and the single-certificate builder binds one
//! certificate to one of four witnessing strategies, checking that the
//! supplied witness matches what the certificate demands.

use vstd::prelude::*;

use crate::certs::{Certificate, StakeCredential};
use crate::hashes::{Ed25519KeyHash, ScriptHash, HASH_BYTE_LEN};
use crate::scripts::{NativeScript, PartialPlutusWitness};
use crate::witness_builder::{
    key_hash_set, InputAggregateWitnessData, NativeScriptWitnessInfo, RequiredSigners,
    RequiredWitnessSet,
};

verus! {

/// The key-hash obligations a certificate imposes.
pub open spec fn cert_vkeys(cert: Certificate) -> Set<Seq<u8>> {
    match cert {
        Certificate::StakeRegistration(_) => Set::<Seq<u8>>::empty(),
        Certificate::StakeDeregistration(c) => match c.stake_credential {
            StakeCredential::PubKey { hash } => Set::<Seq<u8>>::empty().insert(hash@),
            StakeCredential::Script { .. } => Set::<Seq<u8>>::empty(),
        },
        Certificate::StakeDelegation(c) => match c.stake_credential {
            StakeCredential::PubKey { hash } => Set::<Seq<u8>>::empty().insert(hash@),
            StakeCredential::Script { .. } => Set::<Seq<u8>>::empty(),
        },
        Certificate::PoolRegistration(c) => key_hash_set(c.pool_params.pool_owners@).insert(
            c.pool_params.operator@,
        ),
        Certificate::PoolRetirement(c) => Set::<Seq<u8>>::empty().insert(c.ed25519_key_hash@),
        Certificate::GenesisKeyDelegation(c) => Set::<Seq<u8>>::empty().insert(
            c.genesis_delegate_hash@,
        ),
        Certificate::MoveInstantaneousRewardsCert(_) => Set::<Seq<u8>>::empty(),
    }
}

/// The script-hash obligations a certificate imposes.
pub open spec fn cert_scripts(cert: Certificate) -> Set<Seq<u8>> {
    match cert {
        Certificate::StakeDeregistration(c) => match c.stake_credential {
            StakeCredential::Script { hash } => Set::<Seq<u8>>::empty().insert(hash@),
            StakeCredential::PubKey { .. } => Set::<Seq<u8>>::empty(),
        },
        Certificate::StakeDelegation(c) => match c.stake_credential {
            StakeCredential::Script { hash } => Set::<Seq<u8>>::empty().insert(hash@),
            StakeCredential::PubKey { .. } => Set::<Seq<u8>>::empty(),
        },
        _ => Set::<Seq<u8>>::empty(),
    }
}

/// Whether deriving the certificate's obligations succeeds: the only failure
/// is a genesis-delegate identifier whose length is not a valid key hash.
pub open spec fn cert_wits_ok(cert: Certificate) -> bool {
    match cert {
        Certificate::GenesisKeyDelegation(c) => c.genesis_delegate_hash@.len() == HASH_BYTE_LEN,
        _ => true,
    }
}

/// The script hash of the certificate's credential, where it has one.
pub open spec fn cert_script_credential(cert: Certificate) -> Option<Seq<u8>> {
    match cert {
        Certificate::StakeDeregistration(c) => match c.stake_credential {
            StakeCredential::Script { hash } => Some(hash@),
            StakeCredential::PubKey { .. } => None,
        },
        Certificate::StakeDelegation(c) => match c.stake_credential {
            StakeCredential::Script { hash } => Some(hash@),
            StakeCredential::PubKey { .. } => None,
        },
        _ => None,
    }
}

/// Whether the key-only projection of the certificate succeeds: the
/// credential must not be script-based and the derivation itself must
/// succeed.
pub open spec fn cert_vkeys_ok(cert: Certificate) -> bool {
    cert_script_credential(cert) is None && cert_wits_ok(cert)
}

/// Why a witnessing strategy could not be applied to a certificate.
#[derive(Clone, Debug, PartialEq)]
pub enum CertBuilderError {
    /// A script-credentialed certificate was fed to a key-only path; carries
    /// the script hash that was found.
    ExpectedKeyHash(ScriptHash),
    /// A script-obligated certificate was fed to the plain-key path; carries
    /// the certificate.
    ExpectedScriptHash(Certificate),
    /// The supplied witness did not discharge every obligation; carries the
    /// full unsatisfied obligation set.
    MissingWitnesses(RequiredWitnessSet),
    /// A genesis-delegate identifier could not be reinterpreted as a key
    /// hash.
    InvalidHashEncoding,
}

/// Derives the witness obligations a certificate imposes, adding them to the
/// accumulator; the ledger's witnesses-needed rule, per variant.
pub fn cert_required_wits(
    cert: &Certificate,
    required_witnesses: &mut RequiredWitnessSet,
) -> (r: Result<(), CertBuilderError>)
    requires
        old(required_witnesses).wf(),
    ensures
        final(required_witnesses).wf(),
        r is Ok <==> cert_wits_ok(*cert),
        r is Ok ==> final(required_witnesses).vkey_set() == old(required_witnesses).vkey_set().union(
            cert_vkeys(*cert),
        ),
        r is Ok ==> final(required_witnesses).script_set() == old(
            required_witnesses,
        ).script_set().union(cert_scripts(*cert)),
        r is Err ==> *final(required_witnesses) == *old(required_witnesses),
        r matches Err(e) ==> e is InvalidHashEncoding,
{
    let ghost old_v = required_witnesses.vkey_set();
    let ghost old_s = required_witnesses.script_set();
    match cert {
        // stake key registrations do not require a witness
        Certificate::StakeRegistration(_cert) => {
            proof {
                assert(old_v.union(Set::<Seq<u8>>::empty()) =~= old_v);
                assert(old_s.union(Set::<Seq<u8>>::empty()) =~= old_s);
            }
            Ok(())
        },
        Certificate::StakeDeregistration(cert) => {
            match &cert.stake_credential {
                StakeCredential::Script { hash } => {
                    required_witnesses.add_script_hash(hash.duplicate());
                    proof {
                        assert(old_v.union(Set::<Seq<u8>>::empty()) =~= old_v);
                        assert(old_s.insert(hash@) =~= old_s.union(
                            Set::<Seq<u8>>::empty().insert(hash@),
                        ));
                    }
                },
                StakeCredential::PubKey { hash } => {
                    required_witnesses.add_vkey_key_hash(hash.duplicate());
                    proof {
                        assert(old_s.union(Set::<Seq<u8>>::empty()) =~= old_s);
                        assert(old_v.insert(hash@) =~= old_v.union(
                            Set::<Seq<u8>>::empty().insert(hash@),
                        ));
                    }
                },
            }
            Ok(())
        },
        Certificate::StakeDelegation(cert) => {
            match &cert.stake_credential {
                StakeCredential::Script { hash } => {
                    required_witnesses.add_script_hash(hash.duplicate());
                    proof {
                        assert(old_v.union(Set::<Seq<u8>>::empty()) =~= old_v);
                        assert(old_s.insert(hash@) =~= old_s.union(
                            Set::<Seq<u8>>::empty().insert(hash@),
                        ));
                    }
                },
                StakeCredential::PubKey { hash } => {
                    required_witnesses.add_vkey_key_hash(hash.duplicate());
                    proof {
                        assert(old_s.union(Set::<Seq<u8>>::empty()) =~= old_s);
                        assert(old_v.insert(hash@) =~= old_v.union(
                            Set::<Seq<u8>>::empty().insert(hash@),
                        ));
                    }
                },
            }
            Ok(())
        },
        Certificate::PoolRegistration(cert) => {
            let owners = &cert.pool_params.pool_owners;
            let mut i: usize = 0;
            while i < owners.len()
                invariant
                    i <= owners@.len(),
                    required_witnesses.wf(),
                    required_witnesses.vkey_set() == old_v.union(
                        key_hash_set(owners@.take(i as int)),
                    ),
                    required_witnesses.script_set() == old_s,
                decreases owners@.len() - i,
            {
                let ghost prev = required_witnesses.vkey_set();
                required_witnesses.add_vkey_key_hash(owners[i].duplicate());
                proof {
                    assert(owners@.take(i + 1 as int) =~= owners@.take(i as int).push(
                        owners@[i as int],
                    ));
                    crate::witness_builder::lemma_key_hash_set_push(
                        owners@.take(i as int),
                        owners@[i as int],
                    );
                    assert(prev.insert(owners@[i as int]@) =~= old_v.union(
                        key_hash_set(owners@.take(i + 1 as int)),
                    ));
                }
                i += 1;
            }
            proof {
                assert(owners@.take(owners@.len() as int) =~= owners@);
            }
            let ghost prev = required_witnesses.vkey_set();
            required_witnesses.add_vkey_key_hash(cert.pool_params.operator.duplicate());
            proof {
                assert(prev.insert(cert.pool_params.operator@) =~= old_v.union(
                    key_hash_set(owners@).insert(cert.pool_params.operator@),
                ));
                assert(old_s.union(Set::<Seq<u8>>::empty()) =~= old_s);
            }
            Ok(())
        },
        Certificate::PoolRetirement(cert) => {
            required_witnesses.add_vkey_key_hash(cert.ed25519_key_hash.duplicate());
            proof {
                assert(old_s.union(Set::<Seq<u8>>::empty()) =~= old_s);
                assert(old_v.insert(cert.ed25519_key_hash@) =~= old_v.union(
                    Set::<Seq<u8>>::empty().insert(cert.ed25519_key_hash@),
                ));
            }
            Ok(())
        },
        Certificate::GenesisKeyDelegation(cert) => {
            match Ed25519KeyHash::from_raw_bytes(&cert.genesis_delegate_hash) {
                Some(hash) => {
                    proof {
                        assert(old_s.union(Set::<Seq<u8>>::empty()) =~= old_s);
                        assert(old_v.insert(cert.genesis_delegate_hash@) =~= old_v.union(
                            Set::<Seq<u8>>::empty().insert(cert.genesis_delegate_hash@),
                        ));
                    }
                    required_witnesses.add_vkey_key_hash(hash);
                    Ok(())
                },
                None => Err(CertBuilderError::InvalidHashEncoding),
            }
        },
        // no witness as there is no single party that posts the certificate
        Certificate::MoveInstantaneousRewardsCert(_cert) => {
            proof {
                assert(old_v.union(Set::<Seq<u8>>::empty()) =~= old_v);
                assert(old_s.union(Set::<Seq<u8>>::empty()) =~= old_s);
            }
            Ok(())
        },
    }
}

/// Projects the key-hash obligations a certificate imposes into the
/// accumulator, failing loudly when the certificate's credential is
/// script-based; for callers that only ever sign with keys.
pub fn add_cert_vkeys(cert: &Certificate, vkeys: &mut RequiredWitnessSet) -> (r: Result<
    (),
    CertBuilderError,
>)
    requires
        old(vkeys).wf(),
    ensures
        final(vkeys).wf(),
        r is Ok <==> cert_vkeys_ok(*cert),
        r is Ok ==> final(vkeys).vkey_set() == old(vkeys).vkey_set().union(cert_vkeys(*cert)),
        r is Ok ==> final(vkeys).script_set() == old(vkeys).script_set(),
        r is Err ==> *final(vkeys) == *old(vkeys),
        cert_script_credential(*cert) matches Some(b) ==> (r matches Err(
            CertBuilderError::ExpectedKeyHash(h),
        ) && h@ == b),
        r is Err && cert_script_credential(*cert) is None ==> (r matches Err(e) && e
            is InvalidHashEncoding),
{
    let ghost old_v = vkeys.vkey_set();
    match cert {
        // stake key registrations do not require a witness
        Certificate::StakeRegistration(_cert) => {
            proof {
                assert(old_v.union(Set::<Seq<u8>>::empty()) =~= old_v);
            }
            Ok(())
        },
        Certificate::StakeDeregistration(cert) => match &cert.stake_credential {
            StakeCredential::Script { hash } => Err(
                CertBuilderError::ExpectedKeyHash(hash.duplicate()),
            ),
            StakeCredential::PubKey { hash } => {
                vkeys.add_vkey_key_hash(hash.duplicate());
                proof {
                    assert(old_v.insert(hash@) =~= old_v.union(
                        Set::<Seq<u8>>::empty().insert(hash@),
                    ));
                }
                Ok(())
            },
        },
        Certificate::StakeDelegation(cert) => match &cert.stake_credential {
            StakeCredential::Script { hash } => Err(
                CertBuilderError::ExpectedKeyHash(hash.duplicate()),
            ),
            StakeCredential::PubKey { hash } => {
                vkeys.add_vkey_key_hash(hash.duplicate());
                proof {
                    assert(old_v.insert(hash@) =~= old_v.union(
                        Set::<Seq<u8>>::empty().insert(hash@),
                    ));
                }
                Ok(())
            },
        },
        Certificate::PoolRegistration(cert) => {
            let owners = &cert.pool_params.pool_owners;
            let mut i: usize = 0;
            while i < owners.len()
                invariant
                    i <= owners@.len(),
                    vkeys.wf(),
                    vkeys.vkey_set() == old_v.union(key_hash_set(owners@.take(i as int))),
                    vkeys.script_set() == old(vkeys).script_set(),
                decreases owners@.len() - i,
            {
                let ghost prev = vkeys.vkey_set();
                vkeys.add_vkey_key_hash(owners[i].duplicate());
                proof {
                    assert(owners@.take(i + 1 as int) =~= owners@.take(i as int).push(
                        owners@[i as int],
                    ));
                    crate::witness_builder::lemma_key_hash_set_push(
                        owners@.take(i as int),
                        owners@[i as int],
                    );
                    assert(prev.insert(owners@[i as int]@) =~= old_v.union(
                        key_hash_set(owners@.take(i + 1 as int)),
                    ));
                }
                i += 1;
            }
            proof {
                assert(owners@.take(owners@.len() as int) =~= owners@);
            }
            let ghost prev = vkeys.vkey_set();
            vkeys.add_vkey_key_hash(cert.pool_params.operator.duplicate());
            proof {
                assert(prev.insert(cert.pool_params.operator@) =~= old_v.union(
                    key_hash_set(owners@).insert(cert.pool_params.operator@),
                ));
            }
            Ok(())
        },
        Certificate::PoolRetirement(cert) => {
            vkeys.add_vkey_key_hash(cert.ed25519_key_hash.duplicate());
            proof {
                assert(old_v.insert(cert.ed25519_key_hash@) =~= old_v.union(
                    Set::<Seq<u8>>::empty().insert(cert.ed25519_key_hash@),
                ));
            }
            Ok(())
        },
        Certificate::GenesisKeyDelegation(cert) => {
            match Ed25519KeyHash::from_raw_bytes(&cert.genesis_delegate_hash) {
                Some(hash) => {
                    proof {
                        assert(old_v.insert(cert.genesis_delegate_hash@) =~= old_v.union(
                            Set::<Seq<u8>>::empty().insert(cert.genesis_delegate_hash@),
                        ));
                    }
                    vkeys.add_vkey_key_hash(hash);
                    Ok(())
                },
                None => Err(CertBuilderError::InvalidHashEncoding),
            }
        },
        // no witness as there is no single party that posts the certificate
        Certificate::MoveInstantaneousRewardsCert(_cert) => {
            proof {
                assert(old_v.union(Set::<Seq<u8>>::empty()) =~= old_v);
            }
            Ok(())
        },
    }
}

/// The immutable outcome of witnessing one certificate: the certificate, the
/// aggregate witness material where the chosen script matched an obligation,
/// and the full derived obligation set, kept for downstream auditing.
#[derive(Clone, Debug, PartialEq)]
pub struct CertificateBuilderResult {
    pub cert: Certificate,
    pub aggregate_witness: Option<InputAggregateWitnessData>,
    pub required_wits: RequiredWitnessSet,
}

/// A single-use builder binding one certificate to a witnessing strategy.
/// Each terminal operation consumes the builder, so a certificate cannot be
/// witnessed twice through the same builder.
#[derive(Clone, Debug)]
pub struct SingleCertificateBuilder {
    cert: Certificate,
}

impl SingleCertificateBuilder {
    /// The certificate this builder holds.
    pub closed spec fn cert(self) -> Certificate {
        self.cert
    }

    pub fn new(cert: Certificate) -> (r: SingleCertificateBuilder)
        ensures
            r.cert() == cert,
    {
        SingleCertificateBuilder { cert }
    }

    /// Attaches no witness at all; the caller accepts responsibility for
    /// completeness. Particularly useful for stake registrations, which
    /// require no witnessing.
    pub fn skip_witness(self) -> (r: Result<CertificateBuilderResult, CertBuilderError>)
        ensures
            r is Ok <==> cert_wits_ok(self.cert()),
            r matches Ok(res) ==> {
                &&& res.cert == self.cert()
                &&& res.aggregate_witness is None
                &&& res.required_wits.wf()
                &&& res.required_wits.vkey_set() == cert_vkeys(self.cert())
                &&& res.required_wits.script_set() == cert_scripts(self.cert())
            },
            r matches Err(e) ==> e is InvalidHashEncoding,
    {
        let mut required_wits = RequiredWitnessSet::default();
        match cert_required_wits(&self.cert, &mut required_wits) {
            Ok(()) => {},
            Err(e) => {
                return Err(e);
            },
        }
        proof {
            assert(required_wits.vkey_set() =~= cert_vkeys(self.cert()));
            assert(required_wits.script_set() =~= cert_scripts(self.cert()));
        }
        Ok(
            CertificateBuilderResult {
                cert: self.cert,
                aggregate_witness: None,
                required_wits,
            },
        )
    }

    /// Declares that a plain key signature will witness the certificate;
    /// fails when the certificate carries any script-hash obligation, which a
    /// plain-key signer cannot satisfy. The signature itself is supplied by a
    /// later signing step.
    pub fn payment_key(self) -> (r: Result<CertificateBuilderResult, CertBuilderError>)
        ensures
            r is Ok <==> (cert_wits_ok(self.cert()) && cert_scripts(self.cert()).is_empty()),
            r matches Ok(res) ==> {
                &&& res.cert == self.cert()
                &&& res.aggregate_witness is None
                &&& res.required_wits.wf()
                &&& res.required_wits.vkey_set() == cert_vkeys(self.cert())
                &&& res.required_wits.script_set() == cert_scripts(self.cert())
            },
            !cert_wits_ok(self.cert()) ==> (r matches Err(e) && e is InvalidHashEncoding),
            cert_wits_ok(self.cert()) && !cert_scripts(self.cert()).is_empty() ==> (r matches Err(
                CertBuilderError::ExpectedScriptHash(c),
            ) && c == self.cert()),
    {
        let mut required_wits = RequiredWitnessSet::default();
        match cert_required_wits(&self.cert, &mut required_wits) {
            Ok(()) => {},
            Err(e) => {
                return Err(e);
            },
        }
        proof {
            assert(required_wits.vkey_set() =~= cert_vkeys(self.cert()));
            assert(required_wits.script_set() =~= cert_scripts(self.cert()));
        }
        if !required_wits.scripts_is_empty() {
            return Err(CertBuilderError::ExpectedScriptHash(self.cert));
        }
        Ok(
            CertificateBuilderResult {
                cert: self.cert,
                aggregate_witness: None,
                required_wits,
            },
        )
    }

    /// Witnesses the certificate with a native script. The script's hash is
    /// matched against the script-hash obligations: a matching obligation is
    /// discharged and the script attached as aggregate witness; a script that
    /// matches no obligation is simply not attached; any undischarged
    /// script-hash obligation is an error carrying the full remainder.
    /// Signer keys don't have to be set: they can be added later.
    pub fn native_script(
        self,
        native_script: NativeScript,
        witness_info: NativeScriptWitnessInfo,
    ) -> (r: Result<CertificateBuilderResult, CertBuilderError>)
        ensures
            r is Ok <==> (cert_wits_ok(self.cert()) && cert_scripts(self.cert()).remove(
                native_script.script_hash@,
            ).is_empty()),
            r matches Ok(res) ==> {
                &&& res.cert == self.cert()
                &&& res.required_wits.wf()
                &&& res.required_wits.vkey_set() == cert_vkeys(self.cert())
                &&& res.required_wits.script_set() == cert_scripts(self.cert())
                &&& (cert_scripts(self.cert()).contains(native_script.script_hash@)
                    ==> res.aggregate_witness == (Some(
                    InputAggregateWitnessData::NativeScript(native_script, witness_info),
                )))
                &&& (!cert_scripts(self.cert()).contains(native_script.script_hash@)
                    ==> res.aggregate_witness is None)
            },
            !cert_wits_ok(self.cert()) ==> (r matches Err(e) && e is InvalidHashEncoding),
            cert_wits_ok(self.cert()) && !cert_scripts(self.cert()).remove(
                native_script.script_hash@,
            ).is_empty() ==> (r matches Err(CertBuilderError::MissingWitnesses(w)) && {
                &&& w.wf()
                &&& w.vkey_set() == cert_vkeys(self.cert())
                &&& w.script_set() == cert_scripts(self.cert()).remove(native_script.script_hash@)
            }),
    {
        let mut required_wits = RequiredWitnessSet::default();
        match cert_required_wits(&self.cert, &mut required_wits) {
            Ok(()) => {},
            Err(e) => {
                return Err(e);
            },
        }
        proof {
            assert(required_wits.vkey_set() =~= cert_vkeys(self.cert()));
            assert(required_wits.script_set() =~= cert_scripts(self.cert()));
        }
        let mut required_wits_left = required_wits.duplicate();

        let script_hash = native_script.hash();

        // the user may have provided more witnesses than required; only a
        // script matching an actual obligation is attached. This often comes
        // up because stake registration requires no witness at all.
        let contains = required_wits_left.contains_script_hash(&script_hash);

        // check the user provided all the required witnesses
        required_wits_left.remove_script_hash(&script_hash);

        if !required_wits_left.scripts_is_empty() {
            return Err(CertBuilderError::MissingWitnesses(required_wits_left));
        }
        Ok(
            CertificateBuilderResult {
                cert: self.cert,
                aggregate_witness: if contains {
                    Some(InputAggregateWitnessData::NativeScript(native_script, witness_info))
                } else {
                    None
                },
                required_wits,
            },
        )
    }

    /// Witnesses the certificate with a Plutus script. The caller must assert
    /// the required signers, since a Plutus script cannot declare them
    /// statically; these replace the derived key-hash obligations for the
    /// matching step, so only the script-hash obligation gates success. The
    /// redeemer material is filled in by a later aggregation stage.
    pub fn plutus_script(
        self,
        partial_witness: PartialPlutusWitness,
        required_signers: RequiredSigners,
    ) -> (r: Result<CertificateBuilderResult, CertBuilderError>)
        ensures
            r is Ok <==> (cert_wits_ok(self.cert()) && cert_scripts(self.cert()).remove(
                partial_witness.script.script_hash@,
            ).is_empty()),
            r matches Ok(res) ==> {
                &&& res.cert == self.cert()
                &&& res.required_wits.wf()
                &&& res.required_wits.vkey_set() == key_hash_set(required_signers@).union(
                    cert_vkeys(self.cert()),
                )
                &&& res.required_wits.script_set() == cert_scripts(self.cert())
                &&& (cert_scripts(self.cert()).contains(partial_witness.script.script_hash@)
                    ==> res.aggregate_witness == (Some(
                    InputAggregateWitnessData::PlutusScript(
                        partial_witness,
                        required_signers,
                        None,
                    ),
                )))
                &&& (!cert_scripts(self.cert()).contains(partial_witness.script.script_hash@)
                    ==> res.aggregate_witness is None)
            },
            !cert_wits_ok(self.cert()) ==> (r matches Err(e) && e is InvalidHashEncoding),
            cert_wits_ok(self.cert()) && !cert_scripts(self.cert()).remove(
                partial_witness.script.script_hash@,
            ).is_empty() ==> (r matches Err(CertBuilderError::MissingWitnesses(w)) && {
                &&& w.wf()
                &&& w.vkey_set() == Set::<Seq<u8>>::empty()
                &&& w.script_set() == cert_scripts(self.cert()).remove(
                    partial_witness.script.script_hash@,
                )
            }),
    {
        let mut required_wits = RequiredWitnessSet::default();

        let mut i: usize = 0;
        while i < required_signers.len()
            invariant
                i <= required_signers@.len(),
                required_wits.wf(),
                required_wits.vkey_set() == key_hash_set(required_signers@.take(i as int)),
                required_wits.script_set() == Set::<Seq<u8>>::empty(),
            decreases required_signers@.len() - i,
        {
            let ghost prev = required_wits.vkey_set();
            required_wits.add_vkey_key_hash(required_signers[i].duplicate());
            proof {
                assert(required_signers@.take(i + 1 as int) =~= required_signers@.take(
                    i as int,
                ).push(required_signers@[i as int]));
                crate::witness_builder::lemma_key_hash_set_push(
                    required_signers@.take(i as int),
                    required_signers@[i as int],
                );
            }
            i += 1;
        }
        proof {
            assert(required_signers@.take(required_signers@.len() as int) =~= required_signers@);
        }

        match cert_required_wits(&self.cert, &mut required_wits) {
            Ok(()) => {},
            Err(e) => {
                return Err(e);
            },
        }
        proof {
            assert(required_wits.script_set() =~= cert_scripts(self.cert()));
        }
        let mut required_wits_left = required_wits.duplicate();

        // no way to know the needed signatures at this time
        required_wits_left.clear_vkeys();

        let script_hash = partial_witness.script.hash();

        // the user may have provided more witnesses than required; only a
        // script matching an actual obligation is attached. This often comes
        // up because stake registration requires no witness at all.
        let contains = required_wits_left.contains_script_hash(&script_hash);

        // check the user provided all the required witnesses
        required_wits_left.remove_script_hash(&script_hash);

        if !required_wits_left.is_empty() {
            return Err(CertBuilderError::MissingWitnesses(required_wits_left));
        }
        Ok(
            CertificateBuilderResult {
                cert: self.cert,
                aggregate_witness: if contains {
                    Some(
                        InputAggregateWitnessData::PlutusScript(
                            partial_witness,
                            required_signers,
                            None,
                        ),
                    )
                } else {
                    None
                },
                required_wits,
            },
        )
    }
}

/// A deregistration or delegation whose credential is a public-key hash
/// obliges exactly that key hash, no script hash, and passes the key-only
/// projection.
pub proof fn lemma_pub_key_credential_obligations(cert: Certificate, hash: Ed25519KeyHash)
    requires
        (cert matches Certificate::StakeDeregistration(c) && c.stake_credential
            == (StakeCredential::PubKey { hash })) || (cert matches Certificate::StakeDelegation(c)
            && c.stake_credential == (StakeCredential::PubKey { hash })),
    ensures
        cert_vkeys(cert) == Set::<Seq<u8>>::empty().insert(hash@),
        cert_scripts(cert) == Set::<Seq<u8>>::empty(),
        cert_vkeys_ok(cert),
        cert_wits_ok(cert),
{
}

/// A deregistration or delegation whose credential is a script hash obliges
/// exactly that script hash, no key hash, and the key-only projection rejects
/// it, reporting that script hash.
pub proof fn lemma_script_credential_obligations(cert: Certificate, hash: ScriptHash)
    requires
        (cert matches Certificate::StakeDeregistration(c) && c.stake_credential
            == (StakeCredential::Script { hash })) || (cert matches Certificate::StakeDelegation(c)
            && c.stake_credential == (StakeCredential::Script { hash })),
    ensures
        cert_scripts(cert) == Set::<Seq<u8>>::empty().insert(hash@),
        cert_vkeys(cert) == Set::<Seq<u8>>::empty(),
        cert_script_credential(cert) == Some(hash@),
        !cert_vkeys_ok(cert),
        cert_wits_ok(cert),
{
}

/// A pool registration obliges exactly the owners' key hashes together with
/// the operator's: the owner set extended by the operator. The size of that
/// set is at most the number of owner entries plus one; it reaches the owner
/// count plus one exactly when the operator is not also an owner.
pub proof fn lemma_pool_registration_obligations(c: crate::certs::PoolRegistration)
    ensures
        cert_vkeys(Certificate::PoolRegistration(c)) == key_hash_set(
            c.pool_params.pool_owners@,
        ).insert(c.pool_params.operator@),
        cert_scripts(Certificate::PoolRegistration(c)) == Set::<Seq<u8>>::empty(),
        cert_vkeys_ok(Certificate::PoolRegistration(c)),
        cert_vkeys(Certificate::PoolRegistration(c)).finite(),
        cert_vkeys(Certificate::PoolRegistration(c)).len() <= c.pool_params.pool_owners@.len() + 1,
        key_hash_set(c.pool_params.pool_owners@).contains(c.pool_params.operator@) ==> cert_vkeys(
            Certificate::PoolRegistration(c),
        ).len() == key_hash_set(c.pool_params.pool_owners@).len(),
        !key_hash_set(c.pool_params.pool_owners@).contains(c.pool_params.operator@) ==> cert_vkeys(
            Certificate::PoolRegistration(c),
        ).len() == key_hash_set(c.pool_params.pool_owners@).len() + 1,
        crate::witness_builder::key_hashes_distinct(c.pool_params.pool_owners@) ==> key_hash_set(
            c.pool_params.pool_owners@,
        ).len() == c.pool_params.pool_owners@.len(),
{
    let owners = c.pool_params.pool_owners@;
    crate::witness_builder::lemma_key_hash_set_finite(owners);
    owners.map_values(|h: Ed25519KeyHash| h@).lemma_cardinality_of_set();
    if crate::witness_builder::key_hashes_distinct(owners) {
        crate::witness_builder::lemma_key_hash_set_len(owners);
    }
}

/// A stake registration and a rewards movement oblige nothing, on both the
/// full derivation and the key-only projection.
pub proof fn lemma_no_witness_certificates(cert: Certificate)
    requires
        cert is StakeRegistration || cert is MoveInstantaneousRewardsCert,
    ensures
        cert_vkeys(cert) == Set::<Seq<u8>>::empty(),
        cert_scripts(cert) == Set::<Seq<u8>>::empty(),
        cert_vkeys_ok(cert),
        cert_wits_ok(cert),
{
}

/// A stake registration imposes no obligations, so witnessing it with a
/// native script of any hash succeeds with an empty obligation set and no
/// aggregate witness, by the contract of `native_script`.
pub proof fn lemma_native_script_on_registration(
    c: crate::certs::StakeRegistration,
    script_hash: Seq<u8>,
)
    ensures
        cert_wits_ok(Certificate::StakeRegistration(c)),
        cert_scripts(Certificate::StakeRegistration(c)).remove(script_hash).is_empty(),
        !cert_scripts(Certificate::StakeRegistration(c)).contains(script_hash),
        cert_vkeys(Certificate::StakeRegistration(c)) == Set::<Seq<u8>>::empty(),
        cert_scripts(Certificate::StakeRegistration(c)) == Set::<Seq<u8>>::empty(),
{
    assert(cert_scripts(Certificate::StakeRegistration(c)).remove(script_hash) =~= Set::<
        Seq<u8>,
    >::empty());
}

/// A script-credentialed deregistration witnessed by the script whose hash
/// matches the credential has its single obligation discharged: by the
/// contract of `native_script`, the operation succeeds and attaches the
/// script as aggregate witness.
pub proof fn lemma_native_script_match(c: crate::certs::StakeDeregistration, hash: ScriptHash)
    requires
        c.stake_credential == (StakeCredential::Script { hash }),
    ensures
        cert_wits_ok(Certificate::StakeDeregistration(c)),
        cert_scripts(Certificate::StakeDeregistration(c)).contains(hash@),
        cert_scripts(Certificate::StakeDeregistration(c)).remove(hash@).is_empty(),
{
    assert(cert_scripts(Certificate::StakeDeregistration(c)).remove(hash@) =~= Set::<
        Seq<u8>,
    >::empty());
}

/// The same certificate witnessed by a script whose hash differs leaves the
/// obligation standing: by the contract of `native_script`, the operation
/// fails with exactly the credential's hash outstanding.
pub proof fn lemma_native_script_mismatch(
    c: crate::certs::StakeDeregistration,
    hash: ScriptHash,
    other: Seq<u8>,
)
    requires
        c.stake_credential == (StakeCredential::Script { hash }),
        other != hash@,
    ensures
        cert_scripts(Certificate::StakeDeregistration(c)).remove(other) == Set::<
            Seq<u8>,
        >::empty().insert(hash@),
        !cert_scripts(Certificate::StakeDeregistration(c)).remove(other).is_empty(),
{
    assert(cert_scripts(Certificate::StakeDeregistration(c)).remove(other) =~= Set::<
        Seq<u8>,
    >::empty().insert(hash@));
    assert(cert_scripts(Certificate::StakeDeregistration(c)).remove(other).contains(hash@));
}

} // verus!
