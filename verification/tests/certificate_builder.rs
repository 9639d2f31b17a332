use cert_builder::certificate_builder::{
    add_cert_vkeys, cert_required_wits, CertBuilderError, SingleCertificateBuilder,
};
use cert_builder::certs::{
    Certificate, GenesisKeyDelegation, MoveInstantaneousRewardsCert, PoolParams, PoolRegistration,
    PoolRetirement, StakeCredential, StakeDelegation, StakeDeregistration, StakeRegistration,
};
use cert_builder::hashes::{Ed25519KeyHash, ScriptHash};
use cert_builder::scripts::{NativeScript, PartialPlutusWitness, PlutusData, PlutusScriptWitness};
use cert_builder::witness_builder::{
    InputAggregateWitnessData, NativeScriptWitnessInfo, RequiredWitnessSet,
};

fn key_hash(n: u8) -> Ed25519KeyHash {
    Ed25519KeyHash::from_raw_bytes(&vec![n; 28]).unwrap()
}

fn script_hash(n: u8) -> ScriptHash {
    ScriptHash::from_raw_bytes(&vec![n; 28]).unwrap()
}

fn pubkey_deregistration(n: u8) -> Certificate {
    Certificate::StakeDeregistration(StakeDeregistration {
        stake_credential: StakeCredential::PubKey { hash: key_hash(n) },
    })
}

fn script_deregistration(n: u8) -> Certificate {
    Certificate::StakeDeregistration(StakeDeregistration {
        stake_credential: StakeCredential::Script { hash: script_hash(n) },
    })
}

fn registration(n: u8) -> Certificate {
    Certificate::StakeRegistration(StakeRegistration {
        stake_credential: StakeCredential::PubKey { hash: key_hash(n) },
    })
}

fn partial_witness(n: u8) -> PartialPlutusWitness {
    PartialPlutusWitness::new(
        PlutusScriptWitness::new(script_hash(n)),
        PlutusData { bytes: vec![0xa0] },
    )
}

fn derive(cert: &Certificate) -> RequiredWitnessSet {
    let mut wits = RequiredWitnessSet::default();
    cert_required_wits(cert, &mut wits).unwrap();
    wits
}

#[test]
fn pubkey_deregistration_requirements() {
    let wits = derive(&pubkey_deregistration(1));
    assert_eq!(wits.len(), 1);
    assert!(wits.contains_vkey_key_hash(&key_hash(1)));
    assert!(wits.scripts_is_empty());

    let mut vkeys = RequiredWitnessSet::default();
    add_cert_vkeys(&pubkey_deregistration(1), &mut vkeys).unwrap();
    assert_eq!(vkeys.len(), 1);
    assert!(vkeys.contains_vkey_key_hash(&key_hash(1)));
}

#[test]
fn pubkey_delegation_requirements() {
    let cert = Certificate::StakeDelegation(StakeDelegation {
        stake_credential: StakeCredential::PubKey { hash: key_hash(2) },
        pool: key_hash(9),
    });
    let wits = derive(&cert);
    assert_eq!(wits.len(), 1);
    assert!(wits.contains_vkey_key_hash(&key_hash(2)));
    assert!(!wits.contains_vkey_key_hash(&key_hash(9)));

    let mut vkeys = RequiredWitnessSet::default();
    add_cert_vkeys(&cert, &mut vkeys).unwrap();
    assert!(vkeys.contains_vkey_key_hash(&key_hash(2)));
}

#[test]
fn script_deregistration_requirements() {
    let wits = derive(&script_deregistration(7));
    assert_eq!(wits.len(), 1);
    assert!(wits.contains_script_hash(&script_hash(7)));

    let mut vkeys = RequiredWitnessSet::default();
    let err = add_cert_vkeys(&script_deregistration(7), &mut vkeys).unwrap_err();
    assert_eq!(err, CertBuilderError::ExpectedKeyHash(script_hash(7)));
    assert!(vkeys.is_empty());
}

#[test]
fn script_delegation_projection_fails() {
    let cert = Certificate::StakeDelegation(StakeDelegation {
        stake_credential: StakeCredential::Script { hash: script_hash(4) },
        pool: key_hash(9),
    });
    let wits = derive(&cert);
    assert!(wits.contains_script_hash(&script_hash(4)));

    let mut vkeys = RequiredWitnessSet::default();
    let err = add_cert_vkeys(&cert, &mut vkeys).unwrap_err();
    assert_eq!(err, CertBuilderError::ExpectedKeyHash(script_hash(4)));
}

#[test]
fn pool_registration_owner_union() {
    let cert = Certificate::PoolRegistration(PoolRegistration {
        pool_params: PoolParams {
            operator: key_hash(3),
            pool_owners: vec![key_hash(1), key_hash(2)],
        },
    });
    let wits = derive(&cert);
    assert_eq!(wits.len(), 3);
    assert!(wits.contains_vkey_key_hash(&key_hash(1)));
    assert!(wits.contains_vkey_key_hash(&key_hash(2)));
    assert!(wits.contains_vkey_key_hash(&key_hash(3)));
    assert!(wits.scripts_is_empty());
}

#[test]
fn pool_registration_operator_also_owner() {
    let cert = Certificate::PoolRegistration(PoolRegistration {
        pool_params: PoolParams {
            operator: key_hash(1),
            pool_owners: vec![key_hash(1), key_hash(2)],
        },
    });
    let wits = derive(&cert);
    assert_eq!(wits.len(), 2);
}

#[test]
fn pool_retirement_single_key() {
    let cert = Certificate::PoolRetirement(PoolRetirement {
        ed25519_key_hash: key_hash(6),
        epoch: 100,
    });
    let wits = derive(&cert);
    assert_eq!(wits.len(), 1);
    assert!(wits.contains_vkey_key_hash(&key_hash(6)));
}

#[test]
fn stake_registration_no_obligations() {
    let wits = derive(&registration(1));
    assert!(wits.is_empty());

    let mut vkeys = RequiredWitnessSet::default();
    add_cert_vkeys(&registration(1), &mut vkeys).unwrap();
    assert!(vkeys.is_empty());
}

#[test]
fn rewards_cert_no_obligations() {
    let cert = Certificate::MoveInstantaneousRewardsCert(MoveInstantaneousRewardsCert {});
    let wits = derive(&cert);
    assert!(wits.is_empty());

    let mut vkeys = RequiredWitnessSet::default();
    add_cert_vkeys(&cert, &mut vkeys).unwrap();
    assert!(vkeys.is_empty());
}

#[test]
fn genesis_delegation_valid_bytes() {
    let cert = Certificate::GenesisKeyDelegation(GenesisKeyDelegation {
        genesis_delegate_hash: vec![8; 28],
    });
    let wits = derive(&cert);
    assert_eq!(wits.len(), 1);
    assert!(wits.contains_vkey_key_hash(&key_hash(8)));

    let mut vkeys = RequiredWitnessSet::default();
    add_cert_vkeys(&cert, &mut vkeys).unwrap();
    assert!(vkeys.contains_vkey_key_hash(&key_hash(8)));
}

#[test]
fn genesis_delegation_invalid_length() {
    let cert = Certificate::GenesisKeyDelegation(GenesisKeyDelegation {
        genesis_delegate_hash: vec![8; 27],
    });
    let mut wits = RequiredWitnessSet::default();
    let err = cert_required_wits(&cert, &mut wits).unwrap_err();
    assert_eq!(err, CertBuilderError::InvalidHashEncoding);
    assert!(wits.is_empty());

    let mut vkeys = RequiredWitnessSet::default();
    let err = add_cert_vkeys(&cert, &mut vkeys).unwrap_err();
    assert_eq!(err, CertBuilderError::InvalidHashEncoding);

    let err = SingleCertificateBuilder::new(cert.clone()).skip_witness().unwrap_err();
    assert_eq!(err, CertBuilderError::InvalidHashEncoding);
    let err = SingleCertificateBuilder::new(cert.clone()).payment_key().unwrap_err();
    assert_eq!(err, CertBuilderError::InvalidHashEncoding);
    let err = SingleCertificateBuilder::new(cert.clone())
        .native_script(
            NativeScript::new(script_hash(1)),
            NativeScriptWitnessInfo::AssumeSignatureCount,
        )
        .unwrap_err();
    assert_eq!(err, CertBuilderError::InvalidHashEncoding);
    let err = SingleCertificateBuilder::new(cert)
        .plutus_script(partial_witness(1), vec![key_hash(2)])
        .unwrap_err();
    assert_eq!(err, CertBuilderError::InvalidHashEncoding);
}

#[test]
fn skip_witness_keeps_certificate_and_obligations() {
    let cert = pubkey_deregistration(5);
    let res = SingleCertificateBuilder::new(cert.clone()).skip_witness().unwrap();
    assert_eq!(res.cert, cert);
    assert!(res.aggregate_witness.is_none());
    assert_eq!(res.required_wits.len(), 1);
    assert!(res.required_wits.contains_vkey_key_hash(&key_hash(5)));
}

#[test]
fn skip_witness_on_script_certificate() {
    let cert = script_deregistration(5);
    let res = SingleCertificateBuilder::new(cert.clone()).skip_witness().unwrap();
    assert_eq!(res.cert, cert);
    assert!(res.aggregate_witness.is_none());
    assert!(res.required_wits.contains_script_hash(&script_hash(5)));
}

#[test]
fn payment_key_on_key_certificate() {
    let cert = pubkey_deregistration(5);
    let res = SingleCertificateBuilder::new(cert.clone()).payment_key().unwrap();
    assert_eq!(res.cert, cert);
    assert!(res.aggregate_witness.is_none());
    assert!(res.required_wits.contains_vkey_key_hash(&key_hash(5)));
}

#[test]
fn payment_key_rejects_script_certificate() {
    let cert = script_deregistration(5);
    let err = SingleCertificateBuilder::new(cert.clone()).payment_key().unwrap_err();
    assert_eq!(err, CertBuilderError::ExpectedScriptHash(cert));
}

#[test]
fn native_script_on_registration() {
    let script = NativeScript::new(script_hash(1));
    let res = SingleCertificateBuilder::new(registration(1))
        .native_script(script, NativeScriptWitnessInfo::Count(1))
        .unwrap();
    assert!(res.aggregate_witness.is_none());
    assert!(res.required_wits.is_empty());
}

#[test]
fn native_script_matching_hash() {
    let cert = script_deregistration(7);
    let script = NativeScript::new(script_hash(7));
    let info = NativeScriptWitnessInfo::Vkeys(vec![key_hash(1)]);
    let res = SingleCertificateBuilder::new(cert.clone())
        .native_script(script.clone(), info.clone())
        .unwrap();
    assert_eq!(res.cert, cert);
    assert_eq!(
        res.aggregate_witness,
        Some(InputAggregateWitnessData::NativeScript(script, info))
    );
    assert!(res.required_wits.contains_script_hash(&script_hash(7)));
    assert_eq!(res.required_wits.len(), 1);
}

#[test]
fn native_script_mismatched_hash() {
    let cert = script_deregistration(7);
    let script = NativeScript::new(script_hash(8));
    let err = SingleCertificateBuilder::new(cert)
        .native_script(script, NativeScriptWitnessInfo::AssumeSignatureCount)
        .unwrap_err();
    let mut expected = RequiredWitnessSet::default();
    expected.add_script_hash(script_hash(7));
    assert_eq!(err, CertBuilderError::MissingWitnesses(expected));
}

#[test]
fn plutus_script_matching_hash() {
    let cert = script_deregistration(7);
    let witness = partial_witness(7);
    let signers = vec![key_hash(1), key_hash(2)];
    let res = SingleCertificateBuilder::new(cert.clone())
        .plutus_script(witness.clone(), signers.clone())
        .unwrap();
    assert_eq!(res.cert, cert);
    assert_eq!(
        res.aggregate_witness,
        Some(InputAggregateWitnessData::PlutusScript(witness, signers, None))
    );
    assert!(res.required_wits.contains_script_hash(&script_hash(7)));
    assert!(res.required_wits.contains_vkey_key_hash(&key_hash(1)));
    assert!(res.required_wits.contains_vkey_key_hash(&key_hash(2)));
    assert_eq!(res.required_wits.len(), 3);
}

#[test]
fn plutus_required_signers_not_duplicated() {
    // the deriver's own key-hash output is cleared before matching, so the
    // caller's signers replace it rather than double-count it
    let cert = pubkey_deregistration(1);
    let res = SingleCertificateBuilder::new(cert)
        .plutus_script(partial_witness(9), vec![key_hash(1)])
        .unwrap();
    assert!(res.aggregate_witness.is_none());
    assert_eq!(res.required_wits.len(), 1);
    assert!(res.required_wits.contains_vkey_key_hash(&key_hash(1)));
}

#[test]
fn plutus_script_mismatched_hash() {
    let cert = script_deregistration(7);
    let err = SingleCertificateBuilder::new(cert)
        .plutus_script(partial_witness(8), vec![key_hash(1)])
        .unwrap_err();
    let mut expected = RequiredWitnessSet::default();
    expected.add_script_hash(script_hash(7));
    assert_eq!(err, CertBuilderError::MissingWitnesses(expected));
}

#[test]
fn terminal_operations_return_certificate_unchanged() {
    let certs = vec![
        registration(1),
        pubkey_deregistration(2),
        Certificate::PoolRetirement(PoolRetirement { ed25519_key_hash: key_hash(3), epoch: 7 }),
        Certificate::MoveInstantaneousRewardsCert(MoveInstantaneousRewardsCert {}),
    ];
    for cert in certs {
        let res = SingleCertificateBuilder::new(cert.clone()).skip_witness().unwrap();
        assert_eq!(res.cert, cert);
        let res = SingleCertificateBuilder::new(cert.clone()).payment_key().unwrap();
        assert_eq!(res.cert, cert);
    }
}

#[test]
fn derivation_accumulates_into_existing_set() {
    let mut wits = RequiredWitnessSet::default();
    cert_required_wits(&pubkey_deregistration(1), &mut wits).unwrap();
    cert_required_wits(&script_deregistration(2), &mut wits).unwrap();
    cert_required_wits(&pubkey_deregistration(1), &mut wits).unwrap();
    assert_eq!(wits.len(), 2);
    assert!(wits.contains_vkey_key_hash(&key_hash(1)));
    assert!(wits.contains_script_hash(&script_hash(2)));
}
