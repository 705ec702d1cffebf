use kbs_core::bytes::{bytes_eq, contains_path, copy_bytes, copy_paths};
use kbs_core::claims::{Claim, Claims, ReferenceStatus, TeeKind};
use kbs_core::evidence::{
    is_enabled, runtime_digest, verify, verify_against, HashAlgorithm, Quote, VerificationError,
};
use kbs_core::reference::{ReferenceStore, ReferenceValue};

fn digest() -> Vec<u8> {
    vec![0xab; 48]
}

fn quote(report_data: Vec<u8>) -> Quote {
    Quote {
        signature_valid: true,
        report_data,
        measurement: vec![1, 2, 3],
        entries: vec![Claim { name: b"svn".to_vec(), value: b"2".to_vec() }],
    }
}

#[test]
fn bytes_compare_by_content() {
    assert!(bytes_eq(&vec![1, 2, 3], &vec![1, 2, 3]));
    assert!(!bytes_eq(&vec![1, 2, 3], &vec![1, 2, 4]));
    assert!(!bytes_eq(&vec![1, 2, 3], &vec![1, 2]));
    assert!(bytes_eq(&vec![], &vec![]));
}

#[test]
fn copies_hold_the_same_bytes() {
    assert_eq!(copy_bytes(&vec![9, 8, 7]), vec![9, 8, 7]);
    let paths = vec![b"a/b".to_vec(), vec![], b"c".to_vec()];
    assert_eq!(copy_paths(&paths), paths);
    assert!(contains_path(&paths, &b"c".to_vec()));
    assert!(contains_path(&paths, &vec![]));
    assert!(!contains_path(&paths, &b"a".to_vec()));
}

#[test]
fn digest_lengths() {
    assert_eq!(HashAlgorithm::Sha256.digest_len(), 32);
    assert_eq!(HashAlgorithm::Sha384.digest_len(), 48);
    assert_eq!(HashAlgorithm::Sha512.digest_len(), 64);
}

#[test]
fn enabled_families_are_found() {
    let enabled = vec![TeeKind::Snp, TeeKind::Tdx];
    assert!(is_enabled(&enabled, TeeKind::Tdx));
    assert!(!is_enabled(&enabled, TeeKind::Sgx));
    assert!(!is_enabled(&vec![], TeeKind::Sample));
}

#[test]
fn bound_evidence_gives_its_claims() {
    let got = verify_against(
        TeeKind::Sample,
        &vec![TeeKind::Sample],
        Some(quote(digest())),
        &digest(),
        HashAlgorithm::Sha384,
    );
    let expected = Claims {
        tee: TeeKind::Sample,
        measurement: vec![1, 2, 3],
        entries: vec![Claim { name: b"svn".to_vec(), value: b"2".to_vec() }],
        reference: ReferenceStatus::Unknown,
    };
    assert_eq!(got, Ok(expected));
}

#[test]
fn binding_mismatch_fails_with_a_valid_signature() {
    let mut other = digest();
    other[47] = 0;
    let got = verify_against(
        TeeKind::Sample,
        &vec![TeeKind::Sample],
        Some(quote(other)),
        &digest(),
        HashAlgorithm::Sha384,
    );
    assert_eq!(got, Err(VerificationError::BindingMismatch));
}

#[test]
fn digest_of_another_algorithm_is_a_mismatch() {
    let short = vec![0xab; 32];
    let got = verify_against(
        TeeKind::Sample,
        &vec![TeeKind::Sample],
        Some(quote(short.clone())),
        &short,
        HashAlgorithm::Sha384,
    );
    assert_eq!(got, Err(VerificationError::BindingMismatch));
}

#[test]
fn bad_signature_fails() {
    let mut q = quote(digest());
    q.signature_valid = false;
    let got =
        verify_against(TeeKind::Sample, &vec![TeeKind::Sample], Some(q), &digest(), HashAlgorithm::Sha384);
    assert_eq!(got, Err(VerificationError::SignatureFailure));
}

#[test]
fn malformed_evidence_fails() {
    let got = verify_against(TeeKind::Tdx, &vec![TeeKind::Tdx], None, &digest(), HashAlgorithm::Sha384);
    assert_eq!(got, Err(VerificationError::MalformedEvidence));
}

#[test]
fn unsupported_family_fails_first() {
    let got = verify_against(TeeKind::Sgx, &vec![TeeKind::Tdx], None, &digest(), HashAlgorithm::Sha384);
    assert_eq!(got, Err(VerificationError::UnsupportedTee));
    let got = verify_against(
        TeeKind::Sgx,
        &vec![TeeKind::Tdx],
        Some(quote(digest())),
        &digest(),
        HashAlgorithm::Sha384,
    );
    assert_eq!(got, Err(VerificationError::UnsupportedTee));
}

fn hex(bytes: &[u8]) -> String {
    let mut out = String::new();
    for b in bytes {
        out.push_str(&format!("{:02x}", b));
    }
    out
}

#[test]
fn digests_of_known_input() {
    let abc = b"abc".to_vec();
    assert_eq!(
        hex(&runtime_digest(HashAlgorithm::Sha256, &abc)),
        "ba7816bf8f01cfea414140de5dae2223b00361a396177a9cb410ff61f20015ad"
    );
    assert_eq!(
        hex(&runtime_digest(HashAlgorithm::Sha384, &abc)),
        "cb00753f45a35e8bb5a03d699ac65007272c32ab0eded1631a8b605a43ff5bed8086072ba1e7cc2358baeca134c825a7"
    );
    assert_eq!(
        hex(&runtime_digest(HashAlgorithm::Sha512, &abc)),
        "ddaf35a193617abacc417349ae20413112e6fa4e89a97ea20a9eeee64b55d39a2192992a274fc1a836ba3c23a3feebbd454d4423643ce80e2a9ac94fa54ca49f"
    );
}

#[test]
fn evidence_bound_to_the_runtime_data_gives_claims() {
    let data = b"{\"nonce\":\"n\",\"tee-pubkey\":\"k\"}".to_vec();
    let bound = runtime_digest(HashAlgorithm::Sha384, &data);
    let got = verify(
        TeeKind::Snp,
        &vec![TeeKind::Snp],
        Some(quote(bound)),
        &data,
        HashAlgorithm::Sha384,
    );
    assert_eq!(got.map(|c| c.measurement), Ok(vec![1, 2, 3]));
}

#[test]
fn evidence_bound_to_other_runtime_data_is_refused() {
    let data = b"{\"nonce\":\"n\",\"tee-pubkey\":\"k\"}".to_vec();
    let replayed = b"{\"nonce\":\"m\",\"tee-pubkey\":\"k\"}".to_vec();
    let bound = runtime_digest(HashAlgorithm::Sha384, &replayed);
    let got = verify(
        TeeKind::Snp,
        &vec![TeeKind::Snp],
        Some(quote(bound)),
        &data,
        HashAlgorithm::Sha384,
    );
    assert_eq!(got, Err(VerificationError::BindingMismatch));
}

#[test]
fn evidence_that_embeds_the_data_itself_is_refused() {
    let data = vec![7; 48];
    let got = verify(
        TeeKind::Snp,
        &vec![TeeKind::Snp],
        Some(quote(data.clone())),
        &data,
        HashAlgorithm::Sha384,
    );
    assert_eq!(got, Err(VerificationError::BindingMismatch));
}

#[test]
fn digest_under_another_algorithm_is_refused() {
    let data = b"runtime".to_vec();
    let bound = runtime_digest(HashAlgorithm::Sha256, &data);
    let got = verify(
        TeeKind::Snp,
        &vec![TeeKind::Snp],
        Some(quote(bound)),
        &data,
        HashAlgorithm::Sha384,
    );
    assert_eq!(got, Err(VerificationError::BindingMismatch));
}

fn claims(tee: TeeKind, measurement: Vec<u8>) -> Claims {
    Claims { tee, measurement, entries: vec![], reference: ReferenceStatus::Unknown }
}

#[test]
fn lookup_takes_the_first_entry_of_a_family() {
    let store = ReferenceStore {
        values: vec![
            ReferenceValue { tee: TeeKind::Snp, measurement: vec![1] },
            ReferenceValue { tee: TeeKind::Tdx, measurement: vec![2] },
            ReferenceValue { tee: TeeKind::Snp, measurement: vec![3] },
        ],
    };
    assert_eq!(store.lookup(TeeKind::Snp), Some(&vec![1]));
    assert_eq!(store.lookup(TeeKind::Tdx), Some(&vec![2]));
    assert_eq!(store.lookup(TeeKind::Sgx), None);
}

#[test]
fn appraisal_compares_with_the_reference() {
    let store = ReferenceStore {
        values: vec![ReferenceValue { tee: TeeKind::Snp, measurement: vec![1, 1] }],
    };
    assert_eq!(store.appraise(claims(TeeKind::Snp, vec![1, 1])).reference, ReferenceStatus::Matched);
    assert_eq!(
        store.appraise(claims(TeeKind::Snp, vec![1, 2])).reference,
        ReferenceStatus::Mismatched
    );
    assert_eq!(store.appraise(claims(TeeKind::Tdx, vec![1, 1])).reference, ReferenceStatus::Unknown);
}

#[test]
fn appraisal_keeps_the_rest_of_the_claims() {
    let store = ReferenceStore {
        values: vec![ReferenceValue { tee: TeeKind::Snp, measurement: vec![1, 1] }],
    };
    let mut input = claims(TeeKind::Snp, vec![1, 1]);
    input.entries.push(Claim { name: b"k".to_vec(), value: b"v".to_vec() });
    let merged = store.appraise(input.clone());
    assert_eq!(merged.tee, input.tee);
    assert_eq!(merged.measurement, input.measurement);
    assert_eq!(merged.entries, input.entries);
}
