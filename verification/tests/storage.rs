use sha2::{Digest as _, Sha256};
use triplet::{
    AnyValue, Body, Digest, ExportBuffer, Identity, IntegrityHasher, RecordError, ScopeCode, Tail,
    TripletRecord, Verification,
};

fn fixed_id() -> Identity {
    Identity::from_u128(0x0102030405060708090a0b0c0d0e0f10)
}

fn fact_record() -> TripletRecord {
    let body = Body::new(fixed_id(), "socrates", "is_a", AnyValue::symbol("mortal"));
    TripletRecord::seal_parts(ScopeCode::Fact, body, None).unwrap()
}

fn procedure_record() -> TripletRecord {
    let id = fixed_id();
    let body = Body::new(
        id,
        "pump",
        "reads",
        AnyValue::structure(vec![
            AnyValue::symbol("sensorArray"),
            AnyValue::verb("poll"),
            AnyValue::scalar(-7),
            AnyValue::structure(vec![]),
        ]),
    );
    let words: Vec<u64> = [1.0f64, 2.0, 3.0].iter().map(|x| x.to_bits()).collect();
    let tail = Tail::new(id, Some(ExportBuffer::from_bits(words)));
    TripletRecord::seal_parts(ScopeCode::Procedure, body, Some(tail)).unwrap()
}

fn expected_fact_content() -> Vec<u8> {
    let mut content: Vec<u8> = Vec::new();
    content.extend_from_slice(&[
        0x10, 0x0f, 0x0e, 0x0d, 0x0c, 0x0b, 0x0a, 0x09, 0x08, 0x07, 0x06, 0x05, 0x04, 0x03, 0x02,
        0x01,
    ]);
    content.extend_from_slice(&[8, 0, 0, 0, 0, 0, 0, 0]);
    content.extend_from_slice(b"socrates");
    content.extend_from_slice(&[4, 0, 0, 0, 0, 0, 0, 0]);
    content.extend_from_slice(b"is_a");
    content.push(1);
    content.extend_from_slice(&[6, 0, 0, 0, 0, 0, 0, 0]);
    content.extend_from_slice(b"mortal");
    content.push(0);
    content
}

#[test]
fn canonical_bytes_have_the_documented_layout() {
    let record = fact_record();
    let content = IntegrityHasher::canonical_bytes(record.body(), record.tail());
    assert_eq!(content, expected_fact_content());
}

#[test]
fn serialized_record_has_the_documented_layout() {
    let record = fact_record();
    let content = expected_fact_content();
    let digest: [u8; 32] = Sha256::digest(&content).into();
    let mut expected: Vec<u8> = vec![1];
    expected.extend_from_slice(&content);
    expected.extend_from_slice(&digest);
    assert_eq!(record.serialize(), expected);
    assert_eq!(record.header().integrity_hash().as_bytes(), &digest);
}

#[test]
fn serialized_tail_and_values_have_the_documented_layout() {
    let id = Identity::from_u128(1);
    let body = Body::new(
        id,
        "p",
        "q",
        AnyValue::structure(vec![AnyValue::verb("v"), AnyValue::scalar(-2)]),
    );
    let tail = Tail::new(id, Some(ExportBuffer::from_bits(vec![0x3ff0000000000000, 5])));
    let content = IntegrityHasher::canonical_bytes(&body, Some(&tail));
    let mut expected: Vec<u8> = Vec::new();
    let mut id_bytes = [0u8; 16];
    id_bytes[0] = 1;
    expected.extend_from_slice(&id_bytes);
    expected.extend_from_slice(&[1, 0, 0, 0, 0, 0, 0, 0, b'p']);
    expected.extend_from_slice(&[1, 0, 0, 0, 0, 0, 0, 0, b'q']);
    expected.push(4);
    expected.extend_from_slice(&[2, 0, 0, 0, 0, 0, 0, 0]);
    expected.push(2);
    expected.extend_from_slice(&[1, 0, 0, 0, 0, 0, 0, 0, b'v']);
    expected.push(3);
    expected.extend_from_slice(&[0xfe, 0xff, 0xff, 0xff, 0xff, 0xff, 0xff, 0xff]);
    expected.push(1);
    expected.extend_from_slice(&id_bytes);
    expected.push(1);
    expected.extend_from_slice(&[2, 0, 0, 0, 0, 0, 0, 0]);
    expected.extend_from_slice(&[0, 0, 0, 0, 0, 0, 0xf0, 0x3f]);
    expected.extend_from_slice(&[5, 0, 0, 0, 0, 0, 0, 0]);
    assert_eq!(content, expected);
}

#[test]
fn digest_of_is_sha256() {
    let digest = Digest::of(b"abc");
    let expected: [u8; 32] = [
        0xba, 0x78, 0x16, 0xbf, 0x8f, 0x01, 0xcf, 0xea, 0x41, 0x41, 0x40, 0xde, 0x5d, 0xae, 0x22,
        0x23, 0xb0, 0x03, 0x61, 0xa3, 0x96, 0x17, 0x7a, 0x9c, 0xb4, 0x10, 0xff, 0x61, 0xf2, 0x00,
        0x15, 0xad,
    ];
    assert_eq!(digest.as_bytes(), &expected);
    assert_ne!(&digest.as_bytes()[..], &b"abc"[..]);
    assert_eq!(Digest::of(b"abc"), digest);
    assert_ne!(Digest::of(b"abd"), digest);
}

#[test]
fn digest_matches_compares_every_byte() {
    let a = Digest::from_bytes([7u8; 32]);
    assert!(a.matches(&Digest::from_bytes([7u8; 32])));
    for i in 0..32 {
        let mut bytes = [7u8; 32];
        bytes[i] ^= 0x80;
        assert!(!a.matches(&Digest::from_bytes(bytes)));
        assert!(a != Digest::from_bytes(bytes));
    }
    assert_eq!(Digest::from_slice(&[7u8; 32]), Some(a));
    assert_eq!(Digest::from_slice(&[7u8; 31]), None);
    assert_eq!(Digest::from_slice(&[7u8; 33]), None);
}

#[test]
fn round_trip_is_field_for_field() {
    for record in [fact_record(), procedure_record()] {
        let bytes = record.serialize();
        let restored = TripletRecord::deserialize(&bytes).unwrap();
        assert_eq!(restored, record);
        assert_eq!(restored.header(), record.header());
        assert_eq!(restored.body(), record.body());
        assert_eq!(restored.tail(), record.tail());
        assert_eq!(restored.verify(), Verification::Verified);
        assert_eq!(TripletRecord::load(&bytes).unwrap(), record);
        assert_eq!(restored.serialize(), bytes);
    }
}

#[test]
fn round_trip_keeps_text_beyond_ascii() {
    let record = TripletRecord::seal(
        ScopeCode::Definition,
        "año",
        "significa",
        AnyValue::symbol("年 \u{1F600}"),
        None,
    )
    .unwrap();
    let restored = TripletRecord::load(&record.serialize()).unwrap();
    assert_eq!(restored.body().subject.as_str(), "año");
    assert_eq!(restored.body().attribute, AnyValue::symbol("年 \u{1F600}"));
    assert_eq!(restored, record);
}

#[test]
fn round_trip_keeps_every_bit_pattern() {
    let words = vec![f64::NAN.to_bits(), 0x7ff8_0000_0000_0001, (-0.0f64).to_bits(), u64::MAX, 0];
    let record = TripletRecord::seal(
        ScopeCode::Program,
        "p",
        "q",
        AnyValue::scalar(i64::MIN),
        Some(ExportBuffer::from_bits(words.clone())),
    )
    .unwrap();
    let restored = TripletRecord::load(&record.serialize()).unwrap();
    assert_eq!(restored.tail().unwrap().export.as_ref().unwrap().bits(), &words[..]);
    assert_eq!(restored.body().attribute, AnyValue::scalar(i64::MIN));
}

#[test]
fn flipping_any_content_bit_is_never_accepted() {
    for record in [fact_record(), procedure_record()] {
        let bytes = record.serialize();
        let content_end = bytes.len() - 32;
        for at in 1..content_end {
            for bit in 0..8 {
                let mut tampered = bytes.clone();
                tampered[at] ^= 1 << bit;
                let outcome = TripletRecord::load(&tampered);
                assert!(outcome.is_err(), "byte {} bit {} was accepted", at, bit);
                if let Ok(read) = TripletRecord::deserialize(&tampered) {
                    if read.tail().is_some() == read.scope().requires_tail() {
                        assert_eq!(read.verify(), Verification::Rejected);
                        assert_eq!(outcome, Err(RecordError::IntegrityMismatch));
                    }
                }
            }
        }
    }
}

#[test]
fn flipping_a_digest_bit_is_an_integrity_mismatch() {
    let bytes = fact_record().serialize();
    for at in bytes.len() - 32..bytes.len() {
        let mut tampered = bytes.clone();
        tampered[at] ^= 0x01;
        assert_eq!(TripletRecord::load(&tampered), Err(RecordError::IntegrityMismatch));
        let read = TripletRecord::deserialize(&tampered).unwrap();
        assert_eq!(read.verify(), Verification::Rejected);
    }
}

#[test]
fn changing_the_scope_byte_is_checked_against_the_tail() {
    let mut fact = fact_record().serialize();
    fact[0] = ScopeCode::Procedure.code();
    assert_eq!(TripletRecord::load(&fact), Err(RecordError::TailPresenceViolation));
    assert!(TripletRecord::deserialize(&fact).is_ok());
    let mut procedure = procedure_record().serialize();
    procedure[0] = ScopeCode::Fact.code();
    assert_eq!(TripletRecord::load(&procedure), Err(RecordError::TailPresenceViolation));
    fact[0] = 0;
    assert_eq!(TripletRecord::load(&fact), Err(RecordError::MalformedRecord));
    fact[0] = 9;
    assert_eq!(TripletRecord::deserialize(&fact), Err(RecordError::MalformedRecord));
}

#[test]
fn truncated_or_extended_bytes_are_malformed() {
    let bytes = procedure_record().serialize();
    for len in 0..bytes.len() {
        assert_eq!(
            TripletRecord::deserialize(&bytes[..len]),
            Err(RecordError::MalformedRecord),
            "a prefix of {} bytes was read",
            len
        );
    }
    let mut longer = bytes.clone();
    longer.push(0);
    assert_eq!(TripletRecord::load(&longer), Err(RecordError::MalformedRecord));
    assert_eq!(TripletRecord::load(&[]), Err(RecordError::MalformedRecord));
}

#[test]
fn invalid_utf8_is_malformed() {
    let record = fact_record();
    let mut bytes = record.serialize();
    let at = 1 + 16 + 8;
    assert_eq!(bytes[at], b's');
    bytes[at] = 0xff;
    assert_eq!(TripletRecord::deserialize(&bytes), Err(RecordError::MalformedRecord));
}

#[test]
fn empty_subject_in_stored_bytes_is_malformed() {
    let mut content: Vec<u8> = vec![0u8; 16];
    content.extend_from_slice(&[0, 0, 0, 0, 0, 0, 0, 0]);
    content.extend_from_slice(&[1, 0, 0, 0, 0, 0, 0, 0, b'v']);
    content.push(3);
    content.extend_from_slice(&[0u8; 8]);
    content.push(0);
    let digest: [u8; 32] = Sha256::digest(&content).into();
    let mut bytes: Vec<u8> = vec![1];
    bytes.extend_from_slice(&content);
    bytes.extend_from_slice(&digest);
    assert_eq!(TripletRecord::load(&bytes), Err(RecordError::MalformedRecord));
    bytes[1 + 16] = 1;
    bytes.insert(1 + 16 + 8, b's');
    let content_end = bytes.len() - 32;
    let digest: [u8; 32] = Sha256::digest(&bytes[1..content_end]).into();
    bytes.truncate(content_end);
    bytes.extend_from_slice(&digest);
    let record = TripletRecord::load(&bytes).unwrap();
    assert_eq!(record.body().subject.as_str(), "s");
    assert_eq!(record.body().attribute, AnyValue::scalar(0));
}

#[test]
fn stored_tail_of_another_identity_is_malformed() {
    let record = procedure_record();
    let bytes = record.serialize();
    let content = IntegrityHasher::canonical_bytes(record.body(), None);
    let tail_id_at = 1 + content.len();
    assert_eq!(bytes[tail_id_at - 1], 1);
    let mut tampered = bytes.clone();
    tampered[tail_id_at] ^= 0xff;
    assert_eq!(TripletRecord::deserialize(&tampered), Err(RecordError::MalformedRecord));
}

#[test]
fn stored_values_nested_deep_are_read() {
    let mut content: Vec<u8> = vec![0u8; 16];
    content.extend_from_slice(&[1, 0, 0, 0, 0, 0, 0, 0, b's']);
    content.extend_from_slice(&[1, 0, 0, 0, 0, 0, 0, 0, b'v']);
    for _ in 0..33 {
        content.push(4);
        content.extend_from_slice(&[1, 0, 0, 0, 0, 0, 0, 0]);
    }
    content.push(3);
    content.extend_from_slice(&[9, 0, 0, 0, 0, 0, 0, 0]);
    content.push(0);
    let digest: [u8; 32] = Sha256::digest(&content).into();
    let mut bytes: Vec<u8> = vec![1];
    bytes.extend_from_slice(&content);
    bytes.extend_from_slice(&digest);
    let record = TripletRecord::load(&bytes).unwrap();
    let mut expected = AnyValue::scalar(9);
    for _ in 0..33 {
        expected = AnyValue::structure(vec![expected]);
    }
    assert_eq!(record.body().attribute, expected);
    assert_eq!(record.serialize(), bytes);
}

#[test]
fn stored_structure_with_missing_items_is_malformed() {
    let mut content: Vec<u8> = vec![0u8; 16];
    content.extend_from_slice(&[1, 0, 0, 0, 0, 0, 0, 0, b's']);
    content.extend_from_slice(&[1, 0, 0, 0, 0, 0, 0, 0, b'v']);
    content.push(4);
    content.extend_from_slice(&[3, 0, 0, 0, 0, 0, 0, 0]);
    content.push(3);
    content.extend_from_slice(&[9, 0, 0, 0, 0, 0, 0, 0]);
    content.push(0);
    let digest: [u8; 32] = Sha256::digest(&content).into();
    let mut bytes: Vec<u8> = vec![1];
    bytes.extend_from_slice(&content);
    bytes.extend_from_slice(&digest);
    assert_eq!(TripletRecord::load(&bytes), Err(RecordError::MalformedRecord));
}

#[test]
fn huge_counts_in_stored_bytes_are_malformed() {
    let mut content: Vec<u8> = vec![0u8; 16];
    content.extend_from_slice(&[1, 0, 0, 0, 0, 0, 0, 0, b's']);
    content.extend_from_slice(&[0xff; 8]);
    content.extend_from_slice(&[b'v'; 40]);
    let mut bytes: Vec<u8> = vec![1];
    bytes.extend_from_slice(&content);
    assert_eq!(TripletRecord::deserialize(&bytes), Err(RecordError::MalformedRecord));
}
