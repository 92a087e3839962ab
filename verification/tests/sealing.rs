use triplet::{
    AnyValue, Body, ExportBuffer, Identity, IntegrityHasher, RecordError, ScopeCode, Tail,
    TripletRecord, Verification,
};

fn fixed_id() -> Identity {
    Identity::from_u128(0x0102030405060708090a0b0c0d0e0f10)
}

fn plain_scopes() -> Vec<ScopeCode> {
    vec![
        ScopeCode::Fact,
        ScopeCode::Rule,
        ScopeCode::Definition,
        ScopeCode::Macro,
        ScopeCode::Template,
        ScopeCode::Expression,
    ]
}

#[test]
fn seal_fact_has_name_and_no_tail() {
    let record = TripletRecord::seal(
        ScopeCode::Fact,
        "socrates",
        "is_a",
        AnyValue::symbol("mortal"),
        None,
    )
    .unwrap();
    assert_eq!(record.scope().name(), "fact");
    assert!(record.tail().is_none());
    assert_eq!(record.body().subject.as_str(), "socrates");
    assert_eq!(record.body().verb.as_str(), "is_a");
    assert_eq!(record.body().attribute, AnyValue::symbol("mortal"));
    assert_eq!(record.header().id(), record.body().id);
    assert_eq!(record.verify(), Verification::Verified);
    let loaded = TripletRecord::load(&record.serialize()).unwrap();
    assert_eq!(loaded, record);
}

#[test]
fn seal_procedure_round_trips_export() {
    let numbers = [1.0f64, 2.0, 3.0];
    let bits: Vec<u64> = numbers.iter().map(|x| x.to_bits()).collect();
    let record = TripletRecord::seal(
        ScopeCode::Procedure,
        "pump",
        "reads",
        AnyValue::symbol("sensorArray"),
        Some(ExportBuffer::from_bits(bits.clone())),
    )
    .unwrap();
    let tail = record.tail().expect("a procedure carries a tail");
    assert_eq!(tail.id, record.id());
    assert_eq!(tail.export.as_ref().unwrap().bits(), &bits[..]);
    let restored = TripletRecord::deserialize(&record.serialize()).unwrap();
    assert_eq!(restored, record);
    let back: Vec<f64> = restored
        .tail()
        .unwrap()
        .export
        .as_ref()
        .unwrap()
        .bits()
        .iter()
        .map(|w| f64::from_bits(*w))
        .collect();
    assert_eq!(back, vec![1.0, 2.0, 3.0]);
    assert_eq!(restored.verify(), Verification::Verified);
}

#[test]
fn seal_without_tail_succeeds_for_plain_scopes() {
    for scope in plain_scopes() {
        let record =
            TripletRecord::seal(scope, "water", "boils_at", AnyValue::scalar(100), None).unwrap();
        assert!(record.tail().is_none());
        assert_eq!(record.scope(), scope);
    }
}

#[test]
fn seal_without_tail_fails_for_procedure_and_program() {
    for scope in [ScopeCode::Procedure, ScopeCode::Program] {
        let r = TripletRecord::seal(scope, "pump", "reads", AnyValue::scalar(1), None);
        assert_eq!(r, Err(RecordError::TailPresenceViolation));
    }
}

#[test]
fn seal_with_tail_fails_for_plain_scopes() {
    for scope in plain_scopes() {
        let r = TripletRecord::seal(
            scope,
            "pump",
            "reads",
            AnyValue::scalar(1),
            Some(ExportBuffer::from_bits(vec![7])),
        );
        assert_eq!(r, Err(RecordError::TailPresenceViolation));
    }
}

#[test]
fn seal_unset_scope_is_unknown() {
    let r = TripletRecord::seal(ScopeCode::Unset, "a", "b", AnyValue::scalar(0), None);
    assert_eq!(r, Err(RecordError::UnknownScope));
    let with_tail = TripletRecord::seal(
        ScopeCode::Unset,
        "a",
        "b",
        AnyValue::scalar(0),
        Some(ExportBuffer::from_bits(vec![])),
    );
    assert_eq!(with_tail, Err(RecordError::UnknownScope));
}

#[test]
fn seal_empty_subject_or_verb_is_malformed() {
    let no_subject = TripletRecord::seal(ScopeCode::Fact, "", "is_a", AnyValue::scalar(0), None);
    assert_eq!(no_subject, Err(RecordError::MalformedRecord));
    let no_verb = TripletRecord::seal(ScopeCode::Fact, "socrates", "", AnyValue::scalar(0), None);
    assert_eq!(no_verb, Err(RecordError::MalformedRecord));
}

#[test]
fn seal_parts_checks_tail_payload_and_identity() {
    let id = fixed_id();
    let other = Identity::from_u128(99);
    let body = Body::new(id, "pump", "reads", AnyValue::scalar(1));
    let empty_tail = Tail::new(id, None);
    assert_eq!(
        TripletRecord::seal_parts(ScopeCode::Procedure, body.clone(), Some(empty_tail)),
        Err(RecordError::TailPresenceViolation)
    );
    let foreign_tail = Tail::new(other, Some(ExportBuffer::from_bits(vec![1])));
    assert_eq!(
        TripletRecord::seal_parts(ScopeCode::Program, body.clone(), Some(foreign_tail)),
        Err(RecordError::MalformedRecord)
    );
    let tail = Tail::new(id, Some(ExportBuffer::from_bits(vec![1])));
    let record = TripletRecord::seal_parts(ScopeCode::Program, body.clone(), Some(tail.clone()))
        .unwrap();
    assert_eq!(record.body(), &body);
    assert_eq!(record.tail(), Some(&tail));
    assert_eq!(record.id(), id);
}

#[test]
fn seal_accepts_any_attribute() {
    let mut value = AnyValue::scalar(0);
    for _ in 0..200 {
        value = AnyValue::structure(vec![value, AnyValue::symbol("")]);
    }
    let attributes = vec![
        AnyValue::symbol(""),
        AnyValue::verb(""),
        AnyValue::scalar(i64::MIN),
        AnyValue::structure(vec![]),
        value,
    ];
    for attribute in attributes {
        for scope in plain_scopes() {
            let record = TripletRecord::seal(scope, "a", "b", attribute.clone(), None).unwrap();
            assert!(record.tail().is_none());
            assert_eq!(record.body().attribute, attribute);
            assert_eq!(TripletRecord::load(&record.serialize()).unwrap(), record);
        }
    }
}

#[test]
fn sealed_hash_is_the_hash_of_body_and_tail() {
    let id = fixed_id();
    let body = Body::new(id, "socrates", "is_a", AnyValue::symbol("mortal"));
    let record = TripletRecord::seal_parts(ScopeCode::Fact, body.clone(), None).unwrap();
    let fresh = IntegrityHasher::compute_hash(&body, None);
    assert_eq!(record.header().integrity_hash(), &fresh);
    assert!(IntegrityHasher::verify(record.header(), &body, None));
    let other = Body::new(id, "socrates", "is_a", AnyValue::symbol("mortaL"));
    assert!(!IntegrityHasher::verify(record.header(), &other, None));
    let tail = Tail::new(id, Some(ExportBuffer::from_bits(vec![])));
    assert!(!IntegrityHasher::verify(record.header(), &body, Some(&tail)));
}

#[test]
fn same_statement_sealed_twice_differs_only_by_identity() {
    let a = TripletRecord::seal(ScopeCode::Rule, "x", "implies", AnyValue::symbol("y"), None)
        .unwrap();
    let b = TripletRecord::seal(ScopeCode::Rule, "x", "implies", AnyValue::symbol("y"), None)
        .unwrap();
    assert_ne!(a.id(), b.id());
    assert_ne!(a, b);
    assert_eq!(a.body().subject, b.body().subject);
    assert_eq!(a.body().attribute, b.body().attribute);
}

#[test]
fn clone_of_record_is_equal() {
    let record = TripletRecord::seal(
        ScopeCode::Program,
        "robot",
        "runs",
        AnyValue::structure(vec![AnyValue::verb("walk"), AnyValue::scalar(-3)]),
        Some(ExportBuffer::from_bits(vec![1, 2, 3])),
    )
    .unwrap();
    let copy = record.clone();
    assert_eq!(copy, record);
    assert_eq!(copy.serialize(), record.serialize());
}
