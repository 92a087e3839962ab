use triplet::{
    ActiveWord, AnyValue, Body, ExportBuffer, Identity, RecordError, ScopeCode, ScopeRegistry,
    Symbol, Tail, TripletRecord, Verification,
};

fn sealed_fact() -> TripletRecord {
    let body = Body::new(Identity::from_u128(77), "socrates", "is_a", AnyValue::symbol("mortal"));
    TripletRecord::seal_parts(ScopeCode::Fact, body, None).unwrap()
}

fn sealed_program() -> TripletRecord {
    let id = Identity::from_u128(78);
    let body = Body::new(id, "robot", "runs", AnyValue::verb("walk"));
    let tail = Tail::new(id, Some(ExportBuffer::from_bits(vec![10, 20])));
    TripletRecord::seal_parts(ScopeCode::Program, body, Some(tail)).unwrap()
}

#[test]
fn load_parts_accepts_what_was_sealed() {
    for record in [sealed_fact(), sealed_program()] {
        let header = record.header().clone();
        let tail = record.tail().cloned();
        let loaded = TripletRecord::load_parts(header, tail).unwrap();
        assert_eq!(loaded, record);
        assert_eq!(loaded.verify(), Verification::Verified);
    }
}

#[test]
fn load_parts_rejects_a_header_with_another_tail() {
    let program = sealed_program();
    let id = program.id();
    let other_payload = Tail::new(id, Some(ExportBuffer::from_bits(vec![10, 21])));
    assert_eq!(
        TripletRecord::load_parts(program.header().clone(), Some(other_payload)),
        Err(RecordError::IntegrityMismatch)
    );
    assert_eq!(
        TripletRecord::load_parts(program.header().clone(), None),
        Err(RecordError::TailPresenceViolation)
    );
    let foreign = Tail::new(Identity::from_u128(1), Some(ExportBuffer::from_bits(vec![10, 20])));
    assert_eq!(
        TripletRecord::load_parts(program.header().clone(), Some(foreign)),
        Err(RecordError::MalformedRecord)
    );
    let empty = Tail::new(id, None);
    assert_eq!(
        TripletRecord::load_parts(program.header().clone(), Some(empty)),
        Err(RecordError::MalformedRecord)
    );
    let fact = sealed_fact();
    let stray = Tail::new(fact.id(), Some(ExportBuffer::from_bits(vec![])));
    assert_eq!(
        TripletRecord::load_parts(fact.header().clone(), Some(stray)),
        Err(RecordError::TailPresenceViolation)
    );
}

#[test]
fn revise_seals_a_sibling_under_a_fresh_identity() {
    let record = sealed_program();
    let before = record.serialize();
    let sibling = record.revise(AnyValue::verb("rest")).unwrap();
    assert_ne!(sibling.id(), record.id());
    assert_eq!(sibling.id().version(), 4);
    assert_eq!(sibling.scope(), record.scope());
    assert_eq!(sibling.body().subject, record.body().subject);
    assert_eq!(sibling.body().verb, record.body().verb);
    assert_eq!(sibling.body().attribute, AnyValue::verb("rest"));
    assert_eq!(sibling.body().id, sibling.id());
    let tail = sibling.tail().unwrap();
    assert_eq!(tail.id, sibling.id());
    assert_eq!(tail.export.as_ref().unwrap().bits(), &[10u64, 20][..]);
    assert_eq!(sibling.verify(), Verification::Verified);
    assert_eq!(record.serialize(), before);
    assert_eq!(TripletRecord::load(&sibling.serialize()).unwrap(), sibling);
}

#[test]
fn revise_accepts_any_attribute() {
    let mut value = AnyValue::scalar(1);
    for _ in 0..33 {
        value = AnyValue::structure(vec![value]);
    }
    let sibling = sealed_fact().revise(value.clone()).unwrap();
    assert_eq!(sibling.body().attribute, value);
    assert_eq!(TripletRecord::load(&sibling.serialize()).unwrap(), sibling);
}

#[test]
fn header_gives_its_fields() {
    let record = sealed_fact();
    let header = record.header();
    assert_eq!(header.id(), Identity::from_u128(77));
    assert_eq!(header.scope(), ScopeCode::Fact);
    assert_eq!(header.content_ref(), record.body());
    assert_eq!(header.integrity_hash().as_bytes().len(), 32);
    assert_eq!(record.scope().name(), "fact");
    assert_eq!(record.id(), header.id());
}

#[test]
fn tokens_and_values_compare_by_content() {
    assert_eq!(Symbol::new("a"), Symbol::new("a"));
    assert_ne!(Symbol::new("a"), Symbol::new("b"));
    assert!(Symbol::new("").is_empty());
    assert!(!ActiveWord::new("is_a").is_empty());
    assert_eq!(ActiveWord::new("is_a").as_str(), "is_a");
    assert_eq!(AnyValue::symbol("x"), AnyValue::symbol("x"));
    assert_ne!(AnyValue::symbol("x"), AnyValue::verb("x"));
    assert_ne!(AnyValue::scalar(1), AnyValue::scalar(2));
    let nested = AnyValue::structure(vec![
        AnyValue::scalar(1),
        AnyValue::structure(vec![AnyValue::symbol("deep")]),
    ]);
    assert_eq!(nested.clone(), nested);
    assert_ne!(
        nested,
        AnyValue::structure(vec![
            AnyValue::scalar(1),
            AnyValue::structure(vec![AnyValue::symbol("deeP")]),
        ])
    );
    assert_ne!(nested, AnyValue::structure(vec![AnyValue::scalar(1)]));
}

#[test]
fn body_is_complete_with_subject_and_verb() {
    let id = Identity::from_u128(3);
    assert!(Body::new(id, "s", "v", AnyValue::scalar(0)).is_complete());
    assert!(!Body::new(id, "", "v", AnyValue::scalar(0)).is_complete());
    assert!(!Body::new(id, "s", "", AnyValue::scalar(0)).is_complete());
    let buffer = ExportBuffer::from_bits(vec![1, 2, 3]);
    assert_eq!(buffer.len(), 3);
    assert_eq!(buffer.clone(), buffer);
}

#[test]
fn registry_holds_every_code() {
    let registry = ScopeRegistry::new();
    for n in 0..9u8 {
        assert!(registry.lookup(n).is_ok());
    }
    assert_eq!(registry.lookup(9), Err(RecordError::UnknownScope));
    assert_eq!(ScopeRegistry::default().parse("None"), Ok(ScopeCode::Unset));
    assert_eq!(registry.parse("none"), Err(RecordError::UnknownScope));
    assert_eq!(registry.parse("procedure"), Ok(ScopeCode::Procedure));
    assert_eq!(registry.resolve(ScopeCode::Program), "program");
}
