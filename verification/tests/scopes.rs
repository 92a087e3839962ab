use std::collections::HashSet;
use triplet::{Identity, RecordError, ScopeCode, ScopeRegistry};

fn all_codes() -> Vec<ScopeCode> {
    vec![
        ScopeCode::Unset,
        ScopeCode::Fact,
        ScopeCode::Rule,
        ScopeCode::Definition,
        ScopeCode::Procedure,
        ScopeCode::Program,
        ScopeCode::Macro,
        ScopeCode::Template,
        ScopeCode::Expression,
    ]
}

#[test]
fn parse_unknown_kind_is_an_error() {
    let registry = ScopeRegistry::new();
    assert_eq!(registry.parse("unknown_kind"), Err(RecordError::UnknownScope));
    assert_eq!(registry.parse(""), Err(RecordError::UnknownScope));
    assert_eq!(registry.parse("Fact"), Err(RecordError::UnknownScope));
    assert_eq!(registry.parse("fact "), Err(RecordError::UnknownScope));
}

#[test]
fn resolve_and_parse_are_inverse() {
    let registry = ScopeRegistry::new();
    for code in all_codes() {
        let name = registry.resolve(code);
        assert_eq!(name, code.name());
        assert_eq!(registry.parse(name), Ok(code));
    }
}

#[test]
fn scope_names_are_the_documented_ones() {
    let names: Vec<&str> = all_codes().iter().map(|c| c.name()).collect();
    assert_eq!(
        names,
        vec![
            "None",
            "fact",
            "rule",
            "definition",
            "procedure",
            "program",
            "macro",
            "template",
            "expression"
        ]
    );
}

#[test]
fn scope_numbers_follow_the_order() {
    let registry = ScopeRegistry::new();
    for (i, code) in all_codes().into_iter().enumerate() {
        assert_eq!(code.code() as usize, i);
        assert_eq!(ScopeCode::from_code(i as u8), Ok(code));
        assert_eq!(registry.lookup(i as u8), Ok(code));
    }
    for n in 9..=255u8 {
        assert_eq!(ScopeCode::from_code(n), Err(RecordError::UnknownScope));
        assert_eq!(registry.lookup(n), Err(RecordError::UnknownScope));
    }
    assert!(ScopeCode::Fact < ScopeCode::Rule);
    assert!(ScopeCode::Template < ScopeCode::Expression);
}

#[test]
fn only_procedure_and_program_require_a_tail() {
    for code in all_codes() {
        let expected = code == ScopeCode::Procedure || code == ScopeCode::Program;
        assert_eq!(code.requires_tail(), expected);
    }
}

#[test]
fn error_messages_are_distinct() {
    let messages: HashSet<&str> = [
        RecordError::UnknownScope,
        RecordError::TailPresenceViolation,
        RecordError::MalformedRecord,
        RecordError::IntegrityMismatch,
    ]
    .iter()
    .map(|e| e.message())
    .collect();
    assert_eq!(messages.len(), 4);
    assert_eq!(RecordError::IntegrityMismatch.message(), "integrity hash mismatch");
}

#[test]
fn generated_identities_are_distinct() {
    let mut seen: HashSet<u128> = HashSet::new();
    for _ in 0..10_000 {
        let id = Identity::generate();
        assert!(seen.insert(id.as_u128()));
    }
    assert_eq!(seen.len(), 10_000);
}

#[test]
fn generated_identities_are_version_four() {
    for _ in 0..100 {
        let id = Identity::generate();
        assert_eq!(id.version(), 4);
        assert_eq!((id.as_u128() >> 62) & 0x3, 2);
        let same = uuid::Uuid::from_u128(id.as_u128());
        assert_eq!(same.get_version_num(), 4);
    }
}

#[test]
fn identity_keeps_its_bits() {
    let id = Identity::from_u128(0xa1a2a3a4b1b2c1c2d1d2d3d4d5d6d7d8);
    assert_eq!(id.as_u128(), 0xa1a2a3a4b1b2c1c2d1d2d3d4d5d6d7d8);
    assert_eq!(id.version(), 0xc);
    assert_eq!(id, Identity::from_u128(id.as_u128()));
}
