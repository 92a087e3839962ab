//! What holds of sealing, storing and loading, for every record.
use vstd::prelude::*;
use crate::digest::{sha256_digest, DIGEST_LEN};
use crate::error::RecordError;
use crate::parts::{body_fits, tail_fits, BodyView, TailView};
use crate::record::{
    content_bytes, content_hash, encode_record, is_intact, load_result, parse_record,
    parse_record_of_encoding, parse_record_sound, parts_result, seal_failure, sealed_view,
    statement_body, statement_tail, tail_rule_holds, well_formed, RecordView,
};
use crate::scope::{scope_number, scope_requires_tail, ScopeCode};
use crate::value::ValueView;

verus! {

/// Sealing a statement without a tail succeeds under every resolved scope
/// but procedure and program, whenever its subject and its verb are not
/// empty and whatever its attribute and its identity; the sealed record has
/// no tail.
pub proof fn seal_without_tail_succeeds(
    scope: ScopeCode,
    id: u128,
    subject: Seq<char>,
    verb: Seq<char>,
    attribute: ValueView,
)
    requires
        scope != ScopeCode::Unset,
        !scope_requires_tail(scope),
        subject.len() > 0,
        verb.len() > 0,
    ensures
        ({
            let body = statement_body(id, subject, verb, attribute);
            let tail = statement_tail(id, None);
            &&& seal_failure(scope, body, tail) is None
            &&& sealed_view(scope, body, tail).tail is None
            &&& tail_rule_holds(sealed_view(scope, body, tail))
            &&& is_intact(sealed_view(scope, body, tail))
        }),
{
}

/// Sealing a procedure or a program without a tail fails with
/// `TailPresenceViolation`, whatever the body.
pub proof fn seal_without_required_tail_fails(scope: ScopeCode, body: BodyView)
    requires
        scope_requires_tail(scope),
    ensures
        seal_failure(scope, body, None) == Some(RecordError::TailPresenceViolation),
{
}

/// Sealing with a tail under a scope that carries none fails with
/// `TailPresenceViolation`, whatever the body and the tail.
pub proof fn seal_with_forbidden_tail_fails(scope: ScopeCode, body: BodyView, tail: TailView)
    requires
        scope != ScopeCode::Unset,
        !scope_requires_tail(scope),
    ensures
        seal_failure(scope, body, Some(tail)) == Some(RecordError::TailPresenceViolation),
{
}

/// The stored form of a well-formed record reads back as that record,
/// field for field; if the record obeys the tail rule and is intact,
/// loading its stored form accepts it.
pub proof fn stored_form_round_trips(r: RecordView)
    requires
        well_formed(r),
    ensures
        parse_record(encode_record(r)) == Some(r),
        tail_rule_holds(r) && is_intact(r) ==> load_result(encode_record(r)) == Ok::<
            RecordView,
            RecordError,
        >(r),
{
    parse_record_of_encoding(r);
}

/// What sealing makes is accepted when it is read back: the stored form
/// of a sealed record loads as that record, field for field, and its hash
/// is found to match.
pub proof fn sealed_record_loads_verified(
    scope: ScopeCode,
    body: BodyView,
    tail: Option<TailView>,
)
    requires
        seal_failure(scope, body, tail) is None,
        body_fits(body),
        tail_fits(tail),
        content_hash(body, tail).len() == DIGEST_LEN,
    ensures
        ({
            let r = sealed_view(scope, body, tail);
            &&& well_formed(r)
            &&& parse_record(encode_record(r)) == Some(r)
            &&& is_intact(r)
            &&& load_result(encode_record(r)) == Ok::<RecordView, RecordError>(r)
        }),
{
    parse_record_of_encoding(sealed_view(scope, body, tail));
}

/// Loading stored bytes is reading them and then checking the parts read.
pub proof fn loading_checks_what_was_read(bytes: Seq<u8>)
    ensures
        load_result(bytes) == match parse_record(bytes) {
            Some(r) => parts_result(r.header, r.tail),
            None => Err(RecordError::MalformedRecord),
        },
{
    parse_record_sound(bytes);
}

/// Two well-formed records with the same stored form are the same record.
pub proof fn stored_form_is_injective(a: RecordView, b: RecordView)
    requires
        well_formed(a),
        well_formed(b),
        encode_record(a) == encode_record(b),
    ensures
        a == b,
{
    parse_record_of_encoding(a);
    parse_record_of_encoding(b);
}

/// Bytes are the stored form of at most one record, and that record is well
/// formed.
pub proof fn parsed_record_is_unique(bytes: Seq<u8>, r: RecordView)
    requires
        parse_record(bytes) == Some(r),
    ensures
        well_formed(r),
        encode_record(r) == bytes,
        forall|other: RecordView|
            well_formed(other) && #[trigger] encode_record(other) == bytes ==> other == r,
{
    parse_record_sound(bytes);
    assert forall|other: RecordView|
        well_formed(other) && #[trigger] encode_record(other) == bytes implies other == r by {
        parse_record_of_encoding(other);
    }
}

/// Loading accepts bytes only if their last 32 bytes are the SHA-256 digest
/// of what lies between the scope byte and them.
pub proof fn accepted_bytes_carry_their_digest(bytes: Seq<u8>)
    requires
        load_result(bytes) is Ok,
    ensures
        bytes.len() > DIGEST_LEN,
        bytes.skip(bytes.len() - DIGEST_LEN) == sha256_digest(
            bytes.subrange(1, bytes.len() - DIGEST_LEN),
        ),
{
    parse_record_sound(bytes);
    let r = parse_record(bytes)->0;
    let content = content_bytes(r.header.content_ref, r.tail);
    let digest = r.header.integrity_hash;
    assert(bytes == seq![scope_number(r.header.scope)] + content + digest);
    assert(bytes.skip(bytes.len() - DIGEST_LEN) =~= digest);
    assert(bytes.subrange(1, bytes.len() - DIGEST_LEN) =~= content);
}

/// Tamper sensitivity. Take the stored form of an intact record and change
/// bytes of its body and tail section only, leaving the scope byte and the
/// stored digest as they were. Loading the changed bytes fails, unless the
/// changed section has the same SHA-256 digest as the section it replaced.
pub proof fn tampering_is_rejected_unless_digests_collide(r: RecordView, tampered: Seq<u8>)
    requires
        well_formed(r),
        is_intact(r),
        tampered.len() == encode_record(r).len(),
        tampered[0] == encode_record(r)[0],
        tampered.skip(tampered.len() - DIGEST_LEN) == encode_record(r).skip(
            encode_record(r).len() - DIGEST_LEN,
        ),
        tampered != encode_record(r),
    ensures
        load_result(tampered) is Ok ==> {
            let sealed = content_bytes(r.header.content_ref, r.tail);
            let changed = tampered.subrange(1, tampered.len() - DIGEST_LEN);
            changed != sealed && sha256_digest(changed) == sha256_digest(sealed)
        },
{
    let stored = encode_record(r);
    let sealed = content_bytes(r.header.content_ref, r.tail);
    let digest = r.header.integrity_hash;
    assert(stored.skip(stored.len() - DIGEST_LEN) =~= digest);
    assert(stored.subrange(1, stored.len() - DIGEST_LEN) =~= sealed);
    if load_result(tampered) is Ok {
        accepted_bytes_carry_their_digest(tampered);
        let changed = tampered.subrange(1, tampered.len() - DIGEST_LEN);
        if changed == sealed {
            assert(tampered =~= seq![tampered[0]] + changed + tampered.skip(
                tampered.len() - DIGEST_LEN,
            ));
            assert(stored =~= seq![stored[0]] + sealed + digest);
        }
    }
}

/// A record whose stored digest is not the digest of its body and tail is
/// never accepted: loading its stored form reports the tail rule if that is
/// broken, and `IntegrityMismatch` otherwise.
pub proof fn mismatch_is_reported(r: RecordView)
    requires
        well_formed(r),
        !is_intact(r),
    ensures
        !tail_rule_holds(r) ==> load_result(encode_record(r)) == Err::<RecordView, RecordError>(
            RecordError::TailPresenceViolation,
        ),
        tail_rule_holds(r) ==> load_result(encode_record(r)) == Err::<RecordView, RecordError>(
            RecordError::IntegrityMismatch,
        ),
{
    parse_record_of_encoding(r);
}

} // verus!
