//! The sealed triplet: header, body and optional tail assembled under one
//! identity and one integrity hash.
//!
//! A record is sealed once, from a body and an optional tail. Its stored
//! form is the scope's number, the canonical bytes of body and tail, and the
//! digest of those bytes. Loading checks the stored form in three steps:
//! structure, the tail rule of the scope, and the digest.
use vstd::prelude::*;
use vstd::slice::slice_subrange;
use crate::digest::{sha256_digest, Digest, DIGEST_LEN};
use crate::error::RecordError;
use crate::identity::{is_random_identity, Identity};
use crate::parts::{
    body_complete, body_fits, encode_body, encode_tail, export_view, parse_body,
    parse_body_of_encoding, parse_body_sound, parse_tail, parse_tail_of_encoding,
    parse_tail_sound, put_body, put_tail, tail_fits, tail_view, take_body, take_tail, Body,
    BodyView, ExportBuffer, Tail, TailView,
};
use crate::scope::{
    scope_number, scope_number_round_trip, scope_requires_tail, scope_with_number, ScopeCode,
};
use crate::value::{AnyValue, ValueView};

verus! {

/// The mathematical content of a [`Header`].
pub struct HeaderView {
    pub id: u128,
    pub scope: ScopeCode,
    pub content_ref: BodyView,
    pub integrity_hash: Seq<u8>,
}

/// The mathematical content of a [`TripletRecord`].
pub struct RecordView {
    pub header: HeaderView,
    pub tail: Option<TailView>,
}

/// The view of an optional borrowed tail.
pub open spec fn tail_ref_view(tail: Option<&Tail>) -> Option<TailView> {
    match tail {
        Some(t) => Some(t@),
        None => None,
    }
}

/// The bytes that the integrity hash covers: the canonical encoding of the
/// body, then that of the optional tail.
pub open spec fn content_bytes(body: BodyView, tail: Option<TailView>) -> Seq<u8> {
    encode_body(body) + encode_tail(tail)
}

/// The integrity hash of a body and an optional tail.
pub open spec fn content_hash(body: BodyView, tail: Option<TailView>) -> Seq<u8> {
    sha256_digest(content_bytes(body, tail))
}

/// Whether a present tail belongs to the body and carries a payload.
pub open spec fn tail_belongs(body: BodyView, tail: Option<TailView>) -> bool {
    match tail {
        Some(t) => t.id == body.id && t.export is Some,
        None => true,
    }
}

/// Whether the parts of a record fit together: the scope is resolved, the
/// header and the body carry one identity, the body is complete, and a tail
/// belongs to the body and carries a payload.
pub open spec fn parts_fit(header: HeaderView, tail: Option<TailView>) -> bool {
    &&& header.scope != ScopeCode::Unset
    &&& header.id == header.content_ref.id
    &&& body_complete(header.content_ref)
    &&& tail_belongs(header.content_ref, tail)
}

/// Whether a record is structurally complete: its parts fit together, its
/// digest has the right length, and its lengths fit in 64 bits.
pub open spec fn well_formed(r: RecordView) -> bool {
    &&& parts_fit(r.header, r.tail)
    &&& body_fits(r.header.content_ref)
    &&& tail_fits(r.tail)
    &&& r.header.integrity_hash.len() == DIGEST_LEN
}

/// The tail rule: a tail is present exactly for procedures and programs.
pub open spec fn tail_rule_holds(r: RecordView) -> bool {
    r.tail is Some <==> scope_requires_tail(r.header.scope)
}

/// Whether the stored hash is the hash of the stored body and tail.
pub open spec fn is_intact(r: RecordView) -> bool {
    r.header.integrity_hash == content_hash(r.header.content_ref, r.tail)
}

/// The stored form of a record: the scope's number, the canonical bytes of
/// body and tail, and the digest.
pub open spec fn encode_record(r: RecordView) -> Seq<u8> {
    seq![scope_number(r.header.scope)] + content_bytes(r.header.content_ref, r.tail)
        + r.header.integrity_hash
}

/// Reads a structurally complete record from `bytes`, all of them.
pub open spec fn parse_record(bytes: Seq<u8>) -> Option<RecordView> {
    if bytes.len() == 0 {
        None
    } else {
        match scope_with_number(bytes[0]) {
            Some(scope) => match parse_body(bytes.skip(1)) {
                Some((body, r1)) => match parse_tail(r1) {
                    Some((tail, digest)) => if scope != ScopeCode::Unset && tail_belongs(body, tail)
                        && digest.len() == DIGEST_LEN {
                        Some(
                            RecordView {
                                header: HeaderView {
                                    id: body.id,
                                    scope,
                                    content_ref: body,
                                    integrity_hash: digest,
                                },
                                tail,
                            },
                        )
                    } else {
                        None
                    },
                    None => None,
                },
                None => None,
            },
            None => None,
        }
    }
}

/// Why sealing fails, if it does. The checks come in this order: the scope
/// is resolved; the tail is present with a payload exactly where the scope
/// requires one; the body is complete and a tail carries the body's
/// identity.
pub open spec fn seal_failure(scope: ScopeCode, body: BodyView, tail: Option<TailView>) -> Option<
    RecordError,
> {
    if scope == ScopeCode::Unset {
        Some(RecordError::UnknownScope)
    } else if !tail_permitted(scope, tail) {
        Some(RecordError::TailPresenceViolation)
    } else if !body_complete(body) || !tail_belongs(body, tail) {
        Some(RecordError::MalformedRecord)
    } else {
        None
    }
}

/// Whether the tail is present with a payload exactly where the scope
/// requires one.
pub open spec fn tail_permitted(scope: ScopeCode, tail: Option<TailView>) -> bool {
    match tail {
        Some(t) => scope_requires_tail(scope) && t.export is Some,
        None => !scope_requires_tail(scope),
    }
}

/// The record that sealing makes of a body and an optional tail.
pub open spec fn sealed_view(
    scope: ScopeCode,
    body: BodyView,
    tail: Option<TailView>,
) -> RecordView {
    RecordView {
        header: HeaderView {
            id: body.id,
            scope,
            content_ref: body,
            integrity_hash: content_hash(body, tail),
        },
        tail,
    }
}

/// The body of the statement `subject verb attribute` under `id`.
pub open spec fn statement_body(
    id: u128,
    subject: Seq<char>,
    verb: Seq<char>,
    attribute: ValueView,
) -> BodyView {
    BodyView { id, subject, verb, attribute }
}

/// The tail that carries `export` under `id`: absent if there is nothing
/// to export.
pub open spec fn statement_tail(id: u128, export: Option<Seq<u64>>) -> Option<TailView> {
    match export {
        Some(words) => Some(TailView { id, export: Some(words) }),
        None => None,
    }
}

/// The payload that a tail carries, if there is a tail and it has one.
pub open spec fn carried_export(tail: Option<TailView>) -> Option<Seq<u64>> {
    match tail {
        Some(t) => t.export,
        None => None,
    }
}

/// What loading makes of stored bytes. The checks come in this order:
/// structure, the tail rule, the digest.
pub open spec fn load_result(bytes: Seq<u8>) -> Result<RecordView, RecordError> {
    match parse_record(bytes) {
        Some(r) => if !tail_rule_holds(r) {
            Err(RecordError::TailPresenceViolation)
        } else if !is_intact(r) {
            Err(RecordError::IntegrityMismatch)
        } else {
            Ok(r)
        },
        None => Err(RecordError::MalformedRecord),
    }
}

/// What loading makes of a header and an optional tail that were fetched
/// separately. The checks come in this order: the parts fit together, the
/// tail rule, the digest.
pub open spec fn parts_result(header: HeaderView, tail: Option<TailView>) -> Result<
    RecordView,
    RecordError,
> {
    let r = RecordView { header, tail };
    if !parts_fit(header, tail) {
        Err(RecordError::MalformedRecord)
    } else if !tail_rule_holds(r) {
        Err(RecordError::TailPresenceViolation)
    } else if !is_intact(r) {
        Err(RecordError::IntegrityMismatch)
    } else {
        Ok(r)
    }
}

/// A scope byte, a body, a tail and a digest, joined from the right, are
/// the scope byte, then body and tail, then the digest.
proof fn join_record(scope: Seq<u8>, body: Seq<u8>, tail: Seq<u8>, digest: Seq<u8>)
    ensures
        scope + (body + (tail + digest)) == scope + (body + tail) + digest,
{
    assert(scope + (body + (tail + digest)) =~= scope + (body + tail) + digest);
}

/// Parsing reads back the record that was encoded.
pub proof fn parse_record_of_encoding(r: RecordView)
    requires
        well_formed(r),
    ensures
        parse_record(encode_record(r)) == Some(r),
{
    let body = r.header.content_ref;
    let digest = r.header.integrity_hash;
    let bytes = encode_record(r);
    scope_number_round_trip(r.header.scope, 0);
    assert(bytes[0] == scope_number(r.header.scope));
    join_record(
        seq![scope_number(r.header.scope)],
        encode_body(body),
        encode_tail(r.tail),
        digest,
    );
    assert(bytes.skip(1) =~= encode_body(body) + (encode_tail(r.tail) + digest));
    parse_body_of_encoding(body, encode_tail(r.tail) + digest);
    parse_tail_of_encoding(r.tail, digest);
}

/// What was parsed as a record is well formed, and the bytes are its
/// encoding.
pub proof fn parse_record_sound(bytes: Seq<u8>)
    ensures
        match parse_record(bytes) {
            Some(r) => well_formed(r) && encode_record(r) == bytes,
            None => true,
        },
{
    if bytes.len() > 0 {
        scope_number_round_trip(ScopeCode::Unset, bytes[0]);
        let after = bytes.skip(1);
        assert(bytes =~= seq![bytes[0]] + after);
        parse_body_sound(after);
        match parse_body(after) {
            Some((body, r1)) => {
                parse_tail_sound(r1);
                match parse_tail(r1) {
                    Some((tail, digest)) => {
                        join_record(
                            seq![bytes[0]],
                            encode_body(body),
                            encode_tail(tail),
                            digest,
                        );
                    },
                    None => {},
                }
            },
            None => {},
        }
    }
}

/// The metadata envelope of a triplet: its identity, its scope, the body it
/// refers to, and the integrity hash. The hash is computed when the record
/// is sealed or read from stored bytes; no caller supplies it.
#[derive(Debug, PartialEq, Eq)]
pub struct Header {
    id: Identity,
    scope: ScopeCode,
    content_ref: Body,
    integrity_hash: Digest,
}

impl View for Header {
    type V = HeaderView;

    closed spec fn view(&self) -> HeaderView {
        HeaderView {
            id: self.id.bits,
            scope: self.scope,
            content_ref: self.content_ref@,
            integrity_hash: self.integrity_hash@,
        }
    }
}

impl Clone for Header {
    fn clone(&self) -> (copy: Self)
        ensures
            copy@ == self@,
    {
        Header {
            id: self.id,
            scope: self.scope,
            content_ref: self.content_ref.clone(),
            integrity_hash: self.integrity_hash,
        }
    }
}

impl Header {
    /// The identity of the triplet.
    pub fn id(&self) -> (id: Identity)
        ensures
            id.bits == self@.id,
    {
        self.id
    }

    /// The scope of the triplet.
    pub fn scope(&self) -> (scope: ScopeCode)
        ensures
            scope == self@.scope,
    {
        self.scope
    }

    /// The body that the header refers to.
    pub fn content_ref(&self) -> (body: &Body)
        ensures
            body@ == self@.content_ref,
    {
        &self.content_ref
    }

    /// The stored integrity hash.
    pub fn integrity_hash(&self) -> (digest: &Digest)
        ensures
            digest@ == self@.integrity_hash,
    {
        &self.integrity_hash
    }
}

/// What verifying a sealed record finds.
#[derive(Clone, Copy, Debug, PartialEq, Eq, Structural, Hash)]
pub enum Verification {
    /// The recomputed hash matches the stored one.
    Verified,
    /// The recomputed hash does not match the stored one.
    Rejected,
}

/// Computes and checks the integrity hash of a body and an optional tail.
pub struct IntegrityHasher {}

impl IntegrityHasher {
    /// The canonical bytes of a body and an optional tail.
    pub fn canonical_bytes(body: &Body, tail: Option<&Tail>) -> (bytes: Vec<u8>)
        ensures
            bytes@ == content_bytes(body@, tail_ref_view(tail)),
            body_fits(body@),
            tail_fits(tail_ref_view(tail)),
    {
        let mut bytes: Vec<u8> = Vec::new();
        put_body(&mut bytes, body);
        put_tail(&mut bytes, tail);
        assert(bytes@ =~= content_bytes(body@, tail_ref_view(tail)));
        bytes
    }

    /// The digest of the canonical bytes of a body and an optional tail.
    pub fn compute_hash(body: &Body, tail: Option<&Tail>) -> (digest: Digest)
        ensures
            digest@ == content_hash(body@, tail_ref_view(tail)),
            body_fits(body@),
            tail_fits(tail_ref_view(tail)),
    {
        let bytes = Self::canonical_bytes(body, tail);
        Digest::of(bytes.as_slice())
    }

    /// Whether the hash stored in `header` is the hash of `body` and `tail`.
    pub fn verify(header: &Header, body: &Body, tail: Option<&Tail>) -> (ok: bool)
        ensures
            ok == (header@.integrity_hash == content_hash(body@, tail_ref_view(tail))),
            body_fits(body@),
            tail_fits(tail_ref_view(tail)),
            header@.integrity_hash.len() == DIGEST_LEN,
    {
        let fresh = Self::compute_hash(body, tail);
        fresh.matches(&header.integrity_hash)
    }
}

/// A sealed triplet. It is made by sealing or by reading stored bytes, and
/// it cannot be changed afterwards.
#[derive(Debug, PartialEq, Eq)]
pub struct TripletRecord {
    header: Header,
    tail: Option<Tail>,
}

impl View for TripletRecord {
    type V = RecordView;

    closed spec fn view(&self) -> RecordView {
        RecordView { header: self.header@, tail: tail_view(self.tail) }
    }
}

impl Clone for TripletRecord {
    fn clone(&self) -> (copy: Self)
        ensures
            copy@ == self@,
    {
        proof {
            use_type_invariant(self);
        }
        let tail = match &self.tail {
            Some(t) => Some(t.clone()),
            None => None,
        };
        TripletRecord { header: self.header.clone(), tail }
    }
}

impl TripletRecord {
    /// Every record is structurally complete.
    #[verifier::type_invariant]
    spec fn is_well_formed(&self) -> bool {
        well_formed(self@)
    }

    /// Seals a body and an optional tail under `scope`. Fails exactly as
    /// [`seal_failure`] says; otherwise the record holds the body, the
    /// tail, and the hash of both.
    pub fn seal_parts(scope: ScopeCode, body: Body, tail: Option<Tail>) -> (r: Result<
        TripletRecord,
        RecordError,
    >)
        ensures
            match r {
                Ok(record) => seal_failure(scope, body@, tail_view(tail)) is None && record@
                    == sealed_view(scope, body@, tail_view(tail)) && well_formed(record@)
                    && tail_rule_holds(record@) && is_intact(record@),
                Err(e) => seal_failure(scope, body@, tail_view(tail)) == Some(e),
            },
    {
        match scope {
            ScopeCode::Unset => {
                return Err(RecordError::UnknownScope);
            },
            _ => {},
        }
        let needs_tail = scope.requires_tail();
        match &tail {
            Some(t) => {
                if !needs_tail || t.export.is_none() {
                    return Err(RecordError::TailPresenceViolation);
                }
            },
            None => {
                if needs_tail {
                    return Err(RecordError::TailPresenceViolation);
                }
            },
        }
        if !body.is_complete() {
            return Err(RecordError::MalformedRecord);
        }
        match &tail {
            Some(t) => {
                if t.id.bits != body.id.bits {
                    return Err(RecordError::MalformedRecord);
                }
            },
            None => {},
        }
        let integrity_hash = IntegrityHasher::compute_hash(&body, tail.as_ref());
        let header = Header { id: body.id, scope, content_ref: body, integrity_hash };
        Ok(TripletRecord { header, tail })
    }

    /// Seals the statement `subject verb attribute` under `scope` and a
    /// fresh identity, with `export` as the tail's payload if there is one.
    /// Whether it fails, and how, does not depend on the identity.
    pub fn seal(
        scope: ScopeCode,
        subject: &str,
        verb: &str,
        attribute: AnyValue,
        export: Option<ExportBuffer>,
    ) -> (r: Result<TripletRecord, RecordError>)
        ensures
            match r {
                Ok(record) => {
                    let id = record@.header.id;
                    let body = statement_body(id, subject@, verb@, attribute@);
                    let tail = statement_tail(id, export_view(export));
                    &&& is_random_identity(id)
                    &&& seal_failure(scope, body, tail) is None
                    &&& record@ == sealed_view(scope, body, tail)
                    &&& well_formed(record@)
                    &&& tail_rule_holds(record@)
                    &&& is_intact(record@)
                },
                Err(e) => forall|id: u128|
                    #[trigger] seal_failure(
                        scope,
                        statement_body(id, subject@, verb@, attribute@),
                        statement_tail(id, export_view(export)),
                    ) == Some(e),
            },
    {
        let id = Identity::generate();
        let body = Body::new(id, subject, verb, attribute);
        let tail = match export {
            Some(buffer) => Some(Tail::new(id, Some(buffer))),
            None => None,
        };
        Self::seal_parts(scope, body, tail)
    }

    /// Seals a changed statement: the subject, the verb, the scope and the
    /// payload of this record with another attribute, under a fresh
    /// identity. This record stays as it is.
    pub fn revise(&self, attribute: AnyValue) -> (r: Result<TripletRecord, RecordError>)
        ensures
            match r {
                Ok(record) => {
                    let id = record@.header.id;
                    let body = statement_body(
                        id,
                        self@.header.content_ref.subject,
                        self@.header.content_ref.verb,
                        attribute@,
                    );
                    let tail = statement_tail(id, carried_export(self@.tail));
                    &&& is_random_identity(id)
                    &&& seal_failure(self@.header.scope, body, tail) is None
                    &&& record@ == sealed_view(self@.header.scope, body, tail)
                    &&& well_formed(record@)
                    &&& tail_rule_holds(record@)
                    &&& is_intact(record@)
                },
                Err(e) => forall|id: u128|
                    #[trigger] seal_failure(
                        self@.header.scope,
                        statement_body(
                            id,
                            self@.header.content_ref.subject,
                            self@.header.content_ref.verb,
                            attribute@,
                        ),
                        statement_tail(id, carried_export(self@.tail)),
                    ) == Some(e),
            },
    {
        proof {
            use_type_invariant(self);
        }
        let export = match &self.tail {
            Some(t) => match &t.export {
                Some(buffer) => Some(buffer.clone()),
                None => None,
            },
            None => None,
        };
        Self::seal(
            self.header.scope,
            self.header.content_ref.subject.as_str(),
            self.header.content_ref.verb.as_str(),
            attribute,
            export,
        )
    }

    /// The header of the record. Every record is well formed.
    pub fn header(&self) -> (header: &Header)
        ensures
            header@ == self@.header,
            well_formed(self@),
    {
        proof {
            use_type_invariant(self);
        }
        &self.header
    }

    /// The body of the record. It carries the record's identity.
    pub fn body(&self) -> (body: &Body)
        ensures
            body@ == self@.header.content_ref,
            body@.id == self@.header.id,
            body_complete(body@),
    {
        proof {
            use_type_invariant(self);
        }
        &self.header.content_ref
    }

    /// The tail of the record, if it has one. It carries the record's
    /// identity and a payload.
    pub fn tail(&self) -> (tail: Option<&Tail>)
        ensures
            tail_ref_view(tail) == self@.tail,
            match tail {
                Some(t) => t@.id == self@.header.id && t@.export is Some,
                None => true,
            },
    {
        proof {
            use_type_invariant(self);
        }
        self.tail.as_ref()
    }

    /// The identity that the parts of the record share.
    pub fn id(&self) -> (id: Identity)
        ensures
            id.bits == self@.header.id,
    {
        self.header.id
    }

    /// The scope of the record.
    pub fn scope(&self) -> (scope: ScopeCode)
        ensures
            scope == self@.header.scope,
    {
        self.header.scope
    }

    /// Recomputes the hash of body and tail and compares it with the stored
    /// one.
    pub fn verify(&self) -> (found: Verification)
        ensures
            found == Verification::Verified <==> is_intact(self@),
            found == Verification::Rejected <==> !is_intact(self@),
    {
        if IntegrityHasher::verify(&self.header, &self.header.content_ref, self.tail.as_ref()) {
            Verification::Verified
        } else {
            Verification::Rejected
        }
    }

    /// The stored form of the record.
    pub fn serialize(&self) -> (bytes: Vec<u8>)
        ensures
            bytes@ == encode_record(self@),
    {
        let mut bytes: Vec<u8> = Vec::new();
        bytes.push(self.header.scope.code());
        put_body(&mut bytes, &self.header.content_ref);
        put_tail(&mut bytes, self.tail.as_ref());
        let mut i: usize = 0;
        let ghost front = bytes@;
        assert(front =~= seq![scope_number(self@.header.scope)] + content_bytes(
            self@.header.content_ref,
            self@.tail,
        ));
        let digest = self.header.integrity_hash.as_bytes();
        while i < DIGEST_LEN
            invariant
                0 <= i <= DIGEST_LEN,
                digest@ == self@.header.integrity_hash,
                digest@.len() == DIGEST_LEN,
                bytes@ == front + digest@.take(i as int),
            decreases DIGEST_LEN - i,
        {
            bytes.push(digest[i]);
            assert(digest@.take(i + 1) =~= digest@.take(i as int).push(digest@[i as int]));
            i += 1;
        }
        assert(digest@.take(i as int) =~= digest@);
        bytes
    }

    /// Reads a record from its stored form, without checking the tail rule
    /// or the hash. Fails with `MalformedRecord` exactly when the bytes are
    /// not the stored form of any structurally complete record.
    pub fn deserialize(bytes: &[u8]) -> (r: Result<TripletRecord, RecordError>)
        ensures
            match r {
                Ok(record) => parse_record(bytes@) == Some(record@) && well_formed(record@)
                    && encode_record(record@) == bytes@,
                Err(e) => e == RecordError::MalformedRecord && parse_record(bytes@) is None
                    && forall|v: RecordView| well_formed(v) ==> #[trigger] encode_record(v)
                    != bytes@,
            },
    {
        proof {
            parse_record_sound(bytes@);
            assert forall|v: RecordView| well_formed(v) && #[trigger] encode_record(v)
                == bytes@ implies parse_record(bytes@) == Some(v) by {
                parse_record_of_encoding(v);
            }
        }
        if bytes.len() == 0 {
            return Err(RecordError::MalformedRecord);
        }
        let scope = match ScopeCode::from_code(bytes[0]) {
            Ok(scope) => scope,
            Err(_) => {
                return Err(RecordError::MalformedRecord);
            },
        };
        assert(bytes@.skip(1) =~= bytes@.skip(1int));
        let (body, p1) = match take_body(bytes, 1) {
            Some(found) => found,
            None => {
                return Err(RecordError::MalformedRecord);
            },
        };
        let (tail, p2) = match take_tail(bytes, p1) {
            Some(found) => found,
            None => {
                return Err(RecordError::MalformedRecord);
            },
        };
        let integrity_hash = match Digest::from_slice(slice_subrange(bytes, p2, bytes.len())) {
            Some(digest) => digest,
            None => {
                return Err(RecordError::MalformedRecord);
            },
        };
        assert(bytes@.skip(p2 as int) =~= bytes@.subrange(p2 as int, bytes@.len() as int));
        match scope {
            ScopeCode::Unset => {
                return Err(RecordError::MalformedRecord);
            },
            _ => {},
        }
        match &tail {
            Some(t) => {
                if t.id.bits != body.id.bits || t.export.is_none() {
                    return Err(RecordError::MalformedRecord);
                }
            },
            None => {},
        }
        let header = Header { id: body.id, scope, content_ref: body, integrity_hash };
        Ok(TripletRecord { header, tail })
    }

    /// Checks a header and an optional tail that were fetched separately,
    /// and assembles them: the parts fit together, then the tail rule, then
    /// the hash. Only a record that passes all three comes back.
    pub fn load_parts(header: Header, tail: Option<Tail>) -> (r: Result<TripletRecord, RecordError>)
        ensures
            match r {
                Ok(record) => parts_result(header@, tail_view(tail)) == Ok::<
                    RecordView,
                    RecordError,
                >(record@) && well_formed(record@),
                Err(e) => parts_result(header@, tail_view(tail)) == Err::<RecordView, RecordError>(
                    e,
                ),
            },
    {
        match header.scope {
            ScopeCode::Unset => {
                return Err(RecordError::MalformedRecord);
            },
            _ => {},
        }
        if header.id.bits != header.content_ref.id.bits || !header.content_ref.is_complete() {
            return Err(RecordError::MalformedRecord);
        }
        match &tail {
            Some(t) => {
                if t.id.bits != header.content_ref.id.bits || t.export.is_none() {
                    return Err(RecordError::MalformedRecord);
                }
            },
            None => {},
        }
        if tail.is_some() != header.scope.requires_tail() {
            return Err(RecordError::TailPresenceViolation);
        }
        if !IntegrityHasher::verify(&header, &header.content_ref, tail.as_ref()) {
            return Err(RecordError::IntegrityMismatch);
        }
        Ok(TripletRecord { header, tail })
    }

    /// Reads a record from its stored form and checks it: structure, then
    /// the tail rule, then the hash. Only a record that passes all three
    /// comes back.
    pub fn load(bytes: &[u8]) -> (r: Result<TripletRecord, RecordError>)
        ensures
            match r {
                Ok(record) => load_result(bytes@) == Ok::<RecordView, RecordError>(record@)
                    && well_formed(record@) && tail_rule_holds(record@) && is_intact(record@)
                    && encode_record(record@) == bytes@,
                Err(e) => load_result(bytes@) == Err::<RecordView, RecordError>(e),
            },
    {
        let record = match Self::deserialize(bytes) {
            Ok(record) => record,
            Err(e) => {
                return Err(e);
            },
        };
        if record.tail.is_some() != record.header.scope.requires_tail() {
            return Err(RecordError::TailPresenceViolation);
        }
        match record.verify() {
            Verification::Verified => Ok(record),
            Verification::Rejected => Err(RecordError::IntegrityMismatch),
        }
    }
}

} // verus!
