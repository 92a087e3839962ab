//! The body and the tail of a triplet, and their canonical encodings.
//!
//! The body holds the statement itself. The tail holds the exportable
//! payload of a procedure or a program: a dense array of 64-bit words, each
//! the IEEE 754 bit pattern of one number.
use vstd::prelude::*;
use vstd::slice::slice_to_vec;
use crate::identity::Identity;
use crate::value::{ActiveWord, AnyValue, Symbol, ValueView};
use crate::value_wire::{
    encode_value, parse_value, parse_value_of_encoding, parse_value_sound, put_value, take_value,
    value_fits,
};
use crate::wire::{
    encode_text, encode_u128, encode_u64, encode_words, parse_text, parse_text_of_encoding,
    parse_text_sound, parse_u128, parse_u128_of_encoding, parse_u128_sound, parse_u64,
    parse_u64_of_encoding, parse_u64_sound, parse_words, parse_words_of_encoding,
    parse_words_sound, put_text, put_u128, put_u64, put_words, take_text, take_u128, take_u64,
    take_words, text_fits,
};

verus! {

/// The flag byte of an absent tail.
pub const TAIL_ABSENT: u8 = 0;

/// The flag byte of a present tail.
pub const TAIL_PRESENT: u8 = 1;

/// The flag byte of an absent export buffer.
pub const EXPORT_ABSENT: u8 = 0;

/// The flag byte of a present export buffer.
pub const EXPORT_PRESENT: u8 = 1;

/// A dense numeric array, held as the bit pattern of each number.
#[derive(Debug, PartialEq, Eq)]
pub struct ExportBuffer {
    pub words: Vec<u64>,
}

impl View for ExportBuffer {
    type V = Seq<u64>;

    open spec fn view(&self) -> Seq<u64> {
        self.words@
    }
}

impl ExportBuffer {
    /// The buffer that holds the given bit patterns in order.
    pub fn from_bits(words: Vec<u64>) -> (buffer: ExportBuffer)
        ensures
            buffer@ == words@,
    {
        ExportBuffer { words }
    }

    /// The bit patterns of this buffer, in order.
    pub fn bits(&self) -> (words: &[u64])
        ensures
            words@ == self@,
    {
        self.words.as_slice()
    }

    /// How many numbers the buffer holds.
    pub fn len(&self) -> (n: usize)
        ensures
            n == self@.len(),
    {
        self.words.len()
    }
}

/// The statement of a triplet: who, does what, to what.
#[derive(Debug, PartialEq, Eq)]
pub struct Body {
    pub id: Identity,
    pub subject: Symbol,
    pub verb: ActiveWord,
    pub attribute: AnyValue,
}

/// The mathematical content of a [`Body`].
pub struct BodyView {
    pub id: u128,
    pub subject: Seq<char>,
    pub verb: Seq<char>,
    pub attribute: ValueView,
}

impl View for Body {
    type V = BodyView;

    open spec fn view(&self) -> BodyView {
        BodyView {
            id: self.id.bits,
            subject: self.subject@,
            verb: self.verb@,
            attribute: self.attribute@,
        }
    }
}

/// The exportable payload of a triplet.
#[derive(Debug, PartialEq, Eq)]
pub struct Tail {
    pub id: Identity,
    pub export: Option<ExportBuffer>,
}

/// The mathematical content of a [`Tail`].
pub struct TailView {
    pub id: u128,
    pub export: Option<Seq<u64>>,
}

impl View for Tail {
    type V = TailView;

    open spec fn view(&self) -> TailView {
        TailView {
            id: self.id.bits,
            export: export_view(self.export),
        }
    }
}

/// The view of an optional export buffer.
pub open spec fn export_view(export: Option<ExportBuffer>) -> Option<Seq<u64>> {
    match export {
        Some(buffer) => Some(buffer@),
        None => None,
    }
}

/// The view of an optional tail.
pub open spec fn tail_view(tail: Option<Tail>) -> Option<TailView> {
    match tail {
        Some(t) => Some(t@),
        None => None,
    }
}

/// Whether a body is structurally complete: its subject and verb are not
/// empty.
pub open spec fn body_complete(b: BodyView) -> bool {
    &&& b.subject.len() > 0
    &&& b.verb.len() > 0
}

/// Whether every length in a body fits in 64 bits.
pub open spec fn body_fits(b: BodyView) -> bool {
    &&& text_fits(b.subject)
    &&& text_fits(b.verb)
    &&& value_fits(b.attribute)
}

/// The canonical encoding of a body: identity, subject, verb, attribute.
pub open spec fn encode_body(b: BodyView) -> Seq<u8> {
    encode_u128(b.id) + encode_text(b.subject) + encode_text(b.verb) + encode_value(b.attribute)
}

/// Reads a complete body from the front of `bytes`.
pub open spec fn parse_body(bytes: Seq<u8>) -> Option<(BodyView, Seq<u8>)> {
    match parse_u128(bytes) {
        Some((id, r1)) => match parse_text(r1) {
            Some((subject, r2)) => match parse_text(r2) {
                Some((verb, r3)) => match parse_value(r3) {
                    Some((attribute, rest)) => if subject.len() > 0 && verb.len() > 0 {
                        Some((BodyView { id, subject, verb, attribute }, rest))
                    } else {
                        None
                    },
                    None => None,
                },
                None => None,
            },
            None => None,
        },
        None => None,
    }
}

/// Whether the length of an optional export buffer fits in 64 bits.
pub open spec fn export_fits(export: Option<Seq<u64>>) -> bool {
    match export {
        Some(words) => words.len() <= u64::MAX,
        None => true,
    }
}

/// The canonical encoding of an optional export buffer: a presence flag,
/// then for a present buffer its length and its words.
pub open spec fn encode_export(export: Option<Seq<u64>>) -> Seq<u8> {
    match export {
        Some(words) => seq![EXPORT_PRESENT] + encode_u64(words.len() as u64) + encode_words(words),
        None => seq![EXPORT_ABSENT],
    }
}

/// Reads an optional export buffer from the front of `bytes`.
pub open spec fn parse_export(bytes: Seq<u8>) -> Option<(Option<Seq<u64>>, Seq<u8>)> {
    if bytes.len() == 0 {
        None
    } else if bytes[0] == EXPORT_ABSENT {
        Some((None, bytes.skip(1)))
    } else if bytes[0] == EXPORT_PRESENT {
        match parse_u64(bytes.skip(1)) {
            Some((count, r1)) => match parse_words(r1, count as nat) {
                Some((words, rest)) => Some((Some(words), rest)),
                None => None,
            },
            None => None,
        }
    } else {
        None
    }
}

/// Whether the lengths in an optional tail fit in 64 bits.
pub open spec fn tail_fits(tail: Option<TailView>) -> bool {
    match tail {
        Some(t) => export_fits(t.export),
        None => true,
    }
}

/// The canonical encoding of an optional tail: a presence flag, then for a
/// present tail its identity and its export buffer.
pub open spec fn encode_tail(tail: Option<TailView>) -> Seq<u8> {
    match tail {
        Some(t) => seq![TAIL_PRESENT] + encode_u128(t.id) + encode_export(t.export),
        None => seq![TAIL_ABSENT],
    }
}

/// Reads an optional tail from the front of `bytes`.
pub open spec fn parse_tail(bytes: Seq<u8>) -> Option<(Option<TailView>, Seq<u8>)> {
    if bytes.len() == 0 {
        None
    } else if bytes[0] == TAIL_ABSENT {
        Some((None, bytes.skip(1)))
    } else if bytes[0] == TAIL_PRESENT {
        match parse_u128(bytes.skip(1)) {
            Some((id, r1)) => match parse_export(r1) {
                Some((export, rest)) => Some((Some(TailView { id, export }), rest)),
                None => None,
            },
            None => None,
        }
    } else {
        None
    }
}

/// Four byte sequences and a rest, joined from the right, are the four
/// joined from the left, then the rest.
proof fn join_four(a: Seq<u8>, b: Seq<u8>, c: Seq<u8>, d: Seq<u8>, rest: Seq<u8>)
    ensures
        a + (b + (c + (d + rest))) == (a + b + c + d) + rest,
{
    assert(a + (b + (c + (d + rest))) =~= (a + b + c + d) + rest);
}

/// Parsing reads back the body that was encoded and leaves what follows.
pub proof fn parse_body_of_encoding(b: BodyView, rest: Seq<u8>)
    requires
        body_complete(b),
        body_fits(b),
    ensures
        parse_body(encode_body(b) + rest) == Some((b, rest)),
{
    let r3 = encode_value(b.attribute) + rest;
    let r2 = encode_text(b.verb) + r3;
    let r1 = encode_text(b.subject) + r2;
    join_four(
        encode_u128(b.id),
        encode_text(b.subject),
        encode_text(b.verb),
        encode_value(b.attribute),
        rest,
    );
    parse_u128_of_encoding(b.id, r1);
    parse_text_of_encoding(b.subject, r2);
    parse_text_of_encoding(b.verb, r3);
    parse_value_of_encoding(b.attribute, rest);
}

/// What was parsed as a body is that body's encoding, and the body is
/// complete and fits.
pub proof fn parse_body_sound(bytes: Seq<u8>)
    ensures
        match parse_body(bytes) {
            Some((b, rest)) => bytes == encode_body(b) + rest && body_complete(b) && body_fits(b),
            None => true,
        },
{
    parse_u128_sound(bytes);
    match parse_u128(bytes) {
        Some((id, r1)) => {
            parse_text_sound(r1);
            match parse_text(r1) {
                Some((subject, r2)) => {
                    parse_text_sound(r2);
                    match parse_text(r2) {
                        Some((verb, r3)) => {
                            parse_value_sound(r3);
                            match parse_value(r3) {
                                Some((attribute, rest)) => {
                                    join_four(
                                        encode_u128(id),
                                        encode_text(subject),
                                        encode_text(verb),
                                        encode_value(attribute),
                                        rest,
                                    );
                                },
                                None => {},
                            }
                        },
                        None => {},
                    }
                },
                None => {},
            }
        },
        None => {},
    }
}

/// Parsing reads back the export buffer that was encoded and leaves what
/// follows.
pub proof fn parse_export_of_encoding(export: Option<Seq<u64>>, rest: Seq<u8>)
    requires
        export_fits(export),
    ensures
        parse_export(encode_export(export) + rest) == Some((export, rest)),
{
    let bytes = encode_export(export) + rest;
    match export {
        Some(words) => {
            let count = words.len() as u64;
            assert(bytes.skip(1) =~= encode_u64(count) + (encode_words(words) + rest));
            parse_u64_of_encoding(count, encode_words(words) + rest);
            parse_words_of_encoding(words, rest);
        },
        None => {
            assert(bytes.skip(1) =~= rest);
        },
    }
}

/// What was parsed as an export buffer is that buffer's encoding, and its
/// length fits.
pub proof fn parse_export_sound(bytes: Seq<u8>)
    ensures
        match parse_export(bytes) {
            Some((export, rest)) => bytes == encode_export(export) + rest && export_fits(export),
            None => true,
        },
{
    if bytes.len() > 0 {
        let after = bytes.skip(1);
        assert(bytes =~= seq![bytes[0]] + after);
        if bytes[0] == EXPORT_PRESENT {
            parse_u64_sound(after);
            match parse_u64(after) {
                Some((count, r1)) => {
                    parse_words_sound(r1, count as nat);
                    match parse_words(r1, count as nat) {
                        Some((words, rest)) => {
                            assert(bytes =~= encode_export(Some(words)) + rest);
                        },
                        None => {},
                    }
                },
                None => {},
            }
        } else if bytes[0] == EXPORT_ABSENT {
            assert(bytes =~= encode_export(None) + after);
        }
    }
}

/// Parsing reads back the tail that was encoded and leaves what follows.
pub proof fn parse_tail_of_encoding(tail: Option<TailView>, rest: Seq<u8>)
    requires
        tail_fits(tail),
    ensures
        parse_tail(encode_tail(tail) + rest) == Some((tail, rest)),
{
    let bytes = encode_tail(tail) + rest;
    match tail {
        Some(t) => {
            assert(bytes.skip(1) =~= encode_u128(t.id) + (encode_export(t.export) + rest));
            parse_u128_of_encoding(t.id, encode_export(t.export) + rest);
            parse_export_of_encoding(t.export, rest);
        },
        None => {
            assert(bytes.skip(1) =~= rest);
        },
    }
}

/// What was parsed as a tail is that tail's encoding, and its lengths fit.
pub proof fn parse_tail_sound(bytes: Seq<u8>)
    ensures
        match parse_tail(bytes) {
            Some((tail, rest)) => bytes == encode_tail(tail) + rest && tail_fits(tail),
            None => true,
        },
{
    if bytes.len() > 0 {
        let after = bytes.skip(1);
        assert(bytes =~= seq![bytes[0]] + after);
        if bytes[0] == TAIL_PRESENT {
            parse_u128_sound(after);
            match parse_u128(after) {
                Some((id, r1)) => {
                    parse_export_sound(r1);
                    match parse_export(r1) {
                        Some((export, rest)) => {
                            assert(bytes =~= encode_tail(Some(TailView { id, export })) + rest);
                        },
                        None => {},
                    }
                },
                None => {},
            }
        } else if bytes[0] == TAIL_ABSENT {
            assert(bytes =~= encode_tail(None) + after);
        }
    }
}

impl Clone for ExportBuffer {
    fn clone(&self) -> (copy: Self)
        ensures
            copy@ == self@,
    {
        ExportBuffer { words: slice_to_vec(self.words.as_slice()) }
    }
}

impl Clone for Body {
    fn clone(&self) -> (copy: Self)
        ensures
            copy@ == self@,
    {
        Body {
            id: self.id,
            subject: self.subject.clone(),
            verb: self.verb.clone(),
            attribute: self.attribute.clone(),
        }
    }
}

impl Clone for Tail {
    fn clone(&self) -> (copy: Self)
        ensures
            copy@ == self@,
    {
        let export = match &self.export {
            Some(buffer) => Some(buffer.clone()),
            None => None,
        };
        Tail { id: self.id, export }
    }
}

impl Body {
    /// The body with the given identity and statement.
    pub fn new(id: Identity, subject: &str, verb: &str, attribute: AnyValue) -> (body: Body)
        ensures
            body@ == (BodyView {
                id: id.bits,
                subject: subject@,
                verb: verb@,
                attribute: attribute@,
            }),
    {
        Body { id, subject: Symbol::new(subject), verb: ActiveWord::new(verb), attribute }
    }

    /// Whether the subject and the verb are both not empty.
    pub fn is_complete(&self) -> (complete: bool)
        ensures
            complete == body_complete(self@),
    {
        !self.subject.is_empty() && !self.verb.is_empty()
    }
}

impl Tail {
    /// The tail with the given identity and payload.
    pub fn new(id: Identity, export: Option<ExportBuffer>) -> (tail: Tail)
        ensures
            tail.id == id,
            tail.export == export,
    {
        Tail { id, export }
    }
}

/// Appends the encoding of `body` to `out`.
pub(crate) fn put_body(out: &mut Vec<u8>, body: &Body)
    ensures
        final(out)@ == old(out)@ + encode_body(body@),
        body_fits(body@),
{
    put_u128(out, body.id.bits);
    put_text(out, body.subject.as_str());
    put_text(out, body.verb.as_str());
    put_value(out, &body.attribute);
    assert(out@ =~= old(out)@ + encode_body(body@));
}

/// Appends the encoding of an optional export buffer to `out`.
pub(crate) fn put_export(out: &mut Vec<u8>, export: Option<&ExportBuffer>)
    ensures
        final(out)@ == old(out)@ + encode_export(
            match export {
                Some(buffer) => Some(buffer@),
                None => None,
            },
        ),
        export_fits(
            match export {
                Some(buffer) => Some(buffer@),
                None => None,
            },
        ),
{
    match export {
        Some(buffer) => {
            out.push(EXPORT_PRESENT);
            put_u64(out, buffer.words.len() as u64);
            put_words(out, buffer.words.as_slice());
            assert(out@ =~= old(out)@ + encode_export(Some(buffer@)));
        },
        None => {
            out.push(EXPORT_ABSENT);
            assert(out@ =~= old(out)@ + encode_export(None));
        },
    }
}

/// Reads a complete body at `pos`. Hands back the body and the position
/// after it.
pub(crate) fn take_body(bytes: &[u8], pos: usize) -> (r: Option<(Body, usize)>)
    requires
        pos <= bytes.len(),
    ensures
        match r {
            Some((body, next)) => pos <= next <= bytes.len() && parse_body(
                bytes@.skip(pos as int),
            ) == Some((body@, bytes@.skip(next as int))),
            None => parse_body(bytes@.skip(pos as int)) is None,
        },
{
    let (bits, p1) = match take_u128(bytes, pos) {
        Some(found) => found,
        None => { return None; },
    };
    let (subject, p2) = match take_text(bytes, p1) {
        Some(found) => found,
        None => { return None; },
    };
    let (verb, p3) = match take_text(bytes, p2) {
        Some(found) => found,
        None => { return None; },
    };
    let (attribute, next) = match take_value(bytes, p3) {
        Some(found) => found,
        None => { return None; },
    };
    if subject.as_str().is_empty() || verb.as_str().is_empty() {
        return None;
    }
    let body = Body {
        id: Identity { bits },
        subject: Symbol { text: subject },
        verb: ActiveWord { text: verb },
        attribute,
    };
    Some((body, next))
}

/// Reads an optional export buffer at `pos`. Hands back the buffer and the
/// position after it.
pub(crate) fn take_export(bytes: &[u8], pos: usize) -> (r: Option<(Option<ExportBuffer>, usize)>)
    requires
        pos <= bytes.len(),
    ensures
        match r {
            Some((export, next)) => pos <= next <= bytes.len() && parse_export(
                bytes@.skip(pos as int),
            ) == Some(
                (
                    match export {
                        Some(buffer) => Some(buffer@),
                        None => None,
                    },
                    bytes@.skip(next as int),
                ),
            ),
            None => parse_export(bytes@.skip(pos as int)) is None,
        },
{
    if pos >= bytes.len() {
        return None;
    }
    let flag: u8 = bytes[pos];
    let ghost here = bytes@.skip(pos as int);
    assert(here[0] == flag);
    assert(here.skip(1) =~= bytes@.skip(pos + 1));
    if flag == EXPORT_ABSENT {
        Some((None, pos + 1))
    } else if flag == EXPORT_PRESENT {
        let (count, p1) = match take_u64(bytes, pos + 1) {
            Some(found) => found,
            None => { return None; },
        };
        match take_words(bytes, p1, count) {
            Some((words, next)) => Some((Some(ExportBuffer { words }), next)),
            None => None,
        }
    } else {
        None
    }
}

/// Appends the encoding of an optional tail to `out`.
pub(crate) fn put_tail(out: &mut Vec<u8>, tail: Option<&Tail>)
    ensures
        final(out)@ == old(out)@ + encode_tail(
            match tail {
                Some(t) => Some(t@),
                None => None,
            },
        ),
        tail_fits(
            match tail {
                Some(t) => Some(t@),
                None => None,
            },
        ),
{
    match tail {
        Some(t) => {
            out.push(TAIL_PRESENT);
            put_u128(out, t.id.bits);
            put_export(out, t.export.as_ref());
            assert(out@ =~= old(out)@ + encode_tail(Some(t@)));
        },
        None => {
            out.push(TAIL_ABSENT);
            assert(out@ =~= old(out)@ + encode_tail(None));
        },
    }
}

/// Reads an optional tail at `pos`. Hands back the tail and the position
/// after it.
pub(crate) fn take_tail(bytes: &[u8], pos: usize) -> (r: Option<(Option<Tail>, usize)>)
    requires
        pos <= bytes.len(),
    ensures
        match r {
            Some((tail, next)) => pos <= next <= bytes.len() && parse_tail(
                bytes@.skip(pos as int),
            ) == Some((tail_view(tail), bytes@.skip(next as int))),
            None => parse_tail(bytes@.skip(pos as int)) is None,
        },
{
    if pos >= bytes.len() {
        return None;
    }
    let flag: u8 = bytes[pos];
    let ghost here = bytes@.skip(pos as int);
    assert(here[0] == flag);
    assert(here.skip(1) =~= bytes@.skip(pos + 1));
    if flag == TAIL_ABSENT {
        Some((None, pos + 1))
    } else if flag == TAIL_PRESENT {
        let (bits, p1) = match take_u128(bytes, pos + 1) {
            Some(found) => found,
            None => { return None; },
        };
        match take_export(bytes, p1) {
            Some((export, next)) => Some((Some(Tail { id: Identity { bits }, export }), next)),
            None => None,
        }
    } else {
        None
    }
}

} // verus!
