//! The canonical byte encoding of integers, texts and word lists.
//!
//! Integers are little-endian and of fixed width. A text is the length of
//! its UTF-8 encoding as a 64-bit integer, then the encoding. Each encoder
//! has a parser that reads one item from the front of a byte sequence and
//! hands back the item and the bytes that follow it.
use vstd::prelude::*;
use vstd::bytes::*;
use vstd::slice::*;
use vstd::string::*;
use vstd::utf8::*;

verus! {

/// The eight bytes of `n`, least significant first.
pub open spec fn encode_u64(n: u64) -> Seq<u8> {
    spec_u64_to_le_bytes(n)
}

/// Reads a 64-bit integer from the front of `b`.
pub open spec fn parse_u64(b: Seq<u8>) -> Option<(u64, Seq<u8>)> {
    if b.len() >= 8 {
        Some((spec_u64_from_le_bytes(b.take(8)), b.skip(8)))
    } else {
        None
    }
}

/// The sixteen bytes of `n`, least significant first.
pub open spec fn encode_u128(n: u128) -> Seq<u8> {
    spec_u128_to_le_bytes(n)
}

/// Reads a 128-bit integer from the front of `b`.
pub open spec fn parse_u128(b: Seq<u8>) -> Option<(u128, Seq<u8>)> {
    if b.len() >= 16 {
        Some((spec_u128_from_le_bytes(b.take(16)), b.skip(16)))
    } else {
        None
    }
}

/// Whether the UTF-8 encoding of `s` has a length that fits in 64 bits.
pub open spec fn text_fits(s: Seq<char>) -> bool {
    encode_utf8(s).len() <= u64::MAX
}

/// The length of the UTF-8 encoding of `s`, then the encoding.
pub open spec fn encode_text(s: Seq<char>) -> Seq<u8> {
    encode_u64(encode_utf8(s).len() as u64) + encode_utf8(s)
}

/// Reads a text from the front of `b`.
pub open spec fn parse_text(b: Seq<u8>) -> Option<(Seq<char>, Seq<u8>)> {
    match parse_u64(b) {
        Some((n, rest)) => if n <= rest.len() && valid_utf8(rest.take(n as int)) {
            Some((decode_utf8(rest.take(n as int)), rest.skip(n as int)))
        } else {
            None
        },
        None => None,
    }
}

/// The encodings of the words of `words`, in order.
pub open spec fn encode_words(words: Seq<u64>) -> Seq<u8>
    decreases words.len(),
{
    if words.len() == 0 {
        Seq::empty()
    } else {
        encode_u64(words[0]) + encode_words(words.skip(1))
    }
}

/// Reads `count` words from the front of `b`.
pub open spec fn parse_words(b: Seq<u8>, count: nat) -> Option<(Seq<u64>, Seq<u8>)>
    decreases count,
{
    if count == 0 {
        Some((Seq::empty(), b))
    } else {
        match parse_u64(b) {
            Some((word, rest)) => match parse_words(rest, (count - 1) as nat) {
                Some((words, rest)) => Some((seq![word] + words, rest)),
                None => None,
            },
            None => None,
        }
    }
}

/// Parsing reads back the integer that was encoded and leaves what follows.
pub proof fn parse_u64_of_encoding(n: u64, rest: Seq<u8>)
    ensures
        encode_u64(n).len() == 8,
        parse_u64(encode_u64(n) + rest) == Some((n, rest)),
{
    lemma_auto_spec_u64_to_from_le_bytes();
    let b = encode_u64(n) + rest;
    assert(b.take(8) =~= encode_u64(n));
    assert(b.skip(8) =~= rest);
}

/// What was parsed as an integer is that integer's encoding.
pub proof fn parse_u64_sound(b: Seq<u8>)
    ensures
        match parse_u64(b) {
            Some((n, rest)) => b == encode_u64(n) + rest,
            None => b.len() < 8,
        },
{
    lemma_auto_spec_u64_to_from_le_bytes();
    if b.len() >= 8 {
        let n = spec_u64_from_le_bytes(b.take(8));
        assert(spec_u64_to_le_bytes(spec_u64_from_le_bytes(b.take(8))) == b.take(8));
        assert(b =~= b.take(8) + b.skip(8));
    }
}

/// Parsing reads back the integer that was encoded and leaves what follows.
pub proof fn parse_u128_of_encoding(n: u128, rest: Seq<u8>)
    ensures
        encode_u128(n).len() == 16,
        parse_u128(encode_u128(n) + rest) == Some((n, rest)),
{
    lemma_auto_spec_u128_to_from_le_bytes();
    let b = encode_u128(n) + rest;
    assert(b.take(16) =~= encode_u128(n));
    assert(b.skip(16) =~= rest);
}

/// What was parsed as an integer is that integer's encoding.
pub proof fn parse_u128_sound(b: Seq<u8>)
    ensures
        match parse_u128(b) {
            Some((n, rest)) => b == encode_u128(n) + rest,
            None => b.len() < 16,
        },
{
    lemma_auto_spec_u128_to_from_le_bytes();
    if b.len() >= 16 {
        assert(spec_u128_to_le_bytes(spec_u128_from_le_bytes(b.take(16))) == b.take(16));
        assert(b =~= b.take(16) + b.skip(16));
    }
}

/// Parsing reads back the text that was encoded and leaves what follows.
pub proof fn parse_text_of_encoding(s: Seq<char>, rest: Seq<u8>)
    requires
        text_fits(s),
    ensures
        parse_text(encode_text(s) + rest) == Some((s, rest)),
{
    let payload = encode_utf8(s);
    let n = payload.len() as u64;
    let b = encode_text(s) + rest;
    assert(b =~= encode_u64(n) + (payload + rest));
    parse_u64_of_encoding(n, payload + rest);
    assert((payload + rest).take(n as int) =~= payload);
    assert((payload + rest).skip(n as int) =~= rest);
    encode_utf8_valid_utf8(s);
    encode_utf8_decode_utf8(s);
}

/// What was parsed as a text is that text's encoding, and the text fits.
pub proof fn parse_text_sound(b: Seq<u8>)
    ensures
        match parse_text(b) {
            Some((s, rest)) => b == encode_text(s) + rest && text_fits(s),
            None => true,
        },
{
    parse_u64_sound(b);
    match parse_u64(b) {
        Some((n, after)) => {
            if n <= after.len() && valid_utf8(after.take(n as int)) {
                let payload = after.take(n as int);
                let s = decode_utf8(payload);
                decode_utf8_encode_utf8(payload);
                assert(encode_utf8(s) == payload);
                assert(after =~= payload + after.skip(n as int));
                assert(b =~= encode_text(s) + after.skip(n as int));
            }
        },
        None => {},
    }
}

/// Parsing reads back the words that were encoded and leaves what follows.
pub proof fn parse_words_of_encoding(words: Seq<u64>, rest: Seq<u8>)
    ensures
        encode_words(words).len() == 8 * words.len(),
        parse_words(encode_words(words) + rest, words.len()) == Some((words, rest)),
    decreases words.len(),
{
    if words.len() > 0 {
        let tail = words.skip(1);
        parse_words_of_encoding(tail, rest);
        parse_u64_of_encoding(words[0], encode_words(tail) + rest);
        assert(encode_words(words) + rest =~= encode_u64(words[0]) + (encode_words(tail) + rest));
        assert(seq![words[0]] + tail =~= words);
    } else {
        assert(encode_words(words) + rest =~= rest);
        assert(words =~= Seq::empty());
    }
}

/// What was parsed as a list of words is that list's encoding.
pub proof fn parse_words_sound(b: Seq<u8>, count: nat)
    ensures
        match parse_words(b, count) {
            Some((words, rest)) => words.len() == count && b == encode_words(words) + rest,
            None => b.len() < 8 * count,
        },
    decreases count,
{
    if count == 0 {
        assert(b =~= encode_words(Seq::empty()) + b);
    } else {
        parse_u64_sound(b);
        match parse_u64(b) {
            Some((word, after)) => {
                parse_words_sound(after, (count - 1) as nat);
                match parse_words(after, (count - 1) as nat) {
                    Some((words, rest)) => {
                        let all = seq![word] + words;
                        assert(all.skip(1) =~= words);
                        assert(all[0] == word);
                        assert(b =~= encode_words(all) + rest);
                    },
                    None => {
                        parse_u64_of_encoding(word, after);
                    },
                }
            },
            None => {},
        }
    }
}

/// `String::from_utf8`, with its error dropped. The standard library
/// documents that it succeeds exactly on valid UTF-8 and then holds the
/// text that the bytes encode.
#[verifier::external_body]
fn text_from_utf8(bytes: Vec<u8>) -> (text: Option<String>)
    ensures
        text is Some <==> valid_utf8(bytes@),
        text matches Some(s) ==> s@ == decode_utf8(bytes@),
{
    String::from_utf8(bytes).ok()
}

/// Appends `src` to `out`.
pub(crate) fn put_bytes(out: &mut Vec<u8>, src: &[u8])
    ensures
        final(out)@ == old(out)@ + src@,
{
    let mut i: usize = 0;
    while i < src.len()
        invariant
            0 <= i <= src.len(),
            out@ == old(out)@ + src@.take(i as int),
        decreases src.len() - i,
    {
        out.push(src[i]);
        assert(src@.take(i + 1) =~= src@.take(i as int).push(src@[i as int]));
        i += 1;
    }
    assert(src@.take(i as int) =~= src@);
}

/// Appends the encoding of `n` to `out`.
pub(crate) fn put_u64(out: &mut Vec<u8>, n: u64)
    ensures
        final(out)@ == old(out)@ + encode_u64(n),
{
    let bytes = u64_to_le_bytes(n);
    put_bytes(out, bytes.as_slice());
}

/// Appends the encoding of `n` to `out`.
pub(crate) fn put_u128(out: &mut Vec<u8>, n: u128)
    ensures
        final(out)@ == old(out)@ + encode_u128(n),
{
    let bytes = u128_to_le_bytes(n);
    put_bytes(out, bytes.as_slice());
}

/// Appends the encoding of `s` to `out`.
pub(crate) fn put_text(out: &mut Vec<u8>, s: &str)
    ensures
        final(out)@ == old(out)@ + encode_text(s@),
        text_fits(s@),
{
    let payload = s.as_bytes();
    put_u64(out, payload.len() as u64);
    put_bytes(out, payload);
    assert(out@ =~= old(out)@ + encode_text(s@));
}

/// Appends the encoding of `words` to `out`.
pub(crate) fn put_words(out: &mut Vec<u8>, words: &[u64])
    ensures
        final(out)@ == old(out)@ + encode_words(words@),
{
    let mut i: usize = 0;
    assert(words@.skip(0) =~= words@);
    while i < words.len()
        invariant
            0 <= i <= words.len(),
            out@ + encode_words(words@.skip(i as int)) == old(out)@ + encode_words(words@),
        decreases words.len() - i,
    {
        let ghost before = out@;
        let ghost pending = words@.skip(i as int);
        put_u64(out, words[i]);
        proof {
            assert(pending[0] == words@[i as int]);
            assert(pending.skip(1) =~= words@.skip(i + 1));
            assert(out@ + encode_words(words@.skip(i + 1)) =~= before + encode_words(pending));
        }
        i += 1;
    }
    assert(out@ + encode_words(words@.skip(i as int)) =~= out@);
}

/// Reads a 64-bit integer at `pos`. Hands back the integer and the position
/// after it.
pub(crate) fn take_u64(bytes: &[u8], pos: usize) -> (r: Option<(u64, usize)>)
    requires
        pos <= bytes.len(),
    ensures
        match r {
            Some((n, next)) => pos <= next <= bytes.len() && parse_u64(bytes@.skip(pos as int))
                == Some((n, bytes@.skip(next as int))),
            None => parse_u64(bytes@.skip(pos as int)) is None,
        },
{
    if bytes.len() - pos < 8 {
        return None;
    }
    let n = u64_from_le_bytes(slice_subrange(bytes, pos, pos + 8));
    proof {
        let b = bytes@.skip(pos as int);
        assert(b.take(8) =~= bytes@.subrange(pos as int, pos + 8));
        assert(b.skip(8) =~= bytes@.skip(pos + 8));
    }
    Some((n, pos + 8))
}

/// Reads a 128-bit integer at `pos`. Hands back the integer and the
/// position after it.
pub(crate) fn take_u128(bytes: &[u8], pos: usize) -> (r: Option<(u128, usize)>)
    requires
        pos <= bytes.len(),
    ensures
        match r {
            Some((n, next)) => pos <= next <= bytes.len() && parse_u128(bytes@.skip(pos as int))
                == Some((n, bytes@.skip(next as int))),
            None => parse_u128(bytes@.skip(pos as int)) is None,
        },
{
    if bytes.len() - pos < 16 {
        return None;
    }
    let n = u128_from_le_bytes(slice_subrange(bytes, pos, pos + 16));
    proof {
        let b = bytes@.skip(pos as int);
        assert(b.take(16) =~= bytes@.subrange(pos as int, pos + 16));
        assert(b.skip(16) =~= bytes@.skip(pos + 16));
    }
    Some((n, pos + 16))
}

/// Reads a text at `pos`. Hands back the text and the position after it.
pub(crate) fn take_text(bytes: &[u8], pos: usize) -> (r: Option<(String, usize)>)
    requires
        pos <= bytes.len(),
    ensures
        match r {
            Some((s, next)) => pos <= next <= bytes.len() && parse_text(bytes@.skip(pos as int))
                == Some((s@, bytes@.skip(next as int))),
            None => parse_text(bytes@.skip(pos as int)) is None,
        },
{
    let (n, start) = match take_u64(bytes, pos) {
        Some(found) => found,
        None => { return None; },
    };
    if n > (bytes.len() - start) as u64 {
        return None;
    }
    let end: usize = start + n as usize;
    let payload = slice_to_vec(slice_subrange(bytes, start, end));
    proof {
        let after = bytes@.skip(start as int);
        assert(after.take(n as int) =~= bytes@.subrange(start as int, end as int));
        assert(after.skip(n as int) =~= bytes@.skip(end as int));
    }
    match text_from_utf8(payload) {
        Some(s) => Some((s, end)),
        None => None,
    }
}

/// Reads `count` words at `pos`. Hands back the words and the position
/// after them.
pub(crate) fn take_words(bytes: &[u8], pos: usize, count: u64) -> (r: Option<(Vec<u64>, usize)>)
    requires
        pos <= bytes.len(),
    ensures
        match r {
            Some((words, next)) => pos <= next <= bytes.len() && parse_words(
                bytes@.skip(pos as int),
                count as nat,
            ) == Some((words@, bytes@.skip(next as int))),
            None => parse_words(bytes@.skip(pos as int), count as nat) is None,
        },
{
    let mut words: Vec<u64> = Vec::new();
    let mut at: usize = pos;
    let mut i: u64 = 0;
    while i < count
        invariant
            0 <= i <= count,
            pos <= at <= bytes.len(),
            parse_words(bytes@.skip(pos as int), count as nat) == match parse_words(
                bytes@.skip(at as int),
                (count - i) as nat,
            ) {
                Some((more, rest)) => Some((words@ + more, rest)),
                None => None,
            },
        decreases count - i,
    {
        let ghost here = bytes@.skip(at as int);
        match take_u64(bytes, at) {
            Some((word, next)) => {
                proof {
                    match parse_words(bytes@.skip(next as int), (count - i - 1) as nat) {
                        Some((more, rest)) => {
                            assert(words@.push(word) + more =~= words@ + (seq![word] + more));
                        },
                        None => {},
                    }
                }
                words.push(word);
                at = next;
            },
            None => {
                return None;
            },
        }
        i += 1;
    }
    assert(words@ + Seq::<u64>::empty() =~= words@);
    Some((words, at))
}

} // verus!
