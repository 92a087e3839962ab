//! The canonical byte encoding of attribute values.
//!
//! A value is one tag byte and a payload: a text for a symbol or a verb,
//! eight bytes for a scalar, and for a structure the number of its items
//! followed by the items' encodings in order.
use vstd::prelude::*;
use crate::value::{structure_view, views_of, ActiveWord, AnyValue, Symbol, ValueView};
use crate::wire::{
    encode_text, encode_u64, parse_text, parse_text_of_encoding, parse_text_sound, parse_u64,
    parse_u64_of_encoding, parse_u64_sound, put_text, put_u64, take_text, take_u64, text_fits,
};

verus! {

/// The tag byte of a symbol.
pub const TAG_SYMBOL: u8 = 1;

/// The tag byte of a verb.
pub const TAG_VERB: u8 = 2;

/// The tag byte of a scalar.
pub const TAG_SCALAR: u8 = 3;

/// The tag byte of a structure.
pub const TAG_STRUCTURE: u8 = 4;

/// The parts of `parts` joined in order.
pub open spec fn concat_all(parts: Seq<Seq<u8>>) -> Seq<u8>
    decreases parts.len(),
{
    if parts.len() == 0 {
        Seq::empty()
    } else {
        parts[0] + concat_all(parts.skip(1))
    }
}

/// The canonical encoding of `v`.
pub open spec fn encode_value(v: ValueView) -> Seq<u8>
    decreases v, 1nat,
{
    match v {
        ValueView::Symbol(s) => seq![TAG_SYMBOL] + encode_text(s),
        ValueView::Verb(s) => seq![TAG_VERB] + encode_text(s),
        ValueView::Scalar(n) => seq![TAG_SCALAR] + encode_u64(n as u64),
        ValueView::Structure(items) => seq![TAG_STRUCTURE] + encode_u64(items.len() as u64)
            + concat_all(item_encodings(v)),
    }
}

/// The encodings of the items of a structure, one per item; empty for any
/// other value.
pub open spec fn item_encodings(v: ValueView) -> Seq<Seq<u8>>
    decreases v, 0nat,
{
    match v {
        ValueView::Structure(items) => Seq::new(
            items.len(),
            |i: int|
                if 0 <= i < items.len() {
                    encode_value(items[i])
                } else {
                    Seq::empty()
                },
        ),
        _ => Seq::empty(),
    }
}

/// The encodings of `items` joined in order.
pub open spec fn encode_items(items: Seq<ValueView>) -> Seq<u8> {
    concat_all(Seq::new(items.len(), |i: int| encode_value(items[i])))
}

/// Whether every text and every item count in `v` has a length that fits in
/// 64 bits.
pub open spec fn value_fits(v: ValueView) -> bool
    decreases v,
{
    match v {
        ValueView::Symbol(s) => text_fits(s),
        ValueView::Verb(s) => text_fits(s),
        ValueView::Scalar(_) => true,
        ValueView::Structure(items) => items.len() <= u64::MAX && forall|i: int|
            0 <= i < items.len() ==> value_fits(#[trigger] items[i]),
    }
}

/// Reads one value from the front of `b`.
pub open spec fn parse_value(b: Seq<u8>) -> Option<(ValueView, Seq<u8>)>
    decreases b.len(), 0nat,
{
    if b.len() == 0 {
        None
    } else if b[0] == TAG_SYMBOL {
        match parse_text(b.skip(1)) {
            Some((s, rest)) => Some((ValueView::Symbol(s), rest)),
            None => None,
        }
    } else if b[0] == TAG_VERB {
        match parse_text(b.skip(1)) {
            Some((s, rest)) => Some((ValueView::Verb(s), rest)),
            None => None,
        }
    } else if b[0] == TAG_SCALAR {
        match parse_u64(b.skip(1)) {
            Some((n, rest)) => Some((ValueView::Scalar(n as i64), rest)),
            None => None,
        }
    } else if b[0] == TAG_STRUCTURE {
        match parse_u64(b.skip(1)) {
            Some((count, rest)) => match parse_items(rest, count as nat) {
                Some((items, rest)) => Some((ValueView::Structure(items), rest)),
                None => None,
            },
            None => None,
        }
    } else {
        None
    }
}

/// Reads `count` values from the front of `b`. What follows a value is
/// always shorter than what the value was read from (see
/// [`parse_value_sound`]); the definition tests it so that it is seen to
/// end.
pub open spec fn parse_items(b: Seq<u8>, count: nat) -> Option<(Seq<ValueView>, Seq<u8>)>
    decreases b.len(), count,
{
    if count == 0 {
        Some((Seq::empty(), b))
    } else {
        match parse_value(b) {
            Some((item, rest)) => if rest.len() < b.len() {
                match parse_items(rest, (count - 1) as nat) {
                    Some((items, rest)) => Some((seq![item] + items, rest)),
                    None => None,
                }
            } else {
                None
            },
            None => None,
        }
    }
}

/// A structure's encoding is its tag, its item count and its items'
/// encodings.
pub proof fn encode_structure(items: Seq<ValueView>)
    ensures
        encode_value(ValueView::Structure(items)) == seq![TAG_STRUCTURE] + encode_u64(
            items.len() as u64,
        ) + encode_items(items),
{
    reveal_with_fuel(item_encodings, 2);
    let whole = ValueView::Structure(items);
    assert(whole->Structure_0 == items);
    assert(item_encodings(whole) =~= Seq::new(items.len(), |i: int| encode_value(items[i])));
}

/// The encoding of a list of items is the first item's encoding, then the
/// encoding of the others.
pub proof fn encode_items_step(items: Seq<ValueView>)
    ensures
        items.len() == 0 ==> encode_items(items) == Seq::<u8>::empty(),
        items.len() > 0 ==> encode_items(items) == encode_value(items[0]) + encode_items(
            items.skip(1),
        ),
{
    if items.len() > 0 {
        let parts = Seq::new(items.len(), |i: int| encode_value(items[i]));
        let others = items.skip(1);
        let other_parts = Seq::new(others.len(), |i: int| encode_value(others[i]));
        assert(parts.skip(1) =~= other_parts);
    }
}

/// The encoding of a value has at least its tag byte.
pub proof fn value_encoding_is_not_empty(v: ValueView)
    ensures
        encode_value(v).len() >= 1,
{
}

/// Parsing reads back the value that was encoded and leaves what follows.
pub proof fn parse_value_of_encoding(v: ValueView, rest: Seq<u8>)
    requires
        value_fits(v),
    ensures
        parse_value(encode_value(v) + rest) == Some((v, rest)),
    decreases encode_value(v).len(), 0nat,
{
    let b = encode_value(v) + rest;
    match v {
        ValueView::Symbol(s) => {
            assert(b.skip(1) =~= encode_text(s) + rest);
            parse_text_of_encoding(s, rest);
        },
        ValueView::Verb(s) => {
            assert(b.skip(1) =~= encode_text(s) + rest);
            parse_text_of_encoding(s, rest);
        },
        ValueView::Scalar(n) => {
            assert(b.skip(1) =~= encode_u64(n as u64) + rest);
            parse_u64_of_encoding(n as u64, rest);
            assert((n as u64) as i64 == n) by (bit_vector);
        },
        ValueView::Structure(items) => {
            assert(v->Structure_0 == items);
            encode_structure(items);
            let count = items.len() as u64;
            assert(b.skip(1) =~= encode_u64(count) + (encode_items(items) + rest));
            parse_u64_of_encoding(count, encode_items(items) + rest);
            parse_items_of_encoding(items, rest);
        },
    }
}

/// Parsing reads back the items that were encoded and leaves what follows.
pub proof fn parse_items_of_encoding(items: Seq<ValueView>, rest: Seq<u8>)
    requires
        forall|i: int| 0 <= i < items.len() ==> value_fits(#[trigger] items[i]),
    ensures
        parse_items(encode_items(items) + rest, items.len()) == Some((items, rest)),
    decreases encode_items(items).len(), items.len(),
{
    encode_items_step(items);
    if items.len() == 0 {
        assert(encode_items(items) + rest =~= rest);
        assert(items =~= Seq::empty());
    } else {
        let others = items.skip(1);
        assert forall|i: int| 0 <= i < others.len() implies value_fits(#[trigger] others[i]) by {
            assert(others[i] == items[i + 1]);
        }
        value_encoding_is_not_empty(items[0]);
        assert(encode_items(items) + rest =~= encode_value(items[0]) + (encode_items(others)
            + rest));
        parse_value_of_encoding(items[0], encode_items(others) + rest);
        parse_items_of_encoding(others, rest);
        assert(seq![items[0]] + others =~= items);
    }
}

/// What was parsed as a value is that value's encoding, the value fits,
/// and what follows it is shorter than what it was read from.
pub proof fn parse_value_sound(b: Seq<u8>)
    ensures
        match parse_value(b) {
            Some((v, rest)) => b == encode_value(v) + rest && value_fits(v) && rest.len()
                < b.len(),
            None => true,
        },
    decreases b.len(), 0nat,
{
    if b.len() > 0 {
        let after = b.skip(1);
        assert(b =~= seq![b[0]] + after);
        if b[0] == TAG_SYMBOL || b[0] == TAG_VERB {
            parse_text_sound(after);
            match parse_text(after) {
                Some((s, rest)) => {
                    if b[0] == TAG_SYMBOL {
                        assert(b =~= encode_value(ValueView::Symbol(s)) + rest);
                    } else {
                        assert(b =~= encode_value(ValueView::Verb(s)) + rest);
                    }
                },
                None => {},
            }
        } else if b[0] == TAG_SCALAR {
            parse_u64_sound(after);
            match parse_u64(after) {
                Some((n, rest)) => {
                    assert((n as i64) as u64 == n) by (bit_vector);
                    assert(b =~= encode_value(ValueView::Scalar(n as i64)) + rest);
                },
                None => {},
            }
        } else if b[0] == TAG_STRUCTURE {
            parse_u64_sound(after);
            match parse_u64(after) {
                Some((count, inner)) => {
                    parse_items_sound(inner, count as nat);
                    match parse_items(inner, count as nat) {
                        Some((items, rest)) => {
                            let v = ValueView::Structure(items);
                            assert(v->Structure_0 == items);
                            encode_structure(items);
                            assert(b =~= encode_value(v) + rest);
                        },
                        None => {},
                    }
                },
                None => {},
            }
        }
    }
}

/// What was parsed as a list of items is that list's encoding, each item
/// fits, and what follows is no longer than what was read.
pub proof fn parse_items_sound(b: Seq<u8>, count: nat)
    ensures
        match parse_items(b, count) {
            Some((items, rest)) => {
                &&& items.len() == count
                &&& b == encode_items(items) + rest
                &&& rest.len() <= b.len()
                &&& forall|i: int| 0 <= i < items.len() ==> value_fits(#[trigger] items[i])
            },
            None => true,
        },
    decreases b.len(), count,
{
    if count == 0 {
        encode_items_step(Seq::empty());
        assert(b =~= encode_items(Seq::empty()) + b);
    } else {
        parse_value_sound(b);
        match parse_value(b) {
            Some((item, after)) => {
                parse_items_sound(after, (count - 1) as nat);
                match parse_items(after, (count - 1) as nat) {
                    Some((others, rest)) => {
                        let items = seq![item] + others;
                        assert(items.skip(1) =~= others);
                        assert(items[0] == item);
                        encode_items_step(items);
                        assert(b =~= encode_items(items) + rest);
                        assert forall|i: int| 0 <= i < items.len() implies value_fits(
                            #[trigger] items[i],
                        ) by {
                            if i > 0 {
                                assert(items[i] == others[i - 1]);
                            }
                        }
                    },
                    None => {},
                }
            },
            None => {},
        }
    }
}

/// Appends the encoding of `v` to `out`.
pub(crate) fn put_value(out: &mut Vec<u8>, v: &AnyValue)
    ensures
        final(out)@ == old(out)@ + encode_value(v@),
        value_fits(v@),
    decreases v,
{
    match v {
        AnyValue::Symbol(symbol) => {
            out.push(TAG_SYMBOL);
            put_text(out, symbol.as_str());
            assert(out@ =~= old(out)@ + encode_value(v@));
        },
        AnyValue::Verb(word) => {
            out.push(TAG_VERB);
            put_text(out, word.as_str());
            assert(out@ =~= old(out)@ + encode_value(v@));
        },
        AnyValue::Scalar(n) => {
            out.push(TAG_SCALAR);
            put_u64(out, *n as u64);
            assert(out@ =~= old(out)@ + encode_value(v@));
        },
        AnyValue::Structure(items) => {
            let ghost kids = views_of(items@);
            proof {
                structure_view(*items);
                encode_structure(kids);
                assert(v@->Structure_0 == kids);
            }
            out.push(TAG_STRUCTURE);
            put_u64(out, items.len() as u64);
            let ghost start = out@;
            assert(start =~= old(out)@ + (seq![TAG_STRUCTURE] + encode_u64(kids.len() as u64)));
            assert(kids.skip(0) =~= kids);
            let mut i: usize = 0;
            while i < items.len()
                invariant
                    0 <= i <= items.len(),
                    *v == AnyValue::Structure(*items),
                    kids == views_of(items@),
                    out@ + encode_items(kids.skip(i as int)) == start + encode_items(kids),
                    forall|j: int| 0 <= j < i ==> value_fits(#[trigger] kids[j]),
                decreases items.len() - i,
            {
                let ghost before = out@;
                let ghost pending = kids.skip(i as int);
                assert(v->Structure_0 == *items);
                put_value(out, &items[i]);
                proof {
                    encode_items_step(pending);
                    assert(pending[0] == items@[i as int]@);
                    assert(pending.skip(1) =~= kids.skip(i + 1));
                    assert(out@ + encode_items(kids.skip(i + 1)) =~= before + encode_items(
                        pending,
                    ));
                }
                i += 1;
            }
            proof {
                encode_items_step(kids.skip(i as int));
                assert(out@ =~= start + encode_items(kids));
                assert(out@ =~= old(out)@ + encode_value(v@));
            }
        },
    }
}

/// Reads one value at `pos`. Hands back the value and the position after
/// it.
pub(crate) fn take_value(bytes: &[u8], pos: usize) -> (r: Option<(AnyValue, usize)>)
    requires
        pos <= bytes.len(),
    ensures
        match r {
            Some((v, next)) => pos < next <= bytes.len() && parse_value(bytes@.skip(pos as int))
                == Some((v@, bytes@.skip(next as int))),
            None => parse_value(bytes@.skip(pos as int)) is None,
        },
    decreases bytes.len() - pos,
{
    if pos >= bytes.len() {
        return None;
    }
    let tag: u8 = bytes[pos];
    let ghost here = bytes@.skip(pos as int);
    assert(here[0] == tag);
    assert(here.skip(1) =~= bytes@.skip(pos + 1));
    if tag == TAG_SYMBOL {
        match take_text(bytes, pos + 1) {
            Some((text, next)) => Some((AnyValue::Symbol(Symbol { text }), next)),
            None => None,
        }
    } else if tag == TAG_VERB {
        match take_text(bytes, pos + 1) {
            Some((text, next)) => Some((AnyValue::Verb(ActiveWord { text }), next)),
            None => None,
        }
    } else if tag == TAG_SCALAR {
        match take_u64(bytes, pos + 1) {
            Some((n, next)) => Some((AnyValue::Scalar(n as i64), next)),
            None => None,
        }
    } else if tag == TAG_STRUCTURE {
        let (count, first) = match take_u64(bytes, pos + 1) {
            Some(found) => found,
            None => { return None; },
        };
        let mut items: Vec<AnyValue> = Vec::new();
        let mut at: usize = first;
        let mut i: u64 = 0;
        let ghost whole = parse_value(here);
        let ghost listed = parse_items(bytes@.skip(first as int), count as nat);
        assert(whole == match listed {
            Some((found, rest)) => Some((ValueView::Structure(found), rest)),
            None => None,
        });
        assert(views_of(items@) =~= Seq::<ValueView>::empty());
        while i < count
            invariant
                0 <= i <= count,
                pos < first <= at <= bytes.len(),
                listed == parse_items(bytes@.skip(first as int), count as nat),
                whole == parse_value(bytes@.skip(pos as int)),
                whole == match listed {
                    Some((found, rest)) => Some((ValueView::Structure(found), rest)),
                    None => None,
                },
                listed == match parse_items(bytes@.skip(at as int), (count - i) as nat) {
                    Some((more, rest)) => Some((views_of(items@) + more, rest)),
                    None => None,
                },
            decreases count - i,
        {
            match take_value(bytes, at) {
                Some((item, next)) => {
                    proof {
                        match parse_items(bytes@.skip(next as int), (count - i - 1) as nat) {
                            Some((more, rest)) => {
                                assert(views_of(items@.push(item)) + more =~= views_of(items@) + (
                                seq![item@] + more));
                            },
                            None => {},
                        }
                    }
                    items.push(item);
                    at = next;
                },
                None => {
                    return None;
                },
            }
            i += 1;
        }
        proof {
            assert(views_of(items@) + Seq::<ValueView>::empty() =~= views_of(items@));
            structure_view(items);
        }
        Some((AnyValue::Structure(items), at))
    } else {
        None
    }
}

} // verus!
