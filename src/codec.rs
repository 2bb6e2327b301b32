//! A byte encoding of acceptance events: each identifier as an eight-byte little-endian length
//! and its UTF-8 bytes, then the event id, the two times and the reconciliation flag.
use vstd::prelude::*;
use vstd::string::StringSliceAdditionalSpecFns;
use vstd::utf8::{decode_utf8, encode_utf8, encode_utf8_decode_utf8, encode_utf8_valid_utf8, valid_utf8};

use crate::events::OrderAccepted;

verus! {

pub open spec fn pow256(w: nat) -> nat
    decreases w,
{
    if w == 0 { 1 } else { 256 * pow256((w - 1) as nat) }
}

/// The `w` low bytes of `n`, least significant first.
pub open spec fn le_bytes(n: nat, w: nat) -> Seq<u8>
    decreases w,
{
    if w == 0 {
        Seq::empty()
    } else {
        seq![(n % 256) as u8] + le_bytes(n / 256, (w - 1) as nat)
    }
}

/// The number whose bytes, least significant first, are `b`.
pub open spec fn from_le(b: Seq<u8>) -> nat
    decreases b.len(),
{
    if b.len() == 0 { 0 } else { b[0] as nat + 256 * from_le(b.drop_first()) }
}

/// An identifier as its UTF-8 length in eight bytes, then its UTF-8 bytes.
pub open spec fn field(s: Seq<char>) -> Seq<u8> {
    le_bytes(encode_utf8(s).len(), 8) + encode_utf8(s)
}

/// An identifier read from the front of `b`, and the bytes after it.
pub open spec fn parse_field(b: Seq<u8>) -> Option<(Seq<char>, Seq<u8>)> {
    if b.len() < 8 {
        None
    } else {
        let n = from_le(b.subrange(0, 8));
        if b.len() < 8 + n {
            None
        } else {
            let body = b.subrange(8, 8 + n as int);
            if valid_utf8(body) {
                Some((decode_utf8(body), b.subrange(8 + n as int, b.len() as int)))
            } else {
                None
            }
        }
    }
}

/// The fields of an acceptance as plain values.
pub struct AcceptedFields {
    pub trader_id: Seq<char>,
    pub strategy_id: Seq<char>,
    pub instrument_id: Seq<char>,
    pub client_order_id: Seq<char>,
    pub venue_order_id: Seq<char>,
    pub account_id: Seq<char>,
    pub event_id: nat,
    pub ts_event: nat,
    pub ts_init: nat,
    pub reconciliation: bool,
}

pub open spec fn fields_of(a: OrderAccepted) -> AcceptedFields {
    AcceptedFields {
        trader_id: a.trader_id@,
        strategy_id: a.strategy_id@,
        instrument_id: a.instrument_id@,
        client_order_id: a.client_order_id@,
        venue_order_id: a.venue_order_id@,
        account_id: a.account_id@,
        event_id: a.event_id as nat,
        ts_event: a.ts_event as nat,
        ts_init: a.ts_init as nat,
        reconciliation: a.reconciliation,
    }
}

/// The fixed-width end of an encoding: event id, event time, initialization time and flag.
pub open spec fn tail_bytes(a: AcceptedFields) -> Seq<u8> {
    le_bytes(a.event_id, 16) + le_bytes(a.ts_event, 8) + le_bytes(a.ts_init, 8) + seq![
        if a.reconciliation { 1u8 } else { 0u8 },
    ]
}

/// The encoding of an acceptance.
pub open spec fn accepted_bytes(a: AcceptedFields) -> Seq<u8> {
    field(a.trader_id) + (field(a.strategy_id) + (field(a.instrument_id) + (field(
        a.client_order_id,
    ) + (field(a.venue_order_id) + (field(a.account_id) + tail_bytes(a))))))
}

/// The fixed-width tail: event id, event time, initialization time and flag.
pub open spec fn parse_tail(b: Seq<u8>) -> Option<(nat, nat, nat, bool)> {
    if b.len() != 33 || b[32] > 1 {
        None
    } else {
        Some((
            from_le(b.subrange(0, 16)),
            from_le(b.subrange(16, 24)),
            from_le(b.subrange(24, 32)),
            b[32] == 1,
        ))
    }
}

/// The acceptance that `b` encodes, if it encodes one whose identifiers are all non-empty.
pub open spec fn parse_accepted(b: Seq<u8>) -> Option<AcceptedFields> {
    match parse_field(b) {
        None => None,
        Some((t, b1)) => match parse_field(b1) {
            None => None,
            Some((s, b2)) => match parse_field(b2) {
                None => None,
                Some((i, b3)) => match parse_field(b3) {
                    None => None,
                    Some((c, b4)) => match parse_field(b4) {
                        None => None,
                        Some((v, b5)) => match parse_field(b5) {
                            None => None,
                            Some((a, b6)) => match parse_tail(b6) {
                                None => None,
                                Some((e, te, ti, r)) => if t.len() == 0 || s.len() == 0
                                    || i.len() == 0 || c.len() == 0 || v.len() == 0 || a.len()
                                    == 0 {
                                    None
                                } else {
                                    Some(
                                        AcceptedFields {
                                            trader_id: t,
                                            strategy_id: s,
                                            instrument_id: i,
                                            client_order_id: c,
                                            venue_order_id: v,
                                            account_id: a,
                                            event_id: e,
                                            ts_event: te,
                                            ts_init: ti,
                                            reconciliation: r,
                                        },
                                    )
                                },
                            },
                        },
                    },
                },
            },
        },
    }
}

proof fn lemma_le_len(n: nat, w: nat)
    ensures
        le_bytes(n, w).len() == w,
    decreases w,
{
    if w > 0 {
        lemma_le_len(n / 256, (w - 1) as nat);
    }
}

proof fn lemma_le_round(n: nat, w: nat)
    requires
        n < pow256(w),
    ensures
        from_le(le_bytes(n, w)) == n,
    decreases w,
{
    if w > 0 {
        lemma_le_round(n / 256, (w - 1) as nat);
        assert(le_bytes(n, w).drop_first() =~= le_bytes(n / 256, (w - 1) as nat));
    }
}

proof fn lemma_from_le_bound(b: Seq<u8>)
    ensures
        from_le(b) < pow256(b.len()),
    decreases b.len(),
{
    if b.len() > 0 {
        lemma_from_le_bound(b.drop_first());
    }
}

proof fn lemma_pow256_mono(v: nat, w: nat)
    requires
        v <= w,
    ensures
        pow256(v) <= pow256(w),
    decreases w,
{
    if v < w {
        lemma_pow256_mono(v, (w - 1) as nat);
    }
}

proof fn lemma_parse_field(s: Seq<char>, rest: Seq<u8>)
    requires
        encode_utf8(s).len() < pow256(8),
    ensures
        parse_field(field(s) + rest) == Some((s, rest)),
{
    let e = encode_utf8(s);
    let b = field(s) + rest;
    lemma_le_len(e.len(), 8);
    lemma_le_round(e.len(), 8);
    assert(b.subrange(0, 8) =~= le_bytes(e.len(), 8));
    assert(b.subrange(8, 8 + e.len() as int) =~= e);
    assert(b.subrange(8 + e.len() as int, b.len() as int) =~= rest);
    encode_utf8_valid_utf8(s);
    encode_utf8_decode_utf8(s);
}

proof fn lemma_fields_round_trip(a: AcceptedFields)
    requires
        a.trader_id.len() > 0,
        a.strategy_id.len() > 0,
        a.instrument_id.len() > 0,
        a.client_order_id.len() > 0,
        a.venue_order_id.len() > 0,
        a.account_id.len() > 0,
        encode_utf8(a.trader_id).len() < pow256(8),
        encode_utf8(a.strategy_id).len() < pow256(8),
        encode_utf8(a.instrument_id).len() < pow256(8),
        encode_utf8(a.client_order_id).len() < pow256(8),
        encode_utf8(a.venue_order_id).len() < pow256(8),
        encode_utf8(a.account_id).len() < pow256(8),
        a.event_id < pow256(16),
        a.ts_event < pow256(8),
        a.ts_init < pow256(8),
    ensures
        parse_accepted(accepted_bytes(a)) == Some(a),
{
    let tail = tail_bytes(a);
    let b6 = tail;
    let b5 = field(a.account_id) + b6;
    let b4 = field(a.venue_order_id) + b5;
    let b3 = field(a.client_order_id) + b4;
    let b2 = field(a.instrument_id) + b3;
    let b1 = field(a.strategy_id) + b2;
    lemma_parse_field(a.trader_id, b1);
    lemma_parse_field(a.strategy_id, b2);
    lemma_parse_field(a.instrument_id, b3);
    lemma_parse_field(a.client_order_id, b4);
    lemma_parse_field(a.venue_order_id, b5);
    lemma_parse_field(a.account_id, b6);
    lemma_parse_tail(a);
}

proof fn lemma_parse_tail(a: AcceptedFields)
    requires
        a.event_id < pow256(16),
        a.ts_event < pow256(8),
        a.ts_init < pow256(8),
    ensures
        parse_tail(tail_bytes(a)) == Some((a.event_id, a.ts_event, a.ts_init, a.reconciliation)),
{
    let tail = tail_bytes(a);
    lemma_le_len(a.event_id, 16);
    lemma_le_len(a.ts_event, 8);
    lemma_le_len(a.ts_init, 8);
    lemma_le_round(a.event_id, 16);
    lemma_le_round(a.ts_event, 8);
    lemma_le_round(a.ts_init, 8);
    assert(tail.subrange(0, 16) =~= le_bytes(a.event_id, 16));
    assert(tail.subrange(16, 24) =~= le_bytes(a.ts_event, 8));
    assert(tail.subrange(24, 32) =~= le_bytes(a.ts_init, 8));
}

/// Decoding the encoding of an acceptance whose identifiers are all non-empty gives back every
/// field.
pub proof fn lemma_accepted_round_trip(a: OrderAccepted)
    requires
        a.trader_id@.len() > 0,
        a.strategy_id@.len() > 0,
        a.instrument_id@.len() > 0,
        a.client_order_id@.len() > 0,
        a.venue_order_id@.len() > 0,
        a.account_id@.len() > 0,
        encode_utf8(a.trader_id@).len() < pow256(8),
        encode_utf8(a.strategy_id@).len() < pow256(8),
        encode_utf8(a.instrument_id@).len() < pow256(8),
        encode_utf8(a.client_order_id@).len() < pow256(8),
        encode_utf8(a.venue_order_id@).len() < pow256(8),
        encode_utf8(a.account_id@).len() < pow256(8),
    ensures
        parse_accepted(accepted_bytes(fields_of(a))) == Some(fields_of(a)),
{
    lemma_pow256_values();
    lemma_fields_round_trip(fields_of(a));
}

fn push_le(out: &mut Vec<u8>, n: u128, w: usize)
    ensures
        final(out)@ == old(out)@ + le_bytes(n as nat, w as nat),
    decreases w,
{
    if w > 0 {
        let ghost start = out@;
        out.push((n % 256) as u8);
        push_le(out, n / 256, w - 1);
        assert(final(out)@ =~= start + le_bytes(n as nat, w as nat));
    }
}

proof fn lemma_pow256_values()
    ensures
        pow256(8) == 0x1_0000_0000_0000_0000,
        pow256(15) == 0x1_0000_0000_0000_0000_0000_0000_0000_00,
        pow256(16) == 0x1_0000_0000_0000_0000_0000_0000_0000_0000,
{
    reveal_with_fuel(pow256, 17);
}

fn push_field(out: &mut Vec<u8>, s: &String)
    ensures
        final(out)@ == old(out)@ + field(s@),
        encode_utf8(s@).len() < pow256(8),
{
    let bytes = s.as_str().as_bytes();
    let n = bytes.len();
    proof {
        lemma_pow256_values();
    }
    let ghost start = out@;
    push_le(out, n as u128, 8);
    let ghost mid = out@;
    let mut i: usize = 0;
    while i < n
        invariant
            i <= n == bytes@.len(),
            bytes@ == encode_utf8(s@),
            out@ == mid + bytes@.subrange(0, i as int),
        decreases n - i,
    {
        out.push(bytes[i]);
        i += 1;
        assert(out@ =~= mid + bytes@.subrange(0, i as int));
    }
    assert(bytes@.subrange(0, n as int) =~= bytes@);
    assert(out@ =~= start + field(s@));
}

/// Relies on std's `String::from_utf8`: it succeeds exactly on valid UTF-8, and the string's
/// UTF-8 bytes are the input.
#[verifier::external_body]
fn utf8_string(bytes: Vec<u8>) -> (r: Option<String>)
    ensures
        r is Some <==> valid_utf8(bytes@),
        r matches Some(s) ==> encode_utf8(s@) == bytes@,
{
    String::from_utf8(bytes).ok()
}

fn read_le(b: &Vec<u8>, pos: usize, w: usize) -> (r: u128)
    requires
        pos + w <= b@.len() <= usize::MAX,
        w <= 16,
    ensures
        r as nat == from_le(b@.subrange(pos as int, pos + w)),
    decreases w,
{
    if w == 0 {
        0
    } else {
        let rest = read_le(b, pos + 1, w - 1);
        proof {
            assert(b@.subrange(pos as int, pos + w).drop_first() =~= b@.subrange(
                pos + 1,
                pos + w,
            ));
            lemma_from_le_bound(b@.subrange(pos + 1, pos + w));
            lemma_pow256_mono((w - 1) as nat, 15);
            lemma_pow256_values();
        }
        b[pos] as u128 + 256 * rest
    }
}

fn read_field(b: &Vec<u8>, pos: usize) -> (r: Option<(String, usize)>)
    requires
        pos <= b@.len(),
    ensures
        match (r, parse_field(b@.subrange(pos as int, b@.len() as int))) {
            (Some((s, p)), Some((v, rest))) => s@ == v && pos <= p <= b@.len() && b@.subrange(
                p as int,
                b@.len() as int,
            ) == rest,
            (None, None) => true,
            _ => false,
        },
{
    let ghost t = b@.subrange(pos as int, b@.len() as int);
    let len = b.len();
    if len - pos < 8 {
        return None;
    }
    let n = read_le(b, pos, 8);
    assert(t.subrange(0, 8) =~= b@.subrange(pos as int, pos + 8));
    if n > (b.len() - pos - 8) as u128 {
        return None;
    }
    let n = n as usize;
    let start = pos + 8;
    let mut body: Vec<u8> = Vec::new();
    let mut i: usize = 0;
    while i < n
        invariant
            i <= n,
            start + n <= b@.len() <= usize::MAX,
            body@ == b@.subrange(start as int, start + i),
        decreases n - i,
    {
        body.push(b[start + i]);
        i += 1;
        assert(body@ =~= b@.subrange(start as int, start + i));
    }
    assert(t.subrange(8, 8 + n) =~= body@);
    assert(t.subrange(8 + n, t.len() as int) =~= b@.subrange(start + n, b@.len() as int));
    match utf8_string(body) {
        Some(s) => {
            proof {
                encode_utf8_decode_utf8(s@);
            }
            Some((s, start + n))
        },
        None => None,
    }
}

impl OrderAccepted {
    /// The byte encoding of this acceptance.
    #[verifier::rlimit(100)]
    pub fn encode(&self) -> (r: Vec<u8>)
        ensures
            r@ == accepted_bytes(fields_of(*self)),
            encode_utf8(self.trader_id@).len() < pow256(8),
            encode_utf8(self.strategy_id@).len() < pow256(8),
            encode_utf8(self.instrument_id@).len() < pow256(8),
            encode_utf8(self.client_order_id@).len() < pow256(8),
            encode_utf8(self.venue_order_id@).len() < pow256(8),
            encode_utf8(self.account_id@).len() < pow256(8),
    {
        let mut out: Vec<u8> = Vec::new();
        push_field(&mut out, &self.trader_id);
        push_field(&mut out, &self.strategy_id);
        push_field(&mut out, &self.instrument_id);
        push_field(&mut out, &self.client_order_id);
        push_field(&mut out, &self.venue_order_id);
        push_field(&mut out, &self.account_id);
        push_le(&mut out, self.event_id, 16);
        push_le(&mut out, self.ts_event as u128, 8);
        push_le(&mut out, self.ts_init as u128, 8);
        out.push(if self.reconciliation { 1u8 } else { 0u8 });
        let ghost f = fields_of(*self);
        assert(out@ =~= accepted_bytes(f));
        out
    }

    /// The acceptance that `b` encodes; none when `b` is no encoding of one whose identifiers are
    /// all non-empty.
    #[verifier::rlimit(100)]
    pub fn decode(b: &Vec<u8>) -> (r: Option<OrderAccepted>)
        ensures
            match (r, parse_accepted(b@)) {
                (Some(a), Some(f)) => fields_of(a) == f,
                (None, None) => true,
                _ => false,
            },
    {
        assert(b@.subrange(0, b@.len() as int) =~= b@);
        let (trader_id, at_strategy) = match read_field(b, 0) {
            Some(x) => x,
            None => {
                return None;
            },
        };
        let (strategy_id, at_instrument) = match read_field(b, at_strategy) {
            Some(x) => x,
            None => {
                return None;
            },
        };
        let (instrument_id, at_client) = match read_field(b, at_instrument) {
            Some(x) => x,
            None => {
                return None;
            },
        };
        let (client_order_id, at_venue) = match read_field(b, at_client) {
            Some(x) => x,
            None => {
                return None;
            },
        };
        let (venue_order_id, at_account) = match read_field(b, at_venue) {
            Some(x) => x,
            None => {
                return None;
            },
        };
        let (account_id, at_tail) = match read_field(b, at_account) {
            Some(x) => x,
            None => {
                return None;
            },
        };
        let ghost t = b@.subrange(at_tail as int, b@.len() as int);
        if b.len() - at_tail != 33 || b[at_tail + 32] > 1 {
            return None;
        }
        let event_id = read_le(b, at_tail, 16);
        let ts_event = read_le(b, at_tail + 16, 8);
        let ts_init = read_le(b, at_tail + 24, 8);
        proof {
            assert(t.subrange(0, 16) =~= b@.subrange(at_tail as int, at_tail + 16));
            assert(t.subrange(16, 24) =~= b@.subrange(at_tail + 16, at_tail + 24));
            assert(t.subrange(24, 32) =~= b@.subrange(at_tail + 24, at_tail + 32));
            lemma_from_le_bound(t.subrange(16, 24));
            lemma_from_le_bound(t.subrange(24, 32));
            lemma_pow256_values();
        }
        let reconciliation = b[at_tail + 32] == 1;
        match OrderAccepted::new(
            trader_id,
            strategy_id,
            instrument_id,
            client_order_id,
            venue_order_id,
            account_id,
            event_id,
            ts_event as u64,
            ts_init as u64,
            reconciliation,
        ) {
            Ok(a) => Some(a),
            Err(_) => None,
        }
    }
}

} // verus!
