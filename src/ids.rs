//! Generation of client order and order list identifiers from the trader, the strategy, a counter and a clock.
use vstd::prelude::*;
use vstd::string::StrSliceExecFns;

use crate::calendar::{civil_date, date_of, NANOS_PER_HOUR, NANOS_PER_MINUTE};
use crate::render::{decimal, padded, push_decimal, push_padded};

verus! {

/// A client order identifier: prefix `O`.
pub open spec fn client_order_id_text(
    ts: nat,
    trader_tag: Seq<char>,
    strategy_tag: Seq<char>,
    count: nat,
) -> Seq<char> {
    stamped_id("O"@, ts, trader_tag, strategy_tag, count)
}

/// An order list identifier: prefix `OL`.
pub open spec fn order_list_id_text(
    ts: nat,
    trader_tag: Seq<char>,
    strategy_tag: Seq<char>,
    count: nat,
) -> Seq<char> {
    stamped_id("OL"@, ts, trader_tag, strategy_tag, count)
}

/// The characters after the last dash of `s`; all of `s` when it holds none.
pub open spec fn tag_of(s: Seq<char>) -> Seq<char>
    decreases s.len(),
{
    if s.len() == 0 || s.last() == '-' {
        Seq::empty()
    } else {
        tag_of(s.drop_last()).push(s.last())
    }
}

/// The identifier numbered `count`, created at nanosecond `ts`, for the given tags:
/// `<prefix>-YYYYMMDD-HHMM-<trader tag>-<strategy tag>-<count>` in UTC.
pub open spec fn stamped_id(
    prefix: Seq<char>,
    ts: nat,
    trader_tag: Seq<char>,
    strategy_tag: Seq<char>,
    count: nat,
) -> Seq<char> {
    let date = civil_date(ts);
    prefix + "-"@ + padded(date.0, 4) + padded(date.1, 2) + padded(date.2, 2) + "-"@ + padded(
        (ts / (NANOS_PER_HOUR as nat)) % 24,
        2,
    ) + padded((ts / (NANOS_PER_MINUTE as nat)) % 60, 2) + "-"@ + trader_tag + "-"@
        + strategy_tag + "-"@ + decimal(count)
}

proof fn lemma_tag_after(s: Seq<char>, k: int)
    requires
        -1 <= k < s.len(),
        k == -1 || s[k] == '-',
        forall|j: int| k < j < s.len() ==> s[j] != '-',
    ensures
        tag_of(s) == s.subrange(k + 1, s.len() as int),
    decreases s.len(),
{
    if s.len() == 0 || s.last() == '-' {
        assert(s.subrange(k + 1, s.len() as int) =~= Seq::<char>::empty());
    } else {
        lemma_tag_after(s.drop_last(), k);
        assert(s.subrange(k + 1, s.len() as int) =~= s.drop_last().subrange(
            k + 1,
            s.len() - 1,
        ).push(s.last()));
    }
}

/// The characters after the last dash of `s`; all of `s` when it holds none.
pub fn tag(s: &str) -> (r: String)
    ensures
        r@ == tag_of(s@),
{
    let n = s.unicode_len();
    let mut i: usize = n;
    while i > 0 && s.get_char(i - 1) != '-'
        invariant
            i <= n == s@.len(),
            forall|j: int| i <= j < n ==> s@[j] != '-',
        decreases i,
    {
        i = i - 1;
    }
    proof {
        lemma_tag_after(s@, i - 1);
    }
    String::from_str(s.substring_char(i, n))
}

fn stamp(prefix: &str, ts: u64, trader_tag: &String, strategy_tag: &String, count: u64) -> (r: String)
    ensures
        r@ == stamped_id(prefix@, ts as nat, trader_tag@, strategy_tag@, count as nat),
{
    let date = date_of(ts);
    proof {
        reveal_strlit("-");
    }
    let mut out = String::from_str(prefix);
    out.append("-");
    push_padded(&mut out, date.0, 4);
    push_padded(&mut out, date.1, 2);
    push_padded(&mut out, date.2, 2);
    out.append("-");
    push_padded(&mut out, (ts / NANOS_PER_HOUR) % 24, 2);
    push_padded(&mut out, (ts / NANOS_PER_MINUTE) % 60, 2);
    out.append("-");
    out.append(trader_tag.as_str());
    out.append("-");
    out.append(strategy_tag.as_str());
    out.append("-");
    push_decimal(&mut out, count);
    out
}

/// The abstract state of a generator.
pub struct GeneratorState {
    pub trader_tag: Seq<char>,
    pub strategy_tag: Seq<char>,
    /// The number of the identifier last handed out.
    pub count: nat,
}

/// Hands out client order identifiers numbered one after another.
pub struct ClientOrderIdGenerator {
    trader_tag: String,
    strategy_tag: String,
    count: u64,
}

impl View for ClientOrderIdGenerator {
    type V = GeneratorState;

    closed spec fn view(&self) -> GeneratorState {
        GeneratorState {
            trader_tag: self.trader_tag@,
            strategy_tag: self.strategy_tag@,
            count: self.count as nat,
        }
    }
}

impl ClientOrderIdGenerator {
    /// A generator for the trader and strategy, whose next identifier is numbered
    /// `initial_count + 1`.
    pub fn new(trader_id: &str, strategy_id: &str, initial_count: u64) -> (r: Self)
        ensures
            r@ == (GeneratorState {
                trader_tag: tag_of(trader_id@),
                strategy_tag: tag_of(strategy_id@),
                count: initial_count as nat,
            }),
    {
        ClientOrderIdGenerator {
            trader_tag: tag(trader_id),
            strategy_tag: tag(strategy_id),
            count: initial_count,
        }
    }

    /// The number of the identifier last handed out.
    pub fn count(&self) -> (r: u64)
        ensures
            r == self@.count,
    {
        self.count
    }

    /// The next identifier, stamped with the time `ts_init`.
    pub fn generate(&mut self, ts_init: u64) -> (r: String)
        requires
            old(self)@.count < u64::MAX,
        ensures
            final(self)@ == (GeneratorState { count: old(self)@.count + 1, ..old(self)@ }),
            r@ == client_order_id_text(
                ts_init as nat,
                old(self)@.trader_tag,
                old(self)@.strategy_tag,
                old(self)@.count + 1,
            ),
    {
        self.count = self.count + 1;
        proof {
            reveal_strlit("O");
        }
        stamp("O", ts_init, &self.trader_tag, &self.strategy_tag, self.count)
    }
}

/// Hands out order list identifiers, for contingent orders, numbered one after another.
pub struct OrderListIdGenerator {
    trader_tag: String,
    strategy_tag: String,
    count: u64,
}

impl View for OrderListIdGenerator {
    type V = GeneratorState;

    closed spec fn view(&self) -> GeneratorState {
        GeneratorState {
            trader_tag: self.trader_tag@,
            strategy_tag: self.strategy_tag@,
            count: self.count as nat,
        }
    }
}

impl OrderListIdGenerator {
    /// A generator for the trader and strategy, whose next identifier is numbered
    /// `initial_count + 1`.
    pub fn new(trader_id: &str, strategy_id: &str, initial_count: u64) -> (r: Self)
        ensures
            r@ == (GeneratorState {
                trader_tag: tag_of(trader_id@),
                strategy_tag: tag_of(strategy_id@),
                count: initial_count as nat,
            }),
    {
        OrderListIdGenerator {
            trader_tag: tag(trader_id),
            strategy_tag: tag(strategy_id),
            count: initial_count,
        }
    }

    /// The number of the identifier last handed out.
    pub fn count(&self) -> (r: u64)
        ensures
            r == self@.count,
    {
        self.count
    }

    /// The next identifier, stamped with the time `ts_init`.
    pub fn generate(&mut self, ts_init: u64) -> (r: String)
        requires
            old(self)@.count < u64::MAX,
        ensures
            final(self)@ == (GeneratorState { count: old(self)@.count + 1, ..old(self)@ }),
            r@ == order_list_id_text(
                ts_init as nat,
                old(self)@.trader_tag,
                old(self)@.strategy_tag,
                old(self)@.count + 1,
            ),
    {
        self.count = self.count + 1;
        proof {
            reveal_strlit("OL");
        }
        stamp("OL", ts_init, &self.trader_tag, &self.strategy_tag, self.count)
    }
}

} // verus!
