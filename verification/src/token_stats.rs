//! Token ledger records and the statistics derived from them.
use vstd::prelude::*;

verus! {

/// One immutable record of the token ledger: one request/response pair.
#[derive(Debug, Clone)]
pub struct TokenRecord {
    /// When the request was made.
    pub timestamp: jiff::Timestamp,
    /// Local estimate of the tokens sent in the assembled prompt.
    pub tokens_sent: u32,
    /// Tokens received in the response; 0 until the response completes.
    pub tokens_received: u32,
    /// Provider-reported cost in USD, as the bit pattern of an IEEE-754
    /// `f64` (the library only stores it).
    pub cost_bits: Option<u64>,
    /// The concrete model that handled the request.
    pub model_used: Option<String>,
    /// Provider-reported prompt token count, when reported.
    pub prompt_tokens: Option<u32>,
    /// Provider-reported cached prompt tokens, when reported.
    pub cached_tokens: Option<u32>,
}

/// Summary statistics derived from a token ledger.
#[derive(Debug, Clone, Copy, PartialEq, Eq, Structural)]
pub struct TokenStats {
    /// Sum of the local estimates of tokens sent.
    pub total_sent: u64,
    /// Sum of tokens received.
    pub total_received: u64,
    /// Number of request/response pairs.
    pub request_count: u64,
    /// Provider-reported prompt tokens where present, else the estimate.
    pub effective_sent: u64,
    /// Sum of provider-reported prompt tokens over the turns that have one.
    pub measured_sent: u64,
    /// Sum of provider-reported cached tokens.
    pub cached_total: u64,
}

/// The statistics of a ledger, as mathematical integers.
pub struct StatsModel {
    pub total_sent: int,
    pub total_received: int,
    pub request_count: int,
    pub effective_sent: int,
    pub measured_sent: int,
    pub cached_total: int,
}

/// The contribution of one record to the statistics.
pub open spec fn record_model(r: TokenRecord) -> StatsModel {
    StatsModel {
        total_sent: r.tokens_sent as int,
        total_received: r.tokens_received as int,
        request_count: 1,
        effective_sent: match r.prompt_tokens {
            Some(p) => p as int,
            None => r.tokens_sent as int,
        },
        measured_sent: match r.prompt_tokens {
            Some(p) => p as int,
            None => 0,
        },
        cached_total: match r.cached_tokens {
            Some(c) => c as int,
            None => 0,
        },
    }
}

/// The zero statistics.
pub open spec fn zero_model() -> StatsModel {
    StatsModel {
        total_sent: 0,
        total_received: 0,
        request_count: 0,
        effective_sent: 0,
        measured_sent: 0,
        cached_total: 0,
    }
}

/// Field-wise sum of two statistics.
pub open spec fn add_model(a: StatsModel, b: StatsModel) -> StatsModel {
    StatsModel {
        total_sent: a.total_sent + b.total_sent,
        total_received: a.total_received + b.total_received,
        request_count: a.request_count + b.request_count,
        effective_sent: a.effective_sent + b.effective_sent,
        measured_sent: a.measured_sent + b.measured_sent,
        cached_total: a.cached_total + b.cached_total,
    }
}

/// The statistics of a ledger: the sum of its records' contributions.
pub open spec fn ledger_model(records: Seq<TokenRecord>) -> StatsModel
    decreases records.len(),
{
    if records.len() == 0 {
        zero_model()
    } else {
        add_model(ledger_model(records.drop_last()), record_model(records.last()))
    }
}

/// The mathematical value of a `TokenStats`.
pub open spec fn stats_model(s: TokenStats) -> StatsModel {
    StatsModel {
        total_sent: s.total_sent as int,
        total_received: s.total_received as int,
        request_count: s.request_count as int,
        effective_sent: s.effective_sent as int,
        measured_sent: s.measured_sent as int,
        cached_total: s.cached_total as int,
    }
}

/// Each field fits a `u64`.
pub open spec fn fits_u64(m: StatsModel) -> bool {
    &&& m.total_sent <= u64::MAX
    &&& m.total_received <= u64::MAX
    &&& m.request_count <= u64::MAX
    &&& m.effective_sent <= u64::MAX
    &&& m.measured_sent <= u64::MAX
    &&& m.cached_total <= u64::MAX
}

/// Each field of the statistics of `n` records is at most `n` times the
/// largest `u32`.
pub open spec fn model_bounded(m: StatsModel, n: int) -> bool {
    &&& 0 <= m.total_sent <= n * 0xffff_ffff
    &&& 0 <= m.total_received <= n * 0xffff_ffff
    &&& 0 <= m.request_count <= n
    &&& 0 <= m.effective_sent <= n * 0xffff_ffff
    &&& 0 <= m.measured_sent <= n * 0xffff_ffff
    &&& 0 <= m.cached_total <= n * 0xffff_ffff
}

pub proof fn lemma_ledger_bounded(records: Seq<TokenRecord>)
    ensures
        model_bounded(ledger_model(records), records.len() as int),
    decreases records.len(),
{
    if records.len() > 0 {
        lemma_ledger_bounded(records.drop_last());
    }
}

/// Statistics over the records of two ledgers add up.
pub proof fn lemma_ledger_model_append(a: Seq<TokenRecord>, b: Seq<TokenRecord>)
    ensures
        ledger_model(a + b) == add_model(ledger_model(a), ledger_model(b)),
    decreases b.len(),
{
    if b.len() == 0 {
        assert(a + b =~= a);
    } else {
        lemma_ledger_model_append(a, b.drop_last());
        assert((a + b).drop_last() =~= a + b.drop_last());
        assert((a + b).last() == b.last());
    }
}

/// The statistics of a ledger's first `k` records are, field by field, at
/// most those of the whole ledger.
pub proof fn lemma_ledger_prefix_within(records: Seq<TokenRecord>, k: int)
    requires
        0 <= k <= records.len(),
    ensures
        ({
            let p = ledger_model(records.take(k));
            let w = ledger_model(records);
            &&& 0 <= p.total_sent <= w.total_sent
            &&& 0 <= p.total_received <= w.total_received
            &&& 0 <= p.request_count <= w.request_count
            &&& 0 <= p.effective_sent <= w.effective_sent
            &&& 0 <= p.measured_sent <= w.measured_sent
            &&& 0 <= p.cached_total <= w.cached_total
        }),
{
    assert(records.take(k) + records.skip(k) == records);
    lemma_ledger_model_append(records.take(k), records.skip(k));
    lemma_ledger_bounded(records.take(k));
    lemma_ledger_bounded(records.skip(k));
}

/// The sum of the provider-reported prompt counts, over the records that
/// have one.
pub open spec fn reported_prompt_sum(records: Seq<TokenRecord>) -> int
    decreases records.len(),
{
    if records.len() == 0 {
        0
    } else {
        reported_prompt_sum(records.drop_last()) + match records.last().prompt_tokens {
            Some(p) => p as int,
            None => 0,
        }
    }
}

/// The sum of the local estimates, over the records without a
/// provider-reported prompt count.
pub open spec fn unreported_sent_sum(records: Seq<TokenRecord>) -> int
    decreases records.len(),
{
    if records.len() == 0 {
        0
    } else {
        unreported_sent_sum(records.drop_last()) + if records.last().prompt_tokens is None {
            records.last().tokens_sent as int
        } else {
            0
        }
    }
}

/// Each record is one request, and the provider's prompt count wins wherever
/// it is reported: the measured
/// total is the sum of the reported prompt counts, and the effective total
/// is that plus the local estimates of the records without a report. So a
/// single record with a reported count `p` has an effective total of `p`,
/// whatever its local estimate.
pub proof fn lemma_effective_sent_prefers_reports(records: Seq<TokenRecord>)
    ensures
        ledger_model(records).request_count == records.len(),
        ledger_model(records).measured_sent == reported_prompt_sum(records),
        ledger_model(records).effective_sent == reported_prompt_sum(records) + unreported_sent_sum(records),
        records.len() == 1 && records[0].prompt_tokens is Some ==> ledger_model(records).effective_sent
            == records[0].prompt_tokens->0 as int,
    decreases records.len(),
{
    if records.len() > 0 {
        lemma_effective_sent_prefers_reports(records.drop_last());
    }
    if records.len() == 1 {
        assert(records.drop_last().len() == 0);
        assert(records.last() == records[0]);
    }
}

impl TokenStats {
    /// All-zero statistics.
    pub fn zero() -> (s: TokenStats)
        ensures
            stats_model(s) == zero_model(),
    {
        TokenStats {
            total_sent: 0,
            total_received: 0,
            request_count: 0,
            effective_sent: 0,
            measured_sent: 0,
            cached_total: 0,
        }
    }

    /// Derives the statistics of a ledger: each field sums the matching
    /// quantity over all records.
    pub fn from_ledger(records: &[TokenRecord]) -> (s: TokenStats)
        requires
            fits_u64(ledger_model(records@)),
        ensures
            stats_model(s) == ledger_model(records@),
    {
        let mut stats = TokenStats::zero();
        let n = records.len();
        let mut i: usize = 0;
        while i < n
            invariant
                n == records@.len(),
                fits_u64(ledger_model(records@)),
                0 <= i <= n,
                stats_model(stats) == ledger_model(records@.take(i as int)),
            decreases n - i,
        {
            let r = &records[i];
            proof {
                let t = records@.take(i + 1);
                assert(t.drop_last() == records@.take(i as int));
                assert(t.last() == records@[i as int]);
                lemma_ledger_prefix_within(records@, i + 1);
            }
            stats.total_sent = stats.total_sent + r.tokens_sent as u64;
            stats.total_received = stats.total_received + r.tokens_received as u64;
            stats.request_count = stats.request_count + 1;
            let eff: u32 = match r.prompt_tokens {
                Some(p) => p,
                None => r.tokens_sent,
            };
            stats.effective_sent = stats.effective_sent + eff as u64;
            if let Some(p) = r.prompt_tokens {
                stats.measured_sent = stats.measured_sent + p as u64;
            }
            let c: u32 = match r.cached_tokens {
                Some(c) => c,
                None => 0,
            };
            stats.cached_total = stats.cached_total + c as u64;
            i = i + 1;
        }
        assert(records@.take(n as int) == records@);
        stats
    }
}

/// Token statistics of a session and of all its descendant sessions.
#[derive(Debug, Clone, Copy, PartialEq, Eq, Structural)]
pub struct AggregatedTokenStats {
    /// The session's own statistics.
    pub own: TokenStats,
    /// The sum over all descendant sessions.
    pub children: TokenStats,
}

impl AggregatedTokenStats {
    /// Tokens sent by the session and its descendants.
    pub fn total_sent(&self) -> (t: u64)
        requires
            self.own.total_sent + self.children.total_sent <= u64::MAX,
        ensures
            t == self.own.total_sent + self.children.total_sent,
    {
        self.own.total_sent + self.children.total_sent
    }

    /// Tokens received by the session and its descendants.
    pub fn total_received(&self) -> (t: u64)
        requires
            self.own.total_received + self.children.total_received <= u64::MAX,
        ensures
            t == self.own.total_received + self.children.total_received,
    {
        self.own.total_received + self.children.total_received
    }
}

} // verus!
