//! The daily usage ledger: one record per date with the amount spent that
//! day, kept for the retention period.
//!
//! Amounts are `f64` values that the library carries as their bit
//! patterns; it decides where they go and never computes with them.

use vstd::prelude::*;
use crate::calendar::{date_days, parse_ledger_date, LocalDay, RETENTION_DAYS};

verus! {

/// One day's usage: the date in the ledger's form and the bit pattern of
/// the amount spent.
#[derive(Clone, Debug)]
pub struct UsageRecord {
    pub date: String,
    pub amount_bits: u64,
}

impl UsageRecord {
    /// A copy of the record.
    pub fn duplicate(&self) -> (r: UsageRecord)
        ensures
            r == *self,
    {
        UsageRecord { date: self.date.clone(), amount_bits: self.amount_bits }
    }
}

/// The position of the first record dated `day`, or `s.len()` where no
/// record is.
pub open spec fn first_on(s: Seq<UsageRecord>, day: Seq<char>) -> int
    decreases s.len(),
{
    if s.len() == 0 {
        0
    } else {
        let p = first_on(s.drop_last(), day);
        if p < s.len() - 1 {
            p
        } else if s.last().date@ == day {
            s.len() - 1
        } else {
            s.len() as int
        }
    }
}

/// The amount recorded for `day`: that of its first record, if any.
pub open spec fn amount_on(s: Seq<UsageRecord>, day: Seq<char>) -> Option<u64> {
    let p = first_on(s, day);
    if p < s.len() {
        Some(s[p].amount_bits)
    } else {
        None
    }
}

/// The records after `day`'s amount is set to `amount_bits`: the first
/// record of that day takes the amount, or a record for the day is
/// appended where none was.
pub open spec fn with_day_amount(s: Seq<UsageRecord>, day: String, amount_bits: u64) -> Seq<
    UsageRecord,
> {
    let p = first_on(s, day@);
    if p < s.len() {
        s.update(p, UsageRecord { date: s[p].date, amount_bits })
    } else {
        s.push(UsageRecord { date: day, amount_bits })
    }
}

/// Whether a record dated `date` is kept with the oldest kept day
/// `cutoff`: its date must read as a day no older than that.
pub open spec fn is_kept(date: Seq<char>, cutoff: int) -> bool {
    match date_days(date) {
        Some(d) => d >= cutoff,
        None => false,
    }
}

/// The test that pruning at `cutoff` applies to each record.
pub open spec fn keeps(cutoff: int) -> spec_fn(UsageRecord) -> bool {
    |r: UsageRecord| is_kept(r.date@, cutoff)
}

/// The records that pruning at `cutoff` keeps, in their order.
pub open spec fn kept_since(s: Seq<UsageRecord>, cutoff: int) -> Seq<UsageRecord> {
    s.filter(keeps(cutoff))
}

/// No two records share a date.
pub open spec fn distinct_dates(s: Seq<UsageRecord>) -> bool {
    forall|i: int, j: int| 0 <= i < j < s.len() ==> s[i].date@ != s[j].date@
}

/// What `first_on` is: the least position of a record dated `day`, or the
/// length where there is none.
pub proof fn lemma_first_on(s: Seq<UsageRecord>, day: Seq<char>)
    ensures
        0 <= first_on(s, day) <= s.len(),
        first_on(s, day) < s.len() ==> s[first_on(s, day)].date@ == day,
        forall|j: int| 0 <= j < first_on(s, day) ==> s[j].date@ != day,
    decreases s.len(),
{
    if s.len() > 0 {
        lemma_first_on(s.drop_last(), day);
        assert forall|j: int| 0 <= j < first_on(s, day) implies s[j].date@ != day by {
            if j < s.len() - 1 {
                assert(s.drop_last()[j] == s[j]);
            }
        }
    }
}

/// The usage ledger.
#[derive(Clone, Debug)]
pub struct Ledger {
    records: Vec<UsageRecord>,
}

impl View for Ledger {
    type V = Seq<UsageRecord>;

    closed spec fn view(&self) -> Seq<UsageRecord> {
        self.records@
    }
}

impl Ledger {
    /// An empty ledger.
    pub fn new() -> (l: Ledger)
        ensures
            l@ == Seq::<UsageRecord>::empty(),
    {
        Ledger { records: Vec::new() }
    }

    /// The ledger holding `records`, in their order.
    pub fn from_records(records: Vec<UsageRecord>) -> (l: Ledger)
        ensures
            l@ == records@,
    {
        Ledger { records }
    }

    /// Takes up the ledger at start-up from what reading and parsing the
    /// ledger file gave, if the file existed and both succeeded: those
    /// records, else an empty ledger.
    pub fn load(stored: Option<Vec<UsageRecord>>) -> (l: Ledger)
        ensures
            stored is Some ==> l@ == stored->0@,
            stored is None ==> l@ == Seq::<UsageRecord>::empty(),
    {
        match stored {
            Some(records) => Ledger { records },
            None => Ledger::new(),
        }
    }

    /// The records, in their order.
    pub fn records(&self) -> (r: &Vec<UsageRecord>)
        ensures
            r@ == self@,
    {
        &self.records
    }

    /// The position of the first record dated `day`, if any.
    pub fn find_day(&self, day: &String) -> (r: Option<usize>)
        ensures
            match r {
                Some(i) => i < self@.len() && i as int == first_on(self@, day@),
                None => first_on(self@, day@) == self@.len(),
            },
    {
        proof {
            lemma_first_on(self@, day@);
        }
        let n = self.records.len();
        let mut i: usize = 0;
        while i < n
            invariant
                n == self@.len(),
                0 <= i <= n,
                first_on(self@, day@) >= i,
                forall|j: int| 0 <= j < i ==> self@[j].date@ != day@,
                0 <= first_on(self@, day@) <= self@.len(),
                first_on(self@, day@) < self@.len() ==> self@[first_on(self@, day@)].date@ == day@,
            decreases n - i,
        {
            if self.records[i].date == *day {
                proof {
                    lemma_first_on_unique(self@, day@, i as int);
                }
                return Some(i);
            }
            i = i + 1;
        }
        None
    }

    /// The amount recorded for `day`, if any.
    pub fn amount_on(&self, day: &String) -> (r: Option<u64>)
        ensures
            r == amount_on(self@, day@),
    {
        proof {
            lemma_first_on(self@, day@);
        }
        match self.find_day(day) {
            Some(i) => {
                Some(self.records[i].amount_bits)
            },
            None => {
                None
            },
        }
    }

    /// Sets `day`'s amount to `amount_bits`: its first record takes the
    /// amount, or a record for the day is appended.
    pub fn set_day_amount(&mut self, day: String, amount_bits: u64)
        ensures
            final(self)@ == with_day_amount(old(self)@, day, amount_bits),
    {
        proof {
            lemma_first_on(self@, day@);
        }
        match self.find_day(&day) {
            Some(i) => {
                let date = self.records[i].date.clone();
                self.records.set(i, UsageRecord { date, amount_bits });
            },
            None => {
                self.records.push(UsageRecord { date: day, amount_bits });
            },
        }
    }

    /// Drops the records whose date is older than the day `cutoff` or does
    /// not read as a date; the rest keep their order.
    pub fn prune(&mut self, cutoff: i64)
        ensures
            final(self)@ == kept_since(old(self)@, cutoff as int),
    {
        let ghost s = self@;
        let mut kept: Vec<UsageRecord> = Vec::new();
        let n = self.records.len();
        let mut i: usize = 0;
        while i < n
            invariant
                n == s.len(),
                s == self@,
                0 <= i <= n,
                kept@ == s.take(i as int).filter(keeps(cutoff as int)),
            decreases n - i,
        {
            proof {
                assert(s.take(i + 1) == s.take(i as int).push(s[i as int]));
                s.take(i as int).lemma_filter_push(s[i as int], keeps(cutoff as int));
            }
            let parsed = parse_ledger_date(self.records[i].date.as_str());
            let keep = match parsed {
                Some(d) => d as i64 >= cutoff,
                None => false,
            };
            assert(keep == keeps(cutoff as int)(s[i as int]));
            if keep {
                kept.push(self.records[i].duplicate());
            }
            i = i + 1;
        }
        proof {
            assert(s.take(n as int) == s);
        }
        self.records = kept;
    }

    /// Records a drop in balance on `day`: the day's amount becomes
    /// `amount_bits` (the day's earlier amount plus the drop, or the drop
    /// alone on a day's first drop), then the records older than `cutoff`
    /// are dropped. Gives the day's amount as it stood before pruning.
    pub fn record_usage(&mut self, day: String, amount_bits: u64, cutoff: i64) -> (today_bits: u64)
        ensures
            final(self)@ == kept_since(with_day_amount(old(self)@, day, amount_bits), cutoff as int),
            is_kept(day@, cutoff as int) ==> amount_on(final(self)@, day@) == Some(amount_bits),
            today_bits == amount_bits,
    {
        self.set_day_amount(day.clone(), amount_bits);
        let today = self.amount_on(&day);
        proof {
            law_recorded_amount_read_back(old(self)@, day, amount_bits);
        }
        self.prune(cutoff);
        proof {
            if is_kept(day@, cutoff as int) {
                law_recorded_usage_read_back(old(self)@, day, amount_bits, cutoff as int);
            }
        }
        match today {
            Some(bits) => bits,
            None => amount_bits,
        }
    }

    /// Records a drop in balance on the local date `today`, read from the
    /// clock once, as `record_usage` does with the oldest kept day the
    /// retention period before it. Today's record survives the pruning,
    /// and where no two records shared a date, today has exactly one.
    pub fn record_usage_today(&mut self, today: &LocalDay, amount_bits: u64) -> (today_bits: u64)
        ensures
            final(self)@ == kept_since(
                with_day_amount(old(self)@, today.date(), amount_bits),
                today.day_number() - RETENTION_DAYS,
            ),
            amount_on(final(self)@, today.date()@) == Some(amount_bits),
            distinct_dates(old(self)@) ==> distinct_dates(final(self)@) && one_record_on(
                final(self)@,
                today.date()@,
            ),
            today_bits == amount_bits,
    {
        let day = today.text().clone();
        let cutoff = today.cutoff();
        let r = self.record_usage(day, amount_bits, cutoff);
        proof {
            let t = with_day_amount(old(self)@, today.date(), amount_bits);
            assert(is_kept(today.date()@, cutoff as int));
            if distinct_dates(old(self)@) {
                law_dates_stay_distinct(old(self)@, today.date(), amount_bits);
                law_prune_keeps_dates_distinct(t, cutoff as int);
                law_one_record_for_recorded_day(self@, today.date()@);
            }
        }
        r
    }
}

/// Exactly one record is dated `day`.
pub open spec fn one_record_on(s: Seq<UsageRecord>, day: Seq<char>) -> bool {
    exists|i: int|
        0 <= i < s.len() && #[trigger] s[i].date@ == day && forall|j: int|
            0 <= j < s.len() && j != i ==> s[j].date@ != day
}

/// Where no two records share a date, a day with an amount has exactly
/// one record.
pub proof fn law_one_record_for_recorded_day(s: Seq<UsageRecord>, day: Seq<char>)
    requires
        distinct_dates(s),
        amount_on(s, day) is Some,
    ensures
        one_record_on(s, day),
{
    lemma_first_on(s, day);
    let p = first_on(s, day);
    assert forall|j: int| 0 <= j < s.len() && j != p implies s[j].date@ != day by {
        if j < p {
        } else {
            assert(s[p].date@ != s[j].date@);
        }
    }
    assert(s[p].date@ == day);
}

/// Read after write: once a day's amount is set, the ledger gives that
/// amount for the day.
pub proof fn law_recorded_amount_read_back(s: Seq<UsageRecord>, day: String, amount_bits: u64)
    ensures
        amount_on(with_day_amount(s, day, amount_bits), day@) == Some(amount_bits),
{
    let t = with_day_amount(s, day, amount_bits);
    lemma_first_on(s, day@);
    let p = first_on(s, day@);
    assert forall|j: int| 0 <= j < p implies t[j].date@ != day@ by {
        assert(t[j] == s[j]);
    }
    lemma_first_on_unique(t, day@, p);
}

/// `first_on` is the only position with its defining property.
pub proof fn lemma_first_on_unique(s: Seq<UsageRecord>, day: Seq<char>, q: int)
    requires
        0 <= q <= s.len(),
        q < s.len() ==> s[q].date@ == day,
        forall|j: int| 0 <= j < q ==> s[j].date@ != day,
    ensures
        first_on(s, day) == q,
{
    lemma_first_on(s, day);
}


/// Setting one day's amount leaves every other day's amount as it was.
pub proof fn law_other_days_untouched(
    s: Seq<UsageRecord>,
    day: String,
    other: Seq<char>,
    amount_bits: u64,
)
    requires
        other != day@,
    ensures
        amount_on(with_day_amount(s, day, amount_bits), other) == amount_on(s, other),
{
    let t = with_day_amount(s, day, amount_bits);
    lemma_first_on(s, day@);
    lemma_first_on(s, other);
    let p = first_on(s, day@);
    let q = first_on(s, other);
    assert forall|j: int| 0 <= j < t.len() && j < s.len() implies t[j].date@ == s[j].date@ by {}
    if q < s.len() {
        assert(q != p);
        assert(t[q] == s[q]);
        lemma_first_on_unique(t, other, q);
    } else {
        assert forall|j: int| 0 <= j < t.len() implies t[j].date@ != other by {
            if j < s.len() {
                assert(t[j].date@ == s[j].date@);
            }
        }
        lemma_first_on_unique(t, other, t.len() as int);
    }
}

/// Setting a day's amount never makes two records share a date: one
/// record is updated in place, or a record for a new date is appended.
pub proof fn law_dates_stay_distinct(s: Seq<UsageRecord>, day: String, amount_bits: u64)
    requires
        distinct_dates(s),
    ensures
        distinct_dates(with_day_amount(s, day, amount_bits)),
        with_day_amount(s, day, amount_bits).len() <= s.len() + 1,
{
    let t = with_day_amount(s, day, amount_bits);
    lemma_first_on(s, day@);
    let p = first_on(s, day@);
    assert forall|i: int, j: int| 0 <= i < j < t.len() implies t[i].date@ != t[j].date@ by {
        if j == s.len() {
            assert(t[i] == s[i]);
        } else {
            assert(t[i].date@ == s[i].date@ && t[j].date@ == s[j].date@);
        }
    }
}

/// The amount of `day` in `u.push(x)`: that of `u` where `u` has one,
/// else `x`'s where `x` is dated `day`.
pub proof fn lemma_amount_on_push(u: Seq<UsageRecord>, x: UsageRecord, day: Seq<char>)
    ensures
        amount_on(u.push(x), day) == (match amount_on(u, day) {
            Some(a) => Some(a),
            None => if x.date@ == day {
                Some(x.amount_bits)
            } else {
                None
            },
        }),
{
    let v = u.push(x);
    assert(v.drop_last() =~= u);
    lemma_first_on(u, day);
    let p = first_on(u, day);
    if p < u.len() {
        assert(v[p] == u[p]);
    }
}

/// Pruning keeps a day's amount where that day's date is kept.
pub proof fn lemma_prune_keeps_amount(t: Seq<UsageRecord>, cutoff: int, day: Seq<char>)
    requires
        is_kept(day, cutoff),
    ensures
        amount_on(kept_since(t, cutoff), day) == amount_on(t, day),
    decreases t.len(),
{
    reveal(Seq::filter);
    if t.len() > 0 {
        let u = t.drop_last();
        let x = t.last();
        lemma_prune_keeps_amount(u, cutoff, day);
        assert(u.push(x) =~= t);
        lemma_amount_on_push(u, x, day);
        if keeps(cutoff)(x) {
            lemma_amount_on_push(kept_since(u, cutoff), x, day);
        } else {
            assert(x.date@ != day);
        }
    }
}

/// Recording a drop on a day that the retention period covers leaves the
/// ledger giving the recorded amount for that day.
pub proof fn law_recorded_usage_read_back(
    s: Seq<UsageRecord>,
    day: String,
    amount_bits: u64,
    cutoff: int,
)
    requires
        is_kept(day@, cutoff),
    ensures
        amount_on(kept_since(with_day_amount(s, day, amount_bits), cutoff), day@) == Some(
            amount_bits,
        ),
{
    law_recorded_amount_read_back(s, day, amount_bits);
    lemma_prune_keeps_amount(with_day_amount(s, day, amount_bits), cutoff, day@);
}

/// Pruning keeps exactly the records whose date lies within the
/// retention period: every record left is kept, every kept record is
/// left, and none is added.
pub proof fn law_prune_exact(s: Seq<UsageRecord>, cutoff: int)
    ensures
        forall|i: int|
            0 <= i < kept_since(s, cutoff).len() ==> is_kept(
                #[trigger] kept_since(s, cutoff)[i].date@,
                cutoff,
            ),
        forall|i: int|
            0 <= i < s.len() && is_kept(s[i].date@, cutoff) ==> #[trigger] kept_since(
                s,
                cutoff,
            ).contains(s[i]),
        forall|r: UsageRecord| #[trigger] kept_since(s, cutoff).contains(r) ==> s.contains(r),
{
    broadcast use vstd::seq_lib::group_filter_ensures;

    assert forall|i: int| 0 <= i < kept_since(s, cutoff).len() implies is_kept(
        #[trigger] kept_since(s, cutoff)[i].date@,
        cutoff,
    ) by {
        s.lemma_filter_pred(keeps(cutoff), i);
    }
    assert forall|i: int| 0 <= i < s.len() && is_kept(s[i].date@, cutoff) implies #[trigger] kept_since(
        s,
        cutoff,
    ).contains(s[i]) by {
        s.lemma_filter_contains(keeps(cutoff), i);
    }
    assert forall|r: UsageRecord| #[trigger] kept_since(s, cutoff).contains(r) implies s.contains(
        r,
    ) by {
        s.lemma_filter_contains_rev(keeps(cutoff), r);
    }
}

/// Pruning twice at the same cutoff prunes nothing the second time, and
/// pruning at two cutoffs in turn is pruning at the later one.
pub proof fn law_prune_twice(s: Seq<UsageRecord>, first: int, second: int)
    ensures
        kept_since(kept_since(s, first), second) == kept_since(
            s,
            if first < second {
                second
            } else {
                first
            },
        ),
        kept_since(kept_since(s, first), first) == kept_since(s, first),
    decreases s.len(),
{
    reveal(Seq::filter);
    let later = if first < second {
        second
    } else {
        first
    };
    if s.len() > 0 {
        let u = s.drop_last();
        let x = s.last();
        law_prune_twice(u, first, second);
        if keeps(first)(x) {
            kept_since(u, first).lemma_filter_push(x, keeps(second));
            kept_since(u, first).lemma_filter_push(x, keeps(first));
        }
    } else {
        assert(kept_since(s, first) =~= s);
    }
}

/// Pruning never makes two records share a date.
pub proof fn law_prune_keeps_dates_distinct(s: Seq<UsageRecord>, cutoff: int)
    requires
        distinct_dates(s),
    ensures
        distinct_dates(kept_since(s, cutoff)),
    decreases s.len(),
{
    reveal(Seq::filter);
    if s.len() > 0 {
        let u = s.drop_last();
        let x = s.last();
        assert(distinct_dates(u)) by {
            assert forall|i: int, j: int| 0 <= i < j < u.len() implies u[i].date@ != u[j].date@ by {
                assert(u[i] == s[i] && u[j] == s[j]);
            }
        }
        law_prune_keeps_dates_distinct(u, cutoff);
        if keeps(cutoff)(x) {
            let f = kept_since(u, cutoff);
            let g = f.push(x);
            assert forall|i: int, j: int| 0 <= i < j < g.len() implies g[i].date@ != g[j].date@ by {
                if j == f.len() {
                    assert(g[i] == f[i]);
                    assert(f.contains(f[i]));
                    u.lemma_filter_contains_rev(keeps(cutoff), f[i]);
                    let k = choose|k: int| 0 <= k < u.len() && u[k] == f[i];
                    assert(u[k] == s[k]);
                } else {
                    assert(g[i] == f[i] && g[j] == f[j]);
                }
            }
        }
    }
}

} // verus!
