//! Bookkeeping of the USB CDC echo load test: a byte counter that asks for a
//! progress report every 64 KiB echoed, and the report line itself.

use vstd::prelude::*;

verus! {

/// Bytes between two progress reports.
pub const REPORT_INTERVAL: u64 = 64 * 1024;

/// ASCII decimal digits of `v`, most significant first; empty for 0.
pub open spec fn decimal_digits(v: nat) -> Seq<u8>
    decreases v,
{
    if v == 0 {
        Seq::empty()
    } else {
        decimal_digits(v / 10).push((48 + v % 10) as u8)
    }
}

/// The report line for `value` bytes: `SPIKE bytes=` followed by the decimal
/// digits of `value` and a newline.
pub open spec fn spec_report_line(value: u64) -> Seq<u8> {
    seq![83u8, 80, 73, 75, 69, 32, 98, 121, 116, 101, 115, 61] + decimal_digits(value as nat)
        + seq![10u8]
}

/// Formats the progress report line `SPIKE bytes=<value>\n` into a 40-byte
/// buffer; returns the buffer and the length of the line in it.
pub fn report_line(value: u64) -> (out: ([u8; 40], usize))
    ensures
        out.1 <= 40,
        out.0@.subrange(0, out.1 as int) == spec_report_line(value),
{
    // "SPIKE bytes=" in ASCII.
    let prefix: [u8; 12] = [83u8, 80, 73, 75, 69, 32, 98, 121, 116, 101, 115, 61];
    let mut line: [u8; 40] = [0u8; 40];
    let mut len: usize = 0;
    while len < 12
        invariant
            len <= 12,
            line@.len() == 40,
            prefix@ == seq![83u8, 80, 73, 75, 69, 32, 98, 121, 116, 101, 115, 61],
            line@.subrange(0, len as int) == prefix@.subrange(0, len as int),
        decreases 12 - len,
    {
        line[len] = prefix[len];
        len = len + 1;
        proof {
            assert(line@.subrange(0, len as int) =~= prefix@.subrange(0, len as int));
        }
    }
    let mut v: u64 = value;
    let mut digits: [u8; 20] = [0u8; 20];
    let mut dn: usize = 0;
    proof {
        lemma_decimal_digits_len(value as nat);
    }
    while v > 0
        invariant
            dn <= 20,
            digits@.len() == 20,
            decimal_digits(value as nat) == decimal_digits(v as nat) + digits@.subrange(
                0,
                dn as int,
            ).reverse(),
            decimal_digits(v as nat).len() + dn <= 20,
        decreases v,
    {
        proof {
            lemma_decimal_digits_len(v as nat);
            assert(decimal_digits(v as nat) == decimal_digits((v / 10) as nat).push(
                (48 + v % 10) as u8,
            ));
        }
        let d = (v % 10) as u8;
        let ghost before = digits@.subrange(0, dn as int);
        digits[dn] = 48u8 + d;
        dn = dn + 1;
        v = v / 10;
        proof {
            assert(digits@.subrange(0, dn as int) =~= before.push((48 + d) as u8));
            assert(digits@.subrange(0, dn as int).reverse() =~= seq![(48 + d) as u8]
                + before.reverse());
            assert(decimal_digits(value as nat) =~= decimal_digits(v as nat) + digits@.subrange(
                0,
                dn as int,
            ).reverse());
        }
    }
    let ghost all = digits@.subrange(0, dn as int);
    let ghost count = dn;
    while dn > 0
        invariant
            dn <= count,
            count <= 20,
            all == digits@.subrange(0, count as int),
            digits@.len() == 20,
            line@.len() == 40,
            len == 12 + (count - dn),
            line@.subrange(0, len as int) == prefix@ + all.subrange(dn as int, count as int).reverse(),
        decreases dn,
    {
        dn = dn - 1;
        let ghost old_line = line@;
        line[len] = digits[dn];
        len = len + 1;
        proof {
            assert(all.subrange(dn as int, count as int).reverse() =~= all.subrange(
                dn + 1,
                count as int,
            ).reverse().push(all[dn as int]));
            assert(line@.subrange(0, len as int) =~= old_line.subrange(0, len - 1).push(
                all[dn as int],
            ));
            assert(line@.subrange(0, len as int) =~= prefix@ + all.subrange(dn as int, count as int).reverse());
        }
    }
    let ghost old_line = line@;
    line[len] = 10u8;
    len = len + 1;
    proof {
        assert(line@.subrange(0, len as int) =~= old_line.subrange(0, len - 1).push(10u8));
        assert(all.subrange(0, count as int) =~= all);
        assert(decimal_digits(v as nat) =~= Seq::<u8>::empty());
        assert(line@.subrange(0, len as int) =~= spec_report_line(value));
    }
    (line, len)
}

/// The number that a string of ASCII decimal digits spells, most significant
/// digit first.
pub open spec fn digits_value(digits: Seq<u8>) -> int
    decreases digits.len(),
{
    if digits.len() == 0 {
        0
    } else {
        digits_value(digits.drop_last()) * 10 + (digits.last() as int - 48)
    }
}

/// The report's digits spell the reported value back: each is an ASCII digit,
/// the first is not `0`, and read as a decimal number they give `v`.
pub proof fn lemma_decimal_digits_spell_value(v: nat)
    ensures
        digits_value(decimal_digits(v)) == v,
        forall|i: int|
            0 <= i < decimal_digits(v).len() ==> 48 <= #[trigger] decimal_digits(v)[i] <= 57,
        v > 0 ==> decimal_digits(v).len() > 0 && decimal_digits(v)[0] != 48,
        v == 0 ==> decimal_digits(v).len() == 0,
    decreases v,
{
    if v > 0 {
        lemma_decimal_digits_spell_value(v / 10);
        let d = decimal_digits(v);
        let prev = decimal_digits(v / 10);
        assert(d == prev.push((48 + v % 10) as u8));
        assert(d.drop_last() == prev);
        assert forall|i: int| 0 <= i < d.len() implies 48 <= #[trigger] d[i] <= 57 by {
            if i < prev.len() {
                assert(d[i] == prev[i]);
            }
        }
        if v / 10 > 0 {
            assert(d[0] == prev[0]);
        } else {
            assert(v % 10 == v);
        }
    }
}

/// The report line for `value` is the prefix `SPIKE bytes=`, the decimal
/// digits that spell `value`, and a closing newline.
pub proof fn lemma_report_line_spells_value(value: u64)
    ensures
        spec_report_line(value).len() >= 13,
        spec_report_line(value).subrange(0, 12) == seq![83u8, 80, 73, 75, 69, 32, 98, 121, 116, 101, 115, 61],
        spec_report_line(value).last() == 10u8,
        digits_value(spec_report_line(value).subrange(12, spec_report_line(value).len() - 1))
            == value,
{
    lemma_decimal_digits_spell_value(value as nat);
    let l = spec_report_line(value);
    let prefix = seq![83u8, 80, 73, 75, 69, 32, 98, 121, 116, 101, 115, 61];
    let d = decimal_digits(value as nat);
    assert(l.subrange(0, 12) =~= prefix);
    assert(l.subrange(12, l.len() - 1) =~= d);
}

/// A `u64` has at most 20 decimal digits.
pub proof fn lemma_decimal_digits_len(v: nat)
    requires
        v <= u64::MAX,
    ensures
        decimal_digits(v).len() <= 20,
{
    assert(vstd::arithmetic::power::pow(10, 20) == 100_000_000_000_000_000_000int) by {
        reveal_with_fuel(vstd::arithmetic::power::pow, 21);
    }
    lemma_decimal_digits_len_bound(v, 20);
}

/// Numbers below `10^k` have at most `k` decimal digits.
proof fn lemma_decimal_digits_len_bound(v: nat, k: nat)
    requires
        v < vstd::arithmetic::power::pow(10, k),
    ensures
        decimal_digits(v).len() <= k,
    decreases k,
{
    reveal(vstd::arithmetic::power::pow);
    if v > 0 {
        if k == 0 {
            assert(vstd::arithmetic::power::pow(10, 0) == 1);
        } else {
            assert(v / 10 < vstd::arithmetic::power::pow(10, (k - 1) as nat)) by {
                vstd::arithmetic::power::lemma_pow_positive(10, (k - 1) as nat);
                assert(vstd::arithmetic::power::pow(10, k) == 10 * vstd::arithmetic::power::pow(
                    10,
                    (k - 1) as nat,
                ));
            }
            lemma_decimal_digits_len_bound(v / 10, (k - 1) as nat);
        }
    }
}

/// Running byte count of the echo test and the count at which the next report is due.
pub struct EchoCounter {
    total: u64,
    next_report: u64,
}

impl EchoCounter {
    /// Bytes echoed so far.
    pub closed spec fn spec_total(&self) -> u64 {
        self.total
    }

    /// Byte count at which the next report is due.
    pub closed spec fn spec_next_report(&self) -> u64 {
        self.next_report
    }

    /// Nothing echoed yet; the first report is due at 64 KiB.
    pub fn new() -> (c: Self)
        ensures
            c.spec_total() == 0,
            c.spec_next_report() == REPORT_INTERVAL,
    {
        EchoCounter { total: 0, next_report: REPORT_INTERVAL }
    }

    /// Bytes echoed so far.
    pub fn total(&self) -> (t: u64)
        ensures
            t == self.spec_total(),
    {
        self.total
    }

    /// Byte count at which the next report is due.
    pub fn next_report(&self) -> (t: u64)
        ensures
            t == self.spec_next_report(),
    {
        self.next_report
    }

    /// Counts `n` more echoed bytes. Returns the due count (the value to
    /// report) when the total has reached it, `None` otherwise. The due count
    /// itself stays where it is until [`EchoCounter::report_sent`] says that the
    /// report went out, so a report whose write failed falls due again.
    pub fn record(&mut self, n: u64) -> (report: Option<u64>)
        requires
            old(self).spec_total() + n <= u64::MAX,
        ensures
            final(self).spec_total() == old(self).spec_total() + n,
            final(self).spec_next_report() == old(self).spec_next_report(),
            report == if final(self).spec_total() >= old(self).spec_next_report() {
                Some(old(self).spec_next_report())
            } else {
                None
            },
    {
        self.total = self.total + n;
        if self.total >= self.next_report {
            Some(self.next_report)
        } else {
            None
        }
    }

    /// The report for the due count was written: the next one falls due 64 KiB
    /// later.
    pub fn report_sent(&mut self)
        requires
            old(self).spec_next_report() + REPORT_INTERVAL <= u64::MAX,
        ensures
            final(self).spec_total() == old(self).spec_total(),
            final(self).spec_next_report() == old(self).spec_next_report() + REPORT_INTERVAL,
    {
        self.next_report = self.next_report + REPORT_INTERVAL;
    }
}

} // verus!
