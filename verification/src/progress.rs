//! Progress of a copy pass: what share of the bytes has been copied, when
//! that is worth a log line, and what the line says.
//!
//! All of it is integer arithmetic on the two byte counts of a sample.

use vstd::prelude::*;
use vstd::string::*;
use crate::record::{entry_of, info_entry, LogEntry, LogRecord};
use crate::text::{decimal, push_decimal, push_two_digits, two_digits};

verus! {

/// What a copy pass reports after each chunk: bytes copied so far, and the
/// bytes that the whole pass has to copy, which are the bytes of the files of
/// the source tree.
#[derive(Clone, Copy, Debug, PartialEq, Eq, Structural)]
pub struct ProgressSample {
    pub bytes_copied: u64,
    pub bytes_total: u64,
}

/// What the progress handler tells the copy pass to do next.
#[derive(Clone, Copy, Debug, PartialEq, Eq, Structural)]
pub enum ProgressDecision {
    /// Go on copying.
    Continue,
    /// Stop the pass.
    Abort,
}

/// The whole percent of `total` that `copied` has reached, rounded down.
/// A pass with nothing to copy stands at zero; a count beyond the total
/// stands at one hundred.
pub open spec fn percent_of(copied: nat, total: nat) -> nat {
    if total == 0 {
        0
    } else if copied >= total {
        100
    } else {
        copied * 100 / total
    }
}

/// The share of `total` that `copied` has reached in hundredths of a percent,
/// rounded to the nearest hundredth, a half upwards; zero and ten thousand at
/// the ends as for [`percent_of`].
pub open spec fn hundredths_of(copied: nat, total: nat) -> nat {
    if total == 0 {
        0
    } else if copied >= total {
        10000
    } else {
        (copied * 20000 + total) / (2 * total)
    }
}

/// The text before the number in a progress message.
pub open spec fn progress_prefix() -> Seq<char> {
    "emulation folder synchronisation progress: "@
}

/// A share given in hundredths of a percent, written with two decimals and a
/// percent sign: `6667` is `66.67%`.
pub open spec fn percent_text(hundredths: nat) -> Seq<char> {
    decimal(hundredths / 100) + seq!['.'] + two_digits(hundredths % 100) + seq!['%']
}

impl ProgressSample {
    /// The sample with the given counts.
    pub fn new(bytes_copied: u64, bytes_total: u64) -> (s: ProgressSample)
        ensures
            s.bytes_copied == bytes_copied,
            s.bytes_total == bytes_total,
    {
        ProgressSample { bytes_copied, bytes_total }
    }

    /// The whole percent reached, as [`percent_of`] defines it.
    pub open spec fn percent(self) -> nat {
        percent_of(self.bytes_copied as nat, self.bytes_total as nat)
    }

    /// The share reached in hundredths of a percent, as [`hundredths_of`]
    /// defines it.
    pub open spec fn hundredths(self) -> nat {
        hundredths_of(self.bytes_copied as nat, self.bytes_total as nat)
    }

    /// Whether the sample is logged: its whole percent is a multiple of ten.
    pub open spec fn is_logged(self) -> bool {
        self.percent() % 10 == 0
    }

    /// The message of the log line for this sample.
    pub open spec fn message_text(self) -> Seq<char> {
        progress_prefix() + percent_text(self.hundredths())
    }

    /// The whole percent reached, between 0 and 100.
    pub fn percentage(&self) -> (p: u64)
        ensures
            p == self.percent(),
            p <= 100,
    {
        if self.bytes_total == 0 {
            0
        } else if self.bytes_copied >= self.bytes_total {
            100
        } else {
            let copied: u128 = self.bytes_copied as u128;
            let total: u128 = self.bytes_total as u128;
            proof {
                lemma_percent_bounded(copied as nat, total as nat);
            }
            let p: u128 = copied * 100 / total;
            p as u64
        }
    }

    /// The share reached in hundredths of a percent, between 0 and 10000.
    pub fn percentage_hundredths(&self) -> (h: u64)
        ensures
            h == self.hundredths(),
            h <= 10000,
    {
        if self.bytes_total == 0 {
            0
        } else if self.bytes_copied >= self.bytes_total {
            10000
        } else {
            let copied: u128 = self.bytes_copied as u128;
            let total: u128 = self.bytes_total as u128;
            proof {
                lemma_hundredths_bounded(copied as nat, total as nat);
            }
            let h: u128 = (copied * 20000 + total) / (2 * total);
            h as u64
        }
    }

    /// Whether this sample is worth a log line.
    pub fn should_log(&self) -> (b: bool)
        ensures
            b == self.is_logged(),
    {
        self.percentage() % 10 == 0
    }

    /// The message of the log line for this sample.
    pub fn message(&self) -> (m: String)
        ensures
            m@ == self.message_text(),
    {
        let h: u64 = self.percentage_hundredths();
        let mut m = String::from_str("emulation folder synchronisation progress: ");
        push_decimal(&mut m, h / 100);
        m.append(".");
        push_two_digits(&mut m, h % 100);
        m.append("%");
        proof {
            reveal_strlit(".");
            reveal_strlit("%");
            assert("."@ =~= seq!['.']);
            assert("%"@ =~= seq!['%']);
            assert(m@ =~= self.message_text());
        }
        m
    }

    /// The log record for this sample, if it is worth one.
    pub fn record(&self) -> (r: Option<LogRecord>)
        ensures
            entry_of(r) == progress_entry(*self),
    {
        if self.should_log() {
            Some(LogRecord::info(self.message()))
        } else {
            None
        }
    }

    /// What the copy pass is told after this sample: always to go on.
    pub fn decision(&self) -> (d: ProgressDecision)
        ensures
            d == ProgressDecision::Continue,
    {
        ProgressDecision::Continue
    }
}

/// The log entry that a sample gives rise to: an `Info` entry with its
/// message when it is logged, none otherwise.
pub open spec fn progress_entry(sample: ProgressSample) -> Option<LogEntry> {
    if sample.is_logged() {
        Some(info_entry(sample.message_text()))
    } else {
        None
    }
}

/// Below the total, the whole percent stays below one hundred.
pub proof fn lemma_percent_bounded(copied: nat, total: nat)
    requires
        copied < total,
    ensures
        copied * 100 / total < 100,
{
    assert(copied * 100 / total < 100) by (nonlinear_arith)
        requires
            copied < total,
    ;
}

/// Below the total, the rounded share stays within ten thousand hundredths.
pub proof fn lemma_hundredths_bounded(copied: nat, total: nat)
    requires
        copied < total,
    ensures
        (copied * 20000 + total) / (2 * total) <= 10000,
{
    assert((copied * 20000 + total) / (2 * total) <= 10000) by (nonlinear_arith)
        requires
            copied < total,
    ;
}

/// The whole percent is the share rounded down: the largest number of
/// hundredths of the total that the bytes copied reach.
pub proof fn lemma_percent_is_floor(copied: nat, total: nat)
    requires
        0 < total,
        copied <= total,
    ensures
        percent_of(copied, total) * total <= copied * 100,
        copied * 100 < (percent_of(copied, total) + 1) * total,
{
    if copied < total {
        let p = copied * 100 / total;
        assert(p * total <= copied * 100 && copied * 100 < (p + 1) * total) by (nonlinear_arith)
            requires
                0 < total,
                p == copied * 100 / total,
        ;
    } else {
        assert(100 * total == copied * 100 && copied * 100 < 101 * total) by (nonlinear_arith)
            requires
                0 < total,
                copied == total,
        ;
    }
}

/// The hundredths are the share rounded to the nearest: they differ from the
/// exact share by half a hundredth at most, and a share that lies halfway is
/// rounded up.
pub proof fn lemma_hundredths_are_nearest(copied: nat, total: nat)
    requires
        0 < total,
        copied <= total,
    ensures
        2 * hundredths_of(copied, total) * total - total <= copied * 20000,
        copied * 20000 < 2 * hundredths_of(copied, total) * total + total,
{
    if copied < total {
        let h = (copied * 20000 + total) / (2 * total);
        assert(2 * h * total - total <= copied * 20000 && copied * 20000 < 2 * h * total + total)
            by (nonlinear_arith)
            requires
                0 < total,
                h == (copied * 20000 + total) / (2 * total),
        ;
    } else {
        assert(2 * 10000 * total - total <= copied * 20000 && copied * 20000 < 2 * 10000 * total
            + total) by (nonlinear_arith)
            requires
                0 < total,
                copied == total,
        ;
    }
}

/// The whole percents that a run of samples puts in the log, in order: the
/// percent of each sample that is logged.
pub open spec fn logged_percentages(samples: Seq<ProgressSample>) -> Seq<nat>
    decreases samples.len(),
{
    if samples.len() == 0 {
        Seq::empty()
    } else if samples.last().is_logged() {
        logged_percentages(samples.drop_last()).push(samples.last().percent())
    } else {
        logged_percentages(samples.drop_last())
    }
}

/// Whether the samples can come from one copy pass: the total never changes
/// and the bytes copied never go down.
pub open spec fn one_pass(samples: Seq<ProgressSample>) -> bool {
    forall|i: int, j: int|
        0 <= i <= j < samples.len() ==> {
            &&& (#[trigger] samples[i]).bytes_total == (#[trigger] samples[j]).bytes_total
            &&& samples[i].bytes_copied <= samples[j].bytes_copied
        }
}

/// With the total fixed, more bytes copied never give a lower percent.
pub proof fn lemma_percent_monotone(copied: nat, more: nat, total: nat)
    requires
        copied <= more,
    ensures
        percent_of(copied, total) <= percent_of(more, total),
{
    if total > 0 && more < total {
        assert(copied * 100 / total <= more * 100 / total) by (nonlinear_arith)
            requires
                copied <= more,
                total > 0,
        ;
    } else if total > 0 && copied < total {
        lemma_percent_bounded(copied, total);
    }
}

/// Every logged percent is the percent of a logged sample.
proof fn lemma_logged_from_samples(samples: Seq<ProgressSample>, k: int) -> (i: int)
    requires
        0 <= k < logged_percentages(samples).len(),
    ensures
        0 <= i < samples.len(),
        samples[i].is_logged(),
        samples[i].percent() == logged_percentages(samples)[k],
    decreases samples.len(),
{
    let rest = samples.drop_last();
    if samples.last().is_logged() && k == logged_percentages(rest).len() {
        samples.len() - 1
    } else {
        lemma_logged_from_samples(rest, k)
    }
}

/// Every percent that is logged is a multiple of ten between 0 and 100, and
/// over the samples of one pass the logged percents never go down.
pub proof fn lemma_logged_progress_monotone(samples: Seq<ProgressSample>)
    ensures
        forall|k: int|
            0 <= k < logged_percentages(samples).len() ==> {
                &&& (#[trigger] logged_percentages(samples)[k]) % 10 == 0
                &&& logged_percentages(samples)[k] <= 100
            },
        one_pass(samples) ==> forall|k: int, l: int|
            0 <= k <= l < logged_percentages(samples).len() ==> logged_percentages(samples)[k]
                <= logged_percentages(samples)[l],
    decreases samples.len(),
{
    let logged = logged_percentages(samples);
    assert forall|k: int| 0 <= k < logged.len() implies (#[trigger] logged[k]) % 10 == 0
        && logged[k] <= 100 by {
        let i = lemma_logged_from_samples(samples, k);
        let s = samples[i];
        if s.bytes_total > 0 && s.bytes_copied < s.bytes_total {
            lemma_percent_bounded(s.bytes_copied as nat, s.bytes_total as nat);
        }
    }
    if samples.len() > 0 && one_pass(samples) {
        let rest = samples.drop_last();
        assert(one_pass(rest)) by {
            assert forall|i: int, j: int| 0 <= i <= j < rest.len() implies {
                &&& (#[trigger] rest[i]).bytes_total == (#[trigger] rest[j]).bytes_total
                &&& rest[i].bytes_copied <= rest[j].bytes_copied
            } by {
                assert(rest[i] == samples[i]);
                assert(rest[j] == samples[j]);
            }
        }
        lemma_logged_progress_monotone(rest);
        let before = logged_percentages(rest);
        assert forall|k: int, l: int| 0 <= k <= l < logged.len() implies logged[k]
            <= logged[l] by {
            if l < before.len() {
                assert(logged[k] == before[k]);
                assert(logged[l] == before[l]);
            } else if k < before.len() {
                let i = lemma_logged_from_samples(rest, k);
                let last = samples.len() - 1;
                assert(rest[i] == samples[i]);
                assert(samples[i].bytes_total == samples[last].bytes_total);
                assert(samples[i].bytes_copied <= samples[last].bytes_copied);
                lemma_percent_monotone(
                    samples[i].bytes_copied as nat,
                    samples[last].bytes_copied as nat,
                    samples[last].bytes_total as nat,
                );
                assert(logged[k] == before[k]);
            }
        }
    }
}

/// The log entries that a run of samples gives rise to, in order: one for
/// each sample that is logged.
pub open spec fn progress_entries(samples: Seq<ProgressSample>) -> Seq<LogEntry>
    decreases samples.len(),
{
    if samples.len() == 0 {
        Seq::empty()
    } else if samples.last().is_logged() {
        progress_entries(samples.drop_last()).push(info_entry(samples.last().message_text()))
    } else {
        progress_entries(samples.drop_last())
    }
}

/// A run of samples gives as many log entries as it has logged percents.
pub proof fn lemma_one_entry_per_logged_percent(samples: Seq<ProgressSample>)
    ensures
        progress_entries(samples).len() == logged_percentages(samples).len(),
    decreases samples.len(),
{
    if samples.len() > 0 {
        lemma_one_entry_per_logged_percent(samples.drop_last());
    }
}

} // verus!
