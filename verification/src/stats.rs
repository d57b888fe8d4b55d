//! Per-file and aggregate savings arithmetic.  Sizes are byte counts; ratios
//! are carried in hundredths (a percent value of 4000 hundredths reads as
//! 40.00%), so that every figure the reports show is exact integer data.

use vstd::prelude::*;

verus! {

/// The byte sizes of one file before and after re-encoding.
#[derive(Clone, Copy, PartialEq, Eq, Structural, Debug)]
pub struct CompressionStats {
    pub original_size: u64,
    pub new_size: u64,
}

/// Upper bound on the number of files one run may aggregate.  A run holds
/// every candidate path in memory at once, so a count beyond this bound is
/// unreachable on a real machine; it keeps the cumulative byte total well
/// inside `i128`.
pub const MAX_RUN_FILES: usize = 0x4000_0000;

/// Net bytes saved on one file: positive when the file shrank, negative
/// when it grew.
pub open spec fn spec_saved_bytes(original: u64, new: u64) -> int {
    original - new
}

/// Savings as hundredths of a percent: 100 x 100 x (original - new) /
/// original, truncated toward zero, and 0 when the original size is 0.
pub open spec fn spec_savings_percent_hundredths(original: u64, new: u64) -> int {
    if original == 0 {
        0
    } else if new <= original {
        ((original - new) * 10000) / (original as int)
    } else {
        -(((new - original) * 10000) / (original as int))
    }
}

/// A byte count in hundredths of a kilobyte, truncated.
pub open spec fn spec_kb_hundredths(bytes: u64) -> int {
    (bytes * 100) / 1024
}

/// A byte count in hundredths of a megabyte, truncated.
pub open spec fn spec_mb_hundredths(bytes: u64) -> int {
    (bytes * 100) / 1048576
}

/// Savings percent for one file, in hundredths of a percent.
pub fn savings_percent_hundredths(original: u64, new: u64) -> (r: i128)
    ensures
        r as int == spec_savings_percent_hundredths(original, new),
{
    if original == 0 {
        0
    } else if new <= original {
        let num: u128 = (original - new) as u128 * 10000;
        proof {
            vstd::arithmetic::div_mod::lemma_div_is_ordered(
                num as int,
                u64::MAX as int * 10000,
                original as int,
            );
            vstd::arithmetic::div_mod::lemma_div_is_ordered(
                u64::MAX as int * 10000,
                u64::MAX as int * 10000,
                1,
            );
        }
        (num / (original as u128)) as i128
    } else {
        let num: u128 = (new - original) as u128 * 10000;
        proof {
            vstd::arithmetic::div_mod::lemma_div_is_ordered(
                num as int,
                u64::MAX as int * 10000,
                original as int,
            );
        }
        -((num / (original as u128)) as i128)
    }
}

/// A byte count in hundredths of a kilobyte.
pub fn kb_hundredths(bytes: u64) -> (r: u64)
    ensures
        r as int == spec_kb_hundredths(bytes),
{
    proof {
        vstd::arithmetic::div_mod::lemma_div_is_ordered(
            bytes as int * 100,
            u64::MAX as int * 100,
            1024,
        );
    }
    ((bytes as u128 * 100) / 1024) as u64
}

/// A byte count in hundredths of a megabyte.
pub fn mb_hundredths(bytes: u64) -> (r: u64)
    ensures
        r as int == spec_mb_hundredths(bytes),
{
    proof {
        vstd::arithmetic::div_mod::lemma_div_is_ordered(
            bytes as int * 100,
            u64::MAX as int * 100,
            1048576,
        );
    }
    ((bytes as u128 * 100) / 1048576) as u64
}

/// A byte count in hundredths of a megabyte, for totals wider than `u64`.
pub open spec fn spec_mb_hundredths_wide(bytes: int) -> int {
    (bytes * 100) / 1048576
}

/// A cumulative byte count in hundredths of a megabyte.
pub fn mb_hundredths_wide(bytes: u128) -> (r: u128)
    requires
        bytes <= u128::MAX / 100,
    ensures
        r as int == spec_mb_hundredths_wide(bytes as int),
{
    proof {
        vstd::arithmetic::div_mod::lemma_div_is_ordered(
            bytes as int * 100,
            u128::MAX as int,
            1048576,
        );
    }
    (bytes * 100) / 1048576
}

/// The running counters of one run: how many files the scan found, how many
/// have been handled so far, and the net bytes saved across them.
pub struct RunTotals {
    pub total: usize,
    pub processed: usize,
    pub saved: i128,
}

impl RunTotals {
    /// The counters are consistent: no more files handled than found, the
    /// file count within the run bound, and the byte total within what that
    /// many files can contribute.
    pub open spec fn wf(self) -> bool {
        &&& self.processed <= self.total
        &&& self.total <= MAX_RUN_FILES
        &&& -((self.processed as int) * (u64::MAX as int)) <= self.saved as int
        &&& self.saved as int <= (self.processed as int) * (u64::MAX as int)
    }

    /// Fresh counters for a run over `total` files.
    pub fn new(total: usize) -> (r: RunTotals)
        requires
            total <= MAX_RUN_FILES,
        ensures
            r.total == total,
            r.processed == 0,
            r.saved == 0,
            r.wf(),
    {
        RunTotals { total, processed: 0, saved: 0 }
    }

    /// Account one successfully re-encoded file: the processed count steps
    /// by one and the byte total moves by exactly the file's size change.
    pub fn record_success(&mut self, stats: &CompressionStats)
        requires
            old(self).wf(),
            old(self).processed < old(self).total,
        ensures
            final(self).total == old(self).total,
            final(self).processed == old(self).processed + 1,
            final(self).saved as int == old(self).saved as int + spec_saved_bytes(
                stats.original_size,
                stats.new_size,
            ),
            final(self).wf(),
    {
        proof {
            vstd::arithmetic::mul::lemma_mul_inequality(
                self.processed as int + 1,
                self.total as int,
                u64::MAX as int,
            );
            vstd::arithmetic::mul::lemma_mul_inequality(
                self.total as int,
                MAX_RUN_FILES as int,
                u64::MAX as int,
            );
        }
        let delta: i128 = stats.original_size as i128 - stats.new_size as i128;
        self.saved = self.saved + delta;
        self.processed = self.processed + 1;
    }

    /// Account one failed file: the processed count steps by one and the
    /// byte total is left exactly as it was, so a failure never disturbs
    /// the savings accumulated from other files.
    pub fn record_failure(&mut self)
        requires
            old(self).wf(),
            old(self).processed < old(self).total,
        ensures
            final(self).total == old(self).total,
            final(self).processed == old(self).processed + 1,
            final(self).saved == old(self).saved,
            final(self).wf(),
    {
        proof {
            vstd::arithmetic::mul::lemma_mul_inequality(
                self.processed as int,
                self.processed as int + 1,
                u64::MAX as int,
            );
        }
        self.processed = self.processed + 1;
    }

    /// Progress through the run in thousandths, truncated: 0 at the start,
    /// 1000 once every file is handled.
    pub fn progress_permille(&self) -> (r: u32)
        requires
            self.wf(),
            self.total > 0,
        ensures
            r as int == ((self.processed as int) * 1000) / (self.total as int),
            r <= 1000,
    {
        proof {
            vstd::arithmetic::div_mod::lemma_div_is_ordered(
                self.processed as int * 1000,
                self.total as int * 1000,
                self.total as int,
            );
            vstd::arithmetic::mul::lemma_mul_inequality(
                self.processed as int,
                self.total as int,
                1000,
            );
            vstd::arithmetic::div_mod::lemma_div_multiples_vanish(1000, self.total as int);
        }
        ((self.processed as u128 * 1000) / (self.total as u128)) as u32
    }
}

/// What handling one file contributed to a run: the before/after sizes of
/// a re-encoded file, or nothing for a file that failed.
#[derive(Clone, Copy, PartialEq, Eq, Structural, Debug)]
pub enum FileOutcome {
    Compressed(CompressionStats),
    Failed,
}

/// The net bytes saved across a run's outcomes: each re-encoded file
/// contributes its size difference, each failed file contributes nothing.
pub open spec fn spec_net_saved(outcomes: Seq<FileOutcome>) -> int
    decreases outcomes.len(),
{
    if outcomes.len() == 0 {
        0
    } else {
        spec_net_saved(outcomes.drop_last()) + match outcomes.last() {
            FileOutcome::Compressed(s) => spec_saved_bytes(s.original_size, s.new_size),
            FileOutcome::Failed => 0,
        }
    }
}

/// A re-encoded file's contribution to the cumulative saved bytes is
/// exactly its size difference, original minus new.
pub proof fn lemma_compressed_contribution(outcomes: Seq<FileOutcome>, stats: CompressionStats)
    ensures
        spec_net_saved(outcomes.push(FileOutcome::Compressed(stats))) == spec_net_saved(outcomes)
            + spec_saved_bytes(stats.original_size, stats.new_size),
{
    let pushed = outcomes.push(FileOutcome::Compressed(stats));
    assert(pushed.drop_last() =~= outcomes);
}

/// A failed file contributes nothing: a run with a failure appended saves
/// exactly what the run saved without it.
pub proof fn lemma_failure_adds_nothing(outcomes: Seq<FileOutcome>)
    ensures
        spec_net_saved(outcomes.push(FileOutcome::Failed)) == spec_net_saved(outcomes),
{
    let pushed = outcomes.push(FileOutcome::Failed);
    assert(pushed.drop_last() =~= outcomes);
}

/// Fold a whole run's outcomes into its final counters: every outcome
/// counted as processed, and the saved total the exact net sum of the
/// per-file differences.
pub fn summarize_run(outcomes: &Vec<FileOutcome>) -> (r: RunTotals)
    requires
        outcomes@.len() <= MAX_RUN_FILES,
    ensures
        r.total == outcomes@.len(),
        r.processed == outcomes@.len(),
        r.saved as int == spec_net_saved(outcomes@),
        r.wf(),
{
    let mut totals = RunTotals::new(outcomes.len());
    let mut i: usize = 0;
    proof {
        assert(outcomes@.subrange(0, 0) =~= Seq::<FileOutcome>::empty());
    }
    while i < outcomes.len()
        invariant
            i <= outcomes@.len(),
            totals.wf(),
            totals.total == outcomes@.len() <= MAX_RUN_FILES,
            totals.processed == i,
            totals.saved as int == spec_net_saved(outcomes@.subrange(0, i as int)),
        decreases outcomes@.len() - i,
    {
        match outcomes[i] {
            FileOutcome::Compressed(stats) => totals.record_success(&stats),
            FileOutcome::Failed => totals.record_failure(),
        }
        proof {
            let step = outcomes@.subrange(0, i + 1);
            assert(step.drop_last() =~= outcomes@.subrange(0, i as int));
            assert(step.last() == outcomes@[i as int]);
        }
        i += 1;
    }
    proof {
        assert(outcomes@.subrange(0, outcomes@.len() as int) =~= outcomes@);
    }
    totals
}

} // verus!
