//! The orchestration of a batch: how its units are scheduled, how their
//! outcomes are counted, and the snapshots that report them.
//!
//! The orchestrator itself reads files and runs workers, which is the
//! caller's part. Its decisions are here: every outcome goes through the
//! counters, and every snapshot is made of them.

use vstd::prelude::*;
use vstd::string::*;
use crate::adaptive::{encode, encode_post};
use crate::bitmap::Bitmap;
use crate::config::OutputFormat;
use crate::error::ConvertError;
use crate::progress::ProgressUpdate;
use crate::webp::lossy_codec_ready;
use crate::tasks::{PageCount, count_units, unit_total};

verus! {

/// How the units of a batch are scheduled.
#[derive(Clone, Copy, Debug, PartialEq, Eq, Structural)]
pub enum Parallelism {
    /// Every unit is a task of its own; the tasks run in any order.
    Parallel,
    /// The units run one at a time, in the order of enumeration.
    Serial,
}

/// The scheduling of a format: size-targeted PNG runs serially, every
/// other format in parallel.
pub open spec fn policy_of(format: OutputFormat) -> Parallelism {
    if format == OutputFormat::PngCompressed {
        Parallelism::Serial
    } else {
        Parallelism::Parallel
    }
}

/// Chooses the scheduling for a format.
pub fn parallelism_for(format: OutputFormat) -> (policy: Parallelism)
    ensures
        policy == policy_of(format),
{
    match format {
        OutputFormat::PngCompressed => Parallelism::Serial,
        OutputFormat::Jpeg | OutputFormat::PngOriginal | OutputFormat::WebPLossy
        | OutputFormat::WebPLossless => Parallelism::Parallel,
    }
}

/// A number kept within bounds.
pub open spec fn clamped(value: nat, low: nat, high: nat) -> nat {
    if value < low {
        low
    } else if value > high {
        high
    } else {
        value
    }
}

/// The number of workers for a machine: three quarters of its cores, but
/// at least two and at most eight.
pub open spec fn workers_for(cores: nat) -> nat {
    clamped(cores * 3 / 4, 2, 8)
}

/// The number of pages that go to the workers at once: four per core, from
/// 8 to 32, for a document of more than a hundred pages, and two per core,
/// from 4 to 16, for a shorter one.
pub open spec fn chunk_for(pages: nat, cores: nat) -> nat {
    if pages > 100 {
        clamped(cores * 4, 8, 32)
    } else {
        clamped(cores * 2, 4, 16)
    }
}

fn clamp(value: usize, low: usize, high: usize) -> (kept: usize)
    ensures
        kept == clamped(value as nat, low as nat, high as nat),
{
    if value < low {
        low
    } else if value > high {
        high
    } else {
        value
    }
}

/// The number of workers for a machine with the given number of cores.
pub fn worker_limit(cores: usize) -> (workers: usize)
    ensures
        workers == workers_for(cores as nat),
        2 <= workers <= 8,
{
    if cores > 64 {
        8
    } else {
        clamp(cores * 3 / 4, 2, 8)
    }
}

/// The number of pages that go to the workers at once.
pub fn chunk_size(pages: usize, cores: usize) -> (chunk: usize)
    ensures
        chunk == chunk_for(pages as nat, cores as nat),
        4 <= chunk <= 32,
{
    let few_cores: usize = if cores > 64 {
        64
    } else {
        cores
    };
    if pages > 100 {
        clamp(few_cores * 4, 8, 32)
    } else {
        clamp(few_cores * 2, 4, 16)
    }
}

/// What the counters of a batch hold.
pub struct CountersView {
    pub processed: nat,
    pub failed: nat,
    pub total: nat,
}

impl CountersView {
    /// The counters at the start of a batch of `total` units.
    pub open spec fn start(total: nat) -> CountersView {
        CountersView { processed: 0, failed: 0, total }
    }

    /// The units that have no outcome yet.
    pub open spec fn remaining(self) -> nat {
        (self.total - self.processed - self.failed) as nat
    }

    /// Whether every unit has its outcome.
    pub open spec fn settled(self) -> bool {
        self.processed + self.failed == self.total
    }

    /// The counters after the outcome of one unit. Once every unit has its
    /// outcome, nothing more is counted.
    pub open spec fn after(self, succeeded: bool) -> CountersView {
        if self.settled() {
            self
        } else if succeeded {
            CountersView { processed: self.processed + 1, ..self }
        } else {
            CountersView { failed: self.failed + 1, ..self }
        }
    }

    /// The counters after the failure of several units at once, as when a
    /// PDF cannot be opened: no more than remain are counted.
    pub open spec fn after_failures(self, units: nat) -> CountersView {
        if units <= self.remaining() {
            CountersView { failed: self.failed + units, ..self }
        } else {
            CountersView { failed: self.failed + self.remaining(), ..self }
        }
    }

    /// The counters after a sequence of outcomes.
    pub open spec fn after_all(self, outcomes: Seq<bool>) -> CountersView
        decreases outcomes.len(),
    {
        if outcomes.len() == 0 {
            self
        } else {
            self.after_all(outcomes.drop_last()).after(outcomes.last())
        }
    }
}

/// The number of successes among outcomes.
pub open spec fn successes(outcomes: Seq<bool>) -> nat
    decreases outcomes.len(),
{
    if outcomes.len() == 0 {
        0
    } else if outcomes.last() {
        successes(outcomes.drop_last()) + 1
    } else {
        successes(outcomes.drop_last())
    }
}

/// The counters of a batch: the units that were converted, the units that
/// failed, and the units there are. The first two never add up to more
/// than the third.
#[derive(Debug)]
pub struct BatchCounters {
    processed: usize,
    failed: usize,
    total: usize,
}

impl View for BatchCounters {
    type V = CountersView;

    closed spec fn view(&self) -> CountersView {
        CountersView {
            processed: self.processed as nat,
            failed: self.failed as nat,
            total: self.total as nat,
        }
    }
}

/// Whether a snapshot reports the given counts.
pub open spec fn reports(update: ProgressUpdate, counters: CountersView) -> bool {
    &&& update.processed == counters.processed
    &&& update.failed == counters.failed
    &&& update.total == counters.total
}

impl BatchCounters {
    #[verifier::type_invariant]
    spec fn inv(self) -> bool {
        self.processed + self.failed <= self.total
    }

    /// The counters at the start of a batch of `total` units.
    pub fn new(total: usize) -> (counters: BatchCounters)
        ensures
            counters@ == CountersView::start(total as nat),
    {
        BatchCounters { processed: 0, failed: 0, total }
    }

    /// The units that were converted.
    pub fn processed(&self) -> (count: usize)
        ensures
            count == self@.processed,
            self@.processed + self@.failed <= self@.total,
    {
        proof {
            use_type_invariant(self);
        }
        self.processed
    }

    /// The units that failed.
    pub fn failed(&self) -> (count: usize)
        ensures
            count == self@.failed,
            self@.processed + self@.failed <= self@.total,
    {
        proof {
            use_type_invariant(self);
        }
        self.failed
    }

    /// The units of the batch.
    pub fn total(&self) -> (count: usize)
        ensures
            count == self@.total,
            self@.processed + self@.failed <= self@.total,
    {
        proof {
            use_type_invariant(self);
        }
        self.total
    }

    /// The units that have no outcome yet.
    pub fn remaining(&self) -> (count: usize)
        ensures
            count == self@.remaining(),
    {
        proof {
            use_type_invariant(self);
        }
        self.total - self.processed - self.failed
    }

    /// Whether every unit has its outcome.
    pub fn is_settled(&self) -> (settled: bool)
        ensures
            settled == self@.settled(),
    {
        proof {
            use_type_invariant(self);
        }
        self.remaining() == 0
    }

    /// Counts the outcome of one unit.
    pub fn record(&mut self, succeeded: bool)
        ensures
            final(self)@ == old(self)@.after(succeeded),
    {
        proof {
            use_type_invariant(&*self);
        }
        if self.total - self.processed - self.failed > 0 {
            if succeeded {
                self.processed = self.processed + 1;
            } else {
                self.failed = self.failed + 1;
            }
        }
    }

    /// Counts the failure of several units at once.
    pub fn record_failures(&mut self, units: usize)
        ensures
            final(self)@ == old(self)@.after_failures(units as nat),
    {
        proof {
            use_type_invariant(&*self);
        }
        let remaining = self.total - self.processed - self.failed;
        if units <= remaining {
            self.failed = self.failed + units;
        } else {
            self.failed = self.failed + remaining;
        }
    }

    /// The snapshot of the counts so far, with a label for what is being
    /// worked on.
    pub fn snapshot(&self, current_file: String) -> (update: ProgressUpdate)
        ensures
            reports(update, self@),
            update.processed + update.failed <= update.total,
            update.current_file == current_file,
            !update.is_complete,
            update.error_message is None,
    {
        proof {
            use_type_invariant(self);
        }
        ProgressUpdate {
            processed: self.processed,
            failed: self.failed,
            total: self.total,
            current_file,
            is_complete: false,
            error_message: None,
        }
    }

    /// The snapshot that ends the batch.
    pub fn final_snapshot(&self) -> (update: ProgressUpdate)
        ensures
            reports(update, self@),
            update.processed + update.failed <= update.total,
            update.current_file@ == Seq::<char>::empty(),
            update.is_complete,
            update.error_message is None,
    {
        proof {
            use_type_invariant(self);
        }
        ProgressUpdate {
            processed: self.processed,
            failed: self.failed,
            total: self.total,
            current_file: String::new(),
            is_complete: true,
            error_message: None,
        }
    }
}

/// The snapshot that is sent while the units are being counted.
pub fn scanning_snapshot() -> (update: ProgressUpdate)
    ensures
        reports(update, CountersView::start(0)),
        update.current_file@ == "正在计算总任务数..."@,
        !update.is_complete,
        update.error_message is None,
{
    ProgressUpdate {
        processed: 0,
        failed: 0,
        total: 0,
        current_file: String::from_str("正在计算总任务数..."),
        is_complete: false,
        error_message: None,
    }
}

/// The snapshot that ends a batch which failed as a whole.
pub fn failure_snapshot(reason: String) -> (update: ProgressUpdate)
    ensures
        reports(update, CountersView::start(0)),
        update.current_file@ == Seq::<char>::empty(),
        update.is_complete,
        update.error_message == Some(reason),
{
    ProgressUpdate {
        processed: 0,
        failed: 0,
        total: 0,
        current_file: String::new(),
        is_complete: true,
        error_message: Some(reason),
    }
}

/// Whether a batch of these files can start: it has at least one unit, and
/// no more than can be counted.
pub open spec fn can_start(files: Seq<PageCount>) -> bool {
    1 <= unit_total(files) <= usize::MAX
}

/// Why a batch of these files cannot start.
pub open spec fn refusal(files: Seq<PageCount>) -> Seq<char> {
    if unit_total(files) == 0 {
        "没有可处理的文件"@
    } else {
        "任务数量过多"@
    }
}

/// Starts a batch: counts the units of its files and sets up the
/// counters. A batch without units fails as a whole, and so does one with
/// more units than can be counted: the snapshot that ends it says why.
pub fn begin_batch(files: &Vec<PageCount>) -> (r: Result<BatchCounters, ProgressUpdate>)
    ensures
        r is Ok <==> can_start(files@),
        r matches Ok(counters) ==> counters@ == CountersView::start(unit_total(files@)),
        r matches Err(update) ==> update.is_complete && reports(update, CountersView::start(0))
            && update.current_file@ == Seq::<char>::empty() && (update.error_message matches Some(
            reason,
        ) && reason@ == refusal(files@)),
{
    match count_units(files) {
        Some(total) => {
            if total == 0 {
                Err(failure_snapshot(String::from_str("没有可处理的文件")))
            } else {
                Ok(BatchCounters::new(total))
            }
        },
        None => Err(failure_snapshot(String::from_str("任务数量过多"))),
    }
}

/// Converts one unit: the bitmap that the caller decoded, or rendered from
/// a page, is encoded within the budget. A unit whose bitmap could not be
/// decoded fails with `Decode`, and nothing is encoded.
pub fn process_unit<F: Fn(&Vec<u8>, u32, u32, u64, u64) -> Vec<u8>>(
    decoded: &Option<Bitmap>,
    target_bytes: usize,
    format: OutputFormat,
    codec: &F,
) -> (r: Result<Vec<u8>, ConvertError>)
    requires
        lossy_codec_ready(codec),
    ensures
        match *decoded {
            Some(image) => encode_post(codec, image@, target_bytes, format, r),
            None => r == Err::<Vec<u8>, ConvertError>(ConvertError::Decode),
        },
{
    match decoded {
        Some(image) => encode(image, target_bytes, format, codec),
        None => Err(ConvertError::Decode),
    }
}

/// How a unit ended, given what its conversion gave and whether the bytes
/// could be written: the error of the conversion, `Write` for bytes that
/// could not be stored, and success otherwise.
pub open spec fn unit_outcome(converted: Option<ConvertError>, written: bool) -> Result<
    (),
    ConvertError,
> {
    match converted {
        Some(e) => Err(e),
        None => if written {
            Ok(())
        } else {
            Err(ConvertError::Write)
        },
    }
}

/// Ends a unit: decides how it ended, counts it as converted or failed,
/// and makes the snapshot that reports the counts. No failure of a unit
/// goes beyond this point: the batch goes on with the next unit.
pub fn conclude_unit(
    counters: &mut BatchCounters,
    converted: Option<ConvertError>,
    written: bool,
    label: String,
) -> (r: (Result<(), ConvertError>, ProgressUpdate))
    ensures
        r.0 == unit_outcome(converted, written),
        final(counters)@ == old(counters)@.after(r.0 is Ok),
        reports(r.1, final(counters)@),
        r.1.processed + r.1.failed <= r.1.total,
        r.1.current_file == label,
        !r.1.is_complete,
        r.1.error_message is None,
{
    let outcome = match converted {
        Some(e) => Err(e),
        None => {
            if written {
                Ok(())
            } else {
                Err(ConvertError::Write)
            }
        },
    };
    counters.record(outcome.is_ok());
    let update = counters.snapshot(label);
    (outcome, update)
}

/// What a worker says of a unit that it has worked on.
#[derive(Debug)]
pub struct UnitReport {
    /// Why the conversion failed, if it did.
    pub failure: Option<ConvertError>,
    /// Whether the converted bytes were written.
    pub written: bool,
    /// What the unit is called in snapshots.
    pub label: String,
}

/// Whether `reports` is what a worker gave for the units of a batch, one
/// after the other.
pub open spec fn worked_through<W: Fn(usize) -> UnitReport>(
    work: &W,
    total: usize,
    given: Seq<UnitReport>,
) -> bool {
    &&& given.len() == total
    &&& forall|k: int| 0 <= k < total ==> work.ensures((k as usize,), #[trigger] given[k])
}

/// The outcomes of the units that reports speak of.
pub open spec fn outcomes_of(given: Seq<UnitReport>) -> Seq<bool> {
    given.map_values(|report: UnitReport| unit_outcome(report.failure, report.written) is Ok)
}

/// Runs the units of a batch one at a time, in the order of their
/// numbers. `work` converts and stores the unit with the given number and
/// says how that went; `send` takes the snapshot that follows each unit.
/// A unit that fails is counted, and the next one is worked on. Once all
/// are done the snapshot that ends the batch is made: in it the converted
/// and the failed units add up to the total.
pub fn run_serial<W: Fn(usize) -> UnitReport, S: Fn(ProgressUpdate) -> ()>(
    total: usize,
    work: &W,
    send: &S,
) -> (last: ProgressUpdate)
    requires
        forall|k: usize| k < total ==> #[trigger] work.requires((k,)),
        forall|update: ProgressUpdate| #[trigger] send.requires((update,)),
    ensures
        exists|given: Seq<UnitReport>| #[trigger]
            worked_through(work, total, given) && reports(
                last,
                CountersView::start(total as nat).after_all(outcomes_of(given)),
            ),
        last.processed + last.failed == total,
        last.total == total,
        last.is_complete,
        last.error_message is None,
{
    let mut counters = BatchCounters::new(total);
    let ghost mut done: Seq<UnitReport> = Seq::empty();
    let mut k: usize = 0;
    assert(outcomes_of(done) =~= Seq::<bool>::empty());
    while k < total
        invariant
            k <= total,
            done.len() == k,
            forall|j: usize| j < total ==> #[trigger] work.requires((j,)),
            forall|update: ProgressUpdate| #[trigger] send.requires((update,)),
            forall|j: int| 0 <= j < k ==> work.ensures((j as usize,), #[trigger] done[j]),
            counters@ == CountersView::start(total as nat).after_all(outcomes_of(done)),
        decreases total - k,
    {
        let report = work(k);
        let ghost before = done;
        proof {
            done = done.push(report);
            assert(outcomes_of(done).drop_last() =~= outcomes_of(before));
            assert(outcomes_of(done).last() == (unit_outcome(report.failure, report.written)
                is Ok));
        }
        let (_, update) = conclude_unit(&mut counters, report.failure, report.written, report.label);
        send(update);
        k = k + 1;
    }
    proof {
        lemma_counts_stay_within_total(total as nat, outcomes_of(done));
        assert(worked_through(work, total, done));
    }
    counters.final_snapshot()
}

/// Runs the counters over the outcomes of a batch's units, in the order
/// in which they came in, and makes the snapshot that ends the batch.
pub fn settle(total: usize, outcomes: &Vec<bool>) -> (update: ProgressUpdate)
    ensures
        reports(update, CountersView::start(total as nat).after_all(outcomes@)),
        update.is_complete,
        update.error_message is None,
{
    let mut counters = BatchCounters::new(total);
    let n = outcomes.len();
    let mut i: usize = 0;
    assert(outcomes@.subrange(0, 0) =~= Seq::<bool>::empty());
    while i < n
        invariant
            i <= n,
            n == outcomes@.len(),
            counters@ == CountersView::start(total as nat).after_all(
                outcomes@.subrange(0, i as int),
            ),
        decreases n - i,
    {
        proof {
            assert(outcomes@.subrange(0, i + 1).drop_last() =~= outcomes@.subrange(0, i as int));
        }
        counters.record(outcomes[i]);
        i = i + 1;
    }
    assert(outcomes@.subrange(0, n as int) =~= outcomes@);
    counters.final_snapshot()
}

/// Outcomes never push the counts beyond the total: after any sequence of
/// outcomes, converted and failed units together are as many as there were
/// outcomes, or all the units where there were more outcomes than units.
/// Neither count ever drops.
pub proof fn lemma_counts_stay_within_total(total: nat, outcomes: Seq<bool>)
    ensures
        ({
            let counters = CountersView::start(total).after_all(outcomes);
            &&& counters.total == total
            &&& counters.processed + counters.failed == if outcomes.len() <= total {
                outcomes.len()
            } else {
                total
            }
            &&& counters.processed <= successes(outcomes)
            &&& outcomes.len() <= total ==> counters.processed == successes(outcomes)
        }),
    decreases outcomes.len(),
{
    if outcomes.len() > 0 {
        lemma_counts_stay_within_total(total, outcomes.drop_last());
    }
}

/// Once every unit has its outcome, the converted and the failed units add
/// up to the total, and the total is the sum of the units of the files: one
/// for each image and one for each page of a PDF.
pub proof fn lemma_batch_settles(files: Seq<PageCount>, outcomes: Seq<bool>)
    requires
        outcomes.len() == unit_total(files),
    ensures
        ({
            let counters = CountersView::start(unit_total(files)).after_all(outcomes);
            &&& counters.settled()
            &&& counters.total == unit_total(files)
            &&& counters.processed == successes(outcomes)
            &&& counters.failed == outcomes.len() - successes(outcomes)
        }),
{
    lemma_counts_stay_within_total(unit_total(files), outcomes);
}

/// One more outcome never lowers a count.
pub proof fn lemma_counts_are_monotonic(counters: CountersView, succeeded: bool)
    requires
        counters.processed + counters.failed <= counters.total,
    ensures
        counters.after(succeeded).processed >= counters.processed,
        counters.after(succeeded).failed >= counters.failed,
        counters.after(succeeded).total == counters.total,
        counters.after(succeeded).processed + counters.after(succeeded).failed <= counters.total,
{
}

} // verus!
