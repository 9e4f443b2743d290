//! A batch of uploads: starting one upload for each reference, gathering the
//! results as they come in, and reporting them.

use crate::chevereto::{
    body_result, decode_result, result_view, upload_start, CheveretoUploadResponse, UploadAction,
    UploadActionView, UploadState, UploadStateView,
};
use crate::common::UploadResponse;
use crate::endpoint::EndpointConfig;
use crate::error::UploadError;
use vstd::prelude::*;

verus! {

/// A [`BatchOutcome`] in contracts: the replies of the uploads that
/// succeeded, and the messages of those that failed, each in the order in
/// which they were recorded.
pub struct BatchOutcomeView {
    pub successes: Seq<CheveretoUploadResponse>,
    pub failures: Seq<Seq<char>>,
}

impl BatchOutcomeView {
    /// The outcome of a batch of which nothing is recorded yet.
    pub open spec fn empty() -> BatchOutcomeView {
        BatchOutcomeView { successes: Seq::empty(), failures: Seq::empty() }
    }

    /// The number of results recorded.
    pub open spec fn count(self) -> nat {
        self.successes.len() + self.failures.len()
    }

    /// Every success is well formed.
    pub open spec fn well_formed(self) -> bool {
        forall|i: int| 0 <= i < self.successes.len() ==> (#[trigger] self.successes[i]).well_formed()
    }

    /// The outcome with one more result. A reply counts as a success only
    /// where it is well formed; else it is a failure, as it is when the body
    /// of a reply is decoded.
    pub open spec fn record(self, result: Result<CheveretoUploadResponse, Seq<char>>) -> BatchOutcomeView {
        match body_result(result) {
            Ok(response) => BatchOutcomeView {
                successes: self.successes.push(response),
                failures: self.failures,
            },
            Err(message) => BatchOutcomeView {
                successes: self.successes,
                failures: self.failures.push(message),
            },
        }
    }

    /// The outcome with the results of `results` recorded one after the
    /// other.
    pub open spec fn record_all(self, results: Seq<Result<CheveretoUploadResponse, Seq<char>>>) -> BatchOutcomeView
        decreases results.len(),
    {
        if results.len() == 0 {
            self
        } else {
            self.record_all(results.drop_last()).record(results.last())
        }
    }
}

/// Each result of an upload comes to stand in exactly one of the two
/// collections: an outcome that has recorded `results` holds as many
/// successes and failures together as there are results, on top of what it
/// held before, and every success in it is well formed.
pub proof fn recorded_results_are_counted(
    before: BatchOutcomeView,
    results: Seq<Result<CheveretoUploadResponse, Seq<char>>>,
)
    requires
        before.well_formed(),
    ensures
        before.record_all(results).count() == before.count() + results.len(),
        before.record_all(results).well_formed(),
        before.successes.is_prefix_of(before.record_all(results).successes),
        before.failures.is_prefix_of(before.record_all(results).failures),
    decreases results.len(),
{
    if results.len() > 0 {
        recorded_results_are_counted(before, results.drop_last());
    }
}

/// The results of a batch: the uploads that succeeded and those that failed,
/// each in the order in which they ended.
#[derive(Debug)]
pub struct BatchOutcome {
    successes: Vec<CheveretoUploadResponse>,
    failures: Vec<UploadError>,
}

impl View for BatchOutcome {
    type V = BatchOutcomeView;

    closed spec fn view(&self) -> BatchOutcomeView {
        BatchOutcomeView {
            successes: self.successes@,
            failures: self.failures@.map_values(|error: UploadError| error@),
        }
    }
}

impl BatchOutcome {
    #[verifier::type_invariant]
    spec fn successes_are_well_formed(&self) -> bool {
        self@.well_formed()
    }

    /// The outcome of a batch of which no upload has ended yet.
    pub fn new() -> (outcome: BatchOutcome)
        ensures
            outcome@ == BatchOutcomeView::empty(),
    {
        let outcome = BatchOutcome { successes: Vec::new(), failures: Vec::new() };
        assert(outcome@.failures =~= Seq::empty());
        outcome
    }

    /// Records the result of one upload that has ended.
    pub fn record(&mut self, result: Result<CheveretoUploadResponse, UploadError>)
        ensures
            final(self)@ == old(self)@.record(result_view(result)),
            final(self)@.count() == old(self)@.count() + 1,
    {
        let checked = match result {
            Ok(response) => decode_result(Ok(response)),
            Err(error) => Err(error),
        };
        let mut taken = BatchOutcome::new();
        core::mem::swap(self, &mut taken);
        proof {
            use_type_invariant(&taken);
        }
        let ghost before = taken@;
        let BatchOutcome { mut successes, mut failures } = taken;
        assert(successes@ == before.successes);
        match checked {
            Ok(response) => {
                successes.push(response);
                assert forall|i: int| 0 <= i < successes@.len() implies (
                #[trigger] successes@[i]).well_formed() by {
                    if i < before.successes.len() {
                        assert(successes@[i] == before.successes[i]);
                    }
                }
            },
            Err(error) => {
                failures.push(error);
                assert(failures@.map_values(|error: UploadError| error@) =~= old(
                    self,
                )@.failures.push(error@));
            },
        }
        *self = BatchOutcome { successes, failures };
    }

    /// The outcome of a batch whose uploads ended with `results`, in this
    /// order.
    pub fn collect(results: Vec<Result<CheveretoUploadResponse, UploadError>>) -> (outcome:
        BatchOutcome)
        ensures
            outcome@ == BatchOutcomeView::empty().record_all(
                results@.map_values(
                    |result: Result<CheveretoUploadResponse, UploadError>| result_view(result),
                ),
            ),
            outcome@.count() == results@.len(),
    {
        let ghost all = results@.map_values(
            |result: Result<CheveretoUploadResponse, UploadError>| result_view(result),
        );
        let mut outcome = BatchOutcome::new();
        for result in ended: results
            invariant
                ended.seq().map_values(
                    |result: Result<CheveretoUploadResponse, UploadError>| result_view(result),
                ) == all,
                outcome@ == BatchOutcomeView::empty().record_all(all.take(ended.index() as int)),
        {
            proof {
                let done = ended.index() as int;
                assert(all.take(done + 1).drop_last() =~= all.take(done));
                assert(all.take(done + 1).last() == result_view(result));
            }
            outcome.record(result);
        }
        proof {
            assert(all.take(all.len() as int) =~= all);
            recorded_results_are_counted(BatchOutcomeView::empty(), all);
        }
        outcome
    }

    /// The number of uploads that succeeded.
    pub fn success_count(&self) -> (count: usize)
        ensures
            count == self@.successes.len(),
    {
        self.successes.len()
    }

    /// The number of uploads that failed.
    pub fn failure_count(&self) -> (count: usize)
        ensures
            count == self@.failures.len(),
    {
        self.failures.len()
    }

    /// The replies of the uploads that succeeded. Each is well formed.
    pub fn successes(&self) -> (successes: &Vec<CheveretoUploadResponse>)
        ensures
            successes@ == self@.successes,
            self@.well_formed(),
    {
        proof {
            use_type_invariant(self);
        }
        &self.successes
    }

    /// The failures of the uploads that failed.
    pub fn failures(&self) -> (failures: &Vec<UploadError>)
        ensures
            failures@.map_values(|error: UploadError| error@) == self@.failures,
    {
        &self.failures
    }
}

/// Starts one upload for each of `references`, in their order. `current_dir`
/// is the directory that a relative path is meant from.
///
/// The uploads do not depend on each other: the caller may drive them in any
/// order, or all at once. For no reference there is no upload, and so nothing
/// to send.
pub fn dispatch(config: &EndpointConfig, references: &Vec<String>, current_dir: &str) -> (uploads:
    Vec<(UploadState, UploadAction)>)
    ensures
        uploads@.len() == references@.len(),
        forall|i: int|
            0 <= i < references@.len() ==> ((#[trigger] uploads@[i]).0@, uploads@[i].1@)
                == upload_start(config@.upload_url, references@[i]@, current_dir@),
{
    let mut uploads: Vec<(UploadState, UploadAction)> = Vec::new();
    let mut i: usize = 0;
    while i < references.len()
        invariant
            i <= references@.len(),
            uploads@.len() == i,
            forall|j: int|
                0 <= j < i ==> ((#[trigger] uploads@[j]).0@, uploads@[j].1@) == upload_start(
                    config@.upload_url,
                    references@[j]@,
                    current_dir@,
                ),
        decreases references@.len() - i,
    {
        let upload = config.begin(references[i].as_str(), current_dir);
        uploads.push(upload);
        i = i + 1;
    }
    uploads
}

/// A [`Batch`] in contracts: the number of uploads that were started, and what
/// has been recorded of them.
pub struct BatchView {
    pub started: nat,
    pub outcome: BatchOutcomeView,
}

impl BatchView {
    /// Every upload that was started has ended and is recorded.
    pub open spec fn complete(self) -> bool {
        self.outcome.count() == self.started
    }

    /// The batch with one more result, where an upload is still under way;
    /// else the batch as it is.
    pub open spec fn record(self, result: Result<CheveretoUploadResponse, Seq<char>>) -> BatchView {
        if self.outcome.count() < self.started {
            BatchView { started: self.started, outcome: self.outcome.record(result) }
        } else {
            self
        }
    }
}

impl BatchView {
    /// A batch of `started` uploads of which none has ended.
    pub open spec fn of(started: nat) -> BatchView {
        BatchView { started, outcome: BatchOutcomeView::empty() }
    }

    /// The batch with the results of `results` recorded one after the other.
    pub open spec fn record_all(self, results: Seq<Result<CheveretoUploadResponse, Seq<char>>>) -> BatchView
        decreases results.len(),
    {
        if results.len() == 0 {
            self
        } else {
            self.record_all(results.drop_last()).record(results.last())
        }
    }
}

/// A batch is complete exactly when as many results have been recorded as
/// uploads were started, and not before: of a batch of `started` uploads that
/// was handed `results`, the outcome holds one result for each of the first
/// `started` of them, so its successes and failures are `started` together
/// once all uploads have ended.
pub proof fn batch_is_complete_after_every_upload(
    started: nat,
    results: Seq<Result<CheveretoUploadResponse, Seq<char>>>,
)
    ensures
        BatchView::of(started).record_all(results).started == started,
        BatchView::of(started).record_all(results).outcome.count() == if results.len()
            <= started {
            results.len()
        } else {
            started
        },
        BatchView::of(started).record_all(results).complete() <==> results.len() >= started,
        results.len() <= started ==> BatchView::of(started).record_all(results).outcome
            == BatchOutcomeView::empty().record_all(results),
    decreases results.len(),
{
    if results.len() > 0 {
        batch_is_complete_after_every_upload(started, results.drop_last());
    }
}

/// A batch under way. It knows how many uploads were started and hands its
/// outcome out only when all of them have ended, however the uploads are
/// scheduled.
#[derive(Debug)]
pub struct Batch {
    started: usize,
    outcome: BatchOutcome,
}

impl View for Batch {
    type V = BatchView;

    closed spec fn view(&self) -> BatchView {
        BatchView { started: self.started as nat, outcome: self.outcome@ }
    }
}

impl Batch {
    /// Starts one upload for each of `references`, as [`dispatch`] does, and
    /// the batch that waits for them.
    pub fn start(config: &EndpointConfig, references: &Vec<String>, current_dir: &str) -> (started:
        (Batch, Vec<(UploadState, UploadAction)>))
        ensures
            started.0@ == BatchView::of(references@.len()),
            started.1@.len() == references@.len(),
            forall|i: int|
                0 <= i < references@.len() ==> ((#[trigger] started.1@[i]).0@, started.1@[i].1@)
                    == upload_start(config@.upload_url, references@[i]@, current_dir@),
    {
        let uploads = dispatch(config, references, current_dir);
        (Batch { started: uploads.len(), outcome: BatchOutcome::new() }, uploads)
    }

    /// Records the result of one upload of the batch that has ended. A result
    /// beyond the number of uploads that were started is not recorded, and
    /// `false` is returned.
    pub fn record(&mut self, result: Result<CheveretoUploadResponse, UploadError>) -> (recorded:
        bool)
        ensures
            recorded == (old(self)@.outcome.count() < old(self)@.started),
            final(self)@ == old(self)@.record(result_view(result)),
    {
        let successes: usize = self.outcome.success_count();
        let failures: usize = self.outcome.failure_count();
        if successes < self.started && failures < self.started - successes {
            self.outcome.record(result);
            true
        } else {
            false
        }
    }

    /// Whether every upload that was started has ended and is recorded.
    pub fn is_complete(&self) -> (complete: bool)
        ensures
            complete == self@.complete(),
    {
        let successes: usize = self.outcome.success_count();
        let failures: usize = self.outcome.failure_count();
        successes <= self.started && failures == self.started - successes
    }

    /// The outcome of the batch, once it is complete: it then holds one
    /// result for each upload that was started. Before that the batch is
    /// handed back as it is.
    pub fn finish(self) -> (ended: Result<BatchOutcome, Batch>)
        ensures
            match ended {
                Ok(outcome) => self@.complete() && outcome@ == self@.outcome && outcome@.count()
                    == self@.started,
                Err(batch) => !self@.complete() && batch == self,
            },
    {
        if self.is_complete() {
            Ok(self.outcome)
        } else {
            Err(self)
        }
    }
}

/// The lines of a report in contracts.
pub open spec fn lines_view(lines: Seq<String>) -> Seq<Seq<char>> {
    lines.map_values(|line: String| line@)
}

/// The lines that report the failures: a heading and the message of each
/// failure; nothing where `force` is set or nothing failed.
pub open spec fn error_lines(failures: Seq<Seq<char>>, force: bool) -> Seq<Seq<char>> {
    if !force && failures.len() > 0 {
        seq!["Errors:"@] + failures
    } else {
        Seq::empty()
    }
}

/// The lines that report the successes: a heading and the URL of each
/// uploaded file; nothing where `print` is not set or nothing succeeded.
pub open spec fn success_lines(successes: Seq<CheveretoUploadResponse>, print: bool) -> Seq<
    Seq<char>,
> {
    if print && successes.len() > 0 {
        seq!["Upload Success:"@] + successes.map_values(
            |response: CheveretoUploadResponse| response.file_url(),
        )
    } else {
        Seq::empty()
    }
}

/// The lines of the report on `outcome`: the failures, then the successes.
pub open spec fn report(outcome: BatchOutcomeView, force: bool, print: bool) -> Seq<Seq<char>> {
    error_lines(outcome.failures, force) + success_lines(outcome.successes, print)
}

/// The lines that report `outcome` to the user. `force` leaves the failures
/// out, and only with `print` are the successes shown.
pub fn report_lines(outcome: &BatchOutcome, force: bool, print: bool) -> (lines: Vec<String>)
    ensures
        lines_view(lines@) == report(outcome@, force, print),
{
    let mut lines: Vec<String> = Vec::new();
    let failures = outcome.failures();
    if !force && failures.len() > 0 {
        lines.push(String::from_str("Errors:"));
        let mut i: usize = 0;
        while i < failures.len()
            invariant
                i <= failures@.len(),
                failures@.map_values(|error: UploadError| error@) == outcome@.failures,
                lines_view(lines@) == seq!["Errors:"@] + outcome@.failures.take(i as int),
            decreases failures@.len() - i,
        {
            let ghost before = lines_view(lines@);
            lines.push(failures[i].to_string());
            proof {
                assert(lines_view(lines@) =~= before.push(failures@[i as int]@));
                assert(outcome@.failures.take(i + 1) =~= outcome@.failures.take(i as int).push(
                    failures@[i as int]@,
                ));
                assert(lines_view(lines@) =~= seq!["Errors:"@] + outcome@.failures.take(i + 1));
            }
            i = i + 1;
        }
        assert(outcome@.failures.take(i as int) =~= outcome@.failures);
    }
    assert(lines_view(lines@) =~= error_lines(outcome@.failures, force));
    let successes = outcome.successes();
    if print && successes.len() > 0 {
        let ghost head = lines_view(lines@) + seq!["Upload Success:"@];
        let ghost urls = successes@.map_values(
            |response: CheveretoUploadResponse| response.file_url(),
        );
        lines.push(String::from_str("Upload Success:"));
        assert(lines_view(lines@) =~= head + urls.take(0));
        let mut i: usize = 0;
        while i < successes.len()
            invariant
                i <= successes@.len(),
                successes@ == outcome@.successes,
                outcome@.well_formed(),
                urls == successes@.map_values(
                    |response: CheveretoUploadResponse| response.file_url(),
                ),
                lines_view(lines@) == head + urls.take(i as int),
            decreases successes@.len() - i,
        {
            let ghost before = lines_view(lines@);
            lines.push(successes[i].upload_file_url());
            proof {
                assert(lines_view(lines@) =~= before.push(successes@[i as int].file_url()));
                assert(urls.take(i + 1) =~= urls.take(i as int).push(successes@[i as int].file_url()));
                assert(lines_view(lines@) =~= head + urls.take(i + 1));
            }
            i = i + 1;
        }
        assert(urls.take(i as int) =~= urls);
        assert(lines_view(lines@) =~= report(outcome@, force, print));
    }
    lines
}

} // verus!
