use vstd::prelude::*;
use vstd::string::StringExecFns;

use crate::git::{
    analysis_args_from_file, analysis_argv, base_sha_from_output, commit_of, fetch_args,
    fetch_argv, needs_fetch, show_ref_args, show_ref_argv, ResolveError,
};
use crate::labels::{call_views, reconcile, reconcile_calls, LabelCall, LabelConfig, LabelOp};
use crate::prepare::{
    is_preparation, prepare_directories, tree_dir, tree_dir_of, PrepareError, PrepareStep, Side,
};
use crate::report::{classify, verdict, ReportError, SemverResult};
use crate::severity::ChangeTypes;
use crate::steps::StepRun;
use crate::text::{texts, trimmed};

verus! {

/// Where a run of the pipeline stands, and so what the caller does next.
#[derive(Clone, Copy, Debug, PartialEq, Eq, Structural)]
pub enum Stage {
    /// Fetch the base ref, then report whether git succeeded.
    Fetch,
    /// Look the base ref up, then report what git printed.
    ResolveRef,
    /// Carry out the current preparation step, then report whether it
    /// succeeded.
    Prepare,
    /// Run the analyzer on the two trees, then report its parsed report.
    Analyze,
    /// Make the current label call, then report whether it succeeded.
    Label,
    /// The run is over and has its category.
    Finished,
    /// The run is over with an error.
    Failed,
}

/// What ended a run, with the stage and the operand that failed.
#[derive(Clone, Debug)]
pub enum PipelineError {
    /// The shallow fetch of the base ref failed.
    FetchFailed,
    /// The base ref could not be resolved.
    Resolve(ResolveError),
    /// A tree could not be prepared.
    Prepare(PrepareError),
    /// The analyzer's output is not a report.
    UnreadableReport,
    /// The report gives no known category.
    Report(ReportError),
    /// A label call failed.
    Label { op: LabelOp, label: String },
}

/// One run of the pipeline: resolve the base revision, prepare the two
/// trees, analyze them, then bring the review request's labels in line with
/// the verdict. The caller does the outside work that each stage names and
/// reports the outcome; the first failure ends the run.
pub struct Pipeline {
    workspace: String,
    base_ref: String,
    head_ref: Ghost<Seq<char>>,
    head_sha: String,
    temp_dir: String,
    config: LabelConfig,
    request: Option<u64>,
    stage: Stage,
    preparation: StepRun<PrepareStep>,
    labels: StepRun<LabelCall>,
    category: Option<ChangeTypes>,
    error: Option<PipelineError>,
}

impl Pipeline {
    pub closed spec fn spec_stage(&self) -> Stage {
        self.stage
    }

    pub closed spec fn spec_workspace(&self) -> Seq<char> {
        self.workspace@
    }

    pub closed spec fn spec_base_ref(&self) -> Seq<char> {
        self.base_ref@
    }

    pub closed spec fn spec_head_ref(&self) -> Seq<char> {
        self.head_ref@
    }

    pub closed spec fn spec_head_sha(&self) -> Seq<char> {
        self.head_sha@
    }

    pub closed spec fn spec_temp_dir(&self) -> Seq<char> {
        self.temp_dir@
    }

    pub closed spec fn spec_config(&self) -> LabelConfig {
        self.config
    }

    pub closed spec fn spec_request(&self) -> Option<u64> {
        self.request
    }

    /// The preparation steps, once the base revision is known.
    pub closed spec fn spec_preparation(&self) -> StepRun<PrepareStep> {
        self.preparation
    }

    /// The label calls, once the category is known.
    pub closed spec fn spec_labels(&self) -> StepRun<LabelCall> {
        self.labels
    }

    pub closed spec fn spec_category(&self) -> Option<ChangeTypes> {
        self.category
    }

    pub closed spec fn spec_error(&self) -> Option<PipelineError> {
        self.error
    }

    pub closed spec fn well_formed(&self) -> bool {
        &&& self.preparation.well_formed()
        &&& self.labels.well_formed()
        &&& self.stage == Stage::Fetch ==> self.base_ref@ != self.head_ref@
        &&& self.stage == Stage::Prepare ==> self.preparation.is_running()
        &&& self.stage == Stage::Label ==> self.labels.is_running() && self.request is Some
        &&& (self.stage == Stage::Failed) == (self.error is Some)
        &&& (self.stage == Stage::Label || self.stage == Stage::Finished) ==> self.category is Some
    }

    /// Whether `self` runs on the same inputs as `other`.
    pub open spec fn same_inputs(&self, other: &Pipeline) -> bool {
        &&& self.spec_workspace() == other.spec_workspace()
        &&& self.spec_base_ref() == other.spec_base_ref()
        &&& self.spec_head_ref() == other.spec_head_ref()
        &&& self.spec_head_sha() == other.spec_head_sha()
        &&& self.spec_temp_dir() == other.spec_temp_dir()
        &&& self.spec_config() == other.spec_config()
        &&& self.spec_request() == other.spec_request()
    }

    /// A run comparing `head_ref` at `head_sha` against `base_ref` in the
    /// checkout `workspace`, with its trees under `temp_dir`, labelling the
    /// review request `request`, if there is one, by `config`. The base ref is
    /// fetched first only when it is not the ref under review.
    pub fn new(
        workspace: &str,
        base_ref: &str,
        head_ref: &str,
        head_sha: &str,
        temp_dir: &str,
        config: LabelConfig,
        request: Option<u64>,
    ) -> (r: Pipeline)
        ensures
            r.well_formed(),
            r.spec_stage() == (if base_ref@ != head_ref@ {
                Stage::Fetch
            } else {
                Stage::ResolveRef
            }),
            r.spec_workspace() == workspace@,
            r.spec_base_ref() == base_ref@,
            r.spec_head_ref() == head_ref@,
            r.spec_head_sha() == head_sha@,
            r.spec_temp_dir() == temp_dir@,
            r.spec_config() == config,
            r.spec_request() == request,
            r.spec_category() is None,
    {
        let stage = if needs_fetch(base_ref, head_ref) {
            Stage::Fetch
        } else {
            Stage::ResolveRef
        };
        Pipeline {
            workspace: String::from_str(workspace),
            base_ref: String::from_str(base_ref),
            head_ref: Ghost(head_ref@),
            head_sha: String::from_str(head_sha),
            temp_dir: String::from_str(temp_dir),
            config,
            request,
            stage,
            preparation: StepRun::new(Vec::new()),
            labels: StepRun::new(Vec::new()),
            category: None,
            error: None,
        }
    }

    pub fn stage(&self) -> (r: Stage)
        ensures
            r == self.spec_stage(),
    {
        self.stage
    }

    /// Arguments to git for the fetch of the base ref.
    pub fn fetch_args(&self) -> (r: Vec<String>)
        ensures
            texts(r@) == fetch_argv(self.spec_workspace(), self.spec_base_ref()),
    {
        fetch_args(self.workspace.as_str(), self.base_ref.as_str())
    }

    /// Records the outcome of the fetch.
    pub fn fetched(&mut self, succeeded: bool)
        requires
            old(self).well_formed(),
            old(self).spec_stage() == Stage::Fetch,
        ensures
            final(self).well_formed(),
            final(self).same_inputs(old(self)),
            succeeded ==> final(self).spec_stage() == Stage::ResolveRef,
            !succeeded ==> final(self).spec_stage() == Stage::Failed && final(self).spec_error()
                == Some(PipelineError::FetchFailed),
    {
        if succeeded {
            self.stage = Stage::ResolveRef;
        } else {
            self.stage = Stage::Failed;
            self.error = Some(PipelineError::FetchFailed);
        }
    }

    /// Arguments to git for the lookup of the base ref.
    pub fn show_ref_args(&self) -> (r: Vec<String>)
        ensures
            texts(r@) == show_ref_argv(self.spec_workspace(), self.spec_base_ref()),
    {
        show_ref_args(self.workspace.as_str(), self.base_ref.as_str())
    }

    /// Records the lookup of the base ref: whether git succeeded and what it
    /// printed. A commit found is the base commit, and the preparation of
    /// the trees comes next; else the run fails with the reason.
    pub fn resolved(&mut self, stdout: Vec<u8>, found: bool)
        requires
            old(self).well_formed(),
            old(self).spec_stage() == Stage::ResolveRef,
        ensures
            final(self).well_formed(),
            final(self).same_inputs(old(self)),
            commit_of(found, stdout@) matches Ok(sha) ==> final(self).spec_stage() == Stage::Prepare
                && is_preparation(
                final(self).spec_preparation().steps(),
                old(self).spec_temp_dir(),
                sha,
                old(self).spec_head_sha(),
            ) && final(self).spec_preparation().done() == 0,
            commit_of(found, stdout@) matches Err(e) ==> final(self).spec_stage() == Stage::Failed
                && final(self).spec_error() == Some(PipelineError::Resolve(e)),
    {
        match base_sha_from_output(stdout, found) {
            Ok(base_sha) => {
                let steps = prepare_directories(
                    self.temp_dir.as_str(),
                    base_sha.as_str(),
                    self.head_sha.as_str(),
                );
                self.preparation = StepRun::new(steps);
                self.stage = Stage::Prepare;
            },
            Err(e) => {
                self.stage = Stage::Failed;
                self.error = Some(PipelineError::Resolve(e));
            },
        }
    }

    /// The preparation step to carry out now.
    pub fn preparation_step(&self) -> (r: &PrepareStep)
        requires
            self.well_formed(),
            self.spec_stage() == Stage::Prepare,
        ensures
            *r == self.spec_preparation().steps()[self.spec_preparation().done() as int],
    {
        self.preparation.current().unwrap()
    }

    /// Records the outcome of the current preparation step; after the last
    /// one the analysis comes next.
    pub fn prepared(&mut self, succeeded: bool)
        requires
            old(self).well_formed(),
            old(self).spec_stage() == Stage::Prepare,
        ensures
            final(self).well_formed(),
            final(self).same_inputs(old(self)),
            final(self).spec_preparation().steps() == old(self).spec_preparation().steps(),
            ({
                let p = old(self).spec_preparation();
                let step = p.steps()[p.done() as int];
                &&& succeeded && p.done() + 1 < p.steps().len() ==> final(self).spec_stage()
                    == Stage::Prepare && final(self).spec_preparation().done() == p.done() + 1
                &&& succeeded && p.done() + 1 == p.steps().len() ==> final(self).spec_stage()
                    == Stage::Analyze
                &&& !succeeded ==> final(self).spec_stage() == Stage::Failed
                    && final(self).spec_error() == Some(
                    PipelineError::Prepare(
                        PrepareError { side: step.spec_side(), action: step.spec_action() },
                    ),
                )
            }),
    {
        let err = self.preparation.current().unwrap().error();
        self.preparation.record(succeeded);
        if !succeeded {
            self.stage = Stage::Failed;
            self.error = Some(PipelineError::Prepare(err));
        } else if self.preparation.is_complete() {
            self.stage = Stage::Analyze;
        }
    }

    /// Arguments to the analyzer for the toolchain named in
    /// `toolchain_file`, over the base and head trees.
    pub fn analysis_args(&self, toolchain_file: &str) -> (r: Vec<String>)
        ensures
            texts(r@) == analysis_argv(
                trimmed(toolchain_file@),
                tree_dir(self.spec_temp_dir(), Side::Base),
                tree_dir(self.spec_temp_dir(), Side::Head),
            ),
    {
        let base_dir = tree_dir_of(self.temp_dir.as_str(), Side::Base);
        let head_dir = tree_dir_of(self.temp_dir.as_str(), Side::Head);
        analysis_args_from_file(toolchain_file, base_dir.as_str(), head_dir.as_str())
    }

    /// Records the analyzer's report, `None` where its output could not be
    /// read as one. The verdict is kept; the label calls of the verdict
    /// follow, and there are none when the change has no review request.
    pub fn analyzed(&mut self, report: Option<SemverResult>)
        requires
            old(self).well_formed(),
            old(self).spec_stage() == Stage::Analyze,
        ensures
            final(self).well_formed(),
            final(self).same_inputs(old(self)),
            report is None ==> final(self).spec_stage() == Stage::Failed
                && final(self).spec_error() == Some(PipelineError::UnreadableReport),
            report matches Some(rep) ==> match verdict(rep.changes.max_category) {
                Err(e) => final(self).spec_stage() == Stage::Failed && final(self).spec_error()
                    == Some(PipelineError::Report(e)),
                Ok(c) => {
                    &&& final(self).spec_category() == Some(c)
                    &&& final(self).spec_labels().done() == 0
                    &&& !final(self).spec_labels().has_failed()
                    &&& old(self).spec_request() is None ==> final(self).spec_labels().steps().len()
                        == 0
                    &&& old(self).spec_request() is Some ==> call_views(
                        final(self).spec_labels().steps(),
                    ) == reconcile_calls(old(self).spec_config(), c)
                    &&& final(self).spec_stage() == (if final(self).spec_labels().steps().len()
                        > 0 {
                        Stage::Label
                    } else {
                        Stage::Finished
                    })
                },
            },
    {
        match report {
            None => {
                self.stage = Stage::Failed;
                self.error = Some(PipelineError::UnreadableReport);
            },
            Some(rep) => match classify(&rep) {
                Err(e) => {
                    self.stage = Stage::Failed;
                    self.error = Some(PipelineError::Report(e));
                },
                Ok(c) => {
                    let calls = reconcile(&self.config, c, self.request);
                    let any = calls.len() > 0;
                    self.labels = StepRun::new(calls);
                    self.category = Some(c);
                    if any {
                        self.stage = Stage::Label;
                    } else {
                        self.stage = Stage::Finished;
                    }
                },
            },
        }
    }

    /// The label call to make now.
    pub fn label_call(&self) -> (r: &LabelCall)
        requires
            self.well_formed(),
            self.spec_stage() == Stage::Label,
        ensures
            *r == self.spec_labels().steps()[self.spec_labels().done() as int],
    {
        self.labels.current().unwrap()
    }

    /// Records the outcome of the current label call; after the last one
    /// the run is finished.
    pub fn labelled(&mut self, succeeded: bool)
        requires
            old(self).well_formed(),
            old(self).spec_stage() == Stage::Label,
        ensures
            final(self).well_formed(),
            final(self).same_inputs(old(self)),
            final(self).spec_category() == old(self).spec_category(),
            final(self).spec_labels().steps() == old(self).spec_labels().steps(),
            ({
                let l = old(self).spec_labels();
                let call = l.steps()[l.done() as int];
                &&& succeeded && l.done() + 1 < l.steps().len() ==> final(self).spec_stage()
                    == Stage::Label && final(self).spec_labels().done() == l.done() + 1
                &&& succeeded && l.done() + 1 == l.steps().len() ==> final(self).spec_stage()
                    == Stage::Finished
                &&& !succeeded ==> final(self).spec_stage() == Stage::Failed
                    && (final(self).spec_error() matches Some(PipelineError::Label { op, label })
                    && op == call.op && label@ == call.label@)
            }),
    {
        let call = self.labels.current().unwrap();
        let op = call.op;
        let label = String::from_str(call.label.as_str());
        self.labels.record(succeeded);
        if !succeeded {
            self.stage = Stage::Failed;
            self.error = Some(PipelineError::Label { op, label });
        } else if self.labels.is_complete() {
            self.stage = Stage::Finished;
        }
    }

    /// Records that the current removal found its label already absent from
    /// the request. Removing an absent label leaves the labels as they are,
    /// so this counts as the removal's success.
    pub fn label_absent(&mut self)
        requires
            old(self).well_formed(),
            old(self).spec_stage() == Stage::Label,
            old(self).spec_labels().steps()[old(self).spec_labels().done() as int].op
                == LabelOp::Remove,
        ensures
            final(self).well_formed(),
            final(self).same_inputs(old(self)),
            final(self).spec_category() == old(self).spec_category(),
            final(self).spec_labels().steps() == old(self).spec_labels().steps(),
            ({
                let l = old(self).spec_labels();
                &&& l.done() + 1 < l.steps().len() ==> final(self).spec_stage() == Stage::Label
                    && final(self).spec_labels().done() == l.done() + 1
                &&& l.done() + 1 == l.steps().len() ==> final(self).spec_stage() == Stage::Finished
            }),
    {
        self.labelled(true);
    }

    /// The category of the change, once the report has been read.
    pub fn category(&self) -> (r: Option<ChangeTypes>)
        ensures
            r == self.spec_category(),
    {
        self.category
    }

    /// What ended the run, if it failed.
    pub fn error(&self) -> (r: Option<&PipelineError>)
        ensures
            r == match self.spec_error() {
                Some(e) => Some(&e),
                None => None::<&PipelineError>,
            },
    {
        match &self.error {
            Some(e) => Some(e),
            None => None,
        }
    }
}

/// Where the base ref is the ref under review, no state of the run fetches.
pub proof fn same_ref_is_never_fetched(p: Pipeline)
    requires
        p.well_formed(),
        p.spec_base_ref() == p.spec_head_ref(),
    ensures
        p.spec_stage() != Stage::Fetch,
{
}

/// Where the change has no review request, no state of the run makes a label
/// call.
pub proof fn no_request_no_label_calls(p: Pipeline)
    requires
        p.well_formed(),
        p.spec_request() is None,
    ensures
        p.spec_stage() != Stage::Label,
{
}

} // verus!
