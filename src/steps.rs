//! The three maintenance steps, the context detected before them, and how
//! each step's captured output becomes what the operator sees.
use vstd::prelude::*;

use crate::text::{
    chars_of, is_blank, is_blank_str, join_newlines, join_newlines_str, split_newlines,
    split_newlines_str, trim, trim_end, trim_end_of, trim_of, views,
};

verus! {

/// Header that the update step prints before its work; lines that begin
/// with it carry no news.
pub const UPDATE_BANNER: &'static str = "==> Updating Homebrew";

/// The sentence with which the update step reports that nothing moved.
pub const ALREADY_UP_TO_DATE: &'static str = "Already up-to-date.";

/// One of the three fixed steps, in the order in which they run.
#[derive(Clone, Copy, PartialEq, Eq, Structural, Debug)]
pub enum BrewStep {
    Update,
    Upgrade,
    Cleanup,
}

/// What was learned before any step ran: whether packages are outdated.
#[derive(Clone, Copy, PartialEq, Eq, Structural, Debug)]
pub struct BrewContext {
    pub is_outdated: bool,
}

/// What one invocation of the tool left behind: its two text streams, and
/// whether it exited successfully (with its exit code, if it had one).
#[derive(Debug)]
pub struct CapturedOutput {
    pub stdout: String,
    pub stderr: String,
    pub success: bool,
    pub code: Option<i32>,
}

/// What the operator is shown for a step.
#[derive(PartialEq, Eq, Debug)]
pub enum StepOutcome {
    /// The canonical "No changes." indicator.
    NoChanges,
    /// A block for standard output and one for standard error; a blank
    /// block is not shown.
    Changes { stdout: String, stderr: String },
}

/// The mathematical content of a `StepOutcome`.
pub enum OutcomeModel {
    NoChanges,
    Changes { stdout: Seq<char>, stderr: Seq<char> },
}

impl View for StepOutcome {
    type V = OutcomeModel;

    open spec fn view(&self) -> OutcomeModel {
        match self {
            StepOutcome::NoChanges => OutcomeModel::NoChanges,
            StepOutcome::Changes { stdout, stderr } => OutcomeModel::Changes {
                stdout: stdout@,
                stderr: stderr@,
            },
        }
    }
}

/// Why a step stops the run: the upgrade step's process exited
/// unsuccessfully, with the exit code if it had one.
#[derive(Clone, Copy, PartialEq, Eq, Debug)]
pub enum StepError {
    StepExecution { code: Option<i32> },
}

/// What a step asks for before any process is started.
#[derive(PartialEq, Eq, Debug)]
pub enum StepAction {
    /// The step is settled without invoking the tool.
    Finish(StepOutcome),
    /// The tool must be invoked with the step's arguments.
    Invoke,
}

/// `true` when `l` begins with the update banner.
pub open spec fn is_update_banner(l: Seq<char>) -> bool {
    UPDATE_BANNER@.len() <= l.len() && l.subrange(0, UPDATE_BANNER@.len() as int)
        == UPDATE_BANNER@
}

/// The update step's lines, each without trailing whitespace, with banner
/// lines and blank lines left out.
pub open spec fn kept_update_lines(ls: Seq<Seq<char>>) -> Seq<Seq<char>>
    decreases ls.len(),
{
    if ls.len() == 0 {
        Seq::<Seq<char>>::empty()
    } else {
        let rest = kept_update_lines(ls.drop_last());
        let l = trim_end_of(ls.last());
        if !is_update_banner(l) && !is_blank(l) {
            rest.push(l)
        } else {
            rest
        }
    }
}

/// The lines of standard output followed by those of standard error, as
/// the update step keeps them.
pub open spec fn update_lines(stdout: Seq<char>, stderr: Seq<char>) -> Seq<Seq<char>> {
    kept_update_lines(split_newlines(stdout) + split_newlines(stderr))
}

/// Every line reads, once trimmed, as the up-to-date sentence.
pub open spec fn all_up_to_date(ls: Seq<Seq<char>>) -> bool {
    forall|i: int| 0 <= i < ls.len() ==> #[trigger] trim_of(ls[i]) == ALREADY_UP_TO_DATE@
}

/// The update step's summary of its two streams.
pub open spec fn update_outcome(stdout: Seq<char>, stderr: Seq<char>) -> OutcomeModel {
    let ls = update_lines(stdout, stderr);
    if ls.len() == 0 || all_up_to_date(ls) {
        OutcomeModel::NoChanges
    } else {
        OutcomeModel::Changes { stdout: join_newlines(ls), stderr: Seq::<char>::empty() }
    }
}

/// The upgrade and cleanup steps' summary of their two streams.
pub open spec fn streams_outcome(stdout: Seq<char>, stderr: Seq<char>) -> OutcomeModel {
    if is_blank(stdout) && is_blank(stderr) {
        OutcomeModel::NoChanges
    } else {
        OutcomeModel::Changes { stdout: trim_of(stdout), stderr: trim_of(stderr) }
    }
}

/// `true` when `s` begins with `p`.
pub fn starts_with(s: &str, p: &str) -> (r: bool)
    ensures
        r == (p@.len() <= s@.len() && s@.subrange(0, p@.len() as int) == p@),
{
    let sv = chars_of(s);
    let pv = chars_of(p);
    if pv.len() > sv.len() {
        return false;
    }
    let mut i: usize = 0;
    while i < pv.len()
        invariant
            sv@ == s@,
            pv@ == p@,
            pv@.len() <= sv@.len(),
            i <= pv@.len(),
            forall|j: int| 0 <= j < i ==> sv@[j] == pv@[j],
        decreases pv@.len() - i,
    {
        if sv[i] != pv[i] {
            assert(s@.subrange(0, p@.len() as int)[i as int] != p@[i as int]);
            return false;
        }
        i = i + 1;
    }
    assert(s@.subrange(0, p@.len() as int) =~= p@);
    true
}

/// The update step's lines of `ls`, as `kept_update_lines` states.
fn keep_update_lines(ls: &Vec<String>) -> (r: Vec<String>)
    ensures
        views(r@) == kept_update_lines(views(ls@)),
{
    let mut out: Vec<String> = Vec::new();
    let mut i: usize = 0;
    while i < ls.len()
        invariant
            i <= ls@.len(),
            views(out@) == kept_update_lines(views(ls@.subrange(0, i as int))),
        decreases ls@.len() - i,
    {
        let ghost pre = views(ls@.subrange(0, i as int));
        let ghost next = views(ls@.subrange(0, i + 1));
        assert(next.drop_last() =~= pre);
        assert(next.last() == ls@[i as int]@);
        let l = trim_end(ls[i].as_str());
        if !starts_with(l.as_str(), UPDATE_BANNER) && !is_blank_str(l.as_str()) {
            out.push(l);
            assert(views(out@) =~= kept_update_lines(pre).push(l@));
        }
        i = i + 1;
    }
    assert(ls@.subrange(0, i as int) =~= ls@);
    out
}

/// `true` when every line of `ls` reads, trimmed, as the up-to-date sentence.
fn all_up_to_date_exec(ls: &Vec<String>) -> (r: bool)
    ensures
        r == all_up_to_date(views(ls@)),
{
    let expected = String::from_str(ALREADY_UP_TO_DATE);
    let mut i: usize = 0;
    while i < ls.len()
        invariant
            i <= ls@.len(),
            expected@ == ALREADY_UP_TO_DATE@,
            forall|j: int| 0 <= j < i ==> #[trigger] trim_of(ls@[j]@) == ALREADY_UP_TO_DATE@,
        decreases ls@.len() - i,
    {
        let t = trim(ls[i].as_str());
        if !(t == expected) {
            assert(trim_of(views(ls@)[i as int]) != ALREADY_UP_TO_DATE@);
            return false;
        }
        i = i + 1;
    }
    assert forall|j: int| 0 <= j < views(ls@).len() implies #[trigger] trim_of(views(ls@)[j])
        == ALREADY_UP_TO_DATE@ by {
        assert(trim_of(ls@[j]@) == ALREADY_UP_TO_DATE@);
    }
    true
}

/// Summary of the update step: banner and blank lines are dropped; nothing
/// left, or only the up-to-date sentence, is "No changes."; otherwise the
/// kept lines, joined with newlines, form one block.
pub fn classify_update(stdout: &str, stderr: &str) -> (r: StepOutcome)
    ensures
        r@ == update_outcome(stdout@, stderr@),
{
    let mut ls = split_newlines_str(stdout);
    let mut more = split_newlines_str(stderr);
    let ghost a = ls@;
    let ghost b = more@;
    ls.append(&mut more);
    assert(views(ls@) =~= split_newlines(stdout@) + split_newlines(stderr@)) by {
        assert(ls@ == a + b);
    }
    let kept = keep_update_lines(&ls);
    if kept.len() == 0 || all_up_to_date_exec(&kept) {
        StepOutcome::NoChanges
    } else {
        StepOutcome::Changes { stdout: join_newlines_str(&kept), stderr: String::new() }
    }
}

/// Summary of the upgrade and cleanup steps: both streams blank is
/// "No changes."; otherwise each stream, trimmed, is its own block.
pub fn classify_streams(stdout: &str, stderr: &str) -> (r: StepOutcome)
    ensures
        r@ == streams_outcome(stdout@, stderr@),
{
    if is_blank_str(stdout) && is_blank_str(stderr) {
        StepOutcome::NoChanges
    } else {
        StepOutcome::Changes { stdout: trim(stdout), stderr: trim(stderr) }
    }
}

/// The package-manager executable that every step invokes.
pub const TOOL: &'static str = "brew";

/// The text that stands for a step with nothing to report.
pub const NO_CHANGES: &'static str = "No changes.";

/// Views of a list of string slices.
pub open spec fn str_views(v: Seq<&'static str>) -> Seq<Seq<char>> {
    v.map_values(|x: &'static str| x@)
}

/// The arguments of the query that tells whether packages are outdated.
pub open spec fn outdated_query_args_of() -> Seq<Seq<char>> {
    seq!["outdated"@, "--quiet"@]
}

/// Arguments of the query run before any step.
pub fn outdated_query_args() -> (r: Vec<&'static str>)
    ensures
        str_views(r@) == outdated_query_args_of(),
{
    let r = vec!["outdated", "--quiet"];
    assert(str_views(r@) =~= outdated_query_args_of());
    r
}

impl BrewContext {
    /// The context that the outdated query's standard output gives:
    /// packages are outdated exactly when that output is not blank.
    pub fn detect(query_stdout: &str) -> (r: BrewContext)
        ensures
            r.is_outdated == !is_blank(query_stdout@),
    {
        BrewContext { is_outdated: !is_blank_str(query_stdout) }
    }
}

/// The upgrade step is settled without the tool when nothing is outdated.
pub open spec fn settled_without_tool(step: BrewStep, ctx: BrewContext) -> bool {
    step == BrewStep::Upgrade && !ctx.is_outdated
}

/// What a step yields for what the tool left behind.
pub open spec fn step_result(step: BrewStep, c: CapturedOutput) -> Result<OutcomeModel, StepError> {
    match step {
        BrewStep::Update => Ok(update_outcome(c.stdout@, c.stderr@)),
        BrewStep::Upgrade => if c.success {
            Ok(streams_outcome(c.stdout@, c.stderr@))
        } else {
            Err(StepError::StepExecution { code: c.code })
        },
        BrewStep::Cleanup => Ok(streams_outcome(c.stdout@, c.stderr@)),
    }
}

/// The steps of a run, in order.
pub open spec fn step_sequence() -> Seq<BrewStep> {
    seq![BrewStep::Update, BrewStep::Upgrade, BrewStep::Cleanup]
}

/// The steps of a run, in the order in which they run.
pub fn all_steps() -> (r: Vec<BrewStep>)
    ensures
        r@ == step_sequence(),
{
    let r = vec![BrewStep::Update, BrewStep::Upgrade, BrewStep::Cleanup];
    assert(r@ =~= step_sequence());
    r
}

impl BrewStep {
    /// The label shown in the step's header.
    pub open spec fn label_of(self) -> Seq<char> {
        match self {
            BrewStep::Update => "Updating Homebrew..."@,
            BrewStep::Upgrade => "Upgrading Homebrew..."@,
            BrewStep::Cleanup => "Cleaning up..."@,
        }
    }

    /// The arguments with which the step invokes the tool.
    pub open spec fn args_of(self) -> Seq<Seq<char>> {
        match self {
            BrewStep::Update => seq!["update"@],
            BrewStep::Upgrade => seq!["upgrade"@],
            BrewStep::Cleanup => seq!["cleanup"@, "-s"@],
        }
    }

    pub fn label(self) -> (r: &'static str)
        ensures
            r@ == self.label_of(),
    {
        match self {
            BrewStep::Update => "Updating Homebrew...",
            BrewStep::Upgrade => "Upgrading Homebrew...",
            BrewStep::Cleanup => "Cleaning up...",
        }
    }

    pub fn args(self) -> (r: Vec<&'static str>)
        ensures
            str_views(r@) == self.args_of(),
    {
        let r = match self {
            BrewStep::Update => vec!["update"],
            BrewStep::Upgrade => vec!["upgrade"],
            BrewStep::Cleanup => vec!["cleanup", "-s"],
        };
        assert(str_views(r@) =~= self.args_of());
        r
    }

    /// Whether the step needs the tool at all: only the upgrade step, when
    /// nothing is outdated, is settled beforehand, as "No changes.".
    pub fn run(self, ctx: &BrewContext) -> (r: StepAction)
        ensures
            match r {
                StepAction::Finish(o) => settled_without_tool(self, *ctx) && o@
                    == OutcomeModel::NoChanges,
                StepAction::Invoke => !settled_without_tool(self, *ctx),
            },
    {
        match self {
            BrewStep::Upgrade => if !ctx.is_outdated {
                StepAction::Finish(StepOutcome::NoChanges)
            } else {
                StepAction::Invoke
            },
            _ => StepAction::Invoke,
        }
    }

    /// The step's outcome for what the tool left behind. Only the upgrade
    /// step looks at the exit status: an unsuccessful one is an error.
    pub fn classify(self, captured: &CapturedOutput) -> (r: Result<StepOutcome, StepError>)
        ensures
            match r {
                Ok(o) => step_result(self, *captured) == Ok::<OutcomeModel, StepError>(o@),
                Err(e) => step_result(self, *captured) == Err::<OutcomeModel, StepError>(e),
            },
    {
        match self {
            BrewStep::Update => Ok(
                classify_update(captured.stdout.as_str(), captured.stderr.as_str()),
            ),
            BrewStep::Upgrade => if captured.success {
                Ok(classify_streams(captured.stdout.as_str(), captured.stderr.as_str()))
            } else {
                Err(StepError::StepExecution { code: captured.code })
            },
            BrewStep::Cleanup => Ok(
                classify_streams(captured.stdout.as_str(), captured.stderr.as_str()),
            ),
        }
    }
}

/// Where a run stands: how many steps have finished, and whether an error
/// stopped it.
#[derive(Clone, Copy, PartialEq, Eq, Structural, Debug)]
pub struct RunProgress {
    pub done: usize,
    pub stopped: bool,
}

/// The step that a run at `p` performs next, if any.
pub open spec fn next_of(p: RunProgress) -> Option<BrewStep> {
    if p.stopped || p.done >= step_sequence().len() {
        None
    } else {
        Some(step_sequence()[p.done as int])
    }
}

/// A run at `p` after a step that succeeded (`ok`) or failed.
pub open spec fn recorded(p: RunProgress, ok: bool) -> RunProgress {
    if next_of(p) is None {
        p
    } else if ok {
        RunProgress { done: (p.done + 1) as usize, stopped: false }
    } else {
        RunProgress { done: p.done, stopped: true }
    }
}

/// A run at `p` after steps with the given successes, in order.
pub open spec fn replayed(p: RunProgress, oks: Seq<bool>) -> RunProgress
    decreases oks.len(),
{
    if oks.len() == 0 {
        p
    } else {
        replayed(recorded(p, oks[0]), oks.drop_first())
    }
}

impl RunProgress {
    /// A run before its first step.
    pub fn new() -> (r: RunProgress)
        ensures
            r == (RunProgress { done: 0, stopped: false }),
    {
        RunProgress { done: 0, stopped: false }
    }

    /// The step to perform next; `None` once all have run or one failed.
    pub fn next_step(&self) -> (r: Option<BrewStep>)
        ensures
            r == next_of(*self),
    {
        if self.stopped || self.done >= 3 {
            None
        } else if self.done == 0 {
            Some(BrewStep::Update)
        } else if self.done == 1 {
            Some(BrewStep::Upgrade)
        } else {
            Some(BrewStep::Cleanup)
        }
    }

    /// Position of the next step, counted from one, and the number of steps.
    pub fn counter(&self) -> (r: (usize, usize))
        requires
            self.done < 3,
        ensures
            r.0 == self.done + 1,
            r.1 == step_sequence().len(),
    {
        (self.done + 1, 3)
    }

    /// Notes how the step just performed ended: a success moves on to the
    /// next step, an error stops the run.
    pub fn record(&mut self, result: &Result<StepOutcome, StepError>)
        ensures
            *final(self) == recorded(*old(self), result is Ok),
    {
        if self.stopped || self.done >= 3 {
            return;
        }
        match result {
            Ok(_) => {
                self.done = self.done + 1;
            },
            Err(_) => {
                self.stopped = true;
            },
        }
    }
}

/// Once a run has stopped, or has no step left, no later step is performed.
pub proof fn lemma_finished_run_stays_finished(p: RunProgress, oks: Seq<bool>)
    requires
        next_of(p) is None,
    ensures
        replayed(p, oks) == p,
        next_of(replayed(p, oks)) is None,
    decreases oks.len(),
{
    if oks.len() > 0 {
        lemma_finished_run_stays_finished(p, oks.drop_first());
    }
}

/// When the upgrade step's process exits unsuccessfully, the step yields a
/// step-execution error carrying the exit code, and no further step of the
/// run is performed, whatever is recorded afterwards.
pub proof fn lemma_failed_upgrade_ends_run(p: RunProgress, c: CapturedOutput, later: Seq<bool>)
    requires
        next_of(p) == Some(BrewStep::Upgrade),
        !c.success,
    ensures
        step_result(BrewStep::Upgrade, c) == Err::<OutcomeModel, StepError>(
            StepError::StepExecution { code: c.code },
        ),
        next_of(recorded(p, false)) is None,
        next_of(replayed(recorded(p, false), later)) is None,
{
    lemma_finished_run_stays_finished(recorded(p, false), later);
}

/// A run in which every step succeeds performs update, upgrade and cleanup,
/// in that order, and then nothing more.
pub proof fn lemma_successful_run_visits_each_step()
    ensures
        next_of(RunProgress { done: 0, stopped: false }) == Some(BrewStep::Update),
        next_of(recorded(RunProgress { done: 0, stopped: false }, true)) == Some(
            BrewStep::Upgrade,
        ),
        next_of(replayed(RunProgress { done: 0, stopped: false }, seq![true, true])) == Some(
            BrewStep::Cleanup,
        ),
        next_of(replayed(RunProgress { done: 0, stopped: false }, seq![true, true, true]))
            is None,
{
    let start = RunProgress { done: 0, stopped: false };
    let after_one = recorded(start, true);
    let after_two = recorded(after_one, true);
    let after_three = recorded(after_two, true);
    assert(seq![true, true].drop_first() =~= seq![true]);
    assert(seq![true].drop_first() =~= Seq::<bool>::empty());
    assert(seq![true, true, true].drop_first() =~= seq![true, true]);
    assert(replayed(after_two, seq![true]) == replayed(after_three, Seq::<bool>::empty()));
    assert(replayed(after_one, seq![true]) == replayed(after_two, Seq::<bool>::empty()));
    assert(replayed(after_one, seq![true, true]) == replayed(after_two, seq![true]));
    assert(replayed(start, seq![true, true]) == replayed(after_one, seq![true]));
    assert(replayed(start, seq![true, true, true]) == replayed(after_one, seq![true, true]));
}

/// When the tool has nothing to do (nothing outdated, the update reporting
/// only that it is up to date, the cleanup silent), every step of a run
/// reports "No changes.". Each outcome depends on the context and on what
/// the tool printed alone, so a second such run reports the same.
pub proof fn lemma_quiet_run_reports_no_changes(
    ctx: BrewContext,
    update: CapturedOutput,
    cleanup: CapturedOutput,
)
    requires
        !ctx.is_outdated,
        all_up_to_date(update_lines(update.stdout@, update.stderr@)),
        is_blank(cleanup.stdout@),
        is_blank(cleanup.stderr@),
    ensures
        step_result(BrewStep::Update, update) == Ok::<OutcomeModel, StepError>(
            OutcomeModel::NoChanges,
        ),
        settled_without_tool(BrewStep::Upgrade, ctx),
        step_result(BrewStep::Cleanup, cleanup) == Ok::<OutcomeModel, StepError>(
            OutcomeModel::NoChanges,
        ),
{
}

} // verus!
