//! The join point of a run: it takes the result of each probe task in turn,
//! says which line reports it and on which stream, and decides the exit
//! status of the process.
//!
//! Exit policy: a target that is down is reported and nothing more; only an
//! abnormal task failure ends the run early, with `EXIT_CODE_ERR`.

use vstd::prelude::*;
use crate::probe::{ProbeError, reason_spec, reason_text};

verus! {

/// Exit status of a run that completed, whatever its targets answered.
pub const EXIT_CODE_OK: i32 = 0;

/// Exit status of a run cut short by an abnormal task failure.
pub const EXIT_CODE_ERR: i32 = 2;

/// How one probe task ended, as seen at the join point.
#[derive(Debug)]
pub enum TaskResult {
    /// The probe returned, with success or with a typed failure.
    Completed(Result<(), ProbeError>),
    /// The task itself crashed or was aborted before it produced a result.
    Abnormal,
}

/// The resolved status of one target.
#[derive(Debug)]
pub enum Outcome {
    Up,
    Down(ProbeError),
}

pub open spec fn outcome_spec(r: Result<(), ProbeError>) -> Outcome {
    match r {
        Ok(()) => Outcome::Up,
        Err(e) => Outcome::Down(e),
    }
}

/// `Up` for a probe that succeeded, `Down` with its error otherwise.
pub fn outcome_of(r: Result<(), ProbeError>) -> (o: Outcome)
    ensures
        o == outcome_spec(r),
{
    match r {
        Ok(()) => Outcome::Up,
        Err(e) => Outcome::Down(e),
    }
}

pub open spec fn up_line(addr: Seq<char>) -> Seq<char> {
    addr + " is up"@
}

pub open spec fn down_line(addr: Seq<char>, e: ProbeError) -> Seq<char> {
    addr + " is not responding! "@ + reason_spec(e)
}

pub open spec fn thread_error_line(addr: Seq<char>) -> Seq<char> {
    "Could not send ping to "@ + addr + ": Thread error"@
}

/// The stream that a report line is written to.
#[derive(Clone, Copy, Debug, PartialEq, Eq, Structural)]
pub enum Stream {
    Stdout,
    Stderr,
}

/// What the run does with one task result: print `line` on `stream`, then
/// exit with `exit_code` if there is one.
#[derive(Debug)]
pub struct Step {
    pub stream: Stream,
    pub line: String,
    pub exit_code: Option<i32>,
}

pub open spec fn step_stream(r: TaskResult) -> Stream {
    match r {
        TaskResult::Completed(Ok(())) => Stream::Stdout,
        _ => Stream::Stderr,
    }
}

pub open spec fn step_line(addr: Seq<char>, r: TaskResult) -> Seq<char> {
    match r {
        TaskResult::Completed(Ok(())) => up_line(addr),
        TaskResult::Completed(Err(e)) => down_line(addr, e),
        TaskResult::Abnormal => thread_error_line(addr),
    }
}

pub open spec fn step_exit(r: TaskResult) -> Option<i32> {
    match r {
        TaskResult::Abnormal => Some(EXIT_CODE_ERR),
        _ => None,
    }
}

/// The state of a run: its targets in order, the outcomes of those already
/// joined, and whether an abnormal failure ended it.
pub ghost struct CheckerView {
    pub targets: Seq<Seq<char>>,
    pub outcomes: Seq<Outcome>,
    pub aborted: bool,
}

impl CheckerView {
    pub open spec fn initial(targets: Seq<Seq<char>>) -> CheckerView {
        CheckerView { targets, outcomes: Seq::empty(), aborted: false }
    }

    /// A result can still be taken: the run goes on and a target is left.
    pub open spec fn accepts(self) -> bool {
        !self.aborted && self.outcomes.len() < self.targets.len()
    }

    pub open spec fn finished(self) -> bool {
        self.aborted || self.outcomes.len() == self.targets.len()
    }

    /// The target whose result is taken next.
    pub open spec fn next_target(self) -> Seq<char> {
        self.targets[self.outcomes.len() as int]
    }

    pub open spec fn step(self, r: TaskResult) -> CheckerView {
        match r {
            TaskResult::Completed(res) => CheckerView {
                outcomes: self.outcomes.push(outcome_spec(res)),
                ..self
            },
            TaskResult::Abnormal => CheckerView { aborted: true, ..self },
        }
    }

    /// The state after taking `results` in order, up to the first abnormal
    /// failure or the last target.
    pub open spec fn run(self, results: Seq<TaskResult>) -> CheckerView
        decreases results.len(),
    {
        if results.len() == 0 || !self.accepts() {
            self
        } else {
            self.step(results[0]).run(results.drop_first())
        }
    }

    pub open spec fn exit_code(self) -> i32 {
        if self.aborted {
            EXIT_CODE_ERR
        } else {
            EXIT_CODE_OK
        }
    }
}

pub open spec fn target_views(targets: Seq<String>) -> Seq<Seq<char>> {
    targets.map_values(|t: String| t@)
}

/// The join point of one run over a list of targets.
pub struct Checker {
    targets: Vec<String>,
    outcomes: Vec<Outcome>,
    aborted: bool,
}

impl View for Checker {
    type V = CheckerView;

    closed spec fn view(&self) -> CheckerView {
        CheckerView {
            targets: target_views(self.targets@),
            outcomes: self.outcomes@,
            aborted: self.aborted,
        }
    }
}

impl Checker {
    /// A run over `targets`, before any result is taken.
    pub fn new(targets: Vec<String>) -> (c: Checker)
        ensures
            c@ == CheckerView::initial(target_views(targets@)),
    {
        Checker { targets, outcomes: Vec::new(), aborted: false }
    }

    /// Takes the result of the next target's task. An abnormal failure ends
    /// the run and asks for `EXIT_CODE_ERR`; any other result adds the
    /// target's outcome.
    pub fn record(&mut self, result: TaskResult) -> (s: Step)
        requires
            old(self)@.accepts(),
        ensures
            final(self)@ == old(self)@.step(result),
            s.stream == step_stream(result),
            s.line@ == step_line(old(self)@.next_target(), result),
            s.exit_code == step_exit(result),
    {
        let i = self.outcomes.len();
        let addr = self.targets[i].clone();
        match result {
            TaskResult::Completed(Ok(())) => {
                let mut line = addr;
                line.append(" is up");
                self.outcomes.push(Outcome::Up);
                Step { stream: Stream::Stdout, line, exit_code: None }
            },
            TaskResult::Completed(Err(e)) => {
                let mut line = addr;
                line.append(" is not responding! ");
                let reason = reason_text(&e);
                line.append(reason.as_str());
                self.outcomes.push(Outcome::Down(e));
                Step { stream: Stream::Stderr, line, exit_code: None }
            },
            TaskResult::Abnormal => {
                let mut line = String::from_str("Could not send ping to ");
                line.append(addr.as_str());
                line.append(": Thread error");
                self.aborted = true;
                Step { stream: Stream::Stderr, line, exit_code: Some(EXIT_CODE_ERR) }
            },
        }
    }

    /// Whether no further result is taken.
    pub fn is_finished(&self) -> (r: bool)
        ensures
            r == self@.finished(),
    {
        self.aborted || self.outcomes.len() == self.targets.len()
    }

    /// The exit status of the run as it stands.
    pub fn exit_code(&self) -> (r: i32)
        ensures
            r == self@.exit_code(),
    {
        if self.aborted {
            EXIT_CODE_ERR
        } else {
            EXIT_CODE_OK
        }
    }

    /// The outcomes taken so far, in target order.
    pub fn outcomes(&self) -> (r: &Vec<Outcome>)
        ensures
            r@ == self@.outcomes,
    {
        &self.outcomes
    }

    /// Ends the run and hands over its outcomes, in target order.
    pub fn into_outcomes(self) -> (r: Vec<Outcome>)
        ensures
            r@ == self@.outcomes,
    {
        self.outcomes
    }
}

/// Everything a run over a batch of task results produced.
#[derive(Debug)]
pub struct BatchReport {
    pub steps: Vec<Step>,
    pub outcomes: Vec<Outcome>,
    pub exit_code: i32,
}

/// Takes `results[i]` as the result of the task for `targets[i]`, in order,
/// and stops at the first abnormal failure. There is one step per result
/// taken, and the exit status is `EXIT_CODE_ERR` exactly when some result
/// is an abnormal failure.
pub fn check_batch(targets: Vec<String>, results: Vec<TaskResult>) -> (r: BatchReport)
    requires
        results@.len() == targets@.len(),
    ensures
        ({
            let f = CheckerView::initial(target_views(targets@)).run(results@);
            &&& r.outcomes@ == f.outcomes
            &&& r.exit_code == f.exit_code()
            &&& r.steps@.len() == f.outcomes.len() + (if f.aborted { 1int } else { 0int })
            &&& forall|k: int|
                0 <= k < r.steps@.len() ==> {
                    &&& (#[trigger] r.steps@[k]).stream == step_stream(results@[k])
                    &&& r.steps@[k].line@ == step_line(targets@[k]@, results@[k])
                    &&& r.steps@[k].exit_code == step_exit(results@[k])
                }
        }),
        r.exit_code == (if exists|k: int| 0 <= k < results@.len() && #[trigger] results@[k] is Abnormal {
            EXIT_CODE_ERR
        } else {
            EXIT_CODE_OK
        }),
{
    let ghost tv = target_views(targets@);
    let ghost all = results@;
    let ghost init = CheckerView::initial(tv);
    proof {
        lemma_run_from(init, all);
    }
    let mut checker = Checker::new(targets);
    let mut rest = results;
    let mut steps: Vec<Step> = Vec::new();
    assert(tv.len() == all.len());
    assert(rest@ =~= all.subrange(0, all.len() as int));
    while rest.len() > 0 && !checker.is_finished()
        invariant
            checker@.run(rest@) == init.run(all),
            checker@.targets == tv,
            tv.len() == all.len(),
            checker@.outcomes.len() <= tv.len(),
            steps@.len() == checker@.outcomes.len() + (if checker@.aborted { 1int } else { 0int }),
            !checker@.aborted ==> rest@ == all.subrange(steps@.len() as int, all.len() as int),
            forall|k: int|
                0 <= k < steps@.len() ==> {
                    &&& (#[trigger] steps@[k]).stream == step_stream(all[k])
                    &&& steps@[k].line@ == step_line(tv[k], all[k])
                    &&& steps@[k].exit_code == step_exit(all[k])
                },
        decreases rest@.len(),
    {
        let ghost rest_before = rest@;
        let result = rest.remove(0);
        assert(rest@ =~= rest_before.drop_first());
        assert(rest@ =~= all.subrange(steps@.len() + 1int, all.len() as int));
        let step = checker.record(result);
        steps.push(step);
    }
    let exit_code = checker.exit_code();
    let outcomes = checker.into_outcomes();
    BatchReport { steps, outcomes, exit_code }
}

/// Taking a batch of results, one per remaining target, from a run that goes
/// on: the run ends aborted exactly when some result is an abnormal failure;
/// otherwise every target gets an outcome. Outcomes already taken stay, and
/// each new one is that of the matching result.
pub proof fn lemma_run_from(s: CheckerView, results: Seq<TaskResult>)
    requires
        !s.aborted,
        s.outcomes.len() + results.len() == s.targets.len(),
    ensures
        ({
            let f = s.run(results);
            &&& f.targets == s.targets
            &&& s.outcomes.len() <= f.outcomes.len() <= s.targets.len()
            &&& f.aborted <==> exists|k: int| 0 <= k < results.len() && #[trigger] results[k] is Abnormal
            &&& !f.aborted ==> f.outcomes.len() == s.targets.len()
            &&& f.aborted ==> f.outcomes.len() < s.targets.len()
            &&& forall|j: int| 0 <= j < s.outcomes.len() ==> #[trigger] f.outcomes[j] == s.outcomes[j]
            &&& forall|j: int|
                s.outcomes.len() <= j < f.outcomes.len() ==> {
                    &&& results[j - s.outcomes.len()] matches TaskResult::Completed(res)
                    &&& #[trigger] f.outcomes[j] == outcome_spec(res)
                }
        }),
    decreases results.len(),
{
    if results.len() > 0 {
        let rest = results.drop_first();
        match results[0] {
            TaskResult::Abnormal => {
                assert(s.step(results[0]).run(rest) == s.step(results[0]));
            },
            TaskResult::Completed(res) => {
                let s1 = s.step(results[0]);
                lemma_run_from(s1, rest);
                assert forall|k: int| 0 <= k < rest.len() implies (#[trigger] rest[k] is Abnormal) == (results[k + 1] is Abnormal) by {}
                if exists|k: int| 0 <= k < results.len() && #[trigger] results[k] is Abnormal {
                    let k = choose|k: int| 0 <= k < results.len() && #[trigger] results[k] is Abnormal;
                    assert(rest[k - 1] is Abnormal);
                }
                let f = s.run(results);
                assert forall|j: int|
                    s.outcomes.len() <= j < f.outcomes.len() implies {
                        &&& results[j - s.outcomes.len()] matches TaskResult::Completed(res)
                        &&& #[trigger] f.outcomes[j] == outcome_spec(res)
                    } by {
                    if j > s.outcomes.len() {
                        assert(rest[j - s1.outcomes.len()] == results[j - s.outcomes.len()]);
                    } else {
                        assert(f.outcomes[j] == s1.outcomes[j]);
                    }
                }
            },
        }
    }
}

/// The public DNS resolvers that a run checks by default.
pub fn default_targets() -> (r: Vec<String>)
    ensures
        r@.len() == 2,
        r@[0]@ == "1.1.1.1"@,
        r@[1]@ == "8.8.8.8"@,
{
    let mut r: Vec<String> = Vec::new();
    r.push(String::from_str("1.1.1.1"));
    r.push(String::from_str("8.8.8.8"));
    r
}

/// A run over `targets` that takes one result per target ends aborted
/// exactly when one of them is an abnormal failure; otherwise it holds
/// exactly one outcome per target, and in every case the outcome of the
/// k-th target is that of the k-th result.
pub proof fn lemma_one_outcome_per_target(targets: Seq<Seq<char>>, results: Seq<TaskResult>)
    requires
        results.len() == targets.len(),
    ensures
        ({
            let f = CheckerView::initial(targets).run(results);
            &&& (forall|k: int| 0 <= k < results.len() ==> !(#[trigger] results[k] is Abnormal))
                ==> !f.aborted && f.outcomes.len() == targets.len()
            &&& (exists|k: int| 0 <= k < results.len() && #[trigger] results[k] is Abnormal)
                ==> f.aborted && f.outcomes.len() < targets.len()
            &&& forall|k: int|
                0 <= k < f.outcomes.len() ==> {
                    &&& results[k] matches TaskResult::Completed(res)
                    &&& #[trigger] f.outcomes[k] == outcome_spec(res)
                }
        }),
{
    lemma_run_from(CheckerView::initial(targets), results);
}

/// A target whose address did not parse is reported as down with the parse
/// error, on standard error, and does not end the run.
pub proof fn lemma_malformed_target_is_down(s: CheckerView, m: String)
    requires
        s.accepts(),
    ensures
        ({
            let r = TaskResult::Completed(Err(ProbeError::InvalidAddress(m)));
            let t = s.step(r);
            &&& t.outcomes == s.outcomes.push(Outcome::Down(ProbeError::InvalidAddress(m)))
            &&& !t.aborted
            &&& step_stream(r) == Stream::Stderr
            &&& step_line(s.next_target(), r)
                == s.next_target() + " is not responding! "@ + "PING ERROR: "@ + m@
            &&& step_exit(r) is None
        }),
{
}

/// A target that answered is reported as up, on standard output, and does
/// not end the run.
pub proof fn lemma_answered_target_is_up(s: CheckerView)
    requires
        s.accepts(),
    ensures
        ({
            let r = TaskResult::Completed(Ok(()));
            let t = s.step(r);
            &&& t.outcomes == s.outcomes.push(Outcome::Up)
            &&& !t.aborted
            &&& step_stream(r) == Stream::Stdout
            &&& step_line(s.next_target(), r) == s.next_target() + " is up"@
            &&& step_exit(r) is None
        }),
{
}

} // verus!
