//! Counting the outcomes of a run over many files, where a run either goes
//! on past failures or, in fail-fast mode, stops at the first one.
use vstd::prelude::*;

verus! {

/// The counts of a run.
pub struct TallyModel {
    pub succeeded: nat,
    pub failed: nat,
    pub aborted: bool,
    pub fail_fast: bool,
}

pub open spec fn empty_tally(fail_fast: bool) -> TallyModel {
    TallyModel { succeeded: 0, failed: 0, aborted: false, fail_fast }
}

/// What a run's counts keep: in fail-fast mode at most one failure, and the
/// run is aborted exactly when there is one; otherwise never aborted.
pub open spec fn fail_fast_kept(t: TallyModel) -> bool {
    if t.fail_fast {
        t.failed <= 1 && (t.aborted <==> t.failed == 1)
    } else {
        !t.aborted
    }
}

/// The counts after one more file, which succeeded when `ok`.
pub open spec fn tally_step(t: TallyModel, ok: bool) -> TallyModel {
    if ok {
        TallyModel { succeeded: t.succeeded + 1, ..t }
    } else {
        TallyModel { failed: t.failed + 1, aborted: t.fail_fast, ..t }
    }
}

/// The counts of a run over files whose outcomes are `outcomes`, in order;
/// once the run is aborted, the remaining files are not processed.
pub open spec fn run_tally(outcomes: Seq<bool>, fail_fast: bool) -> TallyModel
    decreases outcomes.len(),
{
    if outcomes.len() == 0 {
        empty_tally(fail_fast)
    } else {
        let before = run_tally(outcomes.drop_last(), fail_fast);
        if before.aborted {
            before
        } else {
            tally_step(before, outcomes.last())
        }
    }
}

/// How many outcomes in `outcomes` are failures.
pub open spec fn failures(outcomes: Seq<bool>) -> nat
    decreases outcomes.len(),
{
    if outcomes.len() == 0 {
        0
    } else {
        failures(outcomes.drop_last()) + if outcomes.last() {
            0nat
        } else {
            1nat
        }
    }
}

/// Law: a run that goes on past failures processes every file, counts each
/// failure, and is never aborted.
pub proof fn law_run_goes_on(outcomes: Seq<bool>)
    ensures
        run_tally(outcomes, false).succeeded + run_tally(outcomes, false).failed == outcomes.len(),
        run_tally(outcomes, false).failed == failures(outcomes),
        !run_tally(outcomes, false).aborted,
    decreases outcomes.len(),
{
    lemma_tally_mode(outcomes, false);
    if outcomes.len() > 0 {
        law_run_goes_on(outcomes.drop_last());
        lemma_tally_mode(outcomes.drop_last(), false);
    }
}

/// Law: a fail-fast run stops at the first failure: it is aborted exactly
/// when some file failed, it then counts that one failure and the successes
/// before it, and without a failure it processes every file.
pub proof fn law_fail_fast_stops(outcomes: Seq<bool>)
    ensures
        run_tally(outcomes, true).aborted <==> failures(outcomes) > 0,
        run_tally(outcomes, true).failed == if failures(outcomes) > 0 {
            1nat
        } else {
            0nat
        },
        run_tally(outcomes, true).aborted ==> ({
            let k = run_tally(outcomes, true).succeeded;
            k < outcomes.len() && !outcomes[k as int] && forall|i: int| 0 <= i < k ==> outcomes[i]
        }),
        !run_tally(outcomes, true).aborted ==> run_tally(outcomes, true).succeeded == outcomes.len(),
    decreases outcomes.len(),
{
    if outcomes.len() > 0 {
        let prefix = outcomes.drop_last();
        law_fail_fast_stops(prefix);
        lemma_tally_mode(prefix, true);
        assert(prefix.push(outcomes.last()) == outcomes);
        lemma_failures_extend(prefix, outcomes.last());
        assert forall|i: int| 0 <= i < prefix.len() implies prefix[i] == outcomes[i] by {}
        if !run_tally(prefix, true).aborted {
            lemma_no_failures(prefix);
        }
    }
}

/// A run keeps the mode it was started in.
pub proof fn lemma_tally_mode(outcomes: Seq<bool>, fail_fast: bool)
    ensures
        run_tally(outcomes, fail_fast).fail_fast == fail_fast,
    decreases outcomes.len(),
{
    if outcomes.len() > 0 {
        lemma_tally_mode(outcomes.drop_last(), fail_fast);
    }
}

proof fn lemma_no_failures(s: Seq<bool>)
    requires
        failures(s) == 0,
    ensures
        forall|i: int| 0 <= i < s.len() ==> s[i],
    decreases s.len(),
{
    if s.len() > 0 {
        lemma_no_failures(s.drop_last());
        assert forall|i: int| 0 <= i < s.len() implies s[i] by {
            if i < s.len() - 1 {
                assert(s.drop_last()[i] == s[i]);
            }
        }
    }
}

proof fn lemma_failures_extend(s: Seq<bool>, b: bool)
    ensures
        failures(s.push(b)) == failures(s) + if b {
            0nat
        } else {
            1nat
        },
{
    assert(s.push(b).drop_last() == s);
}

/// Law: recording one more outcome on a run that is not aborted is the
/// same as running over the longer sequence of outcomes.
pub proof fn law_tally_extends(outcomes: Seq<bool>, ok: bool, fail_fast: bool)
    requires
        !run_tally(outcomes, fail_fast).aborted,
    ensures
        run_tally(outcomes.push(ok), fail_fast) == tally_step(run_tally(outcomes, fail_fast), ok),
{
    assert(outcomes.push(ok).drop_last() == outcomes);
}

/// The process exit status after a run: 0 when every file succeeded, 1 when
/// the run stopped at a failure, 2 when it went on past failures.
pub open spec fn run_exit_code(failed: nat, aborted: bool) -> i32 {
    if failed > 0 {
        if aborted {
            1
        } else {
            2
        }
    } else {
        0
    }
}

/// The exit status for a run that counted `failed` failures and ended
/// aborted or not.
pub fn exit_code(failed: usize, aborted: bool) -> (r: i32)
    ensures
        r == run_exit_code(failed as nat, aborted),
{
    if failed > 0 {
        if aborted {
            1
        } else {
            2
        }
    } else {
        0
    }
}

/// Law: a run exits with status 0 exactly when no file failed; otherwise
/// with 1 in fail-fast mode and 2 when it went on.
pub proof fn law_exit_code(outcomes: Seq<bool>, fail_fast: bool)
    ensures
        run_exit_code(run_tally(outcomes, fail_fast).failed, run_tally(outcomes, fail_fast).aborted)
            == if failures(outcomes) == 0 {
            0i32
        } else if fail_fast {
            1i32
        } else {
            2i32
        },
{
    if fail_fast {
        law_fail_fast_stops(outcomes);
    } else {
        law_run_goes_on(outcomes);
    }
}

/// The running counts of a run.
pub struct RunTally {
    succeeded: usize,
    failed: usize,
    aborted: bool,
    fail_fast: bool,
}

impl View for RunTally {
    type V = TallyModel;

    closed spec fn view(&self) -> TallyModel {
        TallyModel {
            succeeded: self.succeeded as nat,
            failed: self.failed as nat,
            aborted: self.aborted,
            fail_fast: self.fail_fast,
        }
    }
}

impl RunTally {
    pub fn new(fail_fast: bool) -> (t: RunTally)
        ensures
            t@ == empty_tally(fail_fast),
    {
        RunTally { succeeded: 0, failed: 0, aborted: false, fail_fast }
    }

    /// Files processed so far.
    pub fn processed(&self) -> (r: usize)
        requires
            self@.succeeded + self@.failed <= usize::MAX,
        ensures
            r == self@.succeeded + self@.failed,
    {
        self.succeeded + self.failed
    }

    pub fn succeeded(&self) -> (r: usize)
        ensures
            r == self@.succeeded,
    {
        self.succeeded
    }

    pub fn failed(&self) -> (r: usize)
        ensures
            r == self@.failed,
    {
        self.failed
    }

    pub fn aborted(&self) -> (r: bool)
        ensures
            r == self@.aborted,
    {
        self.aborted
    }

    /// Records one file's outcome; returns whether the run stops here.
    pub fn record(&mut self, ok: bool) -> (stop: bool)
        requires
            !old(self)@.aborted,
            old(self)@.succeeded + old(self)@.failed < usize::MAX,
        ensures
            final(self)@ == tally_step(old(self)@, ok),
            stop == final(self)@.aborted,
    {
        if ok {
            self.succeeded = self.succeeded + 1;
        } else {
            self.failed = self.failed + 1;
            self.aborted = self.fail_fast;
        }
        self.aborted
    }
}

} // verus!
