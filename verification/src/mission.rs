//! Sequencing of the six stages of the Earth → Moon → Earth mission:
//! injection, transit to the Moon, lunar capture, trans-Earth injection,
//! return transit and Earth capture.  Each stage starts from the result of
//! the one before it; the numerical work of each stage is done by the caller.
use vstd::prelude::*;

verus! {

/// Number of stages of the mission.
pub const STAGE_COUNT: usize = 6;

/// Which stages have a result, and whether the mission is complete.
pub struct MissionProgress {
    done: [bool; 6],
    complete: bool,
}

/// What the progress holds, for contracts: `stages[k]` tells whether stage
/// `k + 1` has a result.
pub struct MissionProgressView {
    pub stages: Seq<bool>,
    pub complete: bool,
}

impl View for MissionProgress {
    type V = MissionProgressView;

    closed spec fn view(&self) -> MissionProgressView {
        MissionProgressView { stages: self.done@, complete: self.complete }
    }
}

/// Stage `stage` (counted from 1) may run: it is the first stage, or the
/// stage before it has a result.
pub open spec fn ready_for(stages: Seq<bool>, stage: int) -> bool {
    stage == 1 || stages[stage - 2]
}

/// The text of the refusal of a stage whose predecessor has not run.
pub open spec fn missing_predecessor_message(stage: int) -> Seq<char> {
    if stage == 2 {
        "Must execute stage_1 first"@
    } else if stage == 3 {
        "Must execute stage_2 first"@
    } else if stage == 4 {
        "Must execute stage_3 first"@
    } else if stage == 5 {
        "Must execute stage_4 first"@
    } else {
        "Must execute stage_5 first"@
    }
}

/// The digit that names stage `stage` in messages.
pub open spec fn stage_digit(stage: int) -> char {
    (48 + stage) as char
}

/// The refusal of a stage names the stage before it: "Must execute stage_"
/// followed by that stage's number and " first".
pub proof fn lemma_refusal_names_previous_stage(stage: int)
    requires
        2 <= stage <= 6,
    ensures
        missing_predecessor_message(stage) =~= "Must execute stage_"@ + seq![stage_digit(stage - 1)] + " first"@,
{
    reveal_strlit("Must execute stage_");
    reveal_strlit(" first");
    reveal_strlit("Must execute stage_1 first");
    reveal_strlit("Must execute stage_2 first");
    reveal_strlit("Must execute stage_3 first");
    reveal_strlit("Must execute stage_4 first");
    reveal_strlit("Must execute stage_5 first");
    assert(stage_digit(1) == '1');
    assert(stage_digit(2) == '2');
    assert(stage_digit(3) == '3');
    assert(stage_digit(4) == '4');
    assert(stage_digit(5) == '5');
}

impl MissionProgressView {
    /// Well formed: six stages; a stage has a result only if every earlier
    /// stage has one; the mission is complete only if every stage has one.
    pub open spec fn wf(self) -> bool {
        &&& self.stages.len() == 6
        &&& forall|i: int, j: int| 0 <= i <= j < 6 && #[trigger] self.stages[j] ==> #[trigger] self.stages[i]
        &&& self.complete ==> forall|i: int| 0 <= i < 6 ==> #[trigger] self.stages[i]
    }
}

impl MissionProgress {
    /// A mission with no stage run yet.
    pub fn new() -> (p: Self)
        ensures
            p@.wf(),
            p@.stages =~= seq![false, false, false, false, false, false],
            !p@.complete,
    {
        MissionProgress { done: [false, false, false, false, false, false], complete: false }
    }

    /// Whether stage `stage` (counted from 1) has a result.
    pub fn has_result(&self, stage: usize) -> (b: bool)
        requires
            1 <= stage <= STAGE_COUNT,
        ensures
            b == self@.stages[stage - 1],
    {
        self.done[stage - 1]
    }

    /// Whether all six stages have run.
    pub fn is_complete(&self) -> (b: bool)
        ensures
            b == self@.complete,
    {
        self.complete
    }

    /// Checks that stage `stage` may run: the first stage always may; any
    /// other needs a result of the stage before it, and is refused with a
    /// message that names that stage.
    pub fn check_ready(&self, stage: usize) -> (r: Result<(), String>)
        requires
            1 <= stage <= STAGE_COUNT,
        ensures
            r is Ok <==> ready_for(self@.stages, stage as int),
            r matches Err(m) ==> m@ == missing_predecessor_message(stage as int),
            stage == 1 ==> r is Ok,
            stage >= 2 ==> (r is Ok <==> self@.stages[stage - 2]),
            r is Err ==> stage >= 2 && !self@.stages[stage - 2],
            r matches Err(m) ==> m@ == "Must execute stage_"@ + seq![stage_digit(stage - 1)] + " first"@,
    {
        if stage == 1 || self.done[stage - 2] {
            return Ok(());
        }
        let m = if stage == 2 {
            "Must execute stage_1 first"
        } else if stage == 3 {
            "Must execute stage_2 first"
        } else if stage == 4 {
            "Must execute stage_3 first"
        } else if stage == 5 {
            "Must execute stage_4 first"
        } else {
            "Must execute stage_5 first"
        };
        proof {
            lemma_refusal_names_previous_stage(stage as int);
        }
        Err(String::from_str(m))
    }

    /// Records the result of stage `stage`; the last stage completes the
    /// mission.
    pub fn record(&mut self, stage: usize)
        requires
            1 <= stage <= STAGE_COUNT,
            old(self)@.wf(),
            ready_for(old(self)@.stages, stage as int),
        ensures
            final(self)@.wf(),
            final(self)@.stages == old(self)@.stages.update(stage - 1, true),
            final(self)@.complete == (old(self)@.complete || stage == STAGE_COUNT),
    {
        self.done[stage - 1] = true;
        if stage == STAGE_COUNT {
            self.complete = true;
        }
        proof {
            let s = self@.stages;
            assert forall|i: int, j: int| 0 <= i <= j < 6 && #[trigger] s[j] implies #[trigger] s[i] by {
                if j == stage - 1 && i < j {
                    assert(old(self)@.stages[j - 1]);
                }
            }
        }
    }
}

/// Recording the result of a stage leaves that stage ready to run again and
/// makes the next stage ready: readiness depends only on the stage before,
/// never on whether the stage itself has already run.
pub proof fn lemma_record_keeps_and_opens_readiness(p: MissionProgressView, stage: int)
    requires
        p.wf(),
        1 <= stage <= 6,
        ready_for(p.stages, stage),
    ensures
        ready_for(p.stages.update(stage - 1, true), stage),
        stage < 6 ==> ready_for(p.stages.update(stage - 1, true), stage + 1),
        forall|k: int| 2 <= k <= 6 ==> (#[trigger] ready_for(p.stages, k) <==> p.stages[k - 2]),
{
}

/// In a well-formed mission, whenever a stage has a result every earlier
/// stage has one too, and a complete mission has a result for every stage.
pub proof fn lemma_results_form_prefix(p: MissionProgressView, i: int, j: int)
    requires
        p.wf(),
        0 <= i <= j < 6,
    ensures
        p.stages[j] ==> p.stages[i],
        p.complete ==> p.stages[i] && p.stages[j],
{
}

} // verus!
