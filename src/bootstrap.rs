use vstd::prelude::*;

verus! {

/// How far the shell's startup has gone.
#[derive(Clone, Copy, Debug, PartialEq, Eq, Structural)]
pub enum Stage {
    /// The configuration object exists; nothing is attached.
    Created,
    /// The link-opening plugin is attached.
    LinkOpenerAttached,
    /// The OS-information plugin is attached too.
    OsInfoAttached,
    /// The commands are registered; the run loop has not started.
    CommandsRegistered,
    /// The run loop has taken over: commands are reachable.
    Running,
}

/// One step of the startup sequence.
#[derive(Clone, Copy, Debug, PartialEq, Eq, Structural)]
pub enum Step {
    /// Attach the plugin that opens external links with the host's handler.
    AttachLinkOpener,
    /// Attach the plugin that reports the host platform.
    AttachOsInfo,
    /// Register the commands that the front end may invoke.
    RegisterCommands,
    /// Start the run loop.
    Run,
}

/// Why a startup step was refused.
#[derive(Clone, Copy, Debug, PartialEq, Eq, Structural)]
pub enum BootstrapError {
    /// A step that must come first has not been taken.
    OutOfOrder,
    /// The run loop has already started; the configuration is closed.
    AlreadyRunning,
}

/// The position of a stage in the startup order.
pub open spec fn stage_rank(s: Stage) -> nat {
    match s {
        Stage::Created => 0,
        Stage::LinkOpenerAttached => 1,
        Stage::OsInfoAttached => 2,
        Stage::CommandsRegistered => 3,
        Stage::Running => 4,
    }
}

/// The position of a step in the startup order: the rank of the stage it reaches.
pub open spec fn step_rank(s: Step) -> nat {
    match s {
        Step::AttachLinkOpener => 1,
        Step::AttachOsInfo => 2,
        Step::RegisterCommands => 3,
        Step::Run => 4,
    }
}

/// The stage that a step reaches.
pub open spec fn stage_after(s: Step) -> Stage {
    match s {
        Step::AttachLinkOpener => Stage::LinkOpenerAttached,
        Step::AttachOsInfo => Stage::OsInfoAttached,
        Step::RegisterCommands => Stage::CommandsRegistered,
        Step::Run => Stage::Running,
    }
}

/// Taking `step` at `stage`. A step already taken is taken again without
/// effect; the next one advances; one that skips ahead is refused; once
/// running, nothing more is accepted.
pub open spec fn advance(stage: Stage, step: Step) -> Result<Stage, BootstrapError> {
    if stage == Stage::Running {
        Err(BootstrapError::AlreadyRunning)
    } else if step_rank(step) <= stage_rank(stage) {
        Ok(stage)
    } else if step_rank(step) == stage_rank(stage) + 1 {
        Ok(stage_after(step))
    } else {
        Err(BootstrapError::OutOfOrder)
    }
}

/// Taking the steps in turn, stopping at the first refusal.
pub open spec fn advance_all(stage: Stage, steps: Seq<Step>) -> Result<Stage, BootstrapError>
    decreases steps.len(),
{
    if steps.len() == 0 {
        Ok(stage)
    } else {
        match advance(stage, steps[0]) {
            Ok(next) => advance_all(next, steps.drop_first()),
            Err(e) => Err(e),
        }
    }
}

/// The startup sequence, in the order it must be taken.
pub open spec fn startup_order() -> Seq<Step> {
    seq![Step::AttachLinkOpener, Step::AttachOsInfo, Step::RegisterCommands, Step::Run]
}

/// Whether the commands are registered at `stage`.
pub open spec fn commands_registered(stage: Stage) -> bool {
    stage_rank(stage) >= 3
}

impl Stage {
    /// Takes `step` at this stage.
    pub fn advance(self, step: Step) -> (r: Result<Stage, BootstrapError>)
        ensures
            r == advance(self, step),
    {
        let rank = self.rank();
        let step_rank = step.rank();
        if rank == 4 {
            Err(BootstrapError::AlreadyRunning)
        } else if step_rank <= rank {
            Ok(self)
        } else if step_rank == rank + 1 {
            Ok(step.reaches())
        } else {
            Err(BootstrapError::OutOfOrder)
        }
    }

    /// The position of this stage in the startup order.
    pub fn rank(self) -> (r: u8)
        ensures
            r as nat == stage_rank(self),
    {
        match self {
            Stage::Created => 0,
            Stage::LinkOpenerAttached => 1,
            Stage::OsInfoAttached => 2,
            Stage::CommandsRegistered => 3,
            Stage::Running => 4,
        }
    }
}

impl Step {
    /// The position of this step in the startup order.
    pub fn rank(self) -> (r: u8)
        ensures
            r as nat == step_rank(self),
    {
        match self {
            Step::AttachLinkOpener => 1,
            Step::AttachOsInfo => 2,
            Step::RegisterCommands => 3,
            Step::Run => 4,
        }
    }

    /// The stage this step reaches.
    pub fn reaches(self) -> (r: Stage)
        ensures
            r == stage_after(self),
    {
        match self {
            Step::AttachLinkOpener => Stage::LinkOpenerAttached,
            Step::AttachOsInfo => Stage::OsInfoAttached,
            Step::RegisterCommands => Stage::CommandsRegistered,
            Step::Run => Stage::Running,
        }
    }
}

/// The startup sequence, in the order it must be taken.
pub fn startup_sequence() -> (r: Vec<Step>)
    ensures
        r@ == startup_order(),
{
    let r = vec![Step::AttachLinkOpener, Step::AttachOsInfo, Step::RegisterCommands, Step::Run];
    assert(r@ =~= startup_order());
    r
}

/// Taking the startup sequence in order from a fresh configuration reaches
/// the running stage, and no shorter part of it does.
pub proof fn lemma_startup_order(k: int)
    requires
        0 <= k <= 4,
    ensures
        advance_all(Stage::Created, startup_order().take(k)) matches Ok(s)
            && stage_rank(s) == k
            && (k < 4 ==> s != Stage::Running),
{
    let o = startup_order();
    assert(o.take(0).len() == 0);
    assert(o.take(1).drop_first() =~= o.take(0));
    assert(o.take(2).drop_first() =~= seq![Step::AttachOsInfo]);
    assert(o.take(3).drop_first() =~= seq![Step::AttachOsInfo, Step::RegisterCommands]);
    assert(o.take(4).drop_first() =~= seq![Step::AttachOsInfo, Step::RegisterCommands, Step::Run]);
    assert(seq![Step::AttachOsInfo].drop_first() =~= Seq::<Step>::empty());
    assert(seq![Step::AttachOsInfo, Step::RegisterCommands].drop_first() =~= seq![Step::RegisterCommands]);
    assert(seq![Step::RegisterCommands].drop_first() =~= Seq::<Step>::empty());
    assert(seq![Step::AttachOsInfo, Step::RegisterCommands, Step::Run].drop_first()
        =~= seq![Step::RegisterCommands, Step::Run]);
    assert(seq![Step::RegisterCommands, Step::Run].drop_first() =~= seq![Step::Run]);
    assert(seq![Step::Run].drop_first() =~= Seq::<Step>::empty());
    reveal_with_fuel(advance_all, 5);
}

/// The run loop starts only from a stage where both plugins are attached
/// and the commands registered; from any earlier stage it is refused.
pub proof fn lemma_run_needs_registration(stage: Stage)
    ensures
        advance(stage, Step::Run) == Ok::<Stage, BootstrapError>(Stage::Running)
            <==> stage == Stage::CommandsRegistered,
        stage_rank(stage) < 3 ==> advance(stage, Step::Run) == Err::<Stage, BootstrapError>(
            BootstrapError::OutOfOrder,
        ),
        advance(stage, Step::Run) is Ok ==> commands_registered(stage),
{
}

} // verus!
