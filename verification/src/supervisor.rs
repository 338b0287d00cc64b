//! Supervision of the outline helper: at most one helper is held at a time,
//! its process and its input pipe are held and given up together, and every
//! teardown closes the pipe before it kills the process.
//!
//! The supervisor is generic in the process handle `P` and the pipe `I`. It
//! never looks inside them: it keeps them, and hands them out inside the
//! steps that dispose of them.

use crate::error::{os_outcome, OverlayError};
use crate::json::json_object_text;
use crate::locate::HelperSearch;
use crate::protocol::{framed, is_one_line, StartRequest, UpdatePayload};
use vstd::prelude::*;

verus! {

/// The program that sweeps up helpers by name.
pub const SWEEP_PROGRAM: &'static str = "/usr/bin/pkill";

/// The flag that makes the sweep match against whole command lines.
pub const SWEEP_FLAG: &'static str = "-f";

/// The name that the sweep looks for.
pub const SWEEP_PATTERN: &'static str = "OutlineHelper";

/// The platforms that the supervisor tells apart.
#[derive(Clone, Copy, PartialEq, Eq, Structural, Debug)]
pub enum Platform {
    MacOs,
    Other,
}

impl Platform {
    /// Whether the outline helper exists for the platform.
    pub open spec fn has_outline(&self) -> bool {
        *self == Platform::MacOs
    }

    /// Whether a kill may leave helpers behind on the platform, so that a
    /// sweep by name follows it.
    pub open spec fn needs_sweep(&self) -> bool {
        *self == Platform::MacOs
    }
}

/// A running helper: the process and the pipe to its standard input. The
/// two exist together or not at all.
#[derive(Debug, PartialEq, Eq)]
pub struct HelperHandle<P, I> {
    pub process: P,
    pub input_pipe: I,
}

/// One step of taking a helper down. Each carries what it disposes of.
#[derive(Debug, PartialEq, Eq)]
pub enum TeardownStep<P, I> {
    /// Close the pipe to the helper's standard input.
    ClosePipe(I),
    /// Terminate the process forcefully. What becomes of a failure is for
    /// the operation to say: a stop reports it, a start and the shutdown
    /// only log it and go on.
    Kill(P),
    /// Terminate whatever helper is found by name. Best effort.
    Sweep,
}

/// What becomes of one of a process's standard streams.
#[derive(Clone, Copy, PartialEq, Eq, Structural, Debug)]
pub enum Stream {
    /// A pipe whose other end the supervisor keeps.
    Piped,
    /// Whatever passes through is thrown away.
    Discarded,
}

/// A process to spawn.
#[derive(Clone, Debug, PartialEq, Eq)]
pub struct Launch {
    pub program: String,
    pub arguments: Vec<String>,
    pub stdin: Stream,
    pub stdout: Stream,
    pub stderr: Stream,
}

/// What a start consists of: first the teardown of what ran before, then
/// the launch, unless the start already failed.
#[derive(Debug, PartialEq, Eq)]
pub struct StartPlan<P, I> {
    pub teardown: Vec<TeardownStep<P, I>>,
    pub launch: Result<Launch, OverlayError>,
}

/// The owner of the helper.
#[derive(Debug, PartialEq, Eq)]
pub struct HelperSupervisor<P, I> {
    pub handle: Option<HelperHandle<P, I>>,
}

/// Taking down a helper: the pipe first, then the process.
pub open spec fn retire_steps<P, I>(handle: Option<HelperHandle<P, I>>) -> Seq<TeardownStep<P, I>> {
    match handle {
        Some(helper) => seq![
            TeardownStep::ClosePipe(helper.input_pipe),
            TeardownStep::Kill(helper.process),
        ],
        None => Seq::empty(),
    }
}

/// The sweep, where the platform calls for one.
pub open spec fn sweep_steps<P, I>(platform: Platform) -> Seq<TeardownStep<P, I>> {
    if platform.needs_sweep() {
        seq![TeardownStep::Sweep]
    } else {
        Seq::empty()
    }
}

/// The steps of a stop: nothing where nothing runs, else the teardown and,
/// after it, the sweep.
pub open spec fn stop_steps<P, I>(handle: Option<HelperHandle<P, I>>, platform: Platform) -> Seq<
    TeardownStep<P, I>,
> {
    match handle {
        Some(_) => retire_steps(handle) + sweep_steps(platform),
        None => Seq::empty(),
    }
}

/// The steps at shutdown: the teardown of what runs, and the sweep whether
/// or not anything was held.
pub open spec fn shutdown_steps<P, I>(
    handle: Option<HelperHandle<P, I>>,
    platform: Platform,
) -> Seq<TeardownStep<P, I>> {
    retire_steps(handle) + sweep_steps(platform)
}

/// The launch that a start comes to: the resolved program with the
/// arguments of the request, its input piped and its output discarded; or
/// the report that no helper was found.
pub open spec fn launch_for(
    launch: Result<Launch, OverlayError>,
    request: StartRequest,
    search: HelperSearch,
) -> bool {
    match launch {
        Ok(spawn) => {
            &&& search.chosen() == Some(spawn.program)
            &&& spawn.arguments.deep_view() == request.argument_texts()
            &&& spawn.stdin == Stream::Piped
            &&& spawn.stdout == Stream::Discarded
            &&& spawn.stderr == Stream::Discarded
        },
        Err(failure) => search.chosen() is None && failure == OverlayError::HelperNotFound,
    }
}

fn push_sweep<P, I>(steps: &mut Vec<TeardownStep<P, I>>, platform: Platform)
    ensures
        final(steps)@ == old(steps)@ + sweep_steps::<P, I>(platform),
{
    match platform {
        Platform::MacOs => {
            steps.push(TeardownStep::Sweep);
        },
        Platform::Other => {},
    }
    assert(steps@ =~= old(steps)@ + sweep_steps::<P, I>(platform));
}

impl<P, I> HelperSupervisor<P, I> {
    /// The process that is held, if any.
    pub open spec fn process(&self) -> Option<P> {
        match self.handle {
            Some(helper) => Some(helper.process),
            None => None,
        }
    }

    /// The input pipe that is held, if any.
    pub open spec fn input_pipe(&self) -> Option<I> {
        match self.handle {
            Some(helper) => Some(helper.input_pipe),
            None => None,
        }
    }

    /// The teardown with which a start begins: that of the helper that is
    /// held, where the platform has a helper at all.
    pub open spec fn start_teardown(&self, platform: Platform) -> Seq<TeardownStep<P, I>> {
        if platform.has_outline() {
            retire_steps(self.handle)
        } else {
            Seq::empty()
        }
    }

    /// The supervisor once a start has begun: it holds nothing, unless the
    /// platform has no helper, in which case nothing changed.
    pub open spec fn prepared(self, platform: Platform) -> Self {
        if platform.has_outline() {
            HelperSupervisor { handle: None }
        } else {
            self
        }
    }

    /// The supervisor once it has taken over `helper`.
    pub open spec fn installed(self, helper: HelperHandle<P, I>) -> Self {
        HelperSupervisor { handle: Some(helper) }
    }

    /// The supervisor after a stop or a shutdown.
    pub open spec fn stopped(self) -> Self {
        HelperSupervisor { handle: None }
    }

    /// A supervisor that holds no helper.
    pub fn new() -> (supervisor: Self)
        ensures
            supervisor.handle is None,
    {
        HelperSupervisor { handle: None }
    }

    /// Whether a helper is held.
    pub fn is_running(&self) -> (running: bool)
        ensures
            running == (self.handle is Some),
    {
        self.handle.is_some()
    }

    /// Gives up whatever helper is held, as the steps that take it down.
    fn retire(&mut self) -> (steps: Vec<TeardownStep<P, I>>)
        ensures
            final(self).handle is None,
            steps@ == retire_steps(old(self).handle),
    {
        let mut steps: Vec<TeardownStep<P, I>> = Vec::new();
        match self.handle.take() {
            Some(helper) => {
                let HelperHandle { process, input_pipe } = helper;
                steps.push(TeardownStep::ClosePipe(input_pipe));
                steps.push(TeardownStep::Kill(process));
            },
            None => {},
        }
        assert(steps@ =~= retire_steps(old(self).handle));
        steps
    }

    /// Opens a start. Where the platform has no helper, nothing happens and
    /// the plan reports so. Otherwise the helper that is held, if any, is
    /// given up for teardown before anything else, and the plan names the
    /// process to spawn, or reports that no executable was found. After the
    /// call no helper is held, whether or not there is something to launch.
    pub fn prepare_start(
        &mut self,
        request: &StartRequest,
        search: HelperSearch,
        platform: Platform,
    ) -> (plan: StartPlan<P, I>)
        ensures
            *final(self) == old(self).prepared(platform),
            plan.teardown@ == old(self).start_teardown(platform),
            !platform.has_outline() ==> plan.launch == Err::<Launch, _>(
                OverlayError::OutlineUnsupported,
            ),
            platform.has_outline() ==> launch_for(plan.launch, *request, search),
    {
        match platform {
            Platform::Other => {
                let teardown: Vec<TeardownStep<P, I>> = Vec::new();
                assert(teardown@ =~= old(self).start_teardown(platform));
                StartPlan { teardown, launch: Err(OverlayError::OutlineUnsupported) }
            },
            Platform::MacOs => {
                let teardown = self.retire();
                let launch = match search.resolve() {
                    Ok(program) => Ok(
                        Launch {
                            program,
                            arguments: request.arguments(),
                            stdin: Stream::Piped,
                            stdout: Stream::Discarded,
                            stderr: Stream::Discarded,
                        },
                    ),
                    Err(failure) => Err(failure),
                };
                StartPlan { teardown, launch }
            },
        }
    }

    /// Takes over a helper that was spawned: its process and its pipe are
    /// stored together. Should a helper still be held, it is displaced and
    /// handed back as the steps that take it down.
    pub fn install(&mut self, helper: HelperHandle<P, I>) -> (displaced: Vec<TeardownStep<P, I>>)
        ensures
            *final(self) == old(self).installed(helper),
            displaced@ == retire_steps(old(self).handle),
    {
        let displaced = self.retire();
        self.handle = Some(helper);
        displaced
    }

    /// The line to write to the helper's input pipe for an update, or the
    /// report that no helper runs.
    pub fn update_line(&self, payload: &UpdatePayload) -> (line: Result<String, OverlayError>)
        ensures
            (match line {
                Ok(text) => {
                    &&& self.handle is Some
                    &&& text@ == framed(json_object_text(payload.fields()))
                    &&& is_one_line(text@)
                },
                Err(failure) => self.handle is None && failure == OverlayError::HelperNotRunning,
            }),
    {
        if self.handle.is_some() {
            Ok(payload.encode())
        } else {
            Err(OverlayError::HelperNotRunning)
        }
    }

    /// Stops the helper. With no helper this is a no-op with no steps.
    /// Otherwise the pipe is closed, then the process killed, then, where
    /// the platform calls for it, helpers are swept up by name.
    pub fn stop(&mut self, platform: Platform) -> (steps: Vec<TeardownStep<P, I>>)
        ensures
            *final(self) == old(self).stopped(),
            steps@ == stop_steps(old(self).handle, platform),
    {
        if self.handle.is_some() {
            let mut steps = self.retire();
            push_sweep(&mut steps, platform);
            steps
        } else {
            Vec::new()
        }
    }

    /// Gives up everything at shutdown. Unlike a stop, the sweep is made
    /// even when no helper was held.
    pub fn shutdown(&mut self, platform: Platform) -> (steps: Vec<TeardownStep<P, I>>)
        ensures
            *final(self) == old(self).stopped(),
            steps@ == shutdown_steps(old(self).handle, platform),
    {
        let mut steps = self.retire();
        push_sweep(&mut steps, platform);
        steps
    }
}

/// What a stop reports, given how the kill of its teardown ended: a kill
/// that failed is reported with the system's words. Where there was
/// nothing to kill, the kill counts as done.
pub open spec fn stop_outcome(killed: Result<(), String>) -> Result<(), OverlayError> {
    match killed {
        Ok(_) => Ok(()),
        Err(report) => Err(OverlayError::Os(report)),
    }
}

/// Settles a stop once its steps are carried out. The helper is given up
/// either way; the report only says whether the kill went through.
pub fn stop_report(killed: Result<(), String>) -> (done: Result<(), OverlayError>)
    ensures
        done == stop_outcome(killed),
{
    os_outcome(killed)
}

/// What an update reports, given how writing the line and flushing the pipe
/// ended: the first of the two that failed, and success only when both
/// succeeded.
pub open spec fn update_outcome(
    written: Result<(), String>,
    flushed: Result<(), String>,
) -> Result<(), OverlayError> {
    match written {
        Err(report) => Err(OverlayError::Os(report)),
        Ok(_) => match flushed {
            Err(report) => Err(OverlayError::Os(report)),
            Ok(_) => Ok(()),
        },
    }
}

/// Settles an update once the line is written and the pipe flushed. A
/// helper that has exited shows here, as a failure of one of the two.
pub fn update_report(
    written: Result<(), String>,
    flushed: Result<(), String>,
) -> (done: Result<(), OverlayError>)
    ensures
        done == update_outcome(written, flushed),
{
    match written {
        Err(report) => Err(OverlayError::Os(report)),
        Ok(_) => os_outcome(flushed),
    }
}

/// The command line of the sweep, without the program itself.
pub fn sweep_arguments() -> (args: Vec<String>)
    ensures
        args.deep_view() == seq![SWEEP_FLAG@, SWEEP_PATTERN@],
{
    let mut args: Vec<String> = Vec::new();
    args.push(SWEEP_FLAG.to_owned());
    args.push(SWEEP_PATTERN.to_owned());
    assert(args.deep_view() =~= seq![SWEEP_FLAG@, SWEEP_PATTERN@]);
    args
}

/// What exists outside the supervisor: the helper processes that are alive
/// and the input pipes that are open.
#[verifier::reject_recursive_types(P)]
#[verifier::reject_recursive_types(I)]
pub ghost struct HelperWorld<P, I> {
    pub live: Set<P>,
    pub open_pipes: Set<I>,
}

impl<P, I> HelperWorld<P, I> {
    /// The world once the steps are carried out: a process that some step
    /// kills is no longer alive, a pipe that some step closes is no longer
    /// open. The sweep is best effort and promises nothing.
    pub open spec fn after_teardown(self, steps: Seq<TeardownStep<P, I>>) -> Self {
        HelperWorld {
            live: self.live.filter(|process: P| !steps.contains(TeardownStep::Kill(process))),
            open_pipes: self.open_pipes.filter(
                |pipe: I| !steps.contains(TeardownStep::ClosePipe(pipe)),
            ),
        }
    }

    /// The world once `helper` is spawned.
    pub open spec fn after_spawn(self, helper: HelperHandle<P, I>) -> Self {
        HelperWorld {
            live: self.live.insert(helper.process),
            open_pipes: self.open_pipes.insert(helper.input_pipe),
        }
    }

    /// The world holds exactly what the supervisor holds: its process is
    /// the one that is alive and its pipe the one that is open, or there is
    /// neither.
    pub open spec fn held_by(self, supervisor: HelperSupervisor<P, I>) -> bool {
        match supervisor.handle {
            Some(helper) => self.live == set![helper.process] && self.open_pipes == set![
                helper.input_pipe,
            ],
            None => self.live == Set::<P>::empty() && self.open_pipes == Set::<I>::empty(),
        }
    }
}

/// The process and its input pipe are held together: in every state, one is
/// there if and only if the other is.
pub proof fn lemma_process_and_pipe_together<P, I>(supervisor: HelperSupervisor<P, I>)
    ensures
        supervisor.process() is Some <==> supervisor.input_pipe() is Some,
        supervisor.stopped().process() is None && supervisor.stopped().input_pipe() is None,
        forall|helper: HelperHandle<P, I>|
            (#[trigger] supervisor.installed(helper)).process() == Some(helper.process)
                && supervisor.installed(helper).input_pipe() == Some(helper.input_pipe),
{
}

/// Every teardown closes the pipe before it kills the process, and a sweep
/// comes last.
pub proof fn lemma_pipe_closes_before_kill<P, I>(helper: HelperHandle<P, I>, platform: Platform)
    ensures
        retire_steps(Some(helper)) == seq![
            TeardownStep::ClosePipe(helper.input_pipe),
            TeardownStep::Kill(helper.process),
        ],
        stop_steps(Some(helper), platform) == retire_steps(Some(helper)) + sweep_steps(platform),
        shutdown_steps(Some(helper), platform) == retire_steps(Some(helper)) + sweep_steps(
            platform,
        ),
        sweep_steps::<P, I>(platform).len() <= 1,
{
}

/// Stopping with no helper is a no-op: there is nothing to carry out and
/// the supervisor is what it was. So a second stop after a first does
/// nothing.
pub proof fn lemma_stop_is_idempotent<P, I>(supervisor: HelperSupervisor<P, I>, platform: Platform)
    ensures
        supervisor.handle is None ==> stop_steps(supervisor.handle, platform).len() == 0
            && supervisor.stopped() == supervisor,
        stop_steps(supervisor.stopped().handle, platform).len() == 0,
        supervisor.stopped().stopped() == supervisor.stopped(),
{
}

/// Carrying out the teardown of the helper that is held leaves no process
/// alive and no pipe open.
pub proof fn lemma_teardown_clears_world<P, I>(
    supervisor: HelperSupervisor<P, I>,
    world: HelperWorld<P, I>,
    rest: Seq<TeardownStep<P, I>>,
)
    requires
        world.held_by(supervisor),
    ensures
        world.after_teardown(retire_steps(supervisor.handle) + rest).held_by(
            supervisor.stopped(),
        ),
{
    let steps = retire_steps(supervisor.handle) + rest;
    let after = world.after_teardown(steps);
    match supervisor.handle {
        Some(helper) => {
            assert(steps[0] == TeardownStep::<P, I>::ClosePipe(helper.input_pipe));
            assert(steps[1] == TeardownStep::<P, I>::Kill(helper.process));
            assert(steps.contains(TeardownStep::ClosePipe(helper.input_pipe)));
            assert(steps.contains(TeardownStep::Kill(helper.process)));
        },
        None => {},
    }
    assert(after.live =~= Set::<P>::empty());
    assert(after.open_pipes =~= Set::<I>::empty());
}

} // verus!
