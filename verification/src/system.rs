//! The overlay together with its surroundings, as a model: the state, the
//! windows that exist and the helpers that are alive, and how every
//! operation moves all three. What holds of every state that can be reached
//! is stated and proved here.

use crate::controller::{hide_outcome, Desktop, OverlayState, ShowPlan, TogglePlan};
use crate::locate::HelperSearch;
use crate::supervisor::{
    lemma_teardown_clears_world, retire_steps, shutdown_steps, stop_steps, sweep_steps,
    HelperHandle, HelperSupervisor, HelperWorld, Platform,
};
use crate::windows::{dim_close_plan, dim_plan_for, ClosePlan, DimPlan, DisplayProbe};
use vstd::prelude::*;

verus! {

/// One operation on the overlay, with everything that the surroundings
/// answer while it is carried out. Since each operation runs under the
/// state's lock from its plan to its end, what concurrent callers can bring
/// about is some sequence of these.
pub ghost enum Call<P, I> {
    /// `show`: what the question for the display gives, and how opening or
    /// raising the panel ends if it is tried.
    Show { probe: DisplayProbe, opened: Result<(), String> },
    /// `hide`: the report with which closing the panel fails if it is
    /// tried, and likewise for the dim layer.
    Hide { panel_refuses: Option<String>, dim_refuses: Option<String> },
    /// The hotkey's toggle, with the answers for whichever way it goes.
    Toggle {
        probe: DisplayProbe,
        opened: Result<(), String>,
        panel_refuses: Option<String>,
        dim_refuses: Option<String>,
    },
    /// Showing the dim layer: what the question for the display gives, and
    /// how constructing the window ends if it is tried.
    ShowDim { probe: DisplayProbe, opened: Result<(), String> },
    /// Hiding the dim layer: the report with which closing it fails if it
    /// is tried. The failure is not passed on, but the window stays.
    HideDim { dim_refuses: Option<String> },
    /// A start of the helper: where the executable is looked for, and what
    /// spawning gives if it is tried.
    Start {
        search: HelperSearch,
        platform: Platform,
        spawned: Result<HelperHandle<P, I>, String>,
    },
    /// A stop of the helper.
    Stop { platform: Platform },
    /// The shutdown hook.
    Shutdown { platform: Platform },
}

/// The overlay and its surroundings.
#[verifier::reject_recursive_types(P)]
#[verifier::reject_recursive_types(I)]
pub ghost struct System<P, I> {
    pub state: OverlayState<P, I>,
    pub desktop: Desktop,
    pub world: HelperWorld<P, I>,
}

impl<P, I> System<P, I> {
    /// The system at startup: nothing shown, no overlay window, no helper.
    pub open spec fn initial(main_open: bool) -> Self {
        System {
            state: OverlayState {
                visible: false,
                helper: HelperSupervisor { handle: None },
            },
            desktop: Desktop { panel_open: false, dim_open: false, main_open },
            world: HelperWorld { live: Set::empty(), open_pipes: Set::empty() },
        }
    }

    /// The state and the surroundings fit together: the overlay counts as
    /// visible exactly when the panel window exists, and the processes
    /// that are alive and the pipes that are open are exactly those that
    /// the supervisor holds.
    pub open spec fn consistent(self) -> bool {
        &&& self.desktop.agrees_with(self.state)
        &&& self.world.held_by(self.state.helper)
    }

    /// The system after a `ShowPlan` is carried out.
    pub open spec fn after_show(self, plan: ShowPlan, opened: Result<(), String>) -> Self {
        match plan {
            ShowPlan::AlreadyVisible => self,
            _ => System {
                state: self.state.shown(opened),
                desktop: self.desktop.after_show(plan, opened),
                world: self.world,
            },
        }
    }

    /// The system after a `ClosePlan` is carried out.
    pub open spec fn after_hide(
        self,
        plan: ClosePlan,
        panel_refuses: Option<String>,
        dim_refuses: Option<String>,
    ) -> Self {
        let outcome = hide_outcome(plan, panel_refuses, dim_refuses);
        System {
            state: self.state.hidden(outcome),
            desktop: self.desktop.after_hide(plan, outcome),
            world: self.world,
        }
    }

    /// The system after one operation.
    pub open spec fn step(self, call: Call<P, I>) -> Self {
        let state = self.state;
        let desktop = self.desktop;
        match call {
            Call::Show { probe, opened } => {
                match state.show_plan(probe, desktop.main_open, desktop.panel_open) {
                    Ok(plan) => self.after_show(plan, opened),
                    Err(_) => self,
                }
            },
            Call::Hide { panel_refuses, dim_refuses } => self.after_hide(
                state.hide_plan(desktop.panel_open, desktop.dim_open),
                panel_refuses,
                dim_refuses,
            ),
            Call::Toggle { probe, opened, panel_refuses, dim_refuses } => {
                match state.toggle_plan(
                    probe,
                    desktop.main_open,
                    desktop.panel_open,
                    desktop.dim_open,
                ) {
                    Ok(TogglePlan::Show(plan)) => self.after_show(plan, opened),
                    Ok(TogglePlan::Hide(plan)) => self.after_hide(plan, panel_refuses, dim_refuses),
                    Err(_) => self,
                }
            },
            Call::ShowDim { probe, opened } => {
                match dim_plan_for(desktop.dim_open, probe) {
                    Ok(DimPlan::Create(_)) => System {
                        state,
                        desktop: Desktop { dim_open: opened is Ok, ..desktop },
                        world: self.world,
                    },
                    _ => self,
                }
            },
            Call::HideDim { dim_refuses } => {
                let plan = dim_close_plan(desktop.dim_open);
                System {
                    state,
                    desktop: desktop.after_hide(plan, hide_outcome(plan, None, dim_refuses)),
                    world: self.world,
                }
            },
            Call::Start { search, platform, spawned } => {
                let prepared = state.helper.prepared(platform);
                let cleared = self.world.after_teardown(state.helper.start_teardown(platform));
                if platform.has_outline() && search.chosen() is Some && spawned is Ok {
                    let helper = spawned->Ok_0;
                    System {
                        state: OverlayState {
                            visible: state.visible,
                            helper: prepared.installed(helper),
                        },
                        desktop,
                        world: cleared.after_teardown(retire_steps(prepared.handle)).after_spawn(
                            helper,
                        ),
                    }
                } else {
                    System {
                        state: OverlayState { visible: state.visible, helper: prepared },
                        desktop,
                        world: cleared,
                    }
                }
            },
            Call::Stop { platform } => System {
                state: OverlayState { visible: state.visible, helper: state.helper.stopped() },
                desktop,
                world: self.world.after_teardown(stop_steps(state.helper.handle, platform)),
            },
            Call::Shutdown { platform } => System {
                state: OverlayState { visible: state.visible, helper: state.helper.stopped() },
                desktop,
                world: self.world.after_teardown(shutdown_steps(state.helper.handle, platform)),
            },
        }
    }

    /// The system after a sequence of operations, one after the other.
    pub open spec fn run(self, calls: Seq<Call<P, I>>) -> Self
        decreases calls.len(),
    {
        if calls.len() == 0 {
            self
        } else {
            self.run(calls.drop_last()).step(calls.last())
        }
    }
}

/// No operation breaks the fit between the state and its surroundings,
/// however the surroundings answer.
pub proof fn lemma_step_keeps_consistency<P, I>(system: System<P, I>, call: Call<P, I>)
    requires
        system.consistent(),
    ensures
        system.step(call).consistent(),
{
    let after = system.step(call);
    let helper = system.state.helper;
    let none = Seq::empty();
    match call {
        Call::Start { search, platform, spawned } => {
            let prepared = helper.prepared(platform);
            let cleared = system.world.after_teardown(helper.start_teardown(platform));
            if platform.has_outline() {
                lemma_teardown_clears_world(helper, system.world, none);
                assert(retire_steps(helper.handle) + none =~= helper.start_teardown(platform));
                assert(cleared.held_by(prepared));
                let emptied = cleared.after_teardown(retire_steps(prepared.handle));
                assert(emptied.live =~= Set::<P>::empty());
                assert(emptied.open_pipes =~= Set::<I>::empty());
                if search.chosen() is Some && spawned is Ok {
                    let started = spawned->Ok_0;
                    assert(emptied.after_spawn(started).live =~= set![started.process]);
                    assert(emptied.after_spawn(started).open_pipes =~= set![started.input_pipe]);
                }
            } else {
                assert(cleared.live =~= system.world.live);
                assert(cleared.open_pipes =~= system.world.open_pipes);
            }
        },
        Call::Stop { platform } => {
            match helper.handle {
                Some(_) => {
                    lemma_teardown_clears_world(helper, system.world, sweep_steps(platform));
                },
                None => {
                    assert(after.world.live =~= Set::<P>::empty());
                    assert(after.world.open_pipes =~= Set::<I>::empty());
                },
            }
        },
        Call::Shutdown { platform } => {
            lemma_teardown_clears_world(helper, system.world, sweep_steps(platform));
        },
        _ => {},
    }
}

/// In every state that can be reached, by whatever operations in whatever
/// order and with whatever answers from the surroundings:
/// the overlay counts as visible exactly when the panel window exists;
/// the supervisor holds a process exactly when it holds an input pipe;
/// and at most one helper is alive, the one that the supervisor holds.
pub proof fn lemma_reachable_states_are_consistent<P, I>(
    main_open: bool,
    calls: Seq<Call<P, I>>,
)
    ensures
        ({
            let reached = System::<P, I>::initial(main_open).run(calls);
            &&& reached.consistent()
            &&& reached.state.visible == reached.desktop.panel_open
            &&& reached.state.helper.process() is Some
                <==> reached.state.helper.input_pipe() is Some
            &&& reached.world.live.finite()
            &&& reached.world.live.len() <= 1
            &&& reached.world.live.len() == 1 <==> reached.state.helper.handle is Some
            &&& forall|process: P| #[trigger]
                reached.world.live.contains(process) ==> reached.state.helper.process() == Some(
                    process,
                )
        }),
    decreases calls.len(),
{
    let start = System::<P, I>::initial(main_open);
    if calls.len() > 0 {
        lemma_reachable_states_are_consistent::<P, I>(main_open, calls.drop_last());
        lemma_step_keeps_consistency(start.run(calls.drop_last()), calls.last());
    }
    let reached = start.run(calls);
    match reached.state.helper.handle {
        Some(helper) => {
            assert(reached.world.live == set![helper.process]);
        },
        None => {},
    }
}

/// At most one helper. Two starts in a row, each of which finds the
/// executable and spawns, leave exactly one helper alive: the second. The
/// first was taken down, pipe and process, before the second was spawned.
pub proof fn lemma_two_starts_leave_one_helper<P, I>(
    system: System<P, I>,
    first: Call<P, I>,
    second: Call<P, I>,
)
    requires
        system.consistent(),
        first matches Call::Start { search, platform, spawned, .. } && platform.has_outline()
            && search.chosen() is Some && spawned is Ok,
        second matches Call::Start { search, platform, spawned, .. } && platform.has_outline()
            && search.chosen() is Some && spawned is Ok,
    ensures
        ({
            let once = system.step(first);
            let twice = once.step(second);
            let started_first = first->Start_spawned->Ok_0;
            let started_second = second->Start_spawned->Ok_0;
            &&& once.state.helper.handle == Some(started_first)
            &&& once.world.live == set![started_first.process]
            &&& twice.state.helper.handle == Some(started_second)
            &&& twice.world.live == set![started_second.process]
            &&& twice.world.open_pipes == set![started_second.input_pipe]
            &&& twice.world.live.len() == 1
        }),
{
    lemma_step_keeps_consistency(system, first);
    lemma_step_keeps_consistency(system.step(first), second);
}

/// After the shutdown hook no helper is held, no helper process is alive
/// and no pipe is open, whatever the state was: shown or hidden, with a
/// helper or without.
pub proof fn lemma_nothing_survives_shutdown<P, I>(system: System<P, I>, platform: Platform)
    requires
        system.consistent(),
    ensures
        ({
            let after = system.step(Call::Shutdown { platform });
            &&& after.state.helper.handle is None
            &&& after.state.visible == system.state.visible
            &&& after.world.live == Set::<P>::empty()
            &&& after.world.open_pipes == Set::<I>::empty()
        }),
{
    lemma_step_keeps_consistency(system, Call::Shutdown { platform });
}

} // verus!
