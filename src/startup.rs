//! The runtime's lifecycle as a state machine: the build sequence with its
//! duplicate-instance guard and startup handshake, then running and stopping.
//! The caller performs each returned action and reports its outcome as the
//! next event.
use vstd::prelude::*;

verus! {

/// Where the runtime is in its life.
#[derive(Debug, Clone, Copy, PartialEq, Eq, Structural)]
pub enum Stage {
    /// Hooks may still be set.
    Configuring,
    /// The calling thread is named; waiting to learn whether a window is
    /// already registered.
    Checking,
    /// Creating the hidden window.
    Creating,
    /// Installing the event forwarding callbacks.
    Installing,
    /// Spawning the render thread.
    Spawning,
    /// Waiting for the render thread to finish its one-time initialization.
    AwaitingReady,
    /// The window is shown and the control loop may start.
    Built,
    /// The control loop runs.
    Running,
    /// Both loops have ended.
    Stopped,
    /// A second instance was attempted; the process must stop.
    Aborted,
}

/// What the caller reports to the state machine.
#[derive(Debug, Clone, Copy, PartialEq, Eq, Structural)]
pub enum Event {
    /// Build was requested.
    Build,
    /// The answer of the window lookup in the store.
    WindowLookup { registered: bool },
    /// The hidden window was created and registered.
    WindowCreated,
    /// The forwarding callbacks are installed.
    CallbacksInstalled,
    /// The render thread was spawned.
    RenderSpawned,
    /// The render thread signalled that its one-time initialization returned.
    RenderReady,
    /// The control loop was entered.
    Run,
    /// The control loop saw the render thread's exit signal and returned.
    Exited,
}

/// What the caller must do next.
#[derive(Debug, Clone, Copy, PartialEq, Eq, Structural)]
pub enum Action {
    /// Name the calling thread and look the window key up in the store.
    NameThreadAndCheckWindow,
    /// Stop the process: a runtime instance already exists.
    AbortDuplicate,
    /// Create the hidden window and register it.
    CreateWindow,
    /// Install the forwarding callbacks on the window.
    InstallCallbacks,
    /// Spawn the render thread.
    SpawnRender,
    /// Block on the startup-ready signal.
    AwaitReady,
    /// Make the window visible and hand control back.
    ShowWindow,
    /// Run the event-init hook, then the control loop.
    StartControlLoop,
    /// Nothing remains to do.
    Finish,
    /// The event does not apply in this stage; nothing changes.
    Ignore,
}

/// One transition: the stage after `event` and the action it calls for.
pub open spec fn step_spec(stage: Stage, event: Event) -> (Stage, Action) {
    match (stage, event) {
        (Stage::Configuring, Event::Build) => (Stage::Checking, Action::NameThreadAndCheckWindow),
        (Stage::Checking, Event::WindowLookup { registered }) => if registered {
            (Stage::Aborted, Action::AbortDuplicate)
        } else {
            (Stage::Creating, Action::CreateWindow)
        },
        (Stage::Creating, Event::WindowCreated) => (Stage::Installing, Action::InstallCallbacks),
        (Stage::Installing, Event::CallbacksInstalled) => (Stage::Spawning, Action::SpawnRender),
        (Stage::Spawning, Event::RenderSpawned) => (Stage::AwaitingReady, Action::AwaitReady),
        (Stage::AwaitingReady, Event::RenderReady) => (Stage::Built, Action::ShowWindow),
        (Stage::Built, Event::Run) => (Stage::Running, Action::StartControlLoop),
        (Stage::Running, Event::Exited) => (Stage::Stopped, Action::Finish),
        _ => (stage, Action::Ignore),
    }
}

/// Whether the window is visible in this stage.
pub open spec fn shown(stage: Stage) -> bool {
    stage == Stage::Built || stage == Stage::Running || stage == Stage::Stopped
}

/// The stage reached from `Configuring` through `events`.
pub open spec fn run_spec(events: Seq<Event>) -> Stage
    decreases events.len(),
{
    if events.len() == 0 {
        Stage::Configuring
    } else {
        step_spec(run_spec(events.drop_last()), events.last()).0
    }
}

/// The action called for by the `i`-th event of `events`.
pub open spec fn action_at(events: Seq<Event>, i: int) -> Action {
    step_spec(run_spec(events.take(i)), events[i]).1
}

/// The lifecycle of one runtime instance.
pub struct Startup {
    pub stage: Stage,
}

impl Startup {
    pub fn new() -> (r: Startup)
        ensures
            r.stage == Stage::Configuring,
    {
        Startup { stage: Stage::Configuring }
    }

    /// Takes one event and returns the action it calls for.
    pub fn handle(&mut self, event: Event) -> (r: Action)
        ensures
            (final(self).stage, r) == step_spec(old(self).stage, event),
    {
        let (stage, action) = match (self.stage, event) {
            (Stage::Configuring, Event::Build) => (Stage::Checking, Action::NameThreadAndCheckWindow),
            (Stage::Checking, Event::WindowLookup { registered }) => if registered {
                (Stage::Aborted, Action::AbortDuplicate)
            } else {
                (Stage::Creating, Action::CreateWindow)
            },
            (Stage::Creating, Event::WindowCreated) => (Stage::Installing, Action::InstallCallbacks),
            (Stage::Installing, Event::CallbacksInstalled) => (Stage::Spawning, Action::SpawnRender),
            (Stage::Spawning, Event::RenderSpawned) => (Stage::AwaitingReady, Action::AwaitReady),
            (Stage::AwaitingReady, Event::RenderReady) => (Stage::Built, Action::ShowWindow),
            (Stage::Built, Event::Run) => (Stage::Running, Action::StartControlLoop),
            (Stage::Running, Event::Exited) => (Stage::Stopped, Action::Finish),
            _ => (self.stage, Action::Ignore),
        };
        self.stage = stage;
        action
    }
}

/// The window is never visible before the render thread reported that its
/// one-time initialization returned: whatever the events, a stage in which
/// the window is shown is reached only through a `RenderReady` event, and
/// the only event that calls for showing the window is `RenderReady`.
pub proof fn lemma_shown_only_after_ready(events: Seq<Event>)
    ensures
        shown(run_spec(events)) ==> exists|i: int| 0 <= i < events.len() && events[i] == Event::RenderReady,
        forall|i: int|
            0 <= i < events.len() && #[trigger] action_at(events, i) == Action::ShowWindow
                ==> events[i] == Event::RenderReady,
    decreases events.len(),
{
    if events.len() > 0 {
        let prev = events.drop_last();
        lemma_shown_only_after_ready(prev);
        if shown(run_spec(events)) {
            if shown(run_spec(prev)) {
                let i = choose|i: int| 0 <= i < prev.len() && prev[i] == Event::RenderReady;
                assert(events[i] == Event::RenderReady);
            } else {
                assert(events[events.len() - 1] == Event::RenderReady);
            }
        }
    }
}

/// From an aborted build nothing follows: the stage stays `Aborted` and no
/// later event calls for creating a window.
pub proof fn lemma_abort_is_final(prefix: Seq<Event>, rest: Seq<Event>)
    requires
        run_spec(prefix) == Stage::Aborted,
    ensures
        run_spec(prefix + rest) == Stage::Aborted,
        forall|i: int|
            prefix.len() <= i < prefix.len() + rest.len() ==> #[trigger] action_at(prefix + rest, i)
                == Action::Ignore,
    decreases rest.len(),
{
    if rest.len() > 0 {
        let shorter = rest.drop_last();
        lemma_abort_is_final(prefix, shorter);
        assert((prefix + rest).drop_last() =~= prefix + shorter);
        assert forall|i: int| prefix.len() <= i < prefix.len() + rest.len() implies #[trigger] action_at(
            prefix + rest,
            i,
        ) == Action::Ignore by {
            if i < prefix.len() + shorter.len() {
                assert((prefix + rest).take(i) =~= (prefix + shorter).take(i));
                assert((prefix + rest)[i] == (prefix + shorter)[i]);
                assert(action_at(prefix + shorter, i) == Action::Ignore);
            } else {
                assert((prefix + rest).take(i) =~= prefix + shorter);
            }
        }
    }
}

/// A build attempted while a window is already registered fails, every
/// time, and never replaces the registered window: the lookup answer
/// `registered` aborts the build, and no event after it calls for creating
/// a window.
pub proof fn lemma_duplicate_never_replaces(prefix: Seq<Event>, rest: Seq<Event>)
    requires
        run_spec(prefix) == Stage::Checking,
    ensures
        action_at(prefix.push(Event::WindowLookup { registered: true }), prefix.len() as int)
            == Action::AbortDuplicate,
        run_spec(prefix.push(Event::WindowLookup { registered: true }) + rest) == Stage::Aborted,
        forall|i: int|
            prefix.len() <= i < prefix.len() + 1 + rest.len() ==> #[trigger] action_at(
                prefix.push(Event::WindowLookup { registered: true }) + rest,
                i,
            ) != Action::CreateWindow,
{
    let p = prefix.push(Event::WindowLookup { registered: true });
    assert(p.take(prefix.len() as int) =~= prefix);
    assert(p.drop_last() =~= prefix);
    lemma_abort_is_final(p, rest);
    assert forall|i: int| prefix.len() <= i < prefix.len() + 1 + rest.len() implies #[trigger] action_at(
        p + rest,
        i,
    ) != Action::CreateWindow by {
        if i == prefix.len() {
            assert((p + rest).take(i) =~= prefix);
            assert((p + rest)[i] == Event::WindowLookup { registered: true });
        }
    }
}

} // verus!
