//! The decisions of the application's event handlers, as functions from the
//! current phase and the event to the next phase and the action to perform.
use vstd::prelude::*;

verus! {

/// The window events that the handlers tell apart.
#[derive(Debug, Clone, Copy, PartialEq, Eq)]
pub enum WindowEventKind {
    RedrawRequested,
    CloseRequested,
    Other,
}

// ---------------------------------------------------------------------------
// The application wrapper: an uninitialized application, an initialized one,
// or neither while one is being taken apart or built.
// ---------------------------------------------------------------------------

/// The phase of the application wrapper.
#[derive(Debug, Clone, Copy, PartialEq, Eq)]
pub enum WrapperPhase {
    Uninitialized,
    Initialized,
    Transitioning,
}

/// What the wrapper's owner must do after a decision.
#[derive(Debug, Clone, Copy, PartialEq, Eq)]
pub enum WrapperAction {
    Nothing,
    /// Initialize the application (window, then Vulkan) and report the outcome.
    Initialize,
    /// Deinitialize the Vulkan context of the initialized application.
    Deinitialize,
    /// Render a frame and request the next redraw.
    RenderAndRequestRedraw,
    /// Leave the event loop.
    ExitLoop,
}

/// The decision on an `exiting` notification: an initialized application is
/// deinitialized and replaced by a fresh uninitialized one; in any other
/// phase the wrapper is left transitioning.
pub open spec fn spec_on_exiting(phase: WrapperPhase) -> (WrapperPhase, WrapperAction) {
    match phase {
        WrapperPhase::Initialized => (WrapperPhase::Uninitialized, WrapperAction::Deinitialize),
        _ => (WrapperPhase::Transitioning, WrapperAction::Nothing),
    }
}

/// The decision on a `resumed` notification: an uninitialized application
/// starts its initialization; in any other phase the wrapper is left
/// transitioning.
pub open spec fn spec_on_resumed(phase: WrapperPhase) -> (WrapperPhase, WrapperAction) {
    match phase {
        WrapperPhase::Uninitialized => (WrapperPhase::Transitioning, WrapperAction::Initialize),
        _ => (WrapperPhase::Transitioning, WrapperAction::Nothing),
    }
}

/// The decision once an initialization has finished: on success the
/// application is initialized; on failure the wrapper stays transitioning
/// and the event loop is left.
pub open spec fn spec_on_initialized(succeeded: bool) -> (WrapperPhase, WrapperAction) {
    if succeeded {
        (WrapperPhase::Initialized, WrapperAction::Nothing)
    } else {
        (WrapperPhase::Transitioning, WrapperAction::ExitLoop)
    }
}

/// The decision on a window event: only an initialized application reacts,
/// rendering on a redraw request and leaving the loop on a close request.
pub open spec fn spec_on_window_event(phase: WrapperPhase, event: WindowEventKind) -> WrapperAction {
    match (phase, event) {
        (WrapperPhase::Initialized, WindowEventKind::RedrawRequested) => WrapperAction::RenderAndRequestRedraw,
        (WrapperPhase::Initialized, WindowEventKind::CloseRequested) => WrapperAction::ExitLoop,
        _ => WrapperAction::Nothing,
    }
}

/// Decides what an `exiting` notification does (see [`spec_on_exiting`]).
pub fn on_exiting(phase: WrapperPhase) -> (r: (WrapperPhase, WrapperAction))
    ensures
        r == spec_on_exiting(phase),
{
    match phase {
        WrapperPhase::Initialized => (WrapperPhase::Uninitialized, WrapperAction::Deinitialize),
        _ => (WrapperPhase::Transitioning, WrapperAction::Nothing),
    }
}

/// Decides what a `resumed` notification does (see [`spec_on_resumed`]).
pub fn on_resumed(phase: WrapperPhase) -> (r: (WrapperPhase, WrapperAction))
    ensures
        r == spec_on_resumed(phase),
{
    match phase {
        WrapperPhase::Uninitialized => (WrapperPhase::Transitioning, WrapperAction::Initialize),
        _ => (WrapperPhase::Transitioning, WrapperAction::Nothing),
    }
}

/// Decides the phase after an initialization (see [`spec_on_initialized`]).
pub fn on_initialized(succeeded: bool) -> (r: (WrapperPhase, WrapperAction))
    ensures
        r == spec_on_initialized(succeeded),
{
    if succeeded {
        (WrapperPhase::Initialized, WrapperAction::Nothing)
    } else {
        (WrapperPhase::Transitioning, WrapperAction::ExitLoop)
    }
}

/// Decides what a window event does; the phase does not change (see
/// [`spec_on_window_event`]).
pub fn on_window_event(phase: WrapperPhase, event: WindowEventKind) -> (a: WrapperAction)
    ensures
        a == spec_on_window_event(phase, event),
        a == WrapperAction::RenderAndRequestRedraw ==> phase == WrapperPhase::Initialized,
        a == WrapperAction::ExitLoop ==> event == WindowEventKind::CloseRequested,
        a == WrapperAction::RenderAndRequestRedraw ==> event == WindowEventKind::RedrawRequested,
        event == WindowEventKind::Other ==> a == WrapperAction::Nothing,
{
    proof {
        lemma_wrapper_decisions(phase, event, true);
    }
    match (phase, event) {
        (WrapperPhase::Initialized, WindowEventKind::RedrawRequested) => WrapperAction::RenderAndRequestRedraw,
        (WrapperPhase::Initialized, WindowEventKind::CloseRequested) => WrapperAction::ExitLoop,
        _ => WrapperAction::Nothing,
    }
}

/// An event as the wrapper sees it; a `resumed` notification carries the
/// outcome of the initialization that it may start.
pub enum WrapperEvent {
    Exiting,
    Resumed { initialization_succeeds: bool },
    Window(WindowEventKind),
}

/// The phase after one event, and whether the event initialized the Vulkan
/// context (`.1`) or deinitialized it (`.2`).
pub open spec fn wrapper_step(phase: WrapperPhase, event: WrapperEvent) -> (WrapperPhase, bool, bool) {
    match event {
        WrapperEvent::Exiting => {
            let (next, action) = spec_on_exiting(phase);
            (next, false, action == WrapperAction::Deinitialize)
        },
        WrapperEvent::Resumed { initialization_succeeds } => {
            let (next, action) = spec_on_resumed(phase);
            if action == WrapperAction::Initialize {
                let (after, _) = spec_on_initialized(initialization_succeeds);
                (after, initialization_succeeds, false)
            } else {
                (next, false, false)
            }
        },
        WrapperEvent::Window(_) => (phase, false, false),
    }
}

/// The phase after a sequence of events.
pub open spec fn wrapper_run(phase: WrapperPhase, events: Seq<WrapperEvent>) -> WrapperPhase
    decreases events.len(),
{
    if events.len() == 0 {
        phase
    } else {
        wrapper_run(wrapper_step(phase, events[0]).0, events.drop_first())
    }
}

/// How many times a sequence of events initializes the Vulkan context.
pub open spec fn initializations(phase: WrapperPhase, events: Seq<WrapperEvent>) -> nat
    decreases events.len(),
{
    if events.len() == 0 {
        0
    } else {
        let (next, init, _) = wrapper_step(phase, events[0]);
        (if init { 1nat } else { 0nat }) + initializations(next, events.drop_first())
    }
}

/// How many times a sequence of events deinitializes the Vulkan context.
pub open spec fn deinitializations(phase: WrapperPhase, events: Seq<WrapperEvent>) -> nat
    decreases events.len(),
{
    if events.len() == 0 {
        0
    } else {
        let (next, _, deinit) = wrapper_step(phase, events[0]);
        (if deinit { 1nat } else { 0nat }) + deinitializations(next, events.drop_first())
    }
}

/// Some `resumed` notification of the sequence arrives while the
/// application is initialized.
pub open spec fn resumed_while_initialized(phase: WrapperPhase, events: Seq<WrapperEvent>) -> bool
    decreases events.len(),
{
    if events.len() == 0 {
        false
    } else {
        (phase == WrapperPhase::Initialized && events[0] is Resumed) || resumed_while_initialized(
            wrapper_step(phase, events[0]).0,
            events.drop_first(),
        )
    }
}

/// 1 for the initialized phase, 0 otherwise.
pub open spec fn live(phase: WrapperPhase) -> int {
    if phase == WrapperPhase::Initialized { 1 } else { 0 }
}

/// Every Vulkan context that the wrapper initializes is deinitialized exactly
/// once, when the wrapper leaves the initialized phase: over any sequence of
/// events in which no `resumed` notification arrives while the application is
/// initialized, initializations minus deinitializations equals the change in
/// whether the wrapper is initialized.
pub proof fn lemma_initializations_balance(phase: WrapperPhase, events: Seq<WrapperEvent>)
    requires
        !resumed_while_initialized(phase, events),
    ensures
        initializations(phase, events) - deinitializations(phase, events) == live(
            wrapper_run(phase, events),
        ) - live(phase),
    decreases events.len(),
{
    if events.len() > 0 {
        let next = wrapper_step(phase, events[0]).0;
        lemma_initializations_balance(next, events.drop_first());
    }
}

/// Starting uninitialized, the number of deinitializations never exceeds the
/// number of initializations, and they are equal exactly when the wrapper
/// is not initialized at the end (same proviso on `resumed`).
pub proof fn lemma_no_deinitialization_without_initialization(events: Seq<WrapperEvent>)
    requires
        !resumed_while_initialized(WrapperPhase::Uninitialized, events),
    ensures
        deinitializations(WrapperPhase::Uninitialized, events) <= initializations(
            WrapperPhase::Uninitialized,
            events,
        ),
        (deinitializations(WrapperPhase::Uninitialized, events) == initializations(
            WrapperPhase::Uninitialized,
            events,
        )) <==> wrapper_run(WrapperPhase::Uninitialized, events) != WrapperPhase::Initialized,
{
    lemma_initializations_balance(WrapperPhase::Uninitialized, events);
}

/// Once the wrapper is transitioning outside an initialization, no event
/// brings it back: it stays transitioning for ever.
pub proof fn lemma_transitioning_is_final(events: Seq<WrapperEvent>)
    ensures
        wrapper_run(WrapperPhase::Transitioning, events) == WrapperPhase::Transitioning,
        initializations(WrapperPhase::Transitioning, events) == 0,
        deinitializations(WrapperPhase::Transitioning, events) == 0,
    decreases events.len(),
{
    if events.len() > 0 {
        lemma_transitioning_is_final(events.drop_first());
    }
}

// ---------------------------------------------------------------------------
// The windowed application shell: its window and its Vulkan context are
// created together on the first `resumed` notification.
// ---------------------------------------------------------------------------

/// The phase of the application shell.
#[derive(Debug, Clone, Copy, PartialEq, Eq)]
pub enum ShellPhase {
    Uninitialized,
    Initialized,
}

/// What the shell's owner must do after a decision.
#[derive(Debug, Clone, Copy, PartialEq, Eq)]
pub enum ShellAction {
    Nothing,
    /// Load the icon, create the window and create the Vulkan context, and
    /// report whether all of it succeeded.
    StartUp,
    /// Destroy the Vulkan context.
    DestroyContext,
    /// Request a redraw of the window.
    RequestRedraw,
    /// Leave the event loop.
    ExitLoop,
}

/// On `exiting`, an initialized shell destroys its Vulkan context (and stays
/// initialized); an uninitialized one does nothing.
pub open spec fn spec_shell_on_exiting(phase: ShellPhase) -> ShellAction {
    match phase {
        ShellPhase::Initialized => ShellAction::DestroyContext,
        ShellPhase::Uninitialized => ShellAction::Nothing,
    }
}

/// On `resumed`, an uninitialized shell starts up; an initialized one does
/// nothing.
pub open spec fn spec_shell_on_resumed(phase: ShellPhase) -> ShellAction {
    match phase {
        ShellPhase::Uninitialized => ShellAction::StartUp,
        ShellPhase::Initialized => ShellAction::Nothing,
    }
}

/// After a start-up: initialized on success; on any failure the shell stays
/// uninitialized and the event loop is left.
pub open spec fn spec_shell_after_start_up(succeeded: bool) -> (ShellPhase, ShellAction) {
    if succeeded {
        (ShellPhase::Initialized, ShellAction::Nothing)
    } else {
        (ShellPhase::Uninitialized, ShellAction::ExitLoop)
    }
}

/// On a window event, an initialized shell requests a redraw when asked to
/// redraw and leaves the loop when asked to close; otherwise nothing.
pub open spec fn spec_shell_on_window_event(phase: ShellPhase, event: WindowEventKind) -> ShellAction {
    match (phase, event) {
        (ShellPhase::Initialized, WindowEventKind::RedrawRequested) => ShellAction::RequestRedraw,
        (ShellPhase::Initialized, WindowEventKind::CloseRequested) => ShellAction::ExitLoop,
        _ => ShellAction::Nothing,
    }
}

/// Decides what an `exiting` notification does to the shell.
pub fn shell_on_exiting(phase: ShellPhase) -> (a: ShellAction)
    ensures
        a == spec_shell_on_exiting(phase),
{
    match phase {
        ShellPhase::Initialized => ShellAction::DestroyContext,
        ShellPhase::Uninitialized => ShellAction::Nothing,
    }
}

/// Decides what a `resumed` notification does to the shell.
pub fn shell_on_resumed(phase: ShellPhase) -> (a: ShellAction)
    ensures
        a == spec_shell_on_resumed(phase),
{
    match phase {
        ShellPhase::Uninitialized => ShellAction::StartUp,
        ShellPhase::Initialized => ShellAction::Nothing,
    }
}

/// Decides the shell's phase after a start-up.
pub fn shell_after_start_up(succeeded: bool) -> (r: (ShellPhase, ShellAction))
    ensures
        r == spec_shell_after_start_up(succeeded),
{
    if succeeded {
        (ShellPhase::Initialized, ShellAction::Nothing)
    } else {
        (ShellPhase::Uninitialized, ShellAction::ExitLoop)
    }
}

/// Decides what a window event does to the shell.
pub fn shell_on_window_event(phase: ShellPhase, event: WindowEventKind) -> (a: ShellAction)
    ensures
        a == spec_shell_on_window_event(phase, event),
        a == ShellAction::ExitLoop ==> event == WindowEventKind::CloseRequested,
        a == ShellAction::RequestRedraw ==> event == WindowEventKind::RedrawRequested,
        event == WindowEventKind::Other ==> a == ShellAction::Nothing,
{
    proof {
        lemma_shell_decisions(phase, event, true);
    }
    match (phase, event) {
        (ShellPhase::Initialized, WindowEventKind::RedrawRequested) => ShellAction::RequestRedraw,
        (ShellPhase::Initialized, WindowEventKind::CloseRequested) => ShellAction::ExitLoop,
        _ => ShellAction::Nothing,
    }
}

/// What the wrapper's decisions mean: it leaves the event loop on a window
/// event only when initialized and asked to close, renders only when
/// initialized and asked to redraw, and ignores every other window event;
/// only an initialized application is deinitialized, and then the wrapper
/// becomes uninitialized; only an uninitialized application starts an
/// initialization; an initialization that fails leaves the loop.
pub proof fn lemma_wrapper_decisions(phase: WrapperPhase, event: WindowEventKind, succeeded: bool)
    ensures
        (spec_on_window_event(phase, event) == WrapperAction::ExitLoop) <==> (phase
            == WrapperPhase::Initialized && event == WindowEventKind::CloseRequested),
        (spec_on_window_event(phase, event) == WrapperAction::RenderAndRequestRedraw) <==> (phase
            == WrapperPhase::Initialized && event == WindowEventKind::RedrawRequested),
        (event == WindowEventKind::Other || phase != WrapperPhase::Initialized)
            ==> spec_on_window_event(phase, event) == WrapperAction::Nothing,
        (spec_on_exiting(phase).1 == WrapperAction::Deinitialize) <==> phase
            == WrapperPhase::Initialized,
        (spec_on_exiting(phase).0 == WrapperPhase::Uninitialized) <==> phase
            == WrapperPhase::Initialized,
        spec_on_exiting(phase).1 != WrapperAction::Deinitialize ==> spec_on_exiting(phase)
            == (WrapperPhase::Transitioning, WrapperAction::Nothing),
        (spec_on_resumed(phase).1 == WrapperAction::Initialize) <==> phase
            == WrapperPhase::Uninitialized,
        spec_on_resumed(phase).0 == WrapperPhase::Transitioning,
        spec_on_resumed(phase).1 == WrapperAction::Initialize || spec_on_resumed(phase).1
            == WrapperAction::Nothing,
        (spec_on_initialized(succeeded).0 == WrapperPhase::Initialized) <==> succeeded,
        (spec_on_initialized(succeeded).1 == WrapperAction::ExitLoop) <==> !succeeded,
{
}

/// What the shell's decisions mean: it leaves the event loop on a window
/// event only when initialized and asked to close, requests a redraw only
/// when initialized and asked to redraw, and ignores every other window
/// event; it destroys its context only when initialized, starts up only when
/// uninitialized, and a failed start-up leaves it uninitialized and leaves the
/// loop.
pub proof fn lemma_shell_decisions(phase: ShellPhase, event: WindowEventKind, succeeded: bool)
    ensures
        (spec_shell_on_window_event(phase, event) == ShellAction::ExitLoop) <==> (phase
            == ShellPhase::Initialized && event == WindowEventKind::CloseRequested),
        (spec_shell_on_window_event(phase, event) == ShellAction::RequestRedraw) <==> (phase
            == ShellPhase::Initialized && event == WindowEventKind::RedrawRequested),
        (event == WindowEventKind::Other || phase == ShellPhase::Uninitialized)
            ==> spec_shell_on_window_event(phase, event) == ShellAction::Nothing,
        (spec_shell_on_exiting(phase) == ShellAction::DestroyContext) <==> phase
            == ShellPhase::Initialized,
        spec_shell_on_exiting(phase) != ShellAction::DestroyContext ==> spec_shell_on_exiting(phase)
            == ShellAction::Nothing,
        (spec_shell_on_resumed(phase) == ShellAction::StartUp) <==> phase == ShellPhase::Uninitialized,
        spec_shell_on_resumed(phase) != ShellAction::StartUp ==> spec_shell_on_resumed(phase)
            == ShellAction::Nothing,
        (spec_shell_after_start_up(succeeded).0 == ShellPhase::Initialized) <==> succeeded,
        (spec_shell_after_start_up(succeeded).1 == ShellAction::ExitLoop) <==> !succeeded,
        succeeded ==> spec_shell_after_start_up(succeeded).1 == ShellAction::Nothing,
{
}

} // verus!
