//! The event loop coordinator: what each tick of the user-interface loop
//! decides.
//!
//! The caller owns the loop. Every tick it takes at most one menu event, one
//! icon event and one session-count update from their queues, hands each to
//! the coordinator, and carries out what comes back. The coordinator owns the
//! tray holder: nothing else changes the icon.

use vstd::prelude::*;
use crate::menu::{MenuAction, MenuIds};
use crate::platform::{OpenStrategy, Platform};
use crate::text::Labels;
use crate::tray::{applied_tooltip, hide_commands, hide_tray, text_of, with_tooltip};
use crate::tray::{after_show, TrayCommand, TrayError, TrayHolder, TrayRequest};

verus! {

/// Milliseconds between two ticks of the loop.
pub const TICK_MS: u64 = 100;

/// Milliseconds after an accepted click during which further clicks are
/// ignored.
pub const DEBOUNCE_MS: u64 = 1000;

/// Whether the loop goes on.
#[derive(Clone, Copy, Debug, PartialEq, Eq, Structural)]
pub enum LoopState {
    /// The loop runs and the icon is served.
    Running,
    /// The loop ends with the current tick. Nothing leaves this state.
    Exiting,
}

/// A mouse button.
#[derive(Clone, Copy, Debug, PartialEq, Eq, Structural)]
pub enum MouseButton {
    Left,
    Right,
    Middle,
}

/// What happened to a mouse button.
#[derive(Clone, Copy, Debug, PartialEq, Eq, Structural)]
pub enum ButtonState {
    Up,
    Down,
}

/// An event on the icon.
#[derive(Clone, Copy, Debug, PartialEq, Eq, Structural)]
pub enum TrayEvent {
    /// A button was pressed or released over the icon.
    Click { button: MouseButton, state: ButtonState },
    /// Anything else: the pointer entered, moved or left, a double click.
    Other,
}

/// What the caller is to do after an event.
#[derive(Clone, Copy, Debug, PartialEq, Eq, Structural)]
pub enum Reaction {
    /// Nothing.
    Idle,
    /// Bring the application's window up in the given way.
    Open(OpenStrategy),
    /// Ask the background service to stop, then report with
    /// [`Coordinator::on_stop_result`] whether it still runs.
    StopService,
}

/// What the loop waits for next.
#[derive(Clone, Copy, Debug, PartialEq, Eq, Structural)]
pub enum ControlFlow {
    /// Sleep until an event arrives or the clock shows this many milliseconds.
    WaitUntil(u64),
    /// Leave the loop.
    Exit,
}

/// The coordinator's state.
#[derive(Debug)]
pub struct Coordinator {
    tray: TrayHolder,
    state: LoopState,
    last_click_ms: Option<u64>,
    platform: Platform,
    embedded_ui: bool,
    ids: MenuIds,
    labels: Labels,
}

/// Milliseconds from `earlier` to `now`; none where the clock went back.
pub open spec fn elapsed_ms(earlier: u64, now: u64) -> int {
    if now >= earlier {
        now - earlier
    } else {
        0
    }
}

/// Whether the debounce interval is over at `now_ms`: it is where no click
/// was accepted yet, and where the last accepted one lies at least
/// [`DEBOUNCE_MS`] back.
pub open spec fn debounce_over(last_click: Option<u64>, now_ms: u64) -> bool {
    match last_click {
        None => true,
        Some(last_ms) => elapsed_ms(last_ms, now_ms) >= DEBOUNCE_MS,
    }
}

/// The release of the left button over the icon.
pub open spec fn left_release() -> TrayEvent {
    TrayEvent::Click { button: MouseButton::Left, state: ButtonState::Up }
}

/// Whether an event is the release of the left button.
pub open spec fn is_left_release(event: TrayEvent) -> bool {
    event == left_release()
}

/// The reaction to a menu action.
pub open spec fn reaction_to(action: Option<MenuAction>, strategy: OpenStrategy) -> Reaction {
    match action {
        Some(MenuAction::Quit) => Reaction::StopService,
        Some(MenuAction::Open) => Reaction::Open(strategy),
        None => Reaction::Idle,
    }
}

/// The loop state after the service answered a request to stop: the loop
/// ends exactly when the service no longer runs, and never starts again.
pub open spec fn state_after_stop(state: LoopState, still_running: bool) -> LoopState {
    if still_running {
        state
    } else {
        LoopState::Exiting
    }
}

/// The clock reading at which the loop wakes if nothing happens before.
pub open spec fn wake_at(now_ms: u64) -> u64 {
    if now_ms + TICK_MS <= u64::MAX {
        (now_ms + TICK_MS) as u64
    } else {
        u64::MAX
    }
}

/// What the loop waits for after a tick that began at `now_ms`: the next
/// tick while running, nothing more once exiting.
pub open spec fn flow_of(state: LoopState, now_ms: u64) -> ControlFlow {
    match state {
        LoopState::Running => ControlFlow::WaitUntil(wake_at(now_ms)),
        LoopState::Exiting => ControlFlow::Exit,
    }
}

impl Coordinator {
    /// The tray holder.
    pub closed spec fn tray_of(&self) -> TrayHolder {
        self.tray
    }

    /// The loop state.
    pub closed spec fn state_of(&self) -> LoopState {
        self.state
    }

    /// The clock reading of the last accepted click; none before the first.
    pub closed spec fn last_click_of(&self) -> Option<u64> {
        self.last_click_ms
    }

    /// The platform the coordinator was made for.
    pub closed spec fn platform_of(&self) -> Platform {
        self.platform
    }

    /// How "Open" is carried out.
    pub closed spec fn strategy_of(&self) -> OpenStrategy {
        self.platform.open_strategy_of(self.embedded_ui)
    }

    /// The identities of the two menu entries.
    pub closed spec fn ids_of(&self) -> MenuIds {
        self.ids
    }

    /// The tooltip's fixed texts.
    pub closed spec fn labels_of(&self) -> Labels {
        self.labels
    }

    /// Whether a click at `now_ms` is accepted: the platform opens on click
    /// and either no click was accepted before or at least [`DEBOUNCE_MS`]
    /// have passed since the last accepted one.
    pub open spec fn accepts_click(&self, now_ms: u64) -> bool {
        self.platform_of().opens_on_click() && debounce_over(self.last_click_of(), now_ms)
    }

    /// The reaction to an icon event at `now_ms`: the release of the left
    /// button opens the application if the click is accepted; nothing else
    /// does anything.
    pub open spec fn click_reaction(&self, event: TrayEvent, now_ms: u64) -> Reaction {
        if is_left_release(event) && self.accepts_click(now_ms) {
            Reaction::Open(self.strategy_of())
        } else {
            Reaction::Idle
        }
    }

    /// The last accepted click after an icon event at `now_ms`.
    pub open spec fn last_click_after(&self, event: TrayEvent, now_ms: u64) -> Option<u64> {
        if is_left_release(event) && self.accepts_click(now_ms) {
            Some(now_ms)
        } else {
            self.last_click_of()
        }
    }

    /// Whether `other` differs from `self` at most in the tray, the loop
    /// state and the last click.
    pub open spec fn same_setup(&self, other: &Coordinator) -> bool {
        &&& self.platform_of() == other.platform_of()
        &&& self.strategy_of() == other.strategy_of()
        &&& self.ids_of() == other.ids_of()
        &&& self.labels_of() == other.labels_of()
    }

    /// A coordinator that starts running around the tray that `tray` holds.
    /// No click has been accepted yet, so the first one is not debounced.
    pub fn new(
        tray: TrayHolder,
        platform: Platform,
        embedded_ui: bool,
        ids: MenuIds,
        labels: Labels,
    ) -> (c: Coordinator)
        ensures
            c.tray_of() == tray,
            c.state_of() == LoopState::Running,
            c.last_click_of() is None,
            c.platform_of() == platform,
            c.strategy_of() == platform.open_strategy_of(embedded_ui),
            c.ids_of() == ids,
            c.labels_of() == labels,
    {
        Coordinator {
            tray,
            state: LoopState::Running,
            last_click_ms: None,
            platform,
            embedded_ui,
            ids,
            labels,
        }
    }

    /// The loop state.
    pub fn state(&self) -> (s: LoopState)
        ensures
            s == self.state_of(),
    {
        self.state
    }

    /// The tray holder, to look at.
    pub fn tray(&self) -> (tray: &TrayHolder)
        ensures
            *tray == self.tray_of(),
    {
        &self.tray
    }

    /// Hides the icon through the tray holder, as [`hide_tray`] does. The
    /// loop state is not touched: hiding the icon does not end the loop.
    pub fn hide_tray(&mut self) -> (r: Result<Vec<TrayCommand>, TrayError>)
        ensures
            final(self).tray_of()@ is None,
            r matches Ok(commands) && commands@ == hide_commands(old(self).tray_of()@ is Some),
            final(self).state_of() == old(self).state_of(),
            final(self).last_click_of() == old(self).last_click_of(),
            final(self).same_setup(old(self)),
    {
        hide_tray(&mut self.tray)
    }

    /// Records how the creation of a requested icon went, through the tray
    /// holder. The loop state is not touched.
    pub fn complete_show(&mut self, request: &TrayRequest, created: bool) -> (r: Result<
        (),
        TrayError,
    >)
        ensures
            final(self).tray_of()@ == after_show(
                old(self).tray_of()@,
                request.tooltip@,
                request.entries@,
                created,
            ),
            created ==> r is Ok,
            !created ==> r == Err::<(), TrayError>(TrayError::Platform),
            final(self).state_of() == old(self).state_of(),
            final(self).last_click_of() == old(self).last_click_of(),
            final(self).same_setup(old(self)),
    {
        self.tray.complete_show(request, created)
    }

    /// Decides what a click on the menu entry with identity `clicked` asks
    /// for. Nothing changes yet: stopping is decided by the service's answer.
    pub fn on_menu_event(&self, clicked: &String) -> (reaction: Reaction)
        ensures
            reaction == reaction_to(self.ids_of().action_of(clicked@), self.strategy_of()),
    {
        match self.ids.dispatch(clicked) {
            Some(MenuAction::Quit) => Reaction::StopService,
            Some(MenuAction::Open) => Reaction::Open(self.platform.open_strategy(self.embedded_ui)),
            None => Reaction::Idle,
        }
    }

    /// Records the service's answer to a request to stop. Where it no longer
    /// runs the loop ends; where it still runs the loop goes on. The tray is
    /// left as it is either way.
    pub fn on_stop_result(&mut self, still_running: bool)
        ensures
            final(self).state_of() == state_after_stop(old(self).state_of(), still_running),
            final(self).tray_of() == old(self).tray_of(),
            final(self).last_click_of() == old(self).last_click_of(),
            final(self).same_setup(old(self)),
    {
        if !still_running {
            self.state = LoopState::Exiting;
        }
    }

    /// Handles an event on the icon at clock reading `now_ms`. The release
    /// of the left button opens the application if the click is accepted,
    /// and is then remembered as the last click. Every other event, and a
    /// click that comes too early, changes nothing.
    pub fn on_tray_event(&mut self, event: TrayEvent, now_ms: u64) -> (reaction: Reaction)
        ensures
            reaction == old(self).click_reaction(event, now_ms),
            final(self).last_click_of() == old(self).last_click_after(event, now_ms),
            final(self).state_of() == old(self).state_of(),
            final(self).tray_of() == old(self).tray_of(),
            final(self).same_setup(old(self)),
    {
        match event {
            TrayEvent::Click { button: MouseButton::Left, state: ButtonState::Up } => {
                if !self.platform.handles_click() {
                    return Reaction::Idle;
                }
                if let Some(last_ms) = self.last_click_ms {
                    let elapsed: u64 = if now_ms >= last_ms {
                        now_ms - last_ms
                    } else {
                        0
                    };
                    if elapsed < DEBOUNCE_MS {
                        return Reaction::Idle;
                    }
                }
                self.last_click_ms = Some(now_ms);
                Reaction::Open(self.platform.open_strategy(self.embedded_ui))
            },
            _ => Reaction::Idle,
        }
    }

    /// Handles a session-count update: the tooltip for `count` sessions is
    /// set through the tray holder and handed back for the real icon, where
    /// one is live. `sessions` is the localized sessions phrase for `count`.
    pub fn on_session_count(&mut self, count: usize, sessions: &str) -> (applied: Option<String>)
        ensures
            final(self).tray_of()@ == with_tooltip(
                old(self).tray_of()@,
                old(self).labels_of().tooltip_text(count as nat, sessions@),
            ),
            text_of(applied) == applied_tooltip(
                old(self).tray_of()@,
                old(self).labels_of().tooltip_text(count as nat, sessions@),
            ),
            final(self).state_of() == old(self).state_of(),
            final(self).last_click_of() == old(self).last_click_of(),
            final(self).same_setup(old(self)),
    {
        self.tray.update_tooltip(&self.labels, count, sessions)
    }

    /// Tells the loop what to wait for at the end of a tick that began at
    /// clock reading `now_ms`.
    pub fn control_flow(&self, now_ms: u64) -> (flow: ControlFlow)
        ensures
            flow == flow_of(self.state_of(), now_ms),
    {
        match self.state {
            LoopState::Running => {
                if now_ms <= u64::MAX - TICK_MS {
                    ControlFlow::WaitUntil(now_ms + TICK_MS)
                } else {
                    ControlFlow::WaitUntil(u64::MAX)
                }
            },
            LoopState::Exiting => ControlFlow::Exit,
        }
    }
}

/// Clicks are debounced. After a click was accepted at `first_ms`, be it the
/// first ever or a later one, a click
/// at `second_ms` opens the application exactly when at least
/// [`DEBOUNCE_MS`] lie between the two. `after` is the coordinator as the
/// first click left it.
pub proof fn law_click_debounce(
    before: Coordinator,
    after: Coordinator,
    first_ms: u64,
    second_ms: u64,
)
    requires
        before.accepts_click(first_ms),
        after.last_click_of() == before.last_click_after(left_release(), first_ms),
        after.same_setup(&before),
        first_ms <= second_ms,
    ensures
        before.click_reaction(left_release(), first_ms) == Reaction::Open(before.strategy_of()),
        second_ms - first_ms >= DEBOUNCE_MS ==> after.click_reaction(left_release(), second_ms)
            == Reaction::Open(before.strategy_of()),
        second_ms - first_ms < DEBOUNCE_MS ==> after.click_reaction(left_release(), second_ms)
            == Reaction::Idle,
        second_ms - first_ms < DEBOUNCE_MS ==> after.last_click_after(left_release(), second_ms)
            == Some(first_ms),
{
}

/// The first click is never debounced: a coordinator that has accepted no
/// click yet opens the application on the release of the left button,
/// whenever it comes, on a platform that opens on click.
pub proof fn law_first_click_opens(c: Coordinator, now_ms: u64)
    requires
        c.last_click_of() is None,
        c.platform_of().opens_on_click(),
    ensures
        c.click_reaction(left_release(), now_ms) == Reaction::Open(c.strategy_of()),
        c.last_click_after(left_release(), now_ms) == Some(now_ms),
{
}

/// Only the release of the left button can open the application from the
/// icon, and only on a platform that opens on click.
pub proof fn law_only_left_release_opens(c: Coordinator, event: TrayEvent, now_ms: u64)
    ensures
        c.click_reaction(event, now_ms) != Reaction::Idle ==> is_left_release(event)
            && c.platform_of().opens_on_click(),
        c.click_reaction(event, now_ms) != Reaction::StopService,
{
}

/// Quitting goes by the service's answer. A click on "Stop service" asks
/// for the service to be stopped and nothing more. Where the service then no
/// longer runs, the loop is told to exit at the end of the tick; where it
/// still runs, the loop goes on to the next tick. Once exiting, the loop
/// stays so whatever the service answers later.
pub proof fn law_quit_follows_service(
    ids: MenuIds,
    strategy: OpenStrategy,
    state: LoopState,
    still_running: bool,
    now_ms: u64,
)
    ensures
        reaction_to(ids.action_of(ids.quit@), strategy) == Reaction::StopService,
        flow_of(state_after_stop(state, false), now_ms) == ControlFlow::Exit,
        state_after_stop(LoopState::Running, true) == LoopState::Running,
        flow_of(state_after_stop(LoopState::Running, true), now_ms) == ControlFlow::WaitUntil(
            wake_at(now_ms),
        ),
        state_after_stop(LoopState::Exiting, still_running) == LoopState::Exiting,
{
}

} // verus!
