//! The thread-context model of one logical plugin instance.
//!
//! One instance is seen through three mutually exclusive views: `SharedView`
//! (read-mostly, usable from any context), `MainThreadView` (the control
//! plane: timers, GUI lifecycle, cached extension handles; main context
//! only), and the audio processor (real-time state; audio context only,
//! modelled here by the `Activated` lifecycle state). The shared view is
//! created first and outlives the others; the main-thread view is created
//! immediately after it and lives until teardown; the audio processor is
//! created on activation and destroyed on deactivation, possibly many times.
//!
//! Cross-context misuse is kept a compile-time impossibility: operations on
//! main-thread data are only reachable through the main-thread view, and the
//! lifecycle transitions are total functions that report misordered calls as
//! typed failures instead of panicking.

use vstd::prelude::*;

use crate::extension::ExtensionDescriptor;
use crate::extension::find_extension;
use crate::extension::first_match;
use crate::extension::table_view;
use crate::id::ClapId;
use crate::msg::MainThreadMessage;
use crate::msg::MessageQueue;
use crate::timer::TimerError;
use crate::timer::Timers;
use crate::timer::fired_ids;
use crate::timer::has_id;
use crate::timer::ticked;

verus! {

/// Where an instance stands in its life: instantiated (shared and
/// main-thread views exist), activated (the audio processor exists as
/// well), or destroyed. Before instantiation no instance value exists at
/// all.
#[derive(Copy, Clone, Debug, PartialEq, Eq, Structural)]
pub enum InstanceState {
    Instantiated,
    Activated,
    Destroyed,
}

/// A lifecycle transition requested out of order, reported to the caller
/// instead of panicking.
#[derive(Copy, Clone, Debug, PartialEq, Eq, Structural)]
pub enum LifecycleError {
    AlreadyActivated,
    NotActivated,
    StillActive,
    Destroyed,
}

/// A GUI operation that cannot proceed: the plugin offers no GUI, the
/// window is already open, or its state was already torn down.
#[derive(Copy, Clone, Debug, PartialEq, Eq, Structural)]
pub enum GuiError {
    NotSupported,
    AlreadyOpen,
    NotOpen,
}

/// The GUI lifecycle: opened once, then destroyed once, with teardown
/// guarded so it can never be invoked twice.
#[derive(Copy, Clone, Debug, PartialEq, Eq, Structural)]
pub enum GuiPhase {
    NotOpen,
    Open,
    Destroyed,
}

/// Main-thread GUI state for a plugin that offers a GUI: the capability
/// handle, whether the plugin wants a floating top-level window rather than
/// an embedded surface, and where the window stands in its lifecycle.
#[derive(Copy, Clone, Debug, PartialEq, Eq, Structural)]
pub struct GuiState {
    pub interface: u64,
    pub floating: bool,
    pub phase: GuiPhase,
}

/// The read-mostly view of an instance, accessible from any context: the
/// capability handles discovered from the plugin at instantiation, never
/// mutated afterwards.
#[derive(Copy, Clone, Debug)]
pub struct SharedView {
    pub gui: Option<u64>,
    pub audio_ports: Option<u64>,
}

/// The control-plane view of an instance, owned and mutated by the main
/// context alone: the timer table, the GUI lifecycle, and the cached
/// timer-support capability of the plugin.
pub struct MainThreadView {
    timer_support: Option<u64>,
    timers: Timers,
    gui: Option<GuiState>,
}

impl MainThreadView {
    /// The plugin's timer-support capability, if it offers one.
    pub closed spec fn spec_timer_support(self) -> Option<u64> {
        self.timer_support
    }

    /// The timer table.
    pub closed spec fn spec_timers(self) -> Timers {
        self.timers
    }

    /// The GUI state, absent when the plugin offers no GUI.
    pub closed spec fn spec_gui(self) -> Option<GuiState> {
        self.gui
    }

    /// Validity of the main-thread state.
    pub open spec fn wf(self) -> bool {
        self.spec_timers().wf()
    }

    /// The timer table, for reading deadlines.
    pub fn timers(&self) -> (r: &Timers)
        ensures
            *r == self.spec_timers(),
    {
        &self.timers
    }

    /// The plugin's timer-support capability, if it offers one.
    pub fn timer_support(&self) -> (r: Option<u64>)
        ensures
            r == self.spec_timer_support(),
    {
        self.timer_support
    }

    /// The GUI state, absent when the plugin offers no GUI.
    pub fn gui(&self) -> (r: Option<GuiState>)
        ensures
            r == self.spec_gui(),
    {
        self.gui
    }

    /// Registers a periodic timer on behalf of the plugin; see
    /// [`Timers::register`] for the exact failures.
    pub fn register_timer(&mut self, period_ms: u32) -> (r: Result<ClapId, TimerError>)
        requires
            old(self).wf(),
        ensures
            final(self).wf(),
            final(self).spec_timer_support() == old(self).spec_timer_support(),
            final(self).spec_gui() == old(self).spec_gui(),
            period_ms == 0 ==> r == Err::<ClapId, TimerError>(TimerError::InvalidPeriod)
                && *final(self) == *old(self),
            period_ms > 0 && old(self).spec_timers().spec_next_raw() == u32::MAX ==> r == Err::<
                ClapId,
                TimerError,
            >(TimerError::Capacity) && *final(self) == *old(self),
            period_ms > 0 && old(self).spec_timers().spec_next_raw() < u32::MAX ==> (r matches Ok(
                id,
            ) && {
                &&& id.raw() == old(self).spec_timers().spec_next_raw()
                &&& !has_id(old(self).spec_timers()@, id)
                &&& final(self).spec_timers()@ == old(self).spec_timers()@.push(
                    crate::timer::TimerEntry { id, period_ms, elapsed_ms: 0 },
                )
                &&& final(self).spec_timers().spec_next_raw() == old(
                    self,
                ).spec_timers().spec_next_raw() + 1
            }),
    {
        self.timers.register(period_ms)
    }

    /// Unregisters a timer: a soft failure reports an identifier that is
    /// not (or no longer) registered, and the table is then unchanged.
    pub fn unregister_timer(&mut self, id: ClapId) -> (r: Result<(), TimerError>)
        requires
            old(self).wf(),
        ensures
            final(self).wf(),
            final(self).spec_timer_support() == old(self).spec_timer_support(),
            final(self).spec_gui() == old(self).spec_gui(),
            r == Ok::<(), TimerError>(()) <==> has_id(old(self).spec_timers()@, id),
            r is Err ==> r == Err::<(), TimerError>(TimerError::UnknownTimer) && *final(self)
                == *old(self),
            r is Ok ==> exists|i: int|
                0 <= i < old(self).spec_timers()@.len() && old(self).spec_timers()@[i].id == id
                    && final(self).spec_timers()@ == old(self).spec_timers()@.remove(i),
            final(self).spec_timers().spec_next_raw() == old(self).spec_timers().spec_next_raw(),
            !has_id(final(self).spec_timers()@, id),
    {
        if self.timers.unregister(id) {
            Ok(())
        } else {
            Err(TimerError::UnknownTimer)
        }
    }

    /// One timer pass of the event loop: advances every registered timer by
    /// the time elapsed since the previous pass and returns the identifiers
    /// that became due, in table order, for delivery to the plugin's
    /// timer-support capability.
    pub fn tick_timers(&mut self, delta_ms: u64) -> (r: Vec<ClapId>)
        requires
            old(self).wf(),
        ensures
            final(self).wf(),
            final(self).spec_timer_support() == old(self).spec_timer_support(),
            final(self).spec_gui() == old(self).spec_gui(),
            final(self).spec_timers().spec_next_raw() == old(self).spec_timers().spec_next_raw(),
            final(self).spec_timers()@.len() == old(self).spec_timers()@.len(),
            forall|i: int|
                0 <= i < old(self).spec_timers()@.len() ==> final(self).spec_timers()@[i]
                    == ticked(old(self).spec_timers()@[i], delta_ms),
            r@ == fired_ids(old(self).spec_timers()@, delta_ms),
    {
        self.timers.tick_all(delta_ms)
    }

    /// Marks the GUI open. Fails when the plugin offers no GUI, when the
    /// window is already open, and when its state was already torn down;
    /// failure changes nothing.
    pub fn open_gui(&mut self) -> (r: Result<(), GuiError>)
        ensures
            final(self).spec_timer_support() == old(self).spec_timer_support(),
            final(self).spec_timers() == old(self).spec_timers(),
            match old(self).spec_gui() {
                None => r == Err::<(), GuiError>(GuiError::NotSupported)
                    && *final(self) == *old(self),
                Some(g) => {
                    match g.phase {
                        GuiPhase::NotOpen => r == Ok::<(), GuiError>(()) && final(self).spec_gui()
                            == Some(
                            GuiState {
                                interface: g.interface,
                                floating: g.floating,
                                phase: GuiPhase::Open,
                            },
                        ),
                        GuiPhase::Open => r == Err::<(), GuiError>(GuiError::AlreadyOpen)
                            && *final(self) == *old(self),
                        GuiPhase::Destroyed => r == Err::<(), GuiError>(GuiError::NotOpen)
                            && *final(self) == *old(self),
                    }
                },
            },
    {
        match self.gui {
            None => Err(GuiError::NotSupported),
            Some(g) => {
                match g.phase {
                    GuiPhase::NotOpen => {
                        self.gui = Some(
                            GuiState {
                                interface: g.interface,
                                floating: g.floating,
                                phase: GuiPhase::Open,
                            },
                        );
                        Ok(())
                    },
                    GuiPhase::Open => Err(GuiError::AlreadyOpen),
                    GuiPhase::Destroyed => Err(GuiError::NotOpen),
                }
            },
        }
    }

    /// Guarded GUI teardown: tears the window state down exactly when it is
    /// open, and reports whether it did. The guard makes teardown safe to
    /// request more than once — the destruction itself never happens twice.
    pub fn destroy_gui(&mut self) -> (r: bool)
        ensures
            final(self).spec_timer_support() == old(self).spec_timer_support(),
            final(self).spec_timers() == old(self).spec_timers(),
            r == (old(self).spec_gui() matches Some(g) && g.phase == GuiPhase::Open),
            !r ==> *final(self) == *old(self),
            r ==> final(self).spec_gui() == (match old(self).spec_gui() {
                Some(g) => Some(
                    GuiState {
                        interface: g.interface,
                        floating: g.floating,
                        phase: GuiPhase::Destroyed,
                    },
                ),
                None => None::<GuiState>,
            }),
    {
        match self.gui {
            Some(g) => {
                match g.phase {
                    GuiPhase::Open => {
                        self.gui = Some(
                            GuiState {
                                interface: g.interface,
                                floating: g.floating,
                                phase: GuiPhase::Destroyed,
                            },
                        );
                        true
                    },
                    _ => false,
                }
            },
            None => false,
        }
    }
}

/// One logical plugin instance: its lifecycle state and its shared and
/// main-thread views. The audio processor owns no data in this layer; its
/// existence is exactly the `Activated` state.
pub struct PluginInstance {
    state: InstanceState,
    shared: SharedView,
    main: MainThreadView,
}

impl PluginInstance {
    /// The lifecycle state.
    pub closed spec fn spec_state(self) -> InstanceState {
        self.state
    }

    /// The shared view.
    pub closed spec fn spec_shared(self) -> SharedView {
        self.shared
    }

    /// The main-thread view.
    pub closed spec fn spec_main(self) -> MainThreadView {
        self.main
    }

    /// Validity of the instance: its main-thread state is well formed.
    pub open spec fn wf(self) -> bool {
        self.spec_main().wf()
    }

    /// Instantiation: builds the shared view first, the main-thread view
    /// immediately after, and performs extension discovery against the
    /// plugin's capability table, caching the handles each view needs. The
    /// GUI state exists exactly when the plugin offers a GUI capability;
    /// `gui_floating` records whether the plugin asked for a floating
    /// window. Discovery is synchronous: every cached handle is in place
    /// before the instance is handed out.
    pub fn instantiate(
        plugin_extensions: &Vec<ExtensionDescriptor>,
        gui_id: &[u8],
        audio_ports_id: &[u8],
        timer_id: &[u8],
        gui_floating: bool,
    ) -> (r: PluginInstance)
        ensures
            r.wf(),
            r.spec_state() == InstanceState::Instantiated,
            r.spec_shared().gui == first_match(table_view(plugin_extensions@), gui_id@),
            r.spec_shared().audio_ports == first_match(
                table_view(plugin_extensions@),
                audio_ports_id@,
            ),
            r.spec_main().spec_timer_support() == first_match(
                table_view(plugin_extensions@),
                timer_id@,
            ),
            r.spec_main().spec_timers()@ == Seq::<crate::timer::TimerEntry>::empty(),
            r.spec_main().spec_gui() == (match first_match(
                table_view(plugin_extensions@),
                gui_id@,
            ) {
                Some(h) => Some(
                    GuiState { interface: h, floating: gui_floating, phase: GuiPhase::NotOpen },
                ),
                None => None::<GuiState>,
            }),
    {
        let shared = SharedView {
            gui: find_extension(plugin_extensions, gui_id),
            audio_ports: find_extension(plugin_extensions, audio_ports_id),
        };
        let main = MainThreadView {
            timer_support: find_extension(plugin_extensions, timer_id),
            timers: Timers::new(),
            gui: match shared.gui {
                Some(h) => Some(
                    GuiState { interface: h, floating: gui_floating, phase: GuiPhase::NotOpen },
                ),
                None => None,
            },
        };
        PluginInstance { state: InstanceState::Instantiated, shared, main }
    }

    /// The lifecycle state.
    pub fn state(&self) -> (r: InstanceState)
        ensures
            r == self.spec_state(),
    {
        self.state
    }

    /// The shared view, readable from any context.
    pub fn shared(&self) -> (r: &SharedView)
        ensures
            *r == self.spec_shared(),
    {
        &self.shared
    }

    /// The plugin's window preference, as the GUI collaborator reported it:
    /// absent when the plugin offers no GUI, otherwise whether it wants a
    /// floating top-level window.
    pub fn needs_floating(&self) -> (r: Option<bool>)
        ensures
            r == (match self.spec_main().spec_gui() {
                Some(g) => Some(g.floating),
                None => None::<bool>,
            }),
    {
        match self.main.gui() {
            Some(g) => Some(g.floating),
            None => None,
        }
    }

    /// The main-thread view, reachable only while the instance is alive:
    /// teardown destroys the view, so a destroyed instance has none.
    pub fn main_thread_mut(&mut self) -> (r: &mut MainThreadView)
        requires
            old(self).spec_state() != InstanceState::Destroyed,
        ensures
            *r == old(self).spec_main(),
            final(self).spec_main() == *final(r),
            final(self).spec_state() == old(self).spec_state(),
            final(self).spec_shared() == old(self).spec_shared(),
    {
        &mut self.main
    }

    /// Activation: creates the audio processor. Legal exactly once, from
    /// the instantiated state; anything else is a typed failure that leaves
    /// the instance unchanged.
    pub fn activate(&mut self) -> (r: Result<(), LifecycleError>)
        ensures
            final(self).spec_shared() == old(self).spec_shared(),
            final(self).spec_main() == old(self).spec_main(),
            match old(self).spec_state() {
                InstanceState::Instantiated => r == Ok::<(), LifecycleError>(())
                    && final(self).spec_state() == InstanceState::Activated,
                InstanceState::Activated => r == Err::<(), LifecycleError>(
                    LifecycleError::AlreadyActivated,
                ) && *final(self) == *old(self),
                InstanceState::Destroyed => r == Err::<(), LifecycleError>(
                    LifecycleError::Destroyed,
                ) && *final(self) == *old(self),
            },
    {
        match self.state {
            InstanceState::Instantiated => {
                self.state = InstanceState::Activated;
                Ok(())
            },
            InstanceState::Activated => Err(LifecycleError::AlreadyActivated),
            InstanceState::Destroyed => Err(LifecycleError::Destroyed),
        }
    }

    /// Deactivation: destroys the audio processor without blocking, taking
    /// the instance back to the instantiated state. The audio processor may
    /// be created and destroyed many times over an instance's life.
    pub fn deactivate(&mut self) -> (r: Result<(), LifecycleError>)
        ensures
            final(self).spec_shared() == old(self).spec_shared(),
            final(self).spec_main() == old(self).spec_main(),
            match old(self).spec_state() {
                InstanceState::Activated => r == Ok::<(), LifecycleError>(())
                    && final(self).spec_state() == InstanceState::Instantiated,
                InstanceState::Instantiated => r == Err::<(), LifecycleError>(
                    LifecycleError::NotActivated,
                ) && *final(self) == *old(self),
                InstanceState::Destroyed => r == Err::<(), LifecycleError>(
                    LifecycleError::Destroyed,
                ) && *final(self) == *old(self),
            },
    {
        match self.state {
            InstanceState::Activated => {
                self.state = InstanceState::Instantiated;
                Ok(())
            },
            InstanceState::Instantiated => Err(LifecycleError::NotActivated),
            InstanceState::Destroyed => Err(LifecycleError::Destroyed),
        }
    }

    /// Destruction: tears down the main-thread view, then the shared view.
    /// Legal only in the fixed teardown order — a still-active instance
    /// must be deactivated first — and never twice. Teardown removes every
    /// registered timer.
    pub fn destroy(&mut self) -> (r: Result<(), LifecycleError>)
        ensures
            final(self).spec_shared() == old(self).spec_shared(),
            match old(self).spec_state() {
                InstanceState::Instantiated => r == Ok::<(), LifecycleError>(())
                    && final(self).spec_state() == InstanceState::Destroyed && final(self).spec_main().spec_timers()@
                    == Seq::<crate::timer::TimerEntry>::empty() && final(self).wf(),
                InstanceState::Activated => r == Err::<(), LifecycleError>(
                    LifecycleError::StillActive,
                ) && *final(self) == *old(self),
                InstanceState::Destroyed => r == Err::<(), LifecycleError>(
                    LifecycleError::Destroyed,
                ) && *final(self) == *old(self),
            },
    {
        match self.state {
            InstanceState::Instantiated => {
                self.main.timers = Timers::new();
                self.state = InstanceState::Destroyed;
                Ok(())
            },
            InstanceState::Activated => Err(LifecycleError::StillActive),
            InstanceState::Destroyed => Err(LifecycleError::Destroyed),
        }
    }
}

/// How the main context will run: driving a floating plugin window, an
/// embedded window inside a platform event loop, or headless with no GUI at
/// all.
#[derive(Copy, Clone, Debug, PartialEq, Eq, Structural)]
pub enum RunMode {
    Floating,
    Embedded,
    Headless,
}

/// Chooses the main-context run mode from the plugin's window preference: a
/// plugin with no GUI support runs headless, one that wants a floating
/// window gets one, and any other GUI-capable plugin is embedded.
pub fn select_run_mode(needs_floating: Option<bool>) -> (r: RunMode)
    ensures
        r == (match needs_floating {
            Some(true) => RunMode::Floating,
            Some(false) => RunMode::Embedded,
            None => RunMode::Headless,
        }),
{
    match needs_floating {
        Some(true) => RunMode::Floating,
        Some(false) => RunMode::Embedded,
        None => RunMode::Headless,
    }
}

/// How many of the messages are main-thread-callback requests — the number
/// of callback dispatches a loop that consumes them all will perform.
pub open spec fn callback_dispatches(msgs: Seq<MainThreadMessage>) -> nat
    decreases msgs.len(),
{
    if msgs.len() == 0 {
        0
    } else {
        (if msgs[0] is RunOnMainThread {
            1nat
        } else {
            0nat
        }) + callback_dispatches(msgs.drop_first())
    }
}

/// The headless main-context loop over an already-closed channel backlog:
/// every pending message is consumed in order, each callback request is
/// dispatched and everything else is ignored, and the loop ends with
/// success when the backlog is exhausted — the disconnect. Returns how many
/// callback dispatches were performed.
pub fn drain_headless(queue: &mut MessageQueue) -> (r: usize)
    ensures
        final(queue)@.len() == 0,
        r == callback_dispatches(old(queue)@),
{
    let total: usize = queue.len();
    let mut dispatched: usize = 0;
    loop
        invariant
            old(queue)@.len() == total,
            dispatched + queue@.len() <= old(queue)@.len(),
            dispatched + callback_dispatches(queue@) == callback_dispatches(old(queue)@),
        ensures
            queue@.len() == 0,
            dispatched == callback_dispatches(old(queue)@),
        decreases queue@.len(),
    {
        let message = match queue.try_recv() {
            Some(m) => m,
            None => {
                break;
            },
        };
        match crate::msg::headless_decision(&message) {
            crate::msg::LoopDecision::DispatchCallback => {
                dispatched = dispatched + 1;
            },
            _ => {},
        }
    }
    dispatched
}


/// How many callback dispatches the floating-window loop performs: the
/// number of main-thread-callback requests among the messages that precede
/// the first window-close notification.
pub open spec fn dispatches_before_close(msgs: Seq<MainThreadMessage>) -> nat
    decreases msgs.len(),
{
    if msgs.len() == 0 {
        0
    } else if msgs[0] is GuiClosed {
        0
    } else {
        (if msgs[0] is RunOnMainThread {
            1nat
        } else {
            0nat
        }) + dispatches_before_close(msgs.drop_first())
    }
}

/// What the floating-window loop leaves unconsumed: everything after the
/// first window-close notification, or nothing when no close notification
/// is pending.
pub open spec fn after_first_close(msgs: Seq<MainThreadMessage>) -> Seq<MainThreadMessage>
    decreases msgs.len(),
{
    if msgs.len() == 0 {
        Seq::empty()
    } else if msgs[0] is GuiClosed {
        msgs.drop_first()
    } else {
        after_first_close(msgs.drop_first())
    }
}

/// The floating-window main-context loop over a channel backlog: messages
/// are consumed in order, each callback request before the first
/// window-close notification is dispatched, and that notification ends the
/// loop — the caller then performs the guarded GUI teardown. Returns how
/// many callback dispatches were performed.
pub fn drain_floating(queue: &mut MessageQueue) -> (r: usize)
    ensures
        r == dispatches_before_close(old(queue)@),
        final(queue)@ == after_first_close(old(queue)@),
{
    let total: usize = queue.len();
    let mut dispatched: usize = 0;
    loop
        invariant_except_break
            dispatched + dispatches_before_close(queue@) == dispatches_before_close(old(queue)@),
            after_first_close(queue@) == after_first_close(old(queue)@),
        invariant
            old(queue)@.len() == total,
            dispatched + queue@.len() <= total,
        ensures
            dispatched == dispatches_before_close(old(queue)@),
            queue@ == after_first_close(old(queue)@),
        decreases queue@.len(),
    {
        let ghost prior = queue@;
        let message = match queue.try_recv() {
            Some(m) => m,
            None => {
                proof {
                    assert(prior =~= Seq::<MainThreadMessage>::empty());
                }
                break;
            },
        };
        match crate::msg::floating_decision(&message) {
            crate::msg::LoopDecision::DispatchCallback => {
                proof {
                    assert(prior[0] is RunOnMainThread);
                }
                dispatched = dispatched + 1;
            },
            crate::msg::LoopDecision::Exit => {
                proof {
                    assert(prior[0] is GuiClosed);
                    assert(after_first_close(prior) == prior.drop_first());
                    assert(dispatches_before_close(prior) == 0);
                }
                break;
            },
            crate::msg::LoopDecision::Ignore => {},
        }
    }
    dispatched
}

} // verus!
