//! Cross-context messaging.
//!
//! The audio context, background callbacks, or the main context itself hand
//! notifications to the main context without blocking; the main-context
//! event loop is the single consumer and dispatches them in the order a
//! producer enqueued them. There is no cancellation: once enqueued, a
//! message is delivered, and the loop ends only on an explicit closing
//! message or when the channel disconnects.
//!
//! This module holds the message vocabulary, the first-in-first-out contract
//! of the channel, and the per-message decision each run mode takes; the
//! blocking transport that carries messages between real threads lives with
//! the process around the library.

use vstd::prelude::*;

verus! {

/// A notification for the main context, immutable once created.
#[derive(Copy, Clone, Debug, PartialEq, Eq, Structural)]
pub enum MainThreadMessage {
    /// The plugin asked the host to call it back on the main thread.
    RunOnMainThread,
    /// A floating window was closed, stating whether its state was already
    /// torn down.
    GuiClosed { was_destroyed: bool },
    /// An embedded window is about to close; the loop should wind down.
    WindowClosing,
    /// A generic periodic nudge of the event loop.
    Tick,
}

/// The ordered backlog of notifications awaiting the main context: a
/// first-in-first-out queue whose push never blocks the producer.
pub struct MessageQueue {
    items: Vec<MainThreadMessage>,
}

impl View for MessageQueue {
    type V = Seq<MainThreadMessage>;

    closed spec fn view(&self) -> Seq<MainThreadMessage> {
        self.items@
    }
}

impl MessageQueue {
    /// An empty backlog.
    pub fn new() -> (r: MessageQueue)
        ensures
            r@ == Seq::<MainThreadMessage>::empty(),
    {
        MessageQueue { items: Vec::new() }
    }

    /// Enqueues one message at the back; everything already enqueued keeps
    /// its place, so each producer's own messages are consumed in the order
    /// it sent them.
    pub fn send(&mut self, message: MainThreadMessage)
        ensures
            final(self)@ == old(self)@.push(message),
    {
        self.items.push(message);
    }

    /// Takes the oldest pending message, or reports an empty backlog.
    pub fn try_recv(&mut self) -> (r: Option<MainThreadMessage>)
        ensures
            old(self)@.len() == 0 ==> r is None && *final(self) == *old(self),
            old(self)@.len() > 0 ==> r == Some(old(self)@[0]) && final(self)@ == old(
                self,
            )@.drop_first(),
    {
        if self.items.len() == 0 {
            None
        } else {
            Some(self.items.remove(0))
        }
    }

    /// How many messages are pending.
    pub fn len(&self) -> (r: usize)
        ensures
            r == self@.len(),
    {
        self.items.len()
    }
}

/// What the main-context loop does with one received message.
#[derive(Copy, Clone, Debug, PartialEq, Eq, Structural)]
pub enum LoopDecision {
    /// Invoke the plugin's pending main-thread callback.
    DispatchCallback,
    /// Leave the loop and proceed to teardown.
    Exit,
    /// Nothing to do for this message in this mode.
    Ignore,
}

/// The headless loop's decision: main-thread callbacks are dispatched and
/// every other message is ignored; the loop ends only when the channel
/// disconnects.
pub fn headless_decision(message: &MainThreadMessage) -> (r: LoopDecision)
    ensures
        r == (match message {
            MainThreadMessage::RunOnMainThread => LoopDecision::DispatchCallback,
            _ => LoopDecision::Ignore,
        }),
{
    match message {
        MainThreadMessage::RunOnMainThread => LoopDecision::DispatchCallback,
        _ => LoopDecision::Ignore,
    }
}

/// The floating-window loop's decision: callbacks are dispatched, and the
/// close notification of the floating window ends the loop.
pub fn floating_decision(message: &MainThreadMessage) -> (r: LoopDecision)
    ensures
        r == (match message {
            MainThreadMessage::RunOnMainThread => LoopDecision::DispatchCallback,
            MainThreadMessage::GuiClosed { .. } => LoopDecision::Exit,
            _ => LoopDecision::Ignore,
        }),
{
    match message {
        MainThreadMessage::RunOnMainThread => LoopDecision::DispatchCallback,
        MainThreadMessage::GuiClosed { .. } => LoopDecision::Exit,
        _ => LoopDecision::Ignore,
    }
}

/// The embedded-window loop's decision: callbacks are dispatched, and the
/// window-closing notification ends the loop.
pub fn embedded_decision(message: &MainThreadMessage) -> (r: LoopDecision)
    ensures
        r == (match message {
            MainThreadMessage::RunOnMainThread => LoopDecision::DispatchCallback,
            MainThreadMessage::WindowClosing => LoopDecision::Exit,
            _ => LoopDecision::Ignore,
        }),
{
    match message {
        MainThreadMessage::RunOnMainThread => LoopDecision::DispatchCallback,
        MainThreadMessage::WindowClosing => LoopDecision::Exit,
        _ => LoopDecision::Ignore,
    }
}

} // verus!
