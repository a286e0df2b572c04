//! The decisions of the notifier actor about its incoming stream of fetched content.

use vstd::prelude::*;

verus! {

/// What the notifier actor is told about its stream of fetched content.
pub enum StreamEvent {
    /// A receiving end of the fetchers' channel was handed over.
    SetReceiver,
    /// Start the notifier cycle.
    Start,
    /// Stop the notifier cycle.
    Stop,
}

/// What the notifier actor does in answer.
#[derive(PartialEq, Eq, Structural)]
pub enum StreamAction {
    /// Keep the receiver for later.
    StoreReceiver,
    /// Take the receiver and forward each item it yields as content to notify about.
    Listen,
    /// Take the receiver and close it.
    CloseReceiver,
    /// Nothing to do.
    Nothing,
}

/// The notifier actor's answer to `event` when it is `running` and does or does
/// not hold a receiver: whether it runs and holds a receiver afterwards, and what it does.
pub open spec fn stream_step(running: bool, has_receiver: bool, event: StreamEvent) -> (bool, bool, StreamAction) {
    match event {
        StreamEvent::SetReceiver => (running, true, StreamAction::StoreReceiver),
        StreamEvent::Start => (true, false, if has_receiver {
            StreamAction::Listen
        } else {
            StreamAction::Nothing
        }),
        StreamEvent::Stop => (false, false, if has_receiver {
            StreamAction::CloseReceiver
        } else {
            StreamAction::Nothing
        }),
    }
}

/// A handed-over receiver is held until taken: after a receiver is set the
/// cycle holds one, whatever its state before, and the next start listens on
/// it; setting a receiver leaves whether the cycle runs unchanged.
pub proof fn law_start_after_set_receiver_listens(running: bool, has_receiver: bool)
    ensures
        stream_step(running, has_receiver, StreamEvent::SetReceiver).1,
        stream_step(running, has_receiver, StreamEvent::SetReceiver).0 == running,
        ({
            let (r1, h1, _) = stream_step(running, has_receiver, StreamEvent::SetReceiver);
            &&& stream_step(r1, h1, StreamEvent::Start).2 == StreamAction::Listen
            &&& stream_step(r1, h1, StreamEvent::Stop).2 == StreamAction::CloseReceiver
        }),
{
}

/// A receiver is handed to at most one listener: once a start has taken it, a
/// second start finds nothing to listen on, and a stop finds nothing to close.
pub proof fn law_receiver_taken_once(running: bool, has_receiver: bool)
    ensures
        ({
            let (r1, h1, _) = stream_step(running, has_receiver, StreamEvent::Start);
            &&& stream_step(r1, h1, StreamEvent::Start).2 == StreamAction::Nothing
            &&& stream_step(r1, h1, StreamEvent::Stop).2 == StreamAction::Nothing
        }),
        stream_step(running, has_receiver, StreamEvent::Start).2 == StreamAction::Listen <==> has_receiver,
{
}

/// The notifier actor's state: whether it runs, and whether it holds a
/// receiver that no listener has taken yet.
pub struct NotifierCycle {
    pub running: bool,
    pub has_receiver: bool,
}

impl NotifierCycle {
    /// A stopped cycle without a receiver.
    pub fn new() -> (c: Self)
        ensures
            !c.running,
            !c.has_receiver,
    {
        NotifierCycle { running: false, has_receiver: false }
    }

    /// The answer to `event`. A held receiver is taken by the next start (to
    /// listen on) or stop (to close); a new receiver replaces a held one.
    pub fn handle(&mut self, event: StreamEvent) -> (action: StreamAction)
        ensures
            (final(self).running, final(self).has_receiver, action) == stream_step(
                old(self).running,
                old(self).has_receiver,
                event,
            ),
    {
        match event {
            StreamEvent::SetReceiver => {
                self.has_receiver = true;
                StreamAction::StoreReceiver
            },
            StreamEvent::Start => {
                self.running = true;
                if self.has_receiver {
                    self.has_receiver = false;
                    StreamAction::Listen
                } else {
                    StreamAction::Nothing
                }
            },
            StreamEvent::Stop => {
                self.running = false;
                if self.has_receiver {
                    self.has_receiver = false;
                    StreamAction::CloseReceiver
                } else {
                    StreamAction::Nothing
                }
            },
        }
    }
}

} // verus!
