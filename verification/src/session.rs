//! One browser session: a socket on one side, a subscription on the other.
//!
//! A session is told what happened (a poll of the bus, a frame or an error on
//! the socket, a failed send) and answers what to do next. It never touches
//! another session; ending it gives back its subscription and nothing else.

use crate::bus::{
    after_receive, after_receives, deliver, fresh_subscriber,
    lemma_ended_subscription_gets_nothing, lemma_lagging_subscriber_stays, published,
    published_all, receive_outcome, subscribed, unsubscribed, BusView, Received, ReceivedView,
    ReloadBus, SubscriberId, BUS_CAPACITY,
};
use crate::coordinator::reload_text;
use vstd::prelude::*;

verus! {

/// What the browser's side of the socket did.
#[derive(Clone, Copy, Debug, PartialEq, Eq, Structural)]
pub enum SocketEvent {
    /// A close frame arrived.
    CloseFrame,
    /// Reading from the socket failed.
    Failed,
    /// The stream of frames ended.
    Ended,
    /// Any other frame arrived; its payload is not interpreted.
    Frame,
    /// Writing to the socket failed.
    SendFailed,
}

/// What the session's task does next.
#[derive(Debug)]
pub enum SessionAction {
    /// Send this text frame to the browser.
    Send(String),
    /// Go round the loop again at once, sending nothing.
    Continue,
    /// Nothing is waiting: sleep until the bus or the socket has news.
    Wait,
    /// End the session's task.
    Terminate,
}

/// [`SessionAction`] over character sequences.
pub enum SessionActionView {
    Send(Seq<char>),
    Continue,
    Wait,
    Terminate,
}

impl View for SessionAction {
    type V = SessionActionView;

    open spec fn view(&self) -> SessionActionView {
        match self {
            SessionAction::Send(text) => SessionActionView::Send(text@),
            SessionAction::Continue => SessionActionView::Continue,
            SessionAction::Wait => SessionActionView::Wait,
            SessionAction::Terminate => SessionActionView::Terminate,
        }
    }
}

/// The text that acknowledges a new connection.
pub open spec fn greeting_text() -> Seq<char> {
    "connected"@
}

/// What a live session does with what it found on the bus: a signal is
/// forwarded as it is, a lag report is passed over, a closed bus ends the
/// session.
pub open spec fn action_for(found: ReceivedView) -> SessionActionView {
    match found {
        ReceivedView::Signal(message) => SessionActionView::Send(message),
        ReceivedView::Lagged(_) => SessionActionView::Continue,
        ReceivedView::Empty => SessionActionView::Wait,
        ReceivedView::Closed => SessionActionView::Terminate,
    }
}

/// Whether a socket event ends the session: everything does but a frame that
/// is not a close frame.
pub open spec fn ends_session(event: SocketEvent) -> bool {
    !(event is Frame)
}

/// One live or ended session.
#[derive(Debug)]
pub struct Session {
    /// Who is connected: the peer's address.
    pub identity: String,
    /// The session's handle on the bus.
    pub subscription: SubscriberId,
    /// False once the session has ended.
    pub live: bool,
    /// True once the connection has been acknowledged.
    pub greeted: bool,
}

impl Session {
    /// Starts a session for an accepted connection: subscribes it to the
    /// bus, so that it receives what is published from now on. The session
    /// has yet to acknowledge the connection. Yields nothing only when the
    /// bus has no handle left.
    pub fn start(identity: String, bus: &mut ReloadBus) -> (session: Option<Session>)
        ensures
            old(bus).exhausted() ==> session is None && final(bus)@ == old(bus)@,
            !old(bus).exhausted() ==> session is Some && session->0.live && !session->0.greeted
                && session->0.identity@ == identity@
                && !old(bus)@.subscribers.contains_key(session->0.subscription)
                && session->0.subscription == old(bus).next_handle()
                && final(bus)@ == subscribed(old(bus)@, session->0.subscription),
    {
        match bus.subscribe() {
            Some(subscription) => Some(
                Session { identity, subscription, live: true, greeted: false },
            ),
            None => None,
        }
    }

    /// The frame that acknowledges the connection: `connected`.
    pub fn greeting() -> (text: String)
        ensures
            text@ == greeting_text(),
    {
        "connected".to_owned()
    }

    /// Ends the session and gives its subscription back: the bus has one
    /// subscriber less, and the others are as they were.
    pub fn end(&mut self, bus: &mut ReloadBus)
        ensures
            !final(self).live,
            final(self).subscription == old(self).subscription,
            final(self).identity == old(self).identity,
            final(self).greeted == old(self).greeted,
            final(bus)@ == if old(self).live {
                unsubscribed(old(bus)@, old(self).subscription)
            } else {
                old(bus)@
            },
            final(bus).exhausted() == old(bus).exhausted(),
            old(self).live ==> old(bus)@.subscribers.dom().finite() && final(bus)@.subscribers.dom().finite(),
            old(self).live && old(bus)@.subscribers.contains_key(old(self).subscription) ==> final(bus)@.subscribers.len() == old(bus)@.subscribers.len() - 1,
    {
        if self.live {
            bus.unsubscribe(self.subscription);
            self.live = false;
        }
    }

    /// Decides what an acknowledged session does with what a receive on the
    /// bus gave it: a signal is to be sent to the browser as it is; a lag
    /// report is passed over and the session stays; nothing waiting means to
    /// wait; a closed bus ends the session. An ended session only terminates.
    pub fn on_received(&mut self, received: Received, bus: &mut ReloadBus) -> (action:
        SessionAction)
        ensures
            final(self).subscription == old(self).subscription,
            final(self).identity == old(self).identity,
            final(self).greeted == old(self).greeted,
            final(bus).exhausted() == old(bus).exhausted(),
            action@ == if old(self).live {
                action_for(received@)
            } else {
                SessionActionView::Terminate
            },
            final(self).live == (old(self).live && !(received@ is Closed)),
            final(bus)@ == if old(self).live && received@ is Closed {
                unsubscribed(old(bus)@, old(self).subscription)
            } else {
                old(bus)@
            },
    {
        if !self.live {
            return SessionAction::Terminate;
        }
        match received {
            Received::Signal(signal) => SessionAction::Send(signal.message),
            Received::Lagged(_) => SessionAction::Continue,
            Received::Empty => SessionAction::Wait,
            Received::Closed => {
                self.end(bus);
                SessionAction::Terminate
            },
        }
    }

    /// Says what the session does next. Its first action is to acknowledge
    /// the connection, with the text `connected`. After that it receives on
    /// the bus and does what [`Session::on_received`] decides. An ended
    /// session only terminates.
    pub fn next_action(&mut self, bus: &mut ReloadBus) -> (action: SessionAction)
        ensures
            final(self).subscription == old(self).subscription,
            final(self).identity == old(self).identity,
            final(bus).exhausted() == old(bus).exhausted(),
            !old(self).live ==> action@ is Terminate && *final(self) == *old(self) && final(bus)@
                == old(bus)@,
            old(self).live && !old(self).greeted ==> action@ == SessionActionView::Send(
                greeting_text(),
            ) && final(self).live && final(self).greeted && final(bus)@ == old(bus)@,
            old(self).live && old(self).greeted ==> action@ == action_for(
                receive_outcome(old(bus)@, old(self).subscription),
            ) && final(self).greeted && final(self).live == !(action@ is Terminate) && final(bus)@
                == if action@ is Terminate {
                unsubscribed(old(bus)@, old(self).subscription)
            } else {
                after_receive(old(bus)@, old(self).subscription)
            },
    {
        if !self.live {
            return SessionAction::Terminate;
        }
        if !self.greeted {
            self.greeted = true;
            return SessionAction::Send(Session::greeting());
        }
        let received = bus.receive(self.subscription);
        proof {
            // What a closed bus leaves behind is untouched by the receive.
            if received@ is Closed {
                assert(after_receive(old(bus)@, self.subscription) == old(bus)@);
            }
        }
        self.on_received(received, bus)
    }

    /// Takes what the socket did. A close frame, an error, the end of the
    /// stream and a failed send end the session at once; any other frame is
    /// ignored.
    pub fn on_socket(&mut self, event: SocketEvent, bus: &mut ReloadBus) -> (action:
        SessionAction)
        ensures
            final(self).subscription == old(self).subscription,
            final(self).identity == old(self).identity,
            final(bus).exhausted() == old(bus).exhausted(),
            action@ == if old(self).live && !ends_session(event) {
                SessionActionView::Continue
            } else {
                SessionActionView::Terminate
            },
            final(self).live == (old(self).live && !ends_session(event)),
            final(self).greeted == old(self).greeted,
            final(bus)@ == if old(self).live && ends_session(event) {
                unsubscribed(old(bus)@, old(self).subscription)
            } else {
                old(bus)@
            },
            old(self).live && ends_session(event) && old(bus)@.subscribers.contains_key(
                old(self).subscription,
            ) ==> old(bus)@.subscribers.dom().finite() && final(bus)@.subscribers.len() == old(bus)@.subscribers.len() - 1,
    {
        if !self.live {
            return SessionAction::Terminate;
        }
        match event {
            SocketEvent::Frame => SessionAction::Continue,
            _ => {
                self.end(bus);
                SessionAction::Terminate
            },
        }
    }
}

/// One signal reaches every connected session once. With two sessions
/// subscribed and acknowledged, neither with anything waiting, publishing
/// one reload signal has each of them send the text `reload` to its browser
/// at its next look on the bus, whichever looks first, and find nothing at
/// the look after that.
pub proof fn lemma_each_session_gets_one_reload(
    bus: BusView,
    first: SubscriberId,
    second: SubscriberId,
)
    requires
        !bus.closed,
        first != second,
        bus.subscribers.contains_key(first),
        bus.subscribers.contains_key(second),
        bus.subscribers[first] == fresh_subscriber(),
        bus.subscribers[second] == fresh_subscriber(),
    ensures
        ({
            let after = published(bus, reload_text());
            let reload = SessionActionView::Send(reload_text());
            &&& action_for(receive_outcome(after, first)) == reload
            &&& action_for(receive_outcome(after, second)) == reload
            &&& action_for(receive_outcome(after_receive(after, first), second)) == reload
            &&& action_for(receive_outcome(after_receive(after, second), first)) == reload
            &&& action_for(receive_outcome(after_receive(after, first), first))
                == SessionActionView::Wait
            &&& action_for(receive_outcome(after_receive(after, second), second))
                == SessionActionView::Wait
        }),
{
    let after = published(bus, reload_text());
    assert(after.subscribers[first] == deliver(fresh_subscriber(), reload_text()));
    assert(after.subscribers[second] == deliver(fresh_subscriber(), reload_text()));
    assert(deliver(fresh_subscriber(), reload_text()).pending[0] == reload_text());
    assert(deliver(fresh_subscriber(), reload_text()).pending.drop_first().len() == 0);
}

/// A session that falls behind is not ended. When more signals than the
/// bus keeps are published while a session does not look, the session is
/// still subscribed; at its next look it passes over the lag report and
/// stays; the look after that sends the oldest signal that the bus kept;
/// and once it has caught up, the next signal published is sent like any
/// other.
pub proof fn lemma_lagging_session_stays(
    bus: BusView,
    id: SubscriberId,
    messages: Seq<Seq<char>>,
    next: Seq<char>,
)
    requires
        !bus.closed,
        bus.subscribers.contains_key(id),
        bus.subscribers[id] == fresh_subscriber(),
        messages.len() > BUS_CAPACITY,
    ensures
        ({
            let behind = published_all(bus, messages);
            let told = after_receive(behind, id);
            let caught_up = after_receives(told, id, BUS_CAPACITY as nat);
            &&& behind.subscribers.contains_key(id)
            &&& action_for(receive_outcome(behind, id)) == SessionActionView::Continue
            &&& told.subscribers.contains_key(id)
            &&& action_for(receive_outcome(told, id)) == SessionActionView::Send(
                messages[messages.len() - BUS_CAPACITY],
            )
            &&& caught_up.subscribers.contains_key(id)
            &&& action_for(receive_outcome(caught_up, id)) == SessionActionView::Wait
            &&& action_for(receive_outcome(published(caught_up, next), id))
                == SessionActionView::Send(next)
        }),
{
    lemma_lagging_subscriber_stays(bus, id, messages, next);
}

/// Ending a session takes it off the bus for good: it is no subscriber any
/// more, and the bus counts one subscriber less; every other subscriber
/// holds what it held; a signal published afterwards goes to the others as
/// it would have and to the ended session not at all; and a look on the bus
/// under its old handle only says to terminate.
pub proof fn lemma_ended_session_gets_nothing(
    bus: BusView,
    id: SubscriberId,
    other: SubscriberId,
    message: Seq<char>,
)
    requires
        bus.subscribers.dom().finite(),
        bus.subscribers.contains_key(id),
        other != id,
    ensures
        !unsubscribed(bus, id).subscribers.contains_key(id),
        unsubscribed(bus, id).subscribers.len() == bus.subscribers.len() - 1,
        unsubscribed(bus, id).subscribers.contains_key(other) == bus.subscribers.contains_key(
            other,
        ),
        bus.subscribers.contains_key(other) ==> unsubscribed(bus, id).subscribers[other]
            == bus.subscribers[other],
        published(unsubscribed(bus, id), message) == unsubscribed(published(bus, message), id),
        action_for(receive_outcome(published(unsubscribed(bus, id), message), id))
            == SessionActionView::Terminate,
{
    lemma_ended_subscription_gets_nothing(bus, id, message);
}

} // verus!
