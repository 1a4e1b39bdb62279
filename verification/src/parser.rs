//! The input parser: request/response semantics over a blocking reader.
//!
//! A dedicated reader thread owns the blocking input source and performs
//! exactly one blocking read per request token it receives. The parser on
//! this side sends those tokens and receives the raw results; `peek` races
//! the result against a bounded timer, `next_event` waits without bound.
//!
//! The protocol invariant is that at most one request token is outstanding
//! at any time. The `event_due` flag is its single source of truth: it is
//! set exactly when a token was sent and its result has not yet been
//! received, and `request` sends nothing while it is set. A ghost count of
//! the tokens sent lets the contracts state that no operation ever sends a
//! second token into an open window.

use vstd::prelude::*;

use crate::event::{Event, Key, MouseButton, MouseEvent, RawButton, RawEvent, RawEventModel, RawKey, RawMouse, Vec2};
use crate::mapper::{button_after_spec, key_event_spec, map_event_spec};

verus! {

#[verifier::external_type_specification]
#[verifier::external_body]
#[verifier::reject_recursive_types(T)]
pub struct ExSender<T>(crossbeam_channel::Sender<T>);

#[verifier::external_type_specification]
#[verifier::external_body]
#[verifier::reject_recursive_types(T)]
pub struct ExReceiver<T>(crossbeam_channel::Receiver<T>);

/// Relies on crossbeam_channel::Sender::send: blocks until the message is
/// delivered (on a zero-capacity channel, until a receive rendezvous
/// appears) and fails exactly when every receiver has been dropped.
#[verifier::external_body]
pub(crate) fn channel_send<T>(s: &crossbeam_channel::Sender<T>, msg: T) -> (r: Result<(), ()>) {
    match s.send(msg) {
        Ok(()) => Ok(()),
        Err(_) => Err(()),
    }
}

/// Relies on crossbeam_channel::Receiver::recv: blocks until a message
/// arrives and returns it, or fails when the channel is empty and every
/// sender has been dropped.
#[verifier::external_body]
pub(crate) fn channel_recv<T>(r: &crossbeam_channel::Receiver<T>) -> (res: Result<T, ()>) {
    match r.recv() {
        Ok(msg) => Ok(msg),
        Err(_) => Err(()),
    }
}

/// What a bounded-time receive can come back with.
pub enum TimedRecv<T> {
    /// A message arrived within the bound.
    Received(T),
    /// The bound elapsed with no message; senders may still be alive.
    TimedOut,
    /// The channel is empty and every sender has been dropped.
    Disconnected,
}

/// Relies on crossbeam_channel::Receiver::recv_timeout: waits at most the
/// given number of milliseconds for a message, and tells a timeout apart
/// from the channel being empty with every sender dropped.
#[verifier::external_body]
pub(crate) fn channel_recv_timeout<T>(
    r: &crossbeam_channel::Receiver<T>,
    millis: u64,
) -> (res: TimedRecv<T>) {
    match r.recv_timeout(std::time::Duration::from_millis(millis)) {
        Ok(msg) => TimedRecv::Received(msg),
        Err(crossbeam_channel::RecvTimeoutError::Timeout) => TimedRecv::TimedOut,
        Err(crossbeam_channel::RecvTimeoutError::Disconnected) => TimedRecv::Disconnected,
    }
}

/// How long `peek` waits for a raw result before reporting that no event
/// arrived, in milliseconds.
pub const PEEK_TIMEOUT_MS: u64 = 10;

/// The reader side of the bridge has gone away: its channel is closed.
#[derive(Clone, Copy, Debug, PartialEq, Eq, Structural)]
pub struct Disconnected;

/// What one bounded-wait `peek` can come back with.
#[derive(Clone, Debug, PartialEq, Eq)]
pub enum PeekResult {
    /// A raw event arrived in time and was mapped.
    Event(Event),
    /// No event within the bound; the outstanding request stays valid.
    TimedOut,
    /// A channel to the reader is closed: the session is over.
    Disconnected,
}

/// The consumer-side state of the request/response protocol.
///
/// `event_due` is true exactly between sending a request token and
/// receiving its raw result; it is what keeps repeated `peek` calls within
/// one waiting window from issuing duplicate requests. `last_button` is the
/// latched identity of the last pressed mouse button.
pub struct InputParser {
    last_button: Option<MouseButton>,
    event_due: bool,
    requests: crossbeam_channel::Sender<()>,
    input: crossbeam_channel::Receiver<RawEvent>,
    tokens: Ghost<nat>,
}

impl InputParser {
    /// Whether a request token is outstanding.
    pub closed spec fn due(&self) -> bool {
        self.event_due
    }

    /// How many request tokens have been sent over this parser's lifetime.
    pub closed spec fn tokens_sent(&self) -> nat {
        self.tokens@
    }

    /// The latched identity of the last pressed mouse button.
    pub closed spec fn latched(&self) -> Option<MouseButton> {
        self.last_button
    }

    /// Creates a parser over the two channel endpoints that tie it to the
    /// reader: the token sender and the raw-result receiver.
    pub fn new(
        requests: crossbeam_channel::Sender<()>,
        input: crossbeam_channel::Receiver<RawEvent>,
    ) -> (p: Self)
        ensures
            !p.due(),
            p.tokens_sent() == 0,
            p.latched() is None,
    {
        InputParser {
            last_button: None,
            event_due: false,
            requests,
            input,
            tokens: Ghost(0),
        }
    }

    /// Pledges to want one more raw event. Idempotent: while a request is
    /// already outstanding this sends nothing. Returns false only when the
    /// reader's token channel is closed, in which case nothing changed.
    pub fn request(&mut self) -> (ok: bool)
        ensures
            final(self).latched() == old(self).latched(),
            old(self).due() ==> ok && *final(self) == *old(self),
            !old(self).due() && ok ==> final(self).due() && final(self).tokens_sent() == old(
                self,
            ).tokens_sent() + 1,
            !ok ==> *final(self) == *old(self),
            old(self).due() ==> final(self).tokens_sent() == old(self).tokens_sent(),
            final(self).tokens_sent() <= old(self).tokens_sent() + 1,
    {
        if self.event_due {
            return true;
        }
        match channel_send(&self.requests, ()) {
            Ok(_) => {
                self.event_due = true;
                self.tokens = Ghost(self.tokens@ + 1);
                true
            },
            Err(_) => false,
        }
    }

    /// Bounded wait: requests an event if none is outstanding, then waits
    /// at most `PEEK_TIMEOUT_MS` for the raw result. On a timeout the
    /// in-flight request remains valid for the next call — it is not
    /// reissued, so two peeks within one waiting window send at most one
    /// token, and a peek into an open window sends none.
    pub fn peek(&mut self) -> (r: PeekResult)
        ensures
            old(self).tokens_sent() <= final(self).tokens_sent() <= old(self).tokens_sent() + 1,
            old(self).due() ==> final(self).tokens_sent() == old(self).tokens_sent(),
            r is TimedOut ==> final(self).due() && final(self).latched() == old(self).latched(),
            r is Disconnected ==> final(self).latched() == old(self).latched(),
            r matches PeekResult::Event(e) ==> !final(self).due() && (exists|raw: RawEventModel|
                e@ == map_event_spec(raw, old(self).latched()) && final(self).latched()
                    == button_after_spec(raw, old(self).latched())),
    {
        if !self.request() {
            return PeekResult::Disconnected;
        }
        match channel_recv_timeout(&self.input, PEEK_TIMEOUT_MS) {
            TimedRecv::Received(raw) => {
                self.event_due = false;
                let ev = self.map_key(raw);
                PeekResult::Event(ev)
            },
            TimedRecv::TimedOut => PeekResult::TimedOut,
            TimedRecv::Disconnected => PeekResult::Disconnected,
        }
    }

    /// Unbounded wait: requests an event if none is outstanding, then waits
    /// for the raw result as long as it takes. Every successful return
    /// carries an event — there is no "no event" outcome; the error arises
    /// only when a channel to the reader is closed.
    pub fn next_event(&mut self) -> (r: Result<Event, Disconnected>)
        ensures
            old(self).tokens_sent() <= final(self).tokens_sent() <= old(self).tokens_sent() + 1,
            old(self).due() ==> final(self).tokens_sent() == old(self).tokens_sent(),
            r matches Ok(e) ==> !final(self).due() && (exists|raw: RawEventModel|
                e@ == map_event_spec(raw, old(self).latched()) && final(self).latched()
                    == button_after_spec(raw, old(self).latched())),
            r is Err ==> final(self).latched() == old(self).latched(),
    {
        if !self.request() {
            return Err(Disconnected);
        }
        match channel_recv(&self.input) {
            Ok(raw) => {
                self.event_due = false;
                let ev = self.map_key(raw);
                Ok(ev)
            },
            Err(_) => Err(Disconnected),
        }
    }

    /// No duplicate requests: two `peek` calls within one waiting window —
    /// the first timed out, so it left the request outstanding — send at
    /// most one token between them. The two pairs of hypotheses are
    /// exactly what `peek`'s contract gives for the two calls.
    pub proof fn lemma_no_duplicate_request(p0: Self, p1: Self, p2: Self)
        requires
            p1.tokens_sent() <= p0.tokens_sent() + 1,
            p1.due(),
            p1.due() ==> p2.tokens_sent() == p1.tokens_sent(),
        ensures
            p2.tokens_sent() <= p0.tokens_sent() + 1,
    {
    }

    /// The total mapping from one raw event to one abstract event,
    /// latching the mouse button on a press. The result and the new latch
    /// are exactly what the pure mapping says.
    pub fn map_key(&mut self, event: RawEvent) -> (r: Event)
        ensures
            r@ == map_event_spec(event@, old(self).latched()),
            final(self).latched() == button_after_spec(event@, old(self).latched()),
            final(self).due() == old(self).due(),
            final(self).tokens_sent() == old(self).tokens_sent(),
    {
        match event {
            RawEvent::Unsupported(bytes) => Event::Unknown(bytes),
            RawEvent::Key(k) => map_plain_key(k),
            RawEvent::Mouse(m) => {
                let (x, y) = match m {
                    RawMouse::Press(_, x, y) => (x, y),
                    RawMouse::Release(x, y) => (x, y),
                    RawMouse::Hold(x, y) => (x, y),
                };
                if x < 1 || y < 1 {
                    return Event::Unknown(Vec::new());
                }
                let position = Vec2 { x: (x - 1) as usize, y: (y - 1) as usize };
                let offset = Vec2 { x: 0, y: 0 };
                match m {
                    RawMouse::Press(b, _, _) => {
                        let action = match b {
                            RawButton::Left => {
                                self.last_button = Some(MouseButton::Left);
                                MouseEvent::Press(MouseButton::Left)
                            },
                            RawButton::Middle => {
                                self.last_button = Some(MouseButton::Middle);
                                MouseEvent::Press(MouseButton::Middle)
                            },
                            RawButton::Right => {
                                self.last_button = Some(MouseButton::Right);
                                MouseEvent::Press(MouseButton::Right)
                            },
                            RawButton::WheelUp => MouseEvent::WheelUp,
                            RawButton::WheelDown => {
                                MouseEvent::WheelDown
                            },
                        };
                        Event::Mouse { event: action, position, offset }
                    },
                    RawMouse::Release(_, _) => match self.last_button {
                        Some(btn) => Event::Mouse {
                            event: MouseEvent::Release(btn),
                            position,
                            offset,
                        },
                        None => Event::Unknown(Vec::new()),
                    },
                    RawMouse::Hold(_, _) => match self.last_button {
                        Some(btn) => Event::Mouse {
                            event: MouseEvent::Hold(btn),
                            position,
                            offset,
                        },
                        None => Event::Unknown(Vec::new()),
                    },
                }
            },
        }
    }
}

/// The key table of the mapping, for keys that need no mouse state.
fn map_plain_key(k: RawKey) -> (r: Event)
    ensures
        r@ == key_event_spec(k),
{
    match k {
        RawKey::Esc => Event::Key(Key::Esc),
        RawKey::Backspace => Event::Key(Key::Backspace),
        RawKey::Left => Event::Key(Key::Left),
        RawKey::Right => Event::Key(Key::Right),
        RawKey::Up => Event::Key(Key::Up),
        RawKey::Down => Event::Key(Key::Down),
        RawKey::Home => Event::Key(Key::Home),
        RawKey::End => Event::Key(Key::End),
        RawKey::PageUp => Event::Key(Key::PageUp),
        RawKey::PageDown => Event::Key(Key::PageDown),
        RawKey::Delete => Event::Key(Key::Del),
        RawKey::Insert => Event::Key(Key::Ins),
        RawKey::F(i) => {
            if i < 12 {
                Event::Key(Key::F(i))
            } else {
                let mut bytes: Vec<u8> = Vec::new();
                bytes.push(i);
                Event::Unknown(bytes)
            }
        },
        RawKey::Char(c) => {
            if c == '\n' {
                Event::Key(Key::Enter)
            } else if c == '\t' {
                Event::Key(Key::Tab)
            } else {
                Event::Char(c)
            }
        },
        RawKey::Ctrl(c) => {
            if c == 'c' {
                Event::Exit
            } else {
                Event::CtrlChar(c)
            }
        },
        RawKey::Alt(c) => Event::AltChar(c),
        RawKey::Other => Event::Unknown(Vec::new()),
    }
}

} // verus!
