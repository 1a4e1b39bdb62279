//! The multiplexer: serving `Peek`/`Block` requests from the consumer.
//!
//! The multiplexer owns exactly one [`InputParser`] — no other thread
//! touches its state, so no locking is needed. It receives a request kind
//! from the consumer, answers a `Peek` with the bounded-wait result and a
//! `Block` with an event it waited for without bound, and writes the
//! response to the consumer's channel. A closed channel on either side is
//! not an error but the normal shutdown trigger: the loop returns.

use vstd::prelude::*;

use crate::event::{Event, RawEventModel};
use crate::mapper::{button_after_spec, map_event_spec};
use crate::parser::{channel_recv, channel_send, InputParser, PeekResult};

verus! {

/// What the consumer can ask of the multiplexer.
#[derive(Clone, Copy, Debug, PartialEq, Eq, Structural)]
pub enum InputRequest {
    /// Bounded wait: the answer may be "no event".
    Peek,
    /// Unbounded wait: the answer always carries an event.
    Block,
}

/// The outcome of serving one consumer request.
#[derive(Clone, Debug, PartialEq, Eq)]
pub enum Step {
    /// Forward this response to the consumer. `None` signals only a `Peek`
    /// timeout.
    Respond(Option<Event>),
    /// A channel to the reader is closed: shut the loop down.
    Stop,
}

/// Serves one consumer request against the parser.
///
/// An answer of `None` arises only from a `Peek` timeout — a `Block` is
/// never answered with "no event" — and it leaves the in-flight request
/// outstanding. Whatever the request, at most one new token goes out, and
/// none while one is already outstanding.
pub fn handle_request(parser: &mut InputParser, req: InputRequest) -> (r: Step)
    ensures
        old(parser).tokens_sent() <= final(parser).tokens_sent() <= old(parser).tokens_sent()
            + 1,
        old(parser).due() ==> final(parser).tokens_sent() == old(parser).tokens_sent(),
        req is Block ==> !(r matches Step::Respond(None)),
        r matches Step::Respond(Some(e)) ==> (exists|raw: RawEventModel|
            e@ == map_event_spec(raw, old(parser).latched()) && final(parser).latched()
                == button_after_spec(raw, old(parser).latched())),
        r matches Step::Respond(None) ==> final(parser).due() && final(parser).latched() == old(
            parser,
        ).latched(),
{
    match req {
        InputRequest::Peek => match parser.peek() {
            PeekResult::Event(ev) => Step::Respond(Some(ev)),
            PeekResult::TimedOut => Step::Respond(None),
            PeekResult::Disconnected => Step::Stop,
        },
        InputRequest::Block => match parser.next_event() {
            Ok(ev) => Step::Respond(Some(ev)),
            Err(_) => Step::Stop,
        },
    }
}

/// The multiplexer loop: serves the consumer's request channel until it
/// closes, forwarding every response to the consumer's response channel.
///
/// The loop stops — instead of blocking on anything but its own channel
/// operations — as soon as the consumer's request channel closes, the
/// consumer's response channel closes, or the reader goes away; the result
/// says whether such a shutdown was observed. `fuel` bounds how many
/// requests one call serves, so that the loop provably ends; a caller that
/// wants an unbounded loop calls again while the result is false. Tokens
/// only ever accumulate; none is retracted.
pub fn run_input_loop(
    parser: &mut InputParser,
    requests: &crossbeam_channel::Receiver<InputRequest>,
    sink: &crossbeam_channel::Sender<Option<Event>>,
    fuel: u64,
) -> (done: bool)
    ensures
        final(parser).tokens_sent() >= old(parser).tokens_sent(),
{
    let mut remaining = fuel;
    let mut running = true;
    while running && remaining > 0
        invariant
            parser.tokens_sent() >= old(parser).tokens_sent(),
        decreases remaining,
    {
        remaining = remaining - 1;
        match channel_recv(requests) {
            Ok(req) => match handle_request(parser, req) {
                Step::Respond(response) => {
                    if channel_send(sink, response).is_err() {
                        running = false;
                    }
                },
                Step::Stop => {
                    running = false;
                },
            },
            Err(_) => {
                running = false;
            },
        }
    }
    !running
}

} // verus!
