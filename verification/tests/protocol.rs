use crossbeam_channel::bounded;
use term_input_bridge::event::{Event, Key, RawEvent, RawKey};
use term_input_bridge::parser::{Disconnected, InputParser, PeekResult};

#[test]
fn two_peeks_in_one_window_issue_a_single_token() {
    let (req_s, req_r) = bounded(1);
    let (_in_s, in_r) = bounded::<RawEvent>(1);
    let mut parser = InputParser::new(req_s, in_r);

    assert_eq!(parser.peek(), PeekResult::TimedOut);
    assert_eq!(parser.peek(), PeekResult::TimedOut);

    assert!(req_r.try_recv().is_ok());
    assert!(req_r.try_recv().is_err());
}

#[test]
fn peek_returns_the_mapped_event_when_one_arrives() {
    let (req_s, req_r) = bounded(1);
    let (in_s, in_r) = bounded(1);
    let mut parser = InputParser::new(req_s, in_r);

    in_s.send(RawEvent::Key(RawKey::Char('a'))).unwrap();
    assert_eq!(parser.peek(), PeekResult::Event(Event::Char('a')));
    assert!(req_r.try_recv().is_ok());
    assert!(req_r.try_recv().is_err());
}

#[test]
fn peek_timeout_keeps_the_request_valid_for_the_next_call() {
    let (req_s, req_r) = bounded(1);
    let (in_s, in_r) = bounded(1);
    let mut parser = InputParser::new(req_s, in_r);

    assert_eq!(parser.peek(), PeekResult::TimedOut);
    in_s.send(RawEvent::Key(RawKey::Esc)).unwrap();
    assert_eq!(parser.peek(), PeekResult::Event(Event::Key(Key::Esc)));

    assert!(req_r.try_recv().is_ok());
    assert!(req_r.try_recv().is_err());
}

#[test]
fn next_event_always_carries_an_event() {
    let (req_s, _req_r) = bounded(1);
    let (in_s, in_r) = bounded(1);
    let mut parser = InputParser::new(req_s, in_r);

    in_s.send(RawEvent::Key(RawKey::Char('k'))).unwrap();
    assert_eq!(parser.next_event(), Ok(Event::Char('k')));
}

#[test]
fn next_event_reports_a_closed_reader() {
    let (req_s, _req_r) = bounded(1);
    let (in_s, in_r) = bounded::<RawEvent>(1);
    let mut parser = InputParser::new(req_s, in_r);

    drop(in_s);
    assert_eq!(parser.next_event(), Err(Disconnected));
}

#[test]
fn peek_reports_a_closed_token_channel() {
    let (req_s, req_r) = bounded::<()>(1);
    let (_in_s, in_r) = bounded::<RawEvent>(1);
    let mut parser = InputParser::new(req_s, in_r);

    drop(req_r);
    assert_eq!(parser.peek(), PeekResult::Disconnected);
}
