use crossbeam_channel::bounded;
use term_input_bridge::event::{Event, RawEvent, RawKey};
use term_input_bridge::mux::{handle_request, run_input_loop, InputRequest, Step};
use term_input_bridge::parser::InputParser;

#[test]
fn a_block_request_is_answered_with_an_event() {
    let (req_s, _req_r) = bounded(1);
    let (in_s, in_r) = bounded(1);
    let mut parser = InputParser::new(req_s, in_r);

    in_s.send(RawEvent::Key(RawKey::Char('b'))).unwrap();
    assert_eq!(
        handle_request(&mut parser, InputRequest::Block),
        Step::Respond(Some(Event::Char('b')))
    );
}

#[test]
fn a_peek_request_with_no_event_is_answered_with_none() {
    let (req_s, _req_r) = bounded(1);
    let (_in_s, in_r) = bounded::<RawEvent>(1);
    let mut parser = InputParser::new(req_s, in_r);

    assert_eq!(handle_request(&mut parser, InputRequest::Peek), Step::Respond(None));
}

#[test]
fn the_loop_forwards_a_blocked_event_and_ends_when_requests_close() {
    let (req_s, req_r) = bounded(1);
    let (in_s, in_r) = bounded(1);
    let mut parser = InputParser::new(req_s, in_r);

    let (cons_s, cons_r) = bounded(4);
    let (sink_s, sink_r) = bounded(4);

    in_s.send(RawEvent::Key(RawKey::Char('m'))).unwrap();
    cons_s.send(InputRequest::Block).unwrap();
    drop(cons_s);

    let done = run_input_loop(&mut parser, &cons_r, &sink_s, 100);
    assert!(done);
    assert_eq!(sink_r.try_recv(), Ok(Some(Event::Char('m'))));
    assert!(sink_r.try_recv().is_err());
    drop(req_r);
}

#[test]
fn the_loop_answers_a_peek_timeout_with_none() {
    let (req_s, _req_r) = bounded(1);
    let (in_s, in_r) = bounded::<RawEvent>(1);
    let mut parser = InputParser::new(req_s, in_r);

    let (cons_s, cons_r) = bounded(4);
    let (sink_s, sink_r) = bounded(4);

    cons_s.send(InputRequest::Peek).unwrap();
    drop(cons_s);

    let done = run_input_loop(&mut parser, &cons_r, &sink_s, 100);
    assert!(done);
    assert_eq!(sink_r.try_recv(), Ok(None));
    drop(in_s);
}

#[test]
fn the_loop_ends_at_once_on_a_closed_request_channel() {
    let (req_s, _req_r) = bounded(1);
    let (_in_s, in_r) = bounded::<RawEvent>(1);
    let mut parser = InputParser::new(req_s, in_r);

    let (cons_s, cons_r) = bounded::<InputRequest>(1);
    let (sink_s, sink_r) = bounded::<Option<Event>>(1);
    drop(cons_s);

    let done = run_input_loop(&mut parser, &cons_r, &sink_s, 100);
    assert!(done);
    assert!(sink_r.try_recv().is_err());
}

#[test]
fn the_loop_stops_when_the_reader_is_gone() {
    let (req_s, _req_r) = bounded(1);
    let (in_s, in_r) = bounded::<RawEvent>(1);
    let mut parser = InputParser::new(req_s, in_r);
    drop(in_s);

    let (cons_s, cons_r) = bounded(2);
    let (sink_s, sink_r) = bounded::<Option<Event>>(2);
    cons_s.send(InputRequest::Block).unwrap();

    let done = run_input_loop(&mut parser, &cons_r, &sink_s, 100);
    assert!(done);
    assert!(sink_r.try_recv().is_err());
    drop(cons_s);
}

#[test]
fn no_fuel_serves_no_request() {
    let (req_s, _req_r) = bounded(1);
    let (_in_s, in_r) = bounded::<RawEvent>(1);
    let mut parser = InputParser::new(req_s, in_r);

    let (cons_s, cons_r) = bounded(2);
    let (sink_s, sink_r) = bounded::<Option<Event>>(2);
    cons_s.send(InputRequest::Peek).unwrap();

    let done = run_input_loop(&mut parser, &cons_r, &sink_s, 0);
    assert!(!done);
    assert!(sink_r.try_recv().is_err());
    assert_eq!(cons_r.try_recv(), Ok(InputRequest::Peek));
}
