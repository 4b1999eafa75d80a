use franz::session::{
    consume_expects, consume_step, line_step, produce_expects, produce_step, CloseReason,
    ConsumeEvent, ConsumeState, LineEvent, LineState, ProduceEvent, ProduceState,
    SessionAction,
};

fn run_consume(events: &[ConsumeEvent]) -> (ConsumeState, Vec<SessionAction>) {
    let mut state = ConsumeState::Waiting;
    let mut actions = Vec::new();
    for &event in events {
        assert!(consume_expects(state, event));
        let (next, action) = consume_step(state, event);
        state = next;
        actions.push(action);
    }
    (state, actions)
}

fn run_produce(events: &[ProduceEvent]) -> (ProduceState, Vec<SessionAction>) {
    let mut state = ProduceState::Waiting;
    let mut actions = Vec::new();
    for &event in events {
        assert!(produce_expects(state, event));
        let (next, action) = produce_step(state, event);
        state = next;
        actions.push(action);
    }
    (state, actions)
}

#[test]
fn close_codes_and_reasons() {
    assert_eq!(CloseReason::ServerShutdown.code(), 1001);
    assert_eq!(CloseReason::ServerShutdown.reason(), "server shutdown");
    assert_eq!(CloseReason::NextPageFailed.code(), 1011);
    assert_eq!(CloseReason::NextPageFailed.reason(), "failed to get next page");
    assert_eq!(CloseReason::ProduceFailed.code(), 1011);
    assert_eq!(CloseReason::ProduceFailed.reason(), "failed to produce message");
}

#[test]
fn consumer_forwards_records_and_turns_pages() {
    let (state, actions) =
        run_consume(&[ConsumeEvent::ClientMessage, ConsumeEvent::Record, ConsumeEvent::Delivered, ConsumeEvent::PageEnd, ConsumeEvent::PageReady, ConsumeEvent::Record, ConsumeEvent::Delivered]);
    assert_eq!(state, ConsumeState::Waiting);
    assert_eq!(
        actions,
        vec![
            SessionAction::Wait,
            SessionAction::Forward,
            SessionAction::Wait,
            SessionAction::FetchNextPage,
            SessionAction::Wait,
            SessionAction::Forward,
            SessionAction::Wait,
        ]
    );
}

#[test]
fn consumer_shutdown_closes_once() {
    let (state, actions) = run_consume(&[ConsumeEvent::Record, ConsumeEvent::Delivered, ConsumeEvent::Shutdown, ConsumeEvent::CloseSent]);
    assert_eq!(state, ConsumeState::Finished);
    assert_eq!(actions[2], SessionAction::Close(CloseReason::ServerShutdown));
    assert_eq!(actions[3], SessionAction::Stop);
    assert!(!consume_expects(ConsumeState::Finished, ConsumeEvent::Shutdown));
}

#[test]
fn consumer_client_gone_closes_with_shutdown_reason() {
    for lost in [ConsumeEvent::ClientError, ConsumeEvent::ClientClosed] {
        let (state, actions) = run_consume(&[lost]);
        assert_eq!(state, ConsumeState::Closing);
        assert_eq!(actions, vec![SessionAction::Close(CloseReason::ServerShutdown)]);
    }
}

#[test]
fn consumer_page_failure_closes_with_error() {
    let (state, actions) = run_consume(&[ConsumeEvent::PageEnd, ConsumeEvent::PageFailed, ConsumeEvent::CloseSent]);
    assert_eq!(state, ConsumeState::Finished);
    assert_eq!(actions[1], SessionAction::Close(CloseReason::NextPageFailed));
}

#[test]
fn consumer_failed_delivery_stops_without_close() {
    let (state, actions) = run_consume(&[ConsumeEvent::Record, ConsumeEvent::DeliveryFailed]);
    assert_eq!(state, ConsumeState::Finished);
    assert_eq!(actions, vec![SessionAction::Forward, SessionAction::Stop]);
}

#[test]
fn consumer_rejects_unexpected_events() {
    assert!(!consume_expects(ConsumeState::Waiting, ConsumeEvent::CloseSent));
    assert!(!consume_expects(ConsumeState::Forwarding, ConsumeEvent::Shutdown));
    assert!(!consume_expects(ConsumeState::Closing, ConsumeEvent::Record));
}

#[test]
fn producer_stores_each_message() {
    let (state, actions) = run_produce(&[ProduceEvent::ClientMessage, ProduceEvent::Stored, ProduceEvent::ClientMessage, ProduceEvent::Stored]);
    assert_eq!(state, ProduceState::Waiting);
    assert_eq!(
        actions,
        vec![SessionAction::Store, SessionAction::Wait, SessionAction::Store, SessionAction::Wait]
    );
}

#[test]
fn producer_store_failure_closes_with_error() {
    let (state, actions) = run_produce(&[ProduceEvent::ClientMessage, ProduceEvent::StoreFailed, ProduceEvent::CloseSent]);
    assert_eq!(state, ProduceState::Finished);
    assert_eq!(
        actions,
        vec![
            SessionAction::Store,
            SessionAction::Close(CloseReason::ProduceFailed),
            SessionAction::Stop
        ]
    );
}

#[test]
fn producer_shutdown_and_client_loss_close() {
    for ending in [ProduceEvent::Shutdown, ProduceEvent::ClientError, ProduceEvent::ClientClosed] {
        let (state, actions) = run_produce(&[ending, ProduceEvent::CloseSent]);
        assert_eq!(state, ProduceState::Finished);
        assert_eq!(
            actions,
            vec![SessionAction::Close(CloseReason::ServerShutdown), SessionAction::Stop]
        );
    }
    assert!(!produce_expects(ProduceState::Finished, ProduceEvent::ClientMessage));
    assert!(!produce_expects(ProduceState::Storing, ProduceEvent::Shutdown));
}

#[test]
fn line_reader_ends_on_shutdown_or_end_of_lines() {
    assert_eq!(line_step(LineState::Reading, LineEvent::Line), (LineState::Reading, SessionAction::Wait));
    assert_eq!(
        line_step(LineState::Reading, LineEvent::RecordPolled),
        (LineState::Reading, SessionAction::Wait)
    );
    for ending in [LineEvent::Shutdown, LineEvent::LineError, LineEvent::LinesEnded] {
        assert_eq!(line_step(LineState::Reading, ending), (LineState::Finished, SessionAction::Stop));
    }
}

#[test]
fn nothing_follows_a_close_but_the_end() {
    let (_, actions) = run_consume(&[
        ConsumeEvent::Record,
        ConsumeEvent::Delivered,
        ConsumeEvent::PageEnd,
        ConsumeEvent::PageFailed,
        ConsumeEvent::CloseSent,
    ]);
    let close = actions.iter().position(|a| matches!(a, SessionAction::Close(_))).unwrap();
    assert_eq!(&actions[close + 1..], &[SessionAction::Stop]);
    let (_, actions) = run_produce(&[ProduceEvent::ClientMessage, ProduceEvent::Stored, ProduceEvent::Shutdown, ProduceEvent::CloseSent]);
    let close = actions.iter().position(|a| matches!(a, SessionAction::Close(_))).unwrap();
    assert_eq!(&actions[close + 1..], &[SessionAction::Stop]);
}
