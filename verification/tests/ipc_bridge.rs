use std::time::{Duration, Instant};

use scribe_client::ipc_bridge::{
    coalesce, BatchProgress, BatchStep, ClipboardAnswerError, CoalescedBatch, ControlIntent,
    InboundClosed, InboundEvent, InboundPoll, InboundState, IpcSink, OpenBatch, PaneOp,
    PendingResync, RestoredSession, SinkClosed, INBOUND_QUEUE_BYTES, INBOUND_QUEUE_EVENTS,
    MAX_BATCH_EVENTS, RESYNC_MAX_DELAY_MICROS,
};
use scribe_client::protocol::{
    AutomationAction, ClientMessage, ClipboardDecision, Opaque, PromptId, PromptMarkKind,
    SessionId, TerminalSize, WindowId, WorkspaceId,
};

fn session(value: u128) -> SessionId {
    SessionId { value }
}

fn output(session_id: SessionId, bytes: &[u8]) -> InboundEvent {
    InboundEvent::PaneOutput { session_id, bytes: bytes.to_vec() }
}

fn sample_size() -> TerminalSize {
    TerminalSize { cols: 80, rows: 24, cell_width: 8, cell_height: 16 }
}

/// One server frame's worth of output, sized so that the byte ceiling is the bound
/// that a firehose reaches first.
fn frame() -> Vec<u8> {
    vec![b'A'; 64 * 1024]
}

/// A strictly alternating firehose of two panes, and the bytes of each.
fn firehose(
    count: u32,
    first: SessionId,
    second: SessionId,
) -> (Vec<InboundEvent>, Vec<u8>, Vec<u8>) {
    let mut events = Vec::new();
    let mut expected_first = Vec::new();
    let mut expected_second = Vec::new();
    for index in 0..count {
        let byte: u8 = (index % 251).try_into().unwrap();
        let even = index % 2 == 0;
        let pane = if even { first } else { second };
        events.push(output(pane, &[byte]));
        if even {
            expected_first.push(byte);
        } else {
            expected_second.push(byte);
        }
    }
    (events, expected_first, expected_second)
}

/// The bytes of one pane over all batches, in order.
fn reconstruct(batches: &[Vec<(SessionId, PaneOp)>], pane: SessionId) -> Vec<u8> {
    let mut out = Vec::new();
    for (id, op) in batches.iter().flatten() {
        if let (true, PaneOp::Output(bytes)) = (*id == pane, op) {
            out.extend_from_slice(bytes);
        }
    }
    out
}

/// Drains a queue as the client does, and asks for the snapshots that are owed.
fn drain(state: &mut InboundState, sink: &mut IpcSink) -> Vec<CoalescedBatch> {
    let mut batches = Vec::new();
    let mut resync = PendingResync::new();
    let mut now: u64 = 0;
    loop {
        let first = match state.poll_once() {
            InboundPoll::Event(event) => event,
            InboundPoll::Empty | InboundPoll::Closed => break,
        };
        let mut open = OpenBatch::start(first, now);
        let window = loop {
            if open.remaining(now).is_none() {
                break open.finish();
            }
            let step = match state.poll_once() {
                InboundPoll::Event(event) => BatchStep::Event(event),
                InboundPoll::Empty => BatchStep::TimedOut,
                InboundPoll::Closed => BatchStep::Closed,
            };
            match open.step(step) {
                BatchProgress::Open(more) => open = more,
                BatchProgress::Done(window) => break window,
            }
        };
        now += 4_000;
        batches.push(coalesce(window.batch));
        let dropped = state.take_dropped();
        for pane in resync.settle(dropped, state.is_empty(), now) {
            sink.request_snapshot(pane).unwrap();
        }
    }
    batches
}

fn assert_key_input(message: &ClientMessage, expected: &[u8]) {
    match message {
        ClientMessage::KeyInput { data, .. } => assert_eq!(data.as_slice(), expected),
        other => panic!("expected KeyInput, got {other:?}"),
    }
}

#[test]
fn coalesce_collapses_per_pane_preserving_first_seen_order() {
    let first = session(1);
    let second = session(2);
    let batch = coalesce(vec![
        output(first, b"1"),
        output(second, b"x"),
        output(first, b"2"),
        output(second, b"y"),
        output(first, b"3"),
    ]);

    assert!(!batch.is_empty());
    assert!(coalesce(Vec::new()).is_empty());
    assert_eq!(
        batch.into_entries(),
        vec![(first, PaneOp::Output(b"123".to_vec())), (second, PaneOp::Output(b"xy".to_vec()))]
    );
}

#[test]
fn coalesce_keeps_positional_events_between_output_runs() {
    let pane = session(1);
    let other = session(2);
    let batch = coalesce(vec![
        output(pane, b"before"),
        output(other, b"bg"),
        InboundEvent::PromptMark {
            session_id: pane,
            kind: PromptMarkKind::PromptStart,
            exit_code: None,
        },
        output(pane, b"after"),
        InboundEvent::ScrollBottom { session_id: pane },
        output(pane, b"tail"),
    ]);

    assert_eq!(
        batch.into_entries(),
        vec![
            (pane, PaneOp::Output(b"before".to_vec())),
            (other, PaneOp::Output(b"bg".to_vec())),
            (pane, PaneOp::PromptMark { kind: PromptMarkKind::PromptStart, exit_code: None }),
            (pane, PaneOp::Output(b"after".to_vec())),
            (pane, PaneOp::ScrollBottom),
            (pane, PaneOp::Output(b"tail".to_vec())),
        ]
    );
}

#[test]
fn drain_coalesces_firehose_into_few_per_pane_batches() {
    let first = session(1);
    let second = session(2);
    let (events, expected_first, expected_second) = firehose(300, first, second);
    let mut sink = IpcSink::new();
    let mut batches = Vec::new();
    for chunk in [0usize, 100, 200] {
        let mut state = InboundState::new();
        for event in &events[chunk..chunk + 100] {
            match event {
                InboundEvent::PaneOutput { session_id, bytes } => {
                    state.send(output(*session_id, bytes)).unwrap();
                }
                _ => unreachable!(),
            }
        }
        state.drop_sender();
        for batch in drain(&mut state, &mut sink) {
            batches.push(batch.into_entries());
        }
    }
    let total_writes: usize = batches.iter().map(Vec::len).sum();
    assert!(total_writes <= 6, "expected coalescing, got {total_writes} write_output calls");
    assert_eq!(reconstruct(&batches, first), expected_first);
    assert_eq!(reconstruct(&batches, second), expected_second);
}

#[test]
fn inbound_queue_holds_a_firehose_inside_its_event_and_byte_ceilings() {
    let pane = session(7);
    let mut state = InboundState::new();

    // Thirty-two times the byte ceiling with no drain running at all.
    for _ in 0..2_000u32 {
        state.send(output(pane, &frame())).unwrap();
    }

    assert!(state.len() <= INBOUND_QUEUE_EVENTS, "queued {} events", state.len());
    assert!(
        state.queued_bytes() <= INBOUND_QUEUE_BYTES,
        "queued {} bytes, bound is {INBOUND_QUEUE_BYTES}",
        state.queued_bytes()
    );
    assert_eq!(state.take_dropped(), vec![pane], "overflow must record the pane it dropped");
}

#[test]
fn inbound_overflow_requests_a_snapshot_for_the_dropped_pane() {
    let pane = session(7);
    let mut state = InboundState::new();
    let mut sink = IpcSink::new();

    let frames = INBOUND_QUEUE_BYTES / frame().len() + 8;
    for _ in 0..frames {
        state.send(output(pane, &frame())).unwrap();
    }
    state.drop_sender();
    drain(&mut state, &mut sink);

    match sink.take_next().unwrap() {
        ClientMessage::RequestSnapshot { session_id } => assert_eq!(session_id, pane),
        other => panic!("expected RequestSnapshot, got {other:?}"),
    }
    assert!(sink.take_next().is_none(), "one resync per overflowed pane, not one per drop");
}

#[test]
fn keystroke_reaches_server_despite_inbound_firehose() {
    let pane = session(1);
    let mut state = InboundState::new();
    for _ in 0..10_000u32 {
        state.send(output(pane, b"A")).unwrap();
    }
    let mut sink = IpcSink::new();
    sink.key_input(pane, b"x".to_vec(), true).unwrap();
    assert_key_input(&sink.take_next().unwrap(), b"x");
}

#[test]
fn typing_under_firehose_preserves_order_without_latency_spike() {
    let pane = session(1);
    let mut state = InboundState::new();
    let mut sink = IpcSink::new();
    for &key in b"echo hello\r" {
        for _ in 0..500u32 {
            state.send(output(pane, b"A")).unwrap();
        }
        let start = Instant::now();
        sink.key_input(pane, vec![key], true).unwrap();
        let message = sink.take_next().unwrap();
        assert!(start.elapsed() < Duration::from_millis(100), "keystroke latency spike");
        assert_key_input(&message, &[key]);
    }
}

#[test]
fn resize_is_flushed_before_following_key_input() {
    let pane = session(1);
    let mut sink = IpcSink::new();

    sink.resize(pane, sample_size()).unwrap();
    sink.key_input(pane, b"a".to_vec(), true).unwrap();

    assert!(matches!(sink.take_next().unwrap(), ClientMessage::Resize { .. }));
    assert!(matches!(sink.take_next().unwrap(), ClientMessage::KeyInput { .. }));
}

#[test]
fn config_reloaded_is_enqueued_on_the_ordered_writer_channel() {
    let pane = session(1);
    let mut sink = IpcSink::new();

    sink.config_reloaded().unwrap();
    sink.key_input(pane, b"a".to_vec(), true).unwrap();

    assert!(matches!(sink.take_next().unwrap(), ClientMessage::ConfigReloaded));
    assert!(matches!(sink.take_next().unwrap(), ClientMessage::KeyInput { .. }));
}

#[test]
fn search_request_carries_the_query_and_the_result_limit() {
    let pane = session(1);
    let mut sink = IpcSink::new();

    sink.search_request(pane, "error".to_owned(), 256).unwrap();

    match sink.take_next().unwrap() {
        ClientMessage::SearchRequest { session_id, query, limit } => {
            assert_eq!(session_id, pane);
            assert_eq!(query, "error");
            assert_eq!(limit, 256);
        }
        other => panic!("expected SearchRequest, got {other:?}"),
    }
}

#[test]
fn key_input_errors_when_writer_dropped() {
    let mut sink = IpcSink::new();
    sink.close();
    assert_eq!(sink.key_input(session(1), b"a".to_vec(), false), Err(SinkClosed));
    assert_eq!(SinkClosed.message(), "IPC writer channel closed");
}

#[test]
fn a_closed_drain_refuses_events() {
    let mut state = InboundState::new();
    state.drop_receiver();
    assert_eq!(state.send(output(session(1), b"a")), Err(InboundClosed));
    assert_eq!(InboundClosed.message(), "inbound drain closed");
}

#[test]
fn a_drained_queue_without_producers_is_closed() {
    let mut state = InboundState::new();
    state.send(output(session(1), b"a")).unwrap();
    state.drop_sender();
    assert_eq!(state.poll_once(), InboundPoll::Event(output(session(1), b"a")));
    assert_eq!(state.poll_once(), InboundPoll::Closed);
}

#[test]
fn an_open_queue_is_empty_but_not_closed() {
    let mut state = InboundState::new();
    assert_eq!(state.poll_once(), InboundPoll::Empty);
}

#[test]
fn only_clipboard_answers_are_clipboard_answers() {
    let mut sink = IpcSink::new();
    assert_eq!(
        sink.clipboard_answer(ClientMessage::QuitAll),
        Err(ClipboardAnswerError::NotAnAnswer)
    );
    assert!(sink.take_next().is_none());
    let answer = ClientMessage::ClipboardPromptResponse {
        request_id: PromptId { value: 3 },
        decision: ClipboardDecision::DenyOnce,
    };
    assert_eq!(sink.clipboard_answer(answer), Ok(()));
    assert!(matches!(
        sink.take_next(),
        Some(ClientMessage::ClipboardPromptResponse { request_id: PromptId { value: 3 }, .. })
    ));
    sink.close();
    let late = ClientMessage::ClipboardPromptResponse {
        request_id: PromptId { value: 4 },
        decision: ClipboardDecision::AllowOnce,
    };
    assert_eq!(sink.clipboard_answer(late), Err(ClipboardAnswerError::Closed));
}

#[test]
fn a_batch_is_complete_when_it_is_full_or_its_window_is_over() {
    let mut open = OpenBatch::start(output(session(1), b"a"), 1_000);
    assert_eq!(open.remaining(1_000), Some(4_000));
    assert_eq!(open.remaining(4_999), Some(1));
    assert_eq!(open.remaining(5_000), None);
    for _ in 1..MAX_BATCH_EVENTS {
        match open.step(BatchStep::Event(output(session(1), b"a"))) {
            BatchProgress::Open(more) => open = more,
            BatchProgress::Done(_) => panic!("not full yet"),
        }
    }
    assert_eq!(open.remaining(1_000), None);
    assert_eq!(open.finish().batch.len(), MAX_BATCH_EVENTS);
}

#[test]
fn resyncs_wait_for_an_empty_queue_but_not_forever() {
    let mut resync = PendingResync::new();
    assert!(resync.settle(vec![session(1)], false, 0).is_empty());
    assert!(resync.settle(Vec::new(), false, 1_000).is_empty());
    assert_eq!(resync.settle(Vec::new(), true, 2_000), vec![session(1)]);
    assert!(resync.settle(Vec::new(), true, 3_000).is_empty());

    assert!(resync.settle(vec![session(2)], false, 10_000).is_empty());
    assert_eq!(
        resync.settle(Vec::new(), false, 10_000 + RESYNC_MAX_DELAY_MICROS),
        vec![session(2)]
    );
}

#[test]
fn every_intent_becomes_its_message() {
    let mut sink = IpcSink::new();
    let (id, window_id) = (session(1), WindowId { value: 2 });
    let workspace_id = WorkspaceId { value: 3 };
    let size = sample_size();
    let opaque = || Opaque { bytes: vec![7] };
    sink.create_session(workspace_id, size, None, Some(vec!["sh".into()])).unwrap();
    sink.create_restored_session(RestoredSession {
        workspace_id,
        size,
        cwd: Some("/".into()),
        command: None,
        launch_id: "l".into(),
    })
    .unwrap();
    sink.attach_sessions(vec![id], vec![size]).unwrap();
    sink.subscribe(vec![id]).unwrap();
    sink.close_session(id).unwrap();
    sink.workspace_notes_get(vec![workspace_id]).unwrap();
    sink.workspace_notes_mutate(opaque()).unwrap();
    sink.create_workspace().unwrap();
    sink.close_workspace(workspace_id).unwrap();
    sink.move_session(id, workspace_id).unwrap();
    sink.report_workspace_tree(opaque()).unwrap();
    sink.control_intent(ControlIntent::Claim { window_id }).unwrap();
    sink.control_intent(ControlIntent::Grant { window_id, participant_id: 4, accept: true })
        .unwrap();
    sink.trigger_update().unwrap();
    sink.dismiss_update().unwrap();
    sink.close_window(window_id).unwrap();
    sink.quit_all().unwrap();
    sink.list_windows().unwrap();
    sink.lan_approval_decision(5, false).unwrap();
    sink.list_lan_peers().unwrap();
    sink.list_remote_peers().unwrap();
    sink.dispatch_action(None, AutomationAction::OpenFind).unwrap();
    sink.focus_changed(Some(id), None).unwrap();
    let mut sent = Vec::new();
    while let Some(message) = sink.take_next() {
        sent.push(message);
    }
    assert_eq!(
        sent,
        vec![
            ClientMessage::CreateSession {
                workspace_id,
                split_direction: None,
                cwd: None,
                size: Some(size),
                command: Some(vec!["sh".into()]),
                env_envelope_id: None,
            },
            ClientMessage::CreateSession {
                workspace_id,
                split_direction: None,
                cwd: Some("/".into()),
                size: Some(size),
                command: None,
                env_envelope_id: Some("l".into()),
            },
            ClientMessage::AttachSessions { session_ids: vec![id], dimensions: vec![size] },
            ClientMessage::Subscribe { session_ids: vec![id] },
            ClientMessage::CloseSession { session_id: id },
            ClientMessage::WorkspaceNotesGet { workspace_ids: vec![workspace_id] },
            ClientMessage::WorkspaceNotesMutate { mutation: opaque() },
            ClientMessage::CreateWorkspace,
            ClientMessage::CloseWorkspace { workspace_id },
            ClientMessage::MoveSession { session_id: id, target_workspace: workspace_id },
            ClientMessage::ReportWorkspaceTree { tree: opaque() },
            ClientMessage::ControlClaim { window_id },
            ClientMessage::ControlGrant { window_id, participant_id: 4, accept: true },
            ClientMessage::TriggerUpdate,
            ClientMessage::DismissUpdate,
            ClientMessage::CloseWindow { window_id },
            ClientMessage::QuitAll,
            ClientMessage::ListWindows,
            ClientMessage::LanApprovalDecision { request_id: 5, approve: false },
            ClientMessage::ListLanPeers,
            ClientMessage::ListRemotePeers,
            ClientMessage::DispatchAction { window_id: None, action: AutomationAction::OpenFind },
            ClientMessage::FocusChanged { gained: Some(id), lost: None },
        ]
    );
}

#[test]
fn merging_is_tried_again_once_the_queue_is_half_empty() {
    let marks = |n: u128| InboundEvent::ScrollBottom { session_id: session(n) };
    let mut state = InboundState::new();
    for n in 0..=INBOUND_QUEUE_EVENTS as u128 {
        state.send(marks(n)).unwrap();
    }
    // Nothing could be merged, so one event was dropped.
    assert_eq!(state.take_dropped(), vec![session(0)]);
    while state.len() * 2 > INBOUND_QUEUE_EVENTS {
        assert!(matches!(state.poll_once(), InboundPoll::Event(_)));
    }
    while state.len() <= INBOUND_QUEUE_EVENTS / 2 + 1 {
        state.send(output(session(7), b"a")).unwrap();
    }
    let before = state.len();
    for _ in before..INBOUND_QUEUE_EVENTS {
        state.send(output(session(7), b"a")).unwrap();
    }
    state.send(output(session(7), b"a")).unwrap();
    assert!(state.take_dropped().is_empty());
    assert!(state.len() < INBOUND_QUEUE_EVENTS);
}
