use pty_sessions::{
    kill_terminal, list_terminals, release_session, resize_terminal, spawn_terminal,
    write_terminal, OutputPump, Provisioning, PtyGeometry, PtySession, PumpAction, PumpEvent,
    PumpPhase, SessionCounter, TerminalError, TerminalExit, TerminalOutput, TerminalState,
};

type Table = TerminalState<&'static str, u8>;

fn provision(counter: &mut SessionCounter) -> u32 {
    let mut progress = Provisioning::begin();
    while progress.pending().is_some() {
        progress = progress.advance(Ok(()), counter);
    }
    match progress {
        Provisioning::Ready { session_id } => session_id,
        other => panic!("not ready: {:?}", other),
    }
}

fn spawn(table: &mut Table, counter: &mut SessionCounter) -> (u32, OutputPump) {
    let session_id = provision(counter);
    let pump = spawn_terminal(table, session_id, PtySession::new("writer", 7));
    (session_id, pump)
}

fn sorted(mut ids: Vec<u32>) -> Vec<u32> {
    ids.sort();
    ids
}

#[test]
fn first_session_lives_until_killed() {
    let mut table = Table::new();
    let mut counter = SessionCounter::new();

    let (id, mut pump) = spawn(&mut table, &mut counter);
    assert_eq!(id, 0);
    assert_eq!(pump.session_id(), 0);
    assert_eq!(list_terminals(&table), vec![0]);

    let request = write_terminal(&table, 0, "echo hi\n").ok().unwrap();
    assert_eq!(request.bytes, b"echo hi\n".to_vec());
    assert_eq!(*request.session.writer(), "writer");

    let action = pump.step(PumpEvent::Read(b"hi\r\n".to_vec()));
    match action {
        PumpAction::Publish(output) => {
            assert_eq!(output.session_id, 0);
            assert!(output.data.contains("hi"));
        }
        other => panic!("no output: {:?}", other),
    }

    assert_eq!(kill_terminal(&mut table, 0), Ok(()));
    assert_eq!(
        kill_terminal(&mut table, 0),
        Err(TerminalError::SessionNotFound { session_id: 0 })
    );
    assert_eq!(list_terminals(&table), Vec::<u32>::new());
}

#[test]
fn two_spawns_get_distinct_identifiers() {
    let mut table = Table::new();
    let mut counter = SessionCounter::new();

    let (first, mut first_pump) = spawn(&mut table, &mut counter);
    let (second, mut second_pump) = spawn(&mut table, &mut counter);
    assert_ne!(first, second);
    assert_eq!(sorted(list_terminals(&table)), vec![first, second]);

    let from_first = first_pump.step(PumpEvent::Read(b"one".to_vec()));
    let from_second = second_pump.step(PumpEvent::Read(b"two".to_vec()));
    assert_eq!(
        from_first,
        PumpAction::Publish(TerminalOutput { session_id: first, data: "one".to_string() })
    );
    assert_eq!(
        from_second,
        PumpAction::Publish(TerminalOutput { session_id: second, data: "two".to_string() })
    );
}

#[test]
fn identifiers_ascend_from_zero_and_are_not_reused() {
    let mut table = Table::new();
    let mut counter = SessionCounter::new();
    let mut seen = Vec::new();
    for expected in 0..50u32 {
        let (id, _) = spawn(&mut table, &mut counter);
        assert_eq!(id, expected);
        assert!(!seen.contains(&id));
        seen.push(id);
        assert_eq!(kill_terminal(&mut table, id), Ok(()));
    }
    assert!(list_terminals(&table).is_empty());
}

#[test]
fn a_fresh_table_is_empty() {
    let table = Table::new();
    assert!(list_terminals(&table).is_empty());
    let by_default = Table::default();
    assert!(list_terminals(&by_default).is_empty());
    assert!(by_default.get(0).is_none());
}

#[test]
fn a_session_stays_listed_through_commands_on_others() {
    let mut table = Table::new();
    let mut counter = SessionCounter::new();
    let (kept, _) = spawn(&mut table, &mut counter);
    let (other, _) = spawn(&mut table, &mut counter);

    assert!(write_terminal(&table, other, "ls\n").is_ok());
    assert!(resize_terminal(&table, other, 100, 40).is_ok());
    assert!(list_terminals(&table).contains(&kept));
    assert_eq!(kill_terminal(&mut table, other), Ok(()));
    assert!(list_terminals(&table).contains(&kept));
    let (third, _) = spawn(&mut table, &mut counter);
    assert_eq!(sorted(list_terminals(&table)), vec![kept, third]);
    assert_eq!(kill_terminal(&mut table, kept), Ok(()));
    assert_eq!(list_terminals(&table), vec![third]);
}

#[test]
fn commands_on_an_unknown_session_fail_with_not_found() {
    let mut table = Table::new();
    let mut counter = SessionCounter::new();
    let (live, _) = spawn(&mut table, &mut counter);
    let unknown = 41;
    assert!(!list_terminals(&table).contains(&unknown));

    assert_eq!(
        write_terminal(&table, unknown, "x").err(),
        Some(TerminalError::SessionNotFound { session_id: unknown })
    );
    assert_eq!(
        resize_terminal(&table, unknown, 80, 24).err(),
        Some(TerminalError::SessionNotFound { session_id: unknown })
    );
    assert_eq!(
        kill_terminal(&mut table, unknown),
        Err(TerminalError::SessionNotFound { session_id: unknown })
    );
    assert_eq!(list_terminals(&table), vec![live]);
}

#[test]
fn commands_on_an_ended_session_fail_with_not_found() {
    let mut table = Table::new();
    let mut counter = SessionCounter::new();
    let (id, _) = spawn(&mut table, &mut counter);
    assert!(release_session(&mut table, id));
    assert!(write_terminal(&table, id, "x").is_err());
    assert!(resize_terminal(&table, id, 1, 1).is_err());
    assert_eq!(
        kill_terminal(&mut table, id),
        Err(TerminalError::SessionNotFound { session_id: id })
    );
}

#[test]
fn write_hands_over_the_bytes_of_the_text() {
    let mut table = Table::new();
    let mut counter = SessionCounter::new();
    let (id, _) = spawn(&mut table, &mut counter);

    let empty = write_terminal(&table, id, "").ok().unwrap();
    assert!(empty.bytes.is_empty());
    let accented = write_terminal(&table, id, "h\u{e9}\u{20ac}\n").ok().unwrap();
    assert_eq!(accented.bytes, vec![0x68, 0xc3, 0xa9, 0xe2, 0x82, 0xac, 0x0a]);
}

#[test]
fn writes_in_turn_give_the_bytes_of_the_whole_text() {
    let mut table = Table::new();
    let mut counter = SessionCounter::new();
    let (id, _) = spawn(&mut table, &mut counter);

    let mut received = Vec::new();
    for part in ["echo ", "h\u{e9}", "llo\n"] {
        received.extend(write_terminal(&table, id, part).ok().unwrap().bytes);
    }
    let whole = write_terminal(&table, id, "echo h\u{e9}llo\n").ok().unwrap().bytes;
    assert_eq!(received, whole);
}

#[test]
fn resize_asks_for_cells_and_no_pixels() {
    let mut table = Table::new();
    let mut counter = SessionCounter::new();
    let (id, _) = spawn(&mut table, &mut counter);

    let request = resize_terminal(&table, id, 132, 43).ok().unwrap();
    assert_eq!(
        request.geometry,
        PtyGeometry { rows: 43, cols: 132, pixel_width: 0, pixel_height: 0 }
    );
    assert_eq!(*request.session.master(), 7);
    assert_eq!(list_terminals(&table), vec![id]);
}

#[test]
fn kill_and_cleanup_race_is_won_once() {
    let mut table = Table::new();
    let mut counter = SessionCounter::new();
    let (id, mut pump) = spawn(&mut table, &mut counter);

    assert_eq!(kill_terminal(&mut table, id), Ok(()));
    assert_eq!(pump.step(PumpEvent::Read(Vec::new())), PumpAction::Reap { log: None });
    let action = pump.step(PumpEvent::Reaped(Some(true)));
    assert_eq!(action, PumpAction::Exit(TerminalExit { session_id: id, exit_code: Some(0) }));
    assert!(!release_session(&mut table, id));
    assert!(list_terminals(&table).is_empty());
    assert_eq!(pump.phase(), PumpPhase::Terminated);
}

#[test]
fn cleanup_first_then_kill_finds_nothing() {
    let mut table = Table::new();
    let mut counter = SessionCounter::new();
    let (id, mut pump) = spawn(&mut table, &mut counter);
    let (other, _) = spawn(&mut table, &mut counter);

    pump.step(PumpEvent::Read(Vec::new()));
    pump.step(PumpEvent::Reaped(Some(false)));
    assert!(release_session(&mut table, id));
    assert_eq!(
        kill_terminal(&mut table, id),
        Err(TerminalError::SessionNotFound { session_id: id })
    );
    assert_eq!(list_terminals(&table), vec![other]);
}

#[test]
fn registering_again_replaces_the_session() {
    let mut table = Table::new();
    assert!(table.insert(3, PtySession::new("old", 1)).is_none());
    let previous = table.insert(3, PtySession::new("new", 2)).unwrap();
    assert_eq!(*previous.writer(), "old");
    assert_eq!(*table.get(3).unwrap().writer(), "new");
    assert_eq!(*table.get(3).unwrap().master(), 2);
    assert_eq!(table.ids(), vec![3]);
    let removed = table.remove(3).unwrap();
    assert_eq!(*removed.writer(), "new");
    assert!(table.remove(3).is_none());
}
