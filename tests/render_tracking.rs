use rangeset::set::RangeSet;
use session_handler::handler::{
    complete, follow_up, Dispatch, FollowUp, Job, Outcome, RemoteClipboard, SessionHandler,
};
use session_handler::pdu::{respond, DecodedPdu, HandlerError, KeyEvent, Pdu, TabSize};
use session_handler::registry::{Registry, Window};
use session_handler::render::PerTab;
use session_handler::tab::{CursorPosition, Dimensions, TabState};

fn tab_80x24(tab_id: u64) -> TabState {
    let mut lines = Vec::new();
    for i in 0..24 {
        lines.push(format!("row {}", i));
    }
    TabState {
        tab_id,
        mouse_grabbed: false,
        dimensions: Dimensions {
            cols: 80,
            viewport_rows: 24,
            scrollback_rows: 0,
            physical_top: 0,
            scrollback_top: 0,
        },
        cursor: CursorPosition { x: 0, y: 0 },
        title: String::new(),
        working_dir: None,
        dirty: RangeSet::default(),
        first_row: 0,
        lines,
    }
}

#[test]
fn first_push_sends_whole_viewport() {
    let mut tab = tab_80x24(1);
    tab.title = "shell".to_string();
    let mut state = PerTab::new();
    let c = state.compute_changes(&mut tab, None).expect("a change set");
    assert_eq!(c.tab_id, 1);
    assert!(c.dirty_lines.is_empty());
    assert_eq!(c.bonus_lines.len(), 24);
    for i in 0..24 {
        assert_eq!(c.bonus_lines[i], (i as i64, format!("row {}", i)));
    }
    assert_eq!(c.title, "shell");
    assert_eq!(c.dimensions.cols, 80);
    assert_eq!(c.input_serial, None);
}

#[test]
fn second_push_without_change_sends_nothing() {
    let mut tab = tab_80x24(1);
    tab.title = "shell".to_string();
    let mut state = PerTab::new();
    assert!(state.compute_changes(&mut tab, None).is_some());
    assert!(state.compute_changes(&mut tab, None).is_none());
}

#[test]
fn unchanged_default_tab_sends_nothing() {
    let mut tab = tab_80x24(1);
    tab.dimensions = Dimensions {
        cols: 0,
        viewport_rows: 0,
        scrollback_rows: 0,
        physical_top: 0,
        scrollback_top: 0,
    };
    let mut state = PerTab::new();
    assert!(state.compute_changes(&mut tab, None).is_none());
}

#[test]
fn write_dirties_row_five() {
    let mut tab = tab_80x24(3);
    let mut state = PerTab::new();
    assert!(state.compute_changes(&mut tab, None).is_some());
    tab.lines[5] = "hello".to_string();
    tab.mark_dirty(5, 6);
    tab.cursor = CursorPosition { x: 5, y: 5 };
    let c = state.compute_changes(&mut tab, None).expect("a change set");
    assert_eq!(c.dirty_lines, vec![(5, 6)]);
    assert!(c.bonus_lines.contains(&(5, "hello".to_string())));
    assert_eq!(c.bonus_lines.iter().filter(|l| l.0 == 5).count(), 1);
    assert_eq!(c.bonus_lines.len(), 24);
    assert_eq!(c.cursor_position, CursorPosition { x: 5, y: 5 });
    assert!(state.compute_changes(&mut tab, None).is_none());
}

#[test]
fn dirty_row_outside_viewport_is_ignored() {
    let mut tab = tab_80x24(3);
    tab.dimensions.viewport_rows = 10;
    let mut state = PerTab::new();
    assert!(state.compute_changes(&mut tab, None).is_some());
    tab.mark_dirty(15, 16);
    assert!(state.compute_changes(&mut tab, None).is_none());
}

#[test]
fn dirty_rows_not_held_stay_cached() {
    let mut tab = tab_80x24(3);
    tab.lines.truncate(10);
    tab.mark_dirty(12, 14);
    let mut state = PerTab::new();
    let c = state.compute_changes(&mut tab, None).expect("a change set");
    assert_eq!(c.dirty_lines, vec![(12, 14)]);
    assert_eq!(c.bonus_lines.len(), 10);
    assert!(state.is_dirty(12));
    assert!(state.is_dirty(13));
    assert!(!state.is_dirty(11));
    assert!(state.compute_changes(&mut tab, None).is_none());
}

#[test]
fn forced_push_always_sends_cursor_row() {
    let mut tab = tab_80x24(4);
    tab.cursor = CursorPosition { x: 2, y: 7 };
    let mut state = PerTab::new();
    assert!(state.compute_changes(&mut tab, None).is_some());
    assert!(state.compute_changes(&mut tab, None).is_none());
    let c = state.compute_changes(&mut tab, Some(9)).expect("forced");
    assert_eq!(c.input_serial, Some(9));
    assert!(c.dirty_lines.is_empty());
    assert!(c.bonus_lines.contains(&(7, "row 7".to_string())));
    assert_eq!(c.bonus_lines.iter().filter(|l| l.0 == 7).count(), 1);
}

#[test]
fn each_attribute_change_is_noticed() {
    let mut tab = tab_80x24(4);
    let mut state = PerTab::new();
    assert!(state.compute_changes(&mut tab, None).is_some());
    tab.title = "vim".to_string();
    assert_eq!(state.compute_changes(&mut tab, None).unwrap().title, "vim");
    tab.working_dir = Some("file:///tmp".to_string());
    let c = state.compute_changes(&mut tab, None).unwrap();
    assert_eq!(c.working_dir, Some("file:///tmp".to_string()));
    tab.mouse_grabbed = true;
    assert!(state.compute_changes(&mut tab, None).unwrap().mouse_grabbed);
    tab.cursor = CursorPosition { x: 3, y: 0 };
    assert!(state.compute_changes(&mut tab, None).is_some());
    tab.dimensions.cols = 100;
    assert!(state.compute_changes(&mut tab, None).is_some());
    assert!(state.compute_changes(&mut tab, None).is_none());
}

#[test]
fn mark_clean_forgets_row() {
    let mut tab = tab_80x24(3);
    tab.lines.truncate(10);
    tab.mark_dirty(12, 13);
    let mut state = PerTab::new();
    assert!(state.compute_changes(&mut tab, None).is_some());
    assert!(state.is_dirty(12));
    state.mark_clean(12);
    assert!(!state.is_dirty(12));
}

#[test]
fn get_lines_acknowledges_rows() {
    let mut handler = SessionHandler::new(4, "test".to_string());
    let mut tab = tab_80x24(5);
    assert!(handler.push_tab_changes(&mut tab).is_some());
    tab.lines[5] = "changed".to_string();
    tab.mark_dirty(5, 6);
    let resp = handler.read_lines(&mut tab, &vec![(5, 6)]);
    match resp {
        Pdu::GetLinesResponse { tab_id, lines } => {
            assert_eq!(tab_id, 5);
            assert_eq!(lines, vec![(5, "changed".to_string())]);
        }
        _ => panic!("expected lines"),
    }
    assert!(handler.push_tab_changes(&mut tab).is_none());
}

#[test]
fn get_lines_clips_to_held_rows() {
    let mut handler = SessionHandler::new(4, "test".to_string());
    let mut tab = tab_80x24(5);
    let resp = handler.read_lines(&mut tab, &vec![(22, 30), (3, 3), (-2, 1)]);
    match resp {
        Pdu::GetLinesResponse { lines, .. } => {
            assert_eq!(
                lines,
                vec![
                    (22, "row 22".to_string()),
                    (23, "row 23".to_string()),
                    (0, "row 0".to_string())
                ]
            );
        }
        _ => panic!("expected lines"),
    }
}

#[test]
fn key_down_forces_push_with_serial() {
    let mut handler = SessionHandler::new(4, "test".to_string());
    let mut tab = tab_80x24(6);
    tab.cursor = CursorPosition { x: 1, y: 2 };
    assert!(handler.push_tab_changes(&mut tab).is_some());
    let d = handler.process_one(DecodedPdu {
        serial: 11,
        pdu: Pdu::SendKeyDown {
            tab_id: 6,
            event: KeyEvent { key: 97, modifiers: 0 },
            input_serial: 42,
        },
    });
    match d {
        Dispatch::Schedule { serial, job: Job::SendKeyDown { tab_id, input_serial, .. } } => {
            assert_eq!(serial, 11);
            assert_eq!(tab_id, 6);
            assert_eq!(input_serial, 42);
        }
        _ => panic!("expected a key job"),
    }
    let push = handler.key_down_push(&mut tab, 42);
    assert_eq!(push.serial, 0);
    match push.pdu {
        Pdu::GetTabRenderChangesResponse(c) => {
            assert_eq!(c.input_serial, Some(42));
            assert!(c.bonus_lines.contains(&(2, "row 2".to_string())));
        }
        _ => panic!("expected a render push"),
    }
    let unit = respond(11, Ok(Pdu::UnitResponse));
    assert_eq!(unit.serial, 11);
    assert!(matches!(unit.pdu, Pdu::UnitResponse));
}

#[test]
fn spawn_in_unknown_domain_fails() {
    let mut reg = Registry { windows: Vec::new(), domains: vec![1], next_window_id: 3 };
    let r = reg.prepare_spawn(7, None);
    assert!(matches!(r, Err(HandlerError::NoSuchDomain(7))));
    assert!(reg.windows.is_empty());
    assert_eq!(reg.next_window_id, 3);
    let resp = respond(8, r.map(|w| Pdu::SpawnResponse { tab_id: 0, window_id: w }));
    assert_eq!(resp.serial, 8);
    match resp.pdu {
        Pdu::ErrorResponse { reason } => {
            assert_eq!(reason, "Error: domain 7 not found on this server")
        }
        _ => panic!("expected an error"),
    }
}

#[test]
fn spawn_picks_or_makes_window() {
    let mut reg = Registry { windows: Vec::new(), domains: vec![1, 2], next_window_id: 3 };
    assert!(matches!(reg.prepare_spawn(2, None), Ok(3)));
    assert_eq!(reg.windows.len(), 1);
    assert_eq!(reg.windows[0].window_id, 3);
    assert_eq!(reg.next_window_id, 4);
    assert!(matches!(reg.prepare_spawn(1, Some(3)), Ok(3)));
    assert_eq!(reg.windows.len(), 1);
    let r = reg.prepare_spawn(1, Some(9));
    assert!(matches!(r, Err(HandlerError::NoSuchWindow(9))));
    match respond(1, r.map(|_| Pdu::UnitResponse)).pdu {
        Pdu::ErrorResponse { reason } => {
            assert_eq!(reason, "Error: window_id 9 not found on this server")
        }
        _ => panic!("expected an error"),
    }
}

#[test]
fn requests_map_to_jobs_and_replies() {
    let mut handler = SessionHandler::new(4, "1.2".to_string());
    let ping = handler.process_one(DecodedPdu { serial: 1, pdu: Pdu::Ping });
    assert!(matches!(ping, Dispatch::Reply(DecodedPdu { serial: 1, pdu: Pdu::Pong })));
    match handler.process_one(DecodedPdu { serial: 2, pdu: Pdu::GetCodecVersion }) {
        Dispatch::Reply(DecodedPdu {
            serial: 2,
            pdu: Pdu::GetCodecVersionResponse { codec_vers, version_string },
        }) => {
            assert_eq!(codec_vers, 4);
            assert_eq!(version_string, "1.2");
        }
        _ => panic!("expected a version reply"),
    }
    let list = handler.process_one(DecodedPdu { serial: 3, pdu: Pdu::ListTabs });
    assert!(matches!(list, Dispatch::Schedule { serial: 3, job: Job::ListTabs }));
    let resize = handler.process_one(DecodedPdu {
        serial: 4,
        pdu: Pdu::Resize {
            tab_id: 2,
            size: TabSize { rows: 10, cols: 20, pixel_width: 0, pixel_height: 0 },
        },
    });
    assert!(matches!(resize, Dispatch::Schedule { serial: 4, job: Job::Resize { tab_id: 2, .. } }));
    let lines = handler.process_one(DecodedPdu {
        serial: 5,
        pdu: Pdu::GetLines { tab_id: 2, lines: vec![(5, 6)] },
    });
    match lines {
        Dispatch::Schedule { serial: 5, job: Job::GetLines { tab_id: 2, lines } } => {
            assert_eq!(lines, vec![(5, 6)])
        }
        _ => panic!("expected a lines job"),
    }
    let creds = handler.process_one(DecodedPdu { serial: 6, pdu: Pdu::GetTlsCreds });
    assert!(matches!(creds, Dispatch::Schedule { serial: 6, job: Job::GetTlsCreds }));
    let changes = handler.process_one(DecodedPdu { serial: 7, pdu: Pdu::GetTabRenderChanges { tab_id: 2 } });
    assert!(matches!(changes, Dispatch::Schedule { serial: 7, job: Job::GetTabRenderChanges { tab_id: 2 } }));
    assert!(matches!(handler.schedule_tab_push(2), Job::PushChanges { tab_id: 2 }));
}

#[test]
fn responses_sent_as_requests_fail() {
    let mut handler = SessionHandler::new(4, "1.2".to_string());
    match handler.process_one(DecodedPdu { serial: 9, pdu: Pdu::Pong }) {
        Dispatch::Reply(DecodedPdu { serial: 9, pdu: Pdu::ErrorResponse { reason } }) => {
            assert_eq!(reason, "Error: expected a request, got Pong")
        }
        _ => panic!("expected an error"),
    }
    match handler.process_one(DecodedPdu { serial: 10, pdu: Pdu::UnitResponse }) {
        Dispatch::Reply(DecodedPdu { serial: 10, pdu: Pdu::ErrorResponse { .. } }) => {}
        _ => panic!("expected an error"),
    }
    match handler.process_one(DecodedPdu { serial: 12, pdu: Pdu::Invalid { ident: 99 } }) {
        Dispatch::Reply(DecodedPdu { serial: 12, pdu: Pdu::ErrorResponse { reason } }) => {
            assert_eq!(reason, "Error: invalid PDU 99")
        }
        _ => panic!("expected an error"),
    }
}

#[test]
fn error_reasons_name_ids() {
    assert_eq!(HandlerError::NoSuchTab(123).reason(), "no such tab 123");
    assert_eq!(HandlerError::NoSuchTab(0).reason(), "no such tab 0");
    assert_eq!(HandlerError::Failed("broken pipe".to_string()).reason(), "broken pipe");
    match respond(3, Err(HandlerError::NoSuchTab(18446744073709551615))).pdu {
        Pdu::ErrorResponse { reason } => {
            assert_eq!(reason, "Error: no such tab 18446744073709551615")
        }
        _ => panic!("expected an error"),
    }
}

#[test]
fn list_tabs_reports_every_tab() {
    let mut wide = tab_80x24(8);
    wide.dimensions.cols = 70000;
    wide.title = "wide".to_string();
    wide.working_dir = Some("file:///home".to_string());
    let reg = Registry {
        windows: vec![
            Window { window_id: 1, tabs: vec![tab_80x24(7)] },
            Window { window_id: 2, tabs: Vec::new() },
            Window { window_id: 3, tabs: vec![wide, tab_80x24(9)] },
        ],
        domains: Vec::new(),
        next_window_id: 4,
    };
    match reg.list_tabs() {
        Pdu::ListTabsResponse { tabs } => {
            assert_eq!(tabs.len(), 3);
            assert_eq!((tabs[0].window_id, tabs[0].tab_id), (1, 7));
            assert_eq!((tabs[1].window_id, tabs[1].tab_id), (3, 8));
            assert_eq!((tabs[2].window_id, tabs[2].tab_id), (3, 9));
            assert_eq!(tabs[1].size, TabSize { rows: 24, cols: 4464, pixel_width: 0, pixel_height: 0 });
            assert_eq!(tabs[1].title, "wide");
            assert_eq!(tabs[1].working_dir, Some("file:///home".to_string()));
        }
        _ => panic!("expected a listing"),
    }
}

#[test]
fn clipboard_relay() {
    let clip = RemoteClipboard { tab_id: 4 };
    assert_eq!(clip.get_contents(), "");
    let d = clip.set_contents(Some("copied".to_string()));
    assert_eq!(d.serial, 0);
    match d.pdu {
        Pdu::SetClipboard { tab_id, clipboard } => {
            assert_eq!(tab_id, 4);
            assert_eq!(clipboard, Some("copied".to_string()));
        }
        _ => panic!("expected a clipboard push"),
    }
}


#[test]
fn well_formed_needs_cursor_row_held() {
    let mut tab = tab_80x24(1);
    assert!(tab.is_well_formed());
    tab.cursor = CursorPosition { x: 0, y: 24 };
    assert!(!tab.is_well_formed());
    tab.cursor = CursorPosition { x: 0, y: 23 };
    tab.dimensions.physical_top = i64::MAX;
    assert!(!tab.is_well_formed());
}

#[test]
fn cursor_row_outside_viewport_is_appended() {
    let mut tab = tab_80x24(2);
    tab.dimensions.viewport_rows = 10;
    tab.cursor = CursorPosition { x: 0, y: 15 };
    let mut state = PerTab::new();
    let c = state.compute_changes(&mut tab, None).expect("a change set");
    assert_eq!(c.bonus_lines.len(), 11);
    assert_eq!(c.bonus_lines[9], (9, "row 9".to_string()));
    assert_eq!(c.bonus_lines[10], (15, "row 15".to_string()));
}

#[test]
fn jobs_complete_with_their_responses() {
    let write = Job::WriteToTab { tab_id: 3, data: vec![104] };
    match complete(5, &write, Outcome::Done) {
        Some(DecodedPdu { serial: 5, pdu: Pdu::UnitResponse }) => {}
        _ => panic!("expected a unit response"),
    }
    match complete(6, &Job::Spawn(session_handler::pdu::Spawn {
        domain_id: 1,
        window_id: None,
        command: None,
        command_dir: None,
        size: TabSize { rows: 24, cols: 80, pixel_width: 0, pixel_height: 0 },
    }), Outcome::Spawned { tab_id: 9, window_id: 2 }) {
        Some(DecodedPdu { serial: 6, pdu: Pdu::SpawnResponse { tab_id: 9, window_id: 2 } }) => {}
        _ => panic!("expected a spawn response"),
    }
    let alive = complete(7, &Job::GetTabRenderChanges { tab_id: 4 }, Outcome::Alive(false));
    assert!(matches!(
        alive,
        Some(DecodedPdu { serial: 7, pdu: Pdu::TabLivenessResponse { tab_id: 4, tab_alive: false } })
    ));
    match complete(8, &write, Outcome::Failed(HandlerError::NoSuchTab(3))) {
        Some(DecodedPdu { serial: 8, pdu: Pdu::ErrorResponse { reason } }) => {
            assert_eq!(reason, "Error: no such tab 3")
        }
        _ => panic!("expected an error"),
    }
    match complete(9, &write, Outcome::Alive(true)) {
        Some(DecodedPdu { serial: 9, pdu: Pdu::ErrorResponse { reason } }) => {
            assert_eq!(reason, "Error: job outcome does not match the request")
        }
        _ => panic!("expected an error"),
    }
    assert!(complete(0, &Job::PushChanges { tab_id: 4 }, Outcome::Done).is_none());
}

#[test]
fn follow_ups_of_jobs() {
    let key = Job::SendKeyDown { tab_id: 2, event: KeyEvent { key: 1, modifiers: 0 }, input_serial: 42 };
    assert!(matches!(follow_up(&key, &Outcome::Done), FollowUp::ForcedPush { tab_id: 2, input_serial: 42 }));
    assert!(matches!(
        follow_up(&key, &Outcome::Failed(HandlerError::NoSuchTab(2))),
        FollowUp::Nothing
    ));
    let write = Job::SendPaste { tab_id: 3, data: "x".to_string() };
    assert!(matches!(follow_up(&write, &Outcome::Done), FollowUp::Push { tab_id: 3 }));
    let changes = Job::GetTabRenderChanges { tab_id: 4 };
    assert!(matches!(follow_up(&changes, &Outcome::Alive(true)), FollowUp::Push { tab_id: 4 }));
    assert!(matches!(follow_up(&changes, &Outcome::Alive(false)), FollowUp::Nothing));
    assert!(matches!(follow_up(&Job::ListTabs, &Outcome::Done), FollowUp::Nothing));
}

#[test]
fn forgotten_tab_starts_over() {
    let mut handler = SessionHandler::new(4, "test".to_string());
    let mut tab = tab_80x24(5);
    assert!(handler.push_tab_changes(&mut tab).is_some());
    assert!(handler.push_tab_changes(&mut tab).is_none());
    handler.forget_tab(5);
    assert!(handler.push_tab_changes(&mut tab).is_some());
}

#[test]
fn spawn_without_window_ids_fails() {
    let mut reg = Registry { windows: Vec::new(), domains: vec![1], next_window_id: u64::MAX };
    assert!(matches!(reg.prepare_spawn(1, None), Err(HandlerError::OutOfWindowIds)));
    assert!(reg.windows.is_empty());
    reg.windows.push(Window { window_id: 7, tabs: Vec::new() });
    assert!(matches!(reg.prepare_spawn(1, Some(7)), Ok(7)));
}
