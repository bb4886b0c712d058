use tiny_dfr::dispatch::{TouchAction, UiState};
use tiny_dfr::layer::{assemble_layers, rebuild_info_layer};
use tiny_dfr::niri::{
    focus_workspace_request, parse_event_line, parse_workspace, sort_workspaces, workspaces_eq,
    NiriEvent, NiriState, Workspace,
};

fn ws(id: u64, idx: u8, is_focused: bool) -> Workspace {
    Workspace { id, idx, is_focused }
}

#[test]
fn workspace_snapshot_changes_once() {
    let line = r#"{"WorkspacesChanged":{"workspaces":[{"id":1,"idx":0,"is_focused":true},{"id":2,"idx":1,"is_focused":false}]}}"#;
    let mut state = NiriState::new();
    let first = state.apply_event(parse_event_line(line));
    assert!(first);
    assert_eq!(state.workspaces.len(), 2);
    let second = state.apply_event(parse_event_line(line));
    assert!(!second);
    assert_eq!(state.workspaces, vec![ws(1, 0, true), ws(2, 1, false)]);
}

#[test]
fn workspace_snapshot_sorted_by_idx() {
    let line = r#"{"WorkspacesChanged":{"workspaces":[{"id":9,"idx":2,"is_focused":false},{"id":4,"idx":0,"is_focused":true},{"id":6,"idx":1,"is_focused":false}]}}"#;
    let mut state = NiriState::new();
    assert!(state.apply_event(parse_event_line(line)));
    let idxs: Vec<u8> = state.workspaces.iter().map(|w| w.idx).collect();
    assert_eq!(idxs, vec![0, 1, 2]);
    assert_eq!(state.workspaces[0].id, 4);
}

#[test]
fn workspace_activation_flips_focus() {
    let mut state = NiriState::new();
    state.workspaces = vec![ws(1, 0, true), ws(2, 1, false)];
    let line = r#"{"WorkspaceActivated":{"id":2,"focused":true}}"#;
    assert!(state.apply_event(parse_event_line(line)));
    assert!(!state.workspaces[0].is_focused);
    assert!(state.workspaces[1].is_focused);
    // activating the already-focused workspace changes nothing
    assert!(!state.apply_event(parse_event_line(line)));
}

#[test]
fn window_snapshot_tracks_focused_title() {
    let mut state = NiriState::new();
    let line = r#"{"WindowsChanged":{"windows":[{"id":1,"title":"editor","is_focused":false},{"id":2,"title":"terminal","is_focused":true}]}}"#;
    assert!(state.apply_event(parse_event_line(line)));
    assert_eq!(state.focused_window_title.as_deref(), Some("terminal"));
    assert!(!state.apply_event(parse_event_line(line)));
}

#[test]
fn window_focus_change_looks_title_up() {
    let mut state = NiriState::new();
    let snapshot = r#"{"WindowsChanged":{"windows":[{"id":1,"title":"editor","is_focused":false},{"id":2,"title":"terminal","is_focused":true}]}}"#;
    let _ = state.apply_event(parse_event_line(snapshot));
    let focus = r#"{"WindowFocusChanged":{"id":1}}"#;
    assert!(state.apply_event(parse_event_line(focus)));
    assert_eq!(state.focused_window_title.as_deref(), Some("editor"));
    // focusing the same window again is quiet
    assert!(!state.apply_event(parse_event_line(focus)));
    let unfocus = r#"{"WindowFocusChanged":{}}"#;
    assert!(state.apply_event(parse_event_line(unfocus)));
    assert_eq!(state.focused_window_title, None);
}

#[test]
fn window_updates_and_close() {
    let mut state = NiriState::new();
    let snapshot = r#"{"WindowsChanged":{"windows":[{"id":2,"title":"terminal","is_focused":true}]}}"#;
    let _ = state.apply_event(parse_event_line(snapshot));
    let retitle = r#"{"WindowOpenedOrChanged":{"window":{"id":2,"title":"terminal - vim"}}}"#;
    assert!(state.apply_event(parse_event_line(retitle)));
    assert_eq!(state.focused_window_title.as_deref(), Some("terminal - vim"));
    let other = r#"{"WindowOpenedOrChanged":{"window":{"id":5,"title":"browser"}}}"#;
    assert!(!state.apply_event(parse_event_line(other)));
    let close = r#"{"WindowClosed":{"id":2}}"#;
    assert!(state.apply_event(parse_event_line(close)));
    assert_eq!(state.focused_window_title, None);
    assert!(!state.apply_event(parse_event_line(close)));
}

#[test]
fn malformed_lines_are_ignored() {
    let mut state = NiriState::new();
    assert!(!state.apply_event(parse_event_line("")));
    assert!(!state.apply_event(parse_event_line("not json at all")));
    assert!(!state.apply_event(parse_event_line(r#"{"SomethingElse":{}}"#)));
    assert!(!state.apply_event(parse_event_line(r#"{"WorkspaceActivated":{"id":"oops"}}"#)));
    assert!(matches!(parse_event_line("{}"), NiriEvent::Unknown));
}

#[test]
fn event_batches_fold_in_order() {
    let mut state = NiriState::new();
    let lines = [
        r#"{"WorkspacesChanged":{"workspaces":[{"id":1,"idx":0,"is_focused":true}]}}"#,
        "garbage",
        r#"{"WindowsChanged":{"windows":[{"id":7,"title":"files","is_focused":true}]}}"#,
    ];
    let events: Vec<_> = lines.iter().map(|l| parse_event_line(l)).collect();
    assert!(state.apply_events(events));
    assert_eq!(state.workspaces.len(), 1);
    assert_eq!(state.focused_window_title.as_deref(), Some("files"));
    // the same batch again changes nothing observable
    let again: Vec<_> = lines.iter().map(|l| parse_event_line(l)).collect();
    assert!(!state.apply_events(again));
    // an empty batch never reports a change
    assert!(!state.apply_events(Vec::new()));
}

#[test]
fn workspace_parsing_and_comparison() {
    let v: serde_json::Value =
        serde_json::from_str(r#"{"id":3,"idx":1,"is_focused":true}"#).unwrap();
    assert_eq!(parse_workspace(&v), Some(ws(3, 1, true)));
    let missing: serde_json::Value = serde_json::from_str(r#"{"id":3}"#).unwrap();
    assert_eq!(parse_workspace(&missing), None);
    let no_focus: serde_json::Value =
        serde_json::from_str(r#"{"id":3,"idx":1}"#).unwrap();
    assert_eq!(parse_workspace(&no_focus), Some(ws(3, 1, false)));

    let a = vec![ws(1, 0, true), ws(2, 1, false)];
    let b = vec![ws(1, 0, true), ws(2, 1, false)];
    assert!(workspaces_eq(&a, &b));
    let c = vec![ws(1, 0, false), ws(2, 1, false)];
    assert!(!workspaces_eq(&a, &c));
    assert!(!workspaces_eq(&a, &a[..1]));
}

#[test]
fn sorting_is_stable_by_idx() {
    let sorted = sort_workspaces(vec![ws(9, 2, false), ws(4, 0, true), ws(6, 1, false)]);
    assert_eq!(sorted, vec![ws(4, 0, true), ws(6, 1, false), ws(9, 2, false)]);
    let ties = sort_workspaces(vec![ws(1, 1, false), ws(2, 1, false), ws(3, 0, false)]);
    assert_eq!(ties, vec![ws(3, 0, false), ws(1, 1, false), ws(2, 1, false)]);
}

#[test]
fn focus_request_wire_format() {
    assert_eq!(
        focus_workspace_request(3),
        "{\"Action\":{\"FocusWorkspace\":{\"reference\":{\"Index\":3}}}}\n"
    );
    assert_eq!(
        focus_workspace_request(42),
        "{\"Action\":{\"FocusWorkspace\":{\"reference\":{\"Index\":42}}}}\n"
    );
    assert_eq!(
        focus_workspace_request(255),
        "{\"Action\":{\"FocusWorkspace\":{\"reference\":{\"Index\":255}}}}\n"
    );
}

#[test]
fn info_layer_rebuild_splices_workspaces() {
    let mut layers = assemble_layers(
        vec![{
            let mut c = tiny_dfr::config::empty_button_config();
            c.text = Some("F1".to_string());
            c
        }],
        None,
        vec![{
            let mut c = tiny_dfr::config::empty_button_config();
            c.text = Some("play".to_string());
            c
        }],
        2008,
        None,
    )
    .unwrap();
    let mut niri = NiriState::new();
    let line = r#"{"WorkspacesChanged":{"workspaces":[{"id":1,"idx":0,"is_focused":true},{"id":2,"idx":1,"is_focused":false}]}}"#;
    let _ = niri.apply_event(parse_event_line(line));
    niri.focused_window_title = Some("editor".to_string());

    assert!(rebuild_info_layer(&mut layers, &niri, None));
    let info = &layers[1];
    // two workspace buttons, the title, and the clock
    assert_eq!(info.buttons.len(), 4);
    assert_eq!(info.niri_workspace_ids, vec![(0, 0), (1, 1)]);
    assert_eq!(info.buttons[0].0, 0);
    assert_eq!(info.buttons[1].0, 1);
    // the title takes its six units, then the clock
    assert_eq!(info.buttons[2].0, 2);
    assert_eq!(info.buttons[3].0, 8);
    assert_eq!(info.virtual_button_count, 12);
    // the template survives for the next rebuild
    assert_eq!(info.source_config.len(), 3);
    assert!(info.displays_time);
    assert!(info.faster_refresh);
}

#[test]
fn rebuild_keeps_any_sub_minute_clock() {
    let clock = |fmt: &str, stretch: usize| {
        let mut c = tiny_dfr::config::empty_button_config();
        c.time = Some(fmt.to_string());
        c.stretch = Some(stretch);
        c
    };
    let mut layers = assemble_layers(
        vec![{
            let mut c = tiny_dfr::config::empty_button_config();
            c.text = Some("F1".to_string());
            c
        }],
        // the seconds clock comes before a minutes clock: the layer still
        // needs sub-minute refresh after a rebuild
        Some(vec![clock("%H:%M:%S", 1), clock("%H:%M", 1)]),
        vec![{
            let mut c = tiny_dfr::config::empty_button_config();
            c.text = Some("play".to_string());
            c
        }],
        2008,
        None,
    )
    .unwrap();
    assert!(layers[1].faster_refresh);
    let niri = NiriState::new();
    assert!(rebuild_info_layer(&mut layers, &niri, None));
    assert!(layers[1].displays_time);
    assert!(layers[1].faster_refresh);
}

#[test]
fn touching_workspace_button_focuses_it() {
    let layers = assemble_layers(
        vec![{
            let mut c = tiny_dfr::config::empty_button_config();
            c.text = Some("F1".to_string());
            c
        }],
        None,
        vec![{
            let mut c = tiny_dfr::config::empty_button_config();
            c.text = Some("play".to_string());
            c
        }],
        2008,
        None,
    )
    .unwrap();
    let mut layers = layers;
    let mut niri = NiriState::new();
    let line = r#"{"WorkspacesChanged":{"workspaces":[{"id":1,"idx":0,"is_focused":true},{"id":2,"idx":1,"is_focused":false}]}}"#;
    let _ = niri.apply_event(parse_event_line(line));
    assert!(rebuild_info_layer(&mut layers, &niri, None));

    let mut state = UiState::new(layers);
    state.active_layer = 1;
    // the second workspace button spans one of twelve units of 2008 px
    let (hit, action) = state.handle_touch_down(1, 180, 30, 2008, 60);
    assert_eq!(hit, Some(1));
    match action {
        Some(TouchAction::FocusWorkspace(idx)) => assert_eq!(idx, 1),
        _ => panic!("expected a workspace focus action"),
    }
}
