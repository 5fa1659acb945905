use pmd::config::{Config, Keymap};
use pmd::server::{Breakpoint, Callstack};
use pmd::ui::keymap::{
    breakpoint_popup, callstack_popup, chord_is_open, frame, handle_keymap_event,
    inspection_keymap,
    normal_keymap, sync_selection, visual_keymap, InputMode, Key, KeyOutcome, ListMode,
    LEADER_TIMEOUT_MS,
};
use pmd::ui::layout::tree::TreeNode;
use pmd::ui::UiState;

fn stack_frame(filepath: &str, line: &str) -> Callstack {
    Callstack { filepath: filepath.to_string(), line: line.to_string() }
}

fn breakpoint(filepath: &str, payload: &str, callstack: Vec<Callstack>) -> Breakpoint {
    Breakpoint {
        filepath: filepath.to_string(),
        line: "7".to_string(),
        connector_type: "python".to_string(),
        payload: payload.to_string(),
        timestamp: "12:00:00".to_string(),
        callstack,
    }
}

fn posted() -> Vec<Breakpoint> {
    vec![
        breakpoint("/a.py", "{\"x\": 1}", vec![stack_frame("/a.py", "1"), stack_frame("/lib.py", "20")]),
        breakpoint("/b.py", "{\"y\": {\"z\": \"w\"}}", vec![stack_frame("/b.py", "2")]),
        breakpoint("/c.py", "not json", vec![]),
    ]
}

fn session() -> UiState {
    let mut state = UiState::new(Config::new());
    state.refresh(posted());
    state
}

fn press(state: &mut UiState, key: char, now: u64) -> KeyOutcome {
    handle_keymap_event(state, Key::Char(key), now)
}

#[test]
fn session_starts_in_normal_mode_with_nothing_selected() {
    let mut state = UiState::new(Config::new());
    assert_eq!(state.input_mode, InputMode::Normal);
    assert_eq!(state.list_mode, ListMode::Breakpoint);
    assert_eq!(state.leader_tick_time, None);
    assert_eq!(state.list_state.breakpoint.selected(), None);
    assert!(state.list_state.breakpoint.items().is_empty());
    assert!(state.list_state.callstack.items().is_empty());
    assert!(state.tree_state.items.is_empty());
    assert!(state.tree_state.state.selected().is_empty());
    assert!(!state.popup.is_active());
    assert_eq!(state.status_bar.get_status(), "");
    assert_eq!(state.config.port, 6969);
}

#[test]
fn refresh_shows_breakpoints_in_arrival_order() {
    let state = session();
    let shown: Vec<&str> =
        state.list_state.breakpoint.items().iter().map(|b| b.filepath.as_str()).collect();
    assert_eq!(shown, vec!["/a.py", "/b.py", "/c.py"]);
}

#[test]
fn refresh_keeps_the_cursor_in_place() {
    let mut state = session();
    press(&mut state, 'j', 10);
    press(&mut state, 'j', 20);
    let mut more = posted();
    more.push(breakpoint("/d.py", "", vec![]));
    state.refresh(more);
    assert_eq!(state.list_state.breakpoint.selected(), Some(1));
    assert_eq!(state.list_state.breakpoint.items().len(), 4);
}

#[test]
fn navigation_syncs_callstack_and_tree() {
    let mut state = session();
    assert_eq!(press(&mut state, 'j', 10), KeyOutcome::Continue);
    assert_eq!(state.list_state.breakpoint.selected(), Some(0));
    assert_eq!(
        state.list_state.callstack.items(),
        &vec![stack_frame("/a.py", "1"), stack_frame("/lib.py", "20")]
    );
    assert_eq!(
        state.tree_state.items,
        vec![TreeNode {
            label: "x".to_string(),
            children: vec![TreeNode { label: "1".to_string(), children: vec![] }],
        }]
    );
    handle_keymap_event(&mut state, Key::Down, 20);
    assert_eq!(state.list_state.breakpoint.selected(), Some(1));
    assert_eq!(state.list_state.callstack.items(), &vec![stack_frame("/b.py", "2")]);
    assert_eq!(state.tree_state.items.len(), 1);
    assert_eq!(state.tree_state.items[0].label, "y");
    assert_eq!(state.tree_state.items[0].children[0].label, "z");
    handle_keymap_event(&mut state, Key::Up, 30);
    assert_eq!(state.list_state.breakpoint.selected(), Some(0));
    press(&mut state, 'k', 40);
    assert_eq!(state.list_state.breakpoint.selected(), Some(2));
}

#[test]
fn malformed_payload_empties_the_tree_and_says_so() {
    let mut state = session();
    press(&mut state, 'k', 10);
    press(&mut state, 'k', 20);
    assert_eq!(state.list_state.breakpoint.selected(), Some(2));
    assert!(state.tree_state.items.is_empty());
    assert!(state.list_state.callstack.items().is_empty());
    assert_eq!(state.status_bar.get_status(), "Malformed payload");
    assert_eq!(state.input_mode, InputMode::Normal);
}

#[test]
fn navigation_on_an_empty_session_changes_nothing() {
    let mut state = UiState::new(Config::new());
    press(&mut state, 'j', 1);
    press(&mut state, 'k', 2);
    assert_eq!(state.list_state.breakpoint.selected(), None);
    assert!(state.tree_state.items.is_empty());
    assert_eq!(state.status_bar.get_status(), "");
}

#[test]
fn leader_chord_expires_after_the_timeout() {
    let mut state = session();
    press(&mut state, ',', 5_000);
    assert_eq!(state.leader_tick_time, Some(5_000));
    press(&mut state, 'l', 6_001);
    assert_eq!(state.list_mode, ListMode::Breakpoint);
    press(&mut state, ',', 7_000);
    press(&mut state, 'l', 7_500);
    assert_eq!(state.list_mode, ListMode::Callstack);
}

#[test]
fn list_switch_keys_need_the_leader_key() {
    let mut state = session();
    press(&mut state, 'l', 0);
    assert_eq!(state.list_mode, ListMode::Breakpoint);
    press(&mut state, 'l', 500);
    assert_eq!(state.list_mode, ListMode::Breakpoint);
    press(&mut state, 'h', 600);
    assert_eq!(state.list_mode, ListMode::Breakpoint);
    assert_eq!(state.leader_tick_time, None);
}

#[test]
fn leader_chord_holds_at_exactly_the_timeout() {
    let mut state = session();
    press(&mut state, ',', 5_000);
    press(&mut state, 'l', 5_000 + LEADER_TIMEOUT_MS);
    assert_eq!(state.list_mode, ListMode::Callstack);
    assert!(chord_is_open(Some(10), 1_010));
    assert!(!chord_is_open(Some(10), 1_011));
    assert!(chord_is_open(Some(10), 10));
    assert!(chord_is_open(Some(10), 3));
    assert!(!chord_is_open(None, 0));
    assert_eq!(LEADER_TIMEOUT_MS, 1000);
}

#[test]
fn switch_back_is_gated_by_the_chord_too() {
    let mut state = session();
    press(&mut state, ',', 100);
    press(&mut state, 'l', 200);
    assert_eq!(state.list_mode, ListMode::Callstack);
    press(&mut state, 'h', 5_000);
    assert_eq!(state.list_mode, ListMode::Callstack);
    press(&mut state, ',', 6_000);
    press(&mut state, 'h', 6_100);
    assert_eq!(state.list_mode, ListMode::Breakpoint);
}

#[test]
fn switching_views_keeps_the_breakpoint_cursor() {
    let mut state = session();
    press(&mut state, 'j', 10);
    press(&mut state, 'j', 20);
    assert_eq!(state.list_state.breakpoint.selected(), Some(1));
    press(&mut state, ',', 100);
    press(&mut state, 'l', 200);
    assert_eq!(state.list_mode, ListMode::Callstack);
    assert_eq!(state.list_state.breakpoint.anchor(), Some(1));
    assert_eq!(state.list_state.callstack.selected(), Some(0));
    press(&mut state, 'j', 300);
    assert_eq!(state.list_state.callstack.selected(), Some(0));
    assert_eq!(state.list_state.breakpoint.selected(), Some(1));
    press(&mut state, ',', 400);
    press(&mut state, 'h', 500);
    assert_eq!(state.list_mode, ListMode::Breakpoint);
    assert_eq!(state.list_state.breakpoint.selected(), Some(1));
    assert_eq!(state.list_state.callstack.selected(), None);
    assert_eq!(state.list_state.callstack.items(), &vec![stack_frame("/b.py", "2")]);
}

#[test]
fn callstack_view_moves_the_frame_cursor_only() {
    let mut state = session();
    press(&mut state, 'j', 10);
    press(&mut state, ',', 100);
    press(&mut state, 'l', 200);
    press(&mut state, 'j', 300);
    assert_eq!(state.list_state.callstack.selected(), Some(1));
    press(&mut state, 'j', 310);
    assert_eq!(state.list_state.callstack.selected(), Some(0));
    press(&mut state, 'k', 320);
    assert_eq!(state.list_state.callstack.selected(), Some(1));
    assert_eq!(state.list_state.breakpoint.selected(), Some(0));
}

#[test]
fn visual_key_shows_the_selected_breakpoint() {
    let mut state = session();
    press(&mut state, 'j', 10);
    press(&mut state, 'j', 20);
    assert_eq!(press(&mut state, 'v', 30), KeyOutcome::Continue);
    assert_eq!(state.input_mode, InputMode::Visual);
    assert!(state.popup.is_active());
    let text = state.popup.get_text();
    assert!(text.contains(&"[FILE]: /b.py".to_string()));
    assert_eq!(
        text,
        vec!["[FILE]: /b.py", "[LINE]: 7", "[TIME]: 12:00:00", "[CONNECTOR]: python"]
    );
    assert_eq!(state.status_bar.get_status(), ":Visual");
}

#[test]
fn visual_key_shows_the_selected_frame() {
    let mut state = session();
    press(&mut state, 'j', 10);
    press(&mut state, ',', 100);
    press(&mut state, 'l', 200);
    press(&mut state, 'j', 300);
    press(&mut state, 'v', 400);
    assert_eq!(state.input_mode, InputMode::Visual);
    assert_eq!(state.popup.get_text(), vec!["[FILE]: /lib.py", "[LINE]: 20"]);
}

#[test]
fn visual_key_with_nothing_selected_changes_nothing() {
    let mut state = session();
    assert_eq!(press(&mut state, 'v', 10), KeyOutcome::Continue);
    assert_eq!(state.input_mode, InputMode::Normal);
    assert!(!state.popup.is_active());
    assert!(state.popup.get_text().is_empty());
    assert_eq!(state.status_bar.get_status(), "");
}

#[test]
fn escape_leaves_visual_mode_and_drops_the_popup() {
    let mut state = session();
    press(&mut state, 'j', 10);
    press(&mut state, 'v', 20);
    press(&mut state, 'j', 30);
    assert_eq!(state.list_state.breakpoint.selected(), Some(0));
    assert_eq!(state.input_mode, InputMode::Visual);
    assert_eq!(handle_keymap_event(&mut state, Key::Esc, 40), KeyOutcome::Continue);
    assert_eq!(state.input_mode, InputMode::Normal);
    assert!(!state.popup.is_active());
    assert!(state.popup.get_text().is_empty());
    assert_eq!(state.status_bar.get_status(), ":Normal");
}

#[test]
fn escape_in_normal_mode_drops_an_active_popup() {
    let mut state = session();
    state.popup.show();
    state.popup.set_text(vec!["left over".to_string()]);
    assert_eq!(normal_keymap(Key::Esc, &mut state, 10), KeyOutcome::Continue);
    assert!(!state.popup.is_active());
    assert!(state.popup.get_text().is_empty());
    assert_eq!(state.input_mode, InputMode::Normal);
}

#[test]
fn inspect_key_enters_inspection_and_escape_leaves_it() {
    let mut state = session();
    press(&mut state, 'i', 10);
    assert_eq!(state.input_mode, InputMode::Inspection);
    assert_eq!(state.status_bar.get_status(), ":Inspection");
    handle_keymap_event(&mut state, Key::Esc, 20);
    assert_eq!(state.input_mode, InputMode::Normal);
    assert_eq!(state.status_bar.get_status(), ":Normal");
}

#[test]
fn quit_key_quits_in_every_mode() {
    let mut state = session();
    assert_eq!(press(&mut state, 'q', 10), KeyOutcome::Quit);
    press(&mut state, 'i', 20);
    assert_eq!(press(&mut state, 'q', 30), KeyOutcome::Quit);
    assert_eq!(state.input_mode, InputMode::Inspection);
    handle_keymap_event(&mut state, Key::Esc, 40);
    press(&mut state, 'j', 50);
    press(&mut state, 'v', 60);
    assert_eq!(state.input_mode, InputMode::Visual);
    assert_eq!(press(&mut state, 'q', 70), KeyOutcome::Quit);
    assert_eq!(visual_keymap(Key::Char('x'), &mut state), KeyOutcome::Continue);
}

#[test]
fn leader_key_comes_before_every_other_binding() {
    let config = Config { port: 1, keymap: Keymap { leader_key: 'q' } };
    let mut state = UiState::new(config);
    assert_eq!(press(&mut state, 'q', 77), KeyOutcome::Continue);
    assert_eq!(state.leader_tick_time, Some(77));
    let config = Config { port: 1, keymap: Keymap { leader_key: 'l' } };
    let mut state = UiState::new(config);
    press(&mut state, 'l', 10);
    assert_eq!(state.list_mode, ListMode::Breakpoint);
    assert_eq!(state.leader_tick_time, Some(10));
}

#[test]
fn other_keys_do_nothing() {
    let mut state = session();
    press(&mut state, 'j', 10);
    assert_eq!(handle_keymap_event(&mut state, Key::Other, 20), KeyOutcome::Continue);
    assert_eq!(handle_keymap_event(&mut state, Key::Left, 30), KeyOutcome::Continue);
    assert_eq!(press(&mut state, 'x', 40), KeyOutcome::Continue);
    assert_eq!(state.list_state.breakpoint.selected(), Some(0));
    assert_eq!(state.input_mode, InputMode::Normal);
    assert_eq!(state.list_mode, ListMode::Breakpoint);
}

#[test]
fn inspection_keys_move_the_tree_cursor() {
    let mut state = session();
    press(&mut state, 'j', 10);
    press(&mut state, 'j', 20);
    press(&mut state, 'i', 30);
    assert!(state.tree_state.state.selected().is_empty());
    press(&mut state, 'j', 40);
    assert_eq!(state.tree_state.state.selected(), vec![0]);
    press(&mut state, 'l', 50);
    assert_eq!(state.tree_state.state.get_all_opened(), vec![vec![0]]);
    press(&mut state, 'j', 60);
    assert_eq!(state.tree_state.state.selected(), vec![0, 0]);
    handle_keymap_event(&mut state, Key::Down, 70);
    assert_eq!(state.tree_state.state.selected(), vec![0, 0]);
    press(&mut state, 'k', 80);
    assert_eq!(state.tree_state.state.selected(), vec![0]);
    handle_keymap_event(&mut state, Key::Up, 90);
    assert_eq!(state.tree_state.state.selected(), vec![0]);
    press(&mut state, 'h', 100);
    assert!(state.tree_state.state.get_all_opened().is_empty());
    assert_eq!(state.tree_state.state.selected(), vec![0]);
    press(&mut state, 'h', 110);
    assert!(state.tree_state.state.selected().is_empty());
}

#[test]
fn inspection_arrows_do_what_h_and_l_do() {
    let mut state = session();
    press(&mut state, 'j', 10);
    press(&mut state, 'j', 20);
    press(&mut state, 'i', 30);
    press(&mut state, 'j', 40);
    assert_eq!(inspection_keymap(Key::Right, &mut state), KeyOutcome::Continue);
    assert_eq!(state.tree_state.state.get_all_opened(), vec![vec![0]]);
    assert_eq!(state.tree_state.state.selected(), vec![0]);
    assert_eq!(inspection_keymap(Key::Right, &mut state), KeyOutcome::Continue);
    assert_eq!(state.tree_state.state.get_all_opened(), vec![vec![0]]);
    assert_eq!(inspection_keymap(Key::Left, &mut state), KeyOutcome::Continue);
    assert!(state.tree_state.state.get_all_opened().is_empty());
    assert_eq!(state.tree_state.state.selected(), vec![0]);
    assert_eq!(inspection_keymap(Key::Left, &mut state), KeyOutcome::Continue);
    assert!(state.tree_state.state.selected().is_empty());
    assert_eq!(state.input_mode, InputMode::Inspection);
}

#[test]
fn inspection_on_an_empty_tree_changes_nothing() {
    let mut state = UiState::new(Config::new());
    press(&mut state, 'i', 10);
    press(&mut state, 'j', 20);
    press(&mut state, 'k', 30);
    handle_keymap_event(&mut state, Key::Down, 40);
    handle_keymap_event(&mut state, Key::Up, 50);
    assert!(state.tree_state.state.selected().is_empty());
    assert_eq!(state.input_mode, InputMode::Inspection);
}

#[test]
fn three_posted_breakpoints_end_to_end() {
    let mut state = UiState::new(Config::new());
    state.refresh(vec![
        breakpoint("/a.py", "", vec![]),
        breakpoint("/b.py", "", vec![]),
        breakpoint("/c.py", "", vec![]),
    ]);
    let shown: Vec<String> =
        state.list_state.breakpoint.items().iter().map(|b| b.filepath.clone()).collect();
    assert_eq!(shown, vec!["/a.py", "/b.py", "/c.py"]);
    press(&mut state, 'j', 10);
    press(&mut state, 'j', 20);
    assert_eq!(state.list_state.breakpoint.selected(), Some(1));
    press(&mut state, 'v', 30);
    assert!(state.popup.is_active());
    assert!(state.popup.get_text().contains(&"[FILE]: /b.py".to_string()));
}

#[test]
fn popup_lines_are_labelled() {
    let shown = breakpoint("/src/main.py", "", vec![]);
    assert_eq!(
        breakpoint_popup(&shown),
        vec!["[FILE]: /src/main.py", "[LINE]: 7", "[TIME]: 12:00:00", "[CONNECTOR]: python"]
    );
    assert_eq!(callstack_popup(&stack_frame("/f.py", "33")), vec!["[FILE]: /f.py", "[LINE]: 33"]);
}

#[test]
fn sync_follows_the_selected_breakpoint() {
    let mut state = session();
    state.list_state.breakpoint.next();
    sync_selection(&mut state);
    assert_eq!(state.list_state.callstack.items().len(), 2);
    assert_eq!(state.tree_state.items.len(), 1);
    state.list_state.breakpoint.unselect();
    sync_selection(&mut state);
    assert!(state.list_state.callstack.items().is_empty());
    assert!(state.tree_state.items.is_empty());
    assert_eq!(state.status_bar.get_status(), "");
}

#[test]
fn mode_names_are_shown_as_written() {
    assert_eq!(InputMode::Normal.to_string(), "Normal");
    assert_eq!(InputMode::Inspection.to_string(), "Inspection");
    assert_eq!(InputMode::Visual.to_string(), "Visual");
}

#[test]
fn frame_handles_the_key_then_takes_the_snapshot() {
    let mut state = UiState::new(Config::new());
    assert_eq!(frame(&mut state, None, 0, posted()), KeyOutcome::Continue);
    assert_eq!(state.list_state.breakpoint.items().len(), 3);
    assert_eq!(state.list_state.breakpoint.selected(), None);
    let mut more = posted();
    more.push(breakpoint("/d.py", "\"late\"", vec![]));
    assert_eq!(frame(&mut state, Some(Key::Char('k')), 10, more), KeyOutcome::Continue);
    assert_eq!(state.list_state.breakpoint.selected(), Some(0));
    assert_eq!(state.list_state.breakpoint.items().len(), 4);
    assert_eq!(state.list_state.callstack.items().len(), 2);
    assert_eq!(frame(&mut state, Some(Key::Char('k')), 20, posted()), KeyOutcome::Continue);
    assert_eq!(state.list_state.breakpoint.selected(), None);
    assert_eq!(frame(&mut state, Some(Key::Char('q')), 30, posted()), KeyOutcome::Quit);
}
