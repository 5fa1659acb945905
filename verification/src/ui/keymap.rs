//! Keys, input modes, and what each key does in each mode.

use crate::server::{breakpoints_view, Breakpoint, BreakpointView, Callstack, CallstackView};
use crate::ui::layout::tree::{
    build_tree, is_malformed, lemma_sentinel_tree_is_empty, nodes_view, tree_of_payload, TreeNode,
};
use crate::ui::layout::{
    first_index, kept_index, next_index, previous_index, BreakpointListView, CallstackListView,
};
use crate::ui::{
    initial_view, lines_view, refreshed, PopupView, StatefulTreeView, UiState, UiStateView,
};
use vstd::prelude::*;

verus! {

/// How key presses are interpreted.
#[derive(Debug, Clone, Copy, PartialEq, Eq, Hash, Structural)]
pub enum InputMode {
    Normal,
    Inspection,
    Visual,
}

/// Which of the two lists the navigation keys move in.
#[derive(Debug, Clone, Copy, PartialEq, Eq, Hash, Structural)]
pub enum ListMode {
    Breakpoint,
    Callstack,
}

/// The name of a mode as the status line shows it.
pub open spec fn mode_name(mode: InputMode) -> Seq<char> {
    match mode {
        InputMode::Normal => "Normal"@,
        InputMode::Inspection => "Inspection"@,
        InputMode::Visual => "Visual"@,
    }
}

impl InputMode {
    pub fn to_string(&self) -> (name: String)
        ensures
            name@ == mode_name(*self),
    {
        match self {
            InputMode::Normal => String::from_str("Normal"),
            InputMode::Inspection => String::from_str("Inspection"),
            InputMode::Visual => String::from_str("Visual"),
        }
    }
}

/// A key press, as far as the session tells keys apart.
#[derive(Debug, Clone, Copy, PartialEq, Eq, Hash, Structural)]
pub enum Key {
    Char(char),
    Esc,
    Up,
    Down,
    Left,
    Right,
    Other,
}

/// What the caller has to do after a key press.
#[derive(Debug, Clone, Copy, PartialEq, Eq, Hash, Structural)]
pub enum KeyOutcome {
    /// Go on with the session.
    Continue,
    /// Restore the terminal and end the process.
    Quit,
}

/// For how many milliseconds after the leader key the second key of a
/// chord is honoured.
pub const LEADER_TIMEOUT_MS: u64 = 1000;

/// Whether a key pressed at `now` belongs to a chord: the leader key was
/// pressed, and no more than the timeout before `now`.
pub open spec fn chord_open(leader_tick_time: Option<u64>, now: u64) -> bool {
    match leader_tick_time {
        Some(armed) => now <= armed || now - armed <= LEADER_TIMEOUT_MS,
        None => false,
    }
}

/// The status line of a mode: a colon and the mode's name.
pub open spec fn mode_status(mode: InputMode) -> Seq<char> {
    ":"@ + mode_name(mode)
}

/// The status line after a payload was found to be malformed.
pub open spec fn malformed_notice() -> Seq<char> {
    "Malformed payload"@
}

/// The popup lines for a breakpoint.
pub open spec fn breakpoint_details(breakpoint: BreakpointView) -> Seq<Seq<char>> {
    seq![
        "[FILE]: "@ + breakpoint.filepath,
        "[LINE]: "@ + breakpoint.line,
        "[TIME]: "@ + breakpoint.timestamp,
        "[CONNECTOR]: "@ + breakpoint.connector_type,
    ]
}

/// The popup lines for a call stack frame.
pub open spec fn callstack_details(frame: CallstackView) -> Seq<Seq<char>> {
    seq!["[FILE]: "@ + frame.filepath, "[LINE]: "@ + frame.line]
}

/// The session after the call stack list and the inspection tree were
/// brought in line with the selected breakpoint: the list shows its call
/// stack, the tree its payload. A malformed payload leaves the tree empty
/// and puts a notice on the status line.
pub open spec fn synced(s: UiStateView) -> UiStateView {
    UiStateView {
        callstack: CallstackListView {
            items: s.breakpoint.callstack(),
            selected: kept_index(s.breakpoint.callstack().len(), s.callstack.selected),
        },
        tree: StatefulTreeView { items: tree_of_payload(s.breakpoint.value()), ..s.tree },
        status: if is_malformed(s.breakpoint.value()) {
            malformed_notice()
        } else {
            s.status
        },
        ..s
    }
}

/// The session after the view moved to the call stack: the breakpoint
/// cursor's position is remembered, the first frame is selected.
pub open spec fn switched_to_callstack(s: UiStateView) -> UiStateView {
    UiStateView {
        breakpoint: BreakpointListView { anchor: s.breakpoint.selected, ..s.breakpoint },
        callstack: CallstackListView {
            selected: first_index(s.callstack.items.len(), s.callstack.selected),
            ..s.callstack
        },
        list_mode: ListMode::Callstack,
        ..s
    }
}

/// The session after the view moved back to the breakpoints: the frame
/// cursor is cleared, the breakpoint cursor is back on the remembered
/// position, and the call stack and the tree follow it.
pub open spec fn switched_to_breakpoint(s: UiStateView) -> UiStateView {
    synced(
        UiStateView {
            breakpoint: BreakpointListView { selected: s.breakpoint.anchor, ..s.breakpoint },
            callstack: CallstackListView { selected: None, ..s.callstack },
            list_mode: ListMode::Breakpoint,
            ..s
        },
    )
}

/// The session after a step down in the active list.
pub open spec fn moved_down(s: UiStateView) -> UiStateView {
    match s.list_mode {
        ListMode::Breakpoint => synced(
            UiStateView {
                breakpoint: BreakpointListView {
                    selected: next_index(s.breakpoint.items.len(), s.breakpoint.selected),
                    ..s.breakpoint
                },
                ..s
            },
        ),
        ListMode::Callstack => UiStateView {
            callstack: CallstackListView {
                selected: next_index(s.callstack.items.len(), s.callstack.selected),
                ..s.callstack
            },
            ..s
        },
    }
}

/// The session after a step up in the active list.
pub open spec fn moved_up(s: UiStateView) -> UiStateView {
    match s.list_mode {
        ListMode::Breakpoint => synced(
            UiStateView {
                breakpoint: BreakpointListView {
                    selected: previous_index(s.breakpoint.items.len(), s.breakpoint.selected),
                    ..s.breakpoint
                },
                ..s
            },
        ),
        ListMode::Callstack => UiStateView {
            callstack: CallstackListView {
                selected: previous_index(s.callstack.items.len(), s.callstack.selected),
                ..s.callstack
            },
            ..s
        },
    }
}

/// The popup lines for what is selected in the active list, if anything is.
pub open spec fn selected_details(s: UiStateView) -> Option<Seq<Seq<char>>> {
    match s.list_mode {
        ListMode::Breakpoint => match s.breakpoint.selected_item() {
            Some(breakpoint) => Some(breakpoint_details(breakpoint)),
            None => None,
        },
        ListMode::Callstack => match s.callstack.selected_item() {
            Some(frame) => Some(callstack_details(frame)),
            None => None,
        },
    }
}

/// The session after a mode was entered: the status line names the mode.
pub open spec fn entered(s: UiStateView, mode: InputMode) -> UiStateView {
    UiStateView { input_mode: mode, status: mode_status(mode), ..s }
}

/// The session after the visual key: the popup shows the selected item's
/// details and the mode is Visual. With nothing selected, nothing changes.
pub open spec fn entered_visual(s: UiStateView) -> UiStateView {
    match selected_details(s) {
        Some(text) => entered(
            UiStateView { popup: PopupView { show: true, text }, ..s },
            InputMode::Visual,
        ),
        None => s,
    }
}

/// The session with the popup hidden and its text dropped.
pub open spec fn dismissed(s: UiStateView) -> UiStateView {
    UiStateView { popup: PopupView { show: false, text: Seq::empty() }, ..s }
}

/// What a key pressed at `now` does to a session in Normal mode.
pub open spec fn normal_step(s: UiStateView, key: Key, now: u64) -> UiStateView {
    if key == Key::Char(s.leader_key) {
        UiStateView { leader_tick_time: Some(now), ..s }
    } else if key == Key::Char('l') {
        if chord_open(s.leader_tick_time, now) {
            switched_to_callstack(s)
        } else {
            s
        }
    } else if key == Key::Char('h') {
        if chord_open(s.leader_tick_time, now) {
            switched_to_breakpoint(s)
        } else {
            s
        }
    } else if key == Key::Char('j') || key == Key::Down {
        moved_down(s)
    } else if key == Key::Char('k') || key == Key::Up {
        moved_up(s)
    } else if key == Key::Char('v') {
        entered_visual(s)
    } else if key == Key::Char('i') {
        entered(s, InputMode::Inspection)
    } else if key == Key::Esc && s.popup.show {
        dismissed(s)
    } else {
        s
    }
}

/// Whether a key ends the session in Normal mode: the quit key does, unless
/// it is the leader key.
pub open spec fn normal_quits(s: UiStateView, key: Key) -> bool {
    key == Key::Char('q') && s.leader_key != 'q'
}

/// What a key does to a session in Inspection mode.
pub open spec fn inspection_step(s: UiStateView, key: Key) -> UiStateView {
    if key == Key::Esc {
        entered(s, InputMode::Normal)
    } else if key == Key::Char('l') || key == Key::Right {
        UiStateView { tree: s.tree.right(), ..s }
    } else if key == Key::Char('h') || key == Key::Left {
        UiStateView { tree: s.tree.left(), ..s }
    } else if key == Key::Char('j') || key == Key::Down {
        UiStateView { tree: s.tree.down(), ..s }
    } else if key == Key::Char('k') || key == Key::Up {
        UiStateView { tree: s.tree.up(), ..s }
    } else {
        s
    }
}

/// What a key does to a session in Visual mode.
pub open spec fn visual_step(s: UiStateView, key: Key) -> UiStateView {
    if key == Key::Esc {
        entered(dismissed(s), InputMode::Normal)
    } else {
        s
    }
}

/// What a key pressed at `now` does to a session, whatever its mode.
pub open spec fn key_step(s: UiStateView, key: Key, now: u64) -> UiStateView {
    match s.input_mode {
        InputMode::Normal => normal_step(s, key, now),
        InputMode::Inspection => inspection_step(s, key),
        InputMode::Visual => visual_step(s, key),
    }
}

/// Whether a key ends the session.
pub open spec fn key_quits(s: UiStateView, key: Key) -> bool {
    match s.input_mode {
        InputMode::Normal => normal_quits(s, key),
        _ => key == Key::Char('q'),
    }
}

/// What holds of a session at every moment: both cursors point into their
/// lists; the call stack list and the inspection tree show the selected
/// breakpoint; no frame is selected while the breakpoint list is active; and
/// the popup is shown exactly in Visual mode.
pub open spec fn consistent(s: UiStateView) -> bool {
    &&& s.breakpoint.wf()
    &&& s.callstack.wf()
    &&& s.callstack.items == s.breakpoint.callstack()
    &&& s.tree.items == tree_of_payload(s.breakpoint.value())
    &&& s.list_mode == ListMode::Breakpoint ==> s.callstack.selected is None
    &&& s.popup.show <==> s.input_mode == InputMode::Visual
}

/// A new session is consistent.
pub proof fn lemma_initial_state_is_consistent(leader_key: char, port: u16)
    ensures
        consistent(initial_view(leader_key, port)),
{
    lemma_sentinel_tree_is_empty();
}

/// No key breaks the consistency of a session, in whatever mode and at
/// whatever time it is pressed.
pub proof fn lemma_keys_keep_consistency(s: UiStateView, key: Key, now: u64)
    requires
        consistent(s),
    ensures
        consistent(key_step(s, key, now)),
{
}

/// A snapshot that only adds breakpoints behind those that were there, as
/// every snapshot of a store that only grows does, keeps a session
/// consistent and leaves its cursor on the same breakpoint.
pub proof fn lemma_refresh_keeps_consistency(s: UiStateView, snapshot: Seq<BreakpointView>)
    requires
        consistent(s),
        s.breakpoint.items.len() <= snapshot.len(),
        snapshot.subrange(0, s.breakpoint.items.len() as int) == s.breakpoint.items,
    ensures
        consistent(refreshed(s, snapshot)),
        refreshed(s, snapshot).breakpoint.selected == s.breakpoint.selected,
        refreshed(s, snapshot).breakpoint.selected_item() == s.breakpoint.selected_item(),
{
    match s.breakpoint.selected {
        Some(i) => {
            assert(snapshot.subrange(0, s.breakpoint.items.len() as int)[i as int] == snapshot[i as int]);
        },
        None => {},
    }
}

/// Moving to the call stack and back leaves the breakpoint cursor where it
/// was, whatever was or was not selected.
pub proof fn lemma_anchor_round_trip(s: UiStateView)
    ensures
        switched_to_breakpoint(switched_to_callstack(s)).breakpoint.selected
            == s.breakpoint.selected,
        switched_to_breakpoint(switched_to_callstack(s)).list_mode == ListMode::Breakpoint,
{
}

/// The same by keys: with the chord open at both times, `l` and then `h`
/// leave the breakpoint cursor where it was, as long as neither is the
/// leader key.
pub proof fn lemma_anchor_round_trip_by_keys(s: UiStateView, first: u64, second: u64)
    requires
        s.leader_key != 'l',
        s.leader_key != 'h',
        chord_open(s.leader_tick_time, first),
        chord_open(s.leader_tick_time, second),
    ensures
        normal_step(normal_step(s, Key::Char('l'), first), Key::Char('h'), second).breakpoint.selected
            == s.breakpoint.selected,
{
}

/// After the leader key at `armed`, a list-switch key at `now` switches the
/// list if it comes within the timeout, and does nothing if it comes later.
pub proof fn lemma_chord_window(s: UiStateView, armed: u64, now: u64)
    requires
        s.leader_key != 'l',
        s.leader_key != 'h',
        armed <= now,
    ensures
        ({
            let pressed = normal_step(s, Key::Char(s.leader_key), armed);
            &&& now - armed <= LEADER_TIMEOUT_MS ==> {
                &&& normal_step(pressed, Key::Char('l'), now).list_mode == ListMode::Callstack
                &&& normal_step(pressed, Key::Char('h'), now).list_mode == ListMode::Breakpoint
            }
            &&& now - armed > LEADER_TIMEOUT_MS ==> {
                &&& normal_step(pressed, Key::Char('l'), now) == pressed
                &&& normal_step(pressed, Key::Char('h'), now) == pressed
            }
        }),
{
}

/// Before the leader key is pressed for the first time, the list-switch
/// keys do nothing.
pub proof fn lemma_no_chord_without_leader(s: UiStateView, key: Key, now: u64)
    requires
        s.leader_tick_time is None,
        key == Key::Char('l') || key == Key::Char('h'),
        key != Key::Char(s.leader_key),
    ensures
        normal_step(s, key, now) == s,
{
}

/// No key leaves a session without a mode's rules: a key either keeps the
/// mode or leads to the one its table names.
pub proof fn lemma_mode_transitions(s: UiStateView, key: Key, now: u64)
    ensures
        s.input_mode == InputMode::Normal ==> key_step(s, key, now).input_mode
            != InputMode::Normal ==> key == Key::Char('v') || key == Key::Char('i'),
        s.input_mode == InputMode::Inspection ==> key_step(s, key, now).input_mode == (if key
            == Key::Esc {
            InputMode::Normal
        } else {
            InputMode::Inspection
        }),
        s.input_mode == InputMode::Visual ==> key_step(s, key, now).input_mode == (if key
            == Key::Esc {
            InputMode::Normal
        } else {
            InputMode::Visual
        }),
{
}

/// Builds the popup lines for a breakpoint.
pub fn breakpoint_popup(breakpoint: &Breakpoint) -> (text: Vec<String>)
    ensures
        lines_view(text@) == breakpoint_details(breakpoint@),
{
    let mut text: Vec<String> = Vec::new();
    text.push(String::from_str("[FILE]: ").concat(breakpoint.filepath.as_str()));
    text.push(String::from_str("[LINE]: ").concat(breakpoint.line.as_str()));
    text.push(String::from_str("[TIME]: ").concat(breakpoint.timestamp.as_str()));
    text.push(String::from_str("[CONNECTOR]: ").concat(breakpoint.connector_type.as_str()));
    assert(lines_view(text@) =~= breakpoint_details(breakpoint@));
    text
}

/// Builds the popup lines for a call stack frame.
pub fn callstack_popup(frame: &Callstack) -> (text: Vec<String>)
    ensures
        lines_view(text@) == callstack_details(frame@),
{
    let mut text: Vec<String> = Vec::new();
    text.push(String::from_str("[FILE]: ").concat(frame.filepath.as_str()));
    text.push(String::from_str("[LINE]: ").concat(frame.line.as_str()));
    assert(lines_view(text@) =~= callstack_details(frame@));
    text
}

/// Tells whether a key pressed at `now` belongs to a chord.
pub fn chord_is_open(leader_tick_time: Option<u64>, now: u64) -> (open: bool)
    ensures
        open == chord_open(leader_tick_time, now),
{
    match leader_tick_time {
        Some(armed) => now <= armed || now - armed <= LEADER_TIMEOUT_MS,
        None => false,
    }
}

/// Brings the call stack list and the inspection tree in line with the
/// selected breakpoint.
pub fn sync_selection(state: &mut UiState)
    ensures
        final(state)@ == synced(old(state)@),
{
    let payload = state.list_state.breakpoint.get_value();
    match build_tree(payload.as_str()) {
        Ok(nodes) => {
            state.tree_state.items = nodes;
        },
        Err(_) => {
            let nodes: Vec<TreeNode> = Vec::new();
            assert(nodes_view(nodes@) =~= Seq::empty());
            state.tree_state.items = nodes;
            state.status_bar.set_status(String::from_str("Malformed payload"));
        },
    }
    let frames = state.list_state.breakpoint.get_callstack();
    state.list_state.callstack.set_items(frames);
}

/// Enters a mode and names it on the status line.
fn enter_mode(state: &mut UiState, mode: InputMode)
    ensures
        final(state)@ == entered(old(state)@, mode),
{
    state.input_mode = mode;
    state.status_bar.set_status(String::from_str(":").concat(mode.to_string().as_str()));
}

/// Builds the popup lines for what is selected in the active list.
fn selected_popup(state: &mut UiState) -> (text: Option<Vec<String>>)
    ensures
        final(state)@ == old(state)@,
        match text {
            Some(lines) => selected_details(old(state)@) == Some(lines_view(lines@)),
            None => selected_details(old(state)@) is None,
        },
{
    match state.list_mode {
        ListMode::Breakpoint => match state.list_state.breakpoint.get_selected_breakpoint() {
            Some(breakpoint) => Some(breakpoint_popup(breakpoint)),
            None => None,
        },
        ListMode::Callstack => match state.list_state.callstack.get_selected_callstack() {
            Some(frame) => Some(callstack_popup(frame)),
            None => None,
        },
    }
}

/// Handles a key pressed at `now` in Normal mode.
pub fn normal_keymap(key_code: Key, state: &mut UiState, now: u64) -> (outcome: KeyOutcome)
    ensures
        final(state)@ == normal_step(old(state)@, key_code, now),
        outcome == KeyOutcome::Quit <==> normal_quits(old(state)@, key_code),
{
    let leader_key = state.config.keymap.leader_key;
    match key_code {
        Key::Char(c) if c == leader_key => {
            state.leader_tick_time = Some(now);
        },
        Key::Char('l') => {
            if chord_is_open(state.leader_tick_time, now) {
                state.list_state.breakpoint.remember_selected();
                state.list_state.callstack.select_first();
                state.list_mode = ListMode::Callstack;
            }
        },
        Key::Char('h') => {
            if chord_is_open(state.leader_tick_time, now) {
                state.list_state.callstack.unselect();
                state.list_mode = ListMode::Breakpoint;
                state.list_state.breakpoint.restore_selected();
                sync_selection(state);
            }
        },
        Key::Char('q') => {
            return KeyOutcome::Quit;
        },
        Key::Char('j') | Key::Down => match state.list_mode {
            ListMode::Breakpoint => {
                state.list_state.breakpoint.next();
                sync_selection(state);
            },
            ListMode::Callstack => {
                state.list_state.callstack.next();
            },
        },
        Key::Char('k') | Key::Up => match state.list_mode {
            ListMode::Breakpoint => {
                state.list_state.breakpoint.previous();
                sync_selection(state);
            },
            ListMode::Callstack => {
                state.list_state.callstack.previous();
            },
        },
        Key::Char('v') => {
            match selected_popup(state) {
                Some(text) => {
                    state.popup.show();
                    state.popup.set_text(text);
                    enter_mode(state, InputMode::Visual);
                },
                None => {},
            }
        },
        Key::Char('i') => {
            enter_mode(state, InputMode::Inspection);
        },
        Key::Esc => {
            if state.popup.is_active() {
                state.popup.dismiss();
            }
        },
        _ => {},
    }
    KeyOutcome::Continue
}

/// Handles a key in Inspection mode.
pub fn inspection_keymap(key_code: Key, state: &mut UiState) -> (outcome: KeyOutcome)
    ensures
        final(state)@ == inspection_step(old(state)@, key_code),
        outcome == KeyOutcome::Quit <==> key_code == Key::Char('q'),
{
    match key_code {
        Key::Esc => {
            enter_mode(state, InputMode::Normal);
        },
        Key::Char('l') | Key::Right => {
            state.tree_state.right();
        },
        Key::Char('h') | Key::Left => {
            state.tree_state.left();
        },
        Key::Char('j') | Key::Down => {
            state.tree_state.down();
        },
        Key::Char('k') | Key::Up => {
            state.tree_state.up();
        },
        Key::Char('q') => {
            return KeyOutcome::Quit;
        },
        _ => {},
    }
    KeyOutcome::Continue
}

/// Handles a key in Visual mode.
pub fn visual_keymap(key_code: Key, state: &mut UiState) -> (outcome: KeyOutcome)
    ensures
        final(state)@ == visual_step(old(state)@, key_code),
        outcome == KeyOutcome::Quit <==> key_code == Key::Char('q'),
{
    match key_code {
        Key::Esc => {
            state.popup.dismiss();
            enter_mode(state, InputMode::Normal);
        },
        Key::Char('q') => {
            return KeyOutcome::Quit;
        },
        _ => {},
    }
    KeyOutcome::Continue
}

/// Handles a key pressed at `now` in whatever mode the session is in.
pub fn handle_keymap_event(state: &mut UiState, key_code: Key, now: u64) -> (outcome: KeyOutcome)
    ensures
        final(state)@ == key_step(old(state)@, key_code, now),
        outcome == KeyOutcome::Quit <==> key_quits(old(state)@, key_code),
{
    match state.input_mode {
        InputMode::Normal => normal_keymap(key_code, state, now),
        InputMode::Inspection => inspection_keymap(key_code, state),
        InputMode::Visual => visual_keymap(key_code, state),
    }
}

/// The session after one turn of the render loop: the key, if one was
/// pressed, is handled first, then the new snapshot is taken.
pub open spec fn frame_step(
    s: UiStateView,
    key: Option<Key>,
    now: u64,
    snapshot: Seq<BreakpointView>,
) -> UiStateView {
    refreshed(
        match key {
            Some(key) => key_step(s, key, now),
            None => s,
        },
        snapshot,
    )
}

/// One turn of the render loop, up to the drawing: handles the key that was
/// pressed at `now`, if one was, and takes the new snapshot of the received
/// breakpoints. The result tells the caller whether to draw or to quit.
pub fn frame(state: &mut UiState, key_code: Option<Key>, now: u64, snapshot: Vec<Breakpoint>) -> (outcome:
    KeyOutcome)
    ensures
        final(state)@ == frame_step(old(state)@, key_code, now, breakpoints_view(snapshot@)),
        outcome == KeyOutcome::Quit <==> (key_code matches Some(key) && key_quits(
            old(state)@,
            key,
        )),
{
    let outcome = match key_code {
        Some(key) => handle_keymap_event(state, key, now),
        None => KeyOutcome::Continue,
    };
    state.refresh(snapshot);
    outcome
}

/// A turn of the render loop keeps a session consistent, whatever key was or
/// was not pressed, as long as the snapshot only adds breakpoints behind
/// those that were there.
pub proof fn lemma_frame_keeps_consistency(
    s: UiStateView,
    key: Option<Key>,
    now: u64,
    snapshot: Seq<BreakpointView>,
)
    requires
        consistent(s),
        s.breakpoint.items.len() <= snapshot.len(),
        snapshot.subrange(0, s.breakpoint.items.len() as int) == s.breakpoint.items,
    ensures
        consistent(frame_step(s, key, now, snapshot)),
{
    match key {
        Some(key) => {
            lemma_keys_keep_consistency(s, key, now);
            assert(key_step(s, key, now).breakpoint.items == s.breakpoint.items);
            lemma_refresh_keeps_consistency(key_step(s, key, now), snapshot);
        },
        None => {
            lemma_refresh_keeps_consistency(s, snapshot);
        },
    }
}

} // verus!
