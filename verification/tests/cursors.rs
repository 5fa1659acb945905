use pmd::server::{Breakpoint, Callstack};
use pmd::ui::layout::{BreakpointList, CallstackList};

fn frame(filepath: &str, line: &str) -> Callstack {
    Callstack { filepath: filepath.to_string(), line: line.to_string() }
}

fn breakpoint(filepath: &str, payload: &str, callstack: Vec<Callstack>) -> Breakpoint {
    Breakpoint {
        filepath: filepath.to_string(),
        line: "7".to_string(),
        connector_type: "python".to_string(),
        payload: payload.to_string(),
        timestamp: "12:00:00".to_string(),
        callstack,
    }
}

fn three_breakpoints() -> Vec<Breakpoint> {
    vec![
        breakpoint("/a.py", "{\"x\": 1}", vec![frame("/a.py", "1"), frame("/lib.py", "20")]),
        breakpoint("/b.py", "{\"y\": 2}", vec![frame("/b.py", "2")]),
        breakpoint("/c.py", "{\"z\": 3}", vec![]),
    ]
}

#[test]
fn new_list_has_nothing_selected() {
    let list = BreakpointList::with_items(three_breakpoints());
    assert_eq!(list.selected(), None);
    assert_eq!(list.anchor(), None);
    assert_eq!(list.items().len(), 3);
}

#[test]
fn next_from_none_selects_first() {
    let mut list = BreakpointList::with_items(three_breakpoints());
    list.next();
    assert_eq!(list.selected(), Some(0));
}

#[test]
fn previous_from_none_selects_first() {
    let mut list = BreakpointList::with_items(three_breakpoints());
    list.previous();
    assert_eq!(list.selected(), Some(0));
}

#[test]
fn next_wraps_from_last_to_first() {
    let mut list = BreakpointList::with_items(three_breakpoints());
    list.next();
    list.next();
    list.next();
    assert_eq!(list.selected(), Some(2));
    list.next();
    assert_eq!(list.selected(), Some(0));
}

#[test]
fn previous_wraps_from_first_to_last() {
    let mut list = BreakpointList::with_items(three_breakpoints());
    list.next();
    assert_eq!(list.selected(), Some(0));
    list.previous();
    assert_eq!(list.selected(), Some(2));
    list.previous();
    assert_eq!(list.selected(), Some(1));
}

#[test]
fn as_many_steps_as_items_lead_back() {
    for start in 0..3 {
        let mut list = BreakpointList::with_items(three_breakpoints());
        for _ in 0..=start {
            list.next();
        }
        assert_eq!(list.selected(), Some(start));
        for _ in 0..3 {
            list.next();
            let at = list.selected().unwrap();
            assert!(at < 3);
        }
        assert_eq!(list.selected(), Some(start));
    }
}

#[test]
fn mixed_steps_stay_in_range() {
    let mut list = CallstackList::with_items(vec![frame("/a", "1"), frame("/b", "2")]);
    let steps = [true, true, false, true, false, false, false, true, true, true];
    for forward in steps {
        if forward {
            list.next();
        } else {
            list.previous();
        }
        assert!(list.selected().unwrap() < 2);
    }
}

#[test]
fn empty_list_ignores_steps() {
    let mut breakpoints = BreakpointList::with_items(vec![]);
    breakpoints.next();
    assert_eq!(breakpoints.selected(), None);
    breakpoints.previous();
    assert_eq!(breakpoints.selected(), None);
    let mut frames = CallstackList::with_items(vec![]);
    frames.next();
    frames.previous();
    frames.select_first();
    assert_eq!(frames.selected(), None);
}

#[test]
fn empty_list_gives_placeholders() {
    let mut breakpoints = BreakpointList::with_items(vec![]);
    assert_eq!(breakpoints.get_selected_filepath(), "No data");
    assert_eq!(breakpoints.get_value(), "No variables");
    assert!(breakpoints.get_callstack().is_empty());
    assert!(breakpoints.get_selected_breakpoint().is_none());
    let mut frames = CallstackList::with_items(vec![]);
    assert_eq!(frames.get_selected_filepath(), "No data");
    assert!(frames.get_selected_callstack().is_none());
}

#[test]
fn unselected_list_gives_placeholders() {
    let mut breakpoints = BreakpointList::with_items(three_breakpoints());
    assert_eq!(breakpoints.get_selected_filepath(), "No data");
    assert_eq!(breakpoints.get_value(), "No variables");
    assert!(breakpoints.get_callstack().is_empty());
    assert!(breakpoints.get_selected_breakpoint().is_none());
}

#[test]
fn selected_breakpoint_is_read_out() {
    let mut list = BreakpointList::with_items(three_breakpoints());
    list.next();
    list.next();
    assert_eq!(list.get_selected_filepath(), "/b.py");
    assert_eq!(list.get_value(), "{\"y\": 2}");
    assert_eq!(list.get_callstack(), vec![frame("/b.py", "2")]);
    assert_eq!(list.get_selected_breakpoint(), Some(&three_breakpoints()[1]));
}

#[test]
fn selected_frame_is_read_out() {
    let mut list = CallstackList::with_items(vec![frame("/a.py", "1"), frame("/lib.py", "20")]);
    list.select_first();
    assert_eq!(list.selected(), Some(0));
    list.next();
    assert_eq!(list.get_selected_filepath(), "/lib.py");
    assert_eq!(list.get_selected_callstack(), Some(&frame("/lib.py", "20")));
    list.unselect();
    assert_eq!(list.selected(), None);
    assert!(list.get_selected_callstack().is_none());
}

#[test]
fn select_first_goes_to_first_from_anywhere() {
    let mut list = CallstackList::with_items(vec![frame("/a", "1"), frame("/b", "2")]);
    list.next();
    list.next();
    assert_eq!(list.selected(), Some(1));
    list.select_first();
    assert_eq!(list.selected(), Some(0));
}

#[test]
fn anchor_is_remembered_and_restored() {
    let mut list = BreakpointList::with_items(three_breakpoints());
    list.next();
    list.next();
    list.remember_selected();
    assert_eq!(list.anchor(), Some(1));
    list.unselect();
    assert_eq!(list.selected(), None);
    list.restore_selected();
    assert_eq!(list.selected(), Some(1));
}

#[test]
fn set_items_keeps_position_while_it_exists() {
    let mut list = BreakpointList::with_items(three_breakpoints());
    list.next();
    list.next();
    list.next();
    list.remember_selected();
    let mut longer = three_breakpoints();
    longer.push(breakpoint("/d.py", "", vec![]));
    list.set_items(longer);
    assert_eq!(list.selected(), Some(2));
    assert_eq!(list.anchor(), Some(2));
    assert_eq!(list.items().len(), 4);
    list.set_items(vec![breakpoint("/only.py", "", vec![])]);
    assert_eq!(list.selected(), None);
    assert_eq!(list.anchor(), None);
    let mut frames = CallstackList::with_items(vec![frame("/a", "1"), frame("/b", "2")]);
    frames.next();
    frames.next();
    frames.set_items(vec![frame("/c", "3")]);
    assert_eq!(frames.selected(), None);
    assert_eq!(frames.items(), &vec![frame("/c", "3")]);
}
