use exospot::coordinator::interpret_track_event;
use exospot::coordinator::route_event;
use exospot::coordinator::KeyInput;
use exospot::coordinator::TermEvent;
use exospot::coordinator::TrackCommand;
use exospot::selection::SelectableList;
use exospot::ui_model::HighlightTag;
use exospot::ui_model::TrackEntry;

use exospot::coordinator::advance_selection;

fn key(c: char) -> TermEvent {
    TermEvent::Key(KeyInput::Char(c))
}

#[test]
fn quit_key_quits_and_is_not_forwarded() {
    let r = route_event(&key('q'));
    assert!(r.quit);
    assert!(!r.forward);
    assert!(!r.force_redraw);
}

#[test]
fn resize_forces_redraw_and_is_not_forwarded() {
    let r = route_event(&TermEvent::Resize);
    assert!(!r.quit);
    assert!(r.force_redraw);
    assert!(!r.forward);
}

#[test]
fn ordinary_events_are_only_forwarded() {
    for e in [
        key('x'),
        TermEvent::Key(KeyInput::Enter),
        TermEvent::Mouse,
        TermEvent::Paste,
        TermEvent::FocusGained,
        TermEvent::FocusLost,
    ] {
        let r = route_event(&e);
        assert!(!r.quit);
        assert!(!r.force_redraw);
        assert!(r.forward);
    }
}

#[test]
fn enter_advances() {
    let c = interpret_track_event(&TermEvent::Key(KeyInput::Enter), true);
    assert_eq!(c, TrackCommand::Advance);
}

#[test]
fn search_key_opens_external() {
    assert_eq!(interpret_track_event(&key('y'), false), TrackCommand::OpenExternal);
}

#[test]
fn preview_keys_request_playback_only_with_a_preview() {
    assert_eq!(interpret_track_event(&key('p'), true), TrackCommand::RequestPreview);
    assert_eq!(interpret_track_event(&key(' '), true), TrackCommand::RequestPreview);
    assert_eq!(interpret_track_event(&key('p'), false), TrackCommand::Ignore);
    assert_eq!(interpret_track_event(&key(' '), false), TrackCommand::Ignore);
}

#[test]
fn other_events_are_ignored_by_the_track_loop() {
    assert_eq!(interpret_track_event(&key('z'), true), TrackCommand::Ignore);
    assert_eq!(interpret_track_event(&TermEvent::Mouse, true), TrackCommand::Ignore);
    assert_eq!(interpret_track_event(&TermEvent::Resize, true), TrackCommand::Ignore);
}

fn entry(label: &str) -> TrackEntry {
    TrackEntry { label: label.to_string(), tag: HighlightTag::Plain }
}

#[test]
fn advance_recolors_the_newly_selected_entry() {
    let mut list = SelectableList::with_items(vec![entry("a"), entry("b"), entry("c")]);
    advance_selection(&mut list);
    assert_eq!(list.selected(), Some(0));
    assert_eq!(list.get(0).tag, HighlightTag::Done);
    assert_eq!(list.get(0).label, "a");
    assert_eq!(list.get(1).tag, HighlightTag::Plain);
    assert_eq!(list.get(2).tag, HighlightTag::Plain);

    advance_selection(&mut list);
    assert_eq!(list.selected(), Some(1));
    assert_eq!(list.get(1).tag, HighlightTag::Done);
    assert_eq!(list.get(1).label, "b");
    assert_eq!(list.get(2).tag, HighlightTag::Plain);
}
