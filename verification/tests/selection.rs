use exospot::selection::SelectableList;

fn numbered(n: usize) -> SelectableList<usize> {
    let items: Vec<usize> = (0..n).collect();
    SelectableList::with_items(items)
}

#[test]
fn fresh_list_has_no_selection() {
    let l = numbered(4);
    assert_eq!(l.selected(), None);
    assert_eq!(l.len(), 4);
}

#[test]
fn next_from_no_selection_selects_first() {
    let mut l = numbered(5);
    l.next();
    assert_eq!(l.selected(), Some(0));
}

#[test]
fn previous_from_no_selection_selects_first() {
    let mut l = numbered(5);
    l.previous();
    assert_eq!(l.selected(), Some(0));
}

#[test]
fn next_wraps_past_last_entry() {
    let mut l = numbered(3);
    l.next();
    l.next();
    l.next();
    assert_eq!(l.selected(), Some(2));
    l.next();
    assert_eq!(l.selected(), Some(0));
}

#[test]
fn n_steps_return_to_start() {
    // From the first entry, as many steps as there are entries cycle back.
    for n in 1..6 {
        let mut l = numbered(n);
        l.next();
        assert_eq!(l.selected(), Some(0));
        for _ in 0..n {
            l.next();
        }
        assert_eq!(l.selected(), Some(0));
    }
}

#[test]
fn previous_inverts_next_everywhere() {
    let n = 5;
    for start in 0..n {
        let mut l = numbered(n);
        l.next();
        for _ in 0..start {
            l.next();
        }
        assert_eq!(l.selected(), Some(start));
        l.next();
        l.previous();
        assert_eq!(l.selected(), Some(start));
        l.previous();
        l.next();
        assert_eq!(l.selected(), Some(start));
    }
}

#[test]
fn three_entries_wrap_backwards() {
    // List of 3, nothing selected: one step forward selects 0, one step
    // back then wraps to 2.
    let mut l = numbered(3);
    l.next();
    assert_eq!(l.selected(), Some(0));
    l.previous();
    assert_eq!(l.selected(), Some(2));
}

#[test]
fn unselect_clears_the_selection() {
    let mut l = numbered(3);
    l.next();
    assert_eq!(l.selected(), Some(0));
    l.unselect();
    assert_eq!(l.selected(), None);
    assert_eq!(l.len(), 3);
}

#[test]
fn set_entry_keeps_selection() {
    let mut l = numbered(3);
    l.next();
    l.set_entry(1, 99);
    assert_eq!(l.selected(), Some(0));
    assert_eq!(*l.get(1), 99);
    assert_eq!(*l.get(0), 0);
    assert_eq!(*l.get(2), 2);
}

#[test]
fn single_entry_list_stays_on_it() {
    let mut l = numbered(1);
    l.next();
    assert_eq!(l.selected(), Some(0));
    l.next();
    assert_eq!(l.selected(), Some(0));
    l.previous();
    assert_eq!(l.selected(), Some(0));
}
