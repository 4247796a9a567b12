use rustygit::list::StatefulList;

#[test]
fn test_starts_at_none() {
    let list = StatefulList::with_items(vec!["a", "b", "c"]);

    assert_eq!(list.selected_index(), None);
}

#[test]
fn test_next_selects() {
    let mut list = StatefulList::with_items(vec!["a", "b", "c"]);

    list.next();

    assert_eq!(list.selected_index(), Some(0));
}

#[test]
fn test_next_increments() {
    let mut list = StatefulList::with_items(vec!["a", "b", "c"]);

    list.next();
    list.next();

    assert_eq!(list.selected_index(), Some(1));
}

#[test]
fn test_next_wrap() {
    let mut list = StatefulList::with_items(vec!["a", "b"]);

    list.next();
    list.next();

    assert_eq!(list.selected_index(), Some(1));

    list.next();
    assert_eq!(list.selected_index(), Some(0));
}

#[test]
fn test_previous_selects() {
    let mut list = StatefulList::with_items(vec!["a", "b", "c"]);

    list.previous();

    assert_eq!(list.selected_index(), Some(0));
}

#[test]
fn test_previous_decrements() {
    let mut list = StatefulList::with_items(vec!["a", "b", "c"]);

    list.previous();
    list.previous();

    assert_eq!(list.selected_index(), Some(2));
}

#[test]
fn test_unselect() {
    let mut list = StatefulList::with_items(vec!["a", "b", "c"]);

    list.next();

    assert_eq!(list.selected_index(), Some(0));

    list.unselect();

    assert_eq!(list.selected_index(), None);
}

#[test]
fn test_next_previous_scenario() {
    let mut list = StatefulList::with_items(vec!["a", "b", "c"]);

    assert_eq!(list.selected_index(), None);
    list.next();
    assert_eq!(list.selected_index(), Some(0));
    list.next();
    assert_eq!(list.selected_index(), Some(1));
    list.previous();
    assert_eq!(list.selected_index(), Some(0));
}

#[test]
fn test_empty_list_navigation_keeps_none() {
    let mut list: StatefulList<&str> = StatefulList::with_items(Vec::new());

    list.next();
    assert_eq!(list.selected_index(), None);
    list.previous();
    assert_eq!(list.selected_index(), None);
}

#[test]
fn test_previous_wrap_from_zero() {
    let mut list = StatefulList::with_items(vec!["a", "b"]);

    list.next();
    assert_eq!(list.selected_index(), Some(0));
    list.previous();
    assert_eq!(list.selected_index(), Some(1));
}

#[test]
fn test_next_cycle_visits_each_index_once() {
    let mut list = StatefulList::with_items(vec!["a", "b", "c"]);

    let mut seen = Vec::new();
    for _ in 0..3 {
        list.next();
        seen.push(list.selected_index().unwrap());
    }
    let mut sorted = seen.clone();
    sorted.sort();
    assert_eq!(sorted, vec![0, 1, 2]);

    list.next();
    assert_eq!(list.selected_index(), Some(seen[0]));
}

#[test]
fn test_next_then_previous_returns() {
    let mut list = StatefulList::with_items(vec!["a", "b", "c"]);

    list.next();
    list.next();
    assert_eq!(list.selected_index(), Some(1));

    list.next();
    list.previous();
    assert_eq!(list.selected_index(), Some(1));

    list.previous();
    list.next();
    assert_eq!(list.selected_index(), Some(1));
}

#[test]
fn test_update_items_clamps_cursor() {
    let mut list = StatefulList::with_items(vec!["a", "b", "c"]);

    list.next();
    list.next();
    list.next();
    assert_eq!(list.selected_index(), Some(2));

    list.update_items(vec!["x", "y"]);
    assert_eq!(list.selected_index(), Some(1));

    list.update_items(vec!["x", "y", "z"]);
    assert_eq!(list.selected_index(), Some(1));

    list.update_items(Vec::new());
    assert_eq!(list.selected_index(), None);
}
