use rust_sniffer::StateList;

fn filled(n: usize) -> StateList<String> {
    let mut list = StateList::new();
    for i in 0..n {
        list.push(format!("r{}", i));
    }
    list
}

#[test]
fn new_list_is_empty_and_unselected() {
    let list: StateList<String> = StateList::new();
    assert_eq!(list.len(), 0);
    assert_eq!(list.selected(), None);
    assert!(list.get(0).is_none());
}

#[test]
fn push_keeps_order_and_selection() {
    let mut list = filled(3);
    list.select(1);
    list.push("r3".to_string());
    assert_eq!(list.len(), 4);
    assert_eq!(list.selected(), Some(1));
    assert_eq!(list.get(0).unwrap(), "r0");
    assert_eq!(list.get(3).unwrap(), "r3");
    assert!(list.get(4).is_none());
}

#[test]
fn next_starts_at_first_record() {
    let mut list = filled(3);
    list.next();
    assert_eq!(list.selected(), Some(0));
}

#[test]
fn next_moves_forward_and_stops_at_last() {
    let mut list = filled(3);
    list.next();
    list.next();
    assert_eq!(list.selected(), Some(1));
    list.next();
    assert_eq!(list.selected(), Some(2));
    list.next();
    assert_eq!(list.selected(), Some(2));
    list.next();
    assert_eq!(list.selected(), Some(2));
}

#[test]
fn prev_starts_at_first_record() {
    let mut list = filled(3);
    list.prev();
    assert_eq!(list.selected(), Some(0));
}

#[test]
fn prev_moves_backward_and_stops_at_first() {
    let mut list = filled(4);
    list.select(3);
    list.prev();
    assert_eq!(list.selected(), Some(2));
    list.prev();
    list.prev();
    assert_eq!(list.selected(), Some(0));
    list.prev();
    assert_eq!(list.selected(), Some(0));
}

#[test]
fn next_and_prev_on_empty_list_select_nothing() {
    let mut list: StateList<String> = StateList::new();
    list.next();
    assert_eq!(list.selected(), None);
    list.prev();
    assert_eq!(list.selected(), None);
    list.next();
    list.next();
    list.prev();
    assert_eq!(list.selected(), None);
}

#[test]
fn mixed_moves_stay_inside_the_list() {
    let mut list = filled(2);
    let forward = [true, true, true, false, true, false, false, false, true];
    for go_forward in forward {
        if go_forward {
            list.next();
        } else {
            list.prev();
        }
        let selected = list.selected().unwrap();
        assert!(selected < list.len());
    }
    assert_eq!(list.selected(), Some(1));
}

#[test]
fn select_takes_an_index_in_range() {
    let mut list = filled(3);
    list.select(0);
    assert_eq!(list.selected(), Some(0));
    list.select(2);
    assert_eq!(list.selected(), Some(2));
}

#[test]
fn select_beyond_the_end_takes_the_last_record() {
    let mut list = filled(3);
    list.select(3);
    assert_eq!(list.selected(), Some(2));
    list.select(9);
    assert_eq!(list.selected(), Some(2));
    list.select(usize::MAX);
    assert_eq!(list.selected(), Some(2));
}

#[test]
fn select_on_empty_list_selects_nothing() {
    let mut list: StateList<String> = StateList::new();
    list.select(0);
    assert_eq!(list.selected(), None);
    list.select(5);
    assert_eq!(list.selected(), None);
}

#[test]
fn unselect_drops_the_selection() {
    let mut list = filled(3);
    list.select(1);
    list.unselect();
    assert_eq!(list.selected(), None);
    list.unselect();
    assert_eq!(list.selected(), None);
    assert_eq!(list.len(), 3);
}

#[test]
fn items_from_gives_the_tail() {
    let list = filled(4);
    let tail = list.items_from(2);
    assert_eq!(tail, ["r2".to_string(), "r3".to_string()]);
    assert_eq!(list.items_from(0).len(), 4);
    assert!(list.items_from(4).is_empty());
    assert!(list.items_from(5).is_empty());
}
