use todo_store::todo_list::{TodoList, TodoListMessage};

#[test]
fn add_empty_input_is_a_noop() {
    let mut store = TodoList::new();
    let changed = store.update(TodoListMessage::Add(String::from("")));
    assert!(!changed);
    assert_eq!(store.len(), 0);
}

#[test]
fn add_whitespace_only_input_is_a_noop() {
    let mut store = TodoList::new();
    let changed = store.update(TodoListMessage::Add(String::from("   ")));
    assert!(!changed);
    assert_eq!(store.len(), 0);
    let changed = store.update(TodoListMessage::Add(String::from(" \t\r\n ")));
    assert!(!changed);
    assert_eq!(store.len(), 0);
}

#[test]
fn add_trims_and_appends() {
    let mut store = TodoList::new();
    let changed = store.update(TodoListMessage::Add(String::from(" buy milk ")));
    assert!(changed);
    assert_eq!(store.len(), 1);
    assert_eq!(store.get(0).description, "buy milk");
    assert!(!store.get(0).completed);
}

#[test]
fn add_keeps_inner_whitespace() {
    let mut store = TodoList::new();
    let changed = store.update(TodoListMessage::Add(String::from("  a  b  ")));
    assert!(changed);
    assert_eq!(store.get(0).description, "a  b");
}

#[test]
fn search_sets_filter_verbatim() {
    let mut store = TodoList::new();
    let changed = store.update(TodoListMessage::Search(String::from("  milk  ")));
    assert!(changed);
    assert_eq!(store.filter_text(), "  milk  ");
}

#[test]
fn toggle_complete_flips_the_flag() {
    let mut store = TodoList::new();
    store.update(TodoListMessage::Add(String::from("walk dog")));
    assert!(!store.get(0).completed);
    let changed = store.update(TodoListMessage::ToggleComplete(0));
    assert!(changed);
    assert!(store.get(0).completed);
}

#[test]
fn toggle_complete_twice_restores_the_flag() {
    let mut store = TodoList::new();
    store.update(TodoListMessage::Add(String::from("walk dog")));
    store.update(TodoListMessage::Add(String::from("buy milk")));
    store.update(TodoListMessage::ToggleComplete(1));
    store.update(TodoListMessage::ToggleComplete(1));
    assert!(!store.get(1).completed);
    assert_eq!(store.get(1).description, "buy milk");
    assert_eq!(store.len(), 2);
}

#[test]
fn edit_overwrites_verbatim() {
    let mut store = TodoList::new();
    store.update(TodoListMessage::Add(String::from("walk dog")));
    let changed = store.update(TodoListMessage::Edit(0, String::from(" feed cat ")));
    assert!(changed);
    assert_eq!(store.get(0).description, " feed cat ");
}

#[test]
fn edit_does_not_reject_empty_text() {
    let mut store = TodoList::new();
    store.update(TodoListMessage::Add(String::from("walk dog")));
    let changed = store.update(TodoListMessage::Edit(0, String::from("")));
    assert!(changed);
    assert_eq!(store.get(0).description, "");
    assert_eq!(store.len(), 1);
}

#[test]
fn delete_shifts_later_items_down() {
    let mut store = TodoList::new();
    store.update(TodoListMessage::Add(String::from("a")));
    store.update(TodoListMessage::Add(String::from("b")));
    store.update(TodoListMessage::Add(String::from("c")));
    let changed = store.update(TodoListMessage::Delete(1));
    assert!(changed);
    assert_eq!(store.len(), 2);
    assert_eq!(store.get(0).description, "a");
    assert_eq!(store.get(1).description, "c");
}

#[test]
fn delete_all_clears_items_and_keeps_filter() {
    let mut store = TodoList::new();
    store.update(TodoListMessage::Add(String::from("a")));
    store.update(TodoListMessage::Add(String::from("b")));
    store.update(TodoListMessage::Search(String::from("milk")));
    let changed = store.update(TodoListMessage::DeleteAll);
    assert!(changed);
    assert_eq!(store.len(), 0);
    assert_eq!(store.filter_text(), "milk");
}

#[test]
fn delete_all_on_empty_store_stays_empty() {
    let mut store = TodoList::new();
    let changed = store.update(TodoListMessage::DeleteAll);
    assert!(changed);
    assert_eq!(store.len(), 0);
}

#[test]
fn visibility_selects_by_substring() {
    let mut store = TodoList::new();
    store.update(TodoListMessage::Add(String::from("buy milk")));
    store.update(TodoListMessage::Add(String::from("walk dog")));
    store.update(TodoListMessage::Search(String::from("milk")));
    let visible = store.visible_items();
    assert_eq!(visible.len(), 1);
    assert_eq!(visible[0].description, "buy milk");
    assert_eq!(store.len(), 2);
}

#[test]
fn empty_filter_keeps_everything_visible() {
    let mut store = TodoList::new();
    store.update(TodoListMessage::Add(String::from("buy milk")));
    store.update(TodoListMessage::Add(String::from("walk dog")));
    let visible = store.visible_items();
    assert_eq!(visible.len(), 2);
    assert_eq!(visible[0].description, "buy milk");
    assert_eq!(visible[1].description, "walk dog");
}

#[test]
fn visibility_is_case_sensitive() {
    let mut store = TodoList::new();
    store.update(TodoListMessage::Add(String::from("Buy Milk")));
    store.update(TodoListMessage::Search(String::from("milk")));
    assert_eq!(store.visible_items().len(), 0);
    store.update(TodoListMessage::Search(String::from("Milk")));
    assert_eq!(store.visible_items().len(), 1);
}

#[test]
fn filter_longer_than_description_matches_nothing() {
    let mut store = TodoList::new();
    store.update(TodoListMessage::Add(String::from("a")));
    store.update(TodoListMessage::Search(String::from("abc")));
    assert_eq!(store.visible_items().len(), 0);
}

#[test]
fn end_to_end_add_add_delete() {
    let mut store = TodoList::new();
    store.update(TodoListMessage::Add(String::from("a")));
    store.update(TodoListMessage::Add(String::from("b")));
    store.update(TodoListMessage::Delete(0));
    assert_eq!(store.len(), 1);
    assert_eq!(store.get(0).description, "b");
    assert!(!store.get(0).completed);
}

#[test]
fn cloned_items_match_the_stored_ones() {
    let mut store = TodoList::new();
    store.update(TodoListMessage::Add(String::from("buy milk")));
    store.update(TodoListMessage::ToggleComplete(0));
    let visible = store.visible_items();
    assert_eq!(visible.len(), 1);
    assert_eq!(visible[0].description, "buy milk");
    assert!(visible[0].completed);
}
