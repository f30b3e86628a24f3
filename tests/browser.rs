use vidbrowse::events::{AppEvent, Key};
use vidbrowse::file_browser::{DirRequest, FileBrowser};
use vidbrowse::listing::{listing, name_le_exec, BrowseItem};
use vidbrowse::state::AppState;

fn item(name: &str, is_dir: bool) -> BrowseItem {
    BrowseItem::from_entry(name.to_string(), is_dir)
}

fn names(b: &FileBrowser) -> Vec<String> {
    b.entries().iter().map(|e| e.filename.clone()).collect()
}

fn press(b: &mut FileBrowser, key: Key, st: &mut AppState) -> DirRequest {
    b.handle_event(&AppEvent::Input(key), st)
}

#[test]
fn listing_drops_hidden_and_puts_directories_first() {
    let found = vec![item("b.txt", false), item("A", true), item(".hidden", false)];
    let b = FileBrowser::new("/start".to_string(), Some(found), true);
    assert_eq!(names(&b), vec!["..", "A", "b.txt"]);
    assert!(b.entries()[0].is_dir);
    assert_eq!(b.selected(), Some(0));
}

#[test]
fn listing_orders_by_kind_then_bytes() {
    let found = vec![
        item("z", false),
        item("B", true),
        item("a", true),
        item(".x", true),
        item("C", false),
        item("a", false),
    ];
    let r = listing(Some(found), false);
    let n: Vec<&str> = r.iter().map(|e| e.filename.as_str()).collect();
    assert_eq!(n, vec!["B", "a", "C", "a", "z"]);
    assert!(r[0].is_dir && r[1].is_dir && !r[2].is_dir);
    assert!(r.iter().all(|e| !e.filename.starts_with('.')));
}

#[test]
fn listing_of_unreadable_directory_is_empty() {
    assert!(listing(None, true).is_empty());
    let b = FileBrowser::new("/gone".to_string(), None, true);
    assert!(b.entries().is_empty());
    assert_eq!(b.selected(), None);
}

#[test]
fn listing_of_only_hidden_entries_keeps_parent_row() {
    let r = listing(Some(vec![item(".a", false), item(".b", true)]), true);
    assert_eq!(r.len(), 1);
    assert_eq!(r[0].filename, "..");
}

#[test]
fn hidden_flag_follows_leading_dot() {
    assert!(item(".profile", false).is_hidden);
    assert!(!item("profile", false).is_hidden);
    assert!(!item("a.b", false).is_hidden);
}

#[test]
fn name_order_is_lexicographic() {
    assert!(name_le_exec("abc", "abd"));
    assert!(!name_le_exec("abd", "abc"));
    assert!(name_le_exec("ab", "abc"));
    assert!(!name_le_exec("abc", "ab"));
    assert!(name_le_exec("Z", "a"));
    assert!(name_le_exec("same", "same"));
}

#[test]
fn down_at_last_row_wraps_to_first() {
    let mut st = AppState::new();
    let mut b = FileBrowser::new(
        "/d".to_string(),
        Some(vec![item("a", false), item("b", false), item("c", false)]),
        false,
    );
    press(&mut b, Key::Down, &mut st);
    press(&mut b, Key::Down, &mut st);
    assert_eq!(b.selected(), Some(2));
    press(&mut b, Key::Down, &mut st);
    assert_eq!(b.selected(), Some(0));
    press(&mut b, Key::Up, &mut st);
    assert_eq!(b.selected(), Some(2));
}

#[test]
fn moving_len_times_returns_to_start() {
    let mut b = FileBrowser::new(
        "/d".to_string(),
        Some(vec![item("a", false), item("b", false), item("c", false), item("d", true)]),
        true,
    );
    b.move_selection(2);
    assert_eq!(b.selected(), Some(2));
    for _ in 0..5 {
        b.move_selection(-3);
    }
    assert_eq!(b.selected(), Some(2));
    for _ in 0..5 {
        b.move_selection(7);
    }
    assert_eq!(b.selected(), Some(2));
    b.move_selection(-7);
    assert_eq!(b.selected(), Some(0));
}

#[test]
fn selection_writes_joined_path() {
    let mut st = AppState::new();
    let mut b = FileBrowser::new("/videos".to_string(), Some(vec![item("movie.mp4", false)]), false);
    let r = press(&mut b, Key::Char('x'), &mut st);
    assert!(matches!(r, DirRequest::Nothing));
    assert_eq!(st.selected_file.as_deref(), Some("/videos/movie.mp4"));
}

#[test]
fn unfocused_browser_ignores_keys() {
    let mut st = AppState::new();
    let mut b = FileBrowser::new(
        "/d".to_string(),
        Some(vec![item("a", false), item("b", false)]),
        false,
    );
    b.set_focus(false);
    press(&mut b, Key::Down, &mut st);
    assert_eq!(b.selected(), Some(0));
    assert_eq!(st.selected_file, None);
}

#[test]
fn tick_does_not_touch_shared_state() {
    let mut st = AppState::new();
    let mut b = FileBrowser::new("/d".to_string(), Some(vec![item("a", false)]), false);
    let r = b.handle_event(&AppEvent::Tick, &mut st);
    assert!(matches!(r, DirRequest::Nothing));
    assert_eq!(st.selected_file, None);
}

#[test]
fn enter_on_directory_that_cannot_be_entered_changes_nothing() {
    let mut st = AppState::new();
    let mut b = FileBrowser::new(
        "/base".to_string(),
        Some(vec![item("broken", true), item("f", false)]),
        true,
    );
    press(&mut b, Key::Down, &mut st);
    let r = press(&mut b, Key::Enter, &mut st);
    match r {
        DirRequest::Enter { dir, name } => {
            assert_eq!(dir, "/base");
            assert_eq!(name, "broken");
        }
        _ => panic!("expected an enter request"),
    }
    // The target turned out not to be a directory: no change is applied.
    assert_eq!(b.current_dir(), "/base");
    assert_eq!(names(&b), vec!["..", "broken", "f"]);
    assert_eq!(b.selected(), Some(1));
    assert_eq!(st.selected_file.as_deref(), Some("/base/broken"));
}

#[test]
fn enter_on_file_asks_nothing() {
    let mut st = AppState::new();
    let mut b = FileBrowser::new("/base".to_string(), Some(vec![item("f", false)]), false);
    assert!(matches!(press(&mut b, Key::Enter, &mut st), DirRequest::Nothing));
}

#[test]
fn entering_selects_second_row() {
    let mut st = AppState::new();
    let mut b = FileBrowser::new("/base".to_string(), Some(vec![item("sub", true)]), false);
    b.change_dir(
        "/base/sub".to_string(),
        Some(vec![item("y", false), item("x", true)]),
        true,
        &mut st,
    );
    assert_eq!(b.current_dir(), "/base/sub");
    assert_eq!(names(&b), vec!["..", "x", "y"]);
    assert_eq!(b.selected(), Some(1));
    assert_eq!(st.selected_file.as_deref(), Some("/base/sub/x"));
}

#[test]
fn entering_directory_with_only_parent_row() {
    let mut st = AppState::new();
    let mut b = FileBrowser::new("/base".to_string(), Some(vec![item("e", true)]), false);
    b.change_dir("/base/e".to_string(), Some(vec![]), true, &mut st);
    assert_eq!(names(&b), vec![".."]);
    assert_eq!(b.selected(), Some(1));
    assert_eq!(st.selected_file, None);
    press(&mut b, Key::Down, &mut st);
    assert_eq!(b.selected(), Some(0));
    assert_eq!(st.selected_file.as_deref(), Some("/base/e/.."));
}

#[test]
fn left_asks_for_parent() {
    let mut st = AppState::new();
    let mut b = FileBrowser::new("/a/b".to_string(), Some(vec![]), true);
    match press(&mut b, Key::Left, &mut st) {
        DirRequest::Back { parent } => assert_eq!(parent, "/a"),
        _ => panic!("expected a back request"),
    }
    let mut root = FileBrowser::new("/".to_string(), Some(vec![]), false);
    assert!(matches!(press(&mut root, Key::Left, &mut st), DirRequest::Nothing));
}

#[test]
fn listing_drops_dot_names_whatever_their_flag() {
    let found = vec![
        BrowseItem { filename: ".cache".to_string(), is_dir: true, is_hidden: false },
        BrowseItem { filename: "notes".to_string(), is_dir: false, is_hidden: true },
    ];
    let r = listing(Some(found), false);
    assert_eq!(r.len(), 1);
    assert_eq!(r[0].filename, "notes");
}

#[test]
fn dot_test_on_names() {
    assert!(vidbrowse::listing::starts_with_dot(".a"));
    assert!(!vidbrowse::listing::starts_with_dot("a."));
    assert!(!vidbrowse::listing::starts_with_dot(""));
}
