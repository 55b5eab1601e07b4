use branch_tui::branch::BranchItem;
use branch_tui::geometry::Vec2;
use branch_tui::render::{format_row, name_column_width, project, search_prompt, Row};
use branch_tui::session::{Input, Key, Session};

fn item(name: &str, oid: &str, summary: &str) -> BranchItem {
    BranchItem {
        name: name.to_string(),
        oid: oid.to_string(),
        summary: summary.to_string(),
        is_head: false,
        has_upstream: true,
        is_gone: false,
    }
}

#[test]
fn row_text_is_padded_and_quoted() {
    let b = item("main", "0123456789", "init");
    assert_eq!(format_row(&b, true, 6, 42, 5), "> 0123456 main    'init'     ");
    assert_eq!(format_row(&b, false, 4, 42, 0), "  0123456 main  '...' ");
}

#[test]
fn long_name_and_summary_are_clipped() {
    let b = item("feature-long", "abc", "a long summary");
    assert_eq!(format_row(&b, false, 7, 4, 6), "  abc feat...  'a long...' ");
}

#[test]
fn name_column_follows_names() {
    let v = vec![item("ab", "", ""), item("abcd", "", "")];
    assert_eq!(name_column_width(&v, 42), 4);
    assert_eq!(name_column_width(&v, 4), 7);
    assert_eq!(name_column_width(&Vec::new(), 10), 0);
}

#[test]
fn empty_list_has_explicit_row() {
    let rows = project(&Vec::new(), 0, 20, 42, 72);
    assert_eq!(rows.len(), 1);
    assert!(matches!(rows[0], Row::Empty { y: 17 }));
}

#[test]
fn rows_are_bottom_anchored() {
    let mut v = vec![item("a", "1", "x"), item("b", "2", "y")];
    v[1].is_head = true;
    v[1].is_gone = true;
    v[1].has_upstream = false;
    let rows = project(&v, 1, 10, 42, 72);
    assert_eq!(rows.len(), 2);
    match &rows[0] {
        Row::Branch { y, selected, current, .. } => {
            assert_eq!(*y, 7);
            assert!(!selected);
            assert!(!current);
        }
        _ => panic!("expected a branch row"),
    }
    match &rows[1] {
        Row::Branch { y, text, selected, current, gone, no_upstream } => {
            assert_eq!(*y, 6);
            assert!(*selected && *current && *gone && *no_upstream);
            assert!(text.starts_with("> 2 b"));
        }
        _ => panic!("expected a branch row"),
    }
}

#[test]
fn overflow_is_counted() {
    let v: Vec<BranchItem> = (0..10).map(|i| item(&format!("b{i}"), "", "")).collect();
    let rows = project(&v, 0, 8, 42, 72);
    assert_eq!(rows.len(), 5);
    assert!(matches!(rows[4], Row::Truncated { y: 1, hidden: 6 }));
    assert!(matches!(rows[3], Row::Branch { y: 2, .. }));
}

#[test]
fn tiny_surface_gets_no_rows() {
    let v = vec![item("a", "", "")];
    assert!(project(&v, 0, 2, 42, 72).is_empty());
    assert!(project(&Vec::new(), 0, 2, 42, 72).is_empty());
    let rows = project(&v, 0, 4, 42, 72);
    assert_eq!(rows.len(), 1);
    assert!(matches!(rows[0], Row::Truncated { y: 1, hidden: 1 }));
}

#[test]
fn three_row_surface_still_reports() {
    let rows = project(&Vec::new(), 0, 3, 42, 72);
    assert_eq!(rows.len(), 1);
    assert!(matches!(rows[0], Row::Empty { y: 0 }));
    let v = vec![item("a", "", ""), item("b", "", "")];
    let rows = project(&v, 0, 3, 42, 72);
    assert_eq!(rows.len(), 1);
    assert!(matches!(rows[0], Row::Truncated { y: 0, hidden: 2 }));
}

#[test]
fn search_prompt_shows_while_searching() {
    let mut s = Session::new();
    assert!(search_prompt(&s).is_none());
    s.handle_input(Input::Key { key: Key::Char('/'), control: false, pressed: true });
    assert_eq!(search_prompt(&s).unwrap(), "/ ");
    s.handle_input(Input::Key { key: Key::Char('x'), control: false, pressed: true });
    s.handle_input(Input::Key { key: Key::Enter, control: false, pressed: true });
    assert_eq!(search_prompt(&s).unwrap(), "/ x");
}

#[test]
fn vec2_parts() {
    let v = Vec2::new(3, 4);
    assert_eq!((v.x, v.y), (3, 4));
    assert_eq!(v.x(), Vec2::new(3, 0));
    assert_eq!(v.y(), Vec2::new(0, 4));
    assert_eq!(Vec2::empty(), Vec2::new(0, 0));
}

#[test]
fn vec2_arithmetic() {
    let a = Vec2::new(3, 4);
    let b = Vec2::new(1, 2);
    assert_eq!(a.add(b), Vec2::new(4, 6));
    assert_eq!(a.sub(b), Vec2::new(2, 2));
    assert_eq!(a.mul(3), Vec2::new(9, 12));
    assert_eq!(a.div(2), Vec2::new(1, 2));
}
