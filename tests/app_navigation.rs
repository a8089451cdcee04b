use rutt::{App, Email, MailDate, NameAddr, ViewMode};

fn date() -> MailDate {
    MailDate { timestamp: 1_736_937_045, year: 2025, month: 1, day: 15, hour: 10, minute: 30 }
}

fn email(uid: u32, subject: &str, from: &str, is_read: bool) -> Email {
    Email {
        _uid: uid,
        subject: subject.to_string(),
        from: NameAddr { name: None, email: Some(from.to_string()) },
        to: Vec::new(),
        cc: Vec::new(),
        bcc: Vec::new(),
        date: date(),
        is_read,
        body: None,
    }
}

fn numbered(n: u32) -> Vec<Email> {
    (0..n)
        .map(|i| email(i + 1, &format!("Email {}", i + 1), &format!("test{}@test.com", i + 1), false))
        .collect()
}

fn two_emails() -> Vec<Email> {
    vec![email(1, "Email 1", "test1@test.com", false), email(2, "Email 2", "test2@test.com", true)]
}

fn check_two_item_navigation() {
    let mut app = App::new(two_emails());
    assert_eq!(app.list.selected, Some(0));
    app.next();
    assert_eq!(app.list.selected, Some(1));
    app.next();
    assert_eq!(app.list.selected, Some(1));
    app.previous();
    assert_eq!(app.list.selected, Some(0));
    app.previous();
    assert_eq!(app.list.selected, Some(0));
}

#[test]
fn app_test_app_navigation() {
    check_two_item_navigation();
}

#[test]
fn main_test_app_navigation() {
    check_two_item_navigation();
}

#[test]
fn app_test_app_initialization() {
    let emails: Vec<Email> = vec![];
    let app = App::new(emails.clone());
    assert_eq!(app.emails.len(), 0);
    assert_eq!(app.list.selected, None);
}

#[test]
fn main_test_app_initialization() {
    let emails: Vec<Email> = vec![];
    let app = App::new(emails.clone());
    assert_eq!(app.emails.len(), 0);
    assert_eq!(app.list.selected, None);
}

fn check_view_mode_transitions() {
    let mut app = App::new(vec![email(1, "Test", "test@test.com", false)]);
    assert!(matches!(app.mode, ViewMode::List));
    app.view_email(None);
    assert!(matches!(app.mode, ViewMode::Detail(0)));
    app.back_to_list();
    assert!(matches!(app.mode, ViewMode::List));
}

#[test]
fn app_test_view_mode_transitions() {
    check_view_mode_transitions();
}

#[test]
fn main_test_view_mode_transitions() {
    check_view_mode_transitions();
}

#[test]
fn test_vim_like_scrolling() {
    let mut app = App::new(numbered(20));
    app.set_visible_items(5);
    assert_eq!(app.list.selected, Some(0));
    assert_eq!(app.list.scroll_offset, 0);
    for _ in 0..4 {
        app.next();
    }
    assert_eq!(app.list.selected, Some(4));
    assert_eq!(app.list.scroll_offset, 0);
    app.next();
    assert_eq!(app.list.selected, Some(5));
    assert_eq!(app.list.scroll_offset, 1);
    // Row 4 is still inside the window [1, 6), so the window stays.
    app.previous();
    assert_eq!(app.list.selected, Some(4));
    assert_eq!(app.list.scroll_offset, 1);
}

#[test]
fn test_vim_navigation() {
    let mut app = App::new(numbered(20));
    app.set_visible_items(5);
    assert_eq!(app.list.selected, Some(0));
    assert_eq!(app.list.scroll_offset, 0);
    for _ in 0..7 {
        app.next();
    }
    assert_eq!(app.list.selected, Some(7));
    assert_eq!(app.list.scroll_offset, 3);
    app.goto_page_top();
    assert_eq!(app.list.selected, Some(3));
    assert_eq!(app.list.scroll_offset, 3);
    app.goto_page_bottom();
    assert_eq!(app.list.selected, Some(7));
    assert_eq!(app.list.scroll_offset, 3);
    app.goto_page_middle();
    assert_eq!(app.list.selected, Some(5));
    assert_eq!(app.list.scroll_offset, 3);
    for _ in 0..14 {
        app.next();
    }
    assert_eq!(app.list.selected, Some(19));
    assert_eq!(app.list.scroll_offset, 15);
    app.goto_page_top();
    assert_eq!(app.list.selected, Some(15));
    app.goto_page_bottom();
    assert_eq!(app.list.selected, Some(19));
    app.goto_page_middle();
    assert_eq!(app.list.selected, Some(17));
}

#[test]
fn test_vim_navigation_empty_list() {
    let mut app = App::new(vec![]);
    app.goto_page_top();
    app.goto_page_middle();
    app.goto_page_bottom();
    assert_eq!(app.list.selected, None);
}

#[test]
fn test_page_navigation() {
    let mut app = App::new(numbered(30));
    app.set_visible_items(10);
    assert_eq!(app.list.selected, Some(0));
    assert_eq!(app.list.scroll_offset, 0);
    app.page_forward();
    assert_eq!(app.list.selected, Some(10));
    assert_eq!(app.list.scroll_offset, 10);
    app.page_forward();
    assert_eq!(app.list.selected, Some(20));
    assert_eq!(app.list.scroll_offset, 20);
    app.page_forward();
    assert_eq!(app.list.selected, Some(29));
    assert_eq!(app.list.scroll_offset, 20);
    app.page_backward();
    assert_eq!(app.list.selected, Some(10));
    assert_eq!(app.list.scroll_offset, 10);
    app.page_backward();
    assert_eq!(app.list.selected, Some(0));
    assert_eq!(app.list.scroll_offset, 0);
    app.page_backward();
    assert_eq!(app.list.selected, Some(0));
    assert_eq!(app.list.scroll_offset, 0);
}

#[test]
fn test_page_navigation_small_list() {
    let mut app = App::new(numbered(5));
    app.set_visible_items(10);
    app.page_forward();
    assert_eq!(app.list.selected, Some(4));
    assert_eq!(app.list.scroll_offset, 0);
    app.page_backward();
    assert_eq!(app.list.selected, Some(0));
    assert_eq!(app.list.scroll_offset, 0);
}

#[test]
fn test_half_page_navigation() {
    let mut app = App::new(numbered(30));
    app.set_visible_items(10);
    assert_eq!(app.list.selected, Some(0));
    assert_eq!(app.list.scroll_offset, 0);
    app.next();
    app.next();
    app.next();
    assert_eq!(app.list.selected, Some(3));
    assert_eq!(app.list.scroll_offset, 0);
    app.half_page_forward();
    assert_eq!(app.list.scroll_offset, 5);
    assert_eq!(app.list.selected, Some(8));
    app.half_page_backward();
    assert_eq!(app.list.scroll_offset, 0);
    assert_eq!(app.list.selected, Some(3));
    app.list.scroll_offset = 15;
    app.list.selected = Some(18);
    app.half_page_forward();
    assert_eq!(app.list.scroll_offset, 20);
    assert_eq!(app.list.selected, Some(23));
}

#[test]
fn test_half_page_navigation_small_window() {
    let mut app = App::new(numbered(10));
    app.set_visible_items(3);
    assert_eq!(app.list.selected, Some(0));
    assert_eq!(app.list.scroll_offset, 0);
    app.next();
    assert_eq!(app.list.selected, Some(1));
    assert_eq!(app.list.scroll_offset, 0);
    app.half_page_forward();
    assert_eq!(app.list.scroll_offset, 1);
    assert_eq!(app.list.selected, Some(2));
    app.half_page_backward();
    assert_eq!(app.list.scroll_offset, 0);
    assert_eq!(app.list.selected, Some(1));
}

#[test]
fn test_line_scrolling() {
    let mut app = App::new(numbered(20));
    app.set_visible_items(5);
    app.list.selected = Some(2);
    assert_eq!(app.list.selected, Some(2));
    assert_eq!(app.list.scroll_offset, 0);
    app.line_forward();
    assert_eq!(app.list.selected, Some(2));
    assert_eq!(app.list.scroll_offset, 1);
    app.list.scroll_offset = 0;
    app.list.selected = Some(0);
    app.line_forward();
    assert_eq!(app.list.selected, Some(1));
    assert_eq!(app.list.scroll_offset, 1);
    app.list.scroll_offset = 5;
    app.list.selected = Some(9);
    app.line_backward();
    assert_eq!(app.list.selected, Some(8));
    assert_eq!(app.list.scroll_offset, 4);
}

#[test]
fn test_line_scrolling_edge_cases() {
    let mut app = App::new(numbered(10));
    app.set_visible_items(5);
    app.list.selected = Some(2);
    assert_eq!(app.list.scroll_offset, 0);
    app.line_backward();
    assert_eq!(app.list.selected, Some(2));
    assert_eq!(app.list.scroll_offset, 0);
    app.list.scroll_offset = 5;
    app.line_forward();
    assert_eq!(app.list.selected, Some(2));
    assert_eq!(app.list.scroll_offset, 5);
}

#[test]
fn test_line_scrolling_empty_list() {
    let mut app = App::new(vec![]);
    app.line_forward();
    app.line_backward();
    assert_eq!(app.list.selected, None);
    assert_eq!(app.list.scroll_offset, 0);
}
