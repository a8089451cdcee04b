use rutt::{App, Email, Key, KeyInput, MailDate, NameAddr, ViewMode};

fn email(uid: u32) -> Email {
    Email {
        _uid: uid,
        subject: format!("Email {}", uid),
        from: NameAddr { name: None, email: Some(format!("test{}@test.com", uid)) },
        to: Vec::new(),
        cc: Vec::new(),
        bcc: Vec::new(),
        date: MailDate { timestamp: 0, year: 1970, month: 1, day: 1, hour: 0, minute: 0 },
        is_read: false,
        body: None,
    }
}

fn app(n: u32, height: usize) -> App {
    let mut a = App::new((0..n).map(|i| email(100 + i)).collect());
    a.set_visible_items(height);
    a
}

fn plain(c: char) -> KeyInput {
    KeyInput { key: Key::Char(c), ctrl: false }
}

fn ctrl(c: char) -> KeyInput {
    KeyInput { key: Key::Char(c), ctrl: true }
}

fn key(k: Key) -> KeyInput {
    KeyInput { key: k, ctrl: false }
}

#[test]
fn list_keys_move_the_cursor() {
    let mut a = app(30, 10);
    assert!(!a.handle_key(plain('j'), None));
    assert!(!a.handle_key(key(Key::Down), None));
    assert!(!a.handle_key(ctrl('n'), None));
    assert_eq!(a.list.selected, Some(3));
    a.handle_key(plain('k'), None);
    a.handle_key(ctrl('p'), None);
    assert_eq!(a.list.selected, Some(1));
    a.handle_key(ctrl('f'), None);
    assert_eq!((a.list.selected, a.list.scroll_offset), (Some(10), 10));
    a.handle_key(ctrl('b'), None);
    assert_eq!((a.list.selected, a.list.scroll_offset), (Some(0), 0));
    a.handle_key(ctrl('d'), None);
    assert_eq!((a.list.selected, a.list.scroll_offset), (Some(5), 5));
    a.handle_key(ctrl('u'), None);
    assert_eq!((a.list.selected, a.list.scroll_offset), (Some(0), 0));
    a.handle_key(ctrl('e'), None);
    assert_eq!((a.list.selected, a.list.scroll_offset), (Some(1), 1));
    a.handle_key(ctrl('y'), None);
    assert_eq!((a.list.selected, a.list.scroll_offset), (Some(1), 0));
    a.handle_key(plain('L'), None);
    assert_eq!(a.list.selected, Some(9));
    a.handle_key(plain('M'), None);
    assert_eq!(a.list.selected, Some(5));
    a.handle_key(plain('H'), None);
    assert_eq!(a.list.selected, Some(0));
}

#[test]
fn unbound_keys_change_nothing() {
    let mut a = app(30, 10);
    a.handle_key(plain('n'), None);
    a.handle_key(plain('f'), None);
    a.handle_key(key(Key::Other), None);
    a.handle_key(key(Key::Backspace), None);
    assert_eq!((a.list.selected, a.list.scroll_offset), (Some(0), 0));
    assert_eq!(a.mode, ViewMode::List);
}

#[test]
fn quit_keys_in_list_mode() {
    let mut a = app(3, 10);
    assert!(a.handle_key(plain('q'), None));
    assert!(a.handle_key(key(Key::Esc), None));
}

#[test]
fn enter_fetches_body_once_and_opens_detail() {
    let mut a = app(5, 10);
    a.handle_key(plain('j'), None);
    assert_eq!(a.key_fetch(plain('j')), None);
    assert_eq!(a.key_fetch(key(Key::Enter)), Some(101));
    assert!(!a.handle_key(key(Key::Enter), Some("hello".to_string())));
    assert_eq!(a.mode, ViewMode::Detail(1));
    assert_eq!(a.emails[1].body.as_deref(), Some("hello"));
    assert_eq!(a.detail.offset, 0);
    // In detail mode Enter is not bound, and nothing is fetched.
    assert_eq!(a.key_fetch(key(Key::Enter)), None);
    a.handle_key(key(Key::Backspace), None);
    assert_eq!(a.mode, ViewMode::List);
    // The body is already there: no fetch, and a later result is ignored.
    assert_eq!(a.key_fetch(key(Key::Enter)), None);
    a.view_email(Some("other".to_string()));
    assert_eq!(a.emails[1].body.as_deref(), Some("hello"));
}

#[test]
fn failed_fetch_leaves_body_empty() {
    let mut a = app(2, 10);
    a.handle_key(key(Key::Enter), None);
    assert_eq!(a.mode, ViewMode::Detail(0));
    assert_eq!(a.emails[0].body, None);
    assert_eq!(a.pending_fetch(), None);
    a.back_to_list();
    assert_eq!(a.pending_fetch(), Some(100));
}

#[test]
fn detail_keys_scroll_and_return() {
    let mut a = app(3, 10);
    a.handle_key(key(Key::Enter), Some("body".to_string()));
    a.handle_key(plain('j'), None);
    a.handle_key(key(Key::Down), None);
    a.handle_key(ctrl('n'), None);
    a.handle_key(ctrl('e'), None);
    assert_eq!(a.detail.offset, 4);
    a.handle_key(plain('k'), None);
    a.handle_key(ctrl('y'), None);
    assert_eq!(a.detail.offset, 2);
    a.handle_key(key(Key::Up), None);
    a.handle_key(ctrl('p'), None);
    a.handle_key(ctrl('p'), None);
    assert_eq!(a.detail.offset, 0);
    // List motions mean nothing in detail mode.
    a.handle_key(ctrl('f'), None);
    a.handle_key(plain('L'), None);
    assert_eq!((a.list.selected, a.list.scroll_offset), (Some(0), 0));
    a.detail_scroll_down();
    assert!(!a.handle_key(plain('q'), None));
    assert_eq!(a.mode, ViewMode::List);
    assert_eq!(a.detail.offset, 0);
}

#[test]
fn detail_scroll_is_not_remembered() {
    let mut a = app(3, 10);
    a.view_email(None);
    a.detail_line_forward();
    a.detail_line_forward();
    a.detail_line_backward();
    assert_eq!(a.detail.offset, 1);
    a.back_to_list();
    a.view_email(None);
    assert_eq!(a.detail.offset, 0);
}

#[test]
fn view_email_on_empty_list_stays_in_list() {
    let mut a = App::new(vec![]);
    a.view_email(Some("x".to_string()));
    assert_eq!(a.mode, ViewMode::List);
    assert!(a.emails.is_empty());
}
