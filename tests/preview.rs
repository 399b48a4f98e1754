use mdpreview::{
    build_full_html, read_fonts, read_style_css, render_static_page, Broadcaster, ContentStore,
    Delivery, Fonts, LivePreview,
};

fn no_fonts() -> Fonts {
    read_fonts(b"", b"", b"", b"")
}

fn live(source: &str, capacity: usize) -> LivePreview {
    LivePreview::new("notes.md".to_string(), source, read_style_css(), no_fonts(), capacity)
}

#[test]
fn versions_strictly_increase_over_commits() {
    let mut store = ContentStore::new("<p>a</p>".to_string());
    assert_eq!(store.version(), 1);
    let mut last = store.version();
    for html in ["<p>b</p>", "<p>c</p>", "<p>d</p>"] {
        let v = store.publish(html.to_string()).unwrap();
        assert!(v > last);
        assert_eq!(v, last + 1);
        let snap = store.snapshot();
        assert_eq!(snap.version(), v);
        assert_eq!(snap.html(), html);
        last = v;
    }
}

#[test]
fn republishing_same_content_still_advances() {
    let mut store = ContentStore::new("<p>x</p>".to_string());
    let v1 = store.publish("<p>same</p>".to_string()).unwrap();
    let v2 = store.publish("<p>same</p>".to_string()).unwrap();
    assert_eq!(v1, 2);
    assert_eq!(v2, 3);
    assert_eq!(store.snapshot().html(), "<p>same</p>");
}

#[test]
fn refresh_with_same_source_twice_advances_and_signals() {
    let mut p = live("# Title", 4);
    let id = p.subscribe().unwrap();
    assert_eq!(p.refresh(Some("# Title")), Some(2));
    assert_eq!(p.refresh(Some("# Title")), Some(3));
    let snap = p.snapshot();
    assert_eq!(snap.version(), 3);
    assert!(snap.html().contains("<h1>Title</h1>"));
    assert_eq!(p.recv(id), Delivery::Reload);
    assert_eq!(p.recv(id), Delivery::Reload);
    assert_eq!(p.recv(id), Delivery::Idle);
}

#[test]
fn slow_subscriber_still_gets_signal_after_last_publish() {
    let mut hub = Broadcaster::new(2);
    let id = hub.subscribe().unwrap();
    for _ in 0..10 {
        hub.notify();
    }
    // The queue kept at most two signals, dropping older ones.
    assert_eq!(hub.recv(id), Delivery::Reload);
    assert_eq!(hub.recv(id), Delivery::Reload);
    assert_eq!(hub.recv(id), Delivery::Idle);
    hub.notify();
    assert_eq!(hub.recv(id), Delivery::Reload);
}

#[test]
fn subscriber_with_capacity_one_sees_last_publish() {
    let mut p = live("a", 1);
    let id = p.subscribe().unwrap();
    for i in 0..5 {
        p.refresh(Some(&format!("edit {}", i))).unwrap();
    }
    assert_eq!(p.recv(id), Delivery::Reload);
    assert_eq!(p.recv(id), Delivery::Idle);
}

#[test]
fn removed_subscriber_gets_nothing() {
    let mut hub = Broadcaster::new(4);
    let a = hub.subscribe().unwrap();
    let b = hub.subscribe().unwrap();
    hub.notify();
    assert!(hub.unsubscribe(a));
    assert!(!hub.unsubscribe(a));
    hub.notify();
    assert_eq!(hub.recv(a), Delivery::Closed);
    assert!(!hub.is_subscribed(a));
    // A later subscriber never reuses the removed id.
    let c = hub.subscribe().unwrap();
    assert_ne!(c, a);
    hub.notify();
    assert_eq!(hub.recv(a), Delivery::Closed);
    assert_eq!(hub.recv(b), Delivery::Reload);
    assert_eq!(hub.recv(c), Delivery::Reload);
}

#[test]
fn unknown_subscriber_is_closed() {
    let mut hub = Broadcaster::new(1);
    assert_eq!(hub.recv(7), Delivery::Closed);
    assert!(!hub.unsubscribe(7));
}

#[test]
fn new_subscriber_gets_no_replay() {
    let mut hub = Broadcaster::new(3);
    hub.notify();
    let id = hub.subscribe().unwrap();
    assert_eq!(hub.recv(id), Delivery::Idle);
}

#[test]
fn edit_hi_to_bye_sends_one_reload() {
    let mut p = live("# Hi", 16);
    let first = p.page();
    assert!(first.contains("<h1>Hi</h1>"));
    let id = p.subscribe().unwrap();
    assert_eq!(p.refresh(Some("# Bye")), Some(2));
    assert_eq!(p.recv(id), Delivery::Reload);
    assert_eq!(p.recv(id), Delivery::Idle);
    let second = p.page();
    assert!(second.contains("Bye"));
    assert!(!second.contains("Hi"));
}

#[test]
fn failed_read_keeps_last_good_document() {
    let mut p = live("# Hi", 16);
    let id = p.subscribe().unwrap();
    let before = p.page();
    assert_eq!(p.refresh(None), None);
    assert_eq!(p.page(), before);
    assert_eq!(p.snapshot().version(), 1);
    assert_eq!(p.recv(id), Delivery::Idle);
}

#[test]
fn two_subscribers_both_get_the_same_publish() {
    let mut p = live("one", 16);
    let early = p.subscribe().unwrap();
    p.refresh(Some("two")).unwrap();
    assert_eq!(p.recv(early), Delivery::Reload);
    let late = p.subscribe().unwrap();
    p.refresh(Some("three")).unwrap();
    assert_eq!(p.recv(early), Delivery::Reload);
    assert_eq!(p.recv(late), Delivery::Reload);
    assert_eq!(p.recv(early), Delivery::Idle);
    assert_eq!(p.recv(late), Delivery::Idle);
}

#[test]
fn live_page_carries_reload_client_and_title() {
    let p = live("text", 1);
    let page = p.page();
    assert!(page.contains("new EventSource(\"/events\")"));
    assert!(page.contains("<title>\n        notes.md\n    </title>"));
    assert!(page.contains("<p>text</p>"));
}

#[test]
fn static_page_has_no_reload_client_and_default_title() {
    let page = render_static_page(None, "text", "", &no_fonts());
    assert!(!page.contains("EventSource"));
    assert!(page.contains("New file"));
    let named = render_static_page(Some("a.md"), "text", "", &no_fonts());
    assert!(named.contains("<title>\n        a.md\n    </title>"));
}

#[test]
fn full_html_places_every_part() {
    let fonts = Fonts {
        font_regular: "REG".to_string(),
        font_medium: "MED".to_string(),
        font_light: "LIT".to_string(),
        favicon: "ICO".to_string(),
    };
    let page = build_full_html("t.md", "<p>body</p>", "p{}", &fonts, false);
    let order = ["ICO", "REG", "MED", "LIT", "p{}", "t.md", "<p>body</p>", "</html>"];
    let mut at = 0;
    for part in order {
        let found = page[at..].find(part).expect(part);
        at += found + part.len();
    }
    assert!(page.starts_with("\n<!DOCTYPE html>"));
    assert!(page.ends_with("</body>\n</html>\n"));
    assert!(!page.contains("<script>\n            var evtSource"));
}

#[test]
fn fonts_are_base64_encoded() {
    let f = read_fonts(b"Man", b"Ma", b"M", b"");
    assert_eq!(f.font_regular, "TWFu");
    assert_eq!(f.font_medium, "TWE=");
    assert_eq!(f.font_light, "TQ==");
    assert_eq!(f.favicon, "");
    let g = read_fonts(b"abcd", b"abcdef", b"abcdefg", b"ab");
    assert_eq!(g.font_regular.len(), 8);
    assert_eq!(g.font_medium.len(), 8);
    assert_eq!(g.font_light.len(), 12);
    assert_eq!(g.favicon.len(), 4);
}

#[test]
fn stylesheet_is_nonempty() {
    assert!(read_style_css().contains("body"));
}
