use std::sync::Arc;
use std::sync::Mutex;

use wmcore::EventContext;
use wmcore::Screen;

#[test]
fn screen_tracks_its_focused_tag() {
    let mut screen = Screen::new(3);
    assert_eq!(screen.focused_tag_id(), 3);
    screen.set_focused_tag(9);
    assert_eq!(screen.focused_tag_id(), 9);
}

#[test]
fn context_snapshots_the_focused_tag_at_construction() {
    // The transport handle is only stored by the context; a placeholder
    // stands in for the display connection here.
    let conn = Arc::new(0u8);
    let screen = Arc::new(Mutex::new(Screen::new(5)));
    let ctx = EventContext::new(conn, Arc::clone(&screen)).unwrap();
    assert_eq!(ctx.curr_tag_id(), 5);
}

#[test]
fn snapshot_survives_later_screen_mutations() {
    let conn = Arc::new(0u8);
    let screen = Arc::new(Mutex::new(Screen::new(5)));
    let ctx = EventContext::new(Arc::clone(&conn), Arc::clone(&screen)).unwrap();
    assert_eq!(ctx.curr_tag_id(), 5);

    screen.lock().unwrap().set_focused_tag(8);

    // The already-constructed context keeps its snapshot; only a newly
    // constructed context observes the change.
    assert_eq!(ctx.curr_tag_id(), 5);
    let fresh = EventContext::new(conn, Arc::clone(&screen)).unwrap();
    assert_eq!(fresh.curr_tag_id(), 8);
    assert_eq!(ctx.curr_tag_id(), 5);
}

#[test]
fn from_snapshot_stores_the_given_tag() {
    let conn = Arc::new(0u8);
    let screen = Arc::new(Mutex::new(Screen::new(1)));
    let ctx = EventContext::from_snapshot(conn, screen, 77);
    assert_eq!(ctx.curr_tag_id(), 77);
}

#[test]
fn cloned_context_shares_the_snapshot() {
    let conn = Arc::new(0u8);
    let screen = Arc::new(Mutex::new(Screen::new(2)));
    let ctx = EventContext::new(conn, screen).unwrap();
    let copy = ctx.clone();
    assert_eq!(copy.curr_tag_id(), ctx.curr_tag_id());
}
