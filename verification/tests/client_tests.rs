use wmcore::Client;
use wmcore::ClientAction;
use wmcore::ClientState;
use wmcore::ClientType;

#[test]
fn new_client_has_defaults() {
    for wid in [0u32, 1, 42, u32::MAX] {
        let c = Client::new(wid);
        assert_eq!(c.wid, wid);
        assert!(c.is_controlled());
        assert_eq!(c.kind(), ClientType::Normal);
        assert_eq!(c.effective_state(), ClientState::Tile);
        assert!(c.wm_pid.is_none());
        assert!(c.wm_class.is_none());
        assert_eq!(c.padding.top, 0);
        assert_eq!(c.padding.bottom, 0);
        assert_eq!(c.padding.left, 0);
        assert_eq!(c.padding.right, 0);
        for s in [
            ClientState::Tile,
            ClientState::Fullscreen,
            ClientState::Maximized,
            ClientState::Sticky,
            ClientState::Hidden,
        ] {
            assert!(!c.has_state(s));
        }
        for a in [
            ClientAction::Move,
            ClientAction::Resize,
            ClientAction::Maximize,
            ClientAction::Fullscreen,
            ClientAction::ChangeTag,
            ClientAction::Close,
        ] {
            assert!(!c.is_action_allowed(a));
        }
    }
}

#[test]
fn last_pushed_state_is_effective() {
    let mut c = Client::new(1);
    c.push_state(ClientState::Fullscreen);
    assert_eq!(c.effective_state(), ClientState::Fullscreen);
    c.push_state(ClientState::Maximized);
    assert_eq!(c.effective_state(), ClientState::Maximized);
    assert!(c.has_state(ClientState::Fullscreen));
    assert!(c.has_state(ClientState::Maximized));
}

#[test]
fn removing_top_state_uncovers_previous() {
    // states = [Fullscreen, Maximized]; dropping Maximized leaves
    // Fullscreen effective.
    let mut c = Client::new(1);
    c.push_state(ClientState::Fullscreen);
    c.push_state(ClientState::Maximized);
    c.remove_state(ClientState::Maximized);
    assert_eq!(c.effective_state(), ClientState::Fullscreen);
    assert!(!c.has_state(ClientState::Maximized));
}

#[test]
fn duplicate_push_is_a_no_op() {
    let mut c = Client::new(1);
    c.push_state(ClientState::Fullscreen);
    c.push_state(ClientState::Maximized);
    // Pushing an already-present state neither duplicates it nor moves it
    // to the top.
    c.push_state(ClientState::Fullscreen);
    assert_eq!(c.effective_state(), ClientState::Maximized);
    // One removal erases the state entirely: no duplicate was stored.
    c.remove_state(ClientState::Fullscreen);
    assert!(!c.has_state(ClientState::Fullscreen));
    assert_eq!(c.effective_state(), ClientState::Maximized);
}

#[test]
fn tile_sentinel_is_never_stored() {
    let mut c = Client::new(1);
    c.push_state(ClientState::Tile);
    assert!(!c.has_state(ClientState::Tile));
    assert_eq!(c.effective_state(), ClientState::Tile);
    c.push_state(ClientState::Sticky);
    c.push_state(ClientState::Tile);
    assert!(!c.has_state(ClientState::Tile));
    assert_eq!(c.effective_state(), ClientState::Sticky);
}

#[test]
fn removing_an_absent_state_changes_nothing() {
    let mut c = Client::new(1);
    c.remove_state(ClientState::Hidden);
    assert_eq!(c.effective_state(), ClientState::Tile);
    c.push_state(ClientState::Fullscreen);
    c.remove_state(ClientState::Hidden);
    assert_eq!(c.effective_state(), ClientState::Fullscreen);
    assert!(c.has_state(ClientState::Fullscreen));
}

#[test]
fn allowed_actions_form_a_set() {
    let mut c = Client::new(1);
    c.allow_action(ClientAction::Move);
    c.allow_action(ClientAction::Close);
    assert!(c.is_action_allowed(ClientAction::Move));
    assert!(c.is_action_allowed(ClientAction::Close));
    assert!(!c.is_action_allowed(ClientAction::Resize));
    // Allowing twice stores nothing extra: one disallow erases it.
    c.allow_action(ClientAction::Move);
    c.disallow_action(ClientAction::Move);
    assert!(!c.is_action_allowed(ClientAction::Move));
    assert!(c.is_action_allowed(ClientAction::Close));
}

#[test]
fn disallowing_an_absent_action_changes_nothing() {
    let mut c = Client::new(1);
    c.disallow_action(ClientAction::Fullscreen);
    assert!(!c.is_action_allowed(ClientAction::Fullscreen));
    c.allow_action(ClientAction::Resize);
    c.disallow_action(ClientAction::Fullscreen);
    assert!(c.is_action_allowed(ClientAction::Resize));
}

#[test]
fn metadata_fields_are_plain_data() {
    let mut c = Client::new(9);
    c.wm_pid = Some(4321);
    c.wm_class = Some(String::from("term"));
    c.padding.top = 16;
    assert_eq!(c.wm_pid, Some(4321));
    assert_eq!(c.wm_class.as_deref(), Some("term"));
    assert_eq!(c.padding.top, 16);
}
