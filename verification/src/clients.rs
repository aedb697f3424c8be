use vstd::prelude::*;

use crate::client_action::ClientAction;
use crate::client_padding::ClientPadding;
use crate::client_state::ClientState;
use crate::client_type::ClientType;
use crate::requests::request_destroy_window;
use crate::requests::request_focus_window_revert_to_parent;
use crate::requests::request_map_window;
use crate::requests::request_property_and_structure_events;
use crate::requests::request_set_border_pixel;
use crate::requests::request_unmap_window;

verus! {

/// The ID of a client: the window's resource id in the display protocol,
/// as carried by protocol events.
pub type ClientID = u32;

/// Mathematical model of a [`Client`]: the same data with the two
/// invariant-bearing vectors abstracted to sequences.
#[verifier::ext_equal]
pub ghost struct ClientView {
    pub wid: ClientID,
    pub wm_pid: Option<u32>,
    pub wm_class: Option<Seq<char>>,
    pub padding: ClientPadding,
    pub is_controlled: bool,
    pub kind: ClientType,
    pub states: Seq<ClientState>,
    pub allowed_actions: Seq<ClientAction>,
}

/// The view of a client with its state stack replaced.
pub open spec fn with_states(v: ClientView, states: Seq<ClientState>) -> ClientView {
    ClientView { states, ..v }
}

/// The view of a client with its action set replaced.
pub open spec fn with_actions(v: ClientView, allowed_actions: Seq<ClientAction>) -> ClientView {
    ClientView { allowed_actions, ..v }
}

/// The state stack after pushing `state`: unchanged when `state` is the
/// Tile sentinel (which is never stored) or already present (pushing a
/// present state is a no-op, not a move-to-top), else appended.
pub open spec fn pushed_states(states: Seq<ClientState>, state: ClientState) -> Seq<ClientState> {
    if state == ClientState::Tile || states.contains(state) {
        states
    } else {
        states.push(state)
    }
}

/// The action set after allowing `action`: unchanged when already present,
/// else appended.
pub open spec fn allowed_with(actions: Seq<ClientAction>, action: ClientAction) -> Seq<ClientAction> {
    if actions.contains(action) {
        actions
    } else {
        actions.push(action)
    }
}

/// The effective visual state encoded by a state stack: its last
/// (highest-priority) element, or the Tile sentinel when none is set.
pub open spec fn effective_state_of(states: Seq<ClientState>) -> ClientState {
    if states.len() == 0 {
        ClientState::Tile
    } else {
        states.last()
    }
}

/// One managed window: identity, metadata, padding, controlled flag,
/// ordered state stack and action set.
#[derive(Clone)]
pub struct Client {
    /// The window's protocol resource id; the client's primary key.
    pub wid: ClientID,

    /// The process id owning the window, when known.
    pub wm_pid: Option<u32>,

    /// The window's class name, when known.
    pub wm_class: Option<String>,

    /// Edge offsets consumed by the (external) layout.
    pub padding: ClientPadding,

    is_controlled: bool,

    kind: ClientType,

    /// Current protocol states, each unique, the last one effective.
    /// The Tile sentinel is never stored here.
    states: Vec<ClientState>,

    /// Currently allowed actions, each unique, order irrelevant.
    allowed_actions: Vec<ClientAction>,
}

impl View for Client {
    type V = ClientView;

    closed spec fn view(&self) -> ClientView {
        ClientView {
            wid: self.wid,
            wm_pid: self.wm_pid,
            wm_class: self.wm_class.deep_view(),
            padding: self.padding,
            is_controlled: self.is_controlled,
            kind: self.kind,
            states: self.states@,
            allowed_actions: self.allowed_actions@,
        }
    }
}

impl Client {
    /// Well-formedness: the state stack holds no duplicates and never the
    /// Tile sentinel; the action set holds no duplicates.
    pub open spec fn wf(self) -> bool {
        &&& self@.states.no_duplicates()
        &&& !self@.states.contains(ClientState::Tile)
        &&& self@.allowed_actions.no_duplicates()
    }

    /// A freshly observed window: controlled, of normal type, without
    /// padding, states, actions or metadata.
    pub fn new(wid: ClientID) -> (r: Self)
        ensures
            r.wf(),
            r@.wid == wid,
            r@.wm_pid is None,
            r@.wm_class is None,
            r@.padding == (ClientPadding { top: 0, bottom: 0, left: 0, right: 0 }),
            r@.is_controlled,
            r@.kind == ClientType::Normal,
            r@.states.len() == 0,
            r@.allowed_actions.len() == 0,
    {
        Client {
            wid,
            is_controlled: true,
            padding: ClientPadding { top: 0, bottom: 0, left: 0, right: 0 },
            kind: ClientType::Normal,
            states: Vec::new(),
            allowed_actions: Vec::new(),
            wm_class: None,
            wm_pid: None,
        }
    }

    /// Whether the window manager should manage this window's placement.
    #[inline]
    pub fn is_controlled(&self) -> (r: bool)
        ensures
            r == self@.is_controlled,
    {
        self.is_controlled
    }

    /// The window's class.
    pub fn kind(&self) -> (r: ClientType)
        ensures
            r == self@.kind,
    {
        self.kind
    }

    /// Asks the display server to make the window visible. The side effect
    /// is entirely remote: exactly one MapWindow request is emitted, its
    /// outcome is not observed (a documented limitation of this core).
    pub fn map(&self, conn: &xcb::Connection) {
        request_map_window(conn, self.wid);
    }

    /// Asks the display server to hide the window. The side effect is
    /// entirely remote: exactly one UnmapWindow request is emitted, its
    /// outcome is not observed (a documented limitation of this core).
    pub fn unmap(&self, conn: &xcb::Connection) {
        request_unmap_window(conn, self.wid);
    }

    /// Asks the display server to destroy the window. Only the request is
    /// sent; the client itself is not removed from any registry here, and
    /// the outcome is not observed (a documented limitation of this core).
    pub fn kill(&self, conn: &xcb::Connection) {
        request_destroy_window(conn, self.wid);
    }

    /// Sets the window's border-pixel attribute to `color` by one
    /// ChangeWindowAttributes request; the outcome is not observed
    /// (a documented limitation of this core).
    pub fn set_border(&self, conn: &xcb::Connection, color: u32) {
        request_set_border_pixel(conn, self.wid, color);
    }

    /// Gives the window input focus with revert-to-parent semantics and
    /// the protocol's current-time wildcard; the outcome is not observed
    /// (a documented limitation of this core).
    pub fn set_input_focus(&self, conn: &xcb::Connection) {
        request_focus_window_revert_to_parent(conn, self.wid);
    }

    /// Subscribes the event loop to this window's PropertyChange and
    /// StructureNotify events by one ChangeWindowAttributes request; the
    /// outcome is not observed (a documented limitation of this core).
    pub fn enable_event_mask(&self, conn: &xcb::Connection) {
        request_property_and_structure_events(conn, self.wid);
    }

    /// Whether `state` is currently on the state stack.
    pub fn has_state(&self, state: ClientState) -> (r: bool)
        ensures
            r == self@.states.contains(state),
    {
        let n = self.states.len();
        let mut i: usize = 0;
        while i < n
            invariant
                n == self.states@.len(),
                i <= n,
                forall|j: int| 0 <= j < i ==> self.states@[j] != state,
            decreases n - i,
        {
            if self.states[i] == state {
                return true;
            }
            i += 1;
        }
        false
    }

    /// The effective visual state: the last (highest-priority) stacked
    /// state, or the Tile sentinel when the stack is empty.
    pub fn effective_state(&self) -> (r: ClientState)
        ensures
            r == effective_state_of(self@.states),
    {
        let n = self.states.len();
        if n == 0 {
            ClientState::Tile
        } else {
            self.states[n - 1]
        }
    }

    /// Pushes `state` on top of the state stack. Pushing the Tile sentinel
    /// or an already-present state leaves the stack unchanged (the
    /// duplicate-push policy here is no-op, not move-to-top).
    pub fn push_state(&mut self, state: ClientState)
        requires
            old(self).wf(),
        ensures
            final(self).wf(),
            final(self)@ == with_states(old(self)@, pushed_states(old(self)@.states, state)),
    {
        if state == ClientState::Tile {
            return;
        }
        if !self.has_state(state) {
            self.states.push(state);
        }
    }

    /// Removes `state` from the state stack if present; a no-op otherwise.
    pub fn remove_state(&mut self, state: ClientState)
        requires
            old(self).wf(),
        ensures
            final(self).wf(),
            final(self)@ == with_states(old(self)@, old(self)@.states.remove_value(state)),
    {
        let ghost s = old(self).states@;
        let n = self.states.len();
        let mut i: usize = 0;
        while i < n
            invariant
                old(self).wf(),
                *self == *old(self),
                s == self.states@,
                n == s.len(),
                i <= n,
                forall|j: int| 0 <= j < i ==> s[j] != state,
            decreases n - i,
        {
            if self.states[i] == state {
                self.states.remove(i);
                proof {
                    s.index_of_first_ensures(state);
                    assert(s[i as int] == state);
                    match s.index_of_first(state) {
                        Some(idx) => {
                            assert(idx == i);
                        },
                        None => {
                            assert(false);
                        },
                    }
                    lemma_remove_keeps_no_duplicates(s, i as int);
                    lemma_remove_no_new_values(s, i as int);
                }
                return;
            }
            i += 1;
        }
        proof {
            s.index_of_first_ensures(state);
        }
    }

    /// Adds `action` to the allowed set; a no-op when already allowed.
    pub fn allow_action(&mut self, action: ClientAction)
        requires
            old(self).wf(),
        ensures
            final(self).wf(),
            final(self)@ == with_actions(
                old(self)@,
                allowed_with(old(self)@.allowed_actions, action),
            ),
    {
        if !self.is_action_allowed(action) {
            self.allowed_actions.push(action);
        }
    }

    /// Removes `action` from the allowed set if present; a no-op otherwise.
    pub fn disallow_action(&mut self, action: ClientAction)
        requires
            old(self).wf(),
        ensures
            final(self).wf(),
            final(self)@ == with_actions(
                old(self)@,
                old(self)@.allowed_actions.remove_value(action),
            ),
    {
        let ghost s = old(self).allowed_actions@;
        let n = self.allowed_actions.len();
        let mut i: usize = 0;
        while i < n
            invariant
                old(self).wf(),
                *self == *old(self),
                s == self.allowed_actions@,
                n == s.len(),
                i <= n,
                forall|j: int| 0 <= j < i ==> s[j] != action,
            decreases n - i,
        {
            if self.allowed_actions[i] == action {
                self.allowed_actions.remove(i);
                proof {
                    s.index_of_first_ensures(action);
                    assert(s[i as int] == action);
                    match s.index_of_first(action) {
                        Some(idx) => {
                            assert(idx == i);
                        },
                        None => {
                            assert(false);
                        },
                    }
                    lemma_remove_keeps_no_duplicates(s, i as int);
                }
                return;
            }
            i += 1;
        }
        proof {
            s.index_of_first_ensures(action);
        }
    }

    /// Whether `action` is currently allowed.
    pub fn is_action_allowed(&self, action: ClientAction) -> (r: bool)
        ensures
            r == self@.allowed_actions.contains(action),
    {
        let n = self.allowed_actions.len();
        let mut i: usize = 0;
        while i < n
            invariant
                n == self.allowed_actions@.len(),
                i <= n,
                forall|j: int| 0 <= j < i ==> self.allowed_actions@[j] != action,
            decreases n - i,
        {
            if self.allowed_actions[i] == action {
                return true;
            }
            i += 1;
        }
        false
    }
}

proof fn lemma_remove_keeps_no_duplicates<A>(s: Seq<A>, i: int)
    requires
        0 <= i < s.len(),
        s.no_duplicates(),
    ensures
        s.remove(i).no_duplicates(),
{
    s.remove_ensures(i);
    assert forall|a: int, b: int|
        0 <= a < s.remove(i).len() && 0 <= b < s.remove(i).len() && a != b implies s.remove(i)[a]
        != s.remove(i)[b] by {
        if a < i {
            assert(s.remove(i)[a] == s[a]);
        } else {
            assert(s.remove(i)[a] == s[a + 1]);
        }
        if b < i {
            assert(s.remove(i)[b] == s[b]);
        } else {
            assert(s.remove(i)[b] == s[b + 1]);
        }
    }
}

proof fn lemma_remove_no_new_values<A>(s: Seq<A>, i: int)
    requires
        0 <= i < s.len(),
    ensures
        forall|x: A| s.remove(i).contains(x) ==> s.contains(x),
{
    s.remove_ensures(i);
    assert forall|x: A| s.remove(i).contains(x) implies s.contains(x) by {
        let k = choose|k: int| 0 <= k < s.remove(i).len() && s.remove(i)[k] == x;
        if k < i {
            assert(s[k] == x);
        } else {
            assert(s[k + 1] == x);
        }
    }
}

/// Law: a well-formed client never stores the Tile sentinel, so no query
/// ever finds it on the state stack, whatever operations were performed.
pub proof fn lemma_tile_never_stored(c: Client)
    requires
        c.wf(),
    ensures
        !c@.states.contains(ClientState::Tile),
{
}

} // verus!
