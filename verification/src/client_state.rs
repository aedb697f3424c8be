use vstd::prelude::*;

verus! {

/// A protocol-level window state (a `_NET_WM_STATE`-style atom).
///
/// `Tile` is a reserved sentinel meaning "no explicit state configured".
/// It is never stored in a client's state stack; queries return it to
/// report that the stack is empty.
#[derive(Clone, Copy, PartialEq, Eq, Debug, Structural)]
pub enum ClientState {
    /// Sentinel: no explicit state configured. Never stored in a stack.
    Tile,
    Fullscreen,
    Maximized,
    Sticky,
    Hidden,
}

} // verus!
