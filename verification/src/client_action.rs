use vstd::prelude::*;

verus! {

/// A protocol-level action the window manager may perform on a client
/// (a `_NET_WM_ALLOWED_ACTIONS`-style atom).
#[derive(Clone, Copy, PartialEq, Eq, Debug, Structural)]
pub enum ClientAction {
    Move,
    Resize,
    Maximize,
    Fullscreen,
    ChangeTag,
    Close,
}

} // verus!
