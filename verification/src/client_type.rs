use vstd::prelude::*;

verus! {

/// The class of a window, as reported by the display protocol.
/// `Normal` is the default for newly observed windows.
#[derive(Clone, Copy, PartialEq, Eq, Debug, Structural)]
pub enum ClientType {
    Normal,
    Dock,
    Dialog,
}

} // verus!
