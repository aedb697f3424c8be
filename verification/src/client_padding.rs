use vstd::prelude::*;

verus! {

/// Edge offsets reserved around a client, consumed by the (external) layout.
#[derive(Clone, Copy, PartialEq, Eq, Debug, Structural)]
pub struct ClientPadding {
    pub top: u32,
    pub bottom: u32,
    pub left: u32,
    pub right: u32,
}

} // verus!
