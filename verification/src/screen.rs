use vstd::prelude::*;

verus! {

/// A workspace (tag) identifier. Tags are opaque to this core beyond
/// their id.
pub type TagID = u32;

/// The shared session object. It is external to this core except as a
/// locked resource; only what the core reads of it is modeled here: the
/// id of the currently focused tag.
pub struct Screen {
    focused_tag_id: TagID,
}

impl Screen {
    /// The id of the currently focused tag.
    pub closed spec fn focused_tag_id_spec(&self) -> TagID {
        self.focused_tag_id
    }

    /// A session whose focused tag is `focused_tag_id`.
    pub fn new(focused_tag_id: TagID) -> (r: Self)
        ensures
            r.focused_tag_id_spec() == focused_tag_id,
    {
        Screen { focused_tag_id }
    }

    /// Reads the id of the currently focused tag.
    pub fn focused_tag_id(&self) -> (r: TagID)
        ensures
            r == self.focused_tag_id_spec(),
    {
        self.focused_tag_id
    }

    /// Focuses the tag with id `tag`.
    pub fn set_focused_tag(&mut self, tag: TagID)
        ensures
            final(self).focused_tag_id_spec() == tag,
    {
        self.focused_tag_id = tag;
    }
}

} // verus!
