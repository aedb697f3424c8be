use vstd::prelude::*;

verus! {

/// The display-server connection handle of the xcb crate, opaque here.
/// Requests sent through it act on the display server only; no value of
/// this library changes.
#[verifier::external_type_specification]
#[verifier::external_body]
pub struct ExConnection(xcb::Connection);

/// Relies on xcb::map_window: sends one MapWindow request for `window`.
/// Fire-and-forget: the cookie is dropped, transport failures are unseen.
#[verifier::external_body]
pub(crate) fn request_map_window(conn: &xcb::Connection, window: u32) {
    xcb::map_window(conn, window);
}

/// Relies on xcb::unmap_window: sends one UnmapWindow request for `window`.
/// Fire-and-forget: the cookie is dropped, transport failures are unseen.
#[verifier::external_body]
pub(crate) fn request_unmap_window(conn: &xcb::Connection, window: u32) {
    xcb::unmap_window(conn, window);
}

/// Relies on xcb::destroy_window: sends one DestroyWindow request for
/// `window`. Fire-and-forget: the cookie is dropped, transport failures
/// are unseen.
#[verifier::external_body]
pub(crate) fn request_destroy_window(conn: &xcb::Connection, window: u32) {
    xcb::destroy_window(conn, window);
}

/// Relies on xcb::change_window_attributes: sends one
/// ChangeWindowAttributes request setting the border-pixel attribute of
/// `window` to `color`. Fire-and-forget.
#[verifier::external_body]
pub(crate) fn request_set_border_pixel(conn: &xcb::Connection, window: u32, color: u32) {
    xcb::change_window_attributes(conn, window, &[(xcb::CW_BORDER_PIXEL, color)]);
}

/// Relies on xcb::set_input_focus: sends one SetInputFocus request for
/// `window` with revert-to-parent semantics and the protocol's
/// current-time wildcard timestamp. Fire-and-forget.
#[verifier::external_body]
pub(crate) fn request_focus_window_revert_to_parent(conn: &xcb::Connection, window: u32) {
    xcb::set_input_focus(conn, xcb::INPUT_FOCUS_PARENT as u8, window, xcb::CURRENT_TIME);
}

/// Relies on xcb::change_window_attributes: sends one
/// ChangeWindowAttributes request enabling the PropertyChange and
/// StructureNotify event categories for `window`. Fire-and-forget.
#[verifier::external_body]
pub(crate) fn request_property_and_structure_events(conn: &xcb::Connection, window: u32) {
    xcb::change_window_attributes(
        conn,
        window,
        &[(xcb::CW_EVENT_MASK, xcb::EVENT_MASK_PROPERTY_CHANGE | xcb::EVENT_MASK_STRUCTURE_NOTIFY)],
    );
}

} // verus!
