use vstd::prelude::*;

verus! {

/// The family of display the host drawable belongs to. The backend only needs
/// to know which capability variant to construct; it never dereferences the
/// value.
#[derive(Clone, Copy, Debug, PartialEq, Eq, Structural)]
pub enum DisplayKind {
    Web,
}

/// A cheaply copyable stand-in for a host-owned drawable region.
///
/// The handle carries no ownership of host resources: it is a stable logical
/// tag, and every capability query below reports that same tag
/// deterministically, which is all the graphics backend requires to locate
/// the drawable.
#[derive(Clone, Copy, Debug, PartialEq, Eq, Structural)]
pub struct CanvasProxy {
    pub id: u32,
}

impl CanvasProxy {
    /// Wrap the host's logical drawable tag.
    pub fn new(id: u32) -> (r: CanvasProxy)
        ensures
            r.id == id,
    {
        CanvasProxy { id }
    }

    /// The window-handle capability: the logical tag, the same on every call.
    pub fn window_handle(&self) -> (r: u32)
        ensures
            r == self.id,
    {
        self.id
    }

    /// The display-handle capability: a variant tag only, with no payload to
    /// dereference.
    pub fn display_handle(&self) -> (r: DisplayKind)
        ensures
            r == DisplayKind::Web,
    {
        DisplayKind::Web
    }

    /// The tag that the out-of-band binding step writes onto the host
    /// drawable, so the backend can match the drawable against the
    /// window-handle capability. It equals the tag that `window_handle`
    /// reports.
    pub fn binding_tag(&self) -> (r: u32)
        ensures
            r == self.id,
    {
        self.id
    }
}

} // verus!
