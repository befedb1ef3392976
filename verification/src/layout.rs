//! How the toolbar overlay sizes itself.
use vstd::prelude::*;

verus! {

/// The children laid over the canvas by the toolbar overlay.
#[derive(Clone, Copy, Debug, PartialEq, Eq, Structural)]
pub enum OverlayChild {
    ColorPicker,
    PensTogglesBox,
    SidebarBox,
}

/// The overlay children whose size counts when the toolbar overlay is
/// measured, in the order they are registered.
pub open spec fn measured_children_spec() -> Seq<OverlayChild> {
    seq![OverlayChild::ColorPicker, OverlayChild::PensTogglesBox, OverlayChild::SidebarBox]
}

/// The overlay children whose size counts when the toolbar overlay is
/// measured: the colour picker, the box of pen toggles and the sidebar, so
/// that the canvas area never becomes smaller than the tools laid over it.
pub fn measured_overlay_children() -> (res: Vec<OverlayChild>)
    ensures
        res@ == measured_children_spec(),
{
    let mut v: Vec<OverlayChild> = Vec::new();
    v.push(OverlayChild::ColorPicker);
    v.push(OverlayChild::PensTogglesBox);
    v.push(OverlayChild::SidebarBox);
    v
}

} // verus!
