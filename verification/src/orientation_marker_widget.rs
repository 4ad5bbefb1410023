//! Configuration of the widget that shows an orientation marker — such
//! as a set of axes — in a corner of the render window.

use vstd::prelude::*;

verus! {

/// Requested state of an orientation-marker widget.
pub struct OrientationMarkerWidget {
    enabled: bool,
    interactive: bool,
}

impl OrientationMarkerWidget {
    /// Whether the widget is shown.
    pub closed spec fn enabled(&self) -> bool {
        self.enabled
    }

    /// Whether the widget responds to mouse events.
    pub closed spec fn interactive(&self) -> bool {
        self.interactive
    }

    /// Initial configuration: hidden, and interactive once shown.
    pub fn new() -> (widget: Self)
        ensures
            widget.enabled() == false,
            widget.interactive() == true,
    {
        OrientationMarkerWidget { enabled: false, interactive: true }
    }

    /// Shows or hides the widget.
    pub fn set_enabled(&mut self, enabled: bool)
        ensures
            final(self).enabled() == enabled,
            final(self).interactive() == old(self).interactive(),
    {
        self.enabled = enabled;
    }

    /// Stops the widget from responding to mouse events.
    pub fn interactive_off(&mut self)
        ensures
            final(self).interactive() == false,
            final(self).enabled() == old(self).enabled(),
    {
        self.interactive = false;
    }
}

} // verus!
