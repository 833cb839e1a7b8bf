//! Configuration of the GUI layer that is drawn over the particle view.

use vstd::prelude::*;

verus! {

/// Options of the GUI layer.
pub struct GuiConfig {
    /// Whether the GUI may be drawn on a render target with an sRGB format.
    /// The GUI blends in linear colour space, so an sRGB target slightly
    /// discolours it; it prefers UNORM targets.
    pub allow_srgb_render_target: bool,
}

impl Default for GuiConfig {
    /// The default configuration does not allow sRGB render targets.
    fn default() -> (config: Self)
        ensures
            !config.allow_srgb_render_target,
    {
        GuiConfig { allow_srgb_render_target: false }
    }
}

impl GuiConfig {
    /// Whether this configuration accepts an output format, given whether the
    /// colour components of that format are sRGB: every format that is not
    /// sRGB is accepted, an sRGB one only if `allow_srgb_render_target` is set.
    pub open spec fn accepts(&self, output_is_srgb: bool) -> bool {
        output_is_srgb ==> self.allow_srgb_render_target
    }

    /// Checks an output format against the configuration. The caller says
    /// whether the format's colour components are sRGB, and must not draw on
    /// the target when the answer is `false`.
    pub fn validate(&self, output_is_srgb: bool) -> (accepted: bool)
        ensures
            accepted == self.accepts(output_is_srgb),
    {
        !output_is_srgb || self.allow_srgb_render_target
    }
}

} // verus!
