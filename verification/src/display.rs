use vstd::prelude::*;

verus! {

/// How the 256 x 240 picture is placed in a window: scaled by a whole
/// number and centred.
#[derive(Clone, Copy, Debug)]
pub struct UiConfig {
    pub width: u32,
    pub height: u32,
    pub scale: u32,
    pub offset_x: u32,
    pub offset_y: u32,
}

/// The largest whole scale at which the picture fits the window.
pub open spec fn fit_scale(width: u32, height: u32) -> int {
    if width as int / 256 <= height as int / 240 {
        width as int / 256
    } else {
        height as int / 240
    }
}

impl UiConfig {
    /// Scale and offsets are the ones the window size calls for.
    pub open spec fn fitted(self) -> bool {
        &&& self.scale == fit_scale(self.width, self.height)
        &&& self.offset_x == (self.width - self.scale * 256) / 2
        &&& self.offset_y == (self.height - self.scale * 240) / 2
    }

    /// The placement for a window of at least 256 x 240.
    pub fn new(width: u32, height: u32) -> (r: Self)
        requires
            width >= 256,
            height >= 240,
        ensures
            r.width == width,
            r.height == height,
            r.scale >= 1,
            r.fitted(),
    {
        let mut cfg = UiConfig { width, height, scale: 0, offset_x: 0, offset_y: 0 };
        cfg.calculate_scale_and_offsets();
        cfg
    }

    /// Recomputes scale and offsets from the window size.
    pub fn calculate_scale_and_offsets(&mut self)
        requires
            old(self).width >= 256,
            old(self).height >= 240,
        ensures
            final(self).width == old(self).width,
            final(self).height == old(self).height,
            final(self).scale >= 1,
            final(self).fitted(),
    {
        let across = self.width / 256;
        let down = self.height / 240;
        self.scale = if across <= down {
            across
        } else {
            down
        };
        self.offset_x = (self.width - self.scale * 256) / 2;
        self.offset_y = (self.height - self.scale * 240) / 2;
    }
}

} // verus!
