use vstd::prelude::*;

verus! {

/// Logical display configuration, independent of any live GPU resource.
#[derive(Clone, Copy, Debug, PartialEq, Eq)]
pub struct DrawConfig {
    pub xres: u16,
    pub yres: u16,
    pub draw_offset: (i16, i16),
    pub draw_area_top_left: (u16, u16),
    pub draw_area_resolution: (u16, u16),
}

/// Horizontal resolution used before the host ever sets one.
pub const DEFAULT_XRES: u16 = 1024;

/// Vertical resolution used before the host ever sets one.
pub const DEFAULT_YRES: u16 = 512;

impl DrawConfig {
    /// The startup configuration: a 1024x512 buffer, zero offsets, empty draw area.
    pub open spec fn startup() -> DrawConfig {
        DrawConfig {
            xres: DEFAULT_XRES,
            yres: DEFAULT_YRES,
            draw_offset: (0, 0),
            draw_area_top_left: (0, 0),
            draw_area_resolution: (0, 0),
        }
    }

    pub fn new_default() -> (r: DrawConfig)
        ensures
            r == DrawConfig::startup(),
    {
        DrawConfig {
            xres: DEFAULT_XRES,
            yres: DEFAULT_YRES,
            draw_offset: (0, 0),
            draw_area_top_left: (0, 0),
            draw_area_resolution: (0, 0),
        }
    }
}

} // verus!
