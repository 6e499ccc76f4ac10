//! Settings for the window that the viewport opens.

use vstd::prelude::*;

verus! {

/// Title of a window whose title was never set.
pub open spec fn default_title() -> Seq<char> {
    "Uninitialized Window!"@
}

pub struct WindowBuilder {
    width: u32,
    height: u32,
    vsync: bool,
    title: String,
}

impl WindowBuilder {
    pub closed spec fn width_spec(&self) -> u32 {
        self.width
    }

    pub closed spec fn height_spec(&self) -> u32 {
        self.height
    }

    pub closed spec fn vsync_spec(&self) -> bool {
        self.vsync
    }

    pub closed spec fn title_spec(&self) -> Seq<char> {
        self.title@
    }

    /// Settings with no size yet, vertical sync on and a placeholder title.
    pub fn new() -> (r: WindowBuilder)
        ensures
            r.width_spec() == 0,
            r.height_spec() == 0,
            r.vsync_spec(),
            r.title_spec() == default_title(),
    {
        WindowBuilder {
            width: 0,
            height: 0,
            vsync: true,
            title: String::from_str("Uninitialized Window!"),
        }
    }

    pub fn with_dimensions(self, width: u32, height: u32) -> (r: WindowBuilder)
        ensures
            r.width_spec() == width,
            r.height_spec() == height,
            r.vsync_spec() == self.vsync_spec(),
            r.title_spec() == self.title_spec(),
    {
        let mut b = self;
        b.width = width;
        b.height = height;
        b
    }

    pub fn with_vsync(self) -> (r: WindowBuilder)
        ensures
            r.width_spec() == self.width_spec(),
            r.height_spec() == self.height_spec(),
            r.vsync_spec(),
            r.title_spec() == self.title_spec(),
    {
        let mut b = self;
        b.vsync = true;
        b
    }

    pub fn with_title(self, title: String) -> (r: WindowBuilder)
        ensures
            r.width_spec() == self.width_spec(),
            r.height_spec() == self.height_spec(),
            r.vsync_spec() == self.vsync_spec(),
            r.title_spec() == title@,
    {
        let mut b = self;
        b.title = title;
        b
    }

    pub fn width(&self) -> (r: u32)
        ensures
            r == self.width_spec(),
    {
        self.width
    }

    pub fn height(&self) -> (r: u32)
        ensures
            r == self.height_spec(),
    {
        self.height
    }

    pub fn vsync(&self) -> (r: bool)
        ensures
            r == self.vsync_spec(),
    {
        self.vsync
    }

    pub fn title(&self) -> (r: &str)
        ensures
            r@ == self.title_spec(),
    {
        self.title.as_str()
    }
}

} // verus!
