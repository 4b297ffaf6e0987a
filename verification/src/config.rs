//! Builder configuration for the window options.

use vstd::prelude::*;

verus! {

/// Builder configuration for the window options
#[derive(Clone)]
pub struct WindowConfig {
    /// Window's title
    pub title: String,
    /// Window's width
    pub width: i32,
    /// Window's height
    pub height: i32,
    /// Start window in fullscreen mode
    pub fullscreen: bool,
    /// Minimum resizable window's size
    pub min_size: Option<(i32, i32)>,
    /// Maximum resizable window's size
    pub max_size: Option<(i32, i32)>,
    /// Start the window maximized
    pub maximized: bool,
    /// Allow to resize the window
    pub resizable: bool,
    /// Enable V-Sync
    pub vsync: bool,
    /// Antialias multisamples level
    pub multisampling: u16,
    /// Whether a canvas sizes itself by the device pixel ratio
    pub canvas_auto_resolution: bool,
    /// Inner loop will run only after an input event
    pub lazy_loop: bool,
    /// Background as transparent
    pub transparent: bool,
    /// Enable decorations
    pub decorations: bool,
    /// Hide or show the window
    pub visible: bool,
}

impl Default for WindowConfig {
    /// The default window: 800x600, not fullscreen, no size bounds,
    /// decorated, visible, with multisampling off.
    fn default() -> (r: Self)
        ensures
            r.title@ == "Notan App"@,
            r.width == 800,
            r.height == 600,
            !r.fullscreen,
            r.min_size is None,
            r.max_size is None,
            !r.maximized,
            !r.resizable,
            !r.vsync,
            r.multisampling == 0,
            r.canvas_auto_resolution,
            !r.lazy_loop,
            !r.transparent,
            r.decorations,
            r.visible,
    {
        Self {
            title: "Notan App".to_owned(),
            width: 800,
            height: 600,
            fullscreen: false,
            min_size: None,
            max_size: None,
            maximized: false,
            resizable: false,
            vsync: false,
            multisampling: 0,
            canvas_auto_resolution: true,
            lazy_loop: false,
            transparent: false,
            decorations: true,
            visible: true,
        }
    }
}

impl WindowConfig {
    /// Create a new instance using default values
    pub fn new() -> (r: Self)
        ensures
            r.title@ == "Notan App"@,
            r.width == 800,
            r.height == 600,
            !r.fullscreen,
            r.min_size is None,
            r.max_size is None,
            !r.maximized,
            !r.resizable,
            !r.vsync,
            r.multisampling == 0,
            r.canvas_auto_resolution,
            !r.lazy_loop,
            !r.transparent,
            r.decorations,
            r.visible,
    {
        <Self as Default>::default()
    }

    /// Sets the window's title
    pub fn title(self, title: &str) -> (r: Self)
        ensures
            r == (WindowConfig { title: r.title, ..self }),
            r.title@ == title@,
    {
        let mut s = self;
        s.title = title.to_owned();
        s
    }

    /// Inner loop will run only after an input event
    pub fn lazy_loop(self, lazy: bool) -> (r: Self)
        ensures
            r == (WindowConfig { lazy_loop: lazy, ..self }),
    {
        let mut s = self;
        s.lazy_loop = lazy;
        s
    }

    /// Sets the window's width and height
    pub fn size(self, width: i32, height: i32) -> (r: Self)
        ensures
            r == (WindowConfig { width: width, height: height, ..self }),
    {
        let mut s = self;
        s.width = width;
        s.height = height;
        s
    }

    /// Enable fullscreen mode
    pub fn fullscreen(self, fullscreen: bool) -> (r: Self)
        ensures
            r == (WindowConfig { fullscreen: fullscreen, ..self }),
    {
        let mut s = self;
        s.fullscreen = fullscreen;
        s
    }

    /// Sets the window's minimum size
    pub fn min_size(self, width: i32, height: i32) -> (r: Self)
        ensures
            r == (WindowConfig { min_size: Some((width, height)), ..self }),
    {
        let mut s = self;
        s.min_size = Some((width, height));
        s
    }

    /// Sets the window's maximum size
    pub fn max_size(self, width: i32, height: i32) -> (r: Self)
        ensures
            r == (WindowConfig { max_size: Some((width, height)), ..self }),
    {
        let mut s = self;
        s.max_size = Some((width, height));
        s
    }

    /// Starts the window maximized
    pub fn maximized(self, maximized: bool) -> (r: Self)
        ensures
            r == (WindowConfig { maximized: maximized, ..self }),
    {
        let mut s = self;
        s.maximized = maximized;
        s
    }

    /// Allow the window to be resizable
    pub fn resizable(self, resizable: bool) -> (r: Self)
        ensures
            r == (WindowConfig { resizable: resizable, ..self }),
    {
        let mut s = self;
        s.resizable = resizable;
        s
    }

    /// Enable vsync
    pub fn vsync(self, vsync: bool) -> (r: Self)
        ensures
            r == (WindowConfig { vsync: vsync, ..self }),
    {
        let mut s = self;
        s.vsync = vsync;
        s
    }

    /// Enabled multisampling aliasing (opengl)
    pub fn multisampling(self, samples: u16) -> (r: Self)
        ensures
            r == (WindowConfig { multisampling: samples, ..self }),
    {
        let mut s = self;
        s.multisampling = samples;
        s
    }

    /// Enable or disable that the size of the canvas will automatically use
    /// the device pixel ratio
    pub fn canvas_auto_resolution(self, enabled: bool) -> (r: Self)
        ensures
            r == (WindowConfig { canvas_auto_resolution: enabled, ..self }),
    {
        let mut s = self;
        s.canvas_auto_resolution = enabled;
        s
    }

    /// Set the background as transparent
    pub fn transparent(self, transparent: bool) -> (r: Self)
        ensures
            r == (WindowConfig { transparent: transparent, ..self }),
    {
        let mut s = self;
        s.transparent = transparent;
        s
    }

    /// Enable or disable decorations
    pub fn decorations(self, decorations: bool) -> (r: Self)
        ensures
            r == (WindowConfig { decorations: decorations, ..self }),
    {
        let mut s = self;
        s.decorations = decorations;
        s
    }

    /// Hide or show the window
    pub fn visible(self, visible: bool) -> (r: Self)
        ensures
            r == (WindowConfig { visible: visible, ..self }),
    {
        let mut s = self;
        s.visible = visible;
        s
    }
}

} // verus!
