//! State of the image viewer.
//!
//! The viewer tracks how an image is shown: zoom (in tenths, so a factor of
//! 1.0 is ten tenths), aspect-ratio preservation, the preferred display
//! method, and the resolution level, together with the data for a
//! higher-resolution reload.

use vstd::prelude::*;
use vstd::string::StringExecFns;

verus! {

/// Smallest zoom, in tenths of the natural size.
pub const MIN_ZOOM_TENTHS: u32 = 1;

/// The natural size, in tenths.
pub const DEFAULT_ZOOM_TENTHS: u32 = 10;

/// Largest zoom, in tenths of the natural size.
pub const MAX_ZOOM_TENTHS: u32 = 30;

/// Available display methods for images.
#[derive(Clone, Copy, PartialEq, Eq, Structural, Debug)]
pub enum DisplayMethod {
    /// Automatically select the best available method.
    Auto,
    /// Use the kitty graphics protocol.
    Kitty,
    /// Use the iTerm2 graphics protocol.
    ITerm,
    /// Use SIXEL graphics.
    Sixel,
    /// Use basic terminal rendering.
    Basic,
}

impl Default for DisplayMethod {
    /// The default method selects automatically.
    fn default() -> (r: Self)
        ensures
            r == DisplayMethod::Auto,
    {
        DisplayMethod::Auto
    }
}

/// Available resolution levels for images.
#[derive(Clone, Copy, PartialEq, Eq, Structural, Debug)]
pub enum ResolutionLevel {
    /// Low resolution (thumbnail).
    Low,
    /// Medium resolution.
    Medium,
    /// High or full resolution.
    High,
}

impl Default for ResolutionLevel {
    /// Images load at low resolution first.
    fn default() -> (r: Self)
        ensures
            r == ResolutionLevel::Low,
    {
        ResolutionLevel::Low
    }
}

/// State of the image viewer.
pub struct ImageViewerState {
    /// Name of the image.
    pub image_name: String,
    /// Current zoom, in tenths of the natural size.
    pub zoom_tenths: u32,
    /// Whether to preserve the aspect ratio.
    pub preserve_aspect: bool,
    /// Preferred display method.
    pub display_method: DisplayMethod,
    /// Current resolution level.
    pub resolution_level: ResolutionLevel,
    /// Original image URL, for fetching a higher resolution.
    pub original_url: Option<String>,
    /// Whether a higher-resolution load is in flight.
    pub is_high_res_loading: bool,
    /// Higher-resolution image data, once loaded.
    pub high_res_data: Option<Vec<u8>>,
}

/// A well-formed viewer keeps its zoom within its bounds.
pub open spec fn zoom_in_bounds(v: ImageViewerState) -> bool {
    MIN_ZOOM_TENTHS <= v.zoom_tenths <= MAX_ZOOM_TENTHS
}

impl ImageViewerState {
    /// A fresh viewer for the named image: natural size, aspect ratio kept,
    /// automatic display method, low resolution.
    pub fn new(image_name: &str) -> (r: ImageViewerState)
        ensures
            r.image_name@ == image_name@,
            r.zoom_tenths == DEFAULT_ZOOM_TENTHS,
            r.preserve_aspect,
            r.display_method == DisplayMethod::Auto,
            r.resolution_level == ResolutionLevel::Low,
            r.original_url is None,
            !r.is_high_res_loading,
            r.high_res_data is None,
            zoom_in_bounds(r),
    {
        ImageViewerState {
            image_name: String::from_str(image_name),
            zoom_tenths: DEFAULT_ZOOM_TENTHS,
            preserve_aspect: true,
            display_method: DisplayMethod::Auto,
            resolution_level: ResolutionLevel::Low,
            original_url: None,
            is_high_res_loading: false,
            high_res_data: None,
        }
    }

    /// A fresh viewer that remembers the URL the image came from, for
    /// fetching a higher resolution later.
    pub fn with_original_url(image_name: &str, original_url: Option<String>) -> (r:
        ImageViewerState)
        ensures
            r.image_name@ == image_name@,
            r.zoom_tenths == DEFAULT_ZOOM_TENTHS,
            r.preserve_aspect,
            r.display_method == DisplayMethod::Auto,
            r.resolution_level == ResolutionLevel::Low,
            r.original_url == original_url,
            !r.is_high_res_loading,
            r.high_res_data is None,
            zoom_in_bounds(r),
    {
        ImageViewerState {
            image_name: String::from_str(image_name),
            zoom_tenths: DEFAULT_ZOOM_TENTHS,
            preserve_aspect: true,
            display_method: DisplayMethod::Auto,
            resolution_level: ResolutionLevel::Low,
            original_url,
            is_high_res_loading: false,
            high_res_data: None,
        }
    }

    /// A fresh viewer with a specific display method.
    pub fn with_display_method(image_name: &str, method: DisplayMethod) -> (r: ImageViewerState)
        ensures
            r.image_name@ == image_name@,
            r.zoom_tenths == DEFAULT_ZOOM_TENTHS,
            r.preserve_aspect,
            r.display_method == method,
            r.resolution_level == ResolutionLevel::Low,
            r.original_url is None,
            !r.is_high_res_loading,
            r.high_res_data is None,
            zoom_in_bounds(r),
    {
        ImageViewerState {
            image_name: String::from_str(image_name),
            zoom_tenths: DEFAULT_ZOOM_TENTHS,
            preserve_aspect: true,
            display_method: method,
            resolution_level: ResolutionLevel::Low,
            original_url: None,
            is_high_res_loading: false,
            high_res_data: None,
        }
    }

    /// Zoom in one step, capped at the largest zoom.
    pub fn zoom_in(&mut self)
        requires
            zoom_in_bounds(*old(self)),
        ensures
            final(self).zoom_tenths == if old(self).zoom_tenths + 1 > MAX_ZOOM_TENTHS {
                MAX_ZOOM_TENTHS as int
            } else {
                old(self).zoom_tenths + 1
            },
            *final(self) == (ImageViewerState { zoom_tenths: final(self).zoom_tenths, ..*old(self) }),
            zoom_in_bounds(*final(self)),
    {
        if self.zoom_tenths < MAX_ZOOM_TENTHS {
            self.zoom_tenths = self.zoom_tenths + 1;
        }
    }

    /// Zoom out one step, floored at the smallest zoom.
    pub fn zoom_out(&mut self)
        requires
            zoom_in_bounds(*old(self)),
        ensures
            final(self).zoom_tenths == if old(self).zoom_tenths - 1 < MIN_ZOOM_TENTHS {
                MIN_ZOOM_TENTHS as int
            } else {
                old(self).zoom_tenths - 1
            },
            *final(self) == (ImageViewerState { zoom_tenths: final(self).zoom_tenths, ..*old(self) }),
            zoom_in_bounds(*final(self)),
    {
        if self.zoom_tenths > MIN_ZOOM_TENTHS {
            self.zoom_tenths = self.zoom_tenths - 1;
        }
    }

    /// Back to the natural size.
    pub fn reset_zoom(&mut self)
        ensures
            *final(self) == (ImageViewerState { zoom_tenths: DEFAULT_ZOOM_TENTHS, ..*old(self) }),
            zoom_in_bounds(*final(self)),
    {
        self.zoom_tenths = DEFAULT_ZOOM_TENTHS;
    }

    /// Toggle aspect-ratio preservation.
    pub fn toggle_aspect_ratio(&mut self)
        ensures
            *final(self) == (ImageViewerState {
                preserve_aspect: !old(self).preserve_aspect,
                ..*old(self)
            }),
    {
        self.preserve_aspect = !self.preserve_aspect;
    }

    /// Cycle to the next display method, in a fixed round.
    pub fn cycle_display_method(&mut self)
        ensures
            final(self).display_method == (match old(self).display_method {
                DisplayMethod::Auto => DisplayMethod::Kitty,
                DisplayMethod::Kitty => DisplayMethod::ITerm,
                DisplayMethod::ITerm => DisplayMethod::Sixel,
                DisplayMethod::Sixel => DisplayMethod::Basic,
                DisplayMethod::Basic => DisplayMethod::Auto,
            }),
            *final(self) == (ImageViewerState {
                display_method: final(self).display_method,
                ..*old(self)
            }),
    {
        self.display_method = match self.display_method {
            DisplayMethod::Auto => DisplayMethod::Kitty,
            DisplayMethod::Kitty => DisplayMethod::ITerm,
            DisplayMethod::ITerm => DisplayMethod::Sixel,
            DisplayMethod::Sixel => DisplayMethod::Basic,
            DisplayMethod::Basic => DisplayMethod::Auto,
        };
    }

    /// The display method's name, as shown to the user.
    pub fn display_method_name(&self) -> (r: &'static str)
        ensures
            self.display_method is Auto ==> r@ == "Auto"@,
            self.display_method is Kitty ==> r@ == "Kitty"@,
            self.display_method is ITerm ==> r@ == "iTerm2"@,
            self.display_method is Sixel ==> r@ == "SIXEL"@,
            self.display_method is Basic ==> r@ == "Basic"@,
    {
        match self.display_method {
            DisplayMethod::Auto => "Auto",
            DisplayMethod::Kitty => "Kitty",
            DisplayMethod::ITerm => "iTerm2",
            DisplayMethod::Sixel => "SIXEL",
            DisplayMethod::Basic => "Basic",
        }
    }

    /// The resolution level's name, as shown to the user.
    pub fn get_resolution_name(&self) -> (r: &'static str)
        ensures
            self.resolution_level is Low ==> r@ == "Low"@,
            self.resolution_level is Medium ==> r@ == "Medium"@,
            self.resolution_level is High ==> r@ == "High"@,
    {
        match self.resolution_level {
            ResolutionLevel::Low => "Low",
            ResolutionLevel::Medium => "Medium",
            ResolutionLevel::High => "High",
        }
    }

    /// Step the resolution up one level; at the top nothing changes and the
    /// call says so.
    pub fn increase_resolution(&mut self) -> (r: bool)
        ensures
            r == !(old(self).resolution_level is High),
            final(self).resolution_level == (match old(self).resolution_level {
                ResolutionLevel::Low => ResolutionLevel::Medium,
                ResolutionLevel::Medium => ResolutionLevel::High,
                ResolutionLevel::High => ResolutionLevel::High,
            }),
            *final(self) == (ImageViewerState {
                resolution_level: final(self).resolution_level,
                ..*old(self)
            }),
    {
        match self.resolution_level {
            ResolutionLevel::Low => {
                self.resolution_level = ResolutionLevel::Medium;
                true
            },
            ResolutionLevel::Medium => {
                self.resolution_level = ResolutionLevel::High;
                true
            },
            ResolutionLevel::High => false,
        }
    }

    /// Whether a higher resolution can still be fetched: not yet at the top,
    /// and the original URL is known.
    pub fn can_increase_resolution(&self) -> (r: bool)
        ensures
            r == (!(self.resolution_level is High) && self.original_url is Some),
    {
        !matches!(self.resolution_level, ResolutionLevel::High) && self.original_url.is_some()
    }

    /// The display size for the current zoom: the terminal area less fixed
    /// margins, scaled by the zoom, and never smaller than a readable
    /// minimum.
    pub fn calculate_dimensions(&self, term_width: u32, term_height: u32) -> (r: (u32, u32))
        requires
            zoom_in_bounds(*self),
        ensures
            r.0 == spec_scaled_dimension(term_width as int, 4, self.zoom_tenths as int, 10),
            r.1 == spec_scaled_dimension(term_height as int, 6, self.zoom_tenths as int, 5),
    {
        let available_width: u32 = if term_width > 4 {
            term_width - 4
        } else {
            0
        };
        let available_height: u32 = if term_height > 6 {
            term_height - 6
        } else {
            0
        };
        proof {
            assert((available_width as u64) * (self.zoom_tenths as u64) <= 0xffffffff * 30)
                by (nonlinear_arith)
                requires
                    available_width <= 0xffffffff && self.zoom_tenths <= 30,
            ;
            assert((available_height as u64) * (self.zoom_tenths as u64) <= 0xffffffff * 30)
                by (nonlinear_arith)
                requires
                    available_height <= 0xffffffff && self.zoom_tenths <= 30,
            ;
        }
        let w64: u64 = (available_width as u64) * (self.zoom_tenths as u64) / 10;
        let h64: u64 = (available_height as u64) * (self.zoom_tenths as u64) / 10;
        let w_capped: u64 = if w64 > 0xffffffff {
            0xffffffff
        } else {
            w64
        };
        let h_capped: u64 = if h64 > 0xffffffff {
            0xffffffff
        } else {
            h64
        };
        let width: u32 = if w_capped < 10 {
            10
        } else {
            w_capped as u32
        };
        let height: u32 = if h_capped < 5 {
            5
        } else {
            h_capped as u32
        };
        (width, height)
    }
}

/// One display dimension: the terminal extent less its margin, scaled by the
/// zoom in tenths, capped at the dimension type's range, and floored at the
/// given minimum.
pub open spec fn spec_scaled_dimension(extent: int, margin: int, zoom_tenths: int, min: int) -> int {
    let available = if extent > margin {
        extent - margin
    } else {
        0
    };
    let scaled = available * zoom_tenths / 10;
    let capped = if scaled > 0xffffffff {
        0xffffffff
    } else {
        scaled
    };
    if capped < min {
        min
    } else {
        capped
    }
}

} // verus!
