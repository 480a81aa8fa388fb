//! Presentation options of the frame widget: how a frame fits the widget,
//! where it is anchored, and how its texture is sampled.

use vstd::prelude::*;
use vstd::string::StringExecFns;

verus! {

/// How the frame's content fits within the widget bounds.
#[derive(Debug, Clone, Copy, PartialEq, Eq, Hash, Structural)]
pub enum ContentFit {
    /// Stretch to fill — ignores aspect ratio.
    Fill,
    /// Scale uniformly so the entire frame is visible (letterbox).
    Contain,
    /// Scale uniformly so the widget is entirely covered (crop).
    Cover,
    /// Scale uniformly to match the widget width.
    FitWidth,
    /// Scale uniformly to match the widget height.
    FitHeight,
    /// No scaling — draw at native pixel size, clip overflow.
    Unscaled,
}

/// Where the frame is anchored when it doesn't fill the widget.
#[derive(Debug, Clone, Copy, PartialEq, Eq, Hash, Structural)]
pub enum Alignment {
    TopLeft,
    TopCenter,
    TopRight,
    CenterLeft,
    Center,
    CenterRight,
    BottomLeft,
    BottomCenter,
    BottomRight,
}

/// Texture sampling filter.
#[derive(Debug, Clone, Copy, PartialEq, Eq, Hash, Structural)]
pub enum FilterMode {
    /// Bilinear interpolation — smooth.
    Linear,
    /// Nearest-neighbor — sharp pixel boundaries.
    Nearest,
}

impl Default for ContentFit {
    fn default() -> (r: ContentFit)
        ensures
            r == ContentFit::Fill,
    {
        ContentFit::Fill
    }
}

impl Default for Alignment {
    fn default() -> (r: Alignment)
        ensures
            r == Alignment::Center,
    {
        Alignment::Center
    }
}

impl Default for FilterMode {
    fn default() -> (r: FilterMode)
        ensures
            r == FilterMode::Linear,
    {
        FilterMode::Linear
    }
}

/// The display name of a content fit.
pub open spec fn content_fit_name(f: ContentFit) -> Seq<char> {
    match f {
        ContentFit::Fill => "Fill"@,
        ContentFit::Contain => "Contain"@,
        ContentFit::Cover => "Cover"@,
        ContentFit::FitWidth => "FitWidth"@,
        ContentFit::FitHeight => "FitHeight"@,
        ContentFit::Unscaled => "None"@,
    }
}

/// The display name of an alignment.
pub open spec fn alignment_name(a: Alignment) -> Seq<char> {
    match a {
        Alignment::TopLeft => "TopLeft"@,
        Alignment::TopCenter => "TopCenter"@,
        Alignment::TopRight => "TopRight"@,
        Alignment::CenterLeft => "CenterLeft"@,
        Alignment::Center => "Center"@,
        Alignment::CenterRight => "CenterRight"@,
        Alignment::BottomLeft => "BottomLeft"@,
        Alignment::BottomCenter => "BottomCenter"@,
        Alignment::BottomRight => "BottomRight"@,
    }
}

/// The display name of a filter mode.
pub open spec fn filter_mode_name(m: FilterMode) -> Seq<char> {
    match m {
        FilterMode::Linear => "Linear"@,
        FilterMode::Nearest => "Nearest"@,
    }
}

impl ContentFit {
    /// The display name, as shown in option pickers.
    pub fn to_string(&self) -> (r: String)
        ensures
            r@ == content_fit_name(*self),
    {
        match self {
            ContentFit::Fill => String::from_str("Fill"),
            ContentFit::Contain => String::from_str("Contain"),
            ContentFit::Cover => String::from_str("Cover"),
            ContentFit::FitWidth => String::from_str("FitWidth"),
            ContentFit::FitHeight => String::from_str("FitHeight"),
            ContentFit::Unscaled => String::from_str("None"),
        }
    }
}

impl Alignment {
    /// The display name, as shown in option pickers.
    pub fn to_string(&self) -> (r: String)
        ensures
            r@ == alignment_name(*self),
    {
        match self {
            Alignment::TopLeft => String::from_str("TopLeft"),
            Alignment::TopCenter => String::from_str("TopCenter"),
            Alignment::TopRight => String::from_str("TopRight"),
            Alignment::CenterLeft => String::from_str("CenterLeft"),
            Alignment::Center => String::from_str("Center"),
            Alignment::CenterRight => String::from_str("CenterRight"),
            Alignment::BottomLeft => String::from_str("BottomLeft"),
            Alignment::BottomCenter => String::from_str("BottomCenter"),
            Alignment::BottomRight => String::from_str("BottomRight"),
        }
    }
}

impl FilterMode {
    /// The display name, as shown in option pickers.
    pub fn to_string(&self) -> (r: String)
        ensures
            r@ == filter_mode_name(*self),
    {
        match self {
            FilterMode::Linear => String::from_str("Linear"),
            FilterMode::Nearest => String::from_str("Nearest"),
        }
    }
}

} // verus!
