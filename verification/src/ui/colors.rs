//! The color palette of the table view, as plain RGB triples. The terminal
//! layer turns them into whatever color type its backend wants.

use vstd::prelude::*;

verus! {

/// A 24-bit color.
#[derive(Clone, Copy, Debug, PartialEq, Eq, Structural)]
pub struct Rgb {
    pub r: u8,
    pub g: u8,
    pub b: u8,
}

pub open spec fn white() -> Rgb {
    Rgb { r: 0xff, g: 0xff, b: 0xff }
}

pub open spec fn lime_500() -> Rgb {
    Rgb { r: 0x84, g: 0xcc, b: 0x16 }
}

pub open spec fn yellow_500() -> Rgb {
    Rgb { r: 0xea, g: 0xb3, b: 0x08 }
}

pub open spec fn orange_600() -> Rgb {
    Rgb { r: 0xea, g: 0x58, b: 0x0c }
}

pub open spec fn violet_900() -> Rgb {
    Rgb { r: 0x4c, g: 0x1d, b: 0x95 }
}

pub open spec fn violet_400() -> Rgb {
    Rgb { r: 0xa7, g: 0x8b, b: 0xfa }
}

pub open spec fn slate_950() -> Rgb {
    Rgb { r: 0x02, g: 0x06, b: 0x17 }
}

pub open spec fn slate_900() -> Rgb {
    Rgb { r: 0x0f, g: 0x17, b: 0x2a }
}

pub open spec fn neutral_600() -> Rgb {
    Rgb { r: 0x52, g: 0x52, b: 0x52 }
}

/// The palette the renderer draws with, one immutable record per view.
pub struct AppColor {
    pub row_fg: Rgb,
    pub selected_row_style_fg: Rgb,
    pub normal_row_color: Rgb,
    pub alt_row_color: Rgb,
    pub footer_border_color: Rgb,
}

/// The one palette this tool uses.
pub open spec fn app_color_spec() -> AppColor {
    AppColor {
        row_fg: white(),
        selected_row_style_fg: violet_900(),
        normal_row_color: slate_950(),
        alt_row_color: slate_900(),
        footer_border_color: neutral_600(),
    }
}

impl AppColor {
    pub fn new() -> (c: AppColor)
        ensures
            c == app_color_spec(),
    {
        AppColor {
            row_fg: Rgb { r: 0xff, g: 0xff, b: 0xff },
            selected_row_style_fg: Rgb { r: 0x4c, g: 0x1d, b: 0x95 },
            normal_row_color: Rgb { r: 0x02, g: 0x06, b: 0x17 },
            alt_row_color: Rgb { r: 0x0f, g: 0x17, b: 0x2a },
            footer_border_color: Rgb { r: 0x52, g: 0x52, b: 0x52 },
        }
    }
}

impl Default for AppColor {
    fn default() -> (c: Self)
        ensures
            c == app_color_spec(),
    {
        AppColor::new()
    }
}

} // verus!
