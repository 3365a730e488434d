//! Option names, option values and flag bits that CUPS defines.

use vstd::prelude::*;

verus! {

pub const COPIES: &'static str = "copies";
pub const MEDIA: &'static str = "media";
pub const PRINT_COLOR_MODE: &'static str = "print-color-mode";
pub const PRINT_QUALITY: &'static str = "print-quality";
pub const SIDES: &'static str = "sides";
pub const ORIENTATION: &'static str = "orientation-requested";

pub const PRINT_COLOR_MODE_AUTO: &'static str = "auto";
pub const PRINT_COLOR_MODE_MONOCHROME: &'static str = "monochrome";
pub const PRINT_COLOR_MODE_COLOR: &'static str = "color";

pub const PRINT_QUALITY_DRAFT: &'static str = "3";
pub const PRINT_QUALITY_NORMAL: &'static str = "4";
pub const PRINT_QUALITY_HIGH: &'static str = "5";

pub const SIDES_ONE_SIDED: &'static str = "one-sided";
pub const SIDES_TWO_SIDED_PORTRAIT: &'static str = "two-sided-long-edge";
pub const SIDES_TWO_SIDED_LANDSCAPE: &'static str = "two-sided-short-edge";

pub const ORIENTATION_PORTRAIT: &'static str = "3";
pub const ORIENTATION_LANDSCAPE: &'static str = "4";

pub const MEDIA_A4: &'static str = "iso_a4_210x297mm";
pub const MEDIA_LETTER: &'static str = "na_letter_8.5x11in";
pub const MEDIA_LEGAL: &'static str = "na_legal_8.5x14in";

pub const MEDIA_FLAGS_DEFAULT: u32 = 0x00;
pub const MEDIA_FLAGS_BORDERLESS: u32 = 0x01;
pub const MEDIA_FLAGS_DUPLEX: u32 = 0x02;
pub const MEDIA_FLAGS_EXACT: u32 = 0x04;
pub const MEDIA_FLAGS_READY: u32 = 0x08;

pub const DEST_FLAGS_NONE: u32 = 0x00;
pub const DEST_FLAGS_UNCONNECTED: u32 = 0x01;
pub const DEST_FLAGS_MORE: u32 = 0x02;
pub const DEST_FLAGS_REMOVED: u32 = 0x04;
pub const DEST_FLAGS_ERROR: u32 = 0x08;

pub const PRINTER_LOCAL: u32 = 0x0000;
pub const PRINTER_CLASS: u32 = 0x0001;
pub const PRINTER_REMOTE: u32 = 0x0002;
pub const PRINTER_BW: u32 = 0x0004;
pub const PRINTER_COLOR: u32 = 0x0008;
pub const PRINTER_DUPLEX: u32 = 0x0010;

pub const WHICHJOBS_ALL: i32 = -1;
pub const WHICHJOBS_ACTIVE: i32 = 0;
pub const WHICHJOBS_COMPLETED: i32 = 1;

} // verus!
