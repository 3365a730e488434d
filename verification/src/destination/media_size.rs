use vstd::prelude::*;

verus! {

/// Media size information from CUPS
#[derive(Debug, Clone)]
pub struct MediaSize {
    /// Media name (e.g., "na_letter_8.5x11in")
    pub name: String,
    /// Width in hundredths of millimeters
    pub width: i32,
    /// Length (height) in hundredths of millimeters
    pub length: i32,
    /// Bottom margin in hundredths of millimeters
    pub bottom: i32,
    /// Left margin in hundredths of millimeters
    pub left: i32,
    /// Right margin in hundredths of millimeters
    pub right: i32,
    /// Top margin in hundredths of millimeters
    pub top: i32,
}

impl MediaSize {
    /// Printable width in hundredths of millimeters
    pub fn printable_width(&self) -> (r: i32)
        requires
            i32::MIN <= self.width - self.left <= i32::MAX,
            i32::MIN <= self.width - self.left - self.right <= i32::MAX,
        ensures
            r == self.width - self.left - self.right,
    {
        self.width - self.left - self.right
    }

    /// Printable length in hundredths of millimeters
    pub fn printable_length(&self) -> (r: i32)
        requires
            i32::MIN <= self.length - self.top <= i32::MAX,
            i32::MIN <= self.length - self.top - self.bottom <= i32::MAX,
        ensures
            r == self.length - self.top - self.bottom,
    {
        self.length - self.top - self.bottom
    }
}

} // verus!
