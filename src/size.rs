//! Conversion between the display's terminal size and the kernel's size record.

use vstd::prelude::*;

verus! {

/// The size of a terminal as the display layer reports it.
///
/// Zero rows or columns are allowed and mean "unknown" or "minimized".
#[derive(Clone, Copy, Debug, PartialEq, Eq, Structural)]
pub struct TerminalSize {
    pub rows: u16,
    pub cols: u16,
    pub pixel_width: u16,
    pub pixel_height: u16,
}

/// The kernel's terminal-size record (`struct winsize`).
#[derive(Clone, Copy, Debug, PartialEq, Eq, Structural)]
pub struct Winsize {
    pub ws_row: libc::c_ushort,
    pub ws_col: libc::c_ushort,
    pub ws_xpixel: libc::c_ushort,
    pub ws_ypixel: libc::c_ushort,
}

/// The record that a terminal size maps to: one field for one field.
pub open spec fn native_of(s: TerminalSize) -> Winsize {
    Winsize {
        ws_row: s.rows,
        ws_col: s.cols,
        ws_xpixel: s.pixel_width,
        ws_ypixel: s.pixel_height,
    }
}

/// The terminal size that a record stands for.
pub open spec fn size_of(w: Winsize) -> TerminalSize {
    TerminalSize {
        rows: w.ws_row,
        cols: w.ws_col,
        pixel_width: w.ws_xpixel,
        pixel_height: w.ws_ypixel,
    }
}

/// Types that can produce the kernel's terminal-size record.
pub trait ToWinsize {
    /// The record that `self` stands for.
    spec fn winsize_spec(&self) -> Winsize;

    /// Get the kernel's terminal-size record.
    fn to_winsize(&self) -> (r: Winsize)
        ensures
            r == self.winsize_spec(),
    ;
}

impl ToWinsize for TerminalSize {
    open spec fn winsize_spec(&self) -> Winsize {
        native_of(*self)
    }

    fn to_winsize(&self) -> (r: Winsize) {
        Winsize {
            ws_row: self.rows,
            ws_col: self.cols,
            ws_xpixel: self.pixel_width,
            ws_ypixel: self.pixel_height,
        }
    }
}

impl ToWinsize for Winsize {
    open spec fn winsize_spec(&self) -> Winsize {
        *self
    }

    fn to_winsize(&self) -> (r: Winsize) {
        *self
    }
}

impl TerminalSize {
    /// Converts this size into the kernel's record.
    pub fn to_native_size(&self) -> (r: Winsize)
        ensures
            r == native_of(*self),
    {
        self.to_winsize()
    }

    /// Reads the four fields of a kernel record back into a terminal size.
    pub fn from_native_size(w: &Winsize) -> (r: TerminalSize)
        ensures
            r == size_of(*w),
    {
        TerminalSize {
            rows: w.ws_row,
            cols: w.ws_col,
            pixel_width: w.ws_xpixel,
            pixel_height: w.ws_ypixel,
        }
    }
}

/// Converting a size to the kernel's record and reading it back gives the
/// original size; every field fits, since both sides are 16 bits wide.
pub proof fn lemma_native_size_round_trip(s: TerminalSize)
    ensures
        size_of(native_of(s)) == s,
        native_of(s).ws_row == s.rows,
        native_of(s).ws_col == s.cols,
        native_of(s).ws_xpixel == s.pixel_width,
        native_of(s).ws_ypixel == s.pixel_height,
{
}

/// Reading a record into a terminal size and converting it back gives the
/// same record.
pub proof fn lemma_native_record_round_trip(w: Winsize)
    ensures
        native_of(size_of(w)) == w,
{
}

} // verus!
