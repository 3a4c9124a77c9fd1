//! The handle on the master side of a pseudo-terminal.
//!
//! A `Pty` is the sole holder of its master descriptor: it is made once from
//! the descriptor that allocation returned, and it hands the descriptor out
//! for closing exactly once, however often release is asked for.

use vstd::prelude::*;
use crate::size::{ToWinsize, Winsize};

verus! {

/// The master side of a pseudo-terminal, and the size last asked of it.
pub struct Pty {
    fd: libc::c_int,
    open: bool,
    winsize: Winsize,
}

/// A release on a handle that is open (`open`) closes its descriptor; the
/// handle is closed afterwards in any case.
pub open spec fn release_closes(open: bool) -> bool {
    open
}

/// How many times `n` successive releases close the descriptor of a handle
/// that starts open (`open`) or closed.
pub open spec fn closes_in(open: bool, n: nat) -> nat
    decreases n,
{
    if n == 0 {
        0
    } else {
        (if release_closes(open) { 1nat } else { 0nat }) + closes_in(false, (n - 1) as nat)
    }
}

impl Pty {
    /// The master descriptor that this handle owns.
    pub closed spec fn descriptor(&self) -> libc::c_int {
        self.fd
    }

    /// Whether the descriptor has not been released yet.
    pub closed spec fn is_open_spec(&self) -> bool {
        self.open
    }

    /// The size last asked of the terminal.
    pub closed spec fn winsize_spec(&self) -> Winsize {
        self.winsize
    }

    /// Takes ownership of a freshly allocated master descriptor. The size
    /// starts as all zeros until the first resize.
    pub fn from_master(fd: libc::c_int) -> (r: Pty)
        ensures
            r.descriptor() == fd,
            r.is_open_spec(),
            r.winsize_spec() == (Winsize { ws_row: 0, ws_col: 0, ws_xpixel: 0, ws_ypixel: 0 }),
    {
        Pty { fd, open: true, winsize: Winsize { ws_row: 0, ws_col: 0, ws_xpixel: 0, ws_ypixel: 0 } }
    }

    /// The master descriptor, shared with the caller: reading from it and
    /// this handle's own use see the same descriptor, and only this handle
    /// closes it.
    pub fn raw_fd(&self) -> (r: libc::c_int)
        ensures
            r == self.descriptor(),
    {
        self.fd
    }

    /// Whether the descriptor has not been released yet.
    pub fn is_open(&self) -> (r: bool)
        ensures
            r == self.is_open_spec(),
    {
        self.open
    }

    /// The size last asked of the terminal, as the kernel's record.
    pub fn winsize(&self) -> (r: Winsize)
        ensures
            r == self.winsize_spec(),
    {
        self.winsize
    }

    /// Resizes the terminal: converts `size` and returns the record that the
    /// resize request sends on the master descriptor.
    pub fn resize<T: ToWinsize>(&mut self, size: T) -> (r: Winsize)
        requires
            old(self).is_open_spec(),
        ensures
            r == size.winsize_spec(),
            final(self).winsize_spec() == r,
            final(self).descriptor() == old(self).descriptor(),
            final(self).is_open_spec(),
    {
        let w = size.to_winsize();
        self.winsize = w;
        w
    }

    /// Gives up the descriptor for closing: the first call hands it out, and
    /// every later call hands out nothing, so the descriptor is closed once.
    pub fn release(&mut self) -> (r: Option<libc::c_int>)
        ensures
            r == (if release_closes(old(self).is_open_spec()) {
                Some(old(self).descriptor())
            } else {
                None
            }),
            !final(self).is_open_spec(),
            final(self).descriptor() == old(self).descriptor(),
            final(self).winsize_spec() == old(self).winsize_spec(),
    {
        if self.open {
            self.open = false;
            Some(self.fd)
        } else {
            None
        }
    }
}

/// However many releases a handle goes through, its descriptor is closed
/// exactly once, provided there is at least one.
pub proof fn lemma_released_exactly_once(n: nat)
    requires
        n >= 1,
    ensures
        closes_in(true, n) == 1,
{
    lemma_closed_stays_closed((n - 1) as nat);
}

/// Releases on a handle that is already closed close nothing.
pub proof fn lemma_closed_stays_closed(n: nat)
    ensures
        closes_in(false, n) == 0,
    decreases n,
{
    if n > 0 {
        lemma_closed_stays_closed((n - 1) as nat);
    }
}

} // verus!
