//! Uniform conversion of byte containers into [`DisplayAsHex`].

use vstd::prelude::*;

verus! {

use crate::display_as_hex::DisplayAsHex;

/// Anything holding a sequence of bytes that can be wrapped for hex
/// rendering.
pub trait AsDisplayAsHex {
    /// The bytes the hex rendering will show.
    spec fn hex_bytes(&self) -> Seq<u8>;

    /// Wraps the bytes for hex rendering, borrowing them in place.
    fn as_display_as_hex<'a>(&'a self) -> (r: DisplayAsHex<'a>)
        ensures
            r@ == self.hex_bytes(),
    ;
}

impl AsDisplayAsHex for [u8] {
    open spec fn hex_bytes(&self) -> Seq<u8> {
        self@
    }

    fn as_display_as_hex<'a>(&'a self) -> (r: DisplayAsHex<'a>) {
        DisplayAsHex::new(self)
    }
}

impl<'b> AsDisplayAsHex for &'b [u8] {
    open spec fn hex_bytes(&self) -> Seq<u8> {
        self@
    }

    fn as_display_as_hex<'a>(&'a self) -> (r: DisplayAsHex<'a>) {
        DisplayAsHex::new(self)
    }
}

impl<const N: usize> AsDisplayAsHex for [u8; N] {
    open spec fn hex_bytes(&self) -> Seq<u8> {
        self@
    }

    fn as_display_as_hex<'a>(&'a self) -> (r: DisplayAsHex<'a>) {
        DisplayAsHex::new(self.as_slice())
    }
}

impl<'b, const N: usize> AsDisplayAsHex for &'b [u8; N] {
    open spec fn hex_bytes(&self) -> Seq<u8> {
        self@
    }

    fn as_display_as_hex<'a>(&'a self) -> (r: DisplayAsHex<'a>) {
        DisplayAsHex::new((*self).as_slice())
    }
}

impl AsDisplayAsHex for Vec<u8> {
    open spec fn hex_bytes(&self) -> Seq<u8> {
        self@
    }

    fn as_display_as_hex<'a>(&'a self) -> (r: DisplayAsHex<'a>) {
        DisplayAsHex::new(self.as_slice())
    }
}

impl<'b> AsDisplayAsHex for &'b Vec<u8> {
    open spec fn hex_bytes(&self) -> Seq<u8> {
        self@
    }

    fn as_display_as_hex<'a>(&'a self) -> (r: DisplayAsHex<'a>) {
        DisplayAsHex::new(self.as_slice())
    }
}

} // verus!
