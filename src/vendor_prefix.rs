//! Vendor prefix sets.

use vstd::prelude::*;

verus! {

/// A set of vendor prefixes, one bit each; the lowest bit is the unprefixed form.
#[derive(Clone, Copy, Debug, PartialEq, Eq, Structural)]
pub struct VendorPrefix {
    pub bits: u8,
}

pub const NONE_BIT: u8 = 1;

pub const WEBKIT_BIT: u8 = 2;

pub const MOZ_BIT: u8 = 4;

pub const MS_BIT: u8 = 8;

pub const O_BIT: u8 = 16;

impl VendorPrefix {
    /// Every bit of `other` is in `self`.
    pub open spec fn has(self, other: VendorPrefix) -> bool {
        self.bits & other.bits == other.bits
    }

    /// The set that holds only the unprefixed form.
    pub fn none() -> (r: VendorPrefix)
        ensures
            r.bits == NONE_BIT,
    {
        VendorPrefix { bits: NONE_BIT }
    }

    /// `-webkit-`.
    pub fn webkit() -> (r: VendorPrefix)
        ensures
            r.bits == WEBKIT_BIT,
    {
        VendorPrefix { bits: WEBKIT_BIT }
    }

    /// `-moz-`.
    pub fn moz() -> (r: VendorPrefix)
        ensures
            r.bits == MOZ_BIT,
    {
        VendorPrefix { bits: MOZ_BIT }
    }

    /// `-ms-`.
    pub fn ms() -> (r: VendorPrefix)
        ensures
            r.bits == MS_BIT,
    {
        VendorPrefix { bits: MS_BIT }
    }

    /// `-o-`.
    pub fn o() -> (r: VendorPrefix)
        ensures
            r.bits == O_BIT,
    {
        VendorPrefix { bits: O_BIT }
    }

    /// The empty set.
    pub fn empty() -> (r: VendorPrefix)
        ensures
            r.bits == 0,
    {
        VendorPrefix { bits: 0 }
    }

    pub fn is_empty(&self) -> (r: bool)
        ensures
            r == (self.bits == 0),
    {
        self.bits == 0
    }

    /// Whether every prefix of `other` is in `self`.
    pub fn contains(&self, other: VendorPrefix) -> (r: bool)
        ensures
            r == self.has(other),
    {
        self.bits & other.bits == other.bits
    }

    pub fn union(&self, other: VendorPrefix) -> (r: VendorPrefix)
        ensures
            r.bits == self.bits | other.bits,
    {
        VendorPrefix { bits: self.bits | other.bits }
    }

    pub fn intersection(&self, other: VendorPrefix) -> (r: VendorPrefix)
        ensures
            r.bits == self.bits & other.bits,
    {
        VendorPrefix { bits: self.bits & other.bits }
    }

    /// Takes the prefixes of `other` out of `self`.
    pub fn remove(&mut self, other: VendorPrefix)
        ensures
            final(self).bits == old(self).bits & !other.bits,
    {
        self.bits = self.bits & !other.bits;
    }
}

} // verus!
