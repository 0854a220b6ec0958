//! The two per-entity draw flags: liveness and render eligibility.

use vstd::prelude::*;

verus! {

/// Bit of [`DrawFlags::USED`] in the packed form.
pub const USED_BIT: u8 = 1;

/// Bit of [`DrawFlags::VISIBLE`] in the packed form.
pub const VISIBLE_BIT: u8 = 2;

/// A set over the two flags `USED` and `VISIBLE`.
///
/// `used` marks an entity as alive; `visible` lets a live entity take part in
/// the draw pass.
#[derive(Clone, Copy, Debug, PartialEq, Eq, Structural)]
pub struct DrawFlags {
    pub used: bool,
    pub visible: bool,
}

impl DrawFlags {
    /// The packed form of a flag set: bit 0 for `USED`, bit 1 for `VISIBLE`.
    pub open spec fn spec_bits(self) -> u8 {
        if self.used {
            if self.visible { 3u8 } else { 1u8 }
        } else {
            if self.visible { 2u8 } else { 0u8 }
        }
    }

    /// Whether every flag of `other` is also in `self`.
    pub open spec fn spec_contains(self, other: DrawFlags) -> bool {
        (other.used ==> self.used) && (other.visible ==> self.visible)
    }

    /// The flags that are in `self` or in `other`.
    pub open spec fn spec_union(self, other: DrawFlags) -> DrawFlags {
        DrawFlags { used: self.used || other.used, visible: self.visible || other.visible }
    }

    /// The flags of `self` that are not in `other`.
    pub open spec fn spec_difference(self, other: DrawFlags) -> DrawFlags {
        DrawFlags { used: self.used && !other.used, visible: self.visible && !other.visible }
    }

    /// The set with no flag.
    pub fn empty() -> (flags: DrawFlags)
        ensures
            !flags.used,
            !flags.visible,
    {
        DrawFlags { used: false, visible: false }
    }

    /// The set with both flags.
    pub fn all() -> (flags: DrawFlags)
        ensures
            flags.used,
            flags.visible,
    {
        DrawFlags { used: true, visible: true }
    }

    /// The set that holds `USED` alone.
    #[allow(non_snake_case)]
    pub fn USED() -> (flags: DrawFlags)
        ensures
            flags.used,
            !flags.visible,
    {
        DrawFlags { used: true, visible: false }
    }

    /// The set that holds `VISIBLE` alone.
    #[allow(non_snake_case)]
    pub fn VISIBLE() -> (flags: DrawFlags)
        ensures
            !flags.used,
            flags.visible,
    {
        DrawFlags { used: false, visible: true }
    }

    /// The packed form.
    pub fn bits(&self) -> (bits: u8)
        ensures
            bits == self.spec_bits(),
    {
        let low: u8 = if self.used { USED_BIT } else { 0 };
        let high: u8 = if self.visible { VISIBLE_BIT } else { 0 };
        low + high
    }

    /// Reads a packed form back; a value with a bit outside the two flags
    /// stands for no set.
    pub fn from_bits(bits: u8) -> (flags: Option<DrawFlags>)
        ensures
            flags.is_some() <==> bits <= 3,
            flags.is_some() ==> flags.unwrap().spec_bits() == bits,
    {
        if bits > 3 {
            None
        } else {
            Some(DrawFlags { used: bits == 1 || bits == 3, visible: bits >= 2 })
        }
    }

    /// Whether no flag is set.
    pub fn is_empty(&self) -> (none: bool)
        ensures
            none == (!self.used && !self.visible),
    {
        !self.used && !self.visible
    }

    /// Whether every flag of `other` is set in `self`.
    pub fn contains(&self, other: DrawFlags) -> (all_set: bool)
        ensures
            all_set == self.spec_contains(other),
    {
        (!other.used || self.used) && (!other.visible || self.visible)
    }

    /// The flags of either set.
    pub fn union(self, other: DrawFlags) -> (flags: DrawFlags)
        ensures
            flags == self.spec_union(other),
    {
        DrawFlags { used: self.used || other.used, visible: self.visible || other.visible }
    }

    /// Sets every flag of `other`.
    pub fn insert(&mut self, other: DrawFlags)
        ensures
            *final(self) == old(self).spec_union(other),
    {
        self.used = self.used || other.used;
        self.visible = self.visible || other.visible;
    }

    /// Clears every flag of `other`.
    pub fn remove(&mut self, other: DrawFlags)
        ensures
            *final(self) == old(self).spec_difference(other),
    {
        self.used = self.used && !other.used;
        self.visible = self.visible && !other.visible;
    }

    /// Sets the flags of `other` where `value` is true, clears them where not.
    pub fn set(&mut self, other: DrawFlags, value: bool)
        ensures
            *final(self) == if value {
                old(self).spec_union(other)
            } else {
                old(self).spec_difference(other)
            },
    {
        if value {
            self.insert(other);
        } else {
            self.remove(other);
        }
    }
}

} // verus!
