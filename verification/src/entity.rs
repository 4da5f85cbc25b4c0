//! Tracked entity data that the rules read and write: an entity's pose and
//! its byte of shared flags.
use vstd::prelude::*;

verus! {

/// The pose an entity is in.
#[derive(Clone, Copy, Debug, PartialEq, Eq, Hash, Structural)]
pub enum Pose {
    Standing,
    FallFlying,
    Sleeping,
    Swimming,
    SpinAttack,
    Sneaking,
    LongJumping,
    Dying,
    Croaking,
    UsingTongue,
    Sitting,
    Roaring,
    Sniffing,
    Emerging,
    Digging,
    Sliding,
    Shooting,
    Inhaling,
}

/// Mask of the "sneaking" bit of the shared flags.
pub const SNEAKING_MASK: i8 = 0x02;

/// Mask of the "sprinting" bit of the shared flags.
pub const SPRINTING_MASK: i8 = 0x08;

/// The byte of flags every entity shares: bit 0 on fire, bit 1 sneaking,
/// bit 3 sprinting, bit 4 swimming, bit 5 invisible, bit 6 glowing, bit 7
/// flying with elytra.
#[derive(Clone, Copy, Debug, PartialEq, Eq, Hash, Default, Structural)]
pub struct SharedFlags(pub i8);

/// The flags with the bits of `mask` set when `on`, cleared otherwise.
pub open spec fn with_bits(flags: i8, mask: i8, on: bool) -> i8 {
    if on {
        flags | mask
    } else {
        flags & !mask
    }
}

impl SharedFlags {
    /// Whether the entity is sneaking.
    pub fn sneaking(&self) -> (b: bool)
        ensures
            b == (self.0 & SNEAKING_MASK != 0),
    {
        self.0 & SNEAKING_MASK != 0
    }

    /// Whether the entity is sprinting.
    pub fn sprinting(&self) -> (b: bool)
        ensures
            b == (self.0 & SPRINTING_MASK != 0),
    {
        self.0 & SPRINTING_MASK != 0
    }

    /// Sets or clears the sneaking bit; the other bits stay as they were.
    pub fn set_sneaking(&mut self, on: bool)
        ensures
            final(self).0 == with_bits(old(self).0, SNEAKING_MASK, on),
    {
        if on {
            self.0 = self.0 | SNEAKING_MASK;
        } else {
            self.0 = self.0 & !SNEAKING_MASK;
        }
    }

    /// Sets or clears the sprinting bit; the other bits stay as they were.
    pub fn set_sprinting(&mut self, on: bool)
        ensures
            final(self).0 == with_bits(old(self).0, SPRINTING_MASK, on),
    {
        if on {
            self.0 = self.0 | SPRINTING_MASK;
        } else {
            self.0 = self.0 & !SPRINTING_MASK;
        }
    }
}

/// Setting a flag bit makes it read back as set, clearing it makes it read
/// back as clear, and no other bit of the byte changes.
pub proof fn law_flag_bits(flags: i8, on: bool)
    ensures
        SNEAKING_MASK == 1i8 << 1u8,
        SPRINTING_MASK == 1i8 << 3u8,
        (with_bits(flags, SNEAKING_MASK, on) & SNEAKING_MASK != 0) == on,
        with_bits(flags, SNEAKING_MASK, on) & !SNEAKING_MASK == flags & !SNEAKING_MASK,
        (with_bits(flags, SPRINTING_MASK, on) & SPRINTING_MASK != 0) == on,
        with_bits(flags, SPRINTING_MASK, on) & !SPRINTING_MASK == flags & !SPRINTING_MASK,
{
    assert(2i8 == 1i8 << 1u8) by (bit_vector);
    assert(8i8 == 1i8 << 3u8) by (bit_vector);
    assert((flags | 2i8) & 2i8 != 0) by (bit_vector);
    assert((flags & !2i8) & 2i8 == 0) by (bit_vector);
    assert((flags | 2i8) & !2i8 == flags & !2i8) by (bit_vector);
    assert((flags & !2i8) & !2i8 == flags & !2i8) by (bit_vector);
    assert((flags | 8i8) & 8i8 != 0) by (bit_vector);
    assert((flags & !8i8) & 8i8 == 0) by (bit_vector);
    assert((flags | 8i8) & !8i8 == flags & !8i8) by (bit_vector);
    assert((flags & !8i8) & !8i8 == flags & !8i8) by (bit_vector);
}

/// Setting one of the sneaking and sprinting bits leaves the other as it was.
pub proof fn law_flags_independent(flags: i8, on: bool)
    ensures
        (with_bits(flags, SNEAKING_MASK, on) & SPRINTING_MASK) == (flags & SPRINTING_MASK),
        (with_bits(flags, SPRINTING_MASK, on) & SNEAKING_MASK) == (flags & SNEAKING_MASK),
{
    assert((flags | 2i8) & 8i8 == flags & 8i8) by (bit_vector);
    assert((flags & !2i8) & 8i8 == flags & 8i8) by (bit_vector);
    assert((flags | 8i8) & 2i8 == flags & 2i8) by (bit_vector);
    assert((flags & !8i8) & 2i8 == flags & 2i8) by (bit_vector);
}

} // verus!
