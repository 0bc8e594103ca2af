//! Container traits for natural numbers: `NatContainer` describes an
//! unsigned primitive used as a backing store, and `Natural` describes a
//! value that can be read as a natural number and widened into such a
//! container.

use vstd::prelude::*;

verus! {

/// An unsigned primitive acting as a container for natural numbers.
pub trait NatContainer: Sized {
    /// The smallest representable value, read as a `usize`.
    spec fn min_spec() -> usize;

    /// The largest representable value, read as a `usize` (truncated to
    /// `usize` for containers wider than the platform word).
    spec fn max_spec() -> usize;

    /// The contained value, read as a `usize` (truncated likewise).
    spec fn repr_spec(self) -> usize;

    /// The smallest representable value.
    fn min_value() -> (r: usize)
        ensures
            r == Self::min_spec(),
    ;

    /// The largest representable value, as a `usize`.
    fn max_value() -> (r: usize)
        ensures
            r == Self::max_spec(),
    ;

    /// The contained value, read as a `u128`, which is wide enough for
    /// every container and so never truncates.
    spec fn repr_wide_spec(self) -> u128;

    /// Reads the contained value as a `usize`.
    fn repr(self) -> (r: usize)
        ensures
            r == self.repr_spec(),
    ;

    /// Reads the contained value as a `u128`, without truncation.
    fn repr_wide(self) -> (r: u128)
        ensures
            r == self.repr_wide_spec(),
    ;

    /// Converts a `usize` into the container, handing the value back as the
    /// error when it does not fit.
    fn try_cast(value: usize) -> (r: Result<Self, usize>)
        ensures
            r is Ok <==> value <= Self::max_spec(),
            r matches Ok(c) ==> c.repr_spec() == value,
            r matches Err(e) ==> e == value,
    ;
}

/// A value readable as a natural number, and convertible into the natural
/// container `C` without loss.
pub trait Natural<C: NatContainer>: Sized {
    /// The value, read as a natural number (a `usize`).
    spec fn natural_spec(self) -> usize;

    /// The value, carried into the container type.
    spec fn container_spec(self) -> C;

    /// Reads the value as a natural number.
    fn as_natural(self) -> (r: usize)
        ensures
            r == self.natural_spec(),
    ;

    /// Carries the value into the container type.
    fn as_container(self) -> (r: C)
        ensures
            r == self.container_spec(),
    ;
}

impl NatContainer for u8 {
    open spec fn min_spec() -> usize {
        u8::MIN as usize
    }

    open spec fn repr_wide_spec(self) -> u128 {
        self as u128
    }

    open spec fn max_spec() -> usize {
        u8::MAX as usize
    }

    open spec fn repr_spec(self) -> usize {
        self as usize
    }

    fn min_value() -> usize {
        u8::MIN as usize
    }

    fn max_value() -> usize {
        u8::MAX as usize
    }

    fn repr(self) -> usize {
        self as usize
    }

    fn repr_wide(self) -> u128 {
        self as u128
    }

    fn try_cast(value: usize) -> Result<Self, usize> {
        if value as u128 > u8::MAX as u128 {
            return Err(value);
        }
        Ok(value as u8)
    }
}

impl NatContainer for u16 {
    open spec fn min_spec() -> usize {
        u16::MIN as usize
    }

    open spec fn repr_wide_spec(self) -> u128 {
        self as u128
    }

    open spec fn max_spec() -> usize {
        u16::MAX as usize
    }

    open spec fn repr_spec(self) -> usize {
        self as usize
    }

    fn min_value() -> usize {
        u16::MIN as usize
    }

    fn max_value() -> usize {
        u16::MAX as usize
    }

    fn repr(self) -> usize {
        self as usize
    }

    fn repr_wide(self) -> u128 {
        self as u128
    }

    fn try_cast(value: usize) -> Result<Self, usize> {
        if value as u128 > u16::MAX as u128 {
            return Err(value);
        }
        Ok(value as u16)
    }
}

impl NatContainer for u32 {
    open spec fn min_spec() -> usize {
        u32::MIN as usize
    }

    open spec fn repr_wide_spec(self) -> u128 {
        self as u128
    }

    open spec fn max_spec() -> usize {
        u32::MAX as usize
    }

    open spec fn repr_spec(self) -> usize {
        self as usize
    }

    fn min_value() -> usize {
        u32::MIN as usize
    }

    fn max_value() -> usize {
        u32::MAX as usize
    }

    fn repr(self) -> usize {
        self as usize
    }

    fn repr_wide(self) -> u128 {
        self as u128
    }

    fn try_cast(value: usize) -> Result<Self, usize> {
        if value as u128 > u32::MAX as u128 {
            return Err(value);
        }
        Ok(value as u32)
    }
}

impl NatContainer for u64 {
    open spec fn min_spec() -> usize {
        u64::MIN as usize
    }

    open spec fn repr_wide_spec(self) -> u128 {
        self as u128
    }

    open spec fn max_spec() -> usize {
        usize::MAX
    }

    open spec fn repr_spec(self) -> usize {
        self as usize
    }

    fn min_value() -> usize {
        u64::MIN as usize
    }

    fn max_value() -> usize {
        usize::MAX
    }

    fn repr(self) -> usize {
        self as usize
    }

    fn repr_wide(self) -> u128 {
        self as u128
    }

    fn try_cast(value: usize) -> Result<Self, usize> {
        if value as u128 > u64::MAX as u128 {
            return Err(value);
        }
        Ok(value as u64)
    }
}

impl NatContainer for u128 {
    open spec fn min_spec() -> usize {
        u128::MIN as usize
    }

    open spec fn repr_wide_spec(self) -> u128 {
        self as u128
    }

    open spec fn max_spec() -> usize {
        usize::MAX
    }

    open spec fn repr_spec(self) -> usize {
        self as usize
    }

    fn min_value() -> usize {
        u128::MIN as usize
    }

    fn max_value() -> usize {
        usize::MAX
    }

    fn repr(self) -> usize {
        self as usize
    }

    fn repr_wide(self) -> u128 {
        self as u128
    }

    fn try_cast(value: usize) -> Result<Self, usize> {
        if value as u128 > u128::MAX as u128 {
            return Err(value);
        }
        Ok(value as u128)
    }
}

impl NatContainer for usize {
    open spec fn min_spec() -> usize {
        usize::MIN as usize
    }

    open spec fn repr_wide_spec(self) -> u128 {
        self as u128
    }

    open spec fn max_spec() -> usize {
        usize::MAX as usize
    }

    open spec fn repr_spec(self) -> usize {
        self as usize
    }

    fn min_value() -> usize {
        usize::MIN as usize
    }

    fn max_value() -> usize {
        usize::MAX as usize
    }

    fn repr(self) -> usize {
        self as usize
    }

    fn repr_wide(self) -> u128 {
        self as u128
    }

    fn try_cast(value: usize) -> Result<Self, usize> {
        if value as u128 > usize::MAX as u128 {
            return Err(value);
        }
        Ok(value as usize)
    }
}

impl Natural<u8> for u8 {
    open spec fn natural_spec(self) -> usize {
        self as usize
    }

    open spec fn container_spec(self) -> u8 {
        self as u8
    }

    fn as_natural(self) -> usize {
        self as usize
    }

    fn as_container(self) -> u8 {
        self as u8
    }
}

impl Natural<u16> for u8 {
    open spec fn natural_spec(self) -> usize {
        self as usize
    }

    open spec fn container_spec(self) -> u16 {
        self as u16
    }

    fn as_natural(self) -> usize {
        self as usize
    }

    fn as_container(self) -> u16 {
        self as u16
    }
}

impl Natural<u32> for u8 {
    open spec fn natural_spec(self) -> usize {
        self as usize
    }

    open spec fn container_spec(self) -> u32 {
        self as u32
    }

    fn as_natural(self) -> usize {
        self as usize
    }

    fn as_container(self) -> u32 {
        self as u32
    }
}

impl Natural<u64> for u8 {
    open spec fn natural_spec(self) -> usize {
        self as usize
    }

    open spec fn container_spec(self) -> u64 {
        self as u64
    }

    fn as_natural(self) -> usize {
        self as usize
    }

    fn as_container(self) -> u64 {
        self as u64
    }
}

impl Natural<u128> for u8 {
    open spec fn natural_spec(self) -> usize {
        self as usize
    }

    open spec fn container_spec(self) -> u128 {
        self as u128
    }

    fn as_natural(self) -> usize {
        self as usize
    }

    fn as_container(self) -> u128 {
        self as u128
    }
}

impl Natural<usize> for u8 {
    open spec fn natural_spec(self) -> usize {
        self as usize
    }

    open spec fn container_spec(self) -> usize {
        self as usize
    }

    fn as_natural(self) -> usize {
        self as usize
    }

    fn as_container(self) -> usize {
        self as usize
    }
}

impl Natural<u16> for u16 {
    open spec fn natural_spec(self) -> usize {
        self as usize
    }

    open spec fn container_spec(self) -> u16 {
        self as u16
    }

    fn as_natural(self) -> usize {
        self as usize
    }

    fn as_container(self) -> u16 {
        self as u16
    }
}

impl Natural<u32> for u16 {
    open spec fn natural_spec(self) -> usize {
        self as usize
    }

    open spec fn container_spec(self) -> u32 {
        self as u32
    }

    fn as_natural(self) -> usize {
        self as usize
    }

    fn as_container(self) -> u32 {
        self as u32
    }
}

impl Natural<u64> for u16 {
    open spec fn natural_spec(self) -> usize {
        self as usize
    }

    open spec fn container_spec(self) -> u64 {
        self as u64
    }

    fn as_natural(self) -> usize {
        self as usize
    }

    fn as_container(self) -> u64 {
        self as u64
    }
}

impl Natural<u128> for u16 {
    open spec fn natural_spec(self) -> usize {
        self as usize
    }

    open spec fn container_spec(self) -> u128 {
        self as u128
    }

    fn as_natural(self) -> usize {
        self as usize
    }

    fn as_container(self) -> u128 {
        self as u128
    }
}

impl Natural<usize> for u16 {
    open spec fn natural_spec(self) -> usize {
        self as usize
    }

    open spec fn container_spec(self) -> usize {
        self as usize
    }

    fn as_natural(self) -> usize {
        self as usize
    }

    fn as_container(self) -> usize {
        self as usize
    }
}

impl Natural<u32> for u32 {
    open spec fn natural_spec(self) -> usize {
        self as usize
    }

    open spec fn container_spec(self) -> u32 {
        self as u32
    }

    fn as_natural(self) -> usize {
        self as usize
    }

    fn as_container(self) -> u32 {
        self as u32
    }
}

impl Natural<u64> for u32 {
    open spec fn natural_spec(self) -> usize {
        self as usize
    }

    open spec fn container_spec(self) -> u64 {
        self as u64
    }

    fn as_natural(self) -> usize {
        self as usize
    }

    fn as_container(self) -> u64 {
        self as u64
    }
}

impl Natural<u128> for u32 {
    open spec fn natural_spec(self) -> usize {
        self as usize
    }

    open spec fn container_spec(self) -> u128 {
        self as u128
    }

    fn as_natural(self) -> usize {
        self as usize
    }

    fn as_container(self) -> u128 {
        self as u128
    }
}

impl Natural<usize> for u32 {
    open spec fn natural_spec(self) -> usize {
        self as usize
    }

    open spec fn container_spec(self) -> usize {
        self as usize
    }

    fn as_natural(self) -> usize {
        self as usize
    }

    fn as_container(self) -> usize {
        self as usize
    }
}

impl Natural<u64> for u64 {
    open spec fn natural_spec(self) -> usize {
        self as usize
    }

    open spec fn container_spec(self) -> u64 {
        self as u64
    }

    fn as_natural(self) -> usize {
        self as usize
    }

    fn as_container(self) -> u64 {
        self as u64
    }
}

impl Natural<u128> for u64 {
    open spec fn natural_spec(self) -> usize {
        self as usize
    }

    open spec fn container_spec(self) -> u128 {
        self as u128
    }

    fn as_natural(self) -> usize {
        self as usize
    }

    fn as_container(self) -> u128 {
        self as u128
    }
}

impl Natural<usize> for u64 {
    open spec fn natural_spec(self) -> usize {
        self as usize
    }

    open spec fn container_spec(self) -> usize {
        self as usize
    }

    fn as_natural(self) -> usize {
        self as usize
    }

    fn as_container(self) -> usize {
        self as usize
    }
}

impl Natural<u128> for u128 {
    open spec fn natural_spec(self) -> usize {
        self as usize
    }

    open spec fn container_spec(self) -> u128 {
        self as u128
    }

    fn as_natural(self) -> usize {
        self as usize
    }

    fn as_container(self) -> u128 {
        self as u128
    }
}

impl Natural<usize> for u128 {
    open spec fn natural_spec(self) -> usize {
        self as usize
    }

    open spec fn container_spec(self) -> usize {
        self as usize
    }

    fn as_natural(self) -> usize {
        self as usize
    }

    fn as_container(self) -> usize {
        self as usize
    }
}

impl Natural<usize> for usize {
    open spec fn natural_spec(self) -> usize {
        self as usize
    }

    open spec fn container_spec(self) -> usize {
        self as usize
    }

    fn as_natural(self) -> usize {
        self as usize
    }

    fn as_container(self) -> usize {
        self as usize
    }
}

} // verus!
