//! The pipeline key: a 32-bit set of rendering-mode flags with the MSAA sample
//! count packed, as its base-two logarithm, into the three highest bits.

use vstd::prelude::*;

verus! {

/// A set of rendering-mode flags together with the MSAA field.
///
/// Every `u32` is a key: bits that no flag names are kept as they are.
#[derive(Clone, Copy, PartialEq, Eq, Structural, PartialOrd, Ord, Hash, Debug)]
pub struct PolylinePipelineKey {
    pub bits: u32,
}

/// The sample counts that the MSAA field can hold: the powers of two up to 128.
pub open spec fn is_msaa_sample_count(samples: u32) -> bool {
    samples == 1 || samples == 2 || samples == 4 || samples == 8 || samples == 16 || samples == 32
        || samples == 64 || samples == 128
}

impl PolylinePipelineKey {
    /// No flag.
    pub const NONE: u32 = 0;

    /// Fade lines with perspective.
    pub const PERSPECTIVE: u32 = 0x1;

    /// Draw in the transparent, alpha-blended pass.
    pub const TRANSPARENT_MAIN_PASS: u32 = 0x2;

    /// Render to an HDR target.
    pub const HDR: u32 = 0x4;

    /// The three highest bits, which hold the MSAA field.
    pub const MSAA_RESERVED_BITS: u32 = 0xE000_0000;

    /// Width mask of the MSAA field before it is shifted into place.
    pub const MSAA_MASK_BITS: u32 = 0b111;

    /// Position of the lowest bit of the MSAA field.
    pub const MSAA_SHIFT_BITS: u32 = 29;

    /// Whether every bit of `flags` is set in `self`.
    pub open spec fn spec_contains(&self, flags: u32) -> bool {
        self.bits & flags == flags
    }

    /// The key with the bits of both.
    pub open spec fn spec_union(self, other: PolylinePipelineKey) -> PolylinePipelineKey {
        PolylinePipelineKey { bits: self.bits | other.bits }
    }

    /// The MSAA field: the base-two logarithm of the sample count, from 0 to 7.
    pub open spec fn msaa_log2(&self) -> u32 {
        (self.bits >> Self::MSAA_SHIFT_BITS) & Self::MSAA_MASK_BITS
    }

    /// The sample count that the MSAA field encodes.
    pub open spec fn spec_msaa_samples(&self) -> u32 {
        1u32 << self.msaa_log2()
    }

    /// The key that `from_msaa_samples` builds: the low three bits of the
    /// number of trailing zeros of `msaa_samples`, shifted into the MSAA field.
    pub open spec fn spec_from_msaa_samples(msaa_samples: u32) -> PolylinePipelineKey {
        PolylinePipelineKey {
            bits: (vstd::std_specs::bits::u32_trailing_zeros(msaa_samples)
                & Self::MSAA_MASK_BITS) << Self::MSAA_SHIFT_BITS,
        }
    }

    /// The key that `from_hdr` builds.
    pub open spec fn spec_from_hdr(hdr: bool) -> PolylinePipelineKey {
        PolylinePipelineKey { bits: if hdr { Self::HDR } else { Self::NONE } }
    }

    /// The underlying bits.
    pub fn bits(&self) -> (bits: u32)
        ensures
            bits == self.bits,
    {
        self.bits
    }

    /// The key with exactly these bits, whether or not a flag names them.
    pub fn from_bits_retain(bits: u32) -> (key: PolylinePipelineKey)
        ensures
            key.bits == bits,
    {
        PolylinePipelineKey { bits }
    }

    /// Whether every bit of `flags` is set in `self`.
    #[verifier::when_used_as_spec(spec_contains)]
    pub fn contains(&self, flags: u32) -> (found: bool)
        ensures
            found == self.spec_contains(flags),
    {
        self.bits & flags == flags
    }

    /// The key with the bits of both.
    #[verifier::when_used_as_spec(spec_union)]
    pub fn union(self, other: PolylinePipelineKey) -> (key: PolylinePipelineKey)
        ensures
            key == self.spec_union(other),
    {
        PolylinePipelineKey { bits: self.bits | other.bits }
    }

    /// Encodes a sample count into the MSAA field; no mode flag is set.
    ///
    /// A power of two up to 128 is read back unchanged by `msaa_samples`.
    #[verifier::when_used_as_spec(spec_from_msaa_samples)]
    pub fn from_msaa_samples(msaa_samples: u32) -> (key: PolylinePipelineKey)
        ensures
            key == Self::spec_from_msaa_samples(msaa_samples),
            key.bits & !Self::MSAA_RESERVED_BITS == 0,
            is_msaa_sample_count(msaa_samples) ==> key.spec_msaa_samples() == msaa_samples,
    {
        let zeros: u32 = msaa_samples.trailing_zeros();
        let field: u32 = zeros & Self::MSAA_MASK_BITS;
        let msaa_bits: u32 = field << Self::MSAA_SHIFT_BITS;
        proof {
            assert(((zeros & 0b111u32) << 29u32) & !0xE000_0000u32 == 0) by (bit_vector);
            if is_msaa_sample_count(msaa_samples) {
                lemma_msaa_round_trip(msaa_samples);
            }
        }
        Self::from_bits_retain(msaa_bits)
    }

    /// The sample count that the MSAA field encodes: a power of two from 1 to 128.
    #[verifier::when_used_as_spec(spec_msaa_samples)]
    pub fn msaa_samples(&self) -> (samples: u32)
        ensures
            samples == self.spec_msaa_samples(),
            is_msaa_sample_count(samples),
    {
        let field: u32 = (self.bits >> Self::MSAA_SHIFT_BITS) & Self::MSAA_MASK_BITS;
        proof {
            let bits = self.bits;
            assert(((bits >> 29u32) & 0b111u32) < 8) by (bit_vector);
            lemma_msaa_samples_is_sample_count(*self);
        }
        1u32 << field
    }

    /// The key with `HDR` alone if `hdr`, else the key with no bit.
    #[verifier::when_used_as_spec(spec_from_hdr)]
    pub fn from_hdr(hdr: bool) -> (key: PolylinePipelineKey)
        ensures
            key == Self::spec_from_hdr(hdr),
            key.bits & Self::MSAA_RESERVED_BITS == 0,
    {
        proof {
            assert(0x4u32 & 0xE000_0000u32 == 0) by (bit_vector);
            assert(0u32 & 0xE000_0000u32 == 0) by (bit_vector);
        }
        if hdr {
            Self::from_bits_retain(Self::HDR)
        } else {
            Self::from_bits_retain(Self::NONE)
        }
    }
}

/// Whatever the key, the sample count read from it is a power of two from 1 to 128.
pub proof fn lemma_msaa_samples_is_sample_count(key: PolylinePipelineKey)
    ensures
        is_msaa_sample_count(key.spec_msaa_samples()),
{
    let bits = key.bits;
    assert({
        let s = 1u32 << ((bits >> 29u32) & 0b111u32);
        s == 1 || s == 2 || s == 4 || s == 8 || s == 16 || s == 32 || s == 64 || s == 128
    }) by (bit_vector);
}

/// A sample count that is a power of two up to 128 survives encoding into the
/// MSAA field and decoding from it.
pub proof fn lemma_msaa_round_trip(msaa_samples: u32)
    requires
        is_msaa_sample_count(msaa_samples),
    ensures
        PolylinePipelineKey::spec_from_msaa_samples(msaa_samples).spec_msaa_samples()
            == msaa_samples,
{
    let zeros = vstd::std_specs::bits::u32_trailing_zeros(msaa_samples);
    vstd::std_specs::bits::axiom_u32_trailing_zeros(msaa_samples);
    assert(zeros < 32);
    assert((msaa_samples >> zeros) & 1u32 == 1u32);
    assert(1u32 << zeros == msaa_samples && zeros < 8) by (bit_vector)
        requires
            zeros < 32,
            (msaa_samples >> zeros) & 1u32 == 1u32,
            msaa_samples == 1 || msaa_samples == 2 || msaa_samples == 4 || msaa_samples == 8
                || msaa_samples == 16 || msaa_samples == 32 || msaa_samples == 64 || msaa_samples
                == 128,
    ;
    assert(1u32 << ((((zeros & 0b111u32) << 29u32) >> 29u32) & 0b111u32) == 1u32 << zeros)
        by (bit_vector)
        requires
            zeros < 8,
    ;
}

/// The mode flags and the MSAA field share no bit.
pub proof fn lemma_mode_flags_disjoint_from_msaa()
    ensures
        (PolylinePipelineKey::PERSPECTIVE | PolylinePipelineKey::TRANSPARENT_MAIN_PASS
            | PolylinePipelineKey::HDR) & PolylinePipelineKey::MSAA_RESERVED_BITS == 0,
        PolylinePipelineKey::MSAA_RESERVED_BITS == PolylinePipelineKey::MSAA_MASK_BITS
            << PolylinePipelineKey::MSAA_SHIFT_BITS,
{
    assert((0x1u32 | 0x2u32 | 0x4u32) & 0xE000_0000u32 == 0) by (bit_vector);
    assert(0xE000_0000u32 == 0b111u32 << 29u32) by (bit_vector);
}

/// Bits outside the MSAA field leave the sample count as it is: a key keeps
/// its sample count when mode flags are added to it.
pub proof fn lemma_union_keeps_msaa_samples(key: PolylinePipelineKey, flags: PolylinePipelineKey)
    requires
        flags.bits & PolylinePipelineKey::MSAA_RESERVED_BITS == 0,
    ensures
        key.union(flags).msaa_samples() == key.msaa_samples(),
{
    let a = key.bits;
    let b = flags.bits;
    assert(((a | b) >> 29u32) & 0b111u32 == (a >> 29u32) & 0b111u32) by (bit_vector)
        requires
            b & 0xE000_0000u32 == 0,
    ;
}

/// Bits inside the MSAA field leave the mode flags as they are: a key has the
/// same mode flags before and after a sample count is added to it.
pub proof fn lemma_union_keeps_mode_flags(
    key: PolylinePipelineKey,
    msaa: PolylinePipelineKey,
    flags: u32,
)
    requires
        msaa.bits & !PolylinePipelineKey::MSAA_RESERVED_BITS == 0,
        flags & PolylinePipelineKey::MSAA_RESERVED_BITS == 0,
    ensures
        key.union(msaa).contains(flags) == key.contains(flags),
{
    let a = key.bits;
    let b = msaa.bits;
    assert(((a | b) & flags == flags) == (a & flags == flags)) by (bit_vector)
        requires
            b & !0xE000_0000u32 == 0,
            flags & 0xE000_0000u32 == 0,
    ;
}

} // verus!
