use crate::errors::{ConfigError, FormatError};
use vstd::prelude::*;

verus! {

/// Accept the requested channel count: at least one channel pipeline
/// must be created, so a count of zero is rejected.
pub fn validate_ports(ports: u32) -> (r: Result<(), ConfigError>)
    ensures
        r is Ok <==> ports > 0,
        ports == 0 ==> r == Err::<(), ConfigError>(ConfigError::ZeroPorts),
{
    if ports == 0 {
        Err(ConfigError::ZeroPorts)
    } else {
        Ok(())
    }
}

/// The divisor that normalizes integer samples of the given width to
/// the unit range: an integer sample divided by `2^(bits - 1)` lands in
/// `[-1, 1]`. Sample widths run from one to thirty-two bits.
pub fn int_sample_divisor(bits_per_sample: u16) -> (d: u64)
    requires
        1 <= bits_per_sample <= 32,
    ensures
        d == vstd::arithmetic::power2::pow2((bits_per_sample - 1) as nat),
        d >= 1,
{
    let shift: u64 = (bits_per_sample - 1) as u64;
    proof {
        vstd::bits::lemma_u64_pow2_no_overflow(shift as nat);
        vstd::bits::lemma_u64_shl_is_mul(1u64, shift);
        vstd::arithmetic::power2::lemma_pow2_pos(shift as nat);
    }
    1u64 << shift
}

/// Validate the loaded impulse response against the host, once, at
/// startup: it must hold exactly one channel of audio, and its sample
/// rate must equal the rate the host negotiated. The channel count is
/// checked first.
pub fn validate_format(channels: u16, ir_sample_rate: u32, host_sample_rate: usize) -> (r: Result<
    (),
    FormatError,
>)
    ensures
        r is Ok <==> channels == 1 && ir_sample_rate as int == host_sample_rate as int,
        channels != 1 ==> r == Err::<(), FormatError>(FormatError::WrongChannelCount),
        channels == 1 && ir_sample_rate as int != host_sample_rate as int ==> r == Err::<(), FormatError>(
            FormatError::SampleRateMismatch,
        ),
{
    if channels != 1 {
        Err(FormatError::WrongChannelCount)
    } else if ir_sample_rate as usize != host_sample_rate {
        Err(FormatError::SampleRateMismatch)
    } else {
        Ok(())
    }
}

} // verus!
