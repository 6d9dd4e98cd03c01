//! Stream configuration: a sample rate and a set of channel indices.
use vstd::prelude::*;

verus! {

/// Channel indices range over `0..MAX_CHANNELS`.
pub const MAX_CHANNELS: usize = 64;

/// Whether channel `index` belongs to the set `channels`.
pub open spec fn has_channel(channels: u64, index: nat) -> bool {
    (channels >> index) & 1u64 == 1u64
}

/// How many of the channels `0..n` belong to the set `channels`.
pub open spec fn channels_below(channels: u64, n: nat) -> nat
    decreases n,
{
    if n == 0 {
        0
    } else {
        channels_below(channels, (n - 1) as nat) + if has_channel(channels, (n - 1) as nat) {
            1nat
        } else {
            0nat
        }
    }
}

/// Number of channels in the set.
pub open spec fn channel_count_spec(channels: u64) -> nat {
    channels_below(channels, MAX_CHANNELS as nat)
}

proof fn lemma_channels_below_bound(channels: u64, n: nat)
    ensures
        channels_below(channels, n) <= n,
    decreases n,
{
    if n > 0 {
        lemma_channels_below_bound(channels, (n - 1) as nat);
    }
}

/// Configuration of one hardware stream, fixed for the stream's lifetime.
#[derive(Clone, Copy, Debug, PartialEq, Eq, Structural)]
pub struct StreamConfig {
    /// Frames per second.
    pub samplerate: u32,
    /// Set of channel indices, one bit per channel.
    pub channels: u64,
}

impl StreamConfig {
    /// Number of channels the configuration carries.
    pub fn channel_count(&self) -> (r: usize)
        ensures
            r == channel_count_spec(self.channels),
            r <= MAX_CHANNELS,
    {
        let mut count: usize = 0;
        let mut i: usize = 0;
        while i < MAX_CHANNELS
            invariant
                i <= MAX_CHANNELS,
                count == channels_below(self.channels, i as nat),
                count <= i,
            decreases MAX_CHANNELS - i,
        {
            proof {
                lemma_channels_below_bound(self.channels, i as nat);
            }
            if (self.channels >> (i as u64)) & 1u64 == 1u64 {
                count = count + 1;
            }
            i = i + 1;
        }
        count
    }
}

/// Timing and configuration handed to every callback invocation.
#[derive(Clone, Copy, Debug, PartialEq, Eq, Structural)]
pub struct AudioCallbackContext {
    /// Frames processed by the stream before this invocation.
    pub timestamp: u64,
    /// Configuration of the stream that invokes the callback.
    pub stream_config: StreamConfig,
}

} // verus!
