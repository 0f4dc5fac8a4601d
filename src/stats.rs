use vstd::prelude::*;

verus! {

/// The statistics record: when collection began, the latest hash rate and
/// the number of hashes done since then.
///
/// `start_time` is a reading of the loop's clock, in milliseconds;
/// `hash_rate` is in hashes per second.
#[derive(Debug, Clone, Copy, PartialEq, Eq, Structural)]
pub struct MinerStats {
    pub start_time: u64,
    pub hash_rate: u64,
    pub total_hashes: u64,
}

impl MinerStats {
    /// A record whose collection began at `start_time`, with no work counted.
    pub open spec fn initial(start_time: u64) -> MinerStats {
        MinerStats { start_time, hash_rate: 0, total_hashes: 0 }
    }

    /// The record after one update step: the rate is replaced and the counter
    /// grows by `increment`, stopping at `u64::MAX` rather than wrapping.
    pub open spec fn updated(self, rate: u64, increment: u64) -> MinerStats {
        MinerStats {
            start_time: self.start_time,
            hash_rate: rate,
            total_hashes: if self.total_hashes + increment <= u64::MAX {
                (self.total_hashes + increment) as u64
            } else {
                u64::MAX
            },
        }
    }

    pub fn new(start_time: u64) -> (r: MinerStats)
        ensures
            r == MinerStats::initial(start_time),
    {
        MinerStats { start_time, hash_rate: 0, total_hashes: 0 }
    }

    /// Performs one update step.
    pub fn record_update(&mut self, rate: u64, increment: u64)
        ensures
            *final(self) == old(self).updated(rate, increment),
            final(self).start_time == old(self).start_time,
            final(self).total_hashes >= old(self).total_hashes,
    {
        self.hash_rate = rate;
        self.total_hashes = self.total_hashes.saturating_add(increment);
    }
}

impl Default for MinerStats {
    /// A record that began at the origin of the loop's clock.
    fn default() -> (r: MinerStats)
        ensures
            r == MinerStats::initial(0),
    {
        MinerStats::new(0)
    }
}

} // verus!
