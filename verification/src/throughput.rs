//! Interface throughput measurement from periodically sampled byte
//! counters, tolerant of counter resets.

use vstd::prelude::*;

verus! {

/// The instantaneous rate derived from two counter readings over an
/// elapsed time in milliseconds: the counter delta scaled to bytes per
/// second, with a reset counter (a new reading below the previous one)
/// treated as the total transferred since the reset, and the result
/// saturating at the largest `u64`.
pub open spec fn spec_rate(prev: u64, new: u64, elapsed_ms: int) -> int
    recommends
        elapsed_ms > 0,
{
    let delta: int = if new >= prev {
        new - prev
    } else {
        new as int
    };
    if delta * 1000 / elapsed_ms > u64::MAX {
        u64::MAX as int
    } else {
        delta * 1000 / elapsed_ms
    }
}

/// Interface counters and the rates derived from them.  Timestamps are
/// milliseconds on the caller's clock; rates are bytes per second.
#[derive(Debug, Clone)]
pub struct NetworkStats {
    pub interface_name: String,
    pub rx_bytes: u64,
    pub tx_bytes: u64,
    pub rx_packets: u64,
    pub tx_packets: u64,
    pub rx_speed: u64,
    pub tx_speed: u64,
    pub last_update: u64,
}

fn rate_from(prev: u64, new: u64, elapsed_ms: u64) -> (rate: u64)
    requires
        elapsed_ms > 0,
    ensures
        rate == spec_rate(prev, new, elapsed_ms as int),
{
    let delta: u64 = if new >= prev {
        new - prev
    } else {
        new
    };
    let scaled: u128 = (delta as u128) * 1000 / (elapsed_ms as u128);
    if scaled > u64::MAX as u128 {
        u64::MAX
    } else {
        scaled as u64
    }
}

impl NetworkStats {
    /// Fresh statistics for one interface: all counters and rates zero.
    pub fn new(interface_name: String, now_ms: u64) -> (s: NetworkStats)
        ensures
            s.interface_name == interface_name,
            s.rx_bytes == 0 && s.tx_bytes == 0,
            s.rx_packets == 0 && s.tx_packets == 0,
            s.rx_speed == 0 && s.tx_speed == 0,
            s.last_update == now_ms,
    {
        NetworkStats {
            interface_name,
            rx_bytes: 0,
            tx_bytes: 0,
            rx_packets: 0,
            tx_packets: 0,
            rx_speed: 0,
            tx_speed: 0,
            last_update: now_ms,
        }
    }

    /// Takes one sample of the interface's raw byte counters.  When time
    /// has passed since the previous sample, each rate is derived from its
    /// counter independently; when none has, the rates are left unchanged.
    /// The raw counters and the timestamp are always stored.
    pub fn sample(&mut self, now_ms: u64, rx_bytes_raw: u64, tx_bytes_raw: u64)
        ensures
            final(self).interface_name == old(self).interface_name,
            final(self).rx_bytes == rx_bytes_raw,
            final(self).tx_bytes == tx_bytes_raw,
            final(self).rx_packets == old(self).rx_packets,
            final(self).tx_packets == old(self).tx_packets,
            final(self).last_update == now_ms,
            now_ms > old(self).last_update ==> {
                &&& final(self).rx_speed == spec_rate(
                    old(self).rx_bytes,
                    rx_bytes_raw,
                    now_ms - old(self).last_update,
                )
                &&& final(self).tx_speed == spec_rate(
                    old(self).tx_bytes,
                    tx_bytes_raw,
                    now_ms - old(self).last_update,
                )
            },
            now_ms <= old(self).last_update ==> {
                &&& final(self).rx_speed == old(self).rx_speed
                &&& final(self).tx_speed == old(self).tx_speed
            },
    {
        if now_ms > self.last_update {
            let elapsed_ms = now_ms - self.last_update;
            self.rx_speed = rate_from(self.rx_bytes, rx_bytes_raw, elapsed_ms);
            self.tx_speed = rate_from(self.tx_bytes, tx_bytes_raw, elapsed_ms);
        }
        self.rx_bytes = rx_bytes_raw;
        self.tx_bytes = tx_bytes_raw;
        self.last_update = now_ms;
    }
}

/// Law: a rate is never negative, and a counter that moved backward (a
/// reset) yields the same rate as a fresh counter that reached the new
/// reading from zero — the wrapped delta is never used.
pub proof fn lemma_rate_reset(prev: u64, new: u64, elapsed_ms: int)
    requires
        elapsed_ms > 0,
    ensures
        spec_rate(prev, new, elapsed_ms) >= 0,
        new < prev ==> spec_rate(prev, new, elapsed_ms) == spec_rate(0, new, elapsed_ms),
{
    let delta: int = if new >= prev {
        new - prev
    } else {
        new as int
    };
    assert(delta * 1000 >= 0) by (nonlinear_arith)
        requires
            delta >= 0,
    ;
    vstd::arithmetic::div_mod::lemma_div_pos_is_pos(delta * 1000, elapsed_ms);
}

} // verus!
