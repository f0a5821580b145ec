use vstd::prelude::*;

verus! {

/// A playback fraction `numer / denom`, always within `[0, 1]`.
#[derive(Clone, Copy, Debug, PartialEq, Eq, Structural)]
pub struct Progress {
    pub numer: u64,
    pub denom: u64,
}

impl Progress {
    pub open spec fn wf(&self) -> bool {
        self.denom > 0 && self.numer <= self.denom
    }

    /// Whether the fraction is exactly zero.
    pub fn is_zero(&self) -> (r: bool)
        ensures
            r == (self.numer == 0),
    {
        self.numer == 0
    }
}

/// The fraction of a track that has played: the elapsed time over the total,
/// clamped to one; zero where the total is unknown or zero.
pub open spec fn progress_spec(elapsed_ms: u64, total_ms: Option<u64>) -> Progress {
    match total_ms {
        Some(t) if t > 0 => Progress { numer: if elapsed_ms <= t { elapsed_ms } else { t }, denom: t },
        _ => Progress { numer: 0, denom: 1 },
    }
}

/// Computes `elapsed / total` clamped to `[0, 1]`, or zero without a usable total.
pub fn progress_of(elapsed_ms: u64, total_ms: Option<u64>) -> (r: Progress)
    ensures
        r == progress_spec(elapsed_ms, total_ms),
        r.wf(),
{
    match total_ms {
        Some(t) => {
            if t > 0 {
                let numer: u64 = if elapsed_ms <= t { elapsed_ms } else { t };
                Progress { numer, denom: t }
            } else {
                Progress { numer: 0, denom: 1 }
            }
        },
        None => Progress { numer: 0, denom: 1 },
    }
}

} // verus!
