use vstd::prelude::*;
use vstd::string::StringExecFns;

verus! {

/// Mathematical model of a `StreamStats` snapshot.
#[verifier::ext_equal]
pub struct StreamStatsView {
    pub bitrate: u32,
    pub fps_milli: u32,
    pub dropped_frames: u32,
    pub network_quality: Seq<char>,
    pub uptime: u64,
}

/// Point-in-time statistics snapshot, readable at any time without blocking
/// on session transitions. The frame rate is carried in thousandths of a
/// frame per second, so the whole record stays in integer arithmetic.
///
/// Nothing in this core refreshes the snapshot after initialization; the
/// update entry point exists as the seam where a telemetry producer would
/// attach.
#[derive(Debug, Clone)]
pub struct StreamStats {
    pub bitrate: u32,
    pub fps_milli: u32,
    pub dropped_frames: u32,
    pub network_quality: String,
    pub uptime: u64,
}

impl View for StreamStats {
    type V = StreamStatsView;

    open spec fn view(&self) -> StreamStatsView {
        StreamStatsView {
            bitrate: self.bitrate,
            fps_milli: self.fps_milli,
            dropped_frames: self.dropped_frames,
            network_quality: self.network_quality@,
            uptime: self.uptime,
        }
    }
}

/// The placeholder snapshot a fresh engine holds.
pub open spec fn spec_initial_stats() -> StreamStatsView {
    StreamStatsView {
        bitrate: 0,
        fps_milli: 0,
        dropped_frames: 0,
        network_quality: "Unknown"@,
        uptime: 0,
    }
}

/// Builds the placeholder snapshot.
pub fn initial_stats() -> (s: StreamStats)
    ensures
        s@ == spec_initial_stats(),
{
    let s = StreamStats {
        bitrate: 0,
        fps_milli: 0,
        dropped_frames: 0,
        network_quality: String::from_str("Unknown"),
        uptime: 0,
    };
    proof {
        assert(s@ =~= spec_initial_stats());
    }
    s
}

/// Copies a snapshot field by field, preserving its model.
pub fn copy_stats(s: &StreamStats) -> (r: StreamStats)
    ensures
        r@ == s@,
{
    let r = StreamStats {
        bitrate: s.bitrate,
        fps_milli: s.fps_milli,
        dropped_frames: s.dropped_frames,
        network_quality: String::from_str(s.network_quality.as_str()),
        uptime: s.uptime,
    };
    proof {
        assert(r@ =~= s@);
    }
    r
}

} // verus!
