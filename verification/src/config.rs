use vstd::prelude::*;
use vstd::string::StringExecFns;

verus! {

/// Mathematical model of a `StreamConfig`: strings as character sequences,
/// scalars as themselves.
#[verifier::ext_equal]
pub struct StreamConfigView {
    pub destination: Seq<char>,
    pub bitrate: u32,
    pub resolution: Seq<char>,
    pub audio_enabled: bool,
    pub video_enabled: bool,
}

/// Configuration captured for one streaming session: immutable while the
/// session is active, replaced wholesale by the next start request.
///
/// Resolution and the audio/video switches are accepted but are not threaded
/// into the encoder invocation; they are carried as inert fields on purpose.
#[derive(Debug, Clone)]
pub struct StreamConfig {
    pub destination: String,
    pub bitrate: u32,
    pub resolution: String,
    pub audio_enabled: bool,
    pub video_enabled: bool,
}

impl View for StreamConfig {
    type V = StreamConfigView;

    open spec fn view(&self) -> StreamConfigView {
        StreamConfigView {
            destination: self.destination@,
            bitrate: self.bitrate,
            resolution: self.resolution@,
            audio_enabled: self.audio_enabled,
            video_enabled: self.video_enabled,
        }
    }
}

/// A configuration the state machine may trust: positive bitrate and a
/// non-empty destination.
pub open spec fn config_wf(c: StreamConfigView) -> bool {
    c.bitrate > 0 && c.destination.len() > 0
}

/// The configuration a fresh engine holds before any start request.
pub open spec fn spec_default_config() -> StreamConfigView {
    StreamConfigView {
        destination: ""@,
        bitrate: 5000,
        resolution: "1920x1080"@,
        audio_enabled: true,
        video_enabled: true,
    }
}

/// Builds the engine's initial configuration.
pub fn default_config() -> (c: StreamConfig)
    ensures
        c@ == spec_default_config(),
{
    let c = StreamConfig {
        destination: String::from_str(""),
        bitrate: 5000,
        resolution: String::from_str("1920x1080"),
        audio_enabled: true,
        video_enabled: true,
    };
    proof {
        assert(c@ =~= spec_default_config());
    }
    c
}

/// Copies a configuration field by field, preserving its model.
pub fn copy_config(c: &StreamConfig) -> (r: StreamConfig)
    ensures
        r@ == c@,
{
    let r = StreamConfig {
        destination: String::from_str(c.destination.as_str()),
        bitrate: c.bitrate,
        resolution: String::from_str(c.resolution.as_str()),
        audio_enabled: c.audio_enabled,
        video_enabled: c.video_enabled,
    };
    proof {
        assert(r@ =~= c@);
    }
    r
}

} // verus!
