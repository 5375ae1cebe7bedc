use vstd::prelude::*;
use vstd::string::{StrSliceExecFns, StringExecFns};

use crate::config::{config_wf, StreamConfig, StreamConfigView};
use crate::session::StreamError;

verus! {

/// The configuration the facade builds for a start request: caller-supplied
/// destination and bitrate, fixed defaults for everything else.
pub open spec fn spec_requested_config(destination: Seq<char>, bitrate: u32) -> StreamConfigView {
    StreamConfigView {
        destination: destination,
        bitrate: bitrate,
        resolution: "1920x1080"@,
        audio_enabled: true,
        video_enabled: true,
    }
}

/// Builds the configuration for a start request, fixing resolution, audio and
/// video to their defaults.
pub fn build_config(destination: String, bitrate: u32) -> (c: StreamConfig)
    ensures
        c@ == spec_requested_config(destination@, bitrate),
{
    let c = StreamConfig {
        destination: destination,
        bitrate: bitrate,
        resolution: String::from_str("1920x1080"),
        audio_enabled: true,
        video_enabled: true,
    };
    proof {
        assert(c@ =~= spec_requested_config(c.destination@, bitrate));
    }
    c
}

/// The validation the facade owes the state machine before admitting a start:
/// positive bitrate and a non-empty destination.
pub fn config_is_valid(c: &StreamConfig) -> (r: bool)
    ensures
        r == config_wf(c@),
{
    c.bitrate > 0 && c.destination.as_str().unicode_len() > 0
}

/// The confirmation a successful start reports.
pub fn start_success_message() -> (m: String)
    ensures
        m@ == "Stream iniciado com sucesso"@,
{
    String::from_str("Stream iniciado com sucesso")
}

/// The confirmation a successful stop reports.
pub fn stop_success_message() -> (m: String)
    ensures
        m@ == "Stream parado com sucesso"@,
{
    String::from_str("Stream parado com sucesso")
}

/// The short user-facing message for each error, with the launcher's
/// diagnostic appended where one was reported.
pub open spec fn spec_error_message(e: StreamError) -> Seq<char> {
    match e {
        StreamError::AlreadyActive => "Stream já está ativo"@,
        StreamError::NotActive => "Stream não está ativo"@,
        StreamError::LaunchFailed(d) => "Erro ao iniciar stream: "@ + d@,
        StreamError::TerminationFailed(d) => "Erro ao parar stream: "@ + d@,
    }
}

/// Renders an error as its short user-facing message.
pub fn error_message(e: &StreamError) -> (m: String)
    ensures
        m@ == spec_error_message(*e),
{
    match e {
        StreamError::AlreadyActive => String::from_str("Stream já está ativo"),
        StreamError::NotActive => String::from_str("Stream não está ativo"),
        StreamError::LaunchFailed(d) => {
            let mut m = String::from_str("Erro ao iniciar stream: ");
            m.append(d.as_str());
            m
        },
        StreamError::TerminationFailed(d) => {
            let mut m = String::from_str("Erro ao parar stream: ");
            m.append(d.as_str());
            m
        },
    }
}

/// Translates a start outcome into the facade's user-facing result: the
/// confirmation on success, the rendered error otherwise.
pub fn start_reply(r: &Result<(), StreamError>) -> (m: Result<String, String>)
    ensures
        (m is Ok) <==> (r is Ok),
        m matches Ok(s) ==> s@ == "Stream iniciado com sucesso"@,
        r matches Err(e) ==> m matches Err(s) && s@ == spec_error_message(*e),
{
    match r {
        Ok(()) => Ok(start_success_message()),
        Err(e) => Err(error_message(e)),
    }
}

/// Translates a stop outcome into the facade's user-facing result: the
/// confirmation on success, the rendered error otherwise.
pub fn stop_reply(r: &Result<(), StreamError>) -> (m: Result<String, String>)
    ensures
        (m is Ok) <==> (r is Ok),
        m matches Ok(s) ==> s@ == "Stream parado com sucesso"@,
        r matches Err(e) ==> m matches Err(s) && s@ == spec_error_message(*e),
{
    match r {
        Ok(()) => Ok(stop_success_message()),
        Err(e) => Err(error_message(e)),
    }
}

} // verus!
