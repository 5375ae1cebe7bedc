use vstd::prelude::*;
use vstd::string::{StrSliceExecFns, StringExecFns};

use crate::config::StreamConfig;
use crate::config::StreamConfigView;

verus! {

/// The character for one decimal digit.
pub open spec fn decimal_digit(d: int) -> char {
    if d == 0 {
        '0'
    } else if d == 1 {
        '1'
    } else if d == 2 {
        '2'
    } else if d == 3 {
        '3'
    } else if d == 4 {
        '4'
    } else if d == 5 {
        '5'
    } else if d == 6 {
        '6'
    } else if d == 7 {
        '7'
    } else if d == 8 {
        '8'
    } else {
        '9'
    }
}

/// The usual decimal rendering of a non-negative integer: most significant
/// digit first, no leading zeros except for zero itself.
pub open spec fn spec_decimal(n: int) -> Seq<char>
    decreases n,
{
    if n < 10 {
        seq![decimal_digit(n)]
    } else {
        spec_decimal(n / 10) + seq![decimal_digit(n % 10)]
    }
}

/// The string for one decimal digit.
fn digit_str(d: u32) -> (s: &'static str)
    requires
        d < 10,
    ensures
        s@ == seq![decimal_digit(d as int)],
{
    proof {
        reveal_strlit("0");
        reveal_strlit("1");
        reveal_strlit("2");
        reveal_strlit("3");
        reveal_strlit("4");
        reveal_strlit("5");
        reveal_strlit("6");
        reveal_strlit("7");
        reveal_strlit("8");
        reveal_strlit("9");
    }
    let s: &'static str = match d {
        0 => "0",
        1 => "1",
        2 => "2",
        3 => "3",
        4 => "4",
        5 => "5",
        6 => "6",
        7 => "7",
        8 => "8",
        _ => "9",
    };
    proof {
        assert(s@ =~= seq![decimal_digit(d as int)]);
    }
    s
}

/// Renders an unsigned integer in decimal.
pub fn u32_decimal(n: u32) -> (s: String)
    ensures
        s@ == spec_decimal(n as int),
    decreases n,
{
    if n < 10 {
        String::from_str(digit_str(n))
    } else {
        let mut s = u32_decimal(n / 10);
        s.append(digit_str(n % 10));
        s
    }
}

/// The arguments of the fixed encoder invocation: a hardcoded capture source
/// and codec template, parameterized only by the configuration's bitrate and
/// destination.
pub open spec fn spec_launch_args(c: StreamConfigView) -> Seq<Seq<char>> {
    seq![
        "-f"@,
        "dshow"@,
        "-i"@,
        "video=dummy:audio=dummy"@,
        "-c:v"@,
        "libx264"@,
        "-preset"@,
        "ultrafast"@,
        "-tune"@,
        "zerolatency"@,
        "-b:v"@,
        spec_decimal(c.bitrate as int) + "k"@,
        "-c:a"@,
        "aac"@,
        "-b:a"@,
        "128k"@,
        "-f"@,
        "mpegts"@,
        c.destination,
    ]
}

/// Name of the external encoder executable the invocation targets.
pub fn encoder_program() -> (r: &'static str)
    ensures
        r@ == "ffmpeg"@,
{
    "ffmpeg"
}

/// Builds the encoder invocation for the given configuration.
pub fn launch_args(config: &StreamConfig) -> (args: Vec<String>)
    ensures
        args.deep_view() == spec_launch_args(config@),
{
    let mut bitrate_arg = u32_decimal(config.bitrate);
    bitrate_arg.append("k");
    let mut args: Vec<String> = Vec::new();
    args.push(String::from_str("-f"));
    args.push(String::from_str("dshow"));
    args.push(String::from_str("-i"));
    args.push(String::from_str("video=dummy:audio=dummy"));
    args.push(String::from_str("-c:v"));
    args.push(String::from_str("libx264"));
    args.push(String::from_str("-preset"));
    args.push(String::from_str("ultrafast"));
    args.push(String::from_str("-tune"));
    args.push(String::from_str("zerolatency"));
    args.push(String::from_str("-b:v"));
    args.push(bitrate_arg);
    args.push(String::from_str("-c:a"));
    args.push(String::from_str("aac"));
    args.push(String::from_str("-b:a"));
    args.push(String::from_str("128k"));
    args.push(String::from_str("-f"));
    args.push(String::from_str("mpegts"));
    args.push(String::from_str(config.destination.as_str()));
    proof {
        assert(args.deep_view() =~~= spec_launch_args(config@));
    }
    args
}

} // verus!
