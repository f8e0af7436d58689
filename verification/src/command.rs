//! Extraction requests, transcoder command specifications and dispatch.
//!
//! The host issues one of three logical requests: a still frame at a given
//! time and resolution, a mono resampled audio waveform, or a file thumbnail.
//! For the two transcoder-backed requests this module builds the exact
//! argument list handed to the external transcoder; for the thumbnail request
//! it names the platform query the host must perform. [`plan_request`] is the
//! single dispatch point: it rejects a request whose input file does not
//! exist before any plan is produced, so no subprocess or platform service is
//! ever invoked for a nonexistent path.

use vstd::prelude::*;

use crate::errors::ExtractError;

verus! {

/// A fully-formed command specification for the external transcoder:
/// an executable name and an ordered argument list.
pub struct CommandSpec {
    pub program: String,
    pub args: Vec<String>,
}

/// One of the three logical extraction requests a host can issue.
pub enum ExtractionRequest {
    /// A still frame of `path` at `timestamp`, scaled to `resolution`
    /// (a string such as `"320x240"`).
    FrameAt { path: String, timestamp: String, resolution: String },
    /// The mono, resampled 16-bit waveform of the audio stream of `path`.
    AudioWaveform { path: String },
    /// A pre-rendered square thumbnail of `path` from the platform's
    /// shell service, at `target_size` pixels.
    FileThumbnail { path: String, target_size: u32 },
}

/// What the host must run to satisfy a request: either spawn the external
/// transcoder with the given command specification and collect its standard
/// output, or query the platform thumbnail service for the given path.
pub enum ExtractionPlan {
    RunTranscoder(CommandSpec),
    QueryThumbnail { path: String, target_size: u32 },
}

/// The views of an argument list, argument by argument.
pub open spec fn args_view(args: Seq<String>) -> Seq<Seq<char>> {
    args.map_values(|s: String| s@)
}

/// The transcoder argument list that yields one still frame of `path` at
/// `time`, scaled to `resolution` and streamed as a single WebP image.
pub open spec fn frame_args_spec(time: Seq<char>, path: Seq<char>, resolution: Seq<char>) -> Seq<
    Seq<char>,
> {
    seq![
        "-ss"@,
        time,
        "-i"@,
        path,
        "-frames:v"@,
        "1"@,
        "-s"@,
        resolution,
        "-c:v"@,
        "webp"@,
        "-f"@,
        "image2pipe"@,
        "-"@,
    ]
}

/// The transcoder argument list that yields the audio stream of `path` as
/// mono 16-bit signed little-endian samples resampled to 4000 Hz.
pub open spec fn waveform_args_spec(path: Seq<char>) -> Seq<Seq<char>> {
    seq![
        "-i"@,
        path,
        "-ac"@,
        "1"@,
        "-filter:a"@,
        "aresample=4000"@,
        "-map"@,
        "0:a"@,
        "-c:a"@,
        "pcm_s16le"@,
        "-loglevel"@,
        "panic"@,
        "-f"@,
        "data"@,
        "-"@,
    ]
}

/// The transcoder argument list of the alternate thumbnail path: one frame
/// of `path` at a fixed four-second offset, scaled to fixed small dimensions.
pub open spec fn clip_thumbnail_args_spec(path: Seq<char>) -> Seq<Seq<char>> {
    seq![
        "-y"@,
        "-ss"@,
        "00:00:04"@,
        "-i"@,
        path,
        "-frames:v"@,
        "1"@,
        "-f"@,
        "image2pipe"@,
        "-loglevel"@,
        "panic"@,
        "-s"@,
        "480x320"@,
        "-"@,
    ]
}

/// The command specification for a still frame of `video_path` at `time`,
/// scaled to `resolution`.
pub fn frame_command(video_path: &str, time: &str, resolution: &str) -> (r: CommandSpec)
    ensures
        r.program@ == "ffmpeg"@,
        args_view(r.args@) == frame_args_spec(time@, video_path@, resolution@),
{
    let mut args: Vec<String> = Vec::new();
    args.push("-ss".to_owned());
    args.push(time.to_owned());
    args.push("-i".to_owned());
    args.push(video_path.to_owned());
    args.push("-frames:v".to_owned());
    args.push("1".to_owned());
    args.push("-s".to_owned());
    args.push(resolution.to_owned());
    args.push("-c:v".to_owned());
    args.push("webp".to_owned());
    args.push("-f".to_owned());
    args.push("image2pipe".to_owned());
    args.push("-".to_owned());
    proof {
        assert(args_view(args@) =~= frame_args_spec(time@, video_path@, resolution@));
    }
    CommandSpec { program: "ffmpeg".to_owned(), args }
}

/// The command specification for the mono resampled waveform of `video_path`.
pub fn waveform_command(video_path: &str) -> (r: CommandSpec)
    ensures
        r.program@ == "ffmpeg"@,
        args_view(r.args@) == waveform_args_spec(video_path@),
{
    let mut args: Vec<String> = Vec::new();
    args.push("-i".to_owned());
    args.push(video_path.to_owned());
    args.push("-ac".to_owned());
    args.push("1".to_owned());
    args.push("-filter:a".to_owned());
    args.push("aresample=4000".to_owned());
    args.push("-map".to_owned());
    args.push("0:a".to_owned());
    args.push("-c:a".to_owned());
    args.push("pcm_s16le".to_owned());
    args.push("-loglevel".to_owned());
    args.push("panic".to_owned());
    args.push("-f".to_owned());
    args.push("data".to_owned());
    args.push("-".to_owned());
    proof {
        assert(args_view(args@) =~= waveform_args_spec(video_path@));
    }
    CommandSpec { program: "ffmpeg".to_owned(), args }
}

/// The command specification of the alternate thumbnail path: one frame of
/// `video_path` at a fixed offset near four seconds, scaled to 480x320.
pub fn clip_thumbnail_command(video_path: &str) -> (r: CommandSpec)
    ensures
        r.program@ == "ffmpeg"@,
        args_view(r.args@) == clip_thumbnail_args_spec(video_path@),
{
    let mut args: Vec<String> = Vec::new();
    args.push("-y".to_owned());
    args.push("-ss".to_owned());
    args.push("00:00:04".to_owned());
    args.push("-i".to_owned());
    args.push(video_path.to_owned());
    args.push("-frames:v".to_owned());
    args.push("1".to_owned());
    args.push("-f".to_owned());
    args.push("image2pipe".to_owned());
    args.push("-loglevel".to_owned());
    args.push("panic".to_owned());
    args.push("-s".to_owned());
    args.push("480x320".to_owned());
    args.push("-".to_owned());
    proof {
        assert(args_view(args@) =~= clip_thumbnail_args_spec(video_path@));
    }
    CommandSpec { program: "ffmpeg".to_owned(), args }
}

/// The existence-guarded entry decision of the alternate, transcoder-backed
/// thumbnail path: a nonexistent input is rejected before any command
/// specification is produced; an existing one yields exactly the fixed-offset
/// clip thumbnail command.
pub fn clip_thumbnail_plan(video_path: &str, path_exists: bool) -> (r: Result<
    CommandSpec,
    ExtractError,
>)
    ensures
        !path_exists ==> r == Result::<CommandSpec, ExtractError>::Err(
            ExtractError::InputNotFound,
        ),
        path_exists ==> (r matches Ok(spec) && spec.program@ == "ffmpeg"@ && args_view(spec.args@)
            == clip_thumbnail_args_spec(video_path@)),
{
    if !path_exists {
        return Err(ExtractError::InputNotFound);
    }
    Ok(clip_thumbnail_command(video_path))
}

/// The plan that a request maps to when its input file exists.
pub open spec fn plan_matches(req: ExtractionRequest, plan: ExtractionPlan) -> bool {
    match req {
        ExtractionRequest::FrameAt { path, timestamp, resolution } => match plan {
            ExtractionPlan::RunTranscoder(spec) => spec.program@ == "ffmpeg"@ && args_view(
                spec.args@,
            ) == frame_args_spec(timestamp@, path@, resolution@),
            _ => false,
        },
        ExtractionRequest::AudioWaveform { path } => match plan {
            ExtractionPlan::RunTranscoder(spec) => spec.program@ == "ffmpeg"@ && args_view(
                spec.args@,
            ) == waveform_args_spec(path@),
            _ => false,
        },
        ExtractionRequest::FileThumbnail { path, target_size } => match plan {
            ExtractionPlan::QueryThumbnail { path: p, target_size: s } => p@ == path@ && s
                == target_size,
            _ => false,
        },
    }
}

/// Dispatch one extraction request.
///
/// The host checks whether the input file exists and passes the answer in
/// `path_exists`; a request for a nonexistent file is rejected here, before
/// any plan is produced, so no subprocess is spawned and no platform service
/// is queried for it. For an existing file the returned plan carries exactly
/// the transcoder arguments (or the platform query) of the request.
pub fn plan_request(req: &ExtractionRequest, path_exists: bool) -> (r: Result<
    ExtractionPlan,
    ExtractError,
>)
    ensures
        !path_exists ==> r == Result::<ExtractionPlan, ExtractError>::Err(
            ExtractError::InputNotFound,
        ),
        path_exists ==> r is Ok && plan_matches(*req, r->Ok_0),
{
    if !path_exists {
        return Err(ExtractError::InputNotFound);
    }
    match req {
        ExtractionRequest::FrameAt { path, timestamp, resolution } => Ok(
            ExtractionPlan::RunTranscoder(
                frame_command(path.as_str(), timestamp.as_str(), resolution.as_str()),
            ),
        ),
        ExtractionRequest::AudioWaveform { path } => Ok(
            ExtractionPlan::RunTranscoder(waveform_command(path.as_str())),
        ),
        ExtractionRequest::FileThumbnail { path, target_size } => Ok(
            ExtractionPlan::QueryThumbnail { path: path.clone(), target_size: *target_size },
        ),
    }
}

} // verus!
