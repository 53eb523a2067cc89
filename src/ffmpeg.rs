use vstd::prelude::*;
use vstd::string::*;

use crate::media::{replace_extension, with_extension};
use crate::text::{decimal, push_decimal};

verus! {

/// The operations of the external video tool.
#[derive(Clone, Copy, PartialEq, Eq, Structural, Debug)]
pub enum JobKind {
    Caption,
    Scale,
    ConvertToGif,
    ConcatFlexible,
    ConcatStrict,
}

/// A list file that the tool reads, to be written before the job starts.
pub struct Manifest {
    pub path: String,
    pub text: String,
}

/// One run of the external video tool: what it reads, what it writes, and
/// the command line that does it.
pub struct TranscodeJob {
    pub kind: JobKind,
    pub inputs: Vec<String>,
    pub output: String,
    pub args: Vec<String>,
    pub manifest: Option<Manifest>,
}

pub ghost struct JobView {
    pub kind: JobKind,
    pub inputs: Seq<Seq<char>>,
    pub output: Seq<char>,
    pub args: Seq<Seq<char>>,
    pub manifest: Option<(Seq<char>, Seq<char>)>,
}

pub open spec fn strs(v: Seq<String>) -> Seq<Seq<char>> {
    v.map_values(|s: String| s@)
}

impl View for TranscodeJob {
    type V = JobView;

    open spec fn view(&self) -> JobView {
        JobView {
            kind: self.kind,
            inputs: strs(self.inputs@),
            output: self.output@,
            args: strs(self.args@),
            manifest: match self.manifest {
                Some(m) => Some((m.path@, m.text@)),
                None => None,
            },
        }
    }
}

/// The caption text with each `:` escaped, since `:` separates the options
/// of the tool's filters.
pub open spec fn escape_colons(s: Seq<char>) -> Seq<char>
    decreases s.len(),
{
    if s.len() == 0 {
        s
    } else {
        escape_colons(s.drop_last()) + if s.last() == ':' {
            "\\:"@
        } else {
            seq![s.last()]
        }
    }
}

pub open spec fn drawtext_filter(text: Seq<char>) -> Seq<char> {
    DRAWTEXT_HEAD@ + escape_colons(text) + "'"@
}

pub open spec fn caption_job(input: Seq<char>, text: Seq<char>, output: Seq<char>) -> JobView {
    JobView {
        kind: JobKind::Caption,
        inputs: seq![input],
        output,
        args: seq!["-i"@, input, "-vf"@, drawtext_filter(text), "-y"@, output],
        manifest: None,
    }
}

pub open spec fn size_arg(w: u32, h: u32) -> Seq<char> {
    decimal(w as nat) + "x"@ + decimal(h as nat)
}

/// The size that clips are scaled to when no other is asked for.
pub open spec fn target_size(size: Option<(u32, u32)>) -> (u32, u32) {
    match size {
        Some(s) => s,
        None => (480, 270),
    }
}

pub open spec fn scale_job(input: Seq<char>, size: Option<(u32, u32)>, output: Seq<char>) -> JobView {
    let (w, h) = target_size(size);
    JobView {
        kind: JobKind::Scale,
        inputs: seq![input],
        output,
        args: seq!["-i"@, input, "-s"@, size_arg(w, h), "-c"@, "copy"@, "-y"@, output],
        manifest: None,
    }
}

/// The path with its extension replaced by `gif` (or `gif` added).
pub open spec fn gif_path(p: Seq<char>) -> Seq<char> {
    with_extension(p, "gif"@)
}

pub open spec fn gif_job(input: Seq<char>) -> JobView {
    JobView {
        kind: JobKind::ConvertToGif,
        inputs: seq![input],
        output: gif_path(input),
        args: seq!["-i"@, input, "-y"@, "-filter_complex"@, PALETTE_FILTER@, gif_path(input)],
        manifest: None,
    }
}

pub open spec fn concat_flexible_job(first: Seq<char>, second: Seq<char>, output: Seq<char>) -> JobView {
    JobView {
        kind: JobKind::ConcatFlexible,
        inputs: seq![first, second],
        output,
        args: seq![
            "-i"@,
            first,
            "-i"@,
            second,
            "-filter_complex"@,
            CONCAT_FILTER@,
            "-map"@,
            "[v]"@,
            output,
            "-y"@,
        ],
        manifest: None,
    }
}

/// The list file of the concat demuxer: one `file '<path>'` line per input.
pub open spec fn manifest_text(first: Seq<char>, second: Seq<char>) -> Seq<char> {
    "file '"@ + first + "'\nfile '"@ + second + "'"@
}

pub open spec fn concat_strict_job(
    first: Seq<char>,
    second: Seq<char>,
    manifest: Seq<char>,
    output: Seq<char>,
) -> JobView {
    JobView {
        kind: JobKind::ConcatStrict,
        inputs: seq![first, second],
        output,
        args: seq![
            "-safe"@,
            "0"@,
            "-f"@,
            "concat"@,
            "-i"@,
            manifest,
            "-c"@,
            "copy"@,
            "-y"@,
            output,
        ],
        manifest: Some((manifest, manifest_text(first, second))),
    }
}

pub const DRAWTEXT_HEAD: &'static str =
    "drawtext='fontfile=C\\:/Windows/fonts/impact.ttf:fontcolor=white:borderw=3:fontsize=22:x=(w-text_w)/2:y=(h-text_h)-20:text=";

pub const PALETTE_FILTER: &'static str = "[0:v] split [a][b];[a] palettegen [p];[b][p] paletteuse";

pub const CONCAT_FILTER: &'static str = "[0:v] [1:v] concat=n=2:v=1:unsafe=true [v]";

fn own(s: &str) -> (r: String)
    ensures
        r@ == s@,
{
    String::from_str(s)
}

/// Escapes each `:` of `text` with a backslash.
pub fn escape_text(text: &str) -> (r: String)
    ensures
        r@ == escape_colons(text@),
{
    let n = text.unicode_len();
    let mut r = String::new();
    let mut i: usize = 0;
    while i < n
        invariant
            i <= n,
            n == text@.len(),
            r@ == escape_colons(text@.subrange(0, i as int)),
        decreases n - i,
    {
        assert(text@.subrange(0, i + 1).drop_last() =~= text@.subrange(0, i as int));
        if text.get_char(i) == ':' {
            r.append("\\:");
        } else {
            r.append(text.substring_char(i, i + 1));
        }
        assert(text@.subrange(i as int, i + 1) =~= seq![text@[i as int]]);
        i = i + 1;
    }
    assert(text@.subrange(0, n as int) =~= text@);
    r
}

/// Overlays `text` at the bottom centre of `input_file`, written to
/// `output_file`.
pub fn add_text(input_file: &str, text: &str, output_file: &str) -> (job: TranscodeJob)
    ensures
        job@ == caption_job(input_file@, text@, output_file@),
{
    let mut filter = own(DRAWTEXT_HEAD);
    let escaped = escape_text(text);
    filter.append(escaped.as_str());
    filter.append("'");
    let mut args: Vec<String> = Vec::new();
    args.push(own("-i"));
    args.push(own(input_file));
    args.push(own("-vf"));
    args.push(filter);
    args.push(own("-y"));
    args.push(own(output_file));
    let mut inputs: Vec<String> = Vec::new();
    inputs.push(own(input_file));
    let job = TranscodeJob { kind: JobKind::Caption, inputs, output: own(output_file), args, manifest: None };
    assert(job@.args =~= caption_job(input_file@, text@, output_file@).args);
    assert(job@.inputs =~= seq![input_file@]);
    job
}

/// Resizes `input_file` to `size` (480x270 when none is given) into
/// `output_file`, copying the streams instead of encoding them again.
pub fn scale(input_file: &str, size: Option<(u32, u32)>, output_file: &str) -> (job: TranscodeJob)
    ensures
        job@ == scale_job(input_file@, size, output_file@),
{
    let (w, h) = match size {
        Some(s) => s,
        None => (480u32, 270u32),
    };
    let mut dims = String::new();
    push_decimal(&mut dims, w);
    dims.append("x");
    push_decimal(&mut dims, h);
    let mut args: Vec<String> = Vec::new();
    args.push(own("-i"));
    args.push(own(input_file));
    args.push(own("-s"));
    args.push(dims);
    args.push(own("-c"));
    args.push(own("copy"));
    args.push(own("-y"));
    args.push(own(output_file));
    let mut inputs: Vec<String> = Vec::new();
    inputs.push(own(input_file));
    let job = TranscodeJob { kind: JobKind::Scale, inputs, output: own(output_file), args, manifest: None };
    assert(job@.args =~= scale_job(input_file@, size, output_file@).args);
    assert(job@.inputs =~= seq![input_file@]);
    job
}

/// Converts `input_file` to a palette-optimised gif beside it, with the same
/// name and the `gif` extension.
pub fn convert_to_gif(input_file: &str) -> (job: TranscodeJob)
    ensures
        job@ == gif_job(input_file@),
{
    let gif = replace_extension(input_file, "gif");
    let mut args: Vec<String> = Vec::new();
    args.push(own("-i"));
    args.push(own(input_file));
    args.push(own("-y"));
    args.push(own("-filter_complex"));
    args.push(own(PALETTE_FILTER));
    args.push(own(gif.as_str()));
    let mut inputs: Vec<String> = Vec::new();
    inputs.push(own(input_file));
    let job = TranscodeJob { kind: JobKind::ConvertToGif, inputs, output: gif, args, manifest: None };
    assert(job@.args =~= gif_job(input_file@).args);
    assert(job@.inputs =~= seq![input_file@]);
    job
}

/// Joins `first_file` and `second_file` into `output_file` with the concat
/// filter; the second clip is stretched to the size of the first.
pub fn stitch_files(first_file: &str, second_file: &str, output_file: &str) -> (job: TranscodeJob)
    ensures
        job@ == concat_flexible_job(first_file@, second_file@, output_file@),
{
    let mut args: Vec<String> = Vec::new();
    args.push(own("-i"));
    args.push(own(first_file));
    args.push(own("-i"));
    args.push(own(second_file));
    args.push(own("-filter_complex"));
    args.push(own(CONCAT_FILTER));
    args.push(own("-map"));
    args.push(own("[v]"));
    args.push(own(output_file));
    args.push(own("-y"));
    let mut inputs: Vec<String> = Vec::new();
    inputs.push(own(first_file));
    inputs.push(own(second_file));
    let job = TranscodeJob { kind: JobKind::ConcatFlexible, inputs, output: own(output_file), args, manifest: None };
    assert(job@.args =~= concat_flexible_job(first_file@, second_file@, output_file@).args);
    assert(job@.inputs =~= seq![first_file@, second_file@]);
    job
}

/// Joins `first_file` and `second_file` into `output_file` with the concat
/// demuxer, which copies the streams and so needs clips of equal codec
/// parameters. The list of inputs goes to `manifest_path`.
pub fn stitch_files_concat_demuxer(
    first_file: &str,
    second_file: &str,
    manifest_path: &str,
    output_file: &str,
) -> (job: TranscodeJob)
    ensures
        job@ == concat_strict_job(first_file@, second_file@, manifest_path@, output_file@),
{
    let mut text = own("file '");
    text.append(first_file);
    text.append("'\nfile '");
    text.append(second_file);
    text.append("'");
    let mut args: Vec<String> = Vec::new();
    args.push(own("-safe"));
    args.push(own("0"));
    args.push(own("-f"));
    args.push(own("concat"));
    args.push(own("-i"));
    args.push(own(manifest_path));
    args.push(own("-c"));
    args.push(own("copy"));
    args.push(own("-y"));
    args.push(own(output_file));
    let mut inputs: Vec<String> = Vec::new();
    inputs.push(own(first_file));
    inputs.push(own(second_file));
    let manifest = Manifest { path: own(manifest_path), text };
    let job = TranscodeJob {
        kind: JobKind::ConcatStrict,
        inputs,
        output: own(output_file),
        args,
        manifest: Some(manifest),
    };
    assert(job@.args =~= concat_strict_job(first_file@, second_file@, manifest_path@, output_file@).args);
    assert(job@.inputs =~= seq![first_file@, second_file@]);
    job
}

/// Failures of the external video tool.
pub enum FfmpegError {
    /// The tool is not installed where the system looks for commands.
    NotFound,
    /// Starting or waiting for the tool failed for another reason.
    Io { message: String },
}

impl FfmpegError {
    /// Sorts a failure to start the tool: a missing command is `NotFound`,
    /// anything else keeps its description.
    pub fn from_spawn_failure(not_found: bool, message: String) -> (e: FfmpegError)
        ensures
            not_found ==> e is NotFound,
            !not_found ==> e == (FfmpegError::Io { message }),
    {
        if not_found {
            FfmpegError::NotFound
        } else {
            FfmpegError::Io { message }
        }
    }
}

} // verus!
