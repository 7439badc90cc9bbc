//! The dry run of a job: the command line that would be run, and a warning
//! for each input file that is not there.

use crate::cmdline::{command_line, join_mkvmerge_command, split_tokens};
use crate::model::{ExternalFileInfo, ExternalFileView, MuxJobRequest, MuxJobView, MuxSettings, MuxSettingsView};
use crate::seqs::{lemma_flatten_take_ends, lemma_flatten_take_step, push_arg};
use crate::synth::{build_mkvmerge_command, mkvmerge_args};
use vstd::prelude::*;
use vstd::string::StringExecFns;

verus! {

/// What a dry run shows for one job.
#[derive(Clone, Debug, PartialEq, Eq)]
pub struct MuxPreviewResult {
    pub job_id: String,
    /// The command line, as it would be typed.
    pub command: String,
    /// One warning for each input file that is missing.
    pub warnings: Vec<String>,
    /// The primary file.
    pub video: String,
    /// The file that the multiplexer would write.
    pub output: String,
}

/// What a dry run shows, as sequences of characters.
pub struct PreviewView {
    pub job_id: Seq<char>,
    pub command: Seq<char>,
    pub warnings: Seq<Seq<char>>,
    pub video: Seq<char>,
    pub output: Seq<char>,
}

impl DeepView for MuxPreviewResult {
    type V = PreviewView;

    open spec fn deep_view(&self) -> PreviewView {
        PreviewView {
            job_id: self.job_id@,
            command: self.command@,
            warnings: self.warnings.deep_view(),
            video: self.video@,
            output: self.output@,
        }
    }
}

impl View for MuxPreviewResult {
    type V = PreviewView;

    open spec fn view(&self) -> PreviewView {
        self.deep_view()
    }
}

/// The path of each file.
pub open spec fn paths_of(files: Seq<ExternalFileView>) -> Seq<Seq<char>> {
    Seq::new(files.len(), |i: int| files[i].path)
}

/// The input files of a job, in the order in which they are checked: the
/// primary file, then the audio, subtitle, chapter and attachment files.
pub open spec fn input_paths(job: MuxJobView) -> Seq<Seq<char>> {
    seq![job.video.path] + paths_of(job.audios) + paths_of(job.subtitles) + paths_of(
        job.chapters,
    ) + paths_of(job.attachments)
}

/// What the warning calls the `index`-th input file of a job.
pub open spec fn input_label(job: MuxJobView, index: int) -> Seq<char> {
    if index < 1 {
        "Video"@
    } else if index < 1 + job.audios.len() {
        "Audio"@
    } else if index < 1 + job.audios.len() + job.subtitles.len() {
        "Subtitle"@
    } else if index < 1 + job.audios.len() + job.subtitles.len() + job.chapters.len() {
        "Chapter"@
    } else {
        "Attachment"@
    }
}

/// The warning for each input file: one where the file is marked missing.
pub open spec fn warning_groups(job: MuxJobView, present: Seq<bool>) -> Seq<Seq<Seq<char>>> {
    let paths = input_paths(job);
    Seq::new(
        paths.len(),
        |i: int|
            if i < present.len() && !present[i] {
                seq![input_label(job, i) + " file missing: "@ + paths[i]]
            } else {
                Seq::empty()
            },
    )
}

/// The warnings of a dry run: one for each input file that `present` marks
/// as missing. `present` runs along the input files; a file beyond its end
/// counts as present.
pub open spec fn preview_warnings(job: MuxJobView, present: Seq<bool>) -> Seq<Seq<char>> {
    warning_groups(job, present).flatten()
}

/// What the dry run of a job shows.
pub open spec fn preview_of(
    job: MuxJobView,
    settings: MuxSettingsView,
    output_path: Seq<char>,
    present: Seq<bool>,
) -> PreviewView {
    PreviewView {
        job_id: job.id,
        command: command_line(mkvmerge_args(job, settings, output_path)),
        warnings: preview_warnings(job, present),
        video: job.video.path,
        output: output_path,
    }
}

fn push_paths(out: &mut Vec<String>, files: &Vec<ExternalFileInfo>)
    ensures
        final(out).deep_view() == old(out).deep_view() + paths_of(files.deep_view()),
{
    let ghost before = out.deep_view();
    let ghost wanted = paths_of(files.deep_view());
    let mut i: usize = 0;
    assert(before + wanted.take(0) == before);
    while i < files.len()
        invariant
            i <= files.len(),
            wanted == paths_of(files.deep_view()),
            out.deep_view() == before + wanted.take(i as int),
        decreases files.len() - i,
    {
        push_arg(out, files[i].path.clone());
        assert(wanted.take(i + 1) == wanted.take(i as int).push(wanted[i as int]));
        assert(before + wanted.take(i + 1) == (before + wanted.take(i as int)).push(
            wanted[i as int],
        ));
        i += 1;
    }
    assert(wanted.take(i as int) == wanted);
}

/// The input files of a job, in the order in which they are checked.
pub fn files_to_check(job: &MuxJobRequest) -> (paths: Vec<String>)
    ensures
        paths.deep_view() == input_paths(job@),
{
    let mut paths: Vec<String> = Vec::new();
    push_arg(&mut paths, job.video.path.clone());
    assert(paths.deep_view() == seq![job@.video.path]);
    push_paths(&mut paths, &job.audios);
    push_paths(&mut paths, &job.subtitles);
    push_paths(&mut paths, &job.chapters);
    push_paths(&mut paths, &job.attachments);
    paths
}

fn label_of(job: &MuxJobRequest, index: usize) -> (label: &'static str)
    ensures
        label@ == input_label(job@, index as int),
{
    if index < 1 {
        return "Video";
    }
    let mut rest: usize = index - 1;
    if rest < job.audios.len() {
        return "Audio";
    }
    rest = rest - job.audios.len();
    if rest < job.subtitles.len() {
        return "Subtitle";
    }
    rest = rest - job.subtitles.len();
    if rest < job.chapters.len() {
        return "Chapter";
    }
    "Attachment"
}

/// The dry run of a job. `present` says of each input file, in the order of
/// `files_to_check`, whether it is there. Splitting the command that is
/// shown gives the multiplexer's name and the arguments that would be run.
pub fn preview_mux(job: &MuxJobRequest, settings: &MuxSettings, output_path: &str, present: &[bool]) -> (out:
    MuxPreviewResult)
    ensures
        out@ == preview_of(job@, settings@, output_path@, present@),
        split_tokens(out@.command) == Some(
            seq!["mkvmerge"@] + mkvmerge_args(job@, settings@, output_path@),
        ),
{
    let args = build_mkvmerge_command(job, settings, output_path);
    let command = join_mkvmerge_command(args.as_slice());
    let paths = files_to_check(job);
    let ghost groups = warning_groups(job@, present@);
    let mut warnings: Vec<String> = Vec::new();
    let mut i: usize = 0;
    proof {
        lemma_flatten_take_ends(groups);
        assert(warnings.deep_view() == Seq::<Seq<char>>::empty());
    }
    while i < paths.len()
        invariant
            i <= paths.len(),
            paths.deep_view() == input_paths(job@),
            groups == warning_groups(job@, present@),
            warnings.deep_view() == groups.take(i as int).flatten(),
        decreases paths.len() - i,
    {
        proof {
            lemma_flatten_take_step(groups, i as int);
        }
        let ghost so_far = warnings.deep_view();
        if i < present.len() && !present[i] {
            let mut warning = String::from_str(label_of(job, i));
            warning.append(" file missing: ");
            warning.append(paths[i].as_str());
            push_arg(&mut warnings, warning);
            assert(warnings.deep_view() == so_far + groups[i as int]);
        } else {
            assert(so_far + groups[i as int] == so_far);
        }
        i += 1;
    }
    MuxPreviewResult {
        job_id: job.id.clone(),
        command,
        warnings,
        video: job.video.path.clone(),
        output: String::from_str(output_path),
    }
}

} // verus!
