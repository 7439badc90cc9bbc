//! The line that records in the session log what a job is about to merge.

use crate::cmdline::{quote_arg, quoted};
use crate::model::{ExternalFileInfo, ExternalFileView, MuxJobRequest, MuxJobView};
use crate::seqs::push_arg;
use crate::text::{join, join_strings};
use vstd::prelude::*;
use vstd::string::StringExecFns;

verus! {

/// How the standard library writes an optional string for debugging:
/// `None`, or `Some(..)` around the string in quotes with its special
/// characters escaped.
pub uninterp spec fn debug_text(value: Option<Seq<char>>) -> Seq<char>;

/// The `Debug` form of an optional string, as `format!` with `{:?}` gives
/// it. It depends on the value alone.
#[verifier::external_body]
fn debug_option_string(value: &Option<String>) -> (out: String)
    ensures
        out@ == debug_text(value.deep_view()),
{
    format!("{:?}", value)
}

/// How an optional flag is written for debugging.
pub open spec fn debug_flag(value: Option<bool>) -> Seq<char> {
    match value {
        Some(b) => if b {
            "Some(true)"@
        } else {
            "Some(false)"@
        },
        None => "None"@,
    }
}

fn debug_flag_str(value: Option<bool>) -> (out: &'static str)
    ensures
        out@ == debug_flag(value),
{
    match value {
        Some(true) => "Some(true)",
        Some(false) => "Some(false)",
        None => "None",
    }
}

/// What the plan says of an external file: its path, language, default
/// flag, for a subtitle file its forced flag, and its track name.
pub open spec fn plan_item(file: ExternalFileView, subtitle: bool) -> Seq<char> {
    "{path="@ + quoted(file.path) + ", lang="@ + debug_text(file.language) + ", default="@
        + debug_flag(file.is_default) + (if subtitle {
        ", forced="@ + debug_flag(file.is_forced)
    } else {
        Seq::empty()
    }) + ", name="@ + debug_text(file.track_name) + "}"@
}

/// What the plan says of each file.
pub open spec fn plan_items(files: Seq<ExternalFileView>, subtitle: bool) -> Seq<Seq<char>> {
    Seq::new(files.len(), |i: int| plan_item(files[i], subtitle))
}

/// The path of each file as it is written on a command line.
pub open spec fn quoted_paths(files: Seq<ExternalFileView>) -> Seq<Seq<char>> {
    Seq::new(files.len(), |i: int| quoted(files[i].path))
}

/// The items between brackets, separated by a comma and a space.
pub open spec fn plan_list(items: Seq<Seq<char>>) -> Seq<char> {
    "["@ + join(items, ", "@) + "]"@
}

/// The plan of a job: the primary file, the output, and the external
/// audio, subtitle and chapter files.
pub open spec fn job_plan_text(job: MuxJobView, output_path: Seq<char>) -> Seq<char> {
    "JOB PLAN: video="@ + quoted(job.video.path) + " output="@ + quoted(output_path)
        + " audios="@ + plan_list(plan_items(job.audios, false)) + " subtitles="@ + plan_list(
        plan_items(job.subtitles, true),
    ) + " chapters="@ + plan_list(quoted_paths(job.chapters))
}

fn plan_item_string(file: &ExternalFileInfo, subtitle: bool) -> (out: String)
    ensures
        out@ == plan_item(file@, subtitle),
{
    let mut out = String::from_str("{path=");
    out.append(quote_arg(file.path.as_str()).as_str());
    out.append(", lang=");
    out.append(debug_option_string(&file.language).as_str());
    out.append(", default=");
    out.append(debug_flag_str(file.is_default));
    if subtitle {
        let ghost before = out@;
        out.append(", forced=");
        out.append(debug_flag_str(file.is_forced));
        assert(out@ == before + (", forced="@ + debug_flag(file@.is_forced)));
    } else {
        assert(out@ + Seq::<char>::empty() == out@);
    }
    out.append(", name=");
    out.append(debug_option_string(&file.track_name).as_str());
    out.append("}");
    out
}

fn plan_list_string(items: &Vec<String>) -> (out: String)
    ensures
        out@ == plan_list(items.deep_view()),
{
    let mut out = String::from_str("[");
    out.append(join_strings(items, ", ").as_str());
    out.append("]");
    out
}

fn plan_items_list(files: &Vec<ExternalFileInfo>, subtitle: bool) -> (out: String)
    ensures
        out@ == plan_list(plan_items(files.deep_view(), subtitle)),
{
    let ghost wanted = plan_items(files.deep_view(), subtitle);
    let mut items: Vec<String> = Vec::new();
    let mut i: usize = 0;
    assert(items.deep_view() == wanted.take(0));
    while i < files.len()
        invariant
            i <= files.len(),
            wanted == plan_items(files.deep_view(), subtitle),
            items.deep_view() == wanted.take(i as int),
        decreases files.len() - i,
    {
        push_arg(&mut items, plan_item_string(&files[i], subtitle));
        assert(wanted.take(i + 1) == wanted.take(i as int).push(wanted[i as int]));
        i += 1;
    }
    assert(wanted.take(i as int) == wanted);
    plan_list_string(&items)
}

fn quoted_paths_list(files: &Vec<ExternalFileInfo>) -> (out: String)
    ensures
        out@ == plan_list(quoted_paths(files.deep_view())),
{
    let ghost wanted = quoted_paths(files.deep_view());
    let mut items: Vec<String> = Vec::new();
    let mut i: usize = 0;
    assert(items.deep_view() == wanted.take(0));
    while i < files.len()
        invariant
            i <= files.len(),
            wanted == quoted_paths(files.deep_view()),
            items.deep_view() == wanted.take(i as int),
        decreases files.len() - i,
    {
        push_arg(&mut items, quote_arg(files[i].path.as_str()));
        assert(wanted.take(i + 1) == wanted.take(i as int).push(wanted[i as int]));
        i += 1;
    }
    assert(wanted.take(i as int) == wanted);
    plan_list_string(&items)
}

/// The line that records a job's plan in the session log.
pub fn job_plan_line(job: &MuxJobRequest, output_path: &str) -> (out: String)
    ensures
        out@ == job_plan_text(job@, output_path@),
{
    let mut out = String::from_str("JOB PLAN: video=");
    out.append(quote_arg(job.video.path.as_str()).as_str());
    out.append(" output=");
    out.append(quote_arg(output_path).as_str());
    out.append(" audios=");
    out.append(plan_items_list(&job.audios, false).as_str());
    out.append(" subtitles=");
    out.append(plan_items_list(&job.subtitles, true).as_str());
    out.append(" chapters=");
    out.append(quoted_paths_list(&job.chapters).as_str());
    out
}

} // verus!
