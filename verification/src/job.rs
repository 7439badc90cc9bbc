//! One job from the moment a worker draws it to its last event, as a state
//! machine. The caller does the outside work (asks the disk, starts and
//! watches processes, moves files) and reports what came of it; the
//! machine decides what happens next.

use crate::cmdline::{command_line, join_mkvmerge_command};
use crate::model::{MuxJobRequest, MuxJobView, MuxSettings, MuxSettingsView};
use crate::output::{
    check_free_space, file_name_with_crc, file_name_without_crc, name_with_crc,
    name_without_crc, space_message, OutputNames, OutputNamesView,
};
use crate::plan::{job_plan_line, job_plan_text};
use crate::progress::{JobStatus, MuxProgressEvent, ProgressEventView};
use crate::propedit::{build_mkvpropedit_args, mkvpropedit_args};
use crate::synth::{build_mkvmerge_command, fast_path_eligible, is_fast_path_eligible, mkvmerge_args};
use crate::text::{
    i64_to_string, is_blank, is_blank_str, join, join_strings, signed_decimal,
};
use vstd::prelude::*;
use vstd::string::StringExecFns;

verus! {

/// The two outside tools.
#[derive(Clone, Copy, Debug, PartialEq, Eq, Structural)]
pub enum Tool {
    /// The multiplexer, which writes a new container.
    Multiplexer,
    /// The property editor, which edits a container in place.
    PropertyEditor,
}

/// Where a job stands.
#[derive(Clone, Copy, Debug, PartialEq, Eq, Structural)]
pub enum JobPhase {
    /// Drawn by a worker; nothing was done yet.
    Waiting,
    /// The free space of the output directory is being read.
    CheckingSpace,
    /// The property editor is being looked for.
    ProbingEditor,
    /// The property editor runs.
    Editing,
    /// The size of the edited source is being read.
    MeasuringEdited,
    /// The multiplexer is being looked for.
    ProbingMultiplexer,
    /// The multiplexer runs.
    Muxing,
    /// The output takes the place of the source.
    Replacing,
    /// The checksum of the finished file is being computed.
    Stamping,
    /// The size of the finished file is being read.
    Measuring,
    /// Nothing more happens.
    Done,
}

/// What the caller reports to the machine.
#[derive(Clone, Debug, PartialEq, Eq)]
pub enum JobEvent {
    /// A worker drew the job; `stop_requested` is the session's flag.
    Drawn { stop_requested: bool },
    /// The output directory has this many free bytes.
    FreeSpace(u64),
    /// The free space could not be read, for this reason.
    FreeSpaceUnknown(String),
    /// Whether the tool that was looked for is there.
    ToolProbed(bool),
    /// The tool could not be started, for this reason.
    SpawnFailed(String),
    /// The tool's process is over. `code` is its exit code; nothing where
    /// waiting for it failed. The flags say whether the file that the tool
    /// was to write, and the file under the final name, exist.
    Exited { code: Option<i32>, output_exists: bool, final_exists: bool },
    /// The source was replaced; the flag says whether the file under the
    /// final name exists now.
    Replaced { final_exists: bool },
    /// The checksum stamp of the finished file; nothing where it could not
    /// be computed.
    Checksum(Option<String>),
    /// The size of the file that was to be measured, if it could be read.
    Measured(Option<u64>),
}

/// What an event is, with its texts as sequences of characters.
pub enum JobEventView {
    Drawn { stop_requested: bool },
    FreeSpace(u64),
    FreeSpaceUnknown(Seq<char>),
    ToolProbed(bool),
    SpawnFailed(Seq<char>),
    Exited { code: Option<i32>, output_exists: bool, final_exists: bool },
    Replaced { final_exists: bool },
    Checksum(Option<Seq<char>>),
    Measured(Option<u64>),
}

impl DeepView for JobEvent {
    type V = JobEventView;

    open spec fn deep_view(&self) -> JobEventView {
        match self {
            JobEvent::Drawn { stop_requested } => JobEventView::Drawn {
                stop_requested: *stop_requested,
            },
            JobEvent::FreeSpace(bytes) => JobEventView::FreeSpace(*bytes),
            JobEvent::FreeSpaceUnknown(reason) => JobEventView::FreeSpaceUnknown(reason@),
            JobEvent::ToolProbed(found) => JobEventView::ToolProbed(*found),
            JobEvent::SpawnFailed(reason) => JobEventView::SpawnFailed(reason@),
            JobEvent::Exited { code, output_exists, final_exists } => JobEventView::Exited {
                code: *code,
                output_exists: *output_exists,
                final_exists: *final_exists,
            },
            JobEvent::Replaced { final_exists } => JobEventView::Replaced {
                final_exists: *final_exists,
            },
            JobEvent::Checksum(stamp) => JobEventView::Checksum(stamp.deep_view()),
            JobEvent::Measured(size) => JobEventView::Measured(*size),
        }
    }
}

impl View for JobEvent {
    type V = JobEventView;

    open spec fn view(&self) -> JobEventView {
        self.deep_view()
    }
}

/// What the machine asks of the caller. The actions of one step are done in
/// order; the last one that asks a question decides which event comes
/// next.
#[derive(Clone, Debug, PartialEq, Eq)]
pub enum JobAction {
    /// Push the event to the presentation layer.
    Emit(MuxProgressEvent),
    /// Append the line to the session log.
    Log(String),
    /// Forward the line to the presentation layer as a log line.
    Show(String),
    /// Pause the session.
    Pause,
    /// Read the free space of the directory; report `FreeSpace` or
    /// `FreeSpaceUnknown`.
    AskFreeSpace { directory: String },
    /// Look for the tool; report `ToolProbed`.
    Probe(Tool),
    /// Start the tool with the arguments, note its process as alive, watch
    /// it until it is over, and note that it is over; report `Exited`, or
    /// `SpawnFailed` where it did not start. With `capture` its output is
    /// read line by line.
    Run { tool: Tool, args: Vec<String>, capture: bool },
    /// Delete the source and give the output the final name; report
    /// `Replaced`.
    ReplaceSource,
    /// Compute the checksum stamp of the file of this name in the output
    /// directory; report `Checksum`.
    ComputeChecksum { name: String },
    /// Rename a file in the output directory.
    Rename { from: String, to: String },
    /// Read the size of the file of this name in the output directory;
    /// report `Measured`.
    Measure { name: String },
    /// Read the size of the source; report `Measured`.
    MeasureSource,
    /// Copy the session log into the directory.
    CopyLog { directory: String },
}

/// What an action is, with its texts as sequences of characters.
pub enum JobActionView {
    Emit(ProgressEventView),
    Log(Seq<char>),
    Show(Seq<char>),
    Pause,
    AskFreeSpace { directory: Seq<char> },
    Probe(Tool),
    Run { tool: Tool, args: Seq<Seq<char>>, capture: bool },
    ReplaceSource,
    ComputeChecksum { name: Seq<char> },
    Rename { from: Seq<char>, to: Seq<char> },
    Measure { name: Seq<char> },
    MeasureSource,
    CopyLog { directory: Seq<char> },
}

impl DeepView for JobAction {
    type V = JobActionView;

    open spec fn deep_view(&self) -> JobActionView {
        match self {
            JobAction::Emit(e) => JobActionView::Emit(e.deep_view()),
            JobAction::Log(line) => JobActionView::Log(line@),
            JobAction::Show(line) => JobActionView::Show(line@),
            JobAction::Pause => JobActionView::Pause,
            JobAction::AskFreeSpace { directory } => JobActionView::AskFreeSpace {
                directory: directory@,
            },
            JobAction::Probe(tool) => JobActionView::Probe(*tool),
            JobAction::Run { tool, args, capture } => JobActionView::Run {
                tool: *tool,
                args: args.deep_view(),
                capture: *capture,
            },
            JobAction::ReplaceSource => JobActionView::ReplaceSource,
            JobAction::ComputeChecksum { name } => JobActionView::ComputeChecksum { name: name@ },
            JobAction::Rename { from, to } => JobActionView::Rename { from: from@, to: to@ },
            JobAction::Measure { name } => JobActionView::Measure { name: name@ },
            JobAction::MeasureSource => JobActionView::MeasureSource,
            JobAction::CopyLog { directory } => JobActionView::CopyLog { directory: directory@ },
        }
    }
}

impl View for JobAction {
    type V = JobActionView;

    open spec fn view(&self) -> JobActionView {
        self.deep_view()
    }
}

/// One step of the machine: the phase that the job is in afterwards, and
/// what the caller has to do.
#[derive(Clone, Debug, PartialEq, Eq)]
pub struct JobStep {
    pub phase: JobPhase,
    pub actions: Vec<JobAction>,
}

/// What a step is: the next phase and the actions, in order.
pub struct JobStepView {
    pub phase: JobPhase,
    pub actions: Seq<JobActionView>,
}

impl DeepView for JobStep {
    type V = JobStepView;

    open spec fn deep_view(&self) -> JobStepView {
        JobStepView { phase: self.phase, actions: self.actions.deep_view() }
    }
}

impl View for JobStep {
    type V = JobStepView;

    open spec fn view(&self) -> JobStepView {
        self.deep_view()
    }
}

// ---------------------------------------------------------------------------
// What the machine does
// ---------------------------------------------------------------------------

/// The exit code by which the multiplexer says that it finished with
/// warnings.
pub const WARNINGS_EXIT_CODE: i32 = 1;

/// The action that pushes an event with a message.
pub open spec fn event_of(
    job_id: Seq<char>,
    status: JobStatus,
    progress: u8,
    message: Seq<char>,
    size_after: Option<u64>,
    error_message: Option<Seq<char>>,
) -> JobActionView {
    JobActionView::Emit(
        ProgressEventView {
            job_id,
            status,
            progress,
            message: Some(message),
            size_after,
            error_message,
        },
    )
}

/// The actions for a fault: the error event, and a pause of the session
/// where the settings ask for one on errors.
pub open spec fn fault(
    job: MuxJobView,
    settings: MuxSettingsView,
    message: Seq<char>,
    detail: Seq<char>,
) -> Seq<JobActionView> {
    seq![event_of(job.id, JobStatus::Error, 0, message, None, Some(detail))] + (if settings.abort_on_errors {
        seq![JobActionView::Pause]
    } else {
        Seq::empty()
    })
}

/// A last step with these actions.
pub open spec fn finished(actions: Seq<JobActionView>) -> JobStepView {
    JobStepView { phase: JobPhase::Done, actions }
}

/// A step that changes nothing: the event does not belong to the phase.
pub open spec fn ignored(phase: JobPhase) -> JobStepView {
    JobStepView { phase, actions: Seq::empty() }
}

/// A worker drew the job. Nothing happens once a stop was requested; else
/// the job is announced and the free space is asked for.
pub open spec fn on_drawn(job: MuxJobView, names: OutputNamesView, stop_requested: bool) -> JobStepView {
    if stop_requested {
        finished(Seq::empty())
    } else {
        JobStepView {
            phase: JobPhase::CheckingSpace,
            actions: seq![
                event_of(job.id, JobStatus::Processing, 0, "Starting muxing"@, None, None),
                JobActionView::Log("Starting job "@ + job.id + " for "@ + job.video.path),
                JobActionView::AskFreeSpace { directory: names.directory },
            ],
        }
    }
}

/// Whether the job is done by the property editor: the settings ask for the
/// fast path and the job is eligible.
pub open spec fn takes_fast_path(job: MuxJobView, settings: MuxSettingsView) -> bool {
    settings.use_mkvpropedit && fast_path_eligible(job, settings)
}

/// The free space is known, or known to be unreadable. Too little room,
/// and a missing destination while the source may not be overwritten, are
/// faults. Else the tool for the job is looked for.
pub open spec fn on_space(
    job: MuxJobView,
    settings: MuxSettingsView,
    output_path: Seq<char>,
    available: Result<u64, Seq<char>>,
) -> JobStepView {
    match available {
        Err(reason) => finished(
            fault(job, settings, "Low disk space"@, "Failed to read free space: "@ + reason),
        ),
        Ok(bytes) => if bytes < job.video.size {
            finished(fault(job, settings, "Low disk space"@, space_message(job.video.size)))
        } else if is_blank(settings.destination_dir) && !settings.overwrite_source {
            finished(
                fault(
                    job,
                    settings,
                    "Destination folder required"@,
                    "Set a destination folder or enable overwrite source."@,
                ),
            )
        } else {
            let fast = takes_fast_path(job, settings);
            JobStepView {
                phase: if fast {
                    JobPhase::ProbingEditor
                } else {
                    JobPhase::ProbingMultiplexer
                },
                actions: seq![JobActionView::Log("Output path: "@ + output_path)] + (
                if settings.use_mkvpropedit && !fast {
                    seq![
                        JobActionView::Log(
                            "Fast muxing requested but this job requires full mkvmerge (fast mux works only for in-place metadata edits)."@,
                        ),
                    ]
                } else {
                    Seq::empty()
                }) + seq![
                    JobActionView::Probe(
                        if fast {
                            Tool::PropertyEditor
                        } else {
                            Tool::Multiplexer
                        },
                    ),
                ],
            }
        },
    }
}

/// The line that shows the property editor's call.
pub open spec fn editor_line(job: MuxJobView) -> Seq<char> {
    "mkvpropedit "@ + job.video.path + " "@ + join(mkvpropedit_args(job), " "@)
}

/// The property editor was looked for. A missing editor is a fault. With
/// nothing to edit the job falls back to the multiplexer; else the editor
/// is run on the source.
pub open spec fn on_editor_probed(job: MuxJobView, settings: MuxSettingsView, found: bool) -> JobStepView {
    if !found {
        finished(
            fault(
                job,
                settings,
                "mkvpropedit not found"@,
                "Install mkvpropedit or disable fast muxing."@,
            ),
        )
    } else if mkvpropedit_args(job).len() == 0 {
        JobStepView {
            phase: JobPhase::ProbingMultiplexer,
            actions: seq![
                JobActionView::Log(
                    "Fast mux requested but no track modifications detected. Falling back to mkvmerge."@,
                ),
                JobActionView::Probe(Tool::Multiplexer),
            ],
        }
    } else {
        JobStepView {
            phase: JobPhase::Editing,
            actions: seq![
                JobActionView::Log(editor_line(job)),
                JobActionView::Show(editor_line(job)),
                JobActionView::Run {
                    tool: Tool::PropertyEditor,
                    args: seq![job.video.path] + mkvpropedit_args(job),
                    capture: false,
                },
            ],
        }
    }
}

/// The property editor is over. Exit code 0 is success and the source is
/// measured; any other code, and a failed wait, are faults.
pub open spec fn on_editor_exit(job: MuxJobView, settings: MuxSettingsView, code: Option<i32>) -> JobStepView {
    match code {
        Some(c) => if c == 0 {
            JobStepView {
                phase: JobPhase::MeasuringEdited,
                actions: seq![JobActionView::MeasureSource],
            }
        } else {
            finished(
                fault(
                    job,
                    settings,
                    "mkvpropedit failed"@,
                    "mkvpropedit exited with code: "@ + signed_decimal(c as int),
                ),
            )
        },
        None => finished(
            fault(job, settings, "mkvpropedit error"@, "Failed to wait for mkvpropedit"@),
        ),
    }
}

/// The multiplexer was looked for. A missing multiplexer is a fault; else
/// the plan and the command line are logged and the multiplexer is run.
pub open spec fn on_multiplexer_probed(
    job: MuxJobView,
    settings: MuxSettingsView,
    output_path: Seq<char>,
    found: bool,
) -> JobStepView {
    if !found {
        finished(
            fault(
                job,
                settings,
                "mkvmerge not found"@,
                "Install mkvmerge (MKVToolNix) and try again."@,
            ),
        )
    } else {
        let args = mkvmerge_args(job, settings, output_path);
        JobStepView {
            phase: JobPhase::Muxing,
            actions: seq![
                JobActionView::Log(job_plan_text(job, output_path)),
                JobActionView::Log(command_line(args)),
                JobActionView::Run { tool: Tool::Multiplexer, args, capture: true },
            ],
        }
    }
}

/// What is done with the file under the final name: it gets its checksum
/// stamp, or loses an old one, where the settings ask for it and the file
/// exists; then it is measured.
pub open spec fn finalize(settings: MuxSettingsView, names: OutputNamesView, final_exists: bool) -> JobStepView {
    if settings.add_crc && final_exists {
        JobStepView {
            phase: JobPhase::Stamping,
            actions: seq![JobActionView::ComputeChecksum { name: names.final_name }],
        }
    } else if settings.remove_old_crc && final_exists {
        JobStepView {
            phase: JobPhase::Measuring,
            actions: seq![
                JobActionView::Rename {
                    from: names.final_name,
                    to: name_without_crc(names.final_name),
                },
                JobActionView::Measure { name: name_without_crc(names.final_name) },
            ],
        }
    } else {
        JobStepView {
            phase: JobPhase::Measuring,
            actions: seq![JobActionView::Measure { name: names.final_name }],
        }
    }
}

/// Whether an exit of the multiplexer counts as success: code 0 does, and
/// the code for warnings does where the file that the multiplexer was to
/// write exists.
pub open spec fn exit_is_success(code: int, output_exists: bool) -> bool {
    code == 0 || (code == WARNINGS_EXIT_CODE && output_exists)
}

/// What follows a successful exit: the output takes the place of the
/// source where that is the mode and the output exists; else the file is
/// finalized as it is.
pub open spec fn after_success(
    settings: MuxSettingsView,
    names: OutputNamesView,
    output_exists: bool,
    final_exists: bool,
) -> JobStepView {
    if names.overwrite_mode && output_exists {
        JobStepView { phase: JobPhase::Replacing, actions: seq![JobActionView::ReplaceSource] }
    } else {
        finalize(settings, names, final_exists)
    }
}

/// The multiplexer is over. A failed wait counts as exit code -1.
pub open spec fn on_multiplexer_exit(
    job: MuxJobView,
    settings: MuxSettingsView,
    names: OutputNamesView,
    code: Option<i32>,
    output_exists: bool,
    final_exists: bool,
) -> JobStepView {
    let exit_code: int = match code {
        Some(c) => c as int,
        None => -1,
    };
    if !exit_is_success(exit_code, output_exists) {
        finished(
            seq![
                JobActionView::Log(
                    "Job "@ + job.id + " failed with exit code "@ + signed_decimal(exit_code),
                ),
            ] + fault(
                job,
                settings,
                "Muxing failed"@,
                "Process exited with code "@ + signed_decimal(exit_code),
            ),
        )
    } else {
        let next = after_success(settings, names, output_exists, final_exists);
        JobStepView {
            phase: next.phase,
            actions: (if exit_code != 0 {
                seq![
                    JobActionView::Log(
                        "Job "@ + job.id + " completed with warnings (exit code 1)"@,
                    ),
                ]
            } else {
                Seq::empty()
            }) + next.actions,
        }
    }
}

/// The checksum stamp is known, or known to have failed: with a stamp the
/// file is renamed to carry it; either way the file is measured.
pub open spec fn on_checksum(names: OutputNamesView, stamp: Option<Seq<char>>) -> JobStepView {
    match stamp {
        Some(crc) => JobStepView {
            phase: JobPhase::Measuring,
            actions: seq![
                JobActionView::Rename {
                    from: names.final_name,
                    to: name_with_crc(names.final_name, crc),
                },
                JobActionView::Measure { name: name_with_crc(names.final_name, crc) },
            ],
        },
        None => JobStepView {
            phase: JobPhase::Measuring,
            actions: seq![JobActionView::Measure { name: names.final_name }],
        },
    }
}

/// The finished file was measured: the job is complete, and the log is
/// copied beside the output where the settings ask for it and a
/// destination is set.
pub open spec fn on_measured(
    job: MuxJobView,
    settings: MuxSettingsView,
    names: OutputNamesView,
    size: Option<u64>,
) -> JobStepView {
    finished(
        seq![
            event_of(job.id, JobStatus::Completed, 100, "Muxing completed"@, size, None),
            JobActionView::Log("Job "@ + job.id + " completed successfully"@),
        ] + (if settings.keep_log_file && !is_blank(settings.destination_dir) {
            seq![JobActionView::CopyLog { directory: names.directory }]
        } else {
            Seq::empty()
        }),
    )
}

/// The step that an event causes in a phase. An event that does not belong
/// to the phase changes nothing.
pub open spec fn job_transition(
    job: MuxJobView,
    settings: MuxSettingsView,
    names: OutputNamesView,
    output_path: Seq<char>,
    phase: JobPhase,
    event: JobEventView,
) -> JobStepView {
    match (phase, event) {
        (JobPhase::Waiting, JobEventView::Drawn { stop_requested }) => on_drawn(
            job,
            names,
            stop_requested,
        ),
        (JobPhase::CheckingSpace, JobEventView::FreeSpace(bytes)) => on_space(
            job,
            settings,
            output_path,
            Ok(bytes),
        ),
        (JobPhase::CheckingSpace, JobEventView::FreeSpaceUnknown(reason)) => on_space(
            job,
            settings,
            output_path,
            Err(reason),
        ),
        (JobPhase::ProbingEditor, JobEventView::ToolProbed(found)) => on_editor_probed(
            job,
            settings,
            found,
        ),
        (JobPhase::Editing, JobEventView::SpawnFailed(reason)) => finished(
            fault(
                job,
                settings,
                "Failed to start mkvpropedit"@,
                "Failed to start mkvpropedit: "@ + reason,
            ),
        ),
        (JobPhase::Editing, JobEventView::Exited { code, .. }) => on_editor_exit(
            job,
            settings,
            code,
        ),
        (JobPhase::MeasuringEdited, JobEventView::Measured(size)) => finished(
            seq![event_of(job.id, JobStatus::Completed, 100, "Fast mux completed"@, size, None)],
        ),
        (JobPhase::ProbingMultiplexer, JobEventView::ToolProbed(found)) => on_multiplexer_probed(
            job,
            settings,
            output_path,
            found,
        ),
        (JobPhase::Muxing, JobEventView::SpawnFailed(reason)) => finished(
            fault(
                job,
                settings,
                "Failed to start process"@,
                "Failed to start process: "@ + reason,
            ),
        ),
        (
            JobPhase::Muxing,
            JobEventView::Exited { code, output_exists, final_exists },
        ) => on_multiplexer_exit(job, settings, names, code, output_exists, final_exists),
        (JobPhase::Replacing, JobEventView::Replaced { final_exists }) => finalize(
            settings,
            names,
            final_exists,
        ),
        (JobPhase::Stamping, JobEventView::Checksum(stamp)) => on_checksum(names, stamp),
        (JobPhase::Measuring, JobEventView::Measured(size)) => on_measured(
            job,
            settings,
            names,
            size,
        ),
        _ => ignored(phase),
    }
}

// ---------------------------------------------------------------------------
// Doing it
// ---------------------------------------------------------------------------

fn push_action(actions: &mut Vec<JobAction>, action: JobAction)
    ensures
        final(actions).deep_view() == old(actions).deep_view().push(action.deep_view()),
{
    actions.push(action);
    assert(actions.deep_view() =~= old(actions).deep_view().push(action.deep_view()));
}

fn no_actions() -> (actions: Vec<JobAction>)
    ensures
        actions.deep_view() == Seq::<JobActionView>::empty(),
{
    let actions: Vec<JobAction> = Vec::new();
    assert(actions.deep_view() =~= Seq::<JobActionView>::empty());
    actions
}

fn concat2(a: &str, b: &str) -> (out: String)
    ensures
        out@ == a@ + b@,
{
    let mut out = String::from_str(a);
    out.append(b);
    out
}

fn concat3(a: &str, b: &str, c: &str) -> (out: String)
    ensures
        out@ == a@ + b@ + c@,
{
    let mut out = String::from_str(a);
    out.append(b);
    out.append(c);
    out
}

fn concat4(a: &str, b: &str, c: &str, d: &str) -> (out: String)
    ensures
        out@ == a@ + b@ + c@ + d@,
{
    let mut out = String::from_str(a);
    out.append(b);
    out.append(c);
    out.append(d);
    out
}

fn emit(
    job: &MuxJobRequest,
    status: JobStatus,
    progress: u8,
    message: &str,
    size_after: Option<u64>,
    error_message: Option<String>,
) -> (action: JobAction)
    ensures
        action.deep_view() == event_of(
            job@.id,
            status,
            progress,
            message@,
            size_after,
            error_message.deep_view(),
        ),
{
    JobAction::Emit(
        MuxProgressEvent {
            job_id: job.id.clone(),
            status,
            progress,
            message: Some(String::from_str(message)),
            size_after,
            error_message,
        },
    )
}

fn push_fault(
    actions: &mut Vec<JobAction>,
    job: &MuxJobRequest,
    settings: &MuxSettings,
    message: &str,
    detail: String,
)
    ensures
        final(actions).deep_view() == old(actions).deep_view() + fault(
            job@,
            settings@,
            message@,
            detail@,
        ),
{
    let ghost before = actions.deep_view();
    push_action(actions, emit(job, JobStatus::Error, 0, message, None, Some(detail)));
    if settings.abort_on_errors {
        push_action(actions, JobAction::Pause);
    }
    assert(actions.deep_view() == before + fault(job@, settings@, message@, detail@));
}

fn fault_step(job: &MuxJobRequest, settings: &MuxSettings, message: &str, detail: String) -> (step:
    JobStep)
    ensures
        step@ == finished(fault(job@, settings@, message@, detail@)),
{
    let mut actions = no_actions();
    push_fault(&mut actions, job, settings, message, detail);
    assert(Seq::<JobActionView>::empty() + fault(job@, settings@, message@, detail@)
        == fault(job@, settings@, message@, detail@));
    JobStep { phase: JobPhase::Done, actions }
}

fn drawn(job: &MuxJobRequest, names: &OutputNames, stop_requested: bool) -> (step: JobStep)
    ensures
        step@ == on_drawn(job@, names@, stop_requested),
{
    let mut actions = no_actions();
    if stop_requested {
        return JobStep { phase: JobPhase::Done, actions };
    }
    push_action(&mut actions, emit(job, JobStatus::Processing, 0, "Starting muxing", None, None));
    push_action(
        &mut actions,
        JobAction::Log(
            concat4("Starting job ", job.id.as_str(), " for ", job.video.path.as_str()),
        ),
    );
    push_action(&mut actions, JobAction::AskFreeSpace { directory: names.directory.clone() });
    assert(actions.deep_view() == on_drawn(job@, names@, stop_requested).actions);
    JobStep { phase: JobPhase::CheckingSpace, actions }
}

fn space_known(
    job: &MuxJobRequest,
    settings: &MuxSettings,
    output_path: &str,
    available: Result<u64, &str>,
) -> (step: JobStep)
    ensures
        step@ == on_space(
            job@,
            settings@,
            output_path@,
            match available {
                Ok(bytes) => Ok(bytes),
                Err(reason) => Err(reason@),
            },
        ),
{
    match available {
        Err(reason) => fault_step(
            job,
            settings,
            "Low disk space",
            concat2("Failed to read free space: ", reason),
        ),
        Ok(bytes) => {
            if let Err(detail) = check_free_space(bytes, job.video.size) {
                return fault_step(job, settings, "Low disk space", detail);
            }
            if is_blank_str(settings.destination_dir.as_str()) && !settings.overwrite_source {
                return fault_step(
                    job,
                    settings,
                    "Destination folder required",
                    String::from_str("Set a destination folder or enable overwrite source."),
                );
            }
            let fast = settings.use_mkvpropedit && is_fast_path_eligible(job, settings);
            let mut actions = no_actions();
            push_action(&mut actions, JobAction::Log(concat2("Output path: ", output_path)));
            if settings.use_mkvpropedit && !fast {
                push_action(
                    &mut actions,
                    JobAction::Log(
                        String::from_str(
                            "Fast muxing requested but this job requires full mkvmerge (fast mux works only for in-place metadata edits).",
                        ),
                    ),
                );
            }
            push_action(
                &mut actions,
                JobAction::Probe(
                    if fast {
                        Tool::PropertyEditor
                    } else {
                        Tool::Multiplexer
                    },
                ),
            );
            assert(actions.deep_view() == on_space(
                job@,
                settings@,
                output_path@,
                Ok(bytes),
            ).actions);
            JobStep {
                phase: if fast {
                    JobPhase::ProbingEditor
                } else {
                    JobPhase::ProbingMultiplexer
                },
                actions,
            }
        },
    }
}

fn editor_probed(job: &MuxJobRequest, settings: &MuxSettings, found: bool) -> (step: JobStep)
    ensures
        step@ == on_editor_probed(job@, settings@, found),
{
    if !found {
        return fault_step(
            job,
            settings,
            "mkvpropedit not found",
            String::from_str("Install mkvpropedit or disable fast muxing."),
        );
    }
    let edits = build_mkvpropedit_args(job);
    let mut actions = no_actions();
    if edits.len() == 0 {
        push_action(
            &mut actions,
            JobAction::Log(
                String::from_str(
                    "Fast mux requested but no track modifications detected. Falling back to mkvmerge.",
                ),
            ),
        );
        push_action(&mut actions, JobAction::Probe(Tool::Multiplexer));
        assert(actions.deep_view() == on_editor_probed(job@, settings@, found).actions);
        return JobStep { phase: JobPhase::ProbingMultiplexer, actions };
    }
    let joined = join_strings(&edits, " ");
    let line = concat4("mkvpropedit ", job.video.path.as_str(), " ", joined.as_str());
    let mut args: Vec<String> = Vec::new();
    crate::seqs::push_arg(&mut args, job.video.path.clone());
    let mut i: usize = 0;
    assert(args.deep_view() == seq![job@.video.path] + edits.deep_view().take(0));
    while i < edits.len()
        invariant
            i <= edits.len(),
            args.deep_view() == seq![job@.video.path] + edits.deep_view().take(i as int),
        decreases edits.len() - i,
    {
        crate::seqs::push_arg(&mut args, edits[i].clone());
        assert(edits.deep_view().take(i + 1) == edits.deep_view().take(i as int).push(
            edits.deep_view()[i as int],
        ));
        i += 1;
    }
    assert(edits.deep_view().take(i as int) == edits.deep_view());
    push_action(&mut actions, JobAction::Log(line.clone()));
    push_action(&mut actions, JobAction::Show(line));
    push_action(&mut actions, JobAction::Run { tool: Tool::PropertyEditor, args, capture: false });
    assert(actions.deep_view() == on_editor_probed(job@, settings@, found).actions);
    JobStep { phase: JobPhase::Editing, actions }
}

fn editor_exit(job: &MuxJobRequest, settings: &MuxSettings, code: Option<i32>) -> (step: JobStep)
    ensures
        step@ == on_editor_exit(job@, settings@, code),
{
    match code {
        Some(c) => {
            if c == 0 {
                let mut actions = no_actions();
                push_action(&mut actions, JobAction::MeasureSource);
                assert(actions.deep_view() == seq![JobActionView::MeasureSource]);
                JobStep { phase: JobPhase::MeasuringEdited, actions }
            } else {
                let text = i64_to_string(c as i64);
                fault_step(
                    job,
                    settings,
                    "mkvpropedit failed",
                    concat2("mkvpropedit exited with code: ", text.as_str()),
                )
            }
        },
        None => fault_step(
            job,
            settings,
            "mkvpropedit error",
            String::from_str("Failed to wait for mkvpropedit"),
        ),
    }
}

fn multiplexer_probed(job: &MuxJobRequest, settings: &MuxSettings, output_path: &str, found: bool) -> (step:
    JobStep)
    ensures
        step@ == on_multiplexer_probed(job@, settings@, output_path@, found),
{
    if !found {
        return fault_step(
            job,
            settings,
            "mkvmerge not found",
            String::from_str("Install mkvmerge (MKVToolNix) and try again."),
        );
    }
    let args = build_mkvmerge_command(job, settings, output_path);
    let mut actions = no_actions();
    push_action(&mut actions, JobAction::Log(job_plan_line(job, output_path)));
    push_action(&mut actions, JobAction::Log(join_mkvmerge_command(args.as_slice())));
    push_action(&mut actions, JobAction::Run { tool: Tool::Multiplexer, args, capture: true });
    assert(actions.deep_view() == on_multiplexer_probed(
        job@,
        settings@,
        output_path@,
        found,
    ).actions);
    JobStep { phase: JobPhase::Muxing, actions }
}

fn finalize_step(settings: &MuxSettings, names: &OutputNames, final_exists: bool) -> (step: JobStep)
    ensures
        step@ == finalize(settings@, names@, final_exists),
{
    let mut actions = no_actions();
    if settings.add_crc && final_exists {
        push_action(&mut actions, JobAction::ComputeChecksum { name: names.final_name.clone() });
        assert(actions.deep_view() == finalize(settings@, names@, final_exists).actions);
        JobStep { phase: JobPhase::Stamping, actions }
    } else if settings.remove_old_crc && final_exists {
        let bare = file_name_without_crc(names.final_name.as_str());
        push_action(
            &mut actions,
            JobAction::Rename { from: names.final_name.clone(), to: bare.clone() },
        );
        push_action(&mut actions, JobAction::Measure { name: bare });
        assert(actions.deep_view() == finalize(settings@, names@, final_exists).actions);
        JobStep { phase: JobPhase::Measuring, actions }
    } else {
        push_action(&mut actions, JobAction::Measure { name: names.final_name.clone() });
        assert(actions.deep_view() == finalize(settings@, names@, final_exists).actions);
        JobStep { phase: JobPhase::Measuring, actions }
    }
}

fn multiplexer_exit(
    job: &MuxJobRequest,
    settings: &MuxSettings,
    names: &OutputNames,
    code: Option<i32>,
    output_exists: bool,
    final_exists: bool,
) -> (step: JobStep)
    ensures
        step@ == on_multiplexer_exit(job@, settings@, names@, code, output_exists, final_exists),
{
    let exit_code: i32 = match code {
        Some(c) => c,
        None => -1,
    };
    let success = exit_code == 0 || (exit_code == WARNINGS_EXIT_CODE && output_exists);
    let mut actions = no_actions();
    if !success {
        let text = i64_to_string(exit_code as i64);
        push_action(
            &mut actions,
            JobAction::Log(
                concat4("Job ", job.id.as_str(), " failed with exit code ", text.as_str()),
            ),
        );
        push_fault(
            &mut actions,
            job,
            settings,
            "Muxing failed",
            concat2("Process exited with code ", text.as_str()),
        );
        assert(actions.deep_view() == on_multiplexer_exit(
            job@,
            settings@,
            names@,
            code,
            output_exists,
            final_exists,
        ).actions);
        return JobStep { phase: JobPhase::Done, actions };
    }
    if exit_code != 0 {
        push_action(
            &mut actions,
            JobAction::Log(
                concat3("Job ", job.id.as_str(), " completed with warnings (exit code 1)"),
            ),
        );
    }
    let ghost head = actions.deep_view();
    let next = if names.overwrite_mode && output_exists {
        let mut replace = no_actions();
        push_action(&mut replace, JobAction::ReplaceSource);
        assert(replace.deep_view() == seq![JobActionView::ReplaceSource]);
        JobStep { phase: JobPhase::Replacing, actions: replace }
    } else {
        finalize_step(settings, names, final_exists)
    };
    assert(next@ == after_success(settings@, names@, output_exists, final_exists));
    let JobStep { phase, actions: more } = next;
    let mut more = more;
    let ghost tail = more.deep_view();
    actions.append(&mut more);
    assert(actions.deep_view() =~= head + tail);
    JobStep { phase, actions }
}

fn checksum_known(names: &OutputNames, stamp: &Option<String>) -> (step: JobStep)
    ensures
        step@ == on_checksum(names@, stamp.deep_view()),
{
    let mut actions = no_actions();
    match stamp {
        Some(crc) => {
            let stamped = file_name_with_crc(names.final_name.as_str(), crc.as_str());
            push_action(
                &mut actions,
                JobAction::Rename { from: names.final_name.clone(), to: stamped.clone() },
            );
            push_action(&mut actions, JobAction::Measure { name: stamped });
            assert(actions.deep_view() == on_checksum(names@, stamp.deep_view()).actions);
        },
        None => {
            push_action(&mut actions, JobAction::Measure { name: names.final_name.clone() });
            assert(actions.deep_view() == on_checksum(names@, stamp.deep_view()).actions);
        },
    }
    JobStep { phase: JobPhase::Measuring, actions }
}

fn measured(job: &MuxJobRequest, settings: &MuxSettings, names: &OutputNames, size: Option<u64>) -> (step:
    JobStep)
    ensures
        step@ == on_measured(job@, settings@, names@, size),
{
    let mut actions = no_actions();
    push_action(&mut actions, emit(job, JobStatus::Completed, 100, "Muxing completed", size, None));
    push_action(
        &mut actions,
        JobAction::Log(concat3("Job ", job.id.as_str(), " completed successfully")),
    );
    if settings.keep_log_file && !is_blank_str(settings.destination_dir.as_str()) {
        push_action(&mut actions, JobAction::CopyLog { directory: names.directory.clone() });
    }
    assert(actions.deep_view() == on_measured(job@, settings@, names@, size).actions);
    JobStep { phase: JobPhase::Done, actions }
}

/// The step that `event` causes while the job is in `phase`. `names` are
/// the names of the job's output and `output_path` is the path of the file
/// that the multiplexer writes.
pub fn job_step(
    job: &MuxJobRequest,
    settings: &MuxSettings,
    names: &OutputNames,
    output_path: &str,
    phase: JobPhase,
    event: &JobEvent,
) -> (step: JobStep)
    ensures
        step@ == job_transition(job@, settings@, names@, output_path@, phase, event@),
{
    match (phase, event) {
        (JobPhase::Waiting, JobEvent::Drawn { stop_requested }) => drawn(
            job,
            names,
            *stop_requested,
        ),
        (JobPhase::CheckingSpace, JobEvent::FreeSpace(bytes)) => space_known(
            job,
            settings,
            output_path,
            Ok(*bytes),
        ),
        (JobPhase::CheckingSpace, JobEvent::FreeSpaceUnknown(reason)) => space_known(
            job,
            settings,
            output_path,
            Err(reason.as_str()),
        ),
        (JobPhase::ProbingEditor, JobEvent::ToolProbed(found)) => editor_probed(
            job,
            settings,
            *found,
        ),
        (JobPhase::Editing, JobEvent::SpawnFailed(reason)) => fault_step(
            job,
            settings,
            "Failed to start mkvpropedit",
            concat2("Failed to start mkvpropedit: ", reason.as_str()),
        ),
        (JobPhase::Editing, JobEvent::Exited { code, .. }) => editor_exit(job, settings, *code),
        (JobPhase::MeasuringEdited, JobEvent::Measured(size)) => {
            let mut actions = no_actions();
            push_action(
                &mut actions,
                emit(job, JobStatus::Completed, 100, "Fast mux completed", *size, None),
            );
            assert(actions.deep_view() == seq![
                event_of(job@.id, JobStatus::Completed, 100, "Fast mux completed"@, *size, None),
            ]);
            JobStep { phase: JobPhase::Done, actions }
        },
        (JobPhase::ProbingMultiplexer, JobEvent::ToolProbed(found)) => multiplexer_probed(
            job,
            settings,
            output_path,
            *found,
        ),
        (JobPhase::Muxing, JobEvent::SpawnFailed(reason)) => fault_step(
            job,
            settings,
            "Failed to start process",
            concat2("Failed to start process: ", reason.as_str()),
        ),
        (
            JobPhase::Muxing,
            JobEvent::Exited { code, output_exists, final_exists },
        ) => multiplexer_exit(job, settings, names, *code, *output_exists, *final_exists),
        (JobPhase::Replacing, JobEvent::Replaced { final_exists }) => finalize_step(
            settings,
            names,
            *final_exists,
        ),
        (JobPhase::Stamping, JobEvent::Checksum(stamp)) => checksum_known(names, stamp),
        (JobPhase::Measuring, JobEvent::Measured(size)) => measured(job, settings, names, *size),
        _ => JobStep { phase, actions: no_actions() },
    }
}

} // verus!
