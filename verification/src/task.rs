//! One acquisition task as a state machine.
//!
//! A task turns "this channel went live" into "the file exists". It owns no
//! file and runs no program: it says what is to be done next, the caller
//! does it and reports what came of it.
//!
//! A task keeps a record of the name of its output in its staging
//! directory. It first asks for that record. Where there is one, it asks
//! whether the output or the staged file is there under that name: where
//! the output is, it ends at once; where only the staged file is, it moves
//! it into place. Otherwise it has the executor name the output and asks
//! the same under that name; where neither file is there, it makes the
//! staging directory afresh, downloads, moves the file into place and
//! removes the staging directory.
use crate::executor::download_args;
use crate::executor::filename_args;
use crate::executor::twitch_url;
use crate::executor::twitch_url_spec;
use crate::executor::yt_url;
use crate::executor::yt_url_spec;
use crate::path::join;
use crate::path::join_spec;
use crate::path::with_extension;
use crate::path::with_extension_spec;
use crate::quote::debug_quoted;
use crate::quote::debug_spec;
use crate::text::chars_of;
use crate::text::concat_str;
use crate::text::opt_str_view;
use crate::text::opt_view;
use crate::text::trim;
use crate::text::trim_spec;
use crate::text::views;
use crate::yt_dlp::YtDlp;
use vstd::prelude::*;
use vstd::string::*;

verus! {

/// Why a task failed.
#[derive(Debug)]
pub enum TaskError {
    /// The executor could not be run to name the output.
    NoFilename,
    /// The executor named the output in bytes that are no text.
    FilenameNotText,
    /// The executor named no output.
    EmptyFilename,
    /// The remux format holds a path separator and can be no extension.
    InvalidFormat,
    /// A file operation or the run of the executor failed.
    Io(String),
    /// A report came that the task had not asked for.
    Unexpected,
}

/// What a [`TaskError`] stands for.
pub enum TaskErrorView {
    NoFilename,
    FilenameNotText,
    EmptyFilename,
    InvalidFormat,
    Io(Seq<char>),
    Unexpected,
}

/// Where a task stands.
#[derive(Clone, Copy, Debug, PartialEq, Eq, Structural)]
pub enum Phase {
    /// Waiting for the record of the output's name.
    Recalling,
    /// Waiting to hear what is on disk under the recorded name.
    Inspecting,
    /// Waiting for the executor to name the output.
    Resolving,
    /// Waiting to hear what is on disk under the name that the executor
    /// gave.
    Checking,
    /// Waiting for the staging directory to be made afresh.
    Preparing,
    /// Waiting for the download.
    Downloading,
    /// Waiting for the staged file to be moved into place.
    Promoting,
    /// Waiting for the staging directory to be removed.
    Cleaning,
    /// Ended.
    Done,
}

/// What the executor answered when asked to name the output.
#[derive(Debug)]
pub enum NameProbe {
    /// It could not be run.
    Failed,
    /// It printed bytes that are no text.
    NotText,
    /// It printed this.
    Text(String),
}

/// What a [`NameProbe`] stands for.
pub enum NameProbeView {
    Failed,
    NotText,
    Text(Seq<char>),
}

/// What the caller reports to a task.
#[derive(Debug)]
pub enum TaskEvent {
    /// What the record of the output's name holds; `None` where there is no
    /// record or it cannot be read.
    Recalled(Option<String>),
    /// Whether the output file and the staged file are there.
    Looked { final_exists: bool, staging_exists: bool },
    /// The executor's answer when asked to name the output.
    NameProbed(NameProbe),
    /// The staging directory was made afresh, or that failed.
    Prepared(Result<(), String>),
    /// The executor ran, or could not be run. How it ended is not asked.
    Downloaded(Result<(), String>),
    /// The staged file was moved into place, or that failed.
    Promoted(Result<(), String>),
    /// The staging directory was removed, or that failed.
    Cleaned(Result<(), String>),
}

/// What a [`TaskEvent`] stands for.
pub enum TaskEventView {
    Recalled(Option<Seq<char>>),
    Looked { final_exists: bool, staging_exists: bool },
    NameProbed(NameProbeView),
    Prepared(Result<(), Seq<char>>),
    Downloaded(Result<(), Seq<char>>),
    Promoted(Result<(), Seq<char>>),
    Cleaned(Result<(), Seq<char>>),
}

/// What a task asks of the caller.
#[derive(Debug)]
pub enum TaskAction {
    /// Read the file `record` and report [`TaskEvent::Recalled`].
    Recall { record: String },
    /// Report with [`TaskEvent::Looked`] whether the files `final_path` and
    /// `staged_path` are there.
    Look { final_path: String, staged_path: String },
    /// Run the executor with `args`, report [`TaskEvent::NameProbed`].
    ResolveName { args: Vec<String> },
    /// Remove `dl_dir` if it is there, make it, write `name` into the file
    /// `record` and report [`TaskEvent::Prepared`].
    Prepare { dl_dir: String, record: String, name: String },
    /// Run the executor in `dl_dir` with `args`, its output appended to
    /// the two logs, report [`TaskEvent::Downloaded`].
    Download { args: Vec<String>, dl_dir: String, stdout_log: String, stderr_log: String },
    /// Move the file `from` to `to`, report [`TaskEvent::Promoted`].
    Promote { from: String, to: String },
    /// Remove `dl_dir` with all in it, report [`TaskEvent::Cleaned`].
    Cleanup { dl_dir: String },
    /// The task has ended with this result.
    Finish(Result<(), TaskError>),
}

/// What a [`TaskAction`] stands for.
pub enum TaskActionView {
    Recall { record: Seq<char> },
    Look { final_path: Seq<char>, staged_path: Seq<char> },
    ResolveName { args: Seq<Seq<char>> },
    Prepare { dl_dir: Seq<char>, record: Seq<char>, name: Seq<char> },
    Download {
        args: Seq<Seq<char>>,
        dl_dir: Seq<char>,
        stdout_log: Seq<char>,
        stderr_log: Seq<char>,
    },
    Promote { from: Seq<char>, to: Seq<char> },
    Cleanup { dl_dir: Seq<char> },
    Finish(Result<(), TaskErrorView>),
}

/// One acquisition task.
#[derive(Debug)]
pub struct Task {
    /// The options of the executor.
    pub yt_dlp: YtDlp,
    /// The address to acquire from.
    pub url: String,
    /// The staging directory.
    pub dl_dir: String,
    /// The directory in which the output is to stand.
    pub out_dir: String,
    /// Where the task stands.
    pub phase: Phase,
    /// The name of the output file, once it is known.
    pub name: Option<String>,
}

/// What a [`Task`] stands for.
pub struct TaskView {
    /// The command line of the executor's options.
    pub options: Seq<Seq<char>>,
    /// The remux format, if one is set.
    pub remux: Option<Seq<char>>,
    pub url: Seq<char>,
    pub dl_dir: Seq<char>,
    pub out_dir: Seq<char>,
    pub phase: Phase,
    pub name: Option<Seq<char>>,
}

impl View for TaskError {
    type V = TaskErrorView;

    open spec fn view(&self) -> TaskErrorView {
        match self {
            TaskError::NoFilename => TaskErrorView::NoFilename,
            TaskError::FilenameNotText => TaskErrorView::FilenameNotText,
            TaskError::EmptyFilename => TaskErrorView::EmptyFilename,
            TaskError::InvalidFormat => TaskErrorView::InvalidFormat,
            TaskError::Io(e) => TaskErrorView::Io(e@),
            TaskError::Unexpected => TaskErrorView::Unexpected,
        }
    }
}

/// What a result of a file operation stands for.
pub open spec fn io_view(r: Result<(), String>) -> Result<(), Seq<char>> {
    match r {
        Ok(_) => Ok(()),
        Err(e) => Err(e@),
    }
}

/// What the result of a task stands for.
pub open spec fn result_view(r: Result<(), TaskError>) -> Result<(), TaskErrorView> {
    match r {
        Ok(_) => Ok(()),
        Err(e) => Err(e@),
    }
}

impl View for NameProbe {
    type V = NameProbeView;

    open spec fn view(&self) -> NameProbeView {
        match self {
            NameProbe::Failed => NameProbeView::Failed,
            NameProbe::NotText => NameProbeView::NotText,
            NameProbe::Text(s) => NameProbeView::Text(s@),
        }
    }
}

impl View for TaskEvent {
    type V = TaskEventView;

    open spec fn view(&self) -> TaskEventView {
        match self {
            TaskEvent::Recalled(content) => TaskEventView::Recalled(opt_view(*content)),
            TaskEvent::Looked { final_exists, staging_exists } => TaskEventView::Looked {
                final_exists: *final_exists,
                staging_exists: *staging_exists,
            },
            TaskEvent::NameProbed(p) => TaskEventView::NameProbed(p@),
            TaskEvent::Prepared(r) => TaskEventView::Prepared(io_view(*r)),
            TaskEvent::Downloaded(r) => TaskEventView::Downloaded(io_view(*r)),
            TaskEvent::Promoted(r) => TaskEventView::Promoted(io_view(*r)),
            TaskEvent::Cleaned(r) => TaskEventView::Cleaned(io_view(*r)),
        }
    }
}

impl View for TaskAction {
    type V = TaskActionView;

    open spec fn view(&self) -> TaskActionView {
        match self {
            TaskAction::Recall { record } => TaskActionView::Recall { record: record@ },
            TaskAction::Look { final_path, staged_path } => TaskActionView::Look {
                final_path: final_path@,
                staged_path: staged_path@,
            },
            TaskAction::ResolveName { args } => TaskActionView::ResolveName { args: views(args@) },
            TaskAction::Prepare { dl_dir, record, name } => TaskActionView::Prepare {
                dl_dir: dl_dir@,
                record: record@,
                name: name@,
            },
            TaskAction::Download { args, dl_dir, stdout_log, stderr_log } => TaskActionView::Download {
                args: views(args@),
                dl_dir: dl_dir@,
                stdout_log: stdout_log@,
                stderr_log: stderr_log@,
            },
            TaskAction::Promote { from, to } => TaskActionView::Promote { from: from@, to: to@ },
            TaskAction::Cleanup { dl_dir } => TaskActionView::Cleanup { dl_dir: dl_dir@ },
            TaskAction::Finish(r) => TaskActionView::Finish(result_view(*r)),
        }
    }
}

impl View for Task {
    type V = TaskView;

    open spec fn view(&self) -> TaskView {
        TaskView {
            options: self.yt_dlp.args_spec(),
            remux: opt_view(self.yt_dlp.remux_video),
            url: self.url@,
            dl_dir: self.dl_dir@,
            out_dir: self.out_dir@,
            phase: self.phase,
            name: opt_view(self.name),
        }
    }
}

/// The name of the output file, given what the executor printed when asked
/// for it and the remux format: the printed text without the whitespace
/// round it, with the format as its extension where one is set. Empty text
/// is an error, and so is a format that can be no extension.
pub open spec fn resolve_output_name_spec(stdout: Seq<char>, remux: Option<Seq<char>>) -> Result<
    Seq<char>,
    TaskErrorView,
> {
    let name = trim_spec(stdout);
    if name.len() == 0 {
        Err(TaskErrorView::EmptyFilename)
    } else {
        match remux {
            None => Ok(name),
            Some(format) => if format.contains('/') {
                Err(TaskErrorView::InvalidFormat)
            } else {
                Ok(with_extension_spec(name, format))
            },
        }
    }
}

/// The name that a record holds: its text without the whitespace round it,
/// where that is not empty.
pub open spec fn recorded_name_spec(content: Option<Seq<char>>) -> Option<Seq<char>> {
    match content {
        Some(text) => if trim_spec(text).len() > 0 {
            Some(trim_spec(text))
        } else {
            None
        },
        None => None,
    }
}

/// The file in the staging directory `dl_dir` that records the name of the
/// output.
pub open spec fn record_spec(dl_dir: Seq<char>) -> Seq<char> {
    join_spec(dl_dir, "output-name"@)
}

/// Why a move failed, given the error and the two paths in quotes.
pub open spec fn move_failure_spec(error: Seq<char>, quoted_from: Seq<char>, quoted_to: Seq<char>)
    -> Seq<char> {
    error + ": "@ + quoted_from + " -> "@ + quoted_to
}

/// Whether an action has the executor run.
pub open spec fn runs_executor(action: TaskActionView) -> bool {
    action is ResolveName || action is Download
}

/// How far a phase is from the end, counted in reports.
pub open spec fn reports_left(phase: Phase) -> nat {
    match phase {
        Phase::Recalling => 8,
        Phase::Inspecting => 7,
        Phase::Resolving => 6,
        Phase::Checking => 5,
        Phase::Preparing => 4,
        Phase::Downloading => 3,
        Phase::Promoting => 2,
        Phase::Cleaning => 1,
        Phase::Done => 0,
    }
}

impl TaskView {
    /// The task ends with `result`.
    pub open spec fn finish(self, result: Result<(), TaskErrorView>) -> (TaskView, TaskActionView) {
        (TaskView { phase: Phase::Done, ..self }, TaskActionView::Finish(result))
    }

    /// The task ends because a file operation failed with `e`.
    pub open spec fn fail_io(self, e: Seq<char>) -> (TaskView, TaskActionView) {
        self.finish(Err(TaskErrorView::Io(e)))
    }

    /// Where the staged file `name` is.
    pub open spec fn staged_path(self, name: Seq<char>) -> Seq<char> {
        join_spec(self.dl_dir, name)
    }

    /// Where the output file `name` is to stand.
    pub open spec fn final_path(self, name: Seq<char>) -> Seq<char> {
        join_spec(self.out_dir, name)
    }

    /// The task asks what is on disk under `name`, in `phase`.
    pub open spec fn look(self, phase: Phase, name: Seq<char>) -> (TaskView, TaskActionView) {
        (
            TaskView { phase, name: Some(name), ..self },
            TaskActionView::Look {
                final_path: self.final_path(name),
                staged_path: self.staged_path(name),
            },
        )
    }

    /// The task has the executor name the output.
    pub open spec fn resolve(self) -> (TaskView, TaskActionView) {
        (
            TaskView { phase: Phase::Resolving, name: None, ..self },
            TaskActionView::ResolveName {
                args: self.options + seq![self.url, "--print"@, "_filename"@],
            },
        )
    }

    /// The staged file `name` is to be moved into place.
    pub open spec fn promote(self, name: Seq<char>) -> (TaskView, TaskActionView) {
        (
            TaskView { phase: Phase::Promoting, name: Some(name), ..self },
            TaskActionView::Promote { from: self.staged_path(name), to: self.final_path(name) },
        )
    }

    /// The staging directory is to be made afresh for the output `name`.
    pub open spec fn prepare(self, name: Seq<char>) -> (TaskView, TaskActionView) {
        (
            TaskView { phase: Phase::Preparing, name: Some(name), ..self },
            TaskActionView::Prepare {
                dl_dir: self.dl_dir,
                record: record_spec(self.dl_dir),
                name,
            },
        )
    }

    /// The output `name` is to be downloaded into the staging directory.
    pub open spec fn download(self, name: Seq<char>) -> (TaskView, TaskActionView) {
        (
            TaskView { phase: Phase::Downloading, ..self },
            TaskActionView::Download {
                args: self.options + seq![
                    self.url,
                    "--output"@,
                    self.staged_path(name),
                    "--write-info-json"@,
                ],
                dl_dir: self.dl_dir,
                stdout_log: join_spec(self.dl_dir, "yt-dlp-stdout.log"@),
                stderr_log: join_spec(self.dl_dir, "yt-dlp-stderr.log"@),
            },
        )
    }

    /// The move of the staged file `name` into place failed with `e`: the
    /// task ends with an error that names the reason and both paths.
    pub open spec fn fail_move(self, name: Seq<char>, e: Seq<char>) -> (TaskView, TaskActionView) {
        self.fail_io(
            move_failure_spec(
                e,
                debug_spec(self.staged_path(name)),
                debug_spec(self.final_path(name)),
            ),
        )
    }

    /// The task after `event`, and what it asks for next.
    pub open spec fn step(self, event: TaskEventView) -> (TaskView, TaskActionView) {
        match (self.phase, event, self.name) {
            (Phase::Recalling, TaskEventView::Recalled(content), _) => match recorded_name_spec(
                content,
            ) {
                Some(name) => self.look(Phase::Inspecting, name),
                None => self.resolve(),
            },
            (
                Phase::Inspecting,
                TaskEventView::Looked { final_exists, staging_exists },
                Some(name),
            ) => if final_exists {
                self.finish(Ok(()))
            } else if staging_exists {
                self.promote(name)
            } else {
                self.resolve()
            },
            (Phase::Resolving, TaskEventView::NameProbed(NameProbeView::Failed), _) => self.finish(
                Err(TaskErrorView::NoFilename),
            ),
            (Phase::Resolving, TaskEventView::NameProbed(NameProbeView::NotText), _) => self.finish(
                Err(TaskErrorView::FilenameNotText),
            ),
            (Phase::Resolving, TaskEventView::NameProbed(NameProbeView::Text(stdout)), _) => {
                match resolve_output_name_spec(stdout, self.remux) {
                    Ok(name) => self.look(Phase::Checking, name),
                    Err(e) => self.finish(Err(e)),
                }
            },
            (
                Phase::Checking,
                TaskEventView::Looked { final_exists, staging_exists },
                Some(name),
            ) => if final_exists {
                self.finish(Ok(()))
            } else if staging_exists {
                self.promote(name)
            } else {
                self.prepare(name)
            },
            (Phase::Preparing, TaskEventView::Prepared(Ok(_)), Some(name)) => self.download(name),
            (Phase::Preparing, TaskEventView::Prepared(Err(e)), _) => self.fail_io(e),
            (Phase::Downloading, TaskEventView::Downloaded(Ok(_)), Some(name)) => self.promote(
                name,
            ),
            (Phase::Downloading, TaskEventView::Downloaded(Err(e)), _) => self.fail_io(e),
            (Phase::Promoting, TaskEventView::Promoted(Ok(_)), _) => (
                TaskView { phase: Phase::Cleaning, ..self },
                TaskActionView::Cleanup { dl_dir: self.dl_dir },
            ),
            (Phase::Promoting, TaskEventView::Promoted(Err(e)), Some(name)) => self.fail_move(
                name,
                e,
            ),
            (Phase::Cleaning, TaskEventView::Cleaned(Ok(_)), _) => self.finish(Ok(())),
            (Phase::Cleaning, TaskEventView::Cleaned(Err(e)), _) => self.fail_io(e),
            _ => self.finish(Err(TaskErrorView::Unexpected)),
        }
    }

    /// The task after each of `events` in turn.
    pub open spec fn after(self, events: Seq<TaskEventView>) -> TaskView
        decreases events.len(),
    {
        if events.len() == 0 {
            self
        } else {
            self.after(events.drop_last()).step(events.last()).0
        }
    }

    /// What the task asked for in answer to each of `events` in turn.
    pub open spec fn asked(self, events: Seq<TaskEventView>) -> Seq<TaskActionView>
        decreases events.len(),
    {
        if events.len() == 0 {
            Seq::empty()
        } else {
            self.asked(events.drop_last()).push(
                self.after(events.drop_last()).step(events.last()).1,
            )
        }
    }
}

/// Whether `c` occurs in `s`.
fn has_char(s: &str, c: char) -> (r: bool)
    ensures
        r == s@.contains(c),
{
    let x = chars_of(s);
    let mut i: usize = 0;
    while i < x.len()
        invariant
            i <= x.len(),
            x@ == s@,
            forall|j: int| 0 <= j < i ==> x@[j] != c,
        decreases x.len() - i,
    {
        if x[i] == c {
            return true;
        }
        i += 1;
    }
    false
}

fn copy_name(name: &Option<String>) -> (r: Option<String>)
    ensures
        r == *name,
{
    match name {
        Some(n) => Some(n.clone()),
        None => None,
    }
}

/// The name of the output file, given what the executor printed when asked
/// for it and the remux format.
pub fn resolve_output_name(stdout: &str, remux: Option<&str>) -> (r: Result<String, TaskError>)
    ensures
        match r {
            Ok(name) => resolve_output_name_spec(stdout@, opt_str_view(remux)) == Ok::<
                Seq<char>,
                TaskErrorView,
            >(name@),
            Err(e) => resolve_output_name_spec(stdout@, opt_str_view(remux)) == Err::<
                Seq<char>,
                TaskErrorView,
            >(e@),
        },
{
    let name = trim(stdout);
    if name.unicode_len() == 0 {
        return Err(TaskError::EmptyFilename);
    }
    match remux {
        None => Ok(name.to_owned()),
        Some(format) => if has_char(format, '/') {
            Err(TaskError::InvalidFormat)
        } else {
            Ok(with_extension(name, format))
        },
    }
}

/// The name that a record holds, given its content (`None` where there is
/// no record).
pub fn recorded_name(content: Option<&str>) -> (r: Option<String>)
    ensures
        opt_view(r) == recorded_name_spec(opt_str_view(content)),
{
    match content {
        Some(text) => {
            let name = trim(text);
            if name.unicode_len() > 0 {
                Some(name.to_owned())
            } else {
                None
            }
        },
        None => None,
    }
}

/// Why a move failed, given the error and the two paths in quotes.
pub fn move_failure_from(error: &str, quoted_from: &str, quoted_to: &str) -> (r: String)
    ensures
        r@ == move_failure_spec(error@, quoted_from@, quoted_to@),
{
    let mut r = concat_str(error, ": ");
    r.append(quoted_from);
    r.append(" -> ");
    r.append(quoted_to);
    r
}

/// What is on disk decides how a task goes on: nothing to do, the staged
/// file to be moved into place, or the whole acquisition.
#[derive(Clone, Copy, Debug, PartialEq, Eq, Structural)]
pub enum Reconcile {
    /// The output is there already.
    AlreadyDone,
    /// The staged file is there and the output is not.
    Promote,
    /// Neither is there.
    Acquire,
}

/// How a task goes on, given whether the output file and the staged file
/// are there.
pub fn reconcile(final_exists: bool, staging_exists: bool) -> (r: Reconcile)
    ensures
        r == if final_exists {
            Reconcile::AlreadyDone
        } else if staging_exists {
            Reconcile::Promote
        } else {
            Reconcile::Acquire
        },
{
    if final_exists {
        Reconcile::AlreadyDone
    } else if staging_exists {
        Reconcile::Promote
    } else {
        Reconcile::Acquire
    }
}

impl TaskError {
    /// The complaint shown to the operator.
    pub fn message(&self) -> (r: String)
        ensures
            r@ == match self@ {
                TaskErrorView::NoFilename => "Couldn't get filename"@,
                TaskErrorView::FilenameNotText => "Filename is not valid text"@,
                TaskErrorView::EmptyFilename => "Filename is empty"@,
                TaskErrorView::InvalidFormat => "Remux format is not a file extension"@,
                TaskErrorView::Io(e) => e,
                TaskErrorView::Unexpected => "Unexpected report"@,
            },
    {
        match self {
            TaskError::NoFilename => "Couldn't get filename".to_owned(),
            TaskError::FilenameNotText => "Filename is not valid text".to_owned(),
            TaskError::EmptyFilename => "Filename is empty".to_owned(),
            TaskError::InvalidFormat => "Remux format is not a file extension".to_owned(),
            TaskError::Io(e) => e.clone(),
            TaskError::Unexpected => "Unexpected report".to_owned(),
        }
    }
}

impl Task {
    /// The first thing a task asks for: the record of the output's name.
    pub fn first_action(&self) -> (r: TaskAction)
        ensures
            r@ == (TaskActionView::Recall { record: record_spec(self@.dl_dir) }),
    {
        TaskAction::Recall { record: join(self.dl_dir.as_str(), "output-name") }
    }

    /// Whether the task has ended.
    pub fn is_done(&self) -> (r: bool)
        ensures
            r == (self@.phase == Phase::Done),
    {
        self.phase == Phase::Done
    }

    fn finish(&mut self, result: Result<(), TaskError>) -> (r: TaskAction)
        ensures
            (final(self)@, r@) == old(self)@.finish(result_view(result)),
    {
        self.phase = Phase::Done;
        TaskAction::Finish(result)
    }

    fn look(&mut self, phase: Phase, name: String) -> (r: TaskAction)
        ensures
            (final(self)@, r@) == old(self)@.look(phase, name@),
    {
        let final_path = join(self.out_dir.as_str(), name.as_str());
        let staged_path = join(self.dl_dir.as_str(), name.as_str());
        self.phase = phase;
        self.name = Some(name);
        TaskAction::Look { final_path, staged_path }
    }

    fn resolve(&mut self) -> (r: TaskAction)
        ensures
            (final(self)@, r@) == old(self)@.resolve(),
    {
        self.phase = Phase::Resolving;
        self.name = None;
        TaskAction::ResolveName { args: filename_args(&self.yt_dlp, self.url.as_str()) }
    }

    fn promote(&mut self, name: String) -> (r: TaskAction)
        ensures
            (final(self)@, r@) == old(self)@.promote(name@),
    {
        let from = join(self.dl_dir.as_str(), name.as_str());
        let to = join(self.out_dir.as_str(), name.as_str());
        self.phase = Phase::Promoting;
        self.name = Some(name);
        TaskAction::Promote { from, to }
    }

    fn prepare(&mut self, name: String) -> (r: TaskAction)
        ensures
            (final(self)@, r@) == old(self)@.prepare(name@),
    {
        let record = join(self.dl_dir.as_str(), "output-name");
        self.phase = Phase::Preparing;
        self.name = Some(name.clone());
        TaskAction::Prepare { dl_dir: self.dl_dir.clone(), record, name }
    }

    fn download(&mut self, name: String) -> (r: TaskAction)
        requires
            old(self)@.name == Some(name@),
        ensures
            (final(self)@, r@) == old(self)@.download(name@),
    {
        let output = join(self.dl_dir.as_str(), name.as_str());
        let args = download_args(&self.yt_dlp, self.url.as_str(), output.as_str());
        self.phase = Phase::Downloading;
        TaskAction::Download {
            args,
            dl_dir: self.dl_dir.clone(),
            stdout_log: join(self.dl_dir.as_str(), "yt-dlp-stdout.log"),
            stderr_log: join(self.dl_dir.as_str(), "yt-dlp-stderr.log"),
        }
    }

    fn fail_move(&mut self, name: String, e: String) -> (r: TaskAction)
        ensures
            (final(self)@, r@) == old(self)@.fail_move(name@, e@),
    {
        let from = join(self.dl_dir.as_str(), name.as_str());
        let to = join(self.out_dir.as_str(), name.as_str());
        let quoted_from = debug_quoted(from.as_str());
        let quoted_to = debug_quoted(to.as_str());
        let message = move_failure_from(e.as_str(), quoted_from.as_str(), quoted_to.as_str());
        self.finish(Err(TaskError::Io(message)))
    }

    /// What a look at the disk under `name` leads to. Where neither file is
    /// there, a task that looked under the executor's name (`checking`)
    /// makes the staging directory afresh, and one that looked under the
    /// recorded name has the executor name the output.
    fn looked(&mut self, name: String, final_exists: bool, staging_exists: bool, checking: bool) -> (r:
        TaskAction)
        ensures
            (final(self)@, r@) == if final_exists {
                old(self)@.finish(Ok(()))
            } else if staging_exists {
                old(self)@.promote(name@)
            } else if checking {
                old(self)@.prepare(name@)
            } else {
                old(self)@.resolve()
            },
    {
        match reconcile(final_exists, staging_exists) {
            Reconcile::AlreadyDone => self.finish(Ok(())),
            Reconcile::Promote => self.promote(name),
            Reconcile::Acquire => if checking {
                self.prepare(name)
            } else {
                self.resolve()
            },
        }
    }

    /// Takes the caller's report and says what is to be done next. A report
    /// that the task had not asked for ends it with an error.
    pub fn step(&mut self, event: TaskEvent) -> (r: TaskAction)
        ensures
            (final(self)@, r@) == old(self)@.step(event@),
    {
        let phase = self.phase;
        let name = copy_name(&self.name);
        match (phase, event, name) {
            (Phase::Recalling, TaskEvent::Recalled(content), _) => {
                let text = match &content {
                    Some(t) => Some(t.as_str()),
                    None => None,
                };
                match recorded_name(text) {
                    Some(name) => self.look(Phase::Inspecting, name),
                    None => self.resolve(),
                }
            },
            (Phase::Inspecting, TaskEvent::Looked { final_exists, staging_exists }, Some(name)) => {
                self.looked(name, final_exists, staging_exists, false)
            },
            (Phase::Resolving, TaskEvent::NameProbed(NameProbe::Failed), _) => self.finish(
                Err(TaskError::NoFilename),
            ),
            (Phase::Resolving, TaskEvent::NameProbed(NameProbe::NotText), _) => self.finish(
                Err(TaskError::FilenameNotText),
            ),
            (Phase::Resolving, TaskEvent::NameProbed(NameProbe::Text(stdout)), _) => {
                let remux = match &self.yt_dlp.remux_video {
                    Some(f) => Some(f.as_str()),
                    None => None,
                };
                match resolve_output_name(stdout.as_str(), remux) {
                    Ok(name) => self.look(Phase::Checking, name),
                    Err(e) => self.finish(Err(e)),
                }
            },
            (Phase::Checking, TaskEvent::Looked { final_exists, staging_exists }, Some(name)) => {
                self.looked(name, final_exists, staging_exists, true)
            },
            (Phase::Preparing, TaskEvent::Prepared(Ok(_)), Some(name)) => self.download(name),
            (Phase::Preparing, TaskEvent::Prepared(Err(e)), _) => self.finish(Err(TaskError::Io(e))),
            (Phase::Downloading, TaskEvent::Downloaded(Ok(_)), Some(name)) => self.promote(name),
            (Phase::Downloading, TaskEvent::Downloaded(Err(e)), _) => self.finish(
                Err(TaskError::Io(e)),
            ),
            (Phase::Promoting, TaskEvent::Promoted(Ok(_)), _) => {
                self.phase = Phase::Cleaning;
                TaskAction::Cleanup { dl_dir: self.dl_dir.clone() }
            },
            (Phase::Promoting, TaskEvent::Promoted(Err(e)), Some(name)) => self.fail_move(name, e),
            (Phase::Cleaning, TaskEvent::Cleaned(Ok(_)), _) => self.finish(Ok(())),
            (Phase::Cleaning, TaskEvent::Cleaned(Err(e)), _) => self.finish(Err(TaskError::Io(e))),
            _ => self.finish(Err(TaskError::Unexpected)),
        }
    }
}

/// A task that acquires from `url` into `out_dir`, staging in `dl_dir`.
pub fn dl(yt_dlp: &YtDlp, url: &str, dl_dir: String, out_dir: String) -> (r: Task)
    ensures
        r.yt_dlp == *yt_dlp,
        r.url@ == url@,
        r.dl_dir == dl_dir,
        r.out_dir == out_dir,
        r.phase == Phase::Recalling,
        r.name is None,
{
    Task {
        yt_dlp: yt_dlp.clone(),
        url: url.to_owned(),
        dl_dir,
        out_dir,
        phase: Phase::Recalling,
        name: None,
    }
}

/// A task that acquires the YouTube video `id`.
pub fn yt_dl(yt_dlp: &YtDlp, id: &str, dl_dir: String, out_dir: String) -> (r: Task)
    ensures
        r.yt_dlp == *yt_dlp,
        r.url@ == yt_url_spec(id@),
        r.dl_dir == dl_dir,
        r.out_dir == out_dir,
        r.phase == Phase::Recalling,
        r.name is None,
{
    let url = yt_url(id);
    dl(yt_dlp, url.as_str(), dl_dir, out_dir)
}

/// A task that acquires the stream of the Twitch channel `id`.
pub fn twitch_dl(yt_dlp: &YtDlp, id: &str, dl_dir: String, out_dir: String) -> (r: Task)
    ensures
        r.yt_dlp == *yt_dlp,
        r.url@ == twitch_url_spec(id@),
        r.dl_dir == dl_dir,
        r.out_dir == out_dir,
        r.phase == Phase::Recalling,
        r.name is None,
{
    let url = twitch_url(id);
    dl(yt_dlp, url.as_str(), dl_dir, out_dir)
}

/// What a task does after reports `a` and then reports `b` is what it does
/// after `a`, and then what the task as it stands after `a` does after `b`.
pub proof fn lemma_after_concat(task: TaskView, a: Seq<TaskEventView>, b: Seq<TaskEventView>)
    ensures
        task.after(a + b) == task.after(a).after(b),
        task.asked(a + b) == task.asked(a) + task.after(a).asked(b),
    decreases b.len(),
{
    if b.len() == 0 {
        assert(a + b =~= a);
        assert(task.asked(a) + task.after(a).asked(b) =~= task.asked(a));
    } else {
        assert((a + b).drop_last() =~= a + b.drop_last());
        assert((a + b).last() == b.last());
        lemma_after_concat(task, a, b.drop_last());
        assert(task.asked(a + b) =~= task.asked(a) + task.after(a).asked(b));
    }
}

/// A task that finds its output in place under the recorded name ends at
/// once and well, and has the executor run neither on the way there nor
/// whatever is reported to it later.
pub proof fn lemma_present_output_needs_no_executor(
    task: TaskView,
    record: Seq<char>,
    staging_exists: bool,
    later: Seq<TaskEventView>,
    i: int,
)
    requires
        task.phase == Phase::Recalling,
        recorded_name_spec(Some(record)) is Some,
        0 <= i < 2 + later.len(),
    ensures
        task.asked(
            seq![
                TaskEventView::Recalled(Some(record)),
                TaskEventView::Looked { final_exists: true, staging_exists },
            ] + later,
        ).len() == 2 + later.len(),
        task.asked(
            seq![
                TaskEventView::Recalled(Some(record)),
                TaskEventView::Looked { final_exists: true, staging_exists },
            ] + later,
        )[1] == TaskActionView::Finish(Ok(())),
        !runs_executor(
            task.asked(
                seq![
                    TaskEventView::Recalled(Some(record)),
                    TaskEventView::Looked { final_exists: true, staging_exists },
                ] + later,
            )[i],
        ),
{
    let first = TaskEventView::Recalled(Some(record));
    let second = TaskEventView::Looked { final_exists: true, staging_exists };
    let head = seq![first, second];
    let none = Seq::<TaskEventView>::empty();
    assert(head.drop_last() =~= seq![first]);
    assert(head.last() == second);
    assert(seq![first].drop_last() =~= none);
    assert(seq![first].last() == first);
    assert(task.after(none) == task);
    assert(task.asked(none) =~= Seq::<TaskActionView>::empty());
    assert(task.after(seq![first]) == task.step(first).0);
    assert(task.asked(seq![first]) =~= seq![task.step(first).1]);
    let inspecting = task.step(first).0;
    assert(inspecting.phase == Phase::Inspecting && inspecting.name is Some);
    assert(task.after(head) == inspecting.step(second).0);
    assert(task.asked(head) =~= seq![task.step(first).1, inspecting.step(second).1]);
    let done = task.after(head);
    assert(done.phase == Phase::Done);
    lemma_after_concat(task, head, later);
    lemma_done_after(done, later);
    if i >= 2 {
        lemma_done_stays_done(done, later, i - 2);
    }
}

/// A task that finds its output in place under the name that the executor
/// gave ends well without a download.
pub proof fn lemma_output_in_place_is_success(task: TaskView, staging_exists: bool)
    requires
        task.phase == Phase::Checking || task.phase == Phase::Inspecting,
        task.name is Some,
    ensures
        task.step(TaskEventView::Looked { final_exists: true, staging_exists }).1
            == TaskActionView::Finish(Ok(())),
        task.step(TaskEventView::Looked { final_exists: true, staging_exists }).0.phase
            == Phase::Done,
{
}

/// A task that has ended stays ended: every later report is answered with
/// an error and nothing else is asked for.
pub proof fn lemma_done_stays_done(task: TaskView, events: Seq<TaskEventView>, i: int)
    requires
        task.phase == Phase::Done,
        0 <= i < events.len(),
    ensures
        task.after(events).phase == Phase::Done,
        task.asked(events).len() == events.len(),
        task.asked(events)[i] == TaskActionView::Finish(Err(TaskErrorView::Unexpected)),
    decreases events.len(),
{
    let p = events.drop_last();
    lemma_done_after(task, p);
    if i < p.len() {
        lemma_done_stays_done(task, p, i);
    }
}

/// A task that has ended is still ended after any reports, and has
/// answered each of them.
pub proof fn lemma_done_after(task: TaskView, events: Seq<TaskEventView>)
    requires
        task.phase == Phase::Done,
    ensures
        task.after(events).phase == Phase::Done,
        task.asked(events).len() == events.len(),
    decreases events.len(),
{
    if events.len() > 0 {
        lemma_done_after(task, events.drop_last());
    }
}

/// Every report brings a task nearer to its end, so a task ends after
/// eight reports at most; and a failed move or cleanup never ends a task
/// well.
pub proof fn lemma_step_advances(task: TaskView, event: TaskEventView)
    requires
        task.phase != Phase::Done,
    ensures
        reports_left(task.step(event).0.phase) < reports_left(task.phase),
        task.step(event).0.phase == Phase::Done <==> task.step(event).1 is Finish,
        (event matches TaskEventView::Promoted(Err(_)) || event matches TaskEventView::Cleaned(
            Err(_),
        )) ==> task.step(event).1 matches TaskActionView::Finish(Err(_)),
{
}

} // verus!
