//! The conversation between the store and its host.
//!
//! A [`Task`] says what the host has to do next. The host does it and reports
//! the outcome as an [`Event`]; [`Task::advance`] then gives the next task or
//! the command's result. A command takes at most three such turns.

use vstd::prelude::*;
use vstd::string::*;
use crate::command::{placeholder, Command, CommandView, Reply, ReplyView};
use crate::error::{StoreError, StoreErrorView};

verus! {

/// What the host reports after it has done what a task asked for. A failure
/// carries its cause in the host's words.
#[derive(Debug, PartialEq, Eq)]
pub enum Event {
    /// The platform named the data directory, or could not.
    DirectoryResolved(Result<String, String>),
    /// The directory and its missing parents were created, or could not be.
    /// A directory that was already there counts as created.
    DirectoryCreated(Result<(), String>),
    /// The file was written in full, or the write failed.
    FileWritten(Result<(), String>),
    /// The file was read as text, or could not be.
    FileRead(Result<String, String>),
}

/// An [`Event`] as contracts see it.
pub enum EventView {
    DirectoryResolved(Result<Seq<char>, Seq<char>>),
    DirectoryCreated(Result<(), Seq<char>>),
    FileWritten(Result<(), Seq<char>>),
    FileRead(Result<Seq<char>, Seq<char>>),
}

impl View for Event {
    type V = EventView;

    open spec fn view(&self) -> EventView {
        match self {
            Event::DirectoryResolved(Ok(dir)) => EventView::DirectoryResolved(Ok(dir@)),
            Event::DirectoryResolved(Err(cause)) => EventView::DirectoryResolved(Err(cause@)),
            Event::DirectoryCreated(Ok(_)) => EventView::DirectoryCreated(Ok(())),
            Event::DirectoryCreated(Err(cause)) => EventView::DirectoryCreated(Err(cause@)),
            Event::FileWritten(Ok(_)) => EventView::FileWritten(Ok(())),
            Event::FileWritten(Err(cause)) => EventView::FileWritten(Err(cause@)),
            Event::FileRead(Ok(text)) => EventView::FileRead(Ok(text@)),
            Event::FileRead(Err(cause)) => EventView::FileRead(Err(cause@)),
        }
    }
}

/// What the host has to do next, together with what the store has to remember
/// until the host reports back.
#[derive(Debug, PartialEq, Eq)]
pub enum Task {
    /// Ask the platform for the application data directory.
    ResolveDirectory { command: Command },
    /// Create `dir` with all its missing parents.
    CreateDirectory { command: Command, dir: String },
    /// Write `content` to the file `filename` directly under `dir`, replacing
    /// the whole of what it held.
    WriteFile { dir: String, filename: String, content: String },
    /// Read the file `filename` directly under `dir` as text.
    ReadFile { dir: String, filename: String },
}

/// A [`Task`] as contracts see it.
pub enum TaskView {
    ResolveDirectory { command: CommandView },
    CreateDirectory { command: CommandView, dir: Seq<char> },
    WriteFile { dir: Seq<char>, filename: Seq<char>, content: Seq<char> },
    ReadFile { dir: Seq<char>, filename: Seq<char> },
}

impl View for Task {
    type V = TaskView;

    open spec fn view(&self) -> TaskView {
        match self {
            Task::ResolveDirectory { command } => TaskView::ResolveDirectory { command: command@ },
            Task::CreateDirectory { command, dir } => TaskView::CreateDirectory {
                command: command@,
                dir: dir@,
            },
            Task::WriteFile { dir, filename, content } => TaskView::WriteFile {
                dir: dir@,
                filename: filename@,
                content: content@,
            },
            Task::ReadFile { dir, filename } => TaskView::ReadFile {
                dir: dir@,
                filename: filename@,
            },
        }
    }
}

/// How a command ends: with its reply, or with the failure that stopped it.
pub type Outcome = Result<Reply, StoreError>;

/// An [`Outcome`] as contracts see it.
pub type OutcomeView = Result<ReplyView, StoreErrorView>;

/// Where a command stands after an event: more to do, or done.
#[derive(Debug, PartialEq, Eq)]
pub enum Step {
    /// The host has to carry out `task` and report back.
    Continue { task: Task },
    /// The command is over; `result` goes to the front-end.
    Finish { result: Outcome },
}

/// A [`Step`] as contracts see it.
pub enum StepView {
    Continue { task: TaskView },
    Finish { result: OutcomeView },
}

impl View for Step {
    type V = StepView;

    open spec fn view(&self) -> StepView {
        match self {
            Step::Continue { task } => StepView::Continue { task: task@ },
            Step::Finish { result: Ok(reply) } => StepView::Finish { result: Ok(reply@) },
            Step::Finish { result: Err(error) } => StepView::Finish { result: Err(error@) },
        }
    }
}

impl TaskView {
    /// The first task of every command: find out where the data directory is.
    pub open spec fn begin(command: CommandView) -> TaskView {
        TaskView::ResolveDirectory { command }
    }

    /// Whether `event` reports on what the task asked for.
    pub open spec fn answered_by(self, event: EventView) -> bool {
        match self {
            TaskView::ResolveDirectory { .. } => event is DirectoryResolved,
            TaskView::CreateDirectory { .. } => event is DirectoryCreated,
            TaskView::WriteFile { .. } => event is FileWritten,
            TaskView::ReadFile { .. } => event is FileRead,
        }
    }

    /// Whether the task is a turn of `command`.
    pub open spec fn serves(self, command: CommandView) -> bool {
        match self {
            TaskView::ResolveDirectory { command: own } => own == command,
            TaskView::CreateDirectory { command: own, .. } => own == command,
            TaskView::WriteFile { filename, content, .. } => command == (CommandView::SaveData {
                filename,
                data: content,
            }),
            TaskView::ReadFile { filename, .. } => command == (CommandView::LoadData { filename }),
        }
    }

    /// Whether the task writes or reads a file of the directory `dir`.
    pub open spec fn works_in(self, dir: Seq<char>) -> bool {
        match self {
            TaskView::WriteFile { dir: own, .. } => own == dir,
            TaskView::ReadFile { dir: own, .. } => own == dir,
            _ => false,
        }
    }

    /// How many events the command needs at most from here on.
    pub open spec fn remaining(self) -> nat {
        match self {
            TaskView::ResolveDirectory { .. } => 3,
            TaskView::CreateDirectory { .. } => 2,
            TaskView::WriteFile { .. } => 1,
            TaskView::ReadFile { .. } => 1,
        }
    }

    /// What follows once the directory `dir` is known to exist.
    pub open spec fn with_directory(command: CommandView, dir: Seq<char>) -> StepView {
        match command {
            CommandView::GetAppDataDir => StepView::Finish {
                result: Ok(ReplyView::Directory { path: dir }),
            },
            CommandView::SaveData { filename, data } => StepView::Continue {
                task: TaskView::WriteFile { dir, filename, content: data },
            },
            CommandView::LoadData { filename } => StepView::Continue {
                task: TaskView::ReadFile { dir, filename },
            },
        }
    }

    /// The store's decisions, one line for each turn of the conversation.
    ///
    /// - No command goes on without a directory: if the platform names none
    ///   the command fails as `DirectoryUnavailable`, and if the directory
    ///   cannot be created it fails as `DirectoryCreateFailed`.
    /// - A record is the file of that name directly under the directory; it
    ///   is written and read whole, with the text unchanged.
    /// - A write that fails is a `WriteFailed`. A read that fails, for
    ///   whatever reason, is answered with the placeholder.
    /// - An event that does not report on the task at hand changes nothing:
    ///   the same task is asked again.
    pub open spec fn advance(self, event: EventView) -> StepView {
        match (self, event) {
            (TaskView::ResolveDirectory { command }, EventView::DirectoryResolved(Ok(dir))) => {
                StepView::Continue { task: TaskView::CreateDirectory { command, dir } }
            },
            (TaskView::ResolveDirectory { .. }, EventView::DirectoryResolved(Err(cause))) => {
                StepView::Finish { result: Err(StoreErrorView::DirectoryUnavailable { cause }) }
            },
            (TaskView::CreateDirectory { command, dir }, EventView::DirectoryCreated(Ok(_))) => {
                TaskView::with_directory(command, dir)
            },
            (TaskView::CreateDirectory { .. }, EventView::DirectoryCreated(Err(cause))) => {
                StepView::Finish { result: Err(StoreErrorView::DirectoryCreateFailed { cause }) }
            },
            (TaskView::WriteFile { .. }, EventView::FileWritten(Ok(_))) => {
                StepView::Finish { result: Ok(ReplyView::Saved) }
            },
            (TaskView::WriteFile { .. }, EventView::FileWritten(Err(cause))) => {
                StepView::Finish { result: Err(StoreErrorView::WriteFailed { cause }) }
            },
            (TaskView::ReadFile { .. }, EventView::FileRead(Ok(text))) => {
                StepView::Finish { result: Ok(ReplyView::Content { text }) }
            },
            (TaskView::ReadFile { .. }, EventView::FileRead(Err(_))) => {
                StepView::Finish { result: Ok(ReplyView::Content { text: placeholder() }) }
            },
            _ => StepView::Continue { task: self },
        }
    }
}

impl Task {
    /// Starts `command`: its first task asks for the data directory.
    pub fn begin(command: Command) -> (task: Task)
        ensures
            task@ == TaskView::begin(command@),
    {
        Task::ResolveDirectory { command }
    }

    /// Decides what follows `event`: the next task for the host, or the
    /// command's result.
    pub fn advance(self, event: Event) -> (step: Step)
        ensures
            step@ == self@.advance(event@),
    {
        match self {
            Task::ResolveDirectory { command } => match event {
                Event::DirectoryResolved(Ok(dir)) => Step::Continue {
                    task: Task::CreateDirectory { command, dir },
                },
                Event::DirectoryResolved(Err(cause)) => Step::Finish {
                    result: Err(StoreError::DirectoryUnavailable { cause }),
                },
                _ => Step::Continue { task: Task::ResolveDirectory { command } },
            },
            Task::CreateDirectory { command, dir } => match event {
                Event::DirectoryCreated(Ok(_)) => match command {
                    Command::GetAppDataDir => Step::Finish {
                        result: Ok(Reply::Directory { path: dir }),
                    },
                    Command::SaveData { filename, data } => Step::Continue {
                        task: Task::WriteFile { dir, filename, content: data },
                    },
                    Command::LoadData { filename } => Step::Continue {
                        task: Task::ReadFile { dir, filename },
                    },
                },
                Event::DirectoryCreated(Err(cause)) => Step::Finish {
                    result: Err(StoreError::DirectoryCreateFailed { cause }),
                },
                _ => Step::Continue { task: Task::CreateDirectory { command, dir } },
            },
            Task::WriteFile { dir, filename, content } => match event {
                Event::FileWritten(Ok(_)) => Step::Finish { result: Ok(Reply::Saved) },
                Event::FileWritten(Err(cause)) => Step::Finish {
                    result: Err(StoreError::WriteFailed { cause }),
                },
                _ => Step::Continue { task: Task::WriteFile { dir, filename, content } },
            },
            Task::ReadFile { dir, filename } => match event {
                Event::FileRead(Ok(text)) => Step::Finish { result: Ok(Reply::Content { text }) },
                Event::FileRead(Err(_)) => Step::Finish {
                    result: Ok(Reply::Content { text: String::from_str("{}") }),
                },
                _ => Step::Continue { task: Task::ReadFile { dir, filename } },
            },
        }
    }
}

/// Every event that reports on the task at hand brings the command nearer to
/// its end, so no command takes more than three turns.
pub proof fn lemma_commands_end(task: TaskView, event: EventView)
    requires
        task.answered_by(event),
    ensures
        task.remaining() <= 3,
        task.advance(event) matches StepView::Continue { task: next } ==> next.remaining()
            < task.remaining(),
{
}

/// If the platform names no data directory, the command is over at once and
/// fails as `DirectoryUnavailable` with the platform's cause, whichever
/// command it is: nothing is created, written or read.
pub proof fn lemma_no_directory_no_command(command: CommandView, cause: Seq<char>)
    ensures
        TaskView::begin(command).advance(EventView::DirectoryResolved(Err(cause))) == (
        StepView::Finish { result: Err(StoreErrorView::DirectoryUnavailable { cause }) }),
        (StoreErrorView::DirectoryUnavailable { cause }).is_directory_error(),
{
}

/// A command stays the same command through all its turns, whatever the host
/// reports. When it succeeds, the reply is of the command's own kind. When it
/// fails, the failure concerns the directory, unless the command is a save:
/// a load never fails over the file, and only a save can end as `WriteFailed`.
pub proof fn lemma_task_keeps_command(task: TaskView, command: CommandView, event: EventView)
    requires
        task.serves(command),
    ensures
        TaskView::begin(command).serves(command),
        match task.advance(event) {
            StepView::Continue { task: next } => next.serves(command),
            StepView::Finish { result: Ok(reply) } => command.answered_by(reply),
            StepView::Finish { result: Err(error) } => command is SaveData
                || error.is_directory_error(),
        },
{
}

/// No file is written or read in a directory before the host has reported
/// that this very directory was created: a task on a file only ever follows
/// the successful creation of its directory (or itself, after an event that
/// was not meant for it).
pub proof fn lemma_directory_comes_first(task: TaskView, event: EventView)
    ensures
        task.advance(event) matches StepView::Continue { task: next } ==> {
            ||| next is ResolveDirectory
            ||| next is CreateDirectory
            ||| next == task
            ||| task matches TaskView::CreateDirectory { dir, .. } && next.works_in(dir)
                && event matches EventView::DirectoryCreated(Ok(_))
        },
{
}

/// Starts the command that names the application data directory.
pub fn get_app_data_dir() -> (task: Task)
    ensures
        task@ == TaskView::begin(CommandView::GetAppDataDir),
{
    Task::begin(Command::GetAppDataDir)
}

/// Starts the command that stores `data` as the record `filename`.
pub fn save_data(filename: String, data: String) -> (task: Task)
    ensures
        task@ == TaskView::begin(CommandView::SaveData { filename: filename@, data: data@ }),
{
    Task::begin(Command::SaveData { filename, data })
}

/// Starts the command that gives back what the record `filename` holds.
pub fn load_data(filename: String) -> (task: Task)
    ensures
        task@ == TaskView::begin(CommandView::LoadData { filename: filename@ }),
{
    Task::begin(Command::LoadData { filename })
}

} // verus!
