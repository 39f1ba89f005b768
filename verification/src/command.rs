//! What the front-end can ask of the store, and what it gets back.

use vstd::prelude::*;

verus! {

/// A request of the front-end.
#[derive(Debug, PartialEq, Eq)]
pub enum Command {
    /// Name the application data directory, creating it if it is missing.
    GetAppDataDir,
    /// Store `data` as the record `filename`, replacing what the record held.
    SaveData { filename: String, data: String },
    /// Give back what the record `filename` holds.
    LoadData { filename: String },
}

/// A [`Command`] as contracts see it.
pub enum CommandView {
    GetAppDataDir,
    SaveData { filename: Seq<char>, data: Seq<char> },
    LoadData { filename: Seq<char> },
}

impl View for Command {
    type V = CommandView;

    open spec fn view(&self) -> CommandView {
        match self {
            Command::GetAppDataDir => CommandView::GetAppDataDir,
            Command::SaveData { filename, data } => CommandView::SaveData {
                filename: filename@,
                data: data@,
            },
            Command::LoadData { filename } => CommandView::LoadData { filename: filename@ },
        }
    }
}

/// What a command that succeeded hands to the front-end.
#[derive(Debug, PartialEq, Eq)]
pub enum Reply {
    /// The data directory, which now exists.
    Directory { path: String },
    /// The record was written.
    Saved,
    /// What the record holds, or the placeholder where nothing could be read.
    Content { text: String },
}

/// A [`Reply`] as contracts see it.
pub enum ReplyView {
    Directory { path: Seq<char> },
    Saved,
    Content { text: Seq<char> },
}

impl View for Reply {
    type V = ReplyView;

    open spec fn view(&self) -> ReplyView {
        match self {
            Reply::Directory { path } => ReplyView::Directory { path: path@ },
            Reply::Saved => ReplyView::Saved,
            Reply::Content { text } => ReplyView::Content { text: text@ },
        }
    }
}

impl ReplyView {
    /// The text that the reply carries; a reply without text gives the empty
    /// text.
    pub open spec fn text(self) -> Seq<char> {
        match self {
            ReplyView::Directory { path } => path,
            ReplyView::Saved => Seq::empty(),
            ReplyView::Content { text } => text,
        }
    }
}

impl Reply {
    /// The text that the reply carries: the path of the directory, or what
    /// the record holds. A save is answered without text, which gives the
    /// empty text here.
    pub fn into_text(self) -> (text: String)
        ensures
            text@ == self@.text(),
    {
        match self {
            Reply::Directory { path } => path,
            Reply::Saved => String::new(),
            Reply::Content { text } => text,
        }
    }
}

impl CommandView {
    /// Whether `reply` is of the kind that this command is answered with.
    pub open spec fn answered_by(self, reply: ReplyView) -> bool {
        match self {
            CommandView::GetAppDataDir => reply is Directory,
            CommandView::SaveData { .. } => reply is Saved,
            CommandView::LoadData { .. } => reply is Content,
        }
    }
}

/// The text that stands for a record that could not be read: an empty object.
pub open spec fn placeholder() -> Seq<char> {
    "{}"@
}

/// The placeholder is the two characters of an empty object, so it is never
/// mistaken for a record that holds the empty text.
pub proof fn lemma_placeholder_is_empty_object()
    ensures
        placeholder() == seq!['{', '}'],
        placeholder().len() == 2,
        placeholder() != Seq::<char>::empty(),
{
    reveal_strlit("{}");
    assert(placeholder() =~= seq!['{', '}']);
}

} // verus!
