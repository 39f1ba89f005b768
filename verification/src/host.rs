//! A host that does as it is told, and what the store promises on it.
//!
//! The store never touches a disk: it depends on a host to carry out its
//! tasks. [`Host`] describes the host that the store is written for, one whose
//! file system keeps what it is given and that nobody else writes to. The laws
//! of this module say what the front-end sees when its commands are run
//! against such a host.
//!
//! A path is text here, its segments parted by `/` or `\`.

use vstd::prelude::*;
use crate::command::{placeholder, CommandView, ReplyView};
use crate::error::StoreErrorView;
use crate::task::{EventView, OutcomeView, StepView, TaskView};

verus! {

/// Whether `c` parts the segments of a path.
pub open spec fn is_separator(c: char) -> bool {
    c == '/' || c == '\\'
}

/// The directories above `dir`: every part of `dir` that ends just before a
/// separator, but for the empty one. Above `/a/b/c` these are `/a` and `/a/b`.
pub open spec fn parents(dir: Seq<char>) -> Set<Seq<char>> {
    Set::new(
        |parent: Seq<char>|
            0 < parent.len() < dir.len() && parent == dir.subrange(0, parent.len() as int)
                && is_separator(dir[parent.len() as int]),
    )
}

/// The state of a faithful host.
#[verifier::ext_equal]
pub struct Host {
    /// The data directory as the platform names it, or the cause for which it
    /// names none.
    pub platform: Result<Seq<char>, Seq<char>>,
    /// The directories that exist.
    pub directories: Set<Seq<char>>,
    /// What each file holds, by its directory and its name.
    pub files: Map<(Seq<char>, Seq<char>), Seq<char>>,
}

impl Host {
    /// Carries out `task`: the host afterwards, and the event that it reports.
    ///
    /// Creating a directory always succeeds, whether it was there or not, and
    /// creates every directory above it that was missing. A file can be
    /// written once its directory exists, and read once it was written. The
    /// cause of a failure is left empty.
    pub open spec fn respond(self, task: TaskView) -> (Host, EventView) {
        match task {
            TaskView::ResolveDirectory { .. } => (
                self,
                EventView::DirectoryResolved(self.platform),
            ),
            TaskView::CreateDirectory { dir, .. } => (
                Host { directories: self.directories.union(parents(dir)).insert(dir), ..self },
                EventView::DirectoryCreated(Ok(())),
            ),
            TaskView::WriteFile { dir, filename, content } => if self.directories.contains(dir) {
                (
                    Host { files: self.files.insert((dir, filename), content), ..self },
                    EventView::FileWritten(Ok(())),
                )
            } else {
                (self, EventView::FileWritten(Err(Seq::empty())))
            },
            TaskView::ReadFile { dir, filename } => if self.files.contains_key((dir, filename)) {
                (self, EventView::FileRead(Ok(self.files[(dir, filename)])))
            } else {
                (self, EventView::FileRead(Err(Seq::empty())))
            },
        }
    }

    /// Carries out `task` and all that the store asks for after it: the host
    /// at the end, and the command's result.
    pub open spec fn run(self, task: TaskView) -> (Host, OutcomeView)
        decreases task.remaining(),
    {
        let (host, event) = self.respond(task);
        match task.advance(event) {
            StepView::Continue { task: next } => host.run(next),
            StepView::Finish { result } => (host, result),
        }
    }

    /// Runs `command` from its first task to its result.
    pub open spec fn execute(self, command: CommandView) -> (Host, OutcomeView) {
        self.run(TaskView::begin(command))
    }

    /// The record `filename` as a load on this host gives it back.
    pub open spec fn load(self, filename: Seq<char>) -> OutcomeView {
        self.execute(CommandView::LoadData { filename }).1
    }

    /// This host after `data` was saved as the record `filename`.
    pub open spec fn save(self, filename: Seq<char>, data: Seq<char>) -> Host {
        self.execute(CommandView::SaveData { filename, data }).0
    }

    /// This host after each of `records`, a filename with its data, was saved
    /// in turn.
    pub open spec fn save_all(self, records: Seq<(Seq<char>, Seq<char>)>) -> Host
        decreases records.len(),
    {
        if records.len() == 0 {
            self
        } else {
            self.save_all(records.drop_last()).save(records.last().0, records.last().1)
        }
    }
}

/// What a command does on a faithful host, in full.
///
/// Without a directory nothing happens and the command fails. With one, the
/// directory and every directory above it exist afterwards, and no other
/// directory is new; a save puts `data` in the place of whatever the record
/// held and touches nothing else; a load gives the record's text, or the
/// placeholder where there is no such record.
pub proof fn lemma_execute(host: Host, command: CommandView)
    ensures
        host.platform matches Err(cause) ==> host.execute(command) == (
            host,
            OutcomeView::Err(StoreErrorView::DirectoryUnavailable { cause }),
        ),
        host.platform matches Ok(dir) ==> {
            let created = Host {
                directories: host.directories.union(parents(dir)).insert(dir),
                ..host
            };
            match command {
                CommandView::GetAppDataDir => host.execute(command) == (
                    created,
                    OutcomeView::Ok(ReplyView::Directory { path: dir }),
                ),
                CommandView::SaveData { filename, data } => host.execute(command) == (
                    Host { files: created.files.insert((dir, filename), data), ..created },
                    OutcomeView::Ok(ReplyView::Saved),
                ),
                CommandView::LoadData { filename } => host.execute(command) == (
                    created,
                    OutcomeView::Ok(
                        ReplyView::Content {
                            text: if host.files.contains_key((dir, filename)) {
                                host.files[(dir, filename)]
                            } else {
                                placeholder()
                            },
                        },
                    ),
                ),
            }
        },
{
    reveal_with_fuel(Host::run, 4);
}

/// Every command that gets as far as the data directory leaves the whole
/// path to it in place: the directory itself, and each directory above it,
/// whether one, several or all of them were missing before. What was there
/// stays, and nothing else is created.
pub proof fn lemma_directory_created_with_parents(host: Host, command: CommandView)
    requires
        host.platform is Ok,
    ensures
        ({
            let dir = host.platform->Ok_0;
            let after = host.execute(command).0;
            &&& after.directories.contains(dir)
            &&& forall|n: int|
                0 < n < dir.len() && is_separator(#[trigger] dir[n])
                    ==> after.directories.contains(dir.subrange(0, n))
            &&& forall|other: Seq<char>| #[trigger]
                host.directories.contains(other) ==> after.directories.contains(other)
            &&& forall|other: Seq<char>| #[trigger]
                after.directories.contains(other) ==> host.directories.contains(other)
                    || other == dir || parents(dir).contains(other)
        }),
{
    let dir = host.platform->Ok_0;
    let after = host.execute(command).0;
    lemma_execute(host, command);
    assert forall|n: int| 0 < n < dir.len() && is_separator(#[trigger] dir[n]) implies
        after.directories.contains(dir.subrange(0, n)) by {
        assert(parents(dir).contains(dir.subrange(0, n)));
    }
}

/// Round trip: what was saved under a name is what a load of that name gives
/// back, character for character. The empty text comes back as the empty
/// text, not as the placeholder.
pub proof fn lemma_save_then_load(host: Host, filename: Seq<char>, data: Seq<char>)
    requires
        host.platform is Ok,
    ensures
        host.execute(CommandView::SaveData { filename, data }).1 == OutcomeView::Ok(ReplyView::Saved),
        host.save(filename, data).load(filename) == OutcomeView::Ok(
            ReplyView::Content { text: data },
        ),
{
    lemma_execute(host, CommandView::SaveData { filename, data });
    lemma_execute(host.save(filename, data), CommandView::LoadData { filename });
}

/// A load of a name under which the data directory holds no record gives the
/// placeholder, and it succeeds.
pub proof fn lemma_load_of_absent_record(host: Host, filename: Seq<char>)
    requires
        host.platform matches Ok(dir) && !host.files.contains_key((dir, filename)),
    ensures
        host.load(filename) == OutcomeView::Ok(
            ReplyView::Content { text: placeholder() },
        ),
{
    lemma_execute(host, CommandView::LoadData { filename });
}

/// Last write wins: after two saves under one name a load gives the text of
/// the second, and nothing of the first is left.
pub proof fn lemma_last_save_wins(
    host: Host,
    filename: Seq<char>,
    first: Seq<char>,
    second: Seq<char>,
)
    requires
        host.platform is Ok,
    ensures
        host.save(filename, first).save(filename, second).load(filename) == OutcomeView::Ok(ReplyView::Content { text: second }),
        host.save(filename, first).save(filename, second) == host.save(filename, second),
{
    let once = host.save(filename, first);
    let twice = once.save(filename, second);
    lemma_execute(host, CommandView::SaveData { filename, data: first });
    lemma_execute(host, CommandView::SaveData { filename, data: second });
    lemma_execute(once, CommandView::SaveData { filename, data: second });
    lemma_execute(twice, CommandView::LoadData { filename });
    assert(twice =~= host.save(filename, second));
}

/// A save touches one record: a load of any other name gives the same after
/// the save as before it.
pub proof fn lemma_save_keeps_other_records(
    host: Host,
    filename: Seq<char>,
    data: Seq<char>,
    other: Seq<char>,
)
    requires
        host.platform is Ok,
        other != filename,
    ensures
        host.save(filename, data).load(other) == host.load(other),
        host.save(filename, data).platform == host.platform,
{
    lemma_execute(host, CommandView::SaveData { filename, data });
    lemma_execute(host, CommandView::LoadData { filename: other });
    lemma_execute(host.save(filename, data), CommandView::LoadData { filename: other });
}

/// However many records are saved, a name that none of the saves used reads
/// as it did before them: a record reads as its own last save left it,
/// whatever was saved under other names since.
pub proof fn lemma_saves_keep_other_records(
    host: Host,
    records: Seq<(Seq<char>, Seq<char>)>,
    filename: Seq<char>,
)
    requires
        host.platform is Ok,
        forall|i: int| 0 <= i < records.len() ==> (#[trigger] records[i]).0 != filename,
    ensures
        host.save_all(records).load(filename) == host.load(filename),
        host.save_all(records).platform == host.platform,
    decreases records.len(),
{
    if records.len() > 0 {
        let earlier = records.drop_last();
        let last = records.last();
        assert(last == records[records.len() - 1]);
        assert forall|i: int| 0 <= i < earlier.len() implies (#[trigger] earlier[i]).0
            != filename by {
            assert(earlier[i] == records[i]);
        }
        lemma_saves_keep_other_records(host, earlier, filename);
        lemma_save_keeps_other_records(host.save_all(earlier), last.0, last.1, filename);
    }
}

/// A name that was never saved reads as the placeholder: if the data
/// directory holds no record of that name, it still holds none after any
/// number of saves under other names, and a load says so.
pub proof fn lemma_never_saved_reads_as_placeholder(
    host: Host,
    records: Seq<(Seq<char>, Seq<char>)>,
    filename: Seq<char>,
)
    requires
        host.platform matches Ok(dir) && !host.files.contains_key((dir, filename)),
        forall|i: int| 0 <= i < records.len() ==> (#[trigger] records[i]).0 != filename,
    ensures
        host.save_all(records).load(filename) == OutcomeView::Ok(
            ReplyView::Content { text: placeholder() },
        ),
{
    lemma_saves_keep_other_records(host, records, filename);
    lemma_load_of_absent_record(host, filename);
}

/// Naming the data directory is idempotent. On a host whose platform names a
/// directory the command succeeds with that very path, the first time and
/// every time after; that the directory is already there is no failure, and
/// the second call changes nothing.
pub proof fn lemma_directory_is_stable(host: Host)
    ensures
        ({
            let (created, first) = host.execute(CommandView::GetAppDataDir);
            let (again, second) = created.execute(CommandView::GetAppDataDir);
            &&& second == first
            &&& again == created
            &&& host.platform matches Ok(dir) ==> created.directories.contains(dir) && first == OutcomeView::Ok(ReplyView::Directory { path: dir })
        }),
{
    let (created, first) = host.execute(CommandView::GetAppDataDir);
    let (again, second) = created.execute(CommandView::GetAppDataDir);
    lemma_execute(host, CommandView::GetAppDataDir);
    lemma_execute(created, CommandView::GetAppDataDir);
    assert(again =~= created);
}

} // verus!
