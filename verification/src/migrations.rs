//! Applying the SQL migration files of a directory to a database.
//!
//! A run lists the directory, and for every entry whose file extension is
//! `sql` reads the file and executes it as one batch, in listing order. The
//! first failure ends the run with its error. The listing, reading and
//! executing are done by the caller; [`Migration::step`] decides, from what
//! the last of those produced, what to do next.

use crate::text::chars_of;
use vstd::prelude::*;

verus! {

/// The kind of an I/O failure, as far as a run of migrations tells kinds apart.
#[derive(Clone, Copy, Debug, PartialEq, Eq, Structural)]
pub enum IoErrorKind {
    /// The directory or file does not exist.
    NotFound,
    /// Access to the directory or file was refused.
    PermissionDenied,
    /// A file's contents are not valid UTF-8.
    InvalidData,
    /// Any other kind.
    Other,
}

/// An I/O failure: its kind and its message.
#[derive(Debug)]
pub struct IoFailure {
    pub kind: IoErrorKind,
    pub message: String,
}

/// Why a run of migrations failed.
#[derive(Debug)]
pub enum MigrationError {
    /// The database refused a migration batch; its message.
    RusqliteError(String),
    /// The directory or one of its files could not be read.
    IoError(IoFailure),
}

/// The index of the last `'.'` of a name, or -1 where it holds none.
pub open spec fn last_dot(name: Seq<char>) -> int
    decreases name.len(),
{
    if name.len() == 0 {
        -1
    } else if name.last() == '.' {
        name.len() - 1
    } else {
        last_dot(name.drop_last())
    }
}

/// The extension of a file name: what follows its last `'.'`, provided that
/// dot is not the name's first character. The name `..` has none.
pub open spec fn file_extension(name: Seq<char>) -> Option<Seq<char>> {
    let d = last_dot(name);
    if name == seq!['.', '.'] || d <= 0 {
        None
    } else {
        Some(name.subrange(d + 1, name.len() as int))
    }
}

/// A file of the migration directory is applied when its extension is `sql`.
pub open spec fn is_sql_file(name: Seq<char>) -> bool {
    file_extension(name) == Some(seq!['s', 'q', 'l'])
}

/// `last_dot` is the position of a dot after which no dot follows.
pub proof fn lemma_last_dot(name: Seq<char>)
    ensures
        -1 <= last_dot(name) < name.len(),
        last_dot(name) >= 0 ==> name[last_dot(name)] == '.',
        forall|k: int| last_dot(name) < k < name.len() ==> name[k] != '.',
    decreases name.len(),
{
    if name.len() > 0 && name.last() != '.' {
        let rest = name.drop_last();
        lemma_last_dot(rest);
        assert forall|k: int| last_dot(name) < k < name.len() implies name[k] != '.' by {
            if k < rest.len() {
                assert(name[k] == rest[k]);
            }
        }
    }
}

/// Whether the directory entry with this file name is a migration to apply.
pub fn is_sql_migration(file_name: &str) -> (res: bool)
    ensures
        res == is_sql_file(file_name@),
{
    let cs = chars_of(file_name);
    let n: usize = cs.len();
    proof {
        lemma_last_dot(cs@);
    }
    if n == 2 && cs[0] == '.' && cs[1] == '.' {
        assert(cs@ =~= seq!['.', '.']);
        return false;
    }
    let mut j: usize = n;
    while j > 0
        invariant
            j <= n == cs@.len(),
            forall|k: int| j <= k < n ==> cs@[k] != '.',
        ensures
            j <= n,
            forall|k: int| j <= k < n ==> cs@[k] != '.',
            j > 0 ==> cs@[j - 1] == '.',
        decreases j,
    {
        if cs[j - 1] == '.' {
            break;
        }
        j -= 1;
    }
    if j <= 1 {
        // No dot, or the only dot opens the name.
        assert(last_dot(cs@) <= 0);
        return false;
    }
    let d: usize = j - 1;
    assert(last_dot(cs@) == d);
    assert(cs@ != seq!['.', '.']) by {
        if cs@ == seq!['.', '.'] {
            assert(cs@.len() == 2 && cs@[0] == '.' && cs@[1] == '.');
        }
    }
    let ghost ext = cs@.subrange(d + 1, n as int);
    if n - d == 4 && cs[d + 1] == 's' && cs[d + 2] == 'q' && cs[d + 3] == 'l' {
        assert(ext =~= seq!['s', 'q', 'l']);
        true
    } else {
        assert(ext != seq!['s', 'q', 'l']) by {
            if ext == seq!['s', 'q', 'l'] {
                assert(ext.len() == 3 && ext[0] == 's' && ext[1] == 'q' && ext[2] == 'l');
            }
        }
        false
    }
}

/// A file is applied exactly when its name is longer than `.sql` and ends
/// with `.sql`.
pub proof fn law_sql_files_end_in_sql(name: Seq<char>)
    ensures
        is_sql_file(name) <==> (name.len() > 4 && name.subrange(name.len() - 4, name.len() as int)
            == seq!['.', 's', 'q', 'l']),
{
    lemma_last_dot(name);
    let n = name.len() as int;
    let d = last_dot(name);
    let sql = seq!['s', 'q', 'l'];
    let suffix = seq!['.', 's', 'q', 'l'];
    if is_sql_file(name) {
        let ext = name.subrange(d + 1, n);
        assert(ext == sql);
        assert(ext.len() == 3);
        assert(name[n - 3] == ext[0] && name[n - 2] == ext[1] && name[n - 1] == ext[2]);
        assert(name.subrange(n - 4, n) =~= suffix);
    }
    if n > 4 && name.subrange(n - 4, n) == suffix {
        let s4 = name.subrange(n - 4, n);
        assert(name[n - 4] == s4[0] && name[n - 3] == s4[1] && name[n - 2] == s4[2] && name[n - 1]
            == s4[3]);
        assert(d == n - 4);
        assert(name != seq!['.', '.']) by {
            if name == seq!['.', '.'] {
                assert(name.len() == 2);
            }
        }
        assert(name.subrange(d + 1, n) =~= sql);
    }
}

/// Where a run of migrations stands.
#[derive(Clone, Copy, Debug, PartialEq, Eq, Structural)]
pub enum MigrationPhase {
    /// Waiting for the directory listing to open.
    OpeningDirectory,
    /// Waiting for the next entry of the listing.
    Listing,
    /// Waiting for the contents of the current `.sql` entry.
    Reading,
    /// Waiting for the database to execute the current batch.
    Executing,
    /// The run is over; it accepts nothing more.
    Finished,
}

/// What the caller's last piece of work produced.
#[derive(Debug)]
pub enum MigrationEvent {
    /// The directory listing is open.
    DirectoryOpened,
    /// The directory listing could not be opened.
    DirectoryFailed(IoFailure),
    /// The listing yielded an entry with this file name.
    Entry(String),
    /// The listing failed while yielding an entry.
    EntryFailed(IoFailure),
    /// The listing has no entry left.
    NoMoreEntries,
    /// The current entry's file holds this SQL.
    FileRead(String),
    /// The current entry's file could not be read.
    FileReadFailed(IoFailure),
    /// The database executed the batch.
    BatchExecuted,
    /// The database refused the batch.
    BatchFailed(String),
}

/// What the caller is to do next.
#[derive(Debug)]
pub enum MigrationAction {
    /// Open the listing of the migration directory.
    OpenDirectory,
    /// Fetch the next entry of the listing.
    NextEntry,
    /// Read the file of the current entry.
    ReadEntry,
    /// Execute this SQL on the connection as one batch.
    ExecuteBatch(String),
    /// The run is over, with this result.
    Finish(Result<(), MigrationError>),
}

/// The error of a run whose directory does not exist.
pub open spec fn directory_missing_message() -> Seq<char> {
    "Migrations directory not found"@
}

/// The events that each phase accepts.
pub open spec fn phase_accepts(phase: MigrationPhase, event: MigrationEvent) -> bool {
    match event {
        MigrationEvent::DirectoryOpened | MigrationEvent::DirectoryFailed(_) => phase
            == MigrationPhase::OpeningDirectory,
        MigrationEvent::Entry(_) | MigrationEvent::EntryFailed(_)
        | MigrationEvent::NoMoreEntries => phase == MigrationPhase::Listing,
        MigrationEvent::FileRead(_) | MigrationEvent::FileReadFailed(_) => phase
            == MigrationPhase::Reading,
        MigrationEvent::BatchExecuted | MigrationEvent::BatchFailed(_) => phase
            == MigrationPhase::Executing,
    }
}

/// The phase a run moves to on an accepted event, and what it asks for next.
/// Every failure ends the run with that failure.
pub open spec fn transition(event: MigrationEvent) -> (MigrationPhase, MigrationAction) {
    match event {
        MigrationEvent::DirectoryOpened => (MigrationPhase::Listing, MigrationAction::NextEntry),
        MigrationEvent::DirectoryFailed(m) => (
            MigrationPhase::Finished,
            MigrationAction::Finish(Err(MigrationError::IoError(m))),
        ),
        MigrationEvent::Entry(name) => if is_sql_file(name@) {
            (MigrationPhase::Reading, MigrationAction::ReadEntry)
        } else {
            (MigrationPhase::Listing, MigrationAction::NextEntry)
        },
        MigrationEvent::EntryFailed(m) => (
            MigrationPhase::Finished,
            MigrationAction::Finish(Err(MigrationError::IoError(m))),
        ),
        MigrationEvent::NoMoreEntries => (MigrationPhase::Finished, MigrationAction::Finish(Ok(()))),
        MigrationEvent::FileRead(sql) => (
            MigrationPhase::Executing,
            MigrationAction::ExecuteBatch(sql),
        ),
        MigrationEvent::FileReadFailed(m) => (
            MigrationPhase::Finished,
            MigrationAction::Finish(Err(MigrationError::IoError(m))),
        ),
        MigrationEvent::BatchExecuted => (MigrationPhase::Listing, MigrationAction::NextEntry),
        MigrationEvent::BatchFailed(m) => (
            MigrationPhase::Finished,
            MigrationAction::Finish(Err(MigrationError::RusqliteError(m))),
        ),
    }
}

/// A run of the migrations of one directory.
#[derive(Debug)]
pub struct Migration {
    pub phase: MigrationPhase,
}

impl Migration {
    /// Starts a run. A directory that does not exist ends it at once with an
    /// I/O error; otherwise the listing is to be opened.
    pub fn begin(directory_exists: bool) -> (res: (Migration, MigrationAction))
        ensures
            directory_exists ==> res.0.phase == MigrationPhase::OpeningDirectory
                && res.1 is OpenDirectory,
            !directory_exists ==> res.0.phase == MigrationPhase::Finished && (res.1 matches
                MigrationAction::Finish(Err(MigrationError::IoError(f))) && f.kind
                == IoErrorKind::NotFound && f.message@ == directory_missing_message()),
    {
        if directory_exists {
            (Migration { phase: MigrationPhase::OpeningDirectory }, MigrationAction::OpenDirectory)
        } else {
            let message = "Migrations directory not found".to_owned();
            proof {
                reveal_strlit("Migrations directory not found");
            }
            let failure = IoFailure { kind: IoErrorKind::NotFound, message };
            (
                Migration { phase: MigrationPhase::Finished },
                MigrationAction::Finish(Err(MigrationError::IoError(failure))),
            )
        }
    }

    /// Whether the run, where it stands, accepts this event.
    pub fn accepts(&self, event: &MigrationEvent) -> (res: bool)
        ensures
            res == phase_accepts(self.phase, *event),
    {
        match event {
            MigrationEvent::DirectoryOpened | MigrationEvent::DirectoryFailed(_) => self.phase
                == MigrationPhase::OpeningDirectory,
            MigrationEvent::Entry(_) | MigrationEvent::EntryFailed(_)
            | MigrationEvent::NoMoreEntries => self.phase == MigrationPhase::Listing,
            MigrationEvent::FileRead(_) | MigrationEvent::FileReadFailed(_) => self.phase
                == MigrationPhase::Reading,
            MigrationEvent::BatchExecuted | MigrationEvent::BatchFailed(_) => self.phase
                == MigrationPhase::Executing,
        }
    }

    /// Moves the run on by one event and says what to do next.
    pub fn step(&mut self, event: MigrationEvent) -> (action: MigrationAction)
        requires
            phase_accepts(old(self).phase, event),
        ensures
            (final(self).phase, action) == transition(event),
            event matches MigrationEvent::Entry(name) && name@.len() > 4 && name@.subrange(
                name@.len() - 4,
                name@.len() as int,
            ) == seq!['.', 's', 'q', 'l'] ==> final(self).phase == MigrationPhase::Reading
                && action is ReadEntry,
    {
        proof {
            if event is Entry {
                law_sql_entries_are_read(event->Entry_0);
            }
        }
        match event {
            MigrationEvent::DirectoryOpened => {
                self.phase = MigrationPhase::Listing;
                MigrationAction::NextEntry
            },
            MigrationEvent::DirectoryFailed(m) => {
                self.phase = MigrationPhase::Finished;
                MigrationAction::Finish(Err(MigrationError::IoError(m)))
            },
            MigrationEvent::Entry(name) => {
                if is_sql_migration(name.as_str()) {
                    self.phase = MigrationPhase::Reading;
                    MigrationAction::ReadEntry
                } else {
                    self.phase = MigrationPhase::Listing;
                    MigrationAction::NextEntry
                }
            },
            MigrationEvent::EntryFailed(m) => {
                self.phase = MigrationPhase::Finished;
                MigrationAction::Finish(Err(MigrationError::IoError(m)))
            },
            MigrationEvent::NoMoreEntries => {
                self.phase = MigrationPhase::Finished;
                MigrationAction::Finish(Ok(()))
            },
            MigrationEvent::FileRead(sql) => {
                self.phase = MigrationPhase::Executing;
                MigrationAction::ExecuteBatch(sql)
            },
            MigrationEvent::FileReadFailed(m) => {
                self.phase = MigrationPhase::Finished;
                MigrationAction::Finish(Err(MigrationError::IoError(m)))
            },
            MigrationEvent::BatchExecuted => {
                self.phase = MigrationPhase::Listing;
                MigrationAction::NextEntry
            },
            MigrationEvent::BatchFailed(m) => {
                self.phase = MigrationPhase::Finished;
                MigrationAction::Finish(Err(MigrationError::RusqliteError(m)))
            },
        }
    }
}

/// A sequence of events that a run, once its directory listing is to be
/// opened, accepts one after the other.
pub open spec fn valid_run(events: Seq<MigrationEvent>) -> bool {
    &&& events.len() > 0 ==> phase_accepts(MigrationPhase::OpeningDirectory, events[0])
    &&& forall|k: int|
        1 <= k < events.len() ==> #[trigger] phase_accepts(transition(events[k - 1]).0, events[k])
}

/// In every run, a batch is executed only with the contents just read for an
/// entry whose extension is `sql`.
pub proof fn law_batches_come_from_sql_files(events: Seq<MigrationEvent>, k: int)
    requires
        valid_run(events),
        0 <= k < events.len(),
        transition(events[k]).1 is ExecuteBatch,
    ensures
        k >= 1,
        events[k] matches MigrationEvent::FileRead(sql) && transition(events[k]).1
            == MigrationAction::ExecuteBatch(sql),
        events[k - 1] matches MigrationEvent::Entry(name) && is_sql_file(name@),
{
    if k == 0 {
        assert(phase_accepts(MigrationPhase::OpeningDirectory, events[0]));
    } else {
        assert(phase_accepts(transition(events[k - 1]).0, events[k]));
    }
}

/// In every run, the run finishes only on its last event: a finished run
/// accepts nothing more.
pub proof fn law_finish_is_final(events: Seq<MigrationEvent>, k: int)
    requires
        valid_run(events),
        0 <= k < events.len(),
        transition(events[k]).1 is Finish,
    ensures
        k == events.len() - 1,
{
    if k + 1 < events.len() {
        let j = k + 1;
        assert(phase_accepts(transition(events[j - 1]).0, events[j]));
        assert(events[j - 1] == events[k]);
    }
}

/// Every entry whose name is longer than `.sql` and ends in `.sql` is read
/// (and so executed): the run moves to reading it.
pub proof fn law_sql_entries_are_read(name: String)
    ensures
        name@.len() > 4 && name@.subrange(name@.len() - 4, name@.len() as int) == seq![
            '.',
            's',
            'q',
            'l',
        ] ==> transition(MigrationEvent::Entry(name)) == (
            MigrationPhase::Reading,
            MigrationAction::ReadEntry,
        ),
        !(name@.len() > 4 && name@.subrange(name@.len() - 4, name@.len() as int) == seq![
            '.',
            's',
            'q',
            'l',
        ]) ==> transition(MigrationEvent::Entry(name)) == (
            MigrationPhase::Listing,
            MigrationAction::NextEntry,
        ),
{
    law_sql_files_end_in_sql(name@);
}

} // verus!
