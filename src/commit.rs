use vstd::prelude::*;

verus! {

/// Why a commit stopped before the new content reached the destination.
#[derive(Debug, Clone, Copy, PartialEq, Eq, Structural)]
pub enum CommitError {
    /// The existing destination could not be copied to the backup path.
    Backup,
    /// The new document could not be written to the temporary path.
    TempWrite,
    /// The temporary file could not be renamed over the destination.
    Rename,
}

/// Where a commit stands. The destination is only ever touched by the rename.
#[derive(Debug, Clone, Copy, PartialEq, Eq, Structural)]
pub enum CommitState {
    /// Finding out whether the destination already exists.
    Probing,
    /// Copying the existing destination to the backup path.
    BackingUp,
    /// Writing the new document to the temporary path.
    WritingTemp { backup_made: bool },
    /// Renaming the temporary file over the destination.
    Renaming { backup_made: bool },
    /// Removing the backup after a successful rename.
    RemovingBackup,
    /// The destination holds the new document; `backup_left` when the backup
    /// could not be removed, which does not fail the commit.
    Committed { backup_left: bool },
    /// The commit failed; the destination is as it was.
    Aborted(CommitError),
}

/// What the caller performs next, reporting back whether it succeeded.
#[derive(Debug, Clone, Copy, PartialEq, Eq, Structural)]
pub enum CommitAction {
    /// Report whether a file exists at the destination.
    CheckDestination,
    CopyDestinationToBackup,
    WriteTemp,
    RenameTempOverDestination,
    RemoveBackup,
    /// Nothing more: the state is `Committed` or `Aborted`.
    Stop,
}

/// The commit protocol: backup, then temporary write, then atomic rename, then
/// best-effort removal of the backup. `ok` is the outcome of the action last
/// asked for (for `CheckDestination`: whether the destination exists).
pub open spec fn commit_next(s: CommitState, ok: bool) -> (CommitState, CommitAction) {
    match s {
        CommitState::Probing => if ok {
            (CommitState::BackingUp, CommitAction::CopyDestinationToBackup)
        } else {
            (CommitState::WritingTemp { backup_made: false }, CommitAction::WriteTemp)
        },
        CommitState::BackingUp => if ok {
            (CommitState::WritingTemp { backup_made: true }, CommitAction::WriteTemp)
        } else {
            (CommitState::Aborted(CommitError::Backup), CommitAction::Stop)
        },
        CommitState::WritingTemp { backup_made } => if ok {
            (CommitState::Renaming { backup_made }, CommitAction::RenameTempOverDestination)
        } else {
            (CommitState::Aborted(CommitError::TempWrite), CommitAction::Stop)
        },
        CommitState::Renaming { backup_made } => if !ok {
            (CommitState::Aborted(CommitError::Rename), CommitAction::Stop)
        } else if backup_made {
            (CommitState::RemovingBackup, CommitAction::RemoveBackup)
        } else {
            (CommitState::Committed { backup_left: false }, CommitAction::Stop)
        },
        CommitState::RemovingBackup => (
            CommitState::Committed { backup_left: !ok },
            CommitAction::Stop,
        ),
        CommitState::Committed { backup_left } => (s, CommitAction::Stop),
        CommitState::Aborted(e) => (s, CommitAction::Stop),
    }
}

/// The state and action a commit starts with.
pub fn commit_begin() -> (r: (CommitState, CommitAction))
    ensures
        r == (CommitState::Probing, CommitAction::CheckDestination),
{
    (CommitState::Probing, CommitAction::CheckDestination)
}

/// The next state and action, given the outcome of the action last asked for.
pub fn commit_step(s: CommitState, ok: bool) -> (r: (CommitState, CommitAction))
    ensures
        r == commit_next(s, ok),
{
    match s {
        CommitState::Probing => if ok {
            (CommitState::BackingUp, CommitAction::CopyDestinationToBackup)
        } else {
            (CommitState::WritingTemp { backup_made: false }, CommitAction::WriteTemp)
        },
        CommitState::BackingUp => if ok {
            (CommitState::WritingTemp { backup_made: true }, CommitAction::WriteTemp)
        } else {
            (CommitState::Aborted(CommitError::Backup), CommitAction::Stop)
        },
        CommitState::WritingTemp { backup_made } => if ok {
            (CommitState::Renaming { backup_made }, CommitAction::RenameTempOverDestination)
        } else {
            (CommitState::Aborted(CommitError::TempWrite), CommitAction::Stop)
        },
        CommitState::Renaming { backup_made } => if !ok {
            (CommitState::Aborted(CommitError::Rename), CommitAction::Stop)
        } else if backup_made {
            (CommitState::RemovingBackup, CommitAction::RemoveBackup)
        } else {
            (CommitState::Committed { backup_left: false }, CommitAction::Stop)
        },
        CommitState::RemovingBackup => (
            CommitState::Committed { backup_left: !ok },
            CommitAction::Stop,
        ),
        CommitState::Committed { .. } => (s, CommitAction::Stop),
        CommitState::Aborted(_) => (s, CommitAction::Stop),
    }
}

/// The three files a commit deals with, by content (`None`: no file).
pub struct Storage {
    pub destination: Option<Seq<u8>>,
    pub backup: Option<Seq<u8>>,
    pub temp: Option<Seq<u8>>,
}

/// What an action does to storage when it succeeds (`ok`) or fails. A failed
/// copy or write may leave `partial` content behind in the file it wrote; a
/// failed rename or removal changes nothing; a successful write stores
/// `document`.
pub open spec fn perform(
    st: Storage,
    a: CommitAction,
    ok: bool,
    document: Seq<u8>,
    partial: Seq<u8>,
) -> Storage {
    match a {
        CommitAction::CopyDestinationToBackup => Storage {
            backup: if ok {
                st.destination
            } else {
                Some(partial)
            },
            ..st
        },
        CommitAction::WriteTemp => Storage {
            temp: if ok {
                Some(document)
            } else {
                Some(partial)
            },
            ..st
        },
        CommitAction::RenameTempOverDestination => if ok {
            Storage { destination: st.temp, temp: None, ..st }
        } else {
            st
        },
        CommitAction::RemoveBackup => if ok {
            Storage { backup: None, ..st }
        } else {
            st
        },
        _ => st,
    }
}

/// Runs the protocol against storage: each action is performed with the next
/// outcome of `oks` (the existence check reads storage instead and only uses
/// up its entry), until `Stop` or until `oks` runs out.
pub open spec fn drive(
    st: Storage,
    s: CommitState,
    a: CommitAction,
    oks: Seq<bool>,
    document: Seq<u8>,
    partial: Seq<u8>,
) -> (Storage, CommitState)
    decreases oks.len(),
{
    if a == CommitAction::Stop || oks.len() == 0 {
        (st, s)
    } else {
        let ok = if a == CommitAction::CheckDestination {
            st.destination is Some
        } else {
            oks[0]
        };
        let (s2, a2) = commit_next(s, ok);
        drive(perform(st, a, ok, document, partial), s2, a2, oks.drop_first(), document, partial)
    }
}

/// A commit started from `commit_begin`, on storage with no backup and no
/// temporary file, ends within six steps whatever each step's outcome. If it
/// fails at any step (in particular when writing the temporary file), the
/// destination's content is exactly what it was; if it succeeds, the
/// destination holds the new document and no temporary file is left.
pub proof fn lemma_commit_atomic(st: Storage, oks: Seq<bool>, document: Seq<u8>, partial: Seq<u8>)
    requires
        st.backup is None,
        st.temp is None,
        oks.len() >= 6,
    ensures
        ({
            let (end, s) = drive(
                st,
                CommitState::Probing,
                CommitAction::CheckDestination,
                oks,
                document,
                partial,
            );
            &&& s is Committed || s is Aborted
            &&& s is Aborted ==> end.destination == st.destination
            &&& s is Committed ==> end.destination == Some(document) && end.temp is None
        }),
{
    reveal_with_fuel(drive, 7);
}

/// A commit that succeeds leaves no backup, unless removing it failed (then
/// the state says so); one that fails after the backup was made, at the
/// temporary write or at the rename, leaves the backup holding exactly the
/// destination's original content.
pub proof fn lemma_backup_lifecycle(st: Storage, oks: Seq<bool>, document: Seq<u8>, partial: Seq<u8>)
    requires
        st.backup is None,
        st.temp is None,
        oks.len() >= 6,
    ensures
        ({
            let (end, s) = drive(
                st,
                CommitState::Probing,
                CommitAction::CheckDestination,
                oks,
                document,
                partial,
            );
            &&& s matches CommitState::Committed { backup_left } ==> (end.backup is None
                <==> !backup_left)
            &&& s == CommitState::Committed { backup_left: false } ==> end.backup is None
            &&& st.destination is Some && (s == CommitState::Aborted(CommitError::TempWrite) || s
                == CommitState::Aborted(CommitError::Rename)) ==> end.backup == st.destination
        }),
{
    reveal_with_fuel(drive, 7);
}

} // verus!
