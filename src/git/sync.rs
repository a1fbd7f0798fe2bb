//! Decisions of the synchronisation of a local mirror with its remote.
//!
//! The repository work itself (open, fetch, merge analysis, reference and
//! working-tree updates) is done by the caller; `Action::step` says, from the
//! phase reached and what the last piece of work reported, what to do next.

use crate::git::config::{clone_string, Action};
use vstd::prelude::*;

verus! {

/// Why a synchronisation failed.
#[derive(Debug, PartialEq, Eq, Structural)]
pub enum SyncError {
    RepositoryNotFound,
    RemoteNotFound,
    AuthFailure,
    FetchFailure,
    /// The merge analysis could not be made or allows no merge.
    MergeFailure,
    /// The histories diverge and the merge conflicts: nothing was changed.
    MergeConflict,
    /// Updating the branch or the working tree failed.
    ApplyFailure,
    /// An event came that the phase does not expect.
    Unexpected,
}

/// How the local branch relates to the fetched commit.
#[derive(Debug, PartialEq, Eq, Structural)]
pub enum MergeAnalysis {
    UpToDate,
    FastForward,
    Normal,
    Unsupported,
}

/// What a fetch reported.
#[derive(Debug)]
pub enum FetchResult {
    /// The fetched branch tip, as a 20-byte object id.
    Commit([u8; 20]),
    AuthFailed,
    Failed,
}

/// What the last piece of repository work reported.
#[derive(Debug)]
pub enum SyncEvent {
    Begin,
    Opened(bool),
    RemoteFound(bool),
    Fetched(FetchResult),
    Analysed(MergeAnalysis),
    /// The in-memory merge of the two trees; `conflicts` when it has any.
    Merged { conflicts: bool },
    Applied(bool),
}

/// The next piece of repository work.
#[derive(Debug)]
pub enum SyncCommand {
    OpenRepository { path: String },
    FindRemote { remote: String },
    Fetch { remote: String, branch: String, ssh_key_path: String },
    AnalyseMerge { commit: [u8; 20] },
    /// Point `branch` at `target` and check its tree out.
    FastForward { branch: String, target: [u8; 20] },
    /// Merge `commit` into `branch` in memory, without touching the repository.
    MergeTrees { branch: String, commit: [u8; 20] },
    /// Record the merge of `commit` as a commit on `branch` and check it out.
    CommitMerge { branch: String, commit: [u8; 20] },
    Finish(Result<(), SyncError>),
}

/// How far a synchronisation has come.
#[derive(Debug)]
pub enum Phase {
    Idle,
    Opening,
    FindingRemote,
    Fetching,
    Analysing([u8; 20]),
    Merging([u8; 20]),
    Applying,
    Done,
}

/// The next phase and piece of work of a pull of `branch` from `remote` into
/// the repository at `path`, authenticated with the key at `ssh_key_path`.
pub open spec fn pull_transition(
    path: String,
    remote: String,
    branch: String,
    ssh_key_path: String,
    phase: Phase,
    event: SyncEvent,
) -> (Phase, SyncCommand) {
    match (phase, event) {
        (Phase::Idle, SyncEvent::Begin) => (Phase::Opening, SyncCommand::OpenRepository { path }),
        (Phase::Opening, SyncEvent::Opened(true)) => (
            Phase::FindingRemote,
            SyncCommand::FindRemote { remote },
        ),
        (Phase::Opening, SyncEvent::Opened(false)) => (
            Phase::Done,
            SyncCommand::Finish(Err(SyncError::RepositoryNotFound)),
        ),
        (Phase::FindingRemote, SyncEvent::RemoteFound(true)) => (
            Phase::Fetching,
            SyncCommand::Fetch { remote, branch, ssh_key_path },
        ),
        (Phase::FindingRemote, SyncEvent::RemoteFound(false)) => (
            Phase::Done,
            SyncCommand::Finish(Err(SyncError::RemoteNotFound)),
        ),
        (Phase::Fetching, SyncEvent::Fetched(FetchResult::Commit(c))) => (
            Phase::Analysing(c),
            SyncCommand::AnalyseMerge { commit: c },
        ),
        (Phase::Fetching, SyncEvent::Fetched(FetchResult::AuthFailed)) => (
            Phase::Done,
            SyncCommand::Finish(Err(SyncError::AuthFailure)),
        ),
        (Phase::Fetching, SyncEvent::Fetched(FetchResult::Failed)) => (
            Phase::Done,
            SyncCommand::Finish(Err(SyncError::FetchFailure)),
        ),
        (Phase::Analysing(_), SyncEvent::Analysed(MergeAnalysis::UpToDate)) => (
            Phase::Done,
            SyncCommand::Finish(Ok(())),
        ),
        (Phase::Analysing(c), SyncEvent::Analysed(MergeAnalysis::FastForward)) => (
            Phase::Applying,
            SyncCommand::FastForward { branch, target: c },
        ),
        (Phase::Analysing(c), SyncEvent::Analysed(MergeAnalysis::Normal)) => (
            Phase::Merging(c),
            SyncCommand::MergeTrees { branch, commit: c },
        ),
        (Phase::Analysing(_), SyncEvent::Analysed(MergeAnalysis::Unsupported)) => (
            Phase::Done,
            SyncCommand::Finish(Err(SyncError::MergeFailure)),
        ),
        (Phase::Merging(c), SyncEvent::Merged { conflicts: false }) => (
            Phase::Applying,
            SyncCommand::CommitMerge { branch, commit: c },
        ),
        (Phase::Merging(_), SyncEvent::Merged { conflicts: true }) => (
            Phase::Done,
            SyncCommand::Finish(Err(SyncError::MergeConflict)),
        ),
        (Phase::Applying, SyncEvent::Applied(true)) => (Phase::Done, SyncCommand::Finish(Ok(()))),
        (Phase::Applying, SyncEvent::Applied(false)) => (
            Phase::Done,
            SyncCommand::Finish(Err(SyncError::ApplyFailure)),
        ),
        _ => (Phase::Done, SyncCommand::Finish(Err(SyncError::Unexpected))),
    }
}

/// The next phase and piece of work of `action`.
pub open spec fn transition(action: Action, phase: Phase, event: SyncEvent) -> (
    Phase,
    SyncCommand,
) {
    match action {
        Action::Pull { path, remote, branch, ssh_key_path } => pull_transition(
            path,
            remote,
            branch,
            ssh_key_path,
            phase,
            event,
        ),
    }
}

/// Whether a command changes the branch or the working tree.
pub open spec fn mutates(cmd: SyncCommand) -> bool {
    cmd is FastForward || cmd is CommitMerge
}

impl Action {
    /// Decides the next phase and piece of work, from the phase reached and
    /// what the last piece of work reported.
    pub fn step(&self, phase: Phase, event: SyncEvent) -> (r: (Phase, SyncCommand))
        ensures
            r == transition(*self, phase, event),
    {
        match self {
            Action::Pull { path, remote, branch, ssh_key_path } => match (phase, event) {
                (Phase::Idle, SyncEvent::Begin) => (
                    Phase::Opening,
                    SyncCommand::OpenRepository { path: clone_string(path) },
                ),
                (Phase::Opening, SyncEvent::Opened(opened)) => if opened {
                    (Phase::FindingRemote, SyncCommand::FindRemote { remote: clone_string(remote) })
                } else {
                    (Phase::Done, SyncCommand::Finish(Err(SyncError::RepositoryNotFound)))
                },
                (Phase::FindingRemote, SyncEvent::RemoteFound(found)) => if found {
                    (
                        Phase::Fetching,
                        SyncCommand::Fetch {
                            remote: clone_string(remote),
                            branch: clone_string(branch),
                            ssh_key_path: clone_string(ssh_key_path),
                        },
                    )
                } else {
                    (Phase::Done, SyncCommand::Finish(Err(SyncError::RemoteNotFound)))
                },
                (Phase::Fetching, SyncEvent::Fetched(fetched)) => match fetched {
                    FetchResult::Commit(c) => {
                        (Phase::Analysing(c), SyncCommand::AnalyseMerge { commit: c })
                    },
                    FetchResult::AuthFailed => (
                        Phase::Done,
                        SyncCommand::Finish(Err(SyncError::AuthFailure)),
                    ),
                    FetchResult::Failed => (
                        Phase::Done,
                        SyncCommand::Finish(Err(SyncError::FetchFailure)),
                    ),
                },
                (Phase::Analysing(c), SyncEvent::Analysed(analysis)) => match analysis {
                    MergeAnalysis::UpToDate => (Phase::Done, SyncCommand::Finish(Ok(()))),
                    MergeAnalysis::FastForward => (
                        Phase::Applying,
                        SyncCommand::FastForward { branch: clone_string(branch), target: c },
                    ),
                    MergeAnalysis::Normal => {
                        (
                            Phase::Merging(c),
                            SyncCommand::MergeTrees { branch: clone_string(branch), commit: c },
                        )
                    },
                    MergeAnalysis::Unsupported => (
                        Phase::Done,
                        SyncCommand::Finish(Err(SyncError::MergeFailure)),
                    ),
                },
                (Phase::Merging(c), SyncEvent::Merged { conflicts }) => if conflicts {
                    (Phase::Done, SyncCommand::Finish(Err(SyncError::MergeConflict)))
                } else {
                    (
                        Phase::Applying,
                        SyncCommand::CommitMerge { branch: clone_string(branch), commit: c },
                    )
                },
                (Phase::Applying, SyncEvent::Applied(applied)) => if applied {
                    (Phase::Done, SyncCommand::Finish(Ok(())))
                } else {
                    (Phase::Done, SyncCommand::Finish(Err(SyncError::ApplyFailure)))
                },
                _ => (Phase::Done, SyncCommand::Finish(Err(SyncError::Unexpected))),
            },
        }
    }
}

/// When the local branch can be fast-forwarded, the one change made is to
/// point the configured branch exactly at the fetched commit.
pub proof fn lemma_fast_forward_targets_fetched(action: Action, fetched: [u8; 20])
    ensures
        match action {
            Action::Pull { branch, .. } => transition(
                action,
                Phase::Analysing(fetched),
                SyncEvent::Analysed(MergeAnalysis::FastForward),
            ) == (Phase::Applying, SyncCommand::FastForward { branch, target: fetched }),
        },
{
}

/// A conflicting merge fails closed: the synchronisation ends with
/// `MergeConflict` and the branch and working tree are not touched.
pub proof fn lemma_conflict_fails_closed(action: Action, commit: [u8; 20])
    ensures
        transition(action, Phase::Merging(commit), SyncEvent::Merged { conflicts: true }) == (
            Phase::Done,
            SyncCommand::Finish(Err(SyncError::MergeConflict)),
        ),
{
}

/// Only a fast-forward or a clean merge is followed by a change of the branch
/// or the working tree: every earlier step, and every failure, leaves the
/// repository's branch and tree as they were.
pub proof fn lemma_mutation_only_after_clean_analysis(
    action: Action,
    phase: Phase,
    event: SyncEvent,
)
    ensures
        mutates(transition(action, phase, event).1) ==> ({
            ||| (phase is Analysing && event == SyncEvent::Analysed(MergeAnalysis::FastForward))
            ||| (phase is Merging && event == SyncEvent::Merged { conflicts: false })
        }),
{
}

} // verus!
