//! The git-based synchronization protocol.
//!
//! The library never spawns a process.  It decides *which* git command runs
//! next: each protocol is a small state machine that hands the caller one
//! command at a time and consumes the command's observed exit status.  The
//! caller (the binary around the library) performs the command with the
//! repository root as working directory and reports the status back; a
//! failure's human-readable status text is carried into the final error.

use vstd::prelude::*;

use crate::errs::{status_message, status_message_seq, Error, ProcessStatus};

verus! {

/// One git invocation, described by its arguments.
#[derive(Debug, Clone)]
pub enum GitCmd {
    /// `git init <path>`: create the repository.
    Init { path: String },
    /// `git add <path>`: stage exactly one file, never a blanket add.
    Add { path: String },
    /// `git commit -q -m <message>`.
    Commit { message: String },
    /// `git push` to the configured default remote and branch.
    Push,
    /// `git push <url> <refspec>`.
    PushRef { url: String, refspec: String },
    /// `git fetch <url> <refspec>`.
    Fetch { url: String, refspec: String },
    /// `git rev-parse HEAD`, output captured: only success matters.
    RevParseHead,
    /// `git merge <reference>`.
    Merge { reference: String },
    /// `git checkout -b <branch> <reference>`.
    Checkout { branch: String, reference: String },
}

/// The fixed remote used by the manual push and the bootstrap fetch.
pub fn remote_repo_url() -> (r: &'static str)
    ensures
        r@ == "git@github.com:spraints/work-journal.git"@,
{
    "git@github.com:spraints/work-journal.git"
}

/// The manual backup push: push local `main` to the remote's `main`.
pub fn push_plan(url: &str) -> (r: GitCmd)
    ensures
        r matches GitCmd::PushRef { url: u, refspec } && u@ == url@ && refspec@
            == "refs/heads/main:refs/heads/main"@,
{
    GitCmd::PushRef {
        url: url.to_owned(),
        refspec: "refs/heads/main:refs/heads/main".to_owned(),
    }
}

/// The commit-and-push protocol that runs after every edit session.
///
/// Staging must succeed; a commit failure is tolerated (an edit session may
/// have changed nothing, and the protocol deliberately does not distinguish
/// that from a genuine commit error — a documented open question); a push
/// failure is reported without undoing the local commit.
#[derive(Clone, Debug, PartialEq, Eq)]
pub enum CommitFlow {
    /// `git add` was issued and is running.
    Adding,
    /// `git commit` was issued and is running.
    Committing,
    /// `git push` was issued and is running.
    Pushing,
    /// Everything ran; the entry is committed and pushed.
    Done,
    /// Staging failed; nothing was committed.  Carries the failure message.
    AddFailed { message: String },
    /// The local commit is durable but the push failed.  Carries the
    /// failure message.
    PushFailed { message: String },
}

impl CommitFlow {
    /// Begin the protocol for one relative path: the first command stages
    /// exactly that path.
    pub fn start(relative_path: &str) -> (r: (CommitFlow, GitCmd))
        ensures
            r.0 == CommitFlow::Adding,
            r.1 matches GitCmd::Add { path } && path@ == relative_path@,
    {
        (CommitFlow::Adding, GitCmd::Add { path: relative_path.to_owned() })
    }

    /// Consume the observed status of the running command and produce the
    /// next one, if any.  The commit step proceeds to the push whether it
    /// succeeded or not; every other failure is terminal and keeps the
    /// command's status text.
    pub fn step(self, status: &ProcessStatus) -> (r: (CommitFlow, Option<GitCmd>))
        ensures
            self == CommitFlow::Adding && status.success ==> r.0 == CommitFlow::Committing
                && (r.1 matches Some(c) && c matches GitCmd::Commit { message } && message@
                == "edited entry"@),
            self == CommitFlow::Adding && !status.success ==> (r.0 matches CommitFlow::AddFailed {
                message,
            } && message@ == status_message_seq(status.status@)) && r.1 is None,
            self == CommitFlow::Committing ==> r.0 == CommitFlow::Pushing && (r.1 matches Some(c)
                && c is Push),
            self == CommitFlow::Pushing && status.success ==> r.0 == CommitFlow::Done
                && r.1 is None,
            self == CommitFlow::Pushing && !status.success ==> (r.0 matches CommitFlow::PushFailed {
                message,
            } && message@ == status_message_seq(status.status@)) && r.1 is None,
            self is Done || self is AddFailed || self is PushFailed ==> r.0 == self && r.1 is None,
    {
        match self {
            CommitFlow::Adding => {
                if status.success {
                    (
                        CommitFlow::Committing,
                        Some(GitCmd::Commit { message: "edited entry".to_owned() }),
                    )
                } else {
                    (
                        CommitFlow::AddFailed {
                            message: status_message(status.status.as_str()),
                        },
                        None,
                    )
                }
            },
            CommitFlow::Committing => (CommitFlow::Pushing, Some(GitCmd::Push)),
            CommitFlow::Pushing => {
                if status.success {
                    (CommitFlow::Done, None)
                } else {
                    (
                        CommitFlow::PushFailed {
                            message: status_message(status.status.as_str()),
                        },
                        None,
                    )
                }
            },
            CommitFlow::Done => (CommitFlow::Done, None),
            CommitFlow::AddFailed { message } => (CommitFlow::AddFailed { message }, None),
            CommitFlow::PushFailed { message } => (CommitFlow::PushFailed { message }, None),
        }
    }

    /// The protocol's verdict once no further command is issued.  A failed
    /// staging is an external-tool error; a failed push is a sync error;
    /// both surface the captured status text.
    pub fn outcome(self) -> (r: Option<Result<(), Error>>)
        ensures
            self == CommitFlow::Done ==> r == Some(Result::<(), Error>::Ok(())),
            self matches CommitFlow::AddFailed { message } ==> (r matches Some(v) && (v matches Err(
                e,
            ) && e == Error::ExternalTool(message))),
            self matches CommitFlow::PushFailed { message } ==> (r matches Some(v) && (v
                matches Err(e) && e == Error::Sync(message))),
            self is Adding || self is Committing || self is Pushing ==> r is None,
    {
        match self {
            CommitFlow::Done => Some(Ok(())),
            CommitFlow::AddFailed { message } => Some(Err(Error::ExternalTool(message))),
            CommitFlow::PushFailed { message } => Some(Err(Error::Sync(message))),
            _ => None,
        }
    }
}

/// The bootstrap-fetch protocol that adopts a remote history on a fresh
/// machine.
///
/// It fetches every remote branch into the private `refs/just-fetch/*`
/// namespace, then probes local state with `rev-parse HEAD`.  The probe's
/// outcome is the sole discriminator: success means local history exists
/// and the fetched `main` is merged; failure means a brand-new repository
/// and `main` is checked out from the fetched history directly.  Nothing is
/// re-checked afterwards, and a failure of either final command is fatal.
#[derive(Clone, Debug, PartialEq, Eq)]
pub enum BootstrapFlow {
    /// `git fetch` was issued and is running.
    Fetching,
    /// `git rev-parse HEAD` was issued and is running.
    Probing,
    /// The probe succeeded: `git merge` was issued (local history existed).
    Merging,
    /// The probe failed: `git checkout -b` was issued (no local history).
    CheckingOut,
    /// The remote history is adopted.
    Reconciled,
    /// A fetch, merge or checkout failed; whatever git left behind stays.
    /// Carries the failure message.
    Failed { message: String },
}

impl BootstrapFlow {
    /// Begin the protocol: the first command fetches all remote branches
    /// into the private namespace.
    pub fn start(url: &str) -> (r: (BootstrapFlow, GitCmd))
        ensures
            r.0 == BootstrapFlow::Fetching,
            r.1 matches GitCmd::Fetch { url: u, refspec } && u@ == url@ && refspec@
                == "+refs/heads/*:refs/just-fetch/*"@,
    {
        (
            BootstrapFlow::Fetching,
            GitCmd::Fetch {
                url: url.to_owned(),
                refspec: "+refs/heads/*:refs/just-fetch/*".to_owned(),
            },
        )
    }

    /// Consume the observed status of the running command and produce the
    /// next one, if any.  A successful probe leads to exactly a merge of
    /// `refs/just-fetch/main`; a failed probe leads to exactly a checkout
    /// of a new `main` from it; no other command is ever issued.
    pub fn step(self, status: &ProcessStatus) -> (r: (BootstrapFlow, Option<GitCmd>))
        ensures
            self == BootstrapFlow::Fetching && status.success ==> r.0 == BootstrapFlow::Probing && (
            r.1 matches Some(c) && c is RevParseHead),
            self == BootstrapFlow::Fetching && !status.success ==> (r.0
                matches BootstrapFlow::Failed { message } && message@ == status_message_seq(
                status.status@,
            )) && r.1 is None,
            self == BootstrapFlow::Probing && status.success ==> r.0 == BootstrapFlow::Merging && (
            r.1 matches Some(c) && c matches GitCmd::Merge { reference } && reference@
                == "refs/just-fetch/main"@),
            self == BootstrapFlow::Probing && !status.success ==> r.0 == BootstrapFlow::CheckingOut
                && (r.1 matches Some(c) && c matches GitCmd::Checkout { branch, reference }
                && branch@ == "main"@ && reference@ == "refs/just-fetch/main"@),
            self == BootstrapFlow::Merging && status.success ==> r.0 == BootstrapFlow::Reconciled
                && r.1 is None,
            self == BootstrapFlow::Merging && !status.success ==> (r.0
                matches BootstrapFlow::Failed { message } && message@ == status_message_seq(
                status.status@,
            )) && r.1 is None,
            self == BootstrapFlow::CheckingOut && status.success ==> r.0
                == BootstrapFlow::Reconciled && r.1 is None,
            self == BootstrapFlow::CheckingOut && !status.success ==> (r.0
                matches BootstrapFlow::Failed { message } && message@ == status_message_seq(
                status.status@,
            )) && r.1 is None,
            self is Reconciled || self is Failed ==> r.0 == self && r.1 is None,
    {
        match self {
            BootstrapFlow::Fetching => {
                if status.success {
                    (BootstrapFlow::Probing, Some(GitCmd::RevParseHead))
                } else {
                    (
                        BootstrapFlow::Failed {
                            message: status_message(status.status.as_str()),
                        },
                        None,
                    )
                }
            },
            BootstrapFlow::Probing => {
                if status.success {
                    (
                        BootstrapFlow::Merging,
                        Some(GitCmd::Merge { reference: "refs/just-fetch/main".to_owned() }),
                    )
                } else {
                    (
                        BootstrapFlow::CheckingOut,
                        Some(
                            GitCmd::Checkout {
                                branch: "main".to_owned(),
                                reference: "refs/just-fetch/main".to_owned(),
                            },
                        ),
                    )
                }
            },
            BootstrapFlow::Merging => {
                if status.success {
                    (BootstrapFlow::Reconciled, None)
                } else {
                    (
                        BootstrapFlow::Failed {
                            message: status_message(status.status.as_str()),
                        },
                        None,
                    )
                }
            },
            BootstrapFlow::CheckingOut => {
                if status.success {
                    (BootstrapFlow::Reconciled, None)
                } else {
                    (
                        BootstrapFlow::Failed {
                            message: status_message(status.status.as_str()),
                        },
                        None,
                    )
                }
            },
            BootstrapFlow::Reconciled => (BootstrapFlow::Reconciled, None),
            BootstrapFlow::Failed { message } => (BootstrapFlow::Failed { message }, None),
        }
    }

    /// The protocol's verdict once no further command is issued.  A failure
    /// is a sync error carrying the captured status text.
    pub fn outcome(self) -> (r: Option<Result<(), Error>>)
        ensures
            self == BootstrapFlow::Reconciled ==> r == Some(Result::<(), Error>::Ok(())),
            self matches BootstrapFlow::Failed { message } ==> (r matches Some(v) && (v
                matches Err(e) && e == Error::Sync(message))),
            self is Fetching || self is Probing || self is Merging || self is CheckingOut
                ==> r is None,
    {
        match self {
            BootstrapFlow::Reconciled => Some(Ok(())),
            BootstrapFlow::Failed { message } => Some(Err(Error::Sync(message))),
            _ => None,
        }
    }
}

} // verus!
