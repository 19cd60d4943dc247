//! Error kinds surfaced by the journal core.

use vstd::prelude::*;
use vstd::string::StringExecFns;

verus! {

/// The failure modes of the journal core.  Every error is reported to the
/// top level as a single-line message; none is retried automatically.  An
/// error caused by a spawned process carries the captured human-readable
/// status text.
#[derive(Clone, Debug, PartialEq, Eq)]
pub enum Error {
    /// The storage location or a required environment setting could not be
    /// resolved.
    Configuration,
    /// A spawned process exited non-zero or could not be spawned.
    ExternalTool(String),
    /// A filesystem read or write failed.
    Storage(String),
    /// A push, fetch, merge or checkout failed after local state was
    /// already durable.
    Sync(String),
}

impl Error {
    /// The single-line message reported for this error.
    pub open spec fn message_spec(&self) -> Seq<char> {
        match self {
            Error::Configuration => "could not determine where journal should be stored"@,
            Error::ExternalTool(m) => m@,
            Error::Storage(m) => m@,
            Error::Sync(m) => m@,
        }
    }

    /// A short human-readable description of the error.
    pub fn message(&self) -> (r: String)
        ensures
            r@ == self.message_spec(),
    {
        match self {
            Error::Configuration => {
                "could not determine where journal should be stored".to_owned()
            },
            Error::ExternalTool(m) => m.clone(),
            Error::Storage(m) => m.clone(),
            Error::Sync(m) => m.clone(),
        }
    }
}

/// The message reported when a spawned command fails, wrapping the captured
/// human-readable status text.
pub open spec fn status_message_seq(status: Seq<char>) -> Seq<char> {
    "command did not complete successfully ("@ + status + ")"@
}

/// Format the failure message for a command whose status text is `status`.
pub fn status_message(status: &str) -> (r: String)
    ensures
        r@ == status_message_seq(status@),
{
    let mut m = String::new();
    m.append("command did not complete successfully (");
    m.append(status);
    m.append(")");
    m
}

/// The observed exit of a spawned process: `success` is true exactly when
/// the process exited with status zero, and `status` is the human-readable
/// status text the runtime reported (for instance the exit code).
#[derive(Clone, Debug, PartialEq, Eq)]
pub struct ProcessStatus {
    pub success: bool,
    pub status: String,
}

/// Turning a process exit status into a `Result`.
pub trait CheckStatus {
    /// Ok exactly when the process exited successfully.
    fn check(self) -> Result<(), Error>;
}

impl CheckStatus for ProcessStatus {
    fn check(self) -> (r: Result<(), Error>)
        ensures
            r is Ok <==> self.success,
            !self.success ==> (r matches Err(e) && (e matches Error::ExternalTool(m) && m@
                == status_message_seq(self.status@))),
    {
        if self.success {
            Ok(())
        } else {
            Err(Error::ExternalTool(status_message(self.status.as_str())))
        }
    }
}

} // verus!
