//! The injected top-level interface.
//!
//! Weekly files and book entries both need to know the repository root and
//! to commit one file; handing them the whole journal would create a
//! dependency cycle, so they receive this narrow interface instead.

use vstd::prelude::*;

use crate::git::{CommitFlow, GitCmd};

verus! {

/// What an entry needs from the journal that owns it: the repository root,
/// and the commit-and-push protocol for one relative path.
pub trait JournalTopLevel: Sized + Clone {
    /// The repository root path, as a sequence of characters.
    spec fn root_seq(&self) -> Seq<char>;

    /// The absolute path of the repository root.
    fn path(&self) -> (r: String)
        ensures
            r@ == self.root_seq(),
    ;

    /// A handle to the same repository root.
    fn dup(&self) -> (r: Self)
        ensures
            r.root_seq() == self.root_seq(),
    ;

    /// Begin the commit-and-push protocol for exactly one relative path.
    fn commit_file(&self, relative_path: &str) -> (r: (CommitFlow, GitCmd))
        ensures
            r.0 == CommitFlow::Adding,
            r.1 matches GitCmd::Add { path } && path@ == relative_path@,
    ;
}

/// Something that lives at a path inside the journal repository and can be
/// opened in an editor.
pub trait JournalEntity {
    /// The repository root, as a sequence of characters.
    spec fn root_seq(&self) -> Seq<char>;

    /// The path relative to the repository root, as a sequence of
    /// characters.
    spec fn rel_seq(&self) -> Seq<char>;

    /// The absolute path of the entity's file.
    fn path(&self) -> (r: String)
        ensures
            r@ == self.root_seq() + seq!['/'] + self.rel_seq(),
    ;

    /// The absolute path of the repository root.
    fn journal_path(&self) -> (r: String)
        ensures
            r@ == self.root_seq(),
    ;

    /// The path relative to the repository root.
    fn relative_path(&self) -> (r: String)
        ensures
            r@ == self.rel_seq(),
    ;
}

} // verus!
