//! The command-line surface, as plain data.
//!
//! Argument parsing itself is a thin layer around the library; these types
//! are what a parsed invocation amounts to.

use vstd::prelude::*;

verus! {

/// One invocation of the journal tool.
#[derive(Debug)]
pub enum JournalTimeCli {
    /// Edit today's journal entry.
    Today,
    /// Subcommands for books.
    Book(BookArgs),
    /// Push the journal to the fixed backup remote.
    JustPush,
    /// Fetch the journal from the fixed remote onto a new machine.
    JustFetch,
    /// Show the journal with an external repository viewer.
    JustView,
    /// Show the path to the journal repository.
    Path,
    View,
    Sync,
    Recent,
    Config,
    Find,
}

/// Arguments of the `book` subcommand.
#[derive(Debug)]
pub struct BookArgs {
    pub cmd: BookCmd,
}

/// The book subcommands.
#[derive(Debug)]
pub enum BookCmd {
    /// List the books notes are kept about.
    List,
    /// Add a new book.
    Add(AddBookArgs),
    /// Edit the notes for a book.
    Notes(BookNoteArgs),
}

/// Arguments for adding a book.
#[derive(Debug)]
pub struct AddBookArgs {
    /// Authors of the book; may be given several times.
    pub author: Vec<String>,
    /// ISBN, if known.
    pub isbn: Option<String>,
    /// How the book is being read.
    pub media: BookMedia,
    /// Explicit slug; otherwise one is derived from the title.
    pub slug: Option<String>,
    pub title: Vec<String>,
}

/// The medium a book is read on.
#[derive(Clone, Copy, Debug, PartialEq, Eq, Structural)]
pub enum BookMedia {
    Kindle,
    HardCopy,
}

impl BookMedia {
    /// The token stored in a book's frontmatter for this medium.
    pub fn as_token(&self) -> (r: &'static str)
        ensures
            *self == BookMedia::Kindle ==> r@ == "kindle"@,
            *self == BookMedia::HardCopy ==> r@ == "hard copy"@,
    {
        match self {
            BookMedia::Kindle => "kindle",
            BookMedia::HardCopy => "hard copy",
        }
    }
}

/// Arguments for editing a book's notes.
#[derive(Debug)]
pub struct BookNoteArgs {
    /// The slug of the book; otherwise the most recently edited notes.
    pub slug: Option<String>,
}

} // verus!
