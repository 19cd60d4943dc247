//! The book catalog: one frontmatter-tagged Markdown file per book, under
//! `books/` in the journal repository, each addressable by a slug.
//!
//! The catalog is a simple keyed file store.  Reading the directory and
//! parsing or serializing YAML happen outside the library; entries arrive
//! here as plain values, and everything the catalog decides — slugs, paths,
//! which entry is most recent, what frames a book document — is verified.

use vstd::prelude::*;
use vstd::string::StrSliceExecFns;
use vstd::string::StringExecFns;

use crate::errs::Error;
use crate::git::{CommitFlow, GitCmd};
use crate::journal::chars_to_string;
use crate::toplevel::{JournalEntity, JournalTopLevel};

verus! {

/// Whether a character counts as alphabetic (the Unicode `Alphabetic`
/// property); a function of the character alone.
pub uninterp spec fn char_alphabetic(c: char) -> bool;

/// Relies on core's `char::is_alphabetic`: true exactly for characters
/// with the Unicode `Alphabetic` property.  On the ASCII range the
/// documentation settles the property outright: the letters `a`-`z` and
/// `A`-`Z` are alphabetic, and no other ASCII character is.
pub assume_specification[ char::is_alphabetic ](c: char) -> (r: bool)
    ensures
        r == char_alphabetic(c),
        (c as u32) < 128 ==> r == (('a' <= c && c <= 'z') || ('A' <= c && c <= 'Z')),
;

/// What `char::to_ascii_lowercase` returns: ASCII uppercase letters map to
/// their lowercase counterpart, every other character is unchanged.
pub open spec fn to_lower_spec(c: char) -> char {
    if 'A' <= c && c <= 'Z' {
        ((c as u32 + 32) as char)
    } else {
        c
    }
}

/// Relies on core's `char::to_ascii_lowercase`, whose documentation
/// promises exactly the ASCII mapping in `to_lower_spec`.
pub assume_specification[ char::to_ascii_lowercase ](c: &char) -> (r: char)
    ensures
        r == to_lower_spec(*c),
;

/// How one title character appears in a slug: alphabetic characters are
/// lowercased (ASCII-wise), everything else becomes a dash.
pub open spec fn slug_char_spec(c: char) -> char {
    if char_alphabetic(c) {
        to_lower_spec(c)
    } else {
        '-'
    }
}

/// The slug of a title: every character mapped through `slug_char_spec`.
pub open spec fn slug_seq(title: Seq<char>) -> Seq<char> {
    title.map_values(|c: char| slug_char_spec(c))
}

/// Map one title character into its slug character.
pub fn slug_char(c: char) -> (r: char)
    ensures
        r == slug_char_spec(c),
{
    if c.is_alphabetic() {
        c.to_ascii_lowercase()
    } else {
        '-'
    }
}

/// Derive a filename slug from a title.
pub fn make_slug(s: &str) -> (r: String)
    ensures
        r@ == slug_seq(s@),
{
    let n = s.unicode_len();
    let mut v: Vec<char> = Vec::new();
    let mut i: usize = 0;
    while i < n
        invariant
            i <= n,
            n == s@.len(),
            v@ == slug_seq(s@.take(i as int)),
        decreases n - i,
    {
        let c = s.get_char(i);
        v.push(slug_char(c));
        proof {
            assert(slug_seq(s@.take(i + 1)) =~= slug_seq(s@.take(i as int)).push(
                slug_char_spec(s@[i as int]),
            ));
        }
        i = i + 1;
    }
    proof {
        assert(s@.take(n as int) =~= s@);
    }
    chars_to_string(&v)
}

/// The index of the last `.` in `s`, or -1 when there is none.
pub open spec fn last_dot(s: Seq<char>) -> int
    decreases s.len(),
{
    if s.len() == 0 {
        -1
    } else if s.last() == '.' {
        s.len() - 1
    } else {
        last_dot(s.drop_last())
    }
}

/// The stem of a file name: everything before the last `.`, unless the
/// only `.` leads the name.
pub open spec fn stem_of(s: Seq<char>) -> Seq<char> {
    if last_dot(s) > 0 {
        s.take(last_dot(s))
    } else {
        s
    }
}

/// A suffix without dots does not move the last dot.
proof fn lemma_last_dot_suffix(s: Seq<char>, j: int)
    requires
        0 <= j <= s.len(),
        forall|k: int| j <= k < s.len() ==> s[k] != '.',
    ensures
        last_dot(s) == last_dot(s.take(j)),
    decreases s.len() - j,
{
    if j == s.len() {
        assert(s.take(j) =~= s);
    } else {
        lemma_last_dot_suffix(s, j + 1);
        assert(s.take(j + 1).drop_last() =~= s.take(j));
        assert(s.take(j + 1).last() == s[j]);
    }
}

/// The stem of a file name, as `slug` derives it from a loaded file.
fn file_stem(name: &str) -> (r: String)
    ensures
        r@ == stem_of(name@),
{
    let n = name.unicode_len();
    let mut i: usize = n;
    while i > 0
        invariant
            i <= n,
            n == name@.len(),
            forall|k: int| i <= k < n ==> name@[k] != '.',
        decreases i,
    {
        if name.get_char(i - 1) == '.' {
            proof {
                lemma_last_dot_suffix(name@, i as int);
                assert(name@.take(i as int).last() == name@[i - 1]);
            }
            if i - 1 > 0 {
                let stem = name.substring_char(0, i - 1);
                proof {
                    assert(stem@ =~= stem_of(name@));
                }
                return stem.to_owned();
            } else {
                return name.to_owned();
            }
        }
        i = i - 1;
    }
    proof {
        lemma_last_dot_suffix(name@, 0);
        assert(name@.take(0int).len() == 0);
    }
    name.to_owned()
}

/// Compare two strings character by character.
fn str_eq(a: &str, b: &str) -> (r: bool)
    ensures
        r == (a@ == b@),
{
    let na = a.unicode_len();
    let nb = b.unicode_len();
    if na != nb {
        return false;
    }
    let mut i: usize = 0;
    while i < na
        invariant
            i <= na,
            na == a@.len(),
            na == b@.len(),
            forall|k: int| 0 <= k < i ==> a@[k] == b@[k],
        decreases na - i,
    {
        if a.get_char(i) != b.get_char(i) {
            return false;
        }
        i = i + 1;
    }
    proof {
        assert(a@ =~= b@);
    }
    true
}

/// The frontmatter block of a catalog file.
pub struct Frontmatter {
    pub title: String,
    pub authors: Vec<String>,
    pub isbn: Option<String>,
    pub media: Option<String>,
}

/// What is needed to add a book.
pub struct AddBookArgs {
    pub title: String,
    pub authors: Vec<String>,
    pub isbn: Option<String>,
    pub media: String,
    pub slug: Option<String>,
}

/// One catalog entry: a book's notes file inside the repository.
pub struct BookEntry<J> {
    pub j: J,
    pub slug: String,
    pub relative_path: String,
    pub frontmatter: Frontmatter,
    /// Modification time of the file, as reported when the catalog was
    /// loaded (seconds; 0 when unknown).
    pub mtime: u64,
}

impl<J> BookEntry<J> {
    /// An added entry's relative path is determined by its slug; a loaded
    /// entry keeps the file name it was found under.
    pub open spec fn wf(&self) -> bool {
        self.relative_path@ == "books/"@ + self.slug@ + ".md"@
    }
}

/// Build `books/<slug>.md`.
fn book_rel_path(slug: &str) -> (r: String)
    ensures
        r@ == "books/"@ + slug@ + ".md"@,
{
    let mut p = String::new();
    p.append("books/");
    p.append(slug);
    p.append(".md");
    p
}

/// The suffix `  by <author>` for each author, in order.
pub open spec fn authors_suffix(authors: Seq<Seq<char>>) -> Seq<char>
    decreases authors.len(),
{
    if authors.len() == 0 {
        Seq::<char>::empty()
    } else {
        authors_suffix(authors.drop_last()) + "  by "@ + authors.last()
    }
}

/// How a book entry lists itself: `[<slug>] <title>` followed by its
/// authors.
pub open spec fn describe_seq(slug: Seq<char>, title: Seq<char>, authors: Seq<Seq<char>>) -> Seq<
    char,
> {
    "["@ + slug + "] "@ + title + authors_suffix(authors)
}

impl<J: JournalTopLevel> BookEntry<J> {
    /// One line describing the entry, as the book list prints it.
    pub fn describe(&self) -> (r: String)
        ensures
            r@ == describe_seq(
                self.slug@,
                self.frontmatter.title@,
                self.frontmatter.authors@.map_values(|a: String| a@),
            ),
    {
        let mut s = String::new();
        s.append("[");
        s.append(self.slug.as_str());
        s.append("] ");
        s.append(self.frontmatter.title.as_str());
        let authors = &self.frontmatter.authors;
        let ghost all = authors@.map_values(|a: String| a@);
        let mut i: usize = 0;
        while i < authors.len()
            invariant
                i <= authors@.len(),
                all == authors@.map_values(|a: String| a@),
                all.len() == authors@.len(),
                s@ == describe_seq(self.slug@, self.frontmatter.title@, all.take(i as int)),
            decreases authors@.len() - i,
        {
            s.append("  by ");
            s.append(authors[i].as_str());
            proof {
                assert(all.take(i + 1).drop_last() =~= all.take(i as int));
                assert(all.take(i + 1).last() == authors@[i as int]@);
                assert(s@ =~= describe_seq(self.slug@, self.frontmatter.title@, all.take(i + 1)));
            }
            i = i + 1;
        }
        proof {
            assert(all.take(authors@.len() as int) =~= all);
        }
        s
    }

    /// Begin the commit-and-push protocol for this book's file.
    pub fn commit(&self) -> (r: (CommitFlow, GitCmd))
        ensures
            r.0 == CommitFlow::Adding,
            r.1 matches GitCmd::Add { path } && path@ == self.relative_path@,
    {
        self.j.commit_file(self.relative_path.as_str())
    }

    /// The entry's slug.
    pub fn slug(&self) -> (r: Result<String, Error>)
        ensures
            r matches Ok(s) && s@ == self.slug@,
    {
        Ok(self.slug.clone())
    }
}

impl<J: JournalTopLevel> JournalEntity for BookEntry<J> {
    open spec fn root_seq(&self) -> Seq<char> {
        self.j.root_seq()
    }

    open spec fn rel_seq(&self) -> Seq<char> {
        self.relative_path@
    }

    fn path(&self) -> (r: String)
        ensures
            r@ == self.root_seq() + seq!['/'] + self.rel_seq(),
    {
        let mut p = self.j.path();
        p.append("/");
        p.append(self.relative_path.as_str());
        proof {
            reveal_strlit("/");
            assert(p@ =~= self.root_seq() + seq!['/'] + self.rel_seq());
        }
        p
    }

    fn journal_path(&self) -> (r: String)
        ensures
            r@ == self.root_seq(),
    {
        self.j.path()
    }

    fn relative_path(&self) -> (r: String)
        ensures
            r@ == self.rel_seq(),
    {
        self.relative_path.clone()
    }
}

/// The book catalog.
pub struct Books<J> {
    pub j: J,
    pub entries: Vec<BookEntry<J>>,
}

impl<J: JournalTopLevel> Books<J> {
    /// An empty catalog handle; entries are loaded one by one from the
    /// `books/` directory.
    pub fn new(j: J) -> (r: Books<J>)
        ensures
            r.j == j,
            r.entries@.len() == 0,
    {
        Books { j, entries: Vec::new() }
    }

    /// Record one entry read from the `books/` directory: `file_name` is
    /// the file's own name there, and the slug is its stem.
    pub fn insert_loaded(&mut self, file_name: String, frontmatter: Frontmatter, mtime: u64)
        ensures
            final(self).j == old(self).j,
            final(self).entries@.len() == old(self).entries@.len() + 1,
            final(self).entries@ =~= old(self).entries@.push(final(self).entries@.last()),
            final(self).entries@.last().slug@ == stem_of(file_name@),
            final(self).entries@.last().relative_path@ == "books/"@ + file_name@,
            final(self).entries@.last().frontmatter == frontmatter,
            final(self).entries@.last().mtime == mtime,
            final(self).entries@.last().j.root_seq() == old(self).j.root_seq(),
    {
        let slug = file_stem(file_name.as_str());
        let mut relative_path = String::new();
        relative_path.append("books/");
        relative_path.append(file_name.as_str());
        let entry = BookEntry { j: self.j.dup(), slug, relative_path, frontmatter, mtime };
        self.entries.push(entry);
    }

    /// The loaded entries, in load order.
    pub fn iter(&self) -> (r: &Vec<BookEntry<J>>)
        ensures
            r@ == self.entries@,
    {
        &self.entries
    }

    /// The first entry whose slug is exactly `slug`, if any.
    pub fn get(&self, slug: &str) -> (r: Option<&BookEntry<J>>)
        ensures
            r is Some <==> exists|i: int|
                0 <= i < self.entries@.len() && self.entries@[i].slug@ == slug@,
            r matches Some(e) ==> exists|i: int|
                {
                    &&& 0 <= i < self.entries@.len()
                    &&& *e == self.entries@[i]
                    &&& self.entries@[i].slug@ == slug@
                    &&& forall|k: int| 0 <= k < i ==> self.entries@[k].slug@ != slug@
                },
    {
        let mut i: usize = 0;
        while i < self.entries.len()
            invariant
                i <= self.entries@.len(),
                forall|k: int| 0 <= k < i ==> self.entries@[k].slug@ != slug@,
            decreases self.entries@.len() - i,
        {
            if str_eq(self.entries[i].slug.as_str(), slug) {
                return Some(&self.entries[i]);
            }
            i = i + 1;
        }
        None
    }

    /// The entry whose file changed most recently; on a tie, the one
    /// loaded last.  `None` only for an empty catalog.
    pub fn most_recent_notes(&self) -> (r: Option<&BookEntry<J>>)
        ensures
            r is Some <==> self.entries@.len() > 0,
            r matches Some(e) ==> exists|i: int|
                {
                    &&& 0 <= i < self.entries@.len()
                    &&& *e == self.entries@[i]
                    &&& forall|k: int|
                        0 <= k < self.entries@.len() ==> self.entries@[k].mtime
                            <= self.entries@[i].mtime
                    &&& forall|k: int|
                        i < k < self.entries@.len() ==> self.entries@[k].mtime
                            < self.entries@[i].mtime
                },
    {
        if self.entries.len() == 0 {
            return None;
        }
        let mut best: usize = 0;
        let mut i: usize = 1;
        while i < self.entries.len()
            invariant
                best < i <= self.entries@.len(),
                forall|k: int| 0 <= k < i ==> self.entries@[k].mtime <= self.entries@[
                    best as int
                ].mtime,
                forall|k: int| best < k < i ==> self.entries@[k].mtime < self.entries@[
                    best as int
                ].mtime,
            decreases self.entries@.len() - i,
        {
            if self.entries[i].mtime >= self.entries[best].mtime {
                best = i;
            }
            i = i + 1;
        }
        Some(&self.entries[best])
    }

    /// Decide a new book's slug, path and frontmatter.  Writing the file
    /// and committing it happen outside; the returned entry is what they
    /// work from.
    pub fn add(&self, info: AddBookArgs) -> (r: BookEntry<J>)
        ensures
            r.wf(),
            info.slug matches Some(s) ==> r.slug@ == s@,
            info.slug is None ==> r.slug@ == slug_seq(info.title@),
            r.frontmatter.title == info.title,
            r.frontmatter.authors == info.authors,
            r.frontmatter.isbn == info.isbn,
            r.frontmatter.media matches Some(m) && m@ == info.media@,
            r.j.root_seq() == self.j.root_seq(),
    {
        let slug = match info.slug {
            Some(s) => s,
            None => make_slug(info.title.as_str()),
        };
        let relative_path = book_rel_path(slug.as_str());
        let frontmatter = Frontmatter {
            title: info.title,
            authors: info.authors,
            isbn: info.isbn,
            media: Some(info.media),
        };
        BookEntry { j: self.j.dup(), slug, relative_path, frontmatter, mtime: 0 }
    }
}

/// Frame a catalog document: the YAML frontmatter between `---` marker
/// lines, followed by a `# <title>` heading.  The YAML text itself (ending
/// in its own newline) is produced outside and passed in.
pub fn render_book_doc(yaml: &str, title: &str) -> (r: String)
    ensures
        r@ == "---\n"@ + yaml@ + "---\n# "@ + title@ + "\n"@,
{
    let mut s = String::new();
    s.append("---\n");
    s.append(yaml);
    s.append("---\n# ");
    s.append(title);
    s.append("\n");
    s
}

} // verus!
