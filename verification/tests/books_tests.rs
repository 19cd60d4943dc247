use journaltime::books::{make_slug, render_book_doc, AddBookArgs, Frontmatter};
use journaltime::cli::BookMedia;
use journaltime::git::GitCmd;
use journaltime::journal::Journal;
use journaltime::toplevel::JournalEntity;

fn journal() -> Journal {
    Journal::new(Some(String::from("/data")), None).ok().unwrap()
}

fn meta(title: &str) -> Frontmatter {
    Frontmatter {
        title: String::from(title),
        authors: vec![String::from("Someone")],
        isbn: None,
        media: Some(String::from("kindle")),
    }
}

#[test]
fn slugs_lowercase_letters_and_dash_the_rest() {
    assert_eq!(make_slug("Some Title"), "some-title");
    assert_eq!(make_slug("C++ in 21 Days!"), "c---in----days-");
    assert_eq!(make_slug(""), "");
    assert_eq!(make_slug("already-lower"), "already-lower");
}

#[test]
fn added_book_gets_slug_and_path() {
    let j = journal();
    let books = j.books();
    let entry = books.add(AddBookArgs {
        title: String::from("The Book of Tests"),
        authors: vec![String::from("A. Writer")],
        isbn: Some(String::from("978-0000000000")),
        media: String::from("hard copy"),
        slug: None,
    });
    assert_eq!(entry.slug, "the-book-of-tests");
    assert_eq!(entry.relative_path, "books/the-book-of-tests.md");
    assert_eq!(entry.frontmatter.title, "The Book of Tests");
    assert_eq!(entry.frontmatter.media.as_deref(), Some("hard copy"));
}

#[test]
fn explicit_slug_wins() {
    let books = journal().books();
    let entry = books.add(AddBookArgs {
        title: String::from("Whatever Title"),
        authors: Vec::new(),
        isbn: None,
        media: String::from("kindle"),
        slug: Some(String::from("short")),
    });
    assert_eq!(entry.slug, "short");
    assert_eq!(entry.relative_path, "books/short.md");
}

#[test]
fn get_finds_by_slug() {
    let mut books = journal().books();
    books.insert_loaded(String::from("first.md"), meta("First"), 10);
    books.insert_loaded(String::from("second.md"), meta("Second"), 20);
    assert!(books.get("missing").is_none());
    let e = books.get("second").unwrap();
    assert_eq!(e.frontmatter.title, "Second");
    assert_eq!(e.slug().unwrap(), "second");
}

#[test]
fn most_recent_notes_picks_latest_mtime() {
    let mut books = journal().books();
    assert!(books.most_recent_notes().is_none());
    books.insert_loaded(String::from("a.md"), meta("A"), 100);
    books.insert_loaded(String::from("b.md"), meta("B"), 300);
    books.insert_loaded(String::from("c.md"), meta("C"), 200);
    let e = books.most_recent_notes().unwrap();
    assert_eq!(e.slug, "b");
}

#[test]
fn most_recent_notes_breaks_ties_towards_the_last() {
    let mut books = journal().books();
    books.insert_loaded(String::from("a.md"), meta("A"), 100);
    books.insert_loaded(String::from("b.md"), meta("B"), 100);
    let e = books.most_recent_notes().unwrap();
    assert_eq!(e.slug, "b");
}

#[test]
fn iter_returns_entries_in_load_order() {
    let mut books = journal().books();
    books.insert_loaded(String::from("a.md"), meta("A"), 1);
    books.insert_loaded(String::from("b.md"), meta("B"), 2);
    let slugs: Vec<&str> = books.iter().iter().map(|e| e.slug.as_str()).collect();
    assert_eq!(slugs, ["a", "b"]);
}

#[test]
fn book_entry_commits_its_own_file() {
    let mut books = journal().books();
    books.insert_loaded(String::from("a.md"), meta("A"), 1);
    let e = books.get("a").unwrap();
    let (_, cmd) = e.commit();
    match cmd {
        GitCmd::Add { path } => assert_eq!(path, "books/a.md"),
        _ => panic!("expected an add"),
    }
    assert_eq!(e.path(), "/data/journaltime/journal/books/a.md");
    assert_eq!(e.journal_path(), "/data/journaltime/journal");
    assert_eq!(e.relative_path(), "books/a.md");
}

#[test]
fn book_documents_are_framed_frontmatter() {
    let doc = render_book_doc("title: A\nauthors:\n- B\n", "A");
    assert_eq!(doc, "---\ntitle: A\nauthors:\n- B\n---\n# A\n");
}

#[test]
fn media_tokens_match_the_catalog_format() {
    assert_eq!(BookMedia::Kindle.as_token(), "kindle");
    assert_eq!(BookMedia::HardCopy.as_token(), "hard copy");
}

#[test]
fn entries_describe_themselves() {
    let mut books = journal().books();
    let mut m = meta("Writing Tests");
    m.authors = vec![String::from("A. One"), String::from("B. Two")];
    books.insert_loaded(String::from("writing-tests.md"), m, 1);
    let e = books.get("writing-tests").unwrap();
    assert_eq!(e.describe(), "[writing-tests] Writing Tests  by A. One  by B. Two");
}

#[test]
fn loaded_entries_keep_their_file_name() {
    let mut books = journal().books();
    books.insert_loaded(String::from("notes.txt"), meta("Plain Notes"), 5);
    books.insert_loaded(String::from(".hidden"), meta("Hidden"), 6);
    let e = books.get("notes").unwrap();
    assert_eq!(e.relative_path(), "books/notes.txt");
    let h = books.get(".hidden").unwrap();
    assert_eq!(h.relative_path(), "books/.hidden");
}
