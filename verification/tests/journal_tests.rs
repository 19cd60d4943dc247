use journaltime::date::Date;
use journaltime::errs::Error;
use journaltime::journal::Journal;
use journaltime::toplevel::JournalEntity;

fn journal() -> Journal {
    match Journal::new(Some(String::from("/data")), None) {
        Ok(j) => j,
        Err(_) => panic!("journal location should resolve"),
    }
}

fn date(year: u16, month: u8, day: u8) -> Date {
    Date { year, month, day }
}

#[test]
fn path_resolution_prefers_data_dir() {
    let p = Journal::path(Some(String::from("/data")), Some(String::from("/home/u"))).unwrap();
    assert_eq!(p, "/data/journaltime/journal");
}

#[test]
fn path_resolution_falls_back_to_home() {
    let p = Journal::path(None, Some(String::from("/home/u"))).unwrap();
    assert_eq!(p, "/home/u/.data/journaltime/journal");
}

#[test]
fn path_resolution_fails_with_nothing() {
    match Journal::path(None, None) {
        Err(Error::Configuration) => (),
        _ => panic!("expected a configuration error"),
    }
}

#[test]
fn log_file_lives_beside_the_repository() {
    let p = Journal::log_file(Some(String::from("/data")), None, "inotify.log").unwrap();
    assert_eq!(p, "/data/journaltime/inotify.log");
    let q = Journal::log_file(None, Some(String::from("/home/u")), "inotify.log").unwrap();
    assert_eq!(q, "/home/u/.data/journaltime/inotify.log");
}

#[test]
fn week_start_of_a_thursday() {
    let d = date(2024, 3, 14);
    let ws = d.start_of_week();
    assert_eq!(ws, date(2024, 3, 11));
}

#[test]
fn week_start_of_a_monday_is_itself() {
    let d = date(2024, 3, 11);
    assert_eq!(d.start_of_week(), d);
}

#[test]
fn week_start_crosses_month_and_year() {
    // 2024-01-01 was a Monday; 2023-12-31 a Sunday.
    assert_eq!(date(2024, 1, 1).start_of_week(), date(2024, 1, 1));
    assert_eq!(date(2023, 12, 31).start_of_week(), date(2023, 12, 25));
    // 2021-01-01 was a Friday: its week starts in the previous year.
    assert_eq!(date(2021, 1, 1).start_of_week(), date(2020, 12, 28));
}

#[test]
fn weekday_offsets_match_known_dates() {
    // 1970-01-01 was a Thursday.
    assert_eq!(date(1970, 1, 1).days_since_monday(), 3);
    // 2024-03-11 was a Monday, 2024-03-17 a Sunday.
    assert_eq!(date(2024, 3, 11).days_since_monday(), 0);
    assert_eq!(date(2024, 3, 17).days_since_monday(), 6);
    // Leap day 2024-02-29 was a Thursday.
    assert_eq!(date(2024, 2, 29).days_since_monday(), 3);
}

#[test]
fn relative_path_is_the_week_start() {
    let f = journal().week_file(date(2024, 3, 14));
    assert_eq!(f.relative_path(), "2024/03-11.md");
}

#[test]
fn relative_path_same_for_whole_week() {
    let j = journal();
    let monday = j.week_file(date(2024, 3, 11)).relative_path();
    for day in 11..=17 {
        let f = j.week_file(date(2024, 3, day));
        assert_eq!(f.relative_path(), monday);
    }
    let next = j.week_file(date(2024, 3, 18));
    assert_ne!(next.relative_path(), monday);
}

#[test]
fn entity_paths_join_the_root() {
    let f = journal().week_file(date(2024, 3, 14));
    assert_eq!(f.journal_path(), "/data/journaltime/journal");
    assert_eq!(f.path(), "/data/journaltime/journal/2024/03-11.md");
}

#[test]
fn header_exactness_on_a_fresh_file() {
    let f = journal().week_file(date(2024, 3, 14));
    let appendix = f.prepare_today("");
    assert_eq!(appendix, "# Week starting 2024-03-11\n\n## 2024-03-14\n");
    let content = appendix;
    let week_lines = content
        .lines()
        .filter(|l| l.trim_end() == "# Week starting 2024-03-11")
        .count();
    let day_lines = content.lines().filter(|l| l.trim_end() == "## 2024-03-14").count();
    assert_eq!(week_lines, 1);
    assert_eq!(day_lines, 1);
}

#[test]
fn maintenance_is_idempotent() {
    let f = journal().week_file(date(2024, 3, 14));
    let first = f.prepare_today("");
    let again = f.prepare_today(&first);
    assert_eq!(again, "");
    let with_text = format!("{first}notes from the day\n");
    assert_eq!(f.prepare_today(&with_text), "");
}

#[test]
fn blank_line_added_before_day_header() {
    let f = journal().week_file(date(2024, 3, 14));
    let existing = "# Week starting 2024-03-11\nwrote some notes\n";
    let appendix = f.prepare_today(existing);
    assert_eq!(appendix, "\n## 2024-03-14\n");
}

#[test]
fn no_blank_line_added_when_file_ends_blank() {
    let f = journal().week_file(date(2024, 3, 14));
    let existing = "# Week starting 2024-03-11\nwrote some notes\n\n";
    let appendix = f.prepare_today(existing);
    assert_eq!(appendix, "## 2024-03-14\n");
}

#[test]
fn day_header_found_even_with_trailing_spaces() {
    let f = journal().week_file(date(2024, 3, 14));
    let existing = "# Week starting 2024-03-11\n\n## 2024-03-14   \nnotes\n";
    assert_eq!(f.prepare_today(existing), "");
}

#[test]
fn cross_week_headers_are_left_alone() {
    let f = journal().week_file(date(2024, 3, 14));
    let old = "# Week starting 2024-03-04\n\n## 2024-03-05\nolder notes\n";
    let appendix = f.prepare_today(old);
    assert_eq!(appendix, "# Week starting 2024-03-11\n\n## 2024-03-14\n");
    let after = format!("{old}{appendix}");
    assert!(after.starts_with(old));
    let old_week = after
        .lines()
        .filter(|l| l.trim_end() == "# Week starting 2024-03-04")
        .count();
    let old_day = after.lines().filter(|l| l.trim_end() == "## 2024-03-05").count();
    assert_eq!(old_week, 1);
    assert_eq!(old_day, 1);
}

#[test]
fn ensure_repo_only_initializes_once() {
    let j = journal();
    assert!(j.ensure_repo_cmd(true).is_none());
    match j.ensure_repo_cmd(false) {
        Some(journaltime::git::GitCmd::Init { path }) => {
            assert_eq!(path, "/data/journaltime/journal")
        },
        _ => panic!("expected git init"),
    }
}

#[test]
fn current_week_resolves_todays_file() {
    // The clock is nondeterministic; the shape of the result is not.
    let f = journal().current_week().unwrap();
    let rel = f.relative_path();
    assert_eq!(rel.len(), "2024/03-11.md".len());
    assert_eq!(&rel[4..5], "/");
    assert!(rel.ends_with(".md"));
    assert_eq!(f.start_of_week().days_since_monday(), 0);
}

#[test]
fn week_for_reading_rejects_unsupported_years() {
    let j = journal();
    let f = j.week_for_reading(2024, 3, 14).unwrap();
    assert_eq!(f.relative_path(), "2024/03-11.md");
    match j.week_for_reading(0, 3, 14) {
        Err(Error::Configuration) => (),
        _ => panic!("expected a configuration error"),
    }
    match j.week_for_reading(10000, 3, 14) {
        Err(Error::Configuration) => (),
        _ => panic!("expected a configuration error"),
    }
}
