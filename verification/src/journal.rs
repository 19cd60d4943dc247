//! The journal repository and its weekly log files.
//!
//! A `Journal` knows where the repository lives.  A `JournalFile` is the
//! weekly file for a reference date: its path is a pure function of the
//! Monday starting that date's week, and `prepare_today` computes the exact
//! bytes that idempotent header maintenance appends.

use vstd::prelude::*;
use vstd::string::StrSliceExecFns;
use vstd::string::StringExecFns;

use chrono::Datelike;

use crate::books::Books;
use crate::date::{days_in_month, same_week, Date};
use crate::errs::Error;
use crate::git::{CommitFlow, GitCmd};
use crate::headers::{appendix_spec, count_hline, has_hline, header_ok, is_space, prepare_appendix, trim_end_s};
use crate::toplevel::{JournalEntity, JournalTopLevel};

verus! {

/// The character for a decimal digit.
pub open spec fn digit_ch(n: int) -> char {
    if n == 0 {
        '0'
    } else if n == 1 {
        '1'
    } else if n == 2 {
        '2'
    } else if n == 3 {
        '3'
    } else if n == 4 {
        '4'
    } else if n == 5 {
        '5'
    } else if n == 6 {
        '6'
    } else if n == 7 {
        '7'
    } else if n == 8 {
        '8'
    } else {
        '9'
    }
}

/// A year as four digits.
pub open spec fn year4_seq(y: int) -> Seq<char> {
    seq![digit_ch(y / 1000), digit_ch(y / 100 % 10), digit_ch(y / 10 % 10), digit_ch(y % 10)]
}

/// A month or day as two digits.
pub open spec fn two_seq(n: int) -> Seq<char> {
    seq![digit_ch(n / 10), digit_ch(n % 10)]
}

/// A date in `YYYY-MM-DD` form.
pub open spec fn date_seq(d: Date) -> Seq<char> {
    year4_seq(d.year as int) + seq!['-'] + two_seq(d.month as int) + seq!['-'] + two_seq(
        d.day as int,
    )
}

/// The weekly file's path relative to the repository root, `YYYY/MM-DD.md`,
/// built from the Monday that starts the week.
pub open spec fn rel_path_seq(week_start: Date) -> Seq<char> {
    year4_seq(week_start.year as int) + seq!['/'] + two_seq(week_start.month as int) + seq!['-']
        + two_seq(week_start.day as int) + seq!['.', 'm', 'd']
}

/// The week header line for a week starting on `week_start`.
pub open spec fn week_header_seq(week_start: Date) -> Seq<char> {
    "# Week starting "@ + date_seq(week_start)
}

/// The day header line for a reference date.
pub open spec fn day_header_seq(d: Date) -> Seq<char> {
    "## "@ + date_seq(d)
}

fn digit(n: u16) -> (c: char)
    ensures
        c == digit_ch(n as int),
{
    if n == 0 {
        '0'
    } else if n == 1 {
        '1'
    } else if n == 2 {
        '2'
    } else if n == 3 {
        '3'
    } else if n == 4 {
        '4'
    } else if n == 5 {
        '5'
    } else if n == 6 {
        '6'
    } else if n == 7 {
        '7'
    } else if n == 8 {
        '8'
    } else {
        '9'
    }
}

/// Append `YYYY-MM-DD` for `d` to `v`.
fn push_date(v: &mut Vec<char>, d: &Date)
    requires
        d.wf(),
    ensures
        final(v)@ == old(v)@ + date_seq(*d),
{
    v.push(digit(d.year / 1000));
    v.push(digit(d.year / 100 % 10));
    v.push(digit(d.year / 10 % 10));
    v.push(digit(d.year % 10));
    v.push('-');
    v.push(digit(d.month as u16 / 10));
    v.push(digit(d.month as u16 % 10));
    v.push('-');
    v.push(digit(d.day as u16 / 10));
    v.push(digit(d.day as u16 % 10));
    proof {
        assert(final(v)@ =~= old(v)@ + date_seq(*d));
    }
}

/// Relies on std's `String::push`: it appends exactly the one character.
#[verifier::external_body]
fn push_char(s: &mut String, c: char)
    ensures
        final(s)@ == old(s)@.push(c),
{
    s.push(c);
}

/// Turn a character vector into the string of exactly those characters.
pub(crate) fn chars_to_string(v: &Vec<char>) -> (r: String)
    ensures
        r@ == v@,
{
    let mut r = String::new();
    let mut k: usize = 0;
    while k < v.len()
        invariant
            k <= v.len(),
            r@ == v@.take(k as int),
        decreases v.len() - k,
    {
        push_char(&mut r, v[k]);
        proof {
            assert(v@.take(k + 1) =~= v@.take(k as int).push(v@[k as int]));
        }
        k = k + 1;
    }
    proof {
        assert(v@.take(v.len() as int) =~= v@);
    }
    r
}

/// Relies on chrono's `Local::now` and `NaiveDate` (`date_naive`, `year`,
/// `month`, `day`): the current local date is a valid calendar date, so its
/// month is 1 to 12 and its day fits the month.  Nothing else can be
/// promised of a clock reading.
#[verifier::external_body]
fn today_local() -> (r: (i32, u8, u8))
    ensures
        1 <= r.1 <= 12,
        1 <= r.2 <= days_in_month(r.0 as int, r.1 as int),
{
    let d = chrono::Local::now().date_naive();
    (d.year(), d.month() as u8, d.day() as u8)
}

/// The journal repository: a git working tree at a fixed, deterministic
/// location.
pub struct Journal {
    pub repo_path: String,
}

impl Clone for Journal {
    fn clone(&self) -> (r: Self)
        ensures
            r.repo_path@ == self.repo_path@,
    {
        Journal { repo_path: self.repo_path.clone() }
    }
}

impl Journal {
    /// The repository root: the platform's local-data directory plus
    /// `journaltime/journal`, falling back to `<home>/.data` when the
    /// platform directory is unavailable.  With neither available the
    /// location cannot be resolved, which is fatal.
    pub fn path(data_local_dir: Option<String>, home: Option<String>) -> (r: Result<String, Error>)
        ensures
            data_local_dir matches Some(d) ==> r matches Ok(p) && p@ == d@
                + "/journaltime/journal"@,
            home matches Some(h) ==> (data_local_dir is None ==> (r matches Ok(p) && p@ == h@
                + "/.data/journaltime/journal"@)),
            data_local_dir is None && home is None ==> r == Result::<String, Error>::Err(
                Error::Configuration,
            ),
    {
        match data_local_dir {
            Some(d) => {
                let mut p = d;
                p.append("/journaltime/journal");
                Ok(p)
            },
            None => match home {
                Some(h) => {
                    let mut p = h;
                    p.append("/.data/journaltime/journal");
                    Ok(p)
                },
                None => Err(Error::Configuration),
            },
        }
    }

    /// A file under the journal's data directory (beside the repository),
    /// used for diagnostic logs.
    pub fn log_file(data_local_dir: Option<String>, home: Option<String>, name: &str) -> (r: Result<
        String,
        Error,
    >)
        ensures
            data_local_dir matches Some(d) ==> r matches Ok(p) && p@ == d@ + "/journaltime/"@
                + name@,
            home matches Some(h) ==> (data_local_dir is None ==> (r matches Ok(p) && p@ == h@
                + "/.data/journaltime/"@ + name@)),
            data_local_dir is None && home is None ==> r == Result::<String, Error>::Err(
                Error::Configuration,
            ),
    {
        match data_local_dir {
            Some(d) => {
                let mut p = d;
                p.append("/journaltime/");
                p.append(name);
                Ok(p)
            },
            None => match home {
                Some(h) => {
                    let mut p = h;
                    p.append("/.data/journaltime/");
                    p.append(name);
                    Ok(p)
                },
                None => Err(Error::Configuration),
            },
        }
    }

    /// Resolve the repository location.  Initializing the repository on
    /// disk is the caller's job, guided by `ensure_repo_cmd`.
    pub fn new(data_local_dir: Option<String>, home: Option<String>) -> (r: Result<Journal, Error>)
        ensures
            data_local_dir matches Some(d) ==> r matches Ok(j) && j.repo_path@ == d@
                + "/journaltime/journal"@,
            home matches Some(h) ==> (data_local_dir is None ==> (r matches Ok(j) && j.repo_path@
                == h@ + "/.data/journaltime/journal"@)),
            data_local_dir is None && home is None ==> r == Result::<Journal, Error>::Err(
                Error::Configuration,
            ),
    {
        match Self::path(data_local_dir, home) {
            Ok(p) => Ok(Journal { repo_path: p }),
            Err(e) => Err(e),
        }
    }

    /// The repository is initialized exactly when `.git/HEAD` exists under
    /// its root; when it does not, the one command to run is `git init`
    /// with the root path.  Repeated calls on an initialized repository do
    /// nothing.
    pub fn ensure_repo_cmd(&self, head_exists: bool) -> (r: Option<GitCmd>)
        ensures
            head_exists ==> r is None,
            !head_exists ==> (r matches Some(c) && (c matches GitCmd::Init { path } && path@
                == self.repo_path@)),
    {
        if head_exists {
            None
        } else {
            Some(GitCmd::Init { path: self.repo_path.clone() })
        }
    }

    /// The weekly file for a given reference date.
    pub fn week_file(&self, today: Date) -> (f: JournalFile<Journal>)
        requires
            today.wf(),
        ensures
            f.wf(),
            f.today == today,
            f.repo_path@ == self.repo_path@,
            f.j.repo_path@ == self.repo_path@,
    {
        let week_start = today.start_of_week();
        JournalFile { repo_path: self.repo_path.clone(), today, week_start, j: self.clone() }
    }

    /// The weekly file for one clock reading (a valid calendar date with a
    /// possibly out-of-range year).  A year outside the supported range 1
    /// to 9999 is a configuration error; any other reading yields exactly
    /// the weekly file for that date.
    pub fn week_for_reading(&self, y: i32, m: u8, d: u8) -> (r: Result<JournalFile<Journal>, Error>)
        requires
            1 <= m <= 12,
            1 <= d as int <= days_in_month(y as int, m as int),
        ensures
            1 <= y <= 9999 ==> (r matches Ok(f) && f.wf() && f.today == (Date {
                year: y as u16,
                month: m,
                day: d,
            }) && f.repo_path@ == self.repo_path@ && f.j.repo_path@ == self.repo_path@),
            !(1 <= y <= 9999) ==> r == Result::<JournalFile<Journal>, Error>::Err(
                Error::Configuration,
            ),
    {
        if y < 1 || y > 9999 {
            Err(Error::Configuration)
        } else {
            let today = Date { year: y as u16, month: m, day: d };
            Ok(self.week_file(today))
        }
    }

    /// The weekly file for the current local date.  Fails only when the
    /// clock reports a year outside the supported range 1 to 9999.
    pub fn current_week(&self) -> (r: Result<JournalFile<Journal>, Error>)
        ensures
            r matches Ok(f) ==> f.wf() && f.repo_path@ == self.repo_path@ && f.j.repo_path@
                == self.repo_path@,
            r matches Err(e) ==> e == Error::Configuration,
    {
        let (y, m, d) = today_local();
        self.week_for_reading(y, m, d)
    }

    /// The book catalog stored beside the weekly logs.
    pub fn books(&self) -> (b: Books<Journal>)
        ensures
            b.j.repo_path@ == self.repo_path@,
            b.entries@.len() == 0,
    {
        Books::new(self.clone())
    }
}

impl JournalTopLevel for Journal {
    open spec fn root_seq(&self) -> Seq<char> {
        self.repo_path@
    }

    fn path(&self) -> (r: String)
        ensures
            r@ == self.root_seq(),
    {
        self.repo_path.clone()
    }

    fn dup(&self) -> (r: Self)
        ensures
            r.root_seq() == self.root_seq(),
    {
        self.clone()
    }

    fn commit_file(&self, relative_path: &str) -> (r: (CommitFlow, GitCmd))
        ensures
            r.0 == CommitFlow::Adding,
            r.1 matches GitCmd::Add { path } && path@ == relative_path@,
    {
        CommitFlow::start(relative_path)
    }
}

/// The weekly log file for one reference date.
pub struct JournalFile<J> {
    pub repo_path: String,
    pub today: Date,
    pub week_start: Date,
    pub j: J,
}

impl<J> JournalFile<J> {
    /// The cached week start is exactly the Monday of `today`'s week.
    pub open spec fn wf(&self) -> bool {
        &&& self.today.wf()
        &&& self.week_start.wf()
        &&& self.week_start.day_number() == self.today.day_number() - self.today.weekday_offset()
    }
}

impl<J: JournalTopLevel> JournalFile<J> {
    /// The Monday on or before the reference date.
    pub fn start_of_week(&self) -> (r: Date)
        requires
            self.wf(),
        ensures
            r == self.week_start,
            r.wf(),
            r.day_number() == self.today.day_number() - self.today.weekday_offset(),
    {
        self.week_start
    }

    /// The week header line, `# Week starting YYYY-MM-DD`.
    pub fn week_header(&self) -> (r: Vec<char>)
        requires
            self.wf(),
        ensures
            r@ == week_header_seq(self.week_start),
    {
        let mut v: Vec<char> = Vec::new();
        v.push('#');
        v.push(' ');
        v.push('W');
        v.push('e');
        v.push('e');
        v.push('k');
        v.push(' ');
        v.push('s');
        v.push('t');
        v.push('a');
        v.push('r');
        v.push('t');
        v.push('i');
        v.push('n');
        v.push('g');
        v.push(' ');
        proof {
            reveal_strlit("# Week starting ");
            assert(v@ =~= "# Week starting "@);
        }
        push_date(&mut v, &self.week_start);
        v
    }

    /// The day header line, `## YYYY-MM-DD`.
    pub fn day_header(&self) -> (r: Vec<char>)
        requires
            self.wf(),
        ensures
            r@ == day_header_seq(self.today),
    {
        let mut v: Vec<char> = Vec::new();
        v.push('#');
        v.push('#');
        v.push(' ');
        proof {
            reveal_strlit("## ");
            assert(v@ =~= "## "@);
        }
        push_date(&mut v, &self.today);
        v
    }

    /// What header maintenance appends to a file that currently holds
    /// `existing`: the missing week and day headers, and at most one
    /// separating blank line.  Appending exactly this (and nothing else)
    /// is the whole write; when both headers are present it is empty.
    pub fn prepare_today(&self, existing: &str) -> (r: String)
        requires
            self.wf(),
        ensures
            r@ == appendix_spec(
                existing@,
                week_header_seq(self.week_start),
                day_header_seq(self.today),
            ),
    {
        let wh = self.week_header();
        let dh = self.day_header();
        let appendix = prepare_appendix(existing, &wh, &dh);
        chars_to_string(&appendix)
    }

    /// Begin the commit-and-push protocol for this weekly file.
    pub fn commit(&self) -> (r: (CommitFlow, GitCmd))
        requires
            self.wf(),
        ensures
            r.0 == CommitFlow::Adding,
            r.1 matches GitCmd::Add { path } && path@ == rel_path_seq(self.week_start),
    {
        let rel = self.relative_path();
        self.j.commit_file(rel.as_str())
    }
}

impl<J: JournalTopLevel> JournalEntity for JournalFile<J> {
    open spec fn root_seq(&self) -> Seq<char> {
        self.repo_path@
    }

    open spec fn rel_seq(&self) -> Seq<char> {
        rel_path_seq(self.week_start)
    }

    fn path(&self) -> (r: String)
        ensures
            r@ == self.root_seq() + seq!['/'] + self.rel_seq(),
    {
        let mut p = self.repo_path.clone();
        p.append("/");
        let rel = self.relative_path();
        p.append(rel.as_str());
        proof {
            reveal_strlit("/");
            assert(p@ =~= self.root_seq() + seq!['/'] + self.rel_seq());
        }
        p
    }

    fn journal_path(&self) -> (r: String)
        ensures
            r@ == self.root_seq(),
    {
        self.repo_path.clone()
    }

    fn relative_path(&self) -> (r: String)
        ensures
            r@ == self.rel_seq(),
    {
        let ws = &self.week_start;
        let mut v: Vec<char> = Vec::new();
        v.push(digit(ws.year / 1000));
        v.push(digit(ws.year / 100 % 10));
        v.push(digit(ws.year / 10 % 10));
        v.push(digit(ws.year % 10));
        v.push('/');
        v.push(digit(ws.month as u16 / 10));
        v.push(digit(ws.month as u16 % 10));
        v.push('-');
        v.push(digit(ws.day as u16 / 10));
        v.push(digit(ws.day as u16 % 10));
        v.push('.');
        v.push('m');
        v.push('d');
        proof {
            assert(v@ =~= rel_path_seq(self.week_start));
        }
        chars_to_string(&v)
    }
}

/// Law: week-path determinism.  Any two reference dates of one ISO week
/// (Monday through Sunday) resolve to the same week start and so to the
/// same relative path.
pub proof fn lemma_week_path_determinism(a: JournalFile<Journal>, b: JournalFile<Journal>)
    requires
        a.wf(),
        b.wf(),
        same_week(a.today, b.today),
    ensures
        a.week_start == b.week_start,
        a.rel_seq() == b.rel_seq(),
{
    crate::date::lemma_same_week_same_start(a.today, b.today, a.week_start, b.week_start);
}


/// Every character of `YYYY-MM-DD` is a digit or a dash; in particular the
/// text is newline-free and ends in a digit.
proof fn lemma_date_seq_chars(d: Date)
    ensures
        date_seq(d).len() == 10,
        forall|i: int|
            0 <= i < 10 ==> date_seq(d)[i] != '\n' && !is_space(#[trigger] date_seq(d)[i]),
{
    let t = date_seq(d);
    assert forall|i: int| 0 <= i < 10 implies t[i] != '\n' && !is_space(#[trigger] t[i]) by {
        if i < 4 {
            assert(t[i] == year4_seq(d.year as int)[i]);
        } else if i == 4 {
            assert(t[i] == '-');
        } else if i < 7 {
            assert(t[i] == two_seq(d.month as int)[i - 5]);
        } else if i == 7 {
            assert(t[i] == '-');
        } else {
            assert(t[i] == two_seq(d.day as int)[i - 8]);
        }
    }
}

/// The journal's week and day header lines are well-formed header lines,
/// and never equal to one another.
pub proof fn lemma_headers_ok(ws: Date, d: Date)
    ensures
        header_ok(week_header_seq(ws)),
        header_ok(day_header_seq(d)),
        week_header_seq(ws) != day_header_seq(d),
{
    reveal_strlit("# Week starting ");
    reveal_strlit("## ");
    lemma_date_seq_chars(ws);
    lemma_date_seq_chars(d);
    let wh = week_header_seq(ws);
    let dh = day_header_seq(d);
    assert(wh.len() == 26);
    assert(dh.len() == 13);
    assert forall|i: int| 0 <= i < wh.len() implies #[trigger] wh[i] != '\n' by {
        if i < 16 {
            assert(wh[i] == "# Week starting "@[i]);
        } else {
            assert(wh[i] == date_seq(ws)[i - 16]);
        }
    }
    assert forall|i: int| 0 <= i < dh.len() implies #[trigger] dh[i] != '\n' by {
        if i < 3 {
            assert(dh[i] == "## "@[i]);
        } else {
            assert(dh[i] == date_seq(d)[i - 3]);
        }
    }
    assert(wh.last() == date_seq(ws)[9]);
    assert(!is_space(wh.last()));
    assert(trim_end_s(wh) == wh);
    assert(dh.last() == date_seq(d)[9]);
    assert(!is_space(dh.last()));
    assert(trim_end_s(dh) == dh);
}

/// Law: header maintenance is idempotent.  For any file content that is
/// empty or newline-terminated (every file this library writes is), the
/// appendix computed after one round of maintenance is empty, so a second
/// `prepare_today` leaves the file byte-identical.
pub proof fn lemma_prepare_today_idempotent<J>(f: JournalFile<J>, s: Seq<char>)
    requires
        f.wf(),
        s.len() == 0 || s.last() == '\n',
    ensures
        appendix_spec(
            s + appendix_spec(s, week_header_seq(f.week_start), day_header_seq(f.today)),
            week_header_seq(f.week_start),
            day_header_seq(f.today),
        ).len() == 0,
{
    lemma_headers_ok(f.week_start, f.today);
    crate::headers::lemma_prepare_idempotent(
        s,
        week_header_seq(f.week_start),
        day_header_seq(f.today),
    );
}

/// Law: header exactness.  Maintenance adds each missing header exactly
/// once and never duplicates one that is present; a header absent before
/// stands exactly once afterwards.
pub proof fn lemma_prepare_today_exact<J>(f: JournalFile<J>, s: Seq<char>)
    requires
        f.wf(),
        s.len() == 0 || s.last() == '\n',
    ensures
        ({
            let wh = week_header_seq(f.week_start);
            let dh = day_header_seq(f.today);
            let after = s + appendix_spec(s, wh, dh);
            &&& count_hline(after, wh) == count_hline(s, wh) + if has_hline(s, wh) {
                0int
            } else {
                1int
            }
            &&& count_hline(after, dh) == count_hline(s, dh) + if has_hline(s, dh) {
                0int
            } else {
                1int
            }
            &&& !has_hline(s, wh) ==> count_hline(after, wh) == 1
            &&& !has_hline(s, dh) ==> count_hline(after, dh) == 1
        }),
{
    lemma_headers_ok(f.week_start, f.today);
    crate::headers::lemma_header_exactness(
        s,
        week_header_seq(f.week_start),
        day_header_seq(f.today),
    );
}


/// Distinct digits print as distinct characters.
proof fn lemma_digit_ch_injective(a: int, b: int)
    requires
        0 <= a <= 9,
        0 <= b <= 9,
        digit_ch(a) == digit_ch(b),
    ensures
        a == b,
{
}

/// A number up to 9999 is recovered from its four digits.
proof fn lemma_four_digits(y: int)
    requires
        0 <= y <= 9999,
    ensures
        y == 1000 * (y / 1000) + 100 * (y / 100 % 10) + 10 * (y / 10 % 10) + y % 10,
        0 <= y / 1000 <= 9,
        0 <= y / 100 % 10 <= 9,
        0 <= y / 10 % 10 <= 9,
        0 <= y % 10 <= 9,
    {
        assert(y == 1000 * (y / 1000) + 100 * (y / 100 % 10) + 10 * (y / 10 % 10) + y % 10)
            by (nonlinear_arith)
            requires 0 <= y <= 9999;
        assert(0 <= y / 1000 <= 9) by (nonlinear_arith)
            requires 0 <= y <= 9999;
    }

/// `YYYY-MM-DD` texts of distinct dates are distinct.
pub proof fn lemma_date_seq_injective(a: Date, b: Date)
    requires
        a.wf(),
        b.wf(),
        date_seq(a) == date_seq(b),
    ensures
        a == b,
{
    let ta = date_seq(a);
    let tb = date_seq(b);
    lemma_date_seq_chars(a);
    lemma_date_seq_chars(b);
    let ya = a.year as int;
    let yb = b.year as int;
    lemma_four_digits(ya);
    lemma_four_digits(yb);
    assert(ta[0] == digit_ch(ya / 1000) && tb[0] == digit_ch(yb / 1000));
    assert(ta[1] == digit_ch(ya / 100 % 10) && tb[1] == digit_ch(yb / 100 % 10));
    assert(ta[2] == digit_ch(ya / 10 % 10) && tb[2] == digit_ch(yb / 10 % 10));
    assert(ta[3] == digit_ch(ya % 10) && tb[3] == digit_ch(yb % 10));
    lemma_digit_ch_injective(ya / 1000, yb / 1000);
    lemma_digit_ch_injective(ya / 100 % 10, yb / 100 % 10);
    lemma_digit_ch_injective(ya / 10 % 10, yb / 10 % 10);
    lemma_digit_ch_injective(ya % 10, yb % 10);
    let ma = a.month as int;
    let mb = b.month as int;
    assert(ta[5] == digit_ch(ma / 10) && tb[5] == digit_ch(mb / 10));
    assert(ta[6] == digit_ch(ma % 10) && tb[6] == digit_ch(mb % 10));
    lemma_digit_ch_injective(ma / 10, mb / 10);
    lemma_digit_ch_injective(ma % 10, mb % 10);
    let da = a.day as int;
    let db = b.day as int;
    assert(ta[8] == digit_ch(da / 10) && tb[8] == digit_ch(db / 10));
    assert(ta[9] == digit_ch(da % 10) && tb[9] == digit_ch(db % 10));
    lemma_digit_ch_injective(da / 10, db / 10);
    lemma_digit_ch_injective(da % 10, db % 10);
}

/// Header lines of distinct dates are distinct, week against week and day
/// against day; a week header never equals a day header at all.
pub proof fn lemma_headers_distinct(a: Date, b: Date)
    requires
        a.wf(),
        b.wf(),
        a != b,
    ensures
        week_header_seq(a) != week_header_seq(b),
        day_header_seq(a) != day_header_seq(b),
{
    reveal_strlit("# Week starting ");
    reveal_strlit("## ");
    lemma_date_seq_chars(a);
    lemma_date_seq_chars(b);
    if week_header_seq(a) == week_header_seq(b) {
        assert forall|i: int| 0 <= i < 10 implies #[trigger] date_seq(a)[i] == date_seq(b)[i] by {
            assert(week_header_seq(a)[16 + i] == date_seq(a)[i]);
            assert(week_header_seq(b)[16 + i] == date_seq(b)[i]);
        }
        assert(date_seq(a) =~= date_seq(b));
        lemma_date_seq_injective(a, b);
    }
    if day_header_seq(a) == day_header_seq(b) {
        assert forall|i: int| 0 <= i < 10 implies #[trigger] date_seq(a)[i] == date_seq(b)[i] by {
            assert(day_header_seq(a)[3 + i] == date_seq(a)[i]);
            assert(day_header_seq(b)[3 + i] == date_seq(b)[i]);
        }
        assert(date_seq(a) =~= date_seq(b));
        lemma_date_seq_injective(a, b);
    }
}

/// Law: cross-week non-interference.  Preparing a file for one week only
/// appends, and the headers of any other week or day stand exactly as
/// often afterwards as before.
pub proof fn lemma_prepare_today_cross_week<J>(
    f: JournalFile<J>,
    s: Seq<char>,
    old_week: Date,
    old_day: Date,
)
    requires
        f.wf(),
        s.len() == 0 || s.last() == '\n',
        old_week.wf(),
        old_day.wf(),
        old_week != f.week_start,
        old_day != f.today,
    ensures
        ({
            let wh = week_header_seq(f.week_start);
            let dh = day_header_seq(f.today);
            let after = s + appendix_spec(s, wh, dh);
            &&& after.take(s.len() as int) == s
            &&& count_hline(after, week_header_seq(old_week)) == count_hline(
                s,
                week_header_seq(old_week),
            )
            &&& count_hline(after, day_header_seq(old_day)) == count_hline(
                s,
                day_header_seq(old_day),
            )
        }),
{
    reveal_strlit("# Week starting ");
    reveal_strlit("## ");
    let wh = week_header_seq(f.week_start);
    let dh = day_header_seq(f.today);
    lemma_headers_ok(f.week_start, f.today);
    lemma_headers_ok(old_week, old_day);
    lemma_headers_distinct(old_week, f.week_start);
    lemma_headers_distinct(old_day, f.today);
    assert(week_header_seq(old_week).len() != dh.len());
    assert(day_header_seq(old_day).len() != wh.len());
    crate::headers::lemma_cross_week_preserved(s, wh, dh, week_header_seq(old_week));
    crate::headers::lemma_cross_week_preserved(s, wh, dh, day_header_seq(old_day));
}

} // verus!
