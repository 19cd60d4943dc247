//! Idempotent, append-only header maintenance for a weekly log file.
//!
//! A file is modelled as the sequence of its characters.  It is read the way
//! a line-oriented reader sees it: a final fragment without a terminating
//! newline still counts as a line.  A header is *present* when some line,
//! after trimming trailing whitespace, equals the header exactly; headers of
//! other weeks or days are never considered.  The appendix computed here is
//! the only thing ever written, and it is always written at the end of the
//! file.

use vstd::prelude::*;

verus! {

/// Trailing whitespace that trimming removes (a line never contains `\n`).
pub open spec fn is_space(c: char) -> bool {
    c == ' ' || c == '\t' || c == '\r'
}

/// `s` without its trailing whitespace.
pub open spec fn trim_end_s(s: Seq<char>) -> Seq<char>
    decreases s.len(),
{
    if s.len() == 0 {
        s
    } else if is_space(s.last()) {
        trim_end_s(s.drop_last())
    } else {
        s
    }
}

/// The completed lines of `s` (each without its `\n`), and the trailing
/// fragment after the last newline.
pub open spec fn scan_lines(s: Seq<char>) -> (Seq<Seq<char>>, Seq<char>)
    decreases s.len(),
{
    if s.len() == 0 {
        (Seq::<Seq<char>>::empty(), Seq::<char>::empty())
    } else {
        let (ls, cur) = scan_lines(s.drop_last());
        if s.last() == '\n' {
            (ls.push(cur), Seq::<char>::empty())
        } else {
            (ls, cur.push(s.last()))
        }
    }
}

/// The lines of `s` as a reader sees them: a non-empty trailing fragment is
/// a line of its own.
pub open spec fn lines_of(s: Seq<char>) -> Seq<Seq<char>> {
    let (ls, cur) = scan_lines(s);
    if cur.len() > 0 {
        ls.push(cur)
    } else {
        ls
    }
}

/// Some line among `ls` trims to exactly `h`.
pub open spec fn has_in(ls: Seq<Seq<char>>, h: Seq<char>) -> bool {
    exists|i: int| 0 <= i < ls.len() && trim_end_s(ls[i]) == h
}

/// How many lines among `ls` trim to exactly `h`.
pub open spec fn count_in(ls: Seq<Seq<char>>, h: Seq<char>) -> int
    decreases ls.len(),
{
    if ls.len() == 0 {
        0
    } else {
        count_in(ls.drop_last(), h) + if trim_end_s(ls.last()) == h {
            1int
        } else {
            0int
        }
    }
}

/// The header `h` stands on a line of its own somewhere in `s`.
pub open spec fn has_hline(s: Seq<char>, h: Seq<char>) -> bool {
    has_in(lines_of(s), h)
}

/// How many lines of `s` carry the header `h`.
pub open spec fn count_hline(s: Seq<char>, h: Seq<char>) -> int {
    count_in(lines_of(s), h)
}

/// The last line of `s` is blank (empty after trimming).
pub open spec fn ends_blank(s: Seq<char>) -> bool {
    lines_of(s).len() > 0 && trim_end_s(lines_of(s).last()).len() == 0
}

/// What header maintenance appends for a file with content `s`: the week
/// header when it is missing, then the day header when it is missing,
/// preceded by one blank line unless the file already ends with one.  A
/// freshly written week header counts as a non-blank last line.
pub open spec fn appendix_spec(s: Seq<char>, wh: Seq<char>, dh: Seq<char>) -> Seq<char> {
    let week_part = if has_hline(s, wh) {
        Seq::<char>::empty()
    } else {
        wh.push('\n')
    };
    let blank_at_end = if has_hline(s, wh) {
        ends_blank(s)
    } else {
        false
    };
    let day_part = if has_hline(s, dh) {
        Seq::<char>::empty()
    } else {
        (if blank_at_end {
            Seq::<char>::empty()
        } else {
            seq!['\n']
        }) + dh.push('\n')
    };
    week_part + day_part
}

/// A string that can serve as a header line: non-empty, newline-free, and
/// unchanged by trimming.
pub open spec fn header_ok(h: Seq<char>) -> bool {
    &&& h.len() > 0
    &&& trim_end_s(h) == h
    &&& forall|i: int| 0 <= i < h.len() ==> h[i] != '\n'
}

fn is_space_ch(c: char) -> (r: bool)
    ensures
        r == is_space(c),
{
    c == ' ' || c == '\t' || c == '\r'
}

/// The length of `line` once trailing whitespace is trimmed.
fn trim_len(line: &Vec<char>) -> (j: usize)
    ensures
        j <= line.len(),
        trim_end_s(line@) == line@.take(j as int),
{
    let mut j: usize = line.len();
    proof {
        assert(line@.take(line.len() as int) =~= line@);
    }
    while j > 0 && is_space_ch(line[j - 1])
        invariant
            j <= line.len(),
            trim_end_s(line@) == trim_end_s(line@.take(j as int)),
        decreases j,
    {
        proof {
            assert(line@.take(j as int).drop_last() =~= line@.take(j - 1));
        }
        j = j - 1;
    }
    proof {
        if j > 0 {
            assert(line@.take(j as int).last() == line@[j - 1]);
        }
    }
    j
}

/// Whether `line`, trimmed of trailing whitespace, equals `h` exactly.
fn trimmed_eq(line: &Vec<char>, h: &Vec<char>) -> (r: bool)
    ensures
        r == (trim_end_s(line@) == h@),
{
    let j = trim_len(line);
    if j != h.len() {
        proof {
            assert(trim_end_s(line@).len() == j);
        }
        return false;
    }
    let mut k: usize = 0;
    while k < j
        invariant
            k <= j <= line.len(),
            j == h.len(),
            trim_end_s(line@) == line@.take(j as int),
            forall|t: int| 0 <= t < k ==> line@[t] == h@[t],
        decreases j - k,
    {
        if line[k] != h[k] {
            proof {
                assert(trim_end_s(line@)[k as int] == line@[k as int]);
            }
            return false;
        }
        k = k + 1;
    }
    proof {
        assert(line@.take(j as int) =~= h@);
    }
    true
}

/// Whether `line` is blank once trimmed.
fn line_blank(line: &Vec<char>) -> (r: bool)
    ensures
        r == (trim_end_s(line@).len() == 0),
{
    trim_len(line) == 0
}

/// Scan `content` line by line and compute exactly what header maintenance
/// must append: the missing headers, separated from non-blank content by a
/// single blank line.  Appending the result (and nothing else) brings the
/// file to its maintained state.
pub fn prepare_appendix(content: &str, week_header: &Vec<char>, day_header: &Vec<char>) -> (r: Vec<
    char,
>)
    ensures
        r@ == appendix_spec(content@, week_header@, day_header@),
{
    let n = content.unicode_len();
    let mut cur: Vec<char> = Vec::new();
    let mut has_week = false;
    let mut has_day = false;
    let mut blank = false;
    let mut i: usize = 0;
    while i < n
        invariant
            i <= n,
            n == content@.len(),
            cur@ == scan_lines(content@.take(i as int)).1,
            has_week == has_in(scan_lines(content@.take(i as int)).0, week_header@),
            has_day == has_in(scan_lines(content@.take(i as int)).0, day_header@),
            blank == {
                let ls = scan_lines(content@.take(i as int)).0;
                ls.len() > 0 && trim_end_s(ls.last()).len() == 0
            },
        decreases n - i,
    {
        let c = content.get_char(i);
        proof {
            assert(content@.take(i + 1).drop_last() =~= content@.take(i as int));
            assert(content@.take(i + 1).last() == content@[i as int]);
        }
        if c == '\n' {
            proof {
                lemma_has_in_push(
                    scan_lines(content@.take(i as int)).0,
                    cur@,
                    week_header@,
                );
                lemma_has_in_push(scan_lines(content@.take(i as int)).0, cur@, day_header@);
            }
            if trimmed_eq(&cur, week_header) {
                has_week = true;
            }
            if trimmed_eq(&cur, day_header) {
                has_day = true;
            }
            blank = line_blank(&cur);
            cur = Vec::new();
        } else {
            cur.push(c);
        }
        i = i + 1;
    }
    proof {
        assert(content@.take(n as int) =~= content@);
    }
    if cur.len() > 0 {
        proof {
            lemma_has_in_push(scan_lines(content@).0, cur@, week_header@);
            lemma_has_in_push(scan_lines(content@).0, cur@, day_header@);
        }
        if trimmed_eq(&cur, week_header) {
            has_week = true;
        }
        if trimmed_eq(&cur, day_header) {
            has_day = true;
        }
        blank = line_blank(&cur);
    }
    let mut out: Vec<char> = Vec::new();
    if !has_week {
        append_chars(&mut out, week_header);
        out.push('\n');
        blank = false;
    }
    if !has_day {
        if !blank {
            out.push('\n');
        }
        append_chars(&mut out, day_header);
        out.push('\n');
    }
    proof {
        assert(out@ =~= appendix_spec(content@, week_header@, day_header@));
    }
    out
}

/// Append every character of `src` to `dst`.
fn append_chars(dst: &mut Vec<char>, src: &Vec<char>)
    ensures
        final(dst)@ == old(dst)@ + src@,
{
    let mut k: usize = 0;
    while k < src.len()
        invariant
            k <= src.len(),
            dst@ == old(dst)@ + src@.take(k as int),
        decreases src.len() - k,
    {
        dst.push(src[k]);
        proof {
            assert(old(dst)@ + src@.take(k + 1) =~= (old(dst)@ + src@.take(k as int)).push(
                src@[k as int],
            ));
        }
        k = k + 1;
    }
    proof {
        assert(src@.take(src.len() as int) =~= src@);
    }
}

/// Pushing a line onto a line list finds a header exactly when the list
/// already had it or the new line trims to it.
proof fn lemma_has_in_push(ls: Seq<Seq<char>>, line: Seq<char>, h: Seq<char>)
    ensures
        has_in(ls.push(line), h) == (has_in(ls, h) || trim_end_s(line) == h),
{
    if has_in(ls, h) {
        let i = choose|i: int| 0 <= i < ls.len() && trim_end_s(ls[i]) == h;
        assert(ls.push(line)[i] == ls[i]);
    }
    if trim_end_s(line) == h {
        assert(ls.push(line)[ls.len() as int] == line);
    }
    if has_in(ls.push(line), h) {
        let i = choose|i: int| 0 <= i < ls.push(line).len() && trim_end_s(ls.push(line)[i]) == h;
        if i < ls.len() {
            assert(ls.push(line)[i] == ls[i]);
        } else {
            assert(ls.push(line)[i] == line);
        }
    }
}


/// Appending a line to a line list adds one to the count when the line
/// trims to the header.
proof fn lemma_count_push(ls: Seq<Seq<char>>, line: Seq<char>, h: Seq<char>)
    ensures
        count_in(ls.push(line), h) == count_in(ls, h) + if trim_end_s(line) == h {
            1int
        } else {
            0int
        },
{
    assert(ls.push(line).drop_last() =~= ls);
    assert(ls.push(line).last() == line);
}

/// A header is present exactly when it is counted at least once.
proof fn lemma_has_iff_count(ls: Seq<Seq<char>>, h: Seq<char>)
    ensures
        has_in(ls, h) <==> count_in(ls, h) > 0,
        count_in(ls, h) >= 0,
    decreases ls.len(),
{
    if ls.len() > 0 {
        lemma_has_iff_count(ls.drop_last(), h);
        lemma_has_in_push(ls.drop_last(), ls.last(), h);
        lemma_count_push(ls.drop_last(), ls.last(), h);
        assert(ls.drop_last().push(ls.last()) =~= ls);
    }
}

/// Presence of a header, counted: at least one line of `s` carries `h`
/// exactly when the count is positive.
pub proof fn lemma_has_iff_count_hline(s: Seq<char>, h: Seq<char>)
    ensures
        has_hline(s, h) <==> count_hline(s, h) > 0,
        count_hline(s, h) >= 0,
{
    lemma_has_iff_count(lines_of(s), h);
}

/// Splitting at a completed line boundary splits the line scan.
proof fn lemma_scan_concat(a: Seq<char>, b: Seq<char>)
    requires
        scan_lines(a).1.len() == 0,
    ensures
        scan_lines(a + b).0 == scan_lines(a).0 + scan_lines(b).0,
        scan_lines(a + b).1 == scan_lines(b).1,
    decreases b.len(),
{
    if b.len() == 0 {
        assert(a + b =~= a);
        assert(scan_lines(a).1 =~= Seq::<char>::empty());
        assert(scan_lines(a).0 + scan_lines(b).0 =~= scan_lines(a).0);
    } else {
        lemma_scan_concat(a, b.drop_last());
        assert((a + b).drop_last() =~= a + b.drop_last());
        assert((a + b).last() == b.last());
        if b.last() == '\n' {
            assert(scan_lines(a + b).0 =~= scan_lines(a).0 + scan_lines(b).0);
        } else {
            assert(scan_lines(a + b).0 =~= scan_lines(a).0 + scan_lines(b).0);
        }
    }
}

/// Lines of a concatenation, when the first part ends at a line boundary.
proof fn lemma_lines_concat(a: Seq<char>, b: Seq<char>)
    requires
        a.len() == 0 || a.last() == '\n',
    ensures
        lines_of(a + b) == lines_of(a) + lines_of(b),
{
    lemma_scan_concat(a, b);
    if scan_lines(b).1.len() > 0 {
        assert(lines_of(a + b) =~= lines_of(a) + lines_of(b));
    } else {
        assert(lines_of(a + b) =~= lines_of(a) + lines_of(b));
    }
}

/// A header is present in a concatenation exactly when it is present in
/// either part.
proof fn lemma_has_in_concat(x: Seq<Seq<char>>, y: Seq<Seq<char>>, h: Seq<char>)
    ensures
        has_in(x + y, h) == (has_in(x, h) || has_in(y, h)),
{
    if has_in(x, h) {
        let i = choose|i: int| 0 <= i < x.len() && trim_end_s(x[i]) == h;
        assert((x + y)[i] == x[i]);
    }
    if has_in(y, h) {
        let i = choose|i: int| 0 <= i < y.len() && trim_end_s(y[i]) == h;
        assert((x + y)[x.len() + i] == y[i]);
    }
    if has_in(x + y, h) {
        let i = choose|i: int| 0 <= i < (x + y).len() && trim_end_s((x + y)[i]) == h;
        if i < x.len() {
            assert((x + y)[i] == x[i]);
        } else {
            assert((x + y)[i] == y[i - x.len()]);
        }
    }
}

/// Counting lines in a concatenation adds the two counts.
proof fn lemma_count_concat(x: Seq<Seq<char>>, y: Seq<Seq<char>>, h: Seq<char>)
    ensures
        count_in(x + y, h) == count_in(x, h) + count_in(y, h),
    decreases y.len(),
{
    if y.len() == 0 {
        assert(x + y =~= x);
    } else {
        lemma_count_concat(x, y.drop_last(), h);
        assert((x + y).drop_last() =~= x + y.drop_last());
        assert((x + y).last() == y.last());
    }
}

/// A newline-free string scans to a single unfinished line.
proof fn lemma_scan_noline(h: Seq<char>)
    requires
        forall|i: int| 0 <= i < h.len() ==> h[i] != '\n',
    ensures
        scan_lines(h).0.len() == 0,
        scan_lines(h).1 == h,
    decreases h.len(),
{
    if h.len() == 0 {
        assert(scan_lines(h).1 =~= h);
    } else {
        lemma_scan_noline(h.drop_last());
        assert(scan_lines(h).1 =~= h);
    }
}

/// A newline-free string followed by one newline is exactly one line.
proof fn lemma_lines_header_line(h: Seq<char>)
    requires
        forall|i: int| 0 <= i < h.len() ==> h[i] != '\n',
    ensures
        lines_of(h.push('\n')) == seq![h],
{
    lemma_scan_noline(h);
    assert(h.push('\n').drop_last() =~= h);
    assert(scan_lines(h).0 =~= Seq::<Seq<char>>::empty());
    assert(lines_of(h.push('\n')) =~= seq![h]);
}

/// The lines the appendix itself contributes, in every case.
proof fn lemma_appendix_lines(s: Seq<char>, wh: Seq<char>, dh: Seq<char>)
    requires
        header_ok(wh),
        header_ok(dh),
    ensures
        !has_hline(s, wh) && !has_hline(s, dh) ==> lines_of(appendix_spec(s, wh, dh)) == seq![
            wh,
            Seq::<char>::empty(),
            dh,
        ],
        !has_hline(s, wh) && has_hline(s, dh) ==> lines_of(appendix_spec(s, wh, dh)) == seq![wh],
        has_hline(s, wh) && !has_hline(s, dh) && ends_blank(s) ==> lines_of(
            appendix_spec(s, wh, dh),
        ) == seq![dh],
        has_hline(s, wh) && !has_hline(s, dh) && !ends_blank(s) ==> lines_of(
            appendix_spec(s, wh, dh),
        ) == seq![Seq::<char>::empty(), dh],
        has_hline(s, wh) && has_hline(s, dh) ==> appendix_spec(s, wh, dh).len() == 0,
{
    let ap = appendix_spec(s, wh, dh);
    lemma_lines_header_line(wh);
    lemma_lines_header_line(dh);
    lemma_lines_header_line(Seq::<char>::empty());
    assert(Seq::<char>::empty().push('\n') =~= seq!['\n']);
    assert(lines_of(seq!['\n']) == seq![Seq::<char>::empty()]);
    if !has_hline(s, wh) && !has_hline(s, dh) {
        assert(ap =~= wh.push('\n') + (seq!['\n'] + dh.push('\n')));
        lemma_lines_concat(seq!['\n'], dh.push('\n'));
        lemma_lines_concat(wh.push('\n'), seq!['\n'] + dh.push('\n'));
        assert(lines_of(ap) =~= seq![wh, Seq::<char>::empty(), dh]);
    }
    if !has_hline(s, wh) && has_hline(s, dh) {
        assert(ap =~= wh.push('\n'));
        assert(lines_of(ap) =~= seq![wh]);
    }
    if has_hline(s, wh) && !has_hline(s, dh) && ends_blank(s) {
        assert(ap =~= dh.push('\n'));
        assert(lines_of(ap) =~= seq![dh]);
    }
    if has_hline(s, wh) && !has_hline(s, dh) && !ends_blank(s) {
        assert(ap =~= seq!['\n'] + dh.push('\n'));
        lemma_lines_concat(seq!['\n'], dh.push('\n'));
        assert(lines_of(ap) =~= seq![Seq::<char>::empty(), dh]);
    }
}

/// Law: header maintenance is idempotent.  Once the appendix for a
/// newline-terminated (or empty) file has been appended, running the scan
/// again appends nothing, so a second run leaves the file byte-identical.
pub proof fn lemma_prepare_idempotent(s: Seq<char>, wh: Seq<char>, dh: Seq<char>)
    requires
        header_ok(wh),
        header_ok(dh),
        wh != dh,
        s.len() == 0 || s.last() == '\n',
    ensures
        appendix_spec(s + appendix_spec(s, wh, dh), wh, dh).len() == 0,
        (s + appendix_spec(s, wh, dh)) + appendix_spec(s + appendix_spec(s, wh, dh), wh, dh) == s
            + appendix_spec(s, wh, dh),
{
    let ap = appendix_spec(s, wh, dh);
    let after = s + ap;
    if has_hline(s, wh) && has_hline(s, dh) {
        assert(ap.len() == 0);
        assert(after =~= s);
    } else {
        lemma_appendix_lines(s, wh, dh);
        lemma_lines_concat(s, ap);
        lemma_has_in_concat(lines_of(s), lines_of(ap), wh);
        lemma_has_in_concat(lines_of(s), lines_of(ap), dh);
        if !has_hline(s, wh) && !has_hline(s, dh) {
            assert(trim_end_s(lines_of(ap)[0]) == wh);
            assert(trim_end_s(lines_of(ap)[2]) == dh);
        } else if !has_hline(s, wh) {
            assert(trim_end_s(lines_of(ap)[0]) == wh);
        } else if ends_blank(s) {
            assert(trim_end_s(lines_of(ap)[0]) == dh);
        } else {
            assert(trim_end_s(lines_of(ap)[1]) == dh);
        }
        assert(has_hline(after, wh));
        assert(has_hline(after, dh));
    }
    assert(after + appendix_spec(after, wh, dh) =~= after);
}

/// Law: after maintenance each header stands exactly once more than
/// before, and a header that was absent stands exactly once.  For a fresh
/// (empty) file this is header exactness: one week line and one day line.
pub proof fn lemma_header_exactness(s: Seq<char>, wh: Seq<char>, dh: Seq<char>)
    requires
        header_ok(wh),
        header_ok(dh),
        wh != dh,
        s.len() == 0 || s.last() == '\n',
    ensures
        count_hline(s + appendix_spec(s, wh, dh), wh) == count_hline(s, wh) + if has_hline(s, wh) {
            0int
        } else {
            1int
        },
        count_hline(s + appendix_spec(s, wh, dh), dh) == count_hline(s, dh) + if has_hline(s, dh) {
            0int
        } else {
            1int
        },
        !has_hline(s, wh) ==> count_hline(s + appendix_spec(s, wh, dh), wh) == 1,
        !has_hline(s, dh) ==> count_hline(s + appendix_spec(s, wh, dh), dh) == 1,
{
    let ap = appendix_spec(s, wh, dh);
    lemma_has_iff_count_hline(s, wh);
    lemma_has_iff_count_hline(s, dh);
    lemma_appendix_lines(s, wh, dh);
    if has_hline(s, wh) && has_hline(s, dh) {
        assert(s + ap =~= s);
    } else {
        lemma_lines_concat(s, ap);
        lemma_count_concat(lines_of(s), lines_of(ap), wh);
        lemma_count_concat(lines_of(s), lines_of(ap), dh);
        lemma_count_appendix(s, wh, dh, wh);
        lemma_count_appendix(s, wh, dh, dh);
    }
}

/// The count a one-line list contributes.
proof fn lemma_count_list1(l0: Seq<char>, h: Seq<char>)
    ensures
        count_in(seq![l0], h) == if trim_end_s(l0) == h {
            1int
        } else {
            0int
        },
{
    lemma_count_push(Seq::<Seq<char>>::empty(), l0, h);
    assert(Seq::<Seq<char>>::empty().push(l0) =~= seq![l0]);
}

/// The count a two-line list contributes.
proof fn lemma_count_list2(l0: Seq<char>, l1: Seq<char>, h: Seq<char>)
    ensures
        count_in(seq![l0, l1], h) == (if trim_end_s(l0) == h {
            1int
        } else {
            0int
        }) + (if trim_end_s(l1) == h {
            1int
        } else {
            0int
        }),
{
    lemma_count_list1(l0, h);
    lemma_count_push(seq![l0], l1, h);
    assert(seq![l0].push(l1) =~= seq![l0, l1]);
}

/// The count a three-line list contributes.
proof fn lemma_count_list3(l0: Seq<char>, l1: Seq<char>, l2: Seq<char>, h: Seq<char>)
    ensures
        count_in(seq![l0, l1, l2], h) == (if trim_end_s(l0) == h {
            1int
        } else {
            0int
        }) + (if trim_end_s(l1) == h {
            1int
        } else {
            0int
        }) + (if trim_end_s(l2) == h {
            1int
        } else {
            0int
        }),
{
    lemma_count_list2(l0, l1, h);
    lemma_count_push(seq![l0, l1], l2, h);
    assert(seq![l0, l1].push(l2) =~= seq![l0, l1, l2]);
}

/// The count the appendix contributes, for any header-shaped line `h`:
/// one when `h` is a missing header the appendix writes, zero otherwise.
proof fn lemma_count_appendix(s: Seq<char>, wh: Seq<char>, dh: Seq<char>, h: Seq<char>)
    requires
        header_ok(wh),
        header_ok(dh),
        h.len() > 0,
        !(has_hline(s, wh) && has_hline(s, dh)),
    ensures
        count_in(lines_of(appendix_spec(s, wh, dh)), h) == (if !has_hline(s, wh) && h == wh {
            1int
        } else {
            0int
        }) + (if !has_hline(s, dh) && h == dh {
            1int
        } else {
            0int
        }),
{
    let e = Seq::<char>::empty();
    lemma_appendix_lines(s, wh, dh);
    assert(trim_end_s(e) == e);
    if !has_hline(s, wh) && !has_hline(s, dh) {
        lemma_count_list3(wh, e, dh, h);
    } else if !has_hline(s, wh) {
        lemma_count_list1(wh, h);
    } else if ends_blank(s) {
        lemma_count_list1(dh, h);
    } else {
        lemma_count_list2(e, dh, h);
    }
}


/// Law: the blank-line insertion policy.  When only the day header is
/// missing, exactly one blank line is inserted before it unless the file
/// already ends with a blank line.
pub proof fn lemma_blank_line_policy(s: Seq<char>, wh: Seq<char>, dh: Seq<char>)
    ensures
        has_hline(s, wh) && !has_hline(s, dh) && !ends_blank(s) ==> appendix_spec(s, wh, dh)
            == seq!['\n'] + dh.push('\n'),
        has_hline(s, wh) && !has_hline(s, dh) && ends_blank(s) ==> appendix_spec(s, wh, dh)
            == dh.push('\n'),
{
    if has_hline(s, wh) && !has_hline(s, dh) {
        if ends_blank(s) {
            assert(appendix_spec(s, wh, dh) =~= dh.push('\n'));
        } else {
            assert(appendix_spec(s, wh, dh) =~= seq!['\n'] + dh.push('\n'));
        }
    }
}

/// Law: cross-week non-interference.  Maintenance only ever appends, and a
/// header line other than the two being maintained (for instance a previous
/// week's headers) appears exactly as often afterwards as before.
pub proof fn lemma_cross_week_preserved(s: Seq<char>, wh: Seq<char>, dh: Seq<char>, other: Seq<char>)
    requires
        header_ok(wh),
        header_ok(dh),
        s.len() == 0 || s.last() == '\n',
        other.len() > 0,
        other != wh,
        other != dh,
    ensures
        (s + appendix_spec(s, wh, dh)).take(s.len() as int) == s,
        count_hline(s + appendix_spec(s, wh, dh), other) == count_hline(s, other),
        has_hline(s + appendix_spec(s, wh, dh), other) == has_hline(s, other),
{
    let ap = appendix_spec(s, wh, dh);
    assert((s + ap).take(s.len() as int) =~= s);
    if has_hline(s, wh) && has_hline(s, dh) {
        assert(s + ap =~= s);
    } else {
        lemma_lines_concat(s, ap);
        lemma_count_concat(lines_of(s), lines_of(ap), other);
        lemma_count_appendix(s, wh, dh, other);
        lemma_has_iff_count(lines_of(s), other);
        lemma_has_iff_count(lines_of(s) + lines_of(ap), other);
    }
}

} // verus!
