//! Version-control concerns that are plain computation: assembling the
//! argument list for the external diff tool, interpreting what the tool
//! returned, and parsing the default branch out of the remote listing.
//! Spawning the tool itself is the caller's business; its raw outcome comes
//! back in as a [`GitOutput`].

use vstd::prelude::*;
use vstd::string::*;

use crate::error::Error;
use crate::text::{join_spaced, join_spaced_spec};

verus! {

/// What the external diff tool produced: whether it exited successfully,
/// and its two output streams decoded as text.
pub struct GitOutput {
    pub success: bool,
    pub stdout: String,
    pub stderr: String,
}

/// The argument list for the diff invocation between `base` and `head`:
/// the subcommand, the two revisions, and the exclusion patterns joined into
/// one path-exclusion expression after the path separator.
pub fn diff_args(base: &str, head: &str, exclude: &Vec<String>) -> (r: Vec<String>)
    ensures
        r@.len() == 5,
        r@[0]@ == "diff"@,
        r@[1]@ == base@,
        r@[2]@ == head@,
        r@[3]@ == "--"@,
        r@[4]@ == join_spaced_spec(exclude@.map_values(|s: String| s@)),
{
    let mut v: Vec<String> = Vec::new();
    v.push("diff".to_owned());
    v.push(base.to_owned());
    v.push(head.to_owned());
    v.push("--".to_owned());
    v.push(join_spaced(exclude));
    v
}

/// Reduces the diff tool's outcome to either the diff text or a distinct
/// failure: a non-zero exit becomes `DiffFailed` carrying the tool's own
/// diagnostic, and an empty diff becomes `NoChanges` — never an empty
/// success, so a caller can always tell "nothing to do" from real work.
pub fn get_diff(base: &str, head: &str, out: GitOutput) -> (r: Result<String, Error>)
    ensures
        !out.success ==> (r matches Err(e) && e matches Error::DiffFailed { detail } && detail@
            == out.stderr@),
        out.success && out.stdout@.len() == 0 ==> (r matches Err(e) && e matches Error::NoChanges {
            base: b,
            head: h,
        } && b@ == base@ && h@ == head@),
        out.success && out.stdout@.len() > 0 ==> (r matches Ok(d) && d@ == out.stdout@),
{
    if !out.success {
        return Err(Error::DiffFailed { detail: out.stderr });
    }
    if out.stdout.as_str().is_empty() {
        return Err(Error::NoChanges { base: base.to_owned(), head: head.to_owned() });
    }
    Ok(out.stdout)
}

/// The characters that trimming removes at the ends of a line: the Unicode
/// white-space set, as standard string trimming removes it.
pub open spec fn is_space(c: char) -> bool {
    let u = c as u32;
    (9 <= u && u <= 13) || u == 32 || u == 0x85 || u == 0xa0 || u == 0x1680 || (0x2000 <= u && u
        <= 0x200a) || u == 0x2028 || u == 0x2029 || u == 0x202f || u == 0x205f || u == 0x3000
}

fn is_space_char(c: char) -> (r: bool)
    ensures
        r == is_space(c),
{
    let u = c as u32;
    (9 <= u && u <= 13) || u == 32 || u == 0x85 || u == 0xa0 || u == 0x1680 || (0x2000 <= u && u
        <= 0x200a) || u == 0x2028 || u == 0x2029 || u == 0x202f || u == 0x205f || u == 0x3000
}

/// `s` without its leading whitespace.
pub open spec fn trim_front(s: Seq<char>) -> Seq<char>
    decreases s.len(),
{
    if s.len() > 0 && is_space(s[0]) {
        trim_front(s.drop_first())
    } else {
        s
    }
}

/// `s` without its trailing whitespace.
pub open spec fn trim_back(s: Seq<char>) -> Seq<char>
    decreases s.len(),
{
    if s.len() > 0 && is_space(s.last()) {
        trim_back(s.drop_last())
    } else {
        s
    }
}

/// `s` without leading and trailing whitespace.
pub open spec fn trim_spec(s: Seq<char>) -> Seq<char> {
    trim_back(trim_front(s))
}

proof fn lemma_trim_front_is_skip(t: Seq<char>, a: int)
    requires
        0 <= a <= t.len(),
        forall|k: int| 0 <= k < a ==> is_space(#[trigger] t[k]),
        a == t.len() || !is_space(t[a]),
    ensures
        trim_front(t) == t.skip(a),
    decreases a,
{
    if a == 0 {
        assert(t.skip(0) =~= t);
    } else {
        let q = t.drop_first();
        assert(forall|k: int| 0 <= k < a - 1 ==> is_space(#[trigger] q[k]));
        lemma_trim_front_is_skip(q, a - 1);
        assert(q.skip(a - 1) =~= t.skip(a));
    }
}

proof fn lemma_trim_back_is_take(t: Seq<char>, b: int)
    requires
        0 <= b <= t.len(),
        forall|k: int| b <= k < t.len() ==> is_space(#[trigger] t[k]),
        b == 0 || !is_space(t[b - 1]),
    ensures
        trim_back(t) == t.take(b),
    decreases t.len() - b,
{
    if b == t.len() {
        if t.len() == 0 {
            assert(t.take(0) =~= t);
        } else {
            assert(!is_space(t.last()));
            assert(t.take(b) =~= t);
        }
    } else {
        let q = t.drop_last();
        assert(is_space(t.last()));
        assert(forall|k: int| b <= k < q.len() ==> is_space(#[trigger] q[k]));
        lemma_trim_back_is_take(q, b);
        assert(q.take(b) =~= t.take(b));
    }
}

/// Removes leading and trailing Unicode whitespace.
fn trim(l: &str) -> (r: &str)
    ensures
        r@ == trim_spec(l@),
{
    let n = l.unicode_len();
    let mut a: usize = 0;
    loop
        invariant
            0 <= a <= n,
            n == l@.len(),
            forall|k: int| 0 <= k < a ==> is_space(#[trigger] l@[k]),
        ensures
            0 <= a <= n,
            forall|k: int| 0 <= k < a ==> is_space(#[trigger] l@[k]),
            a == n || !is_space(l@[a as int]),
        decreases n - a,
    {
        if !(a < n) {
            break ;
        }
        if !is_space_char(l.get_char(a)) {
            break ;
        }
        a = a + 1;
    }
    let mut b: usize = n;
    loop
        invariant
            a <= b <= n,
            n == l@.len(),
            forall|k: int| b <= k < n ==> is_space(#[trigger] l@[k]),
            a == n || !is_space(l@[a as int]),
            forall|k: int| 0 <= k < a ==> is_space(#[trigger] l@[k]),
        ensures
            a <= b <= n,
            forall|k: int| b <= k < n ==> is_space(#[trigger] l@[k]),
            b == a || !is_space(l@[b - 1]),
        decreases b,
    {
        if !(b > a) {
            break ;
        }
        if !is_space_char(l.get_char(b - 1)) {
            break ;
        }
        b = b - 1;
    }
    proof {
        lemma_trim_front_is_skip(l@, a as int);
        let t = l@.skip(a as int);
        assert(forall|k: int| b - a <= k < t.len() ==> is_space(#[trigger] t[k]));
        if b > a {
            assert(t[b - a - 1] == l@[b - 1]);
        }
        lemma_trim_back_is_take(t, b - a);
        assert(t.take(b - a) =~= l@.subrange(a as int, b as int));
    }
    l.substring_char(a, b)
}

/// Whether `p` is a prefix of `s`.
pub open spec fn starts_with_spec(s: Seq<char>, p: Seq<char>) -> bool {
    p.len() <= s.len() && s.take(p.len() as int) == p
}

fn starts_with(s: &str, p: &str) -> (r: bool)
    ensures
        r == starts_with_spec(s@, p@),
{
    let sn = s.unicode_len();
    let pn = p.unicode_len();
    if pn > sn {
        return false;
    }
    let mut j: usize = 0;
    while j < pn
        invariant
            0 <= j <= pn <= sn,
            sn == s@.len(),
            pn == p@.len(),
            forall|k: int| 0 <= k < j ==> s@[k] == p@[k],
        decreases pn - j,
    {
        if s.get_char(j) != p.get_char(j) {
            proof {
                assert(s@.take(pn as int)[j as int] != p@[j as int]);
            }
            return false;
        }
        j = j + 1;
    }
    proof {
        assert(s@.take(pn as int) =~= p@);
    }
    true
}

/// The index of the first newline in `s`, or its length if there is none.
pub open spec fn find_nl(s: Seq<char>) -> nat
    decreases s.len(),
{
    if s.len() == 0 {
        0
    } else if s[0] == '\n' {
        0
    } else {
        1 + find_nl(s.drop_first())
    }
}

proof fn lemma_find_nl_props(s: Seq<char>)
    ensures
        find_nl(s) <= s.len(),
        forall|k: int| 0 <= k < find_nl(s) ==> s[k] != '\n',
        find_nl(s) < s.len() ==> s[find_nl(s) as int] == '\n',
    decreases s.len(),
{
    if s.len() > 0 && s[0] != '\n' {
        let q = s.drop_first();
        lemma_find_nl_props(q);
        assert forall|k: int| 0 <= k < find_nl(s) implies s[k] != '\n' by {
            if k > 0 {
                assert(q[k - 1] != '\n');
            }
        }
    }
}

proof fn lemma_find_nl_unique(s: Seq<char>, j: int)
    requires
        0 <= j <= s.len(),
        forall|k: int| 0 <= k < j ==> s[k] != '\n',
        j == s.len() || s[j] == '\n',
    ensures
        find_nl(s) == j,
{
    lemma_find_nl_props(s);
    let f = find_nl(s) as int;
    if j < f {
        assert(s[j] != '\n');
        assert(false);
    }
    if f < j {
        assert(s[f] != '\n');
        assert(false);
    }
}

fn find_nl_from(s: &str, st: usize) -> (r: usize)
    requires
        st <= s@.len(),
    ensures
        st <= r <= s@.len(),
        r - st == find_nl(s@.skip(st as int)),
        r < s@.len() ==> s@[r as int] == '\n',
        forall|k: int| st <= k < r ==> s@[k] != '\n',
{
    let n = s.unicode_len();
    let mut i: usize = st;
    while i < n
        invariant
            st <= i <= n,
            n == s@.len(),
            forall|k: int| st <= k < i ==> s@[k] != '\n',
        decreases n - i,
    {
        if s.get_char(i) == '\n' {
            proof {
                let t = s@.skip(st as int);
                assert forall|k: int| 0 <= k < i - st implies t[k] != '\n' by {
                    assert(t[k] == s@[k + st]);
                }
                assert(t[i - st] == s@[i as int]);
                lemma_find_nl_unique(t, i - st);
            }
            return i;
        }
        i = i + 1;
    }
    proof {
        let t = s@.skip(st as int);
        assert forall|k: int| 0 <= k < n - st implies t[k] != '\n' by {
            assert(t[k] == s@[k + st]);
        }
        lemma_find_nl_unique(t, n - st);
    }
    n
}

/// `s` split at newlines, the way line iteration sees it: no trailing empty
/// line after a final newline.
pub open spec fn lines_spec(s: Seq<char>) -> Seq<Seq<char>>
    decreases s.len(),
{
    if s.len() == 0 {
        Seq::empty()
    } else {
        let f = find_nl(s) as int;
        if f < s.len() {
            seq![s.take(f)] + lines_spec(s.skip(f + 1))
        } else {
            seq![s]
        }
    }
}

/// The index of the first occurrence of `": "` in `s`, or its length if
/// there is none.
pub open spec fn find_colon_space(s: Seq<char>) -> nat
    decreases s.len(),
{
    if s.len() < 2 {
        s.len()
    } else if s[0] == ':' && s[1] == ' ' {
        0
    } else {
        1 + find_colon_space(s.drop_first())
    }
}

proof fn lemma_find_cs_props(s: Seq<char>)
    ensures
        find_colon_space(s) <= s.len(),
        find_colon_space(s) + 2 <= s.len() || find_colon_space(s) == s.len(),
        forall|k: int|
            0 <= k < find_colon_space(s) ==> !((#[trigger] s[k]) == ':' && k + 1 < s.len() && s[k + 1] == ' '),
        find_colon_space(s) + 2 <= s.len() ==> s[find_colon_space(s) as int] == ':' && s[
            find_colon_space(s) as int + 1
        ] == ' ',
    decreases s.len(),
{
    if s.len() >= 2 && !(s[0] == ':' && s[1] == ' ') {
        let q = s.drop_first();
        lemma_find_cs_props(q);
        assert forall|k: int|
            0 <= k < find_colon_space(s) implies !((#[trigger] s[k]) == ':' && k + 1 < s.len()
            && s[k + 1] == ' ') by {
            if k > 0 {
                assert(!(q[k - 1] == ':' && k < q.len() && q[k] == ' '));
                assert(q[k - 1] == s[k]);
                if k + 1 < s.len() {
                    assert(q[k] == s[k + 1]);
                }
            }
        }
    }
}

proof fn lemma_find_cs_unique(s: Seq<char>, j: int)
    requires
        0 <= j <= s.len(),
        forall|k: int| 0 <= k < j ==> !((#[trigger] s[k]) == ':' && k + 1 < s.len() && s[k + 1] == ' '),
        j == s.len() || (j + 1 < s.len() && s[j] == ':' && s[j + 1] == ' '),
    ensures
        find_colon_space(s) == j,
{
    lemma_find_cs_props(s);
    let f = find_colon_space(s) as int;
    if j < f {
        assert(!(s[j] == ':' && j + 1 < s.len() && s[j + 1] == ' '));
        assert(false);
    }
    if f < j {
        assert(f + 2 <= s.len());
        assert(!(s[f] == ':' && f + 1 < s.len() && s[f + 1] == ' '));
        assert(false);
    }
}

fn find_colon_space_exec(l: &str) -> (r: usize)
    ensures
        r == find_colon_space(l@),
        r <= l@.len(),
{
    let n = l.unicode_len();
    if n < 2 {
        proof {
            lemma_find_cs_unique(l@, n as int);
        }
        return n;
    }
    let mut i: usize = 0;
    while i < n - 1
        invariant
            0 <= i,
            i + 1 <= n,
            n == l@.len(),
            n >= 2,
            forall|k: int| 0 <= k < i ==> !((#[trigger] l@[k]) == ':' && k + 1 < l@.len() && l@[k + 1] == ' '),
        decreases n - i,
    {
        if l.get_char(i) == ':' && l.get_char(i + 1) == ' ' {
            proof {
                lemma_find_cs_unique(l@, i as int);
            }
            return i;
        }
        i = i + 1;
    }
    proof {
        assert forall|k: int|
            0 <= k < n implies !((#[trigger] l@[k]) == ':' && k + 1 < l@.len() && l@[k + 1]
            == ' ') by {
            if k < i {
            } else {
                assert(k == n - 1);
            }
        }
        lemma_find_cs_unique(l@, n as int);
    }
    n
}

/// The marker that the remote listing puts before the default branch name.
pub open spec fn head_marker() -> Seq<char> {
    "HEAD branch: "@
}

/// Whether `l`, once trimmed, is the line naming the default branch.
pub open spec fn is_marker_line(l: Seq<char>) -> bool {
    starts_with_spec(trim_spec(l), head_marker())
}

/// The branch name carried by a marker line: everything after the first
/// `": "`, trimmed; absent when there is no `": "` or nothing follows it.
pub open spec fn branch_of_line(l: Seq<char>) -> Option<Seq<char>> {
    let i = find_colon_space(l) as int;
    if i + 2 <= l.len() {
        let rest = l.skip(i + 2);
        if trim_spec(rest).len() == 0 {
            None
        } else {
            Some(trim_spec(rest))
        }
    } else {
        None
    }
}

/// The first line naming the default branch, if any.
pub open spec fn first_marker_line(ls: Seq<Seq<char>>) -> Option<Seq<char>>
    decreases ls.len(),
{
    if ls.len() == 0 {
        None
    } else if is_marker_line(ls[0]) {
        Some(ls[0])
    } else {
        first_marker_line(ls.drop_first())
    }
}

/// What parsing the remote listing yields: the branch name on the first
/// `HEAD branch: ` line, or nothing.
pub open spec fn parse_branch_spec(t: Seq<char>) -> Option<Seq<char>> {
    match first_marker_line(lines_spec(t)) {
        None => None,
        Some(l) => branch_of_line(l),
    }
}

fn scan_branch_text(s: &str) -> (r: Option<String>)
    ensures
        match r {
            Some(b) => parse_branch_spec(s@) == Some(b@),
            None => parse_branch_spec(s@) is None,
        },
{
    let n = s.unicode_len();
    let mut st: usize = 0;
    proof {
        assert(s@.skip(0) =~= s@);
    }
    loop
        invariant
            0 <= st <= n,
            n == s@.len(),
            first_marker_line(lines_spec(s@)) == first_marker_line(lines_spec(s@.skip(st as int))),
        ensures
            first_marker_line(lines_spec(s@)) == first_marker_line(lines_spec(s@.skip(st as int))),
            st <= n,
            n == s@.len(),
            st < n ==> ({
                let rest = s@.skip(st as int);
                find_nl(rest) == rest.len() && !is_marker_line(rest)
            }),
        decreases n - st,
    {
        if !(st < n) {
            break ;
        }
        let i = find_nl_from(s, st);
        let line = s.substring_char(st, i);
        proof {
            assert(line@ =~= s@.skip(st as int).take(i - st));
        }
        let trimmed_line = trim(line);
        if starts_with(trimmed_line, "HEAD branch: ") {
            proof {
                let rest = s@.skip(st as int);
                assert(rest.len() > 0);
                assert(is_marker_line(line@));
                if i < n {
                    assert(lines_spec(rest) == seq![rest.take(i - st)] + lines_spec(
                        rest.skip(i - st + 1),
                    ));
                    assert(lines_spec(rest)[0] == line@);
                } else {
                    assert(rest.take(i - st) =~= rest);
                    assert(lines_spec(rest) == seq![rest]);
                    assert(lines_spec(rest)[0] == line@);
                }
                assert(first_marker_line(lines_spec(rest)) == Some(line@));
            }
            let cs = find_colon_space_exec(line);
            let ln = line.unicode_len();
            if ln >= 2 && cs <= ln - 2 {
                let after = line.substring_char(cs + 2, ln);
                proof {
                    assert(after@ =~= line@.skip(cs + 2));
                }
                let branch = trim(after);
                if branch.is_empty() {
                    return None;
                } else {
                    return Some(branch.to_owned());
                }
            } else {
                proof {
                    lemma_find_cs_props(line@);
                }
                return None;
            }
        }
        if i == n {
            proof {
                let rest = s@.skip(st as int);
                assert(find_nl(rest) == rest.len());
                assert(rest.take(rest.len() as int) =~= rest);
                assert(line@ =~= rest);
            }
            break ;
        }
        proof {
            let rest = s@.skip(st as int);
            let f = i - st;
            assert(rest.len() > 0);
            assert(f < rest.len());
            assert(lines_spec(rest) == seq![rest.take(f)] + lines_spec(rest.skip(f + 1)));
            assert(rest.take(f) == line@);
            assert(!is_marker_line(lines_spec(rest)[0]));
            assert(lines_spec(rest).drop_first() =~= lines_spec(rest.skip(f + 1)));
            assert(rest.skip(f + 1) =~= s@.skip(i + 1));
        }
        st = i + 1;
    }
    proof {
        let rest = s@.skip(st as int);
        if st == n {
            assert(rest =~= Seq::<char>::empty());
            assert(lines_spec(rest) == Seq::<Seq<char>>::empty());
        } else {
            assert(rest.take(rest.len() as int) =~= rest);
            assert(lines_spec(rest) == seq![rest]);
            assert(!is_marker_line(lines_spec(rest)[0]));
            assert(lines_spec(rest).drop_first() =~= Seq::<Seq<char>>::empty());
        }
        assert(first_marker_line(Seq::<Seq<char>>::empty()) is None);
        assert(first_marker_line(lines_spec(s@)) is None);
    }
    None
}

/// The text that lossy UTF-8 decoding makes of the given bytes.
pub uninterp spec fn lossy_utf8(bytes: Seq<u8>) -> Seq<char>;

/// Relies on String::from_utf8_lossy: the decoding depends on the bytes
/// alone, and ASCII bytes decode to themselves.
#[verifier::external_body]
fn utf8_lossy(bytes: &[u8]) -> (r: String)
    ensures
        r@ == lossy_utf8(bytes@),
        (forall|i: int| 0 <= i < bytes@.len() ==> bytes@[i] < 128) ==> r@ =~= bytes@.map_values(
            |b: u8| b as char,
        ),
{
    String::from_utf8_lossy(bytes).into_owned()
}

/// Finds the default branch in the output of the remote listing: the first
/// line whose trimmed form starts with `HEAD branch: ` names it after the
/// first `": "`; the name is absent when no such line exists or the name
/// would be empty.
pub fn parse_default_branch(stdout: &[u8]) -> (r: Option<String>)
    ensures
        match r {
            Some(b) => parse_branch_spec(lossy_utf8(stdout@)) == Some(b@),
            None => parse_branch_spec(lossy_utf8(stdout@)) is None,
        },
{
    let text = utf8_lossy(stdout);
    scan_branch_text(text.as_str())
}

} // verus!
