//! Small verified text utilities: decimal rendering of integers, joining a
//! list of strings with spaces, and stripping trailing whitespace that
//! precedes a newline.

use vstd::prelude::*;
use vstd::string::*;

verus! {

/// The character for a single decimal digit.
pub open spec fn digit_char(d: nat) -> char {
    if d == 0 {
        '0'
    } else if d == 1 {
        '1'
    } else if d == 2 {
        '2'
    } else if d == 3 {
        '3'
    } else if d == 4 {
        '4'
    } else if d == 5 {
        '5'
    } else if d == 6 {
        '6'
    } else if d == 7 {
        '7'
    } else if d == 8 {
        '8'
    } else {
        '9'
    }
}

/// The decimal digits of `n`, most significant first, with no leading zeros
/// (a single `'0'` for zero).
pub open spec fn dec_digits(n: nat) -> Seq<char>
    decreases n,
{
    if n < 10 {
        seq![digit_char(n)]
    } else {
        dec_digits(n / 10) + seq![digit_char(n % 10)]
    }
}

fn digit_str(d: u32) -> (r: &'static str)
    requires
        d < 10,
    ensures
        r@ == seq![digit_char(d as nat)],
{
    let r: &'static str = match d {
        0 => "0",
        1 => "1",
        2 => "2",
        3 => "3",
        4 => "4",
        5 => "5",
        6 => "6",
        7 => "7",
        8 => "8",
        _ => "9",
    };
    proof {
        reveal_strlit("0");
        reveal_strlit("1");
        reveal_strlit("2");
        reveal_strlit("3");
        reveal_strlit("4");
        reveal_strlit("5");
        reveal_strlit("6");
        reveal_strlit("7");
        reveal_strlit("8");
        reveal_strlit("9");
        assert(r@ =~= seq![digit_char(d as nat)]);
    }
    r
}

/// Renders `n` in decimal.
pub fn u32_to_string(n: u32) -> (r: String)
    ensures
        r@ == dec_digits(n as nat),
    decreases n,
{
    if n < 10 {
        digit_str(n).to_owned()
    } else {
        let mut s = u32_to_string(n / 10);
        s.append(digit_str(n % 10));
        s
    }
}

/// The elements of `xs` concatenated with a single space between neighbours.
pub open spec fn join_spaced_spec(xs: Seq<Seq<char>>) -> Seq<char>
    decreases xs.len(),
{
    if xs.len() == 0 {
        Seq::empty()
    } else if xs.len() == 1 {
        xs[0]
    } else {
        join_spaced_spec(xs.drop_last()) + seq![' '] + xs.last()
    }
}

/// Joins the given strings with single spaces, as the diff tool expects its
/// path-exclusion expression.
pub fn join_spaced(items: &Vec<String>) -> (r: String)
    ensures
        r@ == join_spaced_spec(items@.map_values(|s: String| s@)),
{
    let ghost views = items@.map_values(|s: String| s@);
    let mut r = String::new();
    let mut i: usize = 0;
    while i < items.len()
        invariant
            0 <= i <= items.len(),
            views == items@.map_values(|s: String| s@),
            r@ == join_spaced_spec(views.take(i as int)),
        decreases items.len() - i,
    {
        if i > 0 {
            r.append(" ");
            proof {
                reveal_strlit(" ");
                assert(" "@ =~= seq![' ']);
            }
        }
        r.append(items[i].as_str());
        proof {
            assert(views.take(i + 1).drop_last() =~= views.take(i as int));
            assert(views.take(i + 1).last() == views[i as int]);
            if i == 0 {
                assert(r@ =~= join_spaced_spec(views.take(i + 1)));
            }
        }
        i = i + 1;
    }
    proof {
        assert(views.take(items@.len() as int) =~= views);
    }
    r
}

/// Whether `c` is horizontal whitespace.
pub open spec fn is_blank(c: char) -> bool {
    c == ' ' || c == '\t'
}

/// `s` with every run of spaces and tabs that immediately precedes a newline
/// removed; whitespace at the very end of the text, with no newline after it,
/// is kept.
pub open spec fn strip_spec(s: Seq<char>) -> Seq<char>
    decreases s.len(),
{
    if s.len() == 0 {
        s
    } else {
        let rest = strip_spec(s.drop_first());
        if is_blank(s[0]) && rest.len() > 0 && rest[0] == '\n' {
            rest
        } else {
            seq![s[0]] + rest
        }
    }
}

/// A blank prefix is dropped exactly when what follows it normalizes to
/// something that starts with a newline.
proof fn lemma_strip_blank_prefix(p: Seq<char>, x: Seq<char>)
    requires
        forall|k: int| 0 <= k < p.len() ==> is_blank(#[trigger] p[k]),
    ensures
        strip_spec(p + x) == if strip_spec(x).len() > 0 && strip_spec(x)[0] == '\n' {
            strip_spec(x)
        } else {
            p + strip_spec(x)
        },
    decreases p.len(),
{
    if p.len() == 0 {
        assert(p + x =~= x);
        if !(strip_spec(x).len() > 0 && strip_spec(x)[0] == '\n') {
            assert(p + strip_spec(x) =~= strip_spec(x));
        }
    } else {
        let q = p.drop_first();
        lemma_strip_blank_prefix(q, x);
        assert((p + x).drop_first() =~= q + x);
        assert((p + x)[0] == p[0]);
        let rest = strip_spec(q + x);
        if strip_spec(x).len() > 0 && strip_spec(x)[0] == '\n' {
            assert(rest == strip_spec(x));
            assert(strip_spec(p + x) == rest);
        } else {
            assert(rest == q + strip_spec(x));
            if rest.len() > 0 {
                if q.len() > 0 {
                    assert(rest[0] == q[0]);
                } else {
                    assert(rest =~= strip_spec(x));
                }
                assert(rest[0] != '\n');
            }
            assert(strip_spec(p + x) =~= seq![p[0]] + rest);
            assert(seq![p[0]] + (q + strip_spec(x)) =~= p + strip_spec(x));
        }
    }
}

/// Removes every run of spaces and tabs that stands immediately before a
/// newline, leaving all other characters in place.
pub fn strip_trailing_blanks(s: &str) -> (r: String)
    ensures
        r@ == strip_spec(s@),
{
    let n = s.unicode_len();
    let mut out = String::new();
    let mut pend = String::new();
    let mut i: usize = 0;
    proof {
        assert(Seq::<char>::empty() + s@.skip(0) =~= s@);
        assert(Seq::<char>::empty() + strip_spec(s@) =~= strip_spec(s@));
    }
    while i < n
        invariant
            0 <= i <= n,
            n == s@.len(),
            forall|k: int| 0 <= k < pend@.len() ==> is_blank(#[trigger] pend@[k]),
            strip_spec(s@) == out@ + strip_spec(pend@ + s@.skip(i as int)),
        decreases n - i,
    {
        let c = s.get_char(i);
        let piece = s.substring_char(i, i + 1);
        proof {
            assert(piece@ =~= seq![c]);
            assert(s@.skip(i as int) =~= seq![c] + s@.skip(i + 1));
        }
        if c == '\n' {
            proof {
                let tail = s@.skip(i + 1);
                assert(seq![c] + tail =~= (seq![c] + tail));
                assert((seq![c] + tail).drop_first() =~= tail);
                assert(strip_spec(seq![c] + tail) =~= seq!['\n'] + strip_spec(tail));
                lemma_strip_blank_prefix(pend@, seq![c] + tail);
                assert(pend@ + (seq![c] + tail) =~= pend@ + s@.skip(i as int));
                assert(strip_spec(pend@ + s@.skip(i as int)) == seq!['\n'] + strip_spec(tail));
                assert(out@ + (seq!['\n'] + strip_spec(tail)) =~= (out@ + seq!['\n']) + strip_spec(
                    tail,
                ));
                assert(Seq::<char>::empty() + tail =~= tail);
            }
            out.append(piece);
            pend = String::new();
        } else if c == ' ' || c == '\t' {
            proof {
                assert((pend@ + seq![c]) + s@.skip(i + 1) =~= pend@ + s@.skip(i as int));
            }
            pend.append(piece);
        } else {
            proof {
                let tail = s@.skip(i + 1);
                assert((seq![c] + tail).drop_first() =~= tail);
                assert(strip_spec(seq![c] + tail) =~= seq![c] + strip_spec(tail));
                lemma_strip_blank_prefix(pend@, seq![c] + tail);
                assert(strip_spec(pend@ + s@.skip(i as int)) == pend@ + (seq![c] + strip_spec(
                    tail,
                )));
                assert(out@ + (pend@ + (seq![c] + strip_spec(tail))) =~= ((out@ + pend@)
                    + seq![c]) + strip_spec(tail));
                assert(Seq::<char>::empty() + tail =~= tail);
            }
            out.append(pend.as_str());
            out.append(piece);
            pend = String::new();
        }
        i = i + 1;
    }
    proof {
        assert(s@.skip(n as int) =~= Seq::<char>::empty());
        assert(pend@ + Seq::<char>::empty() =~= pend@);
        lemma_strip_blank_prefix(pend@, Seq::<char>::empty());
        assert(strip_spec(Seq::<char>::empty()).len() == 0);
        assert(strip_spec(pend@ + Seq::<char>::empty()) == pend@ + strip_spec(
            Seq::<char>::empty(),
        ));
        assert(pend@ + strip_spec(Seq::<char>::empty()) =~= pend@);
    }
    out.append(pend.as_str());
    out
}

} // verus!
