//! JSON concerns: escaping text into a JSON string literal (used when the
//! request payloads are written out), and reading structured reply
//! documents. Replies are parsed by an outside library; what a parsed
//! document holds is modeled by [`JsonModel`], and the few accessors the
//! library relies on carry contracts over that model.

use vstd::prelude::*;
use vstd::string::*;

verus! {

/// The character for a single hexadecimal digit.
pub open spec fn hex_char(d: nat) -> char {
    if d < 10 {
        crate::text::digit_char(d)
    } else if d == 10 {
        'a'
    } else if d == 11 {
        'b'
    } else if d == 12 {
        'c'
    } else if d == 13 {
        'd'
    } else if d == 14 {
        'e'
    } else {
        'f'
    }
}

/// How one character appears inside a JSON string literal: quotes and
/// backslashes are escaped, the common control characters get their short
/// escapes, the remaining control characters a `\u00..` escape, and
/// everything else stands for itself.
pub open spec fn escape_char(c: char) -> Seq<char> {
    if c == '"' {
        seq!['\\', '"']
    } else if c == '\\' {
        seq!['\\', '\\']
    } else if c == '\n' {
        seq!['\\', 'n']
    } else if c == '\r' {
        seq!['\\', 'r']
    } else if c == '\t' {
        seq!['\\', 't']
    } else if (c as u32) < 32 {
        seq!['\\', 'u', '0', '0', hex_char((c as u32 / 16) as nat), hex_char((c as u32 % 16) as nat)]
    } else {
        seq![c]
    }
}

/// The body of the JSON string literal for `s`: each character escaped.
pub open spec fn escape_str(s: Seq<char>) -> Seq<char>
    decreases s.len(),
{
    if s.len() == 0 {
        Seq::empty()
    } else {
        escape_char(s[0]) + escape_str(s.drop_first())
    }
}

/// The full JSON string literal for `s`, quotes included.
pub open spec fn json_string_lit(s: Seq<char>) -> Seq<char> {
    seq!['"'] + escape_str(s) + seq!['"']
}

proof fn lemma_escape_push(s: Seq<char>, c: char)
    ensures
        escape_str(s.push(c)) == escape_str(s) + escape_char(c),
    decreases s.len(),
{
    if s.len() == 0 {
        assert(s.push(c) =~= seq![c]);
        assert(seq![c].drop_first() =~= Seq::<char>::empty());
        assert(escape_str(Seq::<char>::empty()) == Seq::<char>::empty());
        assert(escape_str(seq![c]) == escape_char(c) + escape_str(Seq::<char>::empty()));
        assert(escape_char(c) + Seq::<char>::empty() =~= escape_char(c));
        assert(Seq::<char>::empty() + escape_char(c) =~= escape_char(c));
    } else {
        let q = s.drop_first();
        lemma_escape_push(q, c);
        assert(s.push(c).drop_first() =~= q.push(c));
        assert(s.push(c)[0] == s[0]);
        assert(escape_str(s.push(c)) == escape_char(s[0]) + escape_str(q.push(c)));
        assert(escape_str(s) == escape_char(s[0]) + escape_str(q));
        assert(escape_char(s[0]) + (escape_str(q) + escape_char(c)) =~= (escape_char(s[0])
            + escape_str(q)) + escape_char(c));
    }
}

fn hex_str(d: u32) -> (r: &'static str)
    requires
        d < 16,
    ensures
        r@ == seq![hex_char(d as nat)],
{
    let r: &'static str = match d {
        0 => "0",
        1 => "1",
        2 => "2",
        3 => "3",
        4 => "4",
        5 => "5",
        6 => "6",
        7 => "7",
        8 => "8",
        9 => "9",
        10 => "a",
        11 => "b",
        12 => "c",
        13 => "d",
        14 => "e",
        _ => "f",
    };
    proof {
        reveal_strlit("0");
        reveal_strlit("1");
        reveal_strlit("2");
        reveal_strlit("3");
        reveal_strlit("4");
        reveal_strlit("5");
        reveal_strlit("6");
        reveal_strlit("7");
        reveal_strlit("8");
        reveal_strlit("9");
        reveal_strlit("a");
        reveal_strlit("b");
        reveal_strlit("c");
        reveal_strlit("d");
        reveal_strlit("e");
        reveal_strlit("f");
        assert(r@ =~= seq![hex_char(d as nat)]);
    }
    r
}

/// Appends to `out` the JSON string literal for `s`, quotes included.
pub fn append_json_string(out: &mut String, s: &str)
    ensures
        final(out)@ == old(out)@ + json_string_lit(s@),
{
    let n = s.unicode_len();
    out.append("\"");
    proof {
        reveal_strlit("\"");
        assert("\""@ =~= seq!['"']);
        assert(s@.take(0) =~= Seq::<char>::empty());
    }
    let ghost base = old(out)@ + seq!['"'];
    let mut i: usize = 0;
    while i < n
        invariant
            0 <= i <= n,
            n == s@.len(),
            out@ == base + escape_str(s@.take(i as int)),
        decreases n - i,
    {
        let c = s.get_char(i);
        proof {
            assert(s@.take(i + 1) =~= s@.take(i as int).push(s@[i as int]));
            lemma_escape_push(s@.take(i as int), s@[i as int]);
        }
        if c == '"' {
            out.append("\\\"");
            proof {
                reveal_strlit("\\\"");
                assert("\\\""@ =~= seq!['\\', '"']);
            }
        } else if c == '\\' {
            out.append("\\\\");
            proof {
                reveal_strlit("\\\\");
                assert("\\\\"@ =~= seq!['\\', '\\']);
            }
        } else if c == '\n' {
            out.append("\\n");
            proof {
                reveal_strlit("\\n");
                assert("\\n"@ =~= seq!['\\', 'n']);
            }
        } else if c == '\r' {
            out.append("\\r");
            proof {
                reveal_strlit("\\r");
                assert("\\r"@ =~= seq!['\\', 'r']);
            }
        } else if c == '\t' {
            out.append("\\t");
            proof {
                reveal_strlit("\\t");
                assert("\\t"@ =~= seq!['\\', 't']);
            }
        } else if (c as u32) < 32 {
            let d = c as u32;
            out.append("\\u00");
            out.append(hex_str(d / 16));
            out.append(hex_str(d % 16));
            proof {
                reveal_strlit("\\u00");
                assert("\\u00"@ =~= seq!['\\', 'u', '0', '0']);
                assert("\\u00"@ + seq![hex_char((d / 16) as nat)] + seq![
                    hex_char((d % 16) as nat),
                ] =~= escape_char(c));
            }
        } else {
            let piece = s.substring_char(i, i + 1);
            proof {
                assert(piece@ =~= seq![c]);
                assert(seq![c] =~= escape_char(c));
            }
            out.append(piece);
        }
        proof {
            assert(base + escape_str(s@.take(i as int)) + escape_char(s@[i as int]) =~= base
                + (escape_str(s@.take(i as int)) + escape_char(s@[i as int])));
        }
        i = i + 1;
    }
    proof {
        assert(s@.take(n as int) =~= s@);
    }
    out.append("\"");
    proof {
        assert((old(out)@ + seq!['"'] + escape_str(s@)) + seq!['"'] =~= old(out)@ + (seq!['"']
            + escape_str(s@) + seq!['"']));
    }
}

/// The value of a hexadecimal digit, or 16 for any other character.
pub open spec fn hex_val(c: char) -> nat {
    if c == '0' {
        0
    } else if c == '1' {
        1
    } else if c == '2' {
        2
    } else if c == '3' {
        3
    } else if c == '4' {
        4
    } else if c == '5' {
        5
    } else if c == '6' {
        6
    } else if c == '7' {
        7
    } else if c == '8' {
        8
    } else if c == '9' {
        9
    } else if c == 'a' {
        10
    } else if c == 'b' {
        11
    } else if c == 'c' {
        12
    } else if c == 'd' {
        13
    } else if c == 'e' {
        14
    } else if c == 'f' {
        15
    } else {
        16
    }
}

/// Whether `c` is a lower-case hexadecimal digit.
pub open spec fn is_hex(c: char) -> bool {
    hex_val(c) < 16
}

/// Reads the body of a JSON string literal back: the inverse of
/// `escape_str`, absent when the text is not a well-formed escape sequence.
pub open spec fn unescape_str(s: Seq<char>) -> Option<Seq<char>>
    decreases s.len(),
{
    if s.len() == 0 {
        Some(Seq::empty())
    } else if s[0] == '\\' {
        if s.len() >= 2 && s[1] == '"' {
            unescape_cons('"', unescape_str(s.skip(2)))
        } else if s.len() >= 2 && s[1] == '\\' {
            unescape_cons('\\', unescape_str(s.skip(2)))
        } else if s.len() >= 2 && s[1] == 'n' {
            unescape_cons('\n', unescape_str(s.skip(2)))
        } else if s.len() >= 2 && s[1] == 'r' {
            unescape_cons('\r', unescape_str(s.skip(2)))
        } else if s.len() >= 2 && s[1] == 't' {
            unescape_cons('\t', unescape_str(s.skip(2)))
        } else if s.len() >= 6 && s[1] == 'u' && s[2] == '0' && s[3] == '0' && is_hex(s[4])
            && is_hex(s[5]) {
            let code = 16 * hex_val(s[4]) + hex_val(s[5]);
            unescape_cons((code as u32) as char, unescape_str(s.skip(6)))
        } else {
            None
        }
    } else {
        unescape_cons(s[0], unescape_str(s.drop_first()))
    }
}

/// Prepends a decoded character to the rest of a decoding.
pub open spec fn unescape_cons(c: char, rest: Option<Seq<char>>) -> Option<Seq<char>> {
    match rest {
        Some(t) => Some(seq![c] + t),
        None => None,
    }
}

/// Escaping loses nothing: reading an escaped text back yields exactly the
/// original, for every text. In particular a prompt written into a payload
/// as a JSON string literal survives unmodified.
pub proof fn lemma_escape_lossless(s: Seq<char>)
    ensures
        unescape_str(escape_str(s)) == Some(s),
    decreases s.len(),
{
    if s.len() == 0 {
        assert(escape_str(s).len() == 0);
    } else {
        let c = s[0];
        let rest = s.drop_first();
        lemma_escape_lossless(rest);
        let e = escape_str(rest);
        let w = escape_str(s);
        assert(w == escape_char(c) + e);
        if c == '"' || c == '\\' || c == '\n' || c == '\r' || c == '\t' {
            assert(w.len() >= 2);
            assert(w[0] == '\\');
            assert(w.skip(2) =~= e);
            assert(unescape_str(w) == unescape_cons(c, unescape_str(e)));
            assert(seq![c] + rest =~= s);
        } else if (c as u32) < 32 {
            let d = c as u32;
            let h1 = hex_char((d / 16) as nat);
            let h2 = hex_char((d % 16) as nat);
            assert(w.len() >= 6);
            assert(w[0] == '\\' && w[1] == 'u' && w[2] == '0' && w[3] == '0');
            assert(w[4] == h1 && w[5] == h2);
            assert(hex_val(h1) == d / 16 && hex_val(h2) == d % 16);
            assert(is_hex(h1) && is_hex(h2));
            assert(16 * hex_val(h1) + hex_val(h2) == d);
            vstd::utf8::char_u32_cast(c, ((16 * hex_val(h1) + hex_val(h2)) as u32));
            assert((((16 * hex_val(h1) + hex_val(h2)) as u32) as char) == c);
            assert(w.skip(6) =~= e);
            assert(unescape_str(w) == unescape_cons(c, unescape_str(e)));
            assert(seq![c] + rest =~= s);
        } else {
            assert(w[0] == c);
            assert(c != '\\');
            assert(w.drop_first() =~= e);
            assert(unescape_str(w) == unescape_cons(c, unescape_str(e)));
            assert(seq![c] + rest =~= s);
        }
    }
}

/// Whether `c` is a decimal digit.
pub open spec fn is_digit(c: char) -> bool {
    48 <= c as u32 && c as u32 <= 57
}

/// The first index at or after `i` that does not hold a digit.
pub open spec fn digit_end(s: Seq<char>, i: int) -> int
    decreases s.len() - i,
{
    if i < 0 || i >= s.len() {
        i
    } else if is_digit(s[i]) {
        digit_end(s, i + 1)
    } else {
        i
    }
}

proof fn lemma_digit_end_props(s: Seq<char>, i: int)
    requires
        0 <= i <= s.len(),
    ensures
        i <= digit_end(s, i) <= s.len(),
        forall|k: int| i <= k < digit_end(s, i) ==> is_digit(#[trigger] s[k]),
        digit_end(s, i) < s.len() ==> !is_digit(s[digit_end(s, i)]),
    decreases s.len() - i,
{
    if i < s.len() && is_digit(s[i]) {
        lemma_digit_end_props(s, i + 1);
    }
}

proof fn lemma_digit_end_unique(s: Seq<char>, i: int, j: int)
    requires
        0 <= i <= j <= s.len(),
        forall|k: int| i <= k < j ==> is_digit(#[trigger] s[k]),
        j == s.len() || !is_digit(s[j]),
    ensures
        digit_end(s, i) == j,
{
    lemma_digit_end_props(s, i);
    let f = digit_end(s, i);
    if j < f {
        assert(is_digit(s[j]));
        assert(false);
    }
    if f < j {
        assert(is_digit(s[f]));
        assert(false);
    }
}

/// Where the integer part of a number token ends: after an optional minus
/// sign, either a single zero or a nonzero digit followed by more digits;
/// -1 when the text does not start with a well-formed integer part.
pub open spec fn after_int_part(s: Seq<char>) -> int {
    let i: int = if s.len() > 0 && s[0] == '-' {
        1
    } else {
        0
    };
    if i < s.len() && is_digit(s[i]) {
        if s[i] == '0' {
            i + 1
        } else {
            digit_end(s, i)
        }
    } else {
        -1
    }
}

/// Where the optional fraction ends, continuing from `p`: a dot must be
/// followed by at least one digit; -1 when malformed or already failed.
pub open spec fn after_fraction(s: Seq<char>, p: int) -> int {
    if p == -1 {
        -1
    } else if p < s.len() && s[p] == '.' {
        let e = digit_end(s, p + 1);
        if e > p + 1 {
            e
        } else {
            -1
        }
    } else {
        p
    }
}

/// Where the optional exponent ends, continuing from `p`: an `e` or `E`,
/// an optional sign, then at least one digit; -1 when malformed or already
/// failed.
pub open spec fn after_exponent(s: Seq<char>, p: int) -> int {
    if p == -1 {
        -1
    } else if p < s.len() && (s[p] == 'e' || s[p] == 'E') {
        let q: int = if p + 1 < s.len() && (s[p + 1] == '+' || s[p + 1] == '-') {
            p + 2
        } else {
            p + 1
        };
        let e = digit_end(s, q);
        if e > q {
            e
        } else {
            -1
        }
    } else {
        p
    }
}

/// Whether `s` is a JSON number token: an optional sign, an integer part
/// without leading zeros, an optional fraction, an optional exponent, and
/// nothing else.
pub open spec fn is_number_token(s: Seq<char>) -> bool {
    after_exponent(s, after_fraction(s, after_int_part(s))) == s.len()
}

fn digit_end_exec(s: &str, from: usize) -> (r: usize)
    requires
        from <= s@.len(),
    ensures
        from <= r <= s@.len(),
        r == digit_end(s@, from as int),
{
    let n = s.unicode_len();
    let mut i: usize = from;
    while i < n
        invariant
            from <= i <= n,
            n == s@.len(),
            forall|k: int| from <= k < i ==> is_digit(#[trigger] s@[k]),
        decreases n - i,
    {
        let c = s.get_char(i);
        if !(48 <= c as u32 && c as u32 <= 57) {
            proof {
                lemma_digit_end_unique(s@, from as int, i as int);
            }
            return i;
        }
        i = i + 1;
    }
    proof {
        lemma_digit_end_unique(s@, from as int, n as int);
    }
    n
}

/// Decides whether `s` is a JSON number token, so a caller can test a
/// parameter before splicing it into a payload.
pub fn is_json_number(s: &str) -> (r: bool)
    ensures
        r == is_number_token(s@),
{
    let n = s.unicode_len();
    if n == 0 {
        return false;
    }
    let mut i: usize = 0;
    if s.get_char(0) == '-' {
        i = 1;
    }
    if i >= n {
        return false;
    }
    let c = s.get_char(i);
    if !(48 <= c as u32 && c as u32 <= 57) {
        return false;
    }
    let int_end: usize = if c == '0' {
        i + 1
    } else {
        digit_end_exec(s, i)
    };
    proof {
        assert(after_int_part(s@) == int_end as int);
    }
    let mut p: usize = int_end;
    if p < n && s.get_char(p) == '.' {
        let e = digit_end_exec(s, p + 1);
        if e > p + 1 {
            p = e;
        } else {
            proof {
                assert(after_fraction(s@, int_end as int) == -1);
            }
            return false;
        }
    }
    proof {
        assert(after_fraction(s@, int_end as int) == p as int);
    }
    let ghost fr = after_fraction(s@, after_int_part(s@));
    if p < n {
        let c2 = s.get_char(p);
        if c2 == 'e' || c2 == 'E' {
            let mut q: usize = p + 1;
            if q < n {
                let c3 = s.get_char(q);
                if c3 == '+' || c3 == '-' {
                    q = q + 1;
                }
            }
            let e = digit_end_exec(s, q);
            if e > q {
                proof {
                    assert(after_exponent(s@, fr) == e as int);
                }
                return e == n;
            } else {
                proof {
                    assert(after_exponent(s@, fr) == -1);
                }
                return false;
            }
        }
    }
    proof {
        assert(after_exponent(s@, fr) == p as int);
    }
    p == n
}

/// What a structured reply document holds, as a mathematical value. Numbers
/// are not read anywhere in this library, so their contents are not modeled.
pub enum JsonModel {
    Null,
    Bool { b: bool },
    Num,
    Text { s: Seq<char> },
    Arr { items: Seq<JsonModel> },
    Obj { fields: Map<Seq<char>, JsonModel> },
}

#[verifier::external_type_specification]
#[verifier::external_body]
pub struct ExValue(serde_json::Value);

/// What a parsed document holds.
pub uninterp spec fn value_rep(v: serde_json::Value) -> JsonModel;

/// What parsing the given text yields; parsing is deterministic, a function
/// of the text alone.
pub uninterp spec fn json_of(s: Seq<char>) -> JsonModel;

/// Whether the given text is a document that parsing accepts; like the
/// parse itself, a function of the text alone.
pub uninterp spec fn json_parses(s: Seq<char>) -> bool;

/// Relies on serde_json::from_str: deserializing to a Value is a pure
/// function of the input text, and fails exactly on malformed documents.
#[verifier::external_body]
pub(crate) fn parse_json(s: &str) -> (r: Option<serde_json::Value>)
    ensures
        r is Some <==> json_parses(s@),
        r matches Some(v) ==> value_rep(v) == json_of(s@),
{
    serde_json::from_str::<serde_json::Value>(s).ok()
}

/// Relies on serde_json::Value::get with a string index: on an object it is
/// the map lookup, on anything else it is None.
#[verifier::external_body]
pub(crate) fn value_get<'a>(v: &'a serde_json::Value, key: &str) -> (r: Option<
    &'a serde_json::Value,
>)
    ensures
        match r {
            Some(w) => value_rep(*v) matches JsonModel::Obj { fields } && fields.contains_key(key@)
                && value_rep(*w) == fields[key@],
            None => !(value_rep(*v) matches JsonModel::Obj { fields } && fields.contains_key(key@)),
        },
{
    v.get(key)
}

/// Relies on serde_json::Value::as_array: the element vector of an array
/// value, None on anything else.
#[verifier::external_body]
pub(crate) fn value_as_array<'a>(v: &'a serde_json::Value) -> (r: Option<
    &'a Vec<serde_json::Value>,
>)
    ensures
        match r {
            Some(a) => value_rep(*v) == (JsonModel::Arr {
                items: a@.map_values(|x: serde_json::Value| value_rep(x)),
            }),
            None => !(value_rep(*v) is Arr),
        },
{
    v.as_array()
}

/// Relies on serde_json::Value::as_str: the text of a string value, None on
/// anything else.
#[verifier::external_body]
pub(crate) fn value_as_str<'a>(v: &'a serde_json::Value) -> (r: Option<&'a str>)
    ensures
        match r {
            Some(s) => value_rep(*v) == (JsonModel::Text { s: s@ }),
            None => !(value_rep(*v) is Text),
        },
{
    v.as_str()
}

} // verus!
