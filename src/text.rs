use vstd::prelude::*;
use vstd::string::*;

verus! {

/// The characters that split a command line into tokens: those with the
/// Unicode `White_Space` property.
pub open spec fn is_space(c: char) -> bool {
    c == '\u{09}' || c == '\u{0A}' || c == '\u{0B}' || c == '\u{0C}' || c == '\u{0D}'
        || c == ' ' || c == '\u{85}' || c == '\u{A0}' || c == '\u{1680}'
        || ('\u{2000}' <= c && c <= '\u{200A}') || c == '\u{2028}' || c == '\u{2029}'
        || c == '\u{202F}' || c == '\u{205F}' || c == '\u{3000}'
}

/// Whether `c` is whitespace.
pub fn char_is_space(c: char) -> (r: bool)
    ensures
        r == is_space(c),
{
    c == '\u{09}' || c == '\u{0A}' || c == '\u{0B}' || c == '\u{0C}' || c == '\u{0D}'
        || c == ' ' || c == '\u{85}' || c == '\u{A0}' || c == '\u{1680}'
        || ('\u{2000}' <= c && c <= '\u{200A}') || c == '\u{2028}' || c == '\u{2029}'
        || c == '\u{202F}' || c == '\u{205F}' || c == '\u{3000}'
}


/// The whitespace-separated tokens of `s`, in order: the maximal runs of
/// characters that are not whitespace.
pub open spec fn tokens(s: Seq<char>) -> Seq<Seq<char>>
    decreases s.len(),
{
    if s.len() == 0 {
        Seq::empty()
    } else {
        let t = tokens(s.drop_last());
        let c = s.last();
        if is_space(c) {
            t
        } else if s.len() >= 2 && !is_space(s[s.len() - 2]) {
            t.update(t.len() - 1, t.last().push(c))
        } else {
            t.push(seq![c])
        }
    }
}

/// The views of a vector of strings.
pub open spec fn views(v: Seq<String>) -> Seq<Seq<char>> {
    v.map_values(|x: String| x@)
}

/// Splits `line` into its whitespace-separated tokens.
pub fn split_tokens(line: &str) -> (r: Vec<String>)
    ensures
        views(r@) == tokens(line@),
{
    let n = line.unicode_len();
    let mut out: Vec<String> = Vec::new();
    let mut start: usize = 0;
    let mut in_token = false;
    let mut i: usize = 0;
    while i < n
        invariant
            n == line@.len(),
            i <= n,
            start <= i,
            in_token <==> (i > 0 && !is_space(line@[i - 1])),
            in_token ==> {
                let t = tokens(line@.subrange(0, i as int));
                &&& t.len() > 0
                &&& t.last() == line@.subrange(start as int, i as int)
                &&& views(out@) == t.drop_last()
            },
            !in_token ==> views(out@) == tokens(line@.subrange(0, i as int)),
        decreases n - i,
    {
        let c = line.get_char(i);
        let ghost pre = line@.subrange(0, i as int);
        let ghost cur = line@.subrange(0, i + 1);
        assert(cur.drop_last() =~= pre);
        assert(cur.last() == c);
        if char_is_space(c) {
            if in_token {
                let piece = String::from_str(line.substring_char(start, i));
                out.push(piece);
                assert(views(out@) =~= tokens(pre)) by {
                    let t = tokens(pre);
                    assert(t =~= t.drop_last().push(t.last()));
                }
            }
            in_token = false;
        } else {
            if !in_token {
                start = i;
                assert(line@.subrange(start as int, i + 1) =~= seq![c]);
                assert(views(out@) =~= tokens(cur).drop_last());
            } else {
                if i >= 1 {
                    assert(cur[cur.len() - 2] == line@[i - 1]);
                }
                assert(line@.subrange(start as int, i + 1) =~= line@.subrange(
                    start as int,
                    i as int,
                ).push(c));
                assert(views(out@) =~= tokens(cur).drop_last());
            }
            in_token = true;
        }
        i = i + 1;
    }
    assert(line@.subrange(0, n as int) =~= line@);
    if in_token {
        let piece = String::from_str(line.substring_char(start, n));
        out.push(piece);
        assert(views(out@) =~= tokens(line@)) by {
            let t = tokens(line@);
            assert(t =~= t.drop_last().push(t.last()));
        }
    }
    out
}


/// The decimal digit for `d`.
pub open spec fn digit(d: nat) -> char {
    seq!['0', '1', '2', '3', '4', '5', '6', '7', '8', '9'][d as int]
}

/// The decimal representation of `n`, most significant digit first, with no
/// leading zeros.
pub open spec fn decimal(n: nat) -> Seq<char>
    decreases n,
{
    if n < 10 {
        seq![digit(n)]
    } else {
        decimal(n / 10).push(digit(n % 10))
    }
}

/// The decimal representation of `n`, with a leading `-` when negative.
pub open spec fn signed_decimal(n: int) -> Seq<char> {
    if n < 0 {
        seq!['-'] + decimal((-n) as nat)
    } else {
        decimal(n as nat)
    }
}

/// The digit `d` as a one-character string.
fn digit_str(d: u64) -> (r: &'static str)
    requires
        d < 10,
    ensures
        r@ == seq![digit(d as nat)],
{
    let all = "0123456789";
    proof {
        reveal_strlit("0123456789");
    }
    let r = all.substring_char(d as usize, (d + 1) as usize);
    assert(r@ =~= seq![digit(d as nat)]);
    r
}

/// Writes `n` in decimal.
pub fn format_u64(n: u64) -> (r: String)
    ensures
        r@ == decimal(n as nat),
    decreases n,
{
    if n < 10 {
        String::from_str(digit_str(n))
    } else {
        let mut s = format_u64(n / 10);
        s.append(digit_str(n % 10));
        s
    }
}

/// Writes `n` in decimal, with a leading `-` when negative.
pub fn format_i64(n: i64) -> (r: String)
    ensures
        r@ == signed_decimal(n as int),
{
    if n < 0 {
        let m: u64 = if n == i64::MIN {
            9223372036854775808u64
        } else {
            (-n) as u64
        };
        let mut s = String::from_str("-");
        proof {
            reveal_strlit("-");
        }
        let d = format_u64(m);
        s.append(d.as_str());
        s
    } else {
        format_u64(n as u64)
    }
}

} // verus!
