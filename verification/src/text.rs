//! Character-sequence utilities: decimal rendering of the rewrite counter,
//! blind substring replacement, quote escaping, the synthesized names, and
//! assertion-label building.

use vstd::prelude::*;
use vstd::string::StrSliceExecFns;

verus! {

/// The characters of a string slice, as a vector.
pub fn chars_of(s: &str) -> (v: Vec<char>)
    ensures
        v@ == s@,
{
    let n = s.unicode_len();
    let mut v: Vec<char> = Vec::new();
    let mut i: usize = 0;
    while i < n
        invariant
            i <= n,
            n == s@.len(),
            v@.len() == i,
            forall|j: int| 0 <= j < i ==> v@[j] == s@[j],
        decreases n - i,
    {
        v.push(s.get_char(i));
        i = i + 1;
    }
    proof {
        assert(v@ =~= s@);
    }
    v
}

/// Appends the characters of `src` to `dst`.
pub fn append_chars(dst: &mut Vec<char>, src: &Vec<char>)
    ensures
        final(dst)@ == old(dst)@ + src@,
{
    let mut i: usize = 0;
    while i < src.len()
        invariant
            i <= src@.len(),
            dst@.len() == old(dst)@.len() + i,
            forall|j: int| 0 <= j < old(dst)@.len() ==> dst@[j] == old(dst)@[j],
            forall|j: int| 0 <= j < i ==> dst@[old(dst)@.len() + j] == src@[j],
        decreases src@.len() - i,
    {
        dst.push(src[i]);
        i = i + 1;
    }
    proof {
        assert(dst@ =~= old(dst)@ + src@);
    }
}

/// The character of one decimal digit.
pub open spec fn digit_char(d: nat) -> char {
    if d == 0 {
        '0'
    } else if d == 1 {
        '1'
    } else if d == 2 {
        '2'
    } else if d == 3 {
        '3'
    } else if d == 4 {
        '4'
    } else if d == 5 {
        '5'
    } else if d == 6 {
        '6'
    } else if d == 7 {
        '7'
    } else if d == 8 {
        '8'
    } else {
        '9'
    }
}

/// The decimal digits of `n`, most significant first.
pub open spec fn dec_digits(n: nat) -> Seq<char>
    decreases n,
{
    if n < 10 {
        seq![digit_char(n)]
    } else {
        dec_digits(n / 10).push(digit_char(n % 10))
    }
}

fn digit_char_of(d: u32) -> (c: char)
    requires
        d < 10,
    ensures
        c == digit_char(d as nat),
{
    match d {
        0 => '0',
        1 => '1',
        2 => '2',
        3 => '3',
        4 => '4',
        5 => '5',
        6 => '6',
        7 => '7',
        8 => '8',
        _ => '9',
    }
}

/// Appends the decimal digits of `n` to `out`.
pub fn push_dec(n: u32, out: &mut Vec<char>)
    ensures
        final(out)@ == old(out)@ + dec_digits(n as nat),
    decreases n,
{
    if n >= 10 {
        push_dec(n / 10, out);
    }
    out.push(digit_char_of(n % 10));
    proof {
        assert(out@ =~= old(out)@ + dec_digits(n as nat));
    }
}

proof fn lemma_digit_char_inj(x: nat, y: nat)
    requires
        x < 10,
        y < 10,
        digit_char(x) == digit_char(y),
    ensures
        x == y,
{
}

/// Distinct numbers render to distinct digit sequences.
pub proof fn lemma_dec_digits_inj(a: nat, b: nat)
    requires
        dec_digits(a) == dec_digits(b),
    ensures
        a == b,
    decreases a + b,
{
    if a < 10 && b < 10 {
        assert(seq![digit_char(a)][0] == seq![digit_char(b)][0]);
        lemma_digit_char_inj(a, b);
    } else if a < 10 {
        assert(dec_digits(b).len() == dec_digits(b / 10).len() + 1);
        assert(dec_digits(b / 10).len() >= 1) by {
            lemma_dec_digits_len(b / 10);
        }
    } else if b < 10 {
        assert(dec_digits(a).len() == dec_digits(a / 10).len() + 1);
        assert(dec_digits(a / 10).len() >= 1) by {
            lemma_dec_digits_len(a / 10);
        }
    } else {
        let s1 = dec_digits(a / 10);
        let s2 = dec_digits(b / 10);
        assert(s1.push(digit_char(a % 10)) == s2.push(digit_char(b % 10)));
        assert(s1.len() == s2.len());
        assert(s1.push(digit_char(a % 10))[s1.len() as int] == digit_char(a % 10));
        assert(s2.push(digit_char(b % 10))[s2.len() as int] == digit_char(b % 10));
        lemma_digit_char_inj(a % 10, b % 10);
        assert(s1 =~= s2) by {
            assert(forall|i: int|
                0 <= i < s1.len() ==> s1[i] == s1.push(digit_char(a % 10))[i]);
        }
        lemma_dec_digits_inj(a / 10, b / 10);
    }
}

pub proof fn lemma_dec_digits_len(n: nat)
    ensures
        dec_digits(n).len() >= 1,
    decreases n,
{
    if n >= 10 {
        lemma_dec_digits_len(n / 10);
    }
}

/// Blind, non-overlapping, left-to-right replacement of `pat` by `rep` in
/// `s`.  A deliberately textual operation: an occurrence of `pat` inside a
/// longer identifier is replaced like any other.  An empty pattern replaces
/// nothing.
pub open spec fn replace_all(s: Seq<char>, pat: Seq<char>, rep: Seq<char>) -> Seq<char>
    decreases s.len(),
{
    if pat.len() == 0 || s.len() < pat.len() {
        s
    } else if s.take(pat.len() as int) == pat {
        rep + replace_all(s.skip(pat.len() as int), pat, rep)
    } else {
        seq![s[0]] + replace_all(s.skip(1), pat, rep)
    }
}

/// Whether `pat` occurs in `s` starting at `i`.
fn match_at(s: &Vec<char>, i: usize, pat: &Vec<char>) -> (b: bool)
    requires
        i + pat@.len() <= s@.len(),
    ensures
        b <==> s@.subrange(i as int, i + pat@.len()) == pat@,
{
    let slen = s.len();
    let plen = pat.len();
    let mut j: usize = 0;
    while j < plen
        invariant
            slen == s@.len(),
            plen == pat@.len(),
            j <= plen,
            i + plen <= slen,
            forall|k: int| 0 <= k < j ==> s@[i + k] == pat@[k],
        decreases plen - j,
    {
        if s[i + j] != pat[j] {
            proof {
                assert(s@.subrange(i as int, i + pat@.len())[j as int] != pat@[j as int]);
            }
            return false;
        }
        j = j + 1;
    }
    proof {
        assert(s@.subrange(i as int, i + pat@.len()) =~= pat@);
    }
    true
}

/// `replace_all`, executably.
pub fn replace_chars(s: &Vec<char>, pat: &Vec<char>, rep: &Vec<char>) -> (r: Vec<char>)
    ensures
        r@ == replace_all(s@, pat@, rep@),
{
    let slen = s.len();
    let plen = pat.len();
    let mut out: Vec<char> = Vec::new();
    if plen == 0 {
        append_chars(&mut out, s);
        proof {
            assert(out@ =~= replace_all(s@, pat@, rep@));
        }
        return out;
    }
    let mut i: usize = 0;
    proof {
        assert(s@.skip(0) =~= s@);
        assert(out@ + replace_all(s@, pat@, rep@) =~= replace_all(s@, pat@, rep@));
    }
    if plen <= slen {
        while i <= slen - plen
            invariant
                slen == s@.len(),
                plen == pat@.len(),
                1 <= plen <= slen,
                i <= slen,
                replace_all(s@, pat@, rep@) == out@ + replace_all(
                    s@.skip(i as int),
                    pat@,
                    rep@,
                ),
            decreases slen - i,
        {
            if match_at(s, i, pat) {
                let ghost rest = s@.skip(i + plen);
                proof {
                    assert(s@.skip(i as int).take(plen as int) =~= s@.subrange(
                        i as int,
                        i + plen,
                    ));
                    assert(s@.skip(i as int).skip(plen as int) =~= rest);
                    assert(replace_all(s@.skip(i as int), pat@, rep@) == rep@ + replace_all(
                        rest,
                        pat@,
                        rep@,
                    ));
                    assert((out@ + rep@) + replace_all(rest, pat@, rep@) =~= out@ + (rep@
                        + replace_all(rest, pat@, rep@)));
                }
                append_chars(&mut out, rep);
                i = i + plen;
            } else {
                let ghost rest = s@.skip(i + 1);
                proof {
                    assert(s@.skip(i as int).take(plen as int) =~= s@.subrange(
                        i as int,
                        i + plen,
                    ));
                    assert(s@.skip(i as int).skip(1) =~= rest);
                    assert(replace_all(s@.skip(i as int), pat@, rep@) == seq![s@[i as int]]
                        + replace_all(rest, pat@, rep@));
                    assert((out@ + seq![s@[i as int]]) + replace_all(rest, pat@, rep@) =~= out@
                        + (seq![s@[i as int]] + replace_all(rest, pat@, rep@)));
                    assert(out@.push(s@[i as int]) =~= out@ + seq![s@[i as int]]);
                }
                out.push(s[i]);
                i = i + 1;
            }
        }
    }
    // The remaining characters are shorter than the pattern: copied as they
    // stand.
    while i < slen
        invariant
            slen == s@.len(),
            plen == pat@.len(),
            i <= slen,
            slen - i < plen,
            replace_all(s@, pat@, rep@) == out@ + replace_all(s@.skip(i as int), pat@, rep@),
        decreases slen - i,
    {
        proof {
            assert(s@.skip(i as int).len() < pat@.len());
            assert(s@.skip(i + 1).len() < pat@.len());
            assert(s@.skip(i as int) =~= seq![s@[i as int]] + s@.skip(i + 1));
            assert((out@ + seq![s@[i as int]]) + s@.skip(i + 1) =~= out@ + (seq![s@[i as int]]
                + s@.skip(i + 1)));
            assert(out@.push(s@[i as int]) =~= out@ + seq![s@[i as int]]);
        }
        out.push(s[i]);
        i = i + 1;
    }
    proof {
        assert(s@.skip(i as int) =~= Seq::<char>::empty());
        assert(out@ + Seq::<char>::empty() =~= out@);
    }
    out
}

/// Quote escaping for assertion labels: each `"` becomes `\"`.
pub open spec fn escape_quotes(s: Seq<char>) -> Seq<char> {
    replace_all(s, seq!['"'], seq!['\\', '"'])
}

/// `escape_quotes`, executably.
pub fn escape_quote_chars(s: &Vec<char>) -> (r: Vec<char>)
    ensures
        r@ == escape_quotes(s@),
{
    let mut pat: Vec<char> = Vec::new();
    pat.push('"');
    let mut rep: Vec<char> = Vec::new();
    rep.push('\\');
    rep.push('"');
    proof {
        assert(pat@ =~= seq!['"']);
        assert(rep@ =~= seq!['\\', '"']);
    }
    replace_chars(s, &pat, &rep)
}

/// Whether two character vectors hold the same text.
pub fn chars_eq(a: &Vec<char>, b: &Vec<char>) -> (r: bool)
    ensures
        r <==> a@ == b@,
{
    if a.len() != b.len() {
        return false;
    }
    let n = a.len();
    let mut i: usize = 0;
    while i < n
        invariant
            n == a@.len() == b@.len(),
            i <= n,
            forall|j: int| 0 <= j < i ==> a@[j] == b@[j],
        decreases n - i,
    {
        if a[i] != b[i] {
            return false;
        }
        i = i + 1;
    }
    proof {
        assert(a@ =~= b@);
    }
    true
}

/// The reserved return-alias token of predicate text.
pub fn return_kw() -> (v: Vec<char>)
    ensures
        v@ == "return"@,
{
    chars_of("return")
}

/// The name of the result slot of rewrite instance `run`.
pub open spec fn result_name_spec(run: nat) -> Seq<char> {
    "__result_"@ + dec_digits(run)
}

/// `result_name_spec`, executably.
pub fn result_name(run: u32) -> (v: Vec<char>)
    ensures
        v@ == result_name_spec(run as nat),
{
    let mut v = chars_of("__result_");
    push_dec(run, &mut v);
    v
}

/// The label of the escape region of rewrite instance `run`.
pub open spec fn loop_label_spec(run: nat) -> Seq<char> {
    "'__hoare_"@ + dec_digits(run)
}

/// `loop_label_spec`, executably.
pub fn loop_label(run: u32) -> (v: Vec<char>)
    ensures
        v@ == loop_label_spec(run as nat),
{
    let mut v = chars_of("'__hoare_");
    push_dec(run, &mut v);
    v
}

/// The user-visible label of a contract assertion:
/// `{kind} of {function} ({predicate text, quotes escaped})`.
pub open spec fn assert_label_spec(kind: Seq<char>, fn_name: Seq<char>, pred: Seq<char>) -> Seq<
    char,
> {
    kind + " of "@ + fn_name + " ("@ + escape_quotes(pred) + ")"@
}

/// `assert_label_spec`, executably.
pub fn assert_label(kind: &str, fn_name: &Vec<char>, pred: &Vec<char>) -> (v: Vec<char>)
    ensures
        v@ == assert_label_spec(kind@, fn_name@, pred@),
{
    let mut v = chars_of(kind);
    let sep = chars_of(" of ");
    append_chars(&mut v, &sep);
    append_chars(&mut v, fn_name);
    let open_paren = chars_of(" (");
    append_chars(&mut v, &open_paren);
    let esc = escape_quote_chars(pred);
    append_chars(&mut v, &esc);
    let close_paren = chars_of(")");
    append_chars(&mut v, &close_paren);
    v
}

} // verus!
