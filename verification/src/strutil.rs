//! Verified string helpers: substring search, ASCII-whitespace trimming,
//! decimal formatting, truthy-flag parsing, and command-line assembly.

use vstd::prelude::*;

verus! {

/// `pat` occurs contiguously somewhere in `s`.
pub open spec fn is_substring(s: Seq<char>, pat: Seq<char>) -> bool {
    exists|i: int| match_at(s, pat, i)
}

/// `pat` occurs in `s` starting at index `i`.
pub open spec fn match_at(s: Seq<char>, pat: Seq<char>, i: int) -> bool {
    0 <= i && i + pat.len() <= s.len() && s.subrange(i, i + pat.len() as int) == pat
}

proof fn lemma_match_chars(s: Seq<char>, pat: Seq<char>, i: int)
    requires
        0 <= i,
        i + pat.len() <= s.len(),
        forall|k: int| 0 <= k < pat.len() ==> s[i + k] == pat[k],
    ensures
        match_at(s, pat, i),
{
    assert(s.subrange(i, i + pat.len() as int) =~= pat);
}

/// Whether `pat` occurs at position `i` of `s`, by character comparison.
fn matches_at(s: &str, s_len: usize, pat: &str, pat_len: usize, i: usize) -> (r: bool)
    requires
        s_len == s@.len(),
        pat_len == pat@.len(),
        i + pat_len <= s_len,
    ensures
        r == match_at(s@, pat@, i as int),
{
    let mut k: usize = 0;
    while k < pat_len
        invariant
            s_len == s@.len(),
            pat_len == pat@.len(),
            i + pat_len <= s_len,
            0 <= k <= pat_len,
            forall|j: int| 0 <= j < k ==> s@[i + j] == pat@[j],
        decreases pat_len - k,
    {
        if s.get_char(i + k) != pat.get_char(k) {
            assert(s@.subrange(i as int, i + pat@.len() as int) != pat@) by {
                assert(s@.subrange(i as int, i + pat@.len() as int)[k as int] == s@[i + k]);
            }
            return false;
        }
        k += 1;
    }
    proof {
        lemma_match_chars(s@, pat@, i as int);
    }
    true
}

/// Substring search by direct character comparison.
pub fn contains_str(s: &str, pat: &str) -> (r: bool)
    ensures
        r == is_substring(s@, pat@),
{
    let s_len: usize = s.unicode_len();
    let pat_len: usize = pat.unicode_len();
    if pat_len > s_len {
        return false;
    }
    let mut i: usize = 0;
    loop
        invariant
            s_len == s@.len(),
            pat_len == pat@.len(),
            pat_len <= s_len,
            0 <= i <= s_len - pat_len,
            forall|j: int| 0 <= j < i ==> !match_at(s@, pat@, j),
        ensures
            !is_substring(s@, pat@),
        decreases s_len - pat_len - i,
    {
        if matches_at(s, s_len, pat, pat_len, i) {
            return true;
        }
        if i == s_len - pat_len {
            assert(forall|j: int| match_at(s@, pat@, j) ==> 0 <= j <= i);
            break;
        }
        i += 1;
    }
    false
}

/// ASCII whitespace, as stripped from captured process output.
pub open spec fn is_space_char(c: char) -> bool {
    c == ' ' || c == '\t' || c == '\n' || c == '\r'
}

/// `s` with leading whitespace removed.
pub open spec fn trim_front(s: Seq<char>) -> Seq<char>
    decreases s.len(),
{
    if s.len() > 0 && is_space_char(s[0]) {
        trim_front(s.drop_first())
    } else {
        s
    }
}

/// `s` with trailing whitespace removed.
pub open spec fn trim_back(s: Seq<char>) -> Seq<char>
    decreases s.len(),
{
    if s.len() > 0 && is_space_char(s.last()) {
        trim_back(s.drop_last())
    } else {
        s
    }
}

/// `s` with both leading and trailing whitespace removed.
pub open spec fn trimmed(s: Seq<char>) -> Seq<char> {
    trim_back(trim_front(s))
}

proof fn lemma_trim_front_range(s: Seq<char>, lo: int)
    requires
        0 <= lo <= s.len(),
        forall|k: int| 0 <= k < lo ==> is_space_char(s[k]),
        lo == s.len() || !is_space_char(s[lo]),
    ensures
        trim_front(s) == s.subrange(lo, s.len() as int),
    decreases lo,
{
    if lo == 0 {
        assert(s.subrange(0, s.len() as int) =~= s);
    } else {
        lemma_trim_front_range(s.drop_first(), lo - 1);
        assert(s.drop_first().subrange(lo - 1, s.drop_first().len() as int) =~= s.subrange(
            lo,
            s.len() as int,
        ));
    }
}

proof fn lemma_trim_back_range(s: Seq<char>, hi: int)
    requires
        0 <= hi <= s.len(),
        forall|k: int| hi <= k < s.len() ==> is_space_char(s[k]),
        hi == 0 || !is_space_char(s[hi - 1]),
    ensures
        trim_back(s) == s.subrange(0, hi),
    decreases s.len() - hi,
{
    if hi == s.len() {
        assert(s.subrange(0, hi) =~= s);
    } else {
        lemma_trim_back_range(s.drop_last(), hi);
        assert(s.drop_last().subrange(0, hi) =~= s.subrange(0, hi));
    }
}

fn is_space(c: char) -> (r: bool)
    ensures
        r == is_space_char(c),
{
    c == ' ' || c == '\t' || c == '\n' || c == '\r'
}

/// Strip leading and trailing ASCII whitespace.
pub fn trim_str(s: &str) -> (r: String)
    ensures
        r@ == trimmed(s@),
{
    let len: usize = s.unicode_len();
    let mut lo: usize = 0;
    while lo < len && is_space(s.get_char(lo))
        invariant
            len == s@.len(),
            0 <= lo <= len,
            forall|k: int| 0 <= k < lo ==> is_space_char(s@[k]),
        decreases len - lo,
    {
        lo += 1;
    }
    proof {
        lemma_trim_front_range(s@, lo as int);
    }
    let mut hi: usize = len;
    while hi > lo && is_space(s.get_char(hi - 1))
        invariant
            len == s@.len(),
            0 <= lo <= hi <= len,
            forall|k: int| 0 <= k < lo ==> is_space_char(s@[k]),
            lo == len || !is_space_char(s@[lo as int]),
            forall|k: int| hi <= k < len ==> is_space_char(s@[k]),
        decreases hi,
    {
        hi -= 1;
    }
    proof {
        let t = s@.subrange(lo as int, len as int);
        assert(forall|k: int|
            hi - lo <= k < t.len() ==> is_space_char(#[trigger] t[k]) && t[k] == s@[k + lo]);
        if hi > lo {
            assert(t[hi - lo - 1] == s@[hi - 1]);
        }
        lemma_trim_back_range(t, hi - lo);
        assert(t.subrange(0, hi - lo) =~= s@.subrange(lo as int, hi as int));
    }
    let sub: &str = s.substring_char(lo, hi);
    sub.to_owned()
}

/// The decimal digit `d` as a character.
pub open spec fn digit_char(d: int) -> char {
    if d == 0 {
        '0'
    } else if d == 1 {
        '1'
    } else if d == 2 {
        '2'
    } else if d == 3 {
        '3'
    } else if d == 4 {
        '4'
    } else if d == 5 {
        '5'
    } else if d == 6 {
        '6'
    } else if d == 7 {
        '7'
    } else if d == 8 {
        '8'
    } else {
        '9'
    }
}

/// Decimal representation of a natural number, most significant digit first.
pub open spec fn dec_rep(n: nat) -> Seq<char>
    decreases n,
{
    if n < 10 {
        seq![digit_char(n as int)]
    } else {
        dec_rep(n / 10).push(digit_char((n % 10) as int))
    }
}

/// Decimal representation of an integer, with a leading minus sign when negative.
pub open spec fn int_rep(i: int) -> Seq<char> {
    if i < 0 {
        seq!['-'] + dec_rep((-i) as nat)
    } else {
        dec_rep(i as nat)
    }
}

fn digit_str(d: u64) -> (r: &'static str)
    requires
        d < 10,
    ensures
        r@ == seq![digit_char(d as int)],
{
    if d == 0 {
        proof {
            reveal_strlit("0");
        }
        assert("0"@ =~= seq![digit_char(0)]);
        "0"
    } else if d == 1 {
        proof {
            reveal_strlit("1");
        }
        assert("1"@ =~= seq![digit_char(1)]);
        "1"
    } else if d == 2 {
        proof {
            reveal_strlit("2");
        }
        assert("2"@ =~= seq![digit_char(2)]);
        "2"
    } else if d == 3 {
        proof {
            reveal_strlit("3");
        }
        assert("3"@ =~= seq![digit_char(3)]);
        "3"
    } else if d == 4 {
        proof {
            reveal_strlit("4");
        }
        assert("4"@ =~= seq![digit_char(4)]);
        "4"
    } else if d == 5 {
        proof {
            reveal_strlit("5");
        }
        assert("5"@ =~= seq![digit_char(5)]);
        "5"
    } else if d == 6 {
        proof {
            reveal_strlit("6");
        }
        assert("6"@ =~= seq![digit_char(6)]);
        "6"
    } else if d == 7 {
        proof {
            reveal_strlit("7");
        }
        assert("7"@ =~= seq![digit_char(7)]);
        "7"
    } else if d == 8 {
        proof {
            reveal_strlit("8");
        }
        assert("8"@ =~= seq![digit_char(8)]);
        "8"
    } else {
        proof {
            reveal_strlit("9");
        }
        assert("9"@ =~= seq![digit_char(9)]);
        "9"
    }
}

/// Append the decimal digits of `n` to `out`.
fn push_dec(out: &mut String, n: u64)
    ensures
        final(out)@ == old(out)@ + dec_rep(n as nat),
    decreases n,
{
    if n < 10 {
        out.append(digit_str(n));
        assert(final(out)@ =~= old(out)@ + dec_rep(n as nat));
    } else {
        push_dec(out, n / 10);
        out.append(digit_str(n % 10));
        assert(final(out)@ =~= old(out)@ + dec_rep(n as nat));
    }
}

/// Decimal rendering of a signed 32-bit value.
pub fn i32_to_string(v: i32) -> (r: String)
    ensures
        r@ == int_rep(v as int),
{
    let mut out: String = String::new();
    if v < 0 {
        proof {
            reveal_strlit("-");
        }
        out.append("-");
        assert(out@ =~= seq!['-']);
        let mag: u64 = (-(v as i64)) as u64;
        push_dec(&mut out, mag);
        assert(out@ =~= int_rep(v as int));
    } else {
        push_dec(&mut out, v as u64);
        assert(out@ =~= int_rep(v as int));
    }
    out
}

/// The truthy spellings accepted for boolean environment flags:
/// `"1"` or any capitalization of `"true"`.
pub open spec fn spec_truthy(s: Seq<char>) -> bool {
    s =~= seq!['1'] || (s.len() == 4 && (s[0] == 't' || s[0] == 'T') && (s[1] == 'r' || s[1]
        == 'R') && (s[2] == 'u' || s[2] == 'U') && (s[3] == 'e' || s[3] == 'E'))
}

/// Whether a flag value counts as true.
pub fn is_truthy(v: &str) -> (r: bool)
    ensures
        r == spec_truthy(v@),
{
    let len: usize = v.unicode_len();
    if len == 1 {
        let c = v.get_char(0);
        proof {
            if c == '1' {
                assert(v@ =~= seq!['1']);
            }
        }
        c == '1'
    } else if len == 4 {
        let c0 = v.get_char(0);
        let c1 = v.get_char(1);
        let c2 = v.get_char(2);
        let c3 = v.get_char(3);
        (c0 == 't' || c0 == 'T') && (c1 == 'r' || c1 == 'R') && (c2 == 'u' || c2 == 'U') && (c3
            == 'e' || c3 == 'E')
    } else {
        false
    }
}

/// Copy a vector of strings, element for element.
pub(crate) fn dup_strings(v: &Vec<String>) -> (r: Vec<String>)
    ensures
        r@ == v@,
{
    let mut out: Vec<String> = Vec::new();
    let mut i: usize = 0;
    while i < v.len()
        invariant
            0 <= i <= v@.len(),
            out@ =~= v@.take(i as int),
        decreases v@.len() - i,
    {
        out.push(v[i].clone());
        proof {
            assert(out@ =~= v@.take(i as int + 1));
        }
        i += 1;
    }
    proof {
        assert(v@.take(v@.len() as int) =~= v@);
    }
    out
}

/// Copy a vector of string pairs, element for element.
pub(crate) fn dup_pairs(v: &Vec<(String, String)>) -> (r: Vec<(String, String)>)
    ensures
        r@ == v@,
{
    let mut out: Vec<(String, String)> = Vec::new();
    let mut i: usize = 0;
    while i < v.len()
        invariant
            0 <= i <= v@.len(),
            out@ =~= v@.take(i as int),
        decreases v@.len() - i,
    {
        let pair = (v[i].0.clone(), v[i].1.clone());
        out.push(pair);
        proof {
            assert(out@ =~= v@.take(i as int + 1));
        }
        i += 1;
    }
    proof {
        assert(v@.take(v@.len() as int) =~= v@);
    }
    out
}

/// Copy an optional string.
pub(crate) fn dup_opt_string(v: &Option<String>) -> (r: Option<String>)
    ensures
        r == *v,
{
    match v {
        Some(s) => Some(s.clone()),
        None => None,
    }
}

/// The arguments of a command line, each preceded by one space.
pub open spec fn joined_args(args: Seq<Seq<char>>) -> Seq<char>
    decreases args.len(),
{
    if args.len() == 0 {
        Seq::empty()
    } else {
        seq![' '] + args[0] + joined_args(args.drop_first())
    }
}

/// The displayed command line: the program followed by its arguments,
/// separated by single spaces.
pub open spec fn command_line(program: Seq<char>, args: Seq<Seq<char>>) -> Seq<char> {
    program + joined_args(args)
}

proof fn lemma_joined_args_push(args: Seq<Seq<char>>, x: Seq<char>)
    ensures
        joined_args(args.push(x)) == joined_args(args) + seq![' '] + x,
    decreases args.len(),
{
    if args.len() == 0 {
        assert(args.push(x).drop_first() =~= Seq::<Seq<char>>::empty());
        assert(args.push(x)[0] == x);
        assert(joined_args(args.push(x)) == seq![' '] + x + joined_args(
            Seq::<Seq<char>>::empty(),
        ));
        assert(joined_args(args.push(x)) =~= joined_args(args) + seq![' '] + x);
    } else {
        let l = args.push(x);
        assert(l.drop_first() =~= args.drop_first().push(x));
        assert(l[0] == args[0]);
        lemma_joined_args_push(args.drop_first(), x);
        assert(joined_args(l) == seq![' '] + args[0] + (joined_args(args.drop_first()) + seq![' ']
            + x));
        assert(joined_args(args.push(x)) =~= joined_args(args) + seq![' '] + x);
    }
}

/// Render the command line that an invocation will display and log.
pub fn render_command_line(program: &String, args: &Vec<String>) -> (r: String)
    ensures
        r@ == command_line(program@, args.deep_view()),
{
    let ghost all: Seq<Seq<char>> = args.deep_view();
    let mut out: String = program.clone();
    proof {
        assert(all.take(0) =~= Seq::<Seq<char>>::empty());
    }
    let mut i: usize = 0;
    while i < args.len()
        invariant
            all == args.deep_view(),
            all.len() == args@.len(),
            0 <= i <= args@.len(),
            out@ == command_line(program@, all.take(i as int)),
        decreases args@.len() - i,
    {
        proof {
            reveal_strlit(" ");
        }
        out.append(" ");
        out.append(args[i].as_str());
        proof {
            assert(all[i as int] == args@[i as int]@);
            lemma_joined_args_push(all.take(i as int), all[i as int]);
            assert(all.take(i as int + 1) =~= all.take(i as int).push(all[i as int]));
            assert(out@ =~= command_line(program@, all.take(i as int + 1)));
        }
        i += 1;
    }
    proof {
        assert(all.take(args@.len() as int) =~= all);
    }
    out
}

} // verus!
