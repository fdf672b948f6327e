//! Verified text helpers: decimal rendering of integers, key/value
//! configuration lines, and character-level string utilities used by the
//! config renderers and the log-line parsers.

use vstd::prelude::*;

verus! {

/// The character for one decimal digit.
pub open spec fn digit_char(d: nat) -> char {
    if d == 0 {
        '0'
    } else if d == 1 {
        '1'
    } else if d == 2 {
        '2'
    } else if d == 3 {
        '3'
    } else if d == 4 {
        '4'
    } else if d == 5 {
        '5'
    } else if d == 6 {
        '6'
    } else if d == 7 {
        '7'
    } else if d == 8 {
        '8'
    } else {
        '9'
    }
}

/// The decimal text of `n`, without leading zeros (just "0" for zero).
pub open spec fn dec_digits(n: nat) -> Seq<char>
    decreases n,
{
    if n < 10 {
        seq![digit_char(n)]
    } else {
        dec_digits(n / 10) + seq![digit_char(n % 10)]
    }
}

/// The decimal text of `n` padded with leading zeros to `width` digits;
/// only the last `width` digits of `n` appear.
pub open spec fn dec_digits_padded(n: nat, width: nat) -> Seq<char>
    decreases width,
{
    if width == 0 {
        Seq::empty()
    } else {
        dec_digits_padded(n / 10, (width - 1) as nat) + seq![digit_char(n % 10)]
    }
}

/// One decimal digit as a string slice.
fn digit_str(d: u64) -> (s: &'static str)
    requires
        d < 10,
    ensures
        s@ == seq![digit_char(d as nat)],
{
    proof {
        reveal_strlit("0");
        reveal_strlit("1");
        reveal_strlit("2");
        reveal_strlit("3");
        reveal_strlit("4");
        reveal_strlit("5");
        reveal_strlit("6");
        reveal_strlit("7");
        reveal_strlit("8");
        reveal_strlit("9");
    }
    match d {
        0 => "0",
        1 => "1",
        2 => "2",
        3 => "3",
        4 => "4",
        5 => "5",
        6 => "6",
        7 => "7",
        8 => "8",
        _ => "9",
    }
}

/// Appends the decimal text of `n` to `out`.
pub fn push_dec(out: &mut String, n: u64)
    ensures
        final(out)@ == old(out)@ + dec_digits(n as nat),
    decreases n,
{
    if n < 10 {
        out.append(digit_str(n));
    } else {
        push_dec(out, n / 10);
        out.append(digit_str(n % 10));
        assert(final(out)@ =~= old(out)@ + dec_digits(n as nat));
    }
}

/// The decimal text of `n`.
pub fn u64_to_dec(n: u64) -> (s: String)
    ensures
        s@ == dec_digits(n as nat),
{
    let mut s = String::new();
    push_dec(&mut s, n);
    assert(s@ =~= dec_digits(n as nat));
    s
}

/// Appends the decimal text of `n`, zero-padded to `width` digits.
pub fn push_dec_padded(out: &mut String, n: u64, width: u64)
    ensures
        final(out)@ == old(out)@ + dec_digits_padded(n as nat, width as nat),
    decreases width,
{
    if width == 0 {
        assert(final(out)@ =~= old(out)@ + dec_digits_padded(n as nat, 0));
    } else {
        push_dec_padded(out, n / 10, width - 1);
        out.append(digit_str(n % 10));
        assert(final(out)@ =~= old(out)@ + dec_digits_padded(n as nat, width as nat));
    }
}

/// One `key=value` configuration line, terminated by a newline.  The
/// key text is expected to carry its own `=` sign.
pub open spec fn conf_line(key: Seq<char>, val: Seq<char>) -> Seq<char> {
    key + val + "\n"@
}

/// Appends `key`, `val` and a newline to `out`.
pub fn push_line(out: &mut String, key: &str, val: &str)
    ensures
        final(out)@ == old(out)@ + conf_line(key@, val@),
{
    out.append(key);
    out.append(val);
    out.append("\n");
    assert(final(out)@ =~= old(out)@ + conf_line(key@, val@));
}

/// Appends `text` and a newline to `out`.
pub fn push_text_line(out: &mut String, text: &str)
    ensures
        final(out)@ == old(out)@ + text@ + "\n"@,
{
    out.append(text);
    out.append("\n");
    assert(final(out)@ =~= old(out)@ + text@ + "\n"@);
}

/// Appends `key`, the decimal text of `n` and a newline to `out`.
pub fn push_dec_line(out: &mut String, key: &str, n: u64)
    ensures
        final(out)@ == old(out)@ + conf_line(key@, dec_digits(n as nat)),
{
    out.append(key);
    push_dec(out, n);
    out.append("\n");
    assert(final(out)@ =~= old(out)@ + conf_line(key@, dec_digits(n as nat)));
}

/// The text of a boolean rendered as a numeric flag.
pub open spec fn bool_digit(b: bool) -> Seq<char> {
    if b {
        seq!['1']
    } else {
        seq!['0']
    }
}

/// Appends `key`, the flag digit of `b` and a newline to `out`.
pub fn push_flag_line(out: &mut String, key: &str, b: bool)
    ensures
        final(out)@ == old(out)@ + conf_line(key@, bool_digit(b)),
{
    proof {
        reveal_strlit("0");
        reveal_strlit("1");
    }
    out.append(key);
    out.append(if b { "1" } else { "0" });
    out.append("\n");
    assert(final(out)@ =~= old(out)@ + conf_line(key@, bool_digit(b)));
}

/// One configuration line per value of `vals`, from index `i` on, each
/// under the same key.
pub open spec fn conf_lines_from(key: Seq<char>, vals: Seq<String>, i: int) -> Seq<char>
    decreases vals.len() - i,
{
    if i < 0 || i >= vals.len() {
        Seq::empty()
    } else {
        conf_line(key, vals[i]@) + conf_lines_from(key, vals, i + 1)
    }
}

/// One configuration line per value of `vals`, each under the same key.
pub open spec fn conf_lines(key: Seq<char>, vals: Seq<String>) -> Seq<char> {
    conf_lines_from(key, vals, 0)
}

/// Appends one line per value of `vals`, from index `i` on.
fn push_lines_from(out: &mut String, key: &str, vals: &Vec<String>, i: usize)
    requires
        i <= vals.len(),
    ensures
        final(out)@ == old(out)@ + conf_lines_from(key@, vals@, i as int),
    decreases vals.len() - i,
{
    if i < vals.len() {
        push_line(out, key, vals[i].as_str());
        push_lines_from(out, key, vals, i + 1);
        assert(final(out)@ =~= old(out)@ + conf_lines_from(key@, vals@, i as int));
    } else {
        assert(final(out)@ =~= old(out)@ + conf_lines_from(key@, vals@, i as int));
    }
}

/// Appends one configuration line per value of `vals`.
pub fn push_lines(out: &mut String, key: &str, vals: &Vec<String>)
    ensures
        final(out)@ == old(out)@ + conf_lines(key@, vals@),
{
    push_lines_from(out, key, vals, 0);
}

/// Whether the string equals the given literal.
pub fn str_is(s: &String, lit: &str) -> (b: bool)
    ensures
        b == (s@ == lit@),
{
    s.eq(&String::from_str(lit))
}

/// Whether `path` is an absolute path: this supervisor targets
/// Unix-style daemons, where an absolute path starts with a slash.
pub open spec fn is_absolute_path(path: Seq<char>) -> bool {
    path.len() > 0 && path[0] == '/'
}

/// Whether `path` is an absolute path.
pub fn check_absolute_path(path: &str) -> (b: bool)
    ensures
        b == is_absolute_path(path@),
{
    path.unicode_len() > 0 && path.get_char(0) == '/'
}

/// Each line followed by a newline, concatenated in order.
pub open spec fn joined_lines(lines: Seq<Seq<char>>) -> Seq<char>
    decreases lines.len(),
{
    if lines.len() == 0 {
        Seq::empty()
    } else {
        lines[0] + "\n"@ + joined_lines(lines.skip(1))
    }
}

/// Whether `c` is the letter `l` in either case; `l` is expected in
/// lower case, and its upper-case form sits 32 code points below it.
pub open spec fn matches_ci(c: char, l: char) -> bool {
    c == l || (c as int) + 32 == (l as int)
}

/// Whether the word "error", in any mix of cases, starts at index `i`.
pub open spec fn error_marker_at(s: Seq<char>, i: int) -> bool {
    &&& 0 <= i
    &&& i + 5 <= s.len()
    &&& matches_ci(s[i], 'e')
    &&& matches_ci(s[i + 1], 'r')
    &&& matches_ci(s[i + 2], 'r')
    &&& matches_ci(s[i + 3], 'o')
    &&& matches_ci(s[i + 4], 'r')
}

/// Whether the word "error" occurs anywhere in `s`, in any mix of
/// cases.
pub open spec fn contains_error_marker_spec(s: Seq<char>) -> bool {
    exists|i: int| error_marker_at(s, i)
}

/// Whether `c` equals `lo` or the letter 32 code points below it.
fn char_ci(c: char, lo: char, up: char) -> (b: bool)
    requires
        (up as int) + 32 == lo as int,
    ensures
        b == matches_ci(c, lo),
{
    c == lo || c == up
}

/// Whether the word "error", in any mix of cases, occurs in `line`.
pub fn contains_error_marker(line: &str) -> (b: bool)
    ensures
        b == contains_error_marker_spec(line@),
{
    let v = str_to_chars(line);
    let n = v.len();
    if n < 5 {
        return false;
    }
    let mut i: usize = 0;
    while i <= n - 5
        invariant
            v@ == line@,
            5 <= n == v@.len(),
            i <= n - 4,
            forall|j: int| 0 <= j < i ==> !error_marker_at(line@, j),
        decreases n - i,
    {
        if char_ci(v[i], 'e', 'E') && char_ci(v[i + 1], 'r', 'R') && char_ci(v[i + 2], 'r', 'R')
            && char_ci(v[i + 3], 'o', 'O') && char_ci(v[i + 4], 'r', 'R') {
            assert(error_marker_at(line@, i as int));
            return true;
        }
        i = i + 1;
    }
    false
}

/// Whether `c` is a decimal digit.
pub open spec fn is_digit_char(c: char) -> bool {
    '0' as int <= c as int && c as int <= '9' as int
}

/// Whether `c` is a lower-case hexadecimal digit.
pub open spec fn is_hex_char(c: char) -> bool {
    is_digit_char(c) || ('a' as int <= c as int && c as int <= 'f' as int)
}

/// The value of one decimal digit character.
pub open spec fn char_digit(c: char) -> nat {
    (c as int - '0' as int) as nat
}

/// The number a sequence of decimal digit characters denotes.
pub open spec fn dec_value(s: Seq<char>) -> nat
    decreases s.len(),
{
    if s.len() == 0 {
        0
    } else {
        dec_value(s.drop_last()) * 10 + char_digit(s.last())
    }
}

/// A digit appended on the right never shrinks the denoted number.
proof fn lemma_dec_value_prefix_le(s: Seq<char>, i: int, j: int)
    requires
        0 <= i <= j <= s.len(),
    ensures
        dec_value(s.subrange(0, i)) <= dec_value(s.subrange(0, j)),
    decreases j - i,
{
    if i < j {
        lemma_dec_value_prefix_le(s, i, j - 1);
        let pre = s.subrange(0, j - 1);
        let cur = s.subrange(0, j);
        assert(cur.drop_last() =~= pre);
        assert(dec_value(cur) == dec_value(pre) * 10 + char_digit(cur.last()));
        assert(dec_value(pre) <= dec_value(pre) * 10) by (nonlinear_arith);
    }
}

/// The number the decimal digits `v[from..to]` denote, when it fits a
/// `u64`; `None` exactly when it does not fit.
pub fn parse_u64_digits(v: &Vec<char>, from: usize, to: usize) -> (r: Option<u64>)
    requires
        from <= to <= v@.len(),
        forall|k: int| from <= k < to ==> is_digit_char(v@[k]),
    ensures
        match r {
            Some(x) => x as nat == dec_value(v@.subrange(from as int, to as int)),
            None => dec_value(v@.subrange(from as int, to as int)) > u64::MAX,
        },
{
    let ghost w = v@.subrange(from as int, to as int);
    let mut acc: u64 = 0;
    let mut i: usize = from;
    while i < to
        invariant
            from <= i <= to <= v@.len(),
            w == v@.subrange(from as int, to as int),
            forall|k: int| from <= k < to ==> is_digit_char(v@[k]),
            acc as nat == dec_value(w.subrange(0, i - from)),
        decreases to - i,
    {
        let c = v[i];
        assert(is_digit_char(c));
        let d: u64 = (c as u32 as u64) - 48;
        let ghost k = i - from;
        assert(w.subrange(0, k + 1).drop_last() =~= w.subrange(0, k));
        assert(w.subrange(0, k + 1).last() == c);
        assert(dec_value(w.subrange(0, k + 1)) == (acc as nat) * 10 + char_digit(c));
        let step = match acc.checked_mul(10) {
            Some(m) => m.checked_add(d),
            None => None,
        };
        match step {
            Some(n) => {
                acc = n;
            },
            None => {
                proof {
                    assert(dec_value(w.subrange(0, k + 1)) > u64::MAX);
                    lemma_dec_value_prefix_le(w, k + 1, w.len() as int);
                    assert(w.subrange(0, w.len() as int) =~= w);
                }
                return None;
            },
        }
        i = i + 1;
    }
    proof {
        assert(w.subrange(0, w.len() as int) =~= w);
    }
    Some(acc)
}

/// The first index at or after `i` where the run of lower-case hex
/// digits ends.
pub open spec fn hex_run_end(s: Seq<char>, i: int) -> int
    decreases s.len() - i,
{
    if i < 0 || i >= s.len() {
        i
    } else if is_hex_char(s[i]) {
        hex_run_end(s, i + 1)
    } else {
        i
    }
}

/// The first index at or after `i` where the run of decimal digits
/// ends.
pub open spec fn digit_run_end(s: Seq<char>, i: int) -> int
    decreases s.len() - i,
{
    if i < 0 || i >= s.len() {
        i
    } else if is_digit_char(s[i]) {
        digit_run_end(s, i + 1)
    } else {
        i
    }
}

/// Everything inside a digit run is a digit, and the run is maximal.
pub proof fn lemma_digit_run(s: Seq<char>, i: int)
    requires
        0 <= i <= s.len(),
    ensures
        i <= digit_run_end(s, i) <= s.len(),
        forall|k: int| i <= k < digit_run_end(s, i) ==> is_digit_char(s[k]),
        digit_run_end(s, i) < s.len() ==> !is_digit_char(s[digit_run_end(s, i)]),
    decreases s.len() - i,
{
    if i < s.len() && is_digit_char(s[i]) {
        lemma_digit_run(s, i + 1);
    }
}

/// Whether `c` is a lower-case hex digit.
fn check_hex_char(c: char) -> (b: bool)
    ensures
        b == is_hex_char(c),
{
    ('0' <= c && c <= '9') || ('a' <= c && c <= 'f')
}

/// Whether `c` is a decimal digit.
fn check_digit_char(c: char) -> (b: bool)
    ensures
        b == is_digit_char(c),
{
    '0' <= c && c <= '9'
}

/// The end of the run of lower-case hex digits starting at `i`.
pub fn hex_end(v: &Vec<char>, i: usize) -> (j: usize)
    requires
        i <= v@.len(),
    ensures
        j == hex_run_end(v@, i as int),
        i <= j <= v@.len(),
{
    let mut j = i;
    while j < v.len() && check_hex_char(v[j])
        invariant
            i <= j <= v@.len(),
            hex_run_end(v@, i as int) == hex_run_end(v@, j as int),
        decreases v@.len() - j,
    {
        j = j + 1;
    }
    j
}

/// The end of the run of decimal digits starting at `i`.
pub fn digit_end(v: &Vec<char>, i: usize) -> (j: usize)
    requires
        i <= v@.len(),
    ensures
        j == digit_run_end(v@, i as int),
        i <= j <= v@.len(),
{
    let mut j = i;
    while j < v.len() && check_digit_char(v[j])
        invariant
            i <= j <= v@.len(),
            digit_run_end(v@, i as int) == digit_run_end(v@, j as int),
        decreases v@.len() - j,
    {
        j = j + 1;
    }
    j
}

/// Whether the characters of `pat` occur in `v` starting at `p`.
pub fn match_at(v: &Vec<char>, p: usize, pat: &Vec<char>) -> (b: bool)
    ensures
        b == (p + pat@.len() <= v@.len() && v@.subrange(p as int, p + pat@.len()) == pat@),
{
    if p > v.len() || pat.len() > v.len() - p {
        return false;
    }
    let n = v.len();
    let mut j: usize = 0;
    while j < pat.len()
        invariant
            j <= pat@.len(),
            p + pat@.len() <= v@.len(),
            n == v@.len(),
            forall|k: int| 0 <= k < j ==> v@[p + k] == pat@[k],
        decreases pat@.len() - j,
    {
        if v[p + j] != pat[j] {
            assert(v@.subrange(p as int, p + pat@.len()) != pat@) by {
                let sub = v@.subrange(p as int, p + pat@.len());
                assert(sub[j as int] == v@[p + j]);
            }
            return false;
        }
        j = j + 1;
    }
    assert(v@.subrange(p as int, p + pat@.len()) =~= pat@);
    true
}

/// The characters of `s`, one vector element per char.
pub fn str_to_chars(s: &str) -> (v: Vec<char>)
    ensures
        v@ == s@,
{
    let n = s.unicode_len();
    let mut v: Vec<char> = Vec::new();
    let mut i: usize = 0;
    while i < n
        invariant
            i <= n,
            n == s@.len(),
            v@ == s@.subrange(0, i as int),
        decreases n - i,
    {
        v.push(s.get_char(i));
        i = i + 1;
        assert(v@ =~= s@.subrange(0, i as int));
    }
    assert(v@ =~= s@);
    v
}

} // verus!
