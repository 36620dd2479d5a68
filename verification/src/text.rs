//! Verified character-sequence utilities: prefix/suffix/substring tests and
//! decimal formatting, shared by the fleet and plugin pipelines.

use vstd::prelude::*;

verus! {

/// `p` is a prefix of `s`.
pub open spec fn is_prefix_of(p: Seq<char>, s: Seq<char>) -> bool {
    p.len() <= s.len() && s.subrange(0, p.len() as int) == p
}

/// `p` occurs in `s` starting at position `i`.
pub open spec fn matches_at(s: Seq<char>, p: Seq<char>, i: int) -> bool {
    0 <= i && i + p.len() <= s.len() && s.subrange(i, i + p.len() as int) == p
}

/// `p` occurs somewhere in `s`.
pub open spec fn contains_seq(s: Seq<char>, p: Seq<char>) -> bool {
    exists|i: int| matches_at(s, p, i)
}

/// Whether `p` occurs in `s` starting at position `i`, decided character by
/// character.
fn match_at(s: &str, p: &str, i: usize, s_len: usize, p_len: usize) -> (r: bool)
    requires
        s_len == s@.len(),
        p_len == p@.len(),
        i + p_len <= s_len,
    ensures
        r == matches_at(s@, p@, i as int),
{
    let mut j: usize = 0;
    while j < p_len
        invariant
            s_len == s@.len(),
            p_len == p@.len(),
            i + p_len <= s_len,
            0 <= j <= p_len,
            forall|k: int| 0 <= k < j ==> s@[i + k] == p@[k],
        decreases p_len - j,
    {
        if s.get_char(i + j) != p.get_char(j) {
            assert(s@.subrange(i as int, i + p@.len() as int)[j as int] != p@[j as int]);
            return false;
        }
        j += 1;
    }
    assert(s@.subrange(i as int, i + p@.len() as int) =~= p@);
    true
}

/// `s` starts with `p`.
pub fn starts_with(s: &str, p: &str) -> (r: bool)
    ensures
        r == is_prefix_of(p@, s@),
{
    let s_len = s.unicode_len();
    let p_len = p.unicode_len();
    if p_len > s_len {
        return false;
    }
    match_at(s, p, 0, s_len, p_len)
}

/// `s` contains `p` as a contiguous substring.
pub fn contains(s: &str, p: &str) -> (r: bool)
    ensures
        r == contains_seq(s@, p@),
{
    let s_len = s.unicode_len();
    let p_len = p.unicode_len();
    if p_len > s_len {
        assert(forall|i: int| !matches_at(s@, p@, i));
        return false;
    }
    if p_len == 0 {
        assert(s@.subrange(0, 0) =~= p@);
        assert(matches_at(s@, p@, 0));
        return true;
    }
    let last: usize = s_len - p_len;
    let mut i: usize = 0;
    while i <= last
        invariant
            s_len == s@.len(),
            p_len == p@.len(),
            1 <= p_len <= s_len,
            last == s_len - p_len,
            0 <= i <= last + 1,
            forall|k: int| 0 <= k < i ==> !matches_at(s@, p@, k),
        decreases last + 1 - i,
    {
        if match_at(s, p, i, s_len, p_len) {
            return true;
        }
        i += 1;
    }
    assert forall|k: int| !matches_at(s@, p@, k) by {
        if 0 <= k && k + p@.len() <= s@.len() {
            assert(k < i);
        }
    }
    false
}

/// The two strings hold the same characters.
pub fn str_eq(a: &str, b: &str) -> (r: bool)
    ensures
        r == (a@ == b@),
{
    let a_len = a.unicode_len();
    let b_len = b.unicode_len();
    if a_len != b_len {
        return false;
    }
    if match_at(a, b, 0, a_len, b_len) {
        assert(a@.subrange(0, a@.len() as int) =~= a@);
        true
    } else {
        assert(a@ != b@) by {
            if a@ == b@ {
                assert(a@.subrange(0, a@.len() as int) =~= a@);
            }
        }
        false
    }
}

/// The two characters are equal up to ASCII case.
pub open spec fn char_eq_ci(a: char, b: char) -> bool {
    ||| a == b
    ||| (65 <= a as u32 <= 90 && b as u32 == a as u32 + 32)
    ||| (65 <= b as u32 <= 90 && a as u32 == b as u32 + 32)
}

/// `p` occurs in `s` at position `i`, compared up to ASCII case.
pub open spec fn matches_ci_at(s: Seq<char>, p: Seq<char>, i: int) -> bool {
    0 <= i && i + p.len() <= s.len() && forall|j: int|
        0 <= j < p.len() ==> char_eq_ci(s[i + j], p[j])
}

/// `p` occurs somewhere in `s`, compared up to ASCII case.
pub open spec fn contains_ci_seq(s: Seq<char>, p: Seq<char>) -> bool {
    exists|i: int| matches_ci_at(s, p, i)
}

fn chars_eq_ci(a: char, b: char) -> (r: bool)
    ensures
        r == char_eq_ci(a, b),
{
    let x = a as u32;
    let y = b as u32;
    x == y || (65 <= x && x <= 90 && y == x + 32) || (65 <= y && y <= 90 && x == y + 32)
}

fn match_ci_at(s: &str, p: &str, i: usize, s_len: usize, p_len: usize) -> (r: bool)
    requires
        s_len == s@.len(),
        p_len == p@.len(),
        i + p_len <= s_len,
    ensures
        r == matches_ci_at(s@, p@, i as int),
{
    let mut j: usize = 0;
    while j < p_len
        invariant
            s_len == s@.len(),
            p_len == p@.len(),
            i + p_len <= s_len,
            0 <= j <= p_len,
            forall|k: int| 0 <= k < j ==> char_eq_ci(s@[i + k], p@[k]),
        decreases p_len - j,
    {
        if !chars_eq_ci(s.get_char(i + j), p.get_char(j)) {
            return false;
        }
        j += 1;
    }
    true
}

/// `s` contains `p` as a contiguous substring, compared up to ASCII case.
pub fn contains_ci(s: &str, p: &str) -> (r: bool)
    ensures
        r == contains_ci_seq(s@, p@),
{
    let s_len = s.unicode_len();
    let p_len = p.unicode_len();
    if p_len > s_len {
        assert(forall|i: int| !matches_ci_at(s@, p@, i));
        return false;
    }
    if p_len == 0 {
        assert(matches_ci_at(s@, p@, 0));
        return true;
    }
    let last: usize = s_len - p_len;
    let mut i: usize = 0;
    while i <= last
        invariant
            s_len == s@.len(),
            p_len == p@.len(),
            1 <= p_len <= s_len,
            last == s_len - p_len,
            0 <= i <= last + 1,
            forall|k: int| 0 <= k < i ==> !matches_ci_at(s@, p@, k),
        decreases last + 1 - i,
    {
        if match_ci_at(s, p, i, s_len, p_len) {
            return true;
        }
        i += 1;
    }
    assert forall|k: int| !matches_ci_at(s@, p@, k) by {
        if 0 <= k && k + p@.len() <= s@.len() {
            assert(k < i);
        }
    }
    false
}

/// `name` ends in a dot followed by `ext`, with a non-empty stem before the
/// dot; this is how a file name carries the extension `ext`.
pub open spec fn has_dot_extension(name: Seq<char>, ext: Seq<char>) -> bool {
    &&& name.len() >= ext.len() + 2
    &&& name[name.len() - ext.len() - 1] == '.'
    &&& name.subrange(name.len() - ext.len(), name.len() as int) == ext
}

/// Decides `has_dot_extension` for a file name.
pub fn name_has_extension(name: &str, ext: &str) -> (r: bool)
    ensures
        r == has_dot_extension(name@, ext@),
{
    let n_len = name.unicode_len();
    let e_len = ext.unicode_len();
    if n_len < e_len || n_len - e_len < 2 {
        return false;
    }
    if name.get_char(n_len - e_len - 1) != '.' {
        return false;
    }
    let mut j: usize = 0;
    while j < e_len
        invariant
            n_len == name@.len(),
            e_len == ext@.len(),
            n_len >= e_len + 2,
            0 <= j <= e_len,
            forall|k: int| 0 <= k < j ==> name@[n_len - e_len + k] == ext@[k],
        decreases e_len - j,
    {
        if name.get_char(n_len - e_len + j) != ext.get_char(j) {
            assert(name@.subrange(n_len - e_len, n_len as int)[j as int] != ext@[j as int]);
            return false;
        }
        j += 1;
    }
    assert(name@.subrange(n_len - e_len, n_len as int) =~= ext@);
    true
}

/// The concatenation of two strings.
pub fn concat2(a: &str, b: &str) -> (r: String)
    ensures
        r@ == a@ + b@,
{
    String::from_str(a).concat(b)
}

/// The concatenation of three strings.
pub fn concat3(a: &str, b: &str, c: &str) -> (r: String)
    ensures
        r@ == a@ + b@ + c@,
{
    String::from_str(a).concat(b).concat(c)
}

/// The path formed by `dir`, a separator, and the entry `name` under it.
pub fn join_path(dir: &str, name: &str) -> (r: String)
    ensures
        r@ == dir@ + "/"@ + name@,
{
    concat3(dir, "/", name)
}

/// The characters of `s` after its last separator; `s` itself when it has
/// none, empty when it ends in one.
pub open spec fn after_last_slash(s: Seq<char>) -> Seq<char>
    decreases s.len(),
{
    if s.len() == 0 {
        s
    } else if s[s.len() - 1] == '/' {
        Seq::empty()
    } else {
        after_last_slash(s.drop_last()).push(s[s.len() - 1])
    }
}

proof fn lemma_after_last_slash_none(s: Seq<char>)
    requires
        forall|j: int| 0 <= j < s.len() ==> s[j] != '/',
    ensures
        after_last_slash(s) == s,
    decreases s.len(),
{
    if s.len() > 0 {
        lemma_after_last_slash_none(s.drop_last());
        assert(s.drop_last().push(s[s.len() - 1]) =~= s);
    }
}

proof fn lemma_after_last_slash_at(s: Seq<char>, i: int)
    requires
        0 <= i < s.len(),
        s[i] == '/',
        forall|j: int| i < j < s.len() ==> s[j] != '/',
    ensures
        after_last_slash(s) == s.subrange(i + 1, s.len() as int),
    decreases s.len(),
{
    if i == s.len() - 1 {
        assert(s.subrange(i + 1, s.len() as int) =~= Seq::<char>::empty());
    } else {
        lemma_after_last_slash_at(s.drop_last(), i);
        assert(s.drop_last().subrange(i + 1, s.len() - 1) =~= s.subrange(i + 1, s.len() - 1));
        assert(s.subrange(i + 1, s.len() - 1).push(s[s.len() - 1]) =~= s.subrange(
            i + 1,
            s.len() as int,
        ));
    }
}

/// The file name of a path: the characters after the last separator.
pub fn path_file_name(path: &str) -> (r: String)
    ensures
        r@ == after_last_slash(path@),
{
    let len = path.unicode_len();
    let mut i: usize = len;
    while i > 0
        invariant
            len == path@.len(),
            0 <= i <= len,
            forall|j: int| i <= j < len ==> path@[j] != '/',
        decreases i,
    {
        if path.get_char(i - 1) == '/' {
            let r = String::from_str(path.substring_char(i, len));
            proof {
                lemma_after_last_slash_at(path@, i - 1);
            }
            return r;
        }
        i -= 1;
    }
    proof {
        lemma_after_last_slash_none(path@);
    }
    String::from_str(path.substring_char(0, len))
}

/// An ASCII whitespace character, as they appear in tool output.
pub open spec fn is_space(c: char) -> bool {
    c == ' ' || c == '\n' || c == '\r' || c == '\t'
}

/// `s` with leading whitespace removed.
pub open spec fn trim_left(s: Seq<char>) -> Seq<char>
    decreases s.len(),
{
    if s.len() > 0 && is_space(s[0]) {
        trim_left(s.drop_first())
    } else {
        s
    }
}

/// `s` with trailing whitespace removed.
pub open spec fn trim_right(s: Seq<char>) -> Seq<char>
    decreases s.len(),
{
    if s.len() > 0 && is_space(s[s.len() - 1]) {
        trim_right(s.drop_last())
    } else {
        s
    }
}

/// `s` with whitespace removed from both ends.
pub open spec fn trimmed(s: Seq<char>) -> Seq<char> {
    trim_right(trim_left(s))
}

proof fn lemma_trim_left_prefix(s: Seq<char>, a: int)
    requires
        0 <= a <= s.len(),
        forall|j: int| 0 <= j < a ==> is_space(s[j]),
        a < s.len() ==> !is_space(s[a]),
    ensures
        trim_left(s) == s.subrange(a, s.len() as int),
    decreases a,
{
    if a == 0 {
        assert(s.subrange(0, s.len() as int) =~= s);
    } else {
        lemma_trim_left_prefix(s.drop_first(), a - 1);
        assert(s.drop_first().subrange(a - 1, s.len() - 1) =~= s.subrange(a, s.len() as int));
    }
}

proof fn lemma_trim_right_suffix(s: Seq<char>, b: int)
    requires
        0 <= b <= s.len(),
        forall|j: int| b <= j < s.len() ==> is_space(s[j]),
        b > 0 ==> !is_space(s[b - 1]),
    ensures
        trim_right(s) == s.subrange(0, b),
    decreases s.len() - b,
{
    if b == s.len() {
        assert(s.subrange(0, s.len() as int) =~= s);
    } else {
        lemma_trim_right_suffix(s.drop_last(), b);
        assert(s.drop_last().subrange(0, b) =~= s.subrange(0, b));
    }
}

/// `s` with ASCII whitespace removed from both ends.
pub fn trim(s: &str) -> (r: String)
    ensures
        r@ == trimmed(s@),
{
    let len = s.unicode_len();
    let mut a: usize = 0;
    let mut stop_left = false;
    while a < len && !stop_left
        invariant
            len == s@.len(),
            0 <= a <= len,
            forall|j: int| 0 <= j < a ==> is_space(s@[j]),
            stop_left ==> a < len && !is_space(s@[a as int]),
        decreases len - a, 1int - (if stop_left { 1int } else { 0int }),
    {
        let c = s.get_char(a);
        if c == ' ' || c == '\n' || c == '\r' || c == '\t' {
            a += 1;
        } else {
            stop_left = true;
        }
    }
    let mut b: usize = len;
    let mut stop_right = false;
    while b > a && !stop_right
        invariant
            len == s@.len(),
            0 <= a <= b <= len,
            forall|j: int| 0 <= j < a ==> is_space(s@[j]),
            a < len ==> !is_space(s@[a as int]),
            forall|j: int| b <= j < len ==> is_space(s@[j]),
            stop_right ==> b > a && !is_space(s@[b - 1]),
        decreases b, 1int - (if stop_right { 1int } else { 0int }),
    {
        let c = s.get_char(b - 1);
        if c == ' ' || c == '\n' || c == '\r' || c == '\t' {
            b -= 1;
        } else {
            stop_right = true;
        }
    }
    let r = String::from_str(s.substring_char(a, b));
    proof {
        lemma_trim_left_prefix(s@, a as int);
        let t = s@.subrange(a as int, s@.len() as int);
        if b == a {
            lemma_trim_right_suffix(t, 0);
        } else {
            lemma_trim_right_suffix(t, b - a);
        }
        assert(t.subrange(0, b - a) =~= s@.subrange(a as int, b as int));
    }
    r
}

/// The character for the decimal digit `d`.
pub open spec fn digit_char(d: nat) -> char {
    ((48 + (d % 10)) as u8) as char
}

/// The decimal rendering of `n`, most significant digit first.
pub open spec fn spec_dec(n: nat) -> Seq<char>
    decreases n,
{
    if n < 10 {
        seq![digit_char(n)]
    } else {
        spec_dec(n / 10).push(digit_char(n % 10))
    }
}

/// The one-character string for the decimal digit `d`.
pub fn digit_str(d: u64) -> (r: &'static str)
    requires
        d < 10,
    ensures
        r@ =~= seq![digit_char(d as nat)],
{
    proof {
        reveal_strlit("0");
        reveal_strlit("1");
        reveal_strlit("2");
        reveal_strlit("3");
        reveal_strlit("4");
        reveal_strlit("5");
        reveal_strlit("6");
        reveal_strlit("7");
        reveal_strlit("8");
        reveal_strlit("9");
    }
    match d {
        0 => "0",
        1 => "1",
        2 => "2",
        3 => "3",
        4 => "4",
        5 => "5",
        6 => "6",
        7 => "7",
        8 => "8",
        _ => "9",
    }
}

/// Renders `n` in decimal.
pub fn u64_dec_string(n: u64) -> (r: String)
    ensures
        r@ == spec_dec(n as nat),
{
    let mut rest: u64 = n / 10;
    let mut acc: String = String::from_str(digit_str(n % 10));
    while rest > 0
        invariant
            spec_dec(n as nat) == if rest > 0 {
                spec_dec(rest as nat) + acc@
            } else {
                acc@
            },
        decreases rest,
    {
        let d = rest % 10;
        let next = rest / 10;
        let new_acc = String::from_str(digit_str(d)).concat(acc.as_str());
        proof {
            if next > 0 {
                assert(spec_dec(rest as nat) + acc@ =~= (spec_dec(next as nat) + seq![
                    digit_char((rest % 10) as nat),
                ]) + acc@);
                assert((spec_dec(next as nat) + seq![digit_char((rest % 10) as nat)]) + acc@
                    =~= spec_dec(next as nat) + (seq![digit_char((rest % 10) as nat)] + acc@));
            } else {
                assert(spec_dec(rest as nat) =~= seq![digit_char((rest % 10) as nat)]);
            }
        }
        acc = new_acc;
        rest = next;
    }
    acc
}

} // verus!
