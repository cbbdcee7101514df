//! Character-level text utilities.
//!
//! Prompt assembly and protocol framing in this crate build strings piece by
//! piece; everything here is specified over `Seq<char>` views.

use vstd::prelude::*;

verus! {

/// Relies on `String::push`: appends the given character to the end of the
/// string.
#[verifier::external_body]
pub fn push_char(s: &mut String, c: char)
    ensures
        final(s)@ == old(s)@ + seq![c],
{
    s.push(c);
}

/// Build a `String` holding exactly the given characters.
pub fn string_from_chars(v: &Vec<char>) -> (r: String)
    ensures
        r@ == v@,
{
    let mut r = String::new();
    let mut i: usize = 0;
    while i < v.len()
        invariant
            i <= v.len(),
            r@ == v@.take(i as int),
        decreases v.len() - i,
    {
        push_char(&mut r, v[i]);
        proof {
            assert(r@ =~= v@.take(i as int + 1));
        }
        i = i + 1;
    }
    proof {
        assert(v@.take(v.len() as int) =~= v@);
    }
    r
}

/// The characters of a string, as a vector.
pub fn chars_of(s: &str) -> (r: Vec<char>)
    ensures
        r@ == s@,
{
    let len = s.unicode_len();
    let mut r: Vec<char> = Vec::new();
    let mut i: usize = 0;
    while i < len
        invariant
            i <= len,
            len == s@.len(),
            r@ == s@.take(i as int),
        decreases len - i,
    {
        r.push(s.get_char(i));
        proof {
            assert(r@ =~= s@.take(i as int + 1));
        }
        i = i + 1;
    }
    proof {
        assert(s@.take(len as int) =~= s@);
    }
    r
}

/// The decimal digit character for a value below ten.
pub open spec fn dec_digit(d: int) -> char
    recommends
        0 <= d < 10,
{
    if d == 0 {
        '0'
    } else if d == 1 {
        '1'
    } else if d == 2 {
        '2'
    } else if d == 3 {
        '3'
    } else if d == 4 {
        '4'
    } else if d == 5 {
        '5'
    } else if d == 6 {
        '6'
    } else if d == 7 {
        '7'
    } else if d == 8 {
        '8'
    } else {
        '9'
    }
}

/// The usual decimal rendering of a natural number, without leading zeros
/// (except for zero itself).
pub open spec fn dec_str(n: nat) -> Seq<char>
    decreases n,
{
    if n < 10 {
        seq![dec_digit(n as int)]
    } else {
        dec_str(n / 10) + seq![dec_digit((n % 10) as int)]
    }
}

/// The decimal rendering of a signed number: a minus sign ahead of the
/// magnitude when negative.
pub open spec fn dec_str_int(n: int) -> Seq<char> {
    if n >= 0 {
        dec_str(n as nat)
    } else {
        seq!['-'] + dec_str((-n) as nat)
    }
}

fn dec_digit_exec(d: u64) -> (c: char)
    requires
        d < 10,
    ensures
        c == dec_digit(d as int),
{
    if d == 0 {
        '0'
    } else if d == 1 {
        '1'
    } else if d == 2 {
        '2'
    } else if d == 3 {
        '3'
    } else if d == 4 {
        '4'
    } else if d == 5 {
        '5'
    } else if d == 6 {
        '6'
    } else if d == 7 {
        '7'
    } else if d == 8 {
        '8'
    } else {
        '9'
    }
}

/// Render an unsigned number in decimal.
pub fn u64_string(n: u64) -> (r: String)
    ensures
        r@ == dec_str(n as nat),
{
    let mut digits: Vec<char> = Vec::new();
    let mut m: u64 = n;
    loop
        invariant_except_break
            digits@.len() == 0 ==> dec_str(n as nat) == dec_str(m as nat),
            digits@.len() > 0 ==> m != 0 && dec_str(n as nat) == dec_str(m as nat) + digits@,
        ensures
            dec_str(n as nat) == digits@,
        decreases m,
    {
        let d = m % 10;
        let ghost m0 = m as nat;
        let ghost digits0 = digits@;
        m = m / 10;
        digits.insert(0, dec_digit_exec(d));
        proof {
            assert(digits@ =~= seq![dec_digit(d as int)] + digits0);
            if m0 < 10 {
                assert(m0 % 10 == m0);
                assert(dec_str(m0) == seq![dec_digit(m0 as int)]);
                if digits0.len() == 0 {
                    assert(dec_str(n as nat) =~= digits@);
                } else {
                    assert(dec_str(n as nat) =~= digits@);
                }
            } else {
                assert(dec_str(m0) == dec_str(m0 / 10) + seq![dec_digit((m0 % 10) as int)]);
                if digits0.len() == 0 {
                    assert(dec_str(n as nat) =~= dec_str((m0 / 10) as nat) + digits@);
                } else {
                    assert(dec_str(n as nat) =~= (dec_str(m0 / 10) + seq![dec_digit((m0 % 10) as int)])
                        + digits0);
                    assert(dec_str(n as nat) =~= dec_str((m0 / 10) as nat) + digits@);
                }
            }
        }
        if m == 0 {
            break;
        }
    }
    string_from_chars(&digits)
}

/// Render an unsigned number in decimal.
pub fn u32_string(n: u32) -> (r: String)
    ensures
        r@ == dec_str(n as nat),
{
    u64_string(n as u64)
}

/// Render a signed number in decimal.
pub fn i64_string(n: i64) -> (r: String)
    ensures
        r@ == dec_str_int(n as int),
{
    if n >= 0 {
        u64_string(n as u64)
    } else {
        let mag: u64 = if n == i64::MIN {
            9223372036854775808u64
        } else {
            (-n) as u64
        };
        let mut r = String::new();
        push_char(&mut r, '-');
        let digits = u64_string(mag);
        r.append(digits.as_str());
        proof {
            assert(r@ =~= seq!['-'] + dec_str(mag as nat));
        }
        r
    }
}


/// The white-space characters this crate trims: the Unicode `White_Space`
/// set, from the ASCII controls and the space up to the ideographic space.
pub open spec fn is_space_char(c: char) -> bool {
    ||| c == ' ' || c == '\t' || c == '\n' || c == '\r' || c == '\u{b}' || c == '\u{c}'
    ||| c == '\u{85}' || c == '\u{a0}' || c == '\u{1680}'
    ||| ('\u{2000}' <= c && c <= '\u{200a}')
    ||| c == '\u{2028}' || c == '\u{2029}' || c == '\u{202f}' || c == '\u{205f}'
    ||| c == '\u{3000}'
}

/// Whether a character is white space.
pub fn is_space_exec(c: char) -> (r: bool)
    ensures
        r == is_space_char(c),
{
    c == ' ' || c == '\t' || c == '\n' || c == '\r' || c == '\u{b}' || c == '\u{c}'
        || c == '\u{85}' || c == '\u{a0}' || c == '\u{1680}' || ('\u{2000}' <= c && c
        <= '\u{200a}') || c == '\u{2028}' || c == '\u{2029}' || c == '\u{202f}' || c
        == '\u{205f}' || c == '\u{3000}'
}

/// The string with its leading whitespace removed.
pub open spec fn trim_start_spec(s: Seq<char>) -> Seq<char>
    decreases s.len(),
{
    if s.len() > 0 && is_space_char(s[0]) {
        trim_start_spec(s.skip(1))
    } else {
        s
    }
}

/// The string with its trailing whitespace removed.
pub open spec fn trim_end_spec(s: Seq<char>) -> Seq<char>
    decreases s.len(),
{
    if s.len() > 0 && is_space_char(s.last()) {
        trim_end_spec(s.drop_last())
    } else {
        s
    }
}

/// The string with whitespace removed from both ends.
pub open spec fn trim_spec(s: Seq<char>) -> Seq<char> {
    trim_end_spec(trim_start_spec(s))
}

proof fn lemma_trim_start_skip(s: Seq<char>, i: int)
    requires
        0 <= i <= s.len(),
        forall|k: int| 0 <= k < i ==> is_space_char(s[k]),
    ensures
        trim_start_spec(s) == trim_start_spec(s.skip(i)),
    decreases i,
{
    if i > 0 {
        assert(trim_start_spec(s) == trim_start_spec(s.skip(1)));
        assert(s.skip(1).skip(i - 1) =~= s.skip(i));
        lemma_trim_start_skip(s.skip(1), i - 1);
    } else {
        assert(s.skip(0) =~= s);
    }
}

proof fn lemma_trim_end_take(s: Seq<char>, j: int)
    requires
        0 <= j <= s.len(),
        forall|k: int| j <= k < s.len() ==> is_space_char(s[k]),
    ensures
        trim_end_spec(s) == trim_end_spec(s.take(j)),
    decreases s.len() - j,
{
    if j < s.len() {
        assert(is_space_char(s.last()));
        assert(trim_end_spec(s) == trim_end_spec(s.drop_last()));
        assert(s.drop_last().take(j) =~= s.take(j));
        lemma_trim_end_take(s.drop_last(), j);
    } else {
        assert(s.take(j) =~= s);
    }
}

/// Remove whitespace from both ends of a string.
pub fn trim_str(s: &str) -> (r: &str)
    ensures
        r@ == trim_spec(s@),
{
    let len = s.unicode_len();
    let mut i: usize = 0;
    while i < len && is_space_exec(s.get_char(i))
        invariant
            i <= len,
            len == s@.len(),
            forall|k: int| 0 <= k < i ==> is_space_char(s@[k]),
        decreases len - i,
    {
        i = i + 1;
    }
    proof {
        lemma_trim_start_skip(s@, i as int);
        if i < len {
            assert(!is_space_char(s@.skip(i as int)[0]));
        }
        assert(trim_start_spec(s@) == s@.skip(i as int));
    }
    let mut j: usize = len;
    while j > i && is_space_exec(s.get_char(j - 1))
        invariant
            i <= j <= len,
            len == s@.len(),
            forall|k: int| 0 <= k < i ==> is_space_char(s@[k]),
            forall|k: int| j <= k < len ==> is_space_char(s@[k]),
        decreases j,
    {
        j = j - 1;
    }
    let r = s.substring_char(i, j);
    proof {
        let mid = s@.skip(i as int);
        assert(r@ =~= mid.take(j - i));
        lemma_trim_end_take(mid, j - i);
        if j > i {
            assert(mid.take(j - i).last() == s@[j - 1]);
            assert(!is_space_char(mid.take(j - i).last()));
        }
        assert(trim_end_spec(mid) == mid.take(j - i));
    }
    r
}

/// Whether a string is empty once trimmed.
pub fn is_blank(s: &str) -> (r: bool)
    ensures
        r == (trim_spec(s@).len() == 0),
{
    let t = trim_str(s);
    t.is_empty()
}

/// The UTF-8 encoded length of one character.
pub open spec fn utf8_len(c: char) -> int {
    vstd::utf8::encode_scalar(c as u32).len() as int
}

/// The UTF-8 encoded length of a text.
pub open spec fn utf8_len_of(t: Seq<char>) -> int
    decreases t.len(),
{
    if t.len() == 0 {
        0
    } else {
        utf8_len(t[0]) + utf8_len_of(t.drop_first())
    }
}

pub proof fn lemma_utf8_len_bounds(c: char)
    ensures
        1 <= utf8_len(c) <= 4,
{
}

/// The per-character lengths sum to the length of the whole encoding.
pub proof fn lemma_utf8_len_of_matches_encoding(t: Seq<char>)
    ensures
        utf8_len_of(t) == vstd::utf8::encode_utf8(t).len(),
    decreases t.len(),
{
    if t.len() > 0 {
        lemma_utf8_len_of_matches_encoding(t.drop_first());
    }
}

proof fn lemma_utf8_suffix_step(t: Seq<char>, k: int)
    requires
        0 <= k < t.len(),
    ensures
        utf8_len_of(t.skip(k)) == utf8_len(t[k]) + utf8_len_of(t.skip(k + 1)),
{
    assert(t.skip(k)[0] == t[k]);
    assert(t.skip(k).drop_first() =~= t.skip(k + 1));
}

proof fn lemma_utf8_len_of_le(t: Seq<char>)
    ensures
        0 <= utf8_len_of(t) <= 4 * t.len(),
    decreases t.len(),
{
    if t.len() > 0 {
        lemma_utf8_len_bounds(t[0]);
        lemma_utf8_len_of_le(t.drop_first());
    }
}

proof fn lemma_utf8_suffix_mono(t: Seq<char>, k1: int, k2: int)
    requires
        0 <= k1 <= k2 <= t.len(),
    ensures
        utf8_len_of(t.skip(k2)) <= utf8_len_of(t.skip(k1)),
    decreases k2 - k1,
{
    if k1 < k2 {
        lemma_utf8_suffix_step(t, k1);
        lemma_utf8_len_bounds(t[k1]);
        lemma_utf8_suffix_mono(t, k1 + 1, k2);
    }
}

/// The tail of a text kept as context: the shortest suffix whose UTF-8
/// encoding holds at least `n` bytes — the whole text when its encoding
/// holds fewer. The suffix always begins on a character boundary, so it is
/// never longer than `n` bytes by more than one character.
pub open spec fn byte_tail_spec(t: Seq<char>, n: int) -> Seq<char>
    decreases t.len(),
{
    if t.len() > 0 && utf8_len_of(t.skip(1)) >= n {
        byte_tail_spec(t.skip(1), n)
    } else {
        t
    }
}

proof fn lemma_byte_tail_at(t: Seq<char>, n: int, j: int)
    requires
        0 <= j <= t.len(),
        j < t.len() ==> utf8_len_of(t.skip(j + 1)) < n,
        j > 0 ==> utf8_len_of(t.skip(j)) >= n,
    ensures
        byte_tail_spec(t, n) == t.skip(j),
    decreases j,
{
    if j == 0 {
        assert(t.skip(0) =~= t);
    } else {
        lemma_utf8_suffix_mono(t, 1, j);
        assert(byte_tail_spec(t, n) == byte_tail_spec(t.skip(1), n));
        assert(t.skip(1).skip(j - 1) =~= t.skip(j));
        if j - 1 < t.skip(1).len() {
            assert(t.skip(1).skip(j) =~= t.skip(j + 1));
        }
        lemma_byte_tail_at(t.skip(1), n, j - 1);
    }
}

fn utf8_len_exec(c: char) -> (r: usize)
    ensures
        r as int == utf8_len(c),
{
    proof {
        vstd::utf8::char_is_scalar(c);
    }
    let u = c as u32;
    if u < 0x80 {
        1
    } else if u < 0x800 {
        2
    } else if u < 0x10000 {
        3
    } else {
        4
    }
}

/// The tail of a string: its last `n` bytes, widened to the nearest
/// character boundary (the whole string when it holds no more than `n`
/// bytes). A proper tail carries at least `n` and at most `n + 3` bytes.
pub fn get_last_n_chars(s: &str, n: usize) -> (r: &str)
    ensures
        r@ == byte_tail_spec(s@, n as int),
        r@ == s@ || (n <= vstd::utf8::encode_utf8(r@).len() <= n + 3),
{
    let len = s.unicode_len();
    let mut j: usize = len;
    let mut bytes: u128 = 0;
    proof {
        assert(s@.skip(len as int) =~= Seq::<char>::empty());
    }
    while j > 0 && bytes < n as u128
        invariant
            j <= len,
            len == s@.len(),
            bytes as int == utf8_len_of(s@.skip(j as int)),
            j < len ==> utf8_len_of(s@.skip(j as int + 1)) < n,
        decreases j,
    {
        j = j - 1;
        let c = s.get_char(j);
        proof {
            lemma_utf8_suffix_step(s@, j as int);
            lemma_utf8_suffix_mono(s@, 0, j as int);
            assert(s@.skip(0) =~= s@);
            lemma_utf8_len_of_le(s@);
        }
        bytes = bytes + utf8_len_exec(c) as u128;
    }
    proof {
        lemma_byte_tail_at(s@, n as int, j as int);
        lemma_utf8_len_of_matches_encoding(s@.skip(j as int));
        if j == 0 {
            assert(s@.skip(0) =~= s@);
        } else if j == len {
            assert(s@.skip(len as int) =~= Seq::<char>::empty());
        } else {
            lemma_utf8_suffix_step(s@, j as int);
            lemma_utf8_len_bounds(s@[j as int]);
        }
    }
    let r = s.substring_char(j, len);
    proof {
        assert(r@ =~= s@.skip(j as int));
    }
    r
}

/// The first `max` characters followed by an ellipsis, or the whole string
/// when it already fits.
pub open spec fn clip_spec(s: Seq<char>, max: int) -> Seq<char> {
    if s.len() > max {
        s.take(max) + "..."@
    } else {
        s
    }
}

/// Bound a string to `max` characters, marking the cut with an ellipsis.
pub fn clip_chars(s: &str, max: usize) -> (r: String)
    ensures
        r@ == clip_spec(s@, max as int),
{
    let len = s.unicode_len();
    if len > max {
        let mut r = String::from_str(s.substring_char(0, max));
        r.append("...");
        r
    } else {
        s.to_owned()
    }
}


/// A character folded to ASCII lower case.
pub open spec fn lower_char(c: char) -> char {
    if 'A' <= c && c <= 'Z' {
        ((c as u8) + 32) as char
    } else {
        c
    }
}

/// A string folded to ASCII lower case, character by character.
pub open spec fn lower_spec(s: Seq<char>) -> Seq<char> {
    s.map_values(|c: char| lower_char(c))
}

fn lower_char_exec(c: char) -> (r: char)
    ensures
        r == lower_char(c),
{
    if 'A' <= c && c <= 'Z' {
        ((c as u8) + 32) as char
    } else {
        c
    }
}

/// Fold a string to ASCII lower case.
pub fn ascii_lowercase(s: &str) -> (r: String)
    ensures
        r@ == lower_spec(s@),
{
    let len = s.unicode_len();
    let mut r = String::new();
    let mut i: usize = 0;
    while i < len
        invariant
            i <= len,
            len == s@.len(),
            r@ == lower_spec(s@.take(i as int)),
        decreases len - i,
    {
        push_char(&mut r, lower_char_exec(s.get_char(i)));
        proof {
            assert(r@ =~= lower_spec(s@.take(i as int + 1)));
        }
        i = i + 1;
    }
    proof {
        assert(s@.take(len as int) =~= s@);
    }
    r
}


/// The pattern occurs at position `i` of the text.
pub open spec fn match_at(t: Seq<char>, p: Seq<char>, i: int) -> bool {
    0 <= i && i + p.len() <= t.len() && t.subrange(i, i + p.len()) == p
}

/// The pattern occurs somewhere in the text.
pub open spec fn has_substr(t: Seq<char>, p: Seq<char>) -> bool {
    exists|i: int| match_at(t, p, i)
}

/// Whether the pattern occurs in the text.
pub fn contains_sub(t: &str, p: &str) -> (r: bool)
    ensures
        r == has_substr(t@, p@),
{
    let tv = chars_of(t);
    let pv = chars_of(p);
    let tn = tv.len();
    let pn = pv.len();
    if pn > tn {
        proof {
            assert(forall|i: int| !match_at(t@, p@, i));
        }
        return false;
    }
    if pn == 0 {
        proof {
            assert(t@.subrange(0, 0) =~= p@);
            assert(match_at(t@, p@, 0));
        }
        return true;
    }
    let mut i: usize = 0;
    while i <= tn - pn
        invariant
            tv@ == t@,
            pv@ == p@,
            tn == tv@.len(),
            pn == pv@.len(),
            1 <= pn <= tn,
            i <= tn - pn + 1,
            forall|j: int| 0 <= j < i ==> !match_at(t@, p@, j),
        decreases tn - pn + 1 - i,
    {
        let mut k: usize = 0;
        let mut matched = true;
        while k < pn
            invariant
                tv@ == t@,
                pv@ == p@,
                tn == tv@.len(),
                pn == pv@.len(),
                i + pn <= tn,
                k <= pn,
                matched ==> forall|k2: int| 0 <= k2 < k ==> t@[i + k2] == p@[k2],
                !matched ==> !match_at(t@, p@, i as int),
            ensures
                matched ==> forall|k2: int| 0 <= k2 < pn ==> t@[i + k2] == p@[k2],
                !matched ==> !match_at(t@, p@, i as int),
            decreases pn - k,
        {
            if tv[i + k] != pv[k] {
                matched = false;
                proof {
                    assert(t@.subrange(i as int, i + p@.len())[k as int] != p@[k as int]);
                }
                break;
            }
            k = k + 1;
        }
        if matched {
            proof {
                assert(t@.subrange(i as int, i + p@.len()) =~= p@);
                assert(match_at(t@, p@, i as int));
            }
            return true;
        }
        proof {
            assert(!match_at(t@, p@, i as int));
        }
        i = i + 1;
    }
    proof {
        assert(forall|j: int| #![trigger match_at(t@, p@, j)] 0 <= j ==> j + p@.len() <= t@.len()
            ==> j < i);
        assert(!has_substr(t@, p@));
    }
    false
}

/// The text starts with the pattern.
pub open spec fn starts_with_spec(s: Seq<char>, p: Seq<char>) -> bool {
    p.len() <= s.len() && s.subrange(0, p.len() as int) == p
}

/// The text ends with the pattern.
pub open spec fn ends_with_spec(s: Seq<char>, p: Seq<char>) -> bool {
    p.len() <= s.len() && s.subrange(s.len() - p.len(), s.len() as int) == p
}

/// Whether the text starts with the pattern.
pub fn starts_with_str(s: &str, p: &str) -> (r: bool)
    ensures
        r == starts_with_spec(s@, p@),
{
    let sn = s.unicode_len();
    let pn = p.unicode_len();
    if pn > sn {
        return false;
    }
    let mut k: usize = 0;
    while k < pn
        invariant
            sn == s@.len(),
            pn == p@.len(),
            pn <= sn,
            k <= pn,
            forall|k2: int| 0 <= k2 < k ==> s@[k2] == p@[k2],
        decreases pn - k,
    {
        if s.get_char(k) != p.get_char(k) {
            proof {
                assert(s@.subrange(0, p@.len() as int)[k as int] != p@[k as int]);
            }
            return false;
        }
        k = k + 1;
    }
    proof {
        assert(s@.subrange(0, p@.len() as int) =~= p@);
    }
    true
}

/// Whether the text ends with the pattern.
pub fn ends_with_str(s: &str, p: &str) -> (r: bool)
    ensures
        r == ends_with_spec(s@, p@),
{
    let sn = s.unicode_len();
    let pn = p.unicode_len();
    if pn > sn {
        return false;
    }
    let off = sn - pn;
    let mut k: usize = 0;
    while k < pn
        invariant
            sn == s@.len(),
            pn == p@.len(),
            pn <= sn,
            off == sn - pn,
            k <= pn,
            forall|k2: int| 0 <= k2 < k ==> s@[off + k2] == p@[k2],
        decreases pn - k,
    {
        if s.get_char(off + k) != p.get_char(k) {
            proof {
                assert(s@.subrange(s@.len() - p@.len(), s@.len() as int)[k as int] != p@[k as int]);
            }
            return false;
        }
        k = k + 1;
    }
    proof {
        assert(s@.subrange(s@.len() - p@.len(), s@.len() as int) =~= p@);
    }
    true
}

/// The text with every successive copy of the (nonempty) pattern removed from
/// its start.
pub open spec fn strip_prefix_spec(s: Seq<char>, p: Seq<char>) -> Seq<char>
    decreases s.len(),
{
    if p.len() > 0 && starts_with_spec(s, p) {
        strip_prefix_spec(s.skip(p.len() as int), p)
    } else {
        s
    }
}

/// The text with every successive copy of the (nonempty) pattern removed from
/// its end.
pub open spec fn strip_suffix_spec(s: Seq<char>, p: Seq<char>) -> Seq<char>
    decreases s.len(),
{
    if p.len() > 0 && ends_with_spec(s, p) {
        strip_suffix_spec(s.take(s.len() - p.len()), p)
    } else {
        s
    }
}

/// Remove every successive copy of the pattern from the start of the text.
pub fn strip_prefix_all<'a>(s: &'a str, p: &str) -> (r: &'a str)
    ensures
        r@ == strip_prefix_spec(s@, p@),
    decreases s@.len(),
{
    let pn = p.unicode_len();
    if pn > 0 && starts_with_str(s, p) {
        let sn = s.unicode_len();
        let rest = s.substring_char(pn, sn);
        proof {
            assert(rest@ =~= s@.skip(p@.len() as int));
        }
        strip_prefix_all(rest, p)
    } else {
        s
    }
}

/// Remove every successive copy of the pattern from the end of the text.
pub fn strip_suffix_all<'a>(s: &'a str, p: &str) -> (r: &'a str)
    ensures
        r@ == strip_suffix_spec(s@, p@),
    decreases s@.len(),
{
    let pn = p.unicode_len();
    if pn > 0 && ends_with_str(s, p) {
        let sn = s.unicode_len();
        let rest = s.substring_char(0, sn - pn);
        proof {
            assert(rest@ =~= s@.take(s@.len() - p@.len()));
        }
        strip_suffix_all(rest, p)
    } else {
        s
    }
}


/// The character for a hexadecimal digit below sixteen, lower case.
pub open spec fn hex_digit(d: int) -> char
    recommends
        0 <= d < 16,
{
    if d < 10 {
        dec_digit(d)
    } else if d == 10 {
        'a'
    } else if d == 11 {
        'b'
    } else if d == 12 {
        'c'
    } else if d == 13 {
        'd'
    } else if d == 14 {
        'e'
    } else {
        'f'
    }
}

fn hex_digit_exec(d: u32) -> (c: char)
    requires
        d < 16,
    ensures
        c == hex_digit(d as int),
{
    if d < 10 {
        dec_digit_exec(d as u64)
    } else if d == 10 {
        'a'
    } else if d == 11 {
        'b'
    } else if d == 12 {
        'c'
    } else if d == 13 {
        'd'
    } else if d == 14 {
        'e'
    } else {
        'f'
    }
}

/// How one character is written inside a JSON string literal.
pub open spec fn json_escape_char(c: char) -> Seq<char> {
    if c == '"' {
        seq!['\\', '"']
    } else if c == '\\' {
        seq!['\\', '\\']
    } else if c == '\n' {
        seq!['\\', 'n']
    } else if c == '\r' {
        seq!['\\', 'r']
    } else if c == '\t' {
        seq!['\\', 't']
    } else if (c as u32) < 32 {
        seq!['\\', 'u', '0', '0', hex_digit(((c as u32) / 16) as int), hex_digit(
            ((c as u32) % 16) as int,
        )]
    } else {
        seq![c]
    }
}

/// How a whole string is written inside a JSON string literal.
pub open spec fn json_escape_spec(s: Seq<char>) -> Seq<char>
    decreases s.len(),
{
    if s.len() == 0 {
        Seq::empty()
    } else {
        json_escape_spec(s.drop_last()) + json_escape_char(s.last())
    }
}

/// Escape a string for embedding in a JSON string literal.
pub fn json_escape(s: &str) -> (r: String)
    ensures
        r@ == json_escape_spec(s@),
{
    let len = s.unicode_len();
    let mut r = String::new();
    let mut i: usize = 0;
    while i < len
        invariant
            i <= len,
            len == s@.len(),
            r@ == json_escape_spec(s@.take(i as int)),
        decreases len - i,
    {
        let c = s.get_char(i);
        if c == '"' {
            r.append("\\\"");
        } else if c == '\\' {
            r.append("\\\\");
        } else if c == '\n' {
            r.append("\\n");
        } else if c == '\r' {
            r.append("\\r");
        } else if c == '\t' {
            r.append("\\t");
        } else if (c as u32) < 32 {
            r.append("\\u00");
            push_char(&mut r, hex_digit_exec((c as u32) / 16));
            push_char(&mut r, hex_digit_exec((c as u32) % 16));
        } else {
            push_char(&mut r, c);
        }
        proof {
            reveal_strlit("\\\"");
            reveal_strlit("\\\\");
            reveal_strlit("\\n");
            reveal_strlit("\\r");
            reveal_strlit("\\t");
            reveal_strlit("\\u00");
            assert(s@.take(i as int + 1).drop_last() =~= s@.take(i as int));
            assert(s@.take(i as int + 1).last() == s@[i as int]);
            assert(r@ =~= json_escape_spec(s@.take(i as int)) + json_escape_char(s@[i as int]));
        }
        i = i + 1;
    }
    proof {
        assert(s@.take(len as int) =~= s@);
    }
    r
}

} // verus!
