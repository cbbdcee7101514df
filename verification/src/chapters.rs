//! Chapter progress detection.
//!
//! Outline text is scanned for structural chapter headings of the form
//! `第N章` ("Chapter N"). The highest chapter number found drives the
//! continuation policy; it is recomputed from the whole transcript after
//! every round, so it is purely a function of the text.

use vstd::prelude::*;

verus! {

/// An ASCII decimal digit.
pub open spec fn is_digit_char(c: char) -> bool {
    '0' <= c && c <= '9'
}

/// The value of one ASCII decimal digit.
pub open spec fn digit_val(c: char) -> int {
    c as u32 - 48
}

/// The value of a string of ASCII decimal digits.
pub open spec fn digits_val(s: Seq<char>) -> nat
    decreases s.len(),
{
    if s.len() == 0 {
        0
    } else {
        (digits_val(s.drop_last()) * 10 + digit_val(s.last())) as nat
    }
}

/// The length of the run of digits starting at position `k`.
pub open spec fn run_len(t: Seq<char>, k: int) -> int
    decreases t.len() - k,
{
    if 0 <= k < t.len() && is_digit_char(t[k]) {
        1 + run_len(t, k + 1)
    } else {
        0
    }
}

/// A chapter marker stands at position `i`: the character `第`, then at
/// least one digit, then the character `章` immediately after the digits.
pub open spec fn marker_at(t: Seq<char>, i: int) -> bool {
    &&& 0 <= i < t.len()
    &&& t[i] == '第'
    &&& run_len(t, i + 1) > 0
    &&& i + 1 + run_len(t, i + 1) < t.len()
    &&& t[i + 1 + run_len(t, i + 1)] == '章'
}

/// The chapter number written at the marker at position `i`.
pub open spec fn marker_value(t: Seq<char>, i: int) -> nat {
    digits_val(t.subrange(i + 1, i + 1 + run_len(t, i + 1)))
}

/// The number a marker contributes to the maximum: markers whose number does
/// not fit a 32-bit value are ignored, as the original numeric parse of such
/// a heading fails and the heading is skipped.
pub open spec fn marker_candidate(t: Seq<char>, i: int) -> nat {
    if marker_at(t, i) && marker_value(t, i) <= 0xffff_ffff {
        marker_value(t, i)
    } else {
        0
    }
}

/// The highest chapter number marked at or after position `i`.
pub open spec fn max_chapter_from(t: Seq<char>, i: int) -> nat
    decreases t.len() - i,
{
    if 0 <= i < t.len() {
        let here = marker_candidate(t, i);
        let rest = max_chapter_from(t, i + 1);
        if here >= rest {
            here
        } else {
            rest
        }
    } else {
        0
    }
}

/// The highest chapter number marked anywhere in the text, zero when no
/// marker occurs.
pub open spec fn max_chapter(t: Seq<char>) -> nat {
    max_chapter_from(t, 0)
}

proof fn lemma_run_len_of(t: Seq<char>, k: int, j: int)
    requires
        0 <= k <= j <= t.len(),
        forall|x: int| k <= x < j ==> is_digit_char(t[x]),
        j == t.len() || !is_digit_char(t[j]),
    ensures
        run_len(t, k) == j - k,
    decreases j - k,
{
    if k < j {
        lemma_run_len_of(t, k + 1, j);
    }
}

fn is_digit_exec(c: char) -> (r: bool)
    ensures
        r == is_digit_char(c),
{
    '0' <= c && c <= '9'
}

/// Scan a text for `第N章` chapter headings and return the highest chapter
/// number found, zero when there is none. Headings whose number does not fit
/// a 32-bit value are skipped.
pub fn find_last_chapter_number(content: &str) -> (r: u32)
    ensures
        r as nat == max_chapter(content@),
{
    let tv = crate::text::chars_of(content);
    let len = tv.len();
    let ghost t = content@;
    let mut m: u32 = 0;
    let mut i: usize = len;
    while i > 0
        invariant
            tv@ == t,
            len == t.len(),
            i <= len,
            m as nat == max_chapter_from(t, i as int),
        decreases i,
    {
        i = i - 1;
        let mut cand: u32 = 0;
        if tv[i] == '第' {
            let mut j: usize = i + 1;
            let mut val: u64 = 0;
            let mut ovf = false;
            while j < len && is_digit_exec(tv[j])
                invariant
                    tv@ == t,
                    len == t.len(),
                    i + 1 <= j <= len,
                    forall|x: int| i + 1 <= x < j ==> is_digit_char(t[x]),
                    !ovf ==> val <= 0xffff_ffff && val as nat == digits_val(
                        t.subrange(i + 1, j as int),
                    ),
                    ovf ==> digits_val(t.subrange(i + 1, j as int)) > 0xffff_ffff,
                decreases len - j,
            {
                let d: u64 = (tv[j] as u32 - 48) as u64;
                let ghost run0 = t.subrange(i + 1, j as int);
                let ghost run1 = t.subrange(i + 1, j as int + 1);
                proof {
                    assert(run1.drop_last() =~= run0);
                    assert(run1.last() == t[j as int]);
                    assert(digits_val(run1) == digits_val(run0) * 10 + digit_val(t[j as int]));
                }
                if !ovf {
                    let next = val * 10 + d;
                    if next > 0xffff_ffff {
                        ovf = true;
                    } else {
                        val = next;
                    }
                }
                j = j + 1;
            }
            proof {
                lemma_run_len_of(t, i as int + 1, j as int);
            }
            if j > i + 1 && j < len && tv[j] == '章' {
                proof {
                    assert(marker_at(t, i as int));
                    assert(marker_value(t, i as int) == digits_val(t.subrange(i + 1, j as int)));
                }
                if !ovf {
                    cand = val as u32;
                }
            } else {
                proof {
                    assert(!marker_at(t, i as int));
                }
            }
        }
        proof {
            assert(cand as nat == marker_candidate(t, i as int));
        }
        if cand > m {
            m = cand;
        }
    }
    m
}

} // verus!
