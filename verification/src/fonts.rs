//! Selection of Chinese-capable system fonts.
//!
//! The caller lists the file names of a fonts directory; what is verified
//! here is the selection rule: which names count as font files, which look
//! like Chinese-capable fonts, how they are labelled and prioritized, and
//! the order of the resulting list.

use vstd::prelude::*;
use crate::text::{has_substr, lower_spec, trim_spec};

verus! {

/// One offered system font.
#[derive(Debug)]
pub struct SystemFontOption {
    pub key: String,
    pub label: String,
    pub file_name: String,
    pub pdf_family: String,
}

/// The position just after the last `.` of a name, `-1` when it has none.
pub open spec fn last_dot_index(s: Seq<char>) -> int
    decreases s.len(),
{
    if s.len() == 0 {
        -1
    } else if s.last() == '.' {
        s.len() - 1
    } else {
        last_dot_index(s.drop_last())
    }
}

/// A font file name: an extension after a nonempty stem that folds to `ttf`
/// or `otf`.
pub open spec fn is_font_ext_spec(s: Seq<char>) -> bool {
    let p = last_dot_index(s);
    p > 0 && (lower_spec(s.skip(p + 1)) == "ttf"@ || lower_spec(s.skip(p + 1)) == "otf"@)
}

proof fn lemma_last_dot_of(s: Seq<char>, p: int)
    requires
        0 <= p < s.len(),
        s[p] == '.',
        forall|k: int| p < k < s.len() ==> s[k] != '.',
    ensures
        last_dot_index(s) == p,
    decreases s.len(),
{
    if p < s.len() - 1 {
        lemma_last_dot_of(s.drop_last(), p);
    }
}

proof fn lemma_no_dot(s: Seq<char>)
    requires
        forall|k: int| 0 <= k < s.len() ==> s[k] != '.',
    ensures
        last_dot_index(s) == -1,
    decreases s.len(),
{
    if s.len() > 0 {
        lemma_no_dot(s.drop_last());
    }
}

/// Find the position just after the last `.`, if any.
fn find_last_dot(s: &str) -> (r: Option<usize>)
    ensures
        r matches Some(p) ==> p == last_dot_index(s@) && 0 <= p < s@.len(),
        r is None ==> last_dot_index(s@) == -1,
{
    let len = s.unicode_len();
    let mut i: usize = len;
    while i > 0
        invariant
            i <= len,
            len == s@.len(),
            forall|k: int| i <= k < len ==> s@[k] != '.',
        decreases i,
    {
        i = i - 1;
        if s.get_char(i) == '.' {
            proof {
                lemma_last_dot_of(s@, i as int);
            }
            return Some(i);
        }
    }
    proof {
        lemma_no_dot(s@);
    }
    None
}

/// Whether a file name names a font file (`.ttf` or `.otf`, any case).
pub fn is_font_ext(file_name: &str) -> (r: bool)
    ensures
        r == is_font_ext_spec(file_name@),
{
    match find_last_dot(file_name) {
        Some(p) => {
            if p == 0 {
                return false;
            }
            let len = file_name.unicode_len();
            let ext = file_name.substring_char(p + 1, len);
            let lower = crate::text::ascii_lowercase(ext);
            proof {
                assert(ext@ =~= file_name@.skip(p + 1));
            }
            let ttf = String::from_str("ttf");
            let otf = String::from_str("otf");
            lower.eq(&ttf) || lower.eq(&otf)
        },
        None => false,
    }
}

/// A name that suggests a Chinese-capable font, matched case-insensitively
/// on a fixed keyword list.
pub open spec fn is_chinese_font_spec(lower: Seq<char>) -> bool {
    ||| has_substr(lower, "simsun"@)
    ||| has_substr(lower, "simhei"@)
    ||| has_substr(lower, "simkai"@)
    ||| has_substr(lower, "simfang"@)
    ||| has_substr(lower, "msyh"@)
    ||| has_substr(lower, "deng"@)
    ||| has_substr(lower, "kaiti"@)
    ||| has_substr(lower, "fangsong"@)
    ||| has_substr(lower, "stsong"@)
    ||| has_substr(lower, "stkaiti"@)
    ||| has_substr(lower, "noto"@)
    ||| has_substr(lower, "sourcehan"@)
    ||| has_substr(lower, "source han"@)
    ||| has_substr(lower, "cjk"@)
    ||| has_substr(lower, "han"@)
}

/// Whether an already-lowercased file name suggests a Chinese-capable font.
pub fn is_chinese_font_candidate(file_name_lower: &str) -> (r: bool)
    ensures
        r == is_chinese_font_spec(file_name_lower@),
{
    crate::text::contains_sub(file_name_lower, "simsun")
        || crate::text::contains_sub(file_name_lower, "simhei")
        || crate::text::contains_sub(file_name_lower, "simkai")
        || crate::text::contains_sub(file_name_lower, "simfang")
        || crate::text::contains_sub(file_name_lower, "msyh")
        || crate::text::contains_sub(file_name_lower, "deng")
        || crate::text::contains_sub(file_name_lower, "kaiti")
        || crate::text::contains_sub(file_name_lower, "fangsong")
        || crate::text::contains_sub(file_name_lower, "stsong")
        || crate::text::contains_sub(file_name_lower, "stkaiti")
        || crate::text::contains_sub(file_name_lower, "noto")
        || crate::text::contains_sub(file_name_lower, "sourcehan")
        || crate::text::contains_sub(file_name_lower, "source han")
        || crate::text::contains_sub(file_name_lower, "cjk")
        || crate::text::contains_sub(file_name_lower, "han")
}

/// The rank of a font name: the classic faces first, a stock rank last.
pub open spec fn font_priority_spec(lower: Seq<char>) -> u8 {
    if has_substr(lower, "simsun"@) {
        0u8
    } else if has_substr(lower, "simhei"@) {
        1u8
    } else if has_substr(lower, "simkai"@) || has_substr(lower, "stkaiti"@) {
        2u8
    } else if has_substr(lower, "msyh"@) {
        3u8
    } else if has_substr(lower, "deng"@) {
        4u8
    } else if has_substr(lower, "noto"@) {
        5u8
    } else {
        10u8
    }
}

/// Rank an already-lowercased font file name.
pub fn font_priority(file_name_lower: &str) -> (r: u8)
    ensures
        r == font_priority_spec(file_name_lower@),
{
    if crate::text::contains_sub(file_name_lower, "simsun") {
        0
    } else if crate::text::contains_sub(file_name_lower, "simhei") {
        1
    } else if crate::text::contains_sub(file_name_lower, "simkai") || crate::text::contains_sub(
        file_name_lower,
        "stkaiti",
    ) {
        2
    } else if crate::text::contains_sub(file_name_lower, "msyh") {
        3
    } else if crate::text::contains_sub(file_name_lower, "deng") {
        4
    } else if crate::text::contains_sub(file_name_lower, "noto") {
        5
    } else {
        10
    }
}

/// The label a font family is shown under.
pub open spec fn display_name_spec(lower: Seq<char>) -> Seq<char> {
    if has_substr(lower, "simsun"@) || has_substr(lower, "stsong"@) {
        "宋体"@
    } else if has_substr(lower, "simhei"@) {
        "黑体"@
    } else if has_substr(lower, "simkai"@) || has_substr(lower, "stkaiti"@) {
        "楷体"@
    } else if has_substr(lower, "msyh"@) {
        "微软雅黑"@
    } else if has_substr(lower, "deng"@) {
        "等线"@
    } else if has_substr(lower, "noto"@) && has_substr(lower, "serif"@) {
        "思源宋体"@
    } else if has_substr(lower, "noto"@) {
        "思源黑体"@
    } else {
        "中文字体"@
    }
}

/// The label for an already-lowercased font file name.
pub fn display_name(file_name_lower: &str) -> (r: &'static str)
    ensures
        r@ == display_name_spec(file_name_lower@),
{
    if crate::text::contains_sub(file_name_lower, "simsun") || crate::text::contains_sub(
        file_name_lower,
        "stsong",
    ) {
        "宋体"
    } else if crate::text::contains_sub(file_name_lower, "simhei") {
        "黑体"
    } else if crate::text::contains_sub(file_name_lower, "simkai") || crate::text::contains_sub(
        file_name_lower,
        "stkaiti",
    ) {
        "楷体"
    } else if crate::text::contains_sub(file_name_lower, "msyh") {
        "微软雅黑"
    } else if crate::text::contains_sub(file_name_lower, "deng") {
        "等线"
    } else if crate::text::contains_sub(file_name_lower, "noto") && crate::text::contains_sub(
        file_name_lower,
        "serif",
    ) {
        "思源宋体"
    } else if crate::text::contains_sub(file_name_lower, "noto") {
        "思源黑体"
    } else {
        "中文字体"
    }
}

/// The stem of a file name: what stands before the last `.`, the whole name
/// when there is no dot or the dot comes first, and `font` for an empty name.
pub open spec fn stem_spec(s: Seq<char>) -> Seq<char> {
    if s.len() == 0 {
        "font"@
    } else {
        let p = last_dot_index(s);
        if p > 0 {
            s.take(p)
        } else {
            s
        }
    }
}

/// A stem character as it may appear in an internal PDF family name.
pub open spec fn family_char(c: char) -> char {
    if ('0' <= c && c <= '9') || ('A' <= c && c <= 'Z') || ('a' <= c && c <= 'z') {
        c
    } else {
        '_'
    }
}

/// The internal PDF family name of a font file: `sys_` and the stem with
/// every character outside ASCII alphanumerics replaced by `_`.
pub open spec fn pdf_family_spec(s: Seq<char>) -> Seq<char> {
    "sys_"@ + stem_spec(s).map_values(|c: char| family_char(c))
}

/// Derive the internal PDF family name of a font file.
pub fn sanitize_pdf_family(file_name: &str) -> (r: String)
    ensures
        r@ == pdf_family_spec(file_name@),
{
    let len = file_name.unicode_len();
    let stem: &str = if len == 0 {
        proof {
            reveal_strlit("font");
        }
        "font"
    } else {
        match find_last_dot(file_name) {
            Some(p) => {
                if p > 0 {
                    let st = file_name.substring_char(0, p);
                    proof {
                        assert(st@ =~= file_name@.take(p as int));
                    }
                    st
                } else {
                    file_name
                }
            },
            None => file_name,
        }
    };
    let mut r = String::new();
    r.append("sys_");
    let stem_len = stem.unicode_len();
    let mut i: usize = 0;
    while i < stem_len
        invariant
            i <= stem_len,
            stem_len == stem@.len(),
            r@ == "sys_"@ + stem@.take(i as int).map_values(|c: char| family_char(c)),
        decreases stem_len - i,
    {
        let c = stem.get_char(i);
        if ('0' <= c && c <= '9') || ('A' <= c && c <= 'Z') || ('a' <= c && c <= 'z') {
            crate::text::push_char(&mut r, c);
        } else {
            crate::text::push_char(&mut r, '_');
        }
        proof {
            assert(r@ =~= "sys_"@ + stem@.take(i as int + 1).map_values(
                |c: char| family_char(c),
            ));
        }
        i = i + 1;
    }
    proof {
        assert(stem@.take(stem_len as int) =~= stem@);
    }
    r
}

/// A file name safe to resolve inside the fonts directory: not blank, no
/// path separators, no parent references.
pub open spec fn safe_file_name_spec(s: Seq<char>) -> bool {
    &&& trim_spec(s).len() > 0
    &&& !has_substr(s, "/"@)
    &&& !has_substr(s, "\\"@)
    &&& !has_substr(s, ".."@)
}

/// Whether a file name is safe to resolve inside the fonts directory.
pub fn is_safe_file_name(file_name: &str) -> (r: bool)
    ensures
        r == safe_file_name_spec(file_name@),
{
    if crate::text::is_blank(file_name) {
        return false;
    }
    if crate::text::contains_sub(file_name, "/") || crate::text::contains_sub(file_name, "\\") {
        return false;
    }
    if crate::text::contains_sub(file_name, "..") {
        return false;
    }
    true
}


/// A file name is offered when it is a font file whose name suggests
/// Chinese support.
pub open spec fn font_accept_spec(name: Seq<char>) -> bool {
    is_font_ext_spec(name) && is_chinese_font_spec(lower_spec(name))
}

/// The names of a listing that are offered, in listing order.
pub open spec fn accepted_font_names(names: Seq<Seq<char>>) -> Seq<Seq<char>>
    decreases names.len(),
{
    if names.len() == 0 {
        Seq::<Seq<char>>::empty()
    } else {
        accepted_font_names(names.drop_last()) + (if font_accept_spec(names.last()) {
            seq![names.last()]
        } else {
            Seq::<Seq<char>>::empty()
        })
    }
}

/// The option offered for an accepted file name: keyed by the name,
/// labelled with the family and the name, carrying the derived PDF family.
pub open spec fn font_option_matches(o: SystemFontOption, name: Seq<char>) -> bool {
    &&& o.key@ == name
    &&& o.label@ == display_name_spec(lower_spec(name)) + " ("@ + name + ")"@
    &&& o.file_name@ == name
    &&& o.pdf_family@ == pdf_family_spec(name)
}

/// Lexicographic order on code points.
pub open spec fn lex_le(x: Seq<char>, y: Seq<char>) -> bool
    decreases x.len(),
{
    if x.len() == 0 {
        true
    } else if y.len() == 0 {
        false
    } else if (x[0] as u32) < (y[0] as u32) {
        true
    } else if (x[0] as u32) > (y[0] as u32) {
        false
    } else {
        lex_le(x.skip(1), y.skip(1))
    }
}

proof fn lemma_lex_le_total(x: Seq<char>, y: Seq<char>)
    ensures
        lex_le(x, y) || lex_le(y, x),
    decreases x.len(),
{
    if x.len() > 0 && y.len() > 0 && x[0] as u32 == y[0] as u32 {
        lemma_lex_le_total(x.skip(1), y.skip(1));
    }
}

proof fn lemma_lex_le_trans(x: Seq<char>, y: Seq<char>, z: Seq<char>)
    requires
        lex_le(x, y),
        lex_le(y, z),
    ensures
        lex_le(x, z),
    decreases x.len(),
{
    if x.len() > 0 && y.len() > 0 && z.len() > 0 {
        if x[0] as u32 == y[0] as u32 && y[0] as u32 == z[0] as u32 {
            lemma_lex_le_trans(x.skip(1), y.skip(1), z.skip(1));
        }
    }
}

/// The listing order of offered fonts: rank first, then the file name.
pub open spec fn font_le(p1: u8, n1: Seq<char>, p2: u8, n2: Seq<char>) -> bool {
    p1 < p2 || (p1 == p2 && lex_le(n1, n2))
}

/// Whether one string sorts at or before another, code point by code point.
pub fn lex_le_str(x: &str, y: &str) -> (r: bool)
    ensures
        r == lex_le(x@, y@),
{
    let xn = x.unicode_len();
    let yn = y.unicode_len();
    proof {
        assert(x@.skip(0) =~= x@);
        assert(y@.skip(0) =~= y@);
    }
    let mut i: usize = 0;
    loop
        invariant
            i <= xn,
            i <= yn,
            xn == x@.len(),
            yn == y@.len(),
            lex_le(x@, y@) == lex_le(x@.skip(i as int), y@.skip(i as int)),
        decreases xn - i,
    {
        proof {
            if i < xn && i < yn {
                assert(x@.skip(i as int).skip(1) =~= x@.skip(i as int + 1));
                assert(y@.skip(i as int).skip(1) =~= y@.skip(i as int + 1));
            }
        }
        if i >= xn {
            return true;
        }
        if i >= yn {
            return false;
        }
        let cx = x.get_char(i) as u32;
        let cy = y.get_char(i) as u32;
        if cx < cy {
            return true;
        }
        if cx > cy {
            return false;
        }
        i = i + 1;
    }
}

struct FontEntry {
    priority: u8,
    name: String,
    option: SystemFontOption,
}

/// The file names of a run of options, in order.
pub open spec fn option_names(os: Seq<SystemFontOption>) -> Seq<Seq<char>> {
    os.map_values(|o: SystemFontOption| o.file_name@)
}

/// A run of file names in listing order: rank first, then the name.
pub open spec fn names_sorted(ns: Seq<Seq<char>>) -> bool {
    forall|a: int, b: int|
        0 <= a < b < ns.len() ==> font_le(
            font_priority_spec(lower_spec(#[trigger] ns[a])),
            ns[a],
            font_priority_spec(lower_spec(#[trigger] ns[b])),
            ns[b],
        )
}

/// The offered names are the least of the accepted ones: there is a sorted
/// arrangement of all accepted names of which the output is the whole (when
/// it fits) or exactly the first `MAX_FONTS`.
pub open spec fn sorted_selection(out_names: Seq<Seq<char>>, accepted: Seq<Seq<char>>) -> bool {
    exists|all: Seq<Seq<char>>|
        {
            &&& #[trigger] all.to_multiset() == accepted.to_multiset()
            &&& names_sorted(all)
            &&& out_names == if accepted.len() <= MAX_FONTS {
                all
            } else {
                all.take(MAX_FONTS as int)
            }
        }
}

/// An option derived from some accepted name of the listing.
pub open spec fn option_from(o: SystemFontOption, names: Seq<Seq<char>>) -> bool {
    exists|k: int|
        0 <= k < names.len() && font_accept_spec(#[trigger] names[k]) && font_option_matches(
            o,
            names[k],
        )
}

/// An entry derived from an accepted name of the listing.
spec fn entry_from(e: FontEntry, names: Seq<Seq<char>>) -> bool {
    exists|k: int|
        0 <= k < names.len() && font_accept_spec(#[trigger] names[k]) && e.name@ == names[k]
            && e.priority == font_priority_spec(lower_spec(names[k])) && font_option_matches(
            e.option,
            names[k],
        )
}

spec fn entry_le(a: FontEntry, b: FontEntry) -> bool {
    font_le(a.priority, a.name@, b.priority, b.name@)
}

proof fn lemma_entry_le_total(a: FontEntry, b: FontEntry)
    ensures
        entry_le(a, b) || entry_le(b, a),
{
    lemma_lex_le_total(a.name@, b.name@);
}

proof fn lemma_entry_le_trans(a: FontEntry, b: FontEntry, c: FontEntry)
    requires
        entry_le(a, b),
        entry_le(b, c),
    ensures
        entry_le(a, c),
{
    if a.priority == b.priority && b.priority == c.priority {
        lemma_lex_le_trans(a.name@, b.name@, c.name@);
    }
}

fn entry_le_exec(a: &FontEntry, b: &FontEntry) -> (r: bool)
    ensures
        r == entry_le(*a, *b),
{
    a.priority < b.priority || (a.priority == b.priority && lex_le_str(
        a.name.as_str(),
        b.name.as_str(),
    ))
}

/// The file names of a run of entries, in order.
spec fn entry_names(es: Seq<FontEntry>) -> Seq<Seq<char>> {
    es.map_values(|e: FontEntry| e.name@)
}

/// Sort entries by rank, then name; the elements are exactly those that
/// went in, name for name.
fn sort_entries(v: &mut Vec<FontEntry>)
    ensures
        final(v)@.len() == old(v)@.len(),
        forall|x: FontEntry| final(v)@.contains(x) ==> old(v)@.contains(x),
        entry_names(final(v)@).to_multiset() == entry_names(old(v)@).to_multiset(),
        forall|a: int, b: int|
            0 <= a < b < final(v)@.len() ==> entry_le(final(v)@[a], final(v)@[b]),
{
    let n = v.len();
    if n <= 1 {
        return;
    }
    let mut i: usize = 1;
    while i < n
        invariant
            1 <= i <= n,
            v@.len() == n,
            n == old(v)@.len(),
            forall|x: FontEntry| v@.contains(x) ==> old(v)@.contains(x),
            entry_names(v@).to_multiset() == entry_names(old(v)@).to_multiset(),
            forall|a: int, b: int| 0 <= a < b < i ==> entry_le(v@[a], v@[b]),
        decreases n - i,
    {
        let mut j: usize = i;
        while j > 0 && !entry_le_exec(&v[j - 1], &v[j])
            invariant
                j <= i < n,
                v@.len() == n,
                n == old(v)@.len(),
                forall|x: FontEntry| v@.contains(x) ==> old(v)@.contains(x),
                entry_names(v@).to_multiset() == entry_names(old(v)@).to_multiset(),
                forall|a: int, b: int| 0 <= a < b <= i && b != j ==> entry_le(v@[a], v@[b]),
                forall|b: int| j < b <= i ==> entry_le(v@[j as int], v@[b]),
            decreases j,
        {
            let ghost v0 = v@;
            let e = v.remove(j);
            v.insert(j - 1, e);
            proof {
                assert(v@ =~= v0.update(j - 1, v0[j as int]).update(j as int, v0[j - 1]));
                broadcast use vstd::seq_lib::to_multiset_update;
                broadcast use vstd::seq_lib::to_multiset_contains;

                let m0 = entry_names(v0);
                let m1 = m0.update(j - 1, m0[j as int]);
                assert(entry_names(v@) =~= m1.update(j as int, m0[j - 1]));
                assert(m1[j as int] == m0[j as int]);
                assert(m1.to_multiset() == m0.to_multiset().insert(m0[j as int]).remove(
                    m0[j - 1],
                ));
                assert(entry_names(v@).to_multiset() == m1.to_multiset().insert(m0[j - 1]).remove(
                    m1[j as int],
                ));
                assert(m0.contains(m0[j - 1]));
                assert(m0.to_multiset().count(m0[j - 1]) > 0);
                assert(entry_names(v@).to_multiset() =~= m0.to_multiset());
                lemma_entry_le_total(v0[j - 1], v0[j as int]);
                assert forall|x: FontEntry| v@.contains(x) implies old(v)@.contains(x) by {
                    let idx = choose|idx: int| 0 <= idx < v@.len() && v@[idx] == x;
                    assert(v0.contains(v@[idx]));
                }
                assert forall|a: int, b: int|
                    0 <= a < b <= i && b != j - 1 implies entry_le(v@[a], v@[b]) by {
                    if b == j {
                        assert(v@[b] == v0[j - 1]);
                        if a == j - 1 {
                            assert(v@[a] == v0[j as int]);
                        } else {
                            assert(v@[a] == v0[a]);
                        }
                    }
                }
                assert forall|b: int| j - 1 < b <= i implies entry_le(v@[j - 1], #[trigger] v@[b]) by {
                    assert(v@[j - 1] == v0[j as int]);
                    if b == j {
                        assert(v@[b] == v0[j - 1]);
                    } else {
                        assert(v@[b] == v0[b]);
                    }
                }
            }
            j = j - 1;
        }
        proof {
            assert forall|a: int, b: int| 0 <= a < b <= i implies entry_le(v@[a], v@[b]) by {
                if b == j {
                    if a < j - 1 {
                        assert(entry_le(v@[a], v@[j - 1]));
                        assert(entry_le(v@[j - 1], v@[j as int]));
                        lemma_entry_le_trans(v@[a], v@[j - 1], v@[j as int]);
                    }
                }
            }
        }
        i = i + 1;
    }
}

/// At most this many fonts are offered.
pub const MAX_FONTS: usize = 80;

/// The message reported when the listing holds no usable font.
pub open spec fn no_fonts_message() -> Seq<char> {
    "未找到可用中文系统字体"@
}

/// Offer the Chinese-capable fonts of a directory listing: accepted names
/// become options labelled with their family, ordered by rank and then by
/// name, at most `MAX_FONTS` of them; a listing without any is an error.
pub fn select_system_fonts(file_names: &Vec<String>) -> (r: Result<Vec<SystemFontOption>, String>)
    ensures
        ({
            let accepted = accepted_font_names(file_names.deep_view());
            &&& accepted.len() == 0 <==> (r matches Err(m) && m@ == no_fonts_message())
            &&& (r matches Ok(v) ==> {
                &&& v@.len() == (if accepted.len() <= MAX_FONTS {
                    accepted.len() as int
                } else {
                    MAX_FONTS as int
                })
                &&& forall|idx: int|
                    0 <= idx < v@.len() ==> option_from(#[trigger] v@[idx], file_names.deep_view())
                &&& forall|a: int, b: int|
                    0 <= a < b < v@.len() ==> font_le(
                        font_priority_spec(lower_spec(v@[a].file_name@)),
                        v@[a].file_name@,
                        font_priority_spec(lower_spec(v@[b].file_name@)),
                        v@[b].file_name@,
                    )
                &&& sorted_selection(option_names(v@), accepted)
            })
        }),
{
    let ghost names = file_names.deep_view();
    let mut entries: Vec<FontEntry> = Vec::new();
    let mut i: usize = 0;
    while i < file_names.len()
        invariant
            i <= file_names@.len(),
            names == file_names.deep_view(),
            entry_names(entries@) == accepted_font_names(names.take(i as int)),
            forall|idx: int|
                0 <= idx < entries@.len() ==> entry_from(#[trigger] entries@[idx], names),
        decreases file_names@.len() - i,
    {
        let name = &file_names[i];
        let lower = crate::text::ascii_lowercase(name.as_str());
        proof {
            assert(names.take(i as int + 1).drop_last() =~= names.take(i as int));
            assert(names.take(i as int + 1).last() == names[i as int]);
            assert(names[i as int] == file_names@[i as int]@);
        }
        if is_font_ext(name.as_str()) && is_chinese_font_candidate(lower.as_str()) {
            let priority = font_priority(lower.as_str());
            let mut label = String::new();
            label.append(display_name(lower.as_str()));
            label.append(" (");
            label.append(name.as_str());
            label.append(")");
            let option = SystemFontOption {
                key: name.clone(),
                label,
                file_name: name.clone(),
                pdf_family: sanitize_pdf_family(name.as_str()),
            };
            proof {
                assert(option.label@ =~= display_name_spec(lower_spec(names[i as int])) + " ("@
                    + names[i as int] + ")"@);
                assert(font_option_matches(option, names[i as int]));
            }
            let entry = FontEntry { priority, name: name.clone(), option };
            let ghost before = entries@;
            entries.push(entry);
            proof {
                assert(entry_from(entries@.last(), names));
                assert(entry_names(entries@) =~= entry_names(before) + seq![entry.name@]);
            }
        }
        proof {
            assert(entry_names(entries@) =~= accepted_font_names(names.take(i as int + 1)));
        }
        i = i + 1;
    }
    proof {
        assert(names.take(names.len() as int) =~= names);
    }
    let ghost built = entries@;
    sort_entries(&mut entries);
    proof {
        assert forall|idx: int|
            0 <= idx < entries@.len() implies entry_from(#[trigger] entries@[idx], names) by {
            assert(entries@.contains(entries@[idx]));
            assert(built.contains(entries@[idx]));
            let j = choose|j: int| 0 <= j < built.len() && built[j] == entries@[idx];
            assert(entry_from(built[j], names));
        }
    }
    if entries.len() == 0 {
        return Err(String::from_str("未找到可用中文系统字体"));
    }
    let ghost sorted_full = entries@;
    proof {
        assert(forall|idx: int|
            0 <= idx < sorted_full.len() ==> entry_from(#[trigger] sorted_full[idx], names));
        assert(forall|a: int, b: int|
            0 <= a < b < sorted_full.len() ==> entry_le(sorted_full[a], sorted_full[b]));
        assert(entry_names(sorted_full).to_multiset() == entry_names(built).to_multiset());
        assert(entry_names(built) == accepted_font_names(names));
    }
    entries.truncate(MAX_FONTS);
    proof {
        assert forall|idx: int|
            0 <= idx < entries@.len() implies entry_from(#[trigger] entries@[idx], names) by {
            assert(entries@[idx] == sorted_full[idx]);
        }
        assert forall|a: int, b: int|
            0 <= a < b < entries@.len() implies entry_le(entries@[a], entries@[b]) by {
            assert(entries@[a] == sorted_full[a]);
            assert(entries@[b] == sorted_full[b]);
        }
    }
    let mut out: Vec<SystemFontOption> = Vec::new();
    let mut k: usize = 0;
    while k < entries.len()
        invariant
            k <= entries@.len(),
            out@.len() == k,
            forall|idx: int| 0 <= idx < entries@.len() ==> entry_from(#[trigger] entries@[idx], names),
            forall|a: int, b: int|
                0 <= a < b < entries@.len() ==> entry_le(entries@[a], entries@[b]),
            forall|idx: int| 0 <= idx < k ==> out@[idx] == entries@[idx].option,
        decreases entries@.len() - k,
    {
        let e = &entries[k];
        out.push(SystemFontOption {
            key: e.option.key.clone(),
            label: e.option.label.clone(),
            file_name: e.option.file_name.clone(),
            pdf_family: e.option.pdf_family.clone(),
        });
        k = k + 1;
    }
    proof {
        assert forall|idx: int|
            0 <= idx < out@.len() implies option_from(#[trigger] out@[idx], names) by {
            assert(entry_from(entries@[idx], names));
            let kk = choose|kk: int|
                0 <= kk < names.len() && font_accept_spec(#[trigger] names[kk]) && entries@[idx].name@
                    == names[kk] && entries@[idx].priority == font_priority_spec(
                    lower_spec(names[kk]),
                ) && font_option_matches(entries@[idx].option, names[kk]);
            assert(out@[idx] == entries@[idx].option);
            assert(font_option_matches(out@[idx], names[kk]));
        }
        assert forall|a: int, b: int| 0 <= a < b < out@.len() implies font_le(
            font_priority_spec(lower_spec(#[trigger] out@[a].file_name@)),
            out@[a].file_name@,
            font_priority_spec(lower_spec(#[trigger] out@[b].file_name@)),
            out@[b].file_name@,
        ) by {
            assert(entry_le(entries@[a], entries@[b]));
            assert(entry_from(entries@[a], names));
            assert(entry_from(entries@[b], names));
            let ka = choose|k: int|
                0 <= k < names.len() && font_accept_spec(#[trigger] names[k])
                    && entries@[a].name@ == names[k] && entries@[a].priority
                    == font_priority_spec(lower_spec(names[k])) && font_option_matches(
                    entries@[a].option,
                    names[k],
                );
            let kb = choose|k: int|
                0 <= k < names.len() && font_accept_spec(#[trigger] names[k])
                    && entries@[b].name@ == names[k] && entries@[b].priority
                    == font_priority_spec(lower_spec(names[k])) && font_option_matches(
                    entries@[b].option,
                    names[k],
                );
            assert(out@[a] == entries@[a].option);
            assert(out@[b] == entries@[b].option);
            assert(out@[a].file_name@ == entries@[a].name@);
            assert(out@[b].file_name@ == entries@[b].name@);
        }
        let accepted = accepted_font_names(names);
        let all = entry_names(sorted_full);
        assert(all.to_multiset() == accepted.to_multiset());
        assert forall|a: int, b: int| 0 <= a < b < all.len() implies font_le(
            font_priority_spec(lower_spec(#[trigger] all[a])),
            all[a],
            font_priority_spec(lower_spec(#[trigger] all[b])),
            all[b],
        ) by {
            assert(entry_le(sorted_full[a], sorted_full[b]));
            assert(entry_from(sorted_full[a], names));
            assert(entry_from(sorted_full[b], names));
            let ka = choose|kk: int|
                0 <= kk < names.len() && font_accept_spec(#[trigger] names[kk])
                    && sorted_full[a].name@ == names[kk] && sorted_full[a].priority
                    == font_priority_spec(lower_spec(names[kk])) && font_option_matches(
                    sorted_full[a].option,
                    names[kk],
                );
            let kb = choose|kk: int|
                0 <= kk < names.len() && font_accept_spec(#[trigger] names[kk])
                    && sorted_full[b].name@ == names[kk] && sorted_full[b].priority
                    == font_priority_spec(lower_spec(names[kk])) && font_option_matches(
                    sorted_full[b].option,
                    names[kk],
                );
        }
        assert(names_sorted(all));
        assert forall|idx: int|
            0 <= idx < out@.len() implies #[trigger] option_names(out@)[idx] == entry_names(
            entries@,
        )[idx] by {
            assert(entry_from(entries@[idx], names));
            let kk = choose|kk: int|
                0 <= kk < names.len() && font_accept_spec(#[trigger] names[kk])
                    && entries@[idx].name@ == names[kk] && entries@[idx].priority
                    == font_priority_spec(lower_spec(names[kk])) && font_option_matches(
                    entries@[idx].option,
                    names[kk],
                );
            assert(out@[idx] == entries@[idx].option);
            assert(out@[idx].file_name@ == entries@[idx].name@);
        }
        assert(option_names(out@) =~= entry_names(entries@));
        if accepted.len() <= MAX_FONTS {
            assert(entries@ =~= sorted_full);
            assert(option_names(out@) == all);
        } else {
            assert(entries@ =~= sorted_full.take(MAX_FONTS as int));
            assert(entry_names(entries@) =~= all.take(MAX_FONTS as int));
            assert(option_names(out@) == all.take(MAX_FONTS as int));
        }
        assert(sorted_selection(option_names(out@), accepted));
    }
    Ok(out)
}

} // verus!
