use vstd::prelude::*;
use crate::error::{ContentError, ContentErrorView, message};
use crate::outside::{
    dom_load_error, markup_load_error, unicode_trim, trim, html_entities_decoded, decode_html, ascii_upper_char,
    word_at_ci, word_at, doctype_word, svg_word, math_word, cdata_open_word, doctype_risky, doctypes_plain, has_cdata_open, special_tags_lowercase, safe_markup, tag_name_stop, ends_in_tag_name, ident_start,
};
use crate::text::chars_of;

verus! {

/// Loading `html` succeeds, or fails with the loader's message; markup that the loader
/// cannot be trusted to parse without panicking is refused as unsupported.
pub open spec fn load_spec(html: Seq<char>) -> Result<(), ContentErrorView> {
    if !safe_markup(html) {
        Err(ContentErrorView::Message("Unsupported markup"@))
    } else {
        match dom_load_error(html) {
            Some(m) => Err(ContentErrorView::Message(m)),
            None => Ok(()),
        }
    }
}

/// Whether the word `lower` (with `upper` its ASCII uppercase form) stands at `p` in `s`,
/// in any ASCII case.
fn word_at_ci_exec(s: &Vec<char>, p: usize, lower: &[char], upper: &[char]) -> (r: bool)
    requires
        lower@.len() == upper@.len(),
        forall|m: int| 0 <= m < lower@.len() ==> upper@[m] == ascii_upper_char(#[trigger] lower@[m]),
    ensures
        r == word_at_ci(s@, p as int, lower@),
{
    if p > s.len() || lower.len() > s.len() - p {
        return false;
    }
    let n = s.len();
    let mut m: usize = 0;
    while m < lower.len()
        invariant
            n == s@.len(),
            m <= lower@.len(),
            lower@.len() == upper@.len(),
            p + lower@.len() <= s@.len(),
            forall|j: int| 0 <= j < lower@.len() ==> upper@[j] == ascii_upper_char(#[trigger] lower@[j]),
            forall|j: int| 0 <= j < m ==> (#[trigger] s@[p + j] == lower@[j] || s@[p + j] == ascii_upper_char(lower@[j])),
        decreases lower@.len() - m,
    {
        let c = s[p + m];
        if c != lower[m] && c != upper[m] {
            return false;
        }
        m += 1;
    }
    true
}

/// Whether the word `w` stands at `p` in `s`, exactly.
fn word_at_exec(s: &Vec<char>, p: usize, w: &[char]) -> (r: bool)
    ensures
        r == word_at(s@, p as int, w@),
{
    if p > s.len() || w.len() > s.len() - p {
        return false;
    }
    let n = s.len();
    let mut m: usize = 0;
    while m < w.len()
        invariant
            n == s@.len(),
            m <= w@.len(),
            p + w@.len() <= s@.len(),
            forall|j: int| 0 <= j < m ==> #[trigger] s@[p + j] == w@[j],
        decreases w@.len() - m,
    {
        if s[p + m] != w[m] {
            return false;
        }
        m += 1;
    }
    true
}

fn is_doctype_risky(c: char) -> (r: bool)
    ensures
        r == doctype_risky(c),
{
    c == '/' || c == '"' || c == '\''
}

/// Checks that no doctype of `s` holds `/` or a quote before its first `>`.
fn doctypes_plain_exec(s: &Vec<char>) -> (r: bool)
    ensures
        r == doctypes_plain(s@),
{
    let lower = ['<', '!', 'd', 'o', 'c', 't', 'y', 'p', 'e'];
    let upper = ['<', '!', 'D', 'O', 'C', 'T', 'Y', 'P', 'E'];
    proof {
        assert(lower@ =~= doctype_word());
        assert(forall|m: int| 0 <= m < lower@.len() ==> upper@[m] == ascii_upper_char(#[trigger] lower@[m]));
    }
    let mut i: usize = 0;
    while i < s.len()
        invariant
            i <= s@.len(),
            lower@ == doctype_word(),
            forall|m: int| 0 <= m < lower@.len() ==> upper@[m] == ascii_upper_char(#[trigger] lower@[m]),
            forall|i2: int, k: int|
                #![trigger word_at_ci(s@, i2, doctype_word()), s@[k]]
                0 <= i2 < i && word_at_ci(s@, i2, doctype_word()) && i2 + 9 <= k < s@.len()
                    && (forall|m: int| i2 + 9 <= m < k ==> s@[m] != '>')
                    ==> !doctype_risky(s@[k]),
        decreases s@.len() - i,
    {
        if word_at_ci_exec(s, i, &lower, &upper) {
            let mut k: usize = i + 9;
            while k < s.len() && s[k] != '>'
                invariant
                    i + 9 <= k <= s@.len(),
                    word_at_ci(s@, i as int, doctype_word()),
                    forall|m: int| i + 9 <= m < k ==> s@[m] != '>' && !doctype_risky(#[trigger] s@[m]),
                decreases s@.len() - k,
            {
                if is_doctype_risky(s[k]) {
                    proof {
                        assert(word_at_ci(s@, i as int, doctype_word()));
                        assert(forall|m: int| i + 9 <= m < k ==> s@[m] != '>');
                        assert(doctype_risky(s@[k as int]));
                    }
                    return false;
                }
                k += 1;
            }
            proof {
                assert forall|k2: int|
                    #![trigger s@[k2]]
                    i + 9 <= k2 < s@.len() && (forall|m: int| i + 9 <= m < k2 ==> s@[m] != '>')
                    implies !doctype_risky(s@[k2]) by {
                    if k2 < k {
                    } else if k2 == k {
                    } else {
                        assert(s@[k as int] == '>');
                    }
                }
            }
        }
        i += 1;
    }
    true
}

/// Checks whether `<![` occurs in `s`.
fn has_cdata_open_exec(s: &Vec<char>) -> (r: bool)
    ensures
        r == has_cdata_open(s@),
{
    let w = ['<', '!', '['];
    proof {
        assert(w@ =~= cdata_open_word());
    }
    let mut i: usize = 0;
    while i < s.len()
        invariant
            i <= s@.len(),
            w@ == cdata_open_word(),
            forall|j: int| 0 <= j < i ==> !word_at(s@, j, cdata_open_word()),
        decreases s@.len() - i,
    {
        if word_at_exec(s, i, &w) {
            return true;
        }
        i += 1;
    }
    proof {
        assert forall|j: int| !word_at(s@, j, cdata_open_word()) by {
            if 0 <= j < i {
            }
        }
    }
    false
}

/// Checks that every `svg` or `math` tag name after `<` or `</` is lowercase.
fn special_tags_lowercase_exec(s: &Vec<char>) -> (r: bool)
    ensures
        r == special_tags_lowercase(s@),
{
    let svg = ['s', 'v', 'g'];
    let svg_upper = ['S', 'V', 'G'];
    let math = ['m', 'a', 't', 'h'];
    let math_upper = ['M', 'A', 'T', 'H'];
    proof {
        assert(svg@ =~= svg_word());
        assert(math@ =~= math_word());
        assert(forall|m: int| 0 <= m < svg@.len() ==> svg_upper@[m] == ascii_upper_char(#[trigger] svg@[m]));
        assert(forall|m: int| 0 <= m < math@.len() ==> math_upper@[m] == ascii_upper_char(#[trigger] math@[m]));
    }
    let mut p: usize = 0;
    while p < s.len()
        invariant
            p <= s@.len(),
            svg@ == svg_word(),
            math@ == math_word(),
            forall|m: int| 0 <= m < svg@.len() ==> svg_upper@[m] == ascii_upper_char(#[trigger] svg@[m]),
            forall|m: int| 0 <= m < math@.len() ==> math_upper@[m] == ascii_upper_char(#[trigger] math@[m]),
            forall|q: int|
                #![trigger word_at_ci(s@, q, svg_word())]
                #![trigger word_at_ci(s@, q, math_word())]
                0 <= q < p && (1 <= q && s@[q - 1] == '<' || 2 <= q && s@[q - 2] == '<' && s@[q - 1] == '/')
                    ==> (word_at_ci(s@, q, svg_word()) ==> word_at(s@, q, svg_word()))
                    && (word_at_ci(s@, q, math_word()) ==> word_at(s@, q, math_word())),
        decreases s@.len() - p,
    {
        let after_open = (p >= 1 && s[p - 1] == '<') || (p >= 2 && s[p - 2] == '<' && s[p - 1] == '/');
        if after_open {
            if word_at_ci_exec(s, p, &svg, &svg_upper) && !word_at_exec(s, p, &svg) {
                return false;
            }
            if word_at_ci_exec(s, p, &math, &math_upper) && !word_at_exec(s, p, &math) {
                return false;
            }
        }
        p += 1;
    }
    proof {
        assert forall|q: int|
            #![trigger word_at_ci(s@, q, svg_word())]
            #![trigger word_at_ci(s@, q, math_word())]
            1 <= q && s@[q - 1] == '<' || 2 <= q && s@[q - 2] == '<' && s@[q - 1] == '/'
            implies (word_at_ci(s@, q, svg_word()) ==> word_at(s@, q, svg_word()))
                && (word_at_ci(s@, q, math_word()) ==> word_at(s@, q, math_word())) by {
            if q >= p {
                assert(!word_at_ci(s@, q, svg_word()));
                assert(!word_at_ci(s@, q, math_word()));
            }
        }
    }
    true
}

fn is_tag_name_stop(c: char) -> (r: bool)
    ensures
        r == tag_name_stop(c),
{
    c == ' ' || c == '\t' || c == '\n' || c == '\u{c}' || c == '\r' || c == '>' || c == '/'
}

/// Checks whether `s` ends inside a tag name.
fn ends_in_tag_name_exec(s: &Vec<char>) -> (r: bool)
    ensures
        r == ends_in_tag_name(s@),
{
    let n = s.len();
    let mut j: usize = n;
    while j > 0 && !is_tag_name_stop(s[j - 1])
        invariant
            n == s@.len(),
            j <= n,
            forall|q: int| j <= q < n ==> !tag_name_stop(#[trigger] s@[q]),
        decreases j,
    {
        j -= 1;
    }
    let mut p: usize = if j >= 2 { j - 2 } else { 0 };
    while p < n
        invariant
            n == s@.len(),
            j <= n,
            p <= n,
            j <= p + 2,
            j == 0 || tag_name_stop(s@[j - 1]),
            forall|q: int| j <= q < n ==> !tag_name_stop(#[trigger] s@[q]),
            forall|p2: int|
                #![trigger s@[p2]]
                0 <= p2 < p && p2 + 1 < n && s@[p2] == '<' && ident_start(s@[p2 + 1]) && s@[p2 + 1] != '_'
                ==> exists|q: int| p2 + 2 <= q < n && tag_name_stop(#[trigger] s@[q]),
        decreases n - p,
    {
        if p + 1 < n {
            let c = s[p + 1];
            if s[p] == '<' && (('a' <= c && c <= 'z') || ('A' <= c && c <= 'Z')) {
                proof {
                    assert(forall|q: int| p + 2 <= q < s@.len() ==> !tag_name_stop(#[trigger] s@[q]));
                    assert(s@[p as int] == '<');
                }
                return true;
            }
        }
        p += 1;
    }
    proof {
        assert forall|p2: int|
            #![trigger s@[p2]]
            0 <= p2 && p2 + 1 < s@.len() && s@[p2] == '<' && ident_start(s@[p2 + 1]) && s@[p2 + 1] != '_'
            implies exists|q: int| p2 + 2 <= q < s@.len() && tag_name_stop(#[trigger] s@[q]) by {
            if p2 >= p {
            } else {
            }
        }
        if exists|p2: int|
            #![trigger s@[p2]]
            0 <= p2 && p2 + 1 < s@.len() && s@[p2] == '<' && ident_start(s@[p2 + 1]) && s@[p2 + 1] != '_'
                && forall|q: int| p2 + 2 <= q < s@.len() ==> !tag_name_stop(#[trigger] s@[q]) {
            let p2 = choose|p2: int|
                #![trigger s@[p2]]
                0 <= p2 && p2 + 1 < s@.len() && s@[p2] == '<' && ident_start(s@[p2 + 1]) && s@[p2 + 1] != '_'
                    && forall|q: int| p2 + 2 <= q < s@.len() ==> !tag_name_stop(#[trigger] s@[q]);
            let q = choose|q: int| p2 + 2 <= q < s@.len() && tag_name_stop(#[trigger] s@[q]);
            assert(false);
        }
    }
    false
}

/// Whether `html` is markup that the loader parses without reaching a panic (see
/// `safe_markup`).
pub fn is_safe_markup(html: &str) -> (r: bool)
    ensures
        r == safe_markup(html@),
{
    let s = chars_of(html);
    if !doctypes_plain_exec(&s) || ends_in_tag_name_exec(&s) {
        return false;
    }
    if !has_cdata_open_exec(&s) {
        return true;
    }
    special_tags_lowercase_exec(&s)
}

/// Fails with the loader's message when `html` does not load, and refuses markup that the
/// loader could not parse without panicking.
pub fn check_load(html: &str) -> (r: Result<(), ContentError>)
    ensures
        match r {
            Ok(_) => load_spec(html@) == Ok::<(), ContentErrorView>(()),
            Err(e) => load_spec(html@) == Err::<(), ContentErrorView>(e@),
        },
{
    if !is_safe_markup(html) {
        return Err(message("Unsupported markup"));
    }
    match markup_load_error(html) {
        Some(m) => Err(ContentError::Message(m)),
        None => Ok(()),
    }
}

/// Text as shown: trimmed, with its HTML entities decoded.
pub open spec fn clean_spec(s: Seq<char>) -> Seq<char> {
    html_entities_decoded(unicode_trim(s))
}

pub fn clean(s: &str) -> (r: String)
    ensures
        r@ == clean_spec(s@),
{
    let t = trim(s);
    decode_html(t.as_str())
}

} // verus!
