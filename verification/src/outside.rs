use vstd::prelude::*;
use chrono::{Datelike, TimeZone};

verus! {

#[verifier::external_type_specification]
#[verifier::external_body]
pub struct ExChronoParseError(chrono::ParseError);

#[verifier::external_type_specification]
#[verifier::external_body]
pub struct ExParseIntError(std::num::ParseIntError);

#[verifier::external_type_specification]
#[verifier::external_body]
pub struct ExFromUtf8Error(std::string::FromUtf8Error);

/// The views of a slice of string slices.
pub open spec fn strs_view(s: Seq<&str>) -> Seq<Seq<char>> {
    s.map_values(|x: &str| x@)
}

/// The view of an optional string.
pub open spec fn opt_string_view(o: Option<String>) -> Option<Seq<char>> {
    match o {
        Some(s) => Some(s@),
        None => None,
    }
}

/// The views of a sequence of optional strings.
pub open spec fn opt_strings_view(s: Seq<Option<String>>) -> Seq<Option<Seq<char>>> {
    s.map_values(|x: Option<String>| opt_string_view(x))
}

// ---------------------------------------------------------------------------
// std

/// Whether every character of `s` is ASCII.
pub open spec fn is_ascii_text(s: Seq<char>) -> bool {
    forall|i: int| 0 <= i < s.len() ==> (#[trigger] s[i] as int) < 128
}

/// The ASCII lowercase form of a character: `A`..`Z` become `a`..`z`, others stay.
pub open spec fn ascii_lower_char(c: char) -> char {
    if 'A' <= c && c <= 'Z' {
        ((c as int) + 32) as char
    } else {
        c
    }
}

/// The ASCII uppercase form of a character: `a`..`z` become `A`..`Z`, others stay.
pub open spec fn ascii_upper_char(c: char) -> char {
    if 'a' <= c && c <= 'z' {
        ((c as int) - 32) as char
    } else {
        c
    }
}

/// The ASCII lowercase form of a string (`str::to_ascii_lowercase`).
pub open spec fn ascii_lower(s: Seq<char>) -> Seq<char> {
    s.map_values(|c: char| ascii_lower_char(c))
}

/// The ASCII uppercase form of a string (`str::to_ascii_uppercase`).
pub open spec fn ascii_upper(s: Seq<char>) -> Seq<char> {
    s.map_values(|c: char| ascii_upper_char(c))
}

/// What `str::to_lowercase` returns for a string (Unicode lowercase mapping).
pub uninterp spec fn unicode_lowercase(s: Seq<char>) -> Seq<char>;

/// Calls `str::to_lowercase`; the result is the Unicode lowercase form of `s`, named
/// `unicode_lowercase`. On ASCII text the Unicode mapping lowers `A`..`Z` to `a`..`z` and
/// keeps every other character, one for one, which is what `to_ascii_lowercase` does.
#[verifier::external_body]
pub(crate) fn lowercase(s: &str) -> (r: String)
    ensures
        r@ == unicode_lowercase(s@),
        is_ascii_text(s@) ==> r@ == ascii_lower(s@),
{
    s.to_lowercase()
}

/// What `str::to_uppercase` returns for a string (Unicode uppercase mapping).
pub uninterp spec fn unicode_uppercase(s: Seq<char>) -> Seq<char>;

/// Calls `str::to_uppercase`; the result is the Unicode uppercase form of `s`, named
/// `unicode_uppercase`. On ASCII text the Unicode mapping raises `a`..`z` to `A`..`Z` and
/// keeps every other character, one for one.
#[verifier::external_body]
pub(crate) fn uppercase(s: &str) -> (r: String)
    ensures
        r@ == unicode_uppercase(s@),
        is_ascii_text(s@) ==> r@ == ascii_upper(s@),
{
    s.to_uppercase()
}

/// A character with the Unicode `White_Space` property (PropList.txt): U+0009..U+000D,
/// U+0020, U+0085, U+00A0, U+1680, U+2000..U+200A, U+2028, U+2029, U+202F, U+205F, U+3000.
pub open spec fn white_space(c: char) -> bool {
    ||| '\u{9}' <= c && c <= '\u{d}'
    ||| c == ' ' || c == '\u{85}' || c == '\u{a0}' || c == '\u{1680}'
    ||| '\u{2000}' <= c && c <= '\u{200a}'
    ||| c == '\u{2028}' || c == '\u{2029}' || c == '\u{202f}' || c == '\u{205f}' || c == '\u{3000}'
}

/// `s` without its leading white space.
pub open spec fn trim_start_spec(s: Seq<char>) -> Seq<char>
    decreases s.len(),
{
    if s.len() > 0 && white_space(s[0]) {
        trim_start_spec(s.drop_first())
    } else {
        s
    }
}

/// `s` without its trailing white space.
pub open spec fn trim_end_spec(s: Seq<char>) -> Seq<char>
    decreases s.len(),
{
    if s.len() > 0 && white_space(s.last()) {
        trim_end_spec(s.drop_last())
    } else {
        s
    }
}

/// What `str::trim` returns: `s` without leading and trailing white space, white space
/// being the Unicode `White_Space` property.
pub open spec fn unicode_trim(s: Seq<char>) -> Seq<char> {
    trim_end_spec(trim_start_spec(s))
}

/// Calls `str::trim`, which drops the leading and trailing white space.
#[verifier::external_body]
pub(crate) fn trim(s: &str) -> (r: String)
    ensures
        r@ == unicode_trim(s@),
{
    s.trim().to_string()
}

/// An ASCII decimal digit.
pub open spec fn is_decimal_digit(c: char) -> bool {
    '0' <= c && c <= '9'
}

/// The value of a run of decimal digits.
pub open spec fn digits_value(d: Seq<char>) -> int
    decreases d.len(),
{
    if d.len() == 0 {
        0
    } else {
        digits_value(d.drop_last()) * 10 + ((d.last() as int) - ('0' as int))
    }
}

/// What `str::parse::<i64>` gives for a string, when it succeeds: the text must be an
/// optional `+` or `-` followed by one or more decimal digits, and the value must fit in
/// `i64`; anything else (white space and `_` included) is an error.
pub open spec fn std_parse_i64(s: Seq<char>) -> Option<i64> {
    let negative = s.len() > 0 && s[0] == '-';
    let d = if s.len() > 0 && (s[0] == '-' || s[0] == '+') { s.drop_first() } else { s };
    let v = if negative { -digits_value(d) } else { digits_value(d) };
    if d.len() > 0 && (forall|i: int| 0 <= i < d.len() ==> is_decimal_digit(#[trigger] d[i]))
        && i64::MIN <= v && v <= i64::MAX {
        Some(v as i64)
    } else {
        None
    }
}

/// Calls `str::parse::<i64>`. Success and the value are as `std_parse_i64` states; which
/// `ParseIntError` comes back on failure is not stated.
#[verifier::external_body]
pub(crate) fn parse_i64(s: &str) -> (r: Result<i64, std::num::ParseIntError>)
    ensures
        r is Ok <==> std_parse_i64(s@) is Some,
        r matches Ok(v) ==> std_parse_i64(s@) == Some(v),
{
    s.parse::<i64>()
}

/// Calls `String::push`, which appends one character.
#[verifier::external_body]
pub(crate) fn push_char(s: &mut String, c: char)
    ensures
        final(s)@ == old(s)@.push(c),
{
    s.push(c)
}

// ---------------------------------------------------------------------------
// urlencoding

/// A character that `urlencoding::encode` keeps: an ASCII letter or digit, `-`, `_`, `.`
/// or `~`.
pub open spec fn url_unreserved(c: char) -> bool {
    ||| 'a' <= c && c <= 'z'
    ||| 'A' <= c && c <= 'Z'
    ||| '0' <= c && c <= '9'
    ||| c == '-' || c == '_' || c == '.' || c == '~'
}

/// The bytes of the UTF-8 form of a character.
pub open spec fn utf8_bytes(c: char) -> Seq<int> {
    let v = c as int;
    if v < 0x80 {
        seq![v]
    } else if v < 0x800 {
        seq![0xC0 + v / 64, 0x80 + v % 64]
    } else if v < 0x10000 {
        seq![0xE0 + v / 4096, 0x80 + (v / 64) % 64, 0x80 + v % 64]
    } else {
        seq![0xF0 + v / 262144, 0x80 + (v / 4096) % 64, 0x80 + (v / 64) % 64, 0x80 + v % 64]
    }
}

/// An uppercase hexadecimal digit for a value below 16.
pub open spec fn hex_digit(n: int) -> char {
    if n < 10 {
        (('0' as int) + n) as char
    } else {
        (('A' as int) + n - 10) as char
    }
}

/// `%` followed by the two uppercase hexadecimal digits of each byte.
pub open spec fn percent_bytes(bytes: Seq<int>) -> Seq<char>
    decreases bytes.len(),
{
    if bytes.len() == 0 {
        seq![]
    } else {
        percent_bytes(bytes.drop_last()) + seq!['%', hex_digit(bytes.last() / 16), hex_digit(bytes.last() % 16)]
    }
}

/// What `urlencoding::encode` returns: each kept character as it is, and every byte of the
/// UTF-8 form of any other character written as `%XX`, in uppercase hexadecimal.
pub open spec fn url_encoded(s: Seq<char>) -> Seq<char>
    decreases s.len(),
{
    if s.len() == 0 {
        seq![]
    } else if url_unreserved(s.last()) {
        url_encoded(s.drop_last()).push(s.last())
    } else {
        url_encoded(s.drop_last()) + percent_bytes(utf8_bytes(s.last()))
    }
}

/// What `urlencoding::decode` returns when it succeeds.
pub uninterp spec fn url_decoded(s: Seq<char>) -> Option<Seq<char>>;

/// Calls `urlencoding::encode`, which percent-encodes as `url_encoded` states.
#[verifier::external_body]
pub(crate) fn url_encode(s: &str) -> (r: String)
    ensures
        r@ == url_encoded(s@),
{
    urlencoding::encode(s).to_string()
}

/// Calls `urlencoding::decode`. Success and the value are named by `url_decoded`; which
/// `FromUtf8Error` comes back on failure is not stated. The decoder reverses the encoder
/// (it turns each `%XX` back into its byte and keeps every other byte), so decoding what
/// `encode` wrote gives back the string that was encoded.
#[verifier::external_body]
pub(crate) fn url_decode(s: &str) -> (r: Result<String, std::string::FromUtf8Error>)
    ensures
        r is Ok <==> url_decoded(s@) is Some,
        r matches Ok(d) ==> url_decoded(s@) == Some(d@),
        forall|t: Seq<char>| #[trigger] url_encoded(t) == s@ ==> r is Ok && r->Ok_0@ == t,
{
    match urlencoding::decode(s) {
        Ok(decoded) => Ok(decoded.into_owned()),
        Err(e) => Err(e),
    }
}

// ---------------------------------------------------------------------------
// html_escape

/// What `html_escape::decode_html_entities` returns: `s` with its HTML entities decoded.
pub uninterp spec fn html_entities_decoded(s: Seq<char>) -> Seq<char>;

/// Calls `html_escape::decode_html_entities`; the result is named `html_entities_decoded`.
#[verifier::external_body]
pub(crate) fn decode_html(s: &str) -> (r: String)
    ensures
        r@ == html_entities_decoded(s@),
{
    html_escape::decode_html_entities(s).into_owned()
}

// ---------------------------------------------------------------------------
// chrono

/// The year of the date that `chrono::NaiveDate::parse_from_str(s, fmt)` reads, when it reads one.
pub uninterp spec fn chrono_date_year(s: Seq<char>, fmt: Seq<char>) -> Option<i32>;

/// The milliseconds since the Unix epoch of midnight UTC on the date that
/// `chrono::NaiveDate::parse_from_str(s, fmt)` reads, when it reads one.
pub uninterp spec fn chrono_midnight_millis(s: Seq<char>, fmt: Seq<char>) -> Option<i64>;

/// Calls `chrono::NaiveDate::parse_from_str` and takes the year (`Datelike::year`) of the
/// date read. Success and the year are named by `chrono_date_year`; which `ParseError`
/// comes back on failure is not stated.
#[verifier::external_body]
pub(crate) fn date_year(s: &str, fmt: &str) -> (r: Result<i32, chrono::ParseError>)
    ensures
        r is Ok <==> chrono_date_year(s@, fmt@) is Some,
        r matches Ok(y) ==> chrono_date_year(s@, fmt@) == Some(y),
{
    match chrono::NaiveDate::parse_from_str(s, fmt) {
        Ok(date) => Ok(date.year()),
        Err(e) => Err(e),
    }
}

/// Calls `chrono::NaiveDate::parse_from_str`, puts the date read at midnight
/// (`NaiveDateTime::new` with `NaiveTime::from_hms_opt(0, 0, 0)`), reads it as UTC
/// (`Utc.from_utc_datetime`) and takes `timestamp_millis`. Success and the value are named
/// by `chrono_midnight_millis`; which `ParseError` comes back on failure is not stated.
#[verifier::external_body]
pub(crate) fn date_midnight_millis(s: &str, fmt: &str) -> (r: Result<i64, chrono::ParseError>)
    ensures
        r is Ok <==> chrono_midnight_millis(s@, fmt@) is Some,
        r matches Ok(v) ==> chrono_midnight_millis(s@, fmt@) == Some(v),
{
    let date = chrono::NaiveDate::parse_from_str(s, fmt)?;
    let midnight = chrono::NaiveTime::from_hms_opt(0, 0, 0).unwrap_or(chrono::NaiveTime::MIN);
    Ok(chrono::Utc.from_utc_datetime(&chrono::NaiveDateTime::new(date, midnight)).timestamp_millis())
}

// ---------------------------------------------------------------------------
// regex

/// The text of the leftmost-first match of `pattern` in `text` (`regex::Regex::find`);
/// `None` when there is none or the pattern does not compile.
pub uninterp spec fn regex_first_match(pattern: Seq<char>, text: Seq<char>) -> Option<Seq<char>>;

/// The text of the group `group` of the first match of `pattern` in `text`
/// (`regex::Regex::captures`, then `Captures::name`); `None` when there is no match, the
/// group did not take part, or the pattern does not compile.
pub uninterp spec fn regex_named_group(pattern: Seq<char>, text: Seq<char>, group: Seq<char>) -> Option<Seq<char>>;

/// Compiles `pattern` with `regex::Regex::new` and calls `Regex::find`; the result is named
/// `regex_first_match`.
#[verifier::external_body]
pub(crate) fn regex_find(pattern: &str, text: &str) -> (r: Option<String>)
    ensures
        opt_string_view(r) == regex_first_match(pattern@, text@),
{
    match regex::Regex::new(pattern) {
        Ok(re) => match re.find(text) {
            Some(m) => Some(m.as_str().to_string()),
            None => None,
        },
        Err(_) => None,
    }
}

/// Compiles `pattern` with `regex::Regex::new`, calls `Regex::captures` and takes the named
/// group; the result is named `regex_named_group`.
#[verifier::external_body]
pub(crate) fn regex_capture(pattern: &str, text: &str, group: &str) -> (r: Option<String>)
    ensures
        opt_string_view(r) == regex_named_group(pattern@, text@, group@),
{
    match regex::Regex::new(pattern) {
        Ok(re) => match re.captures(text) {
            Some(caps) => match caps.name(group) {
                Some(m) => Some(m.as_str().to_string()),
                None => None,
            },
            None => None,
        },
        Err(_) => None,
    }
}

// ---------------------------------------------------------------------------
// visdom: each query loads `html` with `visdom::Vis::load`, applies `Elements::find` with
// each selector in turn, and reads the result.
//
// The selection is an `Elements` value, which holds references into the parsed document
// and has no plain-value view, so a query cannot be split into one trusted call per visdom
// method with its result named: each wrapper below loads, selects and reads in one go.
//
// `Elements::find` panics when it is given a selector that does not parse while the
// current selection is empty (it reports the error through `get(0).expect(..)`), so the
// selectors are required to be simple selectors, which always parse.
//
// `Vis::load` runs the rphtml parser (rphtml-0.5.12/src/parser.rs), and the queries then
// read the tree through visdom and rphtml's renderer. Read against their source, the
// `expect`/`unwrap`/`panic!` sites on these paths hold when three things hold:
//   (a) `chain_nodes` (the open elements) keeps the root at its bottom. Every
//       `chain_nodes.pop()` removes the tag pushed last (void tags :1064 and :1174, content
//       tags :1483, matched end tags :1346) except in the self-closing handler (:1116),
//       which a doctype reaches through `/` before its `>`: it pops although a doctype is
//       never pushed, at the top level that is the root, and the next node added panics
//       (`last().unwrap()`, :1877). A doctype whose text up to its first `>` holds no `/`
//       and no quote ends through `parse_tag_wait` (:1163), which does not pop.
//   (b) while `in_special` (inside `svg`/`math`) is set, the last open element is a tag.
//       It is cleared only by an end tag spelled exactly like the opening tag (:1365),
//       while end tags match ignoring case; after `<svg></SVG>` the root is the last open
//       element and `<![` reaches `.expect(..)` on the root's missing tag data (:1657).
//   (c) every tag in the tree has its tag data. Tag data is set when the tag's name ends
//       (:1052 onward), so only a text that ends inside a tag name leaves a tag without it;
//       visdom panics when a query reads such a tag (`get_attribute`, visdom lib.rs:617),
//       and so does rphtml's renderer (:666).
// The other sites are guarded by the parser's states: tag data is set before any attribute
// or closing handler runs (:1114, :1169, :2114, :2149, :2180), attributes exist before their
// key or value is set (:395, :403), indices stay within the lengths they are checked against
// (:1426, :1440, :1503, :1587), detection ends in one of three known characters (:1623),
// the node an unmatched end tag returns to is still held by the tree or by an earlier end
// tag (:1383), and with visdom's options end-of-input only reports errors. Text and inner
// HTML are rendered (`Node::build`, :817) from the selected tags, never from the document
// root (which panics with several top-level tags, :854), so every query takes at least one
// selector; the render sites find the data that the parser sets on each node it keeps
// (:596, :711, :745, :753). `safe_markup` states (a), (b) and (c) as conditions on the
// text, and every loading wrapper requires it.

/// The ASCII-case-insensitive text `w` (given in lowercase) at position `p` of `s`.
pub open spec fn word_at_ci(s: Seq<char>, p: int, w: Seq<char>) -> bool {
    &&& 0 <= p
    &&& p + w.len() <= s.len()
    &&& forall|m: int| 0 <= m < w.len() ==> (#[trigger] s[p + m] == w[m] || s[p + m] == ascii_upper_char(w[m]))
}

/// The text `w` at position `p` of `s`, exactly.
pub open spec fn word_at(s: Seq<char>, p: int, w: Seq<char>) -> bool {
    &&& 0 <= p
    &&& p + w.len() <= s.len()
    &&& forall|m: int| 0 <= m < w.len() ==> #[trigger] s[p + m] == w[m]
}

/// `<!doctype`, in any ASCII case.
pub open spec fn doctype_word() -> Seq<char> {
    seq!['<', '!', 'd', 'o', 'c', 't', 'y', 'p', 'e']
}

/// `svg`, the name of an element with its own parsing rules.
pub open spec fn svg_word() -> Seq<char> {
    seq!['s', 'v', 'g']
}

/// `math`, the name of an element with its own parsing rules.
pub open spec fn math_word() -> Seq<char> {
    seq!['m', 'a', 't', 'h']
}

/// `<![`, which opens a character-data section.
pub open spec fn cdata_open_word() -> Seq<char> {
    seq!['<', '!', '[']
}

/// A character that would let a doctype reach the self-closing handler.
pub open spec fn doctype_risky(c: char) -> bool {
    c == '/' || c == '"' || c == '\''
}

/// No doctype of `s` holds `/` or a quote before its first `>`.
pub open spec fn doctypes_plain(s: Seq<char>) -> bool {
    forall|i: int, k: int|
        #![trigger word_at_ci(s, i, doctype_word()), s[k]]
        word_at_ci(s, i, doctype_word()) && i + 9 <= k < s.len()
            && (forall|m: int| i + 9 <= m < k ==> s[m] != '>')
            ==> !doctype_risky(s[k])
}

/// `<![` occurs in `s`.
pub open spec fn has_cdata_open(s: Seq<char>) -> bool {
    exists|i: int| word_at(s, i, cdata_open_word())
}

/// Every `svg` or `math` tag name that follows `<` or `</` is written in lowercase.
pub open spec fn special_tags_lowercase(s: Seq<char>) -> bool {
    forall|p: int|
        #![trigger word_at_ci(s, p, svg_word())]
        #![trigger word_at_ci(s, p, math_word())]
        1 <= p && s[p - 1] == '<' || 2 <= p && s[p - 2] == '<' && s[p - 1] == '/'
            ==> (word_at_ci(s, p, svg_word()) ==> word_at(s, p, svg_word()))
            && (word_at_ci(s, p, math_word()) ==> word_at(s, p, math_word()))
}

/// A character that ends a tag name: ASCII white space, `>` or `/`.
pub open spec fn tag_name_stop(c: char) -> bool {
    c == ' ' || c == '\t' || c == '\n' || c == '\u{c}' || c == '\r' || c == '>' || c == '/'
}

/// `s` ends inside a tag name: `<`, an ASCII letter, and then no character that ends the name.
pub open spec fn ends_in_tag_name(s: Seq<char>) -> bool {
    exists|p: int|
        #![trigger s[p]]
        0 <= p && p + 1 < s.len() && s[p] == '<' && ident_start(s[p + 1]) && s[p + 1] != '_'
            && forall|q: int| p + 2 <= q < s.len() ==> !tag_name_stop(#[trigger] s[q])
}

/// Markup that `Vis::load` parses, and visdom then reads, without reaching a panic: no
/// doctype closed as self-closing, no `<![` after an `svg` or `math` element closed in
/// another case, and no tag left without its name at the end of the text.
pub open spec fn safe_markup(s: Seq<char>) -> bool {
    &&& doctypes_plain(s)
    &&& !has_cdata_open(s) || special_tags_lowercase(s)
    &&& !ends_in_tag_name(s)
}

/// A letter or `_`: what a CSS identifier starts with in visdom's selector grammar.
pub open spec fn ident_start(c: char) -> bool {
    ('a' <= c && c <= 'z') || ('A' <= c && c <= 'Z') || c == '_'
}

/// A character that may continue a CSS identifier: a letter, a digit, `-` or `_`.
pub open spec fn ident_char(c: char) -> bool {
    ident_start(c) || ('0' <= c && c <= '9') || c == '-'
}

/// A simple selector: an optional tag name followed by classes (`.name`) and ids (`#name`),
/// each name an identifier, without white space, combinators or escapes. visdom's
/// `Selector::from_str` reads such a selector whole with its tag, class and id rules.
pub open spec fn simple_selector(s: Seq<char>) -> bool {
    &&& s.len() > 0
    &&& ident_start(s[0]) || s[0] == '.' || s[0] == '#'
    &&& forall|i: int| 0 <= i < s.len() ==> ident_char(#[trigger] s[i])
            || ((s[i] == '.' || s[i] == '#') && i + 1 < s.len() && ident_start(s[i + 1]))
}

/// Every selector of a list is simple.
pub open spec fn simple_selectors(sels: Seq<Seq<char>>) -> bool {
    forall|i: int| 0 <= i < sels.len() ==> simple_selector(#[trigger] sels[i])
}

/// The message of the error that `visdom::Vis::load` gives for `html`, if it gives one.
pub uninterp spec fn dom_load_error(html: Seq<char>) -> Option<Seq<char>>;

/// `Elements::text` of the selected elements.
pub uninterp spec fn dom_text(html: Seq<char>, sels: Seq<Seq<char>>) -> Seq<char>;

/// The text of the first selected element (`Elements::get(0)`, then `text`).
pub uninterp spec fn dom_first_text(html: Seq<char>, sels: Seq<Seq<char>>) -> Option<Seq<char>>;

/// The attribute `name` of the first selected element (`Elements::attr`), as a string.
pub uninterp spec fn dom_attr(html: Seq<char>, sels: Seq<Seq<char>>, name: Seq<char>) -> Option<Seq<char>>;

/// The attribute `name` of each selected element (`get_attribute`), in document order.
pub uninterp spec fn dom_attrs(html: Seq<char>, sels: Seq<Seq<char>>, name: Seq<char>) -> Seq<Option<Seq<char>>>;

/// The inner HTML (`html`) of each selected element, in document order.
pub uninterp spec fn dom_inner_htmls(html: Seq<char>, sels: Seq<Seq<char>>) -> Seq<Seq<char>>;

/// Calls `visdom::Vis::load` and, when it fails, gives the error's message (`to_string`).
#[verifier::external_body]
pub(crate) fn markup_load_error(html: &str) -> (r: Option<String>)
    requires
        safe_markup(html@),
    ensures
        opt_string_view(r) == dom_load_error(html@),
{
    match visdom::Vis::load(html) {
        Ok(_) => None,
        Err(e) => Some(e.to_string()),
    }
}

/// Selects with `Vis::load` and `Elements::find` and calls `Elements::text`; the result is
/// named `dom_text`.
#[verifier::external_body]
pub(crate) fn markup_text(html: &str, sels: &[&str]) -> (r: String)
    requires
        sels@.len() > 0,
        simple_selectors(strs_view(sels@)),
        safe_markup(html@),
    ensures
        r@ == dom_text(html@, strs_view(sels@)),
{
    match visdom::Vis::load(html) {
        Ok(root) => {
            let mut found: Option<visdom::types::Elements> = None;
            for sel in sels { found = Some(found.as_ref().unwrap_or(&root).find(sel)); }
            let found = found.unwrap_or(root);
            found.text()
        },
        Err(_) => String::new(),
    }
}

/// Selects with `Vis::load` and `Elements::find`, takes `get(0)` and its `text`; the result
/// is named `dom_first_text`.
#[verifier::external_body]
pub(crate) fn markup_first_text(html: &str, sels: &[&str]) -> (r: Option<String>)
    requires
        sels@.len() > 0,
        simple_selectors(strs_view(sels@)),
        safe_markup(html@),
    ensures
        opt_string_view(r) == dom_first_text(html@, strs_view(sels@)),
{
    match visdom::Vis::load(html) {
        Ok(root) => {
            let mut found: Option<visdom::types::Elements> = None;
            for sel in sels { found = Some(found.as_ref().unwrap_or(&root).find(sel)); }
            let found = found.unwrap_or(root);
            match found.get(0) {
                Some(first) => Some(first.text()),
                None => None,
            }
        },
        Err(_) => None,
    }
}

/// Selects with `Vis::load` and `Elements::find` and calls `Elements::attr`, turning the
/// value into a string; the result is named `dom_attr`.
#[verifier::external_body]
pub(crate) fn markup_attr(html: &str, sels: &[&str], name: &str) -> (r: Option<String>)
    requires
        sels@.len() > 0,
        simple_selectors(strs_view(sels@)),
        safe_markup(html@),
    ensures
        opt_string_view(r) == dom_attr(html@, strs_view(sels@), name@),
{
    match visdom::Vis::load(html) {
        Ok(root) => {
            let mut found: Option<visdom::types::Elements> = None;
            for sel in sels { found = Some(found.as_ref().unwrap_or(&root).find(sel)); }
            let found = found.unwrap_or(root);
            match found.attr(name) {
                Some(value) => Some(value.to_string()),
                None => None,
            }
        },
        Err(_) => None,
    }
}

/// Selects with `Vis::load` and `Elements::find` and takes `get_attribute(name)` of each
/// element, as strings; the result is named `dom_attrs`.
#[verifier::external_body]
pub(crate) fn markup_attrs(html: &str, sels: &[&str], name: &str) -> (r: Vec<Option<String>>)
    requires
        sels@.len() > 0,
        simple_selectors(strs_view(sels@)),
        safe_markup(html@),
    ensures
        opt_strings_view(r@) == dom_attrs(html@, strs_view(sels@), name@),
{
    match visdom::Vis::load(html) {
        Ok(root) => {
            let mut found: Option<visdom::types::Elements> = None;
            for sel in sels { found = Some(found.as_ref().unwrap_or(&root).find(sel)); }
            let found = found.unwrap_or(root);
            let mut values = Vec::new();
            for e in found.get_ref() {
                values.push(match e.get_attribute(name) { Some(v) => Some(v.to_string()), None => None });
            }
            values
        },
        Err(_) => Vec::new(),
    }
}

/// Selects with `Vis::load` and `Elements::find` and takes the inner HTML (`html`) of each
/// element; the result is named `dom_inner_htmls`.
#[verifier::external_body]
pub(crate) fn markup_inner_htmls(html: &str, sels: &[&str]) -> (r: Vec<String>)
    requires
        sels@.len() > 0,
        simple_selectors(strs_view(sels@)),
        safe_markup(html@),
    ensures
        crate::text::strings_view(r@) == dom_inner_htmls(html@, strs_view(sels@)),
{
    match visdom::Vis::load(html) {
        Ok(root) => {
            let mut found: Option<visdom::types::Elements> = None;
            for sel in sels { found = Some(found.as_ref().unwrap_or(&root).find(sel)); }
            let found = found.unwrap_or(root);
            let mut htmls = Vec::new();
            for e in found.get_ref() {
                htmls.push(e.html());
            }
            htmls
        },
        Err(_) => Vec::new(),
    }
}

} // verus!
