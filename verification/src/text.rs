use vstd::prelude::*;
use crate::outside::push_char;

verus! {

/// Compares two strings character by character.
pub fn str_eq(a: &str, b: &str) -> (r: bool)
    ensures
        r == (a@ == b@),
{
    let x = a.to_string();
    let y = b.to_string();
    x == y
}

/// The characters of a string, in order.
pub fn chars_of(s: &str) -> (r: Vec<char>)
    ensures
        r@ == s@,
{
    let mut out: Vec<char> = Vec::new();
    for c in it: s.chars()
        invariant
            out@ == it.seq().take(it.index() as int),
            it.seq() == s@,
    {
        out.push(c);
    }
    out
}

/// Builds a string from characters.
pub fn string_of(cs: &Vec<char>) -> (r: String)
    ensures
        r@ == cs@,
{
    let mut out = String::new();
    let mut i: usize = 0;
    while i < cs.len()
        invariant
            i <= cs@.len(),
            out@ == cs@.take(i as int),
        decreases cs@.len() - i,
    {
        push_char(&mut out, cs[i]);
        proof {
            assert(cs@.take(i + 1) =~= cs@.take(i as int).push(cs@[i as int]));
        }
        i += 1;
    }
    proof {
        assert(cs@.take(cs@.len() as int) =~= cs@);
    }
    out
}

/// The character for a decimal digit.
pub open spec fn digit_char(d: nat) -> char {
    if d == 0 { '0' }
    else if d == 1 { '1' }
    else if d == 2 { '2' }
    else if d == 3 { '3' }
    else if d == 4 { '4' }
    else if d == 5 { '5' }
    else if d == 6 { '6' }
    else if d == 7 { '7' }
    else if d == 8 { '8' }
    else { '9' }
}

/// The decimal digits of a natural number, most significant first, with no leading zero.
pub open spec fn decimal(n: nat) -> Seq<char>
    decreases n,
{
    if n < 10 {
        seq![digit_char(n)]
    } else {
        decimal(n / 10).push(digit_char(n % 10))
    }
}

/// The decimal form of an integer, with a leading `-` when it is negative.
pub open spec fn signed_decimal(n: int) -> Seq<char> {
    if n < 0 {
        seq!['-'] + decimal((-n) as nat)
    } else {
        decimal(n as nat)
    }
}

fn digit(d: u64) -> (c: char)
    requires
        d < 10,
    ensures
        c == digit_char(d as nat),
{
    if d == 0 { '0' }
    else if d == 1 { '1' }
    else if d == 2 { '2' }
    else if d == 3 { '3' }
    else if d == 4 { '4' }
    else if d == 5 { '5' }
    else if d == 6 { '6' }
    else if d == 7 { '7' }
    else if d == 8 { '8' }
    else { '9' }
}

/// Appends the decimal digits of `n`.
pub fn push_decimal(s: &mut String, n: u64)
    ensures
        final(s)@ == old(s)@ + decimal(n as nat),
    decreases n,
{
    if n >= 10 {
        push_decimal(s, n / 10);
    }
    push_char(s, digit(n % 10));
    proof {
        if n >= 10 {
            assert(old(s)@ + decimal(n as nat) =~= old(s)@ + decimal((n / 10) as nat) + seq![digit_char((n % 10) as nat)]);
        } else {
            assert(old(s)@ + decimal(n as nat) =~= old(s)@.push(digit_char(n as nat)));
        }
    }
}

/// The decimal form of an unsigned integer, as `to_string` writes it.
pub fn u64_to_string(n: u64) -> (r: String)
    ensures
        r@ == decimal(n as nat),
{
    let mut s = String::new();
    push_decimal(&mut s, n);
    s
}

/// The decimal form of a signed integer, as `to_string` writes it.
pub fn i64_to_string(n: i64) -> (r: String)
    ensures
        r@ == signed_decimal(n as int),
{
    let mut s = String::new();
    if n < 0 {
        push_char(&mut s, '-');
        let m: u64 = if n == i64::MIN { 9223372036854775808u64 } else { (-n) as u64 };
        push_decimal(&mut s, m);
    } else {
        push_decimal(&mut s, n as u64);
    }
    s
}

/// Appends `b` to `a`.
pub fn str_concat(a: &str, b: &str) -> (r: String)
    ensures
        r@ == a@ + b@,
{
    let mut s = a.to_string();
    s.append(b);
    s
}

/// Whether `p` begins `s`.
pub open spec fn starts_with_spec(s: Seq<char>, p: Seq<char>) -> bool {
    p.len() <= s.len() && s.take(p.len() as int) == p
}

/// Whether `p` occurs in `s` at position `i`.
pub open spec fn occurs_at(s: Seq<char>, p: Seq<char>, i: int) -> bool {
    0 <= i && i + p.len() <= s.len() && s.subrange(i, i + p.len()) == p
}

/// Whether `p` occurs somewhere in `s`.
pub open spec fn contains_spec(s: Seq<char>, p: Seq<char>) -> bool {
    exists|i: int| occurs_at(s, p, i)
}

fn occurs_at_exec(s: &Vec<char>, p: &Vec<char>, i: usize) -> (r: bool)
    ensures
        r == occurs_at(s@, p@, i as int),
{
    if i > s.len() || p.len() > s.len() - i {
        return false;
    }
    let mut j: usize = 0;
    while j < p.len()
        invariant
            i + p@.len() <= s.len(),
            j <= p@.len(),
            forall|k: int| 0 <= k < j ==> s@[i + k] == p@[k],
        decreases p@.len() - j,
    {
        if s[i + j] != p[j] {
            proof {
                assert(s@.subrange(i as int, i + p@.len())[j as int] != p@[j as int]);
            }
            return false;
        }
        j += 1;
    }
    proof {
        assert(s@.subrange(i as int, i + p@.len()) =~= p@);
    }
    true
}

/// Whether `s` begins with `p`.
pub fn starts_with(s: &str, p: &str) -> (r: bool)
    ensures
        r == starts_with_spec(s@, p@),
{
    let sv = chars_of(s);
    let pv = chars_of(p);
    let r = occurs_at_exec(&sv, &pv, 0);
    proof {
        if r {
            assert(sv@.subrange(0, pv@.len() as int) =~= sv@.take(pv@.len() as int));
        } else if starts_with_spec(s@, p@) {
            assert(sv@.subrange(0, pv@.len() as int) =~= sv@.take(pv@.len() as int));
        }
    }
    r
}

/// Whether `p` occurs in `s`.
pub fn contains(s: &str, p: &str) -> (r: bool)
    ensures
        r == contains_spec(s@, p@),
{
    let sv = chars_of(s);
    let pv = chars_of(p);
    let mut i: usize = 0;
    while i < sv.len()
        invariant
            sv@ == s@,
            pv@ == p@,
            i <= sv@.len(),
            forall|k: int| 0 <= k < i ==> !occurs_at(s@, p@, k),
        decreases sv@.len() - i,
    {
        if occurs_at_exec(&sv, &pv, i) {
            return true;
        }
        i += 1;
    }
    if occurs_at_exec(&sv, &pv, i) {
        return true;
    }
    proof {
        assert forall|k: int| !occurs_at(s@, p@, k) by {
            if 0 <= k && k < i {
            } else if k == i {
            } else {
            }
        }
    }
    false
}

/// Every occurrence of `from` replaced by `to`, scanning left to right without overlap
/// (as `str::replace` does for a non-empty pattern).
pub open spec fn replace_spec(s: Seq<char>, from: Seq<char>, to: Seq<char>) -> Seq<char>
    decreases s.len(),
{
    if s.len() == 0 {
        seq![]
    } else if from.len() > 0 && starts_with_spec(s, from) {
        to + replace_spec(s.skip(from.len() as int), from, to)
    } else {
        seq![s[0]] + replace_spec(s.skip(1), from, to)
    }
}

/// Replaces every occurrence of a non-empty pattern.
pub fn replace_all(s: &str, from: &str, to: &str) -> (r: String)
    requires
        from@.len() > 0,
    ensures
        r@ == replace_spec(s@, from@, to@),
{
    let sv = chars_of(s);
    let fv = chars_of(from);
    let mut out = String::new();
    let mut i: usize = 0;
    proof {
        assert(s@.skip(0) =~= s@);
    }
    while i < sv.len()
        invariant
            sv@ == s@,
            fv@ == from@,
            from@.len() > 0,
            i <= sv@.len(),
            out@ + replace_spec(s@.skip(i as int), from@, to@) == replace_spec(s@, from@, to@),
        decreases sv@.len() - i,
    {
        let ghost rest = s@.skip(i as int);
        if occurs_at_exec(&sv, &fv, i) {
            proof {
                assert(rest.take(from@.len() as int) =~= s@.subrange(i as int, i + from@.len()));
                assert(rest.skip(from@.len() as int) =~= s@.skip(i + from@.len()));
                assert(out@ + (to@ + replace_spec(rest.skip(from@.len() as int), from@, to@))
                    =~= (out@ + to@) + replace_spec(s@.skip(i + from@.len()), from@, to@));
            }
            out.append(to);
            i += fv.len();
        } else {
            proof {
                assert(!starts_with_spec(rest, from@)) by {
                    if starts_with_spec(rest, from@) {
                        assert(rest.take(from@.len() as int) =~= s@.subrange(i as int, i + from@.len()));
                    }
                }
                assert(rest.skip(1) =~= s@.skip(i + 1));
                assert(out@ + (seq![rest[0]] + replace_spec(rest.skip(1), from@, to@))
                    =~= out@.push(sv@[i as int]) + replace_spec(s@.skip(i + 1), from@, to@));
            }
            push_char(&mut out, sv[i]);
            i += 1;
        }
    }
    proof {
        assert(out@ + replace_spec(s@.skip(i as int), from@, to@) =~= out@);
    }
    out
}

/// The pieces of `s` between occurrences of `sep`, scanning from `cur`, the piece begun so far.
pub open spec fn split_from(s: Seq<char>, sep: Seq<char>, cur: Seq<char>) -> Seq<Seq<char>>
    decreases s.len(),
{
    if s.len() == 0 {
        seq![cur]
    } else if sep.len() > 0 && starts_with_spec(s, sep) {
        seq![cur] + split_from(s.skip(sep.len() as int), sep, seq![])
    } else {
        split_from(s.skip(1), sep, cur.push(s[0]))
    }
}

/// The pieces of `s` separated by the non-empty `sep`, as `str::split` yields them.
pub open spec fn split_spec(s: Seq<char>, sep: Seq<char>) -> Seq<Seq<char>> {
    split_from(s, sep, seq![])
}

/// The views of a sequence of strings.
pub open spec fn strings_view(v: Seq<String>) -> Seq<Seq<char>> {
    v.map_values(|x: String| x@)
}

/// Splitting always gives at least one piece.
pub proof fn lemma_split_from_nonempty(s: Seq<char>, sep: Seq<char>, cur: Seq<char>)
    ensures
        split_from(s, sep, cur).len() >= 1,
    decreases s.len(),
{
    if s.len() == 0 {
    } else if sep.len() > 0 && starts_with_spec(s, sep) {
        lemma_split_from_nonempty(s.skip(sep.len() as int), sep, seq![]);
    } else {
        lemma_split_from_nonempty(s.skip(1), sep, cur.push(s[0]));
    }
}

/// All pieces of `s` separated by a non-empty `sep`.
pub fn split_all(s: &str, sep: &str) -> (r: Vec<String>)
    requires
        sep@.len() > 0,
    ensures
        strings_view(r@) == split_spec(s@, sep@),
{
    let sv = chars_of(s);
    let pv = chars_of(sep);
    let mut pieces: Vec<String> = Vec::new();
    let mut cur: Vec<char> = Vec::new();
    let mut i: usize = 0;
    proof {
        assert(s@.skip(0) =~= s@);
        assert(strings_view(pieces@) + split_from(s@, sep@, cur@) =~= split_spec(s@, sep@));
    }
    while i < sv.len()
        invariant
            sv@ == s@,
            pv@ == sep@,
            sep@.len() > 0,
            i <= sv@.len(),
            strings_view(pieces@) + split_from(s@.skip(i as int), sep@, cur@) == split_spec(s@, sep@),
        decreases sv@.len() - i,
    {
        let ghost rest = s@.skip(i as int);
        if occurs_at_exec(&sv, &pv, i) {
            let piece = string_of(&cur);
            proof {
                assert(rest.take(sep@.len() as int) =~= s@.subrange(i as int, i + sep@.len()));
                assert(rest.skip(sep@.len() as int) =~= s@.skip(i + sep@.len()));
                assert(strings_view(pieces@.push(piece)) =~= strings_view(pieces@).push(cur@));
                assert(strings_view(pieces@) + (seq![cur@] + split_from(rest.skip(sep@.len() as int), sep@, seq![]))
                    =~= strings_view(pieces@).push(cur@) + split_from(s@.skip(i + sep@.len()), sep@, seq![]));
            }
            pieces.push(piece);
            cur = Vec::new();
            i += pv.len();
        } else {
            proof {
                assert(!starts_with_spec(rest, sep@)) by {
                    if starts_with_spec(rest, sep@) {
                        assert(rest.take(sep@.len() as int) =~= s@.subrange(i as int, i + sep@.len()));
                    }
                }
                assert(rest.skip(1) =~= s@.skip(i + 1));
            }
            cur.push(sv[i]);
            i += 1;
        }
    }
    let piece = string_of(&cur);
    proof {
        assert(strings_view(pieces@.push(piece)) =~= strings_view(pieces@).push(cur@));
        assert(strings_view(pieces@) + split_from(s@.skip(i as int), sep@, cur@) =~= strings_view(pieces@).push(cur@));
    }
    pieces.push(piece);
    pieces
}

/// The piece at `n` of `s` split at `sep` (`split(sep).nth(n)`), if there are that many.
pub open spec fn split_nth_spec(s: Seq<char>, sep: Seq<char>, n: nat) -> Option<Seq<char>> {
    if n < split_spec(s, sep).len() {
        Some(split_spec(s, sep)[n as int])
    } else {
        None
    }
}

/// The piece at `n` of `s` split at a non-empty `sep`.
pub fn split_nth(s: &str, sep: &str, n: usize) -> (r: Option<String>)
    requires
        sep@.len() > 0,
    ensures
        match r {
            Some(p) => split_nth_spec(s@, sep@, n as nat) == Some(p@),
            None => split_nth_spec(s@, sep@, n as nat) is None,
        },
{
    let mut pieces = split_all(s, sep);
    if n < pieces.len() {
        proof {
            assert(strings_view(pieces@)[n as int] == pieces@[n as int]@);
        }
        Some(pieces.swap_remove(n))
    } else {
        None
    }
}

/// The first piece of `s` split at a non-empty `sep` (`split(sep).nth(0)`, which always exists).
pub fn split_first(s: &str, sep: &str) -> (r: String)
    requires
        sep@.len() > 0,
    ensures
        split_nth_spec(s@, sep@, 0) == Some(r@),
{
    proof {
        lemma_split_from_nonempty(s@, sep@, seq![]);
    }
    match split_nth(s, sep, 0) {
        Some(p) => p,
        None => String::new(),
    }
}

} // verus!
