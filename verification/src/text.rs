//! Character-level helpers on strings.
use vstd::prelude::*;

verus! {

/// `String::push`: the string grows by the one character.
#[verifier::external_body]
pub(crate) fn push_char(s: &mut String, c: char)
    ensures
        final(s)@ == old(s)@.push(c),
{
    s.push(c)
}

/// Whether `c` has the Unicode property `Uppercase`.
pub uninterp spec fn is_uppercase(c: char) -> bool;

/// Whether `c` has the Unicode property `Lowercase`.
pub uninterp spec fn is_lowercase(c: char) -> bool;

/// The lowercase form of a string.
pub uninterp spec fn lowercase(s: Seq<char>) -> Seq<char>;

/// The uppercase form of a string.
pub uninterp spec fn uppercase(s: Seq<char>) -> Seq<char>;

/// The uppercase mapping of one character: one character or more.
pub uninterp spec fn char_uppercase(c: char) -> Seq<char>;

/// `char::is_uppercase`: the answer depends on the character alone.
#[verifier::external_body]
pub(crate) fn char_is_uppercase(c: char) -> (yes: bool)
    ensures
        yes == is_uppercase(c),
{
    c.is_uppercase()
}

/// `char::is_lowercase`: the answer depends on the character alone.
#[verifier::external_body]
pub(crate) fn char_is_lowercase(c: char) -> (yes: bool)
    ensures
        yes == is_lowercase(c),
{
    c.is_lowercase()
}

/// `str::to_lowercase`: the result depends on the string alone.
#[verifier::external_body]
pub(crate) fn str_to_lowercase(s: &str) -> (lower: String)
    ensures
        lower@ == lowercase(s@),
{
    s.to_lowercase()
}

/// `str::to_uppercase`: the result depends on the string alone.
#[verifier::external_body]
pub(crate) fn str_to_uppercase(s: &str) -> (upper: String)
    ensures
        upper@ == uppercase(s@),
{
    s.to_uppercase()
}

/// `char::to_uppercase`: the characters that the iterator yields depend on
/// the character alone, and there is at least one of them.
#[verifier::external_body]
pub(crate) fn char_to_uppercase(c: char) -> (upper: Vec<char>)
    ensures
        upper@ == char_uppercase(c),
        upper@.len() >= 1,
{
    c.to_uppercase().collect()
}

/// The characters of `s`.
pub fn chars_of(s: &str) -> (chars: Vec<char>)
    ensures
        chars@ == s@,
{
    let mut chars: Vec<char> = Vec::new();
    for c in it: s.chars()
        invariant
            it.seq() == s@,
            chars@ == it.seq().take(it.index() as int),
    {
        chars.push(c);
        assert(chars@ =~= it.seq().take(it.index() + 1));
    }
    assert(chars@ =~= s@);
    chars
}

/// The string made of `chars`.
pub fn string_of(chars: &Vec<char>) -> (s: String)
    ensures
        s@ == chars@,
{
    let mut s = String::new();
    let mut i: usize = 0;
    while i < chars.len()
        invariant
            i <= chars.len(),
            s@ == chars@.take(i as int),
        decreases chars.len() - i,
    {
        push_char(&mut s, chars[i]);
        i += 1;
        assert(s@ =~= chars@.take(i as int));
    }
    assert(chars@.take(chars.len() as int) =~= chars@);
    s
}

/// Whether `pat` occurs in `s` at index `i`.
pub open spec fn matches_at(s: Seq<char>, pat: Seq<char>, i: int) -> bool {
    0 <= i && i + pat.len() <= s.len() && s.subrange(i, i + pat.len()) == pat
}

/// The least index at or after `from` at which `pat` occurs in `s`, or -1.
pub open spec fn find_from(s: Seq<char>, pat: Seq<char>, from: int) -> int
    decreases s.len() - from,
{
    if from < 0 || from + pat.len() > s.len() {
        -1
    } else if pat.len() == 0 || matches_at(s, pat, from) {
        from
    } else {
        find_from(s, pat, from + 1)
    }
}

/// The pieces of `s` from index `start` on, cut at each occurrence of the
/// non-empty separator `sep`, occurrences taken from the left and not
/// overlapping.
pub open spec fn split_from(s: Seq<char>, sep: Seq<char>, start: int) -> Seq<Seq<char>>
    recommends
        sep.len() > 0,
        0 <= start <= s.len(),
    decreases s.len() - start,
{
    let at = find_from(s, sep, start);
    if sep.len() == 0 || start < 0 || at < start || at + sep.len() > s.len() {
        seq![s.subrange(start, s.len() as int)]
    } else {
        seq![s.subrange(start, at)] + split_from(s, sep, at + sep.len())
    }
}

/// Each character of `s` as a sequence of its own.
pub open spec fn singletons(s: Seq<char>) -> Seq<Seq<char>> {
    Seq::new(s.len(), |i: int| seq![s[i]])
}

/// The pieces of `s` between occurrences of `sep`. There is always at least
/// one piece. An empty separator cuts at every position, the two ends
/// included: an empty piece, each character by itself, an empty piece.
pub open spec fn split(s: Seq<char>, sep: Seq<char>) -> Seq<Seq<char>> {
    if sep.len() == 0 {
        seq![Seq::<char>::empty()] + singletons(s) + seq![Seq::<char>::empty()]
    } else {
        split_from(s, sep, 0)
    }
}

/// The pieces, with `sep` between each two.
pub open spec fn join(parts: Seq<Seq<char>>, sep: Seq<char>) -> Seq<char>
    decreases parts.len(),
{
    if parts.len() == 0 {
        Seq::empty()
    } else if parts.len() == 1 {
        parts[0]
    } else {
        join(parts.drop_last(), sep) + sep + parts.last()
    }
}

/// The pieces, one after the other.
pub open spec fn concat(parts: Seq<Seq<char>>) -> Seq<char>
    decreases parts.len(),
{
    if parts.len() == 0 {
        Seq::empty()
    } else {
        concat(parts.drop_last()) + parts.last()
    }
}

/// Whether `pat` occurs in `s` at index `i`.
pub fn occurs_at(s: &Vec<char>, pat: &Vec<char>, i: usize) -> (found: bool)
    requires
        i + pat.len() <= s.len(),
    ensures
        found == matches_at(s@, pat@, i as int),
{
    let mut k: usize = 0;
    while k < pat.len()
        invariant
            k <= pat.len(),
            i + pat.len() <= s.len(),
            s@.subrange(i as int, i + k) == pat@.take(k as int),
        decreases pat.len() - k,
    {
        if s[i + k] != pat[k] {
            assert(s@.subrange(i as int, i + pat.len())[k as int] != pat@[k as int]);
            return false;
        }
        k += 1;
        assert(s@.subrange(i as int, i + k) =~= s@.subrange(i as int, i + k - 1).push(
            s@[i + k - 1],
        ));
        assert(pat@.take(k as int) =~= pat@.take(k - 1).push(pat@[k - 1]));
    }
    assert(pat@.take(pat.len() as int) =~= pat@);
    true
}

/// Whether `s` begins with `prefix`.
pub fn starts_with(s: &Vec<char>, prefix: &Vec<char>) -> (yes: bool)
    ensures
        yes == prefix@.is_prefix_of(s@),
{
    if prefix.len() > s.len() {
        return false;
    }
    let yes = occurs_at(s, prefix, 0);
    assert(yes == (prefix@ =~= s@.subrange(0, prefix@.len() as int)));
    yes
}

/// Whether `s` ends with `suffix`.
pub fn ends_with(s: &Vec<char>, suffix: &Vec<char>) -> (yes: bool)
    ensures
        yes == suffix@.is_suffix_of(s@),
{
    if suffix.len() > s.len() {
        return false;
    }
    let yes = occurs_at(s, suffix, s.len() - suffix.len());
    assert(yes == (suffix@ =~= s@.subrange(s@.len() - suffix@.len(), s@.len() as int)));
    yes
}

/// The characters of `s` from index `from` up to, not including, `to`.
pub fn slice_chars(s: &Vec<char>, from: usize, to: usize) -> (piece: Vec<char>)
    requires
        from <= to <= s.len(),
    ensures
        piece@ == s@.subrange(from as int, to as int),
{
    let mut piece: Vec<char> = Vec::new();
    let mut i: usize = from;
    while i < to
        invariant
            from <= i <= to,
            to <= s.len(),
            piece@ == s@.subrange(from as int, i as int),
        decreases to - i,
    {
        piece.push(s[i]);
        i += 1;
        assert(piece@ =~= s@.subrange(from as int, i as int));
    }
    piece
}

/// The pieces of `s` between occurrences of `sep`, as `str::split` cuts them.
pub fn split_str(s: &str, sep: &str) -> (parts: Vec<String>)
    ensures
        parts.deep_view() == split(s@, sep@),
{
    let s = chars_of(s);
    let sep = chars_of(sep);
    let mut parts: Vec<String> = Vec::new();
    if sep.len() == 0 {
        parts.push(String::new());
        let mut i: usize = 0;
        assert(parts.deep_view() =~= seq![Seq::<char>::empty()] + singletons(s@.take(0)));
        while i < s.len()
            invariant
                i <= s.len(),
                parts.deep_view() == seq![Seq::<char>::empty()] + singletons(s@.take(i as int)),
            decreases s.len() - i,
        {
            let mut one = String::new();
            push_char(&mut one, s[i]);
            assert(one@ =~= seq![s@[i as int]]);
            let ghost before = parts.deep_view();
            parts.push(one);
            i += 1;
            assert(parts.deep_view() =~= before.push(seq![s@[i - 1]]));
            assert(singletons(s@.take(i as int)) =~= singletons(s@.take(i - 1)).push(
                seq![s@[i - 1]],
            ));
        }
        parts.push(String::new());
        assert(s@.take(s.len() as int) =~= s@);
        assert(parts.deep_view() =~= split(s@, sep@));
        return parts;
    }
    let mut start: usize = 0;
    let mut i: usize = 0;
    assert(parts.deep_view() =~= Seq::<Seq<char>>::empty());
    loop
        invariant_except_break
            sep.len() > 0,
            start <= i <= s.len(),
            find_from(s@, sep@, start as int) == find_from(s@, sep@, i as int),
            split(s@, sep@) == parts.deep_view() + split_from(s@, sep@, start as int),
        ensures
            parts.deep_view() == split(s@, sep@),
        decreases s.len() - i,
    {
        if sep.len() > s.len() - i {
            let last = string_of(&slice_chars(&s, start, s.len()));
            let ghost before = parts.deep_view();
            parts.push(last);
            assert(parts.deep_view() =~= before + seq![s@.subrange(start as int, s@.len() as int)]);
            break ;
        }
        if occurs_at(&s, &sep, i) {
            let piece = string_of(&slice_chars(&s, start, i));
            let ghost before = parts.deep_view();
            parts.push(piece);
            assert(parts.deep_view() =~= before + seq![s@.subrange(start as int, i as int)]);
            start = i + sep.len();
            i = start;
        } else {
            i += 1;
        }
    }
    parts
}

/// The strings of `parts`, with `sep` between each two.
pub fn join_strings(parts: &Vec<String>, sep: &str) -> (joined: String)
    ensures
        joined@ == join(parts.deep_view(), sep@),
{
    let mut joined = String::new();
    let mut i: usize = 0;
    while i < parts.len()
        invariant
            i <= parts.len(),
            joined@ == join(parts.deep_view().take(i as int), sep@),
        decreases parts.len() - i,
    {
        if i > 0 {
            joined.append(sep);
        }
        joined.append(parts[i].as_str());
        i += 1;
        assert(parts.deep_view().take(i as int).drop_last() =~= parts.deep_view().take(i - 1));
    }
    assert(parts.deep_view().take(parts.len() as int) =~= parts.deep_view());
    joined
}

/// The decimal digit `d`, as a character.
pub open spec fn digit(d: nat) -> char
    recommends
        d < 10,
{
    if d == 0 {
        '0'
    } else if d == 1 {
        '1'
    } else if d == 2 {
        '2'
    } else if d == 3 {
        '3'
    } else if d == 4 {
        '4'
    } else if d == 5 {
        '5'
    } else if d == 6 {
        '6'
    } else if d == 7 {
        '7'
    } else if d == 8 {
        '8'
    } else {
        '9'
    }
}

/// The number in decimal, without leading zeros: what `to_string` gives for
/// an unsigned integer.
pub open spec fn decimal(n: nat) -> Seq<char>
    decreases n,
{
    if n < 10 {
        seq![digit(n)]
    } else {
        decimal(n / 10).push(digit(n % 10))
    }
}

/// The number in decimal, with a minus sign if it is negative: what
/// `to_string` gives for a signed integer.
pub open spec fn signed_decimal(n: int) -> Seq<char> {
    if n < 0 {
        seq!['-'] + decimal((-n) as nat)
    } else {
        decimal(n as nat)
    }
}

/// The decimal digit `d`, as a character.
fn digit_char(d: u64) -> (c: char)
    requires
        d < 10,
    ensures
        c == digit(d as nat),
{
    if d == 0 {
        '0'
    } else if d == 1 {
        '1'
    } else if d == 2 {
        '2'
    } else if d == 3 {
        '3'
    } else if d == 4 {
        '4'
    } else if d == 5 {
        '5'
    } else if d == 6 {
        '6'
    } else if d == 7 {
        '7'
    } else if d == 8 {
        '8'
    } else {
        '9'
    }
}

/// The number in decimal.
pub fn u64_to_string(n: u64) -> (s: String)
    ensures
        s@ == decimal(n as nat),
{
    // The digits, least significant first.
    let mut digits: Vec<char> = Vec::new();
    let mut rest: u64 = n;
    while rest >= 10
        invariant
            decimal(n as nat) == decimal(rest as nat) + digits@.reverse(),
        decreases rest,
    {
        let ghost before = digits@;
        digits.push(digit_char(rest % 10));
        assert(digits@.reverse() =~= seq![digit((rest % 10) as nat)] + before.reverse());
        assert(decimal(rest as nat) == decimal((rest / 10) as nat).push(digit((rest % 10) as nat)));
        assert(decimal((rest / 10) as nat).push(digit((rest % 10) as nat)) + before.reverse()
            =~= decimal((rest / 10) as nat) + (seq![digit((rest % 10) as nat)] + before.reverse()));
        rest = rest / 10;
    }
    let mut s = String::new();
    push_char(&mut s, digit_char(rest));
    let mut i: usize = digits.len();
    while i > 0
        invariant
            i <= digits.len(),
            rest < 10,
            s@ == seq![digit(rest as nat)] + digits@.reverse().take(digits.len() - i),
        decreases i,
    {
        i -= 1;
        push_char(&mut s, digits[i]);
        assert(s@ =~= seq![digit(rest as nat)] + digits@.reverse().take(digits.len() - i));
    }
    assert(digits@.reverse().take(digits.len() as int) =~= digits@.reverse());
    s
}

/// The number in decimal, with a minus sign if it is negative.
pub fn i64_to_string(n: i64) -> (s: String)
    ensures
        s@ == signed_decimal(n as int),
{
    if n < 0 {
        // The magnitude of the least `i64` does not fit in an `i64`.
        let magnitude: u64 = if n == i64::MIN {
            0x8000_0000_0000_0000u64
        } else {
            (-n) as u64
        };
        let mut s = String::new();
        push_char(&mut s, '-');
        let digits = u64_to_string(magnitude);
        s.append(digits.as_str());
        assert(s@ =~= signed_decimal(n as int));
        s
    } else {
        u64_to_string(n as u64)
    }
}

/// `s` with `pad` after each line break.
pub open spec fn indented(s: Seq<char>, pad: Seq<char>) -> Seq<char>
    decreases s.len(),
{
    if s.len() == 0 {
        Seq::empty()
    } else if s.last() == '\n' {
        indented(s.drop_last(), pad).push('\n') + pad
    } else {
        indented(s.drop_last(), pad).push(s.last())
    }
}

/// `s` with `pad` after each line break.
pub fn indent(s: &str, pad: &str) -> (out: String)
    ensures
        out@ == indented(s@, pad@),
{
    let chars = chars_of(s);
    let mut out = String::new();
    let mut i: usize = 0;
    while i < chars.len()
        invariant
            i <= chars.len(),
            out@ == indented(chars@.take(i as int), pad@),
        decreases chars.len() - i,
    {
        push_char(&mut out, chars[i]);
        if chars[i] == '\n' {
            out.append(pad);
        }
        i += 1;
        assert(chars@.take(i as int).drop_last() =~= chars@.take(i - 1));
    }
    assert(chars@.take(chars.len() as int) =~= chars@);
    out
}

/// `s` without its last character, or `s` itself if it is empty.
pub fn without_last(s: &str) -> (out: String)
    ensures
        out@ == (if s@.len() == 0 {
            s@
        } else {
            s@.drop_last()
        }),
{
    let chars = chars_of(s);
    if chars.len() == 0 {
        return String::new();
    }
    string_of(&slice_chars(&chars, 0, chars.len() - 1))
}

} // verus!
