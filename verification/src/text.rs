use vstd::prelude::*;
use vstd::string::StringExecFns;

verus! {

/// The lower-case form of a text, as `str::to_lowercase` computes it from the
/// Unicode case mappings.
pub uninterp spec fn lowercase(s: Seq<char>) -> Seq<char>;

/// Lower-cases a text with `str::to_lowercase`; the result is named
/// [`lowercase`], nothing more is claimed of it.
#[verifier::external_body]
pub(crate) fn to_lowercase(s: &str) -> (r: String)
    ensures
        r@ == lowercase(s@),
{
    s.to_lowercase()
}

/// Whether a character is whitespace: one of the 25 characters with the
/// Unicode `White_Space` property. These are tab to carriage return, the
/// space, next line, the no-break space, the ogham space mark, en quad to
/// hair space, the line and the paragraph separator, the narrow no-break
/// space, the medium mathematical space and the ideographic space.
pub open spec fn is_whitespace(c: char) -> bool {
    let code = c as u32;
    ||| 0x09 <= code <= 0x0D
    ||| code == 0x20
    ||| code == 0x85
    ||| code == 0xA0
    ||| code == 0x1680
    ||| 0x2000 <= code <= 0x200A
    ||| code == 0x2028
    ||| code == 0x2029
    ||| code == 0x202F
    ||| code == 0x205F
    ||| code == 0x3000
}

/// Tells whether a character is whitespace.
pub fn char_is_whitespace(c: char) -> (r: bool)
    ensures
        r == is_whitespace(c),
{
    let code: u32 = c as u32;
    (0x09 <= code && code <= 0x0D) || code == 0x20 || code == 0x85 || code == 0xA0 || code
        == 0x1680 || (0x2000 <= code && code <= 0x200A) || code == 0x2028 || code == 0x2029
        || code == 0x202F || code == 0x205F || code == 0x3000
}

/// Appends one character to `s`; this is `String::push`, which adds the
/// character at the end and changes nothing else.
#[verifier::external_body]
pub(crate) fn push_char(s: &mut String, c: char)
    ensures
        final(s)@ == old(s)@.push(c),
{
    s.push(c)
}

/// The characters of `s`, in order.
pub fn chars_of(s: &str) -> (out: Vec<char>)
    ensures
        out@ == s@,
{
    let mut out: Vec<char> = Vec::new();
    let it = s.chars();
    for c in iter: it
        invariant
            iter.seq() == s@,
            out@ == s@.take(iter.index() as int),
    {
        out.push(c);
    }
    out
}

/// The string made of the characters `v[from..to]`.
pub fn string_of_range(v: &Vec<char>, from: usize, to: usize) -> (out: String)
    requires
        from <= to <= v.len(),
    ensures
        out@ == v@.subrange(from as int, to as int),
{
    let mut out = String::new();
    let mut i: usize = from;
    while i < to
        invariant
            from <= i <= to <= v.len(),
            out@ == v@.subrange(from as int, i as int),
        decreases to - i,
    {
        push_char(&mut out, v[i]);
        i += 1;
    }
    out
}

/// Appends the text `s` to `out`.
pub fn push_text(out: &mut String, s: &str)
    ensures
        final(out)@ == old(out)@ + s@,
{
    out.append(s);
}

/// How many of the flags at the front are set.
pub open spec fn leading_set(flags: Seq<bool>) -> nat
    decreases flags.len(),
{
    if flags.len() > 0 && flags[0] {
        1 + leading_set(flags.skip(1))
    } else {
        0
    }
}

/// How many of the flags at the back are set.
pub open spec fn trailing_set(flags: Seq<bool>) -> nat
    decreases flags.len(),
{
    if flags.len() > 0 && flags.last() {
        1 + trailing_set(flags.drop_last())
    } else {
        0
    }
}

/// The positions that are left when the set flags at both ends are cut off:
/// from the first unset flag up to behind the last one; empty where every
/// flag is set.
pub open spec fn unset_span(flags: Seq<bool>) -> (int, int) {
    let start = leading_set(flags) as int;
    let end = flags.len() - trailing_set(flags);
    if start <= end {
        (start, end)
    } else {
        (start, start)
    }
}

/// For each character, whether it is whitespace.
pub open spec fn blanks(s: Seq<char>) -> Seq<bool> {
    s.map_values(|c: char| is_whitespace(c))
}

/// A text without leading and trailing whitespace.
pub open spec fn trimmed(s: Seq<char>) -> Seq<char> {
    s.subrange(unset_span(blanks(s)).0, unset_span(blanks(s)).1)
}

/// Finds what is left of a sequence of flags when the set ones at both ends
/// are cut off.
pub fn find_unset_span(flags: &Vec<bool>) -> (span: (usize, usize))
    ensures
        (span.0 as int, span.1 as int) == unset_span(flags@),
        span.0 <= span.1 <= flags.len(),
{
    let n = flags.len();
    let mut start: usize = 0;
    assert(flags@.skip(0) == flags@);
    while start < n && flags[start]
        invariant
            n == flags.len(),
            start <= n,
            leading_set(flags@) == start + leading_set(flags@.skip(start as int)),
        decreases n - start,
    {
        assert(flags@.skip(start as int).skip(1) == flags@.skip(start + 1));
        start += 1;
    }
    let mut end: usize = n;
    assert(flags@.take(n as int) == flags@);
    while end > 0 && flags[end - 1]
        invariant
            n == flags.len(),
            end <= n,
            trailing_set(flags@) == (n - end) + trailing_set(flags@.take(end as int)),
        decreases end,
    {
        assert(flags@.take(end as int).drop_last() == flags@.take(end - 1));
        end -= 1;
    }
    if start <= end {
        (start, end)
    } else {
        (start, start)
    }
}

/// Removes leading and trailing whitespace.
pub fn trim(s: &str) -> (out: String)
    ensures
        out@ == trimmed(s@),
{
    let chars = chars_of(s);
    let mut flags: Vec<bool> = Vec::new();
    let mut i: usize = 0;
    while i < chars.len()
        invariant
            i <= chars.len(),
            flags@ == blanks(chars@.take(i as int)),
        decreases chars.len() - i,
    {
        flags.push(char_is_whitespace(chars[i]));
        assert(chars@.take(i + 1) == chars@.take(i as int).push(chars@[i as int]));
        i += 1;
    }
    assert(chars@.take(chars.len() as int) == chars@);
    let span = find_unset_span(&flags);
    string_of_range(&chars, span.0, span.1)
}

/// The pieces of `s` between occurrences of `sep`: one more piece than there
/// are separators, empty pieces included.
pub open spec fn split_on(s: Seq<char>, sep: char) -> Seq<Seq<char>>
    decreases s.len(),
{
    if s.len() == 0 {
        seq![Seq::<char>::empty()]
    } else {
        let before = split_on(s.drop_last(), sep);
        if s.last() == sep {
            before.push(Seq::<char>::empty())
        } else {
            before.drop_last().push(before.last().push(s.last()))
        }
    }
}

/// The texts of a sequence of strings.
pub open spec fn texts(v: Seq<String>) -> Seq<Seq<char>> {
    v.map_values(|s: String| s@)
}

/// The text of an optional string, where there is one.
pub open spec fn option_text(s: Option<String>) -> Option<Seq<char>> {
    match s {
        Some(t) => Some(t@),
        None => None,
    }
}

/// Splits `s` at every occurrence of `sep`.
pub fn split(s: &str, sep: char) -> (out: Vec<String>)
    ensures
        texts(out@) == split_on(s@, sep),
{
    let chars = chars_of(s);
    let n = chars.len();
    let mut out: Vec<String> = Vec::new();
    let mut current = String::new();
    let mut i: usize = 0;
    assert(chars@.take(0) == Seq::<char>::empty());
    assert(texts(out@).push(current@) == split_on(chars@.take(0), sep));
    while i < n
        invariant
            n == chars.len(),
            chars@ == s@,
            i <= n,
            texts(out@).push(current@) == split_on(chars@.take(i as int), sep),
        decreases n - i,
    {
        let c = chars[i];
        let ghost prefix = chars@.take(i + 1);
        let ghost done = texts(out@);
        let ghost piece = current@;
        assert(prefix.drop_last() == chars@.take(i as int));
        assert(prefix.last() == c);
        assert(done.push(piece).drop_last() == done);
        if c == sep {
            out.push(current);
            current = String::new();
            assert(texts(out@) == done.push(piece));
        } else {
            push_char(&mut current, c);
        }
        i += 1;
    }
    assert(chars@.take(n as int) == chars@);
    let ghost done = texts(out@);
    out.push(current);
    assert(texts(out@) == done.push(current@));
    out
}

/// Whether `needle` occurs in `hay` at position `at`.
pub open spec fn occurs_at(hay: Seq<char>, needle: Seq<char>, at: int) -> bool {
    0 <= at && at + needle.len() <= hay.len() && hay.subrange(at, at + needle.len()) == needle
}

/// Whether `needle` occurs somewhere in `hay`; the empty text occurs in every text.
pub open spec fn has_substring(hay: Seq<char>, needle: Seq<char>) -> bool {
    exists|at: int| occurs_at(hay, needle, at)
}

/// Whether `needle` stands in `hay` at position `at`.
fn matches_at(hay: &Vec<char>, needle: &Vec<char>, at: usize) -> (r: bool)
    requires
        at + needle.len() <= hay.len(),
    ensures
        r == occurs_at(hay@, needle@, at as int),
{
    let m = needle.len();
    let mut j: usize = 0;
    while j < m
        invariant
            m == needle.len(),
            at + m <= hay.len(),
            j <= m,
            forall|k: int| 0 <= k < j ==> hay@[at + k] == needle@[k],
        decreases m - j,
    {
        if hay[at + j] != needle[j] {
            assert(hay@.subrange(at as int, at + m)[j as int] != needle@[j as int]);
            return false;
        }
        j += 1;
    }
    assert(hay@.subrange(at as int, at + m) =~= needle@);
    true
}

/// Substring containment.
pub fn contains(hay: &str, needle: &str) -> (r: bool)
    ensures
        r == has_substring(hay@, needle@),
{
    let h = chars_of(hay);
    let p = chars_of(needle);
    if p.len() > h.len() {
        return false;
    }
    let last = h.len() - p.len();
    let mut at: usize = 0;
    loop
        invariant
            h@ == hay@,
            p@ == needle@,
            last == h.len() - p.len(),
            at <= last,
            forall|k: int| 0 <= k < at ==> !occurs_at(h@, p@, k),
        decreases last - at,
    {
        if matches_at(&h, &p, at) {
            return true;
        }
        if at == last {
            return false;
        }
        at += 1;
    }
}

/// The character of a decimal digit.
pub open spec fn digit_char(d: int) -> char {
    if d == 0 {
        '0'
    } else if d == 1 {
        '1'
    } else if d == 2 {
        '2'
    } else if d == 3 {
        '3'
    } else if d == 4 {
        '4'
    } else if d == 5 {
        '5'
    } else if d == 6 {
        '6'
    } else if d == 7 {
        '7'
    } else if d == 8 {
        '8'
    } else {
        '9'
    }
}

/// The decimal digits of a natural number, most significant first, without
/// leading zeros; `0` is written `0`.
pub open spec fn digits(n: nat) -> Seq<char>
    decreases n,
{
    if n < 10 {
        seq![digit_char(n as int)]
    } else {
        digits(n / 10).push(digit_char((n % 10) as int))
    }
}

/// The decimal notation of an integer: a minus sign for a negative number,
/// then the digits of its magnitude.
pub open spec fn decimal(n: int) -> Seq<char> {
    if n < 0 {
        seq!['-'] + digits((-n) as nat)
    } else {
        digits(n as nat)
    }
}

fn digit(d: u128) -> (c: char)
    requires
        d < 10,
    ensures
        c == digit_char(d as int),
{
    if d == 0 {
        '0'
    } else if d == 1 {
        '1'
    } else if d == 2 {
        '2'
    } else if d == 3 {
        '3'
    } else if d == 4 {
        '4'
    } else if d == 5 {
        '5'
    } else if d == 6 {
        '6'
    } else if d == 7 {
        '7'
    } else if d == 8 {
        '8'
    } else {
        '9'
    }
}

/// The digits of the natural number `m`.
fn digits_of(m: u128) -> (out: Vec<char>)
    ensures
        out@ == digits(m as nat),
{
    let mut out: Vec<char> = Vec::new();
    out.push(digit(m % 10));
    let mut rest: u128 = m / 10;
    assert(out@ == seq![digit_char((m % 10) as int)]);
    assert(digits(m as nat) == (if rest == 0 {
        Seq::<char>::empty()
    } else {
        digits(rest as nat)
    }) + out@);
    while rest > 0
        invariant
            digits(m as nat) == (if rest == 0 {
                Seq::<char>::empty()
            } else {
                digits(rest as nat)
            }) + out@,
        decreases rest,
    {
        let ghost tail = out@;
        let ghost head = digits(rest as nat);
        let d = digit(rest % 10);
        out.insert(0, d);
        assert(out@ == seq![d] + tail);
        let ghost shorter = rest / 10;
        assert(head == (if shorter == 0 {
            Seq::<char>::empty()
        } else {
            digits(shorter as nat)
        }) + seq![d]);
        rest = rest / 10;
        assert(digits(m as nat) == (if rest == 0 {
            Seq::<char>::empty()
        } else {
            digits(rest as nat)
        }) + out@);
    }
    out
}

/// Writes an integer in decimal notation.
pub fn decimal_string(n: i128) -> (out: String)
    ensures
        out@ == decimal(n as int),
{
    let mut out = String::new();
    let magnitude: u128 = if n < 0 {
        push_char(&mut out, '-');
        (-(n + 1)) as u128 + 1
    } else {
        n as u128
    };
    let ds = digits_of(magnitude);
    let ghost sign = out@;
    let mut i: usize = 0;
    while i < ds.len()
        invariant
            i <= ds.len(),
            out@ == sign + ds@.take(i as int),
        decreases ds.len() - i,
    {
        push_char(&mut out, ds[i]);
        i += 1;
    }
    assert(ds@.take(ds.len() as int) == ds@);
    out
}

/// A character with an ASCII capital letter turned into its small letter.
pub open spec fn ascii_folded(c: char) -> char {
    if 'A' <= c && c <= 'Z' {
        ((c as u8) + 32) as char
    } else {
        c
    }
}

/// Whether two texts are equal, the case of ASCII letters aside.
pub open spec fn equal_ignoring_ascii_case(a: Seq<char>, b: Seq<char>) -> bool {
    a.len() == b.len() && forall|i: int| 0 <= i < a.len() ==> ascii_folded(a[i]) == ascii_folded(b[i])
}

fn fold_ascii(c: char) -> (r: char)
    ensures
        r == ascii_folded(c),
{
    if 'A' <= c && c <= 'Z' {
        ((c as u8) + 32) as char
    } else {
        c
    }
}

/// Compares two texts, the case of ASCII letters aside.
pub fn eq_ignore_ascii_case(a: &str, b: &str) -> (r: bool)
    ensures
        r == equal_ignoring_ascii_case(a@, b@),
{
    let x = chars_of(a);
    let y = chars_of(b);
    if x.len() != y.len() {
        return false;
    }
    let mut i: usize = 0;
    while i < x.len()
        invariant
            x@ == a@,
            y@ == b@,
            x.len() == y.len(),
            i <= x.len(),
            forall|k: int| 0 <= k < i ==> ascii_folded(x@[k]) == ascii_folded(y@[k]),
        decreases x.len() - i,
    {
        if fold_ascii(x[i]) != fold_ascii(y[i]) {
            return false;
        }
        i += 1;
    }
    true
}

} // verus!
