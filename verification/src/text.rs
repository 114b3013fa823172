//! Character-level helpers shared by the parsers and printers of this crate: decimal digits,
//! splitting at a separator, and the textual form of small unsigned numbers.

use vstd::prelude::*;

verus! {

/// The ASCII decimal digit for `d` (meaningful for `d < 10`).
pub open spec fn digit_char(d: nat) -> char {
    if d == 0 {
        '0'
    } else if d == 1 {
        '1'
    } else if d == 2 {
        '2'
    } else if d == 3 {
        '3'
    } else if d == 4 {
        '4'
    } else if d == 5 {
        '5'
    } else if d == 6 {
        '6'
    } else if d == 7 {
        '7'
    } else if d == 8 {
        '8'
    } else {
        '9'
    }
}

/// Whether `c` is one of the ASCII digits `0`..=`9`.
pub open spec fn is_digit(c: char) -> bool {
    '0' <= c && c <= '9'
}

/// The numeric value of an ASCII digit.
pub open spec fn digit_value(c: char) -> int {
    (c as int) - ('0' as int)
}

/// The decimal text of `n`: most significant digit first, no sign and no leading zeros.
pub open spec fn decimal(n: nat) -> Seq<char>
    decreases n,
{
    if n < 10 {
        seq![digit_char(n)]
    } else {
        decimal(n / 10).push(digit_char(n % 10))
    }
}

/// The value of a run of decimal digits, most significant first (0 for the empty run).
pub open spec fn digits_value(s: Seq<char>) -> int
    decreases s.len(),
{
    if s.len() == 0 {
        0
    } else {
        digits_value(s.drop_last()) * 10 + digit_value(s.last())
    }
}

/// Whether every character of `s` is an ASCII digit.
pub open spec fn all_digits(s: Seq<char>) -> bool {
    forall|i: int| 0 <= i < s.len() ==> #[trigger] is_digit(s[i])
}

/// What `str::parse::<u8>` accepts, as its documentation states it: an optional `+` sign
/// followed by one or more ASCII digits whose value fits in a `u8`.
pub open spec fn parse_u8_spec(s: Seq<char>) -> Option<u8> {
    let d = if s.len() > 0 && s[0] == '+' {
        s.drop_first()
    } else {
        s
    };
    if d.len() > 0 && all_digits(d) && digits_value(d) <= 255 {
        Some(digits_value(d) as u8)
    } else {
        None
    }
}

/// What `str::parse::<u64>` accepts, as its documentation states it: an optional `+` sign
/// followed by one or more ASCII digits whose value fits in a `u64`.
pub open spec fn parse_u64_spec(s: Seq<char>) -> Option<u64> {
    let d = if s.len() > 0 && s[0] == '+' {
        s.drop_first()
    } else {
        s
    };
    if d.len() > 0 && all_digits(d) && digits_value(d) <= u64::MAX {
        Some(digits_value(d) as u64)
    } else {
        None
    }
}

/// The text of the error that `str::parse::<u8>` reports for `s` (its `Display` form).
pub uninterp spec fn parse_int_error_text(s: Seq<char>) -> Seq<char>;

/// Index of the first `sep` at or after `from`, or `s.len()` when there is none.
pub open spec fn find_from(s: Seq<char>, sep: char, from: nat) -> nat
    decreases s.len() - from,
{
    if from >= s.len() {
        s.len()
    } else if s[from as int] == sep {
        from
    } else {
        find_from(s, sep, from + 1)
    }
}

pub proof fn lemma_find_from_bounds(s: Seq<char>, sep: char, from: nat)
    requires
        from <= s.len(),
    ensures
        from <= find_from(s, sep, from) <= s.len(),
        find_from(s, sep, from) < s.len() ==> s[find_from(s, sep, from) as int] == sep,
        forall|j: int| from <= j < find_from(s, sep, from) ==> s[j] != sep,
    decreases s.len() - from,
{
    if from < s.len() && s[from as int] != sep {
        lemma_find_from_bounds(s, sep, from + 1);
    }
}

pub proof fn lemma_digit_char(d: nat)
    requires
        d < 10,
    ensures
        digit_value(digit_char(d)) == d,
        is_digit(digit_char(d)),
        digit_char(d) != '+',
        digit_char(d) != '.',
{
}

pub proof fn lemma_decimal(n: nat)
    ensures
        decimal(n).len() > 0,
        all_digits(decimal(n)),
        digits_value(decimal(n)) == n,
        decimal(n)[0] != '+',
        decimal(n)[0] != 'v',
        forall|i: int| 0 <= i < decimal(n).len() ==> decimal(n)[i] != '.',
    decreases n,
{
    if n < 10 {
        lemma_digit_char(n);
        assert(decimal(n).drop_last() =~= Seq::<char>::empty());
        assert(digits_value(Seq::<char>::empty()) == 0);
    } else {
        lemma_decimal(n / 10);
        lemma_digit_char(n % 10);
        let d = decimal(n / 10);
        assert(decimal(n).drop_last() =~= d);
        assert(decimal(n).last() == digit_char(n % 10));
        assert(n == (n / 10) * 10 + n % 10) by (nonlinear_arith);
        assert(digits_value(decimal(n)) == digits_value(decimal(n).drop_last()) * 10
            + digit_value(decimal(n).last()));
        assert(digits_value(decimal(n)) == digits_value(d) * 10 + digit_value(digit_char(n % 10)));
        assert forall|i: int| 0 <= i < decimal(n).len() implies is_digit(#[trigger] decimal(n)[i])
            && decimal(n)[i] != '.' by {
            if i < d.len() {
                assert(decimal(n)[i] == d[i]);
            }
        }
    }
}

/// Parsing the decimal text of a `u8` gives that `u8` back.
pub proof fn lemma_parse_decimal(n: u8)
    ensures
        parse_u8_spec(decimal(n as nat)) == Some(n),
{
    lemma_decimal(n as nat);
}

/// Appends the ASCII digit `d` to `s`.
pub fn push_digit(s: &mut String, d: u8)
    requires
        d < 10,
    ensures
        final(s)@ == old(s)@.push(digit_char(d as nat)),
{
    match d {
        0 => {
            s.append("0");
            proof { reveal_strlit("0"); }
        },
        1 => {
            s.append("1");
            proof { reveal_strlit("1"); }
        },
        2 => {
            s.append("2");
            proof { reveal_strlit("2"); }
        },
        3 => {
            s.append("3");
            proof { reveal_strlit("3"); }
        },
        4 => {
            s.append("4");
            proof { reveal_strlit("4"); }
        },
        5 => {
            s.append("5");
            proof { reveal_strlit("5"); }
        },
        6 => {
            s.append("6");
            proof { reveal_strlit("6"); }
        },
        7 => {
            s.append("7");
            proof { reveal_strlit("7"); }
        },
        8 => {
            s.append("8");
            proof { reveal_strlit("8"); }
        },
        _ => {
            s.append("9");
            proof { reveal_strlit("9"); }
        },
    }
}

/// Appends the decimal text of `n` to `s`.
pub fn push_decimal_u8(s: &mut String, n: u8)
    ensures
        final(s)@ == old(s)@ + decimal(n as nat),
{
    let ghost s0 = s@;
    if n >= 100 {
        push_digit(s, n / 100);
        push_digit(s, (n / 10) % 10);
        push_digit(s, n % 10);
        proof {
            let m = n as nat;
            assert((m / 10) / 10 == m / 100) by (nonlinear_arith)
                requires m < 256;
            assert(m / 10 >= 10 && m / 100 < 10);
            assert(decimal(m / 100) == seq![digit_char(m / 100)]);
            assert(decimal(m / 10) == decimal(m / 100).push(digit_char((m / 10) % 10)));
            assert(decimal(m) == decimal(m / 10).push(digit_char(m % 10)));
        }
    } else if n >= 10 {
        push_digit(s, n / 10);
        push_digit(s, n % 10);
        assert(decimal((n / 10) as nat) == seq![digit_char((n / 10) as nat)]);
    } else {
        push_digit(s, n);
    }
    assert(s@ =~= s0 + decimal(n as nat));
}

/// Appends the decimal text of `n` to `s`.
pub fn push_decimal(s: &mut String, n: u128)
    ensures
        final(s)@ == old(s)@ + decimal(n as nat),
    decreases n,
{
    if n >= 10 {
        push_decimal(s, n / 10);
        push_digit(s, (n % 10) as u8);
    } else {
        push_digit(s, n as u8);
    }
    proof {
        if n >= 10 {
            assert(decimal(n as nat) == decimal((n / 10) as nat).push(digit_char((n % 10) as nat)));
        }
    }
    assert(s@ =~= old(s)@ + decimal(n as nat));
}

/// Index of the first `sep` in `s` at or after `from` (characters), or `s@.len()`.
pub fn find_char_from(s: &str, sep: char, from: usize) -> (r: usize)
    requires
        from <= s@.len(),
    ensures
        r == find_from(s@, sep, from as nat),
{
    let n = s.unicode_len();
    let mut i = from;
    while i < n
        invariant
            n == s@.len(),
            from <= i <= n,
            find_from(s@, sep, from as nat) == find_from(s@, sep, i as nat),
        decreases n - i,
    {
        if s.get_char(i) == sep {
            return i;
        }
        i = i + 1;
    }
    i
}

/// Whether `a` and `b` hold the same characters.
pub fn str_eq(a: &str, b: &str) -> (r: bool)
    ensures
        r == (a@ == b@),
{
    let n = a.unicode_len();
    if n != b.unicode_len() {
        return false;
    }
    let mut i: usize = 0;
    while i < n
        invariant
            n == a@.len() == b@.len(),
            0 <= i <= n,
            forall|j: int| 0 <= j < i ==> a@[j] == b@[j],
        decreases n - i,
    {
        if a.get_char(i) != b.get_char(i) {
            return false;
        }
        i = i + 1;
    }
    assert(a@ =~= b@);
    true
}

/// Whether `s` ends with `suffix`.
pub fn str_ends_with(s: &str, suffix: &str) -> (r: bool)
    ensures
        r == (suffix@.len() <= s@.len() && s@.subrange(s@.len() - suffix@.len(), s@.len() as int)
            == suffix@),
{
    let n = s.unicode_len();
    let m = suffix.unicode_len();
    if m > n {
        return false;
    }
    let tail = s.substring_char(n - m, n);
    str_eq(tail, suffix)
}

/// Whether `s` starts with `prefix`.
pub fn str_starts_with(s: &str, prefix: &str) -> (r: bool)
    ensures
        r == (prefix@.len() <= s@.len() && s@.subrange(0, prefix@.len() as int) == prefix@),
{
    let n = s.unicode_len();
    let m = prefix.unicode_len();
    if m > n {
        return false;
    }
    let head = s.substring_char(0, m);
    str_eq(head, prefix)
}

/// The number of `c` in `s[from..]`.
pub open spec fn count_from(s: Seq<char>, c: char, from: nat) -> nat
    decreases s.len() - from,
{
    if from >= s.len() {
        0
    } else if s[from as int] == c {
        1 + count_from(s, c, from + 1)
    } else {
        count_from(s, c, from + 1)
    }
}

/// Counting from `from` counts the first `c` found from there and those after it.
pub proof fn lemma_count_from_find(s: Seq<char>, c: char, from: nat)
    requires
        from <= s.len(),
    ensures
        find_from(s, c, from) < s.len() ==> count_from(s, c, from) == 1 + count_from(
            s,
            c,
            find_from(s, c, from) + 1,
        ),
        find_from(s, c, from) == s.len() ==> count_from(s, c, from) == 0,
    decreases s.len() - from,
{
    if from < s.len() && s[from as int] != c {
        lemma_count_from_find(s, c, from + 1);
    }
}

/// The number of `c` in `s`.
pub fn count_char(s: &str, c: char) -> (r: usize)
    ensures
        r == count_from(s@, c, 0),
{
    let n = s.unicode_len();
    let mut i = n;
    let mut k: usize = 0;
    while i > 0
        invariant
            n == s@.len(),
            0 <= i <= n,
            k == count_from(s@, c, i as nat),
            k <= n - i,
        decreases i,
    {
        i = i - 1;
        if s.get_char(i) == c {
            k = k + 1;
        }
    }
    k
}

/// Whether byte `b` is `[`, `{` or `.`: each level of TOML nesting (an array, an inline table,
/// a part of a dotted key or of a table header) takes one of these.
pub open spec fn is_nesting_mark(b: u8) -> bool {
    b == 91u8 || b == 123u8 || b == 46u8
}

/// The number of bytes of `b` that are `[`, `{` or `.`: a bound on how deep the TOML in `b`
/// nests, whatever its strings and comments hold.
pub open spec fn nesting_marks(b: Seq<u8>) -> nat
    decreases b.len(),
{
    if b.len() == 0 {
        0
    } else {
        nesting_marks(b.drop_last()) + (if is_nesting_mark(b.last()) {
            1nat
        } else {
            0nat
        })
    }
}

/// Counts the bytes of `b` that are `[`, `{` or `.`.
pub fn count_nesting_marks(b: &[u8]) -> (r: usize)
    ensures
        r == nesting_marks(b@),
{
    let mut k: usize = 0;
    let mut i: usize = 0;
    while i < b.len()
        invariant
            i <= b.len(),
            k == nesting_marks(b@.take(i as int)),
            k <= i,
        decreases b.len() - i,
    {
        proof {
            assert(b@.take(i as int + 1).drop_last() =~= b@.take(i as int));
        }
        let c = b[i];
        if c == 91u8 || c == 123u8 || c == 46u8 {
            k = k + 1;
        }
        i = i + 1;
    }
    proof {
        assert(b@.take(b@.len() as int) =~= b@);
    }
    k
}

/// `str::parse::<u64>`, its error dropped.
#[verifier::external_body]
pub(crate) fn parse_u64(s: &str) -> (r: Option<u64>)
    ensures
        r == parse_u64_spec(s@),
{
    s.parse::<u64>().ok()
}

/// `str::parse::<u8>`, with the error given as its text.
#[verifier::external_body]
pub(crate) fn parse_u8(s: &str) -> (r: Result<u8, String>)
    ensures
        r is Ok <==> parse_u8_spec(s@) is Some,
        r matches Ok(v) ==> parse_u8_spec(s@) == Some(v),
        r matches Err(e) ==> e@ == parse_int_error_text(s@),
{
    match s.parse::<u8>() {
        Ok(v) => Ok(v),
        Err(e) => Err(e.to_string()),
    }
}


/// The pieces of `ps` joined with `sep` between them.
pub open spec fn join(ps: Seq<Seq<char>>, sep: Seq<char>) -> Seq<char>
    decreases ps.len(),
{
    if ps.len() == 0 {
        Seq::empty()
    } else if ps.len() == 1 {
        ps[0]
    } else {
        join(ps.drop_last(), sep) + sep + ps.last()
    }
}


/// The strings of `parts` joined with `sep` between them.
pub fn join_strings(parts: &Vec<String>, sep: &str) -> (r: String)
    ensures
        r@ == join(parts@.map_values(|s: String| s@), sep@),
{
    let ghost views = parts@.map_values(|s: String| s@);
    let mut r = String::new();
    let mut i: usize = 0;
    while i < parts.len()
        invariant
            0 <= i <= parts.len(),
            views == parts@.map_values(|s: String| s@),
            r@ == join(views.take(i as int), sep@),
        decreases parts.len() - i,
    {
        if i > 0 {
            r.append(sep);
        }
        r.append(parts[i].as_str());
        proof {
            let next = views.take(i + 1);
            assert(next.drop_last() =~= views.take(i as int));
            if i == 0 {
                assert(views.take(0) =~= Seq::<Seq<char>>::empty());
            }
        }
        i = i + 1;
    }
    assert(views.take(i as int) =~= views);
    r
}


/// The lowercase hexadecimal digit of `d` (below sixteen).
pub open spec fn hex_digit(d: int) -> char {
    seq!['0', '1', '2', '3', '4', '5', '6', '7', '8', '9', 'a', 'b', 'c', 'd', 'e', 'f'][d]
}

/// The lowercase hexadecimal text of `bytes`: two digits per byte, the high one first.
pub open spec fn hex_text(bytes: Seq<u8>) -> Seq<char>
    decreases bytes.len(),
{
    if bytes.len() == 0 {
        Seq::empty()
    } else {
        hex_text(bytes.drop_last()) + seq![
            hex_digit(bytes.last() as int / 16),
            hex_digit(bytes.last() as int % 16),
        ]
    }
}

/// The views of a sequence of strings.
pub open spec fn string_views(v: Seq<String>) -> Seq<Seq<char>> {
    v.map_values(|s: String| s@)
}

/// An owned copy of `s`.
pub fn owned(s: &str) -> (r: String)
    ensures
        r@ == s@,
{
    let mut r = String::new();
    r.append(s);
    r
}

/// Whether `s` is one of the strings of `v`.
pub fn contains_text(v: &Vec<String>, s: &str) -> (r: bool)
    ensures
        r == string_views(v@).contains(s@),
{
    let ghost views = string_views(v@);
    let mut i: usize = 0;
    while i < v.len()
        invariant
            0 <= i <= v@.len(),
            views == string_views(v@),
            forall|k: int| 0 <= k < i ==> views[k] != s@,
        decreases v.len() - i,
    {
        if str_eq(v[i].as_str(), s) {
            assert(views[i as int] == s@);
            return true;
        }
        i = i + 1;
    }
    proof {
        if views.contains(s@) {
            let k = choose|k: int| 0 <= k < views.len() && views[k] == s@;
            assert(views[k] == s@);
        }
    }
    false
}

/// Appends an owned copy of `s` to `v`.
pub fn push_text(v: &mut Vec<String>, s: &str)
    ensures
        string_views(final(v)@) == string_views(old(v)@).push(s@),
{
    v.push(owned(s));
    assert(string_views(v@) =~= string_views(old(v)@).push(s@));
}

/// Appends `s` to `v`.
pub fn push_string(v: &mut Vec<String>, s: String)
    ensures
        string_views(final(v)@) == string_views(old(v)@).push(s@),
{
    let ghost sv = s@;
    v.push(s);
    assert(string_views(v@) =~= string_views(old(v)@).push(sv));
}

/// The text of a boolean: `true` or `false`.
pub open spec fn bool_text(b: bool) -> Seq<char> {
    if b {
        "true"@
    } else {
        "false"@
    }
}

/// Appends the text of `b` to `s`.
pub fn push_bool(s: &mut String, b: bool)
    ensures
        final(s)@ == old(s)@ + bool_text(b),
{
    if b {
        s.append("true");
    } else {
        s.append("false");
    }
}

/// The decimal text of a signed number: a minus sign before the digits of a negative one.
pub open spec fn signed_decimal(n: int) -> Seq<char> {
    if n < 0 {
        "-"@ + decimal((-n) as nat)
    } else {
        decimal(n as nat)
    }
}

/// Appends the decimal text of `n` to `s`.
pub fn push_signed_decimal(s: &mut String, n: i64)
    ensures
        final(s)@ == old(s)@ + signed_decimal(n as int),
{
    if n < 0 {
        s.append("-");
        let wide: i128 = n as i128;
        let magnitude: u128 = (0i128 - wide) as u128;
        push_decimal(s, magnitude);
        assert(s@ =~= old(s)@ + ("-"@ + decimal((-n) as nat)));
    } else {
        push_decimal(s, n as u128);
    }
}

/// `s` with every `from` replaced by the text `to`.
pub open spec fn replace_char(s: Seq<char>, from: char, to: Seq<char>) -> Seq<char>
    decreases s.len(),
{
    if s.len() == 0 {
        Seq::empty()
    } else {
        replace_char(s.drop_last(), from, to) + if s.last() == from {
            to
        } else {
            seq![s.last()]
        }
    }
}

/// `s` with every `from` replaced by `to`.
pub fn replace_char_text(s: &str, from: char, to: &str) -> (r: String)
    ensures
        r@ == replace_char(s@, from, to@),
{
    let n = s.unicode_len();
    let mut r = String::new();
    let mut i: usize = 0;
    while i < n
        invariant
            n == s@.len(),
            0 <= i <= n,
            r@ == replace_char(s@.take(i as int), from, to@),
        decreases n - i,
    {
        let c = s.get_char(i);
        if c == from {
            r.append(to);
        } else {
            r.append(s.substring_char(i, i + 1));
        }
        proof {
            let next = s@.take(i + 1);
            assert(next.drop_last() =~= s@.take(i as int));
            assert(next.last() == c);
            assert(s@.subrange(i as int, i + 1) =~= seq![c]);
        }
        i = i + 1;
    }
    assert(s@.take(n as int) =~= s@);
    r
}

/// `s` without the run of `c` at its end.
pub open spec fn trim_end_char(s: Seq<char>, c: char) -> Seq<char>
    decreases s.len(),
{
    if s.len() > 0 && s.last() == c {
        trim_end_char(s.drop_last(), c)
    } else {
        s
    }
}

/// `s` without the run of `c` at its end.
pub fn trim_end_char_text(s: &str, c: char) -> (r: &str)
    ensures
        r@ == trim_end_char(s@, c),
{
    let mut n = s.unicode_len();
    proof {
        assert(s@.take(n as int) =~= s@);
    }
    while n > 0 && s.get_char(n - 1) == c
        invariant
            n <= s@.len(),
            trim_end_char(s@.take(n as int), c) == trim_end_char(s@, c),
        decreases n,
    {
        proof {
            assert(s@.take(n as int).drop_last() =~= s@.take(n - 1));
        }
        n = n - 1;
    }
    let r = s.substring_char(0, n);
    assert(r@ =~= s@.take(n as int));
    r
}

} // verus!
