//! Verified string helpers: equality, trimming, tokenising, decimal
//! formatting and parsing.  Everything is specified against `Seq<char>`
//! views, so the protocol modules can state their output exactly.

use vstd::prelude::*;

verus! {

/// Character-for-character equality of two string slices.
pub fn str_eq(a: &str, b: &str) -> (r: bool)
    ensures
        r == (a@ == b@),
{
    let alen = a.unicode_len();
    let blen = b.unicode_len();
    if alen != blen {
        assert(a@.len() != b@.len());
        return false;
    }
    let mut i: usize = 0;
    while i < alen
        invariant
            alen == a@.len(),
            alen == b@.len(),
            i <= alen,
            forall|j: int| 0 <= j < i ==> a@[j] == b@[j],
        decreases alen - i,
    {
        if a.get_char(i) != b.get_char(i) {
            return false;
        }
        i = i + 1;
    }
    proof {
        assert(a@ =~= b@);
    }
    true
}

/// The character for a single decimal digit.
pub open spec fn spec_digit_char(d: nat) -> char {
    if d == 0 { '0' }
    else if d == 1 { '1' }
    else if d == 2 { '2' }
    else if d == 3 { '3' }
    else if d == 4 { '4' }
    else if d == 5 { '5' }
    else if d == 6 { '6' }
    else if d == 7 { '7' }
    else if d == 8 { '8' }
    else { '9' }
}

/// The decimal representation of a natural number, most significant digit
/// first, with no leading zeroes (and a single `'0'` for zero).
pub open spec fn spec_u64_dec(n: nat) -> Seq<char>
    decreases n,
{
    if n < 10 {
        seq![spec_digit_char(n)]
    } else {
        spec_u64_dec(n / 10).push(spec_digit_char(n % 10))
    }
}

fn digit_str(d: u64) -> (r: &'static str)
    requires
        d < 10,
    ensures
        r@ == seq![spec_digit_char(d as nat)],
{
    proof {
        reveal_strlit("0");
        reveal_strlit("1");
        reveal_strlit("2");
        reveal_strlit("3");
        reveal_strlit("4");
        reveal_strlit("5");
        reveal_strlit("6");
        reveal_strlit("7");
        reveal_strlit("8");
        reveal_strlit("9");
    }
    let r = if d == 0 { "0" }
    else if d == 1 { "1" }
    else if d == 2 { "2" }
    else if d == 3 { "3" }
    else if d == 4 { "4" }
    else if d == 5 { "5" }
    else if d == 6 { "6" }
    else if d == 7 { "7" }
    else if d == 8 { "8" }
    else { "9" };
    proof {
        assert(r@ =~= seq![spec_digit_char(d as nat)]);
    }
    r
}

/// Render an unsigned number in decimal.
pub fn u64_to_string(n: u64) -> (r: String)
    ensures
        r@ == spec_u64_dec(n as nat),
    decreases n,
{
    if n < 10 {
        String::from_str(digit_str(n))
    } else {
        let mut s = u64_to_string(n / 10);
        s.append(digit_str(n % 10));
        proof {
            assert(s@ =~= spec_u64_dec(n as nat));
        }
        s
    }
}

/// A number below 1000 in exactly three digits, zero-padded.
pub open spec fn spec_pad3(n: nat) -> Seq<char> {
    seq![
        spec_digit_char(n / 100 % 10),
        spec_digit_char(n / 10 % 10),
        spec_digit_char(n % 10),
    ]
}

/// Render `n` (below 1000) as three zero-padded digits.
pub fn pad3_to_string(n: u64) -> (r: String)
    requires
        n < 1000,
    ensures
        r@ == spec_pad3(n as nat),
{
    let mut s = String::from_str(digit_str(n / 100 % 10));
    s.append(digit_str(n / 10 % 10));
    s.append(digit_str(n % 10));
    proof {
        assert(s@ =~= spec_pad3(n as nat));
    }
    s
}

/// Milliseconds rendered as fixed-point seconds with three decimals,
/// e.g. `12345` becomes `12.345`.
pub open spec fn spec_millis_fixed(ms: nat) -> Seq<char> {
    spec_u64_dec(ms / 1000) + seq!['.'] + spec_pad3(ms % 1000)
}

/// Render a millisecond count as seconds with three decimal places.
pub fn millis_to_fixed_string(ms: u64) -> (r: String)
    ensures
        r@ == spec_millis_fixed(ms as nat),
{
    proof {
        reveal_strlit(".");
    }
    let mut s = u64_to_string(ms / 1000);
    s.append(".");
    let frac = pad3_to_string(ms % 1000);
    s.append(frac.as_str());
    proof {
        assert(s@ =~= spec_millis_fixed(ms as nat));
    }
    s
}

/// Decimal digit test.
pub open spec fn spec_is_digit(c: char) -> bool {
    '0' <= c && c <= '9'
}

/// The numeric value of a decimal digit character.
pub open spec fn spec_digit_val(c: char) -> nat
    recommends
        spec_is_digit(c),
{
    ((c as int) - ('0' as int)) as nat
}

/// Every character of `s` is a decimal digit.
pub open spec fn spec_all_digits(s: Seq<char>) -> bool {
    forall|i: int| 0 <= i < s.len() ==> spec_is_digit(s[i])
}

/// The value denoted by a sequence of decimal digits (zero when empty).
pub open spec fn spec_digits_val(s: Seq<char>) -> nat
    decreases s.len(),
{
    if s.len() == 0 {
        0
    } else {
        spec_digits_val(s.drop_last()) * 10 + spec_digit_val(s.last())
    }
}

proof fn lemma_digits_val_prefix_grows(s: Seq<char>, i: int)
    requires
        0 <= i <= s.len(),
    ensures
        spec_digits_val(s.take(i)) <= spec_digits_val(s),
    decreases s.len() - i,
{
    if i < s.len() {
        assert(s.take(i + 1).drop_last() =~= s.take(i));
        assert(spec_digits_val(s.take(i)) <= spec_digits_val(s.take(i + 1)));
        lemma_digits_val_prefix_grows(s, i + 1);
    } else {
        assert(s.take(i) =~= s);
    }
}

/// Parse an unsigned decimal number.  Succeeds exactly on a non-empty
/// all-digit string whose value fits in a `u64`.
pub fn parse_u64(s: &str) -> (r: Option<u64>)
    ensures
        match r {
            Some(v) => s@.len() > 0 && spec_all_digits(s@) && v as nat == spec_digits_val(s@),
            None => s@.len() == 0 || !spec_all_digits(s@) || spec_digits_val(s@) > u64::MAX,
        },
{
    let len = s.unicode_len();
    if len == 0 {
        return None;
    }
    let mut val: u64 = 0;
    let mut i: usize = 0;
    while i < len
        invariant
            len == s@.len(),
            0 < len,
            i <= len,
            spec_all_digits(s@.take(i as int)),
            val as nat == spec_digits_val(s@.take(i as int)),
        decreases len - i,
    {
        let c = s.get_char(i);
        if c < '0' || c > '9' {
            assert(!spec_is_digit(s@[i as int]));
            return None;
        }
        let d: u64 = (c as u32 as u64) - 48;
        assert(d == spec_digit_val(s@[i as int]));
        let next = match val.checked_mul(10) {
            Some(m) => m.checked_add(d),
            None => None,
        };
        proof {
            assert(s@.take(i + 1).drop_last() =~= s@.take(i as int));
            assert(s@.take(i + 1).last() == s@[i as int]);
        }
        match next {
            Some(nv) => {
                val = nv;
            }
            None => {
                proof {
                    assert(spec_digits_val(s@.take(i + 1)) > u64::MAX);
                    lemma_digits_val_prefix_grows(s@, i + 1);
                }
                return None;
            }
        }
        i = i + 1;
    }
    proof {
        assert(s@.take(len as int) =~= s@);
    }
    Some(val)
}

/// Parse an index argument.  Succeeds exactly on a non-empty all-digit
/// string whose value fits in a `usize`.
pub fn parse_usize(s: &str) -> (r: Option<usize>)
    ensures
        match r {
            Some(v) => s@.len() > 0 && spec_all_digits(s@) && v as nat == spec_digits_val(s@),
            None => s@.len() == 0 || !spec_all_digits(s@) || spec_digits_val(s@) > usize::MAX,
        },
{
    match parse_u64(s) {
        Some(v) => {
            if v <= usize::MAX as u64 {
                Some(v as usize)
            } else {
                proof {
                    assert(spec_digits_val(s@) > usize::MAX);
                }
                None
            }
        }
        None => {
            proof {
                assert(u64::MAX >= usize::MAX);
            }
            None
        }
    }
}

/// The signed value denoted by an optional `+`/`-` sign and digits.
pub open spec fn spec_signed_val(s: Seq<char>) -> int
    recommends
        s.len() > 0,
{
    if s[0] == '-' {
        -(spec_digits_val(s.skip(1)) as int)
    } else if s[0] == '+' {
        spec_digits_val(s.skip(1)) as int
    } else {
        spec_digits_val(s) as int
    }
}

/// Whether `s` is a well-formed signed decimal: an optional sign followed
/// by at least one digit.
pub open spec fn spec_is_signed_decimal(s: Seq<char>) -> bool {
    if s.len() == 0 {
        false
    } else if s[0] == '-' || s[0] == '+' {
        s.len() > 1 && spec_all_digits(s.skip(1))
    } else {
        spec_all_digits(s)
    }
}

/// Parse a signed volume delta.  Succeeds exactly on a well-formed signed
/// decimal whose value fits in an `i32`.
pub fn parse_i32(s: &str) -> (r: Option<i32>)
    ensures
        match r {
            Some(v) => spec_is_signed_decimal(s@) && v as int == spec_signed_val(s@),
            None => !spec_is_signed_decimal(s@) || spec_signed_val(s@) > i32::MAX
                || spec_signed_val(s@) < i32::MIN,
        },
{
    let len = s.unicode_len();
    if len == 0 {
        return None;
    }
    let first = s.get_char(0);
    if first == '-' || first == '+' {
        let digits = s.substring_char(1, len);
        match parse_u64(digits) {
            Some(v) => {
                if first == '-' {
                    if v <= 2147483648u64 {
                        proof {
                            assert(s@.skip(1) == digits@);
                        }
                        Some((-(v as i64)) as i32)
                    } else {
                        None
                    }
                } else {
                    if v <= i32::MAX as u64 {
                        proof {
                            assert(s@.skip(1) == digits@);
                        }
                        Some(v as i32)
                    } else {
                        None
                    }
                }
            }
            None => {
                proof {
                    assert(s@.skip(1) == digits@);
                }
                None
            }
        }
    } else {
        match parse_u64(s) {
            Some(v) => {
                if v <= i32::MAX as u64 {
                    Some(v as i32)
                } else {
                    None
                }
            }
            None => None,
        }
    }
}

/// Protocol whitespace: the ASCII blank characters.
pub open spec fn spec_is_ws(c: char) -> bool {
    c == ' ' || c == '\t' || c == '\n' || c == '\r' || c == '\x0b' || c == '\x0c'
}

fn is_ws(c: char) -> (r: bool)
    ensures
        r == spec_is_ws(c),
{
    c == ' ' || c == '\t' || c == '\n' || c == '\r' || c == '\x0b' || c == '\x0c'
}

/// The index of the first whitespace character at or after `i`
/// (the length when there is none).
pub open spec fn spec_find_ws(s: Seq<char>, i: int) -> int
    recommends
        0 <= i <= s.len(),
    decreases s.len() - i when 0 <= i <= s.len()
{
    if i >= s.len() {
        s.len() as int
    } else if spec_is_ws(s[i]) {
        i
    } else {
        spec_find_ws(s, i + 1)
    }
}

/// The index of the first non-whitespace character at or after `i`.
pub open spec fn spec_find_non_ws(s: Seq<char>, i: int) -> int
    recommends
        0 <= i <= s.len(),
    decreases s.len() - i when 0 <= i <= s.len()
{
    if i >= s.len() {
        s.len() as int
    } else if !spec_is_ws(s[i]) {
        i
    } else {
        spec_find_non_ws(s, i + 1)
    }
}

/// The index of the first double quote at or after `i`.
pub open spec fn spec_find_quote(s: Seq<char>, i: int) -> int
    recommends
        0 <= i <= s.len(),
    decreases s.len() - i when 0 <= i <= s.len()
{
    if i >= s.len() {
        s.len() as int
    } else if s[i] == '"' {
        i
    } else {
        spec_find_quote(s, i + 1)
    }
}

proof fn lemma_find_ws_props(s: Seq<char>, i: int)
    requires
        0 <= i <= s.len(),
    ensures
        i <= spec_find_ws(s, i) <= s.len(),
        spec_find_ws(s, i) < s.len() ==> spec_is_ws(s[spec_find_ws(s, i)]),
        forall|j: int| i <= j < spec_find_ws(s, i) ==> !spec_is_ws(s[j]),
    decreases s.len() - i,
{
    if i < s.len() && !spec_is_ws(s[i]) {
        lemma_find_ws_props(s, i + 1);
    }
}

proof fn lemma_find_non_ws_props(s: Seq<char>, i: int)
    requires
        0 <= i <= s.len(),
    ensures
        i <= spec_find_non_ws(s, i) <= s.len(),
        spec_find_non_ws(s, i) < s.len() ==> !spec_is_ws(s[spec_find_non_ws(s, i)]),
        forall|j: int| i <= j < spec_find_non_ws(s, i) ==> spec_is_ws(s[j]),
    decreases s.len() - i,
{
    if i < s.len() && spec_is_ws(s[i]) {
        lemma_find_non_ws_props(s, i + 1);
    }
}

proof fn lemma_find_quote_props(s: Seq<char>, i: int)
    requires
        0 <= i <= s.len(),
    ensures
        i <= spec_find_quote(s, i) <= s.len(),
        forall|j: int| i <= j < spec_find_quote(s, i) ==> s[j] != '"',
    decreases s.len() - i,
{
    if i < s.len() && s[i] != '"' {
        lemma_find_quote_props(s, i + 1);
    }
}

fn find_ws(s: &str, from: usize) -> (r: usize)
    requires
        from <= s@.len(),
    ensures
        r == spec_find_ws(s@, from as int),
        from <= r <= s@.len(),
{
    let len = s.unicode_len();
    let mut i = from;
    while i < len
        invariant
            len == s@.len(),
            from <= i <= len,
            spec_find_ws(s@, from as int) == spec_find_ws(s@, i as int),
        decreases len - i,
    {
        if is_ws(s.get_char(i)) {
            return i;
        }
        i = i + 1;
    }
    i
}

fn find_non_ws(s: &str, from: usize) -> (r: usize)
    requires
        from <= s@.len(),
    ensures
        r == spec_find_non_ws(s@, from as int),
        from <= r <= s@.len(),
{
    let len = s.unicode_len();
    let mut i = from;
    while i < len
        invariant
            len == s@.len(),
            from <= i <= len,
            spec_find_non_ws(s@, from as int) == spec_find_non_ws(s@, i as int),
        decreases len - i,
    {
        if !is_ws(s.get_char(i)) {
            return i;
        }
        i = i + 1;
    }
    i
}

fn find_quote(s: &str, from: usize) -> (r: usize)
    requires
        from <= s@.len(),
    ensures
        r == spec_find_quote(s@, from as int),
        from <= r <= s@.len(),
{
    let len = s.unicode_len();
    let mut i = from;
    while i < len
        invariant
            len == s@.len(),
            from <= i <= len,
            spec_find_quote(s@, from as int) == spec_find_quote(s@, i as int),
        decreases len - i,
    {
        if s.get_char(i) == '"' {
            return i;
        }
        i = i + 1;
    }
    i
}

/// `s` with leading and trailing whitespace removed: the characters from
/// the first non-blank through the last non-blank.
pub open spec fn spec_trim(s: Seq<char>) -> Seq<char> {
    let a = spec_find_non_ws(s, 0);
    if a >= s.len() {
        Seq::empty()
    } else {
        let b = spec_last_non_ws(s, s.len() - 1);
        s.subrange(a, b + 1)
    }
}

/// The index of the last non-whitespace character at or before `i`
/// (`-1` when there is none).
pub open spec fn spec_last_non_ws(s: Seq<char>, i: int) -> int
    recommends
        i < s.len(),
    decreases i + 1 when -1 <= i < s.len()
{
    if i < 0 {
        -1
    } else if !spec_is_ws(s[i]) {
        i
    } else {
        spec_last_non_ws(s, i - 1)
    }
}

/// Strip leading and trailing protocol whitespace.
pub fn trim_line(s: &str) -> (r: String)
    ensures
        r@ == spec_trim(s@),
{
    let len = s.unicode_len();
    let a = find_non_ws(s, 0);
    proof {
        lemma_find_non_ws_props(s@, 0);
    }
    if a >= len {
        return String::new();
    }
    // scan back for the last non-blank character
    let mut b = len - 1;
    while b > a && is_ws(s.get_char(b))
        invariant
            len == s@.len(),
            a <= b < len,
            a == spec_find_non_ws(s@, 0),
            a < len,
            spec_last_non_ws(s@, len - 1) == spec_last_non_ws(s@, b as int),
        decreases b,
    {
        b = b - 1;
    }
    // s[a] is not whitespace, so the backward scan cannot pass a
    proof {
        if b == a {
            assert(!spec_is_ws(s@[a as int]));
        }
        assert(spec_last_non_ws(s@, len - 1) == b);
    }
    let sub = s.substring_char(a, b + 1);
    String::from_str(sub)
}

/// The first whitespace-delimited token of a line (the command verb);
/// empty when the line is blank.
pub open spec fn spec_first_token(s: Seq<char>) -> Seq<char> {
    let a = spec_find_non_ws(s, 0);
    if a >= s.len() {
        Seq::empty()
    } else {
        s.subrange(a, spec_find_ws(s, a))
    }
}

/// Extract the command verb: the first whitespace-delimited token.
pub fn first_token(s: &str) -> (r: String)
    ensures
        r@ == spec_first_token(s@),
{
    let len = s.unicode_len();
    let a = find_non_ws(s, 0);
    proof {
        lemma_find_non_ws_props(s@, 0);
    }
    if a >= len {
        return String::new();
    }
    let t = find_ws(s, a);
    proof {
        lemma_find_ws_props(s@, a as int);
        assert(!spec_is_ws(s@[a as int]));
        assert(spec_find_ws(s@, a as int) > a);
    }
    let sub = s.substring_char(a, t);
    String::from_str(sub)
}

/// The argument of a command line: after the first whitespace run, an
/// optional opening quote, then everything up to the next quote or the end
/// of the line.  `None` when the line has no whitespace at all.
pub open spec fn spec_extract_arg(s: Seq<char>) -> Option<Seq<char>> {
    let i = spec_find_ws(s, 0);
    if i >= s.len() {
        None
    } else {
        let j = spec_find_non_ws(s, i);
        let k = if j < s.len() && s[j] == '"' {
            j + 1
        } else {
            j
        };
        Some(s.subrange(k, spec_find_quote(s, k)))
    }
}

/// Extract the (optionally quoted) argument after the command verb.
pub fn extract_arg(s: &str) -> (r: Option<String>)
    ensures
        match r {
            Some(a) => spec_extract_arg(s@) == Some(a@),
            None => spec_extract_arg(s@) is None,
        },
{
    let len = s.unicode_len();
    let i = find_ws(s, 0);
    if i >= len {
        return None;
    }
    let j = find_non_ws(s, i);
    let k = if j < len && s.get_char(j) == '"' {
        j + 1
    } else {
        j
    };
    let m = find_quote(s, k);
    proof {
        lemma_find_quote_props(s@, k as int);
    }
    let sub = s.substring_char(k, m);
    Some(String::from_str(sub))
}

/// The items joined by the separator (empty when there are no items).
pub open spec fn spec_join_sep(items: Seq<Seq<char>>, sep: Seq<char>) -> Seq<char>
    decreases items.len(),
{
    if items.len() == 0 {
        Seq::empty()
    } else if items.len() == 1 {
        items[0]
    } else {
        spec_join_sep(items.drop_last(), sep) + sep + items.last()
    }
}

/// Join strings with a separator.
pub fn join_sep(items: &Vec<String>, sep: &str) -> (r: String)
    ensures
        r@ == spec_join_sep(items@.map_values(|l: String| l@), sep@),
{
    let ghost views = items@.map_values(|l: String| l@);
    let mut out = String::new();
    let mut i: usize = 0;
    while i < items.len()
        invariant
            views == items@.map_values(|l: String| l@),
            i <= items.len(),
            out@ == spec_join_sep(views.take(i as int), sep@),
        decreases items.len() - i,
    {
        if i > 0 {
            out.append(sep);
        }
        out.append(items[i].as_str());
        proof {
            assert(views.take(i + 1).drop_last() =~= views.take(i as int));
            assert(views.take(i + 1).last() == views[i as int]);
            if i == 0 {
                assert(out@ =~= spec_join_sep(views.take(1), sep@));
            }
        }
        i = i + 1;
    }
    proof {
        assert(views.take(items@.len() as int) =~= views);
    }
    out
}

/// The response chunk for a batch: its lines joined by newlines.
pub open spec fn spec_join_lines(lines: Seq<Seq<char>>) -> Seq<char> {
    spec_join_sep(lines, seq!['\n'])
}

/// Join response lines with newlines into the chunk written to the client.
pub fn join_lines(lines: &Vec<String>) -> (r: String)
    ensures
        r@ == spec_join_lines(lines@.map_values(|l: String| l@)),
{
    proof {
        reveal_strlit("\n");
        assert("\n"@ =~= seq!['\n']);
    }
    join_sep(lines, "\n")
}

/// Concatenation of two strings.
pub fn concat2(a: &str, b: &str) -> (r: String)
    ensures
        r@ == a@ + b@,
{
    let mut out = String::from_str(a);
    out.append(b);
    out
}

/// Render a signed number in decimal: a minus sign for negatives, then
/// the decimal digits of the magnitude.
pub open spec fn spec_i64_dec(n: int) -> Seq<char> {
    if n < 0 {
        seq!['-'] + spec_u64_dec((-n) as nat)
    } else {
        spec_u64_dec(n as nat)
    }
}

/// Render a signed number in decimal.
pub fn i64_to_string(n: i64) -> (r: String)
    ensures
        r@ == spec_i64_dec(n as int),
{
    proof {
        reveal_strlit("-");
    }
    if n >= 0 {
        u64_to_string(n as u64)
    } else {
        let mag: u64 = if n == i64::MIN {
            9223372036854775808u64
        } else {
            (-n) as u64
        };
        let mut out = String::from_str("-");
        let digits = u64_to_string(mag);
        out.append(digits.as_str());
        proof {
            assert(out@ =~= spec_i64_dec(n as int));
        }
        out
    }
}

/// Whether a response line carries the protocol's error marker.
pub fn is_error_line(s: &str) -> (r: bool)
    ensures
        r == crate::spec_is_error_line(s@),
{
    proof {
        reveal_strlit("ACK");
    }
    let len = s.unicode_len();
    if len < 3 {
        return false;
    }
    let r = s.get_char(0) == 'A' && s.get_char(1) == 'C' && s.get_char(2) == 'K';
    proof {
        if r {
            assert(s@.subrange(0, 3) =~= "ACK"@);
        } else {
            assert(s@.subrange(0, 3)[0] == s@[0]);
            assert(s@.subrange(0, 3)[1] == s@[1]);
            assert(s@.subrange(0, 3)[2] == s@[2]);
            assert(s@.subrange(0, 3) != "ACK"@);
        }
    }
    r
}

} // verus!
