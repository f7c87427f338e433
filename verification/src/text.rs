use vstd::prelude::*;
use vstd::string::*;
use vstd::utf8::is_ascii_chars;

verus! {

/// The characters with the Unicode property White_Space, which is what
/// `char::is_whitespace` and `str::trim` go by.
pub open spec fn is_white_space(c: char) -> bool {
    let u = c as u32;
    ||| 0x09 <= u <= 0x0d
    ||| u == 0x20
    ||| u == 0x85
    ||| u == 0xa0
    ||| u == 0x1680
    ||| 0x2000 <= u <= 0x200a
    ||| u == 0x2028
    ||| u == 0x2029
    ||| u == 0x202f
    ||| u == 0x205f
    ||| u == 0x3000
}

/// Every character of `s` is white space (so an empty text is blank).
pub open spec fn blank(s: Seq<char>) -> bool {
    forall|i: int| 0 <= i < s.len() ==> is_white_space(#[trigger] s[i])
}

/// `s` without its leading white space.
pub open spec fn trim_start(s: Seq<char>) -> Seq<char>
    decreases s.len(),
{
    if s.len() > 0 && is_white_space(s[0]) {
        trim_start(s.drop_first())
    } else {
        s
    }
}

/// `s` without its trailing white space.
pub open spec fn trim_end(s: Seq<char>) -> Seq<char>
    decreases s.len(),
{
    if s.len() > 0 && is_white_space(s.last()) {
        trim_end(s.drop_last())
    } else {
        s
    }
}

/// `s` without leading and trailing white space.
pub open spec fn trimmed(s: Seq<char>) -> Seq<char> {
    trim_end(trim_start(s))
}

/// `str::trim`: the contract claims that the result is the argument with its
/// leading and trailing Unicode White_Space removed, as std documents.
#[verifier::external_body]
pub(crate) fn trim<'a>(s: &'a str) -> (r: &'a str)
    ensures
        r@ == trimmed(s@),
{
    s.trim()
}

proof fn lemma_trim_start_empty_iff_blank(s: Seq<char>)
    ensures
        (trim_start(s).len() == 0) == blank(s),
    decreases s.len(),
{
    if s.len() > 0 && is_white_space(s[0]) {
        lemma_trim_start_empty_iff_blank(s.drop_first());
        if blank(s.drop_first()) {
            assert forall|i: int| 0 <= i < s.len() implies is_white_space(#[trigger] s[i]) by {
                if i > 0 {
                    assert(s[i] == s.drop_first()[i - 1]);
                }
            }
        }
        if blank(s) {
            assert forall|i: int| 0 <= i < s.drop_first().len() implies is_white_space(
                #[trigger] s.drop_first()[i],
            ) by {
                assert(s.drop_first()[i] == s[i + 1]);
            }
        }
    } else if s.len() > 0 {
        assert(!is_white_space(s[0]));
    }
}

proof fn lemma_trim_end_empty(s: Seq<char>)
    ensures
        (trim_end(s).len() == 0) == blank(s),
    decreases s.len(),
{
    if s.len() > 0 && is_white_space(s.last()) {
        lemma_trim_end_empty(s.drop_last());
        if blank(s.drop_last()) {
            assert forall|i: int| 0 <= i < s.len() implies is_white_space(#[trigger] s[i]) by {
                if i < s.len() - 1 {
                    assert(s[i] == s.drop_last()[i]);
                }
            }
        }
        if blank(s) {
            assert forall|i: int| 0 <= i < s.drop_last().len() implies is_white_space(
                #[trigger] s.drop_last()[i],
            ) by {
                assert(s.drop_last()[i] == s[i]);
            }
        }
    } else if s.len() > 0 {
        assert(!is_white_space(s[s.len() - 1]));
    }
}

/// A text is trimmed to nothing exactly when it is blank.
pub proof fn lemma_trimmed_empty_iff_blank(s: Seq<char>)
    ensures
        (trimmed(s).len() == 0) == blank(s),
{
    lemma_trim_start_empty_iff_blank(s);
    lemma_trim_end_empty(trim_start(s));
    lemma_trim_end_empty_start_blank(s);
}

proof fn lemma_trim_end_empty_start_blank(s: Seq<char>)
    ensures
        blank(trim_start(s)) == blank(s),
    decreases s.len(),
{
    lemma_trim_start_empty_iff_blank(s);
    if s.len() > 0 && is_white_space(s[0]) {
        lemma_trim_end_empty_start_blank(s.drop_first());
        if blank(s.drop_first()) {
            assert forall|i: int| 0 <= i < s.len() implies is_white_space(#[trigger] s[i]) by {
                if i > 0 {
                    assert(s[i] == s.drop_first()[i - 1]);
                }
            }
        }
        if blank(s) {
            assert forall|i: int| 0 <= i < s.drop_first().len() implies is_white_space(
                #[trigger] s.drop_first()[i],
            ) by {
                assert(s.drop_first()[i] == s[i + 1]);
            }
        }
    }
}

/// Whether `s` is empty or holds only white space, which is what
/// `s.trim().is_empty()` asks.
pub fn is_blank(s: &str) -> (r: bool)
    ensures
        r == blank(s@),
{
    let t = trim(s);
    proof {
        lemma_trimmed_empty_iff_blank(s@);
    }
    t.is_empty()
}

/// The full Unicode lowercase mapping of a text, as `str::to_lowercase`
/// computes it.
pub uninterp spec fn unicode_lowercase(s: Seq<char>) -> Seq<char>;

/// The lowercase of an ASCII letter; any other character stays.
pub open spec fn ascii_lower_char(c: char) -> char {
    if 'A' <= c <= 'Z' {
        ((c as u32) + 32) as char
    } else {
        c
    }
}

/// Each ASCII capital letter of `s` replaced by its small letter.
pub open spec fn ascii_lowercase(s: Seq<char>) -> Seq<char> {
    s.map_values(|c: char| ascii_lower_char(c))
}

/// `str::to_lowercase`: the contract claims that the result is the Unicode
/// lowercase mapping of the argument (left unstated beyond its name), and
/// that on an all-ASCII argument it maps `A..=Z` to `a..=z` and keeps every
/// other character, as the ASCII part of that mapping is.
#[verifier::external_body]
pub(crate) fn to_lowercase(s: &str) -> (r: String)
    ensures
        r@ == unicode_lowercase(s@),
        is_ascii_chars(s@) ==> r@ == ascii_lowercase(s@),
{
    s.to_lowercase()
}

/// `c` is one of the decimal digits `0..=9`.
pub open spec fn is_digit(c: char) -> bool {
    '0' <= c <= '9'
}

/// The numeric value of a decimal digit.
pub open spec fn digit_value(c: char) -> nat {
    ((c as u32) - 48) as nat
}

/// The character of a decimal digit `0..=9`.
pub open spec fn digit_char(d: nat) -> char {
    ((d + 48) as u32) as char
}

/// Every character of `s` is a decimal digit.
pub open spec fn all_digits(s: Seq<char>) -> bool {
    forall|i: int| 0 <= i < s.len() ==> is_digit(#[trigger] s[i])
}

/// The number that the decimal digits `s` spell, most significant first.
pub open spec fn digits_value(s: Seq<char>) -> nat
    decreases s.len(),
{
    if s.len() == 0 {
        0
    } else {
        digits_value(s.drop_last()) * 10 + digit_value(s.last())
    }
}

/// The integer that `s` spells in the form that `i32::from_str` reads: an
/// optional `+` or `-` followed by one or more decimal digits, nothing else.
pub open spec fn signed_decimal(s: Seq<char>) -> Option<int> {
    if s.len() >= 2 && s[0] == '-' && all_digits(s.skip(1)) {
        Some(-(digits_value(s.skip(1)) as int))
    } else if s.len() >= 2 && s[0] == '+' && all_digits(s.skip(1)) {
        Some(digits_value(s.skip(1)) as int)
    } else if s.len() >= 1 && all_digits(s) {
        Some(digits_value(s) as int)
    } else {
        None
    }
}

/// The integer that `s` spells in the form that `u32::from_str` reads: an
/// optional `+` followed by one or more decimal digits, nothing else.
pub open spec fn unsigned_decimal(s: Seq<char>) -> Option<int> {
    if s.len() >= 2 && s[0] == '+' && all_digits(s.skip(1)) {
        Some(digits_value(s.skip(1)) as int)
    } else if s.len() >= 1 && all_digits(s) {
        Some(digits_value(s) as int)
    } else {
        None
    }
}

/// What `s.parse::<i32>()` gives: the value, where it is well formed and in range.
pub open spec fn parsed_i32(s: Seq<char>) -> Option<int> {
    match signed_decimal(s) {
        Some(v) => if i32::MIN <= v <= i32::MAX {
            Some(v)
        } else {
            None
        },
        None => None,
    }
}

/// What `s.parse::<u32>()` gives: the value, where it is well formed and in range.
pub open spec fn parsed_u32(s: Seq<char>) -> Option<int> {
    match unsigned_decimal(s) {
        Some(v) => if v <= u32::MAX {
            Some(v)
        } else {
            None
        },
        None => None,
    }
}

/// The value past which digit accumulation stops tracking exactly.
const DIGITS_CAP: u64 = 0x1_0000_0000u64;

proof fn lemma_digits_push(p: Seq<char>, c: char)
    ensures
        digits_value(p.push(c)) == digits_value(p) * 10 + digit_value(c),
{
    assert(p.push(c).drop_last() =~= p);
}

/// Reads the decimal digits of `s` from character `start` on. `None` where
/// that part is empty or holds a non-digit; otherwise its value, exactly while
/// that value is at most `2^32`, and some number above `2^32` where it is larger.
fn read_digits(s: &str, start: usize) -> (r: Option<u64>)
    requires
        start <= s@.len(),
    ensures
        r is Some <==> (s@.len() > start && all_digits(s@.skip(start as int))),
        r matches Some(v) ==> {
            &&& v <= DIGITS_CAP ==> v as int == digits_value(s@.skip(start as int))
            &&& v > DIGITS_CAP ==> digits_value(s@.skip(start as int)) > DIGITS_CAP
        },
{
    let n = s.unicode_len();
    if n <= start {
        return None;
    }
    let mut acc: u64 = 0;
    let mut i = start;
    while i < n
        invariant
            start <= i <= n,
            n == s@.len(),
            all_digits(s@.subrange(start as int, i as int)),
            acc <= DIGITS_CAP ==> acc as int == digits_value(s@.subrange(start as int, i as int)),
            acc > DIGITS_CAP ==> digits_value(s@.subrange(start as int, i as int)) > DIGITS_CAP,
            acc <= 10 * DIGITS_CAP + 9,
        decreases n - i,
    {
        let c = s.get_char(i);
        if !('0' <= c && c <= '9') {
            assert(!all_digits(s@.skip(start as int))) by {
                assert(s@.skip(start as int)[i - start] == c);
            }
            return None;
        }
        let ghost prev = s@.subrange(start as int, i as int);
        proof {
            assert(s@.subrange(start as int, i + 1) =~= prev.push(c));
            lemma_digits_push(prev, c);
        }
        if acc <= DIGITS_CAP {
            let d = (c as u32 - 48) as u64;
            acc = acc * 10 + d;
        }
        i = i + 1;
    }
    assert(s@.subrange(start as int, n as int) =~= s@.skip(start as int));
    Some(acc)
}

/// `s.parse::<i32>().ok()`, as std's `i32::from_str` reads decimal text.
pub fn parse_i32(s: &str) -> (r: Option<i32>)
    ensures
        match r {
            Some(v) => parsed_i32(s@) == Some(v as int),
            None => parsed_i32(s@) is None,
        },
{
    let n = s.unicode_len();
    if n == 0 {
        return None;
    }
    let first = s.get_char(0);
    if n >= 2 && (first == '-' || first == '+') {
        let negative = first == '-';
        match read_digits(s, 1) {
            None => {
                proof {
                    if all_digits(s@) {
                        assert(is_digit(s@[0]));
                    }
                }
                None
            },
            Some(v) => {
                proof {
                    if all_digits(s@) {
                        assert(is_digit(s@[0]));
                    }
                }
                if negative {
                    if v <= 0x8000_0000u64 {
                        Some((0 - (v as i64)) as i32)
                    } else {
                        None
                    }
                } else {
                    if v <= 0x7fff_ffffu64 {
                        Some(v as i32)
                    } else {
                        None
                    }
                }
            },
        }
    } else {
        match read_digits(s, 0) {
            None => {
                proof {
                    assert(s@.skip(0) =~= s@);
                    if s@.len() >= 2 && (s@[0] == '-' || s@[0] == '+') {
                        assert(false);
                    }
                }
                None
            },
            Some(v) => {
                proof {
                    assert(s@.skip(0) =~= s@);
                    assert(is_digit(s@[0]));
                }
                if v <= 0x7fff_ffffu64 {
                    Some(v as i32)
                } else {
                    None
                }
            },
        }
    }
}

/// `s.parse::<u32>().ok()`, as std's `u32::from_str` reads decimal text.
pub fn parse_u32(s: &str) -> (r: Option<u32>)
    ensures
        match r {
            Some(v) => parsed_u32(s@) == Some(v as int),
            None => parsed_u32(s@) is None,
        },
{
    let n = s.unicode_len();
    if n == 0 {
        return None;
    }
    let first = s.get_char(0);
    if n >= 2 && first == '+' {
        match read_digits(s, 1) {
            None => {
                proof {
                    if all_digits(s@) {
                        assert(is_digit(s@[0]));
                    }
                }
                None
            },
            Some(v) => {
                if v <= 0xffff_ffffu64 {
                    Some(v as u32)
                } else {
                    None
                }
            },
        }
    } else {
        match read_digits(s, 0) {
            None => {
                proof {
                    assert(s@.skip(0) =~= s@);
                }
                None
            },
            Some(v) => {
                proof {
                    assert(s@.skip(0) =~= s@);
                }
                if v <= 0xffff_ffffu64 {
                    Some(v as u32)
                } else {
                    None
                }
            },
        }
    }
}

/// The decimal numeral of `n`, without leading zeros.
pub open spec fn decimal_text(n: nat) -> Seq<char>
    decreases n,
{
    if n < 10 {
        seq![digit_char(n)]
    } else {
        decimal_text(n / 10).push(digit_char(n % 10))
    }
}

fn digit_str(d: u8) -> (r: &'static str)
    requires
        d < 10,
    ensures
        r@ == seq![digit_char(d as nat)],
{
    proof {
        reveal_strlit("0");
        reveal_strlit("1");
        reveal_strlit("2");
        reveal_strlit("3");
        reveal_strlit("4");
        reveal_strlit("5");
        reveal_strlit("6");
        reveal_strlit("7");
        reveal_strlit("8");
        reveal_strlit("9");
    }
    match d {
        0 => "0",
        1 => "1",
        2 => "2",
        3 => "3",
        4 => "4",
        5 => "5",
        6 => "6",
        7 => "7",
        8 => "8",
        _ => "9",
    }
}

/// The decimal numeral of a byte, as `format!("{}", n)` writes it.
pub fn u8_text(n: u8) -> (r: String)
    ensures
        r@ == decimal_text(n as nat),
{
    let mut out = String::new();
    if n >= 100 {
        out.append(digit_str(n / 100));
    }
    if n >= 10 {
        out.append(digit_str((n / 10) % 10));
    }
    out.append(digit_str(n % 10));
    proof {
        let m = n as nat;
        if m >= 100 {
            assert(decimal_text(m / 100) == seq![digit_char(m / 100)]);
            assert(decimal_text(m / 10) == decimal_text(m / 100).push(digit_char((m / 10) % 10)));
            assert(decimal_text(m) == decimal_text(m / 10).push(digit_char(m % 10)));
        } else if m >= 10 {
            assert(decimal_text(m / 10) == seq![digit_char(m / 10)]);
            assert(decimal_text(m) == decimal_text(m / 10).push(digit_char(m % 10)));
        }
    }
    out
}

/// Whether two texts are equal, character by character.
pub fn text_equals(a: &str, b: &str) -> (r: bool)
    ensures
        r == (a@ == b@),
{
    let n = a.unicode_len();
    if n != b.unicode_len() {
        return false;
    }
    let mut i: usize = 0;
    while i < n
        invariant
            i <= n,
            n == a@.len(),
            n == b@.len(),
            a@.subrange(0, i as int) == b@.subrange(0, i as int),
        decreases n - i,
    {
        if a.get_char(i) != b.get_char(i) {
            return false;
        }
        proof {
            assert(a@.subrange(0, i + 1) =~= a@.subrange(0, i as int).push(a@[i as int]));
            assert(b@.subrange(0, i + 1) =~= b@.subrange(0, i as int).push(b@[i as int]));
        }
        i = i + 1;
    }
    proof {
        assert(a@.subrange(0, n as int) =~= a@);
        assert(b@.subrange(0, n as int) =~= b@);
    }
    true
}

/// The decimal numeral of `n` is a non-empty run of digits that reads back
/// as `n`.
pub proof fn lemma_decimal_text_reads_back(n: nat)
    ensures
        decimal_text(n).len() >= 1,
        all_digits(decimal_text(n)),
        digits_value(decimal_text(n)) == n,
    decreases n,
{
    if n < 10 {
        let t = decimal_text(n);
        assert(t.drop_last() =~= Seq::<char>::empty());
        assert(digits_value(Seq::<char>::empty()) == 0);
        assert(digit_value(digit_char(n)) == n);
        assert(t.last() == digit_char(n));
    } else {
        lemma_decimal_text_reads_back(n / 10);
        let p = decimal_text(n / 10);
        let c = digit_char(n % 10);
        lemma_digits_push(p, c);
        assert(decimal_text(n) == p.push(c));
        assert(digit_value(c) == n % 10);
        assert(n == (n / 10) * 10 + n % 10);
        assert(is_digit(c));
        assert forall|i: int| 0 <= i < p.push(c).len() implies is_digit(#[trigger] p.push(c)[i]) by {
            if i < p.len() {
                assert(p.push(c)[i] == p[i]);
            }
        }
    }
}

/// A text that neither starts nor ends with white space is its own trim.
pub proof fn lemma_trimmed_unchanged(s: Seq<char>)
    requires
        s.len() > 0,
        !is_white_space(s[0]),
        !is_white_space(s.last()),
    ensures
        trimmed(s) == s,
{
}

} // verus!
