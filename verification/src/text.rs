//! Small text helpers: Unicode whitespace trimming, stripping a delimiter
//! character, decimal integer parsing and path joining.

use vstd::prelude::*;
use vstd::string::*;

verus! {

/// The Unicode `White_Space` property (PropList.txt), which `char::is_whitespace` tests.
pub open spec fn is_unicode_white_space(c: char) -> bool {
    let u = c as int;
    ||| 0x09 <= u <= 0x0D
    ||| u == 0x20
    ||| u == 0x85
    ||| u == 0xA0
    ||| u == 0x1680
    ||| 0x2000 <= u <= 0x200A
    ||| u == 0x2028
    ||| u == 0x2029
    ||| u == 0x202F
    ||| u == 0x205F
    ||| u == 0x3000
}

/// `char::is_whitespace` holds exactly of the characters with the Unicode `White_Space`
/// property; its documentation defines it so.
pub assume_specification[ char::is_whitespace ](c: char) -> (r: bool)
    ensures
        r == is_unicode_white_space(c),
;

/// Which characters a strip operation removes from both ends of a string.
#[derive(Clone, Copy)]
pub enum StripPattern {
    /// Unicode whitespace, as `str::trim` removes it.
    Whitespace,
    /// Every occurrence of one character, as `str::trim_matches(c)` removes it.
    Char(char),
}

impl StripPattern {
    pub open spec fn spec_matches(self, c: char) -> bool {
        match self {
            StripPattern::Whitespace => is_unicode_white_space(c),
            StripPattern::Char(d) => c == d,
        }
    }

    pub fn matches(self, c: char) -> (r: bool)
        ensures
            r == self.spec_matches(c),
    {
        match self {
            StripPattern::Whitespace => c.is_whitespace(),
            StripPattern::Char(d) => c == d,
        }
    }
}

/// `s` with every leading character that matches `p` removed.
pub open spec fn strip_start(s: Seq<char>, p: StripPattern) -> Seq<char>
    decreases s.len(),
{
    if s.len() > 0 && p.spec_matches(s[0]) {
        strip_start(s.drop_first(), p)
    } else {
        s
    }
}

/// `s` with every trailing character that matches `p` removed.
pub open spec fn strip_end(s: Seq<char>, p: StripPattern) -> Seq<char>
    decreases s.len(),
{
    if s.len() > 0 && p.spec_matches(s.last()) {
        strip_end(s.drop_last(), p)
    } else {
        s
    }
}

/// `s` with matching characters removed from both ends.
pub open spec fn strip_both(s: Seq<char>, p: StripPattern) -> Seq<char> {
    strip_end(strip_start(s, p), p)
}

/// `s` without leading and trailing Unicode whitespace, as `str::trim` gives it.
pub open spec fn spec_trim(s: Seq<char>) -> Seq<char> {
    strip_both(s, StripPattern::Whitespace)
}

proof fn lemma_strip_start_step(s: Seq<char>, i: int, p: StripPattern)
    requires
        0 <= i < s.len(),
        p.spec_matches(s[i]),
    ensures
        strip_start(s.subrange(i, s.len() as int), p) == strip_start(
            s.subrange(i + 1, s.len() as int),
            p,
        ),
{
    assert(s.subrange(i, s.len() as int).drop_first() =~= s.subrange(i + 1, s.len() as int));
}

proof fn lemma_strip_end_step(s: Seq<char>, i: int, j: int, p: StripPattern)
    requires
        0 <= i < j <= s.len(),
        p.spec_matches(s[j - 1]),
    ensures
        strip_end(s.subrange(i, j), p) == strip_end(s.subrange(i, j - 1), p),
{
    assert(s.subrange(i, j).drop_last() =~= s.subrange(i, j - 1));
}

/// Removes the characters that match `pattern` from both ends of `s`.
pub fn strip<'a>(s: &'a str, pattern: StripPattern) -> (r: &'a str)
    ensures
        r@ == strip_both(s@, pattern),
{
    let n = s.unicode_len();
    let mut i: usize = 0;
    proof {
        assert(s@.subrange(0, n as int) =~= s@);
    }
    while i < n && pattern.matches(s.get_char(i))
        invariant
            n == s@.len(),
            i <= n,
            strip_start(s@, pattern) == strip_start(s@.subrange(i as int, n as int), pattern),
        decreases n - i,
    {
        proof {
            lemma_strip_start_step(s@, i as int, pattern);
        }
        i = i + 1;
    }
    proof {
        if i < n {
            assert(!pattern.spec_matches(s@.subrange(i as int, n as int)[0]));
        }
        assert(strip_start(s@, pattern) =~= s@.subrange(i as int, n as int));
    }
    let mut j: usize = n;
    while j > i && pattern.matches(s.get_char(j - 1))
        invariant
            n == s@.len(),
            i <= j <= n,
            strip_start(s@, pattern) =~= s@.subrange(i as int, n as int),
            strip_both(s@, pattern) == strip_end(s@.subrange(i as int, j as int), pattern),
        decreases j - i,
    {
        proof {
            lemma_strip_end_step(s@, i as int, j as int, pattern);
        }
        j = j - 1;
    }
    proof {
        if j > i {
            assert(s@.subrange(i as int, j as int).last() == s@[j - 1]);
        }
        assert(strip_end(s@.subrange(i as int, j as int), pattern) =~= s@.subrange(
            i as int,
            j as int,
        ));
    }
    s.substring_char(i, j)
}

/// Removes leading and trailing Unicode whitespace, like `str::trim`.
pub fn trim<'a>(s: &'a str) -> (r: &'a str)
    ensures
        r@ == spec_trim(s@),
{
    strip(s, StripPattern::Whitespace)
}


/// An ASCII decimal digit.
pub open spec fn is_ascii_digit(c: char) -> bool {
    '0' <= c <= '9'
}

pub open spec fn all_ascii_digits(s: Seq<char>) -> bool {
    forall|i: int| 0 <= i < s.len() ==> is_ascii_digit(#[trigger] s[i])
}

/// The value of a string of decimal digits, most significant first.
pub open spec fn digits_value(s: Seq<char>) -> int
    decreases s.len(),
{
    if s.len() == 0 {
        0
    } else {
        digits_value(s.drop_last()) * 10 + (s.last() as int - '0' as int)
    }
}

/// The integer that a decimal numeral denotes: an optional `+` or `-` sign followed by one
/// or more ASCII digits, and nothing else.
pub open spec fn spec_parse_integer(s: Seq<char>) -> Option<int> {
    if s.len() > 0 && (s[0] == '-' || s[0] == '+') {
        let rest = s.drop_first();
        if rest.len() > 0 && all_ascii_digits(rest) {
            Some(if s[0] == '-' { -digits_value(rest) } else { digits_value(rest) })
        } else {
            None
        }
    } else if s.len() > 0 && all_ascii_digits(s) {
        Some(digits_value(s))
    } else {
        None
    }
}

/// What `str::parse::<i32>` accepts: a decimal numeral whose value fits in an `i32`.
pub open spec fn spec_parse_i32(s: Seq<char>) -> Option<i32> {
    match spec_parse_integer(s) {
        Some(v) => if i32::MIN <= v <= i32::MAX {
            Some(v as i32)
        } else {
            None
        },
        None => None,
    }
}

pub proof fn lemma_digits_value_nonneg(s: Seq<char>)
    requires
        all_ascii_digits(s),
    ensures
        digits_value(s) >= 0,
    decreases s.len(),
{
    if s.len() > 0 {
        assert(all_ascii_digits(s.drop_last())) by {
            assert forall|i: int| 0 <= i < s.drop_last().len() implies is_ascii_digit(
                #[trigger] s.drop_last()[i],
            ) by {
                assert(s.drop_last()[i] == s[i]);
            }
        }
        lemma_digits_value_nonneg(s.drop_last());
        assert(is_ascii_digit(s[s.len() - 1]));
    }
}

proof fn lemma_digits_value_step(s: Seq<char>, k: int)
    requires
        0 <= k < s.len(),
    ensures
        digits_value(s.subrange(0, k + 1)) == digits_value(s.subrange(0, k)) * 10 + (s[k] as int
            - '0' as int),
{
    assert(s.subrange(0, k + 1).drop_last() =~= s.subrange(0, k));
}

proof fn lemma_digits_prefix_le(s: Seq<char>, k: int)
    requires
        all_ascii_digits(s),
        0 <= k <= s.len(),
    ensures
        digits_value(s.subrange(0, k)) <= digits_value(s),
    decreases s.len() - k,
{
    if k == s.len() {
        assert(s.subrange(0, k) =~= s);
    } else {
        lemma_digits_prefix_le(s, k + 1);
        lemma_digits_value_step(s, k);
        assert(all_ascii_digits(s.subrange(0, k))) by {
            assert forall|i: int| 0 <= i < k implies is_ascii_digit(
                #[trigger] s.subrange(0, k)[i],
            ) by {
                assert(s.subrange(0, k)[i] == s[i]);
            }
        }
        lemma_digits_value_nonneg(s.subrange(0, k));
        assert(is_ascii_digit(s[k]));
    }
}

/// Parses a decimal `i32` exactly as `str::parse::<i32>` does.
pub fn parse_i32(s: &str) -> (r: Option<i32>)
    ensures
        r == spec_parse_i32(s@),
{
    let n = s.unicode_len();
    if n == 0 {
        return None;
    }
    let first = s.get_char(0);
    let signed = first == '-' || first == '+';
    let start: usize = if signed {
        1
    } else {
        0
    };
    if start == n {
        return None;
    }
    let ghost body = s@.subrange(start as int, n as int);
    proof {
        if signed {
            assert(body =~= s@.drop_first());
        } else {
            assert(body =~= s@);
        }
        assert(body.subrange(0, 0) =~= Seq::<char>::empty());
        assert(first == s@[0]);
    }
    let mut acc: i64 = 0;
    let mut i: usize = start;
    while i < n
        invariant
            0 <= start <= i <= n,
            n == s@.len(),
            body == s@.subrange(start as int, n as int),
            all_ascii_digits(body.subrange(0, i - start)),
            acc == digits_value(body.subrange(0, i - start)),
            0 <= acc <= 2147483648,
            body.len() > 0,
            spec_parse_integer(s@) == (if all_ascii_digits(body) {
                Some(
                    if first == '-' {
                        -digits_value(body)
                    } else {
                        digits_value(body)
                    },
                )
            } else {
                None::<int>
            }),
        decreases n - i,
    {
        let c = s.get_char(i);
        assert(body[i - start] == c);
        if !('0' <= c && c <= '9') {
            assert(!all_ascii_digits(body));
            return None;
        }
        let d: i64 = (c as u32 - '0' as u32) as i64;
        let next: i64 = acc * 10 + d;
        proof {
            lemma_digits_value_step(body, i - start);
            assert(body.subrange(0, i + 1 - start) =~= body.subrange(0, i - start).push(c));
            assert(all_ascii_digits(body.subrange(0, i + 1 - start))) by {
                assert forall|k: int| 0 <= k < i + 1 - start implies is_ascii_digit(
                    #[trigger] body.subrange(0, i + 1 - start)[k],
                ) by {
                    if k < i - start {
                        assert(body.subrange(0, i + 1 - start)[k] == body.subrange(0, i - start)[k]);
                    }
                }
            }
        }
        if next > 2147483648 {
            proof {
                if all_ascii_digits(body) {
                    lemma_digits_prefix_le(body, i + 1 - start);
                }
            }
            return None;
        }
        acc = next;
        i = i + 1;
    }
    proof {
        assert(body.subrange(0, n - start) =~= body);
    }
    if first == '-' {
        Some((0 - acc) as i32)
    } else if acc <= 2147483647 {
        Some(acc as i32)
    } else {
        None
    }
}

/// Joins a relative path component onto a base path with one `/` between them,
/// as `Path::join` does for a relative component.
pub open spec fn spec_join_path(base: Seq<char>, part: Seq<char>) -> Seq<char> {
    if base.len() == 0 || base.last() == '/' {
        base + part
    } else {
        base + seq!['/'] + part
    }
}

/// Joins `part` onto `base` as a relative path component.
pub fn join_path(base: &str, part: &str) -> (r: String)
    ensures
        r@ == spec_join_path(base@, part@),
{
    let n = base.unicode_len();
    let mut joined = String::from_str(base);
    if n > 0 && base.get_char(n - 1) != '/' {
        joined.append("/");
        proof {
            reveal_strlit("/");
        }
    }
    joined.append(part);
    joined
}


/// Compares two strings character by character.
pub fn str_eq(a: &str, b: &str) -> (r: bool)
    ensures
        r == (a@ == b@),
{
    let n = a.unicode_len();
    if n != b.unicode_len() {
        return false;
    }
    let mut i: usize = 0;
    while i < n
        invariant
            n == a@.len(),
            n == b@.len(),
            i <= n,
            forall|k: int| 0 <= k < i ==> a@[k] == b@[k],
        decreases n - i,
    {
        if a.get_char(i) != b.get_char(i) {
            return false;
        }
        i = i + 1;
    }
    assert(a@ =~= b@);
    true
}

} // verus!
