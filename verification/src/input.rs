use vstd::prelude::*;
use crate::clock::{clock_text, decimal, digit_char, two_digits};
use crate::state::{
    clamped_target, fits_i64, non_negative, MatchState, MAX_SCORE, MAX_SET_SECONDS,
};

verus! {

/// A character with the Unicode White_Space property, the whitespace that
/// `char::is_whitespace` recognises and `str::trim` removes: U+0009 to
/// U+000D, U+0020, U+0085, U+00A0, U+1680, U+2000 to U+200A, U+2028,
/// U+2029, U+202F, U+205F and U+3000.
pub open spec fn is_white_space(c: char) -> bool {
    let u = c as int;
    ||| 0x9 <= u <= 0xD
    ||| u == 0x20
    ||| u == 0x85
    ||| u == 0xA0
    ||| u == 0x1680
    ||| 0x2000 <= u <= 0x200A
    ||| u == 0x2028
    ||| u == 0x2029
    ||| u == 0x202F
    ||| u == 0x205F
    ||| u == 0x3000
}

/// A text without its leading whitespace.
pub open spec fn trimmed_start(s: Seq<char>) -> Seq<char>
    decreases s.len(),
{
    if s.len() > 0 && is_white_space(s[0]) {
        trimmed_start(s.drop_first())
    } else {
        s
    }
}

/// A text without its trailing whitespace.
pub open spec fn trimmed_end(s: Seq<char>) -> Seq<char>
    decreases s.len(),
{
    if s.len() > 0 && is_white_space(s.last()) {
        trimmed_end(s.drop_last())
    } else {
        s
    }
}

/// A text without its leading and trailing whitespace.
pub open spec fn trimmed(s: Seq<char>) -> Seq<char> {
    trimmed_end(trimmed_start(s))
}

/// `str::trim`: the text with its leading and trailing whitespace (Unicode
/// White_Space) removed.
#[verifier::external_body]
fn trim_text(s: &str) -> (r: &str)
    ensures
        r@ == trimmed(s@),
{
    s.trim()
}

/// Whether two texts are equal, character by character.
pub(crate) fn text_equals(a: &str, b: &str) -> (r: bool)
    ensures
        r == (a@ == b@),
{
    let n = a.unicode_len();
    if n != b.unicode_len() {
        return false;
    }
    let mut i: usize = 0;
    while i < n
        invariant
            n == a@.len(),
            n == b@.len(),
            i <= n,
            forall|j: int| 0 <= j < i ==> a@[j] == b@[j],
        decreases n - i,
    {
        if a.get_char(i) != b.get_char(i) {
            return false;
        }
        i = i + 1;
    }
    assert(a@ =~= b@);
    true
}

/// An ASCII decimal digit.
pub open spec fn is_digit(c: char) -> bool {
    '0' <= c <= '9'
}

/// Every character is an ASCII decimal digit.
pub open spec fn all_digits(s: Seq<char>) -> bool {
    forall|i: int| 0 <= i < s.len() ==> is_digit(#[trigger] s[i])
}

/// The number that a sequence of decimal digits denotes.
pub open spec fn digits_value(s: Seq<char>) -> int
    decreases s.len(),
{
    if s.len() == 0 {
        0
    } else {
        digits_value(s.drop_last()) * 10 + (s.last() as int - 48)
    }
}

/// What `str::parse::<i64>` accepts: an optional `+` or `-`, then one or
/// more decimal digits denoting a value within `i64`.
pub open spec fn parsed_i64(s: Seq<char>) -> Option<i64> {
    let negative = s.len() > 0 && s[0] == '-';
    let digits = if s.len() > 0 && (s[0] == '-' || s[0] == '+') {
        s.drop_first()
    } else {
        s
    };
    let value = if negative {
        -digits_value(digits)
    } else {
        digits_value(digits)
    };
    if digits.len() > 0 && all_digits(digits) && fits_i64(value) {
        Some(value as i64)
    } else {
        None
    }
}

/// What `str::parse::<u32>` accepts: an optional `+`, then one or more
/// decimal digits denoting a value within `u32`.
pub open spec fn parsed_u32(s: Seq<char>) -> Option<u32> {
    let digits = if s.len() > 0 && s[0] == '+' {
        s.drop_first()
    } else {
        s
    };
    if digits.len() > 0 && all_digits(digits) && digits_value(digits) <= u32::MAX {
        Some(digits_value(digits) as u32)
    } else {
        None
    }
}

/// The value of digits never drops as digits are appended.
proof fn lemma_digits_value_grows(s: Seq<char>, k: int)
    requires
        all_digits(s),
        0 <= k <= s.len(),
    ensures
        0 <= digits_value(s.subrange(0, k)) <= digits_value(s),
    decreases s.len(),
{
    if s.len() == 0 {
        assert(s.subrange(0, k) =~= s);
    } else if k == s.len() {
        assert(s.subrange(0, k) =~= s);
        lemma_digits_value_grows(s.drop_last(), 0);
    } else {
        let d = s.drop_last();
        assert(all_digits(d));
        lemma_digits_value_grows(d, k);
        assert(d.subrange(0, k) =~= s.subrange(0, k));
        assert(is_digit(s[s.len() - 1]));
    }
}

/// The value of the digits of `s` from `from` on, where they are all digits,
/// there is at least one, and the value is at most `limit`.
fn digits_from(s: &str, from: usize, limit: u128) -> (r: Option<u128>)
    requires
        from <= s@.len(),
        limit <= u64::MAX,
    ensures
        r == (if s@.len() > from && all_digits(s@.subrange(from as int, s@.len() as int))
            && digits_value(s@.subrange(from as int, s@.len() as int)) <= limit {
            Some(digits_value(s@.subrange(from as int, s@.len() as int)) as u128)
        } else {
            None
        }),
{
    let n = s.unicode_len();
    if n == from {
        return None;
    }
    let ghost rest = s@.subrange(from as int, n as int);
    let mut value: u128 = 0;
    let mut i = from;
    while i < n
        invariant
            n == s@.len(),
            from <= i <= n,
            rest == s@.subrange(from as int, n as int),
            limit <= u64::MAX,
            all_digits(s@.subrange(from as int, i as int)),
            value == digits_value(s@.subrange(from as int, i as int)),
            value <= limit,
        decreases n - i,
    {
        let c = s.get_char(i);
        if !('0' <= c && c <= '9') {
            proof {
                assert(rest[i - from] == c);
            }
            return None;
        }
        let d = (c as u32 - 48) as u128;
        proof {
            let p = s@.subrange(from as int, i + 1);
            assert(p.drop_last() =~= s@.subrange(from as int, i as int));
            assert(p.last() == c);
            assert(all_digits(p));
        }
        value = value * 10 + d;
        i = i + 1;
        if value > limit {
            proof {
                assert(rest.subrange(0, (i - from) as int) =~= s@.subrange(from as int, i as int));
                if all_digits(rest) {
                    lemma_digits_value_grows(rest, (i - from) as int);
                }
            }
            return None;
        }
    }
    proof {
        assert(rest =~= s@.subrange(from as int, i as int));
    }
    Some(value)
}

/// `str::parse::<i64>` of a text: an optional sign and decimal digits.
pub fn parse_i64_text(s: &str) -> (r: Option<i64>)
    ensures
        r == parsed_i64(s@),
{
    let n = s.unicode_len();
    let first = if n > 0 {
        Some(s.get_char(0))
    } else {
        None
    };
    let negative = first == Some('-');
    let signed = negative || first == Some('+');
    let from: usize = if signed {
        1
    } else {
        0
    };
    let limit: u128 = if negative {
        9223372036854775808
    } else {
        9223372036854775807
    };
    proof {
        if signed {
            assert(s@.drop_first() =~= s@.subrange(1, s@.len() as int));
        } else {
            assert(s@ =~= s@.subrange(0, s@.len() as int));
        }
    }
    let r = digits_from(s, from, limit);
    proof {
        let rest = s@.subrange(from as int, s@.len() as int);
        if all_digits(rest) {
            lemma_digits_value_grows(rest, 0);
        }
    }
    match r {
        Some(v) => if negative {
            Some((0 - v as i128) as i64)
        } else {
            Some(v as i64)
        },
        None => None,
    }
}

/// `str::parse::<u32>` of a text: an optional `+` and decimal digits.
pub fn parse_u32_text(s: &str) -> (r: Option<u32>)
    ensures
        r == parsed_u32(s@),
{
    let n = s.unicode_len();
    let from: usize = if n > 0 && s.get_char(0) == '+' {
        1
    } else {
        0
    };
    proof {
        if from == 1 {
            assert(s@.drop_first() =~= s@.subrange(1, s@.len() as int));
        } else {
            assert(s@ =~= s@.subrange(0, s@.len() as int));
        }
    }
    let r = digits_from(s, from, 4294967295);
    proof {
        let rest = s@.subrange(from as int, s@.len() as int);
        if all_digits(rest) {
            lemma_digits_value_grows(rest, 0);
        }
    }
    match r {
        Some(v) => Some(v as u32),
        None => None,
    }
}

/// A number typed into a field, 0 where the text is not one.
pub open spec fn number_or_zero(s: Seq<char>) -> int {
    match parsed_i64(s) {
        Some(v) => v as int,
        None => 0,
    }
}

/// The match time typed as minutes and (optionally) seconds, both already
/// trimmed, before it is limited.
pub open spec fn clock_parts_value(minutes: Seq<char>, seconds: Option<Seq<char>>) -> int {
    match seconds {
        Some(sec) => number_or_zero(minutes) * 60 + number_or_zero(sec),
        None => number_or_zero(minutes) * 60,
    }
}

/// The view of an optional text.
pub open spec fn text_view(s: Option<&str>) -> Option<Seq<char>> {
    match s {
        Some(t) => Some(t@),
        None => None,
    }
}

/// An optional text, trimmed.
pub open spec fn trimmed_part(s: Option<Seq<char>>) -> Option<Seq<char>> {
    match s {
        Some(t) => Some(trimmed(t)),
        None => None,
    }
}

/// What `seconds_from_clock_parts` gives for two (trimmed) fields.
pub open spec fn clock_parts_result(minutes: Seq<char>, seconds: Option<Seq<char>>) -> Option<i64> {
    let v = clock_parts_value(minutes, seconds);
    if fits_i64(number_or_zero(minutes) * 60) && fits_i64(v) {
        Some(
            (if v < 0 {
                0
            } else if v > MAX_SET_SECONDS {
                MAX_SET_SECONDS as int
            } else {
                v
            }) as i64,
        )
    } else {
        None
    }
}

/// The match time of the time control from its (trimmed) minute and second
/// fields: `minutes * 60 + seconds`, a field that is not a number counting
/// as 0, limited to `0 ..= MAX_SET_SECONDS`. `None` where the arithmetic
/// leaves `i64`.
pub fn seconds_from_clock_parts(minutes: &str, seconds: Option<&str>) -> (r: Option<i64>)
    ensures
        r == clock_parts_result(minutes@, text_view(seconds)),
{
    let m: i64 = match parse_i64_text(minutes) {
        Some(v) => v,
        None => 0,
    };
    let m60 = m.checked_mul(60);
    let total = match m60 {
        None => None,
        Some(mm) => match seconds {
            Some(sec) => {
                let s: i64 = match parse_i64_text(sec) {
                    Some(v) => v,
                    None => 0,
                };
                mm.checked_add(s)
            },
            None => Some(mm),
        },
    };
    match total {
        None => None,
        Some(t) => Some(
            if t < 0 {
                0
            } else if t > MAX_SET_SECONDS {
                MAX_SET_SECONDS
            } else {
                t
            },
        ),
    }
}

/// The position of the first `:` in a text.
fn find_colon(s: &str) -> (r: Option<usize>)
    ensures
        match r {
            Some(i) => i < s@.len() && s@[i as int] == ':' && forall|j: int|
                0 <= j < i ==> s@[j] != ':',
            None => forall|j: int| 0 <= j < s@.len() ==> s@[j] != ':',
        },
{
    let n = s.unicode_len();
    let mut i: usize = 0;
    while i < n
        invariant
            n == s@.len(),
            i <= n,
            forall|j: int| 0 <= j < i ==> s@[j] != ':',
        decreases n - i,
    {
        if s.get_char(i) == ':' {
            return Some(i);
        }
        i = i + 1;
    }
    None
}

/// The text of the time control split at its first `:` into minutes and
/// seconds; without a `:` it is all minutes.
pub open spec fn split_clock_text(t: Seq<char>) -> (Seq<char>, Option<Seq<char>>) {
    if exists|i: int| 0 <= i < t.len() && t[i] == ':' {
        let i = choose|i: int|
            0 <= i < t.len() && t[i] == ':' && forall|j: int| 0 <= j < i ==> t[j] != ':';
        (t.subrange(0, i), Some(t.subrange(i + 1, t.len() as int)))
    } else {
        (t, None)
    }
}

/// What the time control reads from its trimmed text: with a `:`, the two
/// parts are trimmed again and taken as minutes and seconds; without one,
/// the whole text is minutes.
pub open spec fn clock_input_result(t: Seq<char>) -> Option<i64> {
    match split_clock_text(t) {
        (m, Some(sec)) => clock_parts_result(trimmed(m), Some(trimmed(sec))),
        (m, None) => clock_parts_result(m, None),
    }
}

/// Read the time control's text (`m:s`, as in `46:30`, or a plain number of
/// minutes): the text is trimmed, split at its first `:`, and each part
/// trimmed, then `seconds_from_clock_parts` gives the time. `None` where
/// the arithmetic would leave `i64`.
pub fn parse_clock_input(raw: &str) -> (r: Option<i64>)
    ensures
        r == clock_input_result(trimmed(raw@)),
{
    let t = trim_text(raw);
    match find_colon(t) {
        Some(i) => {
            let n = t.unicode_len();
            let m = t.substring_char(0, i);
            let s = t.substring_char(i + 1, n);
            let tm = trim_text(m);
            let ts = trim_text(s);
            proof {
                let tt = t@;
                assert(0 <= i < tt.len() && tt[i as int] == ':' && forall|j: int|
                    0 <= j < i ==> tt[j] != ':');
                let k = choose|k: int|
                    0 <= k < tt.len() && tt[k] == ':' && forall|j: int| 0 <= j < k ==> tt[j] != ':';
                if k < i {
                    assert(tt[k] != ':');
                }
                if i < k {
                    assert(tt[i as int] != ':');
                }
                assert(k == i);
                assert(split_clock_text(tt) == (tt.subrange(0, i as int), Some(
                    tt.subrange(i + 1, tt.len() as int),
                )));
            }
            seconds_from_clock_parts(tm, Some(ts))
        },
        None => seconds_from_clock_parts(t, None),
    }
}

/// A score typed by hand (already trimmed): its value, 0 where it is not a
/// number, capped at `MAX_SCORE`.
pub fn score_from_text(s: &str) -> (r: u32)
    ensures
        r == match parsed_u32(s@) {
            Some(v) => if v < MAX_SCORE {
                v
            } else {
                MAX_SCORE
            },
            None => 0,
        },
{
    let v = match parse_u32_text(s) {
        Some(v) => v,
        None => 0,
    };
    if v < MAX_SCORE {
        v
    } else {
        MAX_SCORE
    }
}

/// A score field's text as a score: trimmed, then read by
/// `score_from_text`.
pub fn score_input(raw: &str) -> (r: u32)
    ensures
        r == match parsed_u32(trimmed(raw@)) {
            Some(v) => if v < MAX_SCORE {
                v
            } else {
                MAX_SCORE
            },
            None => 0,
        },
{
    score_from_text(trim_text(raw))
}

impl MatchState {
    /// Save the match settings from the fields as typed: each is trimmed,
    /// then `apply_settings` takes them.
    pub fn save_settings(&mut self, home: &str, away: &str, event: &str)
        ensures
            final(self).home_team@ == (if trimmed(home@).len() == 0 {
                old(self).home_team@
            } else {
                trimmed(home@)
            }),
            final(self).away_team@ == (if trimmed(away@).len() == 0 {
                old(self).away_team@
            } else {
                trimmed(away@)
            }),
            final(self).event_name@ == trimmed(event@),
            *final(self) == (MatchState {
                home_team: final(self).home_team,
                away_team: final(self).away_team,
                event_name: final(self).event_name,
                ..*old(self)
            }),
    {
        self.apply_settings(trim_text(home), trim_text(away), trim_text(event));
    }
}

/// The decimal text of `n` is one or more digits that denote `n`.
proof fn lemma_decimal_denotes(n: nat)
    ensures
        decimal(n).len() >= 1,
        all_digits(decimal(n)),
        digits_value(decimal(n)) == n,
    decreases n,
{
    if n < 10 {
        let d = decimal(n);
        assert(d.drop_last() =~= Seq::<char>::empty());
        assert(digits_value(Seq::<char>::empty()) == 0);
        assert(digit_char(n as int) as int == 48 + n);
        assert(d.last() == digit_char(n as int));
    } else {
        lemma_decimal_denotes(n / 10);
        let d = decimal(n);
        assert(d.drop_last() =~= decimal(n / 10));
        assert(digit_char((n % 10) as int) as int == 48 + n % 10);
        assert forall|i: int| 0 <= i < d.len() implies is_digit(#[trigger] d[i]) by {
            if i < d.len() - 1 {
                assert(d[i] == decimal(n / 10)[i]);
            }
        }
    }
}

/// Two-digit text of `n` is digits that denote `n`, and the time control
/// reads it back as `n`.
proof fn lemma_two_digits_read_back(n: nat)
    requires
        n <= i64::MAX,
    ensures
        all_digits(two_digits(n)),
        two_digits(n).len() >= 2,
        forall|i: int| 0 <= i < two_digits(n).len() ==> two_digits(n)[i] != ':',
        parsed_i64(two_digits(n)) == Some(n as i64),
        number_or_zero(two_digits(n)) == n,
        !is_white_space(two_digits(n)[0]),
        !is_white_space(two_digits(n).last()),
        trimmed(two_digits(n)) == two_digits(n),
{
    lemma_decimal_denotes(n);
    let t = two_digits(n);
    if n < 10 {
        assert(digit_char(n as int) as int == 48 + n);
        assert(t.drop_last() =~= seq!['0']);
        assert(seq!['0'].drop_last() =~= Seq::<char>::empty());
        assert(digits_value(Seq::<char>::empty()) == 0);
        assert('0' as int == 48);
        assert(digits_value(seq!['0']) == 0);
        assert(is_digit(t[0]) && is_digit(t[1]));
    } else {
        assert(decimal(n).len() >= 2) by {
            let d = decimal(n);
            assert(d == decimal(n / 10).push(digit_char((n % 10) as int)));
            lemma_decimal_denotes(n / 10);
        }
    }
    assert forall|i: int| 0 <= i < t.len() implies t[i] != ':' by {
        assert(is_digit(t[i]));
    }
    assert(is_digit(t[0]));
    assert(is_digit(t[t.len() - 1]));
    lemma_trim_keeps_solid(t);
}

/// A text that neither begins nor ends with whitespace is its own trim.
proof fn lemma_trim_keeps_solid(s: Seq<char>)
    requires
        s.len() > 0,
        !is_white_space(s[0]),
        !is_white_space(s.last()),
    ensures
        trimmed(s) == s,
{
    assert(trimmed_start(s) == s);
    assert(trimmed_end(s) == s);
}

/// The clock face splits at its first `:` into the two-digit texts of its
/// minutes and seconds.
proof fn lemma_clock_text_split(t: i64)
    ensures
        ({
            let v = non_negative(t as int);
            &&& split_clock_text(clock_text(t as int)) == (two_digits((v / 60) as nat), Some(
                two_digits((v % 60) as nat),
            ))
            &&& trimmed(clock_text(t as int)) == clock_text(t as int)
        }),
{
    let v = non_negative(t as int);
    let m = (v / 60) as nat;
    let s = (v % 60) as nat;
    lemma_two_digits_read_back(m);
    lemma_two_digits_read_back(s);
    let text = clock_text(t as int);
    let a = two_digits(m);
    let b = two_digits(s);
    assert(text =~= a + seq![':'] + b);
    let k = a.len() as int;
    assert(text[k] == ':');
    assert(text[0] == a[0]);
    assert(text.last() == b.last());
    lemma_trim_keeps_solid(text);
    assert forall|j: int| 0 <= j < k implies text[j] != ':' by {
        assert(text[j] == a[j]);
    }
    let c = choose|i: int|
        0 <= i < text.len() && text[i] == ':' && forall|j: int| 0 <= j < i ==> text[j] != ':';
    if c < k {
        assert(text[c] == a[c]);
    }
    if k < c {
        assert(text[k] != ':');
    }
    assert(c == k);
    assert(text.subrange(0, k) =~= a);
    assert(text.subrange(k + 1, text.len() as int) =~= b);
}

/// A number under 100 takes exactly two digits on the clock face.
proof fn lemma_two_digits_len(n: nat)
    requires
        n < 100,
    ensures
        two_digits(n).len() == 2,
{
    if n >= 10 {
        assert(decimal(n) == decimal(n / 10).push(digit_char((n % 10) as int)));
        assert(decimal(n / 10).len() == 1);
    }
}

/// The clock face is minutes and seconds: split at its first `:`, the
/// minute field has at least two digits and the second field exactly two;
/// they read as numbers, the seconds are under 60, and minutes × 60 +
/// seconds is the time shown (a negative time shows as 0), for every time.
pub proof fn law_clock_text_is_minutes_and_seconds(sec: i64)
    ensures
        ({
            let (m, s) = split_clock_text(clock_text(sec as int));
            &&& s is Some
            &&& m.len() >= 2
            &&& s->0.len() == 2
            &&& parsed_i64(m) is Some
            &&& parsed_i64(s->0) is Some
            &&& 0 <= parsed_i64(s->0)->0 < 60
            &&& parsed_i64(m)->0 * 60 + parsed_i64(s->0)->0 == non_negative(sec as int)
        }),
{
    let v = non_negative(sec as int);
    lemma_clock_text_split(sec);
    lemma_two_digits_read_back((v / 60) as nat);
    lemma_two_digits_read_back((v % 60) as nat);
    lemma_two_digits_len((v % 60) as nat);
}

/// The clock face reads back as the time it shows: the time control takes
/// the text of `fmt_clock(t)` (trimming changes nothing), splits it at its
/// `:` into the minute and second fields and reads them as `t`, limited as
/// every typed time is; so every time it accepts reads back as itself.
pub proof fn law_clock_text_reads_back(t: i64)
    ensures
        trimmed(clock_text(t as int)) == clock_text(t as int),
        clock_input_result(clock_text(t as int)) == Some(clamped_target(t)),
        0 <= t <= MAX_SET_SECONDS ==> clock_input_result(clock_text(t as int)) == Some(t),
{
    let v = non_negative(t as int);
    let m = (v / 60) as nat;
    let s = (v % 60) as nat;
    lemma_clock_text_split(t);
    lemma_two_digits_read_back(m);
    lemma_two_digits_read_back(s);
    assert(clock_parts_value(two_digits(m), Some(two_digits(s))) == m * 60 + s);
    assert(m * 60 + s == v);
}

} // verus!
