//! Times of day as operators write them ("HH:MM") and the daily windows that
//! they bound. A minute of the day counts from midnight.
use vstd::prelude::*;

use crate::text::{chars_of, position};

verus! {

/// Minutes in a day.
pub const DAY_MINUTES: u32 = 1440;

/// The digit that `c` stands for.
pub open spec fn digit(c: char) -> nat {
    if '0' <= c && c <= '9' {
        (c as u32 - '0' as u32) as nat
    } else {
        0
    }
}

/// The number that a row of decimal digits stands for.
pub open spec fn decimal(s: Seq<char>) -> nat
    decreases s.len(),
{
    if s.len() == 0 {
        0
    } else {
        10 * decimal(s.drop_last()) + digit(s.last())
    }
}

/// Whether `s` holds decimal digits only, and at least one.
pub open spec fn is_decimal(s: Seq<char>) -> bool {
    s.len() > 0 && forall|i: int| 0 <= i < s.len() ==> '0' <= #[trigger] s[i] && s[i] <= '9'
}

/// `s` without the plus sign that may stand before a number.
pub open spec fn unsigned(s: Seq<char>) -> Seq<char> {
    if s.len() > 0 && s[0] == '+' {
        s.skip(1)
    } else {
        s
    }
}

/// The 32-bit number written in `s`: decimal digits with an optional plus sign.
pub open spec fn number_u32(s: Seq<char>) -> Option<u32> {
    let digits = unsigned(s);
    if is_decimal(digits) && decimal(digits) <= u32::MAX {
        Some(decimal(digits) as u32)
    } else {
        None
    }
}

proof fn lemma_decimal_prefix(s: Seq<char>, i: int)
    requires
        0 <= i <= s.len(),
    ensures
        decimal(s.take(i)) <= decimal(s),
    decreases s.len() - i,
{
    if i < s.len() {
        lemma_decimal_prefix(s, i + 1);
        assert(s.take(i + 1).drop_last() =~= s.take(i));
    } else {
        assert(s.take(i) =~= s);
    }
}

/// Reads the number written in `chars[from..to]`.
fn read_u32(chars: &Vec<char>, from: usize, to: usize) -> (n: Option<u32>)
    requires
        from <= to <= chars.len(),
    ensures
        n == number_u32(chars@.subrange(from as int, to as int)),
{
    let ghost whole = chars@.subrange(from as int, to as int);
    let mut start: usize = from;
    if from < to && chars[from] == '+' {
        start = from + 1;
    }
    let ghost digits = unsigned(whole);
    assert(digits =~= chars@.subrange(start as int, to as int));
    if start == to {
        return None;
    }
    let mut value: u64 = 0;
    let mut i: usize = start;
    assert(digits.take(0) =~= Seq::<char>::empty());
    while i < to
        invariant
            start <= i <= to <= chars.len(),
            start < to,
            digits == chars@.subrange(start as int, to as int),
            digits == unsigned(whole),
            whole == chars@.subrange(from as int, to as int),
            value == decimal(digits.take(i - start)),
            value <= u32::MAX,
            forall|j: int| 0 <= j < i - start ==> '0' <= #[trigger] digits[j] && digits[j] <= '9',
        decreases to - i,
    {
        let c = chars[i];
        assert(digits[i - start] == c);
        if c < '0' || '9' < c {
            return None;
        }
        assert(digits.take(i - start + 1).drop_last() =~= digits.take(i - start));
        value = value * 10 + (c as u32 - '0' as u32) as u64;
        i = i + 1;
        if value > u32::MAX as u64 {
            proof {
                lemma_decimal_prefix(digits, i - start);
            }
            return None;
        }
    }
    assert(digits.take(to - start) =~= digits);
    Some(value as u32)
}

/// The minute of the day that "HH:MM" names: what stands before the first
/// colon is the hour, what stands after it the minute. No upper bound is put
/// on either.
pub open spec fn hhmm(s: Seq<char>) -> Option<int> {
    match position(s, ':', 0) {
        Some(k) => match (number_u32(s.take(k)), number_u32(s.skip(k + 1))) {
            (Some(h), Some(m)) => Some(h * 60 + m),
            _ => None,
        },
        None => None,
    }
}

/// Whether the minute that `s` names, if any, can be counted in 32 bits.
pub open spec fn hhmm_fits(s: Seq<char>) -> bool {
    hhmm(s) matches Some(t) ==> t <= u32::MAX
}

/// Reads "HH:MM".
pub fn parse_hhmm(s: &str) -> (minute: Option<u32>)
    requires
        hhmm_fits(s@),
    ensures
        match hhmm(s@) {
            Some(t) => minute == Some(t as u32),
            None => minute is None,
        },
{
    match split_hhmm(s) {
        Some((h, m)) => Some(h * 60 + m),
        None => None,
    }
}

/// Whether `parse_hhmm` can take `s`.
pub fn can_parse_hhmm(s: &str) -> (fits: bool)
    ensures
        fits == hhmm_fits(s@),
{
    match split_hhmm(s) {
        Some((h, m)) => h as u64 * 60 + m as u64 <= u32::MAX as u64,
        None => true,
    }
}

/// The hour and the minute written in `s`.
fn split_hhmm(s: &str) -> (parts: Option<(u32, u32)>)
    ensures
        match parts {
            Some((h, m)) => hhmm(s@) == Some(h * 60 + m),
            None => hhmm(s@) is None,
        },
{
    let chars = chars_of(s);
    let mut k: usize = 0;
    while k < chars.len() && chars[k] != ':'
        invariant
            k <= chars.len(),
            position(chars@, ':', 0) == position(chars@, ':', k as int),
        decreases chars.len() - k,
    {
        k = k + 1;
    }
    if k == chars.len() {
        return None;
    }
    assert(chars@.subrange(0, k as int) =~= chars@.take(k as int));
    assert(chars@.subrange(k + 1, chars@.len() as int) =~= chars@.skip(k + 1));
    match (read_u32(&chars, 0, k), read_u32(&chars, k + 1, chars.len())) {
        (Some(h), Some(m)) => Some((h, m)),
        _ => None,
    }
}

/// The two decimal digits of a number below 100.
pub open spec fn two_digits(n: int) -> Seq<char> {
    seq![('0' as u32 + n / 10) as char, ('0' as u32 + n % 10) as char]
}

/// A minute of the day written as "HH:MM".
pub open spec fn hhmm_text(minute: int) -> Seq<char> {
    two_digits(minute / 60) + seq![':'] + two_digits(minute % 60)
}

fn push_two_digits(s: &mut String, n: u32)
    requires
        n < 100,
    ensures
        final(s)@ == old(s)@ + two_digits(n as int),
{
    s.push((48u8 + (n / 10) as u8) as char);
    s.push((48u8 + (n % 10) as u8) as char);
    assert(s@ =~= old(s)@ + two_digits(n as int));
}

/// Writes a minute of the day as "HH:MM".
pub fn write_hhmm(minute: u32) -> (s: String)
    requires
        minute < DAY_MINUTES,
    ensures
        s@ == hhmm_text(minute as int),
{
    let mut s = String::new();
    push_two_digits(&mut s, minute / 60);
    s.push(':');
    push_two_digits(&mut s, minute % 60);
    assert(s@ =~= hhmm_text(minute as int));
    s
}

/// A time of day written by `write_hhmm` is read back by `parse_hhmm`.
pub proof fn law_hhmm_read_back(minute: int)
    requires
        0 <= minute < DAY_MINUTES,
    ensures
        hhmm(hhmm_text(minute)) == Some(minute),
{
    let s = hhmm_text(minute);
    let h = minute / 60;
    let m = minute % 60;
    reveal_with_fuel(position, 4);
    assert(position(s, ':', 0) == Some(2int));
    lemma_two_digits(h);
    lemma_two_digits(m);
    assert(s.take(2) =~= two_digits(h));
    assert(s.skip(3) =~= two_digits(m));
}

proof fn lemma_two_digits(n: int)
    requires
        0 <= n < 100,
    ensures
        number_u32(two_digits(n)) == Some(n as u32),
{
    let s = two_digits(n);
    assert(unsigned(s) =~= s);
    reveal_with_fuel(decimal, 3);
    assert(s.drop_last() =~= seq![s[0]]);
    assert(s.drop_last().drop_last() =~= Seq::<char>::empty());
    assert(is_decimal(s));
}

/// Whether `now` lies in the daily window that opens at `start` and closes
/// just before `end`. A window whose start comes after its end runs over
/// midnight.
pub open spec fn in_daily_window(start: int, end: int, now: int) -> bool {
    if start > end {
        now >= start || now < end
    } else {
        start <= now < end
    }
}

/// Whether `now` lies in the daily window from `start` to `end`.
pub fn within_daily_window(start: u32, end: u32, now: u32) -> (inside: bool)
    ensures
        inside == in_daily_window(start as int, end as int, now as int),
{
    if start > end {
        now >= start || now < end
    } else {
        now >= start && now < end
    }
}

/// For two different times, a minute lies either in the window from the one to
/// the other or in the window back.
pub proof fn law_daily_windows_are_complements(a: int, b: int, now: int)
    requires
        a != b,
    ensures
        in_daily_window(a, b, now) == !in_daily_window(b, a, now),
{
}

/// A time of day in five characters, two digits on each side of a colon, is
/// read as hours and minutes.
pub proof fn law_times_are_hours_and_minutes(a: char, b: char, c: char, d: char)
    requires
        '0' <= a <= '9' && '0' <= b <= '9' && '0' <= c <= '9' && '0' <= d <= '9',
    ensures
        hhmm(seq![a, b, ':', c, d]) == Some(
            600 * (a as int - 48) + 60 * (b as int - 48) + 10 * (c as int - 48) + (d as int - 48),
        ),
{
    let s = seq![a, b, ':', c, d];
    reveal_with_fuel(position, 4);
    assert(position(s, ':', 0) == Some(2int));
    lemma_pair(a, b);
    lemma_pair(c, d);
    assert(s.take(2) =~= seq![a, b]);
    assert(s.skip(3) =~= seq![c, d]);
}

proof fn lemma_pair(a: char, b: char)
    requires
        '0' <= a <= '9' && '0' <= b <= '9',
    ensures
        number_u32(seq![a, b]) == Some((10 * (a as int - 48) + (b as int - 48)) as u32),
{
    let s = seq![a, b];
    assert(unsigned(s) =~= s);
    reveal_with_fuel(decimal, 3);
    assert(s.drop_last() =~= seq![a]);
    assert(s.drop_last().drop_last() =~= Seq::<char>::empty());
    assert(is_decimal(s));
}

proof fn lemma_position_none(s: Seq<char>, c: char, i: int)
    requires
        0 <= i,
        forall|j: int| i <= j < s.len() ==> s[j] != c,
    ensures
        position(s, c, i) is None,
    decreases s.len() - i,
{
    if i < s.len() {
        lemma_position_none(s, c, i + 1);
    }
}

proof fn lemma_position_first(s: Seq<char>, c: char, i: int, k: int)
    requires
        0 <= i <= k < s.len(),
        s[k] == c,
        forall|j: int| i <= j < k ==> s[j] != c,
    ensures
        position(s, c, i) == Some(k),
    decreases k - i,
{
    if i < k {
        lemma_position_first(s, c, i + 1, k);
    }
}

/// A text without a colon is no time.
pub proof fn law_time_needs_a_colon(s: Seq<char>)
    requires
        forall|i: int| 0 <= i < s.len() ==> s[i] != ':',
    ensures
        hhmm(s) is None,
{
    lemma_position_none(s, ':', 0);
}

/// A time is two numbers with a colon between them, and nothing else is one:
/// sixty times the first and the second on top.
pub proof fn law_time_is_two_numbers(h: Seq<char>, m: Seq<char>)
    requires
        forall|i: int| 0 <= i < h.len() ==> h[i] != ':',
    ensures
        hhmm(h + seq![':'] + m) is Some <==> number_u32(h) is Some && number_u32(m) is Some,
        hhmm(h + seq![':'] + m) matches Some(t) ==> t == 60 * number_u32(h)->0 + number_u32(m)->0,
{
    let s = h + seq![':'] + m;
    lemma_position_first(s, ':', 0, h.len() as int);
    assert(s.take(h.len() as int) =~= h);
    assert(s.skip(h.len() as int + 1) =~= m);
}

/// Only digits make a number, but for a plus sign in front, and there must be
/// one.
pub proof fn law_numbers_are_digits(s: Seq<char>)
    requires
        number_u32(s) is Some,
    ensures
        s.len() > 0,
        s[0] == '+' || '0' <= s[0] <= '9',
        s[0] == '+' ==> s.len() > 1,
        forall|i: int| 1 <= i < s.len() ==> '0' <= #[trigger] s[i] <= '9',
{
    if s.len() > 0 && s[0] == '+' {
        assert forall|i: int| 1 <= i < s.len() implies '0' <= #[trigger] s[i] <= '9' by {
            assert(s.skip(1)[i - 1] == s[i]);
        }
    }
}

/// One digit more makes a number ten times as large, and that digit comes on
/// top; a digit alone stands for itself.
pub proof fn law_digits_count_in_tens(s: Seq<char>, c: char)
    requires
        '0' <= c <= '9',
    ensures
        number_u32(seq![c]) == Some((c as int - 48) as u32),
        number_u32(s) matches Some(n) ==> (number_u32(s.push(c)) matches Some(m) && m == 10 * n + (
        c as int - 48)) || 10 * n + (c as int - 48) > u32::MAX,
        number_u32(s) matches Some(n) ==> 10 * n + (c as int - 48) > u32::MAX ==> number_u32(
            s.push(c),
        ) is None,
        s.len() > 0 && s != seq!['+'] && number_u32(s) is None ==> number_u32(s.push(c)) is None,
{
    reveal_with_fuel(decimal, 2);
    assert(unsigned(seq![c]) =~= seq![c]);
    assert(seq![c].drop_last() =~= Seq::<char>::empty());
    if s.len() > 0 && s != seq!['+'] && number_u32(s) is None {
        let t = unsigned(s);
        assert(unsigned(s.push(c)) =~= t.push(c));
        assert(t.push(c).drop_last() =~= t);
        if s[0] == '+' && t.len() == 0 {
            assert(s =~= seq!['+']);
        }
        if is_decimal(t.push(c)) {
            assert forall|i: int| 0 <= i < t.len() implies '0' <= #[trigger] t[i] && t[i] <= '9' by {
                assert(t.push(c)[i] == t[i]);
            }
        }
    }
    if number_u32(s) is Some {
        let t = unsigned(s);
        assert(unsigned(s.push(c)) =~= t.push(c));
        assert(t.push(c).drop_last() =~= t);
        assert(is_decimal(t.push(c))) by {
            assert forall|i: int| 0 <= i < t.push(c).len() implies '0' <= #[trigger] t.push(c)[i]
                && t.push(c)[i] <= '9' by {
                if i < t.len() {
                    assert(t.push(c)[i] == t[i]);
                }
            }
        }
    }
}

/// Seen from its start, a daily window holds the minutes that follow within its
/// length; a window that ends where it starts holds none.
pub proof fn law_daily_window_runs_from_its_start(start: int, end: int, now: int)
    requires
        0 <= start < 1440,
        0 <= end < 1440,
        0 <= now < 1440,
    ensures
        in_daily_window(start, end, now) <==> (now - start) % 1440 < (end - start) % 1440,
{
}

/// A window that does not run over midnight holds what is not before its start
/// and before its end, however late its times are.
pub proof fn law_window_within_a_day(start: int, end: int, now: int)
    ensures
        start <= end ==> (in_daily_window(start, end, now) <==> now >= start && now < end),
        start > end ==> (in_daily_window(start, end, now) <==> !(now >= end && now < start)),
{
}

/// A plus sign in front of a number that has none changes nothing.
pub proof fn law_plus_sign_changes_nothing(s: Seq<char>)
    requires
        s.len() > 0 ==> s[0] != '+',
    ensures
        number_u32(seq!['+'] + s) == number_u32(s),
{
    assert((seq!['+'] + s).skip(1) =~= s);
}

/// A time that can be read can be counted with up to the greatest number of 32
/// bits, and one that cannot be read makes no trouble.
pub proof fn law_times_fit_in_32_bits(s: Seq<char>)
    ensures
        hhmm(s) matches Some(t) ==> (hhmm_fits(s) <==> t <= 0xffff_ffff),
        hhmm(s) is None ==> hhmm_fits(s),
{
}

/// A time of day is written in five characters, with the colon in the middle
/// and digits around it.
pub proof fn law_times_are_written_in_five_characters(minute: int)
    requires
        0 <= minute < 1440,
    ensures
        hhmm_text(minute).len() == 5,
        hhmm_text(minute)[2] == ':',
        forall|i: int|
            0 <= i < 5 && i != 2 ==> '0' <= #[trigger] hhmm_text(minute)[i] && hhmm_text(minute)[i]
                <= '9',
{
}

/// A time that was written is read back as it was, and nothing is read where
/// there is no time.
pub proof fn law_written_times_are_read_back(
    minute: u32,
    written: String,
    text: &str,
    read: Option<u32>,
)
    requires
        minute < 1440,
        call_ensures(write_hhmm, (minute,), written),
        call_ensures(parse_hhmm, (text,), read),
    ensures
        text@ == written@ ==> read == Some(minute),
        hhmm(text@) is None ==> read is None,
        hhmm(text@) matches Some(t) ==> t <= u32::MAX ==> (read matches Some(m) && m == t),
{
    law_hhmm_read_back(minute as int);
}

} // verus!
