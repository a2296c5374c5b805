//! Text that the rich presence shows.
use std::time::Duration;
use vstd::prelude::*;

use crate::metadata_providers::MediaType;
use crate::time::{duration_as_secs, duration_nanos, whole_secs};

verus! {

/// The character of the decimal digit `d`.
pub open spec fn digit_char(d: nat) -> char {
    if d == 0 {
        '0'
    } else if d == 1 {
        '1'
    } else if d == 2 {
        '2'
    } else if d == 3 {
        '3'
    } else if d == 4 {
        '4'
    } else if d == 5 {
        '5'
    } else if d == 6 {
        '6'
    } else if d == 7 {
        '7'
    } else if d == 8 {
        '8'
    } else {
        '9'
    }
}

/// The decimal representation of `n`, without leading zeros.
pub open spec fn decimal(n: nat) -> Seq<char>
    decreases n,
{
    if n < 10 {
        seq![digit_char(n)]
    } else {
        decimal(n / 10).push(digit_char(n % 10))
    }
}

/// The decimal representation of `n`, padded with zeros to at least two characters.
pub open spec fn two_digits(n: nat) -> Seq<char> {
    if n < 10 {
        seq!['0', digit_char(n)]
    } else {
        decimal(n)
    }
}

/// `seconds` written as minutes and seconds, `MM:SS`.
pub open spec fn clock_text(seconds: nat) -> Seq<char> {
    two_digits(seconds / 60) + seq![':'] + two_digits(seconds % 60)
}

/// What is shown for an item of the given media type and subtitle.
pub open spec fn action_text(media_type: MediaType, subtitle: Seq<char>) -> Seq<char> {
    match media_type {
        MediaType::AUDIO => "Listening to "@ + subtitle,
        _ => subtitle,
    }
}

/// The sign shown for a playback status.
pub open spec fn playback_sign_text(status: Seq<char>) -> Seq<char> {
    if status == "paused"@ {
        "⏸︎"@
    } else if status == "playing"@ {
        "⏵︎"@
    } else {
        ""@
    }
}

/// Calls `<str as PartialEq>::eq`, which std documents as comparing the two strings'
/// contents: the result is true exactly when both hold the same characters.
#[verifier::external_body]
pub(crate) fn str_eq(a: &str, b: &str) -> (r: bool)
    ensures
        r == (a@ == b@),
{
    a == b
}

/// Whether `list` holds a string with the same characters as `item`.
pub fn contains_text(list: &Vec<String>, item: &String) -> (r: bool)
    ensures
        r == list.deep_view().contains(item@),
{
    let n = list.len();
    let mut i: usize = 0;
    while i < n
        invariant
            n == list.len(),
            i <= n,
            forall|j: int| 0 <= j < i ==> list.deep_view()[j] != item@,
        decreases n - i,
    {
        if list[i] == *item {
            assert(list.deep_view()[i as int] == item@);
            return true;
        }
        i = i + 1;
    }
    assert(!list.deep_view().contains(item@));
    false
}

/// `items` joined with `sep` between each two neighbours.
pub open spec fn joined(items: Seq<Seq<char>>, sep: Seq<char>) -> Seq<char>
    decreases items.len(),
{
    if items.len() == 0 {
        seq![]
    } else if items.len() == 1 {
        items[0]
    } else {
        joined(items.drop_last(), sep) + sep + items.last()
    }
}

/// The strings of `items` joined with `sep` between each two neighbours.
pub fn join_texts(items: &Vec<String>, sep: &str) -> (text: String)
    ensures
        text@ == joined(items.deep_view(), sep@),
        items.len() == 0 ==> text@ == Seq::<char>::empty(),
        items.len() == 1 ==> text@ == items[0]@,
        items.len() == 2 ==> text@ == items[0]@ + sep@ + items[1]@,
{
    proof {
        lemma_joined_small(items.deep_view(), sep@);
    }
    let mut text = String::new();
    let n = items.len();
    let ghost all = items.deep_view();
    let mut i: usize = 0;
    while i < n
        invariant
            n == items.len(),
            all == items.deep_view(),
            i <= n,
            text@ == joined(all.take(i as int), sep@),
        decreases n - i,
    {
        if i != 0 {
            text.append(sep);
        }
        text.append(items[i].as_str());
        assert(all.take(i + 1).drop_last() =~= all.take(i as int));
        assert(all.take(i + 1).last() == all[i as int]);
        i = i + 1;
    }
    assert(all.take(n as int) =~= all);
    text
}

/// The one-character string of the decimal digit `d`.
fn digit_str(d: u64) -> (s: &'static str)
    requires
        d < 10,
    ensures
        s@ == seq![digit_char(d as nat)],
{
    proof {
        reveal_strlit("0");
        reveal_strlit("1");
        reveal_strlit("2");
        reveal_strlit("3");
        reveal_strlit("4");
        reveal_strlit("5");
        reveal_strlit("6");
        reveal_strlit("7");
        reveal_strlit("8");
        reveal_strlit("9");
    }
    if d == 0 {
        "0"
    } else if d == 1 {
        "1"
    } else if d == 2 {
        "2"
    } else if d == 3 {
        "3"
    } else if d == 4 {
        "4"
    } else if d == 5 {
        "5"
    } else if d == 6 {
        "6"
    } else if d == 7 {
        "7"
    } else if d == 8 {
        "8"
    } else {
        "9"
    }
}

/// Appends the decimal representation of `n` to `s`.
fn push_decimal(s: &mut String, n: u64)
    ensures
        final(s)@ == old(s)@ + decimal(n as nat),
    decreases n,
{
    if n >= 10 {
        push_decimal(s, n / 10);
    }
    let digit = digit_str(n % 10);
    s.append(digit);
    proof {
        if n >= 10 {
            assert(old(s)@ + decimal(n as nat) =~= old(s)@ + decimal((n / 10) as nat) + seq![digit_char((n % 10) as nat)]);
        } else {
            assert(decimal(n as nat) =~= seq![digit_char((n % 10) as nat)]);
        }
    }
}

/// Appends `n` to `s` in decimal, padded with zeros to two characters.
fn push_two_digits(s: &mut String, n: u64)
    ensures
        final(s)@ == old(s)@ + two_digits(n as nat),
{
    if n < 10 {
        proof {
            reveal_strlit("0");
        }
        s.append("0");
    }
    push_decimal(s, n);
    proof {
        if n < 10 {
            assert(decimal(n as nat) =~= seq![digit_char(n as nat)]);
            assert(old(s)@ + two_digits(n as nat) =~= old(s)@ + "0"@ + decimal(n as nat));
        }
    }
}

/// `seconds` written as `MM:SS`: the whole minutes and the remaining seconds, each in
/// decimal and padded with zeros to two digits.
pub fn format_clock(seconds: u64) -> (text: String)
    ensures
        text@ == clock_text(seconds as nat),
        clock_parts(text@, seconds as nat),
{
    proof {
        lemma_clock_text_parts(seconds as nat);
    }
    let minutes = seconds / 60;
    let remaining_seconds = seconds % 60;
    let mut text = String::new();
    push_two_digits(&mut text, minutes);
    proof {
        reveal_strlit(":");
    }
    text.append(":");
    push_two_digits(&mut text, remaining_seconds);
    assert(text@ =~= clock_text(seconds as nat));
    text
}

/// A duration written as `MM:SS`, from its whole seconds.
pub fn pretty_time(dur: Duration) -> (text: String)
    ensures
        text@ == clock_text(whole_secs(duration_nanos(dur))),
{
    let seconds = duration_as_secs(&dur);
    format_clock(seconds)
}

/// What the rich presence shows for an item: "Listening to <subtitle>" for audio, the
/// subtitle itself for mixed media. Video is not handled yet.
pub fn get_action_string(activity_type: &MediaType, subtitle: String) -> (text: String)
    requires
        *activity_type != MediaType::VIDEO,
    ensures
        text@ == action_text(*activity_type, subtitle@),
        *activity_type == MediaType::AUDIO ==> text@ == "Listening to "@ + subtitle@,
        *activity_type == MediaType::MIXED ==> text@ == subtitle@,
{
    match activity_type {
        MediaType::AUDIO => {
            let mut text = String::from_str("Listening to ");
            text.append(subtitle.as_str());
            text
        },
        _ => subtitle.clone(),
    }
}

/// The sign for a playback status: a pause sign for "paused", a play sign for "playing",
/// and nothing for any other status.
pub fn get_playback_sign(status: &str) -> (sign: &str)
    ensures
        sign@ == playback_sign_text(status@),
        status@ == "paused"@ ==> sign@ == "⏸︎"@,
        status@ == "playing"@ ==> sign@ == "⏵︎"@,
        status@ != "paused"@ && status@ != "playing"@ ==> sign@ == ""@,
{
    proof {
        reveal_strlit("paused");
        reveal_strlit("playing");
        assert("paused"@[1] != "playing"@[1]);
    }
    if str_eq(status, "paused") {
        "⏸︎"
    } else if str_eq(status, "playing") {
        "⏵︎"
    } else {
        ""
    }
}

} // verus!

verus! {

/// A number below one hundred has the two decimal digits of its tens and its units.
proof fn lemma_decimal_below_hundred(n: nat)
    requires
        10 <= n < 100,
    ensures
        decimal(n) == seq![digit_char(n / 10), digit_char(n % 10)],
{
    assert(decimal(n / 10) == seq![digit_char(n / 10)]);
    assert(decimal(n) =~= seq![digit_char(n / 10), digit_char(n % 10)]);
}

/// The seconds of a clock text always take exactly two digits after the colon: the tens
/// and the units of the seconds past the whole minutes.
pub proof fn lemma_clock_seconds_two_digits(seconds: nat)
    ensures
        clock_text(seconds).len() >= 5,
        clock_text(seconds).subrange(
            clock_text(seconds).len() - 3,
            clock_text(seconds).len() as int,
        ) == seq![':', digit_char((seconds % 60) / 10), digit_char((seconds % 60) % 10)],
{
    let m = seconds / 60;
    let s = seconds % 60;
    if s >= 10 {
        lemma_decimal_below_hundred(s);
    }
    assert(two_digits(s) == seq![digit_char(s / 10), digit_char(s % 10)]);
    lemma_decimal_len_at_least_one(m);
    assert(two_digits(m).len() >= 2);
    let t = clock_text(seconds);
    assert(t =~= two_digits(m) + seq![':'] + two_digits(s));
    assert(t.subrange(t.len() - 3, t.len() as int) =~= seq![':'] + two_digits(s));
}

/// Every number has at least one decimal digit, and two from ten on.
proof fn lemma_decimal_len_at_least_one(n: nat)
    ensures
        decimal(n).len() >= 1,
        n >= 10 ==> decimal(n).len() >= 2,
    decreases n,
{
    if n >= 10 {
        lemma_decimal_len_at_least_one(n / 10);
    }
}

} // verus!

verus! {

/// The number that a decimal digit character stands for.
pub open spec fn digit_value(c: char) -> int {
    (c as int) - ('0' as int)
}

/// Whether every character of `s` is a decimal digit.
pub open spec fn all_digits(s: Seq<char>) -> bool {
    forall|i: int| 0 <= i < s.len() ==> 0 <= #[trigger] digit_value(s[i]) <= 9
}

/// The number that a string of decimal digits stands for.
pub open spec fn decimal_value(s: Seq<char>) -> int
    decreases s.len(),
{
    if s.len() == 0 {
        0
    } else {
        decimal_value(s.drop_last()) * 10 + digit_value(s.last())
    }
}

/// Whether `text` is `seconds` written as minutes, a colon and seconds: at least two digits
/// for the whole minutes, exactly two for the seconds past them.
pub open spec fn clock_parts(text: Seq<char>, seconds: nat) -> bool {
    let n = text.len() as int;
    &&& n >= 5
    &&& text[n - 3] == ':'
    &&& all_digits(text.subrange(0, n - 3))
    &&& all_digits(text.subrange(n - 2, n))
    &&& decimal_value(text.subrange(0, n - 3)) == seconds / 60
    &&& decimal_value(text.subrange(n - 2, n)) == seconds % 60
}

/// A digit character stands for its digit.
proof fn lemma_digit_char_value(d: nat)
    requires
        d < 10,
    ensures
        digit_value(digit_char(d)) == d,
{
}

/// The decimal representation of `n` is made of digits, stands for `n`, and starts with a
/// zero only when `n` is zero.
pub proof fn lemma_decimal_value(n: nat)
    ensures
        all_digits(decimal(n)),
        decimal_value(decimal(n)) == n,
        decimal(n).len() >= 1,
        n > 0 ==> decimal(n)[0] != '0',
    decreases n,
{
    lemma_digit_char_value(n % 10);
    if n < 10 {
        lemma_digit_char_value(n);
        assert(decimal(n).drop_last() =~= Seq::<char>::empty());
        assert(decimal_value(Seq::<char>::empty()) == 0);
        assert(decimal(n).last() == digit_char(n));
    } else {
        lemma_decimal_value(n / 10);
        let d = decimal(n);
        assert(d.drop_last() =~= decimal(n / 10));
        assert forall|i: int| 0 <= i < d.len() implies 0 <= #[trigger] digit_value(d[i]) <= 9 by {
            if i < d.len() - 1 {
                assert(d[i] == decimal(n / 10)[i]);
            }
        }
        assert(d[0] == decimal(n / 10)[0]);
        assert(d.last() == digit_char(n % 10));
        assert(decimal_value(d) == decimal_value(decimal(n / 10)) * 10 + digit_value(d.last()));
        assert((n / 10) * 10 + n % 10 == n);
    }
}

/// Two-digit padding keeps the number: the padded text is made of at least two digits and
/// stands for `n`, and for `n` below one hundred it has exactly two.
pub proof fn lemma_two_digits_value(n: nat)
    ensures
        all_digits(two_digits(n)),
        decimal_value(two_digits(n)) == n,
        two_digits(n).len() >= 2,
        n < 100 ==> two_digits(n).len() == 2,
{
    lemma_decimal_value(n);
    if n < 10 {
        lemma_digit_char_value(n);
        let t = two_digits(n);
        assert(t.drop_last() =~= seq!['0']);
        assert(seq!['0'].drop_last() =~= Seq::<char>::empty());
        assert(digit_value('0') == 0);
        assert(decimal_value(Seq::<char>::empty()) == 0);
        assert(seq!['0'].last() == '0');
        assert(decimal_value(seq!['0']) == 0);
        assert(decimal_value(t) == decimal_value(t.drop_last()) * 10 + digit_value(t.last()));
    } else {
        lemma_decimal_len_at_least_one(n);
        if n < 100 {
            lemma_decimal_below_hundred(n);
        }
    }
}

/// A clock text is the whole minutes in at least two digits, a colon, and the seconds past
/// them in exactly two digits.
pub proof fn lemma_clock_text_parts(seconds: nat)
    ensures
        clock_parts(clock_text(seconds), seconds),
{
    let m = seconds / 60;
    let s = seconds % 60;
    lemma_two_digits_value(m);
    lemma_two_digits_value(s);
    let t = clock_text(seconds);
    let n = t.len() as int;
    assert(t.subrange(0, n - 3) =~= two_digits(m));
    assert(t.subrange(n - 2, n) =~= two_digits(s));
    assert(t[n - 3] == ':');
}

/// Joining nothing gives nothing, joining one string gives that string, and joining two
/// puts the separator between them.
pub proof fn lemma_joined_small(items: Seq<Seq<char>>, sep: Seq<char>)
    ensures
        items.len() == 0 ==> joined(items, sep) == Seq::<char>::empty(),
        items.len() == 1 ==> joined(items, sep) == items[0],
        items.len() == 2 ==> joined(items, sep) == items[0] + sep + items[1],
{
    if items.len() == 2 {
        assert(items.drop_last() =~= seq![items[0]]);
        assert(joined(items.drop_last(), sep) == items[0]);
    }
}

/// Joining one more string appends the separator and that string, unless nothing was
/// joined before.
pub proof fn lemma_joined_push(items: Seq<Seq<char>>, item: Seq<char>, sep: Seq<char>)
    ensures
        items.len() == 0 ==> joined(items.push(item), sep) == item,
        items.len() > 0 ==> joined(items.push(item), sep) == joined(items, sep) + sep + item,
{
    assert(items.push(item).drop_last() =~= items);
}

/// The action text of audio is "Listening to " before the subtitle; that of any other media
/// is the subtitle itself.
pub proof fn lemma_action_text(media_type: MediaType, subtitle: Seq<char>)
    ensures
        media_type == MediaType::AUDIO ==> action_text(media_type, subtitle) == "Listening to "@
            + subtitle,
        media_type != MediaType::AUDIO ==> action_text(media_type, subtitle) == subtitle,
{
}

/// "paused" gets the pause sign, "playing" the play sign, and every other status none.
pub proof fn lemma_playback_signs(status: Seq<char>)
    ensures
        status == "paused"@ ==> playback_sign_text(status) == "⏸︎"@,
        status == "playing"@ ==> playback_sign_text(status) == "⏵︎"@,
        status != "paused"@ && status != "playing"@ ==> playback_sign_text(status) == ""@,
{
    reveal_strlit("paused");
    reveal_strlit("playing");
    assert("paused"@[1] != "playing"@[1]);
}

} // verus!
