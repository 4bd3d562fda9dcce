//! Names for captured frames: `output_`, the local date and time, `.png`.
//!
//! Reading the clock is left to the caller, who hands the date and time over
//! as text. [`stamped_file_name`] takes the text only in the shape
//! `2019-03-09_17-05-59`, so that a name never holds anything but the letters
//! of `output` and `png`, digits, `_`, `-`, `+` and `.`.

use vstd::prelude::*;

verus! {

/// The file name for a frame captured at the time that `stamp` spells out.
pub open spec fn capture_name(stamp: Seq<char>) -> Seq<char> {
    "output_"@ + stamp + ".png"@
}

/// One of the ten digits.
pub open spec fn is_digit(symbol: char) -> bool {
    '0' <= symbol && symbol <= '9'
}

/// Nothing but digits.
pub open spec fn all_digits(text: Seq<char>) -> bool {
    forall|place: int| 0 <= place < text.len() ==> is_digit(#[trigger] text[place])
}

/// A year, written as calendars are: the years 0 to 9999 with four digits and
/// no sign; a later year with `+` and its five or more digits; an earlier one
/// with `-` and its digits, filled up with zeros to four.
pub open spec fn is_year(text: Seq<char>) -> bool {
    if text.len() <= 4 {
        text.len() == 4 && all_digits(text)
    } else {
        &&& text[0] == '+' || text[0] == '-'
        &&& all_digits(text.skip(1))
        &&& text.len() > 5 ==> text[1] != '0'
        &&& text[0] == '+' ==> text.len() > 5
        &&& text.len() == 5 ==> text.skip(1) != seq!['0', '0', '0', '0']
    }
}

/// What follows the year in a time stamp: `-mm-dd_HH-MM-SS`, two digits each.
pub open spec fn is_day_and_time(text: Seq<char>) -> bool {
    &&& text.len() == 15
    &&& text[0] == '-' && is_digit(text[1]) && is_digit(text[2])
    &&& text[3] == '-' && is_digit(text[4]) && is_digit(text[5])
    &&& text[6] == '_' && is_digit(text[7]) && is_digit(text[8])
    &&& text[9] == '-' && is_digit(text[10]) && is_digit(text[11])
    &&& text[12] == '-' && is_digit(text[13]) && is_digit(text[14])
}

/// A date and a time of day in the shape `2019-03-09_17-05-59`: year, month
/// and day with hyphens, an underscore, then hour, minute and second with
/// hyphens. Only the shape is asked for, not that the month is one of twelve.
pub open spec fn is_time_stamp(stamp: Seq<char>) -> bool {
    &&& stamp.len() >= 19
    &&& is_year(stamp.take(stamp.len() - 15))
    &&& is_day_and_time(stamp.skip(stamp.len() - 15))
}

/// The file name for a frame captured at the time that `stamp` spells out.
/// The stamp is taken as it is.
pub fn capture_file_name(stamp: &str) -> (name: String)
    ensures
        name@ == capture_name(stamp@),
{
    let mut name = String::from_str("output_");
    name.append(stamp);
    name.append(".png");
    name
}

fn symbols_of(text: &str) -> (symbols: Vec<char>)
    ensures
        symbols@ == text@,
{
    let length = text.unicode_len();
    let mut symbols: Vec<char> = Vec::new();
    let mut place: usize = 0;
    while place < length
        invariant
            length == text@.len(),
            place <= length,
            symbols@ == text@.take(place as int),
        decreases length - place,
    {
        symbols.push(text.get_char(place));
        place += 1;
        assert(symbols@ =~= text@.take(place as int));
    }
    assert(text@.take(length as int) =~= text@);
    symbols
}

fn digit(symbol: char) -> (yes: bool)
    ensures
        yes == is_digit(symbol),
{
    '0' <= symbol && symbol <= '9'
}

fn digits_between(symbols: &Vec<char>, from: usize, to: usize) -> (yes: bool)
    requires
        from <= to <= symbols@.len(),
    ensures
        yes == all_digits(symbols@.subrange(from as int, to as int)),
{
    let mut place: usize = from;
    while place < to
        invariant
            from <= place <= to <= symbols@.len(),
            all_digits(symbols@.subrange(from as int, place as int)),
        decreases to - place,
    {
        if !digit(symbols[place]) {
            assert(symbols@.subrange(from as int, to as int)[place - from] == symbols@[place as int]);
            return false;
        }
        place += 1;
        assert forall|k: int| 0 <= k < place - from implies is_digit(
            #[trigger] symbols@.subrange(from as int, place as int)[k],
        ) by {
            if k < place - from - 1 {
                assert(symbols@.subrange(from as int, place as int)[k] == symbols@.subrange(
                    from as int,
                    place - 1,
                )[k]);
            }
        }
    }
    true
}

fn year_shape(symbols: &Vec<char>, length: usize) -> (yes: bool)
    requires
        length <= symbols@.len(),
    ensures
        yes == is_year(symbols@.take(length as int)),
{
    let ghost year = symbols@.take(length as int);
    assert(year =~= symbols@.subrange(0, length as int));
    if length <= 4 {
        return length == 4 && digits_between(symbols, 0, length);
    }
    assert(year.skip(1) =~= symbols@.subrange(1, length as int));
    let signed = symbols[0] == '+' || symbols[0] == '-';
    let padded = length > 5 && symbols[1] == '0';
    let short_plus = symbols[0] == '+' && length == 5;
    let zero = length == 5 && symbols[1] == '0' && symbols[2] == '0' && symbols[3] == '0'
        && symbols[4] == '0';
    proof {
        if length == 5 {
            let digits = year.skip(1);
            assert(digits.len() == 4);
            assert(digits[0] == symbols@[1] && digits[1] == symbols@[2] && digits[2] == symbols@[3]
                && digits[3] == symbols@[4]);
            if zero {
                assert(digits =~= seq!['0', '0', '0', '0']);
            } else {
                let zeros = seq!['0', '0', '0', '0'];
                assert(zeros[0] == '0' && zeros[1] == '0' && zeros[2] == '0' && zeros[3] == '0');
            }
        }
    }
    signed && !padded && !short_plus && !zero && digits_between(symbols, 1, length)
}

fn day_and_time_shape(symbols: &Vec<char>, from: usize) -> (yes: bool)
    requires
        from + 15 == symbols@.len(),
        from + 15 <= usize::MAX,
    ensures
        yes == is_day_and_time(symbols@.skip(from as int)),
{
    let ghost tail = symbols@.skip(from as int);
    assert(forall|k: int| 0 <= k < 15 ==> tail[k] == symbols@[from + k]);
    symbols[from] == '-' && digit(symbols[from + 1]) && digit(symbols[from + 2])
        && symbols[from + 3] == '-' && digit(symbols[from + 4]) && digit(symbols[from + 5])
        && symbols[from + 6] == '_' && digit(symbols[from + 7]) && digit(symbols[from + 8])
        && symbols[from + 9] == '-' && digit(symbols[from + 10]) && digit(symbols[from + 11])
        && symbols[from + 12] == '-' && digit(symbols[from + 13]) && digit(symbols[from + 14])
}

/// Whether `stamp` spells a date and a time in the shape
/// `2019-03-09_17-05-59`.
pub fn check_time_stamp(stamp: &str) -> (yes: bool)
    ensures
        yes == is_time_stamp(stamp@),
{
    let symbols = symbols_of(stamp);
    let length = symbols.len();
    if length < 19 {
        return false;
    }
    year_shape(&symbols, length - 15) && day_and_time_shape(&symbols, length - 15)
}

/// The file name for a frame captured at the date and time that `stamp`
/// spells; none for a text that is no time stamp.
pub fn stamped_file_name(stamp: &str) -> (name: Option<String>)
    ensures
        name is Some <==> is_time_stamp(stamp@),
        name is Some ==> name->0@ == capture_name(stamp@),
{
    if check_time_stamp(stamp) {
        Some(capture_file_name(stamp))
    } else {
        None
    }
}

/// A capture name gives its time stamp back: cut off the seven characters in
/// front and the four at the end.
pub proof fn stamp_is_recoverable(stamp: Seq<char>)
    ensures
        capture_name(stamp).len() == stamp.len() + 11,
        capture_name(stamp).subrange(7, 7 + stamp.len() as int) == stamp,
        capture_name(stamp).subrange(0, 7) == "output_"@,
        capture_name(stamp).subrange(7 + stamp.len() as int, 11 + stamp.len() as int) == ".png"@,
{
    reveal_strlit("output_");
    reveal_strlit(".png");
    assert(capture_name(stamp).subrange(7, 7 + stamp.len() as int) =~= stamp);
    assert(capture_name(stamp).subrange(0, 7) =~= "output_"@);
    assert(capture_name(stamp).subrange(7 + stamp.len() as int, 11 + stamp.len() as int)
        =~= ".png"@);
}

/// Frames captured at different times get different names.
pub proof fn names_differ_with_stamps(first: Seq<char>, second: Seq<char>)
    requires
        capture_name(first) == capture_name(second),
    ensures
        first == second,
{
    stamp_is_recoverable(first);
    stamp_is_recoverable(second);
}

/// A time stamp is made of digits, hyphens, one underscore and at most one
/// plus sign.
pub proof fn time_stamp_alphabet(stamp: Seq<char>, place: int)
    requires
        is_time_stamp(stamp),
        0 <= place < stamp.len(),
    ensures
        is_digit(stamp[place]) || stamp[place] == '-' || stamp[place] == '_' || stamp[place] == '+',
{
    let cut = stamp.len() - 15;
    let year = stamp.take(cut);
    let tail = stamp.skip(cut);
    if place < cut {
        assert(year[place] == stamp[place]);
        if year.len() > 4 && place >= 1 {
            assert(year.skip(1)[place - 1] == year[place]);
        }
    } else {
        assert(tail[place - cut] == stamp[place]);
    }
}

/// The name of a frame captured at a time stamp is a plain file name: it has
/// no path separator in it, so the file lands in the working directory.
pub proof fn stamped_name_is_plain(stamp: Seq<char>, place: int)
    requires
        is_time_stamp(stamp),
        0 <= place < capture_name(stamp).len(),
    ensures
        capture_name(stamp)[place] != '/',
        capture_name(stamp)[place] != '\\',
{
    reveal_strlit("output_");
    reveal_strlit(".png");
    if 7 <= place < 7 + stamp.len() {
        time_stamp_alphabet(stamp, place - 7);
    }
}

} // verus!
