//! Output file naming.
//!
//! A recording without an explicit output path gets a deterministic
//! timestamped name. Sidecar files and transcoded outputs swap the
//! container suffix of the recording's path.

use vstd::prelude::*;

verus! {

/// A local calendar time, broken into its fields.
pub struct Timestamp {
    pub year: i32,
    pub month: u32,
    pub day: u32,
    pub hour: u32,
    pub minute: u32,
    pub second: u32,
}

impl Timestamp {
    /// Field ranges of a calendar time.
    pub open spec fn wf(self) -> bool {
        &&& 1 <= self.month <= 12
        &&& 1 <= self.day <= 31
        &&& self.hour <= 23
        &&& self.minute <= 59
        &&& self.second <= 59
    }
}

/// Relies on chrono's `Local::now` and its `Datelike` / `Timelike`
/// accessors, whose documentation fixes the ranges: month 1 to 12,
/// day 1 to 31, hour 0 to 23, minute and second 0 to 59. The result
/// depends on the clock, so nothing else is promised of it.
#[verifier::external_body]
pub fn local_timestamp() -> (r: Timestamp)
    ensures
        r.wf(),
{
    let now = chrono::Local::now();
    Timestamp {
        year: chrono::Datelike::year(&now),
        month: chrono::Datelike::month(&now),
        day: chrono::Datelike::day(&now),
        hour: chrono::Timelike::hour(&now),
        minute: chrono::Timelike::minute(&now),
        second: chrono::Timelike::second(&now),
    }
}

/// The decimal digit character for `d`.
pub open spec fn digit_char(d: int) -> char {
    if d == 0 {
        '0'
    } else if d == 1 {
        '1'
    } else if d == 2 {
        '2'
    } else if d == 3 {
        '3'
    } else if d == 4 {
        '4'
    } else if d == 5 {
        '5'
    } else if d == 6 {
        '6'
    } else if d == 7 {
        '7'
    } else if d == 8 {
        '8'
    } else {
        '9'
    }
}

/// Two decimal digits, zero padded.
pub open spec fn two_digit_chars(n: int) -> Seq<char> {
    seq![digit_char(n / 10), digit_char(n % 10)]
}

/// Four decimal digits, zero padded.
pub open spec fn four_digit_chars(n: int) -> Seq<char> {
    two_digit_chars(n / 100) + two_digit_chars(n % 100)
}

fn push_digit(s: &mut String, d: u32)
    requires
        d < 10,
    ensures
        final(s)@ == old(s)@.push(digit_char(d as int)),
{
    let part: &str = match d {
        0 => "0",
        1 => "1",
        2 => "2",
        3 => "3",
        4 => "4",
        5 => "5",
        6 => "6",
        7 => "7",
        8 => "8",
        _ => "9",
    };
    proof {
        reveal_strlit("0");
        reveal_strlit("1");
        reveal_strlit("2");
        reveal_strlit("3");
        reveal_strlit("4");
        reveal_strlit("5");
        reveal_strlit("6");
        reveal_strlit("7");
        reveal_strlit("8");
        reveal_strlit("9");
    }
    s.append(part);
    proof {
        assert(s@ =~= old(s)@.push(digit_char(d as int)));
    }
}

fn push_two_digits(s: &mut String, n: u32)
    requires
        n < 100,
    ensures
        final(s)@ == old(s)@ + two_digit_chars(n as int),
{
    push_digit(s, n / 10);
    push_digit(s, n % 10);
    proof {
        assert(s@ =~= old(s)@ + two_digit_chars(n as int));
    }
}

fn push_four_digits(s: &mut String, n: u32)
    requires
        n < 10000,
    ensures
        final(s)@ == old(s)@ + four_digit_chars(n as int),
{
    push_two_digits(s, n / 100);
    push_two_digits(s, n % 100);
    proof {
        assert(s@ =~= old(s)@ + four_digit_chars(n as int));
    }
}

/// The year clamped to four digits.
pub open spec fn spec_file_year(year: int) -> int {
    if year < 0 {
        0
    } else if year > 9999 {
        9999
    } else {
        year
    }
}

/// The default name of a recording started at `t`:
/// `zureshot_YYYYMMDD_HHMMSS.mp4`, every field zero padded.
pub fn recording_file_name(t: &Timestamp) -> (r: String)
    requires
        t.wf(),
    ensures
        r@ == "zureshot_"@ + four_digit_chars(spec_file_year(t.year as int)) + two_digit_chars(
            t.month as int,
        ) + two_digit_chars(t.day as int) + seq!['_'] + two_digit_chars(t.hour as int)
            + two_digit_chars(t.minute as int) + two_digit_chars(t.second as int) + ".mp4"@,
{
    let year: u32 = if t.year < 0 {
        0
    } else if t.year > 9999 {
        9999
    } else {
        t.year as u32
    };
    let mut name = String::from_str("zureshot_");
    push_four_digits(&mut name, year);
    push_two_digits(&mut name, t.month);
    push_two_digits(&mut name, t.day);
    name.append("_");
    proof {
        reveal_strlit("_");
    }
    push_two_digits(&mut name, t.hour);
    push_two_digits(&mut name, t.minute);
    push_two_digits(&mut name, t.second);
    name.append(".mp4");
    proof {
        assert("_"@ =~= seq!['_']);
        assert(name@ =~= "zureshot_"@ + four_digit_chars(spec_file_year(t.year as int))
            + two_digit_chars(t.month as int) + two_digit_chars(t.day as int) + seq!['_']
            + two_digit_chars(t.hour as int) + two_digit_chars(t.minute as int) + two_digit_chars(
            t.second as int,
        ) + ".mp4"@);
    }
    name
}

/// The path ends in the recording container suffix `.mp4`.
pub open spec fn has_mp4_suffix(s: Seq<char>) -> bool {
    s.len() >= 4 && s.subrange(s.len() - 4, s.len() as int) == seq!['.', 'm', 'p', '4']
}

/// Swap a trailing `.mp4` for `replacement`; a path without that
/// suffix is returned unchanged.
fn swap_mp4_suffix(path: &str, replacement: &str) -> (r: String)
    ensures
        has_mp4_suffix(path@) ==> r@ == path@.subrange(0, path@.len() - 4) + replacement@,
        !has_mp4_suffix(path@) ==> r@ == path@,
{
    let n = path.unicode_len();
    if n >= 4 && path.get_char(n - 4) == '.' && path.get_char(n - 3) == 'm' && path.get_char(
        n - 2,
    ) == 'p' && path.get_char(n - 1) == '4' {
        proof {
            assert(path@.subrange(n - 4, n as int) =~= seq!['.', 'm', 'p', '4']);
        }
        let base = path.substring_char(0, n - 4);
        let out = base.to_owned().concat(replacement);
        out
    } else {
        proof {
            if path@.len() >= 4 && path@.subrange(path@.len() - 4, path@.len() as int) == seq![
                '.',
                'm',
                'p',
                '4',
            ] {
                assert(path@[path@.len() - 4] == '.');
                assert(path@[path@.len() - 3] == 'm');
                assert(path@[path@.len() - 2] == 'p');
                assert(path@[path@.len() - 1] == '4');
            }
        }
        path.to_owned()
    }
}

/// Path of the cursor sidecar written next to a recording:
/// `.mp4` becomes `.cursor.json`.
pub fn cursor_sidecar_path(mp4_path: &str) -> (r: String)
    ensures
        has_mp4_suffix(mp4_path@) ==> r@ == mp4_path@.subrange(0, mp4_path@.len() - 4)
            + ".cursor.json"@,
        !has_mp4_suffix(mp4_path@) ==> r@ == mp4_path@,
{
    swap_mp4_suffix(mp4_path, ".cursor.json")
}

/// Path of the transcoded animated image: `.mp4` becomes `.gif`.
pub fn gif_output_path(mp4_path: &str) -> (r: String)
    ensures
        has_mp4_suffix(mp4_path@) ==> r@ == mp4_path@.subrange(0, mp4_path@.len() - 4) + ".gif"@,
        !has_mp4_suffix(mp4_path@) ==> r@ == mp4_path@,
{
    swap_mp4_suffix(mp4_path, ".gif")
}

} // verus!
