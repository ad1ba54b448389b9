//! Output-path generation: the timestamped default filename and the rules
//! for resolving the user's output argument against it.

use vstd::prelude::*;
use vstd::string::{StrSliceExecFns, StringExecFns};
use crate::errors::Error;

verus! {

/// A wall-clock time, split into plain calendar fields.
#[derive(Clone, Copy, Debug, PartialEq, Eq, Structural)]
pub struct Timestamp {
    pub year: i32,
    pub month: u32,
    pub day: u32,
    pub hour: u32,
    pub minute: u32,
    pub second: u32,
}

impl Timestamp {
    /// The field ranges every wall-clock reading satisfies.
    pub open spec fn wf(self) -> bool {
        &&& 1 <= self.month <= 12
        &&& 1 <= self.day <= 31
        &&& self.hour <= 23
        &&& self.minute <= 59
        &&& self.second <= 59
    }
}

/// The character of one decimal digit.
pub open spec fn digit_char(d: int) -> char {
    if d == 0 {
        '0'
    } else if d == 1 {
        '1'
    } else if d == 2 {
        '2'
    } else if d == 3 {
        '3'
    } else if d == 4 {
        '4'
    } else if d == 5 {
        '5'
    } else if d == 6 {
        '6'
    } else if d == 7 {
        '7'
    } else if d == 8 {
        '8'
    } else {
        '9'
    }
}

/// The decimal digits of a number, most significant first, without
/// leading zeros.
pub open spec fn dec_digits(n: nat) -> Seq<char>
    decreases n,
{
    if n < 10 {
        seq![digit_char(n as int)]
    } else {
        dec_digits(n / 10) + seq![digit_char((n % 10) as int)]
    }
}

/// The decimal digits of a number, zero-padded to at least two places.
pub open spec fn padded2(n: nat) -> Seq<char> {
    if n < 10 {
        seq!['0'] + dec_digits(n)
    } else {
        dec_digits(n)
    }
}

/// The decimal digits of a number, zero-padded to at least four places.
pub open spec fn padded4(n: nat) -> Seq<char> {
    if n < 10 {
        seq!['0', '0', '0'] + dec_digits(n)
    } else if n < 100 {
        seq!['0', '0'] + dec_digits(n)
    } else if n < 1000 {
        seq!['0'] + dec_digits(n)
    } else {
        dec_digits(n)
    }
}

/// A year as it appears in the generated filename: at least four digits,
/// with a leading minus sign for years before the epoch.
pub open spec fn year_digits(y: int) -> Seq<char> {
    if y >= 0 {
        padded4(y as nat)
    } else {
        seq!['-'] + padded4((-y) as nat)
    }
}

/// The generated default filename for a capture taken at the given time.
pub open spec fn spec_screenshot_name(t: Timestamp) -> Seq<char> {
    "Screenshot "@ + year_digits(t.year as int) + "-"@ + padded2(t.month as nat) + "-"@ + padded2(
        t.day as nat,
    ) + " "@ + padded2(t.hour as nat) + "-"@ + padded2(t.minute as nat) + "-"@ + padded2(
        t.second as nat,
    ) + ".png"@
}

/// A filename appended to a directory, with exactly one separator between
/// them.
pub open spec fn spec_joined(dir: Seq<char>, name: Seq<char>) -> Seq<char> {
    if dir.len() > 0 && dir.last() == '/' {
        dir + name
    } else {
        dir + seq!['/'] + name
    }
}

/// One decimal digit as a string slice.
fn digit_str(d: u32) -> (r: &'static str)
    requires
        d < 10,
    ensures
        r@ == seq![digit_char(d as int)],
{
    match d {
        0 => {
            proof {
                reveal_strlit("0");
            }
            assert("0"@ =~= seq![digit_char(0)]);
            "0"
        },
        1 => {
            proof {
                reveal_strlit("1");
            }
            assert("1"@ =~= seq![digit_char(1)]);
            "1"
        },
        2 => {
            proof {
                reveal_strlit("2");
            }
            assert("2"@ =~= seq![digit_char(2)]);
            "2"
        },
        3 => {
            proof {
                reveal_strlit("3");
            }
            assert("3"@ =~= seq![digit_char(3)]);
            "3"
        },
        4 => {
            proof {
                reveal_strlit("4");
            }
            assert("4"@ =~= seq![digit_char(4)]);
            "4"
        },
        5 => {
            proof {
                reveal_strlit("5");
            }
            assert("5"@ =~= seq![digit_char(5)]);
            "5"
        },
        6 => {
            proof {
                reveal_strlit("6");
            }
            assert("6"@ =~= seq![digit_char(6)]);
            "6"
        },
        7 => {
            proof {
                reveal_strlit("7");
            }
            assert("7"@ =~= seq![digit_char(7)]);
            "7"
        },
        8 => {
            proof {
                reveal_strlit("8");
            }
            assert("8"@ =~= seq![digit_char(8)]);
            "8"
        },
        _ => {
            proof {
                reveal_strlit("9");
            }
            assert("9"@ =~= seq![digit_char(9)]);
            "9"
        },
    }
}

/// A number in decimal, without leading zeros.
pub fn dec_string(n: u32) -> (r: String)
    ensures
        r@ == dec_digits(n as nat),
    decreases n,
{
    if n < 10 {
        digit_str(n).to_owned()
    } else {
        assert(n / 10 < n);
        let prefix = dec_string(n / 10);
        prefix.concat(digit_str(n % 10))
    }
}

/// A number in decimal, zero-padded to at least two places.
pub fn two_digit_string(n: u32) -> (r: String)
    ensures
        r@ == padded2(n as nat),
{
    if n < 10 {
        proof {
            reveal_strlit("0");
        }
        let r = "0".to_owned().concat(digit_str(n));
        assert(r@ =~= padded2(n as nat));
        r
    } else {
        dec_string(n)
    }
}

/// A number in decimal, zero-padded to at least four places.
fn four_digit_string(n: u32) -> (r: String)
    ensures
        r@ == padded4(n as nat),
{
    if n < 10 {
        proof {
            reveal_strlit("000");
        }
        let r = "000".to_owned().concat(digit_str(n));
        assert(r@ =~= padded4(n as nat));
        r
    } else if n < 100 {
        proof {
            reveal_strlit("00");
        }
        let r = "00".to_owned().concat(dec_string(n).as_str());
        assert(r@ =~= padded4(n as nat));
        r
    } else if n < 1000 {
        proof {
            reveal_strlit("0");
        }
        let r = "0".to_owned().concat(dec_string(n).as_str());
        assert(r@ =~= padded4(n as nat));
        r
    } else {
        dec_string(n)
    }
}

/// A year as it appears in the generated filename.
pub fn year_string(y: i32) -> (r: String)
    ensures
        r@ == year_digits(y as int),
{
    if y < 0 {
        let m: u32 = (-(y as i64)) as u32;
        proof {
            reveal_strlit("-");
        }
        let r = "-".to_owned().concat(four_digit_string(m).as_str());
        assert(r@ =~= year_digits(y as int));
        r
    } else {
        four_digit_string(y as u32)
    }
}

/// Generate the default filename for a capture taken at the given time:
/// `Screenshot YYYY-MM-DD HH-MM-SS.png`.
pub fn screenshot_file_name(t: &Timestamp) -> (r: String)
    requires
        t.wf(),
    ensures
        r@ == spec_screenshot_name(*t),
{
    let mut s = "Screenshot ".to_owned();
    s.append(year_string(t.year).as_str());
    s.append("-");
    s.append(two_digit_string(t.month).as_str());
    s.append("-");
    s.append(two_digit_string(t.day).as_str());
    s.append(" ");
    s.append(two_digit_string(t.hour).as_str());
    s.append("-");
    s.append(two_digit_string(t.minute).as_str());
    s.append("-");
    s.append(two_digit_string(t.second).as_str());
    s.append(".png");
    proof {
        assert(s@ =~= spec_screenshot_name(*t));
    }
    s
}

/// Append a filename to a directory path, inserting a separator unless
/// the directory already ends in one.
pub fn join_path(dir: &str, name: &str) -> (r: String)
    ensures
        r@ == spec_joined(dir@, name@),
{
    let n = dir.unicode_len();
    if n > 0 && dir.get_char(n - 1) == '/' {
        let r = dir.to_owned().concat(name);
        proof {
            assert(r@ =~= spec_joined(dir@, name@));
        }
        r
    } else {
        proof {
            reveal_strlit("/");
        }
        let r = dir.to_owned().concat("/").concat(name);
        proof {
            assert(r@ =~= spec_joined(dir@, name@));
        }
        r
    }
}

/// The base the output path is resolved against: the explicit argument
/// when one was given, otherwise the home directory; with neither, the
/// path is invalid.
pub fn output_base(arg: Option<String>, home: Option<String>) -> (r: Result<String, Error>)
    ensures
        arg matches Some(p) ==> r == Ok::<String, Error>(p),
        arg is None ==> (home matches Some(h) ==> r == Ok::<String, Error>(h)),
        arg is None && home is None ==> r == Err::<String, Error>(Error::InvalidPath),
{
    match arg {
        Some(p) => Ok(p),
        None => match home {
            Some(h) => Ok(h),
            None => Err(Error::InvalidPath),
        },
    }
}

/// Resolve the chosen base against the capture time: a directory gets the
/// generated filename appended; anything else is used unmodified.
pub fn resolve_output(base: String, base_is_dir: bool, t: &Timestamp) -> (r: String)
    requires
        t.wf(),
    ensures
        base_is_dir ==> r@ == spec_joined(base@, spec_screenshot_name(*t)),
        !base_is_dir ==> r == base,
{
    if base_is_dir {
        let name = screenshot_file_name(t);
        join_path(base.as_str(), name.as_str())
    } else {
        base
    }
}

/// Relies on chrono::Local::now and its Datelike and Timelike accessors:
/// the month is 1 to 12, the day 1 to 31, the hour 0 to 23, and the
/// minute and second 0 to 59.
#[verifier::external_body]
fn local_timestamp_now() -> (t: Timestamp)
    ensures
        t.wf(),
{
    let now = chrono::Local::now();
    Timestamp {
        year: chrono::Datelike::year(&now),
        month: chrono::Datelike::month(&now),
        day: chrono::Datelike::day(&now),
        hour: chrono::Timelike::hour(&now),
        minute: chrono::Timelike::minute(&now),
        second: chrono::Timelike::second(&now),
    }
}

/// Resolve the chosen base against the wall clock: a directory gets a
/// generated filename for some valid reading of the clock; anything else
/// is used unmodified.
pub fn resolve_output_now(base: String, base_is_dir: bool) -> (r: String)
    ensures
        base_is_dir ==> exists|t: Timestamp|
            t.wf() && r@ == spec_joined(base@, spec_screenshot_name(t)),
        !base_is_dir ==> r == base,
{
    let t = local_timestamp_now();
    let r = resolve_output(base, base_is_dir, &t);
    proof {
        if base_is_dir {
            assert(t.wf() && r@ == spec_joined(base@, spec_screenshot_name(t)));
        }
    }
    r
}

/// Law: a path resolved against a directory lies under that directory:
/// the directory is a prefix of the result and the generated name is its
/// suffix, with only a separator in between.
pub proof fn lemma_joined_under_dir(dir: Seq<char>, name: Seq<char>)
    ensures
        spec_joined(dir, name).len() >= dir.len() + name.len(),
        spec_joined(dir, name).subrange(0, dir.len() as int) == dir,
        spec_joined(dir, name).subrange(
            spec_joined(dir, name).len() - name.len(),
            spec_joined(dir, name).len() as int,
        ) == name,
{
    let j = spec_joined(dir, name);
    assert(j.subrange(0, dir.len() as int) =~= dir);
    assert(j.subrange(j.len() - name.len(), j.len() as int) =~= name);
}

} // verus!
