use vstd::prelude::*;

use vstd::string::StrSliceExecFns;

verus! {

/// Whether every position of `s` in `from .. to` holds a decimal digit.
pub open spec fn digits_at(s: Seq<char>, from: int, to: int) -> bool {
    forall|i: int| from <= i < to ==> '0' <= #[trigger] s[i] <= '9'
}

/// The shape of the timestamps this library stamps records with: an RFC 3339
/// date and time at UTC, `YYYY-MM-DDTHH:MM:SS`, then a fraction of exactly
/// 3, 6 or 9 digits where the instant has one, then the offset `+00:00`.
pub open spec fn is_rfc3339_utc(s: Seq<char>) -> bool {
    &&& s.len() >= 25
    &&& digits_at(s, 0, 4)
    &&& s[4] == '-'
    &&& digits_at(s, 5, 7)
    &&& s[7] == '-'
    &&& digits_at(s, 8, 10)
    &&& s[10] == 'T'
    &&& digits_at(s, 11, 13)
    &&& s[13] == ':'
    &&& digits_at(s, 14, 16)
    &&& s[16] == ':'
    &&& digits_at(s, 17, 19)
    &&& (s.len() == 25 || (s[19] == '.' && (s.len() == 29 || s.len() == 32 || s.len() == 35)
        && digits_at(s, 20, s.len() - 6)))
    &&& s[s.len() - 6] == '+'
    &&& s[s.len() - 5] == '0'
    &&& s[s.len() - 4] == '0'
    &&& s[s.len() - 3] == ':'
    &&& s[s.len() - 2] == '0'
    &&& s[s.len() - 1] == '0'
}

/// Relies on `chrono::Utc::now().to_rfc3339()`: for a year between 0 and
/// 9999 it writes the four-digit date and the time as `YYYY-MM-DDTHH:MM:SS`,
/// a fraction of exactly 3, 6 or 9 digits when the nanosecond part is not
/// zero, and the fixed offset `+00:00` (`chrono::format::write_rfc3339` with
/// `SecondsFormat::AutoSi` and a zero offset).
#[verifier::external_body]
pub(crate) fn now_rfc3339() -> (r: String)
    ensures
        is_rfc3339_utc(r@),
{
    chrono::Utc::now().to_rfc3339()
}

/// Whether every character of `s` in `from .. to` is a decimal digit.
fn digits_in(s: &str, from: usize, to: usize) -> (b: bool)
    requires
        from <= to <= s@.len(),
    ensures
        b == digits_at(s@, from as int, to as int),
{
    let mut i: usize = from;
    while i < to
        invariant
            from <= i <= to <= s@.len(),
            digits_at(s@, from as int, i as int),
        decreases to - i,
    {
        let c = s.get_char(i);
        if c < '0' || c > '9' {
            assert(!digits_at(s@, from as int, to as int)) by {
                assert(!('0' <= s@[i as int] <= '9'));
            }
            return false;
        }
        i = i + 1;
    }
    true
}

/// Check a text against the timestamp shape above.
pub fn is_rfc3339_utc_str(s: &str) -> (b: bool)
    ensures
        b == is_rfc3339_utc(s@),
{
    let n = s.unicode_len();
    if n < 25 {
        return false;
    }
    if !digits_in(s, 0, 4) || s.get_char(4) != '-' || !digits_in(s, 5, 7) || s.get_char(7) != '-'
        || !digits_in(s, 8, 10) || s.get_char(10) != 'T' || !digits_in(s, 11, 13) || s.get_char(13)
        != ':' || !digits_in(s, 14, 16) || s.get_char(16) != ':' || !digits_in(s, 17, 19) {
        return false;
    }
    if n != 25 {
        if s.get_char(19) != '.' {
            return false;
        }
        if n != 29 && n != 32 && n != 35 {
            return false;
        }
        if !digits_in(s, 20, n - 6) {
            return false;
        }
    }
    if s.get_char(n - 6) != '+' || s.get_char(n - 5) != '0' || s.get_char(n - 4) != '0'
        || s.get_char(n - 3) != ':' || s.get_char(n - 2) != '0' || s.get_char(n - 1) != '0' {
        return false;
    }
    true
}

} // verus!
