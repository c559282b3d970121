//! Verified rendering of integers and calendar dates as decimal strings.

use vstd::prelude::*;

verus! {

/// The decimal digit character for `n` in 0 to 9.
pub open spec fn spec_digit_char(n: int) -> char {
    if n == 0 {
        '0'
    } else if n == 1 {
        '1'
    } else if n == 2 {
        '2'
    } else if n == 3 {
        '3'
    } else if n == 4 {
        '4'
    } else if n == 5 {
        '5'
    } else if n == 6 {
        '6'
    } else if n == 7 {
        '7'
    } else if n == 8 {
        '8'
    } else {
        '9'
    }
}

/// The decimal digit string of a nonnegative number, most significant
/// digit first, with no leading zeros (a single zero for 0).
pub open spec fn spec_digits(n: int) -> Seq<char>
    decreases n,
{
    if n < 10 {
        seq![spec_digit_char(n)]
    } else {
        spec_digits(n / 10) + seq![spec_digit_char(n % 10)]
    }
}

/// The decimal string of an integer, with a leading minus sign when
/// negative.
pub open spec fn spec_int_str(n: int) -> Seq<char> {
    if n < 0 {
        seq!['-'] + spec_digits(-n)
    } else {
        spec_digits(n)
    }
}

/// The decimal string of an integer padded to width two with a zero, as
/// the `{:02}` format writes it.
pub open spec fn spec_two_digit_str(n: int) -> Seq<char> {
    if 0 <= n <= 9 {
        seq!['0'] + seq![spec_digit_char(n)]
    } else {
        spec_int_str(n)
    }
}

/// A one-character string slice holding the decimal digit `d`.
fn digit_str(d: u64) -> (r: &'static str)
    requires
        d < 10,
    ensures
        r@ == seq![spec_digit_char(d as int)],
{
    let r: &'static str = if d == 0 {
        "0"
    } else if d == 1 {
        "1"
    } else if d == 2 {
        "2"
    } else if d == 3 {
        "3"
    } else if d == 4 {
        "4"
    } else if d == 5 {
        "5"
    } else if d == 6 {
        "6"
    } else if d == 7 {
        "7"
    } else if d == 8 {
        "8"
    } else {
        "9"
    };
    proof {
        reveal_strlit("0");
        reveal_strlit("1");
        reveal_strlit("2");
        reveal_strlit("3");
        reveal_strlit("4");
        reveal_strlit("5");
        reveal_strlit("6");
        reveal_strlit("7");
        reveal_strlit("8");
        reveal_strlit("9");
        assert(r@ =~= seq![spec_digit_char(d as int)]);
    }
    r
}

/// Appends the decimal digits of `n` to `out`.
fn append_digits(n: u64, out: &mut String)
    ensures
        final(out)@ == old(out)@ + spec_digits(n as int),
    decreases n,
{
    if n >= 10 {
        append_digits(n / 10, out);
        out.append(digit_str(n % 10));
        proof {
            assert(out@ =~= old(out)@ + spec_digits(n as int));
        }
    } else {
        out.append(digit_str(n));
        proof {
            assert(out@ =~= old(out)@ + spec_digits(n as int));
        }
    }
}

/// The decimal string of `n`, as the `{}` format writes it.
pub fn int_to_string(n: i64) -> (s: String)
    ensures
        s@ == spec_int_str(n as int),
{
    let mut out = String::new();
    if n < 0 {
        out.append("-");
        proof {
            reveal_strlit("-");
            assert(out@ =~= seq!['-']);
        }
        let mag: u64 = ((-(n + 1)) as u64) + 1;
        append_digits(mag, &mut out);
    } else {
        append_digits(n as u64, &mut out);
    }
    proof {
        assert(out@ =~= spec_int_str(n as int));
    }
    out
}

/// Appends the decimal string of `n` padded to width two, as the `{:02}`
/// format writes it.
pub fn append_two_digit(n: i64, out: &mut String)
    ensures
        final(out)@ == old(out)@ + spec_two_digit_str(n as int),
{
    if 0 <= n && n <= 9 {
        out.append("0");
        out.append(digit_str(n as u64));
        proof {
            reveal_strlit("0");
            assert(out@ =~= old(out)@ + spec_two_digit_str(n as int));
        }
    } else if n < 0 {
        out.append("-");
        let mag: u64 = ((-(n + 1)) as u64) + 1;
        append_digits(mag, out);
        proof {
            reveal_strlit("-");
            assert(out@ =~= old(out)@ + spec_two_digit_str(n as int));
        }
    } else {
        append_digits(n as u64, out);
    }
}

/// The string `"{y}{sep}{m:02}{sep}{d:02}"`: a date with the year first.
pub open spec fn spec_ymd_str(y: int, m: int, d: int, sep: char) -> Seq<char> {
    spec_int_str(y) + seq![sep] + spec_two_digit_str(m) + seq![sep] + spec_two_digit_str(d)
}

/// The string `"{d:02}{sep}{m:02}{sep}{y}"`: a date with the day first.
pub open spec fn spec_dmy_str(y: int, m: int, d: int, sep: char) -> Seq<char> {
    spec_two_digit_str(d) + seq![sep] + spec_two_digit_str(m) + seq![sep] + spec_int_str(y)
}

/// A one-character string slice holding the separator: `/` when `slash`
/// is set, `-` otherwise.
fn sep_str(slash: bool) -> (r: &'static str)
    ensures
        r@ == seq![if slash { '/' } else { '-' }],
{
    let r: &'static str = if slash {
        "/"
    } else {
        "-"
    };
    proof {
        reveal_strlit("/");
        reveal_strlit("-");
        assert(r@ =~= seq![if slash { '/' } else { '-' }]);
    }
    r
}

/// Renders a date with the year first, using `/` or `-` as separator.
pub fn render_ymd(y: i64, m: i64, d: i64, slash: bool) -> (s: String)
    ensures
        s@ == spec_ymd_str(y as int, m as int, d as int, if slash { '/' } else { '-' }),
{
    let mut out = int_to_string(y);
    out.append(sep_str(slash));
    append_two_digit(m, &mut out);
    out.append(sep_str(slash));
    append_two_digit(d, &mut out);
    proof {
        assert(out@ =~= spec_ymd_str(y as int, m as int, d as int,
            if slash { '/' } else { '-' }));
    }
    out
}

/// Renders a date with the day first, using `/` or `-` as separator.
pub fn render_dmy(y: i64, m: i64, d: i64, slash: bool) -> (s: String)
    ensures
        s@ == spec_dmy_str(y as int, m as int, d as int, if slash { '/' } else { '-' }),
{
    let mut out = String::new();
    append_two_digit(d, &mut out);
    out.append(sep_str(slash));
    append_two_digit(m, &mut out);
    out.append(sep_str(slash));
    let ys = int_to_string(y);
    out.append(ys.as_str());
    proof {
        assert(out@ =~= spec_dmy_str(y as int, m as int, d as int,
            if slash { '/' } else { '-' }));
    }
    out
}


/// Whether two string slices hold the same characters.
pub fn str_eq(a: &str, b: &str) -> (r: bool)
    ensures
        r == (a@ == b@),
{
    let sa: String = a.to_owned();
    let sb: String = b.to_owned();
    sa == sb
}


/// The decimal string of a nonnegative integer padded to width four with
/// zeros.
pub open spec fn spec_four_digit_nonneg(n: int) -> Seq<char> {
    if 0 <= n <= 9 {
        seq!['0', '0', '0'] + spec_digits(n)
    } else if 10 <= n <= 99 {
        seq!['0', '0'] + spec_digits(n)
    } else if 100 <= n <= 999 {
        seq!['0'] + spec_digits(n)
    } else {
        spec_digits(n)
    }
}

/// The decimal string of an integer with its magnitude padded to width
/// four, as the civil-date year is conventionally written.
pub open spec fn spec_four_digit_str(n: int) -> Seq<char> {
    if n < 0 {
        seq!['-'] + spec_four_digit_nonneg(-n)
    } else {
        spec_four_digit_nonneg(n)
    }
}

/// Appends the decimal string of `n` with its magnitude padded to width
/// four.
pub fn append_four_digit(n: i64, out: &mut String)
    ensures
        final(out)@ == old(out)@ + spec_four_digit_str(n as int),
{
    let mag: u64 = if n < 0 {
        out.append("-");
        ((-(n + 1)) as u64) + 1
    } else {
        n as u64
    };
    if mag <= 9 {
        out.append("000");
    } else if mag <= 99 {
        out.append("00");
    } else if mag <= 999 {
        out.append("0");
    }
    append_digits(mag, out);
    proof {
        reveal_strlit("-");
        reveal_strlit("000");
        reveal_strlit("00");
        reveal_strlit("0");
        assert(("000")@ =~= seq!['0', '0', '0']);
        assert(("00")@ =~= seq!['0', '0']);
        assert(("0")@ =~= seq!['0']);
        assert(out@ =~= old(out)@ + spec_four_digit_str(n as int));
    }
}

/// The string `"{y:04}{sep}{m:02}{sep}{d:02}"`: a solar date with the year
/// padded to four digits, as the civil side of a wrapped date is rendered.
pub open spec fn spec_solar_ymd_str(y: int, m: int, d: int) -> Seq<char> {
    spec_four_digit_str(y) + seq!['-'] + spec_two_digit_str(m) + seq!['-']
        + spec_two_digit_str(d)
}

/// Renders a solar date with the year padded to four digits.
pub fn render_solar_ymd(y: i64, m: i64, d: i64) -> (s: String)
    ensures
        s@ == spec_solar_ymd_str(y as int, m as int, d as int),
{
    let mut out = String::new();
    append_four_digit(y, &mut out);
    out.append(sep_str(false));
    append_two_digit(m, &mut out);
    out.append(sep_str(false));
    append_two_digit(d, &mut out);
    proof {
        assert(out@ =~= spec_solar_ymd_str(y as int, m as int, d as int));
    }
    out
}

} // verus!
