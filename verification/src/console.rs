//! The progress reporter: pure functions from a snapshot of the counters to
//! one line of progress text. Percentages and megabyte figures are rendered
//! with two decimal places, truncated toward zero; a ratio with a zero
//! denominator renders as zero.

use vstd::prelude::*;
use vstd::string::StringExecFns;

verus! {

/// The decimal digit character for `d` (meaningful for `d < 10`).
pub open spec fn digit_char(d: nat) -> char {
    if d == 0 {
        '0'
    } else if d == 1 {
        '1'
    } else if d == 2 {
        '2'
    } else if d == 3 {
        '3'
    } else if d == 4 {
        '4'
    } else if d == 5 {
        '5'
    } else if d == 6 {
        '6'
    } else if d == 7 {
        '7'
    } else if d == 8 {
        '8'
    } else {
        '9'
    }
}

/// The decimal rendering of `n`, most significant digit first, no leading
/// zeroes (a single `'0'` for zero).
pub open spec fn dec_chars(n: nat) -> Seq<char>
    decreases n,
{
    if n < 10 {
        seq![digit_char(n)]
    } else {
        dec_chars(n / 10).push(digit_char(n % 10))
    }
}

/// `part` as a share of `whole`, in hundredths of a percent, truncated
/// toward zero; zero when `whole` is zero.
pub open spec fn percent_hundredths(part: nat, whole: nat) -> nat {
    if whole == 0 {
        0
    } else {
        (part * 10000) / whole
    }
}

/// `bytes` in hundredths of a (binary) megabyte, truncated toward zero.
pub open spec fn mb_hundredths(bytes: nat) -> nat {
    (bytes * 100) / 0x100000
}

/// A count of hundredths rendered with two decimal places: the whole part,
/// a point, and exactly two fraction digits.
pub open spec fn fixed2_chars(hundredths: nat) -> Seq<char> {
    dec_chars(hundredths / 100) + seq!['.', digit_char((hundredths / 10) % 10), digit_char(
        hundredths % 10,
    )]
}

/// The progress line for one episode of a batch download.
pub open spec fn format_download_ep_chars(
    name: Seq<char>,
    current_page: u64,
    total_pages: u64,
    page_image_completed: u64,
    page_image_total: u64,
    completed: u64,
    total: u64,
) -> Seq<char> {
    name + " Page "@ + dec_chars(current_page as nat) + "/"@ + dec_chars(total_pages as nat)
        + " Completed Current Page Image "@ + dec_chars(page_image_completed as nat) + "/"@
        + dec_chars(page_image_total as nat) + " "@ + fixed2_chars(
        percent_hundredths(page_image_completed as nat, page_image_total as nat),
    ) + "% Total "@ + dec_chars(completed as nat) + "/"@ + dec_chars(total as nat) + " "@
        + fixed2_chars(percent_hundredths(completed as nat, total as nat)) + "%"@
}

/// The progress line for one direct file download.
pub open spec fn format_download_game_chars(
    completed_bytes: u64,
    total_bytes: u64,
    file_path: Seq<char>,
) -> Seq<char> {
    "Downloading "@ + fixed2_chars(mb_hundredths(completed_bytes as nat)) + "/"@ + fixed2_chars(
        mb_hundredths(total_bytes as nat),
    ) + "MB "@ + fixed2_chars(percent_hundredths(completed_bytes as nat, total_bytes as nat))
        + "% "@ + file_path
}

/// The one-character string for a decimal digit.
fn digit_str(d: u64) -> (s: &'static str)
    requires
        d < 10,
    ensures
        s@ == seq![digit_char(d as nat)],
{
    proof {
        reveal_strlit("0");
        reveal_strlit("1");
        reveal_strlit("2");
        reveal_strlit("3");
        reveal_strlit("4");
        reveal_strlit("5");
        reveal_strlit("6");
        reveal_strlit("7");
        reveal_strlit("8");
        reveal_strlit("9");
        assert("0"@ =~= seq!['0']);
        assert("1"@ =~= seq!['1']);
        assert("2"@ =~= seq!['2']);
        assert("3"@ =~= seq!['3']);
        assert("4"@ =~= seq!['4']);
        assert("5"@ =~= seq!['5']);
        assert("6"@ =~= seq!['6']);
        assert("7"@ =~= seq!['7']);
        assert("8"@ =~= seq!['8']);
        assert("9"@ =~= seq!['9']);
    }
    match d {
        0 => "0",
        1 => "1",
        2 => "2",
        3 => "3",
        4 => "4",
        5 => "5",
        6 => "6",
        7 => "7",
        8 => "8",
        _ => "9",
    }
}

/// The decimal rendering of a number wide enough for every figure the
/// formatters derive.
fn u128_string(n: u128) -> (s: String)
    ensures
        s@ == dec_chars(n as nat),
    decreases n,
{
    if n < 10 {
        String::from_str(digit_str(n as u64))
    } else {
        let mut s = u128_string(n / 10);
        s.append(digit_str((n % 10) as u64));
        proof {
            assert(s@ =~= dec_chars(n as nat));
        }
        s
    }
}

/// The decimal rendering of `n`.
pub fn u64_string(n: u64) -> (s: String)
    ensures
        s@ == dec_chars(n as nat),
{
    u128_string(n as u128)
}

/// A count of hundredths rendered with two decimal places.
fn fixed2_string(hundredths: u128) -> (s: String)
    ensures
        s@ == fixed2_chars(hundredths as nat),
{
    let mut s = u128_string(hundredths / 100);
    s.append(".");
    s.append(digit_str(((hundredths / 10) % 10) as u64));
    s.append(digit_str((hundredths % 10) as u64));
    proof {
        reveal_strlit(".");
        assert("."@ =~= seq!['.']);
        assert(s@ =~= fixed2_chars(hundredths as nat));
    }
    s
}

/// `part` as a share of `whole`, in hundredths of a percent.
fn percent_value(part: u64, whole: u64) -> (h: u128)
    ensures
        h == percent_hundredths(part as nat, whole as nat),
{
    if whole == 0 {
        0
    } else {
        (part as u128) * 10000 / (whole as u128)
    }
}

/// `bytes` in hundredths of a binary megabyte.
fn mb_value(bytes: u64) -> (h: u128)
    ensures
        h == mb_hundredths(bytes as nat),
{
    (bytes as u128) * 100 / 0x100000
}

/// Renders progress lines from counter snapshots; never reads or mutates the
/// counters itself.
pub struct Console;

impl Console {
    /// The progress line while an episode's images are downloading: page
    /// position, images done on the current page, and items done overall,
    /// each with a percentage.
    pub fn format_download_ep(
        name: &str,
        current_page: u64,
        total_pages: u64,
        page_image_completed: u64,
        page_image_total: u64,
        completed: u64,
        total: u64,
    ) -> (r: String)
        ensures
            r@ == format_download_ep_chars(
                name@,
                current_page,
                total_pages,
                page_image_completed,
                page_image_total,
                completed,
                total,
            ),
    {
        let mut s = String::from_str(name);
        s.append(" Page ");
        let t1 = u64_string(current_page);
        s.append(t1.as_str());
        s.append("/");
        let t2 = u64_string(total_pages);
        s.append(t2.as_str());
        s.append(" Completed Current Page Image ");
        let t3 = u64_string(page_image_completed);
        s.append(t3.as_str());
        s.append("/");
        let t4 = u64_string(page_image_total);
        s.append(t4.as_str());
        s.append(" ");
        let pct_page = fixed2_string(percent_value(page_image_completed, page_image_total));
        s.append(pct_page.as_str());
        s.append("% Total ");
        let t5 = u64_string(completed);
        s.append(t5.as_str());
        s.append("/");
        let t6 = u64_string(total);
        s.append(t6.as_str());
        s.append(" ");
        let pct_total = fixed2_string(percent_value(completed, total));
        s.append(pct_total.as_str());
        s.append("%");
        s
    }

    /// The progress line while one file is downloading: megabytes done of
    /// megabytes total, a percentage, and the destination path.
    pub fn format_download_game(completed_bytes: u64, total_bytes: u64, file_path: &str) -> (r:
        String)
        ensures
            r@ == format_download_game_chars(completed_bytes, total_bytes, file_path@),
    {
        let mut s = String::from_str("Downloading ");
        let m1 = fixed2_string(mb_value(completed_bytes));
        s.append(m1.as_str());
        s.append("/");
        let m2 = fixed2_string(mb_value(total_bytes));
        s.append(m2.as_str());
        s.append("MB ");
        let p = fixed2_string(percent_value(completed_bytes, total_bytes));
        s.append(p.as_str());
        s.append("% ");
        s.append(file_path);
        s
    }
}

} // verus!
