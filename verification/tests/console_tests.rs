use picacg::console::Console;
use picacg::console::u64_string;

#[test]
fn decimal_rendering() {
    assert_eq!(u64_string(0), "0");
    assert_eq!(u64_string(7), "7");
    assert_eq!(u64_string(10), "10");
    assert_eq!(u64_string(1234567890), "1234567890");
    assert_eq!(u64_string(u64::MAX), "18446744073709551615");
}

#[test]
fn episode_progress_line() {
    let line = Console::format_download_ep("Ch 3 of Title - Author", 1, 2, 3, 4, 5, 10);
    assert_eq!(
        line,
        "Ch 3 of Title - Author Page 1/2 Completed Current Page Image 3/4 75.00% Total 5/10 50.00%"
    );
}

#[test]
fn episode_progress_line_truncates_percentages() {
    let line = Console::format_download_ep("N", 1, 1, 1, 3, 2, 3);
    assert_eq!(line, "N Page 1/1 Completed Current Page Image 1/3 33.33% Total 2/3 66.66%");
}

#[test]
fn episode_progress_line_with_zero_totals() {
    // A zero denominator renders as zero rather than failing.
    let line = Console::format_download_ep("N", 1, 1, 0, 0, 0, 0);
    assert_eq!(line, "N Page 1/1 Completed Current Page Image 0/0 0.00% Total 0/0 0.00%");
}

#[test]
fn game_progress_line() {
    let line = Console::format_download_game(1048576, 2097152, "saves/game.apk");
    assert_eq!(line, "Downloading 1.00/2.00MB 50.00% saves/game.apk");
}

#[test]
fn game_progress_line_fractional_megabytes() {
    // 262144 bytes = 0.25 MB of 1 MB.
    let line = Console::format_download_game(262144, 1048576, "a");
    assert_eq!(line, "Downloading 0.25/1.00MB 25.00% a");
}
