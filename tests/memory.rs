use bar_utilities::memory::format_memory_line;

#[test]
fn memory_two_keys_give_the_difference_in_mebibytes() {
    let text = "MemTotal:   2048 kB\nMemAvailable:   1024 kB\n";
    assert_eq!(format_memory_line(text), Some(1));
}

#[test]
fn memory_same_text_gives_same_result() {
    let text = "MemTotal:       16303408 kB\nMemFree:         1234567 kB\nMemAvailable:    8151704 kB\n";
    let a = format_memory_line(text);
    let b = format_memory_line(text);
    assert_eq!(a, b);
    assert_eq!(a, Some((16303408 >> 10) - (8151704 >> 10)));
}

#[test]
fn memory_other_lines_are_ignored() {
    let text = "MemTotal:       16303408 kB\nMemFree:         1234567 kB\nMemAvailable:    8151704 kB\nBuffers:          123456 kB\nCached:          4567890 kB\nSwapTotal:       2097148 kB\n";
    assert_eq!(format_memory_line(text), Some(15921 - 7960));
}

#[test]
fn memory_missing_key_counts_as_zero() {
    assert_eq!(format_memory_line("MemTotal:   4096 kB\n"), Some(4));
    assert_eq!(format_memory_line("MemAvailable:   3072 kB\n"), Some(-3));
    assert_eq!(format_memory_line(""), Some(0));
    assert_eq!(format_memory_line("Buffers: 100 kB"), Some(0));
}

#[test]
fn memory_digits_anywhere_in_the_line_are_joined() {
    assert_eq!(format_memory_line("MemTotal: 1 0 2 4 kB x2"), Some(10242 >> 10));
}

#[test]
fn memory_last_line_without_newline_is_read() {
    assert_eq!(format_memory_line("MemAvailable: 1024 kB\nMemTotal: 5120 kB"), Some(4));
}

#[test]
fn memory_last_keyed_line_wins() {
    assert_eq!(format_memory_line("MemTotal: 1024 kB\nMemTotal: 8192 kB\n"), Some(8));
}

#[test]
fn memory_carriage_returns_do_not_matter() {
    assert_eq!(format_memory_line("MemTotal: 2048 kB\r\nMemAvailable: 1024 kB\r\n"), Some(1));
}

#[test]
fn memory_keyed_line_without_digits_gives_none() {
    assert_eq!(format_memory_line("MemTotal: kB\nMemAvailable: 1024 kB\n"), None);
}

#[test]
fn memory_keyed_line_too_large_gives_none() {
    assert_eq!(format_memory_line("MemTotal: 2147483648 kB\n"), None);
    assert_eq!(format_memory_line("MemTotal: 2147483647 kB\n"), Some(2147483647 >> 10));
}
