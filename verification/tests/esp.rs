use devserial::esp::{
    board_info, erase_flash, flash, join_streams, run_result, split_lines, start_failure,
    take_line, wait_failure, write_bin,
};

/// Collect what `split_lines` reports for a sequence of chunks.
fn lines_of(chunks: &[&[u8]]) -> (Vec<String>, Vec<u8>) {
    let mut pending = Vec::new();
    let mut lines = Vec::new();
    for chunk in chunks {
        lines.extend(split_lines(chunk, &mut pending));
    }
    (lines, pending)
}

#[test]
fn a_newline_ends_a_line() {
    let (lines, rest) = lines_of(&[b"one\ntwo\n"]);
    assert_eq!(lines, ["one", "two"]);
    assert!(rest.is_empty());
}

#[test]
fn a_carriage_return_ends_a_line_too() {
    // This is how espflash reports progress.
    let (lines, _) = lines_of(&[b"10%\r55%\r100%\r"]);
    assert_eq!(lines, ["10%", "55%", "100%"]);
}

#[test]
fn a_windows_line_ending_reports_one_line() {
    let (lines, _) = lines_of(&[b"one\r\ntwo\r\n"]);
    assert_eq!(lines, ["one", "two"]);
}

#[test]
fn blank_lines_are_not_reported() {
    let (lines, _) = lines_of(&[b"\n\n\r\n   \n"]);
    assert!(lines.is_empty(), "got: {lines:?}");
}

#[test]
fn a_line_split_across_chunks_arrives_whole() {
    // 4096 bytes at a time means a line is regularly cut in half.
    let (lines, rest) = lines_of(&[b"beg", b"in", b"ning\nnext"]);
    assert_eq!(lines, ["beginning"]);
    assert_eq!(rest, b"next");
}

#[test]
fn an_unterminated_tail_stays_pending() {
    let (lines, mut rest) = lines_of(&[b"done\nhalf"]);
    assert_eq!(lines, ["done"]);
    assert_eq!(take_line(&mut rest), Some("half".to_string()));
}

#[test]
fn invalid_utf8_is_replaced_rather_than_dropped() {
    let (lines, _) = lines_of(&[&[b'a', 0xff, b'b', b'\n']]);
    assert_eq!(lines, ["a\u{fffd}b"]);
}

#[test]
fn stream_joining_prefers_the_primary_stream() {
    assert_eq!(join_streams("out", ""), "out");
    assert_eq!(join_streams("", "err"), "err");
    assert_eq!(join_streams("out", "err"), "out\nerr");
}

#[test]
fn how_a_stream_is_cut_into_chunks_makes_no_difference() {
    let whole: &[u8] = b"one\r\ntwo\rthree\nfour";
    for cut in 0..whole.len() {
        assert_eq!(lines_of(&[whole]), lines_of(&[&whole[..cut], &whole[cut..]]));
    }
}

#[test]
fn a_run_reports_the_stream_that_explains_it() {
    assert_eq!(run_result(true, b"one\ntwo\n", b"", "").unwrap(), "one\ntwo\n");
    assert_eq!(
        run_result(false, b"note\n", b"boom\n", "exit status: 3").unwrap_err(),
        "boom\n\nnote\n"
    );
    assert!(run_result(false, b"", b"", "exit status: 7").unwrap_err().contains("exit status: 7"));
}

#[test]
fn the_tool_gets_its_arguments() {
    assert_eq!(flash("/dev/a", "fw.bin", Some(9600)).len(), flash("/dev/a", "fw.bin", None).len() + 2);
    assert!(flash("/dev/a", "fw.bin", Some(9600)).contains(&"9600".to_string()));
    assert!(board_info("/dev/a").contains(&"/dev/a".to_string()));
    assert!(erase_flash("/dev/a").contains(&"/dev/a".to_string()));
    let args = write_bin("/dev/a", "b.bin", "0x1000");
    assert!(args.contains(&"0x1000".to_string()) && args.contains(&"b.bin".to_string()));
    assert!(start_failure("gone").contains("gone"));
    assert!(wait_failure("gone").contains("gone"));
}

#[test]
fn a_reported_line_holds_no_line_end() {
    let (lines, rest) = lines_of(&[b"a\r", b"\nb \r\n\xff\r", b"c\n\nd"]);
    assert_eq!(lines, ["a", "b", "\u{fffd}", "c"]);
    assert!(lines.iter().all(|l| !l.contains('\n') && !l.contains('\r')));
    assert_eq!(rest, b"d");
}
