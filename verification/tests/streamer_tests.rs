use weave_launcher::streamer::{should_publish, split_lines, stream_lines, LineBuffer};

fn lines_of(bytes: &[u8]) -> Vec<Vec<u8>> {
    split_lines(&bytes.to_vec())
}

#[test]
fn split_on_terminator() {
    assert_eq!(lines_of(b"a\nb\n"), vec![b"a".to_vec(), b"b".to_vec()]);
}

#[test]
fn partial_final_line_is_flushed() {
    assert_eq!(lines_of(b"a\nb"), vec![b"a".to_vec(), b"b".to_vec()]);
}

#[test]
fn empty_stream_has_no_lines() {
    assert_eq!(lines_of(b""), Vec::<Vec<u8>>::new());
}

#[test]
fn lone_terminator_is_one_empty_line() {
    assert_eq!(lines_of(b"\n"), vec![b"".to_vec()]);
}

#[test]
fn empty_lines_between_terminators_are_kept() {
    assert_eq!(lines_of(b"a\n\nb"), vec![b"a".to_vec(), b"".to_vec(), b"b".to_vec()]);
}

#[test]
fn crlf_counts_as_one_terminator() {
    assert_eq!(lines_of(b"a\r\nb\r\n"), vec![b"a".to_vec(), b"b".to_vec()]);
    assert_eq!(lines_of(b"\r\n"), vec![b"".to_vec()]);
}

#[test]
fn only_one_carriage_return_is_dropped_per_line() {
    assert_eq!(lines_of(b"a\r\r\n"), vec![b"a\r".to_vec()]);
}

#[test]
fn carriage_return_inside_a_line_is_kept() {
    assert_eq!(lines_of(b"a\rb\n"), vec![b"a\rb".to_vec()]);
}

#[test]
fn unterminated_final_segment_keeps_its_bytes() {
    assert_eq!(lines_of(b"a\r"), vec![b"a\r".to_vec()]);
}

#[test]
fn crlf_split_across_chunks_is_still_one_terminator() {
    let mut lb = LineBuffer::new();
    let mut got: Vec<Vec<u8>> = Vec::new();
    got.extend(lb.feed(&b"a\r".to_vec()));
    got.extend(lb.feed(&b"\nb\n".to_vec()));
    assert_eq!(got, vec![b"a".to_vec(), b"b".to_vec()]);
    assert_eq!(lb.flush(), None);
}

#[test]
fn chunking_does_not_change_the_lines() {
    let mut lb = LineBuffer::new();
    let mut got: Vec<Vec<u8>> = Vec::new();
    for chunk in [&b"he"[..], &b"llo\nwo"[..], &b"rld\n"[..], &b"tail"[..]] {
        got.extend(lb.feed(&chunk.to_vec()));
    }
    if let Some(last) = lb.flush() {
        got.push(last);
    }
    assert_eq!(got, lines_of(b"hello\nworld\ntail"));
}

#[test]
fn flush_is_empty_after_a_terminated_stream() {
    let mut lb = LineBuffer::new();
    let got = lb.feed(&b"one\ntwo\n".to_vec());
    assert_eq!(got, vec![b"one".to_vec(), b"two".to_vec()]);
    assert_eq!(lb.flush(), None);
}

#[test]
fn publication_follows_the_observed_selection() {
    assert!(should_publish(7, 7));
    assert!(!should_publish(0, 7));
    assert!(!should_publish(8, 7));
}

#[test]
fn lines_after_a_selection_switch_are_logged_but_not_published() {
    let lines: Vec<String> =
        ["l1", "l2", "l3", "l4", "l5"].iter().map(|s| s.to_string()).collect();
    // the selection signal reads this stream's pid (7) for the first three
    // lines, then is switched to another instance
    let observed: Vec<u32> = vec![7, 7, 7, 9, 9];
    let (logged, published) = stream_lines(&lines, &observed, 7);
    assert_eq!(logged, lines);
    assert_eq!(published, lines[..3].to_vec());
}

#[test]
fn nothing_is_published_while_another_instance_is_selected() {
    let lines: Vec<String> = ["a", "b"].iter().map(|s| s.to_string()).collect();
    let (logged, published) = stream_lines(&lines, &vec![3, 3], 7);
    assert_eq!(logged, lines);
    assert!(published.is_empty());
}

#[test]
fn selection_can_switch_back_mid_stream() {
    let lines: Vec<String> = ["a", "b", "c"].iter().map(|s| s.to_string()).collect();
    let (_, published) = stream_lines(&lines, &vec![7, 1, 7], 7);
    assert_eq!(published, vec!["a".to_string(), "c".to_string()]);
}
