use crossterm::event::input::CrLfCoalescer;

/// Runs `bursts` through one coalescer and returns what came out of each.
fn coalesce(bursts: &[&[u8]]) -> Vec<Vec<u8>> {
    let mut coalescer = CrLfCoalescer::default();

    bursts
        .iter()
        .map(|burst| {
            let mut buffer = burst.to_vec();
            let kept = coalescer.retain(&mut buffer);
            buffer.truncate(kept);
            buffer
        })
        .collect()
}

#[test]
fn test_crlf_in_one_burst_is_one_enter() {
    assert_eq!(coalesce(&[b"\r\n"]), vec![b"\r".to_vec()]);
}

#[test]
fn test_crlf_split_between_bursts_is_one_enter() {
    assert_eq!(
        coalesce(&[b"\r", b"\n"]),
        vec![b"\r".to_vec(), b"".to_vec()]
    );
}

#[test]
fn test_lone_lf_is_kept() {
    assert_eq!(coalesce(&[b"\n"]), vec![b"\n".to_vec()]);
    assert_eq!(
        coalesce(&[b"a", b"\n"]),
        vec![b"a".to_vec(), b"\n".to_vec()]
    );
}

#[test]
fn test_only_the_lf_that_follows_a_cr_is_dropped() {
    // The second `\n` follows an `\n`, not a `\r`, and is a keypress of its
    // own.
    assert_eq!(coalesce(&[b"\r\n\n"]), vec![b"\r\n".to_vec()]);
    // Two Enters in a row.
    assert_eq!(coalesce(&[b"\r\n\r\n"]), vec![b"\r\r".to_vec()]);
    // A `\r` that is not part of a pair is left where it is.
    assert_eq!(coalesce(&[b"\r\r\n"]), vec![b"\r\r".to_vec()]);
}

#[test]
fn test_other_bytes_pass_through() {
    assert_eq!(
        coalesce(&[b"\x1b[A", b"hello"]),
        vec![b"\x1b[A".to_vec(), b"hello".to_vec()]
    );
}

#[test]
fn test_cr_state_does_not_outlive_an_intervening_byte() {
    // `\r` `a` `\n`: the `\n` is not the second half of that Enter.
    assert_eq!(
        coalesce(&[b"\r", b"a", b"\n"]),
        vec![b"\r".to_vec(), b"a".to_vec(), b"\n".to_vec()]
    );
}

#[test]
fn test_empty_burst_keeps_pending_cr_state() {
    assert_eq!(
        coalesce(&[b"\r", b"", b"\n"]),
        vec![b"\r".to_vec(), b"".to_vec(), b"".to_vec()]
    );
}

#[test]
fn splitting_a_stream_anywhere_gives_the_same_bytes() {
    let stream: &[u8] = b"a\r\nb\r\r\n\nc\r";
    let whole: Vec<u8> = coalesce(&[stream]).concat();
    for cut in 0..=stream.len() {
        let (first, second) = stream.split_at(cut);
        assert_eq!(coalesce(&[first, second]).concat(), whole);
    }
    assert_eq!(whole, b"a\rb\r\r\nc\r".to_vec());
}

#[test]
fn bytes_past_what_is_kept_are_left_alone() {
    let mut coalescer = CrLfCoalescer::default();
    let mut buffer = b"\r\n\r\nxy".to_vec();
    let kept = coalescer.retain(&mut buffer);
    assert_eq!(kept, 4);
    assert_eq!(buffer, b"\r\rxyxy".to_vec());
}
