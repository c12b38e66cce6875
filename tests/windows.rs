use imprint::{head_window, probe, tail_window, ErrorKind, SampleWindow, SAMPLE_SIZE};

#[test]
fn sample_size_is_512_kib() {
    assert_eq!(SAMPLE_SIZE, 512 * 1024);
}

#[test]
fn empty_file_windows() {
    assert_eq!(head_window(0), SampleWindow { offset: 0, length: 0 });
    assert_eq!(tail_window(0), None);
}

#[test]
fn sample_size_file_has_no_tail_window() {
    assert_eq!(head_window(SAMPLE_SIZE), SampleWindow { offset: 0, length: SAMPLE_SIZE });
    assert_eq!(tail_window(SAMPLE_SIZE), None);
}

#[test]
fn one_past_sample_size_has_one_byte_tail_window() {
    assert_eq!(head_window(SAMPLE_SIZE + 1), SampleWindow { offset: 0, length: SAMPLE_SIZE });
    assert_eq!(
        tail_window(SAMPLE_SIZE + 1),
        Some(SampleWindow { offset: SAMPLE_SIZE, length: 1 })
    );
}

#[test]
fn double_sample_size_windows_are_adjacent() {
    let len = 2 * SAMPLE_SIZE;
    assert_eq!(head_window(len), SampleWindow { offset: 0, length: SAMPLE_SIZE });
    assert_eq!(
        tail_window(len),
        Some(SampleWindow { offset: SAMPLE_SIZE, length: SAMPLE_SIZE })
    );
}

#[test]
fn long_file_windows_leave_a_gap() {
    let len = 3 * SAMPLE_SIZE + 7;
    assert_eq!(head_window(len), SampleWindow { offset: 0, length: SAMPLE_SIZE });
    assert_eq!(
        tail_window(len),
        Some(SampleWindow { offset: 2 * SAMPLE_SIZE + 7, length: SAMPLE_SIZE })
    );
}

#[test]
fn largest_length_windows() {
    let len = u64::MAX;
    assert_eq!(head_window(len), SampleWindow { offset: 0, length: SAMPLE_SIZE });
    assert_eq!(
        tail_window(len),
        Some(SampleWindow { offset: u64::MAX - SAMPLE_SIZE, length: SAMPLE_SIZE })
    );
}

#[test]
fn small_file_head_window_is_whole_file() {
    assert_eq!(head_window(10), SampleWindow { offset: 0, length: 10 });
    assert_eq!(tail_window(10), None);
}

#[test]
fn probe_rejects_directory() {
    assert_eq!(probe(false, 4096), Err(ErrorKind::NotAFile));
}

#[test]
fn probe_accepts_file() {
    assert_eq!(probe(true, 123), Ok(123));
    assert_eq!(probe(true, 0), Ok(0));
}
