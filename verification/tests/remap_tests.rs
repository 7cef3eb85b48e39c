use xexamai::remap::{average_pair, fill_buffer_i16};

#[test]
fn mono_to_stereo_with_no_frames_changes_nothing() {
    let mut target: Vec<i16> = Vec::new();
    fill_buffer_i16(&mut target, &vec![], 1, 2, 0);
    assert!(target.is_empty());
    let mut held: Vec<i16> = vec![7, 8];
    fill_buffer_i16(&mut held, &vec![5], 1, 2, 0);
    assert_eq!(held, vec![7, 8]);
}

#[test]
fn mono_to_stereo_duplicates_one_frame() {
    let mut target: Vec<i16> = vec![0, 0];
    fill_buffer_i16(&mut target, &vec![1234], 1, 2, 1);
    assert_eq!(target, vec![1234, 1234]);
}

#[test]
fn mono_to_stereo_duplicates_many_frames() {
    let src: Vec<i16> = (0..100).map(|i| (i * 300 - 15000) as i16).collect();
    let mut target: Vec<i16> = vec![0; 200];
    fill_buffer_i16(&mut target, &src, 1, 2, 100);
    for i in 0..100 {
        assert_eq!(target[2 * i], src[i]);
        assert_eq!(target[2 * i + 1], src[i]);
    }
}

#[test]
fn equal_layouts_add_position_by_position() {
    let mut target: Vec<i16> = vec![1, 2, 3, 4];
    fill_buffer_i16(&mut target, &vec![10, 20, 30, 40], 2, 2, 2);
    assert_eq!(target, vec![11, 22, 33, 44]);
}

#[test]
fn stereo_to_mono_averages_toward_zero() {
    let mut target: Vec<i16> = vec![0, 0, 0];
    fill_buffer_i16(&mut target, &vec![10, 20, -3, -4, 32767, 32767], 2, 1, 3);
    assert_eq!(target, vec![15, -3, 32767]);
    assert_eq!(average_pair(-3, -4), -3);
    assert_eq!(average_pair(3, 4), 3);
    assert_eq!(average_pair(-32768, -32768), -32768);
    assert_eq!(average_pair(32767, -32768), 0);
}

#[test]
fn other_layouts_map_channels_by_remainder() {
    // three source channels into two: channel c takes source channel c mod 3.
    let mut target: Vec<i16> = vec![0; 4];
    fill_buffer_i16(&mut target, &vec![1, 2, 3, 4, 5, 6], 3, 2, 2);
    assert_eq!(target, vec![1, 2, 4, 5]);
    // two source channels into four.
    let mut wide: Vec<i16> = vec![0; 8];
    fill_buffer_i16(&mut wide, &vec![1, 2, 3, 4], 2, 4, 2);
    assert_eq!(wide, vec![1, 2, 1, 2, 3, 4, 3, 4]);
}

#[test]
fn accumulation_saturates() {
    let mut target: Vec<i16> = vec![32000, -32000];
    fill_buffer_i16(&mut target, &vec![1000, -1000], 2, 2, 1);
    assert_eq!(target, vec![32767, -32768]);
}

#[test]
fn frames_are_cut_to_what_both_buffers_hold() {
    let mut target: Vec<i16> = vec![0; 6];
    fill_buffer_i16(&mut target, &vec![5, 6], 1, 2, 10);
    assert_eq!(target, vec![5, 5, 6, 6, 0, 0]);
    let mut short: Vec<i16> = vec![0; 3];
    fill_buffer_i16(&mut short, &vec![5, 6, 7], 1, 2, 3);
    assert_eq!(short, vec![5, 5, 0]);
    let mut asked: Vec<i16> = vec![0; 6];
    fill_buffer_i16(&mut asked, &vec![5, 6, 7], 1, 2, 1);
    assert_eq!(asked, vec![5, 5, 0, 0, 0, 0]);
}

#[test]
fn zero_channel_counts_and_empty_buffers_change_nothing() {
    let mut target: Vec<i16> = vec![1, 2];
    fill_buffer_i16(&mut target, &vec![9, 9], 0, 2, 1);
    assert_eq!(target, vec![1, 2]);
    fill_buffer_i16(&mut target, &vec![9, 9], 2, 0, 1);
    assert_eq!(target, vec![1, 2]);
    fill_buffer_i16(&mut target, &vec![], 2, 2, 1);
    assert_eq!(target, vec![1, 2]);
}
