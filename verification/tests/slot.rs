use audio_tap::listener::AudioListener;

#[test]
fn publish_then_poll_returns_frame() {
    let mut slot: AudioListener<Vec<u32>> = AudioListener::new(Vec::new());
    slot.publish(&vec![1, 2, 3]);
    assert_eq!(slot.poll(), vec![1, 2, 3]);
}

#[test]
fn latest_publish_wins() {
    let mut slot: AudioListener<Vec<u32>> = AudioListener::new(Vec::new());
    slot.publish(&vec![1, 2]);
    slot.publish(&vec![9]);
    slot.publish(&vec![4, 5, 6, 7]);
    assert_eq!(slot.poll(), vec![4, 5, 6, 7]);
}

#[test]
fn poll_before_any_publish_returns_initial() {
    let slot: AudioListener<Vec<u32>> = AudioListener::new(vec![8, 8]);
    assert_eq!(slot.poll(), vec![8, 8]);
}

#[test]
fn poll_is_a_snapshot_and_does_not_disturb() {
    let mut slot: AudioListener<Vec<u32>> = AudioListener::new(Vec::new());
    slot.publish(&vec![5]);
    let mut first = slot.poll();
    first.push(77);
    assert_eq!(slot.poll(), vec![5]);
}

#[test]
fn generation_advances_by_two_per_publish_and_stays_even() {
    let mut slot: AudioListener<Vec<u32>> = AudioListener::new(Vec::new());
    assert_eq!(slot.generation(), 0);
    slot.publish(&vec![1]);
    assert_eq!(slot.generation(), 2);
    slot.publish(&vec![2]);
    assert_eq!(slot.generation(), 4);
    assert_eq!(slot.generation() % 2, 0);
}

#[test]
fn interleaved_polls_only_see_published_values() {
    // Sequential image of the no-tearing law: across an arbitrary mix of
    // publishes and polls, every polled value is exactly one of the values
    // some completed publish wrote (or the initial value) — never a blend.
    let mut slot: AudioListener<Vec<u32>> = AudioListener::new(Vec::new());
    let mut written: Vec<Vec<u32>> = vec![Vec::new()];
    for round in 0u32..40 {
        let polled = slot.poll();
        assert!(written.contains(&polled));
        if round % 3 != 2 {
            let frame: Vec<u32> = (0..round % 7).map(|s| round * 100 + s).collect();
            slot.publish(&frame);
            written.push(frame);
        }
        let polled = slot.poll();
        assert_eq!(polled, *written.last().unwrap());
    }
}

#[test]
fn empty_frame_publishes_cleanly() {
    let mut slot: AudioListener<Vec<u32>> = AudioListener::new(vec![1]);
    slot.publish(&Vec::new());
    assert_eq!(slot.poll(), Vec::<u32>::new());
}
