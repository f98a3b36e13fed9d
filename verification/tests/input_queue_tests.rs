use rmercury::game_input::GameInput;
use rmercury::input_queue::InputQueue;

fn record(frame: usize, bits: Vec<bool>) -> GameInput {
    let mut rec = GameInput::new(2, 1, 2);
    rec.init(Some(frame), Some(bits), 2);
    rec
}

#[test]
fn input_queue_new_uses_defaults() {
    let q = InputQueue::new(None, None);

    assert_eq!(0, q.get_length());
    assert_eq!(None, q.get_last_confirmed_frame());
    assert_eq!(None, q.get_first_incorrect_frame());
}

#[test]
fn input_queue_init_resets_state() {
    let mut q = InputQueue::new(Some(2), Some(16));
    q.set_frame_delay(1);
    q.add_input(record(0, vec![true]));

    q.init(7, 2);

    assert_eq!(0, q.get_length());
    assert_eq!(None, q.get_last_confirmed_frame());
    assert_eq!(None, q.get_first_incorrect_frame());

    // predictions synthesized after the reset replicate all-false bits,
    // not the values stored before it
    let (is_prediction, rec) = q.get_input(0);
    assert_eq!(true, is_prediction);
    let rec = rec.unwrap();
    for i in 0..rec.bits.len() {
        assert_eq!(false, rec.bits[i]);
    }

    // the same holds for gap frames filled by the first add after the reset
    q.set_frame_delay(2);
    q.add_input(record(0, vec![true, true]));
    let (is_prediction, gap) = q.get_input(1);
    assert_eq!(true, is_prediction);
    let gap = gap.unwrap();
    for i in 0..gap.bits.len() {
        assert_eq!(false, gap.bits[i]);
    }
}

// after set_frame_delay(d) and add_input for frame f, the value lands on
// frame f + d and reads back confirmed
#[test]
fn input_queue_delayed_input_lands_confirmed() {
    let mut q = InputQueue::new(Some(2), Some(16));
    q.set_frame_delay(2);

    q.add_input(record(0, vec![true, false]));

    assert_eq!(Some(2), q.get_last_confirmed_frame());
    assert_eq!(3, q.get_length());

    let (is_prediction, rec) = q.get_input(2);
    assert_eq!(false, is_prediction);
    let rec = rec.unwrap();
    assert_eq!(Some(2), rec.frame);
    assert_eq!(true, rec.bits[0]);
    assert_eq!(false, rec.bits[1]);

    assert!(q.get_confirmed_input(2).is_some());
}

// frames skipped by the delay are filled with the previous value and
// reported as predictions
#[test]
fn input_queue_gap_frames_are_predictions() {
    let mut q = InputQueue::new(Some(2), Some(16));
    q.set_frame_delay(2);

    q.add_input(record(0, vec![true, false]));

    let (is_prediction, rec) = q.get_input(0);
    assert_eq!(true, is_prediction);
    let rec = rec.unwrap();
    // the gap is filled with the last known value, all-false for a fresh queue
    for i in 0..rec.bits.len() {
        assert_eq!(false, rec.bits[i]);
    }

    let (is_prediction, _) = q.get_input(1);
    assert_eq!(true, is_prediction);

    assert!(q.get_confirmed_input(0).is_none());
    assert!(q.get_confirmed_input(1).is_none());
}

// a frame beyond everything added is synthesized from the last known value
#[test]
fn input_queue_get_input_beyond_last_synthesizes_prediction() {
    let mut q = InputQueue::new(Some(2), Some(16));
    q.add_input(record(0, vec![true, true]));

    let (is_prediction, rec) = q.get_input(5);
    assert_eq!(true, is_prediction);
    let rec = rec.unwrap();
    assert_eq!(Some(5), rec.frame);
    assert_eq!(true, rec.bits[0]);
    assert_eq!(true, rec.bits[1]);

    assert!(q.get_confirmed_input(5).is_none());
}

// a real input that disagrees with the outstanding prediction records the
// first incorrect frame
#[test]
fn input_queue_mismatching_input_marks_first_incorrect_frame() {
    let mut q = InputQueue::new(Some(2), Some(16));
    q.set_frame_delay(2);

    // lands on frame 2, replicating all-false predictions into frames 0 and 1
    q.add_input(record(0, vec![false, false]));
    assert_eq!(None, q.get_first_incorrect_frame());

    // lands on frame 3 and disagrees with the all-false prediction
    q.add_input(record(1, vec![true, false]));
    assert_eq!(Some(3), q.get_first_incorrect_frame());
}

// resetting at or before the first incorrect frame clears the prediction
// markers from that frame onward
#[test]
fn input_queue_reset_prediction_clears_markers() {
    let mut q = InputQueue::new(Some(2), Some(16));
    q.set_frame_delay(2);
    q.add_input(record(0, vec![false, false]));
    q.add_input(record(1, vec![true, false]));
    assert_eq!(Some(3), q.get_first_incorrect_frame());

    q.reset_prediction(0);

    assert_eq!(None, q.get_first_incorrect_frame());
    // the previously predicted frames now read back confirmed
    let (is_prediction, rec) = q.get_input(0);
    assert_eq!(false, is_prediction);
    assert!(rec.is_some());
    assert!(q.get_confirmed_input(1).is_some());
}

// resetting at the first incorrect frame leaves earlier prediction markers
// in place
#[test]
fn input_queue_reset_prediction_keeps_earlier_markers() {
    let mut q = InputQueue::new(Some(2), Some(16));
    q.set_frame_delay(2);
    q.add_input(record(0, vec![false, false]));
    q.add_input(record(1, vec![true, false]));
    assert_eq!(Some(3), q.get_first_incorrect_frame());

    q.reset_prediction(3);

    assert_eq!(None, q.get_first_incorrect_frame());
    // frames 0 and 1 were predicted before frame 3 and stay predicted
    let (is_prediction, _) = q.get_input(0);
    assert_eq!(true, is_prediction);
    let (is_prediction, _) = q.get_input(1);
    assert_eq!(true, is_prediction);
}

// lowering the frame delay makes the next input land before the expected
// frame; it is dropped rather than rewriting history
#[test]
fn input_queue_input_before_expected_frame_is_dropped() {
    let mut q = InputQueue::new(Some(2), Some(16));
    q.set_frame_delay(3);
    q.add_input(record(0, vec![true, false]));
    assert_eq!(Some(3), q.get_last_confirmed_frame());
    assert_eq!(4, q.get_length());

    q.set_frame_delay(0);
    q.add_input(record(1, vec![false, true]));

    assert_eq!(Some(3), q.get_last_confirmed_frame());
    assert_eq!(4, q.get_length());
}

// discarding reclaims confirmed frames at or before the given one
#[test]
fn input_queue_discard_confirmed_frames_reclaims_space() {
    let mut q = InputQueue::new(Some(2), Some(8));
    q.add_input(record(0, vec![true, false]));
    q.add_input(record(1, vec![false, true]));
    q.add_input(record(2, vec![true, true]));
    assert_eq!(3, q.get_length());

    q.discard_confirmed_frames(1);

    assert_eq!(1, q.get_length());
    assert!(q.get_confirmed_input(1).is_none());
    let (is_prediction, rec) = q.get_input(1);
    assert_eq!(false, is_prediction);
    assert!(rec.is_none());

    let remaining = q.get_confirmed_input(2).unwrap();
    assert_eq!(Some(2), remaining.frame);
    assert_eq!(true, remaining.bits[0]);
    assert_eq!(true, remaining.bits[1]);
}

// discarding never reclaims the current prediction frame or later
#[test]
fn input_queue_discard_stops_before_prediction_frame() {
    let mut q = InputQueue::new(Some(2), Some(16));
    q.add_input(record(0, vec![true, false]));
    // raise the delay so the next input skips frames 1 and 2
    q.set_frame_delay(2);
    q.add_input(record(1, vec![true, false]));
    assert_eq!(4, q.get_length());

    // frames 1 and 2 are predictions; a discard through frame 5 may only
    // reclaim frame 0
    q.discard_confirmed_frames(5);

    assert_eq!(3, q.get_length());
    let (is_prediction, rec) = q.get_input(1);
    assert_eq!(true, is_prediction);
    assert!(rec.is_some());
}

#[test]
fn input_queue_same_value_does_not_mark_incorrect() {
    let mut q = InputQueue::new(Some(2), Some(16));
    q.set_frame_delay(2);
    q.add_input(record(0, vec![false, false]));
    // agrees with the all-false prediction
    q.add_input(record(1, vec![false, false]));

    assert_eq!(None, q.get_first_incorrect_frame());
}
