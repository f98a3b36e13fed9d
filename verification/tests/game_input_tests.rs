use rmercury::game_input::GameInput;

fn empty_bits(max_bytes: usize) -> Vec<bool> {
    vec![false; max_bytes * 8]
}

// new tests
#[test]
fn game_input_new_sets_proper_values() {
    let input = GameInput::new(3, 4, 5);

    assert_eq!(3, input.max_bytes);
    assert_eq!(4, input.max_players);
    assert_eq!(5, input.byte_size_of_all_input_for_all_players);
    assert_eq!(Some(0), input.frame);
    assert_eq!(empty_bits(input.max_bytes), input.bits);
}

// constructing succeeds for any configuration the bit-index space can address
#[test]
fn game_input_new_accepts_addressable_configurations() {
    let small = GameInput::new(1, 1, 1);
    assert_eq!(8, small.bits.len());

    let widest = GameInput::new(31, 1, 31);
    assert_eq!(Some(0), widest.frame);
    assert_eq!(31 * 8, widest.bits.len());

    let multi = GameInput::new(7, 4, 20);
    assert_eq!(7, multi.max_bytes);
    assert_eq!(4, multi.max_players);
}

// init tests
#[test]
fn game_input_init_no_bits_sets_proper_values() {
    let max_bytes = 3;
    let max_players = 2;
    let byte_size_of_all_input_for_all_players = 3;

    let mut input = GameInput::new(max_bytes, max_players, byte_size_of_all_input_for_all_players);

    let frame = Some(2);
    let bits = None;
    let byte_size_of_all_input_for_all_players = 4;

    input.init(frame, bits, byte_size_of_all_input_for_all_players);

    assert_eq!(frame, input.frame);
    assert_eq!(
        byte_size_of_all_input_for_all_players,
        input.byte_size_of_all_input_for_all_players
    );
    assert_eq!(empty_bits(input.max_bytes), input.bits);
}

#[test]
fn game_input_init_has_bits_sets_proper_values() {
    let max_bytes = 3;
    let max_players = 2;
    let byte_size_of_all_input_for_all_players = 3;

    let mut input = GameInput::new(max_bytes, max_players, byte_size_of_all_input_for_all_players);

    let frame = Some(2);
    let bits = vec![true, false, true, false];

    let mut expected_bits = empty_bits(max_bytes);

    for (i, bit) in bits.iter().enumerate() {
        expected_bits[i] = *bit;
    }

    let byte_size_of_all_input_for_all_players = 4;
    input.init(frame, Some(bits), byte_size_of_all_input_for_all_players);

    assert_eq!(frame, input.frame);
    assert_eq!(
        byte_size_of_all_input_for_all_players,
        input.byte_size_of_all_input_for_all_players
    );
    assert_eq!(expected_bits, input.bits);
}

// init_offset tests
#[test]
fn game_input_init_offset_no_bits_sets_proper_values() {
    let max_bytes = 3;
    let max_players = 2;
    let byte_size_of_all_input_for_all_players = 2;

    let mut input = GameInput::new(max_bytes, max_players, byte_size_of_all_input_for_all_players);

    let offset = 0;
    let frame = Some(2);
    let bits = None;
    let byte_size_of_all_input_for_all_players = 3;

    input.init_offset(frame, bits, byte_size_of_all_input_for_all_players, offset);

    assert_eq!(frame, input.frame);
    assert_eq!(
        byte_size_of_all_input_for_all_players,
        input.byte_size_of_all_input_for_all_players
    );
    assert_eq!(empty_bits(input.max_bytes), input.bits);
}

#[test]
fn game_input_init_offset_has_bits_sets_proper_values() {
    let max_bytes = 3;
    let max_players = 2;
    let byte_size_of_all_input_for_all_players = 2;

    let mut input = GameInput::new(max_bytes, max_players, byte_size_of_all_input_for_all_players);

    let offset = 0;
    let frame = Some(2);
    let bits = vec![true, false, true, false];

    let mut expected_bits = empty_bits(max_bytes);

    for (i, bit) in bits.iter().enumerate() {
        expected_bits[i] = *bit;
    }

    let byte_size_of_all_input_for_all_players = 3;
    input.init_offset(frame, Some(bits), byte_size_of_all_input_for_all_players, offset);

    assert_eq!(frame, input.frame);
    assert_eq!(
        byte_size_of_all_input_for_all_players,
        input.byte_size_of_all_input_for_all_players
    );
    assert_eq!(expected_bits, input.bits);
}

#[test]
fn game_input_init_offset_with_offset_no_bits_sets_proper_values() {
    let max_bytes = 3;
    let max_players = 2;
    let byte_size_of_all_input_for_all_players = 2;

    let mut input = GameInput::new(max_bytes, max_players, byte_size_of_all_input_for_all_players);

    let offset = 2;
    let frame = Some(2);
    let bits = None;
    let byte_size_of_all_input_for_all_players = 3;

    input.init_offset(frame, bits, byte_size_of_all_input_for_all_players, offset);

    assert_eq!(frame, input.frame);
    assert_eq!(
        byte_size_of_all_input_for_all_players,
        input.byte_size_of_all_input_for_all_players
    );
    assert_eq!(empty_bits(input.max_bytes), input.bits);
}

#[test]
fn game_input_init_offset_has_bits_with_offset3_sets_proper_values() {
    let max_bytes = 5;
    let max_players = 2;
    let byte_size_of_all_input_for_all_players = 5;

    let mut input = GameInput::new(max_bytes, max_players, byte_size_of_all_input_for_all_players);

    let offset = 3;
    let frame = Some(2);
    let bits = vec![true, false, true, false];

    let mut expected_bits = empty_bits(max_bytes);

    for (i, bit) in bits.iter().enumerate() {
        expected_bits[i + (offset * byte_size_of_all_input_for_all_players)] = *bit;
    }

    let byte_size_of_all_input_for_all_players = 5;
    input.init_offset(frame, Some(bits), byte_size_of_all_input_for_all_players, offset);

    assert_eq!(frame, input.frame);
    assert_eq!(
        byte_size_of_all_input_for_all_players,
        input.byte_size_of_all_input_for_all_players
    );
    assert_eq!(expected_bits, input.bits);
}

#[test]
fn game_input_init_offset_has_bits_with_offset1_sets_proper_values() {
    let max_bytes = 5;
    let max_players = 2;
    let byte_size_of_all_input_for_all_players = 5;

    let mut input = GameInput::new(max_bytes, max_players, byte_size_of_all_input_for_all_players);

    let offset = 1;
    let frame = Some(2);
    let bits = vec![true, false, true, false];

    let mut expected_bits = empty_bits(max_bytes);

    for (i, bit) in bits.iter().enumerate() {
        expected_bits[i + (offset * byte_size_of_all_input_for_all_players)] = *bit;
    }

    let byte_size_of_all_input_for_all_players = 5;
    input.init_offset(frame, Some(bits), byte_size_of_all_input_for_all_players, offset);

    assert_eq!(frame, input.frame);
    assert_eq!(
        byte_size_of_all_input_for_all_players,
        input.byte_size_of_all_input_for_all_players
    );
    assert_eq!(expected_bits, input.bits);
}

// is_null tests
#[test]
fn game_input_is_null_not_null_frame_returns_false() {
    let max_bytes = 5;
    let max_players = 2;
    let byte_size_of_all_input_for_all_players = 5;

    let mut input = GameInput::new(max_bytes, max_players, byte_size_of_all_input_for_all_players);

    let offset = 1;
    let frame = Some(2);
    let bits = vec![true, false, true, false];

    let byte_size_of_all_input_for_all_players = 5;
    input.init_offset(frame, Some(bits), byte_size_of_all_input_for_all_players, offset);

    let actual = input.is_null();
    let expected = false;

    assert_eq!(expected, actual);
}

#[test]
fn game_input_is_null_null_frame_returns_true() {
    let max_bytes = 5;
    let max_players = 2;
    let byte_size_of_all_input_for_all_players = 5;

    let mut input = GameInput::new(max_bytes, max_players, byte_size_of_all_input_for_all_players);

    let offset = 1;
    let frame = None;
    let bits = vec![true, false, true, false];

    let byte_size_of_all_input_for_all_players = 5;
    input.init_offset(frame, Some(bits), byte_size_of_all_input_for_all_players, offset);

    let actual = input.is_null();
    let expected = true;

    assert_eq!(expected, actual);
}

// value tests
#[test]
fn game_input_value_index_2_returns_false() {
    let max_bytes = 5;
    let max_players = 2;
    let byte_size_of_all_input_for_all_players = 5;

    let mut input = GameInput::new(max_bytes, max_players, byte_size_of_all_input_for_all_players);

    let frame = None;
    let bits = vec![true, false, false, false];

    let byte_size_of_all_input_for_all_players = 5;
    input.init(frame, Some(bits), byte_size_of_all_input_for_all_players);

    let actual = input.value(2);
    let expected = false;

    assert_eq!(expected, actual);
}

#[test]
fn game_input_value_index_4_returns_true() {
    let max_bytes = 5;
    let max_players = 2;
    let byte_size_of_all_input_for_all_players = 5;

    let mut input = GameInput::new(max_bytes, max_players, byte_size_of_all_input_for_all_players);

    let frame = None;
    let bits = vec![true, false, false, false, true];

    let byte_size_of_all_input_for_all_players = 5;
    input.init(frame, Some(bits), byte_size_of_all_input_for_all_players);

    let actual = input.value(4);
    let expected = true;

    assert_eq!(expected, actual);
}

// set tests
#[test]
fn game_input_set_index_2_sets_proper_value() {
    let max_bytes = 5;
    let max_players = 2;
    let byte_size_of_all_input_for_all_players = 5;

    let mut input = GameInput::new(max_bytes, max_players, byte_size_of_all_input_for_all_players);

    let i = 2;

    input.set(i);

    let actual = input.value(i);
    let expected = true;

    assert_eq!(expected, actual);
}

#[test]
fn game_input_set_index_5_sets_proper_value() {
    let max_bytes = 5;
    let max_players = 2;
    let byte_size_of_all_input_for_all_players = 5;

    let mut input = GameInput::new(max_bytes, max_players, byte_size_of_all_input_for_all_players);

    let i = 5;

    input.set(i);

    let actual = input.value(i);
    let expected = true;

    assert_eq!(expected, actual);
}

// clear tests
#[test]
fn game_input_clear_index_2_clears_value() {
    let max_bytes = 5;
    let max_players = 2;
    let byte_size_of_all_input_for_all_players = 5;

    let mut input = GameInput::new(max_bytes, max_players, byte_size_of_all_input_for_all_players);

    let i = 2;
    input.set(i);
    input.clear(i);

    let actual = input.value(i);
    let expected = false;

    assert_eq!(expected, actual);
}

#[test]
fn game_input_clear_index_6_clears_value() {
    let max_bytes = 5;
    let max_players = 2;
    let byte_size_of_all_input_for_all_players = 5;

    let mut input = GameInput::new(max_bytes, max_players, byte_size_of_all_input_for_all_players);

    let i = 6;
    input.set(i);
    input.clear(i);

    let actual = input.value(i);
    let expected = false;

    assert_eq!(expected, actual);
}

// erase tests
#[test]
fn game_input_erase_clears_all_input() {
    let max_bytes = 5;
    let max_players = 2;
    let byte_size_of_all_input_for_all_players = 5;

    let mut input = GameInput::new(max_bytes, max_players, byte_size_of_all_input_for_all_players);

    let frame = None;
    let bits = vec![true, false, false, false, true];

    let expected_bits = empty_bits(max_bytes);

    let byte_size_of_all_input_for_all_players = 5;
    input.init(frame, Some(bits), byte_size_of_all_input_for_all_players);

    input.erase();
    let actual = input.bits;

    assert_eq!(expected_bits, actual);
}

// erase keeps the frame tag and the payload length
#[test]
fn game_input_erase_keeps_frame_and_size() {
    let mut input = GameInput::new(5, 2, 5);
    input.init(Some(9), Some(vec![true, true]), 4);

    input.erase();

    assert_eq!(Some(9), input.frame);
    assert_eq!(4, input.byte_size_of_all_input_for_all_players);
    for i in 0..(5 * 8) {
        assert_eq!(false, input.value(i));
    }
}

// equal tests
#[test]
fn game_input_equal_bits_only_matches_returns_true() {
    let max_bytes = 5;
    let byte_size_of_all_input_for_all_players = 5;

    let mut input1 = GameInput::new(max_bytes, 2, 4);

    let mut input2 = GameInput::new(max_bytes, 3, 5);

    let bits = vec![true, false, false, false, true];

    input1.init(Some(2), Some(bits.clone()), byte_size_of_all_input_for_all_players);
    input2.init(Some(3), Some(bits), byte_size_of_all_input_for_all_players);

    assert_eq!(true, input1.equal(&input2, true));
    assert_eq!(true, input2.equal(&input1, true));
}

#[test]
fn game_input_equal_bits_only_no_match_returns_false() {
    let max_bytes = 5;
    let byte_size_of_all_input_for_all_players = 5;

    let mut input1 = GameInput::new(max_bytes, 2, 4);

    let mut input2 = GameInput::new(max_bytes, 3, 5);

    let bits1 = vec![true, false, false, false, true];
    let bits2 = vec![true, true, false, false, true];

    input1.init(Some(2), Some(bits1), byte_size_of_all_input_for_all_players);
    input2.init(Some(3), Some(bits2), byte_size_of_all_input_for_all_players);

    assert_eq!(false, input1.equal(&input2, true));
    assert_eq!(false, input2.equal(&input1, true));
}

#[test]
fn game_input_equal_matches_returns_true() {
    let max_bytes = 5;
    let byte_size_of_all_input_for_all_players = 5;

    let mut input1 = GameInput::new(max_bytes, 2, 5);
    let mut input2 = GameInput::new(max_bytes, 3, 5);

    let bits = vec![true, false, false, false, true];

    input1.init(Some(2), Some(bits.clone()), byte_size_of_all_input_for_all_players);
    input2.init(Some(2), Some(bits), byte_size_of_all_input_for_all_players);

    assert_eq!(true, input1.equal(&input2, false));
    assert_eq!(true, input2.equal(&input1, false));
}

#[test]
fn game_input_equal_frames_dont_matches_returns_false() {
    let max_bytes = 5;
    let byte_size_of_all_input_for_all_players = 5;

    let mut input1 = GameInput::new(max_bytes, 2, 5);
    let mut input2 = GameInput::new(max_bytes, 3, 5);

    let bits = vec![true, false, false, false, true];

    input1.init(Some(2), Some(bits.clone()), byte_size_of_all_input_for_all_players);
    input2.init(Some(3), Some(bits), byte_size_of_all_input_for_all_players);

    assert_eq!(false, input1.equal(&input2, false));
    assert_eq!(false, input2.equal(&input1, false));
}

#[test]
fn game_input_equal_bits_dont_matches_returns_false() {
    let max_bytes = 5;
    let byte_size_of_all_input_for_all_players = 5;

    let mut input1 = GameInput::new(max_bytes, 2, 5);
    let mut input2 = GameInput::new(max_bytes, 3, 5);

    let bits1 = vec![true, false, false, false, true];
    let bits2 = vec![true, false, false, false, false];

    input1.init(Some(2), Some(bits1), byte_size_of_all_input_for_all_players);
    input2.init(Some(2), Some(bits2), byte_size_of_all_input_for_all_players);

    assert_eq!(false, input1.equal(&input2, false));
    assert_eq!(false, input2.equal(&input1, false));
}

#[test]
fn game_input_equal_sizes_dont_matches_returns_false() {
    let max_bytes = 5;
    let byte_size_of_all_input_for_all_players = 5;

    let mut input1 = GameInput::new(max_bytes, 2, 5);
    let mut input2 = GameInput::new(max_bytes, 3, 5);

    let bits = vec![true, false, false, false, true];
    let _ = byte_size_of_all_input_for_all_players;

    input1.init(Some(2), Some(bits.clone()), 4);
    input2.init(Some(2), Some(bits), 3);

    assert_eq!(false, input1.equal(&input2, false));
    assert_eq!(false, input2.equal(&input1, false));
}

// round trip: initializing with bits at an offset reproduces exactly those
// bits at their offsets and zeros elsewhere
#[test]
fn game_input_init_offset_round_trip_reads_back_bits() {
    let mut input = GameInput::new(4, 2, 4);
    let bits = vec![true, false, true, true];
    input.init_offset(Some(1), Some(bits.clone()), 2, 3);

    let start = 3 * 2;
    for i in 0..(4 * 8) {
        if i >= start && i < start + bits.len() {
            assert_eq!(bits[i - start], input.value(i));
        } else {
            assert_eq!(false, input.value(i));
        }
    }
}
