use binbreak::binary::{group_digits, to_binary_digits, to_binary_string};

#[test]
fn digits_are_padded_to_the_width() {
    assert_eq!(to_binary_digits(5, 4), vec!['0', '1', '0', '1']);
    assert_eq!(to_binary_digits(0, 3), vec!['0', '0', '0']);
    assert_eq!(to_binary_digits(1, 1), vec!['1']);
    assert_eq!(to_binary_digits(7, 0), Vec::<char>::new());
    assert_eq!(to_binary_digits(170, 8), "10101010".chars().collect::<Vec<_>>());
}

#[test]
fn digits_above_the_width_are_left_out() {
    assert_eq!(to_binary_digits(0b1_0110, 4), vec!['0', '1', '1', '0']);
    assert_eq!(to_binary_digits(255, 2), vec!['1', '1']);
}

#[test]
fn digits_agree_with_the_standard_formatter() {
    for value in [0u32, 1, 2, 5, 170, 255, 4095, 43690, 65535] {
        for width in [16u32, 20, 32, 40] {
            let digits: String = to_binary_digits(value, width).into_iter().collect();
            assert_eq!(digits, format!("{:0width$b}", value, width = width as usize));
        }
    }
    let digits: String = to_binary_digits(u32::MAX, 32).into_iter().collect();
    assert_eq!(digits, format!("{:b}", u32::MAX));
}

#[test]
fn groups_are_four_digits_from_the_left() {
    let digits = |text: &str| text.chars().collect::<Vec<char>>();
    assert_eq!(group_digits(&digits("")), "");
    assert_eq!(group_digits(&digits("1")), "1");
    assert_eq!(group_digits(&digits("1010")), "1010");
    assert_eq!(group_digits(&digits("10101")), "1010 1");
    assert_eq!(group_digits(&digits("10101010")), "1010 1010");
    assert_eq!(group_digits(&digits("101010101")), "1010 1010 1");
}

#[test]
fn numbers_are_written_in_groups() {
    assert_eq!(to_binary_string(170, 8), "1010 1010");
    assert_eq!(to_binary_string(10, 4), "1010");
    assert_eq!(to_binary_string(1, 12), "0000 0000 0001");
    assert_eq!(to_binary_string(65535, 16), "1111 1111 1111 1111");
    assert_eq!(to_binary_string(1, 5), "0000 1");
    assert_eq!(to_binary_string(9, 0), "");
}
