use rip8::decode::{op_addr, op_byte, op_group, op_nibble, op_x, op_y};

#[test]
fn fields_of_a_word() {
    assert_eq!(op_group(0xD5A7), 0xD);
    assert_eq!(op_x(0xD5A7), 0x5);
    assert_eq!(op_y(0xD5A7), 0xA);
    assert_eq!(op_nibble(0xD5A7), 0x7);
    assert_eq!(op_byte(0xD5A7), 0xA7);
    assert_eq!(op_addr(0xD5A7), 0x5A7);
}

#[test]
fn fields_of_the_extreme_words() {
    assert_eq!(op_group(0x0000), 0);
    assert_eq!(op_addr(0x0000), 0);
    assert_eq!(op_group(0xFFFF), 0xF);
    assert_eq!(op_x(0xFFFF), 0xF);
    assert_eq!(op_y(0xFFFF), 0xF);
    assert_eq!(op_nibble(0xFFFF), 0xF);
    assert_eq!(op_byte(0xFFFF), 0xFF);
    assert_eq!(op_addr(0xFFFF), 0xFFF);
}
