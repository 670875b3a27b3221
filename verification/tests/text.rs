use riichi_hand::text::{append_decimal, decimal_string};

#[test]
fn should_write_integers_in_decimal_notation() {
    assert_eq!(decimal_string(0), "0");
    assert_eq!(decimal_string(7), "7");
    assert_eq!(decimal_string(10), "10");
    assert_eq!(decimal_string(-1), "-1");
    assert_eq!(decimal_string(1203400), "1203400");
    assert_eq!(decimal_string(-987654321), "-987654321");
    assert_eq!(decimal_string(i128::MAX), i128::MAX.to_string());
    assert_eq!(decimal_string(i128::MIN), i128::MIN.to_string());
    for value in -1100..1100 {
        assert_eq!(decimal_string(value), value.to_string());
    }
}

#[test]
fn should_append_to_the_text_that_is_there() {
    let mut text = String::from("at position ");
    append_decimal(&mut text, 42);
    assert_eq!(text, "at position 42");
    append_decimal(&mut text, -3);
    assert_eq!(text, "at position 42-3");
}
