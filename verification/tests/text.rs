use prompt::text::{as_text, chars_of, decimal_string, pad_left, replace_char};

#[test]
fn decimal_of_small_numbers() {
    assert_eq!(decimal_string(0), "0");
    assert_eq!(decimal_string(7), "7");
    assert_eq!(decimal_string(9), "9");
    assert_eq!(decimal_string(10), "10");
    assert_eq!(decimal_string(42), "42");
    assert_eq!(decimal_string(100), "100");
    assert_eq!(decimal_string(1234567890), "1234567890");
}

#[test]
fn decimal_agrees_with_std() {
    let samples = [0usize, 1, 9, 10, 11, 99, 100, 101, 999, 1000, 65535, 4294967295, usize::MAX];
    for sample in samples {
        assert_eq!(decimal_string(sample), sample.to_string());
    }
}

#[test]
fn pad_left_fills_up_to_the_width() {
    assert_eq!(pad_left("2", 3, "_"), "__2");
    assert_eq!(pad_left("12", 3, "_"), "_12");
    assert_eq!(pad_left("123", 3, "_"), "123");
    assert_eq!(pad_left("1234", 3, "_"), "1234");
    assert_eq!(pad_left("", 3, "_"), "___");
    assert_eq!(pad_left("x", 0, "_"), "x");
    assert_eq!(pad_left("é", 3, "_"), "__é");
    assert_eq!(pad_left("a", 3, "ab"), "ababa");
}

#[test]
fn pad_left_agrees_with_std() {
    let samples = ["", "0", "17", "255", "4096", "日本", "日本語"];
    for sample in samples {
        assert_eq!(pad_left(sample, 3, "_"), format!("{:_>3}", sample));
    }
}

#[test]
fn replace_char_replaces_every_occurrence() {
    assert_eq!(replace_char("a&b&c", '&', ","), "a,b,c");
    assert_eq!(replace_char("&&", '&', "and"), "andand");
    assert_eq!(replace_char("abc", '&', ","), "abc");
    assert_eq!(replace_char("", '&', ","), "");
    assert_eq!(replace_char("a&b", '&', ""), "ab");
    assert_eq!(replace_char("日&本", '&', ","), "日,本");
}

#[test]
fn chars_of_lists_characters() {
    assert_eq!(chars_of("a/é日"), vec!['a', '/', 'é', '日']);
    assert_eq!(chars_of(""), Vec::<char>::new());
}

#[test]
fn as_text_borrows() {
    assert_eq!(as_text(&Some("x".to_string())), Some("x"));
    assert_eq!(as_text(&None), None);
}
