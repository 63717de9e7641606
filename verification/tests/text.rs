use branchless_test::text::{decimal_text, signed_decimal_text, split_lines};

#[test]
fn decimal_of_unsigned_numbers() {
    assert_eq!(decimal_text(0), "0");
    assert_eq!(decimal_text(9), "9");
    assert_eq!(decimal_text(10), "10");
    assert_eq!(decimal_text(1203), "1203");
    assert_eq!(decimal_text(usize::MAX), usize::MAX.to_string());
}

#[test]
fn decimal_of_signed_numbers() {
    assert_eq!(signed_decimal_text(0), "0");
    assert_eq!(signed_decimal_text(-1), "-1");
    assert_eq!(signed_decimal_text(127), "127");
    assert_eq!(signed_decimal_text(i32::MAX), "2147483647");
    assert_eq!(signed_decimal_text(i32::MIN), "-2147483648");
}

#[test]
fn lines_of_texts() {
    assert_eq!(split_lines(""), Vec::<String>::new());
    assert_eq!(split_lines("a"), vec!["a"]);
    assert_eq!(split_lines("a\n"), vec!["a"]);
    assert_eq!(split_lines("a\n\nb"), vec!["a", "", "b"]);
    assert_eq!(split_lines("\n"), vec![""]);
    assert_eq!(split_lines("a\r\nb\r\n"), vec!["a", "b"]);
    assert_eq!(split_lines("a\rb\r"), vec!["a\rb\r"]);
    assert_eq!(split_lines("a\r\r\nb"), vec!["a\r", "b"]);
    assert_eq!(split_lines("\r\n\r"), vec!["", "\r"]);
}

#[test]
fn lines_agree_with_str_lines() {
    let texts = [
        "", "\n", "\r", "\r\n", "a\nb", "a\r\nb\r", "\n\n\n", "x\r\r\n\ry\n", "ä\nö\r\n", "\r\r\r",
    ];
    for text in texts {
        let lines: Vec<String> = text.lines().map(|line| line.to_string()).collect();
        assert_eq!(split_lines(text), lines);
    }
}
