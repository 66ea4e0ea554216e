use kiya::text::{chars_of, find_chars, join_strings, push_decimal, same_text, skip_bytes};

#[test]
fn skip_ascii_bytes() {
    assert_eq!(skip_bytes("Reply to User: hi", 15), Some("hi".to_string()));
    assert_eq!(skip_bytes("abc", 3), Some(String::new()));
    assert_eq!(skip_bytes("abc", 4), None);
    assert_eq!(skip_bytes("", 0), Some(String::new()));
}

#[test]
fn skip_respects_characters() {
    // 'é' takes two bytes.
    assert_eq!(skip_bytes("éa", 2), Some("a".to_string()));
    assert_eq!(skip_bytes("éa", 1), None);
    assert_eq!(skip_bytes("日本", 3), Some("本".to_string()));
}

#[test]
fn find_first_occurrence() {
    let hay = chars_of("abcabc");
    assert_eq!(find_chars(&hay, &chars_of("bc")), Some(1));
    assert_eq!(find_chars(&hay, &chars_of("cab")), Some(2));
    assert_eq!(find_chars(&hay, &chars_of("x")), None);
    assert_eq!(find_chars(&hay, &chars_of("")), Some(0));
    assert_eq!(find_chars(&chars_of("ab"), &chars_of("abc")), None);
}

#[test]
fn decimal_digits() {
    for n in [0u64, 7, 10, 99, 100, 1234567890, u64::MAX] {
        let mut s = "x".to_string();
        push_decimal(&mut s, n);
        assert_eq!(s, format!("x{}", n));
    }
}

#[test]
fn joining() {
    let v = vec!["a".to_string(), "bb".to_string(), "c".to_string()];
    assert_eq!(join_strings(&v, ", "), "a, bb, c");
    assert_eq!(join_strings(&vec!["one".to_string()], ", "), "one");
    assert_eq!(join_strings(&Vec::new(), ", "), "");
}

#[test]
fn text_equality() {
    assert!(same_text("Alloy", "Alloy"));
    assert!(!same_text("Alloy", "alloy"));
    assert!(!same_text("a", "ab"));
}
