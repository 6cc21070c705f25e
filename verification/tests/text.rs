use autonomous_navigation::text::{
    chars_of, find, is_text, is_white_space, lines, pieces, push_decimal, push_joined, same_text, slice_of, stands,
    string_of, trim, word_after,
};

fn words(parts: &Vec<Vec<char>>) -> Vec<String> {
    parts.iter().map(|p| p.iter().collect()).collect()
}

#[test]
fn lines_drop_their_ends_and_the_empty_tail() {
    assert_eq!(words(&lines(&chars_of("a\nb\r\n\nc"))), vec!["a", "b", "", "c"]);
    assert_eq!(words(&lines(&chars_of("a\n"))), vec!["a"]);
    assert_eq!(lines(&chars_of("")).len(), 0);
    for text in ["a\nb\r\n\nc", "a\n", "", "\n\n", "x\r"] {
        let expected: Vec<&str> = text.lines().collect();
        assert_eq!(words(&lines(&chars_of(text))), expected);
    }
}

#[test]
fn pieces_keep_empty_fields() {
    assert_eq!(words(&pieces(&chars_of("1,,2,"), ',')), vec!["1", "", "2", ""]);
    assert_eq!(words(&pieces(&chars_of(""), ',')), vec![""]);
}

#[test]
fn joining_and_splitting_agree() {
    let parts = vec!["x".to_string(), "".to_string(), "yz".to_string()];
    let mut joined = String::new();
    push_joined(&mut joined, &parts, ';');
    assert_eq!(joined, "x;;yz");
    assert_eq!(words(&pieces(&chars_of(&joined), ';')), parts);
}

#[test]
fn trim_takes_white_space_off_both_ends() {
    for text in ["  a b\t", "", " \u{a0}\u{2003}x\u{3000}", "x", "\r\n"] {
        assert_eq!(trim(&chars_of(text)).iter().collect::<String>(), text.trim());
    }
}

#[test]
fn white_space_is_that_of_the_standard_library() {
    for code in 0u32..0x3100 {
        if let Some(c) = char::from_u32(code) {
            assert_eq!(is_white_space(c), c.is_whitespace(), "U+{:04X}", code);
        }
    }
}

#[test]
fn words_are_found_behind_white_space() {
    let s = chars_of("X =  1.5E+00 Y");
    assert_eq!(word_after(&s, 3), Some("1.5E+00".to_string()));
    assert_eq!(word_after(&s, 14), None);
}

#[test]
fn the_first_occurrence_is_found() {
    let s = chars_of("VX=VY=VX=");
    assert_eq!(find(&s, &chars_of("VX=")), Some(0));
    assert_eq!(find(&s, &chars_of("VY=")), Some(3));
    assert_eq!(find(&s, &chars_of("VZ=")), None);
    assert_eq!(find(&s, &chars_of("")), Some(0));
    assert!(stands(&s, &chars_of("VX="), 6));
    assert!(!stands(&s, &chars_of("VX=="), 6));
}

#[test]
fn texts_are_compared_whole() {
    assert!(is_text("--dt", "--dt"));
    assert!(!is_text("--dt", "--dtt"));
    assert!(same_text(&chars_of("é1"), &chars_of("é1")));
    assert!(!same_text(&chars_of("é1"), &chars_of("é2")));
}

#[test]
fn parts_are_cut_out() {
    let s = chars_of("naïve");
    assert_eq!(string_of(&s, 2, 5), "ïve");
    assert_eq!(slice_of(&s, 0, 2), vec!['n', 'a']);
}

#[test]
fn decimals_are_written_as_usual() {
    for n in [0u64, 9, 10, 8_000, 65_535, u64::MAX] {
        let mut s = String::from("n=");
        push_decimal(&mut s, n);
        assert_eq!(s, format!("n={}", n));
    }
}
