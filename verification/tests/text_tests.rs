use softshell::text::{char_is_space, same_text, tokenize, trim};

fn strings(items: &[&str]) -> Vec<String> {
    items.iter().map(|s| s.to_string()).collect()
}

#[test]
fn tokenize_splits_on_runs_of_whitespace() {
    assert_eq!(tokenize("ls   -la\t/tmp"), strings(&["ls", "-la", "/tmp"]));
}

#[test]
fn tokenize_keeps_token_order() {
    assert_eq!(tokenize("c b a"), strings(&["c", "b", "a"]));
}

#[test]
fn tokenize_ignores_space_at_both_ends() {
    assert_eq!(tokenize("  echo hi \n"), strings(&["echo", "hi"]));
}

#[test]
fn tokenize_of_blank_line_is_empty() {
    assert_eq!(tokenize(""), Vec::<String>::new());
    assert_eq!(tokenize(" \t \r\n"), Vec::<String>::new());
}

#[test]
fn tokenize_agrees_with_split_whitespace() {
    for line in ["a", " a", "a ", "a  b", "\u{3000}x\u{2003}y\u{a0}", "é ü", "a.b x y"] {
        let expected: Vec<String> = line.split_whitespace().map(|s| s.to_string()).collect();
        assert_eq!(tokenize(line), expected);
    }
}

#[test]
fn trim_removes_space_at_both_ends_only() {
    assert_eq!(trim("  a  b \t"), "a  b");
    assert_eq!(trim("ab"), "ab");
    assert_eq!(trim(" \n "), "");
    assert_eq!(trim(""), "");
}

#[test]
fn trim_agrees_with_std() {
    for line in ["", " ", "x", " x", "x ", "\u{2028}é \u{1680}", "\t\ta b\u{85}"] {
        assert_eq!(trim(line), line.trim());
    }
}

#[test]
fn char_is_space_agrees_with_std() {
    let mut n: u32 = 0;
    while n < 0x3100 {
        if let Some(c) = char::from_u32(n) {
            assert_eq!(char_is_space(c), c.is_whitespace());
        }
        n += 1;
    }
}

#[test]
fn same_text_compares_characters() {
    assert!(same_text("exit", "exit"));
    assert!(!same_text("exit", "exi"));
    assert!(!same_text("exit", "exiT"));
    assert!(same_text("", ""));
}

#[test]
fn tokens_hold_the_characters_that_are_no_space_in_order() {
    for line in ["  ls   -la\t/tmp ", "a", "", " \t", "x\u{3000}y z"] {
        let joined: String = tokenize(line).concat();
        let kept: String = line.chars().filter(|c| !c.is_whitespace()).collect();
        assert_eq!(joined, kept);
    }
}

#[test]
fn tokens_are_never_empty_and_hold_no_space() {
    for token in tokenize(" a  bc\t d\u{a0}e \n") {
        assert!(!token.is_empty());
        assert!(!token.chars().any(|c| c.is_whitespace()));
    }
}

#[test]
fn trimming_changes_no_token() {
    for line in ["  ls   -la\t/tmp ", " a ", "", " \t", "x y"] {
        assert_eq!(tokenize(trim(line)), tokenize(line));
    }
}
