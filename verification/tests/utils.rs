use trading_core::{get_greeting_message, split_at_colon};

#[test]
fn test_split_at_colon() {
    let s = "buy:apple";
    match split_at_colon(s) {
        Some((part1, part2)) => {
            assert_eq!(part1, "buy");
            assert_eq!(part2, "apple");
        }
        None => assert!(false),
    }
}

#[test]
fn test_split_at_colon_with_spaces() {
    let s = "buy : apple  ";
    match split_at_colon(s) {
        Some((part1, part2)) => {
            assert_eq!(part1, "buy");
            assert_eq!(part2, "apple");
        }
        None => assert!(false),
    }
}

#[test]
fn test_split_at_colon_with_newline() {
    let s = "buy : apple  \n onion";
    match split_at_colon(s) {
        Some((part1, part2)) => {
            assert_eq!(part1, "buy");
            assert_eq!(part2, "apple");
        }
        None => assert!(false),
    }
}

#[test]
fn test_split_at_colon_no_action() {
    let s = "apple  ";
    assert!(split_at_colon(s).is_none());
}

#[test]
fn test_split_at_colon_no_action_newline() {
    let s = "buy\n: apple";
    assert!(split_at_colon(s).is_none());
}

#[test]
fn test_split_at_colon_no_action_newline_before_colon() {
    let s = "buy:\n apple";
    match split_at_colon(s) {
        Some((part1, part2)) => {
            assert_eq!(part1, "buy");
            assert_eq!(part2, "");
        }
        None => assert!(false),
    }
}

fn parts(left: &str, right: &str) -> Option<(String, String)> {
    Some((left.to_string(), right.to_string()))
}

#[test]
fn split_at_colon_edge_cases() {
    assert_eq!(split_at_colon(""), None);
    assert_eq!(split_at_colon("   \t "), None);
    assert_eq!(split_at_colon("\nbuy:apple"), None);
    assert_eq!(split_at_colon(":"), parts("", ""));
    assert_eq!(split_at_colon("  :  "), parts("", ""));
    assert_eq!(split_at_colon("a:b:c"), parts("a", "b:c"));
    assert_eq!(split_at_colon("::"), parts("", ":"));
    assert_eq!(split_at_colon(" a b : c d \r\n"), parts("a b", "c d"));
    assert_eq!(split_at_colon("\u{3000}k\u{e4}se\u{a0}:\u{2003}br\u{f6}t\u{2029}"), parts("k\u{e4}se", "br\u{f6}t"));
    assert_eq!(split_at_colon("x\u{200b}:y"), parts("x\u{200b}", "y"));
}

#[test]
fn split_at_colon_agrees_with_std_on_every_padding() {
    let spaces = [" ", "\t", "\u{b}", "\u{c}", "\r", "\u{85}", "\u{a0}", "\u{1680}", "\u{2000}",
        "\u{200a}", "\u{2028}", "\u{2029}", "\u{202f}", "\u{205f}", "\u{3000}", "\u{200b}",
        "\u{feff}", "\u{180e}", "\u{1c}", "\u{1f}", "_"];
    for pad in spaces {
        let line = format!("{0}buy{0}:{0}apple{0}", pad);
        let trimmed = line.trim();
        let index = trimmed.find(":").unwrap();
        let expected = (
            trimmed[0..index].trim().to_string(),
            trimmed[index + 1..].trim().to_string(),
        );
        assert_eq!(split_at_colon(&line), Some(expected));
    }
}

#[test]
fn greeting_message() {
    assert_eq!(get_greeting_message("127.0.0.1", 8080), "connected ('127.0.0.1', '8080')");
    assert_eq!(get_greeting_message("::1", 0), "connected ('::1', '0')");
    assert_eq!(get_greeting_message("", 65535), "connected ('', '65535')");
}
