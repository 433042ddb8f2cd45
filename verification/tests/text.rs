use getcmd::text::{is_white_space_char, join_with_spaces, split_on_spaces, strip_fence, trim};

fn strings(parts: &[&str]) -> Vec<String> {
    parts.iter().map(|p| p.to_string()).collect()
}

#[test]
fn join_puts_one_space_between_parts() {
    assert_eq!(join_with_spaces(&strings(&["list", "all", "files"])), "list all files");
}

#[test]
fn join_of_one_part_is_the_part() {
    assert_eq!(join_with_spaces(&strings(&["ls"])), "ls");
}

#[test]
fn join_of_nothing_is_empty() {
    assert_eq!(join_with_spaces(&Vec::new()), "");
}

#[test]
fn join_keeps_empty_parts() {
    assert_eq!(join_with_spaces(&strings(&["a", "", "b"])), "a  b");
}

#[test]
fn join_agrees_with_std() {
    let parts = strings(&["find", ".", "-name", "*.rs"]);
    assert_eq!(join_with_spaces(&parts), parts.join(" "));
}

#[test]
fn split_at_every_space() {
    assert_eq!(split_on_spaces("ls -la /tmp"), strings(&["ls", "-la", "/tmp"]));
}

#[test]
fn split_keeps_empty_pieces() {
    assert_eq!(split_on_spaces("a  b"), strings(&["a", "", "b"]));
    assert_eq!(split_on_spaces(" a "), strings(&["", "a", ""]));
}

#[test]
fn split_of_empty_text_is_one_empty_piece() {
    assert_eq!(split_on_spaces(""), strings(&[""]));
}

#[test]
fn split_leaves_other_white_space() {
    assert_eq!(split_on_spaces("a\tb\nc d"), strings(&["a\tb\nc", "d"]));
}

#[test]
fn split_agrees_with_std() {
    for s in ["", " ", "  ", "echo hello", " echo  hello ", "printf 'a b'", "héllo wörld"] {
        let expected: Vec<String> = s.split(' ').map(|p| p.to_string()).collect();
        assert_eq!(split_on_spaces(s), expected);
    }
}

#[test]
fn split_then_join_gives_the_text_back() {
    for s in ["", " ", "a", "a b", " a  b ", "tar -xzf x.tgz -C /"] {
        assert_eq!(join_with_spaces(&split_on_spaces(s)), s);
    }
}

#[test]
fn join_then_split_gives_the_parts_back() {
    let parts = strings(&["git", "log", "--oneline", ""]);
    assert_eq!(split_on_spaces(&join_with_spaces(&parts)), parts);
}

#[test]
fn strip_removes_every_fence() {
    assert_eq!(strip_fence("`ls` `-la`"), "ls -la");
    assert_eq!(strip_fence("```ls```"), "ls");
}

#[test]
fn strip_leaves_a_text_without_fences() {
    assert_eq!(strip_fence("echo 'hi'"), "echo 'hi'");
    assert_eq!(strip_fence(""), "");
}

#[test]
fn strip_of_fences_alone_is_empty() {
    assert_eq!(strip_fence("``"), "");
}

#[test]
fn strip_agrees_with_std() {
    for s in ["`a`", "a`b`c", "é`ü", "no fence"] {
        assert_eq!(strip_fence(s), s.replace('`', ""));
    }
}

#[test]
fn white_space_is_what_std_calls_white_space() {
    for code in 0..=0x10ffff_u32 {
        if let Some(c) = char::from_u32(code) {
            assert_eq!(is_white_space_char(c), c.is_whitespace(), "U+{:04X}", code);
        }
    }
}

#[test]
fn trim_removes_white_space_at_both_ends() {
    assert_eq!(trim("  y \n"), "y");
    assert_eq!(trim("\t a b \r\n"), "a b");
}

#[test]
fn trim_of_white_space_alone_is_empty() {
    assert_eq!(trim(" \t\n"), "");
    assert_eq!(trim(""), "");
}

#[test]
fn trim_agrees_with_std() {
    for s in [" y\n", "y", "\t\u{a0}y es\u{3000}", "   ", "", "\u{200b}y", "a  b", " \u{2003}x\u{85}"] {
        assert_eq!(trim(s), s.trim());
    }
}
