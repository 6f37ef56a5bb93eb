use std::path::Path;
use codex_tui::approvals::{exec_snippet, non_empty_exec_snippet, truncate_exec_snippet};
use codex_tui::command::{
    escape_command, extract_shell_script, file_name_of, file_stem_of, join_with_spaces, strip_bash_lc_and_escape,
};
use codex_tui::text::{
    chars_of, decimal_string, is_whitespace_char, first_line_marked_string, is_blank, str_equal, string_from_chars,
    truncate_by_clusters, truncate_text,
};

fn words(ws: &[&str]) -> Vec<String> {
    ws.iter().map(|w| w.to_string()).collect()
}

#[test]
fn bash_lc_script_is_shown_verbatim() {
    assert_eq!(strip_bash_lc_and_escape(&words(&["bash", "-lc", "echo hi && ls"])), "echo hi && ls");
    assert_eq!(strip_bash_lc_and_escape(&words(&["/bin/zsh", "-c", "ls -la"])), "ls -la");
    assert_eq!(strip_bash_lc_and_escape(&words(&["/usr/bin/sh", "-lc", "pwd"])), "pwd");
}

#[test]
fn other_commands_are_shell_escaped() {
    assert_eq!(strip_bash_lc_and_escape(&words(&["ls", "-la", "my file"])), "ls -la 'my file'");
    assert_eq!(strip_bash_lc_and_escape(&words(&["bash", "-x", "echo hi"])), "bash -x 'echo hi'");
    assert_eq!(strip_bash_lc_and_escape(&words(&["fish", "-c", "ls"])), "fish -c ls");
    assert_eq!(strip_bash_lc_and_escape(&words(&["bash", "-lc"])), "bash -lc");
}

#[test]
fn nul_bytes_fall_back_to_plain_join() {
    assert_eq!(escape_command(&words(&["echo", "a\0b"])), "echo a\0b");
    assert_eq!(join_with_spaces(&words(&["a", "b", "c"])), "a b c");
    assert_eq!(join_with_spaces(&words(&[])), "");
}

#[test]
fn shell_script_extraction() {
    assert_eq!(extract_shell_script(&words(&["bash", "-lc", "x"])), Some("x".to_string()));
    assert_eq!(extract_shell_script(&words(&["python", "-c", "x"])), None);
    assert_eq!(file_name_of("/usr/local/bin/bash"), Some("bash".to_string()));
    assert_eq!(file_name_of("bash"), Some("bash".to_string()));
    assert_eq!(file_name_of("dir/"), Some("dir".to_string()));
}

#[test]
fn multi_line_snippet_keeps_first_line() {
    assert_eq!(truncate_exec_snippet("echo one\necho two"), "echo one ...");
    assert_eq!(truncate_exec_snippet("single line"), "single line");
    assert_eq!(first_line_marked_string("\nrest"), " ...");
}

#[test]
fn long_snippet_is_cut_to_eighty_graphemes() {
    let long = "a".repeat(100);
    let snippet = truncate_exec_snippet(&long);
    assert_eq!(snippet, format!("{}...", "a".repeat(77)));
    let exact = "b".repeat(80);
    assert_eq!(truncate_exec_snippet(&exact), exact);
    let over = "c".repeat(81);
    assert_eq!(truncate_exec_snippet(&over), format!("{}...", "c".repeat(77)));
}

#[test]
fn exec_snippet_of_commands() {
    assert_eq!(exec_snippet(&words(&["bash", "-lc", "cargo test\ncargo fmt"])), "cargo test ...");
    assert_eq!(exec_snippet(&words(&["git", "status"])), "git status");
    assert_eq!(non_empty_exec_snippet(&words(&["git", "status"])), Some("git status".to_string()));
    assert_eq!(non_empty_exec_snippet(&words(&[])), None);
    assert_eq!(non_empty_exec_snippet(&words(&["bash", "-lc", ""])), None);
}

#[test]
fn truncation_counts_grapheme_clusters() {
    // "e" followed by a combining acute accent is one cluster.
    let accented = "e\u{301}e\u{301}e\u{301}";
    assert_eq!(truncate_text(accented, 3), accented);
    assert_eq!(truncate_text(accented, 1), "e\u{301}");
    assert_eq!(truncate_text(accented, 2), "e\u{301}e\u{301}");
    assert_eq!(truncate_text("abcdef", 4), "a...");
    assert_eq!(truncate_text("abcdef", 3), "...");
    assert_eq!(truncate_text("abcdef", 0), "");
}

#[test]
fn truncation_from_given_clusters() {
    let clusters = words(&["ab", "c", "d", "e", "f"]);
    assert_eq!(truncate_by_clusters("abcdef", &clusters, 4), "ab...");
    assert_eq!(truncate_by_clusters("abcdef", &clusters, 2), "abc");
    assert_eq!(truncate_by_clusters("abcdef", &clusters, 5), "abcdef");
}

#[test]
fn text_helpers() {
    assert_eq!(decimal_string(0), "0");
    assert_eq!(decimal_string(7), "7");
    assert_eq!(decimal_string(1234), "1234");
    assert_eq!(decimal_string(usize::MAX), usize::MAX.to_string());
    assert!(is_blank(""));
    assert!(is_blank(" \t\n\u{3000}"));
    assert!(!is_blank("  x "));
    assert!(str_equal("计划", "计划"));
    assert!(!str_equal("计划", "计"));
    assert_eq!(chars_of("a计b"), vec!['a', '计', 'b']);
    assert_eq!(string_from_chars(&vec!['x', 'y', 'z'], 1, 3), "yz");
}

#[test]
fn whitespace_matches_std_for_every_char() {
    for u in 0u32..=0x10ffff {
        if let Some(c) = char::from_u32(u) {
            assert_eq!(is_whitespace_char(c), c.is_whitespace(), "U+{u:04X}");
        }
    }
}

#[test]
fn shell_detection_goes_by_file_stem() {
    assert_eq!(file_stem_of("C:/tools/bash.exe"), Some("bash".to_string()));
    assert_eq!(file_stem_of("/bin/zsh"), Some("zsh".to_string()));
    assert_eq!(file_stem_of(".bashrc"), Some(".bashrc".to_string()));
    assert_eq!(file_stem_of("a.b.c"), Some("a.b".to_string()));
    assert_eq!(file_stem_of("foo."), Some("foo".to_string()));
    assert_eq!(file_stem_of(".."), None);
    assert_eq!(strip_bash_lc_and_escape(&words(&["bash.exe", "-lc", "dir"])), "dir");
    assert_eq!(strip_bash_lc_and_escape(&words(&["bash.exe.bak", "-lc", "dir"])), "dir");
    assert_eq!(strip_bash_lc_and_escape(&words(&["/bin/bash/", "-lc", "x"])), "x");
    assert_eq!(strip_bash_lc_and_escape(&words(&["/bin/bash/.", "-c", "x"])), "x");
}

#[test]
fn empty_and_plain_commands() {
    assert_eq!(escape_command(&words(&[])), "");
    assert_eq!(exec_snippet(&words(&[])), "");
    assert_eq!(escape_command(&words(&["cargo", "build", "--release", "./a_b-1.2:x@y/z]"])), "cargo build --release ./a_b-1.2:x@y/z]");
}

#[test]
fn file_names_follow_path_components() {
    for p in ["/", "", ".", "..", "a/..", "a/.", "a//", "/a/b/", "./a", "a.b/", "/.", "x/./."] {
        let ours = file_name_of(p);
        let std_name = Path::new(p).file_name().map(|n| n.to_str().unwrap().to_string());
        assert_eq!(ours, std_name, "file name of {p:?}");
        let std_stem = Path::new(p).file_stem().map(|n| n.to_str().unwrap().to_string());
        assert_eq!(file_stem_of(p), std_stem, "file stem of {p:?}");
    }
}
