use dot_agent_deck::mode_manager::{watch_invocation, watch_invocation_windows};

#[test]
fn watch_invocation_quotes_spaced_executable_posix() {
    let line = watch_invocation("/opt/My Deck/dot-agent-deck", 10, "npm run dev");
    assert_eq!(line, "'/opt/My Deck/dot-agent-deck' watch --interval 10 'npm run dev'");
}

#[test]
fn watch_invocation_quotes_command_with_shell_metacharacters_posix() {
    let command = r#"echo $HOME `whoami` \backslash "double" ; & | > out < in *.rs ?glob (sub)"#;
    let line = watch_invocation("/usr/local/bin/dot-agent-deck", 5, command);
    assert_eq!(
        line,
        format!("'/usr/local/bin/dot-agent-deck' watch --interval 5 '{command}'")
    );
}

#[test]
fn watch_invocation_escapes_embedded_single_quote_posix() {
    let line = watch_invocation("/usr/local/bin/dot-agent-deck", 10, "it's a test");
    assert_eq!(
        line,
        r"'/usr/local/bin/dot-agent-deck' watch --interval 10 'it'\''s a test'"
    );
}

#[test]
fn watch_invocation_preserves_real_newline_posix() {
    let line = watch_invocation("/usr/local/bin/dot-agent-deck", 10, "line one\nline two");
    assert_eq!(
        line,
        "'/usr/local/bin/dot-agent-deck' watch --interval 10 'line one\nline two'"
    );
}

#[test]
fn watch_invocation_matches_pre_157_main_on_windows() {
    let line = watch_invocation_windows(r"C:\Program Files\My Deck\dot-agent-deck.exe", 10, "npm run dev");
    assert_eq!(
        line,
        r#"C:\Program Files\My Deck\dot-agent-deck.exe watch --interval 10 "npm run dev""#
    );
}

#[test]
fn watch_invocation_reproduces_mains_a1_vulnerability_on_windows() {
    let command = r#"echo ok" & calc.exe & rem ""#;
    let line = watch_invocation_windows(r"C:\deck\dot-agent-deck.exe", 5, command);
    assert_eq!(line, format!(r"C:\deck\dot-agent-deck.exe watch --interval 5 {command:?}"));
}
