use crust::session::{plan_command, warning_line, banner_first, banner_second, prompt,
    erase_sequence, Action, ExecPlan, Key, Session};
use crust::tokens::{is_space_char, tokenize};

fn chars(s: &str) -> Vec<char> {
    s.chars().collect()
}

fn token_strings(toks: &[Vec<char>]) -> Vec<String> {
    toks.iter().map(|t| t.iter().collect()).collect()
}

#[test]
fn tokenize_empty_line() {
    let toks = tokenize(&chars(""));
    assert!(toks.is_empty());
}

#[test]
fn tokenize_whitespace_only_lines() {
    assert!(tokenize(&chars("   ")).is_empty());
    assert!(tokenize(&chars(" \t \r\n ")).is_empty());
    assert!(tokenize(&chars("\u{a0}\u{3000}")).is_empty());
}

#[test]
fn tokenize_simple_command() {
    let toks = tokenize(&chars("echo hello"));
    assert_eq!(token_strings(&toks), vec!["echo".to_string(), "hello".to_string()]);
}

#[test]
fn tokenize_trims_and_collapses_whitespace() {
    let toks = tokenize(&chars("  ls   -l\t a.txt "));
    assert_eq!(
        token_strings(&toks),
        vec!["ls".to_string(), "-l".to_string(), "a.txt".to_string()]
    );
}

#[test]
fn tokenize_unicode_whitespace_separates() {
    let toks = tokenize(&chars("a\u{3000}b"));
    assert_eq!(token_strings(&toks), vec!["a".to_string(), "b".to_string()]);
}

#[test]
fn is_space_char_classifies() {
    assert!(is_space_char(' '));
    assert!(is_space_char('\t'));
    assert!(is_space_char('\n'));
    assert!(is_space_char('\u{2009}'));
    assert!(!is_space_char('a'));
    assert!(!is_space_char('-'));
    assert!(!is_space_char('\u{0}'));
}

#[test]
fn blank_line_plans_nothing() {
    assert!(matches!(plan_command(&chars("")), ExecPlan::Skip));
    assert!(matches!(plan_command(&chars("   \t ")), ExecPlan::Skip));
}

#[test]
fn plan_first_token_is_program() {
    match plan_command(&chars("echo hello world")) {
        ExecPlan::Run { program, args } => {
            assert_eq!(program.iter().collect::<String>(), "echo");
            assert_eq!(
                token_strings(&args),
                vec!["hello".to_string(), "world".to_string()]
            );
        }
        ExecPlan::Skip => panic!("a non-blank line must plan a run"),
    }
}

#[test]
fn plan_program_without_arguments() {
    match plan_command(&chars("false")) {
        ExecPlan::Run { program, args } => {
            assert_eq!(program.iter().collect::<String>(), "false");
            assert!(args.is_empty());
        }
        ExecPlan::Skip => panic!("a non-blank line must plan a run"),
    }
}

#[test]
fn backspace_on_empty_buffer_is_noop() {
    let mut s = Session::new();
    let a = s.handle_key(Key::Backspace);
    assert!(matches!(a, Action::Ignore));
    assert!(s.buffer.is_empty());
}

#[test]
fn append_then_backspace_restores_empty() {
    let mut s = Session::new();
    for c in ['a', 'b', 'c'] {
        match s.handle_key(Key::Char(c)) {
            Action::Echo(e) => assert_eq!(e, c),
            _ => panic!("a character key must echo"),
        }
    }
    assert_eq!(s.buffer.iter().collect::<String>(), "abc");
    for _ in 0..3 {
        assert!(matches!(s.handle_key(Key::Backspace), Action::Erase));
    }
    assert!(s.buffer.is_empty());
    assert!(matches!(s.handle_key(Key::Backspace), Action::Ignore));
    assert!(s.buffer.is_empty());
}

#[test]
fn scenario_echo_hello_submits_run() {
    let mut s = Session::new();
    for c in "echo hello".chars() {
        assert!(matches!(s.handle_key(Key::Char(c)), Action::Echo(_)));
    }
    match s.handle_key(Key::Enter) {
        Action::Submit(ExecPlan::Run { program, args }) => {
            assert_eq!(program.iter().collect::<String>(), "echo");
            assert_eq!(token_strings(&args), vec!["hello".to_string()]);
        }
        _ => panic!("Enter on a non-blank line must submit a run"),
    }
    assert!(s.buffer.is_empty());
}

#[test]
fn scenario_blank_enter_spawns_nothing() {
    let mut s = Session::new();
    match s.handle_key(Key::Enter) {
        Action::Submit(ExecPlan::Skip) => {}
        _ => panic!("Enter on a blank line must submit nothing to run"),
    }
    assert!(s.buffer.is_empty());
}

#[test]
fn scenario_escape_mid_buffer_quits() {
    let mut s = Session::new();
    s.handle_key(Key::Char('l'));
    s.handle_key(Key::Char('s'));
    let a = s.handle_key(Key::Esc);
    assert!(matches!(a, Action::Quit));
    assert_eq!(s.buffer.iter().collect::<String>(), "ls");
}

#[test]
fn other_keys_are_ignored() {
    let mut s = Session::new();
    s.handle_key(Key::Char('x'));
    let a = s.handle_key(Key::Other);
    assert!(matches!(a, Action::Ignore));
    assert_eq!(s.buffer.iter().collect::<String>(), "x");
}

#[test]
fn warning_line_has_exact_format() {
    let err = chars("No such file or directory (os error 2)");
    let line = warning_line(&err);
    assert_eq!(
        line.iter().collect::<String>(),
        "\u{26a0}\u{fe0f} Error running command: No such file or directory (os error 2)"
    );
}

#[test]
fn warning_line_keeps_error_text_verbatim() {
    let line = warning_line(&chars(""));
    assert_eq!(
        line.iter().collect::<String>(),
        "\u{26a0}\u{fe0f} Error running command: "
    );
}

#[test]
fn erase_sequence_is_back_space_back() {
    assert_eq!(erase_sequence(), vec!['\u{8}', ' ', '\u{8}']);
}

#[test]
fn prompt_and_banner_texts() {
    assert_eq!(prompt().iter().collect::<String>(), "> ");
    assert_eq!(banner_first().iter().collect::<String>(), "Welcome to Crust");
    assert_eq!(
        banner_second().iter().collect::<String>(),
        "Type a command (ESC to exit)"
    );
}
