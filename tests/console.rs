use portfolios::color::{ansi_color_to_console_color, colored, ColoredWriting, ConsoleColor, Rgb888};
use pc_keyboard::{KeyCode, KeyEvent, KeyState};
use portfolios::keyboard::{completed_event, get_key, key_action, Key, KeyAction, KeyDecoder};
use portfolios::shell::{words_of, Command, Shell, ShellResponse};

fn chars(s: &str) -> Vec<char> {
    s.chars().collect()
}

fn text(v: &[char]) -> String {
    v.iter().collect()
}

fn type_line(shell: &mut Shell, line: &str) -> ShellResponse {
    for c in line.chars() {
        shell.append(c);
    }
    shell.exec()
}

fn named_shell() -> Shell {
    let mut shell = Shell::new();
    type_line(&mut shell, "ada");
    shell
}

#[test]
fn ansi_codes_map_to_colors() {
    assert_eq!(ansi_color_to_console_color(31, false), Some(ConsoleColor::Red));
    assert_eq!(ansi_color_to_console_color(41, true), Some(ConsoleColor::Red));
    assert_eq!(ansi_color_to_console_color(41, false), None);
    assert_eq!(ansi_color_to_console_color(31, true), None);
    assert_eq!(ansi_color_to_console_color(97, false), Some(ConsoleColor::BrightWhite));
    assert_eq!(ansi_color_to_console_color(107, true), Some(ConsoleColor::BrightWhite));
    assert_eq!(ansi_color_to_console_color(38, false), None);
    assert_eq!(ansi_color_to_console_color(5, true), None);
}

#[test]
fn colors_have_their_palette_values() {
    assert_eq!(ConsoleColor::Yellow.to_rgb888(), Rgb888 { r: 170, g: 85, b: 0 });
    assert_eq!(ConsoleColor::BrightBlue.to_rgb888(), Rgb888 { r: 85, g: 85, b: 255 });
    assert_eq!(ConsoleColor::Black.to_rgb888(), Rgb888 { r: 0, g: 0, b: 0 });
}

#[test]
fn foreground_wraps_text_in_escape_sequences() {
    assert_eq!("hi".fg(ConsoleColor::Red), "\x1b[31mhi\x1b[0m");
    assert_eq!(colored("", ConsoleColor::BrightCyan), "\x1b[96m\x1b[0m");
}

#[test]
fn keys_edit_or_submit_the_line() {
    assert_eq!(key_action('\n'), KeyAction::Submit);
    assert_eq!(key_action('\x08'), KeyAction::Erase);
    assert_eq!(key_action('a'), KeyAction::Insert('a'));
}

#[test]
fn words_split_on_any_white_space() {
    let w = words_of(&chars("  echo\t-c  red\u{3000}hi \n"));
    let w: Vec<String> = w.iter().map(|x| text(x)).collect();
    assert_eq!(w, vec!["echo", "-c", "red", "hi"]);
    assert!(words_of(&chars(" \t ")).is_empty());
}

#[test]
fn first_line_is_the_name() {
    let mut shell = Shell::new();
    assert_eq!(text(&shell.prompt()), "WHAT IS YOUR NAME? ");
    assert_eq!(shell.len(), 200);
    match type_line(&mut shell, "ada") {
        ShellResponse::Greeting { name } => assert_eq!(text(&name), "ada"),
        other => panic!("unexpected {:?}", other),
    }
    assert_eq!(text(&shell.prompt()), "ada@PortfoliOS -> # ");
    assert_eq!(text(&shell.name()), "ada");
    assert_eq!(shell.len(), 210);
    assert_eq!(shell.prompt_color(), ConsoleColor::BrightWhite);
}

#[test]
fn append_and_pop_edit_the_line() {
    let mut shell = named_shell();
    shell.pop();
    shell.append('h');
    shell.append('x');
    shell.pop();
    shell.append('e');
    shell.append('l');
    shell.append('p');
    assert!(matches!(shell.exec(), ShellResponse::Run(Command::Help)));
}

#[test]
fn echo_plain_and_colored() {
    let mut shell = named_shell();
    match type_line(&mut shell, "echo  hello   world") {
        ShellResponse::Echo { message, color } => {
            assert_eq!(text(&message), "hello world");
            assert_eq!(color, None);
        }
        other => panic!("unexpected {:?}", other),
    }
    match type_line(&mut shell, "echo -c BrightRED hot stuff") {
        ShellResponse::Echo { message, color } => {
            assert_eq!(text(&message), "hot stuff");
            assert_eq!(color, Some(ConsoleColor::BrightRed));
        }
        other => panic!("unexpected {:?}", other),
    }
    assert_eq!(shell.prompt_color(), ConsoleColor::BrightWhite);
}

#[test]
fn echo_errors() {
    let mut shell = named_shell();
    assert!(matches!(type_line(&mut shell, "echo -c purple hi"), ShellResponse::InvalidColor));
    assert_eq!(shell.prompt_color(), ConsoleColor::Red);
    assert!(matches!(
        type_line(&mut shell, "echo"),
        ShellResponse::Usage { command: Command::Echo, detailed: false }
    ));
    match type_line(&mut shell, "echo -c red") {
        ShellResponse::Echo { message, color } => {
            assert_eq!(text(&message), "-c red");
            assert_eq!(color, None);
        }
        other => panic!("unexpected {:?}", other),
    }
}

#[test]
fn rename_changes_the_name_only_when_it_matches() {
    let mut shell = named_shell();
    match type_line(&mut shell, "rename bob carl") {
        ShellResponse::Rename { renamed, .. } => assert!(!renamed),
        other => panic!("unexpected {:?}", other),
    }
    assert_eq!(text(&shell.name()), "ada");
    match type_line(&mut shell, "rename ada grace") {
        ShellResponse::Rename { old_name, new_name, renamed } => {
            assert!(renamed);
            assert_eq!(text(&old_name), "ada");
            assert_eq!(text(&new_name), "grace");
        }
        other => panic!("unexpected {:?}", other),
    }
    assert_eq!(text(&shell.name()), "grace");
    assert_eq!(text(&shell.prompt()), "ada@PortfoliOS -> # ");
    assert!(matches!(
        type_line(&mut shell, "rename grace"),
        ShellResponse::Usage { command: Command::Rename, .. }
    ));
    assert_eq!(shell.prompt_color(), ConsoleColor::Red);
}

#[test]
fn calc_checks_its_arguments() {
    let mut shell = named_shell();
    assert!(matches!(
        type_line(&mut shell, "calc"),
        ShellResponse::Usage { command: Command::Calc, detailed: true }
    ));
    assert!(matches!(
        type_line(&mut shell, "calc 1 +"),
        ShellResponse::Usage { command: Command::Calc, detailed: false }
    ));
    match type_line(&mut shell, "calc 1.5 * 2") {
        ShellResponse::Calc { operands } => {
            let ops: Vec<String> = operands.iter().map(|x| text(x)).collect();
            assert_eq!(ops, vec!["1.5", "*", "2"]);
        }
        other => panic!("unexpected {:?}", other),
    }
    assert_eq!(shell.prompt_color(), ConsoleColor::BrightWhite);
}

#[test]
fn file_system_commands_warn_and_unknown_ones_fail() {
    let mut shell = named_shell();
    assert!(matches!(type_line(&mut shell, "ls -la"), ShellResponse::Run(Command::NoFileSystem)));
    assert_eq!(shell.prompt_color(), ConsoleColor::Yellow);
    match type_line(&mut shell, " frobnicate now") {
        ShellResponse::Invalid { line } => assert_eq!(text(&line), " frobnicate now"),
        other => panic!("unexpected {:?}", other),
    }
    assert_eq!(shell.prompt_color(), ConsoleColor::Red);
    assert!(matches!(type_line(&mut shell, ""), ShellResponse::Invalid { .. }));
    assert!(matches!(type_line(&mut shell, "exit"), ShellResponse::Run(Command::Crawl)));
    assert!(matches!(type_line(&mut shell, "execute66"), ShellResponse::Run(Command::Crawl)));
    assert!(matches!(type_line(&mut shell, "whoami"), ShellResponse::Run(Command::WhoAmI)));
    assert_eq!(shell.prompt_color(), ConsoleColor::BrightWhite);
}

#[test]
fn scancodes_decode_to_keys() {
    let mut decoder = KeyDecoder::new();
    assert!(matches!(get_key(&mut decoder, 0x1E), Some(Key::Unicode('a'))));
    assert!(get_key(&mut decoder, 0x9E).is_none());
    assert!(matches!(get_key(&mut decoder, 0x1C), Some(Key::Unicode('\n'))));
    assert!(matches!(get_key(&mut decoder, 0x0E), Some(Key::Unicode('\x08'))));
    get_key(&mut decoder, 0x2A);
    assert!(matches!(get_key(&mut decoder, 0x1E), Some(Key::Unicode('A'))));
    assert_eq!(get_key(&mut decoder, 0x3B), Some(Key::RawKey(KeyCode::F1 as u8)));
}

#[test]
fn only_completed_events_are_passed_on() {
    let down = KeyEvent::new(KeyCode::A, KeyState::Down);
    assert_eq!(completed_event(Ok(Some(down.clone()))), Some(down));
    assert_eq!(completed_event(Ok(None)), None);
    assert_eq!(completed_event(Err(pc_keyboard::Error::UnknownKeyCode)), None);
}
