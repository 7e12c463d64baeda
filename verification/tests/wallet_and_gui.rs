use scam_ico::gui::{center, on_control, on_key, Control, Key, Rect, Screen, Transition};
use scam_ico::types::Address;
use scam_ico::wallet::Wallet;

fn line(s: &str) -> Vec<char> {
    s.chars().collect()
}

fn prompt(s: &str) -> Screen<u8> {
    Screen::Prompt { callback: 9, input: line(s) }
}

fn typed(t: Transition<u8>) -> Vec<char> {
    match t {
        Transition::Prompt { callback, input } => {
            assert_eq!(callback, 9);
            input
        }
        _ => panic!("expected the input box"),
    }
}

#[test]
fn local_wallet_lists_the_accounts_in_order() {
    let accounts = vec![Address([3; 20]), Address([1; 20]), Address([2; 20])];
    assert_eq!(Wallet::local(&accounts).accounts(), accounts);
}

#[test]
fn local_wallet_of_no_accounts_is_empty() {
    assert_eq!(Wallet::local(&Vec::new()).accounts(), Vec::new());
}

#[test]
fn escape_on_the_main_view_leaves_with_zero() {
    assert!(matches!(on_key(Screen::<u8>::Main, Key::Esc), Transition::Exit(0)));
}

#[test]
fn other_keys_on_the_main_view_are_dispatched() {
    for key in [Key::Char('q'), Key::F(5), Key::Up, Key::Down, Key::Char('\n'), Key::Backspace] {
        assert!(matches!(on_key(Screen::<u8>::Main, key), Transition::Dispatch));
    }
}

#[test]
fn continue_redraws() {
    assert!(matches!(on_control(Control::<u8>::Continue), Transition::Redraw));
}

#[test]
fn quit_leaves_with_its_code() {
    assert!(matches!(on_control(Control::<u8>::Quit(3)), Transition::Exit(3)));
    assert!(matches!(on_control(Control::<u8>::Quit(-1)), Transition::Exit(-1)));
}

#[test]
fn input_opens_an_empty_input_box() {
    assert_eq!(typed(on_control(Control::Input(9u8))), line(""));
}

#[test]
fn characters_are_added_to_the_line() {
    assert_eq!(typed(on_key(prompt("1."), Key::Char('5'))), line("1.5"));
    assert_eq!(typed(on_key(prompt(""), Key::Char(' '))), line(" "));
}

#[test]
fn backspace_removes_the_last_character() {
    assert_eq!(typed(on_key(prompt("1.5"), Key::Backspace)), line("1."));
    assert_eq!(typed(on_key(prompt(""), Key::Backspace)), line(""));
}

#[test]
fn other_keys_leave_the_line() {
    for key in [Key::Left, Key::F(1), Key::Ctrl('c'), Key::Alt('x'), Key::Delete, Key::Null] {
        assert_eq!(typed(on_key(prompt("12"), key)), line("12"));
    }
}

#[test]
fn line_feed_submits_the_line() {
    match on_key(prompt("2.5"), Key::Char('\n')) {
        Transition::Submit { callback, input } => {
            assert_eq!(callback, 9);
            assert_eq!(input, line("2.5"));
        }
        _ => panic!("expected a submit"),
    }
}

#[test]
fn escape_in_the_input_box_leaves_with_zero() {
    assert!(matches!(on_key(prompt("2.5"), Key::Esc), Transition::Exit(0)));
}

#[test]
fn box_is_centered() {
    let size = Rect { x: 0, y: 0, width: 80, height: 24 };
    assert_eq!(center(size, 18, 3), Rect { x: 31, y: 10, width: 18, height: 3 });
}

#[test]
fn box_is_cut_to_a_small_terminal() {
    let size = Rect { x: 2, y: 1, width: 10, height: 2 };
    assert_eq!(center(size, 18, 3), Rect { x: 2, y: 1, width: 10, height: 2 });
}

#[test]
fn odd_cell_goes_right_and_down() {
    let size = Rect { x: 5, y: 7, width: 21, height: 6 };
    assert_eq!(center(size, 18, 3), Rect { x: 6, y: 8, width: 18, height: 3 });
}

#[test]
fn box_in_an_empty_terminal_is_empty() {
    let size = Rect { x: 0, y: 0, width: 0, height: 0 };
    assert_eq!(center(size, 18, 3), size);
}
