use inquire::{
    InquireError, Key, KeyModifiers, LineKind, Password, PasswordPrompt, Renderer, Step, Terminal,
};

type Validator = fn(&str) -> Result<(), String>;
type Formatter = fn(&str) -> String;

fn default<'a>() -> Password<'a, Validator, Formatter> {
    Password::new("Question?")
}

fn text_to_events(text: &str) -> Vec<Key> {
    text.chars()
        .map(|c| if c == '\n' { Key::Submit } else { Key::Char(c, KeyModifiers::none()) })
        .collect()
}

fn renderer_for(keys: Vec<Key>) -> Renderer {
    Renderer::new(Terminal::new(keys))
}

fn run(keys: Vec<Key>) -> Result<String, InquireError> {
    let mut renderer = renderer_for(keys);
    default().prompt_with_renderer(&mut renderer)
}

fn between_five_and_ten(ans: &str) -> Result<(), String> {
    match ans.len() {
        len if len > 5 && len < 10 => Ok(()),
        _ => Err("Invalid".to_string()),
    }
}

fn not_empty(ans: &str) -> Result<(), String> {
    if ans.is_empty() {
        Err("Empty".to_string())
    } else {
        Ok(())
    }
}

fn no_digits(ans: &str) -> Result<(), String> {
    if ans.chars().any(|c| c.is_ascii_digit()) {
        Err("Digits".to_string())
    } else {
        Ok(())
    }
}

fn reversed(ans: &str) -> String {
    ans.chars().rev().collect()
}

fn screen_of(renderer: &Renderer) -> Vec<(LineKind, String)> {
    renderer.terminal.lines.iter().map(|line| (line.kind, line.text.clone())).collect()
}

#[test]
fn empty() {
    assert_eq!(run(vec![Key::Submit]).unwrap(), "");
}

#[test]
fn single_letter() {
    let keys = vec![Key::Char('b', KeyModifiers::none()), Key::Submit];
    assert_eq!(run(keys).unwrap(), "b");
}

#[test]
fn letters_and_enter() {
    assert_eq!(run(text_to_events("normal input\n")).unwrap(), "normal input");
}

#[test]
fn letters_and_enter_with_emoji() {
    assert_eq!(
        run(text_to_events("with emoji 🧘🏻‍♂️, 🌍, 🍞, 🚗, 📞\n")).unwrap(),
        "with emoji 🧘🏻‍♂️, 🌍, 🍞, 🚗, 📞"
    );
}

#[test]
fn input_and_correction() {
    let mut events = vec![];
    events.append(&mut text_to_events("anor"));
    for _ in 0..4 {
        events.push(Key::Backspace);
    }
    events.append(&mut text_to_events("normal input"));
    events.push(Key::Submit);
    assert_eq!(run(events).unwrap(), "normal input");
}

#[test]
fn input_and_excessive_correction() {
    let mut events = vec![];
    events.append(&mut text_to_events("anor"));
    for _ in 0..10 {
        events.push(Key::Backspace);
    }
    events.append(&mut text_to_events("normal input"));
    events.push(Key::Submit);
    assert_eq!(run(events).unwrap(), "normal input");
}

#[test]
fn input_correction_after_validation() {
    let mut events = vec![];
    events.append(&mut text_to_events("1234567890"));
    events.push(Key::Submit);
    for _ in 0..5 {
        events.push(Key::Backspace);
    }
    events.append(&mut text_to_events("yes"));
    events.push(Key::Submit);
    let mut renderer = renderer_for(events);
    let prompt = Password::<_, Formatter>::new("").with_validator(|ans: &str| match ans.len() {
        len if len > 5 && len < 10 => Ok(()),
        _ => Err("Invalid".to_string()),
    });
    let ans = prompt.prompt_with_renderer(&mut renderer).unwrap();
    assert_eq!("12345yes", ans);
}

#[test]
fn prompt_on_a_terminal_gives_the_answer() {
    let terminal = Terminal::new(text_to_events("secret\n"));
    assert_eq!(default().prompt(terminal), Ok("secret".to_string()));
}

#[test]
fn cancel_gives_no_answer_whatever_was_typed() {
    let mut events = text_to_events("typed so far");
    events.push(Key::Cancel);
    events.push(Key::Submit);
    let mut renderer = renderer_for(events);
    let result = default().prompt_with_renderer(&mut renderer);
    assert_eq!(result, Err(InquireError::OperationCanceled));
    assert_eq!(renderer.terminal.consumed, 13);
}

#[test]
fn cancel_as_first_key() {
    assert_eq!(run(vec![Key::Cancel]), Err(InquireError::OperationCanceled));
}

#[test]
fn cancel_after_rejected_submit() {
    let events = vec![Key::Submit, Key::Cancel];
    let mut renderer = renderer_for(events);
    let prompt = Password::<Validator, Formatter>::new("").with_validator(not_empty);
    assert_eq!(prompt.prompt_with_renderer(&mut renderer), Err(InquireError::OperationCanceled));
}

#[test]
fn script_that_runs_out_is_an_io_error() {
    let mut renderer = renderer_for(text_to_events("no submit"));
    let result = default().prompt_with_renderer(&mut renderer);
    assert_eq!(result, Err(InquireError::IO));
    assert_eq!(renderer.terminal.consumed, 9);
}

#[test]
fn empty_script_is_an_io_error() {
    assert_eq!(run(vec![]), Err(InquireError::IO));
}

#[test]
fn keys_after_submit_are_left_unread() {
    let mut events = text_to_events("ab\n");
    events.append(&mut text_to_events("cd\n"));
    let mut renderer = renderer_for(events);
    assert_eq!(default().prompt_with_renderer(&mut renderer).unwrap(), "ab");
    assert_eq!(renderer.terminal.consumed, 3);
    assert_eq!(default().prompt_with_renderer(&mut renderer).unwrap(), "cd");
    assert_eq!(renderer.terminal.consumed, 6);
}

#[test]
fn answer_is_raw_and_the_screen_shows_the_default_mask() {
    let mut renderer = renderer_for(text_to_events("hunter2\n"));
    let ans = default().prompt_with_renderer(&mut renderer).unwrap();
    assert_eq!(ans, "hunter2");
    assert_eq!(
        screen_of(&renderer),
        vec![(LineKind::Answer, "Question? ********".to_string())]
    );
    assert_eq!(renderer.painted, 0);
    assert!(renderer.terminal.flushed);
}

#[test]
fn formatter_shapes_only_the_screen() {
    let mut renderer = renderer_for(text_to_events("abc\n"));
    let prompt = Password::<Validator, Formatter>::new("Word:").with_formatter(reversed);
    let ans = prompt.prompt_with_renderer(&mut renderer).unwrap();
    assert_eq!(ans, "abc");
    assert_eq!(screen_of(&renderer), vec![(LineKind::Answer, "Word: cba".to_string())]);
}

#[test]
fn earlier_output_stays_on_the_screen() {
    let mut terminal = Terminal::new(text_to_events("x\n"));
    terminal.write_line(LineKind::Help, "earlier output".to_string());
    let mut renderer = Renderer::new(terminal);
    default().with_help_message("hint").prompt_with_renderer(&mut renderer).unwrap();
    assert_eq!(
        screen_of(&renderer),
        vec![
            (LineKind::Help, "earlier output".to_string()),
            (LineKind::Answer, "Question? ********".to_string()),
        ]
    );
}

#[test]
fn first_failing_validator_decides() {
    let prompt = Password::<Validator, Formatter>::new("")
        .with_validators(vec![no_digits as Validator, between_five_and_ten as Validator]);
    let mut state = PasswordPrompt::from(prompt);
    for key in text_to_events("1") {
        state.on_change(key);
    }
    assert_eq!(state.get_final_answer(), Err("Digits".to_string()));
    state.on_change(Key::Backspace);
    for key in text_to_events("abc") {
        state.on_change(key);
    }
    assert_eq!(state.get_final_answer(), Err("Invalid".to_string()));
    for key in text_to_events("def") {
        state.on_change(key);
    }
    assert_eq!(state.get_final_answer(), Ok("abcdef".to_string()));
}

#[test]
fn with_validator_appends_in_order() {
    let prompt = Password::<Validator, Formatter>::new("")
        .with_validator(between_five_and_ten)
        .with_validators(vec![no_digits as Validator])
        .with_validator(not_empty);
    assert_eq!(prompt.validators.len(), 3);
    let mut state = PasswordPrompt::from(prompt);
    for key in text_to_events("1234567") {
        state.on_change(key);
    }
    assert_eq!(state.get_final_answer(), Err("Digits".to_string()));
    state.content = String::from("1");
    assert_eq!(state.get_final_answer(), Err("Invalid".to_string()));
}

#[test]
fn new_has_default_options() {
    let prompt = default();
    assert_eq!(prompt.message, "Question?");
    assert_eq!(prompt.help_message, None);
    assert!(prompt.formatter.is_none());
    assert!(prompt.validators.is_empty());
    let same: Password<Validator, Formatter> = Password::from("Question?");
    assert_eq!(same.message, "Question?");
    assert_eq!(same.help_message, None);
}

#[test]
fn with_help_message_sets_it() {
    let prompt = default().with_help_message("Type it blind");
    assert_eq!(prompt.help_message, Some("Type it blind"));
    assert_eq!(prompt.message, "Question?");
}

#[test]
fn default_formatter_is_a_fixed_mask() {
    assert_eq!(inquire::prompts::password::default_formatter("anything"), "********");
    assert_eq!(inquire::prompts::password::default_formatter(""), "********");
}

#[test]
fn rejected_submit_sets_the_error_and_keeps_the_content() {
    let prompt = Password::<Validator, Formatter>::new("").with_validator(between_five_and_ten);
    let mut state = PasswordPrompt::from(prompt);
    for key in text_to_events("1234567890") {
        assert_eq!(state.handle_key(key), Step::Continue);
    }
    assert_eq!(state.handle_key(Key::Submit), Step::Continue);
    assert_eq!(state.error, Some("Invalid".to_string()));
    assert_eq!(state.content, "1234567890");
    assert_eq!(state.handle_key(Key::Backspace), Step::Continue);
    assert_eq!(state.error, Some("Invalid".to_string()));
    assert_eq!(state.handle_key(Key::Submit), Step::Submitted("123456789".to_string()));
    assert_eq!(state.error, None);
    assert_eq!(state.content, "123456789");
}

#[test]
fn handle_key_cancel_changes_nothing() {
    let mut state = PasswordPrompt::from(default());
    state.on_change(Key::Char('a', KeyModifiers::none()));
    assert_eq!(state.handle_key(Key::Cancel), Step::Canceled);
    assert_eq!(state.content, "a");
    assert_eq!(state.error, None);
}

#[test]
fn characters_with_modifiers_are_ignored() {
    let mut state = PasswordPrompt::from(default());
    state.on_change(Key::Char('a', KeyModifiers::none()));
    state.on_change(Key::Char('b', KeyModifiers::control()));
    state.on_change(Key::Char('c', KeyModifiers { shift: true, control: false, alt: false }));
    state.on_change(Key::Char('d', KeyModifiers { shift: false, control: false, alt: true }));
    assert_eq!(state.content, "a");
}

#[test]
fn other_keys_are_no_ops() {
    let mut state = PasswordPrompt::from(default());
    state.on_change(Key::Char('a', KeyModifiers::none()));
    for key in [Key::Delete, Key::Up, Key::Down, Key::Left, Key::Right, Key::Tab, Key::Any] {
        state.on_change(key);
        assert_eq!(state.handle_key(key), Step::Continue);
    }
    assert_eq!(state.content, "a");
}

#[test]
fn backspace_removes_a_combined_emoji_as_one_unit() {
    let mut state = PasswordPrompt::from(default());
    for key in text_to_events("a🧘🏻‍♂️") {
        state.on_change(key);
    }
    assert_eq!(state.content.chars().count(), 6);
    state.on_change(Key::Backspace);
    assert_eq!(state.content, "a");
    state.on_change(Key::Backspace);
    assert_eq!(state.content, "");
    state.on_change(Key::Backspace);
    assert_eq!(state.content, "");
}

#[test]
fn frame_holds_error_question_and_help() {
    let prompt = Password::<Validator, Formatter>::new("Secret:")
        .with_help_message("Not shown while typed")
        .with_validator(not_empty);
    let mut state = PasswordPrompt::from(prompt);
    let mut renderer = renderer_for(vec![]);
    state.render(&mut renderer);
    assert_eq!(
        screen_of(&renderer),
        vec![
            (LineKind::Prompt, "Secret:".to_string()),
            (LineKind::Help, "Not shown while typed".to_string()),
        ]
    );
    assert_eq!(renderer.painted, 2);
    assert_eq!(state.handle_key(Key::Submit), Step::Continue);
    state.on_change(Key::Char('x', KeyModifiers::none()));
    state.render(&mut renderer);
    assert_eq!(
        screen_of(&renderer),
        vec![
            (LineKind::Error, "Empty".to_string()),
            (LineKind::Prompt, "Secret:".to_string()),
            (LineKind::Help, "Not shown while typed".to_string()),
        ]
    );
    assert_eq!(renderer.painted, 3);
    assert!(renderer.terminal.flushed);
}
