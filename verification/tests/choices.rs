use inquire::{
    ConfirmPrompt, ConfirmStep, InquireError, Key, KeyModifiers, LineKind, Renderer, SelectPrompt,
    SelectStep, Terminal,
};

fn plain(c: char) -> Key {
    Key::Char(c, KeyModifiers::none())
}

fn renderer_with(keys: Vec<Key>) -> Renderer {
    Renderer::new(Terminal::new(keys))
}

fn painted(renderer: &Renderer) -> Vec<(LineKind, String)> {
    renderer.terminal.lines.iter().map(|line| (line.kind, line.text.clone())).collect()
}

fn colors<'a>() -> SelectPrompt<'a> {
    SelectPrompt::new(
        "Color?",
        vec!["red".to_string(), "green".to_string(), "blue".to_string()],
    )
    .unwrap()
}

#[test]
fn confirm_y_and_n_set_the_answer() {
    let mut prompt = ConfirmPrompt::new("Sure?");
    assert_eq!(prompt.answer, None);
    prompt.on_change(plain('y'));
    assert_eq!(prompt.answer, Some(true));
    prompt.on_change(plain('N'));
    assert_eq!(prompt.answer, Some(false));
    prompt.on_change(plain('Y'));
    assert_eq!(prompt.answer, Some(true));
    prompt.on_change(plain('x'));
    assert_eq!(prompt.answer, Some(true));
    prompt.on_change(Key::Char('n', KeyModifiers::control()));
    assert_eq!(prompt.answer, Some(true));
    prompt.on_change(Key::Backspace);
    assert_eq!(prompt.answer, None);
}

#[test]
fn confirm_submit_without_answer_or_default_is_rejected() {
    let mut prompt = ConfirmPrompt::new("Sure?");
    assert_eq!(prompt.get_final_answer(), Err("Please answer y or n".to_string()));
    assert_eq!(prompt.handle_key(Key::Submit), ConfirmStep::Continue);
    assert_eq!(prompt.error, Some("Please answer y or n".to_string()));
    assert_eq!(prompt.handle_key(plain('n')), ConfirmStep::Continue);
    assert_eq!(prompt.handle_key(Key::Submit), ConfirmStep::Submitted(false));
}

#[test]
fn confirm_submit_resolves_to_the_default() {
    let prompt = ConfirmPrompt::new("Sure?").with_default(true);
    assert_eq!(prompt.get_final_answer(), Ok(true));
    let mut prompt = ConfirmPrompt::new("Sure?").with_default(false);
    assert_eq!(prompt.get_final_answer(), Ok(false));
    prompt.on_change(plain('y'));
    assert_eq!(prompt.get_final_answer(), Ok(true));
}

#[test]
fn confirm_prompt_runs_to_an_answer() {
    let keys = vec![Key::Submit, plain('q'), plain('y'), Key::Submit, Key::Cancel];
    let mut renderer = renderer_with(keys);
    assert_eq!(ConfirmPrompt::new("Sure?").prompt(&mut renderer), Ok(true));
    assert_eq!(renderer.terminal.consumed, 4);
    assert_eq!(painted(&renderer), vec![(LineKind::Answer, "Sure? Yes".to_string())]);
}

#[test]
fn confirm_prompt_cancel_and_end_of_input() {
    let mut renderer = renderer_with(vec![plain('y'), Key::Cancel]);
    assert_eq!(
        ConfirmPrompt::new("Sure?").prompt(&mut renderer),
        Err(InquireError::OperationCanceled)
    );
    let mut renderer = renderer_with(vec![plain('y')]);
    assert_eq!(ConfirmPrompt::new("Sure?").prompt(&mut renderer), Err(InquireError::IO));
    let mut renderer = renderer_with(vec![Key::Submit]);
    assert_eq!(ConfirmPrompt::new("Sure?").with_default(false).prompt(&mut renderer), Ok(false));
    assert_eq!(painted(&renderer), vec![(LineKind::Answer, "Sure? No".to_string())]);
}

#[test]
fn confirm_frame_shows_hint_and_answer() {
    let mut prompt = ConfirmPrompt::new("Sure?").with_default(true).with_help_message("y or n");
    let mut renderer = renderer_with(vec![]);
    prompt.render(&mut renderer);
    assert_eq!(
        painted(&renderer),
        vec![
            (LineKind::Prompt, "Sure? (Y/n)".to_string()),
            (LineKind::Help, "y or n".to_string()),
        ]
    );
    prompt.on_change(plain('n'));
    prompt.render(&mut renderer);
    assert_eq!(
        painted(&renderer),
        vec![
            (LineKind::Prompt, "Sure? (Y/n) No".to_string()),
            (LineKind::Help, "y or n".to_string()),
        ]
    );
    let mut renderer = renderer_with(vec![]);
    ConfirmPrompt::new("Sure?").render(&mut renderer);
    assert_eq!(painted(&renderer), vec![(LineKind::Prompt, "Sure? (y/n)".to_string())]);
    let mut renderer = renderer_with(vec![]);
    ConfirmPrompt::new("Sure?").with_default(false).render(&mut renderer);
    assert_eq!(painted(&renderer), vec![(LineKind::Prompt, "Sure? (y/N)".to_string())]);
}

#[test]
fn select_needs_an_item() {
    assert!(SelectPrompt::new("Color?", vec![]).is_none());
    assert!(SelectPrompt::new("Color?", vec!["red".to_string()]).is_some());
}

#[test]
fn select_cursor_is_clamped() {
    let mut prompt = colors();
    assert_eq!(prompt.cursor, 0);
    prompt.on_change(Key::Up);
    assert_eq!(prompt.cursor, 0);
    prompt.on_change(Key::Down);
    assert_eq!(prompt.cursor, 1);
    assert_eq!(prompt.get_final_answer(), "green");
    prompt.on_change(Key::Down);
    prompt.on_change(Key::Down);
    assert_eq!(prompt.cursor, 2);
    prompt.on_change(plain('x'));
    assert_eq!(prompt.cursor, 2);
    assert_eq!(prompt.handle_key(Key::Submit), SelectStep::Submitted(2));
    assert_eq!(prompt.handle_key(Key::Cancel), SelectStep::Canceled);
    assert_eq!(prompt.handle_key(Key::Up), SelectStep::Continue);
    assert_eq!(prompt.cursor, 1);
}

#[test]
fn select_prompt_yields_the_item_under_the_cursor() {
    let mut renderer = renderer_with(vec![Key::Down, Key::Down, Key::Up, Key::Submit, Key::Down]);
    assert_eq!(colors().prompt(&mut renderer), Ok("green".to_string()));
    assert_eq!(renderer.terminal.consumed, 4);
    assert_eq!(painted(&renderer), vec![(LineKind::Answer, "Color? green".to_string())]);
    let mut renderer = renderer_with(vec![Key::Submit]);
    assert_eq!(colors().prompt(&mut renderer), Ok("red".to_string()));
}

#[test]
fn select_prompt_cancel_and_end_of_input() {
    let mut renderer = renderer_with(vec![Key::Down, Key::Cancel, Key::Submit]);
    assert_eq!(colors().prompt(&mut renderer), Err(InquireError::OperationCanceled));
    let mut renderer = renderer_with(vec![Key::Down, Key::Down]);
    assert_eq!(colors().prompt(&mut renderer), Err(InquireError::IO));
}

#[test]
fn select_frame_marks_the_cursor() {
    let mut prompt = colors().with_help_message("arrows move");
    prompt.on_change(Key::Down);
    let mut renderer = renderer_with(vec![]);
    prompt.render(&mut renderer);
    assert_eq!(
        painted(&renderer),
        vec![
            (LineKind::Prompt, "Color?".to_string()),
            (LineKind::Choice, "  red".to_string()),
            (LineKind::Choice, "> green".to_string()),
            (LineKind::Choice, "  blue".to_string()),
            (LineKind::Help, "arrows move".to_string()),
        ]
    );
}
