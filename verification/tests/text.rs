use inquire::{
    Answer, ConfirmPrompt, InquireError, Key, KeyModifiers, LineKind, MultiSelectPrompt,
    PasswordPrompt, Password, Prompt, Renderer, SelectPrompt, Terminal, TextPrompt, TextStep,
};

type TextValidator = fn(&str) -> Result<(), String>;
type TextFormatter = fn(&str) -> String;
type ListValidator = fn(&Vec<usize>) -> Result<(), String>;

fn name<'a>() -> TextPrompt<'a, TextValidator, TextFormatter> {
    TextPrompt::new("Name?")
}

fn typing(text: &str) -> Vec<Key> {
    text.chars().map(|c| Key::Char(c, KeyModifiers::none())).collect()
}

fn typed(text: &str) -> TextPrompt<'static, TextValidator, TextFormatter> {
    let mut prompt = name();
    for key in typing(text) {
        prompt.on_change(key);
    }
    prompt
}

fn on_screen(renderer: &Renderer) -> Vec<(LineKind, String)> {
    renderer.terminal.lines.iter().map(|line| (line.kind, line.text.clone())).collect()
}

fn capitalized(ans: &str) -> Result<(), String> {
    match ans.chars().next() {
        Some(c) if c.is_uppercase() => Ok(()),
        _ => Err("Start with a capital".to_string()),
    }
}

fn shouted(ans: &str) -> String {
    ans.to_uppercase()
}

fn run_as_prompt<P: Prompt>(prompt: P, keys: Vec<Key>) -> Result<Answer, InquireError> {
    let mut renderer = Renderer::new(Terminal::new(keys));
    Prompt::prompt(prompt, &mut renderer)
}

#[test]
fn text_characters_go_before_the_caret() {
    let mut prompt = typed("abc");
    assert_eq!((prompt.before.as_str(), prompt.after.as_str()), ("abc", ""));
    prompt.on_change(Key::Left);
    assert_eq!((prompt.before.as_str(), prompt.after.as_str()), ("ab", "c"));
    prompt.on_change(Key::Char('x', KeyModifiers::none()));
    assert_eq!(prompt.content(), "abxc");
    prompt.on_change(Key::Char('y', KeyModifiers::control()));
    assert_eq!(prompt.content(), "abxc");
}

#[test]
fn text_caret_moves_by_grapheme_clusters() {
    let mut prompt = typed("a🧘🏻‍♂️b");
    prompt.on_change(Key::Left);
    prompt.on_change(Key::Left);
    assert_eq!((prompt.before.as_str(), prompt.after.as_str()), ("a", "🧘🏻‍♂️b"));
    prompt.on_change(Key::Right);
    assert_eq!((prompt.before.as_str(), prompt.after.as_str()), ("a🧘🏻‍♂️", "b"));
    prompt.on_change(Key::Home);
    assert_eq!((prompt.before.as_str(), prompt.after.as_str()), ("", "a🧘🏻‍♂️b"));
    prompt.on_change(Key::Left);
    assert_eq!((prompt.before.as_str(), prompt.after.as_str()), ("", "a🧘🏻‍♂️b"));
    prompt.on_change(Key::End);
    assert_eq!((prompt.before.as_str(), prompt.after.as_str()), ("a🧘🏻‍♂️b", ""));
    prompt.on_change(Key::Right);
    assert_eq!((prompt.before.as_str(), prompt.after.as_str()), ("a🧘🏻‍♂️b", ""));
}

#[test]
fn text_backspace_and_delete_work_at_the_caret() {
    let mut prompt = typed("a🧘🏻‍♂️b");
    prompt.on_change(Key::Left);
    prompt.on_change(Key::Backspace);
    assert_eq!((prompt.before.as_str(), prompt.after.as_str()), ("a", "b"));
    prompt.on_change(Key::Delete);
    assert_eq!((prompt.before.as_str(), prompt.after.as_str()), ("a", ""));
    prompt.on_change(Key::Delete);
    assert_eq!(prompt.content(), "a");
    prompt.on_change(Key::Backspace);
    prompt.on_change(Key::Backspace);
    assert_eq!(prompt.content(), "");
}

#[test]
fn text_frame_echoes_the_content() {
    let mut prompt = typed("Gr").with_help_message("Your first name");
    prompt.on_change(Key::Left);
    let mut renderer = Renderer::new(Terminal::new(vec![]));
    prompt.render(&mut renderer);
    assert_eq!(
        on_screen(&renderer),
        vec![
            (LineKind::Prompt, "Name? Gr".to_string()),
            (LineKind::Help, "Your first name".to_string()),
        ]
    );
}

#[test]
fn text_prompt_returns_what_was_typed() {
    let mut keys = typing("xda");
    keys.extend([Key::Home, Key::Delete, Key::Char('A', KeyModifiers::none()), Key::End]);
    keys.push(Key::Submit);
    let mut renderer = Renderer::new(Terminal::new(keys));
    assert_eq!(name().prompt(&mut renderer), Ok("Ada".to_string()));
    assert_eq!(on_screen(&renderer), vec![(LineKind::Answer, "Name? Ada".to_string())]);
}

#[test]
fn text_formatter_shapes_only_the_screen() {
    let mut keys = typing("ada");
    keys.push(Key::Submit);
    let mut renderer = Renderer::new(Terminal::new(keys));
    assert_eq!(name().with_formatter(shouted).prompt(&mut renderer), Ok("ada".to_string()));
    assert_eq!(on_screen(&renderer), vec![(LineKind::Answer, "Name? ADA".to_string())]);
}

#[test]
fn text_rejected_submit_keeps_content_and_caret() {
    let mut prompt = typed("ada").with_validator(capitalized);
    prompt.on_change(Key::Home);
    assert_eq!(prompt.handle_key(Key::Submit), TextStep::Continue);
    assert_eq!(prompt.error, Some("Start with a capital".to_string()));
    assert_eq!((prompt.before.as_str(), prompt.after.as_str()), ("", "ada"));
    assert_eq!(prompt.handle_key(Key::Delete), TextStep::Continue);
    assert_eq!(prompt.handle_key(Key::Char('A', KeyModifiers::none())), TextStep::Continue);
    assert_eq!(prompt.handle_key(Key::Submit), TextStep::Submitted("Ada".to_string()));
    assert_eq!(prompt.handle_key(Key::Cancel), TextStep::Canceled);
}

#[test]
fn text_prompt_cancel_and_end_of_input() {
    let mut keys = typing("ada");
    keys.push(Key::Cancel);
    let mut renderer = Renderer::new(Terminal::new(keys));
    assert_eq!(name().prompt(&mut renderer), Err(InquireError::OperationCanceled));
    let mut renderer = Renderer::new(Terminal::new(typing("ada")));
    assert_eq!(name().prompt(&mut renderer), Err(InquireError::IO));
}

#[test]
fn every_prompt_answers_in_its_kind() {
    let mut keys = typing("pw");
    keys.push(Key::Submit);
    let password: Password<TextValidator, TextFormatter> = Password::new("Password:");
    assert_eq!(
        run_as_prompt(PasswordPrompt::from(password), keys.clone()),
        Ok(Answer::Content("pw".to_string()))
    );
    assert_eq!(run_as_prompt(name(), keys), Ok(Answer::Content("pw".to_string())));
    assert_eq!(
        run_as_prompt(ConfirmPrompt::new("Sure?"), vec![Key::Char('y', KeyModifiers::none()), Key::Submit]),
        Ok(Answer::Confirm(true))
    );
    let items = vec!["one".to_string(), "two".to_string()];
    assert_eq!(
        run_as_prompt(SelectPrompt::new("Which?", items.clone()).unwrap(), vec![Key::Down, Key::Submit]),
        Ok(Answer::Selected("two".to_string()))
    );
    let many: MultiSelectPrompt<ListValidator> = MultiSelectPrompt::new("Which?", items);
    assert_eq!(
        run_as_prompt(many, vec![Key::Char(' ', KeyModifiers::none()), Key::Submit]),
        Ok(Answer::SelectedMany(vec![0]))
    );
    assert_eq!(
        run_as_prompt(ConfirmPrompt::new("Sure?"), vec![Key::Cancel]),
        Err(InquireError::OperationCanceled)
    );
}
