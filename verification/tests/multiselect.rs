use inquire::{
    InquireError, Key, KeyModifiers, LineKind, MultiSelectPrompt, Renderer, SelectionStep,
    Terminal,
};

type Validator = fn(&Vec<usize>) -> Result<(), String>;

const TOGGLE: Key = Key::Char(' ', KeyModifiers { shift: false, control: false, alt: false });

fn fruits<'a>() -> MultiSelectPrompt<'a, Validator> {
    MultiSelectPrompt::new(
        "Fruits?",
        vec!["apple".to_string(), "banana".to_string(), "cherry".to_string()],
    )
}

fn at_least_one(selected: &Vec<usize>) -> Result<(), String> {
    if selected.is_empty() {
        Err("Select at least one".to_string())
    } else {
        Ok(())
    }
}

fn at_most_two(selected: &Vec<usize>) -> Result<(), String> {
    if selected.len() > 2 {
        Err("Select at most two".to_string())
    } else {
        Ok(())
    }
}

fn shown(renderer: &Renderer) -> Vec<(LineKind, String)> {
    renderer.terminal.lines.iter().map(|line| (line.kind, line.text.clone())).collect()
}

#[test]
fn multiselect_starts_with_nothing_selected() {
    let prompt = fruits();
    assert_eq!(prompt.cursor, 0);
    assert_eq!(prompt.checked, vec![false, false, false]);
    assert_eq!(prompt.selected(), Vec::<usize>::new());
    assert_eq!(prompt.get_final_answer(), Ok(vec![]));
}

#[test]
fn multiselect_cursor_is_clamped() {
    let mut prompt = fruits();
    prompt.on_change(Key::Up);
    assert_eq!(prompt.cursor, 0);
    prompt.on_change(Key::Down);
    prompt.on_change(Key::Down);
    assert_eq!(prompt.cursor, 2);
    prompt.on_change(Key::Down);
    assert_eq!(prompt.cursor, 2);
    prompt.on_change(Key::Up);
    assert_eq!(prompt.cursor, 1);
}

#[test]
fn multiselect_moving_never_changes_the_selection() {
    let mut prompt = fruits();
    prompt.on_change(Key::Down);
    prompt.on_change(TOGGLE);
    let before = prompt.checked.clone();
    for key in [Key::Up, Key::Up, Key::Down, Key::Down, Key::Down, Key::Left, Key::Any] {
        prompt.on_change(key);
        assert_eq!(prompt.checked, before);
    }
}

#[test]
fn multiselect_toggle_flips_the_item_under_the_cursor() {
    let mut prompt = fruits();
    prompt.on_change(TOGGLE);
    assert_eq!(prompt.checked, vec![true, false, false]);
    prompt.on_change(Key::Down);
    prompt.on_change(Key::Down);
    prompt.on_change(TOGGLE);
    assert_eq!(prompt.checked, vec![true, false, true]);
    assert_eq!(prompt.selected(), vec![0, 2]);
    prompt.on_change(TOGGLE);
    assert_eq!(prompt.checked, vec![true, false, false]);
    prompt.on_change(Key::Char(' ', KeyModifiers::control()));
    assert_eq!(prompt.checked, vec![true, false, false]);
}

#[test]
fn multiselect_empty_selection_is_rejected_and_kept() {
    let mut prompt = fruits().with_validator(at_least_one);
    prompt.on_change(Key::Down);
    assert_eq!(prompt.handle_key(Key::Submit), SelectionStep::Continue);
    assert_eq!(prompt.error, Some("Select at least one".to_string()));
    assert_eq!(prompt.cursor, 1);
    assert_eq!(prompt.checked, vec![false, false, false]);
    assert_eq!(prompt.handle_key(TOGGLE), SelectionStep::Continue);
    assert_eq!(prompt.handle_key(Key::Submit), SelectionStep::Submitted(vec![1]));
}

#[test]
fn multiselect_first_failing_validator_decides() {
    let mut prompt = fruits().with_validator(at_least_one).with_validator(at_most_two);
    assert_eq!(prompt.get_final_answer(), Err("Select at least one".to_string()));
    for _ in 0..3 {
        prompt.on_change(TOGGLE);
        prompt.on_change(Key::Down);
    }
    assert_eq!(prompt.get_final_answer(), Err("Select at most two".to_string()));
    prompt.on_change(TOGGLE);
    assert_eq!(prompt.get_final_answer(), Ok(vec![0, 1]));
}

#[test]
fn multiselect_prompt_yields_items_in_list_order() {
    let keys = vec![Key::Down, Key::Down, TOGGLE, Key::Up, Key::Up, TOGGLE, Key::Submit];
    let mut renderer = Renderer::new(Terminal::new(keys));
    let result = fruits().with_help_message("space toggles").prompt(&mut renderer);
    assert_eq!(result, Ok(vec![0, 2]));
    assert_eq!(shown(&renderer), vec![(LineKind::Answer, "Fruits? apple, cherry".to_string())]);
    assert_eq!(renderer.painted, 0);
}

#[test]
fn multiselect_prompt_loops_after_rejection() {
    let keys = vec![Key::Submit, Key::Down, TOGGLE, Key::Submit, Key::Cancel];
    let mut renderer = Renderer::new(Terminal::new(keys));
    let result = fruits().with_validator(at_least_one).prompt(&mut renderer);
    assert_eq!(result, Ok(vec![1]));
    assert_eq!(renderer.terminal.consumed, 4);
    assert_eq!(shown(&renderer), vec![(LineKind::Answer, "Fruits? banana".to_string())]);
}

#[test]
fn multiselect_cancel_and_end_of_input() {
    let mut renderer = Renderer::new(Terminal::new(vec![TOGGLE, Key::Cancel, Key::Submit]));
    assert_eq!(fruits().prompt(&mut renderer), Err(InquireError::OperationCanceled));
    let mut renderer = Renderer::new(Terminal::new(vec![TOGGLE, Key::Down]));
    assert_eq!(fruits().prompt(&mut renderer), Err(InquireError::IO));
}

#[test]
fn multiselect_frame_marks_cursor_and_selection() {
    let mut prompt = fruits().with_help_message("space toggles").with_validator(at_least_one);
    let mut renderer = Renderer::new(Terminal::new(vec![]));
    assert_eq!(prompt.handle_key(Key::Submit), SelectionStep::Continue);
    prompt.on_change(TOGGLE);
    prompt.on_change(Key::Down);
    prompt.render(&mut renderer);
    assert_eq!(
        shown(&renderer),
        vec![
            (LineKind::Error, "Select at least one".to_string()),
            (LineKind::Prompt, "Fruits?".to_string()),
            (LineKind::Choice, "  [x] apple".to_string()),
            (LineKind::Choice, "> [ ] banana".to_string()),
            (LineKind::Choice, "  [ ] cherry".to_string()),
            (LineKind::Help, "space toggles".to_string()),
        ]
    );
    assert_eq!(renderer.painted, 6);
    prompt.render(&mut renderer);
    assert_eq!(renderer.terminal.lines.len(), 6);
}

#[test]
fn multiselect_list_joins_with_commas() {
    let prompt = fruits();
    assert_eq!(prompt.list(&vec![]), "");
    assert_eq!(prompt.list(&vec![1]), "banana");
    assert_eq!(prompt.list(&vec![0, 1, 2]), "apple, banana, cherry");
}

#[test]
fn multiselect_on_an_empty_list() {
    let mut prompt: MultiSelectPrompt<Validator> = MultiSelectPrompt::new("Nothing?", vec![]);
    prompt.on_change(Key::Down);
    prompt.on_change(TOGGLE);
    prompt.on_change(Key::Up);
    assert_eq!(prompt.cursor, 0);
    assert_eq!(prompt.get_final_answer(), Ok(vec![]));
}
