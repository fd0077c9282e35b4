use vocab_session::prompts::{draw_prompt, prompt_at};
use vocab_session::session::{Action, Completion, PhaseTag, SessionController, SessionPhase};

fn typed(prompt: &str, text: &str) -> SessionController<f64> {
    let mut c = SessionController::start(prompt.to_string());
    for ch in text.chars() {
        c.append(ch);
    }
    c
}

#[test]
fn start_is_input_with_empty_buffer() {
    let c: SessionController<f64> = SessionController::start("apple".to_string());
    assert_eq!(c.phase_tag(), PhaseTag::Input);
    assert_eq!(c.prompt(), "apple");
    assert_eq!(c.buffer(), "");
    assert!(c.score().is_none());
    assert_eq!(c.explanation(), "");
    assert!(c.state().phase.is_input());
    assert_eq!(c.state().current_prompt, "apple");
}

#[test]
fn happy_path() {
    let mut c = typed("apple", "good");
    assert_eq!(c.buffer(), "good");
    let task = c.submit().expect("a task while composing");
    assert_eq!(c.phase_tag(), PhaseTag::Scoring);
    assert_eq!(task.prompt, "apple");
    assert_eq!(task.submitted, "good");
    match &c.state().phase {
        SessionPhase::Scoring { prompt, submitted, ticket } => {
            assert_eq!(prompt, "apple");
            assert_eq!(submitted, "good");
            assert_eq!(*ticket, task.ticket);
        }
        _ => panic!("expected the scoring phase"),
    }
    let r = c.complete::<String>(task.ticket, Ok((0.73, "close enough".to_string())));
    assert_eq!(r, Completion::Committed);
    assert_eq!(c.phase_tag(), PhaseTag::Reviewed);
    assert_eq!(c.score(), Some(&0.73));
    assert_eq!(c.explanation(), "close enough");
    assert_eq!(c.prompt(), "apple");
}

fn reviewed_apple() -> SessionController<f64> {
    let mut c = typed("apple", "a fruit");
    let task = c.submit().unwrap();
    let r = c.complete::<String>(task.ticket, Ok((0.8, "x".to_string())));
    assert_eq!(r, Completion::Committed);
    c
}

#[test]
fn retry_preserves_prompt() {
    let mut c = reviewed_apple();
    c.retry();
    assert_eq!(c.phase_tag(), PhaseTag::Input);
    assert_eq!(c.buffer(), "");
    assert_eq!(c.prompt(), "apple");
    assert!(c.score().is_none());
    assert_eq!(c.explanation(), "");
}

#[test]
fn advance_replaces_prompt() {
    let mut c = reviewed_apple();
    c.advance("banana".to_string());
    assert_eq!(c.phase_tag(), PhaseTag::Input);
    assert_eq!(c.buffer(), "");
    assert_eq!(c.prompt(), "banana");
    assert!(c.score().is_none());
}

#[test]
fn erase_on_empty_buffer() {
    let mut c: SessionController<f64> = SessionController::start("apple".to_string());
    c.erase_last();
    assert_eq!(c.phase_tag(), PhaseTag::Input);
    assert_eq!(c.buffer(), "");
}

#[test]
fn erase_removes_last_character() {
    let mut c = typed("apple", "red");
    c.erase_last();
    assert_eq!(c.buffer(), "re");
    c.clear_input();
    assert_eq!(c.buffer(), "");
}

#[test]
fn stale_result_after_advance_is_dropped() {
    let mut c = typed("apple", "fruit");
    let task = c.submit().unwrap();
    c.advance("banana".to_string());
    let r = c.complete::<String>(task.ticket, Ok((0.9, "stale".to_string())));
    assert_eq!(r, Completion::Discarded);
    assert_eq!(c.phase_tag(), PhaseTag::Input);
    assert_eq!(c.prompt(), "banana");
    assert_eq!(c.buffer(), "");
    assert!(c.score().is_none());
    assert_eq!(c.explanation(), "");
}

#[test]
fn stale_result_after_retry_is_dropped() {
    let mut c = typed("apple", "fruit");
    let task = c.submit().unwrap();
    c.retry();
    c.append('z');
    let r = c.complete::<String>(task.ticket, Err("backend down".to_string()));
    assert_eq!(r, Completion::Discarded);
    assert_eq!(c.phase_tag(), PhaseTag::Input);
    assert_eq!(c.prompt(), "apple");
    assert_eq!(c.buffer(), "z");
}

#[test]
fn stale_result_after_resubmission_is_dropped() {
    let mut c = typed("apple", "fruit");
    let first = c.submit().unwrap();
    c.advance("banana".to_string());
    c.append('y');
    let second = c.submit().unwrap();
    assert_ne!(first.ticket, second.ticket);
    let r = c.complete::<String>(first.ticket, Ok((0.1, "old".to_string())));
    assert_eq!(r, Completion::Discarded);
    assert_eq!(c.phase_tag(), PhaseTag::Scoring);
    let r = c.complete::<String>(second.ticket, Ok((0.6, "new".to_string())));
    assert_eq!(r, Completion::Committed);
    assert_eq!(c.score(), Some(&0.6));
    assert_eq!(c.explanation(), "new");
    assert_eq!(c.prompt(), "banana");
}

#[test]
fn second_submit_returns_no_task() {
    let mut c = typed("apple", "fruit");
    assert!(c.submit().is_some());
    assert!(c.submit().is_none());
    assert_eq!(c.phase_tag(), PhaseTag::Scoring);
}

#[test]
fn editing_ignored_while_scoring() {
    let mut c = typed("apple", "fruit");
    let task = c.submit().unwrap();
    c.append('x');
    c.erase_last();
    c.clear_input();
    match &c.state().phase {
        SessionPhase::Scoring { submitted, .. } => assert_eq!(submitted, "fruit"),
        _ => panic!("expected the scoring phase"),
    }
    assert_eq!(c.buffer(), "");
    c.complete::<String>(task.ticket, Ok((0.5, "ok".to_string())));
    c.append('x');
    c.erase_last();
    c.clear_input();
    assert_eq!(c.phase_tag(), PhaseTag::Reviewed);
    assert_eq!(c.explanation(), "ok");
}

#[test]
fn failure_returns_to_input_with_submitted_text() {
    let mut c = typed("apple", "fruit");
    let task = c.submit().unwrap();
    let r = c.complete::<String>(task.ticket, Err("backend down".to_string()));
    assert_eq!(r, Completion::Reverted);
    assert_eq!(c.phase_tag(), PhaseTag::Input);
    assert_eq!(c.buffer(), "fruit");
    assert!(c.submit().is_some());
}

#[test]
fn completion_while_input_is_dropped() {
    let mut c = typed("apple", "fruit");
    let r = c.complete::<String>(0, Ok((0.5, "never asked".to_string())));
    assert_eq!(r, Completion::Discarded);
    assert_eq!(c.buffer(), "fruit");
}

#[test]
fn dispatch_follows_actions() {
    let mut c: SessionController<f64> = SessionController::start("apple".to_string());
    assert!(c.dispatch(Action::CharTyped('a')).is_none());
    assert!(c.dispatch(Action::CharTyped('b')).is_none());
    assert!(c.dispatch(Action::Backspace).is_none());
    assert_eq!(c.buffer(), "a");
    assert!(c.dispatch(Action::ClearInput).is_none());
    assert_eq!(c.buffer(), "");
    c.dispatch(Action::CharTyped('q'));
    let task = c.dispatch(Action::Submit).expect("a task");
    assert_eq!(task.submitted, "q");
    assert!(c.dispatch(Action::Submit).is_none());
    assert!(c.dispatch(Action::Retry).is_none());
    assert_eq!(c.prompt(), "apple");
    assert!(c.dispatch(Action::Next("pear".to_string())).is_none());
    assert_eq!(c.prompt(), "pear");
    assert_eq!(c.phase_tag(), PhaseTag::Input);
}

#[test]
fn prompt_at_index() {
    let words = vec!["apple".to_string(), "banana".to_string()];
    assert_eq!(prompt_at(&words, 1), Some("banana".to_string()));
    assert_eq!(prompt_at(&words, 0), Some("apple".to_string()));
    assert_eq!(prompt_at(&words, 2), None);
}

#[test]
fn draw_prompt_picks_from_list() {
    let words = vec!["apple".to_string(), "banana".to_string(), "cherry".to_string()];
    for _ in 0..50 {
        let w = draw_prompt(&words).expect("a word");
        assert!(words.contains(&w));
    }
    let empty: Vec<String> = Vec::new();
    assert_eq!(draw_prompt(&empty), None);
}
