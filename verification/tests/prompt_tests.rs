use botstone::errors::BotstoneError;
use botstone::prompts::{
    classify_race, run_composition, usage_text, ComposeSession, ComposeStep, ComposeTransition,
    InteractionError, PromptResult, RaceOutcome,
};

#[test]
fn scripted_content_then_accept() {
    let events = vec![PromptResult::Message("hello".to_string()), PromptResult::Accept];
    let outcome = run_composition(&events).unwrap();
    assert_eq!(outcome.steps_taken, 2);
    assert_eq!(outcome.previews.len(), 0);
    let payload = outcome.payload.expect("accept must materialize the accumulated message");
    assert_eq!(payload.content, Some("hello".to_string()));
    assert!(payload.embed.is_none());
}

#[test]
fn scripted_preview_then_message_then_accept() {
    let events = vec![
        PromptResult::Preview,
        PromptResult::Message("x".to_string()),
        PromptResult::Accept,
    ];
    let outcome = run_composition(&events).unwrap();
    assert_eq!(outcome.steps_taken, 3);
    assert_eq!(outcome.previews.len(), 1);
    assert_eq!(outcome.previews[0].content, None);
    assert!(outcome.previews[0].embed.is_none());
    let payload = outcome.payload.unwrap();
    assert_eq!(payload.content, Some("x".to_string()));
}

#[test]
fn scripted_timeout_at_first_step() {
    let events = vec![PromptResult::TimedOut];
    let outcome = run_composition(&events).unwrap();
    assert_eq!(outcome.steps_taken, 1);
    assert_eq!(outcome.previews.len(), 0);
    assert!(outcome.payload.is_none());
}

#[test]
fn scripted_cancel_discards_progress() {
    let events = vec![PromptResult::Message("kept?".to_string()), PromptResult::Cancel];
    let outcome = run_composition(&events).unwrap();
    assert_eq!(outcome.steps_taken, 2);
    assert!(outcome.payload.is_none());
}

#[test]
fn scripted_both_steps_complete_normally() {
    let events = vec![
        PromptResult::Message("body".to_string()),
        PromptResult::Message("about".to_string()),
    ];
    let outcome = run_composition(&events).unwrap();
    assert_eq!(outcome.steps_taken, 2);
    let payload = outcome.payload.unwrap();
    assert_eq!(payload.content, Some("body".to_string()));
    assert_eq!(payload.embed.unwrap().description, Some("about".to_string()));
}

#[test]
fn scripted_skip_leaves_parts_unset() {
    let events = vec![PromptResult::Skip, PromptResult::Skip];
    let outcome = run_composition(&events).unwrap();
    let payload = outcome.payload.unwrap();
    assert_eq!(payload.content, None);
    assert!(payload.embed.is_none());
}

#[test]
fn events_running_out_is_no_outcome() {
    let events = vec![PromptResult::Message("only one".to_string())];
    assert!(run_composition(&events).is_none());
}

#[test]
fn session_preview_repeats_the_same_step() {
    let session = ComposeSession::new();
    match session.apply(&PromptResult::Preview) {
        ComposeTransition::Preview(next, shown) => {
            assert_eq!(next.step, ComposeStep::Content);
            assert_eq!(shown.content, None);
        },
        t => panic!("expected a preview transition, got {:?}", t),
    }
}

#[test]
fn prompt_texts_name_each_step() {
    let session = ComposeSession::new();
    assert_eq!(session.prompt_text(), "What should the content of the message be?");
    match session.apply(&PromptResult::Skip) {
        ComposeTransition::Continue(next) => {
            assert_eq!(next.prompt_text(), "What should the content of the embed be?");
        },
        t => panic!("expected to continue, got {:?}", t),
    }
}

#[test]
fn usage_text_names_all_control_emoji() {
    let text = usage_text();
    for emoji in PromptResult::all_representations() {
        assert!(text.contains(&emoji), "usage text misses {}", emoji);
    }
}

#[test]
fn emoji_round_trip() {
    for p in [
        PromptResult::Accept,
        PromptResult::Cancel,
        PromptResult::Skip,
        PromptResult::Preview,
    ] {
        let e = p.emoji_representation().unwrap();
        assert_eq!(PromptResult::from_emoji(&e), Some(p));
    }
    assert_eq!(PromptResult::TimedOut.emoji_representation(), None);
    assert_eq!(PromptResult::Message("m".to_string()).emoji_representation(), None);
}

#[test]
fn all_representations_in_fixed_order() {
    let all = PromptResult::all_representations();
    assert_eq!(all, vec!["\u{2705}", "\u{274c}", "\u{23e9}", "\u{1f441}"]);
}

#[test]
fn classify_text_reply() {
    let r = classify_race(RaceOutcome::Text(Some("words".to_string())));
    assert_eq!(r, Ok(PromptResult::Message("words".to_string())));
}

#[test]
fn classify_text_timeout() {
    assert_eq!(classify_race(RaceOutcome::Text(None)), Ok(PromptResult::TimedOut));
}

#[test]
fn classify_recognized_reaction() {
    let r = classify_race(RaceOutcome::Reaction(Ok("\u{274c}".to_string())));
    assert_eq!(r, Ok(PromptResult::Cancel));
}

#[test]
fn classify_unknown_reaction_is_impossible_error() {
    let r = classify_race(RaceOutcome::Reaction(Ok("\u{1f980}".to_string())));
    assert!(matches!(r, Err(BotstoneError::ImpossibleError(_))));
}

#[test]
fn classify_reaction_timeout() {
    let r = classify_race(RaceOutcome::Reaction(Err(InteractionError::Timeout)));
    assert_eq!(r, Ok(PromptResult::TimedOut));
}

#[test]
fn classify_transport_failure_propagates() {
    let r = classify_race(RaceOutcome::Reaction(Err(InteractionError::Transport(
        "gateway closed".to_string(),
    ))));
    assert_eq!(r, Err(BotstoneError::Transport("gateway closed".to_string())));
}

#[test]
fn fresh_and_advanced_sessions_are_well_formed() {
    let session = ComposeSession::new();
    assert!(session.well_formed());
    match session.apply(&PromptResult::Message("m".to_string())) {
        ComposeTransition::Continue(next) => assert!(next.well_formed()),
        t => panic!("expected to continue, got {:?}", t),
    }
}
