use async_openai::types::Role;
use oneself::brief::{compose_brief, PeerRole};
use oneself::interaction::{advance, answer_line, is_exit_line, LoopAction, LoopEvent, LoopState, Mode};
use oneself::opinion::{accumulate, Accumulator, Opinion, StreamEvent, StreamStep};
use oneself::personality::{to_request, ChatPlan, OneSelf, Speaker, MODEL, PEER_MAX_TOKENS, SYNTHESIZER_MAX_TOKENS};

fn opinion(text: &str) -> Option<Opinion> {
    Some(Opinion::new(text.to_string()))
}

fn final_prompt(action: LoopAction) -> String {
    match action {
        LoopAction::AskFinal(p) => p,
        _ => panic!("expected the terminal query"),
    }
}

fn printed(action: LoopAction) -> String {
    match action {
        LoopAction::Print(p) => p,
        _ => panic!("expected an answer to print"),
    }
}

#[test]
fn accumulate_joins_in_order() {
    let op = accumulate(&vec!["Hel".to_string(), "lo".to_string()]);
    assert_eq!(op.message(), "Hello");
}

#[test]
fn accumulate_nothing_is_empty() {
    let op = accumulate(&Vec::new());
    assert_eq!(op.message(), "");
}

#[test]
fn accumulate_is_associative() {
    let whole = accumulate(&vec!["a".to_string(), "bc".to_string(), "d".to_string()]);
    let left = accumulate(&vec!["a".to_string()]);
    let right = accumulate(&vec!["bc".to_string(), "d".to_string()]);
    assert_eq!(whole.into_message(), left.into_message() + right.message());
}

#[test]
fn chunks_skip_choices_without_content() {
    let mut acc = Accumulator::new();
    acc.push_chunk(&vec![Some("Grav".to_string()), None]);
    acc.push_chunk(&Vec::new());
    acc.push_chunk(&vec![None, Some("ity".to_string())]);
    acc.push_fragment("!");
    assert_eq!(acc.finish().message(), "Gravity!");
}

#[test]
fn empty_stream_gives_empty_opinion() {
    let acc = Accumulator::new();
    assert_eq!(acc.finish().message(), "");
}

#[test]
fn only_the_bare_newline_exits() {
    assert!(is_exit_line(&"\n".to_string()));
    assert!(!is_exit_line(&" \n".to_string()));
    assert!(!is_exit_line(&"\r\n".to_string()));
    assert!(!is_exit_line(&"\t\n".to_string()));
    assert!(!is_exit_line(&"\n\n".to_string()));
    assert!(!is_exit_line(&"".to_string()));
    assert!(!is_exit_line(&"q\n".to_string()));
}

#[test]
fn scenario_single_mode_answer() {
    let (state, action) = advance(Mode::Single, LoopState::Prompting, LoopEvent::LineRead("What is gravity?\n".to_string()));
    assert!(matches!(state, LoopState::AwaitingAnswer));
    assert_eq!(final_prompt(action), "What is gravity?\n");
    let answer = accumulate(&vec!["Gravity".to_string(), " pulls".to_string(), " masses.".to_string()]);
    let (state, action) = advance(Mode::Single, state, LoopEvent::Answered(answer));
    assert!(matches!(state, LoopState::Prompting));
    assert_eq!(printed(action), "Gravity pulls masses.\n");
}

#[test]
fn scenario_bare_newline_exits_at_once() {
    for mode in [Mode::Single, Mode::Panel] {
        let (state, action) = advance(mode, LoopState::Prompting, LoopEvent::LineRead("\n".to_string()));
        assert!(matches!(state, LoopState::Exited));
        assert!(matches!(action, LoopAction::Stop));
    }
}

#[test]
fn whitespace_line_is_a_question() {
    let (state, action) = advance(Mode::Single, LoopState::Prompting, LoopEvent::LineRead(" \n".to_string()));
    assert!(matches!(state, LoopState::AwaitingAnswer));
    assert_eq!(final_prompt(action), " \n");
}

#[test]
fn failed_answer_returns_to_prompting() {
    let (state, action) = advance(Mode::Single, LoopState::AwaitingAnswer, LoopEvent::Failed);
    assert!(matches!(state, LoopState::Prompting));
    assert!(matches!(action, LoopAction::ReportFailure));
    let (state, action) = advance(Mode::Single, state, LoopEvent::LineRead("again?\n".to_string()));
    assert!(matches!(state, LoopState::AwaitingAnswer));
    assert_eq!(final_prompt(action), "again?\n");
}

#[test]
fn exited_loop_stays_exited() {
    let (state, action) = advance(Mode::Panel, LoopState::Exited, LoopEvent::LineRead("hi\n".to_string()));
    assert!(matches!(state, LoopState::Exited));
    assert!(matches!(action, LoopAction::Stop));
}

#[test]
fn event_out_of_turn_changes_nothing() {
    let (state, action) = advance(Mode::Single, LoopState::Prompting, LoopEvent::Failed);
    assert!(matches!(state, LoopState::Prompting));
    assert!(matches!(action, LoopAction::Nothing));
}

const SCENARIO_C_BRIEF: &str = "\"\"\"Question: Why do apples fall?\n\"\"\"\n\
\"\"\"Social opinion: People expect it.\"\"\"\n\
\"\"\"Narrative opinion: Stems snap, then they drop.\"\"\"\n\
\"\"\"Volitional opinion: They choose the ground.\"\"\"\n\
\"\"\"Physical opinion: No opinion\"\"\"\n\
\"\"\"Bodily opinion: Ripe ones are heavy.\"\"\"\n\
What do you conclude? Be laconic.";

fn scenario_c_outcomes() -> [Option<Opinion>; 5] {
    [
        opinion("People expect it."),
        opinion("Stems snap, then they drop."),
        opinion("They choose the ground."),
        None,
        opinion("Ripe ones are heavy."),
    ]
}

#[test]
fn scenario_panel_with_failed_physical_peer() {
    let question = "Why do apples fall?\n".to_string();
    let (state, action) = advance(Mode::Panel, LoopState::Prompting, LoopEvent::LineRead(question.clone()));
    match action {
        LoopAction::AskPeers(q) => assert_eq!(q, question),
        _ => panic!("expected the peers to be asked"),
    }
    let (state, action) = advance(Mode::Panel, state, LoopEvent::PeersAnswered(scenario_c_outcomes()));
    assert!(matches!(state, LoopState::AwaitingAnswer));
    let brief = final_prompt(action);
    assert_eq!(brief, SCENARIO_C_BRIEF);
    let (state, action) = advance(Mode::Panel, state, LoopEvent::Answered(Opinion::new("Gravity.".to_string())));
    assert!(matches!(state, LoopState::Prompting));
    assert_eq!(printed(action), "Gravity.\n");
}

#[test]
fn brief_has_five_sections_in_order_whatever_failed() {
    let all_failed = compose_brief("Q", &[None, None, None, None, None]);
    assert_eq!(
        all_failed,
        "\"\"\"Question: Q\"\"\"\n\
\"\"\"Social opinion: No opinion\"\"\"\n\
\"\"\"Narrative opinion: No opinion\"\"\"\n\
\"\"\"Volitional opinion: No opinion\"\"\"\n\
\"\"\"Physical opinion: No opinion\"\"\"\n\
\"\"\"Bodily opinion: No opinion\"\"\"\n\
What do you conclude? Be laconic."
    );
    let labels = ["Social opinion", "Narrative opinion", "Volitional opinion", "Physical opinion", "Bodily opinion"];
    let mixed = compose_brief("Q", &[opinion("a"), None, opinion("c"), None, opinion("")]);
    let mut from = 0;
    for label in labels {
        let at = mixed[from..].find(label).expect("label present") + from;
        from = at + label.len();
    }
    assert!(mixed.contains("\"\"\"Bodily opinion: \"\"\"\n"));
}

#[test]
fn failed_peer_reads_placeholder() {
    let brief = compose_brief("Q", &scenario_c_outcomes());
    assert!(brief.contains("\"\"\"Physical opinion: No opinion\"\"\"\n"));
    assert!(!brief.contains("Physical opinion: \"\"\""));
}

#[test]
fn roles_and_labels() {
    let expected = ["Social", "Narrative", "Volitional", "Physical", "Bodily"];
    for i in 0..5 {
        assert_eq!(PeerRole::at(i).label(), expected[i]);
    }
    assert_eq!(PeerRole::at(3), PeerRole::Physical);
}

#[test]
fn answer_line_adds_newline() {
    assert_eq!(answer_line(Opinion::new("Yes.".to_string())), "Yes.\n");
    assert_eq!(answer_line(Opinion::new(String::new())), "\n");
}

#[test]
fn personalities() {
    let s = OneSelf::synthesizer();
    assert_eq!(s.instruction(), "Please always answer within 50 words.");
    assert_eq!(s.token_bound(), SYNTHESIZER_MAX_TOKENS);
    let p = OneSelf::peer(PeerRole::Physical);
    assert_eq!(p.instruction(), "Please answer as expert in intuitive Physics, always within 50 words.");
    assert_eq!(p.token_bound(), PEER_MAX_TOKENS);
    assert!(PEER_MAX_TOKENS < SYNTHESIZER_MAX_TOKENS);
}

#[test]
fn request_carries_two_turns() {
    let advisor = OneSelf::new("Be brief.".to_string(), 77);
    let req = advisor.request("Why?").expect("request builds");
    assert_eq!(req.model, MODEL);
    assert_eq!(req.max_tokens, Some(77));
    assert_eq!(req.stream, Some(true));
    assert_eq!(req.messages.len(), 2);
    assert_eq!(req.messages[0].role, Role::System);
    assert_eq!(req.messages[0].content, "Be brief.");
    assert_eq!(req.messages[1].role, Role::User);
    assert_eq!(req.messages[1].content, "Why?");
}

#[test]
fn plan_names_model_bound_stream_and_two_turns() {
    let advisor = OneSelf::peer(PeerRole::Social);
    let plan = advisor.plan("");
    assert_eq!(plan.model, "gpt-3.5-turbo");
    assert_eq!(plan.max_tokens, PEER_MAX_TOKENS);
    assert!(plan.stream);
    assert_eq!(plan.turns.len(), 2);
    assert_eq!(plan.turns[0].0, Speaker::System);
    assert_eq!(plan.turns[0].1, "Please answer as an expert of intuitive Psychology, always within 50 words.");
    assert_eq!(plan.turns[1].0, Speaker::User);
    assert_eq!(plan.turns[1].1, "");
}

#[test]
fn to_request_carries_the_plan() {
    let plan = ChatPlan {
        model: "m".to_string(),
        max_tokens: 9,
        stream: false,
        turns: vec![(Speaker::User, "hi".to_string())],
    };
    let req = to_request(&plan).expect("request builds");
    assert_eq!(req.model, "m");
    assert_eq!(req.max_tokens, Some(9));
    assert_eq!(req.stream, Some(false));
    assert_eq!(req.messages.len(), 1);
    assert_eq!(req.messages[0].role, Role::User);
    assert_eq!(req.messages[0].content, "hi");
}

#[test]
fn stream_steps_gather_then_finish() {
    let acc = Accumulator::new();
    let acc = match acc.step(StreamEvent::Chunk(vec![Some("Gravity".to_string())])) {
        StreamStep::Receiving(a) => a,
        _ => panic!("expected to keep receiving"),
    };
    let acc = match acc.step(StreamEvent::Chunk(vec![Some(" pulls".to_string()), None])) {
        StreamStep::Receiving(a) => a,
        _ => panic!("expected to keep receiving"),
    };
    match acc.step(StreamEvent::Ended) {
        StreamStep::Done(op) => assert_eq!(op.message(), "Gravity pulls"),
        _ => panic!("expected the answer"),
    }
}

#[test]
fn stream_failure_drops_partial_text() {
    let mut acc = Accumulator::new();
    acc.push_fragment("partial");
    assert!(matches!(acc.step(StreamEvent::Failed), StreamStep::Aborted));
}

#[test]
fn stream_ending_at_once_gives_empty_opinion() {
    match Accumulator::new().step(StreamEvent::Ended) {
        StreamStep::Done(op) => assert_eq!(op.message(), ""),
        _ => panic!("expected the answer"),
    }
}
