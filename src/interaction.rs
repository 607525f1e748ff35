use vstd::prelude::*;
use vstd::string::StringExecFns;
use crate::brief::{brief_text, compose_brief};
use crate::opinion::Opinion;

verus! {

/// Whether a question goes to one personality or to the panel.
#[derive(PartialEq, Eq, Structural, Clone, Copy, Debug)]
pub enum Mode {
    Single,
    Panel,
}

/// Where the prompt loop stands.
pub enum LoopState {
    /// Waiting for the user's next line.
    Prompting,
    /// The panel's peers were asked this question; their outcomes are awaited.
    AwaitingPeers(String),
    /// The terminal query (the single personality, or the synthesizer) is awaited.
    AwaitingAnswer,
    /// The user asked to stop.
    Exited,
}

/// What the loop learns from the outside.
pub enum LoopEvent {
    /// A line read from the user, with its terminator.
    LineRead(String),
    /// The outcomes of the five peers, in the brief's order; a failed peer is `None`.
    PeersAnswered([Option<Opinion>; 5]),
    /// The terminal query succeeded.
    Answered(Opinion),
    /// The terminal query failed.
    Failed,
}

/// What the loop asks the outside to do next.
pub enum LoopAction {
    /// Stop the loop.
    Stop,
    /// Ask every peer of the panel this question, concurrently.
    AskPeers(String),
    /// Issue the terminal query with this prompt.
    AskFinal(String),
    /// Write this text to the output, then prompt again.
    Print(String),
    /// Report the terminal query's failure on the error stream, then prompt again.
    ReportFailure,
    /// The event does not fit the state: nothing to do.
    Nothing,
}

/// The line that ends the loop: an empty line with its terminator.
pub open spec fn is_exit_text(line: Seq<char>) -> bool {
    line == seq!['\n']
}

/// How one event moves the loop from `state` to `next`, asking for `action`.
pub open spec fn steps_to(
    mode: Mode,
    state: LoopState,
    event: LoopEvent,
    next: LoopState,
    action: LoopAction,
) -> bool {
    match state {
        LoopState::Exited => next is Exited && action is Stop,
        LoopState::Prompting => match event {
            LoopEvent::LineRead(line) => if is_exit_text(line@) {
                next is Exited && action is Stop
            } else if mode == Mode::Single {
                &&& next is AwaitingAnswer
                &&& action is AskFinal
                &&& action->AskFinal_0@ == line@
            } else {
                &&& next is AwaitingPeers
                &&& next->AwaitingPeers_0@ == line@
                &&& action is AskPeers
                &&& action->AskPeers_0@ == line@
            },
            _ => next is Prompting && action is Nothing,
        },
        LoopState::AwaitingPeers(question) => match event {
            LoopEvent::PeersAnswered(outcomes) => {
                &&& next is AwaitingAnswer
                &&& action is AskFinal
                &&& action->AskFinal_0@ == brief_text(question@, outcomes@)
            },
            _ => {
                &&& next is AwaitingPeers
                &&& next->AwaitingPeers_0@ == question@
                &&& action is Nothing
            },
        },
        LoopState::AwaitingAnswer => match event {
            LoopEvent::Answered(opinion) => {
                &&& next is Prompting
                &&& action is Print
                &&& action->Print_0@ == opinion@ + seq!['\n']
            },
            LoopEvent::Failed => next is Prompting && action is ReportFailure,
            _ => next is AwaitingAnswer && action is Nothing,
        },
    }
}

/// Whether a line read from the user ends the loop.
pub fn is_exit_line(line: &String) -> (r: bool)
    ensures
        r == is_exit_text(line@),
{
    let sentinel = "\n".to_owned();
    proof {
        reveal_strlit("\n");
        assert(sentinel@ =~= seq!['\n']);
    }
    *line == sentinel
}

/// The text written for a successful answer: the opinion and a newline.
pub fn answer_line(opinion: Opinion) -> (r: String)
    ensures
        r@ == opinion@ + seq!['\n'],
{
    let mut text = opinion.into_message();
    text.append("\n");
    proof {
        reveal_strlit("\n");
    }
    assert(text@ =~= opinion@ + seq!['\n']);
    text
}

/// Moves the loop by one event and says what to do next.
pub fn advance(mode: Mode, state: LoopState, event: LoopEvent) -> (r: (LoopState, LoopAction))
    ensures
        steps_to(mode, state, event, r.0, r.1),
{
    match state {
        LoopState::Exited => (LoopState::Exited, LoopAction::Stop),
        LoopState::Prompting => match event {
            LoopEvent::LineRead(line) => if is_exit_line(&line) {
                (LoopState::Exited, LoopAction::Stop)
            } else {
                match mode {
                    Mode::Single => (LoopState::AwaitingAnswer, LoopAction::AskFinal(line)),
                    Mode::Panel => {
                        let question = line.clone();
                        (LoopState::AwaitingPeers(question), LoopAction::AskPeers(line))
                    },
                }
            },
            _ => (LoopState::Prompting, LoopAction::Nothing),
        },
        LoopState::AwaitingPeers(question) => match event {
            LoopEvent::PeersAnswered(outcomes) => {
                let brief = compose_brief(question.as_str(), &outcomes);
                (LoopState::AwaitingAnswer, LoopAction::AskFinal(brief))
            },
            _ => (LoopState::AwaitingPeers(question), LoopAction::Nothing),
        },
        LoopState::AwaitingAnswer => match event {
            LoopEvent::Answered(opinion) => (LoopState::Prompting, LoopAction::Print(answer_line(opinion))),
            LoopEvent::Failed => (LoopState::Prompting, LoopAction::ReportFailure),
            _ => (LoopState::AwaitingAnswer, LoopAction::Nothing),
        },
    }
}

/// Only the empty line ends the loop: a line holding anything before its
/// terminator, whitespace included, is a question.
pub proof fn lemma_only_empty_line_exits(mode: Mode, line: String, next: LoopState, action: LoopAction)
    requires
        steps_to(mode, LoopState::Prompting, LoopEvent::LineRead(line), next, action),
    ensures
        next is Exited <==> line@ == seq!['\n'],
        line@.len() != 1 ==> !(next is Exited),
        line@.len() >= 1 && line@[0] != '\n' ==> !(next is Exited),
{
}

/// A line that is not the exit line leads to exactly one terminal query: in
/// single mode at once, in panel mode once the peers have answered, whatever
/// each of them gave. Whether that query then succeeds or fails, the loop
/// goes back to prompting, and it asks nothing more for that line.
pub proof fn lemma_one_terminal_query(
    mode: Mode,
    line: String,
    next: LoopState,
    action: LoopAction,
    outcomes: [Option<Opinion>; 5],
    peers_next: LoopState,
    peers_action: LoopAction,
    answer: LoopEvent,
    final_next: LoopState,
    final_action: LoopAction,
)
    requires
        !is_exit_text(line@),
        steps_to(mode, LoopState::Prompting, LoopEvent::LineRead(line), next, action),
        mode == Mode::Panel ==> steps_to(mode, next, LoopEvent::PeersAnswered(outcomes), peers_next, peers_action),
        answer is Answered || answer is Failed,
        steps_to(mode, if mode == Mode::Single { next } else { peers_next }, answer, final_next, final_action),
    ensures
        mode == Mode::Single ==> action is AskFinal && action->AskFinal_0@ == line@,
        mode == Mode::Panel ==> action is AskPeers && peers_action is AskFinal
            && peers_action->AskFinal_0@ == brief_text(line@, outcomes@),
        final_next is Prompting,
        !(final_action is AskFinal) && !(final_action is AskPeers) && !(final_action is Stop),
{
}

} // verus!
