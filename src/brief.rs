use vstd::prelude::*;
use vstd::string::StringExecFns;
use crate::opinion::Opinion;

verus! {

/// The five peers of the panel, in the order in which the brief presents them.
#[derive(PartialEq, Eq, Structural, Clone, Copy, Debug)]
pub enum PeerRole {
    Social,
    Narrative,
    Volitional,
    Physical,
    Embodied,
}

/// The roles of the panel, in the brief's order.
pub open spec fn peer_order() -> Seq<PeerRole> {
    seq![PeerRole::Social, PeerRole::Narrative, PeerRole::Volitional, PeerRole::Physical, PeerRole::Embodied]
}

/// The label under which a peer's opinion stands in the brief.
pub open spec fn role_label(role: PeerRole) -> Seq<char> {
    match role {
        PeerRole::Social => "Social"@,
        PeerRole::Narrative => "Narrative"@,
        PeerRole::Volitional => "Volitional"@,
        PeerRole::Physical => "Physical"@,
        PeerRole::Embodied => "Bodily"@,
    }
}

/// What stands in the brief for a peer whose call failed.
pub open spec fn placeholder() -> Seq<char> {
    "No opinion"@
}

/// The instruction that closes the brief.
pub open spec fn closing() -> Seq<char> {
    "What do you conclude? Be laconic."@
}

/// The quoted block that carries the question.
pub open spec fn question_block(question: Seq<char>) -> Seq<char> {
    "\"\"\"Question: "@ + question + "\"\"\"\n"@
}

/// The quoted block that carries one labeled opinion.
pub open spec fn opinion_block(label: Seq<char>, text: Seq<char>) -> Seq<char> {
    "\"\"\""@ + label + " opinion: "@ + text + "\"\"\"\n"@
}

/// A peer's text in the brief: its opinion, or the placeholder where it failed.
pub open spec fn opinion_text(outcome: Option<Opinion>) -> Seq<char> {
    match outcome {
        Some(o) => o@,
        None => placeholder(),
    }
}

/// The section of the i-th peer in the brief.
pub open spec fn section(outcomes: Seq<Option<Opinion>>, i: int) -> Seq<char> {
    opinion_block(role_label(peer_order()[i]), opinion_text(outcomes[i]))
}

/// The sections of the first n peers, in order.
pub open spec fn sections(outcomes: Seq<Option<Opinion>>, n: nat) -> Seq<char>
    decreases n,
{
    if n == 0 {
        Seq::empty()
    } else {
        sections(outcomes, (n - 1) as nat) + section(outcomes, n - 1)
    }
}

/// The brief handed to the synthesizer: the question, the five peers'
/// sections, and the closing instruction.
pub open spec fn brief_text(question: Seq<char>, outcomes: Seq<Option<Opinion>>) -> Seq<char> {
    question_block(question) + sections(outcomes, 5) + closing()
}

/// Whatever the outcomes, the brief holds the question and then exactly five
/// labeled sections, Social, Narrative, Volitional, Physical and Bodily, in
/// that order, before the closing instruction.
pub proof fn lemma_brief_layout(question: Seq<char>, outcomes: Seq<Option<Opinion>>)
    requires
        outcomes.len() == 5,
    ensures
        brief_text(question, outcomes) == question_block(question)
            + opinion_block("Social"@, opinion_text(outcomes[0]))
            + opinion_block("Narrative"@, opinion_text(outcomes[1]))
            + opinion_block("Volitional"@, opinion_text(outcomes[2]))
            + opinion_block("Physical"@, opinion_text(outcomes[3]))
            + opinion_block("Bodily"@, opinion_text(outcomes[4]))
            + closing(),
{
    reveal_with_fuel(sections, 6);
    assert(sections(outcomes, 5) =~= opinion_block("Social"@, opinion_text(outcomes[0]))
        + opinion_block("Narrative"@, opinion_text(outcomes[1]))
        + opinion_block("Volitional"@, opinion_text(outcomes[2]))
        + opinion_block("Physical"@, opinion_text(outcomes[3]))
        + opinion_block("Bodily"@, opinion_text(outcomes[4])));
    assert(brief_text(question, outcomes) =~= question_block(question)
        + opinion_block("Social"@, opinion_text(outcomes[0]))
        + opinion_block("Narrative"@, opinion_text(outcomes[1]))
        + opinion_block("Volitional"@, opinion_text(outcomes[2]))
        + opinion_block("Physical"@, opinion_text(outcomes[3]))
        + opinion_block("Bodily"@, opinion_text(outcomes[4]))
        + closing());
}

/// A peer whose call failed is represented in its section by the placeholder,
/// which is not empty, and by nothing of the failure.
pub proof fn lemma_failed_peer_placeholder(outcomes: Seq<Option<Opinion>>, i: int)
    requires
        outcomes.len() == 5,
        0 <= i < 5,
        outcomes[i] is None,
    ensures
        section(outcomes, i) == opinion_block(role_label(peer_order()[i]), "No opinion"@),
        opinion_text(outcomes[i]) == "No opinion"@,
        opinion_text(outcomes[i]).len() == 10,
{
    reveal_strlit("No opinion");
}

impl PeerRole {
    /// The label of this peer in the brief.
    pub fn label(&self) -> (r: &'static str)
        ensures
            r@ == role_label(*self),
    {
        match self {
            PeerRole::Social => "Social",
            PeerRole::Narrative => "Narrative",
            PeerRole::Volitional => "Volitional",
            PeerRole::Physical => "Physical",
            PeerRole::Embodied => "Bodily",
        }
    }

    /// The i-th role in the brief's order.
    pub fn at(i: usize) -> (r: PeerRole)
        requires
            i < 5,
        ensures
            r == peer_order()[i as int],
    {
        if i == 0 {
            PeerRole::Social
        } else if i == 1 {
            PeerRole::Narrative
        } else if i == 2 {
            PeerRole::Volitional
        } else if i == 3 {
            PeerRole::Physical
        } else {
            PeerRole::Embodied
        }
    }
}

/// Appends a peer's labeled section to the brief being written.
fn push_section(out: &mut String, label: &str, outcome: &Option<Opinion>)
    ensures
        final(out)@ == old(out)@ + opinion_block(label@, opinion_text(*outcome)),
{
    out.append("\"\"\"");
    out.append(label);
    out.append(" opinion: ");
    match outcome {
        Some(o) => out.append(o.message().as_str()),
        None => out.append("No opinion"),
    }
    out.append("\"\"\"\n");
}

/// The brief for the synthesizer from the question and the five peers'
/// outcomes, given in the brief's order; a failed peer is `None`.
pub fn compose_brief(question: &str, outcomes: &[Option<Opinion>; 5]) -> (r: String)
    ensures
        r@ == brief_text(question@, outcomes@),
{
    let mut out = String::new();
    out.append("\"\"\"Question: ");
    out.append(question);
    out.append("\"\"\"\n");
    assert(out@ =~= question_block(question@) + sections(outcomes@, 0));
    let mut i: usize = 0;
    while i < 5
        invariant
            i <= 5,
            outcomes@.len() == 5,
            out@ == question_block(question@) + sections(outcomes@, i as nat),
        decreases 5 - i,
    {
        let role = PeerRole::at(i);
        push_section(&mut out, role.label(), &outcomes[i]);
        assert(out@ =~= question_block(question@) + sections(outcomes@, (i + 1) as nat));
        i = i + 1;
    }
    out.append("What do you conclude? Be laconic.");
    assert(out@ =~= brief_text(question@, outcomes@));
    out
}

} // verus!
