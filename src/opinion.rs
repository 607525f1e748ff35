use vstd::prelude::*;
use vstd::string::StringExecFns;

verus! {

/// The concatenation of text fragments, in order.
pub open spec fn joined(fragments: Seq<Seq<char>>) -> Seq<char>
    decreases fragments.len(),
{
    if fragments.len() == 0 {
        Seq::empty()
    } else {
        joined(fragments.drop_last()) + fragments.last()
    }
}

/// The text carried by one choice of a streamed chunk: its fragment, if any.
pub open spec fn choice_text(choice: Option<String>) -> Seq<char> {
    match choice {
        Some(s) => s@,
        None => Seq::empty(),
    }
}

/// The text carried by a streamed chunk: the fragments of its choices, in order.
pub open spec fn chunk_text(choices: Seq<Option<String>>) -> Seq<char>
    decreases choices.len(),
{
    if choices.len() == 0 {
        Seq::empty()
    } else {
        chunk_text(choices.drop_last()) + choice_text(choices.last())
    }
}

/// The views of a sequence of strings.
pub open spec fn texts(fragments: Seq<String>) -> Seq<Seq<char>> {
    fragments.map_values(|s: String| s@)
}

/// Accumulating fragments respects concatenation: what two runs of fragments
/// give, one after the other, is what they give joined; no fragments give no text.
pub proof fn lemma_joined_append(a: Seq<Seq<char>>, b: Seq<Seq<char>>)
    ensures
        joined(a + b) == joined(a) + joined(b),
        joined(Seq::<Seq<char>>::empty()) == Seq::<char>::empty(),
    decreases b.len(),
{
    if b.len() == 0 {
        assert(a + b =~= a);
        assert(joined(a) + joined(b) =~= joined(a));
    } else {
        assert((a + b).drop_last() =~= a + b.drop_last());
        lemma_joined_append(a, b.drop_last());
        assert(joined(a + b) =~= joined(a) + joined(b));
    }
}

/// The finished text of one personality's answer to one query.
pub struct Opinion {
    message: String,
}

impl View for Opinion {
    type V = Seq<char>;

    closed spec fn view(&self) -> Seq<char> {
        self.message@
    }
}

impl Opinion {
    pub fn new(message: String) -> (r: Opinion)
        ensures
            r@ == message@,
    {
        Opinion { message }
    }

    pub fn message(&self) -> (r: &String)
        ensures
            r@ == self@,
    {
        &self.message
    }

    pub fn into_message(self) -> (r: String)
        ensures
            r@ == self@,
    {
        self.message
    }
}

/// The text received so far from one streamed answer.
pub struct Accumulator {
    text: String,
}

impl View for Accumulator {
    type V = Seq<char>;

    closed spec fn view(&self) -> Seq<char> {
        self.text@
    }
}

impl Accumulator {
    pub fn new() -> (r: Accumulator)
        ensures
            r@ == Seq::<char>::empty(),
    {
        Accumulator { text: String::new() }
    }

    /// Appends one fragment after what was received before.
    pub fn push_fragment(&mut self, fragment: &str)
        ensures
            final(self)@ == old(self)@ + fragment@,
    {
        self.text.append(fragment);
    }

    /// Appends the fragments of a chunk's choices, in order; a choice without
    /// content adds nothing.
    pub fn push_chunk(&mut self, choices: &Vec<Option<String>>)
        ensures
            final(self)@ == old(self)@ + chunk_text(choices@),
    {
        let mut i: usize = 0;
        while i < choices.len()
            invariant
                i <= choices@.len(),
                self@ == old(self)@ + chunk_text(choices@.subrange(0, i as int)),
            decreases choices@.len() - i,
        {
            assert(choices@.subrange(0, i + 1).drop_last() =~= choices@.subrange(0, i as int));
            match &choices[i] {
                Some(s) => self.push_fragment(s.as_str()),
                None => {},
            }
            assert(self@ =~= old(self)@ + chunk_text(choices@.subrange(0, i + 1)));
            i = i + 1;
        }
        assert(choices@.subrange(0, choices@.len() as int) =~= choices@);
    }

    /// The opinion made of everything received.
    pub fn finish(self) -> (r: Opinion)
        ensures
            r@ == self@,
    {
        Opinion { message: self.text }
    }
}

/// What the stream of one answer delivers next.
pub enum StreamEvent {
    /// A chunk, as the content of each of its choices.
    Chunk(Vec<Option<String>>),
    /// Receiving failed.
    Failed,
    /// The service sent everything.
    Ended,
}

/// Where one streamed answer stands after an event.
pub enum StreamStep {
    /// More is awaited; this is what was received so far.
    Receiving(Accumulator),
    /// The answer is complete.
    Done(Opinion),
    /// The answer failed; what was received is dropped.
    Aborted,
}

impl Accumulator {
    /// Takes one event of the stream: a chunk is appended, the end gives the
    /// opinion made of everything received, and a failure drops it all.
    pub fn step(self, event: StreamEvent) -> (r: StreamStep)
        ensures
            event is Chunk ==> r is Receiving && r->Receiving_0@ == self@ + chunk_text(
                event->Chunk_0@,
            ),
            event is Ended ==> r is Done && r->Done_0@ == self@,
            event is Failed ==> r is Aborted,
    {
        let mut acc = self;
        match event {
            StreamEvent::Chunk(choices) => {
                acc.push_chunk(&choices);
                StreamStep::Receiving(acc)
            },
            StreamEvent::Ended => StreamStep::Done(acc.finish()),
            StreamEvent::Failed => StreamStep::Aborted,
        }
    }
}

/// The opinion made of the given fragments, in order.
pub fn accumulate(fragments: &Vec<String>) -> (r: Opinion)
    ensures
        r@ == joined(texts(fragments@)),
{
    let mut acc = Accumulator::new();
    let mut i: usize = 0;
    while i < fragments.len()
        invariant
            i <= fragments@.len(),
            acc@ == joined(texts(fragments@.subrange(0, i as int))),
        decreases fragments@.len() - i,
    {
        assert(texts(fragments@.subrange(0, i + 1)).drop_last() =~= texts(
            fragments@.subrange(0, i as int),
        ));
        acc.push_fragment(fragments[i].as_str());
        i = i + 1;
    }
    assert(fragments@.subrange(0, fragments@.len() as int) =~= fragments@);
    acc.finish()
}

} // verus!
