//! The greedy generation loop. The forward pass and the argmax over its
//! logits are the inference engine's work; this machine decides what is fed
//! next, at which position, and when to stop: on an end-of-sequence token,
//! on a token whose text holds a newline, or when the budget is spent.

use vstd::prelude::*;
use crate::text::{chars_of, index_from, index_of};

verus! {

/// Budget of generated tokens for a single-line operation code: the token
/// sampled after the prompt and up to 100 more.
pub const MAX_OP_TOKENS: usize = 101;

/// Tokens that end a sequence (padding and end-of-sequence).
pub open spec fn is_eos(t: u32) -> bool {
    t == 0 || t == 1
}

/// Why generation failed.
pub enum GenerationError {
    /// The engine's logits had a shape other than `[vocab]` or `[seq, vocab]`.
    Shape(Vec<usize>),
    /// The engine itself failed.
    Engine(String),
}

/// Which part of a logits tensor holds the scores for the next token.
pub enum LogitsRow {
    /// A single vector: all of it.
    Whole,
    /// A matrix: this row, the last.
    Row(usize),
}

/// Picks the last position's logits out of a tensor of shape `dims`.
pub fn last_logits_row(dims: &Vec<usize>) -> (r: Result<LogitsRow, GenerationError>)
    ensures
        dims@.len() == 1 <==> r matches Ok(LogitsRow::Whole),
        dims@.len() == 2 && dims@[0] > 0 <==> r matches Ok(LogitsRow::Row(_)),
        r matches Ok(LogitsRow::Row(i)) ==> i == dims@[0] - 1,
        r matches Err(e) ==> e matches GenerationError::Shape(d) && d@ == dims@,
{
    if dims.len() == 1 {
        Ok(LogitsRow::Whole)
    } else if dims.len() == 2 && dims[0] > 0 {
        Ok(LogitsRow::Row(dims[0] - 1))
    } else {
        Err(GenerationError::Shape(dims.clone()))
    }
}

/// What the engine is to do next.
#[derive(PartialEq, Eq, Structural)]
pub enum GenStep {
    /// Feed this token alone at this position and sample the next one.
    Forward { token: u32, pos: usize },
    /// Stop: the generated tokens are final.
    Done,
}

/// Mathematical state of a generation.
pub struct GenModel {
    pub prompt_len: nat,
    pub max_tokens: nat,
    pub generated: Seq<u32>,
    pub finished: bool,
}

/// One sampled token, whose text holds a newline when `newline` does: the
/// next state and what the engine does next.
pub open spec fn step_spec(m: GenModel, token: u32, newline: bool) -> (GenModel, Option<(u32, nat)>) {
    if m.finished {
        (m, None)
    } else if is_eos(token) {
        (GenModel { finished: true, ..m }, None)
    } else {
        let g = m.generated.push(token);
        if newline || g.len() >= m.max_tokens {
            (GenModel { generated: g, finished: true, ..m }, None)
        } else {
            (
                GenModel { generated: g, ..m },
                Some((token, (m.prompt_len + g.len() - 1) as nat)),
            )
        }
    }
}

/// `s` holds a line feed.
pub open spec fn has_newline(s: Seq<char>) -> bool {
    index_from(s, '\n', 0) < s.len()
}

/// A greedy generation in progress.
pub struct Generation {
    prompt_len: usize,
    max_tokens: usize,
    generated: Vec<u32>,
    finished: bool,
}

impl View for Generation {
    type V = GenModel;

    closed spec fn view(&self) -> GenModel {
        GenModel {
            prompt_len: self.prompt_len as nat,
            max_tokens: self.max_tokens as nat,
            generated: self.generated@,
            finished: self.finished,
        }
    }
}

impl Generation {
    /// Well-formed: the positions that can still be handed out fit a `usize`.
    pub closed spec fn wf(&self) -> bool {
        &&& self.prompt_len + self.max_tokens <= usize::MAX
        &&& self.generated@.len() <= self.max_tokens
        &&& !self.finished ==> self.generated@.len() < self.max_tokens
    }

    /// Starts a generation after a prompt of `prompt_len` tokens, with room
    /// for `max_tokens` generated ones. The engine first runs the whole prompt
    /// at position 0 and samples the first token.
    pub fn new(prompt_len: usize, max_tokens: usize) -> (r: Generation)
        requires
            prompt_len + max_tokens <= usize::MAX,
        ensures
            r.wf(),
            r@ == (GenModel {
                prompt_len: prompt_len as nat,
                max_tokens: max_tokens as nat,
                generated: Seq::empty(),
                finished: max_tokens == 0,
            }),
    {
        Generation { prompt_len, max_tokens, generated: Vec::new(), finished: max_tokens == 0 }
    }

    /// Takes the token that the engine sampled, and `piece`, its text.
    pub fn on_token(&mut self, token: u32, piece: &str) -> (r: GenStep)
        requires
            old(self).wf(),
        ensures
            final(self).wf(),
            (final(self)@, match r {
                GenStep::Forward { token, pos } => Some((token, pos as nat)),
                GenStep::Done => None,
            }) == step_spec(old(self)@, token, has_newline(piece@)),
    {
        let text = chars_of(piece);
        let newline = index_of(&text, '\n', 0) < text.len();
        if self.finished {
            return GenStep::Done;
        }
        if token == 0 || token == 1 {
            self.finished = true;
            return GenStep::Done;
        }
        self.generated.push(token);
        if newline || self.generated.len() >= self.max_tokens {
            self.finished = true;
            GenStep::Done
        } else {
            GenStep::Forward { token, pos: self.prompt_len + self.generated.len() - 1 }
        }
    }

    /// Whether generation has stopped.
    pub fn is_finished(&self) -> (r: bool)
        ensures
            r == self@.finished,
    {
        self.finished
    }

    /// The tokens generated so far.
    pub fn tokens(&self) -> (r: &Vec<u32>)
        ensures
            r@ == self@.generated,
    {
        &self.generated
    }
}

/// The tokens that a greedy generation produces when the engine's choice
/// after a token history is `pick(history)` and a token's text holds a
/// newline when `newline(token)` does, with at most `fuel` more samples.
pub open spec fn greedy_run(
    m: GenModel,
    prompt: Seq<u32>,
    pick: spec_fn(Seq<u32>) -> u32,
    newline: spec_fn(u32) -> bool,
    fuel: nat,
) -> Seq<u32>
    decreases fuel,
{
    if fuel == 0 || m.finished {
        m.generated
    } else {
        let t = pick(prompt + m.generated);
        greedy_run(step_spec(m, t, newline(t)).0, prompt, pick, newline, (fuel - 1) as nat)
    }
}

/// Two engines that make the same choice after every history yield the same
/// tokens from the same prompt.
pub proof fn lemma_greedy_deterministic(
    m: GenModel,
    prompt: Seq<u32>,
    pick1: spec_fn(Seq<u32>) -> u32,
    pick2: spec_fn(Seq<u32>) -> u32,
    newline: spec_fn(u32) -> bool,
    fuel: nat,
)
    requires
        forall|h: Seq<u32>| #[trigger] pick1(h) == pick2(h),
    ensures
        greedy_run(m, prompt, pick1, newline, fuel) == greedy_run(
            m,
            prompt,
            pick2,
            newline,
            fuel,
        ),
    decreases fuel,
{
    if fuel > 0 && !m.finished {
        let t = pick1(prompt + m.generated);
        assert(t == pick2(prompt + m.generated));
        lemma_greedy_deterministic(
            step_spec(m, t, newline(t)).0,
            prompt,
            pick1,
            pick2,
            newline,
            (fuel - 1) as nat,
        );
    }
}

/// A generation never holds more tokens than its budget, and never an
/// end-of-sequence token.
pub proof fn lemma_greedy_bounded(
    m: GenModel,
    prompt: Seq<u32>,
    pick: spec_fn(Seq<u32>) -> u32,
    newline: spec_fn(u32) -> bool,
    fuel: nat,
)
    requires
        m.generated.len() <= m.max_tokens,
        !m.finished ==> m.generated.len() < m.max_tokens,
        forall|i: int| 0 <= i < m.generated.len() ==> !is_eos(#[trigger] m.generated[i]),
    ensures
        greedy_run(m, prompt, pick, newline, fuel).len() <= m.max_tokens,
        forall|i: int|
            0 <= i < greedy_run(m, prompt, pick, newline, fuel).len() ==> !is_eos(
                #[trigger] greedy_run(m, prompt, pick, newline, fuel)[i],
            ),
    decreases fuel,
{
    if fuel > 0 && !m.finished {
        let t = pick(prompt + m.generated);
        let n = step_spec(m, t, newline(t)).0;
        assert(forall|i: int| 0 <= i < n.generated.len() ==> !is_eos(#[trigger] n.generated[i]));
        lemma_greedy_bounded(n, prompt, pick, newline, (fuel - 1) as nat);
    }
}

} // verus!
