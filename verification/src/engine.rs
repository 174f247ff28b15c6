//! The settings of one generation, and the decisions of the loop that
//! produces text token by token.

use crate::decode::{decoded_stream, FragmentDecoder};
use crate::model::{Model, ModelType};
use crate::text::views;
use vstd::prelude::*;

verus! {

/// A single-precision number, held by its IEEE 754 bit pattern. Sampling
/// parameters are chosen and handed on here, never computed with.
#[derive(Clone, Copy, Debug, PartialEq, Eq, Structural)]
pub struct Scalar {
    pub bits: u32,
}

/// The bit pattern of seven tenths.
pub const SEVEN_TENTHS: u32 = 0x3F33_3333;

/// The bit pattern of eight tenths.
pub const EIGHT_TENTHS: u32 = 0x3F4C_CCCD;

/// The bit pattern of nine tenths.
pub const NINE_TENTHS: u32 = 0x3F66_6666;

/// The bit pattern of ninety-five hundredths.
pub const NINETY_FIVE_HUNDREDTHS: u32 = 0x3F73_3333;

/// The bit pattern of one.
pub const ONE: u32 = 0x3F80_0000;

/// The bit pattern of eleven tenths.
pub const ELEVEN_TENTHS: u32 = 0x3F8C_CCCD;

/// The bit pattern of nineteen tenths.
pub const NINETEEN_TENTHS: u32 = 0x3FF3_3333;

/// The context length used where a request names none.
pub const DEFAULT_CONTEXT: i32 = 4096;

/// The number of candidates kept by top-k sampling where a request names none.
pub const DEFAULT_TOP_K: i32 = 40;

/// The settings of one generation.
#[derive(Clone, Copy, Debug, PartialEq, Eq, Structural)]
pub struct EngineConfig {
    pub n_ctx: i32,
    pub n_len: Option<u32>,
    pub temperature: Scalar,
    pub top_k: i32,
    pub top_p: Scalar,
    pub repeat_penalty: Scalar,
}

impl Default for EngineConfig {
    fn default() -> (config: Self)
        ensures
            config == (EngineConfig {
                n_ctx: 4096,
                n_len: None,
                temperature: Scalar { bits: SEVEN_TENTHS },
                top_k: 40,
                top_p: Scalar { bits: NINE_TENTHS },
                repeat_penalty: Scalar { bits: ELEVEN_TENTHS },
            }),
    {
        EngineConfig {
            n_ctx: DEFAULT_CONTEXT,
            n_len: None,
            temperature: Scalar { bits: SEVEN_TENTHS },
            top_k: DEFAULT_TOP_K,
            top_p: Scalar { bits: NINE_TENTHS },
            repeat_penalty: Scalar { bits: ELEVEN_TENTHS },
        }
    }
}

/// `given` where it is there, else the scalar with the bit pattern `fallback`.
pub fn scalar_or(given: Option<Scalar>, fallback: u32) -> (chosen: Scalar)
    ensures
        chosen == (match given {
            Some(s) => s,
            None => Scalar { bits: fallback },
        }),
{
    match given {
        Some(s) => s,
        None => Scalar { bits: fallback },
    }
}

/// The settings that a call uses: its own where it brings some, else those
/// that the handle carries.
pub fn effective_config(carried: &EngineConfig, given: Option<&EngineConfig>) -> (used:
    EngineConfig)
    ensures
        used == (match given {
            Some(c) => *c,
            None => *carried,
        }),
{
    match given {
        Some(c) => *c,
        None => *carried,
    }
}

/// The backends.
#[derive(Clone, Copy, Debug, PartialEq, Eq, Structural)]
pub enum BackendKind {
    /// The backend that runs GGUF files.
    LlamaCpp,
    /// The backend that runs Transformers snapshots.
    Transformers,
}

/// The backend that runs a model: it is chosen once, by the format, when
/// the model is loaded.
pub fn backend_for(model: &Model) -> (kind: BackendKind)
    ensures
        kind == (match model.format {
            ModelType::Gguf => BackendKind::LlamaCpp,
            ModelType::Transformers => BackendKind::Transformers,
        }),
{
    match model.format {
        ModelType::Gguf => BackendKind::LlamaCpp,
        ModelType::Transformers => BackendKind::Transformers,
    }
}

/// A failure of a backend, with its message.
#[derive(Debug, Clone, PartialEq, Eq)]
pub struct EngineError {
    pub message: String,
}

/// What receives the text of a generation fragment by fragment.
pub trait TokenSink {
    /// Takes the next fragment. The answer is the stop signal: `true` asks
    /// the backend to end the generation at its next opportunity.
    fn accept(&mut self, fragment: &str) -> bool;
}

/// What every backend offers. A backend calls the sink once for each token,
/// in the order of the generation, from the thread that called `infer`.
pub trait EngineBackend: Sized {
    /// Loads a model. Loads of different models may run at once.
    fn new(args: &EngineConfig, model: &Model) -> Result<Self, EngineError>;

    /// Generates the continuation of a prompt and returns the whole text.
    /// The settings of the call count for more than those of the handle.
    fn infer<S: TokenSink>(
        &self,
        prompt: &str,
        option: Option<&EngineConfig>,
        callback: Option<&mut S>,
    ) -> Result<String, EngineError>;

    /// The record of the model that the handle serves.
    fn get_model_info(&self) -> Model;
}

/// A loaded model: one of the backends, chosen by the format of the model
/// when it was loaded.
pub enum InferenceEngine<G, T> {
    Gguf(G),
    Transformers(T),
}

impl<G: EngineBackend, T: EngineBackend> InferenceEngine<G, T> {
    /// The handle of a model of the GGUF format from what its backend
    /// answered to the load: the backend's handle, or the backend's failure.
    pub fn from_gguf(answer: Result<G, EngineError>) -> (loaded: Result<Self, EngineError>)
        ensures
            loaded == (match answer {
                Ok(engine) => Ok(InferenceEngine::<G, T>::Gguf(engine)),
                Err(error) => Err(error),
            }),
    {
        match answer {
            Ok(engine) => Ok(InferenceEngine::Gguf(engine)),
            Err(error) => Err(error),
        }
    }

    /// The handle of a model of the Transformers format from what its
    /// backend answered to the load.
    pub fn from_transformers(answer: Result<T, EngineError>) -> (loaded: Result<
        Self,
        EngineError,
    >)
        ensures
            loaded == (match answer {
                Ok(engine) => Ok(InferenceEngine::<G, T>::Transformers(engine)),
                Err(error) => Err(error),
            }),
    {
        match answer {
            Ok(engine) => Ok(InferenceEngine::Transformers(engine)),
            Err(error) => Err(error),
        }
    }

    /// Whether `loaded` is what comes of a load of `model` with the settings
    /// `args`: the backend of the model's format was asked, with exactly
    /// these settings and this record, and `loaded` is its answer, a handle
    /// of that backend or its failure.
    pub open spec fn is_load_of(
        loaded: Result<Self, EngineError>,
        args: &EngineConfig,
        model: &Model,
    ) -> bool {
        match model.format {
            ModelType::Gguf => match loaded {
                Ok(InferenceEngine::Gguf(engine)) => call_ensures(
                    G::new,
                    (args, model),
                    Ok::<G, EngineError>(engine),
                ),
                Ok(InferenceEngine::Transformers(_)) => false,
                Err(error) => call_ensures(G::new, (args, model), Err::<G, EngineError>(error)),
            },
            ModelType::Transformers => match loaded {
                Ok(InferenceEngine::Transformers(engine)) => call_ensures(
                    T::new,
                    (args, model),
                    Ok::<T, EngineError>(engine),
                ),
                Ok(InferenceEngine::Gguf(_)) => false,
                Err(error) => call_ensures(T::new, (args, model), Err::<T, EngineError>(error)),
            },
        }
    }

    /// Loads a model with the backend of its format. Whether the load
    /// succeeds is the backend's matter; which backend is asked, and with
    /// what, is not.
    pub fn new(args: &EngineConfig, model: &Model) -> (loaded: Result<Self, EngineError>)
        ensures
            Self::is_load_of(loaded, args, model),
            loaded matches Ok(engine) ==> (engine is Gguf <==> model.format == ModelType::Gguf),
    {
        match backend_for(model) {
            BackendKind::LlamaCpp => Self::from_gguf(G::new(args, model)),
            BackendKind::Transformers => Self::from_transformers(T::new(args, model)),
        }
    }

    /// The backend that serves the model.
    pub fn kind(&self) -> (kind: BackendKind)
        ensures
            kind == (match *self {
                InferenceEngine::Gguf(_) => BackendKind::LlamaCpp,
                InferenceEngine::Transformers(_) => BackendKind::Transformers,
            }),
    {
        match self {
            InferenceEngine::Gguf(_) => BackendKind::LlamaCpp,
            InferenceEngine::Transformers(_) => BackendKind::Transformers,
        }
    }

    /// Generates with the backend that serves the model: the prompt, the
    /// settings and the sink go to that backend as they came, and what it
    /// answers is the answer.
    pub fn infer<S: TokenSink>(
        &self,
        prompt: &str,
        option: Option<&EngineConfig>,
        callback: Option<&mut S>,
    ) -> (answer: Result<String, EngineError>)
        ensures
            match *self {
                InferenceEngine::Gguf(engine) => call_ensures(
                    G::infer::<S>,
                    (&engine, prompt, option, callback),
                    answer,
                ),
                InferenceEngine::Transformers(engine) => call_ensures(
                    T::infer::<S>,
                    (&engine, prompt, option, callback),
                    answer,
                ),
            },
    {
        match self {
            InferenceEngine::Gguf(engine) => engine.infer(prompt, option, callback),
            InferenceEngine::Transformers(engine) => engine.infer(prompt, option, callback),
        }
    }

    /// The record of the model that the handle serves, as the backend
    /// behind the handle gives it.
    pub fn get_model_info(&self) -> (info: Model)
        ensures
            match *self {
                InferenceEngine::Gguf(engine) => call_ensures(
                    G::get_model_info,
                    (&engine,),
                    info,
                ),
                InferenceEngine::Transformers(engine) => call_ensures(
                    T::get_model_info,
                    (&engine,),
                    info,
                ),
            },
    {
        match self {
            InferenceEngine::Gguf(engine) => engine.get_model_info(),
            InferenceEngine::Transformers(engine) => engine.get_model_info(),
        }
    }
}

/// A backend that serves one generation at a time, with the settings that
/// its calls use: the discipline for backends that cannot run two
/// generations at once. Whoever shares such a handle keeps it behind a
/// guard and sets the settings of a request before the call.
pub struct Guarded<B> {
    pub backend: B,
    pub config: EngineConfig,
}

impl<B: EngineBackend> Guarded<B> {
    /// The handle from what the backend answered to the load: the
    /// backend's handle with the settings of the load, or the backend's
    /// failure.
    pub fn from_answer(answer: Result<B, EngineError>, args: &EngineConfig) -> (loaded: Result<
        Self,
        EngineError,
    >)
        ensures
            loaded == (match answer {
                Ok(backend) => Ok(Guarded { backend, config: *args }),
                Err(error) => Err(error),
            }),
    {
        match answer {
            Ok(backend) => Ok(Guarded { backend, config: *args }),
            Err(error) => Err(error),
        }
    }

    /// Loads a model: the backend is asked with exactly these settings and
    /// this record. What it answers decides: its handle comes back with the
    /// settings it was loaded with, its failure comes back as it is.
    pub fn new(args: &EngineConfig, model: &Model) -> (loaded: Result<Self, EngineError>)
        ensures
            match loaded {
                Ok(handle) => handle.config == *args && call_ensures(
                    B::new,
                    (args, model),
                    Ok::<B, EngineError>(handle.backend),
                ),
                Err(error) => call_ensures(B::new, (args, model), Err::<B, EngineError>(error)),
            },
    {
        Self::from_answer(B::new(args, model), args)
    }

    /// Replaces the settings that the calls of this handle use.
    pub fn set_config(&mut self, config: &EngineConfig)
        ensures
            final(self).config == *config,
            final(self).backend == old(self).backend,
    {
        self.config = *config;
    }

    /// Generates with the settings that the handle carries: the backend
    /// gets the prompt and the sink as they came, and the handle's settings
    /// as the settings of the call; what it answers is the answer.
    pub fn infer<S: TokenSink>(&self, prompt: &str, callback: Option<&mut S>) -> (answer: Result<
        String,
        EngineError,
    >)
        ensures
            call_ensures(
                B::infer::<S>,
                (&self.backend, prompt, Some(&self.config), callback),
                answer,
            ),
    {
        self.backend.infer(prompt, Some(&self.config), callback)
    }

    /// The record of the model that the handle serves, as the backend gives
    /// it.
    pub fn get_model_info(&self) -> (info: Model)
        ensures
            call_ensures(B::get_model_info, (&self.backend,), info),
    {
        self.backend.get_model_info()
    }
}

/// A sink that keeps every fragment and never asks for the end.
pub struct Collector {
    pub fragments: Vec<String>,
}

impl Collector {
    /// A sink that has received nothing.
    pub fn new() -> (sink: Self)
        ensures
            sink.fragments@ == Seq::<String>::empty(),
    {
        Collector { fragments: Vec::new() }
    }
}

impl TokenSink for Collector {
    fn accept(&mut self, fragment: &str) -> (stop: bool)
        ensures
            !stop,
            final(self).fragments@.len() == old(self).fragments@.len() + 1,
            final(self).fragments@.drop_last() == old(self).fragments@,
            final(self).fragments@.last()@ == fragment@,
    {
        self.fragments.push(fragment.to_owned());
        assert(self.fragments@.drop_last() =~= old(self).fragments@);
        false
    }
}

/// The fragments of `parts` one after another.
pub open spec fn concat_all(parts: Seq<Seq<char>>) -> Seq<char>
    decreases parts.len(),
{
    if parts.len() == 0 {
        Seq::empty()
    } else {
        concat_all(parts.drop_last()) + parts.last()
    }
}

/// The fragments of one part are that part.
pub proof fn lemma_concat_one(part: Seq<char>)
    ensures
        concat_all(seq![part]) == part,
{
    reveal_with_fuel(concat_all, 2);
    assert(seq![part].drop_last() =~= Seq::<Seq<char>>::empty());
    assert(concat_all(seq![part]) =~= part);
}

/// The fragments of two lists one after the other are the fragments of the
/// first followed by those of the second.
pub proof fn lemma_concat_append(a: Seq<Seq<char>>, b: Seq<Seq<char>>)
    ensures
        concat_all(a + b) == concat_all(a) + concat_all(b),
    decreases b.len(),
{
    if b.len() == 0 {
        assert(a + b =~= a);
        assert(concat_all(a) + concat_all(b) =~= concat_all(a));
    } else {
        lemma_concat_append(a, b.drop_last());
        assert((a + b).drop_last() =~= a + b.drop_last());
        assert((a + b).last() == b.last());
        assert(concat_all(a + b) =~= concat_all(a) + concat_all(b));
    }
}

/// The bytes of the tokens, one token after another.
pub open spec fn stream_of(tokens: Seq<Vec<u8>>) -> Seq<u8>
    decreases tokens.len(),
{
    if tokens.len() == 0 {
        Seq::empty()
    } else {
        stream_of(tokens.drop_last()) + tokens.last()@
    }
}

/// How many of `count` tokens a generation takes that may produce
/// `max_tokens` at most: all of them, or as many as the limit allows.
pub open spec fn tokens_taken(count: nat, max_tokens: Option<u32>) -> nat {
    match max_tokens {
        Some(limit) => if limit < count {
            limit as nat
        } else {
            count
        },
        None => count,
    }
}

/// The text of a generation over `tokens` that nobody ends: the text of
/// the bytes of the tokens that it takes.
pub open spec fn generated(tokens: Seq<Vec<u8>>, max_tokens: Option<u32>) -> Seq<char> {
    decoded_stream(stream_of(tokens.take(tokens_taken(tokens.len(), max_tokens) as int)))
}

/// The state of one generation between two tokens.
pub struct Generation {
    output: String,
    budget: Option<u32>,
    stopped: bool,
    cancelled: bool,
    delivered: Ghost<Seq<Seq<char>>>,
}

impl Generation {
    /// The text gathered so far.
    pub closed spec fn text(&self) -> Seq<char> {
        self.output@
    }

    /// How many more tokens may be produced; `None` is no limit.
    pub closed spec fn budget(&self) -> Option<u32> {
        self.budget
    }

    /// Whether the generation has ended.
    pub closed spec fn ended(&self) -> bool {
        self.stopped
    }

    /// Whether the sink asked for the end.
    pub closed spec fn cancelled(&self) -> bool {
        self.cancelled
    }

    /// Every fragment handed to the sink so far, in order.
    pub closed spec fn delivered(&self) -> Seq<Seq<char>> {
        self.delivered@
    }

    /// What holds of every generation: the text is what the sink received,
    /// but for the one fragment on which the sink asked for the end.
    pub closed spec fn wf(&self) -> bool {
        &&& self.cancelled ==> self.stopped
        &&& self.cancelled ==> self.delivered@.len() > 0 && self.output@ == concat_all(
            self.delivered@.drop_last(),
        )
        &&& !self.cancelled ==> self.output@ == concat_all(self.delivered@)
    }

    /// The text of a generation that the sink let run is what the sink
    /// received, fragment after fragment.
    pub proof fn lemma_text_is_what_was_delivered(&self)
        requires
            self.wf(),
            !self.cancelled(),
        ensures
            self.text() == concat_all(self.delivered()),
    {
    }

    /// A generation that has produced nothing yet.
    pub fn start(max_tokens: Option<u32>) -> (g: Self)
        ensures
            g.wf(),
            g.text() == Seq::<char>::empty(),
            g.budget() == max_tokens,
            !g.ended(),
            !g.cancelled(),
            g.delivered() == Seq::<Seq<char>>::empty(),
    {
        Generation {
            output: String::new(),
            budget: max_tokens,
            stopped: false,
            cancelled: false,
            delivered: Ghost(Seq::empty()),
        }
    }

    /// Whether another token is to be sampled: not after the end, and not
    /// once the budget is used up.
    pub fn wants_token(&self) -> (more: bool)
        ensures
            more == (!self.ended() && self.budget() != Some(0u32)),
    {
        !self.stopped && match self.budget {
            Some(left) => left > 0,
            None => true,
        }
    }

    /// The backend sampled its end-of-generation token.
    pub fn end_of_generation(&mut self)
        requires
            old(self).wf(),
        ensures
            final(self).wf(),
            final(self).ended(),
            final(self).text() == old(self).text(),
            final(self).budget() == old(self).budget(),
            final(self).cancelled() == old(self).cancelled(),
            final(self).delivered() == old(self).delivered(),
    {
        self.stopped = true;
    }

    /// The sink received `fragment` and answered. Where it asked for the end
    /// the generation ends and the fragment is not kept; else the fragment
    /// joins the text and uses one token of the budget.
    pub fn token(&mut self, fragment: &str, stop_requested: bool)
        requires
            old(self).wf(),
            !old(self).ended(),
            old(self).budget() != Some(0u32),
        ensures
            final(self).wf(),
            final(self).delivered() == old(self).delivered().push(fragment@),
            final(self).cancelled() == stop_requested,
            final(self).ended() == stop_requested,
            final(self).text() == if stop_requested {
                old(self).text()
            } else {
                old(self).text() + fragment@
            },
            final(self).budget() == if stop_requested {
                old(self).budget()
            } else {
                match old(self).budget() {
                    Some(left) => Some((left - 1) as u32),
                    None => None,
                }
            },
    {
        self.delivered = Ghost(self.delivered@.push(fragment@));
        assert(self.delivered@.drop_last() =~= old(self).delivered@);
        if stop_requested {
            self.stopped = true;
            self.cancelled = true;
        } else {
            self.output.append(fragment);
            self.budget = match self.budget {
                Some(left) => Some(left - 1),
                None => None,
            };
        }
    }

    /// Decodes the bytes of the next token, hands the fragment to the sink
    /// if there is one, and goes on as the sink answers. The fragment is
    /// what the bytes add to the text of the decoder's stream; it is the
    /// last that the sink received. A sink that is there is called once,
    /// with this fragment and in the state in which it came; what it
    /// answers is the answer, and the state in which it is left is the
    /// state after that call. Without a sink nobody asks for the end.
    pub fn feed<S: TokenSink>(
        &mut self,
        decoder: &mut FragmentDecoder,
        bytes: &[u8],
        sink: Option<&mut S>,
    ) -> (stop: bool)
        requires
            old(self).wf(),
            !old(self).ended(),
            old(self).budget() != Some(0u32),
        ensures
            final(self).wf(),
            final(self).delivered().len() == old(self).delivered().len() + 1,
            final(self).delivered().drop_last() == old(self).delivered(),
            final(decoder).taken() == old(decoder).taken() + bytes@,
            decoded_stream(final(decoder).taken()) == decoded_stream(old(decoder).taken())
                + final(self).delivered().last(),
            final(self).cancelled() == stop,
            final(self).ended() == stop,
            sink is None ==> !stop,
            sink matches Some(s) ==> exists|call: &mut S, fragment: &str|
                *call == *s && *final(call) == *final(s)
                    && fragment@ == final(self).delivered().last()
                    && #[trigger] call_ensures(S::accept, (call, fragment), stop),
            final(self).text() == if stop {
                old(self).text()
            } else {
                old(self).text() + final(self).delivered().last()
            },
            final(self).budget() == if stop {
                old(self).budget()
            } else {
                match old(self).budget() {
                    Some(left) => Some((left - 1) as u32),
                    None => None,
                }
            },
    {
        let fragment = decoder.decode(bytes);
        let stop = match sink {
            Some(s) => s.accept(fragment.as_str()),
            None => false,
        };
        self.token(fragment.as_str(), stop);
        assert(self.delivered@.drop_last() =~= old(self).delivered@);
        stop
    }

    /// Generates from `tokens`, the bytes of the tokens that a model
    /// samples one after another: each token is fed in its turn, until the
    /// tokens or the budget are used up or the sink asks for the end. The
    /// text is that of the tokens that were kept, which are the first so
    /// many of those that the budget allows; without a sink, all of them.
    pub fn run<S: TokenSink>(
        tokens: &[Vec<u8>],
        max_tokens: Option<u32>,
        sink: Option<&mut S>,
    ) -> (text: String)
        ensures
            exists|kept: int|
                0 <= kept <= tokens_taken(tokens@.len(), max_tokens) && text@ == decoded_stream(
                    #[trigger] stream_of(tokens@.take(kept)),
                ),
            sink is None ==> text@ == generated(tokens@, max_tokens),
    {
        let ghost silent = sink is None;
        let mut sink = sink;
        let mut generation = Generation::start(max_tokens);
        let mut decoder = FragmentDecoder::new();
        let mut i: usize = 0;
        let ghost mut kept: int = 0;
        assert(tokens@.take(0) =~= Seq::<Vec<u8>>::empty());
        while i < tokens.len() && generation.wants_token()
            invariant
                i <= tokens.len(),
                generation.wf(),
                generation.budget() == match max_tokens {
                    Some(limit) => Some((limit - kept) as u32),
                    None => None,
                },
                max_tokens matches Some(limit) ==> kept <= limit,
                0 <= kept <= i,
                !generation.ended() ==> kept == i,
                decoder.taken() == stream_of(tokens@.take(i as int)),
                generation.text() == decoded_stream(stream_of(tokens@.take(kept))),
                silent ==> sink is None,
                sink is None ==> !generation.ended(),
            decreases tokens.len() - i,
        {
            let stop = match &mut sink {
                Some(s) => generation.feed(&mut decoder, tokens[i].as_slice(), Some(&mut **s)),
                None => generation.feed::<S>(&mut decoder, tokens[i].as_slice(), None),
            };
            i += 1;
            proof {
                assert(tokens@.take(i as int).drop_last() =~= tokens@.take(i - 1));
                if !stop {
                    kept = kept + 1;
                }
            }
        }
        generation.finish()
    }

    /// Generates from the tokens without a sink: the reply in one piece.
    pub fn whole(tokens: &[Vec<u8>], max_tokens: Option<u32>) -> (text: String)
        ensures
            text@ == generated(tokens@, max_tokens),
    {
        Generation::run::<Collector>(tokens, max_tokens, None)
    }

    /// Generates from the same tokens with a sink that keeps what it
    /// receives: the reply as a stream. The text is that of the reply in
    /// one piece, and the fragments that the sink has received for it, one
    /// for each token taken, add up to that text.
    pub fn streamed(
        tokens: &[Vec<u8>],
        max_tokens: Option<u32>,
        sink: &mut Collector,
    ) -> (text: String)
        ensures
            text@ == generated(tokens@, max_tokens),
            final(sink).fragments@.len() == old(sink).fragments@.len() + tokens_taken(
                tokens@.len(),
                max_tokens,
            ),
            final(sink).fragments@.take(old(sink).fragments@.len() as int) == old(
                sink,
            ).fragments@,
            concat_all(views(final(sink).fragments@.skip(old(sink).fragments@.len() as int)))
                == text@,
    {
        let ghost before = sink.fragments@;
        let mut generation = Generation::start(max_tokens);
        let mut decoder = FragmentDecoder::new();
        let mut i: usize = 0;
        assert(tokens@.take(0) =~= Seq::<Vec<u8>>::empty());
        assert(sink.fragments@.take(before.len() as int) =~= before);
        assert(views(sink.fragments@.skip(before.len() as int)) =~= generation.delivered());
        while i < tokens.len() && generation.wants_token()
            invariant
                i <= tokens.len(),
                generation.wf(),
                !generation.ended(),
                !generation.cancelled(),
                generation.budget() == match max_tokens {
                    Some(limit) => Some((limit - i) as u32),
                    None => None,
                },
                max_tokens matches Some(limit) ==> i <= limit,
                decoder.taken() == stream_of(tokens@.take(i as int)),
                generation.text() == decoded_stream(decoder.taken()),
                sink.fragments@.len() == before.len() + i,
                sink.fragments@.take(before.len() as int) == before,
                views(sink.fragments@.skip(before.len() as int)) == generation.delivered(),
            decreases tokens.len() - i,
        {
            let ghost held = sink.fragments@;
            generation.feed(&mut decoder, tokens[i].as_slice(), Some(&mut *sink));
            i += 1;
            proof {
                assert(tokens@.take(i as int).drop_last() =~= tokens@.take(i - 1));
                assert(sink.fragments@.drop_last() == held);
                assert(sink.fragments@.take(before.len() as int) =~= held.take(
                    before.len() as int,
                ));
                assert(views(sink.fragments@.skip(before.len() as int)) =~= views(
                    held.skip(before.len() as int),
                ).push(sink.fragments@.last()@));
                assert(generation.delivered() =~= generation.delivered().drop_last().push(
                    generation.delivered().last(),
                ));
            }
        }
        proof {
            generation.lemma_text_is_what_was_delivered();
        }
        generation.finish()
    }

    /// Streaming and a reply in one piece are the same text: where `whole`
    /// is the text of a generation over some tokens without a sink, and
    /// `fragments` are what the sink of a generation over the same tokens,
    /// with the same limit, has received, the fragments one after another
    /// are `whole`.
    pub proof fn lemma_fragments_are_the_whole(
        tokens: Seq<Vec<u8>>,
        max_tokens: Option<u32>,
        whole: Seq<char>,
        streamed: Seq<char>,
        fragments: Seq<Seq<char>>,
    )
        requires
            whole == generated(tokens, max_tokens),
            streamed == generated(tokens, max_tokens),
            concat_all(fragments) == streamed,
        ensures
            concat_all(fragments) == whole,
    {
    }

    /// The text of the whole generation.
    pub fn finish(self) -> (text: String)
        requires
            self.wf(),
        ensures
            text@ == self.text(),
            !self.cancelled() ==> text@ == concat_all(self.delivered()),
    {
        self.output
    }
}

} // verus!
