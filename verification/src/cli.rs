//! The commands of the program, as plain values, and the settings that
//! each one runs with.

use crate::engine::{
    scalar_or, EngineConfig, Scalar, EIGHT_TENTHS, ELEVEN_TENTHS, NINE_TENTHS,
};
use crate::api::native::number_or;
use crate::api::openai::scalar_or_spec;
use vstd::prelude::*;

verus! {

/// The command line.
#[derive(Debug, Clone, PartialEq, Eq)]
pub struct Cli {
    pub command: Commands,
}

/// The commands.
#[derive(Debug, Clone, PartialEq, Eq)]
pub enum Commands {
    Infer(InferArgs),
    Discover(DiscoverArgs),
    List,
    Chat(ChatArgs),
    Serve(ServeArgs),
}

/// The arguments of one generation from the command line.
#[derive(Debug, Clone, PartialEq, Eq)]
pub struct InferArgs {
    pub model: String,
    pub prompt: String,
    /// Number of tokens to generate.
    pub n_len: Option<u32>,
    /// Sampling temperature.
    pub temperature: Option<Scalar>,
    /// Top-k sampling.
    pub top_k: Option<i32>,
    /// Top-p (nucleus) sampling.
    pub top_p: Option<Scalar>,
    /// Repeat penalty.
    pub repeat_penalty: Option<Scalar>,
    /// Context size.
    pub n_ctx: Option<i32>,
}

/// The arguments of a scan.
#[derive(Debug, Clone, Copy, PartialEq, Eq, Structural)]
pub struct DiscoverArgs {
    /// Scan all paths.
    pub all: bool,
}

/// The arguments of a chat session.
#[derive(Debug, Clone, PartialEq, Eq)]
pub struct ChatArgs {
    pub model: String,
}

/// The arguments of the server.
#[derive(Debug, Clone, PartialEq, Eq)]
pub struct ServeArgs {
    pub host: String,
    pub port: u16,
}

/// The settings of a generation from the command line: what the arguments
/// name, and for the rest a context of 4096 tokens, a temperature of eight
/// tenths, the best 40 candidates, a top-p of nine tenths and a repeat
/// penalty of eleven tenths.
pub open spec fn infer_config(args: InferArgs) -> EngineConfig {
    EngineConfig {
        n_ctx: number_or(args.n_ctx, 4096),
        n_len: args.n_len,
        temperature: scalar_or_spec(args.temperature, EIGHT_TENTHS),
        top_k: number_or(args.top_k, 40),
        top_p: scalar_or_spec(args.top_p, NINE_TENTHS),
        repeat_penalty: scalar_or_spec(args.repeat_penalty, ELEVEN_TENTHS),
    }
}

/// The settings of a generation from the command line.
pub fn engine_config(args: &InferArgs) -> (config: EngineConfig)
    ensures
        config == infer_config(*args),
{
    EngineConfig {
        n_ctx: match args.n_ctx {
            Some(n) => n,
            None => 4096,
        },
        n_len: args.n_len,
        temperature: scalar_or(args.temperature, EIGHT_TENTHS),
        top_k: match args.top_k {
            Some(k) => k,
            None => 40,
        },
        top_p: scalar_or(args.top_p, NINE_TENTHS),
        repeat_penalty: scalar_or(args.repeat_penalty, ELEVEN_TENTHS),
    }
}

/// The settings of a chat session: a context of 2048 tokens, no limit on
/// the length, a temperature of eight tenths, the best 40 candidates, a
/// top-p of nine tenths and a repeat penalty of eleven tenths.
pub fn chat_session_config() -> (config: EngineConfig)
    ensures
        config == (EngineConfig {
            n_ctx: 2048,
            n_len: None,
            temperature: Scalar { bits: EIGHT_TENTHS },
            top_k: 40,
            top_p: Scalar { bits: NINE_TENTHS },
            repeat_penalty: Scalar { bits: ELEVEN_TENTHS },
        }),
{
    EngineConfig {
        n_ctx: 2048,
        n_len: None,
        temperature: Scalar { bits: EIGHT_TENTHS },
        top_k: 40,
        top_p: Scalar { bits: NINE_TENTHS },
        repeat_penalty: Scalar { bits: ELEVEN_TENTHS },
    }
}

} // verus!
