//! What the environment configures, read from plain values.

use crate::text::{lowered, same_text, to_lowercase};
use vstd::prelude::*;

verus! {

/// Where the server is reached where the environment names no other place.
pub const DEFAULT_RPC_HOST: &'static str = "http://127.0.0.1:12186";

/// The number of threads used where neither the environment nor the
/// machine says how many.
pub const DEFAULT_THREADS: i32 = 4;

/// The number of threads of a generation: the configured one, else as many
/// as the machine runs at once, else four. A machine that runs more
/// threads than an `i32` can count is asked for as many as an `i32` can.
pub fn threads(configured: Option<i32>, available: Option<usize>) -> (n: i32)
    ensures
        n == (match (configured, available) {
            (Some(c), _) => c,
            (None, Some(a)) => if a <= i32::MAX {
                a as i32
            } else {
                i32::MAX
            },
            (None, None) => 4,
        }),
{
    match configured {
        Some(c) => c,
        None => match available {
            Some(a) => if a <= 0x7FFF_FFFF {
                a as i32
            } else {
                i32::MAX
            },
            None => DEFAULT_THREADS,
        },
    }
}

/// The setting of flash attention: -1 leaves the choice to the backend, 0
/// turns it off, 1 turns it on. Without a setting the choice is left to the
/// backend; any other number is no setting.
pub fn flash_attention(configured: Option<i32>) -> (setting: Option<i32>)
    ensures
        setting == (match configured {
            Some(v) => if -1 <= v <= 1 {
                Some(v)
            } else {
                None
            },
            None => Some(-1i32),
        }),
{
    match configured {
        Some(v) => if v < -1 || v > 1 {
            None
        } else {
            Some(v)
        },
        None => Some(-1),
    }
}

/// The number formats of the key-value cache.
#[derive(Clone, Copy, Debug, PartialEq, Eq, Structural)]
pub enum KvCacheType {
    F32,
    F16,
    Q40,
    Q41,
    Q50,
    Q51,
    Q80,
    Q81,
    Q2K,
    Q3K,
    Q4K,
    Q5K,
    Q6K,
    Q8K,
    Iq2Xxs,
    Iq2Xs,
    Iq3Xxs,
    Iq1S,
    Iq4Nl,
    Iq3S,
    Iq2S,
    Iq4Xs,
    I8,
    I16,
    I32,
    I64,
    F64,
    Iq1M,
    Bf16,
    Tq10,
    Tq20,
    Mxfp4,
}

/// The format that a lower-case name stands for: half precision for a name
/// that stands for none.
pub open spec fn kv_cache_named(name: Seq<char>) -> KvCacheType {
    if name == "f32"@ {
        KvCacheType::F32
    } else if name == "f16"@ {
        KvCacheType::F16
    } else if name == "q4_0"@ {
        KvCacheType::Q40
    } else if name == "q4_1"@ {
        KvCacheType::Q41
    } else if name == "q5_0"@ {
        KvCacheType::Q50
    } else if name == "q5_1"@ {
        KvCacheType::Q51
    } else if name == "q8_0"@ {
        KvCacheType::Q80
    } else if name == "q8_1"@ {
        KvCacheType::Q81
    } else if name == "q2_k"@ {
        KvCacheType::Q2K
    } else if name == "q3_k"@ {
        KvCacheType::Q3K
    } else if name == "q4_k"@ {
        KvCacheType::Q4K
    } else if name == "q5_k"@ {
        KvCacheType::Q5K
    } else if name == "q6_k"@ {
        KvCacheType::Q6K
    } else if name == "q8_k"@ {
        KvCacheType::Q8K
    } else if name == "iq2_xxs"@ {
        KvCacheType::Iq2Xxs
    } else if name == "iq2_xs"@ {
        KvCacheType::Iq2Xs
    } else if name == "iq3_xxs"@ {
        KvCacheType::Iq3Xxs
    } else if name == "iq1_s"@ {
        KvCacheType::Iq1S
    } else if name == "iq4_nl"@ {
        KvCacheType::Iq4Nl
    } else if name == "iq3_s"@ {
        KvCacheType::Iq3S
    } else if name == "iq2_s"@ {
        KvCacheType::Iq2S
    } else if name == "iq4_xs"@ {
        KvCacheType::Iq4Xs
    } else if name == "i8"@ {
        KvCacheType::I8
    } else if name == "i16"@ {
        KvCacheType::I16
    } else if name == "i32"@ {
        KvCacheType::I32
    } else if name == "i64"@ {
        KvCacheType::I64
    } else if name == "f64"@ {
        KvCacheType::F64
    } else if name == "iq1_m"@ {
        KvCacheType::Iq1M
    } else if name == "bf16"@ {
        KvCacheType::Bf16
    } else if name == "tq1_0"@ {
        KvCacheType::Tq10
    } else if name == "tq2_0"@ {
        KvCacheType::Tq20
    } else if name == "mxfp4"@ {
        KvCacheType::Mxfp4
    } else {
        KvCacheType::F16
    }
}

/// The format of the key-value cache: the one that the configured name
/// stands for, whatever the case of its letters, and half precision where
/// nothing is configured.
pub fn kv_cache_type(configured: Option<&str>) -> (format: KvCacheType)
    ensures
        format == (match configured {
            Some(name) => kv_cache_named(lowered(name@)),
            None => KvCacheType::F16,
        }),
{
    match configured {
        Some(name) => kv_cache_of(to_lowercase(name).as_str()),
        None => KvCacheType::F16,
    }
}

/// The format that a lower-case name stands for.
pub fn kv_cache_of(name: &str) -> (format: KvCacheType)
    ensures
        format == kv_cache_named(name@),
{
    if same_text(name, "f32") {
        KvCacheType::F32
    } else if same_text(name, "f16") {
        KvCacheType::F16
    } else if same_text(name, "q4_0") {
        KvCacheType::Q40
    } else if same_text(name, "q4_1") {
        KvCacheType::Q41
    } else if same_text(name, "q5_0") {
        KvCacheType::Q50
    } else if same_text(name, "q5_1") {
        KvCacheType::Q51
    } else if same_text(name, "q8_0") {
        KvCacheType::Q80
    } else if same_text(name, "q8_1") {
        KvCacheType::Q81
    } else if same_text(name, "q2_k") {
        KvCacheType::Q2K
    } else if same_text(name, "q3_k") {
        KvCacheType::Q3K
    } else if same_text(name, "q4_k") {
        KvCacheType::Q4K
    } else if same_text(name, "q5_k") {
        KvCacheType::Q5K
    } else if same_text(name, "q6_k") {
        KvCacheType::Q6K
    } else if same_text(name, "q8_k") {
        KvCacheType::Q8K
    } else if same_text(name, "iq2_xxs") {
        KvCacheType::Iq2Xxs
    } else if same_text(name, "iq2_xs") {
        KvCacheType::Iq2Xs
    } else if same_text(name, "iq3_xxs") {
        KvCacheType::Iq3Xxs
    } else if same_text(name, "iq1_s") {
        KvCacheType::Iq1S
    } else if same_text(name, "iq4_nl") {
        KvCacheType::Iq4Nl
    } else if same_text(name, "iq3_s") {
        KvCacheType::Iq3S
    } else if same_text(name, "iq2_s") {
        KvCacheType::Iq2S
    } else if same_text(name, "iq4_xs") {
        KvCacheType::Iq4Xs
    } else if same_text(name, "i8") {
        KvCacheType::I8
    } else if same_text(name, "i16") {
        KvCacheType::I16
    } else if same_text(name, "i32") {
        KvCacheType::I32
    } else if same_text(name, "i64") {
        KvCacheType::I64
    } else if same_text(name, "f64") {
        KvCacheType::F64
    } else if same_text(name, "iq1_m") {
        KvCacheType::Iq1M
    } else if same_text(name, "bf16") {
        KvCacheType::Bf16
    } else if same_text(name, "tq1_0") {
        KvCacheType::Tq10
    } else if same_text(name, "tq2_0") {
        KvCacheType::Tq20
    } else if same_text(name, "mxfp4") {
        KvCacheType::Mxfp4
    } else {
        KvCacheType::F16
    }
}

} // verus!
