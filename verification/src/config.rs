//! The settings of one generation run.

use vstd::prelude::*;

verus! {

/// Output budget used when none is given, in tokens.
pub const DEFAULT_MAX_OUTPUT_TOKENS: usize = 96;

/// Context window used when none is given, in tokens.
pub const DEFAULT_CONTEXT_WINDOW: u32 = 4096;

/// Sampling temperature used when none is given, in thousandths.
pub const DEFAULT_TEMPERATURE_MILLI: u32 = 200;

/// Nucleus mass used when none is given, in thousandths.
pub const DEFAULT_TOP_P_MILLI: u32 = 950;

/// Candidate count used when none is given.
pub const DEFAULT_TOP_K: i32 = 40;

/// What a run is configured with. A value is fixed once it is built.
///
/// The window and the output budget are counted in tokens and are both at
/// least one. The three sampling settings are carried for the driver to pass
/// on; the session itself never reads them. Temperature and nucleus mass are
/// kept in thousandths, so that 200 stands for 0.2.
#[derive(Debug)]
pub struct GenerationConfig {
    model_path: String,
    context_window_size: u32,
    max_output_tokens: usize,
    temperature_milli: u32,
    top_p_milli: u32,
    top_k: i32,
}

impl GenerationConfig {
    #[verifier::type_invariant]
    spec fn well_formed(&self) -> bool {
        self.context_window_size > 0 && self.max_output_tokens > 0
    }

    /// The path of the model file.
    pub closed spec fn spec_model_path(&self) -> Seq<char> {
        self.model_path@
    }

    /// The size of the context window, in tokens.
    pub closed spec fn spec_context_window_size(&self) -> u32 {
        self.context_window_size
    }

    /// The most tokens that a run may generate.
    pub closed spec fn spec_max_output_tokens(&self) -> usize {
        self.max_output_tokens
    }

    /// The sampling temperature, in thousandths.
    pub closed spec fn spec_temperature_milli(&self) -> u32 {
        self.temperature_milli
    }

    /// The nucleus mass, in thousandths.
    pub closed spec fn spec_top_p_milli(&self) -> u32 {
        self.top_p_milli
    }

    /// The candidate count.
    pub closed spec fn spec_top_k(&self) -> i32 {
        self.top_k
    }

    /// A configuration with the given model, window and output budget, and
    /// the default sampling settings. There is none for a window or a budget
    /// of zero.
    pub fn new(model_path: String, context_window_size: u32, max_output_tokens: usize) -> (config:
        Option<GenerationConfig>)
        ensures
            config is Some <==> context_window_size > 0 && max_output_tokens > 0,
            config matches Some(c) ==> {
                &&& c.spec_model_path() == model_path@
                &&& c.spec_context_window_size() == context_window_size
                &&& c.spec_max_output_tokens() == max_output_tokens
                &&& c.spec_temperature_milli() == DEFAULT_TEMPERATURE_MILLI
                &&& c.spec_top_p_milli() == DEFAULT_TOP_P_MILLI
                &&& c.spec_top_k() == DEFAULT_TOP_K
            },
    {
        if context_window_size == 0 || max_output_tokens == 0 {
            None
        } else {
            Some(
                GenerationConfig {
                    model_path,
                    context_window_size,
                    max_output_tokens,
                    temperature_milli: DEFAULT_TEMPERATURE_MILLI,
                    top_p_milli: DEFAULT_TOP_P_MILLI,
                    top_k: DEFAULT_TOP_K,
                },
            )
        }
    }

    /// The same configuration with other sampling settings.
    pub fn with_sampling(self, temperature_milli: u32, top_p_milli: u32, top_k: i32) -> (config:
        GenerationConfig)
        ensures
            config.spec_model_path() == self.spec_model_path(),
            config.spec_context_window_size() == self.spec_context_window_size(),
            config.spec_max_output_tokens() == self.spec_max_output_tokens(),
            config.spec_temperature_milli() == temperature_milli,
            config.spec_top_p_milli() == top_p_milli,
            config.spec_top_k() == top_k,
    {
        proof {
            use_type_invariant(&self);
        }
        GenerationConfig {
            model_path: self.model_path,
            context_window_size: self.context_window_size,
            max_output_tokens: self.max_output_tokens,
            temperature_milli,
            top_p_milli,
            top_k,
        }
    }

    /// The path of the model file.
    pub fn model_path(&self) -> (path: &str)
        ensures
            path@ == self.spec_model_path(),
    {
        self.model_path.as_str()
    }

    /// The size of the context window, in tokens. It is never zero.
    #[verifier::when_used_as_spec(spec_context_window_size)]
    pub fn context_window_size(&self) -> (size: u32)
        ensures
            size == self.spec_context_window_size(),
            size > 0,
    {
        proof {
            use_type_invariant(self);
        }
        self.context_window_size
    }

    /// The most tokens that a run may generate. It is never zero.
    #[verifier::when_used_as_spec(spec_max_output_tokens)]
    pub fn max_output_tokens(&self) -> (budget: usize)
        ensures
            budget == self.spec_max_output_tokens(),
            budget > 0,
    {
        proof {
            use_type_invariant(self);
        }
        self.max_output_tokens
    }

    /// The sampling temperature, in thousandths.
    #[verifier::when_used_as_spec(spec_temperature_milli)]
    pub fn temperature_milli(&self) -> (temperature: u32)
        ensures
            temperature == self.spec_temperature_milli(),
    {
        self.temperature_milli
    }

    /// The nucleus mass, in thousandths.
    #[verifier::when_used_as_spec(spec_top_p_milli)]
    pub fn top_p_milli(&self) -> (top_p: u32)
        ensures
            top_p == self.spec_top_p_milli(),
    {
        self.top_p_milli
    }

    /// The candidate count.
    #[verifier::when_used_as_spec(spec_top_k)]
    pub fn top_k(&self) -> (top_k: i32)
        ensures
            top_k == self.spec_top_k(),
    {
        self.top_k
    }
}

} // verus!
