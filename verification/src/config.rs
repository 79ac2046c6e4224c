//! Resolution of raw command-line inputs into a validated benchmark plan.
//!
//! Inputs arrive as optional plain values (a flag that was not given is
//! `None`).  [`resolve`] applies the defaults, checks every rule, and either
//! returns the immutable [`RunConfig`] or names the first rule that the
//! inputs break.  The mathematical statement of that mapping is
//! [`resolution`]; the laws at the end of the file are proved about it.

use vstd::prelude::*;
use vstd::string::*;

verus! {

/// A single-precision sampling parameter, carried by its IEEE 754 bit
/// pattern.  The plan never interprets the number; it only hands it on.
#[derive(Clone, Copy, Debug, PartialEq, Eq, Structural)]
pub struct Binary32 {
    pub bits: u32,
}

/// Optional decoding parameters.  A field that is `None` (or a flag that is
/// `false`) leaves the matter to the backend's own default.
#[derive(Clone, Copy, Debug, PartialEq, Eq, Structural)]
pub struct GenerationParams {
    pub temperature: Option<Binary32>,
    pub top_k: Option<u32>,
    pub top_p: Option<Binary32>,
    pub typical_p: Option<Binary32>,
    pub repetition_penalty: Option<Binary32>,
    pub watermark: bool,
    pub do_sample: bool,
    pub min_new_tokens: Option<u32>,
}

impl GenerationParams {
    /// No parameter is given and no flag is raised.
    pub open spec fn unset(self) -> bool {
        &&& self.temperature is None
        &&& self.top_k is None
        &&& self.top_p is None
        &&& self.typical_p is None
        &&& self.repetition_penalty is None
        &&& !self.watermark
        &&& !self.do_sample
        &&& self.min_new_tokens is None
    }

    /// The record that asks for the backend's defaults throughout.
    pub fn backend_defaults() -> (params: GenerationParams)
        ensures
            params.unset(),
            params == (GenerationParams {
                temperature: None,
                top_k: None,
                top_p: None,
                typical_p: None,
                repetition_penalty: None,
                watermark: false,
                do_sample: false,
                min_new_tokens: None,
            }),
    {
        GenerationParams {
            temperature: None,
            top_k: None,
            top_p: None,
            typical_p: None,
            repetition_penalty: None,
            watermark: false,
            do_sample: false,
            min_new_tokens: None,
        }
    }

    /// Whether the record asks for nothing at all.
    pub fn is_unset(&self) -> (answer: bool)
        ensures
            answer == self.unset(),
    {
        self.temperature.is_none() && self.top_k.is_none() && self.top_p.is_none()
            && self.typical_p.is_none() && self.repetition_penalty.is_none() && !self.watermark
            && !self.do_sample && self.min_new_tokens.is_none()
    }
}

/// Why a set of inputs cannot become a plan.
#[derive(Clone, Copy, Debug, PartialEq, Eq, Structural)]
pub enum ConfigError {
    /// No tokenizer identifier was given, or it is the empty string.
    MissingTokenizer,
    /// A batch-size list was given and holds nothing.
    EmptyBatchSizes,
    /// A batch size is below one or above what 32 bits hold.
    InvalidBatchSize,
    /// The prefill length is below one or above what 32 bits hold.
    InvalidSequenceLength,
    /// The decode length is below one or above what 32 bits hold.
    InvalidDecodeLength,
    /// The run count is below one or does not fit the machine word.
    InvalidRuns,
    /// The warmup count is negative or does not fit the machine word.
    InvalidWarmups,
}

impl ConfigError {
    /// The text of the error, for the diagnostic line.
    pub open spec fn text(self) -> Seq<char> {
        match self {
            ConfigError::MissingTokenizer => "tokenizer identifier is missing"@,
            ConfigError::EmptyBatchSizes => "batch size list is empty"@,
            ConfigError::InvalidBatchSize => "batch size is not a positive 32-bit number"@,
            ConfigError::InvalidSequenceLength => "sequence length is not a positive 32-bit number"@,
            ConfigError::InvalidDecodeLength => "decode length is not a positive 32-bit number"@,
            ConfigError::InvalidRuns => "run count is below one or too large"@,
            ConfigError::InvalidWarmups => "warmup count is negative or too large"@,
        }
    }

    /// The text of the error, for the diagnostic line.
    pub fn message(&self) -> (text: String)
        ensures
            text@ == self.text(),
    {
        match self {
            ConfigError::MissingTokenizer => String::from_str("tokenizer identifier is missing"),
            ConfigError::EmptyBatchSizes => String::from_str("batch size list is empty"),
            ConfigError::InvalidBatchSize => String::from_str(
                "batch size is not a positive 32-bit number",
            ),
            ConfigError::InvalidSequenceLength => String::from_str(
                "sequence length is not a positive 32-bit number",
            ),
            ConfigError::InvalidDecodeLength => String::from_str(
                "decode length is not a positive 32-bit number",
            ),
            ConfigError::InvalidRuns => String::from_str("run count is below one or too large"),
            ConfigError::InvalidWarmups => String::from_str(
                "warmup count is negative or too large",
            ),
        }
    }
}

/// The inputs as they come from the command line and the environment,
/// before any default or rule is applied.
#[derive(Debug, PartialEq, Eq)]
pub struct RawInputs {
    pub tokenizer_id: Option<String>,
    pub revision: Option<String>,
    pub batch_sizes: Option<Vec<i64>>,
    pub sequence_length: Option<i64>,
    pub decode_length: Option<i64>,
    pub runs: Option<i64>,
    pub warmups: Option<i64>,
    pub backend_socket_path: Option<String>,
    pub generation: GenerationParams,
}

/// Mathematical model of [`RawInputs`].
pub struct RawInputsView {
    pub tokenizer_id: Option<Seq<char>>,
    pub revision: Option<Seq<char>>,
    pub batch_sizes: Option<Seq<int>>,
    pub sequence_length: Option<int>,
    pub decode_length: Option<int>,
    pub runs: Option<int>,
    pub warmups: Option<int>,
    pub backend_socket_path: Option<Seq<char>>,
    pub generation: GenerationParams,
}

/// The signed inputs of a list as mathematical integers.
pub open spec fn signed_values(list: Seq<i64>) -> Seq<int> {
    Seq::new(list.len(), |i: int| list[i] as int)
}

/// The batch sizes of a plan as mathematical integers.
pub open spec fn size_values(list: Seq<u32>) -> Seq<int> {
    Seq::new(list.len(), |i: int| list[i] as int)
}

/// An optional text as its characters.
pub open spec fn text_of(text: Option<String>) -> Option<Seq<char>> {
    match text {
        Some(s) => Some(s@),
        None => None,
    }
}

/// An optional signed number as a mathematical integer.
pub open spec fn number_of(number: Option<i64>) -> Option<int> {
    match number {
        Some(n) => Some(n as int),
        None => None,
    }
}

impl View for RawInputs {
    type V = RawInputsView;

    open spec fn view(&self) -> RawInputsView {
        RawInputsView {
            tokenizer_id: text_of(self.tokenizer_id),
            revision: text_of(self.revision),
            batch_sizes: match self.batch_sizes {
                Some(list) => Some(signed_values(list@)),
                None => None,
            },
            sequence_length: number_of(self.sequence_length),
            decode_length: number_of(self.decode_length),
            runs: number_of(self.runs),
            warmups: number_of(self.warmups),
            backend_socket_path: text_of(self.backend_socket_path),
            generation: self.generation,
        }
    }
}

impl RawInputs {
    /// Inputs that name a tokenizer and leave everything else unset.
    pub fn for_tokenizer(tokenizer_id: String) -> (raw: RawInputs)
        ensures
            raw@ == (RawInputsView {
                tokenizer_id: Some(tokenizer_id@),
                revision: None,
                batch_sizes: None,
                sequence_length: None,
                decode_length: None,
                runs: None,
                warmups: None,
                backend_socket_path: None,
                generation: raw.generation,
            }),
            raw.generation.unset(),
    {
        RawInputs {
            tokenizer_id: Some(tokenizer_id),
            revision: None,
            batch_sizes: None,
            sequence_length: None,
            decode_length: None,
            runs: None,
            warmups: None,
            backend_socket_path: None,
            generation: GenerationParams::backend_defaults(),
        }
    }
}

/// Mathematical model of a [`RunConfig`].
pub struct RunConfigView {
    pub tokenizer_id: Seq<char>,
    pub revision: Seq<char>,
    pub batch_sizes: Seq<int>,
    pub sequence_length: int,
    pub decode_length: int,
    pub runs: int,
    pub warmups: int,
    pub backend_socket_path: Seq<char>,
    pub generation_params: Option<GenerationParams>,
}

/// Revision used when none is given.
pub const DEFAULT_REVISION: &'static str = "main";

/// Control socket of the first shard, used when none is given.
pub const DEFAULT_SOCKET_PATH: &'static str = "/tmp/text-generation-server-0";

/// Prefill length used when none is given.
pub const DEFAULT_SEQUENCE_LENGTH: i64 = 10;

/// Decode length used when none is given.
pub const DEFAULT_DECODE_LENGTH: i64 = 8;

/// Number of measured runs when none is given.
pub const DEFAULT_RUNS: i64 = 10;

/// Number of warmup runs when none is given.
pub const DEFAULT_WARMUPS: i64 = 1;

/// Batch sizes swept when none are given.
pub open spec fn default_batch_sizes() -> Seq<int> {
    seq![1int, 2int, 4int, 8int, 16int, 32int]
}

/// A count of tokens or a batch size: at least one, and within 32 bits.
pub open spec fn positive_32(n: int) -> bool {
    1 <= n <= u32::MAX
}

/// Every batch size of the list is a positive 32-bit number.
pub open spec fn batch_sizes_in_range(list: Seq<int>) -> bool {
    forall|i: int| 0 <= i < list.len() ==> positive_32(#[trigger] list[i])
}

/// A list that may be given explicitly: not empty, every size in range.
pub open spec fn batch_sizes_valid(list: Seq<int>) -> bool {
    list.len() > 0 && batch_sizes_in_range(list)
}

/// The rules that make a plan trustworthy for the benchmark loop.
pub open spec fn valid_plan(plan: RunConfigView) -> bool {
    &&& plan.tokenizer_id.len() > 0
    &&& batch_sizes_valid(plan.batch_sizes)
    &&& positive_32(plan.sequence_length)
    &&& positive_32(plan.decode_length)
    &&& 1 <= plan.runs <= usize::MAX
    &&& 0 <= plan.warmups <= usize::MAX
}

/// The value of an optional number, or its default.
pub open spec fn number_or(given: Option<int>, default: int) -> int {
    match given {
        Some(n) => n,
        None => default,
    }
}

/// The value of an optional text, or its default.
pub open spec fn text_or(given: Option<Seq<char>>, default: Seq<char>) -> Seq<char> {
    match given {
        Some(s) => s,
        None => default,
    }
}

/// The first rule that the inputs break, in the order in which the rules
/// are checked: tokenizer, batch sizes, prefill length, decode length, runs,
/// warmups.  `None` when they break no rule.
pub open spec fn violation(raw: RawInputsView) -> Option<ConfigError> {
    if raw.tokenizer_id is None || raw.tokenizer_id->0.len() == 0 {
        Some(ConfigError::MissingTokenizer)
    } else if raw.batch_sizes is Some && raw.batch_sizes->0.len() == 0 {
        Some(ConfigError::EmptyBatchSizes)
    } else if raw.batch_sizes is Some && !batch_sizes_in_range(raw.batch_sizes->0) {
        Some(ConfigError::InvalidBatchSize)
    } else if !positive_32(number_or(raw.sequence_length, DEFAULT_SEQUENCE_LENGTH as int)) {
        Some(ConfigError::InvalidSequenceLength)
    } else if !positive_32(number_or(raw.decode_length, DEFAULT_DECODE_LENGTH as int)) {
        Some(ConfigError::InvalidDecodeLength)
    } else if !(1 <= number_or(raw.runs, DEFAULT_RUNS as int) <= usize::MAX) {
        Some(ConfigError::InvalidRuns)
    } else if !(0 <= number_or(raw.warmups, DEFAULT_WARMUPS as int) <= usize::MAX) {
        Some(ConfigError::InvalidWarmups)
    } else {
        None
    }
}

/// The plan that the inputs describe once every default is applied.
pub open spec fn plan(raw: RawInputsView) -> RunConfigView {
    RunConfigView {
        tokenizer_id: text_or(raw.tokenizer_id, Seq::empty()),
        revision: text_or(raw.revision, DEFAULT_REVISION@),
        batch_sizes: match raw.batch_sizes {
            Some(list) => list,
            None => default_batch_sizes(),
        },
        sequence_length: number_or(raw.sequence_length, DEFAULT_SEQUENCE_LENGTH as int),
        decode_length: number_or(raw.decode_length, DEFAULT_DECODE_LENGTH as int),
        runs: number_or(raw.runs, DEFAULT_RUNS as int),
        warmups: number_or(raw.warmups, DEFAULT_WARMUPS as int),
        backend_socket_path: text_or(raw.backend_socket_path, DEFAULT_SOCKET_PATH@),
        generation_params: if raw.generation.unset() {
            None
        } else {
            Some(raw.generation)
        },
    }
}

/// What resolving the inputs yields: the plan, or the first broken rule.
pub open spec fn resolution(raw: RawInputsView) -> Result<RunConfigView, ConfigError> {
    match violation(raw) {
        Some(reason) => Err(reason),
        None => Ok(plan(raw)),
    }
}

/// A validated benchmark plan.  It is built by [`resolve`] alone and never
/// changes afterwards; every holder may rely on [`valid_plan`].
#[derive(Debug)]
pub struct RunConfig {
    tokenizer_id: String,
    revision: String,
    batch_sizes: Vec<u32>,
    sequence_length: u32,
    decode_length: u32,
    runs: usize,
    warmups: usize,
    backend_socket_path: String,
    generation_params: Option<GenerationParams>,
}

impl View for RunConfig {
    type V = RunConfigView;

    closed spec fn view(&self) -> RunConfigView {
        RunConfigView {
            tokenizer_id: self.tokenizer_id@,
            revision: self.revision@,
            batch_sizes: size_values(self.batch_sizes@),
            sequence_length: self.sequence_length as int,
            decode_length: self.decode_length as int,
            runs: self.runs as int,
            warmups: self.warmups as int,
            backend_socket_path: self.backend_socket_path@,
            generation_params: self.generation_params,
        }
    }
}

impl RunConfig {
    /// Every plan in existence obeys the plan's rules.
    #[verifier::type_invariant]
    pub open spec fn well_formed(&self) -> bool {
        valid_plan(self@)
    }

    /// Identifier of the tokenizer: a local directory or a registry name.
    pub fn tokenizer_id(&self) -> (id: &String)
        ensures
            id@ == self@.tokenizer_id,
            id@.len() > 0,
            valid_plan(self@),
    {
        proof {
            use_type_invariant(self);
        }
        &self.tokenizer_id
    }

    /// Revision of the tokenizer, for a registry fetch.
    pub fn revision(&self) -> (revision: &String)
        ensures
            revision@ == self@.revision,
    {
        &self.revision
    }

    /// Batch sizes to sweep, in the order in which they are run.
    pub fn batch_sizes(&self) -> (sizes: &Vec<u32>)
        ensures
            size_values(sizes@) == self@.batch_sizes,
            sizes@.len() > 0,
            forall|i: int| 0 <= i < sizes@.len() ==> #[trigger] sizes@[i] >= 1,
    {
        proof {
            use_type_invariant(self);
            assert forall|i: int| 0 <= i < self.batch_sizes@.len() implies #[trigger] self.batch_sizes@[i] >= 1 by {
                assert(positive_32(size_values(self.batch_sizes@)[i]));
            }
        }
        &self.batch_sizes
    }

    /// Number of prefill tokens.
    pub fn sequence_length(&self) -> (length: u32)
        ensures
            length as int == self@.sequence_length,
            length >= 1,
    {
        proof {
            use_type_invariant(self);
        }
        self.sequence_length
    }

    /// Number of generated tokens per run.
    pub fn decode_length(&self) -> (length: u32)
        ensures
            length as int == self@.decode_length,
            length >= 1,
    {
        proof {
            use_type_invariant(self);
        }
        self.decode_length
    }

    /// Number of measured iterations.
    pub fn runs(&self) -> (runs: usize)
        ensures
            runs as int == self@.runs,
            runs >= 1,
    {
        proof {
            use_type_invariant(self);
        }
        self.runs
    }

    /// Number of discarded iterations before measuring.
    pub fn warmups(&self) -> (warmups: usize)
        ensures
            warmups as int == self@.warmups,
    {
        self.warmups
    }

    /// Path of the shard-control socket.
    pub fn backend_socket_path(&self) -> (path: &String)
        ensures
            path@ == self@.backend_socket_path,
    {
        &self.backend_socket_path
    }

    /// Decoding parameters, or `None` where the backend's defaults apply
    /// throughout.
    pub fn generation_params(&self) -> (params: Option<GenerationParams>)
        ensures
            params == self@.generation_params,
    {
        self.generation_params
    }
}

/// Converts an explicit batch-size list, or reports that a size is out of
/// range.
fn convert_batch_sizes(list: &Vec<i64>) -> (sizes: Option<Vec<u32>>)
    ensures
        sizes is Some <==> batch_sizes_in_range(signed_values(list@)),
        sizes matches Some(v) ==> size_values(v@) == signed_values(list@),
{
    let mut sizes: Vec<u32> = Vec::new();
    let mut i: usize = 0;
    while i < list.len()
        invariant
            i <= list.len(),
            sizes@.len() == i,
            forall|j: int| 0 <= j < i ==> positive_32(#[trigger] list@[j] as int),
            forall|j: int| 0 <= j < i ==> #[trigger] sizes@[j] as int == list@[j] as int,
        decreases list.len() - i,
    {
        let size: i64 = list[i];
        if size < 1 || size > 0xffff_ffff {
            proof {
                assert(!positive_32(signed_values(list@)[i as int]));
            }
            return None;
        }
        sizes.push(size as u32);
        i = i + 1;
    }
    proof {
        assert forall|j: int| 0 <= j < signed_values(list@).len() implies positive_32(
            #[trigger] signed_values(list@)[j],
        ) by {
            assert(positive_32(list@[j] as int));
        }
        assert(size_values(sizes@) =~= signed_values(list@));
    }
    Some(sizes)
}

/// The default sweep as a fresh vector.
fn default_sweep() -> (sizes: Vec<u32>)
    ensures
        size_values(sizes@) == default_batch_sizes(),
{
    let mut sizes: Vec<u32> = Vec::new();
    sizes.push(1);
    sizes.push(2);
    sizes.push(4);
    sizes.push(8);
    sizes.push(16);
    sizes.push(32);
    proof {
        assert(size_values(sizes@) =~= default_batch_sizes());
    }
    sizes
}

/// Turns a count into a machine word where it fits and is at least `least`.
fn convert_count(given: i64, least: i64) -> (count: Option<usize>)
    requires
        0 <= least,
    ensures
        count is Some <==> least <= given <= usize::MAX,
        count matches Some(n) ==> n as int == given as int,
{
    if given < least {
        return None;
    }
    let wide: u64 = given as u64;
    if wide > usize::MAX as u64 {
        return None;
    }
    Some(wide as usize)
}

/// Turns a token count into 32 bits where it is at least one and fits.
fn convert_length(given: i64) -> (length: Option<u32>)
    ensures
        length is Some <==> positive_32(given as int),
        length matches Some(n) ==> n as int == given as int,
{
    if given < 1 || given > 0xffff_ffff {
        None
    } else {
        Some(given as u32)
    }
}

/// Resolves raw inputs into a validated plan.
///
/// The result is exactly [`resolution`] of the inputs: the plan with every
/// default applied where no rule is broken, and otherwise the first broken
/// rule.  An explicit batch-size list is kept as given; an explicit empty
/// list is an error and is never replaced by the default sweep.
pub fn resolve(raw: RawInputs) -> (result: Result<RunConfig, ConfigError>)
    ensures
        match result {
            Ok(config) => resolution(raw@) == Ok::<RunConfigView, ConfigError>(config@),
            Err(reason) => resolution(raw@) == Err::<RunConfigView, ConfigError>(reason),
        },
        result matches Ok(config) ==> valid_plan(config@),
{
    let ghost model = raw@;
    let RawInputs {
        tokenizer_id,
        revision,
        batch_sizes,
        sequence_length,
        decode_length,
        runs,
        warmups,
        backend_socket_path,
        generation,
    } = raw;
    let tokenizer_id = match tokenizer_id {
        Some(id) => id,
        None => {
            return Err(ConfigError::MissingTokenizer);
        },
    };
    if tokenizer_id.as_str().is_empty() {
        return Err(ConfigError::MissingTokenizer);
    }
    let batch_sizes = match batch_sizes {
        None => default_sweep(),
        Some(list) => {
            if list.len() == 0 {
                return Err(ConfigError::EmptyBatchSizes);
            }
            match convert_batch_sizes(&list) {
                Some(sizes) => sizes,
                None => {
                    return Err(ConfigError::InvalidBatchSize);
                },
            }
        },
    };
    let sequence_length = match convert_length(
        match sequence_length {
            Some(n) => n,
            None => DEFAULT_SEQUENCE_LENGTH,
        },
    ) {
        Some(n) => n,
        None => {
            return Err(ConfigError::InvalidSequenceLength);
        },
    };
    let decode_length = match convert_length(
        match decode_length {
            Some(n) => n,
            None => DEFAULT_DECODE_LENGTH,
        },
    ) {
        Some(n) => n,
        None => {
            return Err(ConfigError::InvalidDecodeLength);
        },
    };
    let runs = match convert_count(
        match runs {
            Some(n) => n,
            None => DEFAULT_RUNS,
        },
        1,
    ) {
        Some(n) => n,
        None => {
            return Err(ConfigError::InvalidRuns);
        },
    };
    let warmups = match convert_count(
        match warmups {
            Some(n) => n,
            None => DEFAULT_WARMUPS,
        },
        0,
    ) {
        Some(n) => n,
        None => {
            return Err(ConfigError::InvalidWarmups);
        },
    };
    let revision = match revision {
        Some(r) => r,
        None => String::from_str(DEFAULT_REVISION),
    };
    let backend_socket_path = match backend_socket_path {
        Some(p) => p,
        None => String::from_str(DEFAULT_SOCKET_PATH),
    };
    let generation_params = if generation.is_unset() {
        None
    } else {
        Some(generation)
    };
    proof {
        assert(violation(model) is None);
        lemma_resolved_plan_is_valid(model);
    }
    let config = RunConfig {
        tokenizer_id,
        revision,
        batch_sizes,
        sequence_length,
        decode_length,
        runs,
        warmups,
        backend_socket_path,
        generation_params,
    };
    proof {
        assert(config@ == plan(model));
    }
    Ok(config)
}

/// Every plan that resolution yields obeys the rules of a valid plan: its
/// batch sizes are not empty and strictly positive, its lengths and its run
/// count are at least one, and its tokenizer identifier is not empty.
pub proof fn lemma_resolved_plan_is_valid(raw: RawInputsView)
    requires
        violation(raw) is None,
    ensures
        resolution(raw) == Ok::<RunConfigView, ConfigError>(plan(raw)),
        valid_plan(plan(raw)),
{
    if raw.batch_sizes is None {
        assert(batch_sizes_valid(default_batch_sizes()));
    }
}

/// An explicit batch-size list that is not empty and holds only positive
/// 32-bit sizes is never the reason for a rejection, and the resolved plan
/// holds exactly that list, unchanged and in the same order.
pub proof fn lemma_explicit_batch_sizes_are_kept(raw: RawInputsView, list: Seq<int>)
    requires
        raw.batch_sizes == Some(list),
        batch_sizes_valid(list),
    ensures
        violation(raw) != Some(ConfigError::EmptyBatchSizes),
        violation(raw) != Some(ConfigError::InvalidBatchSize),
        resolution(raw) matches Ok(resolved) ==> resolved.batch_sizes == list,
{
}

/// Where no batch-size list is given, the resolved plan sweeps the default
/// sizes 1, 2, 4, 8, 16, 32, and the batch sizes are never the reason for a
/// rejection.
pub proof fn lemma_omitted_batch_sizes_default(raw: RawInputsView)
    requires
        raw.batch_sizes is None,
    ensures
        violation(raw) != Some(ConfigError::EmptyBatchSizes),
        violation(raw) != Some(ConfigError::InvalidBatchSize),
        resolution(raw) matches Ok(resolved) ==> resolved.batch_sizes == seq![
            1int,
            2int,
            4int,
            8int,
            16int,
            32int,
        ],
{
}

/// An explicit empty batch-size list always fails resolution: with
/// `EmptyBatchSizes` where a tokenizer is named, and with
/// `MissingTokenizer` where none is.  The default sweep never takes its
/// place.
pub proof fn lemma_empty_batch_sizes_rejected(raw: RawInputsView)
    requires
        raw.batch_sizes == Some(Seq::<int>::empty()),
    ensures
        resolution(raw) is Err,
        resolution(raw) == Err::<RunConfigView, ConfigError>(
            if raw.tokenizer_id is None || raw.tokenizer_id->0.len() == 0 {
                ConfigError::MissingTokenizer
            } else {
                ConfigError::EmptyBatchSizes
            },
        ),
{
}

/// A run count below one, or a negative warmup count, always fails
/// resolution.
pub proof fn lemma_bad_counts_rejected(raw: RawInputsView)
    requires
        (raw.runs matches Some(runs) && runs < 1) || (raw.warmups matches Some(warmups) && warmups
            < 0),
    ensures
        resolution(raw) is Err,
{
}

} // verus!
