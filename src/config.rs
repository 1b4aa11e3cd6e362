use vstd::prelude::*;
use vstd::string::StringExecFns;

verus! {

/// The endpoint used when the configuration does not name one.
pub open spec fn spec_default_api_endpoint() -> Seq<char> {
    "http://localhost:8000/v1"@
}

/// The model used when the configuration does not name one.
pub open spec fn spec_default_model() -> Seq<char> {
    "deepseek-ocr"@
}

/// The output format used when the configuration does not name one.
pub open spec fn spec_default_output_format() -> Seq<char> {
    "markdown"@
}

/// Token limit of a request when the configuration gives none.
pub const DEFAULT_MAX_TOKENS: usize = 512;

/// Bit pattern of the default sampling temperature, `0.0` in single precision.
pub const DEFAULT_TEMPERATURE_BITS: u32 = 0;

/// Settings of the remote OCR service.
#[derive(Debug)]
pub struct OcrConfig {
    pub api_endpoint: String,
    pub model: String,
    pub max_tokens: usize,
    /// The sampling temperature as the bit pattern of an IEEE-754 single
    /// precision number; it is forwarded to the service unchanged.
    pub temperature_bits: u32,
}

/// Settings of the extraction itself.
#[derive(Debug)]
pub struct ExtractionConfig {
    /// `"markdown"` or `"text"`.
    pub output_format: String,
    pub preserve_layout: bool,
}

/// Complete configuration: every field has a default of its own.
#[derive(Debug)]
pub struct Config {
    pub ocr: OcrConfig,
    pub extraction: ExtractionConfig,
}

impl OcrConfig {
    /// Every field holds its default.
    pub open spec fn is_default(&self) -> bool {
        &&& self.api_endpoint@ == spec_default_api_endpoint()
        &&& self.model@ == spec_default_model()
        &&& self.max_tokens == DEFAULT_MAX_TOKENS
        &&& self.temperature_bits == DEFAULT_TEMPERATURE_BITS
    }
}

impl ExtractionConfig {
    /// Every field holds its default.
    pub open spec fn is_default(&self) -> bool {
        &&& self.output_format@ == spec_default_output_format()
        &&& self.preserve_layout
    }
}

impl Config {
    /// Every field holds its default.
    pub open spec fn is_default(&self) -> bool {
        self.ocr.is_default() && self.extraction.is_default()
    }
}

/// The default service endpoint.
pub fn default_api_endpoint() -> (r: String)
    ensures
        r@ == spec_default_api_endpoint(),
{
    String::from_str("http://localhost:8000/v1")
}

/// The default model name.
pub fn default_model() -> (r: String)
    ensures
        r@ == spec_default_model(),
{
    String::from_str("deepseek-ocr")
}

/// The default token limit of a request.
pub fn default_max_tokens() -> (r: usize)
    ensures
        r == DEFAULT_MAX_TOKENS,
{
    DEFAULT_MAX_TOKENS
}

/// The bit pattern of the default temperature.
pub fn default_temperature_bits() -> (r: u32)
    ensures
        r == DEFAULT_TEMPERATURE_BITS,
{
    DEFAULT_TEMPERATURE_BITS
}

/// The default output format.
pub fn default_output_format() -> (r: String)
    ensures
        r@ == spec_default_output_format(),
{
    String::from_str("markdown")
}

/// Layout is preserved unless the configuration says otherwise.
pub fn default_preserve_layout() -> (r: bool)
    ensures
        r,
{
    true
}

impl Default for OcrConfig {
    fn default() -> (r: Self)
        ensures
            r.is_default(),
    {
        OcrConfig {
            api_endpoint: default_api_endpoint(),
            model: default_model(),
            max_tokens: default_max_tokens(),
            temperature_bits: default_temperature_bits(),
        }
    }
}

impl Default for ExtractionConfig {
    fn default() -> (r: Self)
        ensures
            r.is_default(),
    {
        ExtractionConfig {
            output_format: default_output_format(),
            preserve_layout: default_preserve_layout(),
        }
    }
}

impl Default for Config {
    fn default() -> (r: Self)
        ensures
            r.is_default(),
    {
        Config { ocr: OcrConfig::default(), extraction: ExtractionConfig::default() }
    }
}

impl Clone for OcrConfig {
    fn clone(&self) -> (r: Self)
        ensures
            r == *self,
    {
        OcrConfig {
            api_endpoint: self.api_endpoint.clone(),
            model: self.model.clone(),
            max_tokens: self.max_tokens,
            temperature_bits: self.temperature_bits,
        }
    }
}

impl Clone for ExtractionConfig {
    fn clone(&self) -> (r: Self)
        ensures
            r == *self,
    {
        ExtractionConfig {
            output_format: self.output_format.clone(),
            preserve_layout: self.preserve_layout,
        }
    }
}

impl Clone for Config {
    fn clone(&self) -> (r: Self)
        ensures
            r == *self,
    {
        Config { ocr: self.ocr.clone(), extraction: self.extraction.clone() }
    }
}

/// What loading the configuration decided: the configuration in effect, and
/// whether it has to be written to the configuration file.
pub struct LoadPlan {
    pub config: Config,
    pub persist: bool,
}

/// The relation between what the configuration file held (`None`: there is
/// no file) and the outcome of loading it.
pub open spec fn load_outcome(stored: Option<Config>, plan: LoadPlan) -> bool {
    match stored {
        None => plan.config.is_default() && plan.persist,
        Some(c) => plan.config == c && !plan.persist,
    }
}

impl Config {
    /// Decides the outcome of loading: a file that exists is taken as it is
    /// and left alone; without a file the defaults are used and written.
    pub fn plan_load(stored: Option<Config>) -> (r: LoadPlan)
        ensures
            load_outcome(stored, r),
    {
        match stored {
            Some(c) => LoadPlan { config: c, persist: false },
            None => LoadPlan { config: Config::default(), persist: true },
        }
    }
}

/// Loading twice is the same as loading once: without a file the first load
/// writes the defaults; the second load reads them back, returns the same
/// configuration and writes nothing.
pub proof fn lemma_load_idempotent(first: LoadPlan, second: LoadPlan)
    requires
        load_outcome(None, first),
        load_outcome(Some(first.config), second),
    ensures
        first.persist,
        first.config.is_default(),
        second.config == first.config,
        second.config.is_default(),
        !second.persist,
{
}

} // verus!
