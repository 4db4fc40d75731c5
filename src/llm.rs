//! Configuration of the advisory language-model analysis, and the invariant
//! suggestions it returns. Suggestions are descriptive only: nothing here
//! turns them into executable checks.
use vstd::prelude::*;

use crate::error::MonitorError;
use crate::metadata::{FieldMetadata, ModuleMetadata, StructMetadata};
use crate::text::{decimal, decimal_text};

verus! {

/// Where suggestions for a module are asked from.
#[derive(Clone, Copy, Debug, PartialEq, Eq, Structural)]
pub enum LlmProvider {
    /// The hosted OpenRouter API; needs an API key.
    OpenRouter,
    /// A local Ollama server.
    Ollama,
}

/// Base URL of a local Ollama server when none is configured.
pub const DEFAULT_OLLAMA_URL: &'static str = "http://localhost:11434";

/// Model asked when none is configured.
pub const DEFAULT_MODEL: &'static str = "llama3.2";

/// How to reach a language model.
#[derive(Clone, Debug)]
pub struct LlmConfig {
    pub provider: LlmProvider,
    /// API key, for OpenRouter.
    pub api_key: Option<String>,
    pub model: String,
    /// Server URL, for Ollama.
    pub base_url: Option<String>,
}

impl Default for LlmConfig {
    /// A local Ollama server at its usual address, with the default model.
    fn default() -> (r: Self)
        ensures
            r.provider == LlmProvider::Ollama,
            r.api_key is None,
            r.model@ == DEFAULT_MODEL@,
            r.base_url matches Some(u) && u@ == DEFAULT_OLLAMA_URL@,
    {
        LlmConfig {
            provider: LlmProvider::Ollama,
            api_key: None,
            model: String::from_str(DEFAULT_MODEL),
            base_url: Some(String::from_str(DEFAULT_OLLAMA_URL)),
        }
    }
}

/// A resolved language-model endpoint: everything needed to open a client.
#[derive(Clone, Debug)]
pub enum LlmEndpoint {
    OpenRouter { api_key: String, model: String },
    Ollama { base_url: String, model: String },
}

/// The message of the error for an OpenRouter configuration without a key.
pub const MISSING_API_KEY: &'static str = "OpenRouter API key required";

/// The Ollama address that a configured base URL gives.
pub open spec fn ollama_url(base_url: Option<String>) -> Seq<char> {
    match base_url {
        Some(u) => u@,
        None => DEFAULT_OLLAMA_URL@,
    }
}

/// Resolves a configuration into the endpoint to use. OpenRouter needs an
/// API key; Ollama falls back to the local default address.
pub fn create_llm_client(config: &LlmConfig) -> (r: Result<LlmEndpoint, MonitorError>)
    ensures
        match config.provider {
            LlmProvider::OpenRouter => match config.api_key {
                Some(k) => r matches Ok(LlmEndpoint::OpenRouter { api_key, model }) && api_key@ == k@
                    && model@ == config.model@,
                None => r matches Err(MonitorError::ConfigError(m)) && m@ == MISSING_API_KEY@,
            },
            LlmProvider::Ollama => r matches Ok(LlmEndpoint::Ollama { base_url, model }) && model@
                == config.model@ && base_url@ == ollama_url(config.base_url),
        },
{
    match config.provider {
        LlmProvider::OpenRouter => match &config.api_key {
            Some(k) => Ok(LlmEndpoint::OpenRouter { api_key: k.clone(), model: config.model.clone() }),
            None => Err(MonitorError::ConfigError(String::from_str(MISSING_API_KEY))),
        },
        LlmProvider::Ollama => {
            let base_url = match &config.base_url {
                Some(u) => u.clone(),
                None => String::from_str(DEFAULT_OLLAMA_URL),
            };
            Ok(LlmEndpoint::Ollama { base_url, model: config.model.clone() })
        },
    }
}

/// One invariant that a language model proposed for a module.
#[derive(Clone, Debug)]
pub struct SuggestedInvariant {
    pub id: String,
    pub name: String,
    pub description: String,
    pub formula: String,
    /// One of `critical`, `high`, `medium`, `low`.
    pub severity: String,
    pub fields_used: Vec<String>,
}

/// A language model's analysis of one module.
#[derive(Clone, Debug)]
pub struct AnalysisResult {
    pub package_id: String,
    pub module_name: String,
    pub suggested_invariants: Vec<SuggestedInvariant>,
    pub analysis_notes: String,
}

} // verus!

verus! {

/// Opening of the analysis prompt, up to the package id.
pub const PROMPT_HEAD: &'static str = "You are a smart contract security expert analyzing a Sui Move module.\n\nPackage: ";

/// Between the package id and the module name.
pub const PROMPT_MODULE: &'static str = "\nModule: ";

/// Between the module name and the struct listing.
pub const PROMPT_STRUCTS: &'static str = "\n\nStructs:\n";

/// The instructions and answer format that close the prompt.
pub const PROMPT_TAIL: &'static str = r#"

Analyze this module and suggest safety invariants to monitor. For each invariant, provide:
1. A unique ID (e.g., INV-001)
2. A descriptive name
3. A clear description of what it checks
4. The formula/condition (using field names from the structs)
5. Severity level (critical/high/medium/low)
6. Which fields are used

Focus on:
- Balance/supply consistency
- Numeric bounds and overflow prevention
- State machine validity
- Access control consistency
- Economic invariants

Respond ONLY with valid JSON in this exact format:
{
  "suggested_invariants": [
    {
      "id": "INV-001",
      "name": "Invariant Name",
      "description": "What this invariant checks",
      "formula": "field_a <= field_b",
      "severity": "high",
      "fields_used": ["field_a", "field_b"]
    }
  ],
  "analysis_notes": "Brief analysis summary"
}"#;

/// How many suggestions the analyses hold in all.
pub open spec fn suggestion_total(analyses: Seq<AnalysisResult>) -> nat
    decreases analyses.len(),
{
    if analyses.len() == 0 {
        0
    } else {
        suggestion_total(analyses.drop_last()) + analyses.last().suggested_invariants@.len()
    }
}

/// The summary of an analysis run: how many modules were analyzed and how
/// many invariants they suggest, or `None` where the total does not fit in
/// a `u128`.
pub fn analysis_summary(analyses: &Vec<AnalysisResult>) -> (r: Option<String>)
    ensures
        suggestion_total(analyses@) <= u128::MAX ==> (r matches Some(m) && m@ == "Analyzed "@ + decimal(
            analyses@.len() as nat,
        ) + " module(s), found "@ + decimal(suggestion_total(analyses@)) + " invariants"@),
        suggestion_total(analyses@) > u128::MAX ==> r is None,
{
    let mut total: u128 = 0;
    let mut i: usize = 0;
    while i < analyses.len()
        invariant
            i <= analyses@.len(),
            total == suggestion_total(analyses@.subrange(0, i as int)),
        decreases analyses@.len() - i,
    {
        proof {
            assert(analyses@.subrange(0, i + 1).drop_last() =~= analyses@.subrange(0, i as int));
            lemma_suggestion_total_prefix(analyses@, i + 1);
        }
        let count = analyses[i].suggested_invariants.len() as u128;
        match total.checked_add(count) {
            Some(t) => total = t,
            None => return None,
        }
        i = i + 1;
    }
    proof {
        assert(analyses@.subrange(0, analyses@.len() as int) =~= analyses@);
    }
    let mut message = String::from_str("Analyzed ");
    let modules = decimal_text(analyses.len() as u128);
    message.append(modules.as_str());
    message.append(" module(s), found ");
    let found = decimal_text(total);
    message.append(found.as_str());
    message.append(" invariants");
    Some(message)
}

/// A prefix of the analyses suggests no more than all of them.
pub proof fn lemma_suggestion_total_prefix(analyses: Seq<AnalysisResult>, n: int)
    requires
        0 <= n <= analyses.len(),
    ensures
        suggestion_total(analyses.subrange(0, n)) <= suggestion_total(analyses),
    decreases analyses.len(),
{
    if n < analyses.len() {
        assert(analyses.drop_last().subrange(0, n) =~= analyses.subrange(0, n));
        lemma_suggestion_total_prefix(analyses.drop_last(), n);
    } else {
        assert(analyses.subrange(0, n) =~= analyses);
    }
}

/// One line per field: `  name: type,`.
pub open spec fn field_lines(fields: Seq<FieldMetadata>) -> Seq<char>
    decreases fields.len(),
{
    if fields.len() == 0 {
        Seq::empty()
    } else {
        field_lines(fields.drop_last()) + "  "@ + fields.last().name@ + ": "@ + fields.last().type_@ + ",\n"@
    }
}

/// A struct rendered as a Move-like declaration, after a blank line.
pub open spec fn struct_block(s: StructMetadata) -> Seq<char> {
    "\nstruct "@ + s.name@ + " {\n"@ + field_lines(s.fields@) + "}\n"@
}

/// The declarations of all `structs`, in order.
pub open spec fn struct_listing(structs: Seq<StructMetadata>) -> Seq<char>
    decreases structs.len(),
{
    if structs.len() == 0 {
        Seq::empty()
    } else {
        struct_listing(structs.drop_last()) + struct_block(structs.last())
    }
}

/// The prompt that asks for invariants of module `m`.
pub open spec fn prompt_text(m: ModuleMetadata) -> Seq<char> {
    PROMPT_HEAD@ + m.package_id@ + PROMPT_MODULE@ + m.module_name@ + PROMPT_STRUCTS@ + struct_listing(m.structs@)
        + PROMPT_TAIL@
}

/// The declaration of one struct.
fn render_struct(s: &StructMetadata) -> (r: String)
    ensures
        r@ == struct_block(*s),
{
    let mut out = String::from_str("\nstruct ");
    out.append(s.name.as_str());
    out.append(" {\n");
    let ghost head = out@;
    let mut i: usize = 0;
    while i < s.fields.len()
        invariant
            i <= s.fields@.len(),
            out@ == head + field_lines(s.fields@.subrange(0, i as int)),
        decreases s.fields@.len() - i,
    {
        proof {
            assert(s.fields@.subrange(0, i + 1).drop_last() =~= s.fields@.subrange(0, i as int));
        }
        out.append("  ");
        out.append(s.fields[i].name.as_str());
        out.append(": ");
        out.append(s.fields[i].type_.as_str());
        out.append(",\n");
        i = i + 1;
    }
    proof {
        assert(s.fields@.subrange(0, s.fields@.len() as int) =~= s.fields@);
    }
    out.append("}\n");
    out
}

/// The prompt that asks a language model for invariants of `metadata`: the
/// package and module, each struct with its fields, and the expected answer
/// format.
pub fn build_prompt(metadata: &ModuleMetadata) -> (r: String)
    ensures
        r@ == prompt_text(*metadata),
{
    let mut listing = String::new();
    let mut i: usize = 0;
    while i < metadata.structs.len()
        invariant
            i <= metadata.structs@.len(),
            listing@ == struct_listing(metadata.structs@.subrange(0, i as int)),
        decreases metadata.structs@.len() - i,
    {
        proof {
            assert(metadata.structs@.subrange(0, i + 1).drop_last() =~= metadata.structs@.subrange(0, i as int));
        }
        let block = render_struct(&metadata.structs[i]);
        listing.append(block.as_str());
        i = i + 1;
    }
    proof {
        assert(metadata.structs@.subrange(0, metadata.structs@.len() as int) =~= metadata.structs@);
    }
    let mut prompt = String::from_str(PROMPT_HEAD);
    prompt.append(metadata.package_id.as_str());
    prompt.append(PROMPT_MODULE);
    prompt.append(metadata.module_name.as_str());
    prompt.append(PROMPT_STRUCTS);
    prompt.append(listing.as_str());
    prompt.append(PROMPT_TAIL);
    prompt
}

} // verus!
