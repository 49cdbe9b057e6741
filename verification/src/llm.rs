//! Classifier-reply handling.
//!
//! A suspicious line is sent to an external text-completion backend; the
//! reply text is parsed here. Fenced code blocks are stripped, then the reply
//! is searched for an explicit action token, case-insensitively, but only
//! where a recognizable action field marker is present. A reply without a
//! confident token yields FAIL with confidence 0 — never SUSTAIN: an
//! uninterpretable reply must escalate toward caution.
//!
//! The HTTP transport itself stays outside the library; it hands the reply
//! text (or the transport error) in as a [`ClassifierOutcome`].

use vstd::prelude::*;

use crate::text::contains_ci_of;
use crate::text::contains_of;
use crate::text::remove_all;
use crate::text::remove_all_of;
use crate::text::str_contains;
use crate::text::str_contains_ci;

verus! {

/// A classification outcome: the action to take, the confidence claimed for
/// it, and the backend's reply verbatim for replay and forensics.
#[derive(Debug, Clone)]
pub struct Decision {
    /// "KILL", "SUSTAIN", or "FAIL".
    pub action: String,
    /// Confidence percentage, 0..=100.
    pub confidence: u32,
    /// The raw reply (or error text) the decision was drawn from.
    pub raw_response: String,
}

/// The prompt text standing before the quoted log line.
pub open spec fn prompt_prefix() -> Seq<char> {
    "Log: \""@
}

/// The prompt text standing after the quoted log line.
pub open spec fn prompt_suffix() -> Seq<char> {
    "\"\n\nKILL if: orders in 1ms, sequential #, huge exposure, timing anomaly\nSUSTAIN if: normal\n\nRespond ONLY: {\"action\":\"KILL\"} or {\"action\":\"SUSTAIN\"}"@
}

/// The versioned prompt template, with the placeholder where a log line is
/// substituted.
pub open spec fn prompt_template_spec() -> Seq<char> {
    prompt_prefix() + "{log}"@ + prompt_suffix()
}

/// The prompt sent for one log line.
pub open spec fn prompt_of(log: Seq<char>) -> Seq<char> {
    prompt_prefix() + log + prompt_suffix()
}

/// The reply text after stripping fenced code block markers.
pub open spec fn cleaned_of(s: Seq<char>) -> Seq<char> {
    remove_all_of(remove_all_of(s, "```json"@), "```"@)
}

/// A recognizable action field marker is present in the cleaned reply.
pub open spec fn has_action_marker(s: Seq<char>) -> bool {
    contains_of(cleaned_of(s), "\"action\""@)
}

/// The action a reply resolves to: KILL and SUSTAIN tokens are honored, in
/// that order of precedence, only beside an action marker; anything else is
/// FAIL.
pub open spec fn decision_action_of(s: Seq<char>) -> Seq<char> {
    if has_action_marker(s) && contains_ci_of(cleaned_of(s), "KILL"@) {
        "KILL"@
    } else if has_action_marker(s) && contains_ci_of(cleaned_of(s), "SUSTAIN"@) {
        "SUSTAIN"@
    } else {
        "FAIL"@
    }
}

/// The confidence a reply resolves to: 90 for an explicit token, 0 for FAIL.
pub open spec fn decision_confidence_of(s: Seq<char>) -> u32 {
    if decision_action_of(s) == "FAIL"@ {
        0
    } else {
        90
    }
}

/// Client-side classifier configuration: where requests go and how they are
/// bounded. The transport that carries them lives outside the library.
#[derive(Debug, Clone)]
pub struct LlmClient {
    /// Full completion endpoint derived from the base URL.
    pub endpoint: String,
    /// Model name sent with every request.
    pub model: String,
    /// Token budget for the reply.
    pub max_tokens: u32,
}

impl LlmClient {
    /// Fix the endpoint, model, and token budget for the process lifetime.
    pub fn new(base_url: &str, model: &str, max_tokens: u32) -> (r: Self)
        ensures
            r.endpoint@ == base_url@ + "/chat/completions"@,
            r.model@ == model@,
            r.max_tokens == max_tokens,
    {
        let mut endpoint = String::from_str(base_url);
        endpoint.append("/chat/completions");
        LlmClient { endpoint, model: String::from_str(model), max_tokens }
    }

    /// The prompt template; its content hash is the prompt-version
    /// fingerprint recorded with every ledger entry.
    pub fn prompt_template() -> (r: String)
        ensures
            r@ == prompt_template_spec(),
    {
        let mut t = String::from_str("Log: \"");
        t.append("{log}");
        t.append(
            "\"\n\nKILL if: orders in 1ms, sequential #, huge exposure, timing anomaly\nSUSTAIN if: normal\n\nRespond ONLY: {\"action\":\"KILL\"} or {\"action\":\"SUSTAIN\"}",
        );
        t
    }
}

/// Substitute one log line into the prompt template.
pub fn build_prompt(log: &str) -> (r: String)
    ensures
        r@ == prompt_of(log@),
{
    let mut p = String::from_str("Log: \"");
    p.append(log);
    p.append(
        "\"\n\nKILL if: orders in 1ms, sequential #, huge exposure, timing anomaly\nSUSTAIN if: normal\n\nRespond ONLY: {\"action\":\"KILL\"} or {\"action\":\"SUSTAIN\"}",
    );
    p
}

/// Parse a classifier reply into a decision. The reply is kept verbatim in
/// `raw_response`; the action and confidence follow the fail-safe rule:
/// no confident token means FAIL, never SUSTAIN.
pub fn parse_decision(content: &str) -> (r: Decision)
    ensures
        r.action@ == decision_action_of(content@),
        r.confidence == decision_confidence_of(content@),
        r.raw_response@ == content@,
{
    proof {
        proof_decision_tokens_differ();
    }
    let stripped = remove_all(content, "```json");
    let clean = remove_all(stripped.as_str(), "```");
    let marker = str_contains(clean.as_str(), "\"action\"");
    if marker && str_contains_ci(clean.as_str(), "KILL") {
        Decision {
            action: String::from_str("KILL"),
            confidence: 90,
            raw_response: content.to_owned(),
        }
    } else if marker && str_contains_ci(clean.as_str(), "SUSTAIN") {
        Decision {
            action: String::from_str("SUSTAIN"),
            confidence: 90,
            raw_response: content.to_owned(),
        }
    } else {
        Decision {
            action: String::from_str("FAIL"),
            confidence: 0,
            raw_response: content.to_owned(),
        }
    }
}

/// What one classifier call came back with: a reply to parse, or a
/// transport-level failure (timeout, unreachable backend, malformed data)
/// with its error text.
pub enum ClassifierOutcome {
    Reply(String),
    TransportError(String),
}

/// Resolve a classifier call's outcome to a decision. A received reply is
/// parsed under the fail-safe rule; a transport failure falls back to
/// SUSTAIN with confidence 0 — the configured fallback for this path, kept
/// distinct from parse ambiguity — with the error text preserved.
pub fn conclude(outcome: ClassifierOutcome) -> (r: Decision)
    ensures
        match outcome {
            ClassifierOutcome::Reply(c) => r.action@ == decision_action_of(c@) && r.confidence
                == decision_confidence_of(c@) && r.raw_response@ == c@,
            ClassifierOutcome::TransportError(e) => r.action@ == "SUSTAIN"@ && r.confidence == 0
                && r.raw_response@ == "ERROR: "@ + e@,
        },
{
    match outcome {
        ClassifierOutcome::Reply(c) => parse_decision(c.as_str()),
        ClassifierOutcome::TransportError(e) => {
            let mut raw = String::from_str("ERROR: ");
            raw.append(e.as_str());
            Decision { action: String::from_str("SUSTAIN"), confidence: 0, raw_response: raw }
        },
    }
}

/// A reply with no recognizable action marker resolves to FAIL with
/// confidence 0, whatever else it contains.
pub proof fn lemma_unrecognized_reply_fails(content: Seq<char>)
    requires
        !has_action_marker(content),
    ensures
        decision_action_of(content) == "FAIL"@,
        decision_confidence_of(content) == 0,
{
}

/// A reply carrying an action marker and an explicit KILL token resolves to
/// KILL with confidence 90, whatever else it contains.
pub proof fn lemma_kill_token_honored(content: Seq<char>)
    requires
        has_action_marker(content),
        contains_ci_of(cleaned_of(content), "KILL"@),
    ensures
        decision_action_of(content) == "KILL"@,
        decision_confidence_of(content) == 90,
{
    proof_decision_tokens_differ();
}

/// A reply carrying an action marker and an explicit SUSTAIN token, but no
/// KILL token, resolves to SUSTAIN with confidence 90.
pub proof fn lemma_sustain_token_honored(content: Seq<char>)
    requires
        has_action_marker(content),
        !contains_ci_of(cleaned_of(content), "KILL"@),
        contains_ci_of(cleaned_of(content), "SUSTAIN"@),
    ensures
        decision_action_of(content) == "SUSTAIN"@,
        decision_confidence_of(content) == 90,
{
    proof_decision_tokens_differ();
}

/// The three action words are pairwise distinct texts.
proof fn proof_decision_tokens_differ()
    ensures
        "KILL"@ != "FAIL"@,
        "SUSTAIN"@ != "FAIL"@,
        "KILL"@ != "SUSTAIN"@,
{
    reveal_strlit("KILL");
    reveal_strlit("SUSTAIN");
    reveal_strlit("FAIL");
    assert("KILL"@[0] == 'K' && "FAIL"@[0] == 'F' && "SUSTAIN"@[0] == 'S');
}

} // verus!
