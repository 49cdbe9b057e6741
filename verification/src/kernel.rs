//! The per-line decision step.
//!
//! Each connection hands its lines here one at a time. A line the filter
//! clears is recorded at once as a filtered SUSTAIN. A suspicious line first
//! comes back as a request for the classifier; the caller performs the one
//! network round trip and hands the outcome in, and the line is then
//! recorded with the decision drawn from it. Either way, exactly one ledger
//! record exists per processed line, written before any kill is acted on.

use vstd::prelude::*;

use crate::audit::AuditTrail;
use crate::audit::DecisionRecord;
use crate::audit::content_hash_hex_of;
use crate::audit::fp_short_of;
use crate::audit::record_json_of;
use crate::filter::Filter;
use crate::llm::ClassifierOutcome;
use crate::llm::build_prompt;
use crate::llm::conclude;
use crate::llm::decision_action_of;
use crate::llm::decision_confidence_of;
use crate::llm::prompt_of;
use crate::text::str_eq;

verus! {

/// Startup configuration shared read-only by every connection.
#[derive(Debug, Clone)]
pub struct KernelConfig {
    pub llm_url: String,
    pub model: String,
    pub max_tokens: u32,
    /// The process to terminate on a KILL decision, when one is configured.
    pub target_pid: Option<u32>,
}

/// In-memory operational counters; diagnostic only, never durable.
#[derive(Debug, Clone, Copy)]
pub struct Stats {
    /// Lines the pre-filter cleared without a classifier call.
    pub filtered: u64,
    /// Lines the classifier answered.
    pub analyzed: u64,
    /// KILL decisions.
    pub kills: u64,
    /// Total classified-path latency, for averaging.
    pub total_latency_ms: u64,
}

impl Default for Stats {
    /// All counters start at zero.
    fn default() -> (r: Self)
        ensures
            r.filtered == 0 && r.analyzed == 0 && r.kills == 0 && r.total_latency_ms == 0,
    {
        Stats { filtered: 0, analyzed: 0, kills: 0, total_latency_ms: 0 }
    }
}

/// Addition that stops at the counter's ceiling instead of wrapping.
pub open spec fn sat_add(a: u64, b: u64) -> u64 {
    if a + b <= u64::MAX {
        (a + b) as u64
    } else {
        u64::MAX
    }
}

fn sat_add_u64(a: u64, b: u64) -> (r: u64)
    ensures
        r == sat_add(a, b),
{
    if a <= u64::MAX - b {
        a + b
    } else {
        u64::MAX
    }
}

/// What one call of [`process_line`] did.
pub enum LineOutcome {
    /// One record was appended to the ledger: the record, its ledger line,
    /// and the pid to terminate if the decision calls for it.
    Recorded { record: DecisionRecord, line_json: String, kill_pid: Option<u32> },
    /// The line is suspicious and no classifier outcome was handed in yet:
    /// nothing was recorded; call again with the outcome of sending this
    /// prompt.
    NeedsClassifier { prompt: String },
}

/// The action a classifier outcome resolves to.
pub open spec fn outcome_action(o: ClassifierOutcome) -> Seq<char> {
    match o {
        ClassifierOutcome::Reply(c) => decision_action_of(c@),
        ClassifierOutcome::TransportError(e) => "SUSTAIN"@,
    }
}

/// The confidence a classifier outcome resolves to.
pub open spec fn outcome_confidence(o: ClassifierOutcome) -> u32 {
    match o {
        ClassifierOutcome::Reply(c) => decision_confidence_of(c@),
        ClassifierOutcome::TransportError(e) => 0,
    }
}

/// The raw response a classifier outcome records.
pub open spec fn outcome_raw(o: ClassifierOutcome) -> Seq<char> {
    match o {
        ClassifierOutcome::Reply(c) => c@,
        ClassifierOutcome::TransportError(e) => "ERROR: "@ + e@,
    }
}

/// Process one line. A cleared line is recorded as filtered SUSTAIN with
/// confidence 100 and no classifier call; a suspicious line without a
/// classifier outcome yields the prompt to send and records nothing; a
/// suspicious line with an outcome is recorded with the decision drawn from
/// it. `latency` is the caller's measure of the path taken: microseconds
/// for the filtered path, milliseconds for the classified one.
pub fn process_line(
    trail: &mut AuditTrail,
    stats: &mut Stats,
    filter: &Filter,
    config: &KernelConfig,
    line: &str,
    classifier: Option<ClassifierOutcome>,
    timestamp_ms: u64,
    latency: u64,
) -> (r: LineOutcome)
    requires
        old(trail).wf(),
        old(trail).id_counter() < u64::MAX,
    ensures
        final(trail).wf(),
        final(trail).fp() == old(trail).fp(),
        final(trail).prompt_hash_view() == old(trail).prompt_hash_view(),
        final(trail).header_line() == old(trail).header_line(),
        r is NeedsClassifier <==> (filter.suspicious_spec(line@) && classifier is None),
        r matches LineOutcome::NeedsClassifier { prompt } ==> (prompt@ == prompt_of(line@) && *final(trail) == *old(trail) && *final(stats) == *old(stats)),
        r matches LineOutcome::Recorded { record, line_json, kill_pid } ==> (record.id == old(trail).id_counter() && final(trail).id_counter() == old(trail).id_counter() + 1 && final(trail).ids() == old(trail).ids().push(record.id) && final(trail).line_log() == old(trail).line_log().push(line_json@) && line_json@ == record_json_of(record) && record.input_log@ == line@ && record.input_hash@ == content_hash_hex_of(line@) && record.timestamp_ms == timestamp_ms && record.latency_ms == latency && record.model_fingerprint@ == fp_short_of(old(trail).fp()) && record.prompt_hash@ == old(trail).prompt_hash_view().subrange(0, 8) && kill_pid == (if record.action@ == "KILL"@ { config.target_pid } else { None::<u32> })),
        !filter.suspicious_spec(line@) ==> (r matches LineOutcome::Recorded { record, line_json, kill_pid } && record.action@ == "SUSTAIN"@ && record.confidence == 100 && record.filtered && record.raw_response is None && final(stats).filtered == sat_add(old(stats).filtered, 1) && final(stats).analyzed == old(stats).analyzed && final(stats).kills == old(stats).kills && final(stats).total_latency_ms == old(stats).total_latency_ms),
        filter.suspicious_spec(line@) ==> (classifier matches Some(o) ==> (r matches LineOutcome::Recorded { record, line_json, kill_pid } && record.action@ == outcome_action(o) && record.confidence == outcome_confidence(o) && !record.filtered && (record.raw_response matches Some(s) && s@ == outcome_raw(o)))),
        filter.suspicious_spec(line@) ==> match classifier {
            Some(ClassifierOutcome::Reply(c)) => final(stats).analyzed == sat_add(old(stats).analyzed, 1) && final(stats).total_latency_ms == sat_add(old(stats).total_latency_ms, latency) && final(stats).filtered == old(stats).filtered && final(stats).kills == (if decision_action_of(c@) == "KILL"@ { sat_add(old(stats).kills, 1) } else { old(stats).kills }),
            Some(ClassifierOutcome::TransportError(e)) => *final(stats) == *old(stats),
            None => true,
        },
{
    let suspicious = filter.is_suspicious(line);
    if !suspicious {
        stats.filtered = sat_add_u64(stats.filtered, 1);
        let (record, line_json) = trail.record(
            line,
            "SUSTAIN",
            100,
            true,
            latency,
            None,
            timestamp_ms,
        );
        proof {
            reveal_strlit("SUSTAIN");
            reveal_strlit("KILL");
            assert("SUSTAIN"@.len() != "KILL"@.len());
        }
        LineOutcome::Recorded { record, line_json, kill_pid: None }
    } else {
        match classifier {
            None => LineOutcome::NeedsClassifier { prompt: build_prompt(line) },
            Some(outcome) => {
                let is_reply = match &outcome {
                    ClassifierOutcome::Reply(_) => true,
                    ClassifierOutcome::TransportError(_) => false,
                };
                let d = conclude(outcome);
                let kill = str_eq(d.action.as_str(), "KILL");
                if is_reply {
                    stats.analyzed = sat_add_u64(stats.analyzed, 1);
                    stats.total_latency_ms = sat_add_u64(stats.total_latency_ms, latency);
                    if kill {
                        stats.kills = sat_add_u64(stats.kills, 1);
                    }
                }
                let (record, line_json) = trail.record(
                    line,
                    d.action.as_str(),
                    d.confidence,
                    false,
                    latency,
                    Some(d.raw_response),
                    timestamp_ms,
                );
                let kill_pid = if kill {
                    config.target_pid
                } else {
                    None
                };
                LineOutcome::Recorded { record, line_json, kill_pid }
            },
        }
    }
}

} // verus!
