//! Append-only audit ledger.
//!
//! Every decision — filtered or classified — becomes one sequentially
//! numbered record. The ledger object here owns the id counter and renders
//! each record as one newline-delimited JSON line; writing those lines to a
//! durable file is the caller's part. Ids start at 1 and grow by exactly one
//! per record, and the header line is fixed at creation, before any record.
//!
//! Content fingerprints are SHA-256 digests, rendered as 64 lowercase hex
//! digits: the digest itself comes from the sha2 crate behind a trusted
//! wrapper, and the hex rendering is verified.

use vstd::prelude::*;

use crate::text::bytes_to_hex;
use crate::text::dec_of;
use crate::text::hex_bytes_of;
use crate::text::json_escape;
use crate::text::json_escape_of;
use crate::text::lemma_hex_bytes_len;
use crate::text::u64_to_dec;

verus! {

/// The SHA-256 digest of a text, as its 32 bytes.
pub uninterp spec fn sha256_of(s: Seq<char>) -> Seq<u8>;

/// Relies on `sha2::Sha256` (`Digest::digest`), the SHA-256 hash function:
/// the digest depends on the input bytes alone and is always 32 bytes.
#[verifier::external_body]
fn sha256_digest(input: &str) -> (r: Vec<u8>)
    ensures
        r@ == sha256_of(input@),
        r@.len() == 32,
{
    <sha2::Sha256 as sha2::Digest>::digest(input.as_bytes()).to_vec()
}

/// Relies on std::time::SystemTime: milliseconds since the Unix epoch, or 0
/// when the clock stands before the epoch.
#[verifier::external_body]
pub fn now_ms() -> u64 {
    match std::time::SystemTime::now().duration_since(std::time::UNIX_EPOCH) {
        Ok(d) => d.as_millis() as u64,
        Err(_) => 0,
    }
}

/// The content fingerprint of a text: its SHA-256 digest in lowercase hex.
pub open spec fn content_hash_hex_of(s: Seq<char>) -> Seq<char> {
    hex_bytes_of(sha256_of(s))
}

/// Fingerprint a text: the SHA-256 digest as 64 hex digits, a pure function
/// of the text.
pub fn sha256_hex(input: &str) -> (r: String)
    ensures
        r@ == content_hash_hex_of(input@),
        r@.len() == 64,
{
    let digest = sha256_digest(input);
    proof {
        lemma_hex_bytes_len(digest@);
    }
    bytes_to_hex(&digest)
}

/// The content fingerprint depends on the text alone: equal texts carry
/// equal fingerprints, on every call.
pub proof fn lemma_content_hash_pure(a: Seq<char>, b: Seq<char>)
    requires
        a == b,
    ensures
        content_hash_hex_of(a) == content_hash_hex_of(b),
{
}

/// The text hashed into a classifier configuration fingerprint.
pub open spec fn config_str_of(
    name: Seq<char>,
    url: Seq<char>,
    max_tokens: u64,
    temperature: u64,
) -> Seq<char> {
    name + "|"@ + url + "|"@ + dec_of(max_tokens) + "|"@ + dec_of(temperature)
}

/// Identifies the exact classifier configuration in force; computed once at
/// startup and immutable for the process lifetime. The temperature is kept
/// in whole units (the classifier always runs at 0).
#[derive(Debug, Clone)]
pub struct ModelFingerprint {
    pub model_name: String,
    pub llm_url: String,
    pub max_tokens: u32,
    pub temperature: u32,
    /// SHA-256 of the serialized configuration, in hex.
    pub config_hash: String,
}

/// The short form recorded with each decision: name @ first 8 hash digits.
pub open spec fn fp_short_of(fp: ModelFingerprint) -> Seq<char> {
    fp.model_name@ + "@"@ + fp.config_hash@.subrange(0, 8)
}

impl ModelFingerprint {
    /// The hash field has the digest's fixed width.
    pub open spec fn wf(self) -> bool {
        self.config_hash@.len() == 64
    }

    /// Fingerprint a classifier configuration.
    pub fn new(model_name: &str, llm_url: &str, max_tokens: u32, temperature: u32) -> (r: Self)
        ensures
            r.wf(),
            r.model_name@ == model_name@,
            r.llm_url@ == llm_url@,
            r.max_tokens == max_tokens,
            r.temperature == temperature,
            r.config_hash@ == content_hash_hex_of(
                config_str_of(model_name@, llm_url@, max_tokens as u64, temperature as u64),
            ),
    {
        let mut cs = String::from_str(model_name);
        cs.append("|");
        cs.append(llm_url);
        cs.append("|");
        cs.append(u64_to_dec(max_tokens as u64).as_str());
        cs.append("|");
        cs.append(u64_to_dec(temperature as u64).as_str());
        let config_hash = sha256_hex(cs.as_str());
        ModelFingerprint {
            model_name: String::from_str(model_name),
            llm_url: String::from_str(llm_url),
            max_tokens,
            temperature,
            config_hash,
        }
    }

    /// The short fingerprint: model name and the hash's first 8 digits.
    pub fn fingerprint(&self) -> (r: String)
        requires
            self.wf(),
        ensures
            r@ == fp_short_of(*self),
    {
        let mut s = self.model_name.clone();
        s.append("@");
        s.append(self.config_hash.as_str().substring_char(0, 8));
        s
    }
}

/// One ledger entry.
#[derive(Debug, Clone)]
pub struct DecisionRecord {
    /// Unique decision id, monotonic per ledger.
    pub id: u64,
    /// Unix timestamp in milliseconds.
    pub timestamp_ms: u64,
    /// The input line that triggered the decision.
    pub input_log: String,
    /// Content fingerprint of the input line.
    pub input_hash: String,
    /// "KILL", "SUSTAIN", or "FAIL".
    pub action: String,
    /// Confidence percentage.
    pub confidence: u32,
    /// True when the pre-filter short-circuited and no classifier ran.
    pub filtered: bool,
    /// Latency of the path taken: microseconds for filtered records,
    /// milliseconds for classified ones.
    pub latency_ms: u64,
    /// Short model fingerprint.
    pub model_fingerprint: String,
    /// Short prompt-version fingerprint.
    pub prompt_hash: String,
    /// Raw classifier reply, kept for replay verification.
    pub raw_response: Option<String>,
}

/// The raw-response field of a record line: a JSON string or null.
pub open spec fn raw_response_json_of(r: Option<String>) -> Seq<char> {
    match r {
        Some(s) => "\"raw_response\":\""@ + json_escape_of(s@) + "\""@,
        None => "\"raw_response\":null"@,
    }
}

/// One record rendered as its JSON ledger line (without the newline).
pub open spec fn record_json_of(rec: DecisionRecord) -> Seq<char> {
    "{\"id\":"@ + dec_of(rec.id) + ",\"timestamp_ms\":"@ + dec_of(rec.timestamp_ms)
        + ",\"input_log\":\""@ + json_escape_of(rec.input_log@) + "\",\"input_hash\":\""@
        + json_escape_of(rec.input_hash@) + "\",\"action\":\""@ + json_escape_of(rec.action@)
        + "\",\"confidence\":"@ + dec_of(rec.confidence as u64) + ",\"filtered\":"@ + (if rec.filtered {
        "true"@
    } else {
        "false"@
    }) + ",\"latency_ms\":"@ + dec_of(rec.latency_ms) + ",\"model_fingerprint\":\""@
        + json_escape_of(rec.model_fingerprint@) + "\",\"prompt_hash\":\""@ + json_escape_of(
        rec.prompt_hash@,
    ) + "\","@ + raw_response_json_of(rec.raw_response) + "}"@
}

/// The nested fingerprint object of the header line.
pub open spec fn model_fingerprint_json_of(fp: ModelFingerprint) -> Seq<char> {
    "{\"model_name\":\""@ + json_escape_of(fp.model_name@) + "\",\"llm_url\":\""@ + json_escape_of(
        fp.llm_url@,
    ) + "\",\"max_tokens\":"@ + dec_of(fp.max_tokens as u64) + ",\"temperature\":"@ + dec_of(
        fp.temperature as u64,
    ) + ".0"@ + ",\"config_hash\":\""@ + json_escape_of(fp.config_hash@) + "\"}"@
}

/// The header line written once at ledger creation.
pub open spec fn header_json_of(
    fp: ModelFingerprint,
    prompt_hash: Seq<char>,
    created_at_ms: u64,
) -> Seq<char> {
    "{\"version\":\"1.0.0\",\"created_at\":"@ + dec_of(created_at_ms) + ",\"model_fingerprint\":"@
        + model_fingerprint_json_of(fp) + ",\"prompt_hash\":\""@ + json_escape_of(prompt_hash)
        + "\"}"@
}

/// Render one record as its ledger line.
fn record_json(rec: &DecisionRecord) -> (r: String)
    ensures
        r@ == record_json_of(*rec),
{
    let mut out = String::from_str("{\"id\":");
    out.append(u64_to_dec(rec.id).as_str());
    out.append(",\"timestamp_ms\":");
    out.append(u64_to_dec(rec.timestamp_ms).as_str());
    out.append(",\"input_log\":\"");
    out.append(json_escape(rec.input_log.as_str()).as_str());
    out.append("\",\"input_hash\":\"");
    out.append(json_escape(rec.input_hash.as_str()).as_str());
    out.append("\",\"action\":\"");
    out.append(json_escape(rec.action.as_str()).as_str());
    out.append("\",\"confidence\":");
    out.append(u64_to_dec(rec.confidence as u64).as_str());
    out.append(",\"filtered\":");
    if rec.filtered {
        out.append("true");
    } else {
        out.append("false");
    }
    out.append(",\"latency_ms\":");
    out.append(u64_to_dec(rec.latency_ms).as_str());
    out.append(",\"model_fingerprint\":\"");
    out.append(json_escape(rec.model_fingerprint.as_str()).as_str());
    out.append("\",\"prompt_hash\":\"");
    out.append(json_escape(rec.prompt_hash.as_str()).as_str());
    out.append("\",");
    match &rec.raw_response {
        Some(s) => {
            out.append("\"raw_response\":\"");
            out.append(json_escape(s.as_str()).as_str());
            out.append("\"");
        },
        None => {
            out.append("\"raw_response\":null");
        },
    }
    out.append("}");
    out
}

/// Render the header line.
fn header_json(fp: &ModelFingerprint, prompt_hash_hex: &str, created_at_ms: u64) -> (r: String)
    ensures
        r@ == header_json_of(*fp, prompt_hash_hex@, created_at_ms),
{
    let mut out = String::from_str("{\"version\":\"1.0.0\",\"created_at\":");
    out.append(u64_to_dec(created_at_ms).as_str());
    out.append(",\"model_fingerprint\":");
    out.append("{\"model_name\":\"");
    out.append(json_escape(fp.model_name.as_str()).as_str());
    out.append("\",\"llm_url\":\"");
    out.append(json_escape(fp.llm_url.as_str()).as_str());
    out.append("\",\"max_tokens\":");
    out.append(u64_to_dec(fp.max_tokens as u64).as_str());
    out.append(",\"temperature\":");
    out.append(u64_to_dec(fp.temperature as u64).as_str());
    out.append(".0");
    out.append(",\"config_hash\":\"");
    out.append(json_escape(fp.config_hash.as_str()).as_str());
    out.append("\"}");
    out.append(",\"prompt_hash\":\"");
    out.append(json_escape(prompt_hash_hex).as_str());
    out.append("\"}");
    out
}

/// The append-only ledger: the id counter, the fingerprints in force, and —
/// as ghost history — the ids issued and the lines produced so far.
pub struct AuditTrail {
    next_id: u64,
    model_fingerprint: ModelFingerprint,
    prompt_hash: String,
    issued: Ghost<Seq<u64>>,
    produced: Ghost<Seq<Seq<char>>>,
    header: Ghost<Seq<char>>,
}

impl AuditTrail {
    /// The id the next record will carry.
    pub closed spec fn id_counter(self) -> u64 {
        self.next_id
    }

    /// Every id issued so far, in order.
    pub closed spec fn ids(self) -> Seq<u64> {
        self.issued@
    }

    /// Every line produced so far: the header first, then one line per
    /// record, in order.
    pub closed spec fn line_log(self) -> Seq<Seq<char>> {
        self.produced@
    }

    /// The header line fixed at creation.
    pub closed spec fn header_line(self) -> Seq<char> {
        self.header@
    }

    /// The full model fingerprint in force.
    pub closed spec fn fp(self) -> ModelFingerprint {
        self.model_fingerprint
    }

    /// The full prompt-version fingerprint in force.
    pub closed spec fn prompt_hash_view(self) -> Seq<char> {
        self.prompt_hash@
    }

    /// Well-formedness: ids run 1, 2, ... with the counter one past the
    /// last, the line history holds the header plus one line per id, and
    /// the fingerprints have their fixed widths.
    pub closed spec fn wf(self) -> bool {
        &&& 1 <= self.next_id
        &&& self.issued@.len() == self.next_id - 1
        &&& (forall|i: int| 0 <= i < self.issued@.len() ==> #[trigger] self.issued@[i] == i + 1)
        &&& self.produced@.len() == self.next_id
        &&& self.produced@[0] == self.header@
        &&& self.model_fingerprint.wf()
        &&& self.prompt_hash@.len() == 64
    }

    /// The id the next record will carry.
    pub fn next_id(&self) -> (r: u64)
        ensures
            r == self.id_counter(),
    {
        self.next_id
    }

    /// Open a ledger: fix the fingerprints, start the id counter at 1, and
    /// produce the header line, before any record can exist.
    pub fn new(model_fingerprint: ModelFingerprint, prompt_template: &str, created_at_ms: u64) -> (r:
        (AuditTrail, String))
        requires
            model_fingerprint.wf(),
        ensures
            r.0.wf(),
            r.0.id_counter() == 1,
            r.0.ids() == Seq::<u64>::empty(),
            r.0.fp() == model_fingerprint,
            r.0.prompt_hash_view() == content_hash_hex_of(prompt_template@),
            r.1@ == header_json_of(
                model_fingerprint,
                content_hash_hex_of(prompt_template@),
                created_at_ms,
            ),
            r.0.line_log() == seq![r.1@],
            r.0.header_line() == r.1@,
    {
        let prompt_hash = sha256_hex(prompt_template);
        let header = header_json(&model_fingerprint, prompt_hash.as_str(), created_at_ms);
        let ghost no_ids: Seq<u64> = Seq::empty();
        let ghost first_lines: Seq<Seq<char>> = seq![header@];
        let trail = AuditTrail {
            next_id: 1,
            model_fingerprint,
            prompt_hash,
            issued: Ghost(no_ids),
            produced: Ghost(first_lines),
            header: Ghost(header@),
        };
        (trail, header)
    }

    /// Append one decision: issue the next id, fingerprint the input line,
    /// and produce the record and its ledger line. Exactly one line joins
    /// the history.
    pub fn record(
        &mut self,
        input_log: &str,
        action: &str,
        confidence: u32,
        filtered: bool,
        latency_ms: u64,
        raw_response: Option<String>,
        timestamp_ms: u64,
    ) -> (r: (DecisionRecord, String))
        requires
            old(self).wf(),
            old(self).id_counter() < u64::MAX,
        ensures
            final(self).wf(),
            r.0.id == old(self).id_counter(),
            final(self).id_counter() == old(self).id_counter() + 1,
            final(self).ids() == old(self).ids().push(r.0.id),
            final(self).line_log() == old(self).line_log().push(r.1@),
            final(self).header_line() == old(self).header_line(),
            final(self).fp() == old(self).fp(),
            final(self).prompt_hash_view() == old(self).prompt_hash_view(),
            r.0.timestamp_ms == timestamp_ms,
            r.0.input_log@ == input_log@,
            r.0.input_hash@ == content_hash_hex_of(input_log@),
            r.0.action@ == action@,
            r.0.confidence == confidence,
            r.0.filtered == filtered,
            r.0.latency_ms == latency_ms,
            r.0.model_fingerprint@ == fp_short_of(old(self).fp()),
            r.0.prompt_hash@ == old(self).prompt_hash_view().subrange(0, 8),
            r.0.raw_response == raw_response,
            r.1@ == record_json_of(r.0),
    {
        let id = self.next_id;
        self.next_id = id + 1;
        let input_hash = sha256_hex(input_log);
        let fp_short = self.model_fingerprint.fingerprint();
        let prompt_hash_short = self.prompt_hash.as_str().substring_char(0, 8).to_owned();
        let rec = DecisionRecord {
            id,
            timestamp_ms,
            input_log: input_log.to_owned(),
            input_hash,
            action: action.to_owned(),
            confidence,
            filtered,
            latency_ms,
            model_fingerprint: fp_short,
            prompt_hash: prompt_hash_short,
            raw_response,
        };
        let line = record_json(&rec);
        self.issued = Ghost(self.issued@.push(id));
        self.produced = Ghost(self.produced@.push(line@));
        (rec, line)
    }
}

/// Ledger ids are strictly increasing by exactly 1 starting at 1, and the
/// header record is always the first line.
pub proof fn lemma_ledger_sequential(t: &AuditTrail)
    requires
        t.wf(),
    ensures
        t.ids().len() == t.id_counter() - 1,
        forall|i: int| 0 <= i < t.ids().len() ==> #[trigger] t.ids()[i] == i + 1,
        forall|i: int, j: int| 0 <= i < j < t.ids().len() ==> t.ids()[i] < t.ids()[j],
        t.line_log().len() > 0,
        t.line_log()[0] == t.header_line(),
        t.line_log().len() == t.ids().len() + 1,
{
    assert forall|i: int, j: int| 0 <= i < j < t.ids().len() implies t.ids()[i] < t.ids()[j] by {
        assert(t.ids()[i] == i + 1);
        assert(t.ids()[j] == j + 1);
    }
}

} // verus!
