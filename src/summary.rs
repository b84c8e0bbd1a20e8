//! The persisted run summary and its text: the pretty-printed JSON object
//! `{timestamp, deployer, codeHash, results}` that each checkpoint writes whole.

use vstd::prelude::*;
use crate::text::{decimal, decimal_text};
use crate::worker::MatchRecord;

verus! {

/// `text` as a JSON string literal, quotes and escapes included.
pub uninterp spec fn json_quoted(text: Seq<char>) -> Seq<char>;

/// Relies on `serde_json::to_string` on a `&str`: the JSON string literal for
/// the text. Writing into memory, it does not fail.
#[verifier::external_body]
fn json_quote(text: &str) -> (r: String)
    ensures
        r@ == json_quoted(text@),
{
    match serde_json::to_string(text) {
        Ok(t) => t,
        Err(_) => String::new(),
    }
}

/// One result entry, indented as the fourth level of the document.
pub open spec fn record_text(m: MatchRecord) -> Seq<char> {
    "    {\n      \"salt\": "@ + json_quoted(m.salt@) + ",\n      \"address\": "@ + json_quoted(
        m.address@,
    ) + ",\n      \"pattern\": "@ + json_quoted(m.pattern@) + ",\n      \"attempt\": "@
        + decimal_text(m.attempt as nat) + "\n    }"@
}

/// The result entries separated by `,\n`.
pub open spec fn records_text(rs: Seq<MatchRecord>) -> Seq<char>
    decreases rs.len(),
{
    if rs.len() == 0 {
        Seq::empty()
    } else if rs.len() == 1 {
        record_text(rs[0])
    } else {
        records_text(rs.drop_last()) + ",\n"@ + record_text(rs.last())
    }
}

/// The `results` array: `[]` when empty.
pub open spec fn results_text(rs: Seq<MatchRecord>) -> Seq<char> {
    if rs.len() == 0 {
        "[]"@
    } else {
        "[\n"@ + records_text(rs) + "\n  ]"@
    }
}

/// Everything before the timestamp's value.
pub open spec fn summary_head() -> Seq<char> {
    "{\n  \"timestamp\": "@
}

/// Everything after the timestamp's value.
pub open spec fn summary_tail(deployer: Seq<char>, code_hash: Seq<char>, rs: Seq<MatchRecord>) -> Seq<char> {
    ",\n  \"deployer\": "@ + json_quoted(deployer) + ",\n  \"codeHash\": "@ + json_quoted(code_hash)
        + ",\n  \"results\": "@ + results_text(rs) + "\n}"@
}

/// The whole persisted text.
pub open spec fn summary_text(
    timestamp: Seq<char>,
    deployer: Seq<char>,
    code_hash: Seq<char>,
    rs: Seq<MatchRecord>,
) -> Seq<char> {
    summary_head() + json_quoted(timestamp) + summary_tail(deployer, code_hash, rs)
}

/// A complete snapshot of the results, as persisted at a checkpoint.
pub struct RunSummary {
    /// When the snapshot was taken (ISO-8601).
    pub timestamp: String,
    /// The deployer address as hex text.
    pub deployer: String,
    /// The init code hash as hex text.
    pub code_hash: String,
    /// The result log, in arrival order.
    pub results: Vec<MatchRecord>,
}

impl RunSummary {
    pub open spec fn text(&self) -> Seq<char> {
        summary_text(self.timestamp@, self.deployer@, self.code_hash@, self.results@)
    }

    /// The text to persist for this snapshot.
    pub fn render(&self) -> (r: String)
        ensures
            r@ == self.text(),
    {
        let mut out = String::from_str("{\n  \"timestamp\": ");
        let ts = json_quote(self.timestamp.as_str());
        out.append(ts.as_str());
        out.append(",\n  \"deployer\": ");
        let d = json_quote(self.deployer.as_str());
        out.append(d.as_str());
        out.append(",\n  \"codeHash\": ");
        let c = json_quote(self.code_hash.as_str());
        out.append(c.as_str());
        out.append(",\n  \"results\": ");
        let rs = render_results(&self.results);
        out.append(rs.as_str());
        out.append("\n}");
        assert(out@ =~= self.text());
        out
    }
}

fn render_record(m: &MatchRecord) -> (r: String)
    ensures
        r@ == record_text(*m),
{
    let mut out = String::from_str("    {\n      \"salt\": ");
    let s = json_quote(m.salt.as_str());
    out.append(s.as_str());
    out.append(",\n      \"address\": ");
    let a = json_quote(m.address.as_str());
    out.append(a.as_str());
    out.append(",\n      \"pattern\": ");
    let p = json_quote(m.pattern.as_str());
    out.append(p.as_str());
    out.append(",\n      \"attempt\": ");
    let n = decimal(m.attempt);
    out.append(n.as_str());
    out.append("\n    }");
    assert(out@ =~= record_text(*m));
    out
}

fn render_results(rs: &Vec<MatchRecord>) -> (r: String)
    ensures
        r@ == results_text(rs@),
{
    if rs.len() == 0 {
        return String::from_str("[]");
    }
    let mut body = render_record(&rs[0]);
    assert(rs@.subrange(0, 1).drop_last() =~= Seq::<MatchRecord>::empty());
    let mut i: usize = 1;
    while i < rs.len()
        invariant
            1 <= i <= rs@.len(),
            body@ == records_text(rs@.subrange(0, i as int)),
        decreases rs@.len() - i,
    {
        let rec = render_record(&rs[i]);
        body.append(",\n");
        body.append(rec.as_str());
        assert(rs@.subrange(0, i + 1).drop_last() =~= rs@.subrange(0, i as int));
        i = i + 1;
    }
    assert(rs@.subrange(0, i as int) =~= rs@);
    let mut out = String::from_str("[\n");
    out.append(body.as_str());
    out.append("\n  ]");
    out
}

/// Writing a snapshot twice with an unchanged result log gives the same text
/// but for the timestamp's value: both texts are the same head, the quoted
/// timestamp, and the same tail.
pub proof fn lemma_checkpoint_idempotent(a: RunSummary, b: RunSummary)
    requires
        a.deployer@ == b.deployer@,
        a.code_hash@ == b.code_hash@,
        a.results@ == b.results@,
    ensures
        a.text() == summary_head() + json_quoted(a.timestamp@) + summary_tail(
            a.deployer@,
            a.code_hash@,
            a.results@,
        ),
        b.text() == summary_head() + json_quoted(b.timestamp@) + summary_tail(
            a.deployer@,
            a.code_hash@,
            a.results@,
        ),
        a.timestamp@ == b.timestamp@ ==> a.text() == b.text(),
{
}

} // verus!
