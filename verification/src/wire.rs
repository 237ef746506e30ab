//! The GoDaddy wire formats: request URL and header construction, the JSON
//! body of an update, and the interpretation of a read response's payload.

use vstd::prelude::*;
use crate::dns_record_manager::{DnsRecord, GodaddyConfig};

verus! {

/// The outcome of reading a response body as a JSON list of A-records:
/// the `data` field of each entry, in order, or the parser's description
/// of why the payload does not have that shape.
pub uninterp spec fn record_datas_of(body: Seq<char>) -> Result<Seq<Seq<char>>, Seq<char>>;

/// The JSON text standing for a given string value, quotes included.
pub uninterp spec fn json_string_of(s: Seq<char>) -> Seq<char>;

/// Relies on `serde_json::from_str` to read the body as a JSON array, and on
/// `serde_json::Value::get` and `serde_json::Value::as_str` to take the
/// string under each entry's `data` key.  Parsing a fixed text is
/// deterministic, so the outcome is a function of the body alone.
#[verifier::external_body]
pub(crate) fn parse_record_datas(body: &str) -> (r: Result<Vec<DnsRecord>, String>)
    ensures
        match r {
            Ok(recs) => record_datas_of(body@)
                == Ok::<Seq<Seq<char>>, Seq<char>>(recs@.map_values(|rec: DnsRecord| rec.data@)),
            Err(m) => record_datas_of(body@) == Err::<Seq<Seq<char>>, Seq<char>>(m@),
        },
{
    let entries: Vec<serde_json::Value> = match serde_json::from_str(body) {
        Ok(v) => v,
        Err(e) => return Err(e.to_string()),
    };
    let mut recs: Vec<DnsRecord> = Vec::new();
    for entry in entries.iter() {
        match entry.get("data").and_then(serde_json::Value::as_str) {
            Some(s) => recs.push(DnsRecord { data: s.to_string() }),
            None => return Err("expected a string `data` field in every record".to_string()),
        }
    }
    Ok(recs)
}

/// Relies on `serde_json::to_string` on a `&str`: the JSON text for a given
/// string value depends on its characters alone, and serialising a plain
/// string cannot fail.
#[verifier::external_body]
fn json_quote(s: &str) -> (r: String)
    ensures
        r@ == json_string_of(s@),
{
    match serde_json::to_string(s) {
        Ok(t) => t,
        Err(_) => String::new(),
    }
}

impl GodaddyConfig {
    /// The URL of the managed A-record, under the configured base path.
    pub fn arecord_url(&self) -> (u: String)
        ensures
            u@ == self.base_path@ + "/domains/"@ + self.record_name@ + "/records/A/%40"@,
    {
        let mut u = self.base_path.clone();
        u.append("/domains/");
        u.append(self.record_name.as_str());
        u.append("/records/A/%40");
        u
    }

    /// The value of the `Authorization` header: the credential pair in
    /// GoDaddy's `sso-key` scheme.
    pub fn auth_header(&self) -> (h: String)
        ensures
            h@ == "sso-key "@ + self.api_key@ + ":"@ + self.api_secret@,
    {
        let mut h = String::from_str("sso-key ");
        h.append(self.api_key.as_str());
        h.append(":");
        h.append(self.api_secret.as_str());
        h
    }
}

/// The JSON body of an update request: one record with the new address and
/// the fixed TTL of 600 seconds.
pub fn update_request_body(new_ip: &str) -> (b: String)
    ensures
        b@ == "[{\"data\":"@ + json_string_of(new_ip@) + ",\"ttl\":600}]"@,
{
    let quoted = json_quote(new_ip);
    let mut b = String::from_str("[{\"data\":");
    b.append(quoted.as_str());
    b.append(",\"ttl\":600}]");
    b
}

} // verus!
