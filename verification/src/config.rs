//! The listener configuration: a host and a port, read once at process
//! start from a JSON file, with hardcoded fallbacks.
//!
//! Reading the file is the binary's job; this module owns the fallback
//! rules: a text that is not valid JSON falls back whole, and each field
//! that is missing or not a string falls back on its own.

use vstd::prelude::*;

verus! {

/// Whether `serde_json` accepts this text as a JSON document. The same
/// text always gives the same outcome.
pub uninterp spec fn is_json_text(s: Seq<char>) -> bool;

/// The string field named `key` of the JSON document `s`: its text where
/// the document is a JSON object whose `key` member is a JSON string, and
/// nothing otherwise. A function of the text and the key alone.
pub uninterp spec fn json_str_field(s: Seq<char>, key: Seq<char>) -> Option<Seq<char>>;

/// The string field named `key` of the document, or `fallback` where the
/// document has no such string field.
pub open spec fn spec_field_or(s: Seq<char>, key: Seq<char>, fallback: Seq<char>) -> Seq<char> {
    match json_str_field(s, key) {
        Some(f) => f,
        None => fallback,
    }
}

/// Relies on `serde_json::from_str`: parsing succeeds exactly when the
/// text is a JSON document it accepts, and depends on the text alone.
#[verifier::external_body]
fn is_json(s: &str) -> (r: bool)
    ensures
        r == is_json_text(s@),
{
    serde_json::from_str::<serde_json::Value>(s).is_ok()
}

/// Relies on `serde_json::from_str`, `Value::get` and `Value::as_str`:
/// together they read the `key` string field of a JSON document, a
/// function of the text and the key alone; `get` returns nothing for a
/// document that is no object or has no such member, `as_str` nothing
/// for a member that is no JSON string.
#[verifier::external_body]
fn get_str_field(s: &str, key: &str) -> (r: Option<String>)
    ensures
        r is Some <==> json_str_field(s@, key@) is Some,
        r matches Some(f) ==> f@ == json_str_field(s@, key@)->0,
{
    serde_json::from_str::<serde_json::Value>(s).ok().and_then(
        |v| v.get(key).and_then(|f| f.as_str()).map(|x| x.to_owned()),
    )
}

/// The host and port the listener binds, immutable after startup.
#[derive(Clone, Debug)]
pub struct Config {
    /// The host to bind.
    pub host: String,
    /// The port to bind, kept as text.
    pub port: String,
}

impl Config {
    /// The hardcoded fallback configuration.
    pub fn default() -> (r: Config)
        ensures
            r.host@ == "127.0.0.1"@,
            r.port@ == "4273"@,
    {
        Config { host: "127.0.0.1".to_owned(), port: "4273".to_owned() }
    }

    /// Combines the optional configured fields with the fallbacks: each
    /// field that was not configured takes its default value.
    pub fn from_fields(host: Option<&str>, port: Option<&str>) -> (r: Config)
        ensures
            host matches Some(h) ==> r.host@ == h@,
            host is None ==> r.host@ == "127.0.0.1"@,
            port matches Some(p) ==> r.port@ == p@,
            port is None ==> r.port@ == "4273"@,
    {
        let host = match host {
            Some(h) => h.to_owned(),
            None => "127.0.0.1".to_owned(),
        };
        let port = match port {
            Some(p) => p.to_owned(),
            None => "4273".to_owned(),
        };
        Config { host, port }
    }

    /// Reads the configuration from the file's text: fails exactly when
    /// the text is not valid JSON (the caller then falls back whole), and
    /// otherwise takes the document's "host" and "port" string fields,
    /// each falling back on its own where it is missing or no string.
    pub fn from_json_str(s: &str) -> (r: Option<Config>)
        ensures
            r is Some <==> is_json_text(s@),
            r matches Some(c) ==> c.host@ == spec_field_or(s@, "host"@, "127.0.0.1"@),
            r matches Some(c) ==> c.port@ == spec_field_or(s@, "port"@, "4273"@),
    {
        if !is_json(s) {
            return None;
        }
        let host = get_str_field(s, "host");
        let port = get_str_field(s, "port");
        let host_ref = match &host {
            Some(h) => Some(h.as_str()),
            None => None,
        };
        let port_ref = match &port {
            Some(p) => Some(p.as_str()),
            None => None,
        };
        Some(Config::from_fields(host_ref, port_ref))
    }
}

} // verus!
