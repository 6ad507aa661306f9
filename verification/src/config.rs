//! The configuration loader: a URL-percent-encoded JSON array of
//! `{"path": ..., "url": ...}` objects maps route names to destination
//! webhook URLs. Decode failure and parse failure both fall back to the
//! empty mapping list; a request never fails at this stage.

use vstd::prelude::*;

use crate::error::RelayError;

verus! {

/// One configured route: the `path` and `url` members of one element of the
/// configuration array, each present only when the element is an object and
/// the member is a string.
#[derive(Clone, Debug, PartialEq, Eq)]
pub struct Mapping {
    pub path: Option<String>,
    pub url: Option<String>,
}

impl View for Mapping {
    type V = (Option<Seq<char>>, Option<Seq<char>>);

    open spec fn view(&self) -> Self::V {
        (self.path.deep_view(), self.url.deep_view())
    }
}

/// The views of a sequence of mappings, entry by entry.
pub open spec fn mapping_views(ms: Seq<Mapping>) -> Seq<(Option<Seq<char>>, Option<Seq<char>>)> {
    ms.map_values(|m: Mapping| m@)
}

/// What percent-decoding a string yields: the decoded text, or `None` when
/// the decoded bytes are not valid UTF-8.
pub uninterp spec fn decode_of(s: Seq<char>) -> Option<Seq<char>>;

/// The mapping entries a JSON value holds: one per element when the value is
/// an array, none otherwise; per element, its string-valued `path` and `url`
/// members.
pub uninterp spec fn entries_of(v: serde_json::Value) -> Seq<(Option<Seq<char>>, Option<Seq<char>>)>;

/// The mapping entries a piece of text holds: `None` when the text is not
/// valid JSON, else the entries of the value it parses to.
pub uninterp spec fn json_mappings_of(s: Seq<char>) -> Option<Seq<(Option<Seq<char>>, Option<Seq<char>>)>>;

#[verifier::external_type_specification]
#[verifier::external_body]
pub struct ExValue(serde_json::Value);

/// Relies on urlencoding::decode: percent-decoding depends on the input
/// characters alone, and fails exactly when the decoded bytes are not UTF-8.
#[verifier::external_body]
fn percent_decode(s: &str) -> (r: Option<String>)
    ensures
        r matches Some(d) ==> decode_of(s@) == Some(d@),
        r is None ==> decode_of(s@) is None,
{
    match urlencoding::decode(s) {
        Ok(d) => Some(d.into_owned()),
        Err(_) => None,
    }
}

/// Relies on serde_json::from_str: whether text is valid JSON, and the value
/// it parses to, depend on the text alone.
#[verifier::external_body]
fn parse_json(s: &str) -> (r: Option<serde_json::Value>)
    ensures
        r matches Some(v) ==> json_mappings_of(s@) == Some(entries_of(v)),
        r is None ==> json_mappings_of(s@) is None,
{
    serde_json::from_str::<serde_json::Value>(s).ok()
}

/// Relies on serde_json::Value::as_array and Vec::len: a JSON array holds
/// one entry per element; any other value holds none.
#[verifier::external_body]
fn entry_count(v: &serde_json::Value) -> (n: usize)
    ensures
        n == entries_of(*v).len(),
{
    match v.as_array() {
        Some(a) => a.len(),
        None => 0,
    }
}

/// Relies on serde_json::Value::as_array, Value::get and Value::as_str: an
/// entry's fields are its element's string-valued `path` and `url` members,
/// absent when the element is not an object or the member is not a string.
#[verifier::external_body]
fn entry_at(v: &serde_json::Value, i: usize) -> (m: Mapping)
    requires
        i < entries_of(*v).len(),
    ensures
        m@ == entries_of(*v)[i as int],
{
    let e = &v.as_array().unwrap()[i];
    Mapping {
        path: e.get("path").and_then(serde_json::Value::as_str).map(|p| p.to_string()),
        url: e.get("url").and_then(serde_json::Value::as_str).map(|u| u.to_string()),
    }
}

/// Reads the mapping entries out of a parsed configuration value, in order.
pub fn read_mappings(v: &serde_json::Value) -> (r: Vec<Mapping>)
    ensures
        mapping_views(r@) == entries_of(*v),
{
    let n = entry_count(v);
    let mut out: Vec<Mapping> = Vec::new();
    let mut i: usize = 0;
    while i < n
        invariant
            i <= n,
            n == entries_of(*v).len(),
            mapping_views(out@) =~= entries_of(*v).take(i as int),
        decreases n - i,
    {
        let m = entry_at(v, i);
        let ghost prev = out@;
        out.push(m);
        proof {
            let es = entries_of(*v);
            assert(mapping_views(prev).len() == prev.len());
            assert(prev.len() == i as int);
            assert forall|j: int| 0 <= j < i + 1 implies mapping_views(out@)[j] == es.take(
                i + 1,
            )[j] by {
                if j < i {
                    assert(out@[j] == prev[j]);
                    assert(mapping_views(prev)[j] == es.take(i as int)[j]);
                }
            }
            assert(mapping_views(out@) =~= es.take(i + 1));
        }
        i = i + 1;
    }
    proof {
        assert(entries_of(*v).take(n as int) =~= entries_of(*v));
    }
    out
}

/// The mapping list a given encoded configuration text denotes: empty when
/// decoding fails or the decoded text is not valid JSON, else the entries of
/// the parsed value.
pub open spec fn config_model(enc: Seq<char>) -> Seq<(Option<Seq<char>>, Option<Seq<char>>)> {
    match decode_of(enc) {
        Option::None => Seq::empty(),
        Option::Some(text) => match json_mappings_of(text) {
            Option::None => Seq::empty(),
            Option::Some(es) => es,
        },
    }
}

/// Parses decoded configuration text into its mapping list; malformed text
/// is reported as `ConfigParseError` for the loader to recover from.
pub fn parse_mappings_text(text: &str) -> (r: Result<Vec<Mapping>, RelayError>)
    ensures
        (match r {
            Ok(ms) => json_mappings_of(text@) == Some(mapping_views(ms@)),
            Err(e) => e == RelayError::ConfigParseError && json_mappings_of(text@) is None,
        }),
{
    match parse_json(text) {
        Some(v) => Ok(read_mappings(&v)),
        None => Err(RelayError::ConfigParseError),
    }
}

/// Loads the configuration from its encoded text: percent-decodes it, parses
/// the result as JSON, and yields the mapping list, substituting the empty
/// list when decoding or parsing fails.
pub fn load_config(encoded: &str) -> (r: Vec<Mapping>)
    ensures
        mapping_views(r@) == config_model(encoded@),
{
    let decoded = match percent_decode(encoded) {
        Some(d) => d,
        None => {
            let r: Vec<Mapping> = Vec::new();
            proof {
                assert(mapping_views(r@) =~= config_model(encoded@));
            }
            return r;
        },
    };
    match parse_mappings_text(decoded.as_str()) {
        Ok(ms) => ms,
        Err(_) => {
            let r: Vec<Mapping> = Vec::new();
            proof {
                assert(mapping_views(r@) =~= config_model(encoded@));
            }
            r
        },
    }
}

/// A malformed configuration yields the empty mapping list: whenever the
/// decoded text is not valid JSON — or decoding itself fails — the loaded
/// configuration holds no mappings at all.
pub proof fn lemma_malformed_config_empty(enc: Seq<char>)
    requires
        (match decode_of(enc) {
            Option::Some(text) => json_mappings_of(text) is None,
            Option::None => true,
        }),
    ensures
        config_model(enc) == Seq::<(Option<Seq<char>>, Option<Seq<char>>)>::empty(),
{
}

} // verus!
