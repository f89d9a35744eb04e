//! Configuration parsing: the text of `config.yaml` becomes the ordered list
//! of wallet address strings, or a `ConfigError` saying why it could not.

use vstd::prelude::*;

verus! {

/// What `yaml_string_list` returns: the digest of a YAML document under one
/// key, a function of the document text and the key alone. `Err` carries the
/// parser's message for a document that does not parse; `Ok(None)` marks a
/// parsed document in which the key does not name a sequence of strings;
/// `Ok(Some(list))` carries that sequence in document order.
pub uninterp spec fn yaml_string_list_of(text: Seq<char>, key: Seq<char>) -> Result<
    Option<Seq<Seq<char>>>,
    Seq<char>,
>;

/// Relies on serde_yaml's `from_str::<Value>`, `Value::get` with a string
/// index, `Value::as_sequence` and `Value::as_str`: whether the document
/// parses, whether `key` names a sequence of strings in it, the strings
/// themselves and the error message all depend on `text` and `key` alone.
#[verifier::external_body]
fn yaml_string_list(text: &str, key: &str) -> (r: Result<Option<Vec<String>>, String>)
    ensures
        (match r {
            Err(e) => yaml_string_list_of(text@, key@) == Err::<
                Option<Seq<Seq<char>>>,
                Seq<char>,
            >(e@),
            Ok(None) => yaml_string_list_of(text@, key@) == Ok::<
                Option<Seq<Seq<char>>>,
                Seq<char>,
            >(None),
            Ok(Some(list)) => yaml_string_list_of(text@, key@) == Ok::<
                Option<Seq<Seq<char>>>,
                Seq<char>,
            >(Some(list.deep_view())),
        }),
{
    let v: serde_yaml::Value = match serde_yaml::from_str(text) {
        Ok(v) => v,
        Err(e) => return Err(e.to_string()),
    };
    let Some(items) = v.get(key).and_then(serde_yaml::Value::as_sequence) else {
        return Ok(None);
    };
    let mut out: Vec<String> = Vec::new();
    for item in items {
        let Some(s) = item.as_str() else { return Ok(None) };
        out.push(s.to_string());
    }
    Ok(Some(out))
}

/// A failure to load the configuration; both variants abort the run.
#[derive(Debug)]
pub enum ConfigError {
    /// The configuration file could not be read; holds the reader's message.
    Read(String),
    /// The file was read but is not a YAML mapping with a `wallets` list of
    /// strings; holds a message saying why.
    Parse(String),
}

/// Description used when the document parses but holds no `wallets` list of
/// strings.
pub open spec fn missing_wallets_message() -> Seq<char> {
    "config.yaml must hold a `wallets` list of strings"@
}

impl ConfigError {
    /// The description that the operator sees for this error.
    pub open spec fn spec_message(&self) -> Seq<char> {
        match self {
            ConfigError::Read(m) => m@,
            ConfigError::Parse(m) => m@,
        }
    }

    /// The description that the operator sees for this error.
    pub fn message(&self) -> (r: &str)
        ensures
            r@ == self.spec_message(),
    {
        match self {
            ConfigError::Read(m) => m.as_str(),
            ConfigError::Parse(m) => m.as_str(),
        }
    }
}

/// Parses the configuration text: a YAML document whose `wallets` key holds
/// the ordered list of wallet address strings. Other keys are ignored.
/// Returns the addresses in document order, or says exactly why the text is
/// not a valid configuration.
pub fn parse_config(text: &str) -> (r: Result<Vec<String>, ConfigError>)
    ensures
        (match yaml_string_list_of(text@, "wallets"@) {
            Ok(Some(ws)) => r matches Ok(v) && v.deep_view() == ws,
            Ok(None) => r matches Err(e) && e matches ConfigError::Parse(m) && m@
                == missing_wallets_message(),
            Err(t) => r matches Err(e) && e matches ConfigError::Parse(m) && m@ == t,
        }),
{
    match yaml_string_list(text, "wallets") {
        Ok(Some(v)) => Ok(v),
        Ok(None) => Err(
            ConfigError::Parse(
                String::from_str("config.yaml must hold a `wallets` list of strings"),
            ),
        ),
        Err(t) => Err(ConfigError::Parse(t)),
    }
}

} // verus!
