//! The serialization formats in which a document can be emitted.

use crate::value::{enumerated, reading, same_text, DeserializeError, DeserializeErrorView, Value};
use std::str::FromStr;
use vstd::prelude::*;
use vstd::string::StringExecFns;

verus! {

/// The format of the emitted document.
#[derive(Debug, Clone, Copy, PartialEq, Eq)]
pub enum Format {
    Json,
    Xml,
}

/// The message that refuses `text` where one of the names in `choices` was
/// needed.
pub open spec fn unexpected_name(choices: Seq<char>, text: Seq<char>) -> Seq<char> {
    "Expected "@ + choices + ", got `"@ + text + "`"@
}

/// Builds the message that refuses `text` where one of the names in
/// `choices` was needed.
pub fn refuse_name(choices: &str, text: &str) -> (message: String)
    ensures
        message@ == unexpected_name(choices@, text@),
{
    let mut message = "Expected ".to_owned();
    message.append(choices);
    message.append(", got `");
    message.append(text);
    message.append("`");
    message
}

impl Format {
    /// The format that `text` names: `json` or `xml`, and nothing else.
    pub open spec fn named(text: Seq<char>) -> Result<Format, Seq<char>> {
        if text == "json"@ {
            Ok(Format::Json)
        } else if text == "xml"@ {
            Ok(Format::Xml)
        } else {
            Err(unexpected_name("xml or json"@, text))
        }
    }

    /// The format that a value holds: a string that names one.
    pub open spec fn deserialized(value: Value) -> Result<Format, DeserializeErrorView> {
        enumerated(value, |text: Seq<char>| Format::named(text))
    }

    /// Reads a format.
    pub fn deserialize(value: &Value) -> (read: Result<Format, DeserializeError>)
        ensures
            reading(read) == Format::deserialized(*value),
    {
        match value.expect_string() {
            Err(error) => Err(error),
            Ok(text) => match Format::from_str(text.as_str()) {
                Ok(format) => Ok(format),
                Err(message) => Err(DeserializeError::new(message)),
            },
        }
    }
}

impl FromStr for Format {
    type Err = String;

    fn from_str(s: &str) -> (parsed: Result<Self, String>)
        ensures
            match parsed {
                Ok(format) => Format::named(s@) == Ok::<Format, Seq<char>>(format),
                Err(message) => Format::named(s@) == Err::<Format, Seq<char>>(message@),
            },
    {
        if same_text(s, "json") {
            Ok(Format::Json)
        } else if same_text(s, "xml") {
            Ok(Format::Xml)
        } else {
            Err(refuse_name("xml or json", s))
        }
    }
}

} // verus!
