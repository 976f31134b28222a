//! The generic value tree that a parser of configuration text hands over, and
//! the checks that read a typed value out of it.

use vstd::prelude::*;
use vstd::string::StringExecFns;

verus! {

/// A node of a parsed configuration document.
///
/// A floating-point number and a date-time are held by their text: nothing
/// here computes with them.
#[derive(Debug, PartialEq, Eq)]
pub enum Value {
    String(String),
    Integer(i64),
    Float(String),
    Boolean(bool),
    Datetime(String),
    Array(Vec<Value>),
    Table(Vec<(String, Value)>),
}

/// Whether two texts hold the same characters.
pub fn same_text(left: &str, right: &str) -> (same: bool)
    ensures
        same == (left@ == right@),
{
    left.to_owned() == right.to_owned()
}

/// The value that a table's entries give to `key`: that of the first entry
/// with this key.
pub open spec fn lookup(entries: Seq<(String, Value)>, key: Seq<char>) -> Option<Value>
    decreases entries.len(),
{
    if entries.len() == 0 {
        None
    } else if entries[0].0@ == key {
        Some(entries[0].1)
    } else {
        lookup(entries.drop_first(), key)
    }
}

/// Why a value does not have the expected shape, and under which keys it was
/// found, outermost first.
#[derive(Debug, PartialEq, Eq)]
pub struct DeserializeError {
    pub message: String,
    pub keys: Vec<String>,
}

/// The mathematical content of a [`DeserializeError`].
pub struct DeserializeErrorView {
    pub message: Seq<char>,
    pub keys: Seq<Seq<char>>,
}

/// The keys of a path, joined by dots.
pub open spec fn dotted(keys: Seq<Seq<char>>) -> Seq<char>
    decreases keys.len(),
{
    if keys.len() == 0 {
        Seq::empty()
    } else if keys.len() == 1 {
        keys[0]
    } else {
        dotted(keys.drop_last()) + "."@ + keys.last()
    }
}

impl DeserializeErrorView {
    /// The error with `key` put in front of its keys.
    pub open spec fn under(self, key: Seq<char>) -> Self {
        DeserializeErrorView { message: self.message, keys: seq![key] + self.keys }
    }

    /// The text of the error: its message, followed by the dotted path of
    /// the keys where there are any.
    pub open spec fn describe(self) -> Seq<char> {
        if self.keys.len() == 0 {
            self.message
        } else {
            self.message + " for key `"@ + dotted(self.keys) + "`"@
        }
    }
}

/// The views of a sequence of keys, in order.
pub open spec fn keys_view(keys: Seq<String>) -> Seq<Seq<char>> {
    keys.map_values(|k: String| k@)
}

impl View for DeserializeError {
    type V = DeserializeErrorView;

    open spec fn view(&self) -> DeserializeErrorView {
        DeserializeErrorView { message: self.message@, keys: keys_view(self.keys@) }
    }
}

/// The message for a value of the kind `found` where `expected` was needed.
pub open spec fn invalid_type_message(found: Seq<char>, expected: Seq<char>) -> Seq<char> {
    "invalid type: "@ + found + ", expected "@ + expected
}

/// The error for a value of the kind `found` where `expected` was needed.
pub open spec fn invalid_type(found: Seq<char>, expected: Seq<char>) -> DeserializeErrorView {
    DeserializeErrorView { message: invalid_type_message(found, expected), keys: Seq::empty() }
}

impl DeserializeError {
    /// An error without keys.
    pub fn new(message: String) -> (error: Self)
        ensures
            error@ == (DeserializeErrorView { message: message@, keys: Seq::empty() }),
    {
        let keys: Vec<String> = Vec::new();
        assert(keys_view(keys@) == Seq::<Seq<char>>::empty());
        DeserializeError { message, keys }
    }

    /// Records that the value at fault was found under `key`.
    pub fn add_key_context(self, key: &str) -> (error: Self)
        ensures
            error@ == self@.under(key@),
    {
        let mut keys = self.keys;
        let ghost before = keys@;
        keys.insert(0, key.to_owned());
        assert(keys_view(keys@) == seq![key@] + keys_view(before));
        DeserializeError { message: self.message, keys }
    }

    /// The text of the error.
    pub fn describe(&self) -> (text: String)
        ensures
            text@ == self@.describe(),
    {
        if self.keys.len() == 0 {
            return self.message.clone();
        }
        let mut path = self.keys[0].clone();
        let mut i: usize = 1;
        while i < self.keys.len()
            invariant
                1 <= i <= self.keys.len(),
                path@ == dotted(keys_view(self.keys@.take(i as int))),
            decreases self.keys.len() - i,
        {
            assert(keys_view(self.keys@.take(i + 1)).drop_last() == keys_view(
                self.keys@.take(i as int),
            ));
            path.append(".");
            path.append(self.keys[i].as_str());
            i = i + 1;
        }
        assert(self.keys@.take(i as int) == self.keys@);
        let mut text = self.message.clone();
        text.append(" for key `");
        text.append(path.as_str());
        text.append("`");
        text
    }
}

impl Value {
    /// The name of the kind of value, as error messages give it.
    pub open spec fn kind(self) -> Seq<char> {
        match self {
            Value::String(_) => "string"@,
            Value::Integer(_) => "integer"@,
            Value::Float(_) => "float"@,
            Value::Boolean(_) => "boolean"@,
            Value::Datetime(_) => "datetime"@,
            Value::Array(_) => "array"@,
            Value::Table(_) => "table"@,
        }
    }

    /// The text that a string value holds; any other kind is refused.
    pub open spec fn string(self) -> Result<Seq<char>, DeserializeErrorView> {
        match self {
            Value::String(text) => Ok(text@),
            _ => Err(invalid_type(self.kind(), "a string"@)),
        }
    }

    /// The truth value that a boolean holds; any other kind is refused.
    pub open spec fn boolean(self) -> Result<bool, DeserializeErrorView> {
        match self {
            Value::Boolean(flag) => Ok(flag),
            _ => Err(invalid_type(self.kind(), "a boolean"@)),
        }
    }

    /// The entries that a table holds; any other kind is refused.
    pub open spec fn table(self) -> Result<Seq<(String, Value)>, DeserializeErrorView> {
        match self {
            Value::Table(entries) => Ok(entries@),
            _ => Err(invalid_type(self.kind(), "a table"@)),
        }
    }

    /// The name of the kind of this value.
    pub fn kind_name(&self) -> (name: &'static str)
        ensures
            name@ == self.kind(),
    {
        match self {
            Value::String(_) => "string",
            Value::Integer(_) => "integer",
            Value::Float(_) => "float",
            Value::Boolean(_) => "boolean",
            Value::Datetime(_) => "datetime",
            Value::Array(_) => "array",
            Value::Table(_) => "table",
        }
    }

    /// The error that refuses this value where `expected` was needed.
    fn refuse(&self, expected: &str) -> (error: DeserializeError)
        ensures
            error@ == invalid_type(self.kind(), expected@),
    {
        let mut message = "invalid type: ".to_owned();
        message.append(self.kind_name());
        message.append(", expected ");
        message.append(expected);
        DeserializeError::new(message)
    }

    /// Reads a string.
    pub fn expect_string(&self) -> (read: Result<&String, DeserializeError>)
        ensures
            match read {
                Ok(text) => self.string() == Ok::<Seq<char>, DeserializeErrorView>(text@),
                Err(error) => self.string() == Err::<Seq<char>, DeserializeErrorView>(error@),
            },
    {
        match self {
            Value::String(text) => Ok(text),
            _ => Err(self.refuse("a string")),
        }
    }

    /// Reads a boolean.
    pub fn expect_boolean(&self) -> (read: Result<bool, DeserializeError>)
        ensures
            match read {
                Ok(flag) => self.boolean() == Ok::<bool, DeserializeErrorView>(flag),
                Err(error) => self.boolean() == Err::<bool, DeserializeErrorView>(error@),
            },
    {
        match self {
            Value::Boolean(flag) => Ok(*flag),
            _ => Err(self.refuse("a boolean")),
        }
    }

    /// Reads a table.
    pub fn expect_table(&self) -> (read: Result<&Vec<(String, Value)>, DeserializeError>)
        ensures
            match read {
                Ok(entries) => self.table() == Ok::<Seq<(String, Value)>, DeserializeErrorView>(
                    entries@,
                ),
                Err(error) => self.table() == Err::<Seq<(String, Value)>, DeserializeErrorView>(
                    error@,
                ),
            },
    {
        match self {
            Value::Table(entries) => Ok(entries),
            _ => Err(self.refuse("a table")),
        }
    }
}

/// Finds the value that a table's entries give to `key`.
pub fn find<'a>(entries: &'a Vec<(String, Value)>, key: &str) -> (found: Option<&'a Value>)
    ensures
        match found {
            Some(value) => lookup(entries@, key@) == Some(*value),
            None => lookup(entries@, key@) is None,
        },
{
    let mut i: usize = 0;
    assert(entries@.skip(0) == entries@);
    while i < entries.len()
        invariant
            i <= entries.len(),
            lookup(entries@, key@) == lookup(entries@.skip(i as int), key@),
        decreases entries.len() - i,
    {
        assert(entries@.skip(i as int).drop_first() == entries@.skip(i + 1));
        if same_text(entries[i].0.as_str(), key) {
            return Some(&entries[i].1);
        }
        i = i + 1;
    }
    None
}

/// What reading a shape returned, with the error taken by its view.
pub open spec fn reading<T>(returned: Result<T, DeserializeError>) -> Result<
    T,
    DeserializeErrorView,
> {
    match returned {
        Ok(read) => Ok(read),
        Err(error) => Err(error@),
    }
}

/// What reading a shape returned, with both sides taken by their views.
pub open spec fn reading_view<T: View>(returned: Result<T, DeserializeError>) -> Result<
    T::V,
    DeserializeErrorView,
> {
    match returned {
        Ok(read) => Ok(read@),
        Err(error) => Err(error@),
    }
}

/// The optional field `key` of a table: absent where no entry has the key,
/// and otherwise what `read` makes of the entry's value, an error being
/// reported under the key.
pub open spec fn optional_field<T>(
    entries: Seq<(String, Value)>,
    key: Seq<char>,
    read: spec_fn(Value) -> Result<T, DeserializeErrorView>,
) -> Result<Option<T>, DeserializeErrorView> {
    match lookup(entries, key) {
        None => Ok(None),
        Some(value) => match read(value) {
            Ok(field) => Ok(Some(field)),
            Err(error) => Err(error.under(key)),
        },
    }
}

/// The value that a string names, where `named` knows the names.
pub open spec fn enumerated<T>(
    value: Value,
    named: spec_fn(Seq<char>) -> Result<T, Seq<char>>,
) -> Result<T, DeserializeErrorView> {
    match value.string() {
        Err(error) => Err(error),
        Ok(text) => match named(text) {
            Ok(choice) => Ok(choice),
            Err(message) => Err(DeserializeErrorView { message, keys: Seq::empty() }),
        },
    }
}

} // verus!
