use vstd::prelude::*;

verus! {

/// The value of a node attribute.
#[derive(Debug, Clone, Hash, PartialEq, Eq)]
pub enum AttributeValue {
    /// A value held as a static string.
    Str(&'static str),
    /// A value held as an owned string.
    OwnedStr(String),
    /// A boolean value, shown as `true` or `false`.
    Bool(bool),
}

/// An attribute: its key, then its value.
pub type KeyValue = (&'static str, AttributeValue);

impl AttributeValue {
    /// The characters that stand for this value.
    pub open spec fn text(&self) -> Seq<char> {
        match self {
            AttributeValue::Str(s) => s@,
            AttributeValue::OwnedStr(s) => s@,
            AttributeValue::Bool(b) => if *b { "true"@ } else { "false"@ },
        }
    }

    /// Returns the text of the value; a `Bool` reads `"true"` or `"false"`.
    pub fn as_str(&self) -> (r: &str)
        ensures
            r@ == self.text(),
    {
        match self {
            AttributeValue::Str(value) => value,
            AttributeValue::OwnedStr(value) => value.as_str(),
            AttributeValue::Bool(true) => "true",
            AttributeValue::Bool(false) => "false",
        }
    }
}

} // verus!
