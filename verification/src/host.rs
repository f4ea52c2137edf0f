//! The host's values, as far as the conversions between native and host
//! values read them: a tag and, below it, plain data.

use vstd::prelude::*;

verus! {

/// The runtime tag of a host value. `Any` is the tag that a conversion
/// expects when every host value will do.
#[derive(Debug, Clone, Copy, PartialEq, Eq, Structural)]
pub enum HostTag {
    Any,
    Undefined,
    Boolean,
    Number,
    String,
    Array,
    Object,
}

/// A host value. A number is held as the bit pattern of its IEEE 754 double;
/// an object as its properties in the order in which they were first set.
#[derive(Debug, PartialEq, Eq)]
pub enum HostValue {
    Undefined,
    Boolean(bool),
    Number(u64),
    String(String),
    Array(Vec<HostValue>),
    Object(Vec<(String, HostValue)>),
}

/// The mathematical value of a host value.
pub ghost enum Host {
    Undefined,
    Boolean(bool),
    Number(u64),
    Text(Seq<char>),
    Array(Seq<Host>),
    Object(Seq<(Seq<char>, Host)>),
}

/// The mathematical value of a host value.
pub open spec fn host_of(value: HostValue) -> Host
    decreases value,
{
    match value {
        HostValue::Undefined => Host::Undefined,
        HostValue::Boolean(b) => Host::Boolean(b),
        HostValue::Number(bits) => Host::Number(bits),
        HostValue::String(text) => Host::Text(text@),
        HostValue::Array(items) => Host::Array(
            Seq::new(
                items@.len(),
                |i: int|
                    if 0 <= i < items@.len() {
                        host_of(items@[i])
                    } else {
                        Host::Undefined
                    },
            ),
        ),
        HostValue::Object(props) => Host::Object(
            Seq::new(
                props@.len(),
                |i: int|
                    if 0 <= i < props@.len() {
                        (props@[i].0@, host_of(props@[i].1))
                    } else {
                        (Seq::empty(), Host::Undefined)
                    },
            ),
        ),
    }
}

impl View for HostValue {
    type V = Host;

    open spec fn view(&self) -> Host {
        host_of(*self)
    }
}

/// The tag of a host value.
pub open spec fn tag_of(value: Host) -> HostTag {
    match value {
        Host::Undefined => HostTag::Undefined,
        Host::Boolean(_) => HostTag::Boolean,
        Host::Number(_) => HostTag::Number,
        Host::Text(_) => HostTag::String,
        Host::Array(_) => HostTag::Array,
        Host::Object(_) => HostTag::Object,
    }
}

/// Whether a host value has the representation that `expected` asks for.
pub open spec fn is_a(value: Host, expected: HostTag) -> bool {
    expected == HostTag::Any || tag_of(value) == expected
}

impl HostValue {
    /// The runtime tag of the value.
    pub fn tag(&self) -> (tag: HostTag)
        ensures
            tag == tag_of(self@),
    {
        match self {
            HostValue::Undefined => HostTag::Undefined,
            HostValue::Boolean(_) => HostTag::Boolean,
            HostValue::Number(_) => HostTag::Number,
            HostValue::String(_) => HostTag::String,
            HostValue::Array(_) => HostTag::Array,
            HostValue::Object(_) => HostTag::Object,
        }
    }

    /// Whether the value has the representation that `expected` asks for.
    pub fn is_a(&self, expected: HostTag) -> (matches: bool)
        ensures
            matches == is_a(self@, expected),
    {
        expected == HostTag::Any || self.tag() == expected
    }
}

} // verus!
