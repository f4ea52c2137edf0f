//! The marshalling contract: how a native value becomes a host value and
//! back, for text, booleans, numbers, optional values and sequences.

use crate::host::{is_a, Host, HostTag, HostValue};
use vstd::prelude::*;

verus! {

/// Why a host value was not converted.
#[derive(Debug, Clone, Copy, PartialEq, Eq, Structural)]
pub enum TransferError {
    /// The host value's tag is not the one that the native type expects.
    TagMismatch,
    /// A part of the value could not be converted.
    Malformed,
}

/// The mathematical value of a native value that crosses to the host.
pub ghost enum Native {
    Text(Seq<char>),
    Boolean(bool),
    Number(u64),
    /// An optional value that is absent.
    Absent,
    /// An optional value that is present.
    Present(Box<Native>),
    Sequence(Seq<Native>),
    /// A value of a type that does not state its conversion.
    Opaque,
}

/// A native type whose values cross to the host and back.
///
/// A type that states its conversion says so in `specified`, gives its
/// values a `model`, and says in `encoding` and `decoding` what the two
/// conversions compute. The contracts of `to_js` and `from_js` bind such
/// types only; of the other types nothing is claimed.
pub trait Transferable: Sized {
    /// Whether this type states its conversion.
    open spec fn specified() -> bool {
        false
    }

    /// The tag of the host values that stand for this type.
    open spec fn js_form() -> HostTag {
        HostTag::Any
    }

    /// The mathematical value of a native value.
    open spec fn model(&self) -> Native {
        Native::Opaque
    }

    /// The host value for a native value; `None` where it has none.
    open spec fn encoding(value: Native) -> Option<Host> {
        None
    }

    /// The native value for a host value; `None` where it has none.
    open spec fn decoding(host: Host) -> Option<Native> {
        None
    }

    /// The tag of the host values that stand for this type.
    fn host_tag() -> (tag: HostTag)
        ensures
            Self::specified() ==> tag == Self::js_form(),
    ;

    /// Converts the native value to its host value.
    fn to_js(&self) -> (host: Result<HostValue, TransferError>)
        ensures
            Self::specified() ==> match host {
                Ok(value) => Self::encoding(self.model()) == Some(value@),
                Err(_) => Self::encoding(self.model()) is None,
            },
    ;

    /// Converts a host value to the native value. Fails where the host value
    /// does not have the representation that this type expects.
    fn from_js(host: &HostValue) -> (native: Result<Self, TransferError>)
        ensures
            Self::specified() ==> match native {
                Ok(value) => Self::decoding(host@) == Some(value.model()),
                Err(_) => Self::decoding(host@) is None,
            },
    ;
}

impl Transferable for String {
    open spec fn specified() -> bool {
        true
    }

    open spec fn js_form() -> HostTag {
        HostTag::String
    }

    open spec fn model(&self) -> Native {
        Native::Text(self@)
    }

    open spec fn encoding(value: Native) -> Option<Host> {
        match value {
            Native::Text(text) => Some(Host::Text(text)),
            _ => None,
        }
    }

    open spec fn decoding(host: Host) -> Option<Native> {
        match host {
            Host::Text(text) => Some(Native::Text(text)),
            _ => None,
        }
    }

    fn host_tag() -> (tag: HostTag) {
        HostTag::String
    }

    fn to_js(&self) -> (host: Result<HostValue, TransferError>) {
        Ok(HostValue::String(self.clone()))
    }

    fn from_js(host: &HostValue) -> (native: Result<Self, TransferError>) {
        match host {
            HostValue::String(text) => Ok(text.clone()),
            _ => Err(TransferError::TagMismatch),
        }
    }
}

impl Transferable for bool {
    open spec fn specified() -> bool {
        true
    }

    open spec fn js_form() -> HostTag {
        HostTag::Boolean
    }

    open spec fn model(&self) -> Native {
        Native::Boolean(*self)
    }

    open spec fn encoding(value: Native) -> Option<Host> {
        match value {
            Native::Boolean(b) => Some(Host::Boolean(b)),
            _ => None,
        }
    }

    open spec fn decoding(host: Host) -> Option<Native> {
        match host {
            Host::Boolean(b) => Some(Native::Boolean(b)),
            _ => None,
        }
    }

    fn host_tag() -> (tag: HostTag) {
        HostTag::Boolean
    }

    fn to_js(&self) -> (host: Result<HostValue, TransferError>) {
        Ok(HostValue::Boolean(*self))
    }

    fn from_js(host: &HostValue) -> (native: Result<Self, TransferError>) {
        match host {
            HostValue::Boolean(b) => Ok(*b),
            _ => Err(TransferError::TagMismatch),
        }
    }
}

/// A host number, held as the bit pattern of its IEEE 754 double.
#[derive(Debug, Clone, Copy, PartialEq, Eq, Structural)]
pub struct Number {
    pub bits: u64,
}

impl Transferable for Number {
    open spec fn specified() -> bool {
        true
    }

    open spec fn js_form() -> HostTag {
        HostTag::Number
    }

    open spec fn model(&self) -> Native {
        Native::Number(self.bits)
    }

    open spec fn encoding(value: Native) -> Option<Host> {
        match value {
            Native::Number(bits) => Some(Host::Number(bits)),
            _ => None,
        }
    }

    open spec fn decoding(host: Host) -> Option<Native> {
        match host {
            Host::Number(bits) => Some(Native::Number(bits)),
            _ => None,
        }
    }

    fn host_tag() -> (tag: HostTag) {
        HostTag::Number
    }

    fn to_js(&self) -> (host: Result<HostValue, TransferError>) {
        Ok(HostValue::Number(self.bits))
    }

    fn from_js(host: &HostValue) -> (native: Result<Self, TransferError>) {
        match host {
            HostValue::Number(bits) => Ok(Number { bits: *bits }),
            _ => Err(TransferError::TagMismatch),
        }
    }
}

impl<T: Transferable> Transferable for Option<T> {
    open spec fn specified() -> bool {
        T::specified()
    }

    open spec fn js_form() -> HostTag {
        HostTag::Any
    }

    open spec fn model(&self) -> Native {
        match self {
            Some(inner) => Native::Present(Box::new(inner.model())),
            None => Native::Absent,
        }
    }

    /// A present value has the encoding of the value; an absent one is the
    /// host's `undefined`.
    open spec fn encoding(value: Native) -> Option<Host> {
        match value {
            Native::Present(inner) => T::encoding(*inner),
            Native::Absent => Some(Host::Undefined),
            _ => None,
        }
    }

    /// A host value with the tag that `T` expects is decoded as a present
    /// value; every other host value is an absent one.
    open spec fn decoding(host: Host) -> Option<Native> {
        if is_a(host, T::js_form()) {
            match T::decoding(host) {
                Some(inner) => Some(Native::Present(Box::new(inner))),
                None => None,
            }
        } else {
            Some(Native::Absent)
        }
    }

    fn host_tag() -> (tag: HostTag) {
        HostTag::Any
    }

    fn to_js(&self) -> (host: Result<HostValue, TransferError>) {
        match self {
            Some(value) => value.to_js(),
            None => Ok(HostValue::Undefined),
        }
    }

    fn from_js(host: &HostValue) -> (native: Result<Self, TransferError>) {
        if !host.is_a(T::host_tag()) {
            return Ok(None);
        }
        match T::from_js(host) {
            Ok(value) => Ok(Some(value)),
            Err(error) => Err(error),
        }
    }
}

/// The host value that stands for an element of a sequence: its encoding
/// or, where it has none, the host's `undefined`.
pub open spec fn element_encoding<T: Transferable>(value: Native) -> Host {
    match T::encoding(value) {
        Some(host) => host,
        None => Host::Undefined,
    }
}

/// Whether an element of a host collection is kept when the collection is
/// decoded as a sequence of `T`: it has the tag that `T` expects and `T`
/// decodes it.
pub open spec fn keeps<T: Transferable>(host: Host) -> bool {
    is_a(host, T::js_form()) && T::decoding(host) is Some
}

/// The native values of the elements of a host collection that are kept, in
/// their order.
pub open spec fn kept<T: Transferable>(items: Seq<Host>) -> Seq<Native>
    decreases items.len(),
{
    if items.len() == 0 {
        Seq::empty()
    } else if keeps::<T>(items.last()) {
        kept::<T>(items.drop_last()).push(T::decoding(items.last())->0)
    } else {
        kept::<T>(items.drop_last())
    }
}

/// The mathematical values of the elements of a sequence.
pub open spec fn models<T: Transferable>(values: Seq<T>) -> Seq<Native> {
    values.map_values(|value: T| value.model())
}

impl<T: Transferable> Transferable for Vec<T> {
    open spec fn specified() -> bool {
        T::specified()
    }

    open spec fn js_form() -> HostTag {
        HostTag::Array
    }

    open spec fn model(&self) -> Native {
        Native::Sequence(models(self@))
    }

    /// A sequence becomes a host collection of the same length; an element
    /// without encoding becomes `undefined`.
    open spec fn encoding(value: Native) -> Option<Host> {
        match value {
            Native::Sequence(elements) => Some(
                Host::Array(
                    elements.map_values(|element: Native| element_encoding::<T>(element)),
                ),
            ),
            _ => None,
        }
    }

    /// A host collection becomes the sequence of its elements that are
    /// kept; the others are dropped.
    open spec fn decoding(host: Host) -> Option<Native> {
        match host {
            Host::Array(items) => Some(Native::Sequence(kept::<T>(items))),
            _ => None,
        }
    }

    fn host_tag() -> (tag: HostTag) {
        HostTag::Array
    }

    fn to_js(&self) -> (host: Result<HostValue, TransferError>) {
        let mut items: Vec<HostValue> = Vec::new();
        let mut i: usize = 0;
        while i < self.len()
            invariant
                i <= self.len(),
                items@.len() == i,
                T::specified() ==> forall|k: int|
                    0 <= k < i ==> (#[trigger] items@[k])@ == element_encoding::<T>(
                        self@[k].model(),
                    ),
            decreases self.len() - i,
        {
            let item = match self[i].to_js() {
                Ok(value) => value,
                Err(_) => HostValue::Undefined,
            };
            items.push(item);
            i = i + 1;
        }
        let value = HostValue::Array(items);
        proof {
            if T::specified() {
                let expected = models(self@).map_values(
                    |element: Native| element_encoding::<T>(element),
                );
                assert(value@->Array_0 =~= expected);
            }
        }
        Ok(value)
    }

    fn from_js(host: &HostValue) -> (native: Result<Self, TransferError>) {
        let items = match host {
            HostValue::Array(items) => items,
            _ => { return Err(TransferError::TagMismatch); },
        };
        let ghost hosts = host@->Array_0;
        let mut out: Vec<T> = Vec::new();
        let mut i: usize = 0;
        assert(models(out@) =~= kept::<T>(hosts.take(0)));
        while i < items.len()
            invariant
                i <= items.len(),
                hosts.len() == items@.len(),
                forall|k: int| 0 <= k < items@.len() ==> hosts[k] == (#[trigger] items@[k])@,
                T::specified() ==> models(out@) == kept::<T>(hosts.take(i as int)),
            decreases items.len() - i,
        {
            let ghost before = models(out@);
            assert(hosts.take(i + 1).drop_last() == hosts.take(i as int));
            assert(hosts.take(i + 1).last() == items@[i as int]@);
            let item = &items[i];
            if item.is_a(T::host_tag()) {
                match T::from_js(item) {
                    Ok(value) => {
                        let ghost element = value.model();
                        out.push(value);
                        assert(models(out@) =~= before.push(element));
                    },
                    Err(_) => {},
                }
            }
            i = i + 1;
        }
        assert(hosts.take(items.len() as int) == hosts);
        Ok(out)
    }
}

/// Whether the native value `value` of type `T` crosses to the host and
/// back unchanged: it has an encoding, the encoding has the tag that `T`
/// expects, and `T` decodes it to `value`.
pub open spec fn round_trips<T: Transferable>(value: Native) -> bool {
    &&& T::encoding(value) matches Some(host)
    &&& is_a(host, T::js_form())
    &&& T::decoding(host) == Some(value)
}

/// Text crosses to the host and back unchanged.
pub proof fn lemma_text_round_trip(value: String)
    ensures
        round_trips::<String>(value.model()),
{
}

/// A boolean crosses to the host and back unchanged.
pub proof fn lemma_boolean_round_trip(value: bool)
    ensures
        round_trips::<bool>(value.model()),
{
}

/// A number crosses to the host and back unchanged, bit for bit.
pub proof fn lemma_number_round_trip(value: Number)
    ensures
        round_trips::<Number>(value.model()),
{
}

/// A present optional value crosses to the host and back unchanged where
/// the value inside does. An absent one does where `T` does not expect the
/// tag of the host's `undefined`.
pub proof fn lemma_option_round_trip<T: Transferable>(value: Option<T>)
    requires
        value matches Some(inner) ==> round_trips::<T>(inner.model()),
        value is None ==> !is_a(Host::Undefined, T::js_form()),
    ensures
        round_trips::<Option<T>>(value.model()),
{
}

/// Where every element is kept, the decoded sequence holds the native value
/// of every element.
pub proof fn lemma_kept_all<T: Transferable>(items: Seq<Host>)
    requires
        forall|i: int| 0 <= i < items.len() ==> keeps::<T>(#[trigger] items[i]),
    ensures
        kept::<T>(items) == items.map_values(|host: Host| T::decoding(host)->0),
    decreases items.len(),
{
    if items.len() > 0 {
        let init = items.drop_last();
        assert forall|i: int| 0 <= i < init.len() implies keeps::<T>(#[trigger] init[i]) by {
            assert(init[i] == items[i]);
        }
        lemma_kept_all::<T>(init);
        assert(keeps::<T>(items[items.len() - 1]));
        assert(kept::<T>(items) =~= items.map_values(|host: Host| T::decoding(host)->0));
    } else {
        assert(kept::<T>(items) =~= items.map_values(|host: Host| T::decoding(host)->0));
    }
}

/// An element that is not kept could as well be missing.
pub proof fn lemma_kept_skips<T: Transferable>(items: Seq<Host>, k: int)
    requires
        0 <= k < items.len(),
        !keeps::<T>(items[k]),
    ensures
        kept::<T>(items) == kept::<T>(items.remove(k)),
    decreases items.len(),
{
    if k == items.len() - 1 {
        assert(items.remove(k) == items.drop_last());
    } else {
        let init = items.drop_last();
        assert(init[k] == items[k]);
        lemma_kept_skips::<T>(init, k);
        assert(items.remove(k).drop_last() == init.remove(k));
        assert(items.remove(k).last() == items.last());
    }
}

/// A sequence whose elements all cross to the host and back unchanged does
/// so itself.
pub proof fn lemma_vec_round_trip<T: Transferable>(value: Vec<T>)
    requires
        forall|i: int| 0 <= i < value@.len() ==> round_trips::<T>((#[trigger] value@[i]).model()),
    ensures
        round_trips::<Vec<T>>(value.model()),
{
    let elements = models(value@);
    let items = elements.map_values(|element: Native| element_encoding::<T>(element));
    assert forall|i: int| 0 <= i < items.len() implies keeps::<T>(#[trigger] items[i]) by {
        assert(round_trips::<T>(value@[i].model()));
    }
    lemma_kept_all::<T>(items);
    assert forall|i: int| 0 <= i < items.len() implies T::decoding(#[trigger] items[i])->0
        == elements[i] by {
        assert(round_trips::<T>(value@[i].model()));
    }
    assert(items.map_values(|host: Host| T::decoding(host)->0) =~= elements);
}

/// Lossy decoding: a host collection with one element whose tag is not the
/// one that `T` expects, and whose other elements are all kept, decodes to a
/// sequence that is one element shorter and holds the native values of the
/// other elements in their order.
pub proof fn lemma_lossy_decode<T: Transferable>(items: Seq<Host>, k: int)
    requires
        0 <= k < items.len(),
        !is_a(items[k], T::js_form()),
        forall|i: int| 0 <= i < items.len() && i != k ==> keeps::<T>(#[trigger] items[i]),
    ensures
        Vec::<T>::decoding(Host::Array(items)) matches Some(Native::Sequence(decoded)) && {
            &&& decoded.len() == items.len() - 1
            &&& decoded == items.remove(k).map_values(|host: Host| T::decoding(host)->0)
        },
{
    lemma_kept_skips::<T>(items, k);
    let rest = items.remove(k);
    assert forall|i: int| 0 <= i < rest.len() implies keeps::<T>(#[trigger] rest[i]) by {
        if i < k {
            assert(rest[i] == items[i]);
        } else {
            assert(rest[i] == items[i + 1]);
        }
    }
    lemma_kept_all::<T>(rest);
}

} // verus!
