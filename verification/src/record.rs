//! Composite records: a record crosses to the host as an object with one
//! property per field, named as the field is. The conversion of a record
//! type sets, and reads back, its fields one by one with the two functions
//! of this file.

use crate::host::{host_of, Host, HostValue};
use crate::text::same_text;
use crate::transfer::{TransferError, Transferable};
use vstd::prelude::*;
use vstd::string::StringExecFns;

verus! {

/// The properties of a host object, as mathematical values.
pub open spec fn properties_of(props: Seq<(String, HostValue)>) -> Seq<(Seq<char>, Host)> {
    Seq::new(props.len(), |i: int| (props[i].0@, host_of(props[i].1)))
}

/// Whether the property at `index` is the first one named `name`.
pub open spec fn first_named(props: Seq<(Seq<char>, Host)>, name: Seq<char>, index: int) -> bool {
    &&& 0 <= index < props.len()
    &&& props[index].0 == name
    &&& forall|j: int| 0 <= j < index ==> (#[trigger] props[j]).0 != name
}

/// Whether a property is named `name`.
pub open spec fn has_property(props: Seq<(Seq<char>, Host)>, name: Seq<char>) -> bool {
    exists|index: int| first_named(props, name, index)
}

/// The position of the first property named `name`.
pub open spec fn position(props: Seq<(Seq<char>, Host)>, name: Seq<char>) -> int {
    choose|index: int| first_named(props, name, index)
}

/// The value of the property `name`; the host's `undefined` where the
/// object has no such property.
pub open spec fn lookup(props: Seq<(Seq<char>, Host)>, name: Seq<char>) -> Host {
    if has_property(props, name) {
        props[position(props, name)].1
    } else {
        Host::Undefined
    }
}

/// The properties after `name` was set to `value`: the property is replaced
/// where it stands, or added at the end.
pub open spec fn assigned(props: Seq<(Seq<char>, Host)>, name: Seq<char>, value: Host) -> Seq<
    (Seq<char>, Host),
> {
    if has_property(props, name) {
        props.update(position(props, name), (name, value))
    } else {
        props.push((name, value))
    }
}

/// The first property named `name` stands at one position only.
pub proof fn lemma_position(props: Seq<(Seq<char>, Host)>, name: Seq<char>, index: int)
    requires
        first_named(props, name, index),
    ensures
        has_property(props, name),
        position(props, name) == index,
{
    let chosen = position(props, name);
    assert(first_named(props, name, chosen));
    if chosen < index {
        assert(props[chosen].0 != name);
    } else if index < chosen {
        assert(props[index].0 != name);
    }
}

/// A property that was set is the one that is read.
pub proof fn lemma_lookup_assigned(props: Seq<(Seq<char>, Host)>, name: Seq<char>, value: Host)
    ensures
        lookup(assigned(props, name, value), name) == value,
{
    let after = assigned(props, name, value);
    if has_property(props, name) {
        let index = position(props, name);
        assert(first_named(props, name, index));
        assert forall|j: int| 0 <= j < index implies (#[trigger] after[j]).0 != name by {
            assert(props[j].0 != name);
        }
        lemma_position(after, name, index);
    } else {
        let index = props.len() as int;
        assert forall|j: int| 0 <= j < index implies (#[trigger] after[j]).0 != name by {
            if props[j].0 == name {
                lemma_first_exists(props, name, j);
            }
        }
        lemma_position(after, name, index);
    }
}

/// Where some property is named `name`, there is a first one.
pub proof fn lemma_first_exists(props: Seq<(Seq<char>, Host)>, name: Seq<char>, index: int)
    requires
        0 <= index < props.len(),
        props[index].0 == name,
    ensures
        has_property(props, name),
    decreases index,
{
    if forall|j: int| 0 <= j < index ==> (#[trigger] props[j]).0 != name {
        assert(first_named(props, name, index));
    } else {
        let j = choose|j: int| 0 <= j < index && (#[trigger] props[j]).0 == name;
        lemma_first_exists(props, name, j);
    }
}

/// Setting one property moves no other: a property of another name keeps
/// its name and value at every position, so it is read as before.
pub proof fn lemma_lookup_other(
    props: Seq<(Seq<char>, Host)>,
    name: Seq<char>,
    value: Host,
    other: Seq<char>,
)
    requires
        other != name,
    ensures
        lookup(assigned(props, name, value), other) == lookup(props, other),
        has_property(assigned(props, name, value), other) == has_property(props, other),
{
    let after = assigned(props, name, value);
    if has_property(props, name) {
        assert(first_named(props, name, position(props, name)));
    }
    assert forall|j: int| 0 <= j < props.len() implies (#[trigger] after[j]).0 == props[j].0 by {}
    if has_property(props, other) {
        let index = position(props, other);
        assert(first_named(props, other, index));
        assert(after[index] == props[index]);
        assert forall|j: int| 0 <= j < index implies (#[trigger] after[j]).0 != other by {
            assert(props[j].0 != other);
        }
        lemma_position(after, other, index);
    } else {
        assert forall|k: int| !first_named(after, other, k) by {
            if first_named(after, other, k) {
                if k < props.len() {
                    assert(after[k].0 == props[k].0);
                    lemma_first_exists(props, other, k);
                }
            }
        }
    }
}

/// The position of the first property named `name`, if there is one.
fn find_property(props: &Vec<(String, HostValue)>, name: &str) -> (found: Option<usize>)
    ensures
        match found {
            Some(index) => first_named(properties_of(props@), name@, index as int),
            None => !has_property(properties_of(props@), name@),
        },
{
    let ghost model = properties_of(props@);
    let mut i: usize = 0;
    while i < props.len()
        invariant
            i <= props.len(),
            model == properties_of(props@),
            forall|j: int| 0 <= j < i ==> (#[trigger] model[j]).0 != name@,
        decreases props.len() - i,
    {
        if same_text(props[i].0.as_str(), name) {
            assert(model[i as int].0 == name@);
            return Some(i);
        }
        i = i + 1;
    }
    assert forall|index: int| !first_named(model, name@, index) by {
        if 0 <= index < model.len() {
            assert(model[index].0 != name@);
        }
    }
    None
}

/// Sets the property `name` of the object under construction to the host
/// value of `value`. Fails, and leaves the properties as they are, where
/// `value` has no host value.
pub fn encode_field<T: Transferable>(
    props: &mut Vec<(String, HostValue)>,
    name: &str,
    value: &T,
) -> (done: Result<(), TransferError>)
    ensures
        done is Err ==> final(props)@ == old(props)@,
        done is Ok ==> exists|host: Host|
            properties_of(final(props)@) == #[trigger] assigned(
                properties_of(old(props)@),
                name@,
                host,
            ),
        T::specified() ==> match T::encoding(value.model()) {
            Some(host) => done is Ok && properties_of(final(props)@) == assigned(
                properties_of(old(props)@),
                name@,
                host,
            ),
            None => done is Err,
        },
{
    let host = match value.to_js() {
        Ok(host) => host,
        Err(error) => { return Err(error); },
    };
    let ghost before = properties_of(props@);
    let ghost encoded = host@;
    match find_property(props, name) {
        Some(index) => {
            proof {
                lemma_position(before, name@, index as int);
            }
            props.set(index, (String::from_str(name), host));
            assert(properties_of(props@) =~= before.update(index as int, (name@, encoded)));
            assert(properties_of(props@) == assigned(before, name@, encoded));
        },
        None => {
            props.push((String::from_str(name), host));
            assert(properties_of(props@) =~= before.push((name@, encoded)));
            assert(properties_of(props@) == assigned(before, name@, encoded));
        },
    }
    Ok(())
}

/// Reads the property `name` of a host object as a native value of type
/// `T`. A property that the object does not have reads as the host's
/// `undefined`. Fails where `object` is no object, and where `T` does not
/// decode the property.
pub fn decode_field<T: Transferable>(object: &HostValue, name: &str) -> (native: Result<
    T,
    TransferError,
>)
    ensures
        !(object@ is Object) ==> native == Err::<T, TransferError>(TransferError::TagMismatch),
        T::specified() ==> match object@ {
            Host::Object(props) => match T::decoding(lookup(props, name@)) {
                Some(value) => native matches Ok(field) && field.model() == value,
                None => native is Err,
            },
            _ => native is Err,
        },
{
    let props = match object {
        HostValue::Object(props) => props,
        _ => { return Err(TransferError::TagMismatch); },
    };
    assert(object@->Object_0 =~= properties_of(props@));
    match find_property(props, name) {
        Some(index) => {
            proof {
                lemma_position(properties_of(props@), name@, index as int);
            }
            T::from_js(&props[index].1)
        },
        None => T::from_js(&HostValue::Undefined),
    }
}

} // verus!
