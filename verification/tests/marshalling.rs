use bondage::host::{HostTag, HostValue};
use bondage::record::{decode_field, encode_field};
use bondage::transfer::{Number, TransferError, Transferable};

fn text(value: &str) -> HostValue {
    HostValue::String(value.to_string())
}

fn number(value: f64) -> HostValue {
    HostValue::Number(value.to_bits())
}

#[test]
fn primitives_round_trip() {
    let s = "héllo".to_string();
    assert_eq!(s.to_js(), Ok(text("héllo")));
    assert_eq!(String::from_js(&s.to_js().unwrap()), Ok(s));
    for b in [true, false] {
        assert_eq!(b.to_js(), Ok(HostValue::Boolean(b)));
        assert_eq!(bool::from_js(&b.to_js().unwrap()), Ok(b));
    }
    for x in [0.0f64, -1.5, 1e300, f64::INFINITY] {
        let n = Number { bits: x.to_bits() };
        assert_eq!(n.to_js(), Ok(number(x)));
        let back = Number::from_js(&n.to_js().unwrap()).unwrap();
        assert_eq!(f64::from_bits(back.bits), x);
    }
    let nan = Number { bits: f64::NAN.to_bits() };
    assert_eq!(Number::from_js(&nan.to_js().unwrap()), Ok(nan));
}

#[test]
fn host_tags_of_the_built_in_types() {
    assert_eq!(String::host_tag(), HostTag::String);
    assert_eq!(bool::host_tag(), HostTag::Boolean);
    assert_eq!(Number::host_tag(), HostTag::Number);
    assert_eq!(Vec::<bool>::host_tag(), HostTag::Array);
    assert_eq!(Option::<bool>::host_tag(), HostTag::Any);
}

#[test]
fn tags_of_host_values() {
    assert_eq!(HostValue::Undefined.tag(), HostTag::Undefined);
    assert_eq!(HostValue::Boolean(true).tag(), HostTag::Boolean);
    assert_eq!(number(1.0).tag(), HostTag::Number);
    assert_eq!(text("a").tag(), HostTag::String);
    assert_eq!(HostValue::Array(vec![]).tag(), HostTag::Array);
    assert_eq!(HostValue::Object(vec![]).tag(), HostTag::Object);
    assert!(text("a").is_a(HostTag::Any));
    assert!(text("a").is_a(HostTag::String));
    assert!(!text("a").is_a(HostTag::Number));
    assert!(!HostValue::Array(vec![]).is_a(HostTag::Object));
}

#[test]
fn primitives_reject_a_wrong_tag() {
    assert_eq!(String::from_js(&number(1.0)), Err(TransferError::TagMismatch));
    assert_eq!(bool::from_js(&text("true")), Err(TransferError::TagMismatch));
    assert_eq!(Number::from_js(&HostValue::Undefined), Err(TransferError::TagMismatch));
    assert_eq!(Vec::<bool>::from_js(&HostValue::Object(vec![])), Err(TransferError::TagMismatch));
}

#[test]
fn optional_values_round_trip() {
    let present = Some("x".to_string());
    assert_eq!(present.to_js(), Ok(text("x")));
    assert_eq!(Option::<String>::from_js(&present.to_js().unwrap()), Ok(present));
    let absent: Option<String> = None;
    assert_eq!(absent.to_js(), Ok(HostValue::Undefined));
    assert_eq!(Option::<String>::from_js(&absent.to_js().unwrap()), Ok(absent));
    let nested: Option<Option<bool>> = Some(None);
    assert_eq!(Option::<Option<bool>>::from_js(&nested.to_js().unwrap()), Ok(nested));
}

#[test]
fn absent_optional_of_optional_comes_back_present() {
    let absent: Option<Option<bool>> = None;
    assert_eq!(absent.to_js(), Ok(HostValue::Undefined));
    assert_eq!(Option::<Option<bool>>::from_js(&HostValue::Undefined), Ok(Some(None)));
}

#[test]
fn optional_treats_a_wrong_tag_as_absent() {
    assert_eq!(Option::<String>::from_js(&number(3.0)), Ok(None));
    assert_eq!(Option::<bool>::from_js(&text("true")), Ok(None));
    assert_eq!(Option::<Number>::from_js(&number(3.0)), Ok(Some(Number { bits: 3.0f64.to_bits() })));
}

#[test]
fn sequences_round_trip() {
    let values = vec!["a".to_string(), "b".to_string(), "c".to_string()];
    assert_eq!(values.to_js(), Ok(HostValue::Array(vec![text("a"), text("b"), text("c")])));
    assert_eq!(Vec::<String>::from_js(&values.to_js().unwrap()), Ok(values));
    let empty: Vec<bool> = vec![];
    assert_eq!(empty.to_js(), Ok(HostValue::Array(vec![])));
    assert_eq!(Vec::<bool>::from_js(&HostValue::Array(vec![])), Ok(empty));
    let nested = vec![vec![true], vec![], vec![false, true]];
    assert_eq!(Vec::<Vec<bool>>::from_js(&nested.to_js().unwrap()), Ok(nested));
    let optional = vec![Some(true), None, Some(false)];
    assert_eq!(
        optional.to_js(),
        Ok(HostValue::Array(vec![HostValue::Boolean(true), HostValue::Undefined, HostValue::Boolean(false)]))
    );
    assert_eq!(Vec::<Option<bool>>::from_js(&optional.to_js().unwrap()), Ok(optional));
}

#[test]
fn sequence_drops_the_element_with_a_wrong_tag() {
    let host = HostValue::Array(vec![text("a"), number(2.0), text("c"), text("d")]);
    assert_eq!(
        Vec::<String>::from_js(&host),
        Ok(vec!["a".to_string(), "c".to_string(), "d".to_string()])
    );
    let all_wrong = HostValue::Array(vec![number(1.0), HostValue::Undefined]);
    assert_eq!(Vec::<String>::from_js(&all_wrong), Ok(vec![]));
}

struct Unencodable;

impl Transferable for Unencodable {
    fn host_tag() -> HostTag {
        HostTag::Object
    }

    fn to_js(&self) -> Result<HostValue, TransferError> {
        Err(TransferError::Malformed)
    }

    fn from_js(_: &HostValue) -> Result<Self, TransferError> {
        Err(TransferError::Malformed)
    }
}

#[test]
fn sequence_puts_undefined_for_an_element_without_encoding() {
    let values = vec![Unencodable, Unencodable];
    assert_eq!(values.to_js(), Ok(HostValue::Array(vec![HostValue::Undefined, HostValue::Undefined])));
    let host = HostValue::Array(vec![HostValue::Object(vec![]), HostValue::Object(vec![])]);
    assert_eq!(Vec::<Unencodable>::from_js(&host).map(|v| v.len()), Ok(0));
    assert!(Some(Unencodable).to_js().is_err());
}

#[derive(Debug, PartialEq)]
struct Player {
    name: String,
    alive: bool,
    nick: Option<String>,
}

impl Transferable for Player {
    fn host_tag() -> HostTag {
        HostTag::Object
    }

    fn to_js(&self) -> Result<HostValue, TransferError> {
        let mut props = Vec::new();
        encode_field(&mut props, "name", &self.name)?;
        encode_field(&mut props, "alive", &self.alive)?;
        encode_field(&mut props, "nick", &self.nick)?;
        Ok(HostValue::Object(props))
    }

    fn from_js(host: &HostValue) -> Result<Self, TransferError> {
        Ok(Player {
            name: decode_field(host, "name")?,
            alive: decode_field(host, "alive")?,
            nick: decode_field(host, "nick")?,
        })
    }
}

#[test]
fn record_sets_one_property_per_field_in_order() {
    let player = Player { name: "ann".to_string(), alive: true, nick: None };
    let host = player.to_js().unwrap();
    assert_eq!(
        host,
        HostValue::Object(vec![
            ("name".to_string(), text("ann")),
            ("alive".to_string(), HostValue::Boolean(true)),
            ("nick".to_string(), HostValue::Undefined),
        ])
    );
    assert_eq!(Player::from_js(&host), Ok(player));
}

#[test]
fn record_needs_every_field_present_and_decodable() {
    let missing = HostValue::Object(vec![("name".to_string(), text("ann"))]);
    assert_eq!(Player::from_js(&missing), Err(TransferError::TagMismatch));
    let wrong = HostValue::Object(vec![
        ("name".to_string(), number(1.0)),
        ("alive".to_string(), HostValue::Boolean(true)),
    ]);
    assert_eq!(Player::from_js(&wrong), Err(TransferError::TagMismatch));
    let without_optional = HostValue::Object(vec![
        ("name".to_string(), text("bob")),
        ("alive".to_string(), HostValue::Boolean(false)),
    ]);
    assert_eq!(
        Player::from_js(&without_optional),
        Ok(Player { name: "bob".to_string(), alive: false, nick: None })
    );
    assert_eq!(Player::from_js(&text("ann")), Err(TransferError::TagMismatch));
}

#[test]
fn setting_a_property_again_replaces_it_in_place() {
    let mut props = Vec::new();
    encode_field(&mut props, "a", &true).unwrap();
    encode_field(&mut props, "b", &false).unwrap();
    encode_field(&mut props, "a", &"x".to_string()).unwrap();
    assert_eq!(
        props,
        vec![("a".to_string(), text("x")), ("b".to_string(), HostValue::Boolean(false))]
    );
    assert_eq!(encode_field(&mut props, "c", &Unencodable), Err(TransferError::Malformed));
    assert_eq!(props.len(), 2);
    let object = HostValue::Object(props);
    assert_eq!(decode_field::<String>(&object, "a"), Ok("x".to_string()));
    assert_eq!(decode_field::<bool>(&object, "b"), Ok(false));
    assert_eq!(decode_field::<Option<bool>>(&object, "zzz"), Ok(None));
}

#[test]
fn sequences_of_records_drop_what_is_no_record() {
    let ann = Player { name: "ann".to_string(), alive: true, nick: Some("a".to_string()) };
    let host = HostValue::Array(vec![ann.to_js().unwrap(), text("nobody"), HostValue::Object(vec![])]);
    assert_eq!(Vec::<Player>::from_js(&host), Ok(vec![ann]));
}
