use formation::codec::{decode_hex, encode_hex, HexError};
use formation::instance::Instance;
use formation::keys::{signing_key_bytes, KeyError};
use formation::model::IpAddr;
use formation::state::{
    get_instance_by_ip, get_instances_by_build_id, instance_op, instance_op_success, stored_instance,
    update_instance_local, InstanceNotFound, MapOp, RegisterReading,
};

fn instance(id: &str, build: &str, ip: Option<IpAddr>) -> Instance {
    let mut i = Instance::default();
    i.instance_id = id.to_string();
    i.build_id = build.to_string();
    i.formnet_ip = ip;
    i
}

fn reading(value: Option<Instance>, in_history: bool, is_head: bool, is_orphaned: bool) -> Option<RegisterReading> {
    Some(RegisterReading { value, update_in_history: in_history, update_is_head: is_head, update_is_orphaned: is_orphaned })
}

#[test]
fn update_succeeds_when_register_holds_its_value() {
    let (ok, v) = instance_op_success(reading(Some(instance("a", "b1", None)), false, false, false), instance("a", "b1", None));
    assert!(ok);
    assert_eq!(v.instance_id, "a");
}

#[test]
fn update_succeeds_as_head_of_history() {
    let (ok, v) = instance_op_success(reading(Some(instance("a", "b1", None)), true, true, false), instance("a", "b2", None));
    assert!(ok);
    assert_eq!(v.build_id, "b1");
    let (ok, _) = instance_op_success(reading(Some(instance("a", "b1", None)), true, false, false), instance("a", "b2", None));
    assert!(!ok);
}

#[test]
fn update_succeeds_when_orphaned() {
    let (ok, v) = instance_op_success(reading(Some(instance("a", "b1", None)), false, false, true), instance("a", "b2", None));
    assert!(ok);
    assert_eq!(v.build_id, "b1");
}

#[test]
fn update_fails_otherwise() {
    let (ok, v) = instance_op_success(reading(Some(instance("a", "b1", None)), false, false, false), instance("a", "b2", None));
    assert!(!ok);
    assert_eq!(v.build_id, "b1");
    let (ok, v) = instance_op_success(reading(None, true, true, true), instance("a", "b2", None));
    assert!(!ok);
    assert_eq!(v.build_id, "b2");
    let (ok, v) = instance_op_success(None, instance("a", "b3", None));
    assert!(!ok);
    assert_eq!(v.build_id, "b3");
}

#[test]
fn stored_instance_needs_a_value() {
    assert!(stored_instance(None).is_none());
    assert!(stored_instance(Some(None)).is_none());
    assert_eq!(stored_instance(Some(Some(instance("x", "b", None)))).unwrap().instance_id, "x");
}

#[test]
fn select_by_build_id_keeps_order() {
    let values = vec![
        Some(instance("a", "b1", None)),
        None,
        Some(instance("b", "b2", None)),
        Some(instance("c", "b1", None)),
    ];
    let found = get_instances_by_build_id(&values, "b1");
    let ids: Vec<&str> = found.iter().map(|i| i.instance_id.as_str()).collect();
    assert_eq!(ids, vec!["a", "c"]);
    assert!(get_instances_by_build_id(&values, "zz").is_empty());
}

#[test]
fn lookup_by_ip_takes_the_last_match() {
    let ip = IpAddr::V4(0x0a000005);
    let values = vec![
        Some(instance("a", "b", Some(ip))),
        Some(instance("b", "b", Some(IpAddr::V4(1)))),
        None,
        Some(instance("c", "b", Some(ip))),
        Some(instance("d", "b", None)),
    ];
    assert_eq!(get_instance_by_ip(&values, ip).unwrap().instance_id, "c");
    assert_eq!(get_instance_by_ip(&values, IpAddr::V4(1)).unwrap().instance_id, "b");
}

#[test]
fn lookup_by_ip_reports_the_missing_address() {
    let values = vec![Some(instance("a", "b", None))];
    let ip = IpAddr::V6(1);
    assert_eq!(get_instance_by_ip(&values, ip).unwrap_err(), InstanceNotFound { ip });
}

#[test]
fn op_origin() {
    assert_eq!(instance_op(MapOp::Up { actor: "n1".to_string(), key: "k".to_string() }), Some(("n1".to_string(), "k".to_string())));
    assert_eq!(instance_op(MapOp::Rm), None);
}

#[test]
fn hex_encoding() {
    assert_eq!(encode_hex(&[0x00, 0x0f, 0xa5, 0xff]), "000fa5ff");
    assert_eq!(encode_hex(&[]), "");
}

#[test]
fn hex_decoding() {
    assert_eq!(decode_hex("000fA5ff").unwrap(), vec![0x00, 0x0f, 0xa5, 0xff]);
    assert_eq!(decode_hex("abc").unwrap_err(), HexError::OddLength);
    assert_eq!(decode_hex("0g11").unwrap_err(), HexError::InvalidHexCharacter { c: 'g', index: 1 });
    assert_eq!(decode_hex("").unwrap(), Vec::<u8>::new());
}

#[test]
fn hex_round_trip() {
    let bytes: Vec<u8> = (0..=255u8).collect();
    assert_eq!(decode_hex(&encode_hex(&bytes)).unwrap(), bytes);
}

#[test]
fn signing_keys() {
    let valid = "01".repeat(32);
    assert_eq!(signing_key_bytes(&valid).unwrap(), vec![1u8; 32]);
    let short = "01".repeat(24);
    assert_eq!(signing_key_bytes(&short).unwrap().len(), 24);
    assert_eq!(signing_key_bytes(&"01".repeat(23)).unwrap_err(), KeyError::InvalidKey);
    assert_eq!(signing_key_bytes(&"00".repeat(32)).unwrap_err(), KeyError::InvalidKey);
    let order = "FFFFFFFFFFFFFFFFFFFFFFFFFFFFFFFEBAAEDCE6AF48A03BBFD25E8CD0364141";
    assert_eq!(signing_key_bytes(order).unwrap_err(), KeyError::InvalidKey);
    let below = "FFFFFFFFFFFFFFFFFFFFFFFFFFFFFFFEBAAEDCE6AF48A03BBFD25E8CD0364140";
    assert!(signing_key_bytes(below).is_ok());
    assert_eq!(signing_key_bytes("xyz").unwrap_err(), KeyError::InvalidHex(HexError::OddLength));
    assert_eq!(signing_key_bytes(&"0".repeat(33)).unwrap_err(), KeyError::InvalidHex(HexError::OddLength));
}

#[test]
fn local_update_plan() {
    let i = instance("inst-1", "b", None);
    let u = update_instance_local("node-7", &"02".repeat(32), &i).unwrap();
    assert_eq!(u.key, "inst-1");
    assert_eq!(u.actor, "node-7");
    assert_eq!(u.secret_key, vec![2u8; 32]);
    assert!(matches!(update_instance_local("node-7", "zz", &i), Err(KeyError::InvalidHex(HexError::InvalidHexCharacter { .. }))));
    assert!(matches!(update_instance_local("node-7", &"00".repeat(32), &i), Err(KeyError::InvalidKey)));
}
