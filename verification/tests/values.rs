use sysrepo::decode_bool_native;
use sysrepo::default_suffix;
use sysrepo::encode_bool_native;
use sysrepo::node_display;
use sysrepo::value_display;
use sysrepo::DataValue;
use sysrepo::Engine;
use sysrepo::SchemaNodeKind;
use sysrepo::ValueSlice;

#[test]
fn bool_native_encoding_is_inverted() {
    // The engine's convention: zero on the wire stands for true.
    assert_eq!(encode_bool_native(true), 0);
    assert_eq!(encode_bool_native(false), 1);
    assert!(decode_bool_native(0));
    assert!(!decode_bool_native(1));
}

#[test]
fn bool_round_trips_through_native_encoding() {
    for b in [false, true] {
        assert_eq!(decode_bool_native(encode_bool_native(b)), b);
    }
}

#[test]
fn scalar_display_is_type_directed() {
    assert_eq!(value_display(DataValue::Bool(true)), "true");
    assert_eq!(value_display(DataValue::Bool(false)), "false");
    assert_eq!(value_display(DataValue::Int8(-128)), "-128");
    assert_eq!(value_display(DataValue::Int16(-1)), "-1");
    assert_eq!(value_display(DataValue::Int32(0)), "0");
    assert_eq!(
        value_display(DataValue::Int64(i64::MIN)),
        "-9223372036854775808"
    );
    assert_eq!(value_display(DataValue::Uint8(255)), "255");
    assert_eq!(value_display(DataValue::Uint16(10)), "10");
    assert_eq!(value_display(DataValue::Uint32(4_294_967_295)), "4294967295");
    assert_eq!(
        value_display(DataValue::Uint64(u64::MAX)),
        "18446744073709551615"
    );
    assert_eq!(
        value_display(DataValue::Other("an-enum-value".to_owned())),
        "an-enum-value"
    );
    assert_eq!(value_display(DataValue::Empty), "(empty leaf)");
}

#[test]
fn structural_nodes_display_placeholders() {
    assert_eq!(
        node_display(None, SchemaNodeKind::Container),
        "(container)"
    );
    assert_eq!(node_display(None, SchemaNodeKind::List), "(list instance)");
    assert_eq!(node_display(None, SchemaNodeKind::Leaf), "(unprintable)");
    assert_eq!(node_display(None, SchemaNodeKind::Choice), "(unprintable)");
    assert_eq!(
        node_display(Some(DataValue::Uint8(7)), SchemaNodeKind::Leaf),
        "7"
    );
}

#[test]
fn default_marker_suffix() {
    assert_eq!(default_suffix(true), " [default]");
    assert_eq!(default_suffix(false), "");
}

#[test]
fn owned_slice_frees_exactly_once() {
    let mut engine = Engine::new();
    let slice = ValueSlice::owned_from(vec![DataValue::Bool(true), DataValue::Uint8(3)]);
    assert_eq!(slice.len(), 2);
    slice.release(&mut engine);
    assert_eq!(engine.frees.value_frees, 1);
    assert_eq!(engine.frees.data_releases, 0);
}

#[test]
fn borrowed_slice_never_frees() {
    let mut engine = Engine::new();
    let slice = ValueSlice::borrowed_from(vec![DataValue::Empty]);
    slice.release(&mut engine);
    assert_eq!(engine.frees.value_frees, 0);
}
