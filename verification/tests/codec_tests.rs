use ftpc::codec::{convert_local_address, data_bind_address, decimal_string, dotted_local_address};

#[test]
fn four_octets_encode_to_four_comma_terminated_groups() {
    let out = convert_local_address(&vec![192, 168, 1, 5]);
    assert_eq!(out, "192,168,1,5,");
    let groups: Vec<&str> = out.split_terminator(',').collect();
    assert_eq!(groups.len(), 4);
    assert!(out.ends_with(','));
}

#[test]
fn encoding_is_deterministic() {
    let a = convert_local_address(&vec![10, 0, 0, 7]);
    let b = convert_local_address(&vec![10, 0, 0, 7]);
    assert_eq!(a, b);
    assert_eq!(a, "10,0,0,7,");
}

#[test]
fn empty_address_encodes_to_empty_string() {
    assert_eq!(convert_local_address(&vec![]), "");
}

#[test]
fn sixteen_octets_encode_like_four() {
    let out = convert_local_address(&vec![0, 0, 0, 0, 0, 0, 0, 0, 0, 0, 0, 0, 0, 0, 0, 1]);
    assert_eq!(out, "0,0,0,0,0,0,0,0,0,0,0,0,0,0,0,1,");
    assert_eq!(out.split_terminator(',').count(), 16);
}

#[test]
fn decimal_rendering_exact_values() {
    assert_eq!(decimal_string(0), "0");
    assert_eq!(decimal_string(9), "9");
    assert_eq!(decimal_string(10), "10");
    assert_eq!(decimal_string(200), "200");
    assert_eq!(decimal_string(255), "255");
    assert_eq!(decimal_string(65535), "65535");
}

#[test]
fn dotted_form_has_no_trailing_separator() {
    assert_eq!(dotted_local_address(&vec![127, 0, 0, 1]), "127.0.0.1");
    assert_eq!(dotted_local_address(&vec![8]), "8");
    assert_eq!(dotted_local_address(&vec![]), "");
}

#[test]
fn bind_address_joins_host_and_port() {
    assert_eq!(data_bind_address(&vec![127, 0, 0, 1], 51205), "127.0.0.1:51205");
    assert_eq!(data_bind_address(&vec![10, 1, 2, 3], 0), "10.1.2.3:0");
}
