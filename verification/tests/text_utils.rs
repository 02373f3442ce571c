use vehicle_session::{detect_coordinate_format, get_timestamp, validate_connection_string};

#[test]
fn udp_and_tcp_endpoints_need_more_than_ten_bytes() {
    assert!(validate_connection_string("udp://127.0.0.1:14550"));
    assert!(validate_connection_string("tcp://192.168.1.1:5760"));
    // Exactly ten bytes is too short.
    assert!(!validate_connection_string("udp://a:12"));
    // Eleven bytes is enough.
    assert!(validate_connection_string("udp://ab:12"));
    assert!(validate_connection_string("tcp://ab:12"));
}

#[test]
fn serial_endpoints_need_a_colon_suffix() {
    assert!(validate_connection_string("/dev/ttyUSB0:57600"));
    assert!(validate_connection_string("COM3:115200"));
    assert!(!validate_connection_string("/dev/ttyUSB0"));
    assert!(!validate_connection_string("COM3"));
}

#[test]
fn unrecognized_shapes_are_rejected() {
    assert!(!validate_connection_string(""));
    assert!(!validate_connection_string("garbage"));
    assert!(!validate_connection_string("serial:9600"));
    assert!(!validate_connection_string("http://example.com:80"));
    assert!(!validate_connection_string("udp:127.0.0.1:14550"));
}

#[test]
fn three_dotted_words_are_what3words() {
    assert_eq!(detect_coordinate_format("word.word.word"), "what3words");
    // Leading and trailing whitespace is ignored.
    assert_eq!(detect_coordinate_format("  abc.def.ghi  "), "what3words");
    // A digit disqualifies the what3words shape.
    assert_eq!(detect_coordinate_format("ab1.def.ghi"), "latlong");
}

#[test]
fn leading_digits_on_a_long_input_are_mgrs() {
    assert_eq!(detect_coordinate_format("18TWL8040"), "mgrs");
    // Two dots but non-alphabetic characters, five or more bytes, two
    // leading digits: still the MGRS shape.
    assert_eq!(detect_coordinate_format("37.7749, -122.4194"), "mgrs");
    // The MGRS shape is checked before the UTM shape, so a UTM string
    // with a leading two-digit zone is classified as MGRS.
    assert_eq!(detect_coordinate_format("18T 123456 7890123"), "mgrs");
    // Four bytes is too short.
    assert_eq!(detect_coordinate_format("18TW"), "latlong");
}

#[test]
fn three_whitespace_tokens_are_utm() {
    assert_eq!(detect_coordinate_format("a b c"), "utm");
    assert_eq!(detect_coordinate_format("ZONE 123456 7890123"), "utm");
}

#[test]
fn everything_else_is_latlong() {
    assert_eq!(detect_coordinate_format("somewhere"), "latlong");
    assert_eq!(detect_coordinate_format(""), "latlong");
    assert_eq!(detect_coordinate_format("lat,lng"), "latlong");
}

#[test]
fn timestamp_is_after_the_epoch() {
    let t: u64 = get_timestamp();
    assert!(t > 0);
}
