use std::time::Duration;
use trident::flow_generator::protocol_logs::consts::{
    dns_rrt_max, dns_rrt_min, AFFECTED_ROWS_OFFSET, DNS_HEADER_QR_MASK, DNS_OPCODE_RESPONSE,
    DOMAIN_NAME_SPLIT, ERROR_CODE_OFFSET, FLAG_HEADERS_PADDED, FLAG_HEADERS_PRIORITY,
    FRAME_HEADERS, H2C_HEADER_SIZE, HTTPV2_FRAME_HEADERS_TYPE, HTTPV2_FRAME_HEADER_LENGTH,
    HTTPV2_MAGIC_LENGTH, HTTPV2_MAGIC_PREFIX, HTTP_V1_0_VERSION, HTTP_V1_1_VERSION,
    HTTP_V1_VERSION_LEN, SERVER_VERSION_OFFSET, SQL_STATE_MARKER, SQL_STATE_OFFSET,
    THREAD_ID_OFFSET_B,
};

#[test]
fn dns_answer_times() {
    assert_eq!(dns_rrt_max(), Duration::from_secs(150));
    assert_eq!(dns_rrt_min(), Duration::from_secs(0));
    assert!(dns_rrt_min() < dns_rrt_max());
}

#[test]
fn header_frames_of_http2() {
    assert_eq!(H2C_HEADER_SIZE, 9);
    assert_eq!(HTTPV2_FRAME_HEADER_LENGTH, H2C_HEADER_SIZE);
    assert_eq!(FRAME_HEADERS, HTTPV2_FRAME_HEADERS_TYPE);
    assert_eq!(FLAG_HEADERS_PADDED & FLAG_HEADERS_PRIORITY, 0);
    assert_eq!(HTTPV2_MAGIC_PREFIX, "PRI * HTTP");
    assert!(HTTPV2_MAGIC_PREFIX.len() < HTTPV2_MAGIC_LENGTH);
}

#[test]
fn versions_of_http1() {
    assert_eq!(HTTP_V1_0_VERSION.len(), HTTP_V1_VERSION_LEN);
    assert_eq!(HTTP_V1_1_VERSION.len(), HTTP_V1_VERSION_LEN);
}

#[test]
fn offsets_of_mysql() {
    assert_eq!(SERVER_VERSION_OFFSET, 1);
    assert_eq!(THREAD_ID_OFFSET_B, 1);
    assert_eq!(ERROR_CODE_OFFSET, 1);
    assert_eq!(AFFECTED_ROWS_OFFSET, 1);
    assert_eq!(SQL_STATE_OFFSET, 3);
    assert_eq!(SQL_STATE_MARKER, b'#');
}

#[test]
fn marks_of_dns() {
    assert_eq!(DNS_HEADER_QR_MASK, DNS_OPCODE_RESPONSE);
    assert_eq!(DOMAIN_NAME_SPLIT, ';');
}
