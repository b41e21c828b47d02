use hpack::decoder::{DecoderError, StringDecodingError};
use hpack::huffman::HuffmanDecoderError;
use trident::utils::net::h2pack::parser::{collect, resolved_field, ParseError, Parser};

#[test]
fn parse_field_indexed() {
    let mut parser = Parser::new();

    let buffer1 = [0x82]; // static table index
    let r1 = parser.parse(&buffer1).unwrap();

    assert_eq!(b":method", r1[0].0.as_slice());
    assert_eq!(b"GET", r1[0].1.as_slice());

    let buffer2 = [0xbf]; // dynamic table index
    let r2 = parser.parse(&buffer2).unwrap();

    assert!(r2.is_empty());
    assert_eq!(0, r2.len());
}

#[test]
fn parse_field_incremental_indexing() {
    let mut parser = Parser::new();
    let buffer_indexed = [
        0x50, 0x8d, 0x9b, 0xd9, 0xab, 0xfa, 0x52, 0x42, 0xcb, 0x40, 0xd2, 0x5f, 0xa5, 0x23,
        0xb3,
    ];
    let buffer_new_index = [
        0x40, 0x92, 0xb6, 0xb9, 0xac, 0x1c, 0x85, 0x58, 0xd5, 0x20, 0xa4, 0xb6, 0xc2, 0xad,
        0x61, 0x7b, 0x5a, 0x54, 0x25, 0x1f, 0x81, 0x0f,
    ];

    let r1 = parser.parse(&buffer_indexed).unwrap();

    assert_eq!(b"accept-encoding", r1[0].0.as_slice());
    assert_eq!(b"gzip, deflate, br", r1[0].1.as_slice());

    let r2 = parser.parse(&buffer_new_index).unwrap();
    assert_eq!(b"upgrade-insecure-requests", r2[0].0.as_slice());
    assert_eq!(b"1", r2[0].1.as_slice());
}

#[test]
fn parse_field_without_indexing() {
    let mut parser = Parser::new();

    let buffer_indexed = [
        0x04, 0x9a, 0x62, 0x43, 0x91, 0x8a, 0x47, 0x55, 0xa3, 0xa1, 0x89, 0xd3, 0x4d, 0x0c,
        0x44, 0x84, 0x8d, 0x26, 0x23, 0x04, 0x42, 0x18, 0x4c, 0xe5, 0xa4, 0xab, 0x91, 0x08,
    ];

    let buffer_indexed2 = [0x0f, 0x0d, 0x02, 0x34, 0x36];

    let buffer_new_index = [
        0x00, 0x90, 0x21, 0xea, 0x49, 0x6a, 0x4a, 0xc8, 0x29, 0x2d, 0xb0, 0xc9, 0xf4, 0xb5,
        0x67, 0xa0, 0xc4, 0xf5, 0xff, 0xbd, 0x05, 0x41, 0x2c, 0x35, 0x69, 0x59, 0x16, 0x11,
        0x4f, 0xf4, 0x82, 0xd1, 0x2f, 0xfa, 0x53, 0xe5, 0x7a, 0x4f, 0xec, 0xd4, 0x50, 0x35,
        0xea, 0x2a, 0x54, 0xf9, 0x5e, 0x93, 0xfb, 0x35, 0x14, 0x0d, 0x73, 0xd9, 0x32, 0x9f,
        0x2b, 0xd2, 0x7f, 0x66, 0xa2, 0x81, 0xae, 0x43, 0xd2, 0xa7, 0xfa, 0xb6, 0xa4, 0x0e,
        0x52, 0xac, 0x6a, 0xa8, 0x35, 0x45, 0xff, 0x4a, 0x7f, 0xab, 0x6a, 0x40, 0xe5, 0x2a,
        0xc5, 0xee, 0x3a, 0x3f, 0xd2, 0x9f, 0x2b, 0x9e, 0xb4, 0x9a, 0x93, 0x7b, 0x2d, 0x1e,
        0x97, 0x21, 0xe9, 0x50, 0xf5, 0xa4, 0xd4, 0x9b, 0xd9, 0x68, 0xf4, 0xba, 0x19, 0x5c,
        0x74, 0x8f, 0xd9, 0xea, 0x1f, 0x84, 0x2e, 0x43, 0xd2, 0xa7, 0x8f, 0x1e, 0x17, 0x98,
        0xe7, 0x9a, 0x82, 0xa4, 0x73, 0x52, 0x3a, 0x87, 0x31, 0x6c, 0x5c, 0x87, 0xa5, 0x4f,
        0x1e, 0x3c, 0x2f, 0x31, 0xcf, 0x35, 0x05, 0x58, 0x75, 0x0e, 0x8f, 0x49, 0x31, 0x10,
        0xb9, 0x0f, 0x4a, 0x89, 0x1c, 0xd4, 0x8e, 0xa1, 0xcc, 0x5b, 0x17, 0x98, 0xe7, 0x9a,
        0x82, 0xae, 0x43, 0xd2, 0xa7, 0x8f, 0x1e, 0x17, 0xf4, 0x7b, 0x53, 0x6c, 0x65, 0x5c,
        0x87, 0xa5, 0x44, 0x2f, 0xe9, 0x26, 0xa6, 0x65, 0xc8, 0x7a, 0x7e, 0xd4, 0x35, 0x33,
        0x2c, 0x8b, 0x08, 0xa7, 0xfa, 0x41, 0x68, 0x97, 0xfd, 0x29, 0xf2, 0xbd, 0x27, 0xf6,
        0x6a, 0x28, 0x1a, 0xf5, 0x15, 0x2a, 0x7c, 0xaf, 0x49, 0xfd, 0x9a, 0x8a, 0x06, 0xb9,
        0xec, 0x99, 0x4f, 0x95, 0xe9, 0x3f, 0xb3, 0x51, 0x40, 0xd7, 0x21, 0xe9, 0x52, 0x41,
        0xa4, 0x77, 0x14, 0xf9, 0x5c, 0xf5, 0xa4, 0xd4, 0x9b, 0xd9, 0x68, 0xf4, 0xb9, 0x0f,
        0x4a, 0x9e, 0x3c, 0x78, 0x5e, 0x63, 0x9e, 0x6a, 0x0a, 0x91, 0xcd, 0x48, 0xea, 0x1c,
        0xc5, 0xb1, 0x72, 0x1e, 0x95, 0x3c, 0x78, 0xf0, 0xbc, 0xc7, 0x3c, 0xd4, 0x15, 0x61,
        0xd4, 0x3a, 0x3d, 0x24, 0xc4, 0x42, 0xe4, 0x3d, 0x2a, 0x7c, 0xae, 0x93, 0x50, 0x54,
        0x2f, 0x48, 0xeb, 0x8c, 0xfe, 0x57, 0x21, 0xe9, 0x50, 0x75, 0x99, 0x7a, 0x47, 0x5c,
        0x67, 0xf2, 0xb9, 0x0f, 0x4a, 0x84, 0xb0, 0xa3, 0x49, 0xbb, 0x94, 0x87, 0xa6, 0x93,
        0xd4, 0x85, 0xcf, 0x64, 0xca, 0x0e, 0x45, 0xe4, 0x3d, 0xb1, 0xd0, 0x52, 0x50, 0x62,
        0x75, 0x5e, 0xa2, 0xa7, 0xed, 0x49, 0x0b, 0x28, 0xed, 0xa1, 0x2b, 0x22, 0xc2, 0x29,
        0xfe, 0x90, 0x5a, 0x25, 0xff, 0x4a, 0x7c, 0xaf, 0x49, 0xfd, 0x9a, 0x8a, 0x06, 0xbd,
        0x45, 0x4a, 0x9f, 0x2b, 0xd2, 0x7f, 0x66, 0xa2, 0x81, 0xae, 0x7b, 0x26, 0x53, 0xe5,
        0x7a, 0x4f, 0xec, 0xd4, 0x50, 0x35, 0xc8, 0x7a, 0x7e, 0xd4, 0x96, 0xc1, 0xd2, 0x55,
        0x91, 0x61, 0x14, 0xf9, 0x5c, 0xf5, 0xa4, 0xd4, 0x9b, 0xd9, 0x68, 0xf4, 0xb9, 0x0f,
        0x4a, 0x9e, 0x3c, 0x78, 0x5e, 0x63, 0x9e, 0x6a, 0x0a, 0x91, 0xcd, 0x48, 0xea, 0x1c,
        0xc5, 0xb1, 0x72, 0x1e, 0x95, 0x3c, 0x78, 0xf0, 0xbc, 0xc7, 0x3c, 0xd4, 0x15, 0x61,
        0xd4, 0x3a, 0x3d, 0x24, 0xc4, 0x42, 0xe4, 0x3d, 0x2a, 0x78, 0xf1, 0xe1, 0x7f, 0x47,
        0xb5, 0x36, 0xc6, 0x55, 0xaa, 0x39, 0x0e, 0x7e, 0xa6, 0x2a, 0xe4, 0x3d, 0x2a, 0x26,
        0xc1, 0x93, 0xa9, 0x6c, 0x49, 0x50, 0x95, 0xcf, 0x64, 0xca, 0x78, 0xf1, 0xe1, 0x74,
        0x5b, 0x67, 0x72, 0xfa, 0x98, 0xde, 0xe9, 0x3a, 0xe4, 0x3d, 0x2a, 0x0c, 0x84, 0x3d,
        0xb5, 0x25, 0x0b, 0xca, 0x6b, 0x0b, 0x29, 0xfc, 0xae, 0x43, 0xd2, 0xa0, 0xc8, 0x43,
        0xdb, 0x52, 0x50, 0xbc, 0xa6, 0xb0, 0xb2, 0x9f, 0xca, 0xe4, 0x3d, 0x2b, 0x92, 0xa5,
        0x3c, 0x78, 0xf0, 0xbf, 0xa3, 0xda, 0x9b, 0x63, 0x2a, 0xe4, 0x3d, 0x3f, 0x6a, 0x21,
        0x3e, 0xa8, 0x2a, 0xc8, 0xb0, 0x8a, 0x7f, 0xa4, 0x16, 0x89, 0x7f, 0xd2, 0x9f, 0x2b,
        0xd2, 0x7f, 0x66, 0xa2, 0x81, 0xaf, 0x51, 0x52, 0xa7, 0xca, 0xf4, 0x9f, 0xd9, 0xa8,
        0xa0, 0x6b, 0x9e, 0xc9, 0x94, 0xf9, 0x5e, 0x93, 0xfb, 0x35, 0x14, 0x0d, 0x72, 0x1e,
        0x95, 0x3f, 0xd5, 0xb5, 0x20, 0x72, 0x95, 0x63, 0x55, 0x41, 0xaa, 0x2f, 0xfa, 0xfb,
        0x50, 0x87, 0xaa, 0xa2, 0x91, 0x2b, 0x22, 0xc2, 0x29, 0xfe, 0x90, 0x5a, 0x25, 0xff,
        0x4a, 0x7c, 0xaf, 0x49, 0xfd, 0x9a, 0x8a, 0x06, 0xbd, 0x45, 0x4a, 0x9f, 0x2b, 0xd2,
        0x7f, 0x66, 0xa2, 0x81, 0xae, 0x7b, 0x26, 0x53, 0xe5, 0x7a, 0x4f, 0xec, 0xd4, 0x50,
        0x35, 0xc8, 0x7a, 0x54, 0xf9, 0x5c, 0xf5, 0xa4, 0xd4, 0x9b, 0xd9, 0x68, 0xf4, 0xb9,
        0x0f, 0x4a, 0x9e, 0x3c, 0x78, 0x5e, 0x63, 0x9e, 0x6a, 0x0a, 0x91, 0xcd, 0x48, 0xea,
        0x1c, 0xc5, 0xb1, 0x72, 0x1e, 0x95, 0x3c, 0x78, 0xf0, 0xbc, 0xc7, 0x3c, 0xd4, 0x15,
        0x61, 0xd4, 0x3a, 0x3d, 0x24, 0xc4, 0x42, 0xe4, 0x3d, 0x2a, 0x7c, 0xae, 0x93, 0x50,
        0x54, 0x2f, 0x48, 0xeb, 0x8c, 0xfe, 0x57, 0x21, 0xe9, 0x50, 0x75, 0x99, 0x7a, 0x47,
        0x5c, 0x67, 0xf2, 0xb9, 0x0f, 0x4f, 0xda, 0x84, 0x9c, 0xd4, 0x48, 0xb2, 0x2c, 0x22,
        0x9f, 0x2b, 0x9e, 0xb4, 0x9a, 0x93, 0x7b, 0x2d, 0x1e, 0x97, 0x21, 0xe9, 0x53, 0xc7,
        0x8f, 0x0b, 0xcc, 0x73, 0xcd, 0x41, 0x52, 0x39, 0xa9, 0x1d, 0x43, 0x98, 0xb6, 0x2e,
        0x43, 0xd2, 0xa7, 0x8f, 0x1e, 0x17, 0x98, 0xe7, 0x9a, 0x82, 0xac, 0x3a, 0x87, 0x47,
        0xa4, 0x98, 0x88, 0x5c, 0x87, 0xa5, 0x4f, 0x1e, 0x3c, 0x2f, 0xe8, 0xf6, 0xa6, 0xd8,
        0xca, 0xb5, 0x47, 0x21, 0xcf, 0xd4, 0xc5, 0x5c, 0x87, 0xa5, 0x44, 0xd8, 0x32, 0x75,
        0x2d, 0x89, 0x2a, 0x12, 0xb9, 0xec, 0x99, 0x4f, 0x1e, 0x3c, 0x2e, 0x8b, 0x6c, 0xee,
        0x5f, 0x53, 0x1b, 0xdd, 0x27, 0x5c, 0x87, 0xa5, 0x41, 0x90, 0x87, 0xb6, 0xa4, 0xa1,
        0x79, 0x4d, 0x61, 0x65, 0x3f, 0x95, 0xc8, 0x7a, 0x54, 0x19, 0x08, 0x7b, 0x6a, 0x4a,
        0x17, 0x94, 0xd6, 0x16, 0x53, 0xf9, 0x5c, 0x87, 0xa5, 0x72, 0x54, 0xa7, 0x8f, 0x1e,
        0x17, 0xf4, 0x7b, 0x53, 0x6c, 0x65, 0x5c, 0x87, 0xa7,
    ];

    let r1 = parser.parse(&buffer_indexed).unwrap();

    assert_eq!(b":path", r1[0].0.as_slice());
    assert_eq!(
        b"/doc/manual/html/_static/css/theme.css",
        r1[0].1.as_slice()
    );

    let r2 = parser.parse(&buffer_new_index).unwrap();

    assert_eq!(b"content-security-policy", r2[0].0.as_slice());
    assert_eq!(1, r2.len());

    let r3 = parser.parse(&buffer_indexed2).unwrap();

    assert_eq!(b"content-length", r3[0].0.as_slice());
    assert_eq!(b"46", r3[0].1.as_slice());
}

#[test]
fn parse_http2_headers_block() {
    let mut parser = Parser::new();
    let buffer1 = [
        0x82, 0x05, 0x97, 0x60, 0xb5, 0x2d, 0xc3, 0x73, 0x12, 0x9a, 0xc2, 0xca, 0x7f, 0x2c,
        0x36, 0x25, 0xc0, 0xb8, 0x58, 0x94, 0xd6, 0x21, 0x36, 0x5b, 0x53, 0x1f, 0x41, 0x8c,
        0xf1, 0xe3, 0xc2, 0xf4, 0x9f, 0xd9, 0xa8, 0xa0, 0x6b, 0x9e, 0xc9, 0xbf, 0x87, 0x7a,
        0xb3, 0xd0, 0x7f, 0x66, 0xa2, 0x81, 0xb0, 0xda, 0xe0, 0x53, 0xfa, 0xfc, 0x08, 0x7e,
        0xd4, 0xce, 0x6a, 0xad, 0xf2, 0xa7, 0x97, 0x9c, 0x89, 0xc6, 0xbe, 0xd4, 0xb3, 0xbd,
        0xc6, 0xc4, 0xb8, 0x3f, 0xb5, 0x31, 0x14, 0x9d, 0x4e, 0xc0, 0x80, 0x10, 0x00, 0x20,
        0x0a, 0x98, 0x4d, 0x61, 0x65, 0x3f, 0x96, 0x1b, 0x12, 0xe0, 0x53, 0xb0, 0x49, 0x7c,
        0xa5, 0x89, 0xd3, 0x4d, 0x1f, 0x43, 0xae, 0xba, 0x0c, 0x41, 0xa4, 0xc7, 0xa9, 0x8f,
        0x33, 0xa6, 0x9a, 0x3f, 0xdf, 0x9a, 0x68, 0xfa, 0x1d, 0x75, 0xd0, 0x62, 0x0d, 0x26,
        0x3d, 0x4c, 0x79, 0xa6, 0x8f, 0xbe, 0xd0, 0x01, 0x77, 0xfe, 0xbe, 0x58, 0xf9, 0xfb,
        0xed, 0x00, 0x17, 0x7b, 0x51, 0x8b, 0x2d, 0x4b, 0x70, 0xdd, 0xf4, 0x5a, 0xbe, 0xfb,
        0x40, 0x05, 0xdb, 0x50, 0x8d, 0x9b, 0xd9, 0xab, 0xfa, 0x52, 0x42, 0xcb, 0x40, 0xd2,
        0x5f, 0xa5, 0x23, 0xb3, 0x40, 0x92, 0xb6, 0xb9, 0xac, 0x1c, 0x85, 0x58, 0xd5, 0x20,
        0xa4, 0xb6, 0xc2, 0xad, 0x61, 0x7b, 0x5a, 0x54, 0x25, 0x1f, 0x81, 0x0f,
    ];

    let r1 = parser.parse(&buffer1).unwrap();

    assert_eq!(9, r1.len());
    assert_eq!(b":method", r1[0].0.as_slice());
    assert_eq!(b"GET", r1[0].1.as_slice());
    assert_eq!(b"user-agent", r1[4].0.as_slice());
    assert_eq!(
        b"Mozilla/5.0 (X11; Linux x86_64; rv:52.0) Gecko/20100101 Firefox/52.0",
        r1[4].1.as_slice()
    );
    assert_eq!(b"upgrade-insecure-requests", r1[8].0.as_slice());
    assert_eq!(b"1", r1[8].1.as_slice());

    let buffer2 = [
        0x42, 0x03, 0x50, 0x55, 0x54, 0x04, 0xb3, 0x62, 0xa1, 0xda, 0x89, 0x56, 0x1d, 0xa9,
        0x9d, 0x8e, 0xe1, 0x62, 0xd2, 0xac, 0x3b, 0x53, 0x39, 0x6a, 0x49, 0x88, 0x34, 0x98,
        0xf5, 0x21, 0x83, 0x52, 0x83, 0x2c, 0xd3, 0x80, 0x00, 0x80, 0xc8, 0x02, 0x00, 0x04,
        0x00, 0x0b, 0x0d, 0xcc, 0xb0, 0xfa, 0x8d, 0x62, 0x1e, 0xa9, 0x4d, 0x65, 0x23, 0x49,
        0x8f, 0x57, 0x86, 0xc1, 0xc0, 0x0f, 0x0d, 0x02, 0x34, 0x36, 0xbf,
    ];

    let r2 = parser.parse(&buffer2).unwrap();

    assert_eq!(4, r2.len());
    assert_eq!(b":method", r2[0].0.as_slice());
    assert_eq!(b"PUT", r2[0].1.as_slice());
    assert_eq!(b"content-length", r2[3].0.as_slice());
    assert_eq!(b"46", r2[3].1.as_slice());
}

fn pair(name: &str, value: &str) -> (Vec<u8>, Vec<u8>) {
    (name.as_bytes().to_vec(), value.as_bytes().to_vec())
}

#[test]
fn empty_block_has_no_fields() {
    let mut parser = Parser::new();
    assert_eq!(parser.parse(&[]), Ok(vec![]));
}

#[test]
fn static_table_entries() {
    let mut parser = Parser::new();
    assert_eq!(parser.parse(&[0x81]), Ok(vec![pair(":authority", "")]));
    assert_eq!(parser.parse(&[0x82]), Ok(vec![pair(":method", "GET")]));
    assert_eq!(parser.parse(&[0x84]), Ok(vec![pair(":path", "/")]));
    assert_eq!(parser.parse(&[0xbd]), Ok(vec![pair("www-authenticate", "")]));
    assert_eq!(
        parser.parse(&[0x82, 0x84]),
        Ok(vec![pair(":method", "GET"), pair(":path", "/")])
    );
}

#[test]
fn indices_outside_the_static_table_are_skipped() {
    let mut parser = Parser::new();
    assert_eq!(parser.parse(&[0x80]), Ok(vec![]));
    assert_eq!(parser.parse(&[0xbe]), Ok(vec![]));
    assert_eq!(parser.parse(&[0xbf]), Ok(vec![]));
    assert_eq!(parser.parse(&[0xff, 0x00]), Ok(vec![]));
    assert_eq!(
        parser.parse(&[0xbe, 0x82, 0xff, 0x80, 0x01, 0x84]),
        Ok(vec![pair(":method", "GET"), pair(":path", "/")])
    );
}

#[test]
fn literal_fields_in_plain_octets() {
    let mut parser = Parser::new();
    assert_eq!(
        parser.parse(&[0x42, 0x03, 0x50, 0x55, 0x54]),
        Ok(vec![pair(":method", "PUT")])
    );
    assert_eq!(
        parser.parse(&[0x0f, 0x0d, 0x02, 0x34, 0x36]),
        Ok(vec![pair("content-length", "46")])
    );
    assert_eq!(
        parser.parse(&[0x10, 0x01, 0x61, 0x02, 0x62, 0x63]),
        Ok(vec![pair("a", "bc")])
    );
    assert_eq!(
        parser.parse(&[0x40, 0x01, 0x61, 0x00]),
        Ok(vec![pair("a", "")])
    );
}

#[test]
fn literal_with_a_name_in_the_dynamic_table_is_skipped() {
    let mut parser = Parser::new();
    assert_eq!(parser.parse(&[0x7e, 0x01, 0x41]), Ok(vec![]));
    assert_eq!(parser.parse(&[0x7f, 0x00, 0x01, 0x41]), Ok(vec![]));
    assert_eq!(parser.parse(&[0x0f, 0x2f, 0x00]), Ok(vec![]));
    assert_eq!(
        parser.parse(&[0x7f, 0x00, 0x02, 0x82, 0x82, 0x84]),
        Ok(vec![pair(":path", "/")])
    );
}

#[test]
fn literal_with_a_name_in_the_dynamic_table_must_fit() {
    let mut parser = Parser::new();
    assert_eq!(parser.parse(&[0x7f, 0x00, 0x05]), Err(ParseError::InvalidInput));
    assert_eq!(
        parser.parse(&[0x82, 0x7e, 0x02, 0x41]),
        Err(ParseError::InvalidInput)
    );
}

#[test]
fn size_update_is_stepped_over() {
    let mut parser = Parser::new();
    assert_eq!(parser.parse(&[0x20]), Ok(vec![]));
    assert_eq!(parser.parse(&[0x3f, 0xe1, 0x1f]), Ok(vec![]));
    assert_eq!(
        parser.parse(&[0x3f, 0xe1, 0x1f, 0x82]),
        Ok(vec![pair(":method", "GET")])
    );
    assert_eq!(parser.parse(&[0x82, 0x3f]), Err(ParseError::NotEnoughOctets));
}

#[test]
fn concatenated_fields_are_read_in_order() {
    let fields: [&[u8]; 6] = [
        &[0x82],
        &[0x0f, 0x0d, 0x02, 0x34, 0x36],
        &[0xbf],
        &[0x50, 0x8d, 0x9b, 0xd9, 0xab, 0xfa, 0x52, 0x42, 0xcb, 0x40, 0xd2, 0x5f, 0xa5, 0x23, 0xb3],
        &[0x7f, 0x00, 0x01, 0x41],
        &[0x42, 0x03, 0x50, 0x55, 0x54],
    ];
    let mut parser = Parser::new();
    let mut block = Vec::new();
    let mut expected = Vec::new();
    for field in fields {
        block.extend_from_slice(field);
        expected.extend(parser.parse(field).unwrap());
    }
    assert_eq!(
        expected,
        vec![
            pair(":method", "GET"),
            pair("content-length", "46"),
            pair("accept-encoding", "gzip, deflate, br"),
            pair(":method", "PUT"),
        ]
    );
    assert_eq!(parser.parse(&block), Ok(expected));
}

#[test]
fn fields_are_consumed_to_the_last_octet() {
    let block = [0x82, 0xbf, 0x0f, 0x0d, 0x02, 0x34, 0x36, 0x3f, 0xe1, 0x1f, 0x84];
    let mut parser = Parser::new();
    let mut output = Vec::new();
    let mut offset = 0;
    let mut lengths = Vec::new();
    while offset < block.len() {
        let consumed = parser.parse_one_field(&block, offset, &mut output).unwrap();
        lengths.push(consumed);
        offset += consumed;
    }
    assert_eq!(lengths, vec![1, 1, 5, 3, 1]);
    assert_eq!(offset, block.len());
    assert_eq!(
        output,
        vec![pair(":method", "GET"), pair("content-length", "46"), pair(":path", "/")]
    );
}

#[test]
fn one_field_is_added_behind_what_is_there() {
    let mut parser = Parser::new();
    let mut output = vec![pair("kept", "as it is")];
    assert_eq!(parser.parse_one_field(&[0xbf, 0x82], 1, &mut output), Ok(1));
    assert_eq!(output, vec![pair("kept", "as it is"), pair(":method", "GET")]);
    assert_eq!(parser.parse_one_field(&[0xbf, 0x82], 0, &mut output), Ok(1));
    assert_eq!(output, vec![pair("kept", "as it is"), pair(":method", "GET")]);
}

#[test]
fn failed_field_leaves_the_output_alone() {
    let mut parser = Parser::new();
    let mut output = vec![pair("kept", "as it is")];
    assert_eq!(
        parser.parse_one_field(&[0x82, 0xff], 1, &mut output),
        Err(ParseError::NotEnoughOctets)
    );
    assert_eq!(
        parser.parse_one_field(&[0x40, 0x01, 0x61, 0x81, 0x00], 0, &mut output),
        Err(ParseError::InvalidHuffmanCode)
    );
    assert_eq!(output, vec![pair("kept", "as it is")]);
}

#[test]
fn any_error_discards_the_block() {
    let mut parser = Parser::new();
    assert_eq!(parser.parse(&[0x82, 0x84, 0xff]), Err(ParseError::NotEnoughOctets));
    assert_eq!(
        parser.parse(&[0x82, 0xff, 0x80, 0x80, 0x80, 0x80, 0x01]),
        Err(ParseError::InvalidInteger)
    );
    assert_eq!(
        parser.parse(&[0x82, 0x00, 0x01, 0x61]),
        Err(ParseError::InvalidInput)
    );
    assert_eq!(
        parser.parse(&[0x82, 0x00, 0x01, 0x61, 0x05, 0x62]),
        Err(ParseError::InvalidInput)
    );
    assert_eq!(
        parser.parse(&[0x82, 0x40, 0x01, 0x61, 0x81, 0x00]),
        Err(ParseError::InvalidHuffmanCode)
    );
}

#[test]
fn first_error_wins() {
    let mut parser = Parser::new();
    // A broken string comes before an integer that is cut short.
    assert_eq!(
        parser.parse(&[0x40, 0x01, 0x61, 0x81, 0x00, 0xff]),
        Err(ParseError::InvalidHuffmanCode)
    );
    // An integer that is too long comes before a broken string.
    assert_eq!(
        parser.parse(&[0xff, 0x80, 0x80, 0x80, 0x80, 0x40, 0x01, 0x61, 0x81, 0x00]),
        Err(ParseError::InvalidInteger)
    );
}

#[test]
fn broken_huffman_strings() {
    let mut parser = Parser::new();
    // Padding that is not the start of the end-of-string code.
    assert_eq!(
        parser.parse(&[0x41, 0x81, 0x00]),
        Err(ParseError::InvalidHuffmanCode)
    );
    // Padding of more than seven bits.
    assert_eq!(
        parser.parse(&[0x41, 0x82, 0xff, 0xff]),
        Err(ParseError::InvalidHuffmanCode)
    );
    // A name that is broken.
    assert_eq!(
        parser.parse(&[0x00, 0x81, 0x00, 0x00]),
        Err(ParseError::InvalidHuffmanCode)
    );
}

#[test]
fn parser_keeps_nothing_between_blocks() {
    let indexed_literal = [0x42, 0x03, 0x50, 0x55, 0x54];
    let mut parser = Parser::new();
    for _ in 0..200 {
        assert_eq!(parser.parse(&indexed_literal), Ok(vec![pair(":method", "PUT")]));
        assert_eq!(parser.parse(&[0xbe]), Ok(vec![]));
        assert_eq!(parser.parse(&[0x7e, 0x01, 0x41]), Ok(vec![]));
    }
    let mut fresh = Parser::new();
    let block = [0x82, 0x42, 0x03, 0x50, 0x55, 0x54, 0xbe, 0x84];
    assert_eq!(parser.parse(&block), fresh.parse(&block));
}

#[test]
fn resolver_answer_becomes_the_field() {
    let fields = vec![pair(":method", "GET")];
    assert_eq!(
        resolved_field(Ok(fields.clone()), 7),
        Ok((Some(fields), 7))
    );
    assert_eq!(resolved_field(Ok(vec![]), 0), Ok((Some(vec![]), 0)));
}

#[test]
fn resolver_failure_becomes_invalid_huffman_code() {
    assert_eq!(
        resolved_field(Err(DecoderError::HeaderIndexOutOfBounds), 3),
        Err(ParseError::InvalidHuffmanCode)
    );
    assert_eq!(
        resolved_field(
            Err(DecoderError::StringDecodingError(
                StringDecodingError::HuffmanDecoderError(HuffmanDecoderError::InvalidPadding)
            )),
            5
        ),
        Err(ParseError::InvalidHuffmanCode)
    );
}

#[test]
fn collect_moves_fields_to_the_end() {
    let mut output = vec![pair("a", "1")];
    collect(None, &mut output);
    assert_eq!(output, vec![pair("a", "1")]);
    collect(Some(vec![pair("b", "2"), pair("c", "3")]), &mut output);
    assert_eq!(output, vec![pair("a", "1"), pair("b", "2"), pair("c", "3")]);
    collect(Some(vec![]), &mut output);
    assert_eq!(output.len(), 3);
}

#[test]
fn reserved_errors_are_told_apart() {
    assert_ne!(ParseError::HeaderIndexOutOfBounds, ParseError::NotStaticField);
    assert_ne!(
        ParseError::InvalidMaxDynamicSize(1, 2),
        ParseError::InvalidMaxDynamicSize(2, 1)
    );
    assert_eq!(
        ParseError::InvalidMaxDynamicSize(4096, 8192),
        ParseError::InvalidMaxDynamicSize(4096, 8192)
    );
}
