use uvc::query::ioctl_outcome;
use uvc::{ByteOrder, DecodeError, QueryError, XuControlQuery, XuQuery};

const KINDS: [(XuQuery, u8); 8] = [
    (XuQuery::SetCur, 0x01),
    (XuQuery::GetCur, 0x81),
    (XuQuery::GetMin, 0x82),
    (XuQuery::GetMax, 0x83),
    (XuQuery::GetRes, 0x84),
    (XuQuery::GetLen, 0x85),
    (XuQuery::GetInfo, 0x86),
    (XuQuery::GetDef, 0x87),
];

const ORDERS: [ByteOrder; 2] = [ByteOrder::LittleEndian, ByteOrder::BigEndian];

#[test]
fn query_codes_are_those_of_the_class() {
    for (kind, code) in KINDS {
        assert_eq!(kind.code(), code);
        assert_eq!(XuQuery::from_code(code), Some(kind));
    }
}

#[test]
fn other_codes_name_no_query() {
    for code in 0..=u8::MAX {
        let known = KINDS.iter().find(|(_, c)| *c == code).map(|(k, _)| *k);
        assert_eq!(XuQuery::from_code(code), known);
        if let Some(kind) = XuQuery::from_code(code) {
            assert_eq!(kind.code(), code);
        }
    }
    assert_eq!(XuQuery::from_code(0x00), None);
    assert_eq!(XuQuery::from_code(0x02), None);
    assert_eq!(XuQuery::from_code(0x80), None);
    assert_eq!(XuQuery::from_code(0x88), None);
}

#[test]
fn new_takes_the_size_from_the_buffer() {
    let query = XuControlQuery::new(7, 9, XuQuery::GetCur, vec![1, 2, 3]).unwrap();
    assert_eq!(query.unit(), 7);
    assert_eq!(query.selector(), 9);
    assert_eq!(query.query(), XuQuery::GetCur);
    assert_eq!(query.size(), 3);
    assert_eq!(query.data(), &[1, 2, 3]);

    let empty = XuControlQuery::new(0, 0, XuQuery::SetCur, Vec::new()).unwrap();
    assert_eq!(empty.size(), 0);
    assert_eq!(empty.data(), &[] as &[u8]);
}

#[test]
fn new_refuses_a_buffer_that_the_size_field_cannot_say() {
    assert_eq!(XuControlQuery::MAX_DATA, 65535);
    let largest = XuControlQuery::new(1, 2, XuQuery::SetCur, vec![0xEE; 65535]);
    assert_eq!(largest.map(|q| q.size()), Some(65535));
    assert_eq!(XuControlQuery::new(1, 2, XuQuery::SetCur, vec![0xEE; 65536]), None);
    assert_eq!(XuControlQuery::new(1, 2, XuQuery::GetCur, vec![0; 100_000]), None);
}

#[test]
fn header_has_the_fields_in_order() {
    let query = XuControlQuery::new(0x03, 0x0c, XuQuery::SetCur, vec![1, 0]).unwrap();
    assert_eq!(XuControlQuery::HEADER_SIZE, 5);
    assert_eq!(query.header(ByteOrder::LittleEndian), [0x03, 0x0c, 0x01, 0x02, 0x00]);
    assert_eq!(query.header(ByteOrder::BigEndian), [0x03, 0x0c, 0x01, 0x00, 0x02]);
}

#[test]
fn size_field_goes_by_the_byte_order() {
    let query = XuControlQuery::new(1, 2, XuQuery::GetCur, vec![0; 0x1234]).unwrap();
    assert_eq!(query.header(ByteOrder::LittleEndian), [1, 2, 0x81, 0x34, 0x12]);
    assert_eq!(query.header(ByteOrder::BigEndian), [1, 2, 0x81, 0x12, 0x34]);
    let query = XuControlQuery::new(1, 2, XuQuery::GetCur, vec![0; 0xFFFF]).unwrap();
    assert_eq!(query.header(ByteOrder::LittleEndian), [1, 2, 0x81, 0xFF, 0xFF]);
    assert_eq!(query.header(ByteOrder::BigEndian), [1, 2, 0x81, 0xFF, 0xFF]);
    let query = XuControlQuery::new(1, 2, XuQuery::GetCur, vec![0; 0x0100]).unwrap();
    assert_eq!(query.header(ByteOrder::LittleEndian), [1, 2, 0x81, 0x00, 0x01]);
    assert_eq!(query.header(ByteOrder::BigEndian), [1, 2, 0x81, 0x01, 0x00]);
}

#[test]
fn encode_is_header_then_buffer() {
    let query = XuControlQuery::new(0x03, 0x09, XuQuery::GetCur, vec![0xA0, 0xA1, 0xA2]).unwrap();
    assert_eq!(
        query.encode(ByteOrder::LittleEndian),
        vec![0x03, 0x09, 0x81, 0x03, 0x00, 0xA0, 0xA1, 0xA2]
    );
    assert_eq!(
        query.encode(ByteOrder::BigEndian),
        vec![0x03, 0x09, 0x81, 0x00, 0x03, 0xA0, 0xA1, 0xA2]
    );
    let empty = XuControlQuery::new(0xFF, 0xFE, XuQuery::GetDef, Vec::new()).unwrap();
    assert_eq!(empty.encode(ByteOrder::LittleEndian), vec![0xFF, 0xFE, 0x87, 0, 0]);
}

#[test]
fn encode_then_decode_gives_the_query_back() {
    for order in ORDERS {
        for (kind, _) in KINDS {
            for len in [0usize, 1, 2, 17, 255, 256, 257, 4660, 65535] {
                let data: Vec<u8> = (0..len).map(|i| (i % 251) as u8).collect();
                let query = XuControlQuery::new(3, 12, kind, data.clone()).unwrap();
                let wire = query.encode(order);
                assert_eq!(wire.len(), XuControlQuery::HEADER_SIZE + len);
                let back = XuControlQuery::decode(&wire, order).unwrap();
                assert_eq!(back, query);
                assert_eq!(back.size() as usize, len);
                assert_eq!(back.data(), &data[..]);
            }
        }
    }
}

#[test]
fn decode_then_encode_gives_the_bytes_back() {
    let wire = [0x10, 0x20, 0x86, 0x00, 0x01, 0x99];
    let query = XuControlQuery::decode(&wire, ByteOrder::BigEndian).unwrap();
    assert_eq!(query.unit(), 0x10);
    assert_eq!(query.selector(), 0x20);
    assert_eq!(query.query(), XuQuery::GetInfo);
    assert_eq!(query.size(), 1);
    assert_eq!(query.data(), &[0x99]);
    assert_eq!(query.encode(ByteOrder::BigEndian), wire.to_vec());
}

#[test]
fn decode_refuses_less_than_a_header() {
    for order in ORDERS {
        for len in 0..XuControlQuery::HEADER_SIZE {
            let bytes = [0x01u8; 5];
            assert_eq!(
                XuControlQuery::decode(&bytes[..len], order),
                Err(DecodeError::Truncated)
            );
        }
    }
}

#[test]
fn decode_refuses_an_unknown_query_code() {
    for order in ORDERS {
        assert_eq!(
            XuControlQuery::decode(&[3, 12, 0x55, 0, 0], order),
            Err(DecodeError::UnknownQuery(0x55))
        );
        // The code is looked at before the size.
        assert_eq!(
            XuControlQuery::decode(&[3, 12, 0x00, 9, 9, 1], order),
            Err(DecodeError::UnknownQuery(0x00))
        );
    }
}

#[test]
fn decode_refuses_a_buffer_of_another_size() {
    let too_short = [3, 12, 0x01, 2, 0, 1];
    let too_long = [3, 12, 0x01, 2, 0, 1, 0, 0];
    assert_eq!(
        XuControlQuery::decode(&too_short, ByteOrder::LittleEndian),
        Err(DecodeError::SizeMismatch)
    );
    assert_eq!(
        XuControlQuery::decode(&too_long, ByteOrder::LittleEndian),
        Err(DecodeError::SizeMismatch)
    );
    // Read the other way round the field says 512.
    let exact = [3, 12, 0x01, 2, 0, 1, 0];
    assert!(XuControlQuery::decode(&exact, ByteOrder::LittleEndian).is_ok());
    assert_eq!(
        XuControlQuery::decode(&exact, ByteOrder::BigEndian),
        Err(DecodeError::SizeMismatch)
    );
}

#[test]
fn complete_passes_the_buffer_on() {
    let query = XuControlQuery::new(3, 9, XuQuery::GetCur, vec![0; 4]).unwrap();
    assert_eq!(query.complete(Ok(vec![9, 8, 7, 6])), Ok(vec![9, 8, 7, 6]));
    let set = XuControlQuery::new(3, 12, XuQuery::SetCur, vec![1, 0]).unwrap();
    assert_eq!(set.complete(Ok(vec![1, 0])), Ok(vec![1, 0]));
    let empty = XuControlQuery::new(3, 12, XuQuery::SetCur, Vec::new()).unwrap();
    assert_eq!(empty.complete(Ok(Vec::new())), Ok(Vec::new()));
}

#[test]
fn complete_passes_the_error_code_on() {
    let query = XuControlQuery::new(3, 9, XuQuery::GetCur, vec![0; 4]).unwrap();
    for code in [1, 2, 13, 19, 22, 25, -1, 0, i32::MAX, i32::MIN] {
        assert_eq!(query.complete(Err(code)), Err(QueryError::Os(code)));
    }
}

#[test]
fn complete_refuses_a_buffer_of_another_size() {
    let query = XuControlQuery::new(3, 9, XuQuery::GetCur, vec![0; 4]).unwrap();
    assert_eq!(query.complete(Ok(vec![1, 2, 3])), Err(QueryError::ReplyLength));
    assert_eq!(query.complete(Ok(vec![1, 2, 3, 4, 5])), Err(QueryError::ReplyLength));
    assert_eq!(query.complete(Ok(Vec::new())), Err(QueryError::ReplyLength));
}

#[test]
fn clone_is_the_same_query() {
    let query = XuControlQuery::new(3, 9, XuQuery::GetCur, vec![5, 6, 7]).unwrap();
    let copy = query.clone();
    assert_eq!(copy, query);
    assert_eq!(copy.encode(ByteOrder::LittleEndian), query.encode(ByteOrder::LittleEndian));
}

#[test]
fn a_call_that_returns_minus_one_has_failed() {
    assert_eq!(ioctl_outcome(-1, 19, vec![1, 2]), Err(19));
    assert_eq!(ioctl_outcome(-1, 13, Vec::new()), Err(13));
    assert_eq!(ioctl_outcome(-1, 0, vec![7]), Err(0));
}

#[test]
fn any_other_return_hands_the_buffer_over() {
    assert_eq!(ioctl_outcome(0, 0, vec![1, 2]), Ok(vec![1, 2]));
    // A stale error code of an earlier call does not count.
    assert_eq!(ioctl_outcome(0, 19, vec![1, 2]), Ok(vec![1, 2]));
    assert_eq!(ioctl_outcome(5, 19, Vec::new()), Ok(Vec::new()));
    assert_eq!(ioctl_outcome(-2, 19, vec![9]), Ok(vec![9]));
    assert_eq!(ioctl_outcome(i32::MIN, 1, vec![9]), Ok(vec![9]));
}

#[test]
fn a_failed_call_reaches_the_caller_with_its_code() {
    let query = XuControlQuery::new(99, 1, XuQuery::GetInfo, vec![0]).unwrap();
    let outcome = ioctl_outcome(-1, 19, query.data().to_vec());
    assert_eq!(query.complete(outcome), Err(QueryError::Os(19)));
    let outcome = ioctl_outcome(0, 19, vec![0x0F]);
    assert_eq!(query.complete(outcome), Ok(vec![0x0F]));
}
