use statsig_rust::http_types::ResponseData;
use statsig_rust::proto_stream_reader::{cut_frame, frame_length, ProtoStreamReader, BUFFER_SIZE};
use std::io::Write;

fn encode_varint(mut v: usize, out: &mut Vec<u8>) {
    loop {
        if v < 0x80 {
            out.push(v as u8);
            return;
        }
        out.push((v as u8 & 0x7f) | 0x80);
        v >>= 7;
    }
}

fn decode_varint(bytes: &[u8]) -> (usize, usize) {
    let mut value = 0usize;
    let mut i = 0;
    loop {
        let b = bytes[i];
        value |= ((b & 0x7f) as usize) << (7 * i);
        i += 1;
        if b < 0x80 {
            return (value, i);
        }
    }
}

/// A message whose field 1 is the string `content`.
fn encode_message(content: &str) -> Vec<u8> {
    let mut msg = Vec::new();
    if !content.is_empty() {
        msg.push(0x0a);
        encode_varint(content.len(), &mut msg);
        msg.extend_from_slice(content.as_bytes());
    }
    msg
}

/// The string field of a length-delimited message frame.
fn decode_length_delimited(frame: &[u8]) -> String {
    let (len, used) = decode_varint(frame);
    assert_eq!(frame.len(), used + len);
    let msg = &frame[used..];
    if msg.is_empty() {
        return String::new();
    }
    assert_eq!(msg[0], 0x0a);
    let (slen, sused) = decode_varint(&msg[1..]);
    String::from_utf8(msg[1 + sused..1 + sused + slen].to_vec()).unwrap()
}

fn create_test_proto_data(messages: Vec<&str>) -> Vec<u8> {
    let mut encoded = Vec::new();
    for content in messages {
        let msg = encode_message(content);
        encode_varint(msg.len(), &mut encoded);
        encoded.extend_from_slice(&msg);
    }
    let mut compressed = Vec::new();
    let params = brotli::enc::BrotliEncoderParams::default();
    {
        let mut writer = brotli::CompressorWriter::with_params(&mut compressed, BUFFER_SIZE, &params);
        writer.write_all(&encoded).unwrap();
        writer.flush().unwrap();
    }
    compressed
}

#[test]
fn test_reading_empty_data() {
    let data = ResponseData::from_bytes(b"".to_vec());
    let mut reader = ProtoStreamReader::new(&data);
    let result = reader.read_next_delimited_proto();
    assert!(result.is_err());
}

#[test]
fn test_reading_json_data() {
    let data = ResponseData::from_bytes(r#"{"has_updates":true}"#.to_string().as_bytes().to_vec());
    let mut reader = ProtoStreamReader::new(&data);
    let result = reader.read_next_delimited_proto();
    assert!(result.is_err());
}

#[test]
fn test_multiple_consecutive_messages() {
    let test_data = create_test_proto_data(vec!["msg1", "msg2", "msg3"]);
    let data = ResponseData::from_bytes(test_data);
    let mut reader = ProtoStreamReader::new(&data);

    let msg1 = reader.read_next_delimited_proto().unwrap();
    let msg2 = reader.read_next_delimited_proto().unwrap();
    let msg3 = reader.read_next_delimited_proto().unwrap();

    assert_eq!(decode_length_delimited(msg1.as_ref()), "msg1");
    assert_eq!(decode_length_delimited(msg2.as_ref()), "msg2");
    assert_eq!(decode_length_delimited(msg3.as_ref()), "msg3");
}

#[test]
fn test_zero_length_message() {
    let test_data = create_test_proto_data(vec![""]);
    let data = ResponseData::from_bytes(test_data);
    let mut reader = ProtoStreamReader::new(&data);
    let result = reader.read_next_delimited_proto().unwrap();
    assert_eq!(decode_length_delimited(result.as_ref()), "");
}

#[test]
fn test_message_at_buffer_boundary() {
    let less_than_buffer_size = "x".repeat(BUFFER_SIZE - 1);
    let exact_size = "x".repeat(BUFFER_SIZE);
    let more_than_buffer_size = "x".repeat(BUFFER_SIZE + 1);
    let test_data = create_test_proto_data(vec![
        &less_than_buffer_size,
        &exact_size,
        &more_than_buffer_size,
    ]);
    let data = ResponseData::from_bytes(test_data);
    let mut reader = ProtoStreamReader::new(&data);

    for i in 0..2 {
        let result = reader.read_next_delimited_proto().unwrap();
        let decoded = decode_length_delimited(result.as_ref());
        match i {
            0 => assert_eq!(decoded.len(), BUFFER_SIZE - 1),
            1 => assert_eq!(decoded.len(), BUFFER_SIZE),
            2 => assert_eq!(decoded.len(), BUFFER_SIZE + 1),
            _ => panic!("Invalid index"),
        }
    }
}

#[test]
fn test_calling_after_exhaustion() {
    let test_data = create_test_proto_data(vec!["single"]);
    let data = ResponseData::from_bytes(test_data);
    let mut reader = ProtoStreamReader::new(&data);
    let msg1 = reader.read_next_delimited_proto().unwrap();
    assert_eq!(decode_length_delimited(msg1.as_ref()), "single");
    let result = reader.read_next_delimited_proto();
    assert!(result.is_err());
}

#[test]
fn test_mixed_size_messages() {
    let test_data =
        create_test_proto_data(vec!["small", &"x".repeat(2000), "medium", &"y".repeat(100)]);
    let data = ResponseData::from_bytes(test_data);
    let mut reader = ProtoStreamReader::new(&data);

    let msg1 = reader.read_next_delimited_proto().unwrap();
    assert_eq!(decode_length_delimited(msg1.as_ref()), "small");
    let msg2 = reader.read_next_delimited_proto().unwrap();
    assert_eq!(decode_length_delimited(msg2.as_ref()).len(), 2000);
    let msg3 = reader.read_next_delimited_proto().unwrap();
    assert_eq!(decode_length_delimited(msg3.as_ref()), "medium");
    let msg4 = reader.read_next_delimited_proto().unwrap();
    assert_eq!(decode_length_delimited(msg4.as_ref()).len(), 100);
}

#[test]
fn truncated_stream_is_an_error() {
    let test_data = create_test_proto_data(vec![&"z".repeat(3000)]);
    let truncated = test_data[..test_data.len() / 2].to_vec();
    let data = ResponseData::from_bytes(truncated);
    let mut reader = ProtoStreamReader::new(&data);
    assert!(reader.read_next_delimited_proto().is_err());
}

#[test]
fn cut_frame_splits_one_frame_off() {
    let bytes = [3u8, 1, 2, 3, 9, 9];
    let (frame, rest) = cut_frame(&bytes).unwrap();
    assert_eq!(frame, vec![3u8, 1, 2, 3]);
    assert_eq!(rest, vec![9u8, 9]);
    assert_eq!(frame_length(&bytes).unwrap(), 4);
    assert!(cut_frame(&[5u8, 1, 2]).is_none());
    assert!(cut_frame(&[]).is_none());
    let (frame, rest) = cut_frame(&[0u8]).unwrap();
    assert_eq!(frame, vec![0u8]);
    assert!(rest.is_empty());
}

#[test]
fn cut_frame_reads_a_multi_byte_length() {
    let mut bytes = Vec::new();
    encode_varint(200, &mut bytes);
    bytes.extend(std::iter::repeat(7u8).take(200));
    bytes.push(1);
    let (frame, rest) = cut_frame(&bytes).unwrap();
    assert_eq!(frame.len(), 202);
    assert_eq!(rest, vec![1u8]);
    assert!(frame_length(&[0x80u8, 0x80]).is_err());
}

#[test]
fn truncated_brotli_stream_is_an_error() {
    let compressed = create_test_proto_data(vec!["first message", "second message"]);
    let cut = compressed[..compressed.len() / 2].to_vec();
    let data = ResponseData::from_bytes(cut);
    let mut reader = ProtoStreamReader::new(&data);
    let mut failed = false;
    for _ in 0..3 {
        if reader.read_next_delimited_proto().is_err() {
            failed = true;
            break;
        }
    }
    assert!(failed);
}
