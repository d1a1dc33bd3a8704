use contract_workflow::envelope;
use contract_workflow::errors::WorkflowError;
use contract_workflow::wire;

#[test]
fn u64_encodes_big_endian() {
    assert_eq!(wire::encode_u64_be(1), vec![0, 0, 0, 0, 0, 0, 0, 1]);
    assert_eq!(
        wire::encode_u64_be(0x0102030405060708),
        vec![1, 2, 3, 4, 5, 6, 7, 8]
    );
}

#[test]
fn u64_roundtrip() {
    let v = 0xdeadbeef01020304u64;
    let bytes = wire::encode_u64_be(v);
    assert_eq!(wire::decode_u64_be(&bytes).unwrap(), v);
}

#[test]
fn eight_byte_payload_decodes() {
    let data = [0u8, 0, 0, 0, 0, 0, 0, 1];
    assert_eq!(wire::decode_u64_be(&data).unwrap(), 1);
}

#[test]
fn short_payload_is_decode_error() {
    let r = wire::decode_u64_be(&[0, 0, 1]);
    assert!(matches!(r, Err(WorkflowError::DecodeError)));
}

#[test]
fn long_payload_is_decode_error() {
    let r = wire::decode_u64_be(&[0, 0, 0, 0, 0, 0, 0, 1, 0]);
    assert!(matches!(r, Err(WorkflowError::DecodeError)));
}

#[test]
fn envelope_roundtrip_short_payload() {
    let payload = [0u8, 0, 0, 0, 0, 0, 0, 1];
    let enveloped = envelope::encode_envelope(&payload);
    assert_eq!(enveloped, vec![0x0a, 8, 0, 0, 0, 0, 0, 0, 0, 1]);
    let back = envelope::decode_envelope(&enveloped).unwrap();
    assert_eq!(back, payload.to_vec());
}

#[test]
fn envelope_roundtrip_two_byte_length() {
    let payload: Vec<u8> = (0..300u16).map(|i| (i % 251) as u8).collect();
    let enveloped = envelope::encode_envelope(&payload);
    assert_eq!(enveloped[0], 0x0a);
    assert_eq!(enveloped[1], 0xac);
    assert_eq!(enveloped[2], 0x02);
    let back = envelope::decode_envelope(&enveloped).unwrap();
    assert_eq!(back, payload);
}

#[test]
fn empty_envelope_denotes_empty_payload() {
    assert_eq!(envelope::encode_envelope(&[]), Vec::<u8>::new());
    assert_eq!(envelope::decode_envelope(&[]).unwrap(), Vec::<u8>::new());
}

#[test]
fn envelope_with_wrong_key_byte_is_decode_error() {
    let r = envelope::decode_envelope(&[0x08, 0x01]);
    assert!(matches!(r, Err(WorkflowError::DecodeError)));
}

#[test]
fn envelope_with_wrong_length_is_decode_error() {
    let r = envelope::decode_envelope(&[0x0a, 5, 1, 2]);
    assert!(matches!(r, Err(WorkflowError::DecodeError)));
    let r = envelope::decode_envelope(&[0x0a, 1, 1, 2]);
    assert!(matches!(r, Err(WorkflowError::DecodeError)));
}

#[test]
fn envelope_with_unterminated_length_is_decode_error() {
    let r = envelope::decode_envelope(&[0x0a, 0x80]);
    assert!(matches!(r, Err(WorkflowError::DecodeError)));
}

#[test]
fn envelope_accepts_padded_length_varint() {
    let enveloped = [0x0au8, 0x88, 0x00, 1, 2, 3, 4, 5, 6, 7, 8];
    let back = envelope::decode_envelope(&enveloped).unwrap();
    assert_eq!(back, vec![1, 2, 3, 4, 5, 6, 7, 8]);
}
