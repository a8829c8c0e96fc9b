use base64::Engine;

use sealevel_adapter::AccountMeta;
use sealevel_adapter::ChainError;
use sealevel_adapter::ReturnDataEncoding;
use sealevel_adapter::ReturnPayload;
use sealevel_adapter::account_metas_from_return;
use sealevel_adapter::decode_account_meta_bytes;
use sealevel_adapter::decode_account_metas;
use sealevel_adapter::decode_return_payload;
use sealevel_adapter::decode_simulation_return;
use sealevel_adapter::encode_account_meta_return;
use sealevel_adapter::encode_account_metas;

fn sample_metas() -> Vec<AccountMeta> {
    vec![
        AccountMeta { pubkey: vec![1u8; 32], is_signer: true, is_writable: false },
        AccountMeta { pubkey: (0u8..32u8).collect(), is_signer: false, is_writable: true },
    ]
}

fn base64_of(bytes: &[u8]) -> String {
    base64::engine::general_purpose::STANDARD.encode(bytes)
}

#[test]
fn no_return_data_is_absent_value() {
    let r = decode_simulation_return(None);
    assert!(matches!(r, Ok(None)));
}

#[test]
fn no_return_data_gives_empty_account_metas() {
    let r = account_metas_from_return(None);
    assert_eq!(r.unwrap(), Vec::<AccountMeta>::new());
}

#[test]
fn unsupported_encoding_is_rejected() {
    let payload = ReturnPayload {
        data: base64_of(&[1, 2, 3]),
        encoding: ReturnDataEncoding::Unrecognized,
    };
    assert!(matches!(decode_return_payload(&payload), Err(ChainError::UnsupportedEncoding)));
    assert!(matches!(
        account_metas_from_return(Some(&payload)),
        Err(ChainError::UnsupportedEncoding)
    ));
}

#[test]
fn base64_payload_decodes_to_its_bytes() {
    let payload = ReturnPayload { data: base64_of(&[9, 8, 7, 0]), encoding: ReturnDataEncoding::Base64 };
    assert_eq!(decode_return_payload(&payload).unwrap(), vec![9, 8, 7, 0]);
}

#[test]
fn malformed_base64_is_decode_error() {
    let payload = ReturnPayload {
        data: "this is !not! base64".to_string(),
        encoding: ReturnDataEncoding::Base64,
    };
    assert!(matches!(decode_return_payload(&payload), Err(ChainError::Decode(_))));
}

#[test]
fn codec_round_trip_returns_the_original() {
    let metas = sample_metas();
    let bytes = encode_account_metas(&metas);
    let decoded = decode_account_metas(&bytes).unwrap();
    assert_eq!(decoded, metas);
}

#[test]
fn empty_list_round_trips() {
    let metas: Vec<AccountMeta> = Vec::new();
    let bytes = encode_account_metas(&metas);
    assert_eq!(bytes, vec![0, 0, 0, 0]);
    assert_eq!(decode_account_metas(&bytes).unwrap(), metas);
}

#[test]
fn simulation_path_round_trip_returns_the_original() {
    let metas = sample_metas();
    let framed = encode_account_meta_return(&metas);
    let payload = ReturnPayload { data: base64_of(&framed), encoding: ReturnDataEncoding::Base64 };
    let decoded = account_metas_from_return(Some(&payload)).unwrap();
    assert_eq!(decoded, metas);
}

#[test]
fn framed_payload_keeps_trailing_marker_safe() {
    // The last meta's flag bytes are zero; the marker byte keeps a transport
    // that trims trailing zeros from shortening the record.
    let metas = vec![AccountMeta { pubkey: vec![5u8; 32], is_signer: false, is_writable: false }];
    let framed = encode_account_meta_return(&metas);
    assert_eq!(*framed.last().unwrap(), 255);
    let payload = ReturnPayload { data: base64_of(&framed), encoding: ReturnDataEncoding::Base64 };
    assert_eq!(account_metas_from_return(Some(&payload)).unwrap(), metas);
}

#[test]
fn empty_payload_is_decode_error() {
    let r = decode_account_meta_bytes(&Vec::new());
    assert!(matches!(r, Err(ChainError::Decode(_))));
}

#[test]
fn truncated_payload_is_decode_error() {
    // Declares one element but carries none; the marker byte is present.
    let bytes = vec![1, 0, 0, 0, 255];
    let r = decode_account_meta_bytes(&bytes);
    assert!(matches!(r, Err(ChainError::Decode(_))));
}

#[test]
fn invalid_flag_byte_is_decode_error() {
    let mut bytes = vec![1, 0, 0, 0];
    bytes.extend_from_slice(&[3u8; 32]);
    bytes.push(2); // not a valid flag byte
    bytes.push(0);
    bytes.push(255);
    let r = decode_account_meta_bytes(&bytes);
    assert!(matches!(r, Err(ChainError::Decode(_))));
}

#[test]
fn malformed_payload_through_full_path_is_decode_error() {
    let payload = ReturnPayload { data: base64_of(&[1, 0, 0]), encoding: ReturnDataEncoding::Base64 };
    assert!(matches!(account_metas_from_return(Some(&payload)), Err(ChainError::Decode(_))));
}
