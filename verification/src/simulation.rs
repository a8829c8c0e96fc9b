//! Decoding of dry-run ("simulate") return payloads.
//!
//! A simulation carries zero or one binary return payload together with its
//! declared text encoding. Exactly one encoding variant is supported; any
//! other tag is rejected. A missing payload is a normal "no value" result,
//! never an error, and the one caller with a natural empty default — account
//! metadata discovery — reinterprets "no value" as an empty list.
//!
//! The payload of the account-metadata instruction ends in one marker byte
//! placed after the encoded list, so that a transport that trims trailing
//! zero bytes from return data can never shorten the list itself.

use vstd::prelude::*;

use base64::Engine;

use crate::codec::AccountMeta;
use crate::codec::AccountMetaV;
use crate::codec::decode_account_metas;
use crate::codec::encode_account_metas;
use crate::codec::encoded_meta_list;
use crate::codec::meta_list_bytes_wf;
use crate::codec::metas_wf;
use crate::codec::views_of_metas;
use crate::errors::ChainError;

verus! {

/// The marker byte appended after an encoded account-meta list. It is not
/// zero, so a transport that trims trailing zero bytes leaves the encoded
/// list intact.
pub const RETURN_DATA_MARKER: u8 = 255;

/// The declared text encoding of a simulation return payload.
#[derive(Clone, Copy, Debug, PartialEq, Eq, Structural)]
pub enum ReturnDataEncoding {
    /// The one supported variant: standard-alphabet base64 text.
    Base64,
    /// Any other declared tag; carrying it here keeps the rejection explicit.
    Unrecognized,
}

/// One simulation return payload: encoded text plus its declared encoding.
#[derive(Clone, Debug, PartialEq, Eq)]
pub struct ReturnPayload {
    /// The payload text, in the declared encoding.
    pub data: String,
    /// The declared encoding of `data`.
    pub encoding: ReturnDataEncoding,
}

/// What the standard-alphabet base64 decoding of a text is: the byte string
/// it decodes to, or nothing where the text is not valid base64. The result
/// depends on the characters alone.
pub uninterp spec fn base64_decoding(s: Seq<char>) -> Option<Seq<u8>>;

/// Relies on base64's `Engine::decode` with the standard-alphabet engine:
/// decoding is a function of the input text alone, and fails exactly on text
/// that is not valid padded base64.
#[verifier::external_body]
fn base64_decode(s: &str) -> (r: Result<Vec<u8>, String>)
    ensures
        r matches Ok(v) ==> base64_decoding(s@) == Some(v@),
        r is Err ==> base64_decoding(s@) is None,
{
    match base64::engine::general_purpose::STANDARD.decode(s) {
        Ok(v) => Ok(v),
        Err(e) => Err(format!("{}", e)),
    }
}

/// Decodes one return payload into raw bytes. The one supported encoding is
/// decoded; any other declared tag is an unsupported-encoding failure, and
/// malformed text of the supported encoding is a decode failure. Nothing is
/// ever substituted for a payload that fails to decode.
pub fn decode_return_payload(payload: &ReturnPayload) -> (r: Result<Vec<u8>, ChainError>)
    ensures
        payload.encoding is Unrecognized ==> r == Err::<Vec<u8>, ChainError>(
            ChainError::UnsupportedEncoding,
        ),
        payload.encoding is Base64 ==> match r {
            Ok(v) => base64_decoding(payload.data@) == Some(v@),
            Err(e) => e is Decode && base64_decoding(payload.data@) is None,
        },
{
    match payload.encoding {
        ReturnDataEncoding::Base64 => match base64_decode(payload.data.as_str()) {
            Ok(v) => Ok(v),
            Err(m) => Err(ChainError::Decode(m)),
        },
        ReturnDataEncoding::Unrecognized => Err(ChainError::UnsupportedEncoding),
    }
}

/// Decodes the optional return payload of a simulation. A simulation that
/// returned nothing is a normal absent value; a payload that is present is
/// decoded as `decode_return_payload` does, and every failure is surfaced.
pub fn decode_simulation_return(return_data: Option<&ReturnPayload>) -> (r: Result<
    Option<Vec<u8>>,
    ChainError,
>)
    ensures
        return_data is None ==> r == Ok::<Option<Vec<u8>>, ChainError>(None),
        return_data matches Some(p) ==> {
            &&& p.encoding is Unrecognized ==> r == Err::<Option<Vec<u8>>, ChainError>(
                ChainError::UnsupportedEncoding,
            )
            &&& p.encoding is Base64 ==> match r {
                Ok(b) => b matches Some(v) && base64_decoding(p.data@) == Some(v@),
                Err(e) => e is Decode && base64_decoding(p.data@) is None,
            }
        },
{
    match return_data {
        None => Ok(None),
        Some(p) => match decode_return_payload(p) {
            Ok(v) => Ok(Some(v)),
            Err(e) => Err(e),
        },
    }
}

/// The byte string a simulated account-metadata instruction returns: the
/// encoded list followed by the marker byte.
pub open spec fn framed_meta_list(s: Seq<AccountMetaV>) -> Seq<u8> {
    encoded_meta_list(s).push(RETURN_DATA_MARKER)
}

/// A well-formed framed payload: at least the marker byte, and a well-formed
/// encoded list before it. The final byte itself carries no information.
pub open spec fn framed_bytes_wf(bytes: Seq<u8>) -> bool {
    bytes.len() >= 1 && meta_list_bytes_wf(bytes.drop_last())
}

/// Encodes an account-meta list the way the simulated instruction returns
/// it: the compact binary list, then the marker byte.
pub fn encode_account_meta_return(metas: &Vec<AccountMeta>) -> (r: Vec<u8>)
    requires
        metas@.len() <= u32::MAX,
        metas_wf(views_of_metas(metas@)),
    ensures
        r@ == framed_meta_list(views_of_metas(metas@)),
{
    let mut out = encode_account_metas(metas);
    out.push(RETURN_DATA_MARKER);
    out
}

/// Decodes a framed account-meta payload: every byte but the last must be a
/// well-formed encoded list, and succeeds exactly on such payloads.
pub fn decode_account_meta_bytes(bytes: &Vec<u8>) -> (r: Result<Vec<AccountMeta>, ChainError>)
    ensures
        r is Ok <==> framed_bytes_wf(bytes@),
        r matches Ok(v) ==> {
            &&& v@.len() <= u32::MAX
            &&& metas_wf(views_of_metas(v@))
            &&& bytes@.drop_last() == encoded_meta_list(views_of_metas(v@))
        },
        r matches Err(e) ==> e is Decode,
{
    if bytes.len() == 0 {
        return Err(ChainError::Decode("account-meta payload is empty".to_owned()));
    }
    let mut list = Vec::<u8>::new();
    let end = bytes.len() - 1;
    let mut i: usize = 0;
    while i < end
        invariant
            end == bytes@.len() - 1,
            i <= end,
            list@ == bytes@.take(i as int),
        decreases end - i,
    {
        list.push(bytes[i]);
        assert(list@ =~= bytes@.take(i as int + 1));
        i += 1;
    }
    assert(list@ =~= bytes@.drop_last());
    decode_account_metas(&list)
}

/// Decodes the optional return payload of a simulated account-metadata
/// instruction into the ordered descriptor list, or an absent value where
/// the simulation returned nothing.
pub fn decode_account_meta_return(return_data: Option<&ReturnPayload>) -> (r: Result<
    Option<Vec<AccountMeta>>,
    ChainError,
>)
    ensures
        return_data is None ==> r == Ok::<Option<Vec<AccountMeta>>, ChainError>(None),
        return_data matches Some(p) ==> {
            &&& p.encoding is Unrecognized ==> r == Err::<Option<Vec<AccountMeta>>, ChainError>(
                ChainError::UnsupportedEncoding,
            )
            &&& p.encoding is Base64 ==> match r {
                Ok(b) => {
                    &&& b matches Some(v)
                    &&& base64_decoding(p.data@) matches Some(raw)
                    &&& framed_bytes_wf(raw)
                    &&& raw.drop_last() == encoded_meta_list(views_of_metas(v@))
                    &&& metas_wf(views_of_metas(v@))
                    &&& v@.len() <= u32::MAX
                },
                Err(e) => {
                    &&& e is Decode
                    &&& match base64_decoding(p.data@) {
                        None => true,
                        Some(raw) => !framed_bytes_wf(raw),
                    }
                },
            }
        },
{
    match decode_simulation_return(return_data) {
        Ok(None) => Ok(None),
        Ok(Some(raw)) => match decode_account_meta_bytes(&raw) {
            Ok(v) => Ok(Some(v)),
            Err(e) => Err(e),
        },
        Err(e) => Err(e),
    }
}

/// The account-metadata discovery result: the decoded descriptor list, where
/// an absent return value decodes to an empty list, never an error. This is
/// the one place "no value" has a natural empty default.
pub fn account_metas_from_return(return_data: Option<&ReturnPayload>) -> (r: Result<
    Vec<AccountMeta>,
    ChainError,
>)
    ensures
        return_data is None ==> (r matches Ok(v) && v@.len() == 0),
        return_data matches Some(p) ==> {
            &&& p.encoding is Unrecognized ==> r == Err::<Vec<AccountMeta>, ChainError>(
                ChainError::UnsupportedEncoding,
            )
            &&& p.encoding is Base64 ==> match r {
                Ok(v) => {
                    &&& base64_decoding(p.data@) matches Some(raw)
                    &&& framed_bytes_wf(raw)
                    &&& raw.drop_last() == encoded_meta_list(views_of_metas(v@))
                },
                Err(e) => {
                    &&& e is Decode
                    &&& match base64_decoding(p.data@) {
                        None => true,
                        Some(raw) => !framed_bytes_wf(raw),
                    }
                },
            }
        },
{
    match decode_account_meta_return(return_data) {
        Ok(Some(v)) => Ok(v),
        Ok(None) => Ok(Vec::new()),
        Err(e) => Err(e),
    }
}

} // verus!
