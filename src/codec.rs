use crate::text::{decimal, push_decimal};
use vstd::prelude::*;
use vstd::string::*;

verus! {

/// The standard padded base64 text of `bytes`.
pub uninterp spec fn base64_encoding(bytes: Seq<u8>) -> Seq<char>;

/// The bytes that standard padded base64 `text` stands for, or `None` where
/// `text` is no such encoding.
pub uninterp spec fn base64_decoding(text: Seq<char>) -> Option<Seq<u8>>;

/// The longest base64 text, in characters, that is handed to the decoder; its
/// bytes then stay within what `data_encoding` decodes without panicking on
/// 32-bit targets.
pub const MAX_BASE64_TEXT: usize = 134_217_727;

/// Relies on `data_encoding::BASE64.encode`, which is a function of the bytes
/// alone and does not panic below 8_388_608 input bytes.
#[verifier::external_body]
pub(crate) fn encode_base64(bytes: &[u8]) -> (r: String)
    requires
        bytes@.len() <= 8_388_607,
    ensures
        r@ == base64_encoding(bytes@),
{
    data_encoding::BASE64.encode(bytes)
}

/// Relies on `data_encoding::BASE64.decode` on the text's bytes: a function of
/// the text alone, which fails on text that is no padded base64.
#[verifier::external_body]
pub(crate) fn decode_base64(text: &str) -> (r: Option<Vec<u8>>)
    requires
        text@.len() <= MAX_BASE64_TEXT,
    ensures
        match r {
            Some(bytes) => base64_decoding(text@) == Some(bytes@),
            None => base64_decoding(text@) is None,
        },
{
    match data_encoding::BASE64.decode(text.as_bytes()) {
        Ok(bytes) => Some(bytes),
        Err(_) => None,
    }
}

/// The JSON object sent with an exchange, fields in this order:
/// `{"dad":..,"sad":..,"lenc":..,"command":"..","lenr":..}`.
pub open spec fn exchange_body_text(
    dad: u8,
    sad: u8,
    lenc: u16,
    command: Seq<char>,
    lenr: u16,
) -> Seq<char> {
    "{\"dad\":"@ + decimal(dad as nat) + ",\"sad\":"@ + decimal(sad as nat) + ",\"lenc\":"@
        + decimal(lenc as nat) + ",\"command\":\""@ + command + "\",\"lenr\":"@ + decimal(
        lenr as nat,
    ) + "}"@
}

/// Writes the JSON body of an exchange; `command` is the base64 text of the
/// command bytes.
pub fn exchange_body(dad: u8, sad: u8, lenc: u16, command: &str, lenr: u16) -> (r: String)
    ensures
        r@ == exchange_body_text(dad, sad, lenc, command@, lenr),
{
    let mut out = String::from_str("{\"dad\":");
    push_decimal(&mut out, dad as u16);
    out.append(",\"sad\":");
    push_decimal(&mut out, sad as u16);
    out.append(",\"lenc\":");
    push_decimal(&mut out, lenc);
    out.append(",\"command\":\"");
    out.append(command);
    out.append("\",\"lenr\":");
    push_decimal(&mut out, lenr);
    out.append("}");
    out
}

} // verus!
