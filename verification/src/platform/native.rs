use base64::Engine;
use vstd::prelude::*;

use crate::text::{contains_text, text_contains};

verus! {

/// What a native (Objective-C) value converts to, as told by its class name.
#[derive(Debug, Clone, Copy, PartialEq, Eq, Structural)]
pub enum NativeValueKind {
    Text,
    Boolean,
    Number,
    Array,
    Dictionary,
    Null,
}

/// The kind of a native value by its class name: a string class, a boolean class, a
/// number class, an array class, a dictionary class, and `null` for anything else.
pub open spec fn native_value_kind(class_name: Seq<char>) -> NativeValueKind {
    if contains_text(class_name, "String"@) {
        NativeValueKind::Text
    } else if contains_text(class_name, "Boolean"@) {
        NativeValueKind::Boolean
    } else if contains_text(class_name, "Number"@) {
        NativeValueKind::Number
    } else if contains_text(class_name, "Array"@) {
        NativeValueKind::Array
    } else if contains_text(class_name, "Dictionary"@) {
        NativeValueKind::Dictionary
    } else {
        NativeValueKind::Null
    }
}

/// Classifies a native value by its class name, for its conversion to JSON.
pub fn classify_native_value(class_name: &str) -> (kind: NativeValueKind)
    ensures
        kind == native_value_kind(class_name@),
{
    if text_contains(class_name, "String") {
        NativeValueKind::Text
    } else if text_contains(class_name, "Number") || text_contains(class_name, "Boolean") {
        if text_contains(class_name, "Boolean") {
            NativeValueKind::Boolean
        } else {
            NativeValueKind::Number
        }
    } else if text_contains(class_name, "Array") {
        NativeValueKind::Array
    } else if text_contains(class_name, "Dictionary") {
        NativeValueKind::Dictionary
    } else {
        NativeValueKind::Null
    }
}

/// The standard (RFC 4648, padded) Base64 text of a byte sequence, as the `base64` crate
/// writes it.
pub uninterp spec fn base64_standard(bytes: Seq<u8>) -> Seq<char>;

/// Calls `base64::engine::general_purpose::STANDARD.encode`: the padded standard Base64
/// text of the bytes, which the crate sizes at four characters for every started group of
/// three bytes. It panics only when that size overflows `usize`, which the bound on the
/// input rules out.
#[verifier::external_body]
fn encode_base64(bytes: &[u8]) -> (text: String)
    requires
        bytes@.len() <= usize::MAX / 2,
    ensures
        text@ == base64_standard(bytes@),
        text@.len() == 4 * ((bytes@.len() + 2) / 3),
{
    base64::engine::general_purpose::STANDARD.encode(bytes)
}

/// The payload of a screenshot: the Base64 text of the PNG bytes, or the failure to
/// convert the image to PNG.
pub fn png_payload(png: Option<Vec<u8>>) -> (r: Result<String, String>)
    requires
        png matches Some(bytes) ==> bytes@.len() <= usize::MAX / 2,
    ensures
        match png {
            Some(bytes) => r matches Ok(text) && text@ == base64_standard(bytes@),
            None => r matches Err(msg) && msg@ == "Failed to convert to PNG"@,
        },
{
    match png {
        Some(bytes) => Ok(encode_base64(bytes.as_slice())),
        None => Err("Failed to convert to PNG".to_string()),
    }
}

} // verus!
