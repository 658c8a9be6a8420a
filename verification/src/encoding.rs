//! Encoding resolver: from an optional label to a decoding policy.

use crate::error::{Error, ErrorModel};
use encoding_rs::Encoding;
use vstd::prelude::*;

verus! {

/// `encoding_rs::Encoding`, one named text encoding: carried from the lookup
/// of a label to the decoder, and never looked into.
#[verifier::external_type_specification]
#[verifier::external_body]
pub struct ExEncoding(Encoding);

/// The encoding that `encoding_rs` registers under a label, if any.
pub uninterp spec fn encoding_for_label(label: Seq<u8>) -> Option<&'static Encoding>;

/// The text that `encoding_rs` decodes a whole chunk to under an encoding,
/// after it has dropped a leading byte-order mark of that encoding.
pub uninterp spec fn decoded_without_bom(encoding: &Encoding, bytes: Seq<u8>) -> Seq<char>;

/// `Encoding::for_label`: the lookup of a label in the registry of named text
/// encodings. The result depends on the label's bytes alone; which labels are
/// known is left to the registry.
pub assume_specification[ Encoding::for_label ](label: &[u8]) -> (found: Option<&'static Encoding>)
    ensures
        found == encoding_for_label(label@),
;

/// Whether a chunk of this length can be decoded without exhausting the
/// address space: the decoder reserves room for a little over three bytes of
/// text per byte of input, at most twice over.
pub open spec fn decodable_len(len: nat) -> bool {
    len <= usize::MAX / 16
}

/// `Encoding::decode_with_bom_removal`: decodes a whole chunk, replacing
/// malformed input, and gives the text. The text depends on the encoding and
/// the bytes alone. The decoder fails where the size of its buffer overflows,
/// which the bound on the chunk's length rules out.
#[verifier::external_body]
pub(crate) fn decode_with_bom_removal(encoding: &'static Encoding, bytes: &[u8]) -> (text: String)
    requires
        decodable_len(bytes@.len()),
    ensures
        text@ == decoded_without_bom(encoding, bytes@),
{
    encoding.decode_with_bom_removal(bytes).0.into()
}

/// How the output of one process is decoded.
#[derive(Debug, Clone, Copy)]
pub enum EncodingWrapper {
    /// Bytes pass through unmodified.
    Raw,
    /// Text: strict UTF-8 where no encoding is named.
    Text(Option<&'static Encoding>),
}

/// The policy for a label, given what the registry of encodings holds for it.
pub open spec fn selected_encoding(
    label: Option<Seq<char>>,
    found: Option<&'static Encoding>,
) -> Result<EncodingWrapper, ErrorModel> {
    match label {
        None => Ok(EncodingWrapper::Text(None)),
        Some(l) => if l == "raw"@ {
            Ok(EncodingWrapper::Raw)
        } else {
            match found {
                Some(e) => Ok(EncodingWrapper::Text(Some(e))),
                None => Err(ErrorModel::UnknownEncoding(l)),
            }
        },
    }
}

/// The policy for a label: `selected_encoding` with the registry's answer.
pub open spec fn resolved_encoding(label: Option<Seq<char>>) -> Result<
    EncodingWrapper,
    ErrorModel,
> {
    match label {
        None => selected_encoding(label, None),
        Some(l) => selected_encoding(label, encoding_for_label(vstd::utf8::encode_utf8(l))),
    }
}

/// Whether a label is unknown: it is not `raw`, and the registry of encodings
/// holds nothing for it.
pub open spec fn unknown_label(label: Seq<char>) -> bool {
    label != "raw"@ && encoding_for_label(vstd::utf8::encode_utf8(label)) is None
}

/// Every unknown label is refused, and the refusal names the label.
pub proof fn lemma_unknown_label_refused(label: Seq<char>)
    ensures
        unknown_label(label) ==> resolved_encoding(Some(label)) == Err::<
            EncodingWrapper,
            ErrorModel,
        >(ErrorModel::UnknownEncoding(label)),
{
}

/// The view of an optional label.
pub open spec fn label_model(label: Option<String>) -> Option<Seq<char>> {
    match label {
        None => None,
        Some(l) => Some(l@),
    }
}

/// The view of a resolver's result.
pub open spec fn policy_model(r: Result<EncodingWrapper, Error>) -> Result<
    EncodingWrapper,
    ErrorModel,
> {
    match r {
        Ok(p) => Ok(p),
        Err(e) => Err(e@),
    }
}

/// Chooses the policy for `label`, where `found` is what the registry of
/// encodings holds for it: no label is strict UTF-8 text, `raw` is raw bytes,
/// a known label is text in its encoding, and any other label is refused.
pub fn select_encoding(label: Option<String>, found: Option<&'static Encoding>) -> (r: Result<
    EncodingWrapper,
    Error,
>)
    ensures
        policy_model(r) == selected_encoding(label_model(label), found),
{
    match label {
        None => Ok(EncodingWrapper::Text(None)),
        Some(l) => {
            let raw = "raw".to_owned();
            if l == raw {
                Ok(EncodingWrapper::Raw)
            } else {
                match found {
                    Some(e) => Ok(EncodingWrapper::Text(Some(e))),
                    None => Err(Error::UnknownEncoding(l)),
                }
            }
        },
    }
}

/// Resolves an optional label to a policy, or refuses it as unknown.
pub fn resolve_encoding(label: Option<String>) -> (r: Result<EncodingWrapper, Error>)
    ensures
        policy_model(r) == resolved_encoding(label_model(label)),
{
    let found = match &label {
        None => None,
        Some(l) => Encoding::for_label(l.as_str().as_bytes()),
    };
    select_encoding(label, found)
}

} // verus!
