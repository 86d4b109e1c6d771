//! Framing payloads as a type URL with encoded bytes, and reading them back.

use vstd::prelude::*;
use crate::payloads::types::{
    check_type_url, BlobPayload, DecodedPayload, EventPayload, PayloadError, ProtoAny, TextPayload,
    TypeUrl,
};

verus! {

/// Frame the encoded bytes of a payload of type `T` under `T`'s type URL.
pub fn to_any<T: TypeUrl>(encoded: Vec<u8>) -> (r: ProtoAny)
    ensures
        r.type_url@ == T::spec_type_url(),
        r.value@ == encoded@,
{
    ProtoAny { type_url: String::from_str(T::type_url()), value: encoded }
}

/// Read a payload of type `T` from `any`: refused when `any` carries another
/// type URL; otherwise `decoded` is the outcome of decoding `any.value` as a
/// `T` (the value, or the decoder's message).
pub fn from_any<T: TypeUrl>(any: &ProtoAny, decoded: Result<T, String>) -> (r: Result<T, PayloadError>)
    ensures
        any.type_url@ != T::spec_type_url() ==> (r matches Err(
            PayloadError::TypeMismatch { expected, actual },
        ) && expected@ == T::spec_type_url() && actual@ == any.type_url@),
        any.type_url@ == T::spec_type_url() ==> match decoded {
            Ok(v) => r == Ok::<T, PayloadError>(v),
            Err(m) => r matches Err(PayloadError::DeserializationError(x)) && x@ == m@,
        },
{
    match check_type_url(any, T::type_url()) {
        Err(e) => Err(e),
        Ok(()) => match decoded {
            Ok(v) => Ok(v),
            Err(m) => Err(PayloadError::DeserializationError(m)),
        },
    }
}

/// Read a payload of type `T` from `any`, as `from_any` does.
pub fn from_any_typed<T: TypeUrl>(any: &ProtoAny, decoded: Result<T, String>) -> (r: Result<
    T,
    PayloadError,
>)
    ensures
        any.type_url@ != T::spec_type_url() ==> (r matches Err(
            PayloadError::TypeMismatch { expected, actual },
        ) && expected@ == T::spec_type_url() && actual@ == any.type_url@),
        any.type_url@ == T::spec_type_url() ==> match decoded {
            Ok(v) => r == Ok::<T, PayloadError>(v),
            Err(m) => r matches Err(PayloadError::DeserializationError(x)) && x@ == m@,
        },
{
    from_any(any, decoded)
}

/// Read whichever payload type `any` holds, trying text, then binary, then
/// event payloads; `text`, `blob` and `event` are the outcomes of decoding
/// `any.value` as each. When none succeeds, the type URL is unknown.
pub fn try_parse_any(
    any: &ProtoAny,
    text: Result<TextPayload, String>,
    blob: Result<BlobPayload, String>,
    event: Result<EventPayload, String>,
) -> (r: Result<DecodedPayload, PayloadError>)
    ensures
        any.type_url@ == TextPayload::spec_type_url() && text is Ok ==> r == Ok::<
            DecodedPayload,
            PayloadError,
        >(DecodedPayload::Text(text->Ok_0)),
        any.type_url@ == BlobPayload::spec_type_url() && blob is Ok ==> r == Ok::<
            DecodedPayload,
            PayloadError,
        >(DecodedPayload::Blob(blob->Ok_0)),
        any.type_url@ == EventPayload::spec_type_url() && event is Ok ==> r == Ok::<
            DecodedPayload,
            PayloadError,
        >(DecodedPayload::Event(event->Ok_0)),
        !(any.type_url@ == TextPayload::spec_type_url() && text is Ok) && !(any.type_url@
            == BlobPayload::spec_type_url() && blob is Ok) && !(any.type_url@
            == EventPayload::spec_type_url() && event is Ok) ==> (r matches Err(
            PayloadError::UnknownType(u),
        ) && u@ == any.type_url@),
{
    proof {
        reveal_strlit("type.googleapis.com/loquat.payloads.TextPayload");
        reveal_strlit("type.googleapis.com/loquat.payloads.BlobPayload");
        reveal_strlit("type.googleapis.com/loquat.payloads.EventPayload");
        assert(TextPayload::spec_type_url()[36] != BlobPayload::spec_type_url()[36]);
        assert(TextPayload::spec_type_url()[36] != EventPayload::spec_type_url()[36]);
        assert(BlobPayload::spec_type_url()[36] != EventPayload::spec_type_url()[36]);
    }
    if let Ok(t) = from_any::<TextPayload>(any, text) {
        return Ok(DecodedPayload::Text(t));
    }
    if let Ok(b) = from_any::<BlobPayload>(any, blob) {
        return Ok(DecodedPayload::Blob(b));
    }
    if let Ok(e) = from_any::<EventPayload>(any, event) {
        return Ok(DecodedPayload::Event(e));
    }
    Err(PayloadError::UnknownType(any.type_url.clone()))
}

} // verus!
