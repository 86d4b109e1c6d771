//! The payload registry: which type URLs can be decoded.

use vstd::prelude::*;
use crate::payloads::adapter::from_any;
use crate::payloads::types::{
    BlobPayload, DecodedPayload, EventPayload, PayloadError, ProtoAny, TextPayload, TypeUrl,
};
use crate::text::str_eq;

verus! {

/// Errors of the registry.
#[derive(Debug, Clone, PartialEq, Eq)]
pub enum RegistryError {
    AlreadyRegistered(String),
    NotRegistered(String),
    DeserializationError(String),
}

/// The set of registered payload type URLs.
#[derive(Debug)]
pub struct PayloadRegistry {
    types: Vec<String>,
}

/// No URL occurs twice.
pub open spec fn urls_distinct(s: Seq<Seq<char>>) -> bool {
    forall|i: int, j: int| 0 <= i < s.len() && 0 <= j < s.len() && i != j ==> s[i] != s[j]
}

impl View for PayloadRegistry {
    type V = Set<Seq<char>>;

    closed spec fn view(&self) -> Set<Seq<char>> {
        self.types@.map_values(|s: String| s@).to_set()
    }
}

impl PayloadRegistry {
    #[verifier::type_invariant]
    spec fn well_formed(self) -> bool {
        urls_distinct(self.types@.map_values(|s: String| s@))
    }

    /// The number of registered URLs.
    pub closed spec fn spec_count(&self) -> nat {
        self.types@.len()
    }

    /// An empty registry.
    pub fn new() -> (r: Self)
        ensures
            r@ == Set::<Seq<char>>::empty(),
            r.spec_count() == 0,
    {
        let v: Vec<String> = Vec::new();
        let r = PayloadRegistry { types: v };
        assert(r@ =~= Set::<Seq<char>>::empty());
        r
    }

    fn position(&self, type_url: &str) -> (r: Option<usize>)
        ensures
            r matches Some(i) ==> i < self.types@.len() && self.types@[i as int]@ == type_url@,
            r is None ==> forall|i: int| 0 <= i < self.types@.len() ==> self.types@[i]@ != type_url@,
    {
        let n = self.types.len();
        let mut i: usize = 0;
        while i < n
            invariant
                n == self.types@.len(),
                i <= n,
                forall|j: int| 0 <= j < i ==> self.types@[j]@ != type_url@,
            decreases n - i,
        {
            if str_eq(self.types[i].as_str(), type_url) {
                return Some(i);
            }
            i = i + 1;
        }
        None
    }

    /// Register a type URL; an already registered URL is refused.
    pub fn register_type_url(&mut self, type_url: &str) -> (r: Result<(), RegistryError>)
        ensures
            r is Ok <==> !old(self)@.contains(type_url@),
            r is Ok ==> final(self)@ == old(self)@.insert(type_url@) && final(self).spec_count()
                == old(self).spec_count() + 1,
            r matches Err(e) ==> (final(self)@ == old(self)@ && final(self).spec_count()
                == old(self).spec_count() && (e matches RegistryError::AlreadyRegistered(u) && u@
                == type_url@)),
    {
        proof {
            use_type_invariant(&*self);
        }
        let ghost old_urls = self.types@.map_values(|s: String| s@);
        match self.position(type_url) {
            Some(i) => {
                proof {
                    assert(old_urls[i as int] == type_url@);
                }
                Err(RegistryError::AlreadyRegistered(String::from_str(type_url)))
            },
            None => {
                proof {
                    assert(!old_urls.contains(type_url@));
                }
                let mut types: Vec<String> = Vec::new();
                std::mem::swap(&mut types, &mut self.types);
                types.push(String::from_str(type_url));
                proof {
                    assert(types@.map_values(|s: String| s@) =~= old_urls.push(type_url@));
                }
                self.types = types;
                proof {
                    old_urls.lemma_push_to_set_commute(type_url@);
                    assert(self@ =~= old(self)@.insert(type_url@));
                }
                Ok(())
            },
        }
    }

    /// Register the payload type `T` under its type URL.
    pub fn register<T: TypeUrl>(&mut self) -> (r: Result<(), RegistryError>)
        ensures
            r is Ok <==> !old(self)@.contains(T::spec_type_url()),
            r is Ok ==> final(self)@ == old(self)@.insert(T::spec_type_url()),
            r is Err ==> final(self)@ == old(self)@,
    {
        self.register_type_url(T::type_url())
    }

    /// Whether `type_url` is registered.
    pub fn is_registered(&self, type_url: &str) -> (r: bool)
        ensures
            r == self@.contains(type_url@),
    {
        let found = self.position(type_url);
        proof {
            let urls = self.types@.map_values(|s: String| s@);
            if let Some(i) = found {
                assert(urls[i as int] == type_url@);
            }
        }
        found.is_some()
    }

    /// Checks that a payload of `type_url` can be decoded.
    pub fn check_registered(&self, type_url: &str) -> (r: Result<(), PayloadError>)
        ensures
            r is Ok <==> self@.contains(type_url@),
            r matches Err(e) ==> (e matches PayloadError::UnknownType(u) && u@ == type_url@),
    {
        if self.is_registered(type_url) {
            Ok(())
        } else {
            Err(PayloadError::UnknownType(String::from_str(type_url)))
        }
    }

    /// All registered URLs, in registration order.
    pub fn registered_types(&self) -> (r: Vec<String>)
        ensures
            r@.map_values(|s: String| s@).to_set() == self@,
            r@.len() == self.spec_count(),
    {
        let n = self.types.len();
        let mut out: Vec<String> = Vec::new();
        let mut i: usize = 0;
        while i < n
            invariant
                n == self.types@.len(),
                i <= n,
                out@ == self.types@.subrange(0, i as int),
            decreases n - i,
        {
            out.push(self.types[i].clone());
            assert(out@ =~= self.types@.subrange(0, i + 1));
            i = i + 1;
        }
        assert(out@ =~= self.types@);
        out
    }

    /// The number of registered URLs.
    pub fn count(&self) -> (r: usize)
        ensures
            r == self.spec_count(),
    {
        self.types.len()
    }
}

/// A registry holding the text, blob and event payload types.
pub fn default_registry() -> (r: PayloadRegistry)
    ensures
        r@ == set![
            TextPayload::spec_type_url(),
            BlobPayload::spec_type_url(),
            EventPayload::spec_type_url(),
        ],
{
    let mut registry = PayloadRegistry::new();
    let a = registry.register::<TextPayload>();
    proof {
        reveal_strlit("type.googleapis.com/loquat.payloads.TextPayload");
        reveal_strlit("type.googleapis.com/loquat.payloads.BlobPayload");
        reveal_strlit("type.googleapis.com/loquat.payloads.EventPayload");
    }
    let b = registry.register::<BlobPayload>();
    let c = registry.register::<EventPayload>();
    assert(registry@ =~= set![
        TextPayload::spec_type_url(),
        BlobPayload::spec_type_url(),
        EventPayload::spec_type_url(),
    ]);
    registry
}

/// Decode `any` as the payload type registered under `type_url`: refused when
/// no type is registered under it; `text`, `blob` and `event` are the
/// outcomes of decoding `any.value` as each payload type.
pub fn deserialize(
    registry: &PayloadRegistry,
    type_url: &str,
    any: &ProtoAny,
    text: Result<TextPayload, String>,
    blob: Result<BlobPayload, String>,
    event: Result<EventPayload, String>,
) -> (r: Result<DecodedPayload, PayloadError>)
    ensures
        !registry@.contains(type_url@) ==> (r matches Err(PayloadError::UnknownType(u)) && u@
            == type_url@),
        registry@.contains(type_url@) && type_url@ == TextPayload::spec_type_url()
            && any.type_url@ == type_url@ ==> match text {
            Ok(t) => r == Ok::<DecodedPayload, PayloadError>(DecodedPayload::Text(t)),
            Err(m) => r matches Err(PayloadError::DeserializationError(x)) && x@ == m@,
        },
        registry@.contains(type_url@) && type_url@ == BlobPayload::spec_type_url()
            && any.type_url@ == type_url@ ==> match blob {
            Ok(b) => r == Ok::<DecodedPayload, PayloadError>(DecodedPayload::Blob(b)),
            Err(m) => r matches Err(PayloadError::DeserializationError(x)) && x@ == m@,
        },
        registry@.contains(type_url@) && type_url@ == EventPayload::spec_type_url()
            && any.type_url@ == type_url@ ==> match event {
            Ok(e) => r == Ok::<DecodedPayload, PayloadError>(DecodedPayload::Event(e)),
            Err(m) => r matches Err(PayloadError::DeserializationError(x)) && x@ == m@,
        },
{
    if !registry.is_registered(type_url) {
        return Err(PayloadError::UnknownType(String::from_str(type_url)));
    }
    proof {
        reveal_strlit("type.googleapis.com/loquat.payloads.TextPayload");
        reveal_strlit("type.googleapis.com/loquat.payloads.BlobPayload");
        reveal_strlit("type.googleapis.com/loquat.payloads.EventPayload");
        assert(TextPayload::spec_type_url()[36] != BlobPayload::spec_type_url()[36]);
        assert(TextPayload::spec_type_url()[36] != EventPayload::spec_type_url()[36]);
        assert(BlobPayload::spec_type_url()[36] != EventPayload::spec_type_url()[36]);
    }
    if str_eq(type_url, TextPayload::type_url()) {
        match from_any::<TextPayload>(any, text) {
            Ok(t) => Ok(DecodedPayload::Text(t)),
            Err(e) => Err(e),
        }
    } else if str_eq(type_url, BlobPayload::type_url()) {
        match from_any::<BlobPayload>(any, blob) {
            Ok(b) => Ok(DecodedPayload::Blob(b)),
            Err(e) => Err(e),
        }
    } else if str_eq(type_url, EventPayload::type_url()) {
        match from_any::<EventPayload>(any, event) {
            Ok(e) => Ok(DecodedPayload::Event(e)),
            Err(e) => Err(e),
        }
    } else {
        Err(PayloadError::UnknownType(String::from_str(type_url)))
    }
}

/// Registering a URL makes it registered and leaves every other URL as it was.
pub proof fn lemma_register_then_registered(urls: Set<Seq<char>>, url: Seq<char>)
    ensures
        urls.insert(url).contains(url),
        forall|u: Seq<char>| u != url ==> urls.insert(url).contains(u) == urls.contains(u),
{
}

/// Decode `any` with the default registry, under its own type URL.
pub fn deserialize_with_default(
    any: &ProtoAny,
    text: Result<TextPayload, String>,
    blob: Result<BlobPayload, String>,
    event: Result<EventPayload, String>,
) -> (r: Result<DecodedPayload, PayloadError>)
    ensures
        any.type_url@ == TextPayload::spec_type_url() ==> match text {
            Ok(t) => r == Ok::<DecodedPayload, PayloadError>(DecodedPayload::Text(t)),
            Err(m) => r matches Err(PayloadError::DeserializationError(x)) && x@ == m@,
        },
        any.type_url@ == BlobPayload::spec_type_url() ==> match blob {
            Ok(b) => r == Ok::<DecodedPayload, PayloadError>(DecodedPayload::Blob(b)),
            Err(m) => r matches Err(PayloadError::DeserializationError(x)) && x@ == m@,
        },
        any.type_url@ == EventPayload::spec_type_url() ==> match event {
            Ok(e) => r == Ok::<DecodedPayload, PayloadError>(DecodedPayload::Event(e)),
            Err(m) => r matches Err(PayloadError::DeserializationError(x)) && x@ == m@,
        },
        any.type_url@ != TextPayload::spec_type_url() && any.type_url@
            != BlobPayload::spec_type_url() && any.type_url@ != EventPayload::spec_type_url()
            ==> (r matches Err(PayloadError::UnknownType(u)) && u@ == any.type_url@),
{
    let registry = default_registry();
    deserialize(&registry, any.type_url.as_str(), any, text, blob, event)
}

} // verus!
