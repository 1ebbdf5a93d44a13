//! The object proxy: what to ask of the object store, and what to make of its
//! answer. Both operations only read; neither keeps anything between calls.

use crate::errors::{ProxyError, StoreError, UpstreamFault};
use crate::text::{ends_with_separator, final_segment, has_trailing_separator, last_segment};
use vstd::prelude::*;

verus! {

/// The delimiter that keeps a listing to one level.
pub open spec fn delimiter_spec() -> Seq<char> {
    "/"@
}

/// The query of both operations.
#[derive(Clone, Debug, PartialEq, Eq)]
pub struct S3Query {
    pub path: String,
}

/// Whether a key names a file or a directory.
#[derive(Clone, Copy, Debug, PartialEq, Eq, Structural)]
pub enum ObjectType {
    File,
    Dir,
}

/// One row of a listing.
#[derive(Clone, Debug, PartialEq, Eq)]
pub struct ObjectEntry {
    pub name: String,
    pub kind: ObjectType,
}

/// The whole of one object, ready for transport.
#[derive(Clone, Debug, PartialEq, Eq)]
pub struct S3Object {
    /// The object's bytes in base64, standard alphabet, without padding.
    pub blob: String,
    /// The last segment of the object's key.
    pub name: String,
    pub mime_type: String,
}

/// What to ask of the store for a listing.
#[derive(Clone, Debug, PartialEq, Eq)]
pub struct ListRequest {
    pub bucket: String,
    pub prefix: String,
    pub delimiter: String,
}

/// What to ask of the store for one object.
#[derive(Clone, Debug, PartialEq, Eq)]
pub struct GetRequest {
    pub bucket: String,
    pub key: String,
}

/// One entry of the store's listing, as far as the proxy reads it.
#[derive(Clone, Debug, PartialEq, Eq)]
pub struct ObjectSummary {
    pub key: Option<String>,
}

/// The store's answer to a listing.
#[derive(Clone, Debug, PartialEq, Eq)]
pub struct Listing {
    pub contents: Option<Vec<ObjectSummary>>,
}

/// The store's answer to a fetch, with the body read to its end.
#[derive(Clone, Debug, PartialEq, Eq)]
pub struct StoredObject {
    /// The object's bytes; `None` where reading them failed.
    pub body: Option<Vec<u8>>,
    pub content_type: Option<String>,
}

/// A key is a directory exactly when its last character is the separator.
pub open spec fn kind_of(key: Seq<char>) -> ObjectType {
    if ends_with_separator(key) {
        ObjectType::Dir
    } else {
        ObjectType::File
    }
}

/// Classifies a key by its name alone.
pub fn classify(key: &str) -> (kind: ObjectType)
    ensures
        kind == kind_of(key@),
{
    if has_trailing_separator(key) {
        ObjectType::Dir
    } else {
        ObjectType::File
    }
}

impl ObjectEntry {
    /// Whether the kind is the one that the name gives.
    pub open spec fn consistent(&self) -> bool {
        self.kind == kind_of(self.name@)
    }

    /// The row for a key.
    pub fn of(key: &str) -> (entry: ObjectEntry)
        ensures
            entry.name@ == key@,
            entry.consistent(),
    {
        ObjectEntry { name: key.to_owned(), kind: classify(key) }
    }
}

/// The prefix to list: the query's path, or the store's root where there is
/// no query.
pub open spec fn prefix_of(query: Option<&S3Query>) -> Seq<char> {
    match query {
        Some(q) => q.path@,
        None => Seq::empty(),
    }
}

/// The listing to ask for: everything under the prefix, one level deep.
pub fn list_request(bucket: &str, query: Option<&S3Query>) -> (request: ListRequest)
    ensures
        request.bucket@ == bucket@,
        request.delimiter@ == delimiter_spec(),
        request.prefix@ == prefix_of(query),
{
    let prefix: String = match query {
        Some(q) => q.path.clone(),
        None => String::new(),
    };
    ListRequest { bucket: bucket.to_owned(), prefix, delimiter: "/".to_owned() }
}

/// Whether every entry up to `upto` carries a key.
pub open spec fn keys_present(objects: Seq<ObjectSummary>, upto: int) -> bool {
    forall|i: int| 0 <= i < upto ==> (#[trigger] objects[i]).key is Some
}

/// What, if anything, is wrong with the store's answer to a listing.
pub open spec fn listing_fault(answer: Result<Listing, StoreError>) -> Option<UpstreamFault> {
    match answer {
        Err(_) => Some(UpstreamFault::ListingFailed),
        Ok(listing) => match listing.contents {
            None => Some(UpstreamFault::NoContents),
            Some(objects) => if keys_present(objects@, objects@.len() as int) {
                None
            } else {
                Some(UpstreamFault::NoKey)
            },
        },
    }
}

/// Whether `entry` is the row for `object`: the key as the name, and the kind
/// that the name gives.
pub open spec fn entry_of(entry: ObjectEntry, object: ObjectSummary) -> bool {
    &&& object.key matches Some(key)
    &&& entry.name@ == key@
    &&& entry.consistent()
}

/// Turns the store's answer to a listing into rows, one per key and in the
/// store's order. An answer without a contents field is a failure, not an
/// empty listing.
pub fn list_objects(answer: Result<Listing, StoreError>) -> (r: Result<Vec<ObjectEntry>, ProxyError>)
    ensures
        match listing_fault(answer) {
            Some(fault) => r == Err::<Vec<ObjectEntry>, ProxyError>(
                ProxyError::UpstreamFailure(fault),
            ),
            None => {
                &&& r is Ok
                &&& r->Ok_0@.len() == answer->Ok_0.contents->Some_0@.len()
                &&& forall|i: int|
                    0 <= i < r->Ok_0@.len() ==> entry_of(
                        #[trigger] r->Ok_0@[i],
                        answer->Ok_0.contents->Some_0@[i],
                    )
            },
        },
{
    let listing: Listing = match answer {
        Ok(listing) => listing,
        Err(_) => {
            return Err(ProxyError::UpstreamFailure(UpstreamFault::ListingFailed));
        },
    };
    let objects: Vec<ObjectSummary> = match listing.contents {
        Some(objects) => objects,
        None => {
            return Err(ProxyError::UpstreamFailure(UpstreamFault::NoContents));
        },
    };
    let mut entries: Vec<ObjectEntry> = Vec::new();
    let mut i: usize = 0;
    while i < objects.len()
        invariant
            answer is Ok,
            answer->Ok_0.contents == Some(objects),
            i <= objects@.len(),
            entries@.len() == i,
            keys_present(objects@, i as int),
            forall|j: int| 0 <= j < i ==> entry_of(#[trigger] entries@[j], objects@[j]),
        decreases objects@.len() - i,
    {
        match &objects[i].key {
            Some(key) => {
                entries.push(ObjectEntry::of(key.as_str()));
            },
            None => {
                assert(objects@[i as int].key is None);
                return Err(ProxyError::UpstreamFailure(UpstreamFault::NoKey));
            },
        }
        i = i + 1;
    }
    Ok(entries)
}

/// The standard base64 text of `data` (alphabet `A-Z a-z 0-9 + /`), without
/// the `=` padding.
pub uninterp spec fn base64_no_pad(data: Seq<u8>) -> Seq<char>;

/// How many characters the base64 text of `n` bytes has without padding.
pub open spec fn encoded_len(n: nat) -> nat {
    4 * (n / 3) + if n % 3 == 0 {
        0nat
    } else {
        n % 3 + 1
    }
}

/// Whether the base64 text of `n` bytes fits in one allocation.
pub open spec fn fits_transport(n: nat) -> bool {
    encoded_len(n) <= isize::MAX
}

/// Tells whether a body of `len` bytes can be encoded for transport.
pub fn can_encode(len: usize) -> (r: bool)
    ensures
        r == fits_transport(len as nat),
{
    let whole: u128 = 4 * (len as u128 / 3);
    let rest: u128 = if len % 3 == 0 {
        0
    } else {
        (len % 3) as u128 + 1
    };
    whole + rest <= isize::MAX as u128
}

/// `base64::Engine::encode` on the engine `STANDARD_NO_PAD`.
///
/// Claimed and not proved: the text returned is a function of the bytes
/// alone, named `base64_no_pad`, and has `encoded_len` characters: four for
/// every three bytes, and two or three for one or two bytes left over. The
/// call computes that length with checked arithmetic and allocates a buffer
/// of it; both succeed where the length is at most `isize::MAX`, which is
/// what is required.
#[verifier::external_body]
fn encode_no_pad(data: &Vec<u8>) -> (blob: String)
    requires
        fits_transport(data@.len()),
    ensures
        blob@ == base64_no_pad(data@),
        blob@.len() == encoded_len(data@.len()),
{
    base64::Engine::encode(&base64::engine::general_purpose::STANDARD_NO_PAD, data)
}

/// The fetch to ask for. A query without a path is refused here, before the
/// store is asked anything.
pub fn get_request(bucket: &str, query: Option<&S3Query>) -> (r: Result<GetRequest, ProxyError>)
    ensures
        match query {
            None => r == Err::<GetRequest, ProxyError>(ProxyError::BadRequest),
            Some(q) => {
                &&& r is Ok
                &&& r->Ok_0.bucket@ == bucket@
                &&& r->Ok_0.key@ == q.path@
            },
        },
{
    match query {
        None => Err(ProxyError::BadRequest),
        Some(q) => Ok(GetRequest { bucket: bucket.to_owned(), key: q.path.clone() }),
    }
}

/// What, if anything, is wrong with the store's answer to a fetch. An
/// unreadable body is reported before a missing content type.
pub open spec fn fetch_fault(answer: Result<StoredObject, StoreError>) -> Option<UpstreamFault> {
    match answer {
        Err(_) => Some(UpstreamFault::FetchFailed),
        Ok(object) => if object.body is None {
            Some(UpstreamFault::BodyUnreadable)
        } else if object.content_type is None {
            Some(UpstreamFault::NoContentType)
        } else {
            None
        },
    }
}

/// Puts an encoded body, the name that the key gives and the content type
/// together. The store must have reported a content type.
pub fn describe(key: &str, blob: String, content_type: Option<String>) -> (r: Result<
    S3Object,
    ProxyError,
>)
    ensures
        match content_type {
            None => r == Err::<S3Object, ProxyError>(
                ProxyError::UpstreamFailure(UpstreamFault::NoContentType),
            ),
            Some(mime_type) => {
                &&& r is Ok
                &&& r->Ok_0.blob@ == blob@
                &&& r->Ok_0.name@ == last_segment(key@)
                &&& r->Ok_0.mime_type@ == mime_type@
            },
        },
{
    match content_type {
        None => Err(ProxyError::UpstreamFailure(UpstreamFault::NoContentType)),
        Some(mime_type) => Ok(S3Object { blob, name: final_segment(key), mime_type }),
    }
}

/// Turns the store's answer to a fetch into the object sent to the client:
/// the body in base64 without padding, the last segment of the key as the
/// name, and the content type that the store reported.
pub fn get_object(request: &GetRequest, answer: Result<StoredObject, StoreError>) -> (r: Result<
    S3Object,
    ProxyError,
>)
    requires
        answer matches Ok(object) ==> (object.body matches Some(body) ==> fits_transport(
            body@.len(),
        )),
    ensures
        match fetch_fault(answer) {
            Some(fault) => r == Err::<S3Object, ProxyError>(ProxyError::UpstreamFailure(fault)),
            None => {
                &&& r is Ok
                &&& r->Ok_0.blob@ == base64_no_pad(answer->Ok_0.body->Some_0@)
                &&& r->Ok_0.blob@.len() == encoded_len(answer->Ok_0.body->Some_0@.len())
                &&& r->Ok_0.name@ == last_segment(request.key@)
                &&& r->Ok_0.mime_type@ == answer->Ok_0.content_type->Some_0@
            },
        },
{
    let object: StoredObject = match answer {
        Ok(object) => object,
        Err(_) => {
            return Err(ProxyError::UpstreamFailure(UpstreamFault::FetchFailed));
        },
    };
    let body: Vec<u8> = match object.body {
        Some(body) => body,
        None => {
            return Err(ProxyError::UpstreamFailure(UpstreamFault::BodyUnreadable));
        },
    };
    let blob: String = encode_no_pad(&body);
    describe(request.key.as_str(), blob, object.content_type)
}

} // verus!
