//! Decisions of the advisory HTTP endpoints: which document a key names and
//! what each answer becomes.
use vstd::prelude::*;
use crate::document_id::{DocumentId, IdError, parse_document_id, parse_agrees};

verus! {

/// The endpoints' answers, before they are rendered as HTTP responses.
#[derive(Debug)]
pub enum Reply<T> {
    /// 200, with this body.
    Found(T),
    /// 404.
    NotFound,
}

/// Why an endpoint failed.
#[derive(Debug)]
pub enum EndpointError<S> {
    /// The document key does not parse (400).
    HashKey(IdError),
    /// The storage backend failed.
    Storage(S),
}

/// `parse_document_id` with its error wrapped as an endpoint error.
pub open spec fn key_agrees<S>(key: Seq<char>, res: Result<DocumentId, EndpointError<S>>) -> bool {
    match res {
        Ok(id) => parse_agrees(key, Ok(id)),
        Err(EndpointError::HashKey(e)) => parse_agrees(key, Err(e)),
        Err(EndpointError::Storage(_)) => false,
    }
}

/// The document that `GET /v1/advisory/{key}` asks for.
pub fn get<S>(key: &str) -> (res: Result<DocumentId, EndpointError<S>>)
    ensures
        key_agrees(key@, res),
{
    match parse_document_id(key) {
        Ok(id) => Ok(id),
        Err(e) => Err(EndpointError::HashKey(e)),
    }
}

/// The answer of `GET /v1/advisory/{key}` for what the lookup found.
pub fn get_reply<T>(fetched: Option<T>) -> (reply: Reply<T>)
    ensures
        match fetched {
            Some(t) => reply == Reply::Found(t),
            None => reply == Reply::<T>::NotFound,
        },
{
    match fetched {
        Some(t) => Reply::Found(t),
        None => Reply::NotFound,
    }
}

/// The document that `GET /v1/advisory/{key}/download` asks for.
pub fn download<S>(key: &str) -> (res: Result<DocumentId, EndpointError<S>>)
    ensures
        key_agrees(key@, res),
{
    get(key)
}

/// What the download does once the advisory has been looked up.
#[derive(Debug)]
pub enum DownloadStep<A> {
    /// Ask storage for the document of this advisory.
    Retrieve(A),
    /// No such advisory: answer 404 without reading storage.
    NotFound,
}

/// Decides the download on the lookup's answer.
pub fn download_after_fetch<A>(fetched: Option<A>) -> (step: DownloadStep<A>)
    ensures
        match fetched {
            Some(a) => step == DownloadStep::Retrieve(a),
            None => step == DownloadStep::<A>::NotFound,
        },
{
    match fetched {
        Some(a) => DownloadStep::Retrieve(a),
        None => DownloadStep::NotFound,
    }
}

/// The answer of the download once storage has been asked for the document:
/// its content, not found, or the storage failure.
pub fn download_reply<T, S>(retrieved: Result<Option<T>, S>) -> (res: Result<Reply<T>, EndpointError<S>>)
    ensures
        match retrieved {
            Ok(Some(t)) => res == Ok::<Reply<T>, EndpointError<S>>(Reply::Found(t)),
            Ok(None) => res == Ok::<Reply<T>, EndpointError<S>>(Reply::NotFound),
            Err(e) => res == Err::<Reply<T>, EndpointError<S>>(EndpointError::Storage(e)),
        },
{
    match retrieved {
        Ok(Some(t)) => Ok(Reply::Found(t)),
        Ok(None) => Ok(Reply::NotFound),
        Err(e) => Err(EndpointError::Storage(e)),
    }
}

} // verus!
