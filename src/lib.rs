//! A music-metadata gateway over an encrypted upstream API: request
//! envelopes, tolerant response normalisation and the rules of the
//! provider operations, each stated as a contract.
use vstd::prelude::*;

pub mod json;
pub mod netease;
pub mod retry;
pub mod text;

verus! {

/// Passes a value on to a function, so that steps read left to right.
pub trait Then: Sized {
    /// `f` applied to `self`.
    fn then<O, F: FnOnce(Self) -> O>(self, f: F) -> (r: O)
        requires
            f.requires((self,)),
        ensures
            f.ensures((self,), r),
    {
        f(self)
    }

    /// `self` after `f` has changed it.
    fn change_self<F: FnOnce(&mut Self)>(self, f: F) -> (r: Self)
        requires
            forall|s: &mut Self| *s == self ==> f.requires((s,)),
    {
        let mut value = self;
        f(&mut value);
        value
    }
}

impl<T> Then for T {}

/// The failures of a provider operation.
#[derive(Debug)]
pub enum Error {
    /// The upstream could not be reached or answered with no usable body.
    Remote(String),
    /// The same class of failure as `Remote`, as one operation reports it.
    Server(String),
    /// The request envelope could not be built.
    Encode { engine: &'static str, msg: String },
    /// An expected field is absent; the path names it.
    NoField(&'static str),
    /// A field is present with the wrong shape.
    TypeMismatch { field: &'static str, target: &'static str },
    /// The result is empty or the upstream reports that nothing was found.
    NotFound,
    /// The provider does not offer the operation.
    Unimplemented,
}

impl Error {
    /// The HTTP status under which the failure is shown to a client.
    pub fn status_code(&self) -> (r: u16)
        ensures
            r == match self {
                Error::Remote(_) | Error::NoField(_) | Error::TypeMismatch { .. } => 502u16,
                Error::Server(_) | Error::Encode { .. } => 500u16,
                Error::NotFound => 404u16,
                Error::Unimplemented => 501u16,
            },
    {
        match self {
            Error::Remote(_) => 502,
            Error::Server(_) => 500,
            Error::Encode { .. } => 500,
            Error::NoField(_) => 502,
            Error::TypeMismatch { .. } => 502,
            Error::NotFound => 404,
            Error::Unimplemented => 501,
        }
    }
}

/// Paging of a search: `page` counts from one, and zero is read as one.
#[derive(Debug, Clone, Copy)]
pub struct MetingSearchOptions {
    pub limit: usize,
    pub page: usize,
    pub kind: usize,
}

/// One song as the gateway hands it out. `url`, `pic` and `lrc` are links
/// built by the caller from the track id, not upstream addresses.
#[derive(Debug)]
pub struct MetingSong {
    pub name: String,
    pub artist: String,
    pub url: String,
    pub pic: String,
    pub lrc: String,
}

} // verus!
