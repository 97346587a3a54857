//! Handling of one answer of the transport: status validation and the
//! mapping of transport and decoding failures to typed errors.

use std::marker::PhantomData;
use vstd::prelude::*;

verus! {

/// Why a fetch did not produce a value.
#[derive(Debug)]
pub enum FetchError {
    /// The request never got an answer (DNS, connection, timeout).
    Transport(String),
    /// The server answered with a status outside the 2xx class.
    HttpStatus(u16),
    /// The body did not have the expected shape.
    Decode(String),
}

/// Mathematical value of a [`FetchError`].
pub enum FetchErrorView {
    Transport(Seq<char>),
    HttpStatus(u16),
    Decode(Seq<char>),
}

impl View for FetchError {
    type V = FetchErrorView;

    open spec fn view(&self) -> FetchErrorView {
        match self {
            FetchError::Transport(detail) => FetchErrorView::Transport(detail@),
            FetchError::HttpStatus(code) => FetchErrorView::HttpStatus(*code),
            FetchError::Decode(detail) => FetchErrorView::Decode(detail@),
        }
    }
}

/// What the transport hands back for one GET that was answered.
pub struct Response {
    /// The HTTP status code.
    pub status: u16,
    /// The raw value of the `Link` header, when the answer carried one.
    pub link: Option<String>,
    /// The body, undecoded.
    pub body: Vec<u8>,
}

/// Whether an HTTP status code is in the success class (2xx).
pub open spec fn is_success(status: u16) -> bool {
    200 <= status < 300
}

/// The error, if any, that an answer of the transport amounts to before its
/// body is looked at.
pub open spec fn refusal(outcome: Result<Response, String>) -> Option<FetchErrorView> {
    match outcome {
        Err(detail) => Some(FetchErrorView::Transport(detail@)),
        Ok(response) => if is_success(response.status) {
            None
        } else {
            Some(FetchErrorView::HttpStatus(response.status))
        },
    }
}

/// Tells whether `status` is a 2xx code.
pub fn status_is_success(status: u16) -> (ok: bool)
    ensures
        ok == is_success(status),
{
    200 <= status && status < 300
}

/// Validates what the transport returned for one GET.
///
/// A transport failure becomes [`FetchError::Transport`] with the same
/// detail, an answer with a status outside 2xx becomes
/// [`FetchError::HttpStatus`] with that status, and every other answer is
/// passed on untouched so that its body can be decoded.
pub fn received(outcome: Result<Response, String>) -> (checked: Result<Response, FetchError>)
    ensures
        match refusal(outcome) {
            Some(error) => checked is Err && checked->Err_0@ == error,
            None => checked is Ok && outcome is Ok && checked->Ok_0 == outcome->Ok_0,
        },
{
    match outcome {
        Err(detail) => Err(FetchError::Transport(detail)),
        Ok(response) => {
            if status_is_success(response.status) {
                Ok(response)
            } else {
                Err(FetchError::HttpStatus(response.status))
            }
        },
    }
}

/// Turns the result of decoding a body into the result of the fetch: a value
/// is passed on, a decoding failure becomes [`FetchError::Decode`] with the
/// same detail.
pub fn decoded<T>(parsed: Result<T, String>) -> (fetched: Result<T, FetchError>)
    ensures
        match parsed {
            Ok(value) => fetched is Ok && fetched->Ok_0 == value,
            Err(detail) => fetched is Err && fetched->Err_0@ == FetchErrorView::Decode(detail@),
        },
{
    match parsed {
        Ok(value) => Ok(value),
        Err(detail) => Err(FetchError::Decode(detail)),
    }
}

/// One resource to fetch with a single GET: the route it is found at, and
/// in `T` the shape its body is decoded to.
pub struct Lookup<T> {
    route: String,
    shape: PhantomData<T>,
}

impl<T> View for Lookup<T> {
    type V = Seq<char>;

    /// The route of the resource.
    closed spec fn view(&self) -> Seq<char> {
        self.route@
    }
}

impl<T> Lookup<T> {
    /// The resource at `route`.
    pub fn new(route: String) -> (lookup: Lookup<T>)
        ensures
            lookup@ == route@,
    {
        Lookup { route, shape: PhantomData }
    }

    /// The route to request.
    pub fn route(&self) -> (route: &str)
        ensures
            route@ == self@,
    {
        self.route.as_str()
    }
}

} // verus!
