//! The failures of one request and the response each of them produces.

use vstd::prelude::*;

verus! {

/// Why a request was not relayed.
#[derive(Debug, Clone, PartialEq, Eq)]
pub enum RelayError {
    /// `GET` or `CONNECT` was asked of a relay that has no key-configuration
    /// responder.
    NotFound,
    /// The relay path was asked with a method other than `POST`.
    MethodNotAllowed,
    /// `Content-Type` is absent or is not the encapsulated-request media type.
    UnsupportedMediaType,
    /// The target URI could not be assembled; the text says why.
    BadRequest(String),
    /// The gateway could not be reached or did not answer properly.
    BadGateway,
}

/// `RelayError` with its detail as a sequence of characters.
pub enum RelayErrorView {
    NotFound,
    MethodNotAllowed,
    UnsupportedMediaType,
    BadRequest(Seq<char>),
    BadGateway,
}

impl View for RelayError {
    type V = RelayErrorView;

    open spec fn view(&self) -> RelayErrorView {
        match *self {
            RelayError::NotFound => RelayErrorView::NotFound,
            RelayError::MethodNotAllowed => RelayErrorView::MethodNotAllowed,
            RelayError::UnsupportedMediaType => RelayErrorView::UnsupportedMediaType,
            RelayError::BadRequest(detail) => RelayErrorView::BadRequest(detail@),
            RelayError::BadGateway => RelayErrorView::BadGateway,
        }
    }
}

impl RelayErrorView {
    /// The HTTP status that answers this failure.
    pub open spec fn status(self) -> u16 {
        match self {
            RelayErrorView::NotFound => 404,
            RelayErrorView::MethodNotAllowed => 405,
            RelayErrorView::UnsupportedMediaType => 415,
            RelayErrorView::BadRequest(_) => 400,
            RelayErrorView::BadGateway => 502,
        }
    }

    /// The body that answers this failure: the detail of a bad request,
    /// nothing otherwise.
    pub open spec fn body(self) -> Seq<char> {
        match self {
            RelayErrorView::BadRequest(detail) => detail,
            _ => Seq::empty(),
        }
    }

    /// The whole response that answers this failure.
    pub open spec fn response(self) -> ReplyView {
        ReplyView { status: self.status(), body: self.body() }
    }
}

/// A response that the relay writes itself, as opposed to one that it passes
/// on from the gateway.
#[derive(Debug, Clone, PartialEq, Eq)]
pub struct Reply {
    pub status: u16,
    pub body: String,
}

/// `Reply` with its body as a sequence of characters.
pub struct ReplyView {
    pub status: u16,
    pub body: Seq<char>,
}

impl View for Reply {
    type V = ReplyView;

    open spec fn view(&self) -> ReplyView {
        ReplyView { status: self.status, body: self.body@ }
    }
}

impl RelayError {
    /// The HTTP status that answers this failure.
    pub fn status(&self) -> (code: u16)
        ensures
            code == self@.status(),
    {
        match self {
            RelayError::NotFound => 404,
            RelayError::MethodNotAllowed => 405,
            RelayError::UnsupportedMediaType => 415,
            RelayError::BadRequest(_) => 400,
            RelayError::BadGateway => 502,
        }
    }

    /// The response that answers this failure.
    pub fn to_response(&self) -> (reply: Reply)
        ensures
            reply@ == self@.response(),
    {
        let body = match self {
            RelayError::BadRequest(detail) => detail.clone(),
            _ => String::new(),
        };
        Reply { status: self.status(), body }
    }
}

/// Every failure is answered with one of five statuses, and two failures
/// with the same status are of the same kind.
pub proof fn lemma_status_identifies_kind(a: RelayErrorView, b: RelayErrorView)
    ensures
        a.status() == 400 || a.status() == 404 || a.status() == 405 || a.status() == 415
            || a.status() == 502,
        a.status() == b.status() ==> (a is NotFound <==> b is NotFound) && (a is MethodNotAllowed
            <==> b is MethodNotAllowed) && (a is UnsupportedMediaType <==> b is UnsupportedMediaType)
            && (a is BadRequest <==> b is BadRequest) && (a is BadGateway <==> b is BadGateway),
{
}

} // verus!
