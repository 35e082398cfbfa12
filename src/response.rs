use vstd::prelude::*;
use vstd::utf8::*;
use crate::error::Error;
use crate::text::utf8_text;

verus! {

/// At most this many bytes of an error response's body become its message.
pub const ERROR_BODY_LIMIT: usize = 1000;

/// The outcome that a response's status code calls for.
#[derive(Clone, Copy, Debug, PartialEq, Eq, Structural)]
pub enum StatusClass {
    /// 200: the body is decoded as the requested data.
    Success,
    /// 400: the start of the body is the error message.
    BadRequest,
    /// 401: the body is not read.
    Unauthorized,
    /// 500: the start of the body is the error message.
    InternalServerError,
    /// 503: the body is not read.
    ServiceUnavailable,
    /// Any other status, which is kept; the body is not read.
    Unexpected(u16),
}

/// The class of each status code.
pub open spec fn status_class(status: u16) -> StatusClass {
    if status == 200 {
        StatusClass::Success
    } else if status == 400 {
        StatusClass::BadRequest
    } else if status == 401 {
        StatusClass::Unauthorized
    } else if status == 500 {
        StatusClass::InternalServerError
    } else if status == 503 {
        StatusClass::ServiceUnavailable
    } else {
        StatusClass::Unexpected(status)
    }
}

/// The part of an error body that becomes the message: its first
/// [`ERROR_BODY_LIMIT`] bytes.
pub open spec fn body_prefix(body: Seq<u8>) -> Seq<u8> {
    if body.len() <= ERROR_BODY_LIMIT {
        body
    } else {
        body.take(ERROR_BODY_LIMIT as int)
    }
}

/// The message of an error body, or `None` where its prefix is not UTF-8.
pub open spec fn body_message(body: Seq<u8>) -> Option<Seq<char>> {
    if valid_utf8(body_prefix(body)) {
        Some(decode_utf8(body_prefix(body)))
    } else {
        None
    }
}

/// Classifies a response by its status code.
pub fn classify_status(status: u16) -> (r: StatusClass)
    ensures
        r == status_class(status),
{
    if status == 200 {
        StatusClass::Success
    } else if status == 400 {
        StatusClass::BadRequest
    } else if status == 401 {
        StatusClass::Unauthorized
    } else if status == 500 {
        StatusClass::InternalServerError
    } else if status == 503 {
        StatusClass::ServiceUnavailable
    } else {
        StatusClass::Unexpected(status)
    }
}

/// The first [`ERROR_BODY_LIMIT`] bytes of `body`, decoded as UTF-8.
fn error_message(body: &[u8]) -> (r: Result<String, Error>)
    ensures
        match body_message(body@) {
            Some(m) => r matches Ok(s) && s@ == m,
            None => r is Err && r->Err_0 is Io,
        },
{
    let n = if body.len() <= ERROR_BODY_LIMIT {
        body.len()
    } else {
        ERROR_BODY_LIMIT
    };
    let prefix = vstd::slice::slice_subrange(body, 0, n);
    assert(prefix@ =~= body_prefix(body@));
    match utf8_text(prefix) {
        Some(s) => Ok(s),
        None => Err(Error::Io("error body is not valid UTF-8".to_owned())),
    }
}

impl StatusClass {
    /// Whether the body is decoded as the requested data: for status 200 alone.
    pub fn decodes_body(&self) -> (r: bool)
        ensures
            r == (*self is Success),
    {
        match self {
            StatusClass::Success => true,
            _ => false,
        }
    }

    /// Whether the error message is taken from the body: for 400 and 500.
    pub fn reads_error_body(&self) -> (r: bool)
        ensures
            r == (*self is BadRequest || *self is InternalServerError),
    {
        match self {
            StatusClass::BadRequest | StatusClass::InternalServerError => true,
            _ => false,
        }
    }

    /// The error of a response of this class, whose body holds `body` (what
    /// was read of it; the message takes its first [`ERROR_BODY_LIMIT`] bytes).
    /// A body that is not read may be given empty: the error does not depend
    /// on it. A message whose bytes are not UTF-8 gives [`Error::Io`].
    pub fn into_error(self, body: &[u8]) -> (r: Error)
        requires
            !(self is Success),
        ensures
            self is BadRequest ==> match body_message(body@) {
                Some(m) => r matches Error::BadRequest(s) && s@ == m,
                None => r is Io,
            },
            self is InternalServerError ==> match body_message(body@) {
                Some(m) => r matches Error::InternalServerError(s) && s@ == m,
                None => r is Io,
            },
            self is Unauthorized ==> r is Unauthorized,
            self is ServiceUnavailable ==> r is ServiceUnavailable,
            self matches StatusClass::Unexpected(code) ==> r == Error::UnexpectedStatusCode(code),
    {
        match self {
            StatusClass::BadRequest => match error_message(body) {
                Ok(m) => Error::BadRequest(m),
                Err(e) => e,
            },
            StatusClass::InternalServerError => match error_message(body) {
                Ok(m) => Error::InternalServerError(m),
                Err(e) => e,
            },
            StatusClass::Unauthorized => Error::Unauthorized,
            StatusClass::ServiceUnavailable => Error::ServiceUnavailable,
            StatusClass::Unexpected(code) => Error::UnexpectedStatusCode(code),
            StatusClass::Success => Error::UnexpectedStatusCode(200),
        }
    }
}

/// Status classification is total and exhaustive: each status code falls in
/// exactly one class, picked by the code alone, and 200 is the only one whose
/// body is decoded.
pub proof fn lemma_status_classes(status: u16)
    ensures
        (status_class(status) is Success) <==> status == 200,
        (status_class(status) is BadRequest) <==> status == 400,
        (status_class(status) is Unauthorized) <==> status == 401,
        (status_class(status) is InternalServerError) <==> status == 500,
        (status_class(status) is ServiceUnavailable) <==> status == 503,
        (status_class(status) is Unexpected) <==> (status != 200 && status != 400 && status
            != 401 && status != 500 && status != 503),
        status_class(status) matches StatusClass::Unexpected(code) ==> code == status,
{
}

} // verus!
