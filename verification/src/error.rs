//! The errors a request can end in, with the status and message each is answered by.

use crate::model::ErrorResponse;
use vstd::prelude::*;
use vstd::string::StringExecFns;

verus! {

/// Why a request was refused.
#[derive(Debug)]
pub enum ApiError {
    /// No session.
    Unauthorized,
    /// The caller's role or ownership does not allow the request.
    Forbidden,
    NotFound,
    /// The request contradicts itself or lacks a field.
    BadRequest(String),
    /// The request would break a uniqueness, capacity or state rule.
    Conflict(String),
    /// Storage or the session store failed.
    InternalServerError,
}

/// An [`ApiError`] with its message as a sequence of characters.
pub enum ApiErrorView {
    Unauthorized,
    Forbidden,
    NotFound,
    BadRequest(Seq<char>),
    Conflict(Seq<char>),
    InternalServerError,
}

impl View for ApiError {
    type V = ApiErrorView;

    open spec fn view(&self) -> ApiErrorView {
        match self {
            ApiError::Unauthorized => ApiErrorView::Unauthorized,
            ApiError::Forbidden => ApiErrorView::Forbidden,
            ApiError::NotFound => ApiErrorView::NotFound,
            ApiError::BadRequest(msg) => ApiErrorView::BadRequest(msg@),
            ApiError::Conflict(msg) => ApiErrorView::Conflict(msg@),
            ApiError::InternalServerError => ApiErrorView::InternalServerError,
        }
    }
}

impl ApiErrorView {
    /// The HTTP status the error is answered with.
    pub open spec fn status(self) -> u16 {
        match self {
            ApiErrorView::Unauthorized => 401,
            ApiErrorView::Forbidden => 403,
            ApiErrorView::NotFound => 404,
            ApiErrorView::BadRequest(_) => 400,
            ApiErrorView::Conflict(_) => 409,
            ApiErrorView::InternalServerError => 500,
        }
    }

    /// The text the error is shown as.
    pub open spec fn text(self) -> Seq<char> {
        match self {
            ApiErrorView::Unauthorized => "未登录"@,
            ApiErrorView::Forbidden => "权限不足"@,
            ApiErrorView::NotFound => "资源未找到"@,
            ApiErrorView::BadRequest(msg) => "请求格式错误: "@ + msg,
            ApiErrorView::Conflict(msg) => "资源冲突: "@ + msg,
            ApiErrorView::InternalServerError => "服务器内部错误"@,
        }
    }
}

/// True when `part` occurs in `text` as a run of consecutive characters.
pub open spec fn has_infix(text: Seq<char>, part: Seq<char>) -> bool {
    exists|i: int|
        0 <= i <= text.len() - part.len() && #[trigger] text.subrange(i, i + part.len()) == part
}

/// The characters of a text, one by one.
fn chars_of(text: &str) -> (out: Vec<char>)
    ensures
        out@ == text@,
{
    let mut out: Vec<char> = Vec::new();
    for c in it: text.chars()
        invariant
            it.seq() == text@,
            out@ == text@.take(it.index() as int),
    {
        let ghost before = out@;
        out.push(c);
        assert(text@.take(it.index() + 1) =~= before.push(c));
    }
    assert(text@.take(text@.len() as int) =~= text@);
    out
}

/// Tells whether `part` stands in `text` from the index `at` on.
fn occurs_at(text: &Vec<char>, part: &Vec<char>, at: usize) -> (found: bool)
    requires
        at + part@.len() <= text@.len(),
    ensures
        found == (text@.subrange(at as int, at + part@.len()) == part@),
{
    let len: usize = text.len();
    let mut k: usize = 0;
    while k < part.len()
        invariant
            at + part@.len() <= text@.len() == len,
            k <= part@.len(),
            forall|j: int| 0 <= j < k ==> text@[at + j] == part@[j],
        decreases part@.len() - k,
    {
        if text[at + k] != part[k] {
            assert(text@.subrange(at as int, at + part@.len())[k as int] != part@[k as int]);
            return false;
        }
        k += 1;
    }
    assert(text@.subrange(at as int, at + part@.len()) =~= part@);
    true
}

/// Tells whether `part` occurs in `text`.
pub fn str_contains(text: &str, part: &str) -> (found: bool)
    ensures
        found == has_infix(text@, part@),
{
    let all = chars_of(text);
    let sought = chars_of(part);
    if sought.len() > all.len() {
        return false;
    }
    let last: usize = all.len() - sought.len();
    let mut at: usize = 0;
    loop
        invariant
            all@ == text@,
            sought@ == part@,
            last == all@.len() - sought@.len(),
            at <= last,
            forall|i: int|
                0 <= i < at ==> #[trigger] all@.subrange(i, i + sought@.len()) != sought@,
        decreases last - at,
    {
        if occurs_at(&all, &sought, at) {
            return true;
        }
        if at == last {
            return false;
        }
        at += 1;
    }
}

/// True when a result is the expected one: the same value, or an error with
/// the expected kind and message.
pub open spec fn answers<T>(res: Result<T, ApiError>, expected: Result<T, ApiErrorView>) -> bool {
    match (res, expected) {
        (Ok(got), Ok(want)) => got == want,
        (Err(got), Err(want)) => got@ == want,
        _ => false,
    }
}

impl ApiError {
    /// A bad-request error with the given message.
    pub fn bad_request(msg: &str) -> (e: ApiError)
        ensures
            e@ == ApiErrorView::BadRequest(msg@),
    {
        ApiError::BadRequest(String::from_str(msg))
    }

    /// A conflict error with the given message.
    pub fn conflict(msg: &str) -> (e: ApiError)
        ensures
            e@ == ApiErrorView::Conflict(msg@),
    {
        ApiError::Conflict(String::from_str(msg))
    }

    /// The text the error is shown as: a fixed phrase, followed for a bad request
    /// or a conflict by its own message.
    pub fn to_string(&self) -> (text: String)
        ensures
            text@ == self@.text(),
    {
        match self {
            ApiError::Unauthorized => String::from_str("未登录"),
            ApiError::Forbidden => String::from_str("权限不足"),
            ApiError::NotFound => String::from_str("资源未找到"),
            ApiError::BadRequest(msg) => {
                let mut text = String::from_str("请求格式错误: ");
                text.append(msg.as_str());
                text
            },
            ApiError::Conflict(msg) => {
                let mut text = String::from_str("资源冲突: ");
                text.append(msg.as_str());
                text
            },
            ApiError::InternalServerError => String::from_str("服务器内部错误"),
        }
    }

    /// The HTTP status the error is answered with.
    pub fn status_code(&self) -> (code: u16)
        ensures
            code == self@.status(),
    {
        match self {
            ApiError::Unauthorized => 401,
            ApiError::Forbidden => 403,
            ApiError::NotFound => 404,
            ApiError::BadRequest(_) => 400,
            ApiError::Conflict(_) => 409,
            ApiError::InternalServerError => 500,
        }
    }

    /// The answer to a failed request: its status, and a body holding the text.
    pub fn error_response(&self) -> (answer: (u16, ErrorResponse))
        ensures
            answer.0 == self@.status(),
            answer.1.message@ == self@.text(),
    {
        (self.status_code(), ErrorResponse { message: self.to_string() })
    }
}

} // verus!
