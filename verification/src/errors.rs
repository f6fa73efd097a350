//! Domain errors raised by business logic.

use crate::text::contains;
use crate::text::occurs_at;
use vstd::prelude::*;
use vstd::string::StringExecFns;

verus! {

/// An error raised by business logic.
///
/// `BadRequest` and `Internal` carry a human-readable detail.
#[derive(Debug, PartialEq, PartialOrd)]
pub enum AppError {
    BadRequest(String),
    Unauthenticated,
    Forbidden,
    NotFound,
    Internal(String),
}

/// The mathematical value of an [`AppError`]: its kind, and the detail as a
/// sequence of characters.
pub enum AppErrorView {
    BadRequest(Seq<char>),
    Unauthenticated,
    Forbidden,
    NotFound,
    Internal(Seq<char>),
}

impl View for AppError {
    type V = AppErrorView;

    open spec fn view(&self) -> AppErrorView {
        match self {
            AppError::BadRequest(detail) => AppErrorView::BadRequest(detail@),
            AppError::Unauthenticated => AppErrorView::Unauthenticated,
            AppError::Forbidden => AppErrorView::Forbidden,
            AppError::NotFound => AppErrorView::NotFound,
            AppError::Internal(detail) => AppErrorView::Internal(detail@),
        }
    }
}

impl AppErrorView {
    /// The detail that the error carries, if its kind has one.
    pub open spec fn detail(self) -> Option<Seq<char>> {
        match self {
            AppErrorView::BadRequest(detail) => Some(detail),
            AppErrorView::Internal(detail) => Some(detail),
            _ => None,
        }
    }

    /// The fixed text of the error's kind. For a kind with a detail it ends
    /// in a colon and a space, and the detail follows it in the message.
    pub open spec fn fixed_text(self) -> Seq<char> {
        match self {
            AppErrorView::BadRequest(_) => "不正なパラメーターです: "@,
            AppErrorView::Unauthenticated => "認証エラーです"@,
            AppErrorView::Forbidden => "禁止された行為です"@,
            AppErrorView::NotFound => "指定されたリソースが見つかりません"@,
            AppErrorView::Internal(_) => "サーバーエラーです: "@,
        }
    }

    /// The human-readable rendering: the fixed text, then the detail if the
    /// kind carries one.
    pub open spec fn message(self) -> Seq<char> {
        match self.detail() {
            Some(detail) => self.fixed_text() + detail,
            None => self.fixed_text(),
        }
    }
}

/// A message holds the detail that its error carries, as it stands, at its
/// end.
pub proof fn lemma_message_contains_detail(err: AppErrorView)
    requires
        err.detail() is Some,
    ensures
        contains(err.message(), err.detail().unwrap()),
        err.message() == err.fixed_text() + err.detail().unwrap(),
{
    let detail = err.detail().unwrap();
    let at = err.fixed_text().len() as int;
    assert(err.message().subrange(at, at + detail.len()) =~= detail);
    assert(occurs_at(err.message(), detail, at));
}

impl Clone for AppError {
    fn clone(&self) -> (copy: AppError)
        ensures
            copy@ == self@,
    {
        match self {
            AppError::BadRequest(detail) => AppError::BadRequest(detail.clone()),
            AppError::Unauthenticated => AppError::Unauthenticated,
            AppError::Forbidden => AppError::Forbidden,
            AppError::NotFound => AppError::NotFound,
            AppError::Internal(detail) => AppError::Internal(detail.clone()),
        }
    }
}

impl AppError {
    /// Renders the error for a human reader.
    pub fn message(&self) -> (text: String)
        ensures
            text@ == self@.message(),
    {
        match self {
            AppError::BadRequest(detail) => {
                String::from_str("不正なパラメーターです: ").concat(detail.as_str())
            },
            AppError::Unauthenticated => String::from_str("認証エラーです"),
            AppError::Forbidden => String::from_str("禁止された行為です"),
            AppError::NotFound => String::from_str("指定されたリソースが見つかりません"),
            AppError::Internal(detail) => {
                String::from_str("サーバーエラーです: ").concat(detail.as_str())
            },
        }
    }
}

} // verus!
