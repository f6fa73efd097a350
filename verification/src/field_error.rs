//! Outward errors: the category code of a domain error, and the error as a
//! client sees it.

use crate::errors::AppError;
use crate::errors::AppErrorView;
use convert_case::Case;
use convert_case::Casing;
use vstd::prelude::*;
use vstd::std_specs::convert::FromSpecImpl;
use vstd::string::StringExecFns;

verus! {

/// The upper snake case form of `text`: its words in capitals, with an
/// underscore between each two neighbours.
pub uninterp spec fn upper_snake_case(text: Seq<char>) -> Seq<char>;

/// `convert_case::Casing::to_case` with `Case::UpperSnake`.
///
/// Trusted: the result is the upper snake case form of `text`, which the
/// contracts call `upper_snake_case`. The conversion reads nothing but its
/// argument.
#[verifier::external_body]
fn to_upper_snake(text: &str) -> (converted: String)
    ensures
        converted@ == upper_snake_case(text@),
{
    text.to_case(Case::UpperSnake)
}

/// The category of an error, by which a client branches.
#[derive(Clone, Copy, Debug, PartialEq, Eq, Structural)]
pub enum FieldErrorCode {
    BadRequest,
    Unauthenticated,
    NotFound,
    Forbidden,
    Internal,
}

impl FieldErrorCode {
    /// The name of the category, as it is written in the program.
    pub open spec fn name_text(self) -> Seq<char> {
        match self {
            FieldErrorCode::BadRequest => "BadRequest"@,
            FieldErrorCode::Unauthenticated => "Unauthenticated"@,
            FieldErrorCode::NotFound => "NotFound"@,
            FieldErrorCode::Forbidden => "Forbidden"@,
            FieldErrorCode::Internal => "Internal"@,
        }
    }

    /// The code that stands for the category in an outward error: its name in
    /// upper snake case.
    pub open spec fn code_text(self) -> Seq<char> {
        upper_snake_case(self.name_text())
    }

    /// The name of the category, as it is written in the program.
    pub fn name(&self) -> (name: String)
        ensures
            name@ == self.name_text(),
    {
        match self {
            FieldErrorCode::BadRequest => String::from_str("BadRequest"),
            FieldErrorCode::Unauthenticated => String::from_str("Unauthenticated"),
            FieldErrorCode::NotFound => String::from_str("NotFound"),
            FieldErrorCode::Forbidden => String::from_str("Forbidden"),
            FieldErrorCode::Internal => String::from_str("Internal"),
        }
    }

    /// The code that stands for the category in an outward error.
    pub fn code(&self) -> (code: String)
        ensures
            code@ == self.code_text(),
    {
        to_upper_snake(self.name().as_str())
    }
}

/// The category of each kind of error.
pub open spec fn category_of(err: AppErrorView) -> FieldErrorCode {
    match err {
        AppErrorView::BadRequest(_) => FieldErrorCode::BadRequest,
        AppErrorView::Unauthenticated => FieldErrorCode::Unauthenticated,
        AppErrorView::Forbidden => FieldErrorCode::Forbidden,
        AppErrorView::NotFound => FieldErrorCode::NotFound,
        AppErrorView::Internal(_) => FieldErrorCode::Internal,
    }
}

impl AppErrorView {
    /// The two errors are of one kind, whatever detail they carry.
    pub open spec fn same_kind(self, other: AppErrorView) -> bool {
        match (self, other) {
            (AppErrorView::BadRequest(_), AppErrorView::BadRequest(_)) => true,
            (AppErrorView::Unauthenticated, AppErrorView::Unauthenticated) => true,
            (AppErrorView::Forbidden, AppErrorView::Forbidden) => true,
            (AppErrorView::NotFound, AppErrorView::NotFound) => true,
            (AppErrorView::Internal(_), AppErrorView::Internal(_)) => true,
            _ => false,
        }
    }
}

/// Two errors have the same category exactly when they are of the same kind:
/// the category depends on the kind alone, and no two kinds share one.
pub proof fn lemma_category_by_kind(a: AppErrorView, b: AppErrorView)
    ensures
        category_of(a) == category_of(b) <==> a.same_kind(b),
{
}

/// Maps an error to its category and its message.
pub fn classify(err: &AppError) -> (outcome: (FieldErrorCode, String))
    ensures
        outcome.0 == category_of(err@),
        outcome.1@ == err@.message(),
{
    let code = match err {
        AppError::BadRequest(_) => FieldErrorCode::BadRequest,
        AppError::Unauthenticated => FieldErrorCode::Unauthenticated,
        AppError::Forbidden => FieldErrorCode::Forbidden,
        AppError::NotFound => FieldErrorCode::NotFound,
        AppError::Internal(_) => FieldErrorCode::Internal,
    };
    (code, err.message())
}

/// A domain error together with its category.
///
/// The category is always the one that belongs to the error's kind, so the
/// value of the pair is the value of the error.
#[derive(Debug)]
pub struct FieldErrorWithCode {
    err: AppError,
    code: FieldErrorCode,
}

impl View for FieldErrorWithCode {
    type V = AppErrorView;

    closed spec fn view(&self) -> AppErrorView {
        self.err@
    }
}

impl FieldErrorWithCode {
    #[verifier::type_invariant]
    spec fn paired(self) -> bool {
        self.code == category_of(self.err@)
    }

    /// The error.
    pub fn error(&self) -> (err: &AppError)
        ensures
            err@ == self@,
    {
        &self.err
    }

    /// The category of the error.
    pub fn code(&self) -> (code: FieldErrorCode)
        ensures
            code == category_of(self@),
    {
        proof {
            use_type_invariant(self);
        }
        self.code
    }
}

impl FromSpecImpl<AppError> for FieldErrorWithCode {
    open spec fn obeys_from_spec() -> bool {
        false
    }

    open spec fn from_spec(err: AppError) -> FieldErrorWithCode {
        arbitrary()
    }
}

impl From<AppError> for FieldErrorWithCode {
    /// Pairs an error with the category of its kind.
    fn from(err: AppError) -> (paired: FieldErrorWithCode)
        ensures
            paired@ == err@,
    {
        let (code, _) = classify(&err);
        FieldErrorWithCode { err, code }
    }
}

/// An error as a client sees it: a message for a human reader, and the
/// category code under which the response carries it.
#[derive(Debug, PartialEq, Eq)]
pub struct FieldError {
    pub message: String,
    pub code: String,
}

/// The mathematical value of a [`FieldError`].
pub struct FieldErrorView {
    pub message: Seq<char>,
    pub code: Seq<char>,
}

impl View for FieldError {
    type V = FieldErrorView;

    open spec fn view(&self) -> FieldErrorView {
        FieldErrorView { message: self.message@, code: self.code@ }
    }
}

/// The outward form of a domain error: its message, and the code of its
/// category.
pub open spec fn outward(err: AppErrorView) -> FieldErrorView {
    FieldErrorView { message: err.message(), code: category_of(err).code_text() }
}

impl FromSpecImpl<FieldErrorWithCode> for FieldError {
    open spec fn obeys_from_spec() -> bool {
        false
    }

    open spec fn from_spec(paired: FieldErrorWithCode) -> FieldError {
        arbitrary()
    }
}

impl From<FieldErrorWithCode> for FieldError {
    /// Renders the error and its category for a client.
    fn from(paired: FieldErrorWithCode) -> (err: FieldError)
        ensures
            err@ == outward(paired@),
    {
        let code = paired.code().code();
        FieldError { message: paired.error().message(), code }
    }
}

} // verus!
