//! The stages of a request's life, as they write the access log record and
//! decide which log lines leave the request.
//!
//! The engine runs a request through its stages in a fixed order: the request
//! is received, prepared, parsed, validated and executed. The caller wraps
//! each stage: it calls the function of this module that belongs to the
//! stage, with what the stage was given or what it gave back, writes out the
//! lines that the function returns, and hands the stage's own result on as it
//! is. Nothing here sees that result, so nothing here can alter it.

use crate::access_log::AccessLogEntry;
use crate::access_log::introspection_marker;
use crate::access_log::lemma_line_holds_query;
use crate::access_log::lemma_line_holds_variables;
use crate::access_log::lemma_line_without_variables;
use crate::access_log::AccessLogEntryView;
use crate::field_error::FieldErrorCode;
use crate::json::object_text;
use crate::json::JsonMember;
use crate::json::JsonMemberView;
use crate::text::contains;
use crate::text::join;
use crate::text::lemma_contains_middle;
use crate::text::occurs_at;
use crate::text::join_texts;
use vstd::prelude::*;
use vstd::string::StringExecFns;

verus! {

/// The caller's network address, as the text of an address that was parsed.
#[derive(Clone, Debug)]
pub struct RemoteIpAddr(pub String);

/// What the instrumentation reads of a request.
#[derive(Debug)]
pub struct Request {
    /// The query text as it came.
    pub query: String,
    /// The name of the operation that the request asks for.
    pub operation_name: Option<String>,
    /// The variables, as the members of a JSON object.
    pub variables: Vec<JsonMember>,
}

/// The mathematical value of a [`Request`].
pub struct RequestView {
    pub query: Seq<char>,
    pub operation_name: Option<Seq<char>>,
    pub variables: Seq<JsonMemberView>,
}

impl View for Request {
    type V = RequestView;

    open spec fn view(&self) -> RequestView {
        RequestView {
            query: self.query@,
            operation_name: self.operation_name.deep_view(),
            variables: self.variables.deep_view(),
        }
    }
}

/// What the instrumentation reads of one field error of a response.
#[derive(Debug)]
pub struct ResponseError {
    /// The error as one line of JSON, or nothing if it could not be written
    /// as one.
    pub serialized: Option<String>,
    /// The value under `code` among the error's extensions, if it is a
    /// string.
    pub code: Option<String>,
}

/// The mathematical value of a [`ResponseError`].
pub struct ResponseErrorView {
    pub serialized: Option<Seq<char>>,
    pub code: Option<Seq<char>>,
}

impl View for ResponseError {
    type V = ResponseErrorView;

    open spec fn view(&self) -> ResponseErrorView {
        ResponseErrorView { serialized: self.serialized.deep_view(), code: self.code.deep_view() }
    }
}

impl DeepView for ResponseError {
    type V = ResponseErrorView;

    open spec fn deep_view(&self) -> ResponseErrorView {
        self@
    }
}

/// Whether a field error is a fault of the server, which should raise an
/// alarm, or any other error.
#[derive(Clone, Copy, Debug, PartialEq, Eq, Structural)]
pub enum ErrorClass {
    Internal,
    Other,
}

/// The log line of one field error, and its class.
#[derive(Debug)]
pub struct ErrorLog {
    pub line: String,
    pub class: ErrorClass,
}

/// The mathematical value of an [`ErrorLog`].
pub struct ErrorLogView {
    pub line: Seq<char>,
    pub class: ErrorClass,
}

impl View for ErrorLog {
    type V = ErrorLogView;

    open spec fn view(&self) -> ErrorLogView {
        ErrorLogView { line: self.line@, class: self.class }
    }
}

impl DeepView for ErrorLog {
    type V = ErrorLogView;

    open spec fn deep_view(&self) -> ErrorLogView {
        self@
    }
}

/// What leaves the execution stage of a request whose response carries field
/// errors.
#[derive(Debug)]
pub struct ErrorReport {
    /// What is known of the request.
    pub context: Vec<JsonMember>,
    /// One log for each field error that has a line, in the order of the
    /// response.
    pub logs: Vec<ErrorLog>,
}

/// The mathematical value of an [`ErrorReport`].
pub struct ErrorReportView {
    pub context: Seq<JsonMemberView>,
    pub logs: Seq<ErrorLogView>,
}

impl View for ErrorReport {
    type V = ErrorReportView;

    open spec fn view(&self) -> ErrorReportView {
        ErrorReportView { context: self.context.deep_view(), logs: self.logs.deep_view() }
    }
}

impl DeepView for ErrorReport {
    type V = ErrorReportView;

    open spec fn deep_view(&self) -> ErrorReportView {
        self@
    }
}

/// The class of an error by its code, where `internal` is the code of the
/// internal category: internal if the code is that one, other if it is any
/// other code or none.
pub open spec fn class_by(code: Option<Seq<char>>, internal: Seq<char>) -> ErrorClass {
    if code == Some(internal) {
        ErrorClass::Internal
    } else {
        ErrorClass::Other
    }
}

/// The class of an error by its code.
pub open spec fn class_of(code: Option<Seq<char>>) -> ErrorClass {
    class_by(code, FieldErrorCode::Internal.code_text())
}

/// The log of one field error: its line as it came, with its class. An error
/// that has no line gives no log.
pub open spec fn error_log(err: ResponseErrorView) -> Seq<ErrorLogView> {
    match err.serialized {
        Some(line) => seq![ErrorLogView { line, class: class_of(err.code) }],
        None => seq![],
    }
}

/// The logs of the field errors of a response: one for each error that has a
/// line, in the order of the response. The errors without a line are passed
/// over, and those after them still give their logs.
pub open spec fn error_logs(errors: Seq<ResponseErrorView>) -> Seq<ErrorLogView>
    decreases errors.len(),
{
    if errors.len() == 0 {
        seq![]
    } else {
        error_logs(errors.drop_last()) + error_log(errors.last())
    }
}

/// What leaves the execution stage of a request with the record `entry`
/// whose response carries the field errors `errors`: nothing if there are
/// none, else the context of the request and the logs of the errors.
pub open spec fn report_of(
    entry: AccessLogEntryView,
    errors: Seq<ResponseErrorView>,
) -> Option<ErrorReportView> {
    if errors.len() == 0 {
        None
    } else {
        Some(ErrorReportView { context: entry.context(), logs: error_logs(errors) })
    }
}

/// The log line that leaves a request with the record `entry` when it ends:
/// none if the recorded query asks for the schema itself, else the line of
/// the record.
pub open spec fn request_line(entry: AccessLogEntryView) -> Option<Seq<char>> {
    if entry.is_introspection() {
        None
    } else {
        Some(entry.line())
    }
}

/// What stands between two notes in the error of a record: a semicolon and a
/// space.
pub open spec fn note_separator() -> Seq<char> {
    "; "@
}

/// The note that a failed preparation leaves in the record.
pub open spec fn prepare_failure_note(detail: Seq<char>) -> Seq<char> {
    "failed to prepare request: "@ + detail
}

/// The note that a failed parse leaves in the record.
pub open spec fn parse_failure_note(detail: Seq<char>) -> Seq<char> {
    "failed to parse query: "@ + detail
}

/// The note that a failed validation leaves in the record: the details of
/// its errors in order, with a comma and a space between each two.
pub open spec fn validation_failure_note(details: Seq<Seq<char>>) -> Seq<char> {
    "failed to validation: "@ + join(details, ", "@)
}

impl AccessLogEntryView {
    /// The record with `note` appended to its error, and nothing else
    /// changed: a record without an error gets the note as its error, and a
    /// record with one keeps the earlier text, which the note follows after
    /// a semicolon and a space.
    pub open spec fn with_error(self, note: Seq<char>) -> AccessLogEntryView {
        AccessLogEntryView {
            error: Some(
                match self.error {
                    Some(earlier) => earlier + note_separator() + note,
                    None => note,
                },
            ),
            ..self
        }
    }

    /// The record after the request was seen: address, query and operation
    /// name as they came, the variables unless there are none, and the error
    /// as it was.
    pub open spec fn with_request(
        self,
        remote_ip: Option<Seq<char>>,
        request: RequestView,
    ) -> AccessLogEntryView {
        AccessLogEntryView {
            remote_ip,
            op_name: request.operation_name,
            error: self.error,
            query: Some(request.query),
            variables: if request.variables.len() == 0 {
                None
            } else {
                Some(request.variables)
            },
        }
    }
}

/// Once a request is recorded, its query alone decides whether the request
/// gets a log line, and a line that it gets holds the query, under the name
/// `query` and as a string literal.
pub proof fn lemma_request_line(
    entry: AccessLogEntryView,
    remote_ip: Option<Seq<char>>,
    request: RequestView,
)
    ensures
        ({
            let seen = entry.with_request(remote_ip, request);
            let marked = contains(request.query, introspection_marker());
            &&& marked ==> request_line(seen) is None
            &&& !marked ==> request_line(seen) == Some(seen.line())
            &&& contains(seen.line(), JsonMemberView::string("query"@, request.query).text())
        }),
{
    lemma_line_holds_query(entry.with_request(remote_ip, request));
}

/// The log line of a request without variables has no member of the name
/// `variables`; that of a request with variables holds them as they came, as
/// one object.
pub proof fn lemma_request_variables(
    entry: AccessLogEntryView,
    remote_ip: Option<Seq<char>>,
    request: RequestView,
)
    ensures
        ({
            let seen = entry.with_request(remote_ip, request);
            &&& request.variables.len() == 0 ==> forall|i: int|
                0 <= i < seen.members().len() ==> (#[trigger] seen.members()[i]).name
                    != "variables"@
            &&& request.variables.len() > 0 ==> contains(
                seen.line(),
                object_text(request.variables),
            )
        }),
{
    let seen = entry.with_request(remote_ip, request);
    if request.variables.len() == 0 {
        lemma_line_without_variables(seen);
    } else {
        lemma_line_holds_variables(seen);
    }
}

/// The logs of a response are never more than its field errors. Where every
/// error has a line, there is one log for each, in order, with the line of
/// its error as it came; where none has, there is no log.
pub proof fn lemma_logs_of_errors(errors: Seq<ResponseErrorView>)
    ensures
        error_logs(errors).len() <= errors.len(),
        (forall|i: int| 0 <= i < errors.len() ==> (#[trigger] errors[i]).serialized is Some) ==> {
            &&& error_logs(errors).len() == errors.len()
            &&& forall|i: int|
                0 <= i < errors.len() ==> #[trigger] error_logs(errors)[i] == (ErrorLogView {
                    line: errors[i].serialized.unwrap(),
                    class: class_of(errors[i].code),
                })
        },
        (forall|i: int| 0 <= i < errors.len() ==> (#[trigger] errors[i]).serialized is None)
            ==> error_logs(errors).len() == 0,
    decreases errors.len(),
{
    if errors.len() > 0 {
        let front = errors.drop_last();
        lemma_logs_of_errors(front);
        assert forall|i: int| 0 <= i < front.len() implies front[i] == errors[i] by {}
        if forall|i: int| 0 <= i < errors.len() ==> (#[trigger] errors[i]).serialized is Some {
            assert(errors.last().serialized is Some);
            assert forall|i: int| 0 <= i < front.len() implies (
            #[trigger] front[i]).serialized is Some by {
                assert(front[i] == errors[i]);
            }
        }
        if forall|i: int| 0 <= i < errors.len() ==> (#[trigger] errors[i]).serialized is None {
            assert(errors.last().serialized is None);
            assert forall|i: int| 0 <= i < front.len() implies (
            #[trigger] front[i]).serialized is None by {
                assert(front[i] == errors[i]);
            }
        }
    }
}

/// An error without a line is passed over and the rest of the response is
/// reported as if it were not there.
pub proof fn lemma_error_without_line(
    before: Seq<ResponseErrorView>,
    err: ResponseErrorView,
    after: Seq<ResponseErrorView>,
)
    requires
        err.serialized is None,
    ensures
        error_logs(before + seq![err] + after) == error_logs(before + after),
    decreases after.len(),
{
    let with = before + seq![err] + after;
    let without = before + after;
    if after.len() == 0 {
        assert(with.drop_last() =~= before);
        assert(without =~= before);
        assert(error_logs(with) =~= error_logs(before));
    } else {
        assert(with.drop_last() =~= before + seq![err] + after.drop_last());
        assert(without.drop_last() =~= before + after.drop_last());
        assert(with.last() == after.last());
        assert(without.last() == after.last());
        lemma_error_without_line(before, err, after.drop_last());
    }
}

/// A note is appended: the error of the record holds the note, and it holds
/// what the error was before, in front of the note.
pub proof fn lemma_note_appended(entry: AccessLogEntryView, note: Seq<char>)
    ensures
        entry.with_error(note).error is Some,
        contains(entry.with_error(note).error.unwrap(), note),
        entry.error matches Some(earlier) ==> entry.with_error(note).error == Some(
            earlier + note_separator() + note,
        ) && occurs_at(entry.with_error(note).error.unwrap(), earlier, 0),
        entry.error is None ==> entry.with_error(note).error == Some(note),
{
    let none = Seq::<char>::empty();
    match entry.error {
        Some(earlier) => {
            let whole = earlier + note_separator() + note;
            lemma_contains_middle(earlier + note_separator(), note, none);
            assert(earlier + note_separator() + note + none =~= whole);
            assert(whole.subrange(0, earlier.len() as int) =~= earlier);
        },
        None => {
            lemma_contains_middle(none, note, none);
            assert(none + note + none =~= note);
        },
    }
}

/// A note of failure changes the error of a record and nothing else: the
/// query, and with it the decision on the log line, stays.
pub proof fn lemma_note_keeps_query(entry: AccessLogEntryView, note: Seq<char>)
    ensures
        entry.with_error(note).query == entry.query,
        request_line(entry.with_error(note)) is None <==> request_line(entry) is None,
{
}

/// The text of the address, if there is one.
pub open spec fn address_text(remote_ip: Option<RemoteIpAddr>) -> Option<Seq<char>> {
    match remote_ip {
        Some(addr) => Some(addr.0@),
        None => None,
    }
}

/// The class of an error by its code, where `internal` is the code of the
/// internal category.
pub fn classify_code_by(code: &Option<String>, internal: &String) -> (class: ErrorClass)
    ensures
        class == class_by(code.deep_view(), internal@),
{
    match code {
        Some(code) => {
            if *code == *internal {
                ErrorClass::Internal
            } else {
                ErrorClass::Other
            }
        },
        None => ErrorClass::Other,
    }
}

/// The class of an error by its code.
pub fn classify_code(code: &Option<String>) -> (class: ErrorClass)
    ensures
        class == class_of(code.deep_view()),
{
    classify_code_by(code, &FieldErrorCode::Internal.code())
}

/// Makes the instrumentation of one request.
#[derive(Default)]
pub struct ExtFactory {}

impl ExtFactory {
    /// The instrumentation of a request of which nothing is known yet.
    pub fn create(&self) -> (ext: Ext)
        ensures
            ext@ == AccessLogEntryView::empty(),
    {
        Ext { access_log_entry: AccessLogEntry::default() }
    }
}

/// The instrumentation of one request: its access log record, which the
/// stages of the request write in turn.
#[derive(Debug)]
pub struct Ext {
    pub access_log_entry: AccessLogEntry,
}

impl View for Ext {
    type V = AccessLogEntryView;

    open spec fn view(&self) -> AccessLogEntryView {
        self.access_log_entry@
    }
}

impl Ext {
    /// The request is about to be prepared: records the caller's address, the
    /// query, the operation name, and the variables unless there are none.
    pub fn prepare_request(&mut self, remote_ip: Option<RemoteIpAddr>, request: Request)
        ensures
            final(self)@ == old(self)@.with_request(address_text(remote_ip), request@),
    {
        self.access_log_entry.remote_ip =
        match remote_ip {
            Some(addr) => Some(addr.0),
            None => None,
        };
        self.access_log_entry.query = Some(request.query);
        self.access_log_entry.variables =
        if request.variables.len() == 0 {
            None
        } else {
            Some(request.variables)
        };
        self.access_log_entry.op_name = request.operation_name;
    }

    /// Appends `note` to the error of the record.
    fn note_failure(&mut self, note: String)
        ensures
            final(self)@ == old(self)@.with_error(note@),
    {
        let error = match &self.access_log_entry.error {
            Some(earlier) => {
                let mut error = earlier.clone();
                error.append("; ");
                error.append(note.as_str());
                error
            },
            None => note,
        };
        self.access_log_entry.error = Some(error);
    }

    /// The preparation has ended: a failure appends its note to the record's
    /// error, a success leaves the record as it is.
    pub fn request_prepared(&mut self, outcome: &Result<(), String>)
        ensures
            outcome is Ok ==> final(self)@ == old(self)@,
            outcome matches Err(detail) ==> final(self)@ == old(self)@.with_error(
                prepare_failure_note(detail@),
            ),
    {
        if let Err(detail) = outcome {
            let note = String::from_str("failed to prepare request: ").concat(detail.as_str());
            self.note_failure(note);
        }
    }

    /// The parse has ended: a failure appends its note to the record's
    /// error, a success leaves the record as it is.
    pub fn parse_query(&mut self, outcome: &Result<(), String>)
        ensures
            outcome is Ok ==> final(self)@ == old(self)@,
            outcome matches Err(detail) ==> final(self)@ == old(self)@.with_error(
                parse_failure_note(detail@),
            ),
    {
        if let Err(detail) = outcome {
            let note = String::from_str("failed to parse query: ").concat(detail.as_str());
            self.note_failure(note);
        }
    }

    /// The validation has ended: a failure appends its note to the record's
    /// error, a success leaves the record as it is.
    pub fn validation(&mut self, outcome: &Result<(), Vec<String>>)
        ensures
            outcome is Ok ==> final(self)@ == old(self)@,
            outcome matches Err(details) ==> final(self)@ == old(self)@.with_error(
                validation_failure_note(details.deep_view()),
            ),
    {
        if let Err(details) = outcome {
            let joined = join_texts(details, ", ");
            let note = String::from_str("failed to validation: ").concat(joined.as_str());
            self.note_failure(note);
        }
    }

    /// The execution has ended with the field errors `errors`: if there are
    /// any, reports one log for each that has a line, in order, with what is
    /// known of the request. An error without a line is passed over; it
    /// neither ends the report nor fails the request. The record stays as it
    /// is.
    pub fn execute(&self, errors: &Vec<ResponseError>) -> (report: Option<ErrorReport>)
        ensures
            report.deep_view() == report_of(self@, errors.deep_view()),
    {
        if errors.len() == 0 {
            return None;
        }
        let context = self.access_log_entry.context();
        let internal = FieldErrorCode::Internal.code();
        let ghost views = errors.deep_view();
        let mut logs: Vec<ErrorLog> = Vec::new();
        let mut i: usize = 0;
        assert(logs.deep_view() =~= error_logs(views.take(0)));
        while i < errors.len()
            invariant
                i <= errors.len(),
                views == errors.deep_view(),
                internal@ == FieldErrorCode::Internal.code_text(),
                logs.deep_view() == error_logs(views.take(i as int)),
            decreases errors.len() - i,
        {
            let ghost before = logs.deep_view();
            proof {
                assert(views.take(i + 1).drop_last() =~= views.take(i as int));
                assert(views.take(i + 1).last() == errors@[i as int]@);
            }
            match &errors[i].serialized {
                Some(line) => {
                    let log = ErrorLog {
                        line: line.clone(),
                        class: classify_code_by(&errors[i].code, &internal),
                    };
                    logs.push(log);
                    assert(logs.deep_view() =~= before + error_log(errors@[i as int]@));
                },
                None => {
                    assert(logs.deep_view() =~= before + error_log(errors@[i as int]@));
                },
            }
            i += 1;
        }
        assert(views.take(errors.len() as int) =~= views);
        Some(ErrorReport { context, logs })
    }

    /// The request has ended: gives its log line, unless the recorded query
    /// asks for the schema itself.
    pub fn request(&self) -> (line: Option<String>)
        ensures
            line.deep_view() == request_line(self@),
    {
        if self.access_log_entry.is_introspection() {
            None
        } else {
            Some(self.access_log_entry.to_json())
        }
    }
}

} // verus!
