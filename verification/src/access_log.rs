//! The access log record of one request, and the log line made of it.

use crate::json::json_string_literal;
use crate::json::member_texts;
use crate::json::object_text;
use crate::json::render_object;
use crate::json::JsonMember;
use crate::json::JsonMemberView;
use crate::text::contains;
use crate::text::contains_text;
use crate::text::join;
use crate::text::lemma_contains_middle;
use crate::text::lemma_contains_transitive;
use crate::text::lemma_join_holds_part;
use vstd::prelude::*;

verus! {

/// What is known of one request while it is served. Every field is unset
/// until a stage of the request sets it.
#[derive(Debug)]
pub struct AccessLogEntry {
    /// The caller's network address, as text.
    pub remote_ip: Option<String>,
    /// The name of the operation that the request asks for.
    pub op_name: Option<String>,
    /// What went wrong before execution, if anything did.
    pub error: Option<String>,
    /// The query text as it came.
    pub query: Option<String>,
    /// The variables of the request, as the members of a JSON object.
    pub variables: Option<Vec<JsonMember>>,
}

/// The mathematical value of an [`AccessLogEntry`].
pub struct AccessLogEntryView {
    pub remote_ip: Option<Seq<char>>,
    pub op_name: Option<Seq<char>>,
    pub error: Option<Seq<char>>,
    pub query: Option<Seq<char>>,
    pub variables: Option<Seq<JsonMemberView>>,
}

impl View for AccessLogEntry {
    type V = AccessLogEntryView;

    open spec fn view(&self) -> AccessLogEntryView {
        AccessLogEntryView {
            remote_ip: self.remote_ip.deep_view(),
            op_name: self.op_name.deep_view(),
            error: self.error.deep_view(),
            query: self.query.deep_view(),
            variables: self.variables.deep_view(),
        }
    }
}

/// The member `name` with the string `text` as its value, if there is a text.
pub open spec fn optional_string(name: Seq<char>, text: Option<Seq<char>>) -> Seq<JsonMemberView> {
    match text {
        Some(text) => seq![JsonMemberView::string(name, text)],
        None => seq![],
    }
}

/// The member `name` with the object made of `members` as its value, if there
/// are members to speak of.
pub open spec fn optional_object(
    name: Seq<char>,
    members: Option<Seq<JsonMemberView>>,
) -> Seq<JsonMemberView> {
    match members {
        Some(members) => seq![JsonMemberView::object(name, members)],
        None => seq![],
    }
}

/// The text by which a query that asks for the schema itself is known.
pub open spec fn introspection_marker() -> Seq<char> {
    "__schema"@
}

impl AccessLogEntryView {
    /// The record of a request of which nothing is known yet.
    pub open spec fn empty() -> AccessLogEntryView {
        AccessLogEntryView {
            remote_ip: None,
            op_name: None,
            error: None,
            query: None,
            variables: None,
        }
    }

    /// The members of the log line: one for each field that is set, under its
    /// camel case name, in the order of the fields.
    pub open spec fn members(self) -> Seq<JsonMemberView> {
        optional_string("remoteIp"@, self.remote_ip) + optional_string("opName"@, self.op_name)
            + optional_string("error"@, self.error) + optional_string("query"@, self.query)
            + optional_object("variables"@, self.variables)
    }

    /// The log line of the request: the JSON object of its members.
    pub open spec fn line(self) -> Seq<char> {
        object_text(self.members())
    }

    /// What is known of the request when one of its fields fails: the
    /// address, the operation name, the query and the variables, as far as
    /// they are set.
    pub open spec fn context(self) -> Seq<JsonMemberView> {
        optional_string("ip"@, self.remote_ip) + optional_string("op_name"@, self.op_name)
            + optional_string("query"@, self.query) + optional_object(
            "variables"@,
            self.variables,
        )
    }

    /// The recorded query asks for the schema itself.
    pub open spec fn is_introspection(self) -> bool {
        self.query matches Some(query) && contains(query, introspection_marker())
    }
}

/// The log line holds each of its members as it stands.
pub proof fn lemma_line_holds_member(entry: AccessLogEntryView, i: int)
    requires
        0 <= i < entry.members().len(),
    ensures
        contains(entry.line(), entry.members()[i].text()),
{
    let texts = member_texts(entry.members());
    let inside = join(texts, ","@);
    lemma_join_holds_part(texts, ","@, i);
    lemma_contains_middle("{"@, inside, "}"@);
    lemma_contains_transitive(entry.line(), inside, texts[i]);
}

/// The log line of a record with a query holds the query: under the name
/// `query`, as a string literal.
pub proof fn lemma_line_holds_query(entry: AccessLogEntryView)
    requires
        entry.query is Some,
    ensures
        contains(entry.line(), JsonMemberView::string("query"@, entry.query.unwrap()).text()),
{
    let at = optional_string("remoteIp"@, entry.remote_ip).len() + optional_string(
        "opName"@,
        entry.op_name,
    ).len() + optional_string("error"@, entry.error).len();
    lemma_line_holds_member(entry, at as int);
}

/// The log line of a record with variables holds them as they stand: under
/// the name `variables`, as the object of their members.
pub proof fn lemma_line_holds_variables(entry: AccessLogEntryView)
    requires
        entry.variables is Some,
    ensures
        contains(
            entry.line(),
            JsonMemberView::object("variables"@, entry.variables.unwrap()).text(),
        ),
        contains(entry.line(), object_text(entry.variables.unwrap())),
{
    let member = JsonMemberView::object("variables"@, entry.variables.unwrap());
    let at = entry.members().len() - 1;
    lemma_line_holds_member(entry, at);
    assert(entry.members()[at] == member);
    let none = Seq::<char>::empty();
    lemma_contains_middle(json_string_literal(member.name) + ":"@, member.value, none);
    assert(json_string_literal(member.name) + ":"@ + member.value + none =~= member.text());
    lemma_contains_transitive(entry.line(), member.text(), member.value);
}

/// The log line of a record without variables has no member of the name
/// `variables`.
pub proof fn lemma_line_without_variables(entry: AccessLogEntryView)
    requires
        entry.variables is None,
    ensures
        forall|i: int|
            0 <= i < entry.members().len() ==> (#[trigger] entry.members()[i]).name
                != "variables"@,
{
    reveal_strlit("remoteIp");
    reveal_strlit("opName");
    reveal_strlit("error");
    reveal_strlit("query");
    reveal_strlit("variables");
    assert forall|i: int| 0 <= i < entry.members().len() implies (
    #[trigger] entry.members()[i]).name.len() != 9 by {
        let a = optional_string("remoteIp"@, entry.remote_ip);
        let b = optional_string("opName"@, entry.op_name);
        let c = optional_string("error"@, entry.error);
        let d = optional_string("query"@, entry.query);
        assert(entry.members() =~= a + b + c + d);
    }
}

/// Appends the member `name` with the string `text`, if there is a text.
fn push_string(members: &mut Vec<JsonMember>, name: &str, text: &Option<String>)
    ensures
        final(members).deep_view() == old(members).deep_view() + optional_string(
            name@,
            text.deep_view(),
        ),
{
    let ghost before = members.deep_view();
    match text {
        Some(text) => {
            let member = JsonMember::string(name, text.as_str());
            members.push(member);
            assert(members.deep_view() =~= before + seq![member@]);
        },
        None => {
            assert(members.deep_view() =~= before + Seq::<JsonMemberView>::empty());
        },
    }
}

/// Appends the member `name` with the object made of `inner`, if there are
/// members to speak of.
fn push_object(members: &mut Vec<JsonMember>, name: &str, inner: &Option<Vec<JsonMember>>)
    ensures
        final(members).deep_view() == old(members).deep_view() + optional_object(
            name@,
            inner.deep_view(),
        ),
{
    let ghost before = members.deep_view();
    match inner {
        Some(inner) => {
            let member = JsonMember::object(name, inner);
            members.push(member);
            assert(members.deep_view() =~= before + seq![member@]);
        },
        None => {
            assert(members.deep_view() =~= before + Seq::<JsonMemberView>::empty());
        },
    }
}

impl Default for AccessLogEntry {
    /// The record of a request of which nothing is known yet.
    fn default() -> (entry: AccessLogEntry)
        ensures
            entry@ == AccessLogEntryView::empty(),
    {
        AccessLogEntry { remote_ip: None, op_name: None, error: None, query: None, variables: None }
    }
}

impl AccessLogEntry {
    /// The members of the log line, in order.
    pub fn members(&self) -> (members: Vec<JsonMember>)
        ensures
            members.deep_view() == self@.members(),
    {
        let mut members: Vec<JsonMember> = Vec::new();
        assert(members.deep_view() =~= Seq::<JsonMemberView>::empty());
        push_string(&mut members, "remoteIp", &self.remote_ip);
        push_string(&mut members, "opName", &self.op_name);
        push_string(&mut members, "error", &self.error);
        push_string(&mut members, "query", &self.query);
        push_object(&mut members, "variables", &self.variables);
        assert(members.deep_view() =~= self@.members());
        members
    }

    /// The log line of the request.
    pub fn to_json(&self) -> (line: String)
        ensures
            line@ == self@.line(),
    {
        render_object(&self.members())
    }

    /// What is known of the request when one of its fields fails.
    pub fn context(&self) -> (members: Vec<JsonMember>)
        ensures
            members.deep_view() == self@.context(),
    {
        let mut members: Vec<JsonMember> = Vec::new();
        assert(members.deep_view() =~= Seq::<JsonMemberView>::empty());
        push_string(&mut members, "ip", &self.remote_ip);
        push_string(&mut members, "op_name", &self.op_name);
        push_string(&mut members, "query", &self.query);
        push_object(&mut members, "variables", &self.variables);
        assert(members.deep_view() =~= self@.context());
        members
    }

    /// Whether the recorded query asks for the schema itself.
    pub fn is_introspection(&self) -> (marked: bool)
        ensures
            marked == self@.is_introspection(),
    {
        match &self.query {
            Some(query) => contains_text(query.as_str(), "__schema"),
            None => false,
        }
    }
}

} // verus!
