//! JSON text: string literals and objects.
//!
//! A log line is one JSON object. Its members are decided here and in the
//! modules that build on this one; the escaping of a string is left to
//! `serde_json`.

use crate::text::join;
use crate::text::join_texts;
use vstd::prelude::*;
use vstd::string::StringExecFns;

verus! {

/// The JSON string literal that stands for `text` in compact JSON: the
/// characters of `text` between double quotes, escaped where JSON asks for it.
pub uninterp spec fn json_string_literal(text: Seq<char>) -> Seq<char>;

/// `serde_json::to_string` on a string slice.
///
/// Trusted: the result is the JSON string literal of `text`, which the
/// contracts call `json_string_literal`. The serialiser writes a string into
/// a byte vector in memory, so the call has no way to fail; the error arm is
/// there for the type only.
#[verifier::external_body]
fn string_literal(text: &str) -> (literal: String)
    ensures
        literal@ == json_string_literal(text@),
{
    match serde_json::to_string(text) {
        Ok(literal) => literal,
        Err(_) => String::new(),
    }
}

/// One member of a JSON object: its name as plain text, and its value as
/// JSON text that is written out as it stands.
#[derive(Debug, PartialEq, Eq)]
pub struct JsonMember {
    pub name: String,
    pub value: String,
}

/// The mathematical value of a [`JsonMember`].
pub struct JsonMemberView {
    pub name: Seq<char>,
    pub value: Seq<char>,
}

impl View for JsonMember {
    type V = JsonMemberView;

    open spec fn view(&self) -> JsonMemberView {
        JsonMemberView { name: self.name@, value: self.value@ }
    }
}

impl DeepView for JsonMember {
    type V = JsonMemberView;

    open spec fn deep_view(&self) -> JsonMemberView {
        self@
    }
}

impl Clone for JsonMember {
    fn clone(&self) -> (copy: JsonMember)
        ensures
            copy@ == self@,
    {
        JsonMember { name: self.name.clone(), value: self.value.clone() }
    }
}

/// A member as it stands in an object, given its name as a string literal:
/// the literal, a colon, the value.
pub open spec fn member_text(name_literal: Seq<char>, value: Seq<char>) -> Seq<char> {
    name_literal + ":"@ + value
}

/// The compact JSON object whose members, as they stand in it, are `texts`:
/// the texts between braces, with a comma between each two neighbours.
pub open spec fn framed_object(texts: Seq<Seq<char>>) -> Seq<char> {
    "{"@ + join(texts, ","@) + "}"@
}

impl JsonMemberView {
    /// A member whose value is the string `text`.
    pub open spec fn string(name: Seq<char>, text: Seq<char>) -> JsonMemberView {
        JsonMemberView { name, value: json_string_literal(text) }
    }

    /// A member whose value is the object made of `members`.
    pub open spec fn object(name: Seq<char>, members: Seq<JsonMemberView>) -> JsonMemberView {
        JsonMemberView { name, value: object_text(members) }
    }

    /// The member as it stands in an object: the name as a string literal, a
    /// colon, the value.
    pub open spec fn text(self) -> Seq<char> {
        member_text(json_string_literal(self.name), self.value)
    }
}

/// The texts of `members`, one for each, in order.
pub open spec fn member_texts(members: Seq<JsonMemberView>) -> Seq<Seq<char>> {
    Seq::new(members.len(), |i: int| members[i].text())
}

/// The compact JSON object that holds `members` in order.
pub open spec fn object_text(members: Seq<JsonMemberView>) -> Seq<char> {
    framed_object(member_texts(members))
}

/// Writes a member as it stands in an object, given its name as a string
/// literal.
pub fn frame_member(name_literal: &str, value: &str) -> (text: String)
    ensures
        text@ == member_text(name_literal@, value@),
{
    let mut text = String::from_str(name_literal);
    text.append(":");
    text.append(value);
    text
}

/// Writes the compact JSON object whose members, as they stand in it, are
/// `texts`.
pub fn frame_object(texts: &Vec<String>) -> (text: String)
    ensures
        text@ == framed_object(texts.deep_view()),
{
    let mut text = String::from_str("{");
    text.append(join_texts(texts, ",").as_str());
    text.append("}");
    text
}

impl JsonMember {
    /// A member whose value is the string `text`.
    pub fn string(name: &str, text: &str) -> (member: JsonMember)
        ensures
            member@ == JsonMemberView::string(name@, text@),
    {
        JsonMember { name: String::from_str(name), value: string_literal(text) }
    }

    /// A member whose value is the object made of `members`.
    pub fn object(name: &str, members: &Vec<JsonMember>) -> (member: JsonMember)
        ensures
            member@ == JsonMemberView::object(name@, members.deep_view()),
    {
        JsonMember { name: String::from_str(name), value: render_object(members) }
    }

    /// The member as it stands in an object.
    pub fn text(&self) -> (text: String)
        ensures
            text@ == self@.text(),
    {
        let name_literal = string_literal(self.name.as_str());
        frame_member(name_literal.as_str(), self.value.as_str())
    }
}

/// Writes the compact JSON object that holds `members` in order.
pub fn render_object(members: &Vec<JsonMember>) -> (text: String)
    ensures
        text@ == object_text(members.deep_view()),
{
    let ghost views = members.deep_view();
    let mut texts: Vec<String> = Vec::new();
    let mut i: usize = 0;
    while i < members.len()
        invariant
            i <= members.len(),
            views == members.deep_view(),
            texts.deep_view() == member_texts(views.take(i as int)),
        decreases members.len() - i,
    {
        let text = members[i].text();
        let ghost before = texts.deep_view();
        texts.push(text);
        assert(texts.deep_view() =~= before.push(text@));
        assert(texts.deep_view() =~= member_texts(views.take(i + 1)));
        i += 1;
    }
    assert(views.take(members.len() as int) =~= views);
    frame_object(&texts)
}

} // verus!
