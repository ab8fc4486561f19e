//! A request as plain data: what is to be sent, before anything is sent.

use crate::types::{BatchOperation, PatchOperations};
use serde_json::Value;
use vstd::prelude::*;

verus! {

/// The header that carries the caller's token.
pub const TOKEN_HEADER: &'static str = "X-KV-Token";

/// The HTTP methods that the service is spoken to with.
#[derive(Clone, Copy, Debug, PartialEq, Eq, Structural)]
pub enum Method {
    Get,
    Post,
    Delete,
    Patch,
}

impl Method {
    /// The method's name on the wire.
    pub open spec fn name(&self) -> Seq<char> {
        match self {
            Method::Get => "GET"@,
            Method::Post => "POST"@,
            Method::Delete => "DELETE"@,
            Method::Patch => "PATCH"@,
        }
    }

    /// The method's name on the wire.
    pub fn as_str(&self) -> (r: &'static str)
        ensures
            r@ == self.name(),
    {
        match self {
            Method::Get => "GET",
            Method::Post => "POST",
            Method::Delete => "DELETE",
            Method::Patch => "PATCH",
        }
    }
}

/// The value of one member of a JSON body.
#[derive(Debug)]
pub enum FieldValue<'a> {
    /// A number.
    Integer(i32),
    /// A string.
    Text(&'a str),
    /// An arbitrary document.
    Document(&'a Value),
    /// A partial update.
    Patch(&'a PatchOperations),
    /// A list of batch operations, in order.
    Operations(Vec<BatchOperation>),
}

/// One member of a JSON body: its name and its value.
#[derive(Debug)]
pub struct Field<'a> {
    pub name: &'static str,
    pub value: FieldValue<'a>,
}

/// A member of a JSON body as contracts speak of it.
pub struct Member<'a> {
    pub name: Seq<char>,
    pub value: FieldValue<'a>,
}

impl<'a> View for Field<'a> {
    type V = Member<'a>;

    open spec fn view(&self) -> Member<'a> {
        Member { name: self.name@, value: self.value }
    }
}

/// The members that a list of fields stands for, in order.
pub open spec fn members<'a>(fields: Seq<Field<'a>>) -> Seq<Member<'a>> {
    Seq::new(fields.len(), |i: int| fields[i]@)
}

/// What a request carries as its body.
#[derive(Debug)]
pub enum Body<'a> {
    /// No body at all.
    Empty,
    /// A JSON object with exactly these members.
    Object(Vec<Field<'a>>),
}

impl<'a> Body<'a> {
    /// The members of the body's object; `None` where there is no body.
    pub open spec fn content(&self) -> Option<Seq<Member<'a>>> {
        match self {
            Body::Empty => None,
            Body::Object(fields) => Some(members(fields@)),
        }
    }
}

/// One request to the service.
#[derive(Debug)]
pub struct Request<'a> {
    pub method: Method,
    pub url: String,
    /// The value of the token header; `None` where the header is not sent.
    pub token: Option<&'a str>,
    pub body: Body<'a>,
}

impl<'a> Request<'a> {
    /// The request consists of exactly this: method, URL, token header and
    /// the members of its body.
    pub open spec fn consists_of(
        &self,
        method: Method,
        url: Seq<char>,
        token: Option<Seq<char>>,
        content: Option<Seq<Member<'a>>>,
    ) -> bool {
        &&& self.method == method
        &&& self.url@ == url
        &&& match self.token {
            Some(t) => token == Some(t@),
            None => token is None,
        }
        &&& self.body.content() == content
    }
}

/// Appending a field appends its member.
pub proof fn lemma_members_push<'a>(fields: Seq<Field<'a>>, field: Field<'a>)
    ensures
        members(fields.push(field)) == members(fields).push(field@),
{
    assert(members(fields.push(field)) =~= members(fields).push(field@));
}

} // verus!
