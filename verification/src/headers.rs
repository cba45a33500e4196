//! Custom headers for the handshake request.
//!
//! A header is configured as one string, `Key: Value`. It is split at its
//! first colon; a string without a colon is no header and is turned down.

use vstd::prelude::*;
use vstd::string::*;
use vstd::utf8::encode_utf8;
use crate::text::{chars_of, first_position, lemma_first_position, string_views};

verus! {

/// A raw header: a name, and a value as bytes.
#[derive(Debug, PartialEq, Eq)]
pub struct Header {
    /// What stands before the first colon.
    pub name: String,
    /// The UTF-8 encoding of what stands after the first colon, unchanged.
    pub value: Vec<u8>,
}

impl View for Header {
    type V = (Seq<char>, Seq<u8>);

    open spec fn view(&self) -> (Seq<char>, Seq<u8>) {
        (self.name@, self.value@)
    }
}

/// The configured headers, sorted into those to set on the request and those
/// turned down.
#[derive(Debug, PartialEq, Eq)]
pub struct HeaderPlan {
    /// The headers to set on the request, in the order configured.
    pub accepted: Vec<Header>,
    /// The strings that hold no colon, in the order configured.
    pub rejected: Vec<String>,
}

/// The views of a sequence of headers, in the same order.
pub open spec fn header_views(headers: Seq<Header>) -> Seq<(Seq<char>, Seq<u8>)> {
    headers.map_values(|header: Header| header@)
}

/// The header that `s` configures: the name before the first colon and the
/// encoded value after it; none if `s` has no colon.
pub open spec fn header_of(s: Seq<char>) -> Option<(Seq<char>, Seq<u8>)> {
    let at = first_position(s, ':');
    if at < s.len() {
        Some((s.take(at), encode_utf8(s.skip(at + 1))))
    } else {
        None
    }
}

/// The headers that the strings `configured` configure, in the same order.
pub open spec fn accepted_headers(configured: Seq<Seq<char>>) -> Seq<(Seq<char>, Seq<u8>)>
    decreases configured.len(),
{
    if configured.len() == 0 {
        Seq::empty()
    } else {
        let before = accepted_headers(configured.drop_last());
        match header_of(configured.last()) {
            Some(header) => before.push(header),
            None => before,
        }
    }
}

/// The strings among `configured` that configure no header, in the same
/// order.
pub open spec fn rejected_headers(configured: Seq<Seq<char>>) -> Seq<Seq<char>>
    decreases configured.len(),
{
    if configured.len() == 0 {
        Seq::empty()
    } else {
        let before = rejected_headers(configured.drop_last());
        match header_of(configured.last()) {
            Some(_) => before,
            None => before.push(configured.last()),
        }
    }
}

/// Splits a configured header at its first colon.
pub fn split_header(header: &str) -> (split: Option<Header>)
    ensures
        match split {
            Some(found) => header_of(header@) == Some(found@),
            None => header_of(header@) is None,
        },
{
    let chars = chars_of(header);
    let mut at: usize = 0;
    while at < chars.len() && chars[at] != ':'
        invariant
            at <= chars.len(),
            forall|j: int| 0 <= j < at ==> chars@[j] != ':',
        decreases chars.len() - at,
    {
        at += 1;
    }
    proof {
        lemma_first_position(header@, ':', at as int);
    }
    if at < chars.len() {
        let name = String::from_str(header.substring_char(0, at));
        let value = header.substring_char(at + 1, chars.len()).as_bytes_vec();
        assert(header@.subrange(0, at as int) =~= header@.take(at as int));
        assert(header@.subrange(at + 1, chars.len() as int) =~= header@.skip(at + 1));
        Some(Header { name, value })
    } else {
        None
    }
}

/// Sorts the configured headers into those to set on the handshake request
/// and those to turn down, each in the order configured.
pub fn add_headers_to_request(headers: &Vec<String>) -> (plan: HeaderPlan)
    ensures
        header_views(plan.accepted@) == accepted_headers(string_views(headers@)),
        string_views(plan.rejected@) == rejected_headers(string_views(headers@)),
{
    let mut accepted: Vec<Header> = Vec::new();
    let mut rejected: Vec<String> = Vec::new();
    let ghost configured = string_views(headers@);
    let mut i: usize = 0;
    assert(header_views(accepted@) =~= accepted_headers(configured.take(0)));
    assert(string_views(rejected@) =~= rejected_headers(configured.take(0)));
    while i < headers.len()
        invariant
            i <= headers.len(),
            configured == string_views(headers@),
            header_views(accepted@) == accepted_headers(configured.take(i as int)),
            string_views(rejected@) == rejected_headers(configured.take(i as int)),
        decreases headers.len() - i,
    {
        let ghost accepted_before = header_views(accepted@);
        let ghost rejected_before = string_views(rejected@);
        proof {
            assert(configured.take(i + 1).drop_last() =~= configured.take(i as int));
            assert(configured.take(i + 1).last() == headers@[i as int]@);
        }
        match split_header(headers[i].as_str()) {
            Some(header) => {
                accepted.push(header);
                assert(header_views(accepted@) =~= accepted_before.push(header@));
            },
            None => {
                rejected.push(headers[i].clone());
                assert(string_views(rejected@) =~= rejected_before.push(headers@[i as int]@));
            },
        }
        i += 1;
    }
    assert(configured.take(i as int) =~= configured);
    HeaderPlan { accepted, rejected }
}

} // verus!
