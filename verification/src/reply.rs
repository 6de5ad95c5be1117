//! Reading the AI service's reply: the text at the place in the reply
//! document where each provider puts it.
use vstd::prelude::*;
use crate::ai::AiProvider;

verus! {

/// A JSON document, as the reply is read (numbers are kept as their text).
#[derive(Debug)]
pub enum JsonTree {
    Null,
    Bool(bool),
    Number(String),
    Text(String),
    Array(Vec<JsonTree>),
    Object(Vec<(String, JsonTree)>),
}

/// The value of the first entry named `key`, if any.
pub open spec fn lookup(entries: Seq<(String, JsonTree)>, key: Seq<char>) -> Option<JsonTree>
    decreases entries.len(),
{
    if entries.len() == 0 {
        None
    } else if entries[0].0@ == key {
        Some(entries[0].1)
    } else {
        lookup(entries.drop_first(), key)
    }
}

/// The member `key` of an object; nothing for anything else.
pub open spec fn member(t: Option<JsonTree>, key: Seq<char>) -> Option<JsonTree> {
    match t {
        Some(JsonTree::Object(entries)) => lookup(entries@, key),
        _ => None,
    }
}

/// The element `i` of an array; nothing for anything else.
pub open spec fn element(t: Option<JsonTree>, i: int) -> Option<JsonTree> {
    match t {
        Some(JsonTree::Array(items)) => if 0 <= i < items@.len() {
            Some(items@[i])
        } else {
            None
        },
        _ => None,
    }
}

/// The text of a string value.
pub open spec fn text_of(t: Option<JsonTree>) -> Option<Seq<char>> {
    match t {
        Some(JsonTree::Text(s)) => Some(s@),
        _ => None,
    }
}

/// Where each provider puts the reply: Gemini at
/// `candidates[0].content.parts[0].text`, Groq at
/// `choices[0].message.content`.
pub open spec fn reply_of(provider: AiProvider, doc: JsonTree) -> Option<Seq<char>> {
    match provider {
        AiProvider::Gemini => text_of(
            member(
                element(member(member(element(member(Some(doc), "candidates"@), 0), "content"@), "parts"@), 0),
                "text"@,
            ),
        ),
        AiProvider::Groq => text_of(
            member(member(element(member(Some(doc), "choices"@), 0), "message"@), "content"@),
        ),
        AiProvider::Offline => None,
    }
}

fn member_of<'a>(t: Option<&'a JsonTree>, key: &str) -> (r: Option<&'a JsonTree>)
    ensures
        match r {
            Some(x) => member(
                match t {
                    Some(y) => Some(*y),
                    None => None,
                },
                key@,
            ) == Some(*x),
            None => member(
                match t {
                    Some(y) => Some(*y),
                    None => None,
                },
                key@,
            ) is None,
        },
{
    match t {
        Some(JsonTree::Object(entries)) => {
            let ghost tv = match t {
                Some(y) => Some(*y),
                None => None,
            };
            assert(member(tv, key@) == lookup(entries@, key@));
            let mut i: usize = 0;
            assert(entries@.skip(0) =~= entries@);
            while i < entries.len()
                invariant
                    i <= entries@.len(),
                    tv == (match t {
                        Some(y) => Some(*y),
                        None => None,
                    }),
                    member(tv, key@) == lookup(entries@, key@),
                    lookup(entries@.skip(i as int), key@) == lookup(entries@, key@),
                decreases entries.len() - i,
            {
                assert(entries@.skip(i as int).drop_first() =~= entries@.skip(i + 1));
                assert(entries@.skip(i as int)[0] == entries@[i as int]);
                if crate::text::str_eq(entries[i].0.as_str(), key) {
                    assert(lookup(entries@.skip(i as int), key@) == Some(entries@[i as int].1));
                    let r = &entries[i].1;
                    assert(*r == entries@[i as int].1);
                    return Some(r);
                }
                i = i + 1;
            }
            None
        },
        _ => None,
    }
}

fn element_of<'a>(t: Option<&'a JsonTree>, i: usize) -> (r: Option<&'a JsonTree>)
    ensures
        match r {
            Some(x) => element(
                match t {
                    Some(y) => Some(*y),
                    None => None,
                },
                i as int,
            ) == Some(*x),
            None => element(
                match t {
                    Some(y) => Some(*y),
                    None => None,
                },
                i as int,
            ) is None,
        },
{
    match t {
        Some(JsonTree::Array(items)) => {
            if i < items.len() {
                Some(&items[i])
            } else {
                None
            }
        },
        _ => None,
    }
}

fn text_in(t: Option<&JsonTree>) -> (r: Option<String>)
    ensures
        crate::text::opt_view(r) == text_of(
            match t {
                Some(y) => Some(*y),
                None => None,
            },
        ),
{
    match t {
        Some(JsonTree::Text(s)) => Some(s.clone()),
        _ => None,
    }
}

/// The reply text in the provider's reply document, if it is there.
pub fn reply_text(provider: AiProvider, doc: &JsonTree) -> (r: Option<String>)
    ensures
        crate::text::opt_view(r) == reply_of(provider, *doc),
{
    match provider {
        AiProvider::Gemini => {
            let a = member_of(Some(doc), "candidates");
            let b = element_of(a, 0);
            let c = member_of(b, "content");
            let d = member_of(c, "parts");
            let e = element_of(d, 0);
            let f = member_of(e, "text");
            text_in(f)
        },
        AiProvider::Groq => {
            let a = member_of(Some(doc), "choices");
            let b = element_of(a, 0);
            let c = member_of(b, "message");
            let d = member_of(c, "content");
            text_in(d)
        },
        AiProvider::Offline => None,
    }
}

} // verus!
