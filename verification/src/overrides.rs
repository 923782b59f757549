//! The override document: a JSON object of provider names and base URLs,
//! read down to what the provider table needs of it.

use vstd::prelude::*;
use crate::errors::AppError;

verus! {

/// One member of an override object: its name, and its value where that is a
/// JSON string.
#[derive(Debug, Clone)]
pub struct OverrideEntry {
    pub name: String,
    pub url: Option<String>,
}

/// What the table reads of an override document: the members of the object,
/// or that the document is no object.
#[derive(Debug, Clone)]
pub enum Overrides {
    Object(Vec<OverrideEntry>),
    NotObject,
}

impl View for OverrideEntry {
    type V = (Seq<char>, Option<Seq<char>>);

    open spec fn view(&self) -> (Seq<char>, Option<Seq<char>>) {
        (
            self.name@,
            match self.url {
                Some(url) => Some(url@),
                None => None,
            },
        )
    }
}

impl View for Overrides {
    type V = Option<Seq<(Seq<char>, Option<Seq<char>>)>>;

    open spec fn view(&self) -> Option<Seq<(Seq<char>, Option<Seq<char>>)>> {
        match self {
            Overrides::Object(members) => Some(members@.map_values(|m: OverrideEntry| m@)),
            Overrides::NotObject => None,
        }
    }
}

/// `serde_json::Value`, carried through as an opaque value.
#[verifier::external_type_specification]
#[verifier::external_body]
pub struct ExJsonValue(serde_json::Value);

/// What `serde_json::from_str` makes of a text: the document, or the error.
pub uninterp spec fn json_parsed(text: Seq<char>) -> Result<serde_json::Value, serde_json::Error>;

/// The members of a JSON object, each as name and value, in the order in
/// which its map hands them out; `None` for a value that is no object.
pub uninterp spec fn json_members(value: serde_json::Value) -> Option<
    Seq<(Seq<char>, serde_json::Value)>,
>;

/// The text of a JSON string; `None` for a value that is no string.
pub uninterp spec fn json_string(value: serde_json::Value) -> Option<Seq<char>>;

/// The members of a list, each name by its view.
pub open spec fn member_views(members: Seq<(String, serde_json::Value)>) -> Seq<
    (Seq<char>, serde_json::Value),
> {
    members.map_values(|m: (String, serde_json::Value)| (m.0@, m.1))
}

/// Calls `serde_json::from_str` for a `serde_json::Value`. The contract only
/// names the outcome.
#[verifier::external_body]
fn json_from_str(text: &str) -> (outcome: Result<serde_json::Value, serde_json::Error>)
    ensures
        outcome == json_parsed(text@),
{
    serde_json::from_str(text)
}

/// Calls `serde_json::Value::as_object`, which gives the map of an object and
/// `None` for any other value, and hands out a copy of each member of the map
/// in the map's own order.
#[verifier::external_body]
fn json_as_object(value: &serde_json::Value) -> (members: Option<
    Vec<(String, serde_json::Value)>,
>)
    ensures
        match members {
            Some(list) => json_members(*value) == Some(member_views(list@)),
            None => json_members(*value) is None,
        },
{
    let map = value.as_object()?;
    Some(map.iter().map(|(name, member)| (name.clone(), member.clone())).collect())
}

/// Calls `serde_json::Value::as_str`, which gives the text of a string and
/// `None` for any other value.
#[verifier::external_body]
fn json_as_str(value: &serde_json::Value) -> (text: Option<String>)
    ensures
        match text {
            Some(s) => json_string(*value) == Some(s@),
            None => json_string(*value) is None,
        },
{
    value.as_str().map(|s| s.to_owned())
}

/// What the table reads of one member: its name, and its value where that is
/// a string.
pub open spec fn member_override(member: (Seq<char>, serde_json::Value)) -> (
    Seq<char>,
    Option<Seq<char>>,
) {
    (member.0, json_string(member.1))
}

/// What the table reads of a JSON document: the members of the object, or
/// `None` where the document is no object.
pub open spec fn overrides_of(value: serde_json::Value) -> Option<
    Seq<(Seq<char>, Option<Seq<char>>)>,
> {
    match json_members(value) {
        Some(members) => Some(
            members.map_values(|m: (Seq<char>, serde_json::Value)| member_override(m)),
        ),
        None => None,
    }
}

/// What the table reads of an override text: the error if the text is not
/// JSON, else what it reads of the document.
pub open spec fn json_overrides(text: Seq<char>) -> Result<
    Option<Seq<(Seq<char>, Option<Seq<char>>)>>,
    serde_json::Error,
> {
    match json_parsed(text) {
        Ok(value) => Ok(overrides_of(value)),
        Err(error) => Err(error),
    }
}

/// Reads from a JSON document what the table needs of it.
fn read_overrides(value: &serde_json::Value) -> (document: Overrides)
    ensures
        document@ == overrides_of(*value),
{
    match json_as_object(value) {
        Some(members) => {
            let ghost all = member_views(members@);
            let mut entries: Vec<OverrideEntry> = Vec::new();
            let mut i: usize = 0;
            while i < members.len()
                invariant
                    i <= members@.len(),
                    all == member_views(members@),
                    entries@.len() == i,
                    forall|k: int|
                        0 <= k < i ==> (#[trigger] entries@[k])@ == member_override(all[k]),
                decreases members@.len() - i,
            {
                let url = json_as_str(&members[i].1);
                entries.push(OverrideEntry { name: members[i].0.clone(), url });
                i += 1;
            }
            let document = Overrides::Object(entries);
            assert(document@ == overrides_of(*value)) by {
                assert(entries@.map_values(|m: OverrideEntry| m@) =~= all.map_values(
                    |m: (Seq<char>, serde_json::Value)| member_override(m),
                ));
            }
            document
        },
        None => Overrides::NotObject,
    }
}

/// Reads an override document. A text that is not JSON is reported, not
/// fatal.
pub fn parse_overrides(text: &str) -> (outcome: Result<Overrides, AppError>)
    ensures
        match outcome {
            Ok(document) => json_overrides(text@) == Ok::<
                Option<Seq<(Seq<char>, Option<Seq<char>>)>>,
                serde_json::Error,
            >(document@),
            Err(AppError::SerdeJsonError(error)) => json_overrides(text@) == Err::<
                Option<Seq<(Seq<char>, Option<Seq<char>>)>>,
                serde_json::Error,
            >(error),
            Err(_) => false,
        },
{
    match json_from_str(text) {
        Ok(value) => Ok(read_overrides(&value)),
        Err(error) => Err(AppError::SerdeJsonError(error)),
    }
}

} // verus!
