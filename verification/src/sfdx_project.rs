//! The project descriptor: where it is found and which API version it
//! declares.

use crate::json::{json_reading, parse_value, text_member, Json};
use crate::text::chars_of;
use vstd::prelude::*;

verus! {

/// Why a project gave no API version.
#[derive(Debug, Clone, Copy, PartialEq, Eq, Structural)]
pub enum ProjectError {
    MissingProject,
    InvalidJson,
    MissingApiVersion,
}

impl ProjectError {
    /// The error in words.
    pub open spec fn message_text(self) -> Seq<char> {
        match self {
            ProjectError::MissingProject => "sfdx-project.json not found"@,
            ProjectError::InvalidJson => "invalid sfdx-project.json"@,
            ProjectError::MissingApiVersion => "missing sourceApiVersion"@,
        }
    }

    /// The error in words.
    pub fn message(&self) -> (text: String)
        ensures
            text@ == self.message_text(),
    {
        match self {
            ProjectError::MissingProject => String::from_str("sfdx-project.json not found"),
            ProjectError::InvalidJson => String::from_str("invalid sfdx-project.json"),
            ProjectError::MissingApiVersion => String::from_str("missing sourceApiVersion"),
        }
    }
}

/// The nearest of `ancestors` directories, counted from the start directory
/// upwards, that holds the descriptor. `has_descriptor` is asked about one
/// directory after the other, the start directory (number 0) first, and no
/// more once one has answered yes.
pub fn find_project_root<F>(ancestors: usize, has_descriptor: F) -> (root: Option<usize>) where
    F: FnMut(usize) -> bool,

    requires
        forall|i: usize| call_requires(has_descriptor, (i,)),
    ensures
        match root {
            Some(found) => {
                &&& found < ancestors
                &&& call_ensures(has_descriptor, (found,), true)
                &&& forall|i: usize| i < found ==> call_ensures(has_descriptor, (i,), false)
            },
            None => forall|i: usize| i < ancestors ==> call_ensures(has_descriptor, (i,), false),
        },
{
    let mut probe = has_descriptor;
    let mut current: usize = 0;
    while current < ancestors
        invariant
            current <= ancestors,
            probe == has_descriptor,
            forall|i: usize| call_requires(has_descriptor, (i,)),
            forall|i: usize| i < current ==> call_ensures(has_descriptor, (i,), false),
        decreases ancestors - current,
    {
        let found = probe(current);
        if found {
            return Some(current);
        }
        current += 1;
    }
    None
}

/// An ASCII decimal digit.
pub open spec fn is_digit(c: char) -> bool {
    '0' <= c <= '9'
}

/// Whether `text` is digits, a dot at `dot`, and digits again.
pub open spec fn dotted_at(text: Seq<char>, dot: int) -> bool {
    &&& 0 < dot < text.len() - 1
    &&& text[dot] == '.'
    &&& forall|k: int| 0 <= k < text.len() && k != dot ==> is_digit(#[trigger] text[k])
}

/// The shape of an API version: digits, one dot, digits.
pub open spec fn is_api_version(text: Seq<char>) -> bool {
    exists|dot: int| dotted_at(text, dot)
}

/// Whether the text has the shape of an API version.
pub fn is_valid_api_version(value: &str) -> (valid: bool)
    ensures
        valid == is_api_version(value@),
{
    let chars = chars_of(value);
    let mut dot: usize = 0;
    while dot < chars.len() && chars[dot] != '.'
        invariant
            dot <= chars.len(),
            forall|k: int| 0 <= k < dot ==> chars@[k] != '.',
        decreases chars.len() - dot,
    {
        dot += 1;
    }
    if dot == 0 || dot >= chars.len() || dot + 1 >= chars.len() {
        proof {
            assert forall|d: int| !dotted_at(chars@, d) by {
                if dotted_at(chars@, d) {
                    if d != dot && dot < chars.len() {
                        assert(is_digit(chars@[dot as int]));
                    }
                }
            }
        }
        return false;
    }
    let mut k: usize = 0;
    while k < chars.len()
        invariant
            k <= chars.len(),
            0 < dot < chars.len() - 1,
            chars@ == value@,
            chars@[dot as int] == '.',
            forall|j: int| 0 <= j < k && j != dot ==> is_digit(#[trigger] chars@[j]),
        decreases chars.len() - k,
    {
        let c = chars[k];
        if k != dot && !('0' <= c && c <= '9') {
            proof {
                assert forall|d: int| !dotted_at(chars@, d) by {
                    if dotted_at(chars@, d) {
                        if d == k as int {
                            assert(is_digit(chars@[dot as int]));
                        } else {
                            assert(is_digit(chars@[k as int]));
                        }
                    }
                }
            }
            return false;
        }
        k += 1;
    }
    proof {
        assert(dotted_at(chars@, dot as int));
    }
    true
}

/// The API version that a descriptor declares. The descriptor has to be
/// JSON, or it is `InvalidJson`. Its member `sourceApiVersion` has to be a
/// string of the shape of an API version: where it is missing, no string or
/// of another shape, it is `MissingApiVersion`.
pub open spec fn api_version_of(descriptor: Seq<char>) -> Result<Seq<char>, ProjectError> {
    match json_reading(descriptor) {
        Err(_) => Err(ProjectError::InvalidJson),
        Ok(json) => match json.field("sourceApiVersion"@) {
            Some(Json::Text(version)) if is_api_version(version) => Ok(version),
            _ => Err(ProjectError::MissingApiVersion),
        },
    }
}

/// The API version that the project declares. `descriptor` is the text of
/// its descriptor, or `None` where that could not be read, which is
/// `MissingProject`. A descriptor that is no JSON is `InvalidJson`, one
/// without a version of the right shape is `MissingApiVersion`: each of the
/// three failures has an error of its own.
pub fn read_source_api_version(descriptor: Option<&str>) -> (result: Result<String, ProjectError>)
    ensures
        match result {
            Ok(version) => descriptor is Some && api_version_of(descriptor->0@) == Ok::<
                Seq<char>,
                ProjectError,
            >(version@),
            Err(error) => match descriptor {
                Some(text) => api_version_of(text@) == Err::<Seq<char>, ProjectError>(error),
                None => error == ProjectError::MissingProject,
            },
        },
{
    let text = match descriptor {
        Some(text) => text,
        None => { return Err(ProjectError::MissingProject); },
    };
    let value = match parse_value(text) {
        Ok(value) => value,
        Err(_) => { return Err(ProjectError::InvalidJson); },
    };
    let version = match text_member(&value, "sourceApiVersion") {
        Some(version) => version,
        None => { return Err(ProjectError::MissingApiVersion); },
    };
    if !is_valid_api_version(version.as_str()) {
        return Err(ProjectError::MissingApiVersion);
    }
    Ok(version)
}

} // verus!
