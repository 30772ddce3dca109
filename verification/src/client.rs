//! Release-metadata client: interprets what came back from the release
//! index and turns it into a version descriptor or a classified error.
//!
//! The HTTP exchange itself is the caller's: it reports what it observed as
//! a [`FetchEvent`], and every decision after that point is made — and
//! verified — here.

use vstd::prelude::*;

use crate::json::{json_body_parses, json_str_field, json_top_level_str, json_wf};
use crate::text::{spec_decimal, u16_decimal};
use crate::version::{normalize_version_tag, spec_normalize_tag};

verus! {

/// The latest published version, as far as the index reported it. The index
/// may omit any field across versions of the remote service, so each field
/// is optional rather than required.
pub struct VersionDescriptor {
    /// The raw tag, taken from the primary key of the response, or from the
    /// fallback key where the primary one is absent.
    pub tag: Option<String>,
    /// The tag with one known prefix stripped.
    pub normalized_version: Option<String>,
    /// Release notes, where the index carried any.
    pub release_notes: Option<String>,
}

/// What the caller observed at the HTTP boundary, one variant per way the
/// exchange can end.
pub enum FetchEvent {
    /// The HTTP client could not be constructed; no request was sent.
    BuildFailed { message: String },
    /// The request left but no response arrived (DNS, TLS, timeout,
    /// connection refused).
    Transport { message: String },
    /// A response arrived. `body` is None where its text could not be read.
    Response { status: u16, reason: String, body: Option<String> },
}

/// A classified failure of the metadata query.
#[derive(Debug)]
pub enum ClientError {
    /// Client construction failed before any network call.
    Build { message: String },
    /// Transport-level failure.
    Network { message: String },
    /// The index answered with a non-success status.
    Server { status: u16, message: String },
    /// The index answered with success but the body was unreadable or was
    /// not valid JSON.
    Parse { message: String },
}

/// HTTP success: a status in the 2xx range.
pub open spec fn spec_is_success(status: u16) -> bool {
    200 <= status < 300
}

/// The raw tag of a response body: the string under the primary key, or
/// under the fallback key where the primary one yields nothing.
pub open spec fn spec_raw_tag(body: Seq<char>) -> Option<Seq<char>> {
    if json_str_field(body, "tag_name"@) is Some {
        json_str_field(body, "tag_name"@)
    } else {
        json_str_field(body, "name"@)
    }
}

/// The normalized form of the raw tag, where one was found.
pub open spec fn spec_normalized_tag(body: Seq<char>) -> Option<Seq<char>> {
    match spec_raw_tag(body) {
        Some(tag) => Some(spec_normalize_tag(tag)),
        None => None,
    }
}

/// The release notes of a response body.
pub open spec fn spec_release_notes(body: Seq<char>) -> Option<Seq<char>> {
    json_str_field(body, "body"@)
}

/// The descriptor a well-formed response body must produce.
pub open spec fn descriptor_matches(d: VersionDescriptor, body: Seq<char>) -> bool {
    &&& d.tag.deep_view() == spec_raw_tag(body)
    &&& d.normalized_version.deep_view() == spec_normalized_tag(body)
    &&& d.release_notes.deep_view() == spec_release_notes(body)
}

/// The diagnostic line for a non-success response: status code, reason
/// phrase, and the response text where it could be read.
pub open spec fn spec_server_message(status: u16, reason: Seq<char>, body: Option<Seq<char>>) -> Seq<
    char,
> {
    spec_decimal(status as nat) + " "@ + reason + " - "@ + (match body {
        Some(text) => text,
        None => "response body could not be read"@,
    })
}

/// The result that interpreting a fetch observation must yield.
pub open spec fn fetch_result_matches(
    ev: FetchEvent,
    r: Result<VersionDescriptor, ClientError>,
) -> bool {
    match ev {
        FetchEvent::BuildFailed { message } => r == Err::<VersionDescriptor, ClientError>(
            ClientError::Build { message },
        ),
        FetchEvent::Transport { message } => r == Err::<VersionDescriptor, ClientError>(
            ClientError::Network { message },
        ),
        FetchEvent::Response { status, reason, body } => if !spec_is_success(status) {
            r matches Err(ClientError::Server { status: s, message: m }) && s == status && m@
                == spec_server_message(status, reason@, body.deep_view())
        } else {
            match body {
                None => r matches Err(ClientError::Parse { message }) && message@
                    == "response body could not be read"@,
                Some(text) => if json_wf(text@) {
                    r matches Ok(d) && descriptor_matches(d, text@)
                } else {
                    r matches Err(ClientError::Parse { message }) && message@
                        == "response body was not valid JSON"@
                },
            }
        },
    }
}

/// Reads the version descriptor out of a response body known to be valid
/// JSON: the tag under the primary key or else the fallback key, its
/// normalized form, and the notes.
pub fn descriptor_from_body(body: &str) -> (d: VersionDescriptor)
    ensures
        descriptor_matches(d, body@),
{
    let tag = match json_top_level_str(body, "tag_name") {
        Some(t) => Some(t),
        None => json_top_level_str(body, "name"),
    };
    let normalized_version = match &tag {
        Some(t) => Some(normalize_version_tag(t.as_str())),
        None => None,
    };
    let release_notes = json_top_level_str(body, "body");
    VersionDescriptor { tag, normalized_version, release_notes }
}

fn server_message(status: u16, reason: &str, body: &Option<String>) -> (m: String)
    ensures
        m@ == spec_server_message(status, reason@, body.deep_view()),
{
    let mut m = u16_decimal(status);
    m.append(" ");
    m.append(reason);
    m.append(" - ");
    match body {
        Some(text) => m.append(text.as_str()),
        None => m.append("response body could not be read"),
    }
    m
}

/// Turns one observation of the HTTP boundary into the query's result:
/// a descriptor on a readable success response, and otherwise the error
/// class the taxonomy assigns to what happened.
pub fn interpret_fetch(ev: FetchEvent) -> (r: Result<VersionDescriptor, ClientError>)
    ensures
        fetch_result_matches(ev, r),
{
    match ev {
        FetchEvent::BuildFailed { message } => Err(ClientError::Build { message }),
        FetchEvent::Transport { message } => Err(ClientError::Network { message }),
        FetchEvent::Response { status, reason, body } => {
            if !(200 <= status && status < 300) {
                let message = server_message(status, reason.as_str(), &body);
                Err(ClientError::Server { status, message })
            } else {
                match body {
                    None => Err(
                        ClientError::Parse {
                            message: "response body could not be read".to_owned(),
                        },
                    ),
                    Some(text) => {
                        if json_body_parses(text.as_str()) {
                            Ok(descriptor_from_body(text.as_str()))
                        } else {
                            Err(
                                ClientError::Parse {
                                    message: "response body was not valid JSON".to_owned(),
                                },
                            )
                        }
                    },
                }
            }
        },
    }
}

/// The message a failure carries, whatever its class.
pub open spec fn spec_client_error_message(e: ClientError) -> Seq<char> {
    match e {
        ClientError::Build { message } => message@,
        ClientError::Network { message } => message@,
        ClientError::Server { message, .. } => message@,
        ClientError::Parse { message } => message@,
    }
}

/// Hands out the message of a classified failure.
pub fn client_error_message(e: &ClientError) -> (m: String)
    ensures
        m@ == spec_client_error_message(*e),
{
    match e {
        ClientError::Build { message } => message.clone(),
        ClientError::Network { message } => message.clone(),
        ClientError::Server { message, .. } => message.clone(),
        ClientError::Parse { message } => message.clone(),
    }
}

} // verus!
