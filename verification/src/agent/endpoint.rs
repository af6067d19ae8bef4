//! Where reports are sent: the configured endpoint, with the target id
//! behind it where the token asks for one.

use crate::agent::error::{AgentError, AgentErrorView};
use crate::pattern::{regex_search, search, search_view};
use crate::text::{join2, join3, option_text, starts_with, trimmed};
use vstd::prelude::*;

verus! {

/// The pattern of a target id written as a slug of three segments.
pub const TARGET_ID_SLUG_REGEX: &'static str =
    r"^[a-zA-Z0-9-_]+\/[a-zA-Z0-9-_]+\/[a-zA-Z0-9-_]+$";

/// The pattern of a target id written as a UUID.
pub const TARGET_ID_UUID_REGEX: &'static str =
    r"^[0-9a-fA-F]{8}-[0-9a-fA-F]{4}-[0-9a-fA-F]{4}-[0-9a-fA-F]{4}-[0-9a-fA-F]{12}$";

/// Whether a token is of the legacy kind: one that carries neither the
/// prefix `hvu1/` nor the prefix `hvp1/`. Tokens that begin with `hvo1/` are
/// of that kind. A legacy token leaves the target id optional.
pub open spec fn is_legacy(token: Seq<char>) -> bool {
    !"hvu1/"@.is_prefix_of(token) && !"hvp1/"@.is_prefix_of(token)
}

/// Whether a token is of the legacy kind.
pub fn is_legacy_token(token: &str) -> (legacy: bool)
    ensures
        legacy == is_legacy(token@),
{
    !starts_with(token, "hvu1/") && !starts_with(token, "hvp1/")
}

/// What is said of a target id that matches neither pattern.
pub open spec fn invalid_format_message(id: Seq<char>) -> Seq<char> {
    "Invalid target_id format: '"@ + id
        + "'. It must be either in slug format '$organizationSlug/$projectSlug/$targetSlug' or UUID format 'a0f4c605-6541-4350-8cfe-b31f21a4bf80'"@
}

/// The verdict on a trimmed target id, given what the searches for the two
/// patterns came to: it is valid if it is not empty and one of them matches.
pub open spec fn target_id_outcome(
    id: Seq<char>,
    slug: Result<bool, Seq<char>>,
    uuid: Result<bool, Seq<char>>,
) -> Result<Seq<char>, AgentErrorView> {
    if id.len() == 0 {
        Err(AgentErrorView::InvalidTargetId("<empty>"@))
    } else {
        match slug {
            Err(text) => Err(
                AgentErrorView::TargetIdRegexError(
                    "Failed to compile target_id slug regex: "@ + text,
                ),
            ),
            Ok(true) => Ok(id),
            Ok(false) => match uuid {
                Err(text) => Err(
                    AgentErrorView::TargetIdRegexError(
                        "Failed to compile target_id UUID regex: "@ + text,
                    ),
                ),
                Ok(true) => Ok(id),
                Ok(false) => Err(AgentErrorView::InvalidTargetId(invalid_format_message(id))),
            },
        }
    }
}

/// The view of a text or an error.
pub open spec fn text_result_view(result: Result<String, AgentError>) -> Result<
    Seq<char>,
    AgentErrorView,
> {
    match result {
        Ok(text) => Ok(text@),
        Err(err) => Err(err@),
    }
}

/// Decides on a trimmed target id from the results of the two searches.
pub fn target_id_verdict(id: &str, slug: Result<bool, String>, uuid: Result<bool, String>) -> (verdict:
    Result<String, AgentError>)
    ensures
        text_result_view(verdict) == target_id_outcome(id@, search_view(slug), search_view(uuid)),
{
    if id.is_empty() {
        return Err(AgentError::InvalidTargetId(String::from_str("<empty>")));
    }
    match slug {
        Err(text) => Err(
            AgentError::TargetIdRegexError(
                join2("Failed to compile target_id slug regex: ", text.as_str()),
            ),
        ),
        Ok(true) => Ok(String::from_str(id)),
        Ok(false) => match uuid {
            Err(text) => Err(
                AgentError::TargetIdRegexError(
                    join2("Failed to compile target_id UUID regex: ", text.as_str()),
                ),
            ),
            Ok(true) => Ok(String::from_str(id)),
            Ok(false) => Err(
                AgentError::InvalidTargetId(
                    join3(
                        "Invalid target_id format: '",
                        id,
                        "'. It must be either in slug format '$organizationSlug/$projectSlug/$targetSlug' or UUID format 'a0f4c605-6541-4350-8cfe-b31f21a4bf80'",
                    ),
                ),
            ),
        },
    }
}

/// What the validation of a target id comes to: the id without surrounding
/// white space if that is a slug of three segments or a UUID, and else the
/// error.
pub open spec fn validated_target_id(target_id: Seq<char>) -> Result<Seq<char>, AgentErrorView> {
    let id = trimmed(target_id);
    target_id_outcome(
        id,
        regex_search(TARGET_ID_SLUG_REGEX@, id),
        regex_search(TARGET_ID_UUID_REGEX@, id),
    )
}

/// Validates a target id and returns it without surrounding white space.
pub fn validate_target_id(target_id: &str) -> (validated: Result<String, AgentError>)
    ensures
        text_result_view(validated) == validated_target_id(target_id@),
{
    let id = target_id.trim();
    if id.is_empty() {
        return Err(AgentError::InvalidTargetId(String::from_str("<empty>")));
    }
    let slug = search(TARGET_ID_SLUG_REGEX, id);
    let uuid = search(TARGET_ID_UUID_REGEX, id);
    target_id_verdict(id, slug, uuid)
}

/// The endpoint that an agent sends to. A target id is validated and
/// appended behind a slash. Without one the configured endpoint stands,
/// which only a legacy token allows: any other token requires a target id.
pub open spec fn resolved_endpoint(
    endpoint: Seq<char>,
    token: Seq<char>,
    target_id: Option<Seq<char>>,
) -> Result<Seq<char>, AgentErrorView> {
    match target_id {
        Some(id) => match validated_target_id(id) {
            Ok(valid) => Ok(endpoint + "/"@ + valid),
            Err(err) => Err(err),
        },
        None => if is_legacy(token) {
            Ok(endpoint)
        } else {
            Err(AgentErrorView::MissingTargetId)
        },
    }
}

/// Resolves the endpoint that an agent sends to.
pub fn resolve_endpoint(endpoint: String, token: &str, target_id: Option<String>) -> (resolved:
    Result<String, AgentError>)
    ensures
        text_result_view(resolved) == resolved_endpoint(endpoint@, token@, option_text(target_id)),
{
    match target_id {
        Some(id) => match validate_target_id(id.as_str()) {
            Ok(valid) => Ok(join3(endpoint.as_str(), "/", valid.as_str())),
            Err(err) => Err(err),
        },
        None => {
            if is_legacy_token(token) {
                Ok(endpoint)
            } else {
                Err(AgentError::MissingTargetId)
            }
        },
    }
}

} // verus!
