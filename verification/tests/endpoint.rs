use hive_console_sdk::agent::endpoint::{
    is_legacy_token, resolve_endpoint, target_id_verdict, validate_target_id,
};
use hive_console_sdk::agent::error::AgentError;

const INVALID_TAIL: &str = "'. It must be either in slug format '$organizationSlug/$projectSlug/$targetSlug' or UUID format 'a0f4c605-6541-4350-8cfe-b31f21a4bf80'";

fn invalid(id: &str) -> AgentError {
    AgentError::InvalidTargetId(format!("Invalid target_id format: '{}{}", id, INVALID_TAIL))
}

#[test]
fn slug_of_three_segments_is_valid() {
    assert_eq!(
        validate_target_id("the-guild/graphql-hive/staging"),
        Ok("the-guild/graphql-hive/staging".to_string())
    );
    assert_eq!(validate_target_id("a/b/c"), Ok("a/b/c".to_string()));
    assert_eq!(validate_target_id("A_1/b-2/C_3-x"), Ok("A_1/b-2/C_3-x".to_string()));
}

#[test]
fn uuid_is_valid() {
    assert_eq!(
        validate_target_id("a0f4c605-6541-4350-8cfe-b31f21a4bf80"),
        Ok("a0f4c605-6541-4350-8cfe-b31f21a4bf80".to_string())
    );
    assert_eq!(
        validate_target_id("A0F4C605-6541-4350-8CFE-B31F21A4BF80"),
        Ok("A0F4C605-6541-4350-8CFE-B31F21A4BF80".to_string())
    );
}

#[test]
fn surrounding_white_space_is_trimmed() {
    assert_eq!(validate_target_id("  a/b/c\n"), Ok("a/b/c".to_string()));
    assert_eq!(validate_target_id("\t\u{a0}a/b/c\u{3000} "), Ok("a/b/c".to_string()));
    assert_eq!(
        validate_target_id(" a0f4c605-6541-4350-8cfe-b31f21a4bf80 "),
        Ok("a0f4c605-6541-4350-8cfe-b31f21a4bf80".to_string())
    );
}

#[test]
fn empty_target_id_is_refused() {
    assert_eq!(validate_target_id(""), Err(AgentError::InvalidTargetId("<empty>".to_string())));
    assert_eq!(
        validate_target_id(" \t\n"),
        Err(AgentError::InvalidTargetId("<empty>".to_string()))
    );
}

#[test]
fn other_shapes_are_refused() {
    for id in [
        "a/b",
        "a/b/c/d",
        "a//c",
        "/b/c",
        "a/b/",
        "a b/c/d",
        "a/b/c!",
        "a0f4c605-6541-4350-8cfe-b31f21a4bf8",
        "a0f4c605-6541-4350-8cfe-b31f21a4bf800",
        "g0f4c605-6541-4350-8cfe-b31f21a4bf80",
        "a0f4c60565414350-8cfe-b31f21a4bf80",
        "a/b/c\nx",
        "é/b/c",
    ] {
        assert_eq!(validate_target_id(id), Err(invalid(id)), "{}", id);
    }
    assert_eq!(validate_target_id(" a/b "), Err(invalid("a/b")));
}

#[test]
fn verdict_follows_the_searches() {
    assert_eq!(target_id_verdict("x", Ok(true), Ok(false)), Ok("x".to_string()));
    assert_eq!(target_id_verdict("x", Ok(false), Ok(true)), Ok("x".to_string()));
    assert_eq!(target_id_verdict("x", Ok(true), Err("late".to_string())), Ok("x".to_string()));
    assert_eq!(target_id_verdict("x", Ok(false), Ok(false)), Err(invalid("x")));
    assert_eq!(
        target_id_verdict("", Ok(true), Ok(true)),
        Err(AgentError::InvalidTargetId("<empty>".to_string()))
    );
    assert_eq!(
        target_id_verdict("x", Err("bad slug".to_string()), Ok(true)),
        Err(AgentError::TargetIdRegexError(
            "Failed to compile target_id slug regex: bad slug".to_string()
        ))
    );
    assert_eq!(
        target_id_verdict("x", Ok(false), Err("bad uuid".to_string())),
        Err(AgentError::TargetIdRegexError(
            "Failed to compile target_id UUID regex: bad uuid".to_string()
        ))
    );
}

#[test]
fn legacy_tokens_lack_the_new_prefixes() {
    assert!(is_legacy_token("0123456789abcdef"));
    assert!(is_legacy_token(""));
    assert!(is_legacy_token("hvo1/abc"));
    assert!(!is_legacy_token("hvu1/abc"));
    assert!(!is_legacy_token("hvp1/abc"));
    assert!(is_legacy_token("hvu1"));
    assert!(is_legacy_token("xhvp1/abc"));
}

#[test]
fn target_id_is_appended_to_the_endpoint() {
    assert_eq!(
        resolve_endpoint(
            "https://app.example/usage".to_string(),
            "hvo1/token",
            Some("org/project/target".to_string())
        ),
        Ok("https://app.example/usage/org/project/target".to_string())
    );
    assert_eq!(
        resolve_endpoint(
            "https://app.example/usage".to_string(),
            "hvu1/token",
            Some(" a0f4c605-6541-4350-8cfe-b31f21a4bf80 ".to_string())
        ),
        Ok("https://app.example/usage/a0f4c605-6541-4350-8cfe-b31f21a4bf80".to_string())
    );
}

#[test]
fn target_id_is_optional_only_for_legacy_tokens() {
    assert_eq!(
        resolve_endpoint("https://app.example/usage".to_string(), "hvo1/token", None),
        Ok("https://app.example/usage".to_string())
    );
    assert_eq!(
        resolve_endpoint("https://app.example/usage".to_string(), "0123456789abcdef", None),
        Ok("https://app.example/usage".to_string())
    );
    assert_eq!(
        resolve_endpoint(
            "https://app.example/usage".to_string(),
            "0123456789abcdef",
            Some("a/b/c".to_string())
        ),
        Ok("https://app.example/usage/a/b/c".to_string())
    );
    assert_eq!(
        resolve_endpoint("https://app.example/usage".to_string(), "hvu1/token", None),
        Err(AgentError::MissingTargetId)
    );
    assert_eq!(
        resolve_endpoint("https://app.example/usage".to_string(), "hvp1/token", None),
        Err(AgentError::MissingTargetId)
    );
}

#[test]
fn invalid_target_id_fails_the_resolution() {
    assert_eq!(
        resolve_endpoint("https://e".to_string(), "hvo1/token", Some("nope".to_string())),
        Err(invalid("nope"))
    );
    assert_eq!(
        resolve_endpoint("https://e".to_string(), "hvu1/token", Some("  ".to_string())),
        Err(AgentError::InvalidTargetId("<empty>".to_string()))
    );
}
