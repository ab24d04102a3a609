use registry_core::auth::{
    find_field_in_blob, has_role, is_admin_role_list, Authentication, AuthenticationPrincipal,
    RegistryUserToken, TokenKind, TokenUsage,
};
use registry_core::json::Json;

fn object(members: Vec<(&str, Json)>) -> Json {
    Json::Object(members.into_iter().map(|(k, v)| (k.to_string(), v)).collect())
}

fn text(value: &str) -> Json {
    Json::Text(value.to_string())
}

fn chars(value: &str) -> Vec<char> {
    value.chars().collect()
}

#[test]
fn self_authentication_has_no_capability() {
    let auth = Authentication::new_self();
    assert!(matches!(auth.principal, AuthenticationPrincipal::SelfAuth));
    assert!(!auth.can_write);
    assert!(!auth.can_admin);
}

#[test]
fn service_authentication_has_no_capability() {
    let auth = Authentication::new_service("token-7".to_string());
    match &auth.principal {
        AuthenticationPrincipal::Service { token_id } => assert_eq!(token_id, "token-7"),
        other => panic!("unexpected principal {other:?}"),
    }
    assert!(!auth.can_write);
    assert!(!auth.can_admin);
}

#[test]
fn user_authentication_can_do_everything() {
    let auth = Authentication::new_user(12, "a@b.c".to_string());
    match &auth.principal {
        AuthenticationPrincipal::User { uid, email } => {
            assert_eq!(*uid, 12);
            assert_eq!(email, "a@b.c");
        }
        other => panic!("unexpected principal {other:?}"),
    }
    assert!(auth.can_write);
    assert!(auth.can_admin);
    assert!(auth.check_can_write().is_ok());
    assert!(auth.check_can_admin().is_ok());
}

#[test]
fn user_accessors() {
    let auth = Authentication::new_user(-3, "a@b.c".to_string());
    assert_eq!(auth.uid().ok(), Some(-3));
    assert_eq!(auth.email().ok(), Some("a@b.c"));
}

#[test]
fn accessors_fail_for_other_principals() {
    for auth in [Authentication::new_self(), Authentication::new_service("t".to_string())] {
        let error = auth.uid().expect_err("no user");
        assert_eq!(error.http, 400);
        assert_eq!(error.message, "The request could not be understood by the server.");
        assert_eq!(error.details.as_deref(), Some("Expected a user to be authenticated"));
        let error = auth.email().expect_err("no user");
        assert_eq!(error.http, 400);
        assert_eq!(error.details.as_deref(), Some("Expected a user to be authenticated"));
    }
}

#[test]
fn capability_checks_fail_with_forbidden() {
    let auth = Authentication::new_service("t".to_string());
    let error = auth.check_can_write().expect_err("may not write");
    assert_eq!(error.http, 403);
    assert_eq!(error.message, "This action is forbidden to the user.");
    assert_eq!(error.details.as_deref(), Some("writing is forbidden for this authentication"));
    let error = auth.check_can_admin().expect_err("may not administrate");
    assert_eq!(error.http, 403);
    assert_eq!(
        error.details.as_deref(),
        Some("administration is forbidden for this authentication")
    );
}

#[test]
fn capabilities_are_not_derived_from_the_principal() {
    let auth = Authentication {
        principal: AuthenticationPrincipal::User { uid: 1, email: "a@b.c".to_string() },
        can_write: true,
        can_admin: false,
    };
    assert!(auth.check_can_write().is_ok());
    assert!(auth.check_can_admin().is_err());
    let auth = Authentication {
        principal: AuthenticationPrincipal::SelfAuth,
        can_write: false,
        can_admin: true,
    };
    assert!(auth.check_can_write().is_err());
    assert!(auth.check_can_admin().is_ok());
}

#[test]
fn admin_role_is_found_among_the_roles() {
    assert!(is_admin_role_list("admin"));
    assert!(is_admin_role_list("user,admin"));
    assert!(is_admin_role_list("admin,user"));
    assert!(is_admin_role_list(" admin "));
    assert!(is_admin_role_list("user ,\tadmin\n, other"));
    assert!(is_admin_role_list("a,,admin"));
    assert!(is_admin_role_list("\u{3000}admin\u{a0}"));
}

#[test]
fn admin_role_is_matched_exactly() {
    assert!(!is_admin_role_list(""));
    assert!(!is_admin_role_list("Admin"));
    assert!(!is_admin_role_list("ADMIN"));
    assert!(!is_admin_role_list("administrator"));
    assert!(!is_admin_role_list("user"));
    assert!(!is_admin_role_list("ad min"));
    assert!(!is_admin_role_list("admin;user"));
    assert!(!is_admin_role_list("user admin"));
    assert!(!is_admin_role_list("xadmin,adminx"));
}

#[test]
fn other_roles() {
    assert!(has_role("a, b ,c", "b"));
    assert!(has_role("a,,c", ""));
    assert!(has_role("", ""));
    assert!(has_role(" ", ""));
    assert!(!has_role("a,b", ""));
    assert!(!has_role("a,b", "a,b"));
}

#[test]
fn field_is_found_along_a_path() {
    let blob = object(vec![
        ("login", text("alice")),
        ("profile", object(vec![("email", text("a@b.c")), ("age", Json::Number("3".to_string()))])),
        ("", object(vec![("", text("nameless"))])),
    ]);
    assert_eq!(find_field_in_blob(&blob, "login"), Some("alice"));
    assert_eq!(find_field_in_blob(&blob, "profile.email"), Some("a@b.c"));
    assert_eq!(find_field_in_blob(&blob, "."), Some("nameless"));
}

#[test]
fn field_is_not_found() {
    let blob = object(vec![
        ("login", text("alice")),
        ("profile", object(vec![("email", text("a@b.c")), ("age", Json::Number("3".to_string()))])),
        ("tags", Json::Array(vec![text("x")])),
        ("flag", Json::Bool(true)),
        ("none", Json::Null),
    ]);
    assert_eq!(find_field_in_blob(&blob, "missing"), None);
    assert_eq!(find_field_in_blob(&blob, "profile"), None);
    assert_eq!(find_field_in_blob(&blob, "profile.age"), None);
    assert_eq!(find_field_in_blob(&blob, "profile.email.more"), None);
    assert_eq!(find_field_in_blob(&blob, "login."), None);
    assert_eq!(find_field_in_blob(&blob, ""), None);
    assert_eq!(find_field_in_blob(&blob, "tags"), None);
    assert_eq!(find_field_in_blob(&blob, "flag"), None);
    assert_eq!(find_field_in_blob(&blob, "none"), None);
    assert_eq!(find_field_in_blob(&text("alone"), "x"), None);
}

#[test]
fn first_member_of_a_name_counts() {
    let blob = object(vec![("a", text("first")), ("a", text("second"))]);
    assert_eq!(find_field_in_blob(&blob, "a"), Some("first"));
    assert_eq!(blob.get(&chars("a")).and_then(|m| m.as_str()), Some("first"));
    assert!(blob.get(&chars("b")).is_none());
    assert!(Json::Null.get(&chars("a")).is_none());
    assert_eq!(Json::Bool(false).as_str(), None);
}

#[test]
fn tokens_keep_their_time() {
    let stamp = chrono::NaiveDate::from_ymd_opt(2024, 2, 29)
        .and_then(|d| d.and_hms_opt(12, 30, 45))
        .expect("a valid time");
    let token = RegistryUserToken {
        id: 1,
        name: "ci".to_string(),
        last_used: stamp,
        can_write: true,
        can_admin: false,
    };
    let copy = token.clone();
    assert_eq!(copy.last_used, stamp);
    assert_eq!(copy.name, "ci");
    let usage = TokenUsage { kind: TokenKind::Registry, token_id: 1, timestamp: stamp };
    assert_eq!(usage.clone().timestamp, stamp);
    assert_ne!(TokenKind::User, TokenKind::Registry);
}
