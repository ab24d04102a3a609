//! Who is acting and what they may do.
//!
//! An authentication is made once for a request and never changed. Its
//! capabilities are fixed when it is made: they are not derived again from
//! the principal.

use crate::apierror::{
    error_forbidden, error_invalid_request, is_specialized, specialize, ApiError,
    FORBIDDEN_MESSAGE, HTTP_FORBIDDEN, HTTP_INVALID_REQUEST, INVALID_REQUEST_MESSAGE,
};
use crate::json::{member_of, text_of, Json};
use crate::text::{
    chars_of, find_from, first_index_of, has_part_at, lemma_first_index_of,
    lemma_trimmed_parts_step, split_on, trim, trim_bounds, trimmed_parts,
};
use vstd::prelude::*;

verus! {

/// A date and a time of day, without a time zone. Values of this type are
/// only carried along: nothing here reads them.
#[verifier::external_type_specification]
#[verifier::external_body]
pub struct ExNaiveDateTime(chrono::NaiveDateTime);

/// `chrono::NaiveDateTime` is a `Copy` type whose `Clone` is derived: a clone
/// is the value itself.
pub assume_specification[ <chrono::NaiveDateTime as Clone>::clone ](
    value: &chrono::NaiveDateTime,
) -> (copy: chrono::NaiveDateTime)
    ensures
        copy == *value,
;

/// The admin role
pub const ROLE_ADMIN: &'static str = "admin";

/// Detail of the error for a principal that is no user.
pub const EXPECTED_USER_MESSAGE: &'static str = "Expected a user to be authenticated";

/// Detail of the error for an authentication that may not write.
pub const WRITE_FORBIDDEN_MESSAGE: &'static str = "writing is forbidden for this authentication";

/// Detail of the error for an authentication that may not administrate.
pub const ADMIN_FORBIDDEN_MESSAGE: &'static str =
    "administration is forbidden for this authentication";

/// The principal associated to an authentication
#[derive(Debug, Clone)]
pub enum AuthenticationPrincipal {
    /// A user is authenticated
    User { uid: i64, email: String },
    /// A service through a global token
    Service { token_id: String },
    /// The registry itself when connecting to itself
    SelfAuth,
}

/// Represents a data about a successful authentication
#[derive(Debug, Clone)]
pub struct Authentication {
    /// The principal (email of the user)
    pub principal: AuthenticationPrincipal,
    /// Whether a crate can be uploaded
    pub can_write: bool,
    /// Whether administration can be done
    pub can_admin: bool,
}

/// Whether `error` is the invalid-request error for a principal that is no
/// user.
pub open spec fn is_expected_user_error(error: ApiError) -> bool {
    is_specialized(error, HTTP_INVALID_REQUEST, INVALID_REQUEST_MESSAGE@, EXPECTED_USER_MESSAGE@)
}

/// Whether `error` is the forbidden error with the given detail.
pub open spec fn is_forbidden_error(error: ApiError, details: Seq<char>) -> bool {
    is_specialized(error, HTTP_FORBIDDEN, FORBIDDEN_MESSAGE@, details)
}

impl Authentication {
    /// Creates a new authentication for a self connection, which may neither
    /// write nor administrate.
    #[must_use]
    pub fn new_self() -> (auth: Authentication)
        ensures
            auth.principal is SelfAuth,
            !auth.can_write,
            !auth.can_admin,
    {
        Authentication {
            principal: AuthenticationPrincipal::SelfAuth,
            can_write: false,
            can_admin: false,
        }
    }

    /// Creates a new authentication for a service using a global token,
    /// which may neither write nor administrate.
    #[must_use]
    pub fn new_service(token_id: String) -> (auth: Authentication)
        ensures
            auth.principal == (AuthenticationPrincipal::Service { token_id }),
            !auth.can_write,
            !auth.can_admin,
    {
        Authentication {
            principal: AuthenticationPrincipal::Service { token_id },
            can_write: false,
            can_admin: false,
        }
    }

    /// Creates a new user authentication that can do everything
    #[must_use]
    pub fn new_user(uid: i64, email: String) -> (auth: Authentication)
        ensures
            auth.principal == (AuthenticationPrincipal::User { uid, email }),
            auth.can_write,
            auth.can_admin,
    {
        Authentication {
            principal: AuthenticationPrincipal::User { uid, email },
            can_write: true,
            can_admin: true,
        }
    }

    /// Gets the uid of the associated user. Fails exactly where the principal
    /// is no user.
    pub fn uid(&self) -> (result: Result<i64, ApiError>)
        ensures
            match self.principal {
                AuthenticationPrincipal::User { uid, email } => result == Ok::<i64, ApiError>(uid),
                _ => result matches Err(e) && is_expected_user_error(e),
            },
    {
        match &self.principal {
            AuthenticationPrincipal::User { uid, email: _ } => Ok(*uid),
            _ => Err(
                specialize(error_invalid_request(), EXPECTED_USER_MESSAGE.to_owned()),
            ),
        }
    }

    /// Gets the email of the associated user. Fails exactly where the
    /// principal is no user.
    pub fn email(&self) -> (result: Result<&str, ApiError>)
        ensures
            match self.principal {
                AuthenticationPrincipal::User { uid, email } => result matches Ok(e) && e@
                    == email@,
                _ => result matches Err(e) && is_expected_user_error(e),
            },
    {
        match &self.principal {
            AuthenticationPrincipal::User { uid: _, email } => Ok(email.as_str()),
            _ => Err(
                specialize(error_invalid_request(), EXPECTED_USER_MESSAGE.to_owned()),
            ),
        }
    }

    /// Checks that this authentication enables writing. Fails exactly where
    /// it does not.
    pub fn check_can_write(&self) -> (result: Result<(), ApiError>)
        ensures
            self.can_write ==> result is Ok,
            !self.can_write ==> (result matches Err(e) && is_forbidden_error(
                e,
                WRITE_FORBIDDEN_MESSAGE@,
            )),
    {
        if self.can_write {
            Ok(())
        } else {
            Err(specialize(error_forbidden(), WRITE_FORBIDDEN_MESSAGE.to_owned()))
        }
    }

    /// Checks that this authentication enables admin tasks. Fails exactly
    /// where it does not.
    pub fn check_can_admin(&self) -> (result: Result<(), ApiError>)
        ensures
            self.can_admin ==> result is Ok,
            !self.can_admin ==> (result matches Err(e) && is_forbidden_error(
                e,
                ADMIN_FORBIDDEN_MESSAGE@,
            )),
    {
        if self.can_admin {
            Ok(())
        } else {
            Err(specialize(error_forbidden(), ADMIN_FORBIDDEN_MESSAGE.to_owned()))
        }
    }
}

/// A token for a registry user
#[derive(Debug, Clone)]
pub struct RegistryUserToken {
    /// The unique identifier
    pub id: i64,
    /// The token name
    pub name: String,
    /// The last time the token was used
    pub last_used: chrono::NaiveDateTime,
    /// Whether a crate can be uploaded using this token
    pub can_write: bool,
    /// Whether administration can be done using this token through the API
    pub can_admin: bool,
}

/// A token for a registry user, with its secret. Such a value exists only
/// while the token is being created.
#[derive(Debug, Clone)]
pub struct RegistryUserTokenWithSecret {
    /// The unique identifier
    pub id: i64,
    /// The token name
    pub name: String,
    /// The value for the token
    pub secret: String,
    /// The last time the token was used
    pub last_used: chrono::NaiveDateTime,
    /// Whether a crate can be uploaded using this token
    pub can_write: bool,
    /// Whether administration can be done using this token through the API
    pub can_admin: bool,
}

/// An OAuth access token
#[derive(Debug, Clone)]
pub struct OAuthToken {
    /// The access token
    pub access_token: String,
    /// The type of token
    pub token_type: String,
    /// The expiration time
    pub expires_in: Option<i64>,
    /// The refresh token
    pub refresh_token: Option<String>,
    /// The grant scope
    pub scope: Option<String>,
}

/// The kind of auth token
#[derive(Debug, Clone, Copy, PartialEq, Eq, Structural)]
pub enum TokenKind {
    /// A user-specific token
    User,
    /// A registry-wide token
    Registry,
}

/// Event when a token was used
#[derive(Debug, Clone)]
pub struct TokenUsage {
    /// The kind of token
    pub kind: TokenKind,
    /// The unique identifier for the token
    pub token_id: i64,
    /// The timestamp when the token was used
    pub timestamp: chrono::NaiveDateTime,
}

/// The roles that a role string lists: its pieces between commas, each
/// without the white space around it.
pub open spec fn role_list(roles: Seq<char>) -> Seq<Seq<char>> {
    trimmed_parts(roles, ',')
}

/// Whether a role string lists `role`. Letter case counts.
pub open spec fn lists_role(roles: Seq<char>, role: Seq<char>) -> bool {
    role_list(roles).contains(role)
}

/// The role list of a text is the trimmed first piece, followed by the role
/// list of what stands after the first comma, if there is one.
pub proof fn lemma_role_list_step(roles: Seq<char>, role: Seq<char>)
    ensures
        ({
            let i = first_index_of(roles, ',');
            &&& 0 <= i <= roles.len()
            &&& i < roles.len() ==> (lists_role(roles, role) <==> (trim(roles.take(i)) == role
                || lists_role(roles.skip(i + 1), role)))
            &&& i == roles.len() ==> (lists_role(roles, role) <==> trim(roles) == role)
        }),
{
    lemma_trimmed_parts_step(roles, ',');
    let i = first_index_of(roles, ',');
    let all = role_list(roles);
    if i < roles.len() {
        let rest = role_list(roles.skip(i + 1));
        if all.contains(role) {
            let k = choose|k: int| 0 <= k < all.len() && all[k] == role;
            if k > 0 {
                assert(rest[k - 1] == role);
            }
        }
        if rest.contains(role) {
            let k = choose|k: int| 0 <= k < rest.len() && rest[k] == role;
            assert(all[k + 1] == role);
        }
        if trim(roles.take(i)) == role {
            assert(all[0] == role);
        }
    } else {
        if trim(roles) == role {
            assert(all[0] == role);
        }
    }
}

/// Whether the comma-separated role string `roles` lists `role`, once the
/// white space around each piece is dropped.
pub fn has_role(roles: &str, role: &str) -> (found: bool)
    ensures
        found == lists_role(roles@, role@),
{
    let chars = chars_of(roles);
    let wanted = chars_of(role);
    let mut pos: usize = 0;
    proof {
        assert(chars@.skip(0) =~= chars@);
    }
    loop
        invariant
            pos <= chars@.len(),
            chars@ == roles@,
            wanted@ == role@,
            lists_role(roles@, role@) == lists_role(chars@.skip(pos as int), role@),
        decreases chars@.len() - pos,
    {
        let end = find_from(chars.as_slice(), pos, ',');
        let bounds = trim_bounds(chars.as_slice(), pos, end);
        let same = bounds.1 - bounds.0 == wanted.len() && has_part_at(
            chars.as_slice(),
            bounds.0,
            wanted.as_slice(),
        );
        proof {
            let rest = chars@.skip(pos as int);
            lemma_role_list_step(rest, role@);
            assert(rest.take(end - pos) =~= chars@.subrange(pos as int, end as int));
            if end < chars@.len() {
                assert(rest.skip(end - pos + 1) =~= chars@.skip(end + 1));
            }
            if end == chars@.len() {
                assert(rest =~= chars@.subrange(pos as int, end as int));
            }
            let piece = trim(chars@.subrange(pos as int, end as int));
            assert(piece == chars@.subrange(bounds.0 as int, bounds.1 as int));
            assert(same == (piece == wanted@));
        }
        if same {
            return true;
        }
        if end >= chars.len() {
            return false;
        }
        pos = end + 1;
    }
}

/// Whether a role string grants administration.
pub fn is_admin_role_list(roles: &str) -> (admin: bool)
    ensures
        admin == lists_role(roles@, ROLE_ADMIN@),
{
    has_role(roles, ROLE_ADMIN)
}

/// The value reached from `value` by going, name after name, into the member
/// of that name.
pub open spec fn descend(value: Json, names: Seq<Seq<char>>) -> Option<Json>
    decreases names.len(),
{
    if names.len() == 0 {
        Some(value)
    } else {
        match member_of(value, names[0]) {
            Some(member) => descend(member, names.drop_first()),
            None => None,
        }
    }
}

/// The text found in `blob` under a path of names separated by dots.
pub open spec fn field_at(blob: Json, path: Seq<char>) -> Option<Seq<char>> {
    match descend(blob, split_on(path, '.')) {
        Some(value) => text_of(value),
        None => None,
    }
}

/// Going down a path is going into the member named by what stands before
/// the first dot, and from there down the rest of the path.
pub proof fn lemma_descend_step(value: Json, path: Seq<char>)
    ensures
        ({
            let i = first_index_of(path, '.');
            &&& 0 <= i <= path.len()
            &&& i < path.len() ==> descend(value, split_on(path, '.')) == match member_of(
                value,
                path.take(i),
            ) {
                Some(member) => descend(member, split_on(path.skip(i + 1), '.')),
                None => None,
            }
            &&& i == path.len() ==> descend(value, split_on(path, '.')) == member_of(value, path)
        }),
{
    lemma_first_index_of(path, '.');
    let i = first_index_of(path, '.');
    let names = split_on(path, '.');
    if i < path.len() {
        let rest = split_on(path.skip(i + 1), '.');
        assert(names =~= seq![path.take(i)] + rest);
        assert(names[0] == path.take(i));
        assert(names.drop_first() =~= rest);
    } else {
        assert(names =~= seq![path]);
        assert(names.drop_first() =~= Seq::<Seq<char>>::empty());
        assert(names[0] == path);
        match member_of(value, path) {
            Some(member) => {
                assert(descend(member, names.drop_first()) == Some(member));
            },
            None => {},
        }
    }
}

/// Finds a field in a JSON blob. The path is a list of member names
/// separated by dots; the result is the text that stands there, if every
/// name leads into an object that has it and the last one leads to a string.
#[must_use]
pub fn find_field_in_blob<'v>(blob: &'v Json, path: &str) -> (found: Option<&'v str>)
    ensures
        match found {
            Some(text) => field_at(*blob, path@) == Some(text@),
            None => field_at(*blob, path@) is None,
        },
{
    let chars = chars_of(path);
    let mut last: &Json = blob;
    let mut pos: usize = 0;
    proof {
        assert(chars@.skip(0) =~= chars@);
    }
    loop
        invariant
            pos <= chars@.len(),
            chars@ == path@,
            descend(*blob, split_on(path@, '.')) == descend(
                *last,
                split_on(chars@.skip(pos as int), '.'),
            ),
        decreases chars@.len() - pos,
    {
        let end = find_from(chars.as_slice(), pos, '.');
        let name = &chars.as_slice()[pos..end];
        proof {
            let rest = chars@.skip(pos as int);
            lemma_descend_step(*last, rest);
            assert(rest.take(end - pos) =~= chars@.subrange(pos as int, end as int));
            if end < chars@.len() {
                assert(rest.skip(end - pos + 1) =~= chars@.skip(end + 1));
            }
            if end == chars@.len() {
                assert(rest =~= chars@.subrange(pos as int, end as int));
            }
        }
        match last.get(name) {
            Some(member) => {
                if end >= chars.len() {
                    return member.as_str();
                }
                last = member;
                pos = end + 1;
            },
            None => {
                return None;
            },
        }
    }
}

} // verus!
