//! Decisions of the operations on registry-wide tokens.
//!
//! A token is created in steps, because the store is asked twice and the
//! secret comes from outside: the name is looked up, a secret is made and
//! hashed, the hash is stored. The secret itself is never handed to the
//! store; it leaves only in the value that the creation returns.

use super::Database;
use crate::apierror::{ToErrorCode, HTTP_BACKEND_FAILURE, HTTP_CONFLICT};
use crate::auth::{RegistryUserToken, RegistryUserTokenWithSecret};
use vstd::prelude::*;

verus! {

/// Why an operation on tokens failed.
#[derive(Debug)]
pub enum TokensError {
    /// The store failed
    Sqlx(sqlx::Error),
    /// A token with the same name already exists
    TokenNameExist,
}

impl ToErrorCode for TokensError {
    /// A failure of the store is an internal fault; a name that is taken is a
    /// conflict.
    fn error_code(&self) -> (code: u16)
        ensures
            code == (if *self is Sqlx {
                HTTP_BACKEND_FAILURE
            } else {
                HTTP_CONFLICT
            }),
    {
        match self {
            TokensError::Sqlx(_) => HTTP_BACKEND_FAILURE,
            TokensError::TokenNameExist => HTTP_CONFLICT,
        }
    }
}

/// The length of a token secret, in characters.
pub const TOKEN_SECRET_LENGTH: usize = 64;

/// A stored registry-wide token, as the store lists it.
#[derive(Debug, Clone)]
pub struct GlobalTokenRow {
    /// The unique identifier
    pub id: i64,
    /// The token name
    pub name: String,
    /// The last time the token was used
    pub last_used: chrono::NaiveDateTime,
}

/// The token that a stored row stands for. A registry-wide token carries no
/// capability of its own.
pub open spec fn is_token_of(token: RegistryUserToken, row: GlobalTokenRow) -> bool {
    &&& token.id == row.id
    &&& token.name == row.name
    &&& token.last_used == row.last_used
    &&& !token.can_write
    &&& !token.can_admin
}

/// How far the creation of a token has come.
#[derive(Debug)]
pub enum TokenCreation {
    /// The store was asked whether a token has this name
    CheckingName { name: String },
    /// The name is free and a secret was asked for
    MakingSecret { name: String },
    /// The hash of the secret was handed to the store
    Storing { name: String, secret: String, now: chrono::NaiveDateTime },
    /// The creation is over
    Finished,
}

/// What the store or the maker of secrets answered.
#[derive(Debug)]
pub enum TokenCreationEvent {
    /// The identifier of the token with the wanted name, if there is one
    NameLookedUp(Result<Option<i64>, sqlx::Error>),
    /// A fresh secret, its one-way hash, and the current time
    SecretMade { secret: String, hash: String, now: chrono::NaiveDateTime },
    /// The identifier under which the new token was stored
    Stored(Result<i64, sqlx::Error>),
}

/// What to do next for the creation of a token.
#[derive(Debug)]
pub enum TokenCreationAction {
    /// Ask the store for a token with this name
    LookUpName { name: String },
    /// Make a secret of this length, hash it, and read the clock
    MakeSecret { length: usize },
    /// Store a token with this name, this hash and this time of last use
    Store { name: String, token: String, last_used: chrono::NaiveDateTime },
    /// Return this result
    Finish(Result<RegistryUserTokenWithSecret, TokensError>),
    /// The event answers nothing that was asked: go on waiting
    Ignore,
}

/// The phase after an event and the action that the event calls for.
pub open spec fn token_transition(phase: TokenCreation, event: TokenCreationEvent) -> (
    TokenCreation,
    TokenCreationAction,
) {
    match (phase, event) {
        (TokenCreation::CheckingName { name }, TokenCreationEvent::NameLookedUp(Ok(None))) => (
            TokenCreation::MakingSecret { name },
            TokenCreationAction::MakeSecret { length: TOKEN_SECRET_LENGTH },
        ),
        (TokenCreation::CheckingName { name }, TokenCreationEvent::NameLookedUp(Ok(Some(_)))) => (
            TokenCreation::Finished,
            TokenCreationAction::Finish(Err(TokensError::TokenNameExist)),
        ),
        (TokenCreation::CheckingName { name }, TokenCreationEvent::NameLookedUp(Err(source))) => (
            TokenCreation::Finished,
            TokenCreationAction::Finish(Err(TokensError::Sqlx(source))),
        ),
        (
            TokenCreation::MakingSecret { name },
            TokenCreationEvent::SecretMade { secret, hash, now },
        ) => (
            TokenCreation::Storing { name, secret, now },
            TokenCreationAction::Store { name, token: hash, last_used: now },
        ),
        (TokenCreation::Storing { name, secret, now }, TokenCreationEvent::Stored(Ok(id))) => (
            TokenCreation::Finished,
            TokenCreationAction::Finish(
                Ok(
                    RegistryUserTokenWithSecret {
                        id,
                        name,
                        secret,
                        last_used: now,
                        can_write: false,
                        can_admin: false,
                    },
                ),
            ),
        ),
        (TokenCreation::Storing { name, secret, now }, TokenCreationEvent::Stored(Err(source))) => (
            TokenCreation::Finished,
            TokenCreationAction::Finish(Err(TokensError::Sqlx(source))),
        ),
        (phase, _) => (phase, TokenCreationAction::Ignore),
    }
}

/// Where a token with the wanted name exists, the creation fails with
/// `TokenNameExist` and is over: no later event makes it store anything.
pub proof fn lemma_existing_name_is_refused(
    name: String,
    existing: i64,
    later: TokenCreationEvent,
)
    ensures
        token_transition(
            TokenCreation::CheckingName { name },
            TokenCreationEvent::NameLookedUp(Ok(Some(existing))),
        ) == (
            TokenCreation::Finished,
            TokenCreationAction::Finish(Err(TokensError::TokenNameExist)),
        ),
        token_transition(TokenCreation::Finished, later) == (
            TokenCreation::Finished,
            TokenCreationAction::Ignore,
        ),
{
}

/// The store is handed something only once the name was found free and a
/// secret was made, and then it is handed the hash that came with the secret.
/// The secret itself stays in the phase, and leaves only in the token that is
/// returned.
pub proof fn lemma_only_the_hash_is_stored(phase: TokenCreation, event: TokenCreationEvent)
    requires
        token_transition(phase, event).1 is Store,
    ensures
        phase is MakingSecret,
        event matches TokenCreationEvent::SecretMade { secret, hash, now } && token_transition(
            phase,
            event,
        ).1 == (TokenCreationAction::Store {
            name: phase->MakingSecret_name,
            token: hash,
            last_used: now,
        }),
{
}

/// A token is returned only once the store has stored it, and then with the
/// wanted name, the secret that was made, the identifier that the store gave,
/// and no capability.
pub proof fn lemma_created_token(
    phase: TokenCreation,
    event: TokenCreationEvent,
    token: RegistryUserTokenWithSecret,
)
    requires
        token_transition(phase, event).1 == TokenCreationAction::Finish(Ok(token)),
    ensures
        phase matches TokenCreation::Storing { name, secret, now } && token.name == name
            && token.secret == secret && token.last_used == now,
        event matches TokenCreationEvent::Stored(Ok(id)) && token.id == id,
        !token.can_write,
        !token.can_admin,
{
}

/// Whether an event answers an action of the creation of a token.
pub open spec fn answers_token_action(
    action: TokenCreationAction,
    event: TokenCreationEvent,
) -> bool {
    match action {
        TokenCreationAction::LookUpName { .. } => event is NameLookedUp,
        TokenCreationAction::MakeSecret { .. } => event is SecretMade,
        TokenCreationAction::Store { .. } => event is Stored,
        TokenCreationAction::Finish(_) => false,
        TokenCreationAction::Ignore => false,
    }
}

/// A creation that is driven as it asks is never stuck: the answer to the
/// first question is not ignored, and the event that answers the action of a
/// step is not ignored by the next step.
pub proof fn lemma_token_answer_is_never_ignored(
    name: String,
    phase: TokenCreation,
    event: TokenCreationEvent,
    reply: TokenCreationEvent,
)
    ensures
        reply is NameLookedUp ==> !(token_transition(
            TokenCreation::CheckingName { name },
            reply,
        ).1 is Ignore),
        answers_token_action(token_transition(phase, event).1, reply) ==> !(token_transition(
            token_transition(phase, event).0,
            reply,
        ).1 is Ignore),
{
}

impl TokenCreation {
    /// Makes one step of the creation of a token.
    pub fn step(self, event: TokenCreationEvent) -> (step: (TokenCreation, TokenCreationAction))
        ensures
            step == token_transition(self, event),
    {
        match self {
            TokenCreation::CheckingName { name } => match event {
                TokenCreationEvent::NameLookedUp(Ok(None)) => (
                    TokenCreation::MakingSecret { name },
                    TokenCreationAction::MakeSecret { length: TOKEN_SECRET_LENGTH },
                ),
                TokenCreationEvent::NameLookedUp(Ok(Some(_))) => (
                    TokenCreation::Finished,
                    TokenCreationAction::Finish(Err(TokensError::TokenNameExist)),
                ),
                TokenCreationEvent::NameLookedUp(Err(source)) => (
                    TokenCreation::Finished,
                    TokenCreationAction::Finish(Err(TokensError::Sqlx(source))),
                ),
                _ => (TokenCreation::CheckingName { name }, TokenCreationAction::Ignore),
            },
            TokenCreation::MakingSecret { name } => match event {
                TokenCreationEvent::SecretMade { secret, hash, now } => {
                    let stored_name = name.clone();
                    (
                        TokenCreation::Storing { name, secret, now },
                        TokenCreationAction::Store {
                            name: stored_name,
                            token: hash,
                            last_used: now,
                        },
                    )
                },
                _ => (TokenCreation::MakingSecret { name }, TokenCreationAction::Ignore),
            },
            TokenCreation::Storing { name, secret, now } => match event {
                TokenCreationEvent::Stored(Ok(id)) => (
                    TokenCreation::Finished,
                    TokenCreationAction::Finish(
                        Ok(
                            RegistryUserTokenWithSecret {
                                id,
                                name,
                                secret,
                                last_used: now,
                                can_write: false,
                                can_admin: false,
                            },
                        ),
                    ),
                ),
                TokenCreationEvent::Stored(Err(source)) => (
                    TokenCreation::Finished,
                    TokenCreationAction::Finish(Err(TokensError::Sqlx(source))),
                ),
                _ => (TokenCreation::Storing { name, secret, now }, TokenCreationAction::Ignore),
            },
            TokenCreation::Finished => (TokenCreation::Finished, TokenCreationAction::Ignore),
        }
    }
}

impl Database {
    /// Gets the global tokens for the registry, usually for CI purposes.
    /// `rows` is what the store answered when asked for all of them in the
    /// order of their identifiers; each row becomes a token without
    /// capabilities, in the same order.
    pub fn get_global_tokens(rows: Result<Vec<GlobalTokenRow>, sqlx::Error>) -> (result: Result<
        Vec<RegistryUserToken>,
        sqlx::Error,
    >)
        ensures
            match rows {
                Ok(list) => result matches Ok(tokens) && tokens@.len() == list@.len() && forall|
                    i: int,
                |
                    0 <= i < list@.len() ==> is_token_of(#[trigger] tokens@[i], list@[i]),
                Err(source) => result == Err::<Vec<RegistryUserToken>, sqlx::Error>(source),
            },
    {
        match rows {
            Ok(list) => {
                let mut tokens: Vec<RegistryUserToken> = Vec::new();
                let mut i: usize = 0;
                while i < list.len()
                    invariant
                        i <= list@.len(),
                        tokens@.len() == i,
                        forall|j: int| 0 <= j < i ==> is_token_of(#[trigger] tokens@[j], list@[j]),
                    decreases list@.len() - i,
                {
                    tokens.push(
                        RegistryUserToken {
                            id: list[i].id,
                            name: list[i].name.clone(),
                            last_used: list[i].last_used,
                            can_write: false,
                            can_admin: false,
                        },
                    );
                    i += 1;
                }
                Ok(tokens)
            },
            Err(source) => Err(source),
        }
    }

    /// Starts the creation of a global token for the registry: the store is
    /// asked first whether a token has this name.
    pub fn create_global_token(name: &str) -> (start: (TokenCreation, TokenCreationAction))
        ensures
            start.0 matches TokenCreation::CheckingName { name: n } && n@ == name@,
            start.1 matches TokenCreationAction::LookUpName { name: n } && n@ == name@,
    {
        (
            TokenCreation::CheckingName { name: name.to_owned() },
            TokenCreationAction::LookUpName { name: name.to_owned() },
        )
    }
}

} // verus!
