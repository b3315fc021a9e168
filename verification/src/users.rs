//! The user service: registration and login, composing the credential store
//! and the token authority over the user-record store.

use vstd::prelude::*;

use crate::auth::{jwt_decoded, jwt_token, Auth, TOKEN_VALIDITY_SECS};
use crate::credentials::{digest_matches, digest_wf, hash_password, verify_password};
use crate::errors::AppError;
use crate::store::{find_live_user, UsersRepo};

verus! {

/// A registration request.
#[derive(Debug)]
pub struct Register {
    pub username: String,
    pub password: String,
}

/// A successful login: the bearer token to present on protected operations.
#[derive(Debug, PartialEq, Eq)]
pub struct LoginResponse {
    pub token: String,
}

/// A login request.
#[derive(Debug)]
pub struct LoginRequest {
    pub username: String,
    pub password: String,
}

/// The user service.
pub struct UserService {
    /// The token authority that signs login tokens.
    pub authrepo: Auth,
}

impl UserService {
    pub fn new(authrepo: Auth) -> (r: UserService)
        ensures
            r.authrepo == authrepo,
    {
        UserService { authrepo }
    }

    /// Registers a fresh user: rejects empty fields, hashes the password
    /// with a fresh random salt, and asks the store to create the record.
    /// No pre-check query is made: the store is the authority on username
    /// uniqueness, and a duplicate surfaces as `StorageConflict`. A hashing
    /// fault is `InternalError`.
    pub fn register(
        &self,
        repo: &mut UsersRepo,
        username: &String,
        password: &String,
        id: &String,
        now: u64,
    ) -> (r: Result<(), AppError>)
        requires
            old(repo).wf(),
        ensures
            final(repo).wf(),
            username@.len() == 0 || password@.len() == 0 ==> (r matches Err(e) && e
                is ValidationError) && final(repo).users@ == old(repo).users@,
            username@.len() > 0 && password@.len() > 0 ==> match find_live_user(
                old(repo).users@,
                username@,
            ) {
                Some(_) => (r == Err::<(), AppError>(AppError::StorageConflict) || r == Err::<
                    (),
                    AppError,
                >(AppError::InternalError)) && final(repo).users@ == old(repo).users@,
                None => {
                    if crate::store::find_any_user_by_id(old(repo).users@, id@) is Some {
                        (r == Err::<(), AppError>(AppError::StorageFailure) || r == Err::<
                            (),
                            AppError,
                        >(AppError::InternalError)) && final(repo).users@ == old(repo).users@
                    } else {
                        ||| ({
                            let u = final(repo).users@.last();
                            &&& r == Ok::<(), AppError>(())
                            &&& final(repo).users@ == old(repo).users@.push(u)
                            &&& u.username@ == username@
                            &&& u.id@ == id@
                            &&& !u.deleted
                            &&& u.created_at == now
                            &&& digest_wf(u.password_hash@)
                            &&& digest_matches(password@, u.password_hash@)
                        })
                        ||| (r == Err::<(), AppError>(AppError::InternalError)
                            && final(repo).users@ == old(repo).users@)
                    }
                },
            },
    {
        if username.as_str().is_empty() || password.as_str().is_empty() {
            return Err(
                AppError::ValidationError(
                    String::from_str("Username and password cannot be empty"),
                ),
            );
        }
        let digest = match hash_password(password) {
            Ok(d) => d,
            Err(()) => {
                return Err(AppError::InternalError);
            },
        };
        repo.register(username, &digest, id, now)
    }

    /// Logs a user in: rejects empty fields, then looks the username up and
    /// verifies the password against the stored digest. An unknown username
    /// and a wrong password fail with the same `InvalidCredentials` value,
    /// so the outcome does not reveal whether the username exists. On
    /// matching credentials a token is owed, not merely possible: signing
    /// with the authority's symmetric secret cannot fail, and the returned
    /// token carries exactly this user's id, issued at `now` and expiring
    /// a validity window later.
    pub fn login(
        &self,
        repo: &UsersRepo,
        username: &String,
        password: &String,
        now: u64,
    ) -> (r: Result<LoginResponse, AppError>)
        requires
            now <= u64::MAX - TOKEN_VALIDITY_SECS,
        ensures
            username@.len() == 0 || password@.len() == 0 ==> (r matches Err(e) && e
                is ValidationError),
            username@.len() > 0 && password@.len() > 0 ==> match find_live_user(
                repo.users@,
                username@,
            ) {
                None => r == Err::<LoginResponse, AppError>(AppError::InvalidCredentials),
                Some(k) => {
                    let user = repo.users@[k];
                    if !digest_wf(user.password_hash@) {
                        r == Err::<LoginResponse, AppError>(AppError::InternalError)
                    } else if !digest_matches(password@, user.password_hash@) {
                        r == Err::<LoginResponse, AppError>(AppError::InvalidCredentials)
                    } else {
                        r matches Ok(resp) && resp.token@ == jwt_token(
                            user.id@,
                            (now + TOKEN_VALIDITY_SECS) as u64,
                            now,
                            self.authrepo.private_key@,
                        ) && jwt_decoded(resp.token@, self.authrepo.private_key@) == Some(
                            (user.id@, (now + TOKEN_VALIDITY_SECS) as u64, now),
                        )
                    }
                },
            },
    {
        if username.as_str().is_empty() || password.as_str().is_empty() {
            return Err(
                AppError::ValidationError(
                    String::from_str("Username and password cannot be empty"),
                ),
            );
        }
        let user = match repo.get_user_by_username(username) {
            Some(u) => u,
            None => {
                return Err(AppError::InvalidCredentials);
            },
        };
        match verify_password(password, &user.password_hash) {
            Err(()) => Err(AppError::InternalError),
            Ok(false) => Err(AppError::InvalidCredentials),
            Ok(true) => match self.authrepo.generate_jwt_token(&user.id, now) {
                Ok(t) => Ok(LoginResponse { token: t }),
                Err(e) => Err(e),
            },
        }
    }
}

} // verus!
