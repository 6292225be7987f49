use vstd::prelude::*;
use crate::auth::{
    create_jwt, jwt_claims, jwt_of, token_group, token_subject, token_valid, verify_jwt,
    TOKEN_LIFETIME_SECS,
};
use crate::errors::ApiError;
use crate::groups::UserGroups;
use crate::password::{bcrypt_check, hash_password, verify_password};
use crate::store::{AccountStore, NewUser};

verus! {

/// Single-shot login decision.  An unknown username and a known username with
/// a non-matching password produce the identical `Unauthenticated` outcome,
/// so a caller learns nothing about which of the two failed.  On success the
/// returned token carries the account's username and canonical role name and
/// expires `TOKEN_LIFETIME_SECS` after `now`; on correct credentials success
/// is owed, since signing cannot fail.  A malformed stored hash surfaces as
/// `Internal`, never as a grant or a plain rejection.
pub fn login(
    store: &AccountStore,
    username: &str,
    password: &str,
    now: usize,
    secret: &[u8],
) -> (r: Result<String, ApiError>)
    requires
        store.wf(),
        now + TOKEN_LIFETIME_SECS <= usize::MAX,
    ensures
        !store.has_user(username@) ==> r == Err::<String, ApiError>(ApiError::Unauthenticated),
        store.has_user(username@) && bcrypt_check(password@, store.hash_of(username@)) == Some(
            false,
        ) ==> r == Err::<String, ApiError>(ApiError::Unauthenticated),
        store.has_user(username@) && bcrypt_check(password@, store.hash_of(username@)) is None
            ==> r == Err::<String, ApiError>(ApiError::Internal),
        store.has_user(username@) && bcrypt_check(password@, store.hash_of(username@)) == Some(
            true,
        ) ==> r is Ok,
        r matches Ok(t) ==> ({
            &&& store.has_user(username@)
            &&& bcrypt_check(password@, store.hash_of(username@)) == Some(true)
            &&& t@ == jwt_of(
                username@,
                store.group_of(username@).spec_name(),
                now + TOKEN_LIFETIME_SECS,
                secret@,
            )
            &&& jwt_claims(t@, secret@) matches Some(c) && c.sub@ == username@ && c.group@
                == store.group_of(username@).spec_name() && c.exp == now + TOKEN_LIFETIME_SECS
            &&& token_valid(t@, now, secret@)
        }),
{
    let idx = match store.find_by_username(username) {
        Some(i) => i,
        None => {
            return Err(ApiError::Unauthenticated);
        },
    };
    let user = &store.users[idx];
    match verify_password(password, user.password.as_str()) {
        Ok(true) => {
            let group_name = user.group.to_string();
            Ok(create_jwt(username, group_name.as_str(), now, secret))
        },
        Ok(false) => Err(ApiError::Unauthenticated),
        Err(e) => Err(e),
    }
}

/// Privileged, single-shot registration.  The bearer token must be valid and
/// carry the administrator role; the requested role name must parse; the
/// password is hashed before storage; a duplicate username is surfaced as
/// `Conflict` and leaves the store unchanged, as does every other rejection.
pub fn register(
    store: &mut AccountStore,
    token: &str,
    username: &str,
    password: &str,
    group: &str,
    now: usize,
    secret: &[u8],
) -> (r: Result<(), ApiError>)
    requires
        old(store).wf(),
    ensures
        final(store).wf(),
        r is Err ==> *final(store) == *old(store),
        !token_valid(token@, now, secret@) ==> r == Err::<(), ApiError>(ApiError::Unauthenticated),
        token_valid(token@, now, secret@) && token_group(token@, secret@) != "admin"@ ==> r == Err::<
            (),
            ApiError,
        >(ApiError::Forbidden),
        token_valid(token@, now, secret@) && token_group(token@, secret@) == "admin"@
            && UserGroups::spec_parse(group@) is None ==> r == Err::<(), ApiError>(
            ApiError::BadRequest,
        ),
        token_valid(token@, now, secret@) && token_group(token@, secret@) == "admin"@
            && UserGroups::spec_parse(group@) is Some && old(store).has_user(username@) ==> r
            == Err::<(), ApiError>(ApiError::Conflict),
        token_valid(token@, now, secret@) && token_group(token@, secret@) == "admin"@
            && UserGroups::spec_parse(group@) is Some && !old(store).has_user(username@) ==> (r
            is Ok || r == Err::<(), ApiError>(ApiError::Internal)),
        r is Ok ==> ({
            &&& token_valid(token@, now, secret@)
            &&& token_group(token@, secret@) == "admin"@
            &&& !old(store).has_user(username@)
            &&& final(store).users@.len() == old(store).users@.len() + 1
            &&& final(store).has_user(username@)
            &&& bcrypt_check(password@, final(store).hash_of(username@)) == Some(true)
            &&& UserGroups::spec_parse(group@) == Some(final(store).group_of(username@))
        }),
        forall|u: Seq<char>|
            u != username@ ==> final(store).has_user(u) == old(store).has_user(u),
        forall|u: Seq<char>|
            u != username@ && old(store).has_user(u) ==> final(store).hash_of(u) == old(
                store,
            ).hash_of(u) && final(store).group_of(u) == old(store).group_of(u),
{
    let claims = match verify_jwt(token, now, secret) {
        Some(c) => c,
        None => {
            return Err(ApiError::Unauthenticated);
        },
    };
    if claims.group != UserGroups::Admin.to_string() {
        return Err(ApiError::Forbidden);
    }
    let parsed = match UserGroups::from_str(group) {
        Some(g) => g,
        None => {
            return Err(ApiError::BadRequest);
        },
    };
    // The duplicate is detected before the costly hash is computed, so a
    // taken username is owed exactly `Conflict`.
    if store.find_by_username(username).is_some() {
        return Err(ApiError::Conflict);
    }
    let hashed = match hash_password(password) {
        Ok(h) => h,
        Err(e) => {
            return Err(e);
        },
    };
    let nu = NewUser { username: username.to_owned(), password: hashed, group: parsed };
    store.insert(nu)
}

/// Single-shot password change.  The subject named by a valid bearer token
/// (any role) has its credential replaced by the hash of the new password;
/// whether that subject still has an account is not re-checked, a vanished
/// subject simply updates nothing.
pub fn change_password(
    store: &mut AccountStore,
    token: &str,
    new_password: &str,
    now: usize,
    secret: &[u8],
) -> (r: Result<(), ApiError>)
    requires
        old(store).wf(),
    ensures
        final(store).wf(),
        r is Err ==> *final(store) == *old(store),
        !token_valid(token@, now, secret@) ==> r == Err::<(), ApiError>(ApiError::Unauthenticated),
        token_valid(token@, now, secret@) ==> (r is Ok || r == Err::<(), ApiError>(
            ApiError::Internal,
        )),
        r is Ok ==> ({
            let subj = token_subject(token@, secret@);
            &&& token_valid(token@, now, secret@)
            &&& final(store).users@.len() == old(store).users@.len()
            &&& (forall|u: Seq<char>| final(store).has_user(u) == old(store).has_user(u))
            &&& (old(store).has_user(subj) ==> bcrypt_check(
                new_password@,
                final(store).hash_of(subj),
            ) == Some(true) && final(store).group_of(subj) == old(store).group_of(subj))
            &&& (!old(store).has_user(subj) ==> *final(store) == *old(store))
            &&& (forall|u: Seq<char>|
                u != subj && old(store).has_user(u) ==> final(store).hash_of(u) == old(
                    store,
                ).hash_of(u) && final(store).group_of(u) == old(store).group_of(u))
        }),
{
    let claims = match verify_jwt(token, now, secret) {
        Some(c) => c,
        None => {
            return Err(ApiError::Unauthenticated);
        },
    };
    let hashed = match hash_password(new_password) {
        Ok(h) => h,
        Err(e) => {
            return Err(e);
        },
    };
    store.update_password(claims.sub.as_str(), hashed);
    Ok(())
}

/// One-time bootstrap of the default administrator account.  When no account
/// holds the name `admin`, one is created with role `Admin` and the default
/// credential; when one already exists, nothing changes.
pub fn init_admin_user(store: &mut AccountStore) -> (r: Result<(), ApiError>)
    requires
        old(store).wf(),
    ensures
        final(store).wf(),
        old(store).has_user("admin"@) ==> r is Ok && *final(store) == *old(store),
        r is Err ==> r == Err::<(), ApiError>(ApiError::Internal) && *final(store) == *old(store),
        !old(store).has_user("admin"@) && r is Ok ==> ({
            &&& final(store).has_user("admin"@)
            &&& final(store).group_of("admin"@) == UserGroups::Admin
            &&& bcrypt_check("admin123"@, final(store).hash_of("admin"@)) == Some(true)
            &&& final(store).users@.len() == old(store).users@.len() + 1
        }),
        forall|u: Seq<char>|
            u != "admin"@ ==> final(store).has_user(u) == old(store).has_user(u),
        forall|u: Seq<char>|
            u != "admin"@ && old(store).has_user(u) ==> final(store).hash_of(u) == old(
                store,
            ).hash_of(u) && final(store).group_of(u) == old(store).group_of(u),
{
    if store.find_by_username("admin").is_some() {
        return Ok(());
    }
    let hashed = match hash_password("admin123") {
        Ok(h) => h,
        Err(e) => {
            return Err(e);
        },
    };
    let nu = NewUser { username: "admin".to_owned(), password: hashed, group: UserGroups::Admin };
    match store.insert(nu) {
        Ok(u) => Ok(u),
        Err(e) => Err(e),
    }
}

/// Law: a token that `login` issues for an account verifies, at any instant
/// before its expiry, as that account: its claims carry the account's
/// username as subject and the canonical name of the account's role.  The
/// premises are exactly what `login` ensures of a successful outcome, and
/// the conclusions are what `verify_jwt` decides by at the later instant.
pub proof fn lemma_login_token_round_trip(
    store: AccountStore,
    username: Seq<char>,
    t: Seq<char>,
    now: usize,
    at: usize,
    secret: Seq<u8>,
)
    requires
        jwt_claims(t, secret) matches Some(c) && c.sub@ == username && c.group@
            == store.group_of(username).spec_name() && c.exp == now + TOKEN_LIFETIME_SECS,
        at < now + TOKEN_LIFETIME_SECS,
    ensures
        token_valid(t, at, secret),
        token_subject(t, secret) == username,
        token_group(t, secret) == store.group_of(username).spec_name(),
{
}

} // verus!
