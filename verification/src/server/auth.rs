//! API key and admin authentication decisions.
//!
//! When `server.auth.enabled = true`, requests must present a configured API
//! key, and the admin endpoints require the admin password. When disabled
//! (the default), all requests pass through.
use vstd::prelude::*;
use crate::config::{ApiKeyEntry, AuthConfig};
use crate::text::{
    chars_of, concat3, find_first, first_index_of, has_prefix, owned, slice_chars, starts_with,
    str_eq, string_from_chars,
};
use crate::trusted::{
    base64_standard_decode, base64_standard_decoded, bcrypt_verifies, bcrypt_verify, utf8_decode,
};

verus! {

/// A request refused by a middleware: the status, and the JSON body's `error`
/// and `message` fields.
#[derive(Debug, Clone)]
pub struct Rejection {
    pub status: u16,
    pub error: String,
    pub message: String,
}

/// A middleware's decision about a request.
#[derive(Debug, Clone)]
pub enum Gate {
    /// The request proceeds.
    Pass,
    /// The request is answered with this error.
    Reject(Rejection),
}

/// The index of the first entry with this key, if any.
pub open spec fn first_key_index(keys: Seq<ApiKeyEntry>, key: Seq<char>) -> int
    decreases keys.len(),
{
    if keys.len() == 0 {
        -1
    } else if keys[0].key@ == key {
        0
    } else {
        let r = first_key_index(keys.drop_first(), key);
        if r < 0 { -1 } else { r + 1 }
    }
}

proof fn lemma_first_key_index(keys: Seq<ApiKeyEntry>, key: Seq<char>)
    ensures
        -1 <= first_key_index(keys, key) < keys.len(),
        first_key_index(keys, key) >= 0 ==> keys[first_key_index(keys, key)].key@ == key,
        forall|j: int|
            0 <= j < (if first_key_index(keys, key) < 0 { keys.len() as int } else { first_key_index(keys, key) })
                ==> (#[trigger] keys[j]).key@ != key,
    decreases keys.len(),
{
    if keys.len() > 0 && keys[0].key@ != key {
        lemma_first_key_index(keys.drop_first(), key);
        assert forall|j: int|
            0 <= j < (if first_key_index(keys, key) < 0 { keys.len() as int } else { first_key_index(keys, key) })
                implies (#[trigger] keys[j]).key@ != key by {
            if j > 0 {
                assert(keys[j] == keys.drop_first()[j - 1]);
            }
        }
    }
}

/// Looks up the `ApiKeyEntry` for a given key string: the first entry with that
/// key. Returns `None` if the key is not found or auth is disabled.
pub fn find_api_key_entry<'a>(auth_config: &'a AuthConfig, key: &str) -> (r: Option<&'a ApiKeyEntry>)
    ensures
        !auth_config.enabled ==> r is None,
        auth_config.enabled && first_key_index(auth_config.api_keys@, key@) < 0 ==> r is None,
        auth_config.enabled && first_key_index(auth_config.api_keys@, key@) >= 0 ==> r == Some(
            &auth_config.api_keys@[first_key_index(auth_config.api_keys@, key@)],
        ),
{
    if !auth_config.enabled {
        return None;
    }
    proof {
        lemma_first_key_index(auth_config.api_keys@, key@);
    }
    let mut i: usize = 0;
    while i < auth_config.api_keys.len()
        invariant
            auth_config.enabled,
            i <= auth_config.api_keys@.len(),
            forall|j: int| 0 <= j < i ==> (#[trigger] auth_config.api_keys@[j]).key@ != key@,
        decreases auth_config.api_keys@.len() - i,
    {
        if str_eq(auth_config.api_keys[i].key.as_str(), key) {
            proof {
                lemma_first_key_index(auth_config.api_keys@, key@);
                let f = first_key_index(auth_config.api_keys@, key@);
                if f >= 0 && f < i {
                    assert(auth_config.api_keys@[f].key@ != key@);
                }
                if f < 0 || f > i {
                    assert(auth_config.api_keys@[i as int].key@ != key@);
                }
            }
            return Some(&auth_config.api_keys[i]);
        }
        i = i + 1;
    }
    proof {
        lemma_first_key_index(auth_config.api_keys@, key@);
        let f = first_key_index(auth_config.api_keys@, key@);
        if f >= 0 {
            assert(auth_config.api_keys@[f].key@ != key@);
        }
    }
    None
}

/// Whether some configured entry has this key.
pub open spec fn key_accepted(config: AuthConfig, key: Seq<char>) -> bool {
    exists|i: int| 0 <= i < config.api_keys@.len() && (#[trigger] config.api_keys@[i]).key@ == key
}

/// The API key decision for a request presenting `api_key` in the configured
/// header (`None` when the header is absent or not text).
pub fn check_api_key(auth_config: &AuthConfig, api_key: Option<&str>) -> (g: Gate)
    ensures
        !auth_config.enabled ==> g is Pass,
        auth_config.enabled && api_key is None ==> (g matches Gate::Reject(r) && r.status == 401
            && r.error@ == "unauthorized"@ && r.message@ == "Missing API key. Provide it via the '"@
            + auth_config.header_name@ + "' header."@),
        auth_config.enabled ==> (api_key matches Some(k) ==> (key_accepted(*auth_config, k@) <==> g is Pass)),
        auth_config.enabled ==> (api_key matches Some(k) ==> (!key_accepted(*auth_config, k@) ==> (g matches Gate::Reject(
            r,
        ) && r.status == 401 && r.error@ == "unauthorized"@ && r.message@ == "Invalid API key"@))),
{
    if !auth_config.enabled {
        return Gate::Pass;
    }
    match api_key {
        Some(key) => {
            let found = find_api_key_entry(auth_config, key);
            proof {
                lemma_first_key_index(auth_config.api_keys@, key@);
                if key_accepted(*auth_config, key@) {
                    let i = choose|i: int| 0 <= i < auth_config.api_keys@.len() && (#[trigger] auth_config.api_keys@[i]).key@ == key@;
                    assert(first_key_index(auth_config.api_keys@, key@) >= 0);
                }
            }
            match found {
                Some(_) => Gate::Pass,
                None => Gate::Reject(
                    Rejection {
                        status: 401,
                        error: owned("unauthorized"),
                        message: owned("Invalid API key"),
                    },
                ),
            }
        },
        None => Gate::Reject(
            Rejection {
                status: 401,
                error: owned("unauthorized"),
                message: concat3(
                    "Missing API key. Provide it via the '",
                    auth_config.header_name.as_str(),
                    "' header.",
                ),
            },
        ),
    }
}

/// Whether a `Authorization` header value carries the admin password for
/// `hash`: `Basic ` then standard Base64 of UTF-8 `user:password`, the password
/// being everything after the first colon, accepted by bcrypt.
pub open spec fn admin_credentials_ok(header: Seq<char>, hash: Seq<char>) -> bool {
    &&& has_prefix(header, "Basic "@)
    &&& base64_standard_decoded(header.skip(6)) matches Some(bytes)
    &&& vstd::utf8::valid_utf8(bytes)
    &&& {
        let cred = vstd::utf8::decode_utf8(bytes);
        let i = first_index_of(cred, ':');
        i >= 0 && bcrypt_verifies(cred.skip(i + 1), hash)
    }
}

/// Checks Basic credentials against the admin password hash.
pub fn admin_credentials_valid(header: &str, hash: &str) -> (ok: bool)
    ensures
        ok == admin_credentials_ok(header@, hash@),
{
    proof {
        reveal_strlit("Basic ");
    }
    if !starts_with(header, "Basic ") {
        return false;
    }
    let hv = chars_of(header);
    let encoded = string_from_chars(&slice_chars(&hv, 6, hv.len()));
    assert(encoded@ =~= header@.skip(6));
    let bytes = match base64_standard_decode(encoded.as_str()) {
        Some(b) => b,
        None => return false,
    };
    let credentials = match utf8_decode(bytes) {
        Some(s) => s,
        None => return false,
    };
    let cv = chars_of(credentials.as_str());
    match find_first(&cv, ':') {
        Some(i) => {
            let password = string_from_chars(&slice_chars(&cv, i + 1, cv.len()));
            assert(password@ =~= credentials@.skip(i + 1));
            bcrypt_verify(password.as_str(), hash)
        },
        None => false,
    }
}

/// The admin authentication decision for a request with the given
/// `Authorization` header. Authentication is bypassed when auth is disabled or
/// no admin password hash is configured.
pub fn check_admin(auth_config: &AuthConfig, authorization: Option<&str>) -> (g: Gate)
    ensures
        !auth_config.enabled || auth_config.admin_password_hash is None ==> g is Pass,
        auth_config.enabled ==> (auth_config.admin_password_hash matches Some(h) ==> ((g is Pass)
            == (authorization matches Some(a) && admin_credentials_ok(a@, h@)))),
        g matches Gate::Reject(r) ==> r.status == 401 && r.error@ == "unauthorized"@ && r.message@
            == "Admin authentication required"@,
{
    if !auth_config.enabled {
        return Gate::Pass;
    }
    let hash = match &auth_config.admin_password_hash {
        Some(h) => h,
        None => return Gate::Pass,
    };
    let authenticated = match authorization {
        Some(a) => admin_credentials_valid(a, hash.as_str()),
        None => false,
    };
    if authenticated {
        Gate::Pass
    } else {
        Gate::Reject(
            Rejection {
                status: 401,
                error: owned("unauthorized"),
                message: owned("Admin authentication required"),
            },
        )
    }
}


/// Basic credentials for the admin password are accepted: when the hash
/// verifies `password` (as the hash set from `KROKI_ADMIN_PASSWORD` does, see
/// `server_overridden`), a header `Basic <base64 of user:password>` passes,
/// for any user name without a colon.
pub proof fn law_admin_password_accepted(
    header: Seq<char>,
    hash: Seq<char>,
    user: Seq<char>,
    password: Seq<char>,
    bytes: Seq<u8>,
)
    requires
        bcrypt_verifies(password, hash),
        has_prefix(header, "Basic "@),
        base64_standard_decoded(header.skip(6)) == Some(bytes),
        vstd::utf8::valid_utf8(bytes),
        vstd::utf8::decode_utf8(bytes) == user + ":"@ + password,
        forall|i: int| 0 <= i < user.len() ==> user[i] != ':',
    ensures
        admin_credentials_ok(header, hash),
{
    reveal_strlit(":");
    let cred = user + ":"@ + password;
    crate::text::lemma_first_index_of_unique(cred, ':', user.len() as int);
    assert(cred.skip(user.len() as int + 1) =~= password);
}

} // verus!
