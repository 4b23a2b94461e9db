use vstd::prelude::*;

verus! {

/// The scheme word, with its separating space, that opens a bearer
/// `authorization` header.
pub open spec fn bearer_prefix() -> Seq<char> {
    seq!['B', 'e', 'a', 'r', 'e', 'r', ' ']
}

/// The token carried by an `authorization` header of the form `Bearer <token>`,
/// or `None` for a header of any other form.
pub fn bearer_token(header: &str) -> (r: Option<String>)
    ensures
        header@.len() >= 7 && header@.subrange(0, 7) == bearer_prefix() ==> (r matches Some(
            t,
        ) && t@ == header@.subrange(7, header@.len() as int)),
        !(header@.len() >= 7 && header@.subrange(0, 7) == bearer_prefix()) ==> r is None,
{
    let n = header.unicode_len();
    if n < 7 {
        return None;
    }
    let prefix = ['B', 'e', 'a', 'r', 'e', 'r', ' '];
    let mut i: usize = 0;
    while i < 7
        invariant
            n == header@.len(),
            7 <= n,
            i <= 7,
            forall|j: int| 0 <= j < i ==> header@[j] == bearer_prefix()[j],
            prefix@ == bearer_prefix(),
        decreases 7 - i,
    {
        if header.get_char(i) != prefix[i] {
            assert(header@.subrange(0, 7)[i as int] != bearer_prefix()[i as int]);
            return None;
        }
        i = i + 1;
    }
    assert(header@.subrange(0, 7) =~= bearer_prefix());
    Some(header.substring_char(7, n).to_owned())
}

/// The primary extension that OpenID Connect makes to OAuth 2.0 to enable
/// end-users to be authenticated: a security token with claims about the
/// authentication of an end-user, represented as a JSON Web Token.
///
/// See [ID Token](https://openid.net/specs/openid-connect-core-1_0.html#IDToken).
#[derive(Debug, Clone)]
pub struct IdToken {
    /// Issuer identifier.
    pub iss: String,
    /// Subject identifier.
    pub sub: String,
    /// Audience for which this token is intended.
    pub aud: String,
    /// Expiration time on or after which the token must not be accepted.
    pub exp: i64,
    /// Time at which the token was issued.
    pub iat: i64,
    /// Time when the end-user authentication occurred.
    pub auth_time: Option<String>,
    /// Value used to associate a client session with the token.
    pub nonce: Option<String>,
    /// Authentication context class reference.
    pub acr: Option<String>,
    /// Authentication methods references.
    pub amr: Option<String>,
    /// Authorized party.
    pub azp: Option<String>,
    /// Access token hash value.
    pub at_hash: Option<String>,
    /// Unique identifier of the token.
    pub jti: Option<String>,
    /// End-user's full name.
    pub name: Option<String>,
    /// URL of the end-user's profile picture.
    pub picture: Option<String>,
    /// Given name(s) of the end-user.
    pub given_name: Option<String>,
    /// Surname(s) of the end-user.
    pub family_name: Option<String>,
    /// End-user's locale, as a BCP47 language tag.
    pub locale: Option<String>,
}

} // verus!
