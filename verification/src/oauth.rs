use crate::config::Config;
use crate::http::{text_of, url_encode, url_encoded};
use crate::randstr::{random_string, LENGTH};
use crate::session;
use crate::session::{guarded_cookie, value_of, CookieChangeView, CookieJar};
use base64::Engine;
use sha2::Digest;
use vstd::prelude::*;
use vstd::string::StringSliceAdditionalSpecFns;
use vstd::utf8::encode_utf8;

verus! {

/// The SHA-256 digest of the bytes.
pub uninterp spec fn sha256_of(bytes: Seq<u8>) -> Seq<u8>;

/// The bytes in base 64, with the standard alphabet and padding.
pub uninterp spec fn base64_of(bytes: Seq<u8>) -> Seq<char>;

/// The most bytes that are encoded at once.
pub const ENCODE_LIMIT: usize = 0x3fff_ffff;

/// `sha2::Sha256::digest`: the SHA-256 digest of the bytes, which has 32
/// bytes.
#[verifier::external_body]
fn sha256(bytes: &[u8]) -> (digest: Vec<u8>)
    ensures
        digest@ == sha256_of(bytes@),
        digest@.len() == 32,
{
    sha2::Sha256::digest(bytes).to_vec()
}

/// `base64::Engine::encode` of `base64::engine::general_purpose::STANDARD`:
/// the bytes in base 64. It panics where the length of the result exceeds
/// `usize`, which the limit rules out.
#[verifier::external_body]
fn base64(bytes: &[u8]) -> (text: String)
    requires
        bytes@.len() <= ENCODE_LIMIT,
    ensures
        text@ == base64_of(bytes@),
{
    base64::engine::general_purpose::STANDARD.encode(bytes)
}

/// A letter of base 64 as it stands in a URL: nothing for the padding `=`,
/// `-` for `+`, `_` for `/`, and every other letter as it is.
pub open spec fn url_safe_letter(c: char) -> Seq<char> {
    if c == '=' {
        Seq::empty()
    } else if c == '+' {
        seq!['-']
    } else if c == '/' {
        seq!['_']
    } else {
        seq![c]
    }
}

/// A text of base 64 as it stands in a URL.
pub open spec fn url_safe(text: Seq<char>) -> Seq<char>
    decreases text.len(),
{
    if text.len() == 0 {
        Seq::empty()
    } else {
        url_safe(text.drop_last()) + url_safe_letter(text.last())
    }
}

/// The challenge that goes with a code verifier: the SHA-256 digest of the
/// verifier, in base 64 as it stands in a URL.
pub open spec fn code_challenge_spec(code_verifier: Seq<char>) -> Seq<char> {
    url_safe(base64_of(sha256_of(encode_utf8(code_verifier))))
}

/// The address at which a login begins.
pub open spec fn authorization_url(
    client_id: Seq<char>,
    server_url: Seq<char>,
    oauth_state: Seq<char>,
    code_verifier: Seq<char>,
) -> Seq<char> {
    "https://lichess.org/oauth?response_type=code&client_id="@ + url_encoded(client_id)
        + "&scope=team:write&redirect_uri="@ + url_encoded(server_url)
        + "%2Foauth_redirect&state="@ + oauth_state
        + "&code_challenge_method=S256&code_challenge="@ + code_challenge_spec(code_verifier)
}

/// A text of base 64 as it stands in a URL.
pub fn to_url_safe(text: &str) -> (safe: String)
    ensures
        safe@ == url_safe(text@),
{
    let len = text.unicode_len();
    let mut safe = String::new();
    let mut i: usize = 0;
    assert(safe@ =~= url_safe(text@.take(0)));
    while i < len
        invariant
            i <= len == text@.len(),
            safe@ == url_safe(text@.take(i as int)),
        decreases len - i,
    {
        let c = text.get_char(i);
        proof {
            assert(text@.take(i + 1).drop_last() =~= text@.take(i as int));
            assert(text@.take(i + 1).last() == c);
            reveal_strlit("-");
            reveal_strlit("_");
        }
        let ghost before = safe@;
        if c == '=' {
            assert(before + url_safe_letter(c) =~= before);
        } else if c == '+' {
            safe.append("-");
            assert("-"@ =~= seq!['-']);
        } else if c == '/' {
            safe.append("_");
            assert("_"@ =~= seq!['_']);
        } else {
            let letter = text.substring_char(i, i + 1);
            assert(letter@ =~= seq![c]);
            safe.append(letter);
        }
        i += 1;
    }
    assert(text@.take(len as int) =~= text@);
    safe
}

/// The challenge that goes with a code verifier.
pub fn code_challenge(code_verifier: &str) -> (challenge: String)
    ensures
        challenge@ == code_challenge_spec(code_verifier@),
{
    let digest = sha256(code_verifier.as_bytes());
    let encoded = base64(digest.as_slice());
    to_url_safe(encoded.as_str())
}

/// Begins a login with the given state and code verifier: both are kept in
/// cookies, and the address is returned to which the browser is sent.
pub fn auth_with(
    config: &Config,
    cookies: &mut CookieJar,
    oauth_state: &str,
    code_verifier: &str,
) -> (url: String)
    ensures
        url@ == authorization_url(
            config.lichess.client_id@,
            config.server.url@,
            oauth_state@,
            code_verifier@,
        ),
        final(cookies).came() == old(cookies).came(),
        final(cookies).pending() == old(cookies).pending().push(
            CookieChangeView::Add(
                guarded_cookie(
                    session::OAUTH_STATE_COOKIE@,
                    oauth_state@,
                    session::LOGIN_MINUTES as int,
                ),
            ),
        ).push(
            CookieChangeView::Add(
                guarded_cookie(
                    session::OAUTH_VERIFIER_COOKIE@,
                    code_verifier@,
                    session::LOGIN_MINUTES as int,
                ),
            ),
        ),
{
    session::set_oauth_state_cookie(cookies, oauth_state);
    session::set_oauth_code_verifier(cookies, code_verifier);
    let mut url = "https://lichess.org/oauth?response_type=code&client_id=".to_owned();
    url.append(url_encode(config.lichess.client_id.as_str()).as_str());
    url.append("&scope=team:write&redirect_uri=");
    url.append(url_encode(config.server.url.as_str()).as_str());
    url.append("%2Foauth_redirect&state=");
    url.append(oauth_state);
    url.append("&code_challenge_method=S256&code_challenge=");
    url.append(code_challenge(code_verifier).as_str());
    url
}

/// What `auth_with` leaves behind for the given state and code verifier:
/// the address, and the cookies of the answer.
pub open spec fn begun(
    config: Config,
    before: Seq<CookieChangeView>,
    oauth_state: Seq<char>,
    code_verifier: Seq<char>,
) -> (Seq<char>, Seq<CookieChangeView>) {
    (
        authorization_url(
            config.lichess.client_id@,
            config.server.url@,
            oauth_state,
            code_verifier,
        ),
        before.push(
            CookieChangeView::Add(
                guarded_cookie(
                    session::OAUTH_STATE_COOKIE@,
                    oauth_state,
                    session::LOGIN_MINUTES as int,
                ),
            ),
        ).push(
            CookieChangeView::Add(
                guarded_cookie(
                    session::OAUTH_VERIFIER_COOKIE@,
                    code_verifier,
                    session::LOGIN_MINUTES as int,
                ),
            ),
        ),
    )
}

/// Begins a login with a state and a code verifier that are chosen at
/// random, of 64 small letters each.
pub fn auth(config: &Config, cookies: &mut CookieJar) -> (url: String)
    ensures
        final(cookies).came() == old(cookies).came(),
        exists|oauth_state: Seq<char>, code_verifier: Seq<char>|
            oauth_state.len() == LENGTH && code_verifier.len() == LENGTH && (
                url@,
                final(cookies).pending(),
            ) == #[trigger] begun(*config, old(cookies).pending(), oauth_state, code_verifier),
{
    let oauth_state = random_string();
    let code_verifier = random_string();
    let url = auth_with(config, cookies, oauth_state.as_str(), code_verifier.as_str());
    assert((url@, cookies.pending()) == begun(
        *config,
        old(cookies).pending(),
        oauth_state@,
        code_verifier@,
    ));
    url
}

/// What the return from Lichess is worth: the code verifier of the login,
/// where the state that came back is the one that was kept and the verifier
/// was kept too, and nothing else.
pub open spec fn redeemed(
    came: Seq<(Seq<char>, Seq<char>)>,
    state: Seq<char>,
) -> Option<Seq<char>> {
    if value_of(came, session::OAUTH_STATE_COOKIE@) == Some(state) {
        value_of(came, session::OAUTH_VERIFIER_COOKIE@)
    } else {
        None
    }
}

/// Ends a login on the return from Lichess. The state and the code
/// verifier that were kept are removed, whatever comes of it.
pub fn oauth_redirect(cookies: &mut CookieJar, state: &str) -> (code_verifier: Option<String>)
    ensures
        text_of(code_verifier) == redeemed(old(cookies).came(), state@),
        final(cookies).came() == old(cookies).came(),
        final(cookies).pending() == old(cookies).pending().push(
            CookieChangeView::Remove(session::OAUTH_STATE_COOKIE@),
        ).push(CookieChangeView::Remove(session::OAUTH_VERIFIER_COOKIE@)),
{
    let kept = session::pop_oauth_state(cookies);
    let code_verifier = session::pop_oauth_code_verifier(cookies);
    match kept {
        Some(kept) => {
            if kept == state.to_owned() {
                code_verifier
            } else {
                None
            }
        },
        None => None,
    }
}

} // verus!
