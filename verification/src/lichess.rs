use crate::http::{pair, pairs_of, url_encode, url_encoded, Method, Request, RequestView};
use vstd::prelude::*;

verus! {

/// A token that Lichess issued.
#[derive(Debug, PartialEq, Eq)]
pub struct OAuthToken {
    pub token_type: String,
    pub access_token: String,
}

/// A Lichess account.
#[derive(Debug, PartialEq, Eq)]
pub struct User {
    pub id: String,
    pub username: String,
}

/// The answer of Lichess to a request that changes a team.
#[derive(Clone, Copy, Debug, PartialEq, Eq, Structural)]
pub struct MaybeOk {
    pub ok: bool,
}

/// A request without a body that names what it accepts, who asks, and
/// Lichess as its origin.
pub open spec fn created_request(
    method: Method,
    url: Seq<char>,
    accept: Seq<char>,
    authorization: Seq<char>,
) -> RequestView {
    RequestView {
        method,
        url,
        headers: seq![
            ("accept"@, accept),
            ("authorization"@, authorization),
            ("origin"@, "https://lichess.org"@),
        ],
        body: None,
    }
}

/// A request without a body, with the three headers that every request to
/// Lichess carries.
pub fn create_request(
    method: Method,
    url: String,
    accept: &str,
    authorization: String,
) -> (request: Request)
    ensures
        request@ == created_request(method, url@, accept@, authorization@),
{
    let mut headers: Vec<(String, String)> = Vec::new();
    headers.push(pair("accept", accept));
    headers.push(pair("authorization", authorization.as_str()));
    headers.push(pair("origin", "https://lichess.org"));
    let request = Request { method, url, headers, body: None };
    assert(request@.headers =~= created_request(method, url@, accept@, authorization@).headers);
    request
}

/// `front`, `middle` and `back` in a row.
fn joined(front: &str, middle: &str, back: &str) -> (text: String)
    ensures
        text@ == front@ + middle@ + back@,
{
    let mut text = front.to_owned();
    text.append(middle);
    text.append(back);
    text
}

/// The request for the account to which a token belongs.
pub open spec fn user_request(
    token_type: Seq<char>,
    access_token: Seq<char>,
    lichess_domain: Seq<char>,
) -> RequestView {
    created_request(
        Method::Get,
        "https://"@ + lichess_domain + "/api/account"@,
        "application/json"@,
        token_type + " "@ + access_token,
    )
}

/// The request for the account to which the token belongs.
pub fn get_user(token: &OAuthToken, lichess_domain: &str) -> (request: Request)
    ensures
        request@ == user_request(token.token_type@, token.access_token@, lichess_domain@),
{
    create_request(
        Method::Get,
        joined("https://", lichess_domain, "/api/account"),
        "application/json",
        joined(token.token_type.as_str(), " ", token.access_token.as_str()),
    )
}

/// The form that exchanges an authorization code for a token.
pub open spec fn token_form(
    code: Seq<char>,
    client_id: Seq<char>,
    code_verifier: Seq<char>,
    redirect_uri: Seq<char>,
) -> Seq<char> {
    "grant_type=authorization_code&code="@ + code + "&redirect_uri="@ + url_encoded(
        redirect_uri,
    ) + "&client_id="@ + client_id + "&code_verifier="@ + code_verifier
}

/// The request that exchanges an authorization code for a token.
pub open spec fn token_request(
    code: Seq<char>,
    client_id: Seq<char>,
    code_verifier: Seq<char>,
    redirect_uri: Seq<char>,
) -> RequestView {
    RequestView {
        method: Method::Post,
        url: "https://lichess.org/api/token"@,
        headers: seq![
            ("accept"@, "application/json"@),
            ("content-type"@, "application/x-www-form-urlencoded"@),
        ],
        body: Some(token_form(code, client_id, code_verifier, redirect_uri)),
    }
}

/// The request that exchanges an authorization code for a token.
pub fn oauth_token_from_code(
    code: &str,
    client_id: &str,
    code_verifier: &str,
    redirect_uri: &str,
) -> (request: Request)
    ensures
        request@ == token_request(code@, client_id@, code_verifier@, redirect_uri@),
{
    let mut form = "grant_type=authorization_code&code=".to_owned();
    form.append(code);
    form.append("&redirect_uri=");
    form.append(url_encode(redirect_uri).as_str());
    form.append("&client_id=");
    form.append(client_id);
    form.append("&code_verifier=");
    form.append(code_verifier);
    let mut headers: Vec<(String, String)> = Vec::new();
    headers.push(pair("accept", "application/json"));
    headers.push(pair("content-type", "application/x-www-form-urlencoded"));
    let request = Request {
        method: Method::Post,
        url: "https://lichess.org/api/token".to_owned(),
        headers,
        body: Some(form),
    };
    assert(request@.headers =~= token_request(
        code@,
        client_id@,
        code_verifier@,
        redirect_uri@,
    ).headers);
    request
}

/// The request that adds the account of a token to a team.
pub open spec fn join_request(
    token: Seq<char>,
    lichess_domain: Seq<char>,
    team_id: Seq<char>,
    team_password: Seq<char>,
) -> RequestView {
    RequestView {
        method: Method::Post,
        url: "https://"@ + lichess_domain + "/team/"@ + team_id + "/join"@,
        headers: seq![
            ("accept"@, "application/json"@),
            ("authorization"@, "Bearer "@ + token),
            ("origin"@, "https://lichess.org"@),
            ("content-type"@, "application/x-www-form-urlencoded"@),
        ],
        body: Some("password="@ + url_encoded(team_password)),
    }
}

/// The request that adds the account of the token to the team.
pub fn try_join_team(
    token: &str,
    lichess_domain: &str,
    team_id: &str,
    team_password: &str,
) -> (request: Request)
    ensures
        request@ == join_request(token@, lichess_domain@, team_id@, team_password@),
{
    let mut url = joined("https://", lichess_domain, "/team/");
    url.append(team_id);
    url.append("/join");
    let mut authorization = "Bearer ".to_owned();
    authorization.append(token);
    let mut request = create_request(Method::Post, url, "application/json", authorization);
    let mut body = "password=".to_owned();
    body.append(url_encode(team_password).as_str());
    request.body = Some(body);
    let ghost set = pairs_of(request.headers@);
    let content_type = pair("content-type", "application/x-www-form-urlencoded");
    let ghost added = (content_type.0@, content_type.1@);
    request.headers.push(content_type);
    assert(pairs_of(request.headers@) =~= set.push(added));
    assert(request@.headers =~= join_request(
        token@,
        lichess_domain@,
        team_id@,
        team_password@,
    ).headers);
    request
}

/// The request that takes an account out of a team.
pub open spec fn kick_request(
    token: Seq<char>,
    lichess_domain: Seq<char>,
    team_id: Seq<char>,
    user_id: Seq<char>,
) -> RequestView {
    created_request(
        Method::Post,
        "https://"@ + lichess_domain + "/team/"@ + team_id + "/kick/"@ + user_id,
        "application/json"@,
        "Bearer "@ + token,
    )
}

/// The request that takes the account out of the team.
pub fn try_kick_from_team(
    token: &str,
    lichess_domain: &str,
    team_id: &str,
    user_id: &str,
) -> (request: Request)
    ensures
        request@ == kick_request(token@, lichess_domain@, team_id@, user_id@),
{
    let mut url = joined("https://", lichess_domain, "/team/");
    url.append(team_id);
    url.append("/kick/");
    url.append(user_id);
    let mut authorization = "Bearer ".to_owned();
    authorization.append(token);
    create_request(Method::Post, url, "application/json", authorization)
}

/// Lichess confirmed the change: it answered, and its answer said `ok`.
/// No answer, and an answer that could not be read, confirm nothing.
pub open spec fn confirmed(answer: Option<MaybeOk>) -> bool {
    answer matches Some(said) && said.ok
}

/// Whether Lichess confirmed that the account joined the team.
pub fn join_team(answer: Option<MaybeOk>) -> (joined: bool)
    ensures
        joined == confirmed(answer),
{
    match answer {
        Some(said) => said.ok,
        None => false,
    }
}

/// Whether Lichess confirmed that the account was taken out of the team.
pub fn kick_from_team(answer: Option<MaybeOk>) -> (kicked: bool)
    ensures
        kicked == confirmed(answer),
{
    match answer {
        Some(said) => said.ok,
        None => false,
    }
}

} // verus!
