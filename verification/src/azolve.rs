use crate::config::AzolveConfig;
use crate::http::{pair, pairs_of};
use crate::types::VerificationError;
use vstd::prelude::*;

verus! {

/// The one answer of the authority that confirms a membership: a table of
/// two rows, the header and the row that says that all went well.
pub const SUCCESS: &'static str = "[[\"Return Code\",\"Message\"],[\"1\",\"Success\"]]";

/// White space, as Unicode defines it.
pub open spec fn is_space(c: char) -> bool {
    ||| '\u{9}' <= c <= '\u{d}'
    ||| c == ' '
    ||| c == '\u{85}'
    ||| c == '\u{a0}'
    ||| c == '\u{1680}'
    ||| '\u{2000}' <= c <= '\u{200a}'
    ||| c == '\u{2028}'
    ||| c == '\u{2029}'
    ||| c == '\u{202f}'
    ||| c == '\u{205f}'
    ||| c == '\u{3000}'
}

/// Whether the character is white space.
pub fn is_whitespace(c: char) -> (space: bool)
    ensures
        space == is_space(c),
{
    ('\u{9}' <= c && c <= '\u{d}') || c == ' ' || c == '\u{85}' || c == '\u{a0}' || c == '\u{1680}'
        || ('\u{2000}' <= c && c <= '\u{200a}') || c == '\u{2028}' || c == '\u{2029}' || c
        == '\u{202f}' || c == '\u{205f}' || c == '\u{3000}'
}

/// The text without the white space at its beginning.
pub open spec fn trim_start(text: Seq<char>) -> Seq<char>
    decreases text.len(),
{
    if text.len() > 0 && is_space(text[0]) {
        trim_start(text.drop_first())
    } else {
        text
    }
}

/// The text without the white space at its end.
pub open spec fn trim_end(text: Seq<char>) -> Seq<char>
    decreases text.len(),
{
    if text.len() > 0 && is_space(text.last()) {
        trim_end(text.drop_last())
    } else {
        text
    }
}

/// The text without the white space around it.
pub open spec fn trimmed(text: Seq<char>) -> Seq<char> {
    trim_end(trim_start(text))
}

/// The answer confirms the membership: but for white space around it, it is
/// the success sentinel, letter for letter.
pub open spec fn confirms(body: Seq<char>) -> bool {
    trimmed(body) == SUCCESS@
}

/// Where the text begins with `from` characters of white space and goes on
/// with another character, or ends, trimming its start drops those.
proof fn lemma_trim_start(text: Seq<char>, from: int)
    requires
        0 <= from <= text.len(),
        forall|i: int| 0 <= i < from ==> is_space(#[trigger] text[i]),
        from < text.len() ==> !is_space(text[from]),
    ensures
        trim_start(text) == text.skip(from),
    decreases from,
{
    if from == 0 {
        assert(text.skip(0) =~= text);
    } else {
        let rest = text.drop_first();
        assert forall|i: int| 0 <= i < from - 1 implies is_space(#[trigger] rest[i]) by {
            assert(rest[i] == text[i + 1]);
        }
        lemma_trim_start(rest, from - 1);
        assert(rest.skip(from - 1) =~= text.skip(from));
    }
}

/// Where the text ends with white space from place `to` on and the
/// character before is another, or none, trimming its end keeps the first
/// `to` characters.
proof fn lemma_trim_end(text: Seq<char>, to: int)
    requires
        0 <= to <= text.len(),
        forall|i: int| to <= i < text.len() ==> is_space(#[trigger] text[i]),
        0 < to ==> !is_space(text[to - 1]),
    ensures
        trim_end(text) == text.take(to),
    decreases text.len() - to,
{
    if to == text.len() {
        assert(text.take(to) =~= text);
    } else {
        let rest = text.drop_last();
        assert forall|i: int| to <= i < rest.len() implies is_space(#[trigger] rest[i]) by {
            assert(rest[i] == text[i]);
        }
        lemma_trim_end(rest, to);
        assert(rest.take(to) =~= text.take(to));
    }
}

/// Whether the answer of the authority confirms the membership.
pub fn is_success(body: &str) -> (confirmed: bool)
    ensures
        confirmed == confirms(body@),
{
    let len = body.unicode_len();
    let mut from: usize = 0;
    while from < len && is_whitespace(body.get_char(from))
        invariant
            from <= len == body@.len(),
            forall|i: int| 0 <= i < from ==> is_space(#[trigger] body@[i]),
        decreases len - from,
    {
        from += 1;
    }
    let mut to: usize = len;
    while to > from && is_whitespace(body.get_char(to - 1))
        invariant
            from <= to <= len == body@.len(),
            forall|i: int| to <= i < len ==> is_space(#[trigger] body@[i]),
        decreases to,
    {
        to -= 1;
    }
    let ghost core = body@.subrange(from as int, to as int);
    proof {
        let tail = body@.skip(from as int);
        lemma_trim_start(body@, from as int);
        assert forall|i: int| to - from <= i < tail.len() implies is_space(#[trigger] tail[i]) by {
            assert(tail[i] == body@[i + from]);
        }
        if to > from {
            assert(tail[to - from - 1] == body@[to - 1]);
        }
        lemma_trim_end(tail, to - from);
        assert(tail.take(to - from) =~= core);
        assert(trimmed(body@) == core);
    }
    let wanted = SUCCESS.unicode_len();
    if to - from != wanted {
        return false;
    }
    let mut k: usize = 0;
    while k < wanted
        invariant
            k <= wanted == SUCCESS@.len(),
            from <= to <= body@.len(),
            to - from == wanted,
            core == body@.subrange(from as int, to as int),
            trimmed(body@) == core,
            forall|j: int| 0 <= j < k ==> core[j] == SUCCESS@[j],
        decreases wanted - k,
    {
        if body.get_char(from + k) != SUCCESS.get_char(k) {
            assert(core[k as int] != SUCCESS@[k as int]);
            return false;
        }
        k += 1;
    }
    assert(core =~= SUCCESS@);
    true
}

/// A request to the authority: the address of its service and the
/// parameters of the query, in order.
#[derive(Debug, PartialEq, Eq)]
pub struct Query {
    pub url: String,
    pub pairs: Vec<(String, String)>,
}

/// What a `Query` says.
pub struct QueryView {
    pub url: Seq<char>,
    pub pairs: Seq<(Seq<char>, Seq<char>)>,
}

impl View for Query {
    type V = QueryView;

    open spec fn view(&self) -> QueryView {
        QueryView { url: self.url@, pairs: pairs_of(self.pairs@) }
    }
}

/// Where the confirmation of a claimed membership stands.
#[derive(Clone, Copy, Debug, PartialEq, Eq, Structural)]
pub enum Verification {
    /// The service at place `at` has been asked to transform the credential.
    Transforming { at: usize },
    /// The claim has been submitted to the authority.
    Submitted,
    /// The claim has been decided.
    Finished,
}

/// What the client is told.
#[derive(Debug, PartialEq, Eq)]
pub enum VerificationEvent {
    /// A transform service has answered with the credential as it is to be
    /// passed on, or could not be reached.
    Transformed(Option<String>),
    /// The authority has answered with this body, or could not be reached.
    Answered(Option<String>),
}

/// What the client asks for.
#[derive(Debug, PartialEq, Eq)]
pub enum VerificationAction {
    /// Nothing: the event was not the one that the client waits for.
    Stay,
    /// Submit the credential to the transform service, once, then say
    /// `Transformed`.
    Transform { endpoint: String, credential: String },
    /// Submit the query to the authority, then say `Answered`.
    Submit(Query),
    /// The claim is decided: confirmed, or not and why.
    Finish(Result<(), VerificationError>),
}

/// What a `VerificationEvent` says.
pub enum VerificationEventView {
    Transformed(Option<Seq<char>>),
    Answered(Option<Seq<char>>),
}

/// What a `VerificationAction` says.
pub enum VerificationActionView {
    Stay,
    Transform { endpoint: Seq<char>, credential: Seq<char> },
    Submit(QueryView),
    Finish(Result<(), VerificationError>),
}

impl View for VerificationEvent {
    type V = VerificationEventView;

    open spec fn view(&self) -> VerificationEventView {
        match *self {
            VerificationEvent::Transformed(Some(credential)) => VerificationEventView::Transformed(
                Some(credential@),
            ),
            VerificationEvent::Transformed(None) => VerificationEventView::Transformed(None),
            VerificationEvent::Answered(Some(body)) => VerificationEventView::Answered(Some(body@)),
            VerificationEvent::Answered(None) => VerificationEventView::Answered(None),
        }
    }
}

impl View for VerificationAction {
    type V = VerificationActionView;

    open spec fn view(&self) -> VerificationActionView {
        match *self {
            VerificationAction::Stay => VerificationActionView::Stay,
            VerificationAction::Transform { endpoint, credential } => {
                VerificationActionView::Transform { endpoint: endpoint@, credential: credential@ }
            },
            VerificationAction::Submit(query) => VerificationActionView::Submit(query@),
            VerificationAction::Finish(outcome) => VerificationActionView::Finish(outcome),
        }
    }
}

/// The claim is the pair that is confirmed without asking the authority.
/// No claim is, where that pair is not configured in full.
pub open spec fn backdoor_opens(
    member_id: Seq<char>,
    password: Seq<char>,
    backdoor_member_id: Seq<char>,
    backdoor_password: Seq<char>,
) -> bool {
    &&& backdoor_member_id.len() > 0
    &&& backdoor_password.len() > 0
    &&& member_id == backdoor_member_id
    &&& password == backdoor_password
}

/// The parameter that carries the claim: the member id, the credential
/// under the name that the organisation gives it, and the token of the
/// service.
pub open spec fn parameters_text(
    member_id: Seq<char>,
    auth_secret: Seq<char>,
    credential: Seq<char>,
    token: Seq<char>,
) -> Seq<char> {
    "MID|"@ + member_id + ";"@ + auth_secret + "|"@ + credential + ";Token|"@ + token
}

/// The query that submits a claim to the authority.
pub open spec fn verification_query(
    azolve: AzolveConfig,
    auth_secret: Seq<char>,
    member_id: Seq<char>,
    credential: Seq<char>,
) -> QueryView {
    QueryView {
        url: azolve.api@,
        pairs: seq![
            ("userId"@, "AzolveAPI"@),
            ("password"@, azolve.api_pwd@),
            ("clientReference"@, "ECF"@),
            ("objectName"@, "Cus_SSO_Pin"@),
            ("objectType"@, "sp"@),
            ("parameters"@, parameters_text(member_id, auth_secret, credential, azolve.api_token@)),
        ],
    }
}

/// The texts of the addresses of the transform services.
pub open spec fn services_of(apis: Seq<String>) -> Seq<Seq<char>> {
    apis.map_values(|api: String| api@)
}

/// The place of the first transform service at or after `from`: an empty
/// address stands for no service.
pub open spec fn next_service(apis: Seq<Seq<char>>, from: int) -> Option<int>
    decreases apis.len() - from,
{
    if from < 0 || from >= apis.len() {
        None
    } else if apis[from].len() > 0 {
        Some(from)
    } else {
        next_service(apis, from + 1)
    }
}

/// What is done with a credential that has passed the services before
/// `from`: it goes to the next service, or, after the last, to the
/// authority with the claim.
pub open spec fn proceed_spec(
    azolve: AzolveConfig,
    auth_secret: Seq<char>,
    member_id: Seq<char>,
    credential: Seq<char>,
    from: int,
) -> (Verification, VerificationActionView) {
    match next_service(services_of(azolve.transform_apis@), from) {
        Some(at) => (
            Verification::Transforming { at: at as usize },
            VerificationActionView::Transform {
                endpoint: azolve.transform_apis@[at]@,
                credential,
            },
        ),
        None => (
            Verification::Submitted,
            VerificationActionView::Submit(
                verification_query(azolve, auth_secret, member_id, credential),
            ),
        ),
    }
}

/// How the confirmation of a claim begins: the backdoor pair is confirmed
/// at once, every other claim goes the way of `proceed_spec`.
pub open spec fn verify_user_spec(
    member_id: Seq<char>,
    member_password: Seq<char>,
    azolve: AzolveConfig,
    auth_secret: Seq<char>,
) -> (Verification, VerificationActionView) {
    if backdoor_opens(
        member_id,
        member_password,
        azolve.test_backdoor_member_id@,
        azolve.test_backdoor_password@,
    ) {
        (Verification::Finished, VerificationActionView::Finish(Ok(())))
    } else {
        proceed_spec(azolve, auth_secret, member_id, member_password, 0)
    }
}

/// The outcome that an answer of the authority stands for. Only the
/// success sentinel confirms; every other body is a refusal.
pub open spec fn verdict(body: Seq<char>) -> Result<(), VerificationError> {
    if confirms(body) {
        Ok(())
    } else {
        Err(VerificationError::Failed)
    }
}

/// The state that follows `state` on `event`, and what the client asks for.
///
/// A transform service that cannot be reached ends the attempt: it is not
/// asked again. So does an authority that cannot be reached, and that is
/// kept apart from an authority that refuses.
pub open spec fn step_spec(
    state: Verification,
    event: VerificationEventView,
    member_id: Seq<char>,
    azolve: AzolveConfig,
    auth_secret: Seq<char>,
) -> (Verification, VerificationActionView) {
    match (state, event) {
        (
            Verification::Transforming { at },
            VerificationEventView::Transformed(Some(credential)),
        ) => proceed_spec(azolve, auth_secret, member_id, credential, at + 1),
        (Verification::Transforming { at }, VerificationEventView::Transformed(None)) => (
            Verification::Finished,
            VerificationActionView::Finish(Err(VerificationError::Unavailable)),
        ),
        (Verification::Submitted, VerificationEventView::Answered(Some(body))) => (
            Verification::Finished,
            VerificationActionView::Finish(verdict(body)),
        ),
        (Verification::Submitted, VerificationEventView::Answered(None)) => (
            Verification::Finished,
            VerificationActionView::Finish(Err(VerificationError::Unavailable)),
        ),
        _ => (state, VerificationActionView::Stay),
    }
}

/// Whether the claim is the pair that is confirmed without asking.
pub fn is_backdoor(member_id: &str, member_password: &str, azolve: &AzolveConfig) -> (open: bool)
    ensures
        open == backdoor_opens(
            member_id@,
            member_password@,
            azolve.test_backdoor_member_id@,
            azolve.test_backdoor_password@,
        ),
{
    !azolve.test_backdoor_member_id.as_str().is_empty()
        && !azolve.test_backdoor_password.as_str().is_empty() && member_id.to_owned()
        == azolve.test_backdoor_member_id && member_password.to_owned()
        == azolve.test_backdoor_password
}

/// The parameter that carries the claim.
pub fn parameters(
    member_id: &str,
    auth_secret: &str,
    credential: &str,
    token: &str,
) -> (text: String)
    ensures
        text@ == parameters_text(member_id@, auth_secret@, credential@, token@),
{
    let mut text = "MID|".to_owned();
    text.append(member_id);
    text.append(";");
    text.append(auth_secret);
    text.append("|");
    text.append(credential);
    text.append(";Token|");
    text.append(token);
    text
}

/// The query that submits a claim to the authority.
pub fn query(
    azolve: &AzolveConfig,
    auth_secret: &str,
    member_id: &str,
    credential: &str,
) -> (query: Query)
    ensures
        query@ == verification_query(*azolve, auth_secret@, member_id@, credential@),
{
    let claim = parameters(member_id, auth_secret, credential, azolve.api_token.as_str());
    let mut pairs: Vec<(String, String)> = Vec::new();
    pairs.push(pair("userId", "AzolveAPI"));
    pairs.push(pair("password", azolve.api_pwd.as_str()));
    pairs.push(pair("clientReference", "ECF"));
    pairs.push(pair("objectName", "Cus_SSO_Pin"));
    pairs.push(pair("objectType", "sp"));
    pairs.push(pair("parameters", claim.as_str()));
    let query = Query { url: azolve.api.clone(), pairs };
    assert(query@.pairs =~= verification_query(
        *azolve,
        auth_secret@,
        member_id@,
        credential@,
    ).pairs);
    query
}

/// Passes the credential on to the first service at or after `from`, or to
/// the authority.
fn proceed(
    azolve: &AzolveConfig,
    auth_secret: &str,
    member_id: &str,
    credential: String,
    from: usize,
) -> (next: (Verification, VerificationAction))
    ensures
        (next.0, next.1@) == proceed_spec(*azolve, auth_secret@, member_id@, credential@, from as int),
{
    let ghost apis = services_of(azolve.transform_apis@);
    let mut at: usize = from;
    while at < azolve.transform_apis.len()
        invariant
            from <= at,
            apis == services_of(azolve.transform_apis@),
            next_service(apis, from as int) == next_service(apis, at as int),
        decreases azolve.transform_apis.len() - at,
    {
        if !azolve.transform_apis[at].as_str().is_empty() {
            let endpoint = azolve.transform_apis[at].clone();
            return (Verification::Transforming { at }, VerificationAction::Transform {
                endpoint,
                credential,
            });
        }
        at += 1;
    }
    (
        Verification::Submitted,
        VerificationAction::Submit(query(azolve, auth_secret, member_id, credential.as_str())),
    )
}

/// Begins the confirmation of the claim that `member_id` is a member and
/// `member_password` their credential.
pub fn verify_user(
    member_id: &str,
    member_password: &str,
    azolve: &AzolveConfig,
    auth_secret: &str,
) -> (next: (Verification, VerificationAction))
    ensures
        (next.0, next.1@) == verify_user_spec(member_id@, member_password@, *azolve, auth_secret@),
{
    if is_backdoor(member_id, member_password, azolve) {
        (Verification::Finished, VerificationAction::Finish(Ok(())))
    } else {
        proceed(azolve, auth_secret, member_id, member_password.to_owned(), 0)
    }
}

impl Verification {
    /// Takes the event in and says what is to be done next.
    pub fn step(
        self,
        event: VerificationEvent,
        member_id: &str,
        azolve: &AzolveConfig,
        auth_secret: &str,
    ) -> (next: (Verification, VerificationAction))
        ensures
            (next.0, next.1@) == step_spec(self, event@, member_id@, *azolve, auth_secret@),
    {
        match (self, event) {
            (Verification::Transforming { at }, VerificationEvent::Transformed(Some(credential))) => {
                if at < usize::MAX {
                    proceed(azolve, auth_secret, member_id, credential, at + 1)
                } else {
                    assert(services_of(azolve.transform_apis@).len()
                        == azolve.transform_apis.len());
                    (
                        Verification::Submitted,
                        VerificationAction::Submit(
                            query(azolve, auth_secret, member_id, credential.as_str()),
                        ),
                    )
                }
            },
            (Verification::Transforming { at }, VerificationEvent::Transformed(None)) => (
                Verification::Finished,
                VerificationAction::Finish(Err(VerificationError::Unavailable)),
            ),
            (Verification::Submitted, VerificationEvent::Answered(Some(body))) => {
                let outcome = if is_success(body.as_str()) {
                    Ok(())
                } else {
                    Err(VerificationError::Failed)
                };
                (Verification::Finished, VerificationAction::Finish(outcome))
            },
            (Verification::Submitted, VerificationEvent::Answered(None)) => (
                Verification::Finished,
                VerificationAction::Finish(Err(VerificationError::Unavailable)),
            ),
            (state, _) => (state, VerificationAction::Stay),
        }
    }
}

/// The next service is the first at or after `from` whose address is not
/// empty, and there is none exactly where all addresses from there on are
/// empty.
pub proof fn lemma_next_service_is_the_first(apis: Seq<Seq<char>>, from: int)
    requires
        0 <= from,
    ensures
        next_service(apis, from) matches Some(at) ==> from <= at < apis.len() && apis[at].len() > 0
            && forall|k: int| from <= k < at ==> (#[trigger] apis[k]).len() == 0,
        next_service(apis, from) is None ==> forall|k: int|
            from <= k < apis.len() ==> (#[trigger] apis[k]).len() == 0,
    decreases apis.len() - from,
{
    if from < apis.len() && apis[from].len() == 0 {
        lemma_next_service_is_the_first(apis, from + 1);
    }
}

/// No service is asked twice: an answer of a transform service leads to a
/// service further down the list or to the authority, and a service that
/// cannot be reached ends the attempt.
pub proof fn lemma_each_service_is_asked_once(
    at: usize,
    event: VerificationEventView,
    member_id: Seq<char>,
    azolve: AzolveConfig,
    auth_secret: Seq<char>,
)
    ensures
        step_spec(Verification::Transforming { at }, event, member_id, azolve, auth_secret).0
            matches Verification::Transforming { at: next } ==> at < next || event is Answered,
        event == VerificationEventView::Transformed(None) ==> step_spec(
            Verification::Transforming { at },
            event,
            member_id,
            azolve,
            auth_secret,
        ) == (
            Verification::Finished,
            VerificationActionView::Finish(Err(VerificationError::Unavailable)),
        ),
{
    let apis = services_of(azolve.transform_apis@);
    lemma_next_service_is_the_first(apis, at + 1);
    assert(apis.len() == azolve.transform_apis.len());
}

} // verus!
