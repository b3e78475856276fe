use crate::azolve;
use crate::azolve::{
    Verification, VerificationAction, VerificationActionView, VerificationEvent,
    VerificationEventView,
};
use crate::config::{Config, ExpiryConfig};
use crate::db::{row_of, MemberRow, Membership};
use crate::org;
use crate::org::{has_date, past_deadline, year_in_zone, zone_known, Instant, Timezone};
use crate::session::Session;
use crate::types::{ConfigurationError, StoreError, VerificationError};
use vstd::prelude::*;

verus! {

/// What a member enters to claim their membership.
#[derive(Debug, PartialEq, Eq)]
pub struct OrgInfo {
    pub org_id: String,
    pub org_password: String,
}

/// A request to link the account of a session to a membership.
pub struct LinkRequest<'a> {
    /// The time at which the request is dealt with.
    pub now: Instant,
    pub session: &'a Session,
    pub config: &'a Config,
    /// The form as it was sent, if it could be read.
    pub form: Option<&'a OrgInfo>,
}

/// Why a request to link was turned down.
#[derive(Clone, Copy, Debug, PartialEq, Eq, Structural)]
pub enum LinkError {
    /// The form could not be read.
    InvalidForm,
    /// The authority refused the claim.
    VerificationFailed,
    /// The authority could not be asked.
    VerificationUnavailable,
    /// The membership is linked to another account.
    AlreadyLinked,
    /// Lichess did not confirm that the account joined the team.
    GatewayFailure,
}

/// Why a request to link could not be dealt with.
#[derive(Clone, Copy, Debug, PartialEq, Eq, Structural)]
pub enum InternalError {
    Configuration(ConfigurationError),
    Store(StoreError),
}

/// How a request to link ended.
#[derive(Clone, Copy, Debug, PartialEq, Eq, Structural)]
pub enum LinkOutcome {
    /// The link stands in the store.
    Linked,
    /// The account has a membership that has not lapsed: there is nothing
    /// to link.
    NotAllowed,
    /// The request was turned down, and the member is told why.
    Rejected(LinkError),
    /// The request could not be dealt with.
    Failed(InternalError),
}

/// Where a request to link stands.
#[derive(Clone, Copy, Debug, PartialEq, Eq, Structural)]
pub enum Linking {
    /// The store has been asked for the membership of the account.
    CheckingForm,
    /// The claim is being confirmed.
    Verifying(Verification),
    /// The store has been asked for the link of the claimed membership.
    CheckingOrgId,
    /// Lichess has been asked to add the account to the team.
    Joining,
    /// The store has been asked to register the link.
    Registering,
    /// The request has ended.
    Finished,
}

/// What the link is told.
#[derive(Debug, PartialEq, Eq)]
pub enum LinkEvent {
    /// The store has answered `FindByLichessId`.
    OwnMembership(Result<Option<Membership>, StoreError>),
    /// A service has answered `Verify`.
    Verification(VerificationEvent),
    /// The store has answered `FindByOrgId`.
    OrgMembership(Result<Option<Membership>, StoreError>),
    /// Lichess has answered `Join`: whether it confirmed it.
    Joined(bool),
    /// The store has answered `Register`.
    Registered(Result<u64, StoreError>),
}

/// What the link asks for.
#[derive(Debug, PartialEq, Eq)]
pub enum LinkAction {
    /// Nothing: the event was not the one that the link waits for.
    Stay,
    /// Ask the store for the membership of the account, then say
    /// `OwnMembership`.
    FindByLichessId { lichess_id: String },
    /// Do what the confirmation of the claim asks for, then say
    /// `Verification`.
    Verify(VerificationAction),
    /// Ask the store for the membership of the member id, then say
    /// `OrgMembership`.
    FindByOrgId { org_id: String },
    /// Ask Lichess to add the account of the token to the team, then say
    /// `Joined`.
    Join { token: String, team_id: String, team_password: String },
    /// Ask the store to register the link, then say `Registered`.
    Register { org_id: String, lichess_id: String, exp_year: i32 },
    /// The request has ended.
    Finish(LinkOutcome),
}

/// What a `LinkEvent` says.
pub enum LinkEventView {
    OwnMembership(Result<Option<MemberRow>, StoreError>),
    Verification(VerificationEventView),
    OrgMembership(Result<Option<MemberRow>, StoreError>),
    Joined(bool),
    Registered(Result<u64, StoreError>),
}

/// What a `LinkAction` says.
pub enum LinkActionView {
    Stay,
    FindByLichessId { lichess_id: Seq<char> },
    Verify(VerificationActionView),
    FindByOrgId { org_id: Seq<char> },
    Join { token: Seq<char>, team_id: Seq<char>, team_password: Seq<char> },
    Register { org_id: Seq<char>, lichess_id: Seq<char>, exp_year: int },
    Finish(LinkOutcome),
}

/// What the answer of the store to a lookup says.
pub open spec fn found_row(
    found: Result<Option<Membership>, StoreError>,
) -> Result<Option<MemberRow>, StoreError> {
    match found {
        Ok(member) => Ok(row_of(member)),
        Err(e) => Err(e),
    }
}

impl View for LinkEvent {
    type V = LinkEventView;

    open spec fn view(&self) -> LinkEventView {
        match *self {
            LinkEvent::OwnMembership(found) => LinkEventView::OwnMembership(found_row(found)),
            LinkEvent::Verification(event) => LinkEventView::Verification(event@),
            LinkEvent::OrgMembership(found) => LinkEventView::OrgMembership(found_row(found)),
            LinkEvent::Joined(confirmed) => LinkEventView::Joined(confirmed),
            LinkEvent::Registered(outcome) => LinkEventView::Registered(outcome),
        }
    }
}

impl View for LinkAction {
    type V = LinkActionView;

    open spec fn view(&self) -> LinkActionView {
        match *self {
            LinkAction::Stay => LinkActionView::Stay,
            LinkAction::FindByLichessId { lichess_id } => LinkActionView::FindByLichessId {
                lichess_id: lichess_id@,
            },
            LinkAction::Verify(action) => LinkActionView::Verify(action@),
            LinkAction::FindByOrgId { org_id } => LinkActionView::FindByOrgId { org_id: org_id@ },
            LinkAction::Join { token, team_id, team_password } => LinkActionView::Join {
                token: token@,
                team_id: team_id@,
                team_password: team_password@,
            },
            LinkAction::Register { org_id, lichess_id, exp_year } => LinkActionView::Register {
                org_id: org_id@,
                lichess_id: lichess_id@,
                exp_year: exp_year as int,
            },
            LinkAction::Finish(outcome) => LinkActionView::Finish(outcome),
        }
    }
}

/// What is said of a form that could not be read.
pub const INVALID_FORM: &'static str =
    "Invalid form data.";

/// What is said of a claim that the authority refused.
pub const VERIFICATION_FAILED: &'static str =
    "Membership verification failed, please check your member ID and password.";

/// What is said of a claim that could not be put to the authority.
pub const VERIFICATION_UNAVAILABLE: &'static str =
    "At the moment we're unable to verify your membership. Please try again later.";

/// What is said of a membership that another account has linked.
pub const ALREADY_LINKED: &'static str =
    "This membership is already linked to a Lichess account.";

/// What is said when Lichess did not confirm that the account joined.
pub const GATEWAY_FAILURE: &'static str =
    "Could not add you to the Lichess team, please try again later.";

/// What the member is told when their request is turned down.
pub open spec fn message_spec(error: LinkError) -> Seq<char> {
    match error {
        LinkError::InvalidForm => INVALID_FORM@,
        LinkError::VerificationFailed => VERIFICATION_FAILED@,
        LinkError::VerificationUnavailable => VERIFICATION_UNAVAILABLE@,
        LinkError::AlreadyLinked => ALREADY_LINKED@,
        LinkError::GatewayFailure => GATEWAY_FAILURE@,
    }
}

impl LinkError {
    /// What the member is told.
    pub fn message(&self) -> (text: String)
        ensures
            text@ == message_spec(*self),
    {
        let text = match self {
            LinkError::InvalidForm => INVALID_FORM,
            LinkError::VerificationFailed => VERIFICATION_FAILED,
            LinkError::VerificationUnavailable => VERIFICATION_UNAVAILABLE,
            LinkError::AlreadyLinked => ALREADY_LINKED,
            LinkError::GatewayFailure => GATEWAY_FAILURE,
        };
        text.to_owned()
    }
}

/// Whether, at `now`, the account may link a membership: it may if it has
/// none, and if the one that it has has lapsed.
pub open spec fn can_use_form_spec(
    now: Instant,
    member: Option<MemberRow>,
    zone: Seq<char>,
    expiry: ExpiryConfig,
) -> Result<bool, ConfigurationError> {
    match member {
        Some(row) => past_deadline(
            now,
            zone,
            row.exp_year,
            expiry.membership_month as int,
            expiry.membership_day as int,
        ),
        None => Ok(true),
    }
}

/// Whether the claimed membership is free for the account: it is if nobody
/// has linked it, and if the account itself has.
pub open spec fn org_id_unused_spec(found: Option<MemberRow>, lichess_id: Seq<char>) -> bool {
    match found {
        Some(row) => row.lichess_id == lichess_id,
        None => true,
    }
}

/// The year in which a membership that is linked at `now` lapses: the
/// current year of the zone, and the next once the membership year of the
/// current one is over.
pub open spec fn registration_year_spec(
    now: Instant,
    zone: Seq<char>,
    expiry: ExpiryConfig,
) -> Result<int, ConfigurationError> {
    let current_year = year_in_zone(zone, now.secs as int);
    match past_deadline(
        now,
        zone,
        current_year,
        expiry.membership_month as int,
        expiry.membership_day as int,
    ) {
        Ok(past) => Ok(
            if past {
                current_year + 1
            } else {
                current_year
            },
        ),
        Err(e) => Err(e),
    }
}

/// Whether, at `now`, the account may link a membership, given the one that
/// the store holds for it.
pub fn can_use_form(
    now: Instant,
    member: &Option<Membership>,
    timezone: &Timezone,
    expiry: &ExpiryConfig,
) -> (allowed: Result<bool, ConfigurationError>)
    ensures
        allowed == can_use_form_spec(now, row_of(*member), timezone@, *expiry),
{
    match member {
        Some(member) => org::is_past_expiry_at(
            now,
            member.exp_year,
            timezone,
            expiry.membership_month,
            expiry.membership_day,
        ),
        None => Ok(true),
    }
}

/// Whether the claimed membership is free for the account of the session,
/// given the row that the store holds for the member id.
pub fn org_id_unused(found: &Option<Membership>, session: &Session) -> (unused: bool)
    ensures
        unused == org_id_unused_spec(row_of(*found), session.lichess_id@),
{
    match found {
        Some(member) => session.lichess_id == member.lichess_id,
        None => true,
    }
}

/// The year in which a membership that is linked at `now` lapses.
pub fn registration_year(
    now: Instant,
    timezone: &Timezone,
    expiry: &ExpiryConfig,
) -> (year: Result<i32, ConfigurationError>)
    requires
        has_date(now.secs as int),
    ensures
        registration_year_spec(now, timezone@, *expiry) == match year {
            Ok(y) => Ok::<int, ConfigurationError>(y as int),
            Err(e) => Err::<int, ConfigurationError>(e),
        },
{
    let current_year = org::current_year_at(now, timezone);
    match org::is_past_expiry_at(
        now,
        current_year,
        timezone,
        expiry.membership_month,
        expiry.membership_day,
    ) {
        Ok(true) => Ok(current_year + 1),
        Ok(false) => Ok(current_year),
        Err(e) => Err(e),
    }
}

/// The zone by which the organisation counts its days.
pub open spec fn zone_of(request: LinkRequest) -> Result<Seq<char>, ConfigurationError> {
    if zone_known(request.config.org.timezone@) {
        Ok(request.config.org.timezone@)
    } else {
        Err(ConfigurationError::UnknownTimezone)
    }
}

/// The request ends with `outcome`.
pub open spec fn ended(outcome: LinkOutcome) -> (Linking, LinkActionView) {
    (Linking::Finished, LinkActionView::Finish(outcome))
}

/// The request ends on a fault of the configuration.
pub open spec fn misconfigured(e: ConfigurationError) -> (Linking, LinkActionView) {
    ended(LinkOutcome::Failed(InternalError::Configuration(e)))
}

/// The request ends on a failure of the store.
pub open spec fn store_failed(e: StoreError) -> (Linking, LinkActionView) {
    ended(LinkOutcome::Failed(InternalError::Store(e)))
}

/// How a request to link begins: with the question whether the account
/// has a membership already. A zone that is not known ends it before
/// anything is asked.
pub open spec fn link_memberships_spec(request: LinkRequest) -> (Linking, LinkActionView) {
    match zone_of(request) {
        Err(e) => misconfigured(e),
        Ok(_) => (
            Linking::CheckingForm,
            LinkActionView::FindByLichessId { lichess_id: request.session.lichess_id@ },
        ),
    }
}

/// What follows a step of the confirmation of the claim: a confirmed claim
/// leads to the question who has linked the membership, a claim that is
/// not confirmed ends the request, and everything else is passed on.
pub open spec fn after_verification(
    next: (Verification, VerificationActionView),
    org_id: Seq<char>,
) -> (Linking, LinkActionView) {
    match next.1 {
        VerificationActionView::Finish(Ok(_)) => (
            Linking::CheckingOrgId,
            LinkActionView::FindByOrgId { org_id },
        ),
        VerificationActionView::Finish(Err(VerificationError::Failed)) => ended(
            LinkOutcome::Rejected(LinkError::VerificationFailed),
        ),
        VerificationActionView::Finish(Err(VerificationError::Unavailable)) => ended(
            LinkOutcome::Rejected(LinkError::VerificationUnavailable),
        ),
        VerificationActionView::Stay => (Linking::Verifying(next.0), LinkActionView::Stay),
        action => (Linking::Verifying(next.0), LinkActionView::Verify(action)),
    }
}

/// What follows the answer of the store on the membership of the account.
pub open spec fn after_own_membership(member: Option<MemberRow>, request: LinkRequest) -> (
    Linking,
    LinkActionView,
) {
    match zone_of(request) {
        Err(e) => misconfigured(e),
        Ok(zone) => match can_use_form_spec(request.now, member, zone, request.config.expiry) {
            Err(e) => misconfigured(e),
            Ok(false) => ended(LinkOutcome::NotAllowed),
            Ok(true) => match request.form {
                None => ended(LinkOutcome::Rejected(LinkError::InvalidForm)),
                Some(info) => after_verification(
                    azolve::verify_user_spec(
                        info.org_id@,
                        info.org_password@,
                        request.config.azolve,
                        request.config.org.authentication_secret@,
                    ),
                    info.org_id@,
                ),
            },
        },
    }
}

/// What follows the confirmation by Lichess that the account joined the
/// team: the link is registered, until the year that `registration_year_spec`
/// gives.
pub open spec fn after_joining(request: LinkRequest) -> (Linking, LinkActionView) {
    match request.form {
        None => ended(LinkOutcome::Rejected(LinkError::InvalidForm)),
        Some(info) => match zone_of(request) {
            Err(e) => misconfigured(e),
            Ok(zone) => match registration_year_spec(request.now, zone, request.config.expiry) {
                Err(e) => misconfigured(e),
                Ok(exp_year) => (
                    Linking::Registering,
                    LinkActionView::Register {
                        org_id: info.org_id@,
                        lichess_id: request.session.lichess_id@,
                        exp_year,
                    },
                ),
            },
        },
    }
}

/// The state that follows `state` on `event`, and what the link asks for.
///
/// The claim is confirmed first. A confirmed claim whose membership
/// another account has linked is turned down. Then Lichess is asked to add
/// the account to the team, and only when it confirms that is the store
/// asked to register the link. A failure of the store ends the request. An
/// event that the state does not wait for changes nothing.
pub open spec fn step_spec(state: Linking, event: LinkEventView, request: LinkRequest) -> (
    Linking,
    LinkActionView,
) {
    match (state, event) {
        (Linking::CheckingForm, LinkEventView::OwnMembership(Err(e))) => store_failed(e),
        (Linking::CheckingForm, LinkEventView::OwnMembership(Ok(member))) => after_own_membership(
            member,
            request,
        ),
        (Linking::Verifying(verification), LinkEventView::Verification(answer)) => {
            match request.form {
                None => ended(LinkOutcome::Rejected(LinkError::InvalidForm)),
                Some(info) => after_verification(
                    azolve::step_spec(
                        verification,
                        answer,
                        info.org_id@,
                        request.config.azolve,
                        request.config.org.authentication_secret@,
                    ),
                    info.org_id@,
                ),
            }
        },
        (Linking::CheckingOrgId, LinkEventView::OrgMembership(Err(e))) => store_failed(e),
        (Linking::CheckingOrgId, LinkEventView::OrgMembership(Ok(found))) => {
            if org_id_unused_spec(found, request.session.lichess_id@) {
                (
                    Linking::Joining,
                    LinkActionView::Join {
                        token: request.session.oauth_token@,
                        team_id: request.config.org.team_id@,
                        team_password: request.config.lichess.team_password@,
                    },
                )
            } else {
                ended(LinkOutcome::Rejected(LinkError::AlreadyLinked))
            }
        },
        (Linking::Joining, LinkEventView::Joined(false)) => ended(
            LinkOutcome::Rejected(LinkError::GatewayFailure),
        ),
        (Linking::Joining, LinkEventView::Joined(true)) => after_joining(request),
        (Linking::Registering, LinkEventView::Registered(Ok(_))) => ended(LinkOutcome::Linked),
        (Linking::Registering, LinkEventView::Registered(Err(e))) => store_failed(e),
        _ => (state, LinkActionView::Stay),
    }
}

/// The end of the request.
fn finish(outcome: LinkOutcome) -> (next: (Linking, LinkAction))
    ensures
        (next.0, next.1@) == ended(outcome),
{
    (Linking::Finished, LinkAction::Finish(outcome))
}

/// What follows a step of the confirmation of the claim.
fn verified(
    next: (Verification, VerificationAction),
    org_id: &str,
) -> (after: (Linking, LinkAction))
    ensures
        (after.0, after.1@) == after_verification((next.0, next.1@), org_id@),
{
    let (verification, action) = next;
    match action {
        VerificationAction::Finish(Ok(_)) => (
            Linking::CheckingOrgId,
            LinkAction::FindByOrgId { org_id: org_id.to_owned() },
        ),
        VerificationAction::Finish(Err(VerificationError::Failed)) => finish(
            LinkOutcome::Rejected(LinkError::VerificationFailed),
        ),
        VerificationAction::Finish(Err(VerificationError::Unavailable)) => finish(
            LinkOutcome::Rejected(LinkError::VerificationUnavailable),
        ),
        VerificationAction::Stay => (Linking::Verifying(verification), LinkAction::Stay),
        action => (Linking::Verifying(verification), LinkAction::Verify(action)),
    }
}

/// Begins to deal with a request to link.
pub fn link_memberships(request: &LinkRequest) -> (next: (Linking, LinkAction))
    ensures
        (next.0, next.1@) == link_memberships_spec(*request),
{
    match org::timezone_from_string(request.config.org.timezone.as_str()) {
        Err(e) => finish(LinkOutcome::Failed(InternalError::Configuration(e))),
        Ok(_) => (
            Linking::CheckingForm,
            LinkAction::FindByLichessId { lichess_id: request.session.lichess_id.clone() },
        ),
    }
}

/// What follows the answer of the store on the membership of the account.
fn own_membership(
    member: Option<Membership>,
    request: &LinkRequest,
) -> (next: (Linking, LinkAction))
    ensures
        (next.0, next.1@) == after_own_membership(row_of(member), *request),
{
    let timezone = match org::timezone_from_string(request.config.org.timezone.as_str()) {
        Err(e) => {
            return finish(LinkOutcome::Failed(InternalError::Configuration(e)));
        },
        Ok(timezone) => timezone,
    };
    match can_use_form(request.now, &member, &timezone, &request.config.expiry) {
        Err(e) => finish(LinkOutcome::Failed(InternalError::Configuration(e))),
        Ok(false) => finish(LinkOutcome::NotAllowed),
        Ok(true) => match request.form {
            None => finish(LinkOutcome::Rejected(LinkError::InvalidForm)),
            Some(info) => verified(
                azolve::verify_user(
                    info.org_id.as_str(),
                    info.org_password.as_str(),
                    &request.config.azolve,
                    request.config.org.authentication_secret.as_str(),
                ),
                info.org_id.as_str(),
            ),
        },
    }
}

/// What follows the confirmation by Lichess that the account joined.
fn joined(request: &LinkRequest) -> (next: (Linking, LinkAction))
    requires
        has_date(request.now.secs as int),
    ensures
        (next.0, next.1@) == after_joining(*request),
{
    let info = match request.form {
        None => {
            return finish(LinkOutcome::Rejected(LinkError::InvalidForm));
        },
        Some(info) => info,
    };
    let timezone = match org::timezone_from_string(request.config.org.timezone.as_str()) {
        Err(e) => {
            return finish(LinkOutcome::Failed(InternalError::Configuration(e)));
        },
        Ok(timezone) => timezone,
    };
    match registration_year(request.now, &timezone, &request.config.expiry) {
        Err(e) => finish(LinkOutcome::Failed(InternalError::Configuration(e))),
        Ok(exp_year) => (
            Linking::Registering,
            LinkAction::Register {
                org_id: info.org_id.clone(),
                lichess_id: request.session.lichess_id.clone(),
                exp_year,
            },
        ),
    }
}

impl Linking {
    /// Takes the event in and says what is to be done next.
    pub fn step(self, event: LinkEvent, request: &LinkRequest) -> (next: (Linking, LinkAction))
        requires
            has_date(request.now.secs as int),
        ensures
            (next.0, next.1@) == step_spec(self, event@, *request),
    {
        match (self, event) {
            (Linking::CheckingForm, LinkEvent::OwnMembership(Err(e))) => finish(
                LinkOutcome::Failed(InternalError::Store(e)),
            ),
            (Linking::CheckingForm, LinkEvent::OwnMembership(Ok(member))) => own_membership(
                member,
                request,
            ),
            (Linking::Verifying(verification), LinkEvent::Verification(answer)) => {
                match request.form {
                    None => finish(LinkOutcome::Rejected(LinkError::InvalidForm)),
                    Some(info) => verified(
                        verification.step(
                            answer,
                            info.org_id.as_str(),
                            &request.config.azolve,
                            request.config.org.authentication_secret.as_str(),
                        ),
                        info.org_id.as_str(),
                    ),
                }
            },
            (Linking::CheckingOrgId, LinkEvent::OrgMembership(Err(e))) => finish(
                LinkOutcome::Failed(InternalError::Store(e)),
            ),
            (Linking::CheckingOrgId, LinkEvent::OrgMembership(Ok(found))) => {
                if org_id_unused(&found, request.session) {
                    (
                        Linking::Joining,
                        LinkAction::Join {
                            token: request.session.oauth_token.clone(),
                            team_id: request.config.org.team_id.clone(),
                            team_password: request.config.lichess.team_password.clone(),
                        },
                    )
                } else {
                    finish(LinkOutcome::Rejected(LinkError::AlreadyLinked))
                }
            },
            (Linking::Joining, LinkEvent::Joined(false)) => finish(
                LinkOutcome::Rejected(LinkError::GatewayFailure),
            ),
            (Linking::Joining, LinkEvent::Joined(true)) => joined(request),
            (Linking::Registering, LinkEvent::Registered(Ok(_))) => finish(LinkOutcome::Linked),
            (Linking::Registering, LinkEvent::Registered(Err(e))) => finish(
                LinkOutcome::Failed(InternalError::Store(e)),
            ),
            (state, _) => (state, LinkAction::Stay),
        }
    }
}

/// The store is asked to register a link only when Lichess has just
/// confirmed that the account joined the team: a refusal by Lichess ends
/// the request, and no row is written.
pub proof fn lemma_register_only_after_join(
    state: Linking,
    event: LinkEventView,
    request: LinkRequest,
)
    ensures
        step_spec(state, event, request).1 is Register ==> state == Linking::Joining && event
            == LinkEventView::Joined(true),
        step_spec(Linking::Joining, LinkEventView::Joined(false), request) == ended(
            LinkOutcome::Rejected(LinkError::GatewayFailure),
        ),
        link_memberships_spec(request).1 !is Register,
{
}

/// Lichess is asked to add the account only when the store has just said
/// that the claimed membership is free for it, and that question is put
/// only when the claim has just been confirmed.
pub proof fn lemma_join_only_after_verification(
    state: Linking,
    event: LinkEventView,
    request: LinkRequest,
)
    ensures
        step_spec(state, event, request).1 is Join ==> state == Linking::CheckingOrgId && event
            is OrgMembership,
        step_spec(state, event, request).1 is FindByOrgId ==> (state == Linking::CheckingForm
            || state is Verifying) && request.form is Some,
{
}

/// How far a request to link has come.
pub open spec fn progress(state: Linking) -> int {
    match state {
        Linking::CheckingForm => 0,
        Linking::Verifying(_) => 1,
        Linking::CheckingOrgId => 2,
        Linking::Joining => 3,
        Linking::Registering => 4,
        Linking::Finished => 5,
    }
}

/// The state of a request after the events, told in order.
pub open spec fn state_after(
    state: Linking,
    events: Seq<LinkEventView>,
    request: LinkRequest,
) -> Linking
    decreases events.len(),
{
    if events.len() == 0 {
        state
    } else {
        step_spec(state_after(state, events.drop_last(), request), events.last(), request).0
    }
}

/// The number of times that the store is asked to register a link while
/// the events are told in order.
pub open spec fn registrations(
    state: Linking,
    events: Seq<LinkEventView>,
    request: LinkRequest,
) -> nat
    decreases events.len(),
{
    if events.len() == 0 {
        0
    } else {
        let before = registrations(state, events.drop_last(), request);
        let asked = step_spec(
            state_after(state, events.drop_last(), request),
            events.last(),
            request,
        ).1;
        if asked is Register {
            before + 1
        } else {
            before
        }
    }
}

/// A request to link never goes back: no event leads to a state that lies
/// before the one in which it is told.
pub proof fn lemma_link_only_advances(state: Linking, event: LinkEventView, request: LinkRequest)
    ensures
        progress(state) <= progress(step_spec(state, event, request).0),
        step_spec(state, event, request).1 is Register ==> progress(state) == 3 && progress(
            step_spec(state, event, request).0,
        ) == 4,
{
}

/// Whatever a request to link is told, and in whatever order, the store is
/// asked to register at most once.
pub proof fn lemma_registered_at_most_once(events: Seq<LinkEventView>, request: LinkRequest)
    ensures
        registrations(link_memberships_spec(request).0, events, request) <= 1,
        registrations(link_memberships_spec(request).0, events, request) == 1 ==> progress(
            state_after(link_memberships_spec(request).0, events, request),
        ) >= 4,
    decreases events.len(),
{
    if events.len() > 0 {
        let begun = link_memberships_spec(request).0;
        lemma_registered_at_most_once(events.drop_last(), request);
        lemma_link_only_advances(
            state_after(begun, events.drop_last(), request),
            events.last(),
            request,
        );
    }
}

/// A request to link that is never told that Lichess confirmed the join
/// never asks the store to register: a refusal by Lichess leaves no row.
pub proof fn lemma_no_join_no_registration(events: Seq<LinkEventView>, request: LinkRequest)
    requires
        forall|i: int| 0 <= i < events.len() ==> events[i] != LinkEventView::Joined(true),
    ensures
        registrations(link_memberships_spec(request).0, events, request) == 0,
    decreases events.len(),
{
    if events.len() > 0 {
        let begun = link_memberships_spec(request).0;
        assert forall|i: int| 0 <= i < events.drop_last().len() implies events.drop_last()[i]
            != LinkEventView::Joined(true) by {
            assert(events.drop_last()[i] == events[i]);
        }
        lemma_no_join_no_registration(events.drop_last(), request);
        assert(events.last() == events[events.len() - 1]);
        lemma_register_only_after_join(
            state_after(begun, events.drop_last(), request),
            events.last(),
            request,
        );
    }
}

} // verus!
