use crate::config::Config;
use crate::db::{row_of, Membership};
use crate::linking::{can_use_form, can_use_form_spec, InternalError};
use crate::org;
use crate::org::{zone_known, Instant};
use crate::session::Session;
use crate::tempctx::{
    make_error_context, make_linked_context, make_logged_in_context, month_name, LinkedContext,
    LoggedInContext, LoggedInWithErrorContext,
};
use crate::types::{ConfigurationError, StoreError};
use vstd::prelude::*;

verus! {

/// The page of someone who is logged in.
#[derive(Debug, PartialEq, Eq)]
pub enum Page<'a> {
    /// Their membership, and whether it can be renewed.
    Linked(LinkedContext<'a>),
    /// The invitation to link a membership.
    NotLinked(LoggedInContext<'a>),
}

/// What is shown to someone who asks for the form.
#[derive(Debug, PartialEq, Eq)]
pub enum FormPage<'a> {
    /// The form, with no message.
    Form(LoggedInWithErrorContext<'a>),
    /// Nothing: they have a membership that has not lapsed, and are sent to
    /// their page.
    Index,
}

/// Whether the account may link a membership at `now`, or why that cannot
/// be told: the store failed, the zone of the organisation is not known, or
/// the day on which memberships lapse does not exist.
pub open spec fn form_open(
    now: Instant,
    found: Result<Option<Membership>, StoreError>,
    config: Config,
) -> Result<bool, InternalError> {
    match found {
        Err(e) => Err(InternalError::Store(e)),
        Ok(member) => if !zone_known(config.org.timezone@) {
            Err(InternalError::Configuration(ConfigurationError::UnknownTimezone))
        } else {
            match can_use_form_spec(now, row_of(member), config.org.timezone@, config.expiry) {
                Ok(open) => Ok(open),
                Err(e) => Err(InternalError::Configuration(e)),
            }
        },
    }
}

/// Whether the account may link a membership at `now`.
pub fn is_form_open(
    now: Instant,
    found: &Result<Option<Membership>, StoreError>,
    config: &Config,
) -> (open: Result<bool, InternalError>)
    ensures
        open == form_open(now, *found, *config),
{
    match found {
        Err(e) => Err(InternalError::Store(*e)),
        Ok(member) => match org::timezone_from_string(config.org.timezone.as_str()) {
            Err(e) => Err(InternalError::Configuration(e)),
            Ok(timezone) => match can_use_form(now, member, &timezone, &config.expiry) {
                Ok(open) => Ok(open),
                Err(e) => Err(InternalError::Configuration(e)),
            },
        },
    }
}

/// The page of the account of the session, given what the store holds for
/// it: the invitation to link where it holds nothing, else the membership,
/// which can be renewed once it has lapsed.
pub fn manage_authed<'a>(
    now: Instant,
    found: Result<Option<Membership>, StoreError>,
    session: &Session,
    config: &'a Config,
) -> (page: Result<Page<'a>, InternalError>)
    ensures
        match found {
            Ok(None) => page is Ok && page->Ok_0 is NotLinked,
            _ => match form_open(now, found, *config) {
                Err(e) => page == Err::<Page<'a>, InternalError>(e),
                Ok(open) => page is Ok && page->Ok_0 is Linked && page->Ok_0->Linked_0.can_renew
                    == open,
            },
        },
        page matches Ok(Page::NotLinked(context)) ==> {
            &&& *context.org == config.org
            &&& context.lichess@ == session.lichess_username@
            &&& context.admin == (session.lichess_id@ == config.lichess.team_admin@)
        },
        page matches Ok(Page::Linked(context)) ==> found matches Ok(Some(member)) && {
            &&& *context.logged_in.org == config.org
            &&& context.logged_in.lichess@ == session.lichess_username@
            &&& context.logged_in.admin == (session.lichess_id@ == config.lichess.team_admin@)
            &&& context.org_id == member.org_id
            &&& context.exp_year == member.exp_year
            &&& context.exp_month@ == month_name(config.expiry.membership_month as int)
            &&& context.exp_day == config.expiry.membership_day
            &&& context.renew_month@ == month_name(config.expiry.renewal_month as int)
            &&& context.renew_day == config.expiry.renewal_day
        },
{
    let logged_in = make_logged_in_context(session, config);
    let open = is_form_open(now, &found, config);
    match found {
        Err(e) => Err(InternalError::Store(e)),
        Ok(None) => Ok(Page::NotLinked(logged_in)),
        Ok(Some(member)) => match open {
            Err(e) => Err(e),
            Ok(can_renew) => Ok(
                Page::Linked(
                    make_linked_context(
                        logged_in,
                        member.org_id,
                        member.exp_year,
                        can_renew,
                        &config.expiry,
                    ),
                ),
            ),
        },
    }
}

/// What is shown to the account of the session when it asks for the form.
pub fn show_form<'a>(
    now: Instant,
    found: Result<Option<Membership>, StoreError>,
    session: &Session,
    config: &'a Config,
) -> (page: Result<FormPage<'a>, InternalError>)
    ensures
        match form_open(now, found, *config) {
            Err(e) => page == Err::<FormPage<'a>, InternalError>(e),
            Ok(false) => page is Ok && page->Ok_0 is Index,
            Ok(true) => page is Ok && page->Ok_0 is Form,
        },
        page matches Ok(FormPage::Form(context)) ==> {
            &&& context.error@ == Seq::<char>::empty()
            &&& *context.logged_in.org == config.org
            &&& context.logged_in.lichess@ == session.lichess_username@
            &&& context.logged_in.admin == (session.lichess_id@ == config.lichess.team_admin@)
        },
{
    match is_form_open(now, &found, config) {
        Err(e) => Err(e),
        Ok(false) => Ok(FormPage::Index),
        Ok(true) => {
            proof {
                reveal_strlit("");
            }
            let context = make_error_context(make_logged_in_context(session, config), "");
            assert(context.error@ =~= Seq::<char>::empty());
            Ok(FormPage::Form(context))
        },
    }
}

/// The members for the administrator, each member id with the account that
/// is linked to it.
pub fn admin_user_json(members: &Vec<Membership>) -> (entries: Vec<(String, String)>)
    ensures
        entries@.len() == members@.len(),
        forall|i: int|
            0 <= i < members@.len() ==> (#[trigger] entries@[i]).0@ == members@[i].org_id@
                && entries@[i].1@ == members@[i].lichess_id@,
{
    let mut entries: Vec<(String, String)> = Vec::new();
    let mut i: usize = 0;
    while i < members.len()
        invariant
            i <= members.len(),
            entries@.len() == i,
            forall|k: int|
                0 <= k < i ==> (#[trigger] entries@[k]).0@ == members@[k].org_id@
                    && entries@[k].1@ == members@[k].lichess_id@,
        decreases members.len() - i,
    {
        entries.push((members[i].org_id.clone(), members[i].lichess_id.clone()));
        i += 1;
    }
    entries
}

} // verus!
