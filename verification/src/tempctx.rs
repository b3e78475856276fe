use crate::config::{Config, ExpiryConfig, OrgConfig};
use crate::db::Membership;
use crate::session::Session;
use vstd::prelude::*;

verus! {

/// What every page shows.
#[derive(Debug, PartialEq, Eq)]
pub struct BaseContext<'a> {
    pub org: &'a OrgConfig,
}

/// What a page shows to someone who is logged in.
#[derive(Debug, PartialEq, Eq)]
pub struct LoggedInContext<'a> {
    pub org: &'a OrgConfig,
    pub lichess: String,
    pub admin: bool,
}

/// A page for someone who is logged in, with a message on what went wrong.
#[derive(Debug, PartialEq, Eq)]
pub struct LoggedInWithErrorContext<'a> {
    pub logged_in: LoggedInContext<'a>,
    pub error: String,
}

/// The page of a linked membership.
#[derive(Debug, PartialEq, Eq)]
pub struct LinkedContext<'a> {
    pub logged_in: LoggedInContext<'a>,
    pub org_id: String,
    pub exp_year: i32,
    pub can_renew: bool,
    pub exp_month: String,
    pub exp_day: u32,
    pub renew_month: String,
    pub renew_day: u32,
}

/// The page of the team's administrator.
#[derive(Debug, PartialEq, Eq)]
pub struct AdminContext<'a> {
    pub logged_in: LoggedInContext<'a>,
    pub ref_count: i64,
    pub members: Vec<Membership>,
}

/// The English name of a month, and `ERROR` for a number that is none.
pub open spec fn month_name(month: int) -> Seq<char> {
    if month == 1 {
        "January"@
    } else if month == 2 {
        "February"@
    } else if month == 3 {
        "March"@
    } else if month == 4 {
        "April"@
    } else if month == 5 {
        "May"@
    } else if month == 6 {
        "June"@
    } else if month == 7 {
        "July"@
    } else if month == 8 {
        "August"@
    } else if month == 9 {
        "September"@
    } else if month == 10 {
        "October"@
    } else if month == 11 {
        "November"@
    } else if month == 12 {
        "December"@
    } else {
        "ERROR"@
    }
}

/// The context of a page for someone who is not logged in.
pub fn empty_context(config: &Config) -> (context: BaseContext<'_>)
    ensures
        *context.org == config.org,
{
    BaseContext { org: &config.org }
}

/// The context of the person whose session it is. They are the
/// administrator if their account is the one that manages the team.
pub fn make_logged_in_context<'a>(session: &Session, config: &'a Config) -> (context:
    LoggedInContext<'a>)
    ensures
        *context.org == config.org,
        context.lichess@ == session.lichess_username@,
        context.admin == (session.lichess_id@ == config.lichess.team_admin@),
{
    LoggedInContext {
        org: &config.org,
        lichess: session.lichess_username.clone(),
        admin: session.lichess_id == config.lichess.team_admin,
    }
}

/// A page for someone who is logged in, with a message.
pub fn make_error_context<'a>(logged_in: LoggedInContext<'a>, error: &str) -> (context:
    LoggedInWithErrorContext<'a>)
    ensures
        context.logged_in == logged_in,
        context.error@ == error@,
{
    LoggedInWithErrorContext { logged_in, error: error.to_owned() }
}

/// The page of the administrator, with the members and the number of
/// referral clicks.
pub fn make_admin_context<'a>(
    logged_in: LoggedInContext<'a>,
    ref_count: i64,
    members: Vec<Membership>,
) -> (context: AdminContext<'a>)
    ensures
        context.logged_in == logged_in,
        context.ref_count == ref_count,
        context.members == members,
{
    AdminContext { logged_in, members, ref_count }
}

/// The English name of the month.
pub fn month_to_string(month: u32) -> (name: String)
    ensures
        name@ == month_name(month as int),
{
    let name = match month {
        1 => "January",
        2 => "February",
        3 => "March",
        4 => "April",
        5 => "May",
        6 => "June",
        7 => "July",
        8 => "August",
        9 => "September",
        10 => "October",
        11 => "November",
        12 => "December",
        _ => "ERROR",
    };
    name.to_owned()
}

/// The page of a linked membership: the link, whether it can be renewed
/// now, and the days on which memberships lapse and renewal ends, with the
/// months by name.
pub fn make_linked_context<'a>(
    logged_in: LoggedInContext<'a>,
    org_id: String,
    exp_year: i32,
    can_renew: bool,
    exp_config: &ExpiryConfig,
) -> (context: LinkedContext<'a>)
    ensures
        context.logged_in == logged_in,
        context.org_id == org_id,
        context.exp_year == exp_year,
        context.can_renew == can_renew,
        context.exp_month@ == month_name(exp_config.membership_month as int),
        context.exp_day == exp_config.membership_day,
        context.renew_month@ == month_name(exp_config.renewal_month as int),
        context.renew_day == exp_config.renewal_day,
{
    LinkedContext {
        logged_in,
        org_id,
        exp_year,
        can_renew,
        exp_month: month_to_string(exp_config.membership_month),
        exp_day: exp_config.membership_day,
        renew_month: month_to_string(exp_config.renewal_month),
        renew_day: exp_config.renewal_day,
    }
}

} // verus!
