use vstd::prelude::*;

verus! {

/// Everything that the deployment configures.
#[derive(Debug, PartialEq, Eq)]
pub struct Config {
    pub org: OrgConfig,
    pub expiry: ExpiryConfig,
    pub server: ServerConfig,
    pub lichess: LichessConfig,
    pub azolve: AzolveConfig,
}

/// The organisation whose memberships are linked.
#[derive(Debug, PartialEq, Eq)]
pub struct OrgConfig {
    pub long_name: String,
    pub short_name: String,
    pub icon: String,
    pub image: String,
    pub team_id: String,
    pub timezone: String,
    pub referral_link: String,
    pub authentication_secret: String,
    pub authentication_secret_first_word: String,
    pub memberid_placeholder: String,
    pub password_placeholder: String,
    pub password_explanation: String,
    pub memberid_pattern: String,
}

/// When a membership lapses, and until when it can be renewed.
#[derive(Debug, PartialEq, Eq)]
pub struct ExpiryConfig {
    pub enable: bool,
    pub membership_month: u32,
    pub membership_day: u32,
    pub renewal_month: u32,
    pub renewal_day: u32,
}

/// Where the service runs and how it reaches its store.
#[derive(Debug, PartialEq, Eq)]
pub struct ServerConfig {
    pub url: String,
    pub expiry_check_interval_seconds: u64,
    pub postgres_options: String,
}

/// The Lichess application, its team and the account that manages it.
#[derive(Debug, PartialEq, Eq)]
pub struct LichessConfig {
    pub domain: String,
    pub client_id: String,
    pub client_secret: String,
    pub team_admin: String,
    pub team_password: String,
    pub personal_api_token: String,
}

/// The authority that confirms memberships.
#[derive(Debug, PartialEq, Eq)]
pub struct AzolveConfig {
    pub api: String,
    pub api_pwd: String,
    pub api_token: String,
    /// The services through which a credential passes, in this order, before
    /// it is submitted. An empty entry stands for no service.
    pub transform_apis: Vec<String>,
    /// A member id that is confirmed without asking the authority. Empty
    /// wherever real memberships are linked.
    pub test_backdoor_member_id: String,
    /// The credential that goes with `test_backdoor_member_id`.
    pub test_backdoor_password: String,
}

} // verus!
