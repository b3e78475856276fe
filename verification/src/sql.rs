use crate::db::{
    clicked, expiring_by, registered, without_links, without_lichess_id, without_org_id, MemberRow,
};
use vstd::prelude::*;

verus! {

/// Deletes the memberships of a member and of an account.
pub const DELETE_LINKS: &'static str =
    "DELETE FROM memberships WHERE orgid = $1 OR lichessid = $2";

/// Inserts a membership.
pub const INSERT_MEMBER: &'static str =
    "INSERT INTO memberships (orgid, lichessid, exp) VALUES ($1, $2, $3)";

/// Deletes the membership of a member.
pub const DELETE_BY_ORG_ID: &'static str =
    "DELETE FROM memberships WHERE orgid = $1";

/// Deletes the membership of an account.
pub const DELETE_BY_LICHESS_ID: &'static str =
    "DELETE FROM memberships WHERE lichessid = $1";

/// Notes a referral click, unless the account has one.
pub const INSERT_REFERRAL: &'static str =
    "INSERT INTO ref (lichessid) VALUES ($1) ON CONFLICT DO NOTHING";

/// Asks for the membership of a member.
pub const SELECT_BY_ORG_ID: &'static str =
    "SELECT orgid, lichessid, exp FROM memberships WHERE orgid = $1";

/// Asks for the membership of an account.
pub const SELECT_BY_LICHESS_ID: &'static str =
    "SELECT orgid, lichessid, exp FROM memberships WHERE lichessid = $1";

/// Asks for every membership.
pub const SELECT_ALL: &'static str =
    "SELECT orgid, lichessid, exp FROM memberships";

/// Asks for the memberships that lapse by a year.
pub const SELECT_EXPIRING_BY: &'static str =
    "SELECT orgid, lichessid, exp FROM memberships WHERE exp <= $1";

/// Asks for the number of referral clicks.
pub const COUNT_REFERRALS: &'static str =
    "SELECT COUNT(*) FROM ref";

/// A value that takes the place of `$1`, `$2` or `$3` in a statement.
#[derive(Debug, PartialEq, Eq)]
pub enum Value {
    Text(String),
    Year(i32),
}

/// What a `Value` says.
pub enum ValueView {
    Text(Seq<char>),
    Year(int),
}

impl View for Value {
    type V = ValueView;

    open spec fn view(&self) -> ValueView {
        match *self {
            Value::Text(text) => ValueView::Text(text@),
            Value::Year(year) => ValueView::Year(year as int),
        }
    }
}

/// The values of a statement, in the order of their places.
pub open spec fn values_of(values: Seq<Value>) -> Seq<ValueView> {
    values.map_values(|v: Value| v@)
}

/// A statement that changes what a store on SQL holds.
#[derive(Debug, PartialEq, Eq)]
pub enum Statement {
    /// Deletes every membership of the member or of the account.
    DeleteLinks { org_id: String, lichess_id: String },
    /// Inserts a membership.
    InsertMember { org_id: String, lichess_id: String, exp_year: i32 },
    /// Deletes the membership of the member.
    DeleteByOrgId { org_id: String },
    /// Deletes the membership of the account.
    DeleteByLichessId { lichess_id: String },
    /// Notes a referral click of the account, unless one is noted.
    InsertReferral { lichess_id: String },
}

/// What a `Statement` says.
pub enum StatementView {
    DeleteLinks { org_id: Seq<char>, lichess_id: Seq<char> },
    InsertMember { org_id: Seq<char>, lichess_id: Seq<char>, exp_year: int },
    DeleteByOrgId { org_id: Seq<char> },
    DeleteByLichessId { lichess_id: Seq<char> },
    InsertReferral { lichess_id: Seq<char> },
}

impl View for Statement {
    type V = StatementView;

    open spec fn view(&self) -> StatementView {
        match *self {
            Statement::DeleteLinks { org_id, lichess_id } => StatementView::DeleteLinks {
                org_id: org_id@,
                lichess_id: lichess_id@,
            },
            Statement::InsertMember { org_id, lichess_id, exp_year } => StatementView::InsertMember {
                org_id: org_id@,
                lichess_id: lichess_id@,
                exp_year: exp_year as int,
            },
            Statement::DeleteByOrgId { org_id } => StatementView::DeleteByOrgId { org_id: org_id@ },
            Statement::DeleteByLichessId { lichess_id } => StatementView::DeleteByLichessId {
                lichess_id: lichess_id@,
            },
            Statement::InsertReferral { lichess_id } => StatementView::InsertReferral {
                lichess_id: lichess_id@,
            },
        }
    }
}

/// What each statement says, in order.
pub open spec fn statements_of(statements: Seq<Statement>) -> Seq<StatementView> {
    statements.map_values(|s: Statement| s@)
}

/// What a store holds: the memberships and the referral ledger.
pub struct Table {
    pub rows: Seq<MemberRow>,
    pub clicks: Seq<Seq<char>>,
}

/// The text of a statement in SQL.
pub open spec fn statement_text(statement: StatementView) -> Seq<char> {
    match statement {
        StatementView::DeleteLinks { .. } => DELETE_LINKS@,
        StatementView::InsertMember { .. } => INSERT_MEMBER@,
        StatementView::DeleteByOrgId { .. } => DELETE_BY_ORG_ID@,
        StatementView::DeleteByLichessId { .. } => DELETE_BY_LICHESS_ID@,
        StatementView::InsertReferral { .. } => INSERT_REFERRAL@,
    }
}

/// The values of a statement.
pub open spec fn statement_values(statement: StatementView) -> Seq<ValueView> {
    match statement {
        StatementView::DeleteLinks { org_id, lichess_id } => seq![
            ValueView::Text(org_id),
            ValueView::Text(lichess_id),
        ],
        StatementView::InsertMember { org_id, lichess_id, exp_year } => seq![
            ValueView::Text(org_id),
            ValueView::Text(lichess_id),
            ValueView::Year(exp_year),
        ],
        StatementView::DeleteByOrgId { org_id } => seq![ValueView::Text(org_id)],
        StatementView::DeleteByLichessId { lichess_id } => seq![ValueView::Text(lichess_id)],
        StatementView::InsertReferral { lichess_id } => seq![ValueView::Text(lichess_id)],
    }
}

/// What a store holds after a statement.
pub open spec fn effect(statement: StatementView, table: Table) -> Table {
    match statement {
        StatementView::DeleteLinks { org_id, lichess_id } => Table {
            rows: without_links(table.rows, org_id, lichess_id),
            clicks: table.clicks,
        },
        StatementView::InsertMember { org_id, lichess_id, exp_year } => Table {
            rows: table.rows.push(MemberRow { org_id, lichess_id, exp_year }),
            clicks: table.clicks,
        },
        StatementView::DeleteByOrgId { org_id } => Table {
            rows: without_org_id(table.rows, org_id),
            clicks: table.clicks,
        },
        StatementView::DeleteByLichessId { lichess_id } => Table {
            rows: without_lichess_id(table.rows, lichess_id),
            clicks: table.clicks,
        },
        StatementView::InsertReferral { lichess_id } => Table {
            rows: table.rows,
            clicks: clicked(table.clicks, lichess_id),
        },
    }
}

/// What a store holds after the statements have been carried out in order.
pub open spec fn effect_all(statements: Seq<StatementView>, table: Table) -> Table
    decreases statements.len(),
{
    if statements.len() == 0 {
        table
    } else {
        effect(statements.last(), effect_all(statements.drop_last(), table))
    }
}

impl Statement {
    /// The text of the statement in SQL.
    pub fn sql(&self) -> (text: &'static str)
        ensures
            text@ == statement_text(self@),
    {
        match self {
            Statement::DeleteLinks { .. } => DELETE_LINKS,
            Statement::InsertMember { .. } => INSERT_MEMBER,
            Statement::DeleteByOrgId { .. } => DELETE_BY_ORG_ID,
            Statement::DeleteByLichessId { .. } => DELETE_BY_LICHESS_ID,
            Statement::InsertReferral { .. } => INSERT_REFERRAL,
        }
    }

    /// The values that take the places of the statement.
    pub fn values(&self) -> (values: Vec<Value>)
        ensures
            values_of(values@) == statement_values(self@),
    {
        let mut values: Vec<Value> = Vec::new();
        match self {
            Statement::DeleteLinks { org_id, lichess_id } => {
                values.push(Value::Text(org_id.clone()));
                values.push(Value::Text(lichess_id.clone()));
            },
            Statement::InsertMember { org_id, lichess_id, exp_year } => {
                values.push(Value::Text(org_id.clone()));
                values.push(Value::Text(lichess_id.clone()));
                values.push(Value::Year(*exp_year));
            },
            Statement::DeleteByOrgId { org_id } => {
                values.push(Value::Text(org_id.clone()));
            },
            Statement::DeleteByLichessId { lichess_id } => {
                values.push(Value::Text(lichess_id.clone()));
            },
            Statement::InsertReferral { lichess_id } => {
                values.push(Value::Text(lichess_id.clone()));
            },
        }
        assert(values_of(values@) =~= statement_values(self@));
        values
    }
}

/// A question to a store on SQL.
#[derive(Debug, PartialEq, Eq)]
pub enum Select {
    /// The membership of the member.
    ByOrgId { org_id: String },
    /// The membership of the account.
    ByLichessId { lichess_id: String },
    /// Every membership.
    All,
    /// The memberships that lapse in the year or earlier.
    ExpiringBy { year: i32 },
    /// The number of referral clicks.
    ReferralCount,
}

/// What a `Select` says.
pub enum SelectView {
    ByOrgId { org_id: Seq<char> },
    ByLichessId { lichess_id: Seq<char> },
    All,
    ExpiringBy { year: int },
    ReferralCount,
}

impl View for Select {
    type V = SelectView;

    open spec fn view(&self) -> SelectView {
        match *self {
            Select::ByOrgId { org_id } => SelectView::ByOrgId { org_id: org_id@ },
            Select::ByLichessId { lichess_id } => SelectView::ByLichessId { lichess_id: lichess_id@ },
            Select::All => SelectView::All,
            Select::ExpiringBy { year } => SelectView::ExpiringBy { year: year as int },
            Select::ReferralCount => SelectView::ReferralCount,
        }
    }
}

/// The text of a question in SQL.
pub open spec fn select_text(select: SelectView) -> Seq<char> {
    match select {
        SelectView::ByOrgId { .. } => SELECT_BY_ORG_ID@,
        SelectView::ByLichessId { .. } => SELECT_BY_LICHESS_ID@,
        SelectView::All => SELECT_ALL@,
        SelectView::ExpiringBy { .. } => SELECT_EXPIRING_BY@,
        SelectView::ReferralCount => COUNT_REFERRALS@,
    }
}

/// The values of a question.
pub open spec fn select_values(select: SelectView) -> Seq<ValueView> {
    match select {
        SelectView::ByOrgId { org_id } => seq![ValueView::Text(org_id)],
        SelectView::ByLichessId { lichess_id } => seq![ValueView::Text(lichess_id)],
        SelectView::All => Seq::empty(),
        SelectView::ExpiringBy { year } => seq![ValueView::Year(year)],
        SelectView::ReferralCount => Seq::empty(),
    }
}

/// The memberships that answer a question. The count of referrals is
/// answered by a number, and by no membership.
pub open spec fn selected(select: SelectView, table: Table) -> Seq<MemberRow> {
    match select {
        SelectView::ByOrgId { org_id } => table.rows.filter(|r: MemberRow| r.org_id == org_id),
        SelectView::ByLichessId { lichess_id } => table.rows.filter(
            |r: MemberRow| r.lichess_id == lichess_id,
        ),
        SelectView::All => table.rows,
        SelectView::ExpiringBy { year } => expiring_by(table.rows, year),
        SelectView::ReferralCount => Seq::empty(),
    }
}

impl Select {
    /// The text of the question in SQL.
    pub fn sql(&self) -> (text: &'static str)
        ensures
            text@ == select_text(self@),
    {
        match self {
            Select::ByOrgId { .. } => SELECT_BY_ORG_ID,
            Select::ByLichessId { .. } => SELECT_BY_LICHESS_ID,
            Select::All => SELECT_ALL,
            Select::ExpiringBy { .. } => SELECT_EXPIRING_BY,
            Select::ReferralCount => COUNT_REFERRALS,
        }
    }

    /// The values that take the places of the question.
    pub fn values(&self) -> (values: Vec<Value>)
        ensures
            values_of(values@) == select_values(self@),
    {
        let mut values: Vec<Value> = Vec::new();
        match self {
            Select::ByOrgId { org_id } => {
                values.push(Value::Text(org_id.clone()));
            },
            Select::ByLichessId { lichess_id } => {
                values.push(Value::Text(lichess_id.clone()));
            },
            Select::ExpiringBy { year } => {
                values.push(Value::Year(*year));
            },
            Select::All => {},
            Select::ReferralCount => {},
        }
        assert(values_of(values@) =~= select_values(self@));
        values
    }
}

/// The statements that link `org_id` to `lichess_id`: the deletion of every
/// row that mentions either, then the insertion of the new row. They are
/// carried out as one unit of work.
pub fn register_member(org_id: &str, lichess_id: &str, exp_year: i32) -> (plan: Vec<Statement>)
    ensures
        statements_of(plan@) == seq![
            StatementView::DeleteLinks { org_id: org_id@, lichess_id: lichess_id@ },
            StatementView::InsertMember {
                org_id: org_id@,
                lichess_id: lichess_id@,
                exp_year: exp_year as int,
            },
        ],
{
    let mut plan: Vec<Statement> = Vec::new();
    plan.push(Statement::DeleteLinks { org_id: org_id.to_owned(), lichess_id: lichess_id.to_owned() });
    plan.push(
        Statement::InsertMember {
            org_id: org_id.to_owned(),
            lichess_id: lichess_id.to_owned(),
            exp_year,
        },
    );
    assert(statements_of(plan@) =~= seq![
        StatementView::DeleteLinks { org_id: org_id@, lichess_id: lichess_id@ },
        StatementView::InsertMember {
            org_id: org_id@,
            lichess_id: lichess_id@,
            exp_year: exp_year as int,
        },
    ]);
    plan
}

/// The statements that link two identities leave the table as `registered`
/// says, whatever it held: the rows of both identities are gone, the new
/// row stands last, and the referral ledger is as it was.
pub proof fn lemma_register_plan_registers(
    table: Table,
    org_id: Seq<char>,
    lichess_id: Seq<char>,
    exp_year: int,
)
    ensures
        effect_all(
            seq![
                StatementView::DeleteLinks { org_id, lichess_id },
                StatementView::InsertMember { org_id, lichess_id, exp_year },
            ],
            table,
        ) == (Table {
            rows: registered(table.rows, org_id, lichess_id, exp_year),
            clicks: table.clicks,
        }),
{
    let delete = StatementView::DeleteLinks { org_id, lichess_id };
    let insert = StatementView::InsertMember { org_id, lichess_id, exp_year };
    let plan = seq![delete, insert];
    assert(plan.drop_last() =~= seq![delete]);
    assert(plan.drop_last().drop_last() =~= Seq::<StatementView>::empty());
    assert(effect_all(plan.drop_last().drop_last(), table) == table);
    assert(effect_all(plan.drop_last(), table) == effect(delete, table));
}

} // verus!
