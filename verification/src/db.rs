use crate::types::StoreError;
use vstd::prelude::*;

verus! {

/// A link between a member of the organisation and a Lichess account.
#[derive(Debug, PartialEq, Eq)]
pub struct Membership {
    pub org_id: String,
    pub lichess_id: String,
    pub exp_year: i32,
}

/// What a `Membership` says, as plain mathematical values.
pub struct MemberRow {
    pub org_id: Seq<char>,
    pub lichess_id: Seq<char>,
    pub exp_year: int,
}

impl View for Membership {
    type V = MemberRow;

    open spec fn view(&self) -> MemberRow {
        MemberRow { org_id: self.org_id@, lichess_id: self.lichess_id@, exp_year: self.exp_year as int }
    }
}

impl Clone for Membership {
    fn clone(&self) -> (copy: Self)
        ensures
            copy@ == self@,
    {
        Membership {
            org_id: self.org_id.clone(),
            lichess_id: self.lichess_id.clone(),
            exp_year: self.exp_year,
        }
    }
}

/// The rows that a sequence of memberships stands for, in the same order.
pub open spec fn rows_of(members: Seq<Membership>) -> Seq<MemberRow> {
    members.map_values(|m: Membership| m@)
}

/// No two rows share an organisation id, and no two share a Lichess id.
pub open spec fn links_unique(rows: Seq<MemberRow>) -> bool {
    forall|i: int, j: int|
        0 <= i < j < rows.len() ==> (#[trigger] rows[i]).org_id != (#[trigger] rows[j]).org_id
            && rows[i].lichess_id != rows[j].lichess_id
}

/// The row stands in the way of a new link between `org_id` and `lichess_id`.
pub open spec fn clashes(row: MemberRow, org_id: Seq<char>, lichess_id: Seq<char>) -> bool {
    row.org_id == org_id || row.lichess_id == lichess_id
}

/// The rows that a new link between `org_id` and `lichess_id` leaves in place.
pub open spec fn without_links(
    rows: Seq<MemberRow>,
    org_id: Seq<char>,
    lichess_id: Seq<char>,
) -> Seq<MemberRow> {
    rows.filter(|r: MemberRow| !clashes(r, org_id, lichess_id))
}

/// The table after `org_id` has been linked to `lichess_id`: every row that
/// mentions either of them is gone, and the new row stands last.
pub open spec fn registered(
    rows: Seq<MemberRow>,
    org_id: Seq<char>,
    lichess_id: Seq<char>,
    exp_year: int,
) -> Seq<MemberRow> {
    without_links(rows, org_id, lichess_id).push(MemberRow { org_id, lichess_id, exp_year })
}

/// The table without the rows of `org_id`.
pub open spec fn without_org_id(rows: Seq<MemberRow>, org_id: Seq<char>) -> Seq<MemberRow> {
    rows.filter(|r: MemberRow| r.org_id != org_id)
}

/// The table without the rows of `lichess_id`.
pub open spec fn without_lichess_id(rows: Seq<MemberRow>, lichess_id: Seq<char>) -> Seq<MemberRow> {
    rows.filter(|r: MemberRow| r.lichess_id != lichess_id)
}

/// The first row, where there is one.
pub open spec fn first_row(rows: Seq<MemberRow>) -> Option<MemberRow> {
    if rows.len() > 0 {
        Some(rows[0])
    } else {
        None
    }
}

/// The row of `org_id`: the first of the rows that carry it.
pub open spec fn member_for_org_id(rows: Seq<MemberRow>, org_id: Seq<char>) -> Option<MemberRow> {
    first_row(rows.filter(|r: MemberRow| r.org_id == org_id))
}

/// The row of `lichess_id`: the first of the rows that carry it.
pub open spec fn member_for_lichess_id(
    rows: Seq<MemberRow>,
    lichess_id: Seq<char>,
) -> Option<MemberRow> {
    first_row(rows.filter(|r: MemberRow| r.lichess_id == lichess_id))
}

/// What an optional membership says.
pub open spec fn row_of(member: Option<Membership>) -> Option<MemberRow> {
    match member {
        Some(m) => Some(m@),
        None => None,
    }
}

/// The rows whose membership lapses in `year` or earlier.
pub open spec fn expiring_by(rows: Seq<MemberRow>, year: int) -> Seq<MemberRow> {
    rows.filter(|r: MemberRow| r.exp_year <= year)
}

/// The referral ledger after a click by `lichess_id`: a second click by the
/// same account changes nothing.
pub open spec fn clicked(clicks: Seq<Seq<char>>, lichess_id: Seq<char>) -> Seq<Seq<char>> {
    if clicks.contains(lichess_id) {
        clicks
    } else {
        clicks.push(lichess_id)
    }
}

/// The most entries that a referral ledger can be made to hold, so that
/// their number can be reported as an `i64`.
pub const REFERRAL_LIMIT: usize = 0x7fff_ffff;

/// The text of each entry of the referral ledger, in order.
pub open spec fn texts_of(entries: Seq<String>) -> Seq<Seq<char>> {
    entries.map_values(|s: String| s@)
}

/// The membership store: the one place that says which member of the
/// organisation is linked to which Lichess account, and the ledger of
/// referral clicks beside it.
///
/// The rows are held in memory. A store that has been cut off refuses every
/// operation and keeps what it holds.
pub struct OrgDbClient {
    members: Vec<Membership>,
    referrals: Vec<String>,
    limit: usize,
    connected: bool,
}

impl OrgDbClient {
    #[verifier::type_invariant]
    spec fn well_formed(self) -> bool {
        &&& links_unique(rows_of(self.members@))
        &&& texts_of(self.referrals@).no_duplicates()
        &&& self.referrals@.len() <= self.limit <= REFERRAL_LIMIT
    }

    /// The memberships that the store holds, oldest link first.
    pub closed spec fn rows(&self) -> Seq<MemberRow> {
        rows_of(self.members@)
    }

    /// The accounts that have followed the referral link, first click first.
    pub closed spec fn clicks(&self) -> Seq<Seq<char>> {
        texts_of(self.referrals@)
    }

    /// The most entries that the referral ledger holds.
    pub closed spec fn ledger_limit(&self) -> nat {
        self.limit as nat
    }

    /// Whether the store can be reached.
    pub closed spec fn connected(&self) -> bool {
        self.connected
    }

    /// An empty store that can be reached, with the largest ledger.
    pub fn new() -> (db: Self)
        ensures
            db.rows() == Seq::<MemberRow>::empty(),
            db.clicks() == Seq::<Seq<char>>::empty(),
            db.ledger_limit() == REFERRAL_LIMIT,
            db.connected(),
    {
        OrgDbClient::with_ledger_limit(REFERRAL_LIMIT)
    }

    /// An empty store that can be reached, with a ledger of at most `limit`
    /// entries, and of no more than `REFERRAL_LIMIT`.
    pub fn with_ledger_limit(limit: usize) -> (db: Self)
        ensures
            db.rows() == Seq::<MemberRow>::empty(),
            db.clicks() == Seq::<Seq<char>>::empty(),
            db.ledger_limit() == if limit <= REFERRAL_LIMIT {
                limit
            } else {
                REFERRAL_LIMIT
            },
            db.connected(),
    {
        let limit = if limit <= REFERRAL_LIMIT {
            limit
        } else {
            REFERRAL_LIMIT
        };
        let db = OrgDbClient { members: Vec::new(), referrals: Vec::new(), limit, connected: true };
        assert(db.rows() =~= Seq::<MemberRow>::empty());
        assert(db.clicks() =~= Seq::<Seq<char>>::empty());
        db
    }

    /// Cuts the store off, or brings it back. What it holds stays.
    pub fn set_connected(&mut self, connected: bool)
        ensures
            final(self).connected() == connected,
            final(self).rows() == old(self).rows(),
            final(self).clicks() == old(self).clicks(),
            final(self).ledger_limit() == old(self).ledger_limit(),
    {
        proof {
            use_type_invariant(&*self);
        }
        self.connected = connected;
    }

    /// Links `org_id` to `lichess_id` until `exp_year`. Every row that
    /// mentions either of them is deleted first, then the new row is
    /// inserted, so that no identity is ever linked twice. Returns the
    /// number of rows inserted, which is 1.
    pub fn register_member(
        &mut self,
        org_id: &str,
        lichess_id: &str,
        exp_year: i32,
    ) -> (result: Result<u64, StoreError>)
        ensures
            final(self).connected() == old(self).connected(),
            final(self).clicks() == old(self).clicks(),
            final(self).ledger_limit() == old(self).ledger_limit(),
            links_unique(final(self).rows()),
            old(self).connected() ==> result == Ok::<u64, StoreError>(1) && final(self).rows()
                == registered(old(self).rows(), org_id@, lichess_id@, exp_year as int),
            !old(self).connected() ==> result == Err::<u64, StoreError>(StoreError::Unavailable)
                && final(self).rows() == old(self).rows(),
    {
        proof {
            use_type_invariant(&*self);
        }
        if !self.connected {
            return Err(StoreError::Unavailable);
        }
        let filter = Filter::Link { org_id: org_id.to_owned(), lichess_id: lichess_id.to_owned() };
        let mut kept = pick(&self.members, &filter, false);
        let member = Membership {
            org_id: org_id.to_owned(),
            lichess_id: lichess_id.to_owned(),
            exp_year,
        };
        proof {
            let rows = rows_of(self.members@);
            let keep = |r: MemberRow| !clashes(r, org_id@, lichess_id@);
            assert(filter.choice(false) =~= keep);
            lemma_register_keeps_links_unique(rows, org_id@, lichess_id@, exp_year as int);
            assert(rows_of(kept@.push(member)) =~= rows_of(kept@).push(member@));
        }
        kept.push(member);
        self.members = kept;
        Ok(1)
    }

    /// The membership of `org_id`, if there is one.
    pub fn get_member_for_org_id(
        &self,
        org_id: &str,
    ) -> (result: Result<Option<Membership>, StoreError>)
        ensures
            links_unique(self.rows()),
            self.connected() ==> result is Ok && row_of(result->Ok_0) == member_for_org_id(
                self.rows(),
                org_id@,
            ),
            !self.connected() ==> result == Err::<Option<Membership>, StoreError>(
                StoreError::Unavailable,
            ),
    {
        proof {
            use_type_invariant(self);
        }
        if !self.connected {
            return Err(StoreError::Unavailable);
        }
        let filter = Filter::OrgId(org_id.to_owned());
        let found = pick(&self.members, &filter, true);
        proof {
            assert(filter.choice(true) =~= (|r: MemberRow| r.org_id == org_id@));
        }
        Ok(extract_one_membership(&found))
    }

    /// The membership of `lichess_id`, if there is one.
    pub fn get_member_for_lichess_id(
        &self,
        lichess_id: &str,
    ) -> (result: Result<Option<Membership>, StoreError>)
        ensures
            links_unique(self.rows()),
            self.connected() ==> result is Ok && row_of(result->Ok_0) == member_for_lichess_id(
                self.rows(),
                lichess_id@,
            ),
            !self.connected() ==> result == Err::<Option<Membership>, StoreError>(
                StoreError::Unavailable,
            ),
    {
        proof {
            use_type_invariant(self);
        }
        if !self.connected {
            return Err(StoreError::Unavailable);
        }
        let filter = Filter::LichessId(lichess_id.to_owned());
        let found = pick(&self.members, &filter, true);
        proof {
            assert(filter.choice(true) =~= (|r: MemberRow| r.lichess_id == lichess_id@));
        }
        Ok(extract_one_membership(&found))
    }

    /// Deletes the membership of `org_id` and returns the number of rows
    /// deleted: 1 if there was one, else 0.
    pub fn remove_membership(&mut self, org_id: &str) -> (result: Result<u64, StoreError>)
        ensures
            final(self).connected() == old(self).connected(),
            final(self).clicks() == old(self).clicks(),
            final(self).ledger_limit() == old(self).ledger_limit(),
            links_unique(final(self).rows()),
            old(self).connected() ==> final(self).rows() == without_org_id(
                old(self).rows(),
                org_id@,
            ) && result is Ok && result->Ok_0 == old(self).rows().len() - final(self).rows().len()
                && result->Ok_0 <= 1,
            !old(self).connected() ==> result == Err::<u64, StoreError>(StoreError::Unavailable)
                && final(self).rows() == old(self).rows(),
    {
        proof {
            use_type_invariant(&*self);
        }
        if !self.connected {
            return Err(StoreError::Unavailable);
        }
        let filter = Filter::OrgId(org_id.to_owned());
        let kept = pick(&self.members, &filter, false);
        proof {
            let rows = rows_of(self.members@);
            assert(filter.choice(false) =~= (|r: MemberRow| r.org_id != org_id@));
            lemma_filter_keeps_links_unique(rows, filter.choice(false));
            lemma_remove_by_org_id_takes_one(rows, org_id@);
        }
        let removed = self.members.len() - kept.len();
        self.members = kept;
        Ok(removed as u64)
    }

    /// Deletes the membership of `lichess_id` and returns the number of rows
    /// deleted: 1 if there was one, else 0.
    pub fn remove_membership_by_lichess_id(
        &mut self,
        lichess_id: &str,
    ) -> (result: Result<u64, StoreError>)
        ensures
            final(self).connected() == old(self).connected(),
            final(self).clicks() == old(self).clicks(),
            final(self).ledger_limit() == old(self).ledger_limit(),
            links_unique(final(self).rows()),
            old(self).connected() ==> final(self).rows() == without_lichess_id(
                old(self).rows(),
                lichess_id@,
            ) && result is Ok && result->Ok_0 == old(self).rows().len() - final(self).rows().len()
                && result->Ok_0 <= 1,
            !old(self).connected() ==> result == Err::<u64, StoreError>(StoreError::Unavailable)
                && final(self).rows() == old(self).rows(),
    {
        proof {
            use_type_invariant(&*self);
        }
        if !self.connected {
            return Err(StoreError::Unavailable);
        }
        let filter = Filter::LichessId(lichess_id.to_owned());
        let kept = pick(&self.members, &filter, false);
        proof {
            let rows = rows_of(self.members@);
            assert(filter.choice(false) =~= (|r: MemberRow| r.lichess_id != lichess_id@));
            lemma_filter_keeps_links_unique(rows, filter.choice(false));
            lemma_remove_by_lichess_id_takes_one(rows, lichess_id@);
        }
        let removed = self.members.len() - kept.len();
        self.members = kept;
        Ok(removed as u64)
    }

    /// Every membership.
    pub fn get_members(&self) -> (result: Result<Vec<Membership>, StoreError>)
        ensures
            links_unique(self.rows()),
            self.connected() ==> result is Ok && rows_of(result->Ok_0@) == self.rows(),
            !self.connected() ==> result == Err::<Vec<Membership>, StoreError>(
                StoreError::Unavailable,
            ),
    {
        proof {
            use_type_invariant(self);
        }
        if !self.connected {
            return Err(StoreError::Unavailable);
        }
        let all = pick(&self.members, &Filter::Any, true);
        proof {
            lemma_filter_all(rows_of(self.members@), Filter::Any.choice(true));
        }
        Ok(all)
    }

    /// The memberships that lapse in `year` or earlier.
    pub fn get_members_with_at_most_expiry_year(
        &self,
        year: i32,
    ) -> (result: Result<Vec<Membership>, StoreError>)
        ensures
            self.connected() ==> result is Ok && rows_of(result->Ok_0@) == expiring_by(
                self.rows(),
                year as int,
            ),
            !self.connected() ==> result == Err::<Vec<Membership>, StoreError>(
                StoreError::Unavailable,
            ),
    {
        if !self.connected {
            return Err(StoreError::Unavailable);
        }
        let filter = Filter::ExpiringBy(year);
        let expired = pick(&self.members, &filter, true);
        proof {
            assert(filter.choice(true) =~= (|r: MemberRow| r.exp_year <= year as int));
        }
        Ok(expired)
    }

    /// Notes that `lichess_id` followed the referral link. Returns the
    /// number of entries added: 1 for a first click, 0 for a repeated one.
    pub fn referral_click(&mut self, lichess_id: &str) -> (result: Result<u64, StoreError>)
        ensures
            final(self).connected() == old(self).connected(),
            final(self).rows() == old(self).rows(),
            final(self).ledger_limit() == old(self).ledger_limit(),
            result == click_result(
                old(self).clicks(),
                old(self).connected(),
                old(self).ledger_limit(),
                lichess_id@,
            ),
            final(self).clicks() == if result is Ok {
                clicked(old(self).clicks(), lichess_id@)
            } else {
                old(self).clicks()
            },
            final(self).clicks().no_duplicates(),
    {
        proof {
            use_type_invariant(&*self);
        }
        if !self.connected {
            return Err(StoreError::Unavailable);
        }
        let entry = lichess_id.to_owned();
        if holds(&self.referrals, &entry) {
            return Ok(0);
        }
        if self.referrals.len() >= self.limit {
            return Err(StoreError::Full);
        }
        proof {
            let clicks = texts_of(self.referrals@);
            let next = clicks.push(entry@);
            assert forall|i: int, j: int| 0 <= i < next.len() && 0 <= j < next.len() && i != j implies next[i]
                != next[j] by {
                if i < clicks.len() && j < clicks.len() {
                    assert(next[i] == clicks[i] && next[j] == clicks[j]);
                } else if i < clicks.len() {
                    assert(clicks.contains(clicks[i]));
                } else {
                    assert(clicks.contains(clicks[j]));
                }
            }
        }
        self.referrals = with_entry(&self.referrals, entry);
        Ok(1)
    }

    /// The number of accounts that have followed the referral link.
    pub fn referral_count(&self) -> (result: Result<i64, StoreError>)
        ensures
            self.connected() ==> result == Ok::<i64, StoreError>(self.clicks().len() as i64)
                && self.clicks().len() <= self.ledger_limit() <= REFERRAL_LIMIT,
            !self.connected() ==> result == Err::<i64, StoreError>(StoreError::Unavailable),
    {
        proof {
            use_type_invariant(self);
        }
        if !self.connected {
            return Err(StoreError::Unavailable);
        }
        Ok(self.referrals.len() as i64)
    }
}

/// Whether the ledger holds `entry`.
fn holds(entries: &Vec<String>, entry: &String) -> (found: bool)
    ensures
        found == texts_of(entries@).contains(entry@),
{
    let ghost texts = texts_of(entries@);
    let mut i: usize = 0;
    while i < entries.len()
        invariant
            i <= entries.len(),
            texts == texts_of(entries@),
            forall|k: int| 0 <= k < i ==> texts[k] != entry@,
        decreases entries.len() - i,
    {
        if entries[i] == *entry {
            assert(texts[i as int] == entry@);
            return true;
        }
        i += 1;
    }
    false
}

/// A copy of the ledger with `entry` added at its end.
fn with_entry(entries: &Vec<String>, entry: String) -> (out: Vec<String>)
    ensures
        texts_of(out@) == texts_of(entries@).push(entry@),
{
    let mut out: Vec<String> = Vec::new();
    let mut i: usize = 0;
    while i < entries.len()
        invariant
            i <= entries.len(),
            texts_of(out@) == texts_of(entries@.take(i as int)),
        decreases entries.len() - i,
    {
        let ghost copied = texts_of(out@);
        out.push(entries[i].clone());
        assert(texts_of(out@) =~= copied.push(entries@[i as int]@));
        assert(texts_of(entries@.take(i + 1)) =~= copied.push(entries@[i as int]@));
        i += 1;
    }
    assert(entries@.take(entries.len() as int) =~= entries@);
    let ghost copied = texts_of(out@);
    out.push(entry);
    assert(texts_of(out@) =~= copied.push(entry@));
    out
}

/// The first of the memberships that a query gave, if it gave any.
pub fn extract_one_membership(rows: &Vec<Membership>) -> (first: Option<Membership>)
    ensures
        row_of(first) == first_row(rows_of(rows@)),
{
    if rows.len() > 0 {
        Some(rows[0].clone())
    } else {
        None
    }
}

/// What a referral click returns: an error where the store is cut off or the
/// ledger is full, else the number of entries that it adds.
pub open spec fn click_result(
    clicks: Seq<Seq<char>>,
    connected: bool,
    limit: nat,
    lichess_id: Seq<char>,
) -> Result<u64, StoreError> {
    if !connected {
        Err(StoreError::Unavailable)
    } else if clicks.contains(lichess_id) {
        Ok(0)
    } else if clicks.len() >= limit {
        Err(StoreError::Full)
    } else {
        Ok(1)
    }
}

/// Where every row passes, picking keeps the table as it is.
pub proof fn lemma_filter_all(rows: Seq<MemberRow>, keep: spec_fn(MemberRow) -> bool)
    requires
        forall|i: int| 0 <= i < rows.len() ==> keep(#[trigger] rows[i]),
    ensures
        rows.filter(keep) == rows,
    decreases rows.len(),
{
    reveal(Seq::filter);
    if rows.len() > 0 {
        let init = rows.drop_last();
        assert forall|i: int| 0 <= i < init.len() implies keep(#[trigger] init[i]) by {
            assert(init[i] == rows[i]);
        }
        lemma_filter_all(init, keep);
        assert(rows.filter(keep) =~= rows);
    } else {
        assert(rows.filter(keep) =~= rows);
    }
}

/// In a table with unique links at most one row carries a given
/// organisation id, so deleting by it takes one row or none.
pub proof fn lemma_remove_by_org_id_takes_one(rows: Seq<MemberRow>, org_id: Seq<char>)
    requires
        links_unique(rows),
    ensures
        rows.len() - 1 <= without_org_id(rows, org_id).len() <= rows.len(),
        without_org_id(rows, org_id).len() == rows.len() <==> member_for_org_id(rows, org_id)
            is None,
    decreases rows.len(),
{
    reveal(Seq::filter);
    let others = |r: MemberRow| r.org_id != org_id;
    let same = |r: MemberRow| r.org_id == org_id;
    if rows.len() > 0 {
        let init = rows.drop_last();
        let last = rows.last();
        lemma_shorter_keeps_links_unique(rows);
        lemma_remove_by_org_id_takes_one(init, org_id);
        if last.org_id == org_id {
            assert forall|i: int| 0 <= i < init.len() implies others(#[trigger] init[i]) by {
                assert(init[i] == rows[i]);
                assert(rows[rows.len() - 1] == last);
            }
            lemma_filter_all(init, others);
            assert(rows.filter(same).len() > 0);
        } else {
            assert(rows.filter(same) == init.filter(same));
        }
    } else {
        assert(rows.filter(same).len() == 0);
    }
}

/// In a table with unique links at most one row carries a given Lichess id,
/// so deleting by it takes one row or none.
pub proof fn lemma_remove_by_lichess_id_takes_one(rows: Seq<MemberRow>, lichess_id: Seq<char>)
    requires
        links_unique(rows),
    ensures
        rows.len() - 1 <= without_lichess_id(rows, lichess_id).len() <= rows.len(),
        without_lichess_id(rows, lichess_id).len() == rows.len() <==> member_for_lichess_id(
            rows,
            lichess_id,
        ) is None,
    decreases rows.len(),
{
    reveal(Seq::filter);
    let others = |r: MemberRow| r.lichess_id != lichess_id;
    let same = |r: MemberRow| r.lichess_id == lichess_id;
    if rows.len() > 0 {
        let init = rows.drop_last();
        let last = rows.last();
        lemma_shorter_keeps_links_unique(rows);
        lemma_remove_by_lichess_id_takes_one(init, lichess_id);
        if last.lichess_id == lichess_id {
            assert forall|i: int| 0 <= i < init.len() implies others(#[trigger] init[i]) by {
                assert(init[i] == rows[i]);
                assert(rows[rows.len() - 1] == last);
            }
            lemma_filter_all(init, others);
            assert(rows.filter(same).len() > 0);
        } else {
            assert(rows.filter(same) == init.filter(same));
        }
    } else {
        assert(rows.filter(same).len() == 0);
    }
}

/// Linking two identities in a table with unique links leaves a table with
/// unique links.
pub proof fn lemma_register_keeps_links_unique(
    rows: Seq<MemberRow>,
    org_id: Seq<char>,
    lichess_id: Seq<char>,
    exp_year: int,
)
    requires
        links_unique(rows),
    ensures
        links_unique(registered(rows, org_id, lichess_id, exp_year)),
{
    let keep = |r: MemberRow| !clashes(r, org_id, lichess_id);
    let kept = rows.filter(keep);
    let all = registered(rows, org_id, lichess_id, exp_year);
    lemma_filter_keeps_links_unique(rows, keep);
    assert forall|i: int, j: int| 0 <= i < j < all.len() implies (#[trigger] all[i]).org_id != (
    #[trigger] all[j]).org_id && all[i].lichess_id != all[j].lichess_id by {
        if j < kept.len() {
            assert(all[i] == kept[i] && all[j] == kept[j]);
        } else {
            assert(all[i] == kept[i]);
            assert(keep(kept[i]));
        }
    }
}

/// A condition on rows, as the operations of the store use them.
enum Filter {
    Any,
    Link { org_id: String, lichess_id: String },
    OrgId(String),
    LichessId(String),
    ExpiringBy(i32),
}

impl Filter {
    spec fn admits(self, row: MemberRow) -> bool {
        match self {
            Filter::Any => true,
            Filter::Link { org_id, lichess_id } => clashes(row, org_id@, lichess_id@),
            Filter::OrgId(id) => row.org_id == id@,
            Filter::LichessId(id) => row.lichess_id == id@,
            Filter::ExpiringBy(year) => row.exp_year <= year,
        }
    }

    /// The rows that the filter admits where `wanted` holds, and the others
    /// where it does not.
    spec fn choice(self, wanted: bool) -> spec_fn(MemberRow) -> bool {
        |r: MemberRow| self.admits(r) == wanted
    }

    fn test(&self, member: &Membership) -> (hit: bool)
        ensures
            hit == self.admits(member@),
    {
        match self {
            Filter::Any => true,
            Filter::Link { org_id, lichess_id } => member.org_id == *org_id || member.lichess_id
                == *lichess_id,
            Filter::OrgId(id) => member.org_id == *id,
            Filter::LichessId(id) => member.lichess_id == *id,
            Filter::ExpiringBy(year) => member.exp_year <= *year,
        }
    }
}

/// Copies of the members on which the filter answers `wanted`, in order.
fn pick(members: &Vec<Membership>, filter: &Filter, wanted: bool) -> (out: Vec<Membership>)
    ensures
        rows_of(out@) == rows_of(members@).filter(filter.choice(wanted)),
{
    let mut out: Vec<Membership> = Vec::new();
    let mut i: usize = 0;
    proof {
        reveal(Seq::filter);
        assert(rows_of(members@.take(0)) =~= Seq::<MemberRow>::empty());
        assert(rows_of(out@) =~= Seq::<MemberRow>::empty());
    }
    while i < members.len()
        invariant
            i <= members.len(),
            rows_of(out@) == rows_of(members@.take(i as int)).filter(filter.choice(wanted)),
        decreases members.len() - i,
    {
        let member = &members[i];
        let ghost before = rows_of(members@.take(i as int));
        let ghost kept = rows_of(out@);
        proof {
            assert(rows_of(members@.take(i + 1)) =~= before.push(member@));
            before.lemma_filter_push(member@, filter.choice(wanted));
        }
        if filter.test(member) == wanted {
            out.push(member.clone());
            assert(rows_of(out@) =~= kept.push(member@));
        }
        i += 1;
    }
    assert(members@.take(members.len() as int) =~= members@);
    out
}

/// A table with unique links has unique links without its last row.
pub proof fn lemma_shorter_keeps_links_unique(rows: Seq<MemberRow>)
    requires
        links_unique(rows),
        rows.len() > 0,
    ensures
        links_unique(rows.drop_last()),
{
    let init = rows.drop_last();
    assert forall|i: int, j: int| 0 <= i < j < init.len() implies (#[trigger] init[i]).org_id != (
    #[trigger] init[j]).org_id && init[i].lichess_id != init[j].lichess_id by {
        assert(init[i] == rows[i] && init[j] == rows[j]);
    }
}

/// Rows that are picked from a table with unique links have unique links,
/// and each of them stood in the table.
pub proof fn lemma_filter_keeps_links_unique(rows: Seq<MemberRow>, keep: spec_fn(MemberRow) -> bool)
    requires
        links_unique(rows),
    ensures
        links_unique(rows.filter(keep)),
        forall|k: int|
            0 <= k < rows.filter(keep).len() ==> rows.contains(#[trigger] rows.filter(keep)[k])
                && keep(rows.filter(keep)[k]),
    decreases rows.len(),
{
    reveal(Seq::filter);
    if rows.len() > 0 {
        let init = rows.drop_last();
        let last = rows.last();
        lemma_shorter_keeps_links_unique(rows);
        lemma_filter_keeps_links_unique(init, keep);
        let picked = init.filter(keep);
        assert forall|k: int| 0 <= k < picked.len() implies rows.contains(#[trigger] picked[k]) by {
            let at = choose|at: int| 0 <= at < init.len() && init[at] == picked[k];
            assert(rows[at] == picked[k]);
        }
        if keep(last) {
            let all = picked.push(last);
            assert(rows.filter(keep) == all);
            assert(rows[rows.len() - 1] == last);
            assert forall|i: int, j: int| 0 <= i < j < all.len() implies (#[trigger] all[i]).org_id
                != (#[trigger] all[j]).org_id && all[i].lichess_id != all[j].lichess_id by {
                if j < picked.len() {
                    assert(all[i] == picked[i] && all[j] == picked[j]);
                } else {
                    let at = choose|at: int| 0 <= at < init.len() && init[at] == picked[i];
                    assert(rows[at] == all[i]);
                    assert(rows[rows.len() - 1] == all[j]);
                }
            }
            assert forall|k: int| 0 <= k < all.len() implies rows.contains(#[trigger] all[k])
                && keep(all[k]) by {
                if k < picked.len() {
                    assert(all[k] == picked[k]);
                }
            }
        }
    }
}

/// Where no row passes, picking leaves nothing.
pub proof fn lemma_filter_none(rows: Seq<MemberRow>, keep: spec_fn(MemberRow) -> bool)
    requires
        forall|i: int| 0 <= i < rows.len() ==> !keep(#[trigger] rows[i]),
    ensures
        rows.filter(keep) == Seq::<MemberRow>::empty(),
{
    let picked = rows.filter(keep);
    if picked.len() > 0 {
        rows.lemma_filter_pred(keep, 0);
        assert(picked.contains(picked[0]));
        rows.lemma_filter_contains_rev(keep, picked[0]);
        let at = choose|at: int| 0 <= at < rows.len() && rows[at] == picked[0];
        assert(!keep(rows[at]));
    }
    assert(picked =~= Seq::<MemberRow>::empty());
}

/// The table after each link of `links` has been registered in turn.
pub open spec fn registered_all(rows: Seq<MemberRow>, links: Seq<MemberRow>) -> Seq<MemberRow>
    decreases links.len(),
{
    if links.len() == 0 {
        rows
    } else {
        registered(
            registered_all(rows, links.drop_last()),
            links.last().org_id,
            links.last().lichess_id,
            links.last().exp_year,
        )
    }
}

/// Whatever links are registered, in whatever order, on an empty table or on
/// one that has unique links: no two rows of the result share an
/// organisation id, and no two share a Lichess id.
pub proof fn lemma_registrations_keep_links_unique(rows: Seq<MemberRow>, links: Seq<MemberRow>)
    requires
        links_unique(rows),
    ensures
        links_unique(registered_all(rows, links)),
        links_unique(registered_all(Seq::<MemberRow>::empty(), links)),
    decreases links.len(),
{
    if links.len() > 0 {
        let last = links.last();
        lemma_registrations_keep_links_unique(rows, links.drop_last());
        lemma_register_keeps_links_unique(
            registered_all(rows, links.drop_last()),
            last.org_id,
            last.lichess_id,
            last.exp_year,
        );
        lemma_register_keeps_links_unique(
            registered_all(Seq::<MemberRow>::empty(), links.drop_last()),
            last.org_id,
            last.lichess_id,
            last.exp_year,
        );
    }
}

/// Deleting a membership a second time deletes nothing: the first deletion
/// takes one row if the organisation id was linked and none if it was not,
/// the second takes none and leaves the table as the first left it.
pub proof fn lemma_remove_is_idempotent(rows: Seq<MemberRow>, org_id: Seq<char>)
    requires
        links_unique(rows),
    ensures
        member_for_org_id(rows, org_id) is Some ==> rows.len() - without_org_id(rows, org_id).len()
            == 1,
        member_for_org_id(rows, org_id) is None ==> rows.len() - without_org_id(rows, org_id).len()
            == 0,
        without_org_id(without_org_id(rows, org_id), org_id) == without_org_id(rows, org_id),
        without_org_id(rows, org_id).len() - without_org_id(
            without_org_id(rows, org_id),
            org_id,
        ).len() == 0,
{
    let others = |r: MemberRow| r.org_id != org_id;
    let once = rows.filter(others);
    lemma_remove_by_org_id_takes_one(rows, org_id);
    assert forall|i: int| 0 <= i < once.len() implies others(#[trigger] once[i]) by {
        rows.lemma_filter_pred(others, i);
    }
    lemma_filter_all(once, others);
}

/// A membership that has just been registered is found under its
/// organisation id and under its Lichess id, as it was registered.
pub proof fn lemma_register_then_get(
    rows: Seq<MemberRow>,
    org_id: Seq<char>,
    lichess_id: Seq<char>,
    exp_year: int,
)
    ensures
        member_for_org_id(registered(rows, org_id, lichess_id, exp_year), org_id) == Some(
            MemberRow { org_id, lichess_id, exp_year },
        ),
        member_for_lichess_id(registered(rows, org_id, lichess_id, exp_year), lichess_id) == Some(
            MemberRow { org_id, lichess_id, exp_year },
        ),
{
    let keep = |r: MemberRow| !clashes(r, org_id, lichess_id);
    let kept = rows.filter(keep);
    let row = MemberRow { org_id, lichess_id, exp_year };
    let by_org = |r: MemberRow| r.org_id == org_id;
    let by_lichess = |r: MemberRow| r.lichess_id == lichess_id;
    assert forall|i: int| 0 <= i < kept.len() implies !by_org(#[trigger] kept[i]) && !by_lichess(
        kept[i],
    ) by {
        rows.lemma_filter_pred(keep, i);
    }
    lemma_filter_none(kept, by_org);
    lemma_filter_none(kept, by_lichess);
    kept.lemma_filter_push(row, by_org);
    kept.lemma_filter_push(row, by_lichess);
    assert(kept.push(row).filter(by_org) =~= seq![row]);
    assert(kept.push(row).filter(by_lichess) =~= seq![row]);
}

/// Linking an organisation id a second time, to another account, replaces
/// the first link: on a table that was empty exactly one row is left, the
/// second link.
pub proof fn lemma_relink_overwrites(
    org_id: Seq<char>,
    first_lichess_id: Seq<char>,
    first_year: int,
    second_lichess_id: Seq<char>,
    second_year: int,
)
    ensures
        registered(
            registered(Seq::<MemberRow>::empty(), org_id, first_lichess_id, first_year),
            org_id,
            second_lichess_id,
            second_year,
        ) == seq![MemberRow { org_id, lichess_id: second_lichess_id, exp_year: second_year }],
{
    let none = Seq::<MemberRow>::empty();
    let first = MemberRow { org_id, lichess_id: first_lichess_id, exp_year: first_year };
    let second = MemberRow { org_id, lichess_id: second_lichess_id, exp_year: second_year };
    let keep_first = |r: MemberRow| !clashes(r, org_id, first_lichess_id);
    let keep_second = |r: MemberRow| !clashes(r, org_id, second_lichess_id);
    lemma_filter_none(none, keep_first);
    let once = registered(none, org_id, first_lichess_id, first_year);
    assert(once =~= seq![first]);
    assert forall|i: int| 0 <= i < once.len() implies !keep_second(#[trigger] once[i]) by {}
    lemma_filter_none(once, keep_second);
    assert(registered(once, org_id, second_lichess_id, second_year) =~= seq![second]);
}

/// In a table with unique links a lookup by organisation id gives the one
/// row that carries the id, and nothing where no row does.
pub proof fn lemma_lookup_finds_the_row(rows: Seq<MemberRow>, org_id: Seq<char>)
    requires
        links_unique(rows),
    ensures
        forall|i: int|
            0 <= i < rows.len() && (#[trigger] rows[i]).org_id == org_id ==> member_for_org_id(
                rows,
                org_id,
            ) == Some(rows[i]),
        member_for_org_id(rows, org_id) is None <==> forall|i: int|
            0 <= i < rows.len() ==> (#[trigger] rows[i]).org_id != org_id,
        member_for_org_id(rows, org_id) matches Some(row) ==> rows.contains(row) && row.org_id
            == org_id,
{
    let same = |r: MemberRow| r.org_id == org_id;
    let hits = rows.filter(same);
    if hits.len() > 0 {
        rows.lemma_filter_pred(same, 0);
        assert(hits.contains(hits[0]));
        rows.lemma_filter_contains_rev(same, hits[0]);
        let at = choose|at: int| 0 <= at < rows.len() && rows[at] == hits[0];
        assert forall|i: int| 0 <= i < rows.len() && (#[trigger] rows[i]).org_id
            == org_id implies rows[i] == hits[0] by {
            if i < at {
                assert(rows[i].org_id != rows[at].org_id);
            } else if at < i {
                assert(rows[at].org_id != rows[i].org_id);
            }
        }
        assert(rows[at].org_id == org_id);
    } else {
        assert forall|i: int| 0 <= i < rows.len() implies (#[trigger] rows[i]).org_id != org_id by {
            if rows[i].org_id == org_id {
                rows.lemma_filter_contains(same, i);
            }
        }
    }
}

/// A membership that has lapsed by one year and stays in the table has
/// lapsed by every later year: a member whom a round of the watch leaves in
/// the store is listed again by the next.
pub proof fn lemma_lapsed_stays_lapsed(rows: Seq<MemberRow>, row: MemberRow, year: int, later: int)
    requires
        year <= later,
        expiring_by(rows, year).contains(row),
    ensures
        expiring_by(rows, later).contains(row),
{
    let by_year = |r: MemberRow| r.exp_year <= year;
    let by_later = |r: MemberRow| r.exp_year <= later;
    let at = choose|at: int| 0 <= at < rows.filter(by_year).len() && rows.filter(by_year)[at] == row;
    rows.lemma_filter_pred(by_year, at);
    rows.lemma_filter_contains_rev(by_year, row);
    let place = choose|place: int| 0 <= place < rows.len() && rows[place] == row;
    rows.lemma_filter_contains(by_later, place);
}

} // verus!
