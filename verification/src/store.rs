//! Refresh tokens: the long-lived half of a session. A refresh token is an
//! opaque string kept by the store with its owner and its expiry, and
//! redeemed for a new access token.

use crate::error::DatabaseFailure;
use crate::gate::{AuthUser, IdentityView};
use vstd::prelude::*;

verus! {

/// What redeeming a refresh token does to it.
///
/// `Static` leaves the token in the store: it can be redeemed again and
/// again until it expires. `Rotating` retires the token in the very step
/// that redeems it and puts a successor in its place, so that a captured
/// token can be replayed at most once.
#[derive(Debug, Clone, Copy, PartialEq, Eq)]
pub enum RotationPolicy {
    Static,
    Rotating,
}

/// A refresh token as the store hands it out: the token's text, its owner
/// (identifier and name) and the second at which it expires.
#[derive(Debug, Clone, PartialEq, Eq)]
pub struct RefreshToken {
    pub token: String,
    pub user_id: i32,
    pub username: String,
    pub expires_at: i64,
}

/// A refresh token as mathematical values.
pub struct RefreshTokenView {
    pub token: Seq<char>,
    pub user_id: int,
    pub username: Seq<char>,
    pub expires_at: int,
}

impl View for RefreshToken {
    type V = RefreshTokenView;

    open spec fn view(&self) -> RefreshTokenView {
        RefreshTokenView {
            token: self.token@,
            user_id: self.user_id as int,
            username: self.username@,
            expires_at: self.expires_at as int,
        }
    }
}

impl RefreshTokenView {
    /// The owner of the token.
    pub open spec fn owner(self) -> IdentityView {
        IdentityView { id: self.user_id, username: self.username }
    }
}

/// Why a refresh token was not redeemed.
#[derive(Debug, Clone, Copy, PartialEq, Eq)]
pub enum RedeemError {
    /// The store holds no such token.
    NotFound,
    /// The token's lifetime is over.
    Expired,
    /// Under rotation, the lifetime asked for the successor gives no
    /// expiry: it is zero, or the expiry is past the last second that the
    /// store can hold.
    InvalidLifetime,
    /// Under rotation, the successor offered is already a token of the
    /// store.
    Conflict,
}

/// What the store has to do when a token is redeemed.
#[derive(Debug, Clone, PartialEq, Eq)]
pub enum StoreAction {
    /// Nothing: the token stays as it is.
    Keep,
    /// In one atomic step, delete the retired token and insert its
    /// successor.
    Replace { retired: String, successor: RefreshToken },
}

/// A successful redemption: the owner of the token, the refresh token to
/// present next time, and what the store has to do.
#[derive(Debug, Clone, PartialEq, Eq)]
pub struct Redemption {
    pub user: AuthUser,
    pub refresh_token: String,
    pub action: StoreAction,
}

/// The rule of redemption for the row that the store found for a token, at
/// the second `now`: no row is `NotFound`, a row that expires at or before
/// `now` is `Expired`, and any other row gives its owner.
pub open spec fn redeem_outcome(row: Option<RefreshTokenView>, now: int) -> Result<IdentityView, RedeemError> {
    match row {
        None => Err(RedeemError::NotFound),
        Some(row) => if row.expires_at <= now {
            Err(RedeemError::Expired)
        } else {
            Ok(row.owner())
        },
    }
}

/// The view of a row that may be absent.
pub open spec fn row_view(row: Option<&RefreshToken>) -> Option<RefreshTokenView> {
    match row {
        Some(row) => Some(row@),
        None => None,
    }
}

/// Decides whether the row found for a token redeems at the second `now`.
pub fn redeem_row(row: Option<&RefreshToken>, now: i64) -> (owner: Result<AuthUser, RedeemError>)
    ensures
        match redeem_outcome(row_view(row), now as int) {
            Ok(identity) => owner matches Ok(user) && user@ == identity,
            Err(error) => owner == Err::<AuthUser, RedeemError>(error),
        },
{
    match row {
        None => Err(RedeemError::NotFound),
        Some(row) => {
            if row.expires_at <= now {
                Err(RedeemError::Expired)
            } else {
                Ok(AuthUser { id: row.user_id, username: row.username.clone() })
            }
        },
    }
}

/// The expiry of a refresh token created at `now` for `ttl` seconds:
/// strictly after `now`, and a second that the store can hold.
pub open spec fn session_expiry(now: int, ttl: int) -> Option<int> {
    if 0 < ttl && now + ttl <= i64::MAX {
        Some(now + ttl)
    } else {
        None
    }
}

/// Computes the expiry of a refresh token created at `now`.
pub fn session_expiry_after(now: i64, ttl_secs: u64) -> (expires_at: Option<i64>)
    ensures
        match expires_at {
            Some(at) => session_expiry(now as int, ttl_secs as int) == Some(at as int),
            None => session_expiry(now as int, ttl_secs as int) is None,
        },
{
    let at: i128 = now as i128 + ttl_secs as i128;
    if ttl_secs == 0 || at > i64::MAX as i128 {
        None
    } else {
        Some(at as i64)
    }
}

/// What takes the place of a token redeemed at `now`: nothing under
/// `Static`; under `Rotating` a successor that lives `ttl` seconds from
/// `now`, and `InvalidLifetime` where that gives no expiry.
pub open spec fn succession(policy: RotationPolicy, now: int, ttl: int) -> Result<Option<int>, RedeemError> {
    match policy {
        RotationPolicy::Static => Ok(None),
        RotationPolicy::Rotating => match session_expiry(now, ttl) {
            Some(expires_at) => Ok(Some(expires_at)),
            None => Err(RedeemError::InvalidLifetime),
        },
    }
}

/// `plan` is the redemption of a row: the row's owner; without a
/// succession the same token again and nothing for the store to do; with
/// one the successor, bound to the same owner and expiring at the given
/// second, in place of the redeemed token.
pub open spec fn plans(plan: Redemption, row: RefreshTokenView, successor: Seq<char>, next: Option<int>) -> bool {
    &&& plan.user@ == row.owner()
    &&& match next {
        None => plan.refresh_token@ == row.token && plan.action == StoreAction::Keep,
        Some(expires_at) => {
            &&& plan.refresh_token@ == successor
            &&& plan.action matches StoreAction::Replace { retired, successor: next }
            &&& retired@ == row.token
            &&& next@ == RefreshTokenView {
                token: successor,
                user_id: row.user_id,
                username: row.username,
                expires_at,
            }
        },
    }
}

/// `planned` is what planning answers for a row at the second `now`: the
/// rule's refusal for the row; else the refusal of the succession; else
/// the redemption.
pub open spec fn plans_for(
    planned: Result<Redemption, RedeemError>,
    row: Option<RefreshTokenView>,
    now: int,
    policy: RotationPolicy,
    successor: Seq<char>,
    successor_ttl: int,
) -> bool {
    match redeem_outcome(row, now) {
        Err(error) => planned == Err::<Redemption, RedeemError>(error),
        Ok(_) => match succession(policy, now, successor_ttl) {
            Err(error) => planned == Err::<Redemption, RedeemError>(error),
            Ok(next) => planned matches Ok(plan) && row matches Some(row) && plans(
                plan,
                row,
                successor,
                next,
            ),
        },
    }
}

/// Plans the redemption of the row found for a token: whether it redeems
/// at the second `now`, and what the store has to do under the policy. A
/// successor lives `successor_ttl_secs` seconds from `now`.
pub fn plan_redeem(
    row: Option<&RefreshToken>,
    now: i64,
    policy: RotationPolicy,
    successor: String,
    successor_ttl_secs: u64,
) -> (planned: Result<Redemption, RedeemError>)
    ensures
        plans_for(planned, row_view(row), now as int, policy, successor@, successor_ttl_secs as int),
{
    let user = match redeem_row(row, now) {
        Ok(user) => user,
        Err(error) => {
            return Err(error);
        },
    };
    let row = row.unwrap();
    match policy {
        RotationPolicy::Static => Ok(
            Redemption { user, refresh_token: row.token.clone(), action: StoreAction::Keep },
        ),
        RotationPolicy::Rotating => {
            let expires_at = match session_expiry_after(now, successor_ttl_secs) {
                Some(expires_at) => expires_at,
                None => {
                    return Err(RedeemError::InvalidLifetime);
                },
            };
            let next = RefreshToken {
                token: successor.clone(),
                user_id: row.user_id,
                username: row.username.clone(),
                expires_at,
            };
            Ok(
                Redemption {
                    user,
                    refresh_token: successor,
                    action: StoreAction::Replace { retired: row.token.clone(), successor: next },
                },
            )
        },
    }
}

/// The row that a table of tokens holds for a token's text.
pub open spec fn found(table: Map<Seq<char>, RefreshTokenView>, token: Seq<char>) -> Option<RefreshTokenView> {
    if table.contains_key(token) {
        Some(table[token])
    } else {
        None
    }
}

/// Every row of the table stands under its own token's text.
pub open spec fn is_keyed(table: Map<Seq<char>, RefreshTokenView>) -> bool {
    forall|token: Seq<char>| table.contains_key(token) ==> (#[trigger] table[token]).token == token
}

/// The rule of redemption against a table of tokens: the rule for the row
/// found, then the succession; and a successor that the table already
/// holds is a `Conflict`.
pub open spec fn redeem_verdict(
    table: Map<Seq<char>, RefreshTokenView>,
    policy: RotationPolicy,
    token: Seq<char>,
    now: int,
    successor: Seq<char>,
    successor_ttl: int,
) -> Result<IdentityView, RedeemError> {
    match redeem_outcome(found(table, token), now) {
        Err(error) => Err(error),
        Ok(owner) => match succession(policy, now, successor_ttl) {
            Err(error) => Err(error),
            Ok(None) => Ok(owner),
            Ok(Some(_)) => if table.contains_key(successor) {
                Err(RedeemError::Conflict)
            } else {
                Ok(owner)
            },
        },
    }
}

/// The table after a successful redemption at `now`: unchanged under
/// `Static`; under `Rotating` without the redeemed token and with its
/// successor, bound to the same owner and living `successor_ttl` seconds.
pub open spec fn redeemed_table(
    table: Map<Seq<char>, RefreshTokenView>,
    policy: RotationPolicy,
    token: Seq<char>,
    now: int,
    successor: Seq<char>,
    successor_ttl: int,
) -> Map<Seq<char>, RefreshTokenView> {
    match policy {
        RotationPolicy::Static => table,
        RotationPolicy::Rotating => table.remove(token).insert(
            successor,
            RefreshTokenView {
                token: successor,
                user_id: table[token].user_id,
                username: table[token].username,
                expires_at: now + successor_ttl,
            },
        ),
    }
}

/// Some row carries this token.
spec fn holds(rows: Seq<RefreshToken>, token: Seq<char>) -> bool {
    exists|i: int| 0 <= i < rows.len() && (#[trigger] rows[i]).token@ == token
}

/// The place of a row that carries this token.
spec fn place(rows: Seq<RefreshToken>, token: Seq<char>) -> int {
    choose|i: int| 0 <= i < rows.len() && (#[trigger] rows[i]).token@ == token
}

/// No two rows carry the same token.
spec fn distinct(rows: Seq<RefreshToken>) -> bool {
    forall|i: int, j: int|
        0 <= i < j < rows.len() ==> (#[trigger] rows[i]).token@ != (#[trigger] rows[j]).token@
}

/// The rows as a map from each token's text to its row.
spec fn rows_map(rows: Seq<RefreshToken>) -> Map<Seq<char>, RefreshTokenView> {
    Map::new(|token: Seq<char>| holds(rows, token), |token: Seq<char>| rows[place(rows, token)]@)
}

/// Among distinct rows, the map gives each row under its own token.
proof fn lemma_row_in_map(rows: Seq<RefreshToken>, i: int)
    requires
        distinct(rows),
        0 <= i < rows.len(),
    ensures
        rows_map(rows).contains_key(rows[i].token@),
        rows_map(rows)[rows[i].token@] == rows[i]@,
        place(rows, rows[i].token@) == i,
{
    let token = rows[i].token@;
    assert(holds(rows, token));
    let at = place(rows, token);
    assert(0 <= at < rows.len() && rows[at].token@ == token);
    if at < i {
        assert(rows[at].token@ != rows[i].token@);
    }
    if i < at {
        assert(rows[i].token@ != rows[at].token@);
    }
}

/// Appending a row with a new token inserts it into the map.
proof fn lemma_push_row(rows: Seq<RefreshToken>, row: RefreshToken)
    requires
        distinct(rows),
        !holds(rows, row.token@),
    ensures
        distinct(rows.push(row)),
        rows_map(rows.push(row)) == rows_map(rows).insert(row.token@, row@),
{
    let after = rows.push(row);
    assert forall|i: int, j: int| 0 <= i < j < after.len() implies (#[trigger] after[i]).token@ != (
    #[trigger] after[j]).token@ by {
        if j < rows.len() {
            assert(after[i] == rows[i] && after[j] == rows[j]);
        } else {
            assert(after[i] == rows[i]);
            assert(after[j] == row);
        }
    }
    let left = rows_map(after);
    let right = rows_map(rows).insert(row.token@, row@);
    assert forall|token: Seq<char>| left.contains_key(token) <==> right.contains_key(token) by {
        if holds(after, token) {
            let i = place(after, token);
            if i < rows.len() {
                assert(rows[i] == after[i]);
            }
        }
        if holds(rows, token) {
            let i = place(rows, token);
            assert(after[i] == rows[i]);
        }
        if token == row.token@ {
            assert(after[rows.len() as int] == row);
        }
    }
    assert forall|token: Seq<char>| left.contains_key(token) implies left[token] == right[token] by {
        let i = place(after, token);
        lemma_row_in_map(after, i);
        if i < rows.len() {
            assert(after[i] == rows[i]);
            lemma_row_in_map(rows, i);
        } else {
            assert(after[i] == row);
        }
    }
    assert(left =~= right);
}

/// Deleting a row removes its token from the map.
proof fn lemma_remove_row(rows: Seq<RefreshToken>, at: int)
    requires
        distinct(rows),
        0 <= at < rows.len(),
    ensures
        distinct(rows.remove(at)),
        rows_map(rows.remove(at)) == rows_map(rows).remove(rows[at].token@),
{
    let after = rows.remove(at);
    assert forall|i: int| 0 <= i < after.len() implies #[trigger] after[i] == rows[if i < at {
        i
    } else {
        i + 1
    }] by {}
    assert forall|i: int, j: int| 0 <= i < j < after.len() implies (#[trigger] after[i]).token@ != (
    #[trigger] after[j]).token@ by {
        let old_i = if i < at { i } else { i + 1 };
        let old_j = if j < at { j } else { j + 1 };
        assert(after[i] == rows[old_i] && after[j] == rows[old_j]);
        assert(rows[old_i].token@ != rows[old_j].token@);
    }
    let left = rows_map(after);
    let right = rows_map(rows).remove(rows[at].token@);
    assert forall|token: Seq<char>| left.contains_key(token) <==> right.contains_key(token) by {
        if holds(after, token) {
            let i = place(after, token);
            let old_i = if i < at { i } else { i + 1 };
            assert(after[i] == rows[old_i]);
            lemma_row_in_map(rows, old_i);
            lemma_row_in_map(rows, at);
        }
        if holds(rows, token) && token != rows[at].token@ {
            let i = place(rows, token);
            let new_i = if i < at { i } else { i - 1 };
            assert(after[new_i] == rows[i]);
        }
    }
    assert forall|token: Seq<char>| left.contains_key(token) implies left[token] == right[token] by {
        let i = place(after, token);
        lemma_row_in_map(after, i);
        let old_i = if i < at { i } else { i + 1 };
        assert(after[i] == rows[old_i]);
        lemma_row_in_map(rows, old_i);
    }
    assert(left =~= right);
}

/// A refresh-token store held in memory: the reference for what any store
/// of refresh tokens does. Each token's text occurs once.
pub struct RefreshTokenStore {
    rows: Vec<RefreshToken>,
    policy: RotationPolicy,
}

impl View for RefreshTokenStore {
    type V = Map<Seq<char>, RefreshTokenView>;

    /// The tokens of the store, each with its row.
    closed spec fn view(&self) -> Map<Seq<char>, RefreshTokenView> {
        rows_map(self.rows@)
    }
}

/// In every store each row stands under its own token's text: the row
/// found for a token carries that token.
pub proof fn lemma_store_is_keyed(store: RefreshTokenStore)
    ensures
        is_keyed(store@),
{
    assert forall|token: Seq<char>| store@.contains_key(token) implies (#[trigger] store@[token]).token
        == token by {
        assert(holds(store.rows@, token));
    }
}

impl RefreshTokenStore {
    #[verifier::type_invariant]
    spec fn well_formed(self) -> bool {
        distinct(self.rows@)
    }

    /// The rotation policy that the store was made with.
    pub closed spec fn rotation(&self) -> RotationPolicy {
        self.policy
    }

    /// An empty store with the chosen rotation policy.
    pub fn new(policy: RotationPolicy) -> (store: RefreshTokenStore)
        ensures
            store@ == Map::<Seq<char>, RefreshTokenView>::empty(),
            store.rotation() == policy,
    {
        let store = RefreshTokenStore { rows: Vec::new(), policy };
        assert(store@ =~= Map::<Seq<char>, RefreshTokenView>::empty());
        store
    }

    /// The store's rotation policy.
    pub fn policy(&self) -> (policy: RotationPolicy)
        ensures
            policy == self.rotation(),
    {
        self.policy
    }

    /// The place of the row that carries this token.
    fn find(&self, token: &String) -> (at: Option<usize>)
        ensures
            match at {
                Some(at) => at < self.rows.len() && self.rows[at as int].token@ == token@,
                None => !holds(self.rows@, token@),
            },
    {
        let mut i: usize = 0;
        while i < self.rows.len()
            invariant
                i <= self.rows.len(),
                forall|k: int| 0 <= k < i ==> (#[trigger] self.rows[k]).token@ != token@,
            decreases self.rows.len() - i,
        {
            if self.rows[i].token == *token {
                return Some(i);
            }
            i += 1;
        }
        None
    }

    /// Looks a token up.
    pub fn lookup(&self, token: &str) -> (found: Option<&RefreshToken>)
        ensures
            row_view(found) == self::found(self@, token@),
            found matches Some(row) ==> row.token@ == token@,
            is_keyed(self@),
    {
        proof {
            use_type_invariant(self);
            lemma_store_is_keyed(*self);
        }
        match self.find(&token.to_owned()) {
            Some(at) => {
                proof {
                    lemma_row_in_map(self.rows@, at as int);
                }
                Some(&self.rows[at])
            },
            None => None,
        }
    }

    /// Inserts a new token. A token whose text the store already holds is
    /// refused as a uniqueness violation and the store stays as it was;
    /// otherwise the token is added and every other token, of this owner
    /// or another, stays as it was.
    pub fn persist(&mut self, row: RefreshToken) -> (inserted: Result<(), DatabaseFailure>)
        ensures
            final(self).rotation() == old(self).rotation(),
            is_keyed(final(self)@),
            match inserted {
                Ok(_) => !old(self)@.contains_key(row.token@) && final(self)@ == old(self)@.insert(
                    row.token@,
                    row@,
                ),
                Err(failure) => failure == DatabaseFailure::UniqueViolation && old(self)@.contains_key(
                    row.token@,
                ) && final(self)@ == old(self)@,
            },
    {
        proof {
            use_type_invariant(&*self);
        }
        match self.find(&row.token) {
            Some(at) => {
                proof {
                    lemma_row_in_map(self.rows@, at as int);
                    lemma_store_is_keyed(*self);
                }
                Err(DatabaseFailure::UniqueViolation)
            },
            None => {
                let mut rows: Vec<RefreshToken> = Vec::new();
                std::mem::swap(&mut self.rows, &mut rows);
                proof {
                    lemma_push_row(rows@, row);
                }
                rows.push(row);
                self.rows = rows;
                proof {
                    lemma_store_is_keyed(*self);
                }
                Ok(())
            },
        }
    }
}

impl RefreshTokenStore {
    /// Redeems a token at the second `now`. An unknown token is
    /// `NotFound` and an expired one `Expired`; on every refusal the store
    /// stays as it was. A valid token gives its owner. Under `Static` the
    /// store stays as it was and the same token is handed back; under
    /// `Rotating` the token leaves the store in the same step, and the
    /// successor, which lives `successor_ttl_secs` seconds from `now`,
    /// takes its place and is handed back.
    pub fn redeem_at(&mut self, token: &str, now: i64, successor: String, successor_ttl_secs: u64) -> (redeemed:
        Result<Redemption, RedeemError>)
        ensures
            final(self).rotation() == old(self).rotation(),
            is_keyed(old(self)@),
            is_keyed(final(self)@),
            redeemed matches Ok(plan) ==> match old(self).rotation() {
                RotationPolicy::Static => plan.refresh_token@ == token@,
                RotationPolicy::Rotating => plan.refresh_token@ == successor@ && successor@ != token@,
            },
            match redeem_verdict(
                old(self)@,
                old(self).rotation(),
                token@,
                now as int,
                successor@,
                successor_ttl_secs as int,
            ) {
                Ok(_) => {
                    &&& plans_for(
                        redeemed,
                        found(old(self)@, token@),
                        now as int,
                        old(self).rotation(),
                        successor@,
                        successor_ttl_secs as int,
                    )
                    &&& redeemed is Ok
                    &&& final(self)@ == redeemed_table(
                        old(self)@,
                        old(self).rotation(),
                        token@,
                        now as int,
                        successor@,
                        successor_ttl_secs as int,
                    )
                },
                Err(error) => redeemed == Err::<Redemption, RedeemError>(error) && final(self)@ == old(
                    self,
                )@,
            },
    {
        proof {
            use_type_invariant(&*self);
        }
        let at = match self.find(&token.to_owned()) {
            Some(at) => at,
            None => {
                return Err(RedeemError::NotFound);
            },
        };
        proof {
            lemma_row_in_map(self.rows@, at as int);
        }
        let plan = match plan_redeem(Some(&self.rows[at]), now, self.policy, successor, successor_ttl_secs) {
            Ok(plan) => plan,
            Err(error) => {
                return Err(error);
            },
        };
        match &plan.action {
            StoreAction::Keep => {},
            StoreAction::Replace { retired, successor: next } => {
                if let Some(taken) = self.find(&next.token) {
                    proof {
                        lemma_row_in_map(self.rows@, taken as int);
                    }
                    return Err(RedeemError::Conflict);
                }
                let next = next.clone_row();
                let mut rows: Vec<RefreshToken> = Vec::new();
                std::mem::swap(&mut self.rows, &mut rows);
                proof {
                    lemma_remove_row(rows@, at as int);
                    let rest = rows@.remove(at as int);
                    assert(!holds(rest, next.token@)) by {
                        if holds(rest, next.token@) {
                            let i = place(rest, next.token@);
                            let old_i = if i < at { i } else { i + 1 };
                            assert(rest[i] == rows@[old_i]);
                        }
                    }
                    lemma_push_row(rest, next);
                }
                rows.remove(at);
                rows.push(next);
                self.rows = rows;
            },
        }
        Ok(plan)
    }
}

impl RefreshToken {
    /// A copy of the row.
    pub fn clone_row(&self) -> (copy: RefreshToken)
        ensures
            copy@ == self@,
    {
        RefreshToken {
            token: self.token.clone(),
            user_id: self.user_id,
            username: self.username.clone(),
            expires_at: self.expires_at,
        }
    }
}

/// Redemption goes by the row found: an unknown token is `NotFound`, a
/// token that expires at or before `now` is `Expired`, and a valid token
/// gives its owner (under rotation, given a successor that is new to the
/// table and a lifetime that gives an expiry).
pub proof fn lemma_redeem_cases(
    table: Map<Seq<char>, RefreshTokenView>,
    policy: RotationPolicy,
    token: Seq<char>,
    now: int,
    successor: Seq<char>,
    successor_ttl: int,
)
    ensures
        !table.contains_key(token) ==> redeem_verdict(
            table,
            policy,
            token,
            now,
            successor,
            successor_ttl,
        ) == Err::<IdentityView, RedeemError>(RedeemError::NotFound),
        table.contains_key(token) && table[token].expires_at <= now ==> redeem_verdict(
            table,
            policy,
            token,
            now,
            successor,
            successor_ttl,
        ) == Err::<IdentityView, RedeemError>(RedeemError::Expired),
        table.contains_key(token) && table[token].expires_at > now && !table.contains_key(successor)
            && session_expiry(now, successor_ttl) is Some ==> redeem_verdict(
            table,
            policy,
            token,
            now,
            successor,
            successor_ttl,
        ) == Ok::<IdentityView, RedeemError>(table[token].owner()),
{
}

/// Under rotation a token redeems once: after a successful redemption the
/// same token is `NotFound`, at any second and whatever successor is
/// offered, while the successor, which is another text than the token, is
/// in the table for the same owner, with an expiry strictly after the
/// second of redemption.
pub proof fn lemma_rotating_redeems_once(
    table: Map<Seq<char>, RefreshTokenView>,
    token: Seq<char>,
    now: int,
    successor: Seq<char>,
    successor_ttl: int,
    later: int,
    next_successor: Seq<char>,
    next_ttl: int,
)
    requires
        redeem_verdict(table, RotationPolicy::Rotating, token, now, successor, successor_ttl) is Ok,
    ensures
        redeem_verdict(
            redeemed_table(table, RotationPolicy::Rotating, token, now, successor, successor_ttl),
            RotationPolicy::Rotating,
            token,
            later,
            next_successor,
            next_ttl,
        ) == Err::<IdentityView, RedeemError>(RedeemError::NotFound),
        found(
            redeemed_table(table, RotationPolicy::Rotating, token, now, successor, successor_ttl),
            successor,
        ) matches Some(row) && row.owner() == table[token].owner() && row.expires_at > now,
        successor != token,
        !redeemed_table(table, RotationPolicy::Rotating, token, now, successor, successor_ttl).contains_key(
            token,
        ),
{
}

/// Under the static policy a token redeems again and again: a successful
/// redemption leaves the table as it was, so a second redemption at the
/// same second gives the same owner.
pub proof fn lemma_static_redeems_again(
    table: Map<Seq<char>, RefreshTokenView>,
    token: Seq<char>,
    now: int,
    successor: Seq<char>,
    successor_ttl: int,
    next_successor: Seq<char>,
    next_ttl: int,
)
    requires
        redeem_verdict(table, RotationPolicy::Static, token, now, successor, successor_ttl) is Ok,
    ensures
        redeemed_table(table, RotationPolicy::Static, token, now, successor, successor_ttl) == table,
        redeem_verdict(
            redeemed_table(table, RotationPolicy::Static, token, now, successor, successor_ttl),
            RotationPolicy::Static,
            token,
            now,
            next_successor,
            next_ttl,
        ) == redeem_verdict(table, RotationPolicy::Static, token, now, successor, successor_ttl),
{
}

/// Persisting a token invalidates no other: every other token, of the
/// same owner or another, is found as before.
pub proof fn lemma_persist_keeps_other_tokens(
    table: Map<Seq<char>, RefreshTokenView>,
    row: RefreshTokenView,
    other: Seq<char>,
)
    requires
        other != row.token,
    ensures
        found(table.insert(row.token, row), other) == found(table, other),
        found(table.insert(row.token, row), row.token) == Some(row),
{
}

} // verus!
