//! The account-link repository: four entity tables written together in one
//! atomic, idempotent transaction.
//!
//! Each table is a sequence of rows with pairwise distinct keys, observed
//! through its map view (key to row). `link_accounts` upserts all four rows
//! of one completed link in the order identity account, identity token,
//! device account, device token, so a row referring to another is never
//! written before its referent; any failing write aborts the whole
//! transaction with nothing visible.

use vstd::prelude::*;

use crate::errors::LinkError;
use crate::records::{
    DeviceAccountRecord, DeviceTokenRecord, IdentityAccountRecord, IdentityTokenRecord,
    LinkRecords,
};

verus! {

/// A table row with a primary key, replaceable in full by a fresh row with
/// the same key.
pub trait Record: Sized {
    type Key;

    /// The row's primary key.
    spec fn key(&self) -> Self::Key;

    /// Whether two rows carry the same primary key.
    fn matches_key(&self, other: &Self) -> (r: bool)
        ensures
            r == (self.key() == other.key()),
    ;

    /// An equal copy of the row.
    fn duplicate(&self) -> (r: Self)
        ensures
            r == *self,
    ;
}

impl Record for IdentityAccountRecord {
    type Key = Seq<char>;

    open spec fn key(&self) -> Seq<char> {
        self.id@
    }

    fn matches_key(&self, other: &Self) -> (r: bool) {
        self.id == other.id
    }

    fn duplicate(&self) -> (r: Self) {
        IdentityAccountRecord { id: self.id.clone(), username: self.username.clone() }
    }
}

impl Record for IdentityTokenRecord {
    type Key = Seq<char>;

    open spec fn key(&self) -> Seq<char> {
        self.identity_user_id@
    }

    fn matches_key(&self, other: &Self) -> (r: bool) {
        self.identity_user_id == other.identity_user_id
    }

    fn duplicate(&self) -> (r: Self) {
        IdentityTokenRecord {
            access_token: self.access_token.clone(),
            refresh_token: self.refresh_token.clone(),
            scopes: self.scopes.clone(),
            expires_at: self.expires_at,
            identity_user_id: self.identity_user_id.clone(),
        }
    }
}

impl Record for DeviceAccountRecord {
    type Key = int;

    open spec fn key(&self) -> int {
        self.id as int
    }

    fn matches_key(&self, other: &Self) -> (r: bool) {
        self.id == other.id
    }

    fn duplicate(&self) -> (r: Self) {
        DeviceAccountRecord {
            id: self.id,
            username: self.username.clone(),
            identity_user_id: self.identity_user_id.clone(),
        }
    }
}

impl Record for DeviceTokenRecord {
    type Key = int;

    open spec fn key(&self) -> int {
        self.device_user_id as int
    }

    fn matches_key(&self, other: &Self) -> (r: bool) {
        self.device_user_id == other.device_user_id
    }

    fn duplicate(&self) -> (r: Self) {
        DeviceTokenRecord {
            access_token: self.access_token.clone(),
            device_user_id: self.device_user_id,
        }
    }
}

/// All rows carry pairwise distinct primary keys.
pub open spec fn keys_unique<R: Record>(s: Seq<R>) -> bool {
    forall|i: int, j: int| 0 <= i < j < s.len() ==> s[i].key() != s[j].key()
}

/// Some row carries the key `k`.
pub open spec fn has_key<R: Record>(s: Seq<R>, k: R::Key) -> bool {
    exists|i: int| 0 <= i < s.len() && s[i].key() == k
}

/// The table's map view: primary key to row, later rows winning (irrelevant
/// once keys are unique).
pub open spec fn map_of<R: Record>(s: Seq<R>) -> Map<R::Key, R>
    decreases s.len(),
{
    if s.len() == 0 {
        Map::<R::Key, R>::empty()
    } else {
        map_of(s.drop_last()).insert(s.last().key(), s.last())
    }
}

/// A key is in the map view exactly when some row carries it.
pub proof fn lemma_map_of_dom<R: Record>(s: Seq<R>)
    ensures
        forall|k: R::Key| #[trigger] map_of(s).dom().contains(k) <==> has_key(s, k),
    decreases s.len(),
{
    if s.len() == 0 {
    } else {
        lemma_map_of_dom(s.drop_last());
        assert forall|k: R::Key| #[trigger] map_of(s).dom().contains(k) <==> has_key(s, k) by {
            if map_of(s).dom().contains(k) {
                if k == s.last().key() {
                    assert(s[s.len() - 1].key() == k);
                } else {
                    assert(map_of(s.drop_last()).dom().contains(k));
                    let i = choose|i: int|
                        0 <= i < s.drop_last().len() && s.drop_last()[i].key() == k;
                    assert(s[i].key() == k);
                }
            }
            if has_key(s, k) {
                let i = choose|i: int| 0 <= i < s.len() && s[i].key() == k;
                if i < s.len() - 1 {
                    assert(s.drop_last()[i].key() == k);
                    assert(has_key(s.drop_last(), k));
                    assert(map_of(s.drop_last()).dom().contains(k));
                } else {
                    assert(k == s.last().key());
                }
                assert(map_of(s).dom().contains(k));
            }
        }
    }
}

/// A table with pairwise distinct keys holds exactly one row per key of its
/// map view.
pub proof fn lemma_map_of_len<R: Record>(s: Seq<R>)
    requires
        keys_unique(s),
    ensures
        map_of(s).dom().finite(),
        map_of(s).dom().len() == s.len(),
    decreases s.len(),
{
    broadcast use vstd::set::axiom_set_insert_len;

    if s.len() == 0 {
        assert(map_of(s).dom() =~= Set::<R::Key>::empty());
    } else {
        let rest = s.drop_last();
        assert(keys_unique(rest)) by {
            assert(forall|i: int, j: int|
                0 <= i < j < rest.len() ==> rest[i] == s[i] && rest[j] == s[j]);
        }
        lemma_map_of_len(rest);
        lemma_map_of_dom(rest);
        assert(map_of(s).dom() =~= map_of(rest).dom().insert(s.last().key()));
        assert(!has_key(rest, s.last().key())) by {
            if has_key(rest, s.last().key()) {
                let i = choose|i: int| 0 <= i < rest.len() && rest[i].key() == s.last().key();
                assert(s[i].key() == s[s.len() - 1].key());
            }
        }
    }
}

/// The map view holds, under the key of any row, exactly that row.
pub proof fn lemma_map_of_index<R: Record>(s: Seq<R>, i: int)
    requires
        keys_unique(s),
        0 <= i < s.len(),
    ensures
        map_of(s).dom().contains(s[i].key()),
        map_of(s)[s[i].key()] == s[i],
    decreases s.len(),
{
    if i == s.len() - 1 {
    } else {
        let rest = s.drop_last();
        assert(keys_unique(rest)) by {
            assert(forall|a: int, b: int|
                0 <= a < b < rest.len() ==> rest[a] == s[a] && rest[b] == s[b]);
        }
        lemma_map_of_index(rest, i);
        assert(rest[i] == s[i]);
        assert(s[i].key() != s.last().key());
    }
}

/// Replacing the row at `i` by a fresh row with the same key updates exactly
/// that key of the map view.
proof fn lemma_map_of_update<R: Record>(s: Seq<R>, i: int, rec: R)
    requires
        keys_unique(s),
        0 <= i < s.len(),
        s[i].key() == rec.key(),
    ensures
        map_of(s.update(i, rec)) == map_of(s).insert(rec.key(), rec),
    decreases s.len(),
{
    let n = s.len();
    let u = s.update(i, rec);
    if i == n - 1 {
        assert(u.drop_last() =~= s.drop_last());
        assert(u.last() == rec);
        assert(map_of(u) == map_of(s.drop_last()).insert(rec.key(), rec));
        assert(map_of(s).insert(rec.key(), rec) =~= map_of(s.drop_last()).insert(
            rec.key(),
            rec,
        ));
    } else {
        let rest = s.drop_last();
        assert(keys_unique(rest)) by {
            assert(forall|a: int, b: int|
                0 <= a < b < rest.len() ==> rest[a] == s[a] && rest[b] == s[b]);
        }
        assert(u.drop_last() =~= rest.update(i, rec));
        assert(u.last() == s.last());
        lemma_map_of_update(rest, i, rec);
        assert(map_of(u) == map_of(rest).insert(rec.key(), rec).insert(
            s.last().key(),
            s.last(),
        ));
        assert(rec.key() != s.last().key()) by {
            assert(s[i].key() != s[n - 1].key());
        }
        assert(map_of(rest).insert(rec.key(), rec).insert(s.last().key(), s.last())
            =~= map_of(rest).insert(s.last().key(), s.last()).insert(rec.key(), rec));
    }
}

/// Insert the row, replacing in place the one row that already carries its
/// key, if any.
fn upsert<R: Record>(v: &mut Vec<R>, rec: R)
    requires
        keys_unique(old(v)@),
    ensures
        keys_unique(final(v)@),
        map_of(final(v)@) == map_of(old(v)@).insert(rec.key(), rec),
        forall|k: R::Key| has_key(final(v)@, k) <==> has_key(old(v)@, k) || k == rec.key(),
        final(v)@.len() == old(v)@.len() + (if has_key(old(v)@, rec.key()) {
            0int
        } else {
            1int
        }),
        forall|j: int|
            0 <= j < final(v)@.len() ==> final(v)@[j] == rec || (0 <= j < old(v)@.len()
                && final(v)@[j] == old(v)@[j]),
{
    let ghost s0 = v@;
    let n = v.len();
    let mut i: usize = 0;
    while i < n
        invariant
            s0 == old(v)@,
            v@ == s0,
            keys_unique(s0),
            n == s0.len(),
            i <= n,
            forall|j: int| 0 <= j < i ==> s0[j].key() != rec.key(),
        decreases n - i,
    {
        if v[i].matches_key(&rec) {
            proof {
                lemma_map_of_update(s0, i as int, rec);
            }
            let ghost k = rec.key();
            v[i] = rec;
            proof {
                assert(v@ == s0.update(i as int, rec));
                assert(keys_unique(v@)) by {
                    assert forall|a: int, b: int|
                        0 <= a < b < v@.len() implies v@[a].key() != v@[b].key() by {
                        if a == i {
                            assert(v@[a].key() == s0[a as int].key());
                        } else if b == i {
                            assert(v@[b].key() == s0[b as int].key());
                        }
                    }
                }
                assert(has_key(s0, k)) by {
                    assert(s0[i as int].key() == k);
                }
                assert forall|kk: R::Key|
                    has_key(v@, kk) <==> has_key(s0, kk) || kk == k by {
                    if has_key(v@, kk) {
                        let w = choose|w: int| 0 <= w < v@.len() && v@[w].key() == kk;
                        if w == i {
                            assert(kk == k);
                        } else {
                            assert(s0[w].key() == kk);
                        }
                    }
                    if has_key(s0, kk) {
                        let w = choose|w: int| 0 <= w < s0.len() && s0[w].key() == kk;
                        if w == i {
                            assert(kk == k);
                            assert(v@[w].key() == rec.key());
                        } else {
                            assert(v@[w].key() == kk);
                        }
                    }
                    if kk == k {
                        assert(v@[i as int].key() == kk);
                    }
                }
            }
            return ;
        }
        i += 1;
    }
    proof {
        assert(!has_key(s0, rec.key())) by {
            if has_key(s0, rec.key()) {
                let w = choose|w: int| 0 <= w < s0.len() && s0[w].key() == rec.key();
                assert(s0[w].key() != rec.key());
            }
        }
    }
    let ghost k = rec.key();
    v.push(rec);
    proof {
        assert(v@ == s0.push(rec));
        assert(v@.drop_last() =~= s0);
        assert(map_of(v@) == map_of(s0).insert(rec.key(), rec));
        assert(keys_unique(v@)) by {
            assert forall|a: int, b: int|
                0 <= a < b < v@.len() implies v@[a].key() != v@[b].key() by {
                if b == s0.len() {
                    assert(v@[a] == s0[a]);
                    assert(s0[a].key() != k);
                } else {
                    assert(v@[a] == s0[a] && v@[b] == s0[b]);
                }
            }
        }
        assert forall|kk: R::Key| has_key(v@, kk) <==> has_key(s0, kk) || kk == k by {
            if has_key(v@, kk) {
                let w = choose|w: int| 0 <= w < v@.len() && v@[w].key() == kk;
                if w == s0.len() {
                    assert(kk == k);
                } else {
                    assert(s0[w].key() == kk);
                }
            }
            if has_key(s0, kk) {
                let w = choose|w: int| 0 <= w < s0.len() && s0[w].key() == kk;
                assert(v@[w].key() == kk);
            }
            if kk == k {
                assert(v@[s0.len() as int].key() == kk);
            }
        }
    }
}

/// An equal copy of a whole table.
fn duplicate_table<R: Record>(v: &Vec<R>) -> (r: Vec<R>)
    ensures
        r@ == v@,
{
    let mut out: Vec<R> = Vec::new();
    let n = v.len();
    let mut i: usize = 0;
    while i < n
        invariant
            i <= n,
            n == v@.len(),
            out@ =~= v@.take(i as int),
        decreases n - i,
    {
        out.push(v[i].duplicate());
        proof {
            assert(out@ =~= v@.take(i + 1));
        }
        i += 1;
    }
    proof {
        assert(v@.take(n as int) =~= v@);
    }
    out
}

/// The observable content of the repository: each table as a map from
/// primary key to row.
#[verifier::ext_equal]
pub struct StoreView {
    pub identity_accounts: Map<Seq<char>, IdentityAccountRecord>,
    pub identity_tokens: Map<Seq<char>, IdentityTokenRecord>,
    pub device_accounts: Map<int, DeviceAccountRecord>,
    pub device_tokens: Map<int, DeviceTokenRecord>,
}

/// The content after one link transaction: all four rows upserted under
/// their keys.
pub open spec fn spec_linked(v: StoreView, records: LinkRecords) -> StoreView {
    StoreView {
        identity_accounts: v.identity_accounts.insert(records.identity.id@, records.identity),
        identity_tokens: v.identity_tokens.insert(
            records.identity_token.identity_user_id@,
            records.identity_token,
        ),
        device_accounts: v.device_accounts.insert(records.device.id as int, records.device),
        device_tokens: v.device_tokens.insert(
            records.device_token.device_user_id as int,
            records.device_token,
        ),
    }
}

/// Repeating a link with the same rows changes nothing more: the transaction
/// is idempotent.
pub proof fn lemma_link_idempotent(v: StoreView, records: LinkRecords)
    ensures
        spec_linked(spec_linked(v, records), records) == spec_linked(v, records),
{
    let once = spec_linked(v, records);
    let twice = spec_linked(once, records);
    assert(twice.identity_accounts =~= once.identity_accounts);
    assert(twice.identity_tokens =~= once.identity_tokens);
    assert(twice.device_accounts =~= once.device_accounts);
    assert(twice.device_tokens =~= once.device_tokens);
    assert(twice =~= once);
}

/// The four writes of one link transaction, in their required order.
#[derive(Clone, Copy, Debug, PartialEq, Eq, Structural)]
pub enum WriteStep {
    IdentityAccount,
    IdentityToken,
    DeviceAccount,
    DeviceToken,
}

/// The account-link repository.
pub struct LinkStore {
    identity_accounts: Vec<IdentityAccountRecord>,
    identity_tokens: Vec<IdentityTokenRecord>,
    device_accounts: Vec<DeviceAccountRecord>,
    device_tokens: Vec<DeviceTokenRecord>,
}

impl View for LinkStore {
    type V = StoreView;

    closed spec fn view(&self) -> StoreView {
        StoreView {
            identity_accounts: map_of(self.identity_accounts@),
            identity_tokens: map_of(self.identity_tokens@),
            device_accounts: map_of(self.device_accounts@),
            device_tokens: map_of(self.device_tokens@),
        }
    }
}

impl LinkStore {
    /// Every table keeps one row per key, and no row refers to a missing
    /// owner: tokens and device accounts point at present identity accounts,
    /// device tokens at present device accounts.
    pub closed spec fn wf(&self) -> bool {
        &&& keys_unique(self.identity_accounts@)
        &&& keys_unique(self.identity_tokens@)
        &&& keys_unique(self.device_accounts@)
        &&& keys_unique(self.device_tokens@)
        &&& forall|i: int|
            0 <= i < self.identity_tokens@.len() ==> has_key(
                self.identity_accounts@,
                #[trigger] self.identity_tokens@[i].identity_user_id@,
            )
        &&& forall|i: int|
            0 <= i < self.device_accounts@.len() ==> has_key(
                self.identity_accounts@,
                #[trigger] self.device_accounts@[i].identity_user_id@,
            )
        &&& forall|i: int|
            0 <= i < self.device_tokens@.len() ==> has_key(
                self.device_accounts@,
                #[trigger] self.device_tokens@[i].device_user_id as int,
            )
    }

    /// Rows held per table, observably the sizes of the view's maps.
    pub closed spec fn spec_row_counts(&self) -> (int, int, int, int) {
        (
            self.identity_accounts@.len() as int,
            self.identity_tokens@.len() as int,
            self.device_accounts@.len() as int,
            self.device_tokens@.len() as int,
        )
    }

    /// A well-formed store holds exactly one row per key of each view map.
    pub proof fn lemma_row_counts_match_view(&self)
        requires
            self.wf(),
        ensures
            self.spec_row_counts() == (
                self@.identity_accounts.dom().len() as int,
                self@.identity_tokens.dom().len() as int,
                self@.device_accounts.dom().len() as int,
                self@.device_tokens.dom().len() as int,
            ),
    {
        lemma_map_of_len(self.identity_accounts@);
        lemma_map_of_len(self.identity_tokens@);
        lemma_map_of_len(self.device_accounts@);
        lemma_map_of_len(self.device_tokens@);
    }

    /// The data-model invariant, observably: no row ever refers to a missing
    /// owner. Every identity token and device account points at a present
    /// identity account, every device token at a present device account —
    /// guaranteed by the transaction's write ordering, never by repair.
    pub proof fn lemma_referential_integrity(&self)
        requires
            self.wf(),
        ensures
            forall|k: Seq<char>| #[trigger] self@.identity_tokens.dom().contains(k)
                ==> self@.identity_accounts.dom().contains(
                self@.identity_tokens[k].identity_user_id@,
            ),
            forall|k: int| #[trigger] self@.device_accounts.dom().contains(k)
                ==> self@.identity_accounts.dom().contains(
                self@.device_accounts[k].identity_user_id@,
            ),
            forall|k: int| #[trigger] self@.device_tokens.dom().contains(k)
                ==> self@.device_accounts.dom().contains(
                self@.device_tokens[k].device_user_id as int,
            ),
    {
        lemma_map_of_dom(self.identity_accounts@);
        lemma_map_of_dom(self.identity_tokens@);
        lemma_map_of_dom(self.device_accounts@);
        lemma_map_of_dom(self.device_tokens@);
        assert forall|k: Seq<char>| #[trigger] self@.identity_tokens.dom().contains(k)
            implies self@.identity_accounts.dom().contains(
            self@.identity_tokens[k].identity_user_id@,
        ) by {
            let s = self.identity_tokens@;
            let i = choose|i: int| 0 <= i < s.len() && s[i].key() == k;
            lemma_map_of_index(s, i);
        }
        assert forall|k: int| #[trigger] self@.device_accounts.dom().contains(k)
            implies self@.identity_accounts.dom().contains(
            self@.device_accounts[k].identity_user_id@,
        ) by {
            let s = self.device_accounts@;
            let i = choose|i: int| 0 <= i < s.len() && s[i].key() == k;
            lemma_map_of_index(s, i);
        }
        assert forall|k: int| #[trigger] self@.device_tokens.dom().contains(k)
            implies self@.device_accounts.dom().contains(
            self@.device_tokens[k].device_user_id as int,
        ) by {
            let s = self.device_tokens@;
            let i = choose|i: int| 0 <= i < s.len() && s[i].key() == k;
            lemma_map_of_index(s, i);
        }
    }

    /// An empty repository.
    pub fn new() -> (s: LinkStore)
        ensures
            s.wf(),
            s@.identity_accounts == Map::<Seq<char>, IdentityAccountRecord>::empty(),
            s@.identity_tokens == Map::<Seq<char>, IdentityTokenRecord>::empty(),
            s@.device_accounts == Map::<int, DeviceAccountRecord>::empty(),
            s@.device_tokens == Map::<int, DeviceTokenRecord>::empty(),
            s.spec_row_counts() == (0int, 0int, 0int, 0int),
    {
        LinkStore {
            identity_accounts: Vec::new(),
            identity_tokens: Vec::new(),
            device_accounts: Vec::new(),
            device_tokens: Vec::new(),
        }
    }

    /// The number of identity-account rows.
    pub fn identity_account_count(&self) -> (n: usize)
        ensures
            n as int == self.spec_row_counts().0,
    {
        self.identity_accounts.len()
    }

    /// The number of identity-token rows.
    pub fn identity_token_count(&self) -> (n: usize)
        ensures
            n as int == self.spec_row_counts().1,
    {
        self.identity_tokens.len()
    }

    /// The number of device-account rows.
    pub fn device_account_count(&self) -> (n: usize)
        ensures
            n as int == self.spec_row_counts().2,
    {
        self.device_accounts.len()
    }

    /// The number of device-token rows.
    pub fn device_token_count(&self) -> (n: usize)
        ensures
            n as int == self.spec_row_counts().3,
    {
        self.device_tokens.len()
    }

    /// The display name stored for an identity account, if that account is
    /// linked.
    pub fn identity_username(&self, id: &String) -> (r: Option<String>)
        requires
            self.wf(),
        ensures
            r matches Some(username) ==> self@.identity_accounts.dom().contains(id@)
                && self@.identity_accounts[id@].username@ == username@,
            r is None ==> !self@.identity_accounts.dom().contains(id@),
    {
        proof {
            lemma_map_of_dom(self.identity_accounts@);
        }
        let n = self.identity_accounts.len();
        let mut i: usize = 0;
        while i < n
            invariant
                i <= n,
                n == self.identity_accounts@.len(),
                self.wf(),
                forall|j: int| 0 <= j < i ==> self.identity_accounts@[j].id@ != id@,
        decreases n - i,
        {
            if self.identity_accounts[i].id == *id {
                proof {
                    lemma_map_of_index(self.identity_accounts@, i as int);
                }
                return Some(self.identity_accounts[i].username.clone());
            }
            i += 1;
        }
        proof {
            lemma_map_of_dom(self.identity_accounts@);
            if has_key(self.identity_accounts@, id@) {
                let w = choose|w: int|
                    0 <= w < self.identity_accounts@.len() && self.identity_accounts@[w].key()
                        == id@;
                assert(self.identity_accounts@[w].id@ != id@);
            }
        }
        None
    }

    /// Stage the four writes of one transaction on scratch copies of the
    /// tables, in the required order, stopping at the write `fail_at` forces
    /// to fail. On success the fully written next state is handed back for
    /// the commit; on failure the scratch copies are dropped, so the staged
    /// writes never become visible.
    fn stage(&self, records: LinkRecords, fail_at: Option<WriteStep>) -> (r: Result<
        LinkStore,
        LinkError,
    >)
        requires
            self.wf(),
            records.wf(),
        ensures
            r is Ok <==> fail_at is None,
            r matches Ok(next) ==> next.wf() && next@ == spec_linked(self@, records)
                && next.spec_row_counts() == (
                self.spec_row_counts().0 + (if self@.identity_accounts.dom().contains(
                    records.identity.id@,
                ) {
                    0int
                } else {
                    1int
                }),
                self.spec_row_counts().1 + (if self@.identity_tokens.dom().contains(
                    records.identity_token.identity_user_id@,
                ) {
                    0int
                } else {
                    1int
                }),
                self.spec_row_counts().2 + (if self@.device_accounts.dom().contains(
                    records.device.id as int,
                ) {
                    0int
                } else {
                    1int
                }),
                self.spec_row_counts().3 + (if self@.device_tokens.dom().contains(
                    records.device_token.device_user_id as int,
                ) {
                    0int
                } else {
                    1int
                }),
            ),
            r is Err ==> r == Err::<LinkStore, LinkError>(LinkError::PersistenceError),
    {
        proof {
            lemma_map_of_dom(self.identity_accounts@);
            lemma_map_of_dom(self.identity_tokens@);
            lemma_map_of_dom(self.device_accounts@);
            lemma_map_of_dom(self.device_tokens@);
        }
        let mut identity_accounts = duplicate_table(&self.identity_accounts);
        if matches!(fail_at, Some(WriteStep::IdentityAccount)) {
            return Err(LinkError::PersistenceError);
        }
        upsert(&mut identity_accounts, records.identity);
        let mut identity_tokens = duplicate_table(&self.identity_tokens);
        if matches!(fail_at, Some(WriteStep::IdentityToken)) {
            return Err(LinkError::PersistenceError);
        }
        upsert(&mut identity_tokens, records.identity_token);
        let mut device_accounts = duplicate_table(&self.device_accounts);
        if matches!(fail_at, Some(WriteStep::DeviceAccount)) {
            return Err(LinkError::PersistenceError);
        }
        upsert(&mut device_accounts, records.device);
        let mut device_tokens = duplicate_table(&self.device_tokens);
        if matches!(fail_at, Some(WriteStep::DeviceToken)) {
            return Err(LinkError::PersistenceError);
        }
        upsert(&mut device_tokens, records.device_token);
        let next = LinkStore { identity_accounts, identity_tokens, device_accounts, device_tokens };
        proof {
            assert forall|i: int| 0 <= i < next.identity_tokens@.len() implies has_key(
                next.identity_accounts@,
                #[trigger] next.identity_tokens@[i].identity_user_id@,
            ) by {
                let row = next.identity_tokens@[i];
                if row == records.identity_token {
                    assert(has_key(next.identity_accounts@, records.identity.key()));
                } else {
                    assert(has_key(self.identity_accounts@, row.identity_user_id@));
                }
            }
            assert forall|i: int| 0 <= i < next.device_accounts@.len() implies has_key(
                next.identity_accounts@,
                #[trigger] next.device_accounts@[i].identity_user_id@,
            ) by {
                let row = next.device_accounts@[i];
                if row == records.device {
                    assert(has_key(next.identity_accounts@, records.identity.key()));
                } else {
                    assert(has_key(self.identity_accounts@, row.identity_user_id@));
                }
            }
            assert forall|i: int| 0 <= i < next.device_tokens@.len() implies has_key(
                next.device_accounts@,
                #[trigger] next.device_tokens@[i].device_user_id as int,
            ) by {
                let row = next.device_tokens@[i];
                if row == records.device_token {
                    assert(has_key(next.device_accounts@, records.device.key()));
                } else {
                    assert(has_key(self.device_accounts@, row.device_user_id as int));
                }
            }
        }
        Ok(next)
    }

    /// Persist one completed link: upsert the identity account, its token,
    /// the device account and its token, in that order, inside one
    /// transaction. Re-running the transaction for the same ids replaces the
    /// existing rows — wholesale for tokens — and never duplicates them.
    pub fn link_accounts(&mut self, records: LinkRecords) -> (r: Result<(), LinkError>)
        requires
            old(self).wf(),
            records.wf(),
        ensures
            final(self).wf(),
            r is Ok,
            final(self)@ == spec_linked(old(self)@, records),
            final(self).spec_row_counts() == (
                old(self).spec_row_counts().0 + (if old(self)@.identity_accounts.dom().contains(
                    records.identity.id@,
                ) {
                    0int
                } else {
                    1int
                }),
                old(self).spec_row_counts().1 + (if old(self)@.identity_tokens.dom().contains(
                    records.identity_token.identity_user_id@,
                ) {
                    0int
                } else {
                    1int
                }),
                old(self).spec_row_counts().2 + (if old(self)@.device_accounts.dom().contains(
                    records.device.id as int,
                ) {
                    0int
                } else {
                    1int
                }),
                old(self).spec_row_counts().3 + (if old(self)@.device_tokens.dom().contains(
                    records.device_token.device_user_id as int,
                ) {
                    0int
                } else {
                    1int
                }),
            ),
    {
        match self.stage(records, None) {
            Ok(next) => {
                *self = next;
                Ok(())
            },
            Err(_) => Err(LinkError::PersistenceError),
        }
    }

    /// Run the same transaction as `link_accounts` with the write `fail_at`
    /// forced to fail: the transaction aborts, nothing from the attempt is
    /// visible afterwards, and the caller sees one opaque persistence error.
    pub fn link_accounts_with_forced_failure(
        &mut self,
        records: LinkRecords,
        fail_at: WriteStep,
    ) -> (r: Result<(), LinkError>)
        requires
            old(self).wf(),
            records.wf(),
        ensures
            final(self).wf(),
            *final(self) == *old(self),
            final(self)@ == old(self)@,
            r == Err::<(), LinkError>(LinkError::PersistenceError),
    {
        match self.stage(records, Some(fail_at)) {
            Ok(_) => Err(LinkError::PersistenceError),
            Err(e) => Err(e),
        }
    }
}

} // verus!
