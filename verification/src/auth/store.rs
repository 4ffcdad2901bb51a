use vstd::prelude::*;
use vstd::string::StringExecFns;

use crate::auth::model::{Credentials, CredentialsView};

verus! {

/// What an operation asks of the credential store. Each is one keyed read or
/// one keyed write; a write changes every record that its key matches.
#[derive(Debug, PartialEq, Eq)]
pub enum StoreRequest {
    /// The record of this account.
    FindByUsername { username: String },
    /// The first record that holds this refresh token.
    FindByRefreshToken { token: String },
    /// Give this account a refresh token and its expiry, over whatever it had.
    SetRefresh { username: String, token: String, max_age: i64 },
    /// Put a new token where the old one stands, and leave the expiry alone.
    ReplaceRefresh { old_token: String, new_token: String },
    /// Clear this token and its expiry.
    ClearRefresh { token: String },
    /// Add the record of a new account, with this password digest and no
    /// session.
    InsertCredentials { username: String, password: String },
}

pub ghost enum RequestView {
    FindByUsername { username: Seq<char> },
    FindByRefreshToken { token: Seq<char> },
    SetRefresh { username: Seq<char>, token: Seq<char>, max_age: int },
    ReplaceRefresh { old_token: Seq<char>, new_token: Seq<char> },
    ClearRefresh { token: Seq<char> },
    InsertCredentials { username: Seq<char>, password: Seq<char> },
}

impl View for StoreRequest {
    type V = RequestView;

    open spec fn view(&self) -> RequestView {
        match *self {
            StoreRequest::FindByUsername { username } => RequestView::FindByUsername {
                username: username@,
            },
            StoreRequest::FindByRefreshToken { token } => RequestView::FindByRefreshToken {
                token: token@,
            },
            StoreRequest::SetRefresh { username, token, max_age } => RequestView::SetRefresh {
                username: username@,
                token: token@,
                max_age: max_age as int,
            },
            StoreRequest::ReplaceRefresh { old_token, new_token } => RequestView::ReplaceRefresh {
                old_token: old_token@,
                new_token: new_token@,
            },
            StoreRequest::ClearRefresh { token } => RequestView::ClearRefresh { token: token@ },
            StoreRequest::InsertCredentials { username, password } => RequestView::InsertCredentials {
                username: username@,
                password: password@,
            },
        }
    }
}

/// What the store answers.
#[derive(Debug, PartialEq, Eq)]
pub enum StoreReply {
    /// The record that a read found.
    Row(Credentials),
    /// A write went through, whether or not it matched a record.
    Done,
    /// A read found no record, or the store failed: its own words.
    Failed(String),
}

pub ghost enum ReplyView {
    Row(CredentialsView),
    Done,
    Failed(Seq<char>),
}

impl View for StoreReply {
    type V = ReplyView;

    open spec fn view(&self) -> ReplyView {
        match *self {
            StoreReply::Row(record) => ReplyView::Row(record@),
            StoreReply::Done => ReplyView::Done,
            StoreReply::Failed(text) => ReplyView::Failed(text@),
        }
    }
}

/// What a read that finds nothing fails with.
pub open spec fn no_row() -> Seq<char> {
    "no rows returned by a query that expected to return at least one row"@
}

/// What adding an account that is already there fails with.
pub open spec fn duplicate_entry() -> Seq<char> {
    "duplicate entry for the key username"@
}

/// The record of a newly registered account.
pub open spec fn fresh_record(username: Seq<char>, password: Seq<char>) -> CredentialsView {
    CredentialsView { username, password, refresh_token: None, max_age: None }
}

/// Position `i` holds the first record of this account.
pub open spec fn username_at(records: Seq<CredentialsView>, username: Seq<char>, i: int) -> bool {
    &&& 0 <= i < records.len()
    &&& records[i].username == username
    &&& forall|j: int| 0 <= j < i ==> (#[trigger] records[j]).username != username
}

/// Position `i` holds the first record with this refresh token.
pub open spec fn token_at(records: Seq<CredentialsView>, token: Seq<char>, i: int) -> bool {
    &&& 0 <= i < records.len()
    &&& records[i].refresh_token == Some(token)
    &&& forall|j: int| 0 <= j < i ==> (#[trigger] records[j]).refresh_token != Some(token)
}

/// The first record of this account, if it has one.
pub open spec fn by_username(records: Seq<CredentialsView>, username: Seq<char>) -> Option<
    CredentialsView,
> {
    if exists|i: int| username_at(records, username, i) {
        Some(records[choose|i: int| username_at(records, username, i)])
    } else {
        None
    }
}

/// The first record that holds this refresh token, if any does.
pub open spec fn by_refresh_token(records: Seq<CredentialsView>, token: Seq<char>) -> Option<
    CredentialsView,
> {
    if exists|i: int| token_at(records, token, i) {
        Some(records[choose|i: int| token_at(records, token, i)])
    } else {
        None
    }
}

pub open spec fn set_refresh(
    records: Seq<CredentialsView>,
    username: Seq<char>,
    token: Seq<char>,
    max_age: int,
) -> Seq<CredentialsView> {
    Seq::new(
        records.len(),
        |i: int|
            if records[i].username == username {
                CredentialsView { refresh_token: Some(token), max_age: Some(max_age), ..records[i] }
            } else {
                records[i]
            },
    )
}

pub open spec fn replace_refresh(
    records: Seq<CredentialsView>,
    old_token: Seq<char>,
    new_token: Seq<char>,
) -> Seq<CredentialsView> {
    Seq::new(
        records.len(),
        |i: int|
            if records[i].refresh_token == Some(old_token) {
                CredentialsView { refresh_token: Some(new_token), ..records[i] }
            } else {
                records[i]
            },
    )
}

pub open spec fn clear_refresh(records: Seq<CredentialsView>, token: Seq<char>) -> Seq<
    CredentialsView,
> {
    Seq::new(
        records.len(),
        |i: int|
            if records[i].refresh_token == Some(token) {
                CredentialsView { refresh_token: None, max_age: None, ..records[i] }
            } else {
                records[i]
            },
    )
}

/// What a read answers with.
pub open spec fn found(record: Option<CredentialsView>) -> ReplyView {
    match record {
        Some(r) => ReplyView::Row(r),
        None => ReplyView::Failed(no_row()),
    }
}

/// The records after a request and the answer to it: what every store that
/// these operations run against has to do.
pub open spec fn apply(records: Seq<CredentialsView>, request: RequestView) -> (
    Seq<CredentialsView>,
    ReplyView,
) {
    match request {
        RequestView::FindByUsername { username } => (records, found(by_username(records, username))),
        RequestView::FindByRefreshToken { token } => (
            records,
            found(by_refresh_token(records, token)),
        ),
        RequestView::SetRefresh { username, token, max_age } => (
            set_refresh(records, username, token, max_age),
            ReplyView::Done,
        ),
        RequestView::ReplaceRefresh { old_token, new_token } => (
            replace_refresh(records, old_token, new_token),
            ReplyView::Done,
        ),
        RequestView::ClearRefresh { token } => (clear_refresh(records, token), ReplyView::Done),
        RequestView::InsertCredentials { username, password } => if by_username(
            records,
            username,
        ) is Some {
            (records, ReplyView::Failed(duplicate_entry()))
        } else {
            (records.push(fresh_record(username, password)), ReplyView::Done)
        },
    }
}

/// Every record sets its token and expiry together, and no two records are
/// of one account.
pub open spec fn store_wf(records: Seq<CredentialsView>) -> bool {
    &&& forall|i: int| 0 <= i < records.len() ==> (#[trigger] records[i]).wf()
    &&& forall|i: int, j: int|
        0 <= i < records.len() && 0 <= j < records.len() && i != j ==> (#[trigger] records[i]).username
            != (#[trigger] records[j]).username
}

/// A first position is the only first position.
pub proof fn lemma_username_at(records: Seq<CredentialsView>, username: Seq<char>, i: int)
    requires
        username_at(records, username, i),
    ensures
        by_username(records, username) == Some(records[i]),
{
    let k = choose|k: int| username_at(records, username, k);
    if k < i {
        assert(records[k].username == username);
    } else if i < k {
        assert(records[i].username == username);
    }
}

pub proof fn lemma_username_absent(records: Seq<CredentialsView>, username: Seq<char>)
    requires
        forall|j: int| 0 <= j < records.len() ==> (#[trigger] records[j]).username != username,
    ensures
        by_username(records, username) is None,
{
    if exists|i: int| username_at(records, username, i) {
        let k = choose|k: int| username_at(records, username, k);
        assert(records[k].username == username);
    }
}

pub proof fn lemma_token_at(records: Seq<CredentialsView>, token: Seq<char>, i: int)
    requires
        token_at(records, token, i),
    ensures
        by_refresh_token(records, token) == Some(records[i]),
{
    let k = choose|k: int| token_at(records, token, k);
    if k < i {
        assert(records[k].refresh_token == Some(token));
    } else if i < k {
        assert(records[i].refresh_token == Some(token));
    }
}

pub proof fn lemma_token_absent(records: Seq<CredentialsView>, token: Seq<char>)
    requires
        forall|j: int| 0 <= j < records.len() ==> (#[trigger] records[j]).refresh_token != Some(token),
    ensures
        by_refresh_token(records, token) is None,
{
    if exists|i: int| token_at(records, token, i) {
        let k = choose|k: int| token_at(records, token, k);
        assert(records[k].refresh_token == Some(token));
    }
}

/// A record that a read finds is one of the records, and has the key that
/// was asked for.
pub proof fn lemma_found(records: Seq<CredentialsView>, key: Seq<char>)
    ensures
        by_username(records, key) matches Some(r) ==> r.username == key && records.contains(r),
        by_refresh_token(records, key) matches Some(r) ==> r.refresh_token == Some(key)
            && records.contains(r),
        by_username(records, key) is None ==> forall|j: int|
            0 <= j < records.len() ==> (#[trigger] records[j]).username != key,
        by_refresh_token(records, key) is None ==> forall|j: int|
            0 <= j < records.len() ==> (#[trigger] records[j]).refresh_token != Some(key),
{
    if by_username(records, key) is None {
        assert forall|j: int| 0 <= j < records.len() implies (#[trigger] records[j]).username
            != key by {
            if records[j].username == key {
                lemma_first_username(records, key, j);
            }
        }
    }
    if by_refresh_token(records, key) is None {
        assert forall|j: int| 0 <= j < records.len() implies (#[trigger] records[j]).refresh_token
            != Some(key) by {
            if records[j].refresh_token == Some(key) {
                lemma_first_token(records, key, j);
            }
        }
    }
}

/// Where any record is of this account, a first one is.
pub proof fn lemma_first_username(records: Seq<CredentialsView>, username: Seq<char>, j: int)
    requires
        0 <= j < records.len(),
        records[j].username == username,
    ensures
        exists|i: int| username_at(records, username, i),
    decreases j,
{
    if exists|k: int| 0 <= k < j && (#[trigger] records[k]).username == username {
        let k = choose|k: int| 0 <= k < j && (#[trigger] records[k]).username == username;
        lemma_first_username(records, username, k);
    } else {
        assert(username_at(records, username, j));
    }
}

/// Where any record holds this token, a first one does.
pub proof fn lemma_first_token(records: Seq<CredentialsView>, token: Seq<char>, j: int)
    requires
        0 <= j < records.len(),
        records[j].refresh_token == Some(token),
    ensures
        exists|i: int| token_at(records, token, i),
    decreases j,
{
    if exists|k: int| 0 <= k < j && (#[trigger] records[k]).refresh_token == Some(token) {
        let k = choose|k: int| 0 <= k < j && (#[trigger] records[k]).refresh_token == Some(token);
        lemma_first_token(records, token, k);
    } else {
        assert(token_at(records, token, j));
    }
}

/// Requests keep a store well formed.
pub proof fn lemma_apply_wf(records: Seq<CredentialsView>, request: RequestView)
    requires
        store_wf(records),
    ensures
        store_wf(apply(records, request).0),
        apply(records, request).0.len() >= records.len(),
{
    if let RequestView::InsertCredentials { username, password } = request {
        lemma_found(records, username);
    }
}

/// An in-memory credential store. Every record in it sets its token and
/// expiry together, and no two records are of one account.
pub struct CredentialStore {
    records: Vec<Credentials>,
}

/// The views of the records.
pub open spec fn views(records: Seq<Credentials>) -> Seq<CredentialsView> {
    records.map_values(|r: Credentials| r@)
}

impl View for CredentialStore {
    type V = Seq<CredentialsView>;

    closed spec fn view(&self) -> Seq<CredentialsView> {
        views(self.records@)
    }
}

impl CredentialStore {
    #[verifier::type_invariant]
    pub open spec fn well_formed(self) -> bool {
        store_wf(self@)
    }

    /// A store without accounts.
    pub fn new() -> (store: CredentialStore)
        ensures
            store@ == Seq::<CredentialsView>::empty(),
    {
        let records: Vec<Credentials> = Vec::new();
        assert(views(records@) =~= Seq::<CredentialsView>::empty());
        CredentialStore { records }
    }

    /// The number of accounts.
    pub fn len(&self) -> (n: usize)
        ensures
            n == self@.len(),
    {
        self.records.len()
    }

    /// The record at a position.
    pub fn record(&self, i: usize) -> (r: Option<Credentials>)
        ensures
            match r {
                Some(record) => i < self@.len() && record@ == self@[i as int],
                None => i >= self@.len(),
            },
    {
        if i < self.records.len() {
            Some(self.records[i].duplicate())
        } else {
            None
        }
    }

    /// Adds the record of a new account. A record whose account is already
    /// there, or that holds a token without an expiry or an expiry without a
    /// token, is turned down and the store stays as it is.
    pub fn register(&mut self, record: Credentials) -> (added: bool)
        ensures
            store_wf(old(self)@),
            store_wf(final(self)@),
            added == (record@.wf() && by_username(old(self)@, record@.username) is None),
            final(self)@ == if added {
                old(self)@.push(record@)
            } else {
                old(self)@
            },
    {
        proof {
            use_type_invariant(&*self);
        }
        if !record.is_wf() {
            return false;
        }
        if self.find_by_username(&record.username).is_some() {
            return false;
        }
        proof {
            lemma_found(self@, record@.username);
        }
        let mut records: Vec<Credentials> = Vec::new();
        assert(views(records@) =~= Seq::<CredentialsView>::empty());
        core::mem::swap(&mut self.records, &mut records);
        records.push(record);
        assert(views(records@) =~= old(self)@.push(record@));
        self.records = records;
        true
    }

    /// The first record of this account.
    pub fn find_by_username(&self, username: &String) -> (r: Option<Credentials>)
        ensures
            match r {
                Some(record) => by_username(self@, username@) == Some(record@),
                None => by_username(self@, username@) is None,
            },
    {
        let mut i: usize = 0;
        while i < self.records.len()
            invariant
                i <= self.records.len(),
                forall|j: int| 0 <= j < i ==> (#[trigger] self@[j]).username != username@,
            decreases self.records.len() - i,
        {
            if self.records[i].username == *username {
                proof {
                    assert(self@[i as int].username == username@);
                    lemma_username_at(self@, username@, i as int);
                }
                return Some(self.records[i].duplicate());
            }
            assert(self@[i as int].username != username@);
            i += 1;
        }
        proof {
            lemma_username_absent(self@, username@);
        }
        None
    }

    /// The first record that holds this refresh token.
    pub fn find_by_refresh_token(&self, token: &String) -> (r: Option<Credentials>)
        ensures
            match r {
                Some(record) => by_refresh_token(self@, token@) == Some(record@),
                None => by_refresh_token(self@, token@) is None,
            },
    {
        let mut i: usize = 0;
        while i < self.records.len()
            invariant
                i <= self.records.len(),
                forall|j: int| 0 <= j < i ==> (#[trigger] self@[j]).refresh_token != Some(token@),
            decreases self.records.len() - i,
        {
            if holds_token(&self.records[i], token) {
                proof {
                    assert(self@[i as int].refresh_token == Some(token@));
                    lemma_token_at(self@, token@, i as int);
                }
                return Some(self.records[i].duplicate());
            }
            assert(self@[i as int].refresh_token != Some(token@));
            i += 1;
        }
        proof {
            lemma_token_absent(self@, token@);
        }
        None
    }

    /// Gives this account a refresh token and its expiry.
    pub fn set_refresh(&mut self, username: &String, token: &String, max_age: i64)
        ensures
            final(self)@ == set_refresh(old(self)@, username@, token@, max_age as int),
    {
        proof {
            use_type_invariant(&*self);
            lemma_apply_wf(
                self@,
                RequestView::SetRefresh {
                    username: username@,
                    token: token@,
                    max_age: max_age as int,
                },
            );
        }
        let mut fresh: Vec<Credentials> = Vec::new();
        let mut i: usize = 0;
        while i < self.records.len()
            invariant
                i <= self.records.len(),
                fresh@.len() == i,
                forall|j: int|
                    0 <= j < i ==> (#[trigger] fresh@[j])@ == set_refresh(
                        self@,
                        username@,
                        token@,
                        max_age as int,
                    )[j],
            decreases self.records.len() - i,
        {
            let record = &self.records[i];
            assert(record@ == self@[i as int]);
            if record.username == *username {
                fresh.push(
                    Credentials {
                        username: record.username.clone(),
                        password: record.password.clone(),
                        refresh_token: Some(token.clone()),
                        max_age: Some(max_age),
                    },
                );
            } else {
                fresh.push(record.duplicate());
            }
            i += 1;
        }
        assert(views(fresh@) =~= set_refresh(old(self)@, username@, token@, max_age as int));
        self.records = fresh;
    }

    /// Puts a new token wherever the old one stands.
    pub fn replace_refresh(&mut self, old_token: &String, new_token: &String)
        ensures
            final(self)@ == replace_refresh(old(self)@, old_token@, new_token@),
    {
        proof {
            use_type_invariant(&*self);
            lemma_apply_wf(
                self@,
                RequestView::ReplaceRefresh { old_token: old_token@, new_token: new_token@ },
            );
        }
        let mut fresh: Vec<Credentials> = Vec::new();
        let mut i: usize = 0;
        while i < self.records.len()
            invariant
                i <= self.records.len(),
                fresh@.len() == i,
                forall|j: int|
                    0 <= j < i ==> (#[trigger] fresh@[j])@ == replace_refresh(
                        self@,
                        old_token@,
                        new_token@,
                    )[j],
            decreases self.records.len() - i,
        {
            let record = &self.records[i];
            assert(record@ == self@[i as int]);
            if holds_token(record, old_token) {
                fresh.push(
                    Credentials {
                        username: record.username.clone(),
                        password: record.password.clone(),
                        refresh_token: Some(new_token.clone()),
                        max_age: record.max_age,
                    },
                );
            } else {
                fresh.push(record.duplicate());
            }
            i += 1;
        }
        assert(views(fresh@) =~= replace_refresh(old(self)@, old_token@, new_token@));
        self.records = fresh;
    }

    /// Clears this token, and its expiry, wherever it stands.
    pub fn clear_refresh(&mut self, token: &String)
        ensures
            final(self)@ == clear_refresh(old(self)@, token@),
    {
        proof {
            use_type_invariant(&*self);
            lemma_apply_wf(self@, RequestView::ClearRefresh { token: token@ });
        }
        let mut fresh: Vec<Credentials> = Vec::new();
        let mut i: usize = 0;
        while i < self.records.len()
            invariant
                i <= self.records.len(),
                fresh@.len() == i,
                forall|j: int|
                    0 <= j < i ==> (#[trigger] fresh@[j])@ == clear_refresh(self@, token@)[j],
            decreases self.records.len() - i,
        {
            let record = &self.records[i];
            assert(record@ == self@[i as int]);
            if holds_token(record, token) {
                fresh.push(
                    Credentials {
                        username: record.username.clone(),
                        password: record.password.clone(),
                        refresh_token: None,
                        max_age: None,
                    },
                );
            } else {
                fresh.push(record.duplicate());
            }
            i += 1;
        }
        assert(views(fresh@) =~= clear_refresh(old(self)@, token@));
        self.records = fresh;
    }

    /// Serves one request.
    pub fn perform(&mut self, request: &StoreRequest) -> (reply: StoreReply)
        ensures
            store_wf(old(self)@),
            store_wf(final(self)@),
            (final(self)@, reply@) == apply(old(self)@, request@),
    {
        proof {
            use_type_invariant(&*self);
            lemma_apply_wf(self@, request@);
        }
        match request {
            StoreRequest::FindByUsername { username } => answer(self.find_by_username(username)),
            StoreRequest::FindByRefreshToken { token } => answer(self.find_by_refresh_token(token)),
            StoreRequest::SetRefresh { username, token, max_age } => {
                self.set_refresh(username, token, *max_age);
                StoreReply::Done
            },
            StoreRequest::ReplaceRefresh { old_token, new_token } => {
                self.replace_refresh(old_token, new_token);
                StoreReply::Done
            },
            StoreRequest::ClearRefresh { token } => {
                self.clear_refresh(token);
                StoreReply::Done
            },
            StoreRequest::InsertCredentials { username, password } => {
                if self.register(Credentials::new(username.clone(), password.clone())) {
                    StoreReply::Done
                } else {
                    StoreReply::Failed(String::from_str("duplicate entry for the key username"))
                }
            },
        }
    }
}

/// Whether a record holds this refresh token.
pub fn holds_token(record: &Credentials, token: &String) -> (r: bool)
    ensures
        r == (record@.refresh_token == Some(token@)),
{
    match &record.refresh_token {
        Some(held) => *held == *token,
        None => false,
    }
}

/// The answer to a read.
pub fn answer(record: Option<Credentials>) -> (reply: StoreReply)
    ensures
        reply@ == found(
            match record {
                Some(r) => Some(r@),
                None => None,
            },
        ),
{
    match record {
        Some(r) => StoreReply::Row(r),
        None => StoreReply::Failed(
            String::from_str("no rows returned by a query that expected to return at least one row"),
        ),
    }
}

} // verus!
