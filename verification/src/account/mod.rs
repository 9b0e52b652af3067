//! Accounts: their kinds, their errors, and the cache of taken ids and
//! usernames that lets the service answer "does it exist" without a query.

pub mod routes;

use crate::text::{decimal, located};
use crate::crypto::{accepts, encode_password, is_encoding_of, utf8, verify_password};
use crate::media::MediaError;
use crate::{spec_db_err_to_status, DbError, Status};
use vstd::prelude::*;

verus! {

/// The kind of an account.
#[derive(Clone, Copy, Debug, PartialEq, Eq, Structural)]
pub enum AccountType {
    Student,
    Parent,
    Teacher,
}

/// What an account operation failed on: the database, the base64 content
/// of a picture, or writing a file (with the error's text).
#[derive(Debug)]
pub enum AccountError {
    Sqlx(DbError),
    Base64(base64::DecodeError),
    IO(String),
}

impl From<DbError> for AccountError {
    fn from(value: DbError) -> (r: Self) {
        AccountError::Sqlx(value)
    }
}

impl vstd::std_specs::convert::FromSpecImpl<DbError> for AccountError {
    open spec fn obeys_from_spec() -> bool {
        true
    }

    open spec fn from_spec(v: DbError) -> Self {
        AccountError::Sqlx(v)
    }
}

/// The account error that a media error amounts to.
pub open spec fn account_error_of(e: MediaError) -> AccountError {
    match e {
        MediaError::Sqlx(d) => AccountError::Sqlx(d),
        MediaError::Base64(d) => AccountError::Base64(d),
        MediaError::IO(t) => AccountError::IO(t),
    }
}

impl From<MediaError> for AccountError {
    fn from(value: MediaError) -> (r: Self) {
        match value {
            MediaError::Sqlx(e) => AccountError::Sqlx(e),
            MediaError::Base64(e) => AccountError::Base64(e),
            MediaError::IO(e) => AccountError::IO(e),
        }
    }
}

impl vstd::std_specs::convert::FromSpecImpl<MediaError> for AccountError {
    open spec fn obeys_from_spec() -> bool {
        true
    }

    open spec fn from_spec(v: MediaError) -> Self {
        account_error_of(v)
    }
}

/// Why an account could not be created.
#[derive(Debug)]
pub enum NewAccountError {
    Base(AccountError),
    InvalidUsername,
    InvalidPassword,
    UsernameTaken,
}

impl From<AccountError> for NewAccountError {
    fn from(value: AccountError) -> (r: Self) {
        NewAccountError::Base(value)
    }
}

impl vstd::std_specs::convert::FromSpecImpl<AccountError> for NewAccountError {
    open spec fn obeys_from_spec() -> bool {
        true
    }

    open spec fn from_spec(v: AccountError) -> Self {
        NewAccountError::Base(v)
    }
}

impl From<DbError> for NewAccountError {
    fn from(value: DbError) -> (r: Self) {
        NewAccountError::Base(AccountError::Sqlx(value))
    }
}

impl vstd::std_specs::convert::FromSpecImpl<DbError> for NewAccountError {
    open spec fn obeys_from_spec() -> bool {
        true
    }

    open spec fn from_spec(v: DbError) -> Self {
        NewAccountError::Base(AccountError::Sqlx(v))
    }
}

impl From<MediaError> for NewAccountError {
    fn from(value: MediaError) -> (r: Self) {
        NewAccountError::Base(AccountError::from(value))
    }
}

impl vstd::std_specs::convert::FromSpecImpl<MediaError> for NewAccountError {
    open spec fn obeys_from_spec() -> bool {
        true
    }

    open spec fn from_spec(v: MediaError) -> Self {
        NewAccountError::Base(account_error_of(v))
    }
}

/// The text a client is shown for a failed account creation.
pub open spec fn new_account_error_text(e: NewAccountError) -> Seq<char> {
    match e {
        NewAccountError::Base(AccountError::Sqlx(d)) => d.message@,
        NewAccountError::Base(AccountError::IO(t)) => t@,
        NewAccountError::Base(AccountError::Base64(_)) => "invalid base64"@,
        NewAccountError::InvalidUsername => "invalid username"@,
        NewAccountError::InvalidPassword => "invalid password"@,
        NewAccountError::UsernameTaken => "username is taken"@,
    }
}

impl NewAccountError {
    /// The text a client is shown for this error.
    pub fn to_string(&self) -> (r: String)
        ensures
            r@ == new_account_error_text(*self),
    {
        match self {
            NewAccountError::Base(AccountError::Sqlx(e)) => e.message.clone(),
            NewAccountError::Base(AccountError::IO(e)) => e.clone(),
            NewAccountError::Base(AccountError::Base64(_)) => String::from_str("invalid base64"),
            NewAccountError::InvalidUsername => String::from_str("invalid username"),
            NewAccountError::InvalidPassword => String::from_str("invalid password"),
            NewAccountError::UsernameTaken => String::from_str("username is taken"),
        }
    }
}

/// A stored account.
#[derive(Debug)]
pub struct Account {
    pub id: i32,
    pub username: String,
    pub password_hash: String,
    pub profile_picture_uuid: Option<u128>,
    pub account_type: AccountType,
}

/// The texts of a sequence of strings.
pub open spec fn name_texts(v: Seq<String>) -> Seq<Seq<char>> {
    v.map_values(|s: String| s@)
}

/// The ids and usernames of all accounts, kept beside the database.
#[derive(Debug)]
pub struct AccountCache {
    pub ids: Vec<i32>,
    pub usernames: Vec<String>,
}

impl AccountCache {
    /// An empty cache.
    pub fn new() -> (r: Self)
        ensures
            r.ids@ == Seq::<i32>::empty(),
            r.usernames@ == Seq::<String>::empty(),
    {
        AccountCache { ids: Vec::new(), usernames: Vec::new() }
    }

    /// Replaces the cached ids and usernames with those read from the database.
    pub fn load_cache(&mut self, db_ids: Vec<i32>, db_usernames: Vec<String>)
        ensures
            final(self).ids@ == db_ids@,
            final(self).usernames@ == db_usernames@,
    {
        self.ids = db_ids;
        self.usernames = db_usernames;
    }

    /// Records that an account with `id` exists.
    pub fn cache_id(&mut self, id: &i32)
        ensures
            final(self).ids@ == old(self).ids@.push(*id),
            final(self).usernames@ == old(self).usernames@,
    {
        self.ids.push(*id);
    }

    /// Forgets every entry `id`.
    pub fn uncache_id(&mut self, id: &i32)
        ensures
            final(self).ids@ == old(self).ids@.filter(|i: i32| i != *id),
            final(self).usernames@ == old(self).usernames@,
    {
        let ghost before = self.ids@;
        let ghost pred = |i: i32| i != *id;
        let mut kept: Vec<i32> = Vec::new();
        let mut k: usize = 0;
        while k < self.ids.len()
            invariant
                k <= before.len(),
                self.ids@ == before,
                pred == (|i: i32| i != *id),
                kept@ == before.take(k as int).filter(pred),
            decreases before.len() - k,
        {
            let x = self.ids[k];
            proof {
                assert(before.take(k + 1) =~= before.take(k as int).push(x));
                before.take(k as int).lemma_filter_push(x, pred);
            }
            if x != *id {
                kept.push(x);
            }
            assert(kept@ =~= before.take(k + 1).filter(pred));
            k = k + 1;
        }
        assert(before.take(k as int) =~= before);
        self.ids = kept;
    }

    /// Records that an account named `username` exists.
    pub fn cache_username(&mut self, username: &String)
        ensures
            name_texts(final(self).usernames@) == name_texts(old(self).usernames@).push(username@),
            final(self).ids@ == old(self).ids@,
    {
        let copy = username.clone();
        self.usernames.push(copy);
        assert(name_texts(self.usernames@) =~= name_texts(old(self).usernames@).push(username@));
    }

    /// Forgets every entry equal to `username`.
    pub fn uncache_username(&mut self, username: &String)
        ensures
            name_texts(final(self).usernames@) == name_texts(old(self).usernames@).filter(|u: Seq<char>| u != username@),
            final(self).ids@ == old(self).ids@,
    {
        let ghost before = name_texts(self.usernames@);
        let ghost pred = |u: Seq<char>| u != username@;
        let mut kept: Vec<String> = Vec::new();
        let mut k: usize = 0;
        while k < self.usernames.len()
            invariant
                k <= before.len(),
                name_texts(self.usernames@) == before,
                pred == (|u: Seq<char>| u != username@),
                name_texts(kept@) == before.take(k as int).filter(pred),
            decreases before.len() - k,
        {
            let ghost x = before[k as int];
            assert(self.usernames@[k as int]@ == x);
            proof {
                assert(before.take(k + 1) =~= before.take(k as int).push(x));
                before.take(k as int).lemma_filter_push(x, pred);
            }
            if self.usernames[k] != *username {
                let copy = self.usernames[k].clone();
                kept.push(copy);
                assert(name_texts(kept@) =~= before.take(k + 1).filter(pred));
            } else {
                assert(name_texts(kept@) =~= before.take(k + 1).filter(pred));
            }
            k = k + 1;
        }
        assert(before.take(k as int) =~= before);
        self.usernames = kept;
    }

    /// Whether an account with `id` exists.
    pub fn exists_id(&self, id: &i32) -> (r: bool)
        ensures
            r == self.ids@.contains(*id),
    {
        let mut k: usize = 0;
        while k < self.ids.len()
            invariant
                k <= self.ids@.len(),
                forall|j: int| 0 <= j < k ==> self.ids@[j] != *id,
            decreases self.ids@.len() - k,
        {
            if self.ids[k] == *id {
                assert(self.ids@[k as int] == *id);
                return true;
            }
            k = k + 1;
        }
        false
    }

    /// Whether an account named `username` exists.
    pub fn exists_username(&self, username: &String) -> (r: bool)
        ensures
            r == name_texts(self.usernames@).contains(username@),
    {
        let mut k: usize = 0;
        while k < self.usernames.len()
            invariant
                k <= self.usernames@.len(),
                forall|j: int| 0 <= j < k ==> #[trigger] name_texts(self.usernames@)[j] != username@,
            decreases self.usernames@.len() - k,
        {
            if self.usernames[k] == *username {
                assert(name_texts(self.usernames@)[k as int] == username@);
                return true;
            }
            k = k + 1;
        }
        false
    }

    /// The check made before an account is created: its username must be free.
    pub fn check_new_username(&self, username: &String) -> (r: Result<(), NewAccountError>)
        ensures
            r is Ok <==> !name_texts(self.usernames@).contains(username@),
            r matches Err(e) ==> e is UsernameTaken,
    {
        if self.exists_username(username) {
            return Err(NewAccountError::UsernameTaken);
        }
        Ok(())
    }

    /// Records a newly created account.
    pub fn register(&mut self, account: &Account)
        ensures
            final(self).ids@ == old(self).ids@.push(account.id),
            name_texts(final(self).usernames@) == name_texts(old(self).usernames@).push(account.username@),
    {
        self.cache_id(&account.id);
        self.cache_username(&account.username);
    }

    /// Forgets a deleted account.
    pub fn forget(&mut self, account: &Account)
        ensures
            final(self).ids@ == old(self).ids@.filter(|i: i32| i != account.id),
            name_texts(final(self).usernames@) == name_texts(old(self).usernames@).filter(|u: Seq<char>| u != account.username@),
    {
        self.uncache_id(&account.id);
        self.uncache_username(&account.username);
    }
}

/// After an id is cached it exists; after it is uncached it does not, and
/// no other id changes.
pub proof fn cached_ids_law(ids: Seq<i32>, id: i32, other: i32)
    requires
        other != id,
    ensures
        ids.push(id).contains(id),
        ids.push(id).contains(other) == ids.contains(other),
        !ids.filter(|i: i32| i != id).contains(id),
        ids.filter(|i: i32| i != id).contains(other) == ids.contains(other),
{
    broadcast use vstd::seq_lib::group_filter_ensures;
    assert(ids.push(id)[ids.len() as int] == id);
    if ids.contains(other) {
        let j = choose|j: int| 0 <= j < ids.len() && ids[j] == other;
        assert(ids.push(id)[j] == other);
    }
    if ids.push(id).contains(other) {
        let j = choose|j: int| 0 <= j < ids.len() + 1 && ids.push(id)[j] == other;
        assert(ids[j] == other);
    }
    let pred = |i: i32| i != id;
    if ids.filter(pred).contains(id) {
        let j = choose|j: int| 0 <= j < ids.filter(pred).len() && ids.filter(pred)[j] == id;
        ids.lemma_filter_pred(pred, j);
    }
    if ids.contains(other) {
        let j = choose|j: int| 0 <= j < ids.len() && ids[j] == other;
        ids.lemma_filter_contains(pred, j);
    }
    if ids.filter(pred).contains(other) {
        ids.lemma_filter_contains_rev(pred, other);
    }
}

/// After a username is cached it exists; after it is uncached it does not,
/// and no other username changes.
pub proof fn cached_usernames_law(names: Seq<Seq<char>>, name: Seq<char>, other: Seq<char>)
    requires
        other != name,
    ensures
        names.push(name).contains(name),
        names.push(name).contains(other) == names.contains(other),
        !names.filter(|u: Seq<char>| u != name).contains(name),
        names.filter(|u: Seq<char>| u != name).contains(other) == names.contains(other),
{
    broadcast use vstd::seq_lib::group_filter_ensures;
    assert(names.push(name)[names.len() as int] == name);
    if names.contains(other) {
        let j = choose|j: int| 0 <= j < names.len() && names[j] == other;
        assert(names.push(name)[j] == other);
    }
    if names.push(name).contains(other) {
        let j = choose|j: int| 0 <= j < names.len() + 1 && names.push(name)[j] == other;
        assert(names[j] == other);
    }
    let pred = |u: Seq<char>| u != name;
    if names.filter(pred).contains(name) {
        let j = choose|j: int| 0 <= j < names.filter(pred).len() && names.filter(pred)[j] == name;
        names.lemma_filter_pred(pred, j);
    }
    if names.contains(other) {
        let j = choose|j: int| 0 <= j < names.len() && names[j] == other;
        names.lemma_filter_contains(pred, j);
    }
    if names.filter(pred).contains(other) {
        names.lemma_filter_contains_rev(pred, other);
    }
}

impl Account {
    /// Checks `password` against this account. When it is accepted, the
    /// result is a fresh stored form of it (re-hashed a new random number of
    /// times) to store in place of the old one; when it is refused, `None`.
    pub fn check_password(&self, password: &String) -> (r: Option<String>)
        ensures
            r is Some <==> accepts(utf8(password@), self.password_hash@),
            r matches Some(h) ==> is_encoding_of(utf8(password@), h@),
    {
        if verify_password(password, &self.password_hash) {
            Some(encode_password(password))
        } else {
            None
        }
    }

    /// Stores a new stored form of the password.
    pub fn set_password_hash(&mut self, password_hash: String)
        ensures
            final(self).password_hash == password_hash,
            final(self).id == old(self).id,
            final(self).username == old(self).username,
            final(self).profile_picture_uuid == old(self).profile_picture_uuid,
            final(self).account_type == old(self).account_type,
    {
        self.password_hash = password_hash;
    }
}

/// What checking the password of an account gave: the account could not
/// be read (with the database failure), the check itself failed, or it
/// answered whether the password is right.
#[derive(Debug)]
pub enum PasswordOutcome {
    NoAccount(DbError),
    CheckFailed,
    Answered(bool),
}

/// Which fields of an account a change request carries.
#[derive(Clone, Copy, Debug, PartialEq, Eq, Structural)]
pub struct AccountPatch {
    pub new_username: bool,
    pub new_account_type: bool,
    pub new_password: bool,
    pub new_profile_picture: bool,
}

/// One field of an account to write.
#[derive(Clone, Copy, Debug, PartialEq, Eq, Structural)]
pub enum AccountWrite {
    Username,
    AccountType,
    Password,
    ProfilePicture,
}

/// The writes a change request asks for, in the order they are made:
/// username, account type, password, profile picture, each where present.
pub open spec fn account_writes(p: AccountPatch) -> Seq<AccountWrite> {
    (if p.new_username { seq![AccountWrite::Username] } else { Seq::empty() })
    + (if p.new_account_type { seq![AccountWrite::AccountType] } else { Seq::empty() })
    + (if p.new_password { seq![AccountWrite::Password] } else { Seq::empty() })
    + (if p.new_profile_picture { seq![AccountWrite::ProfilePicture] } else { Seq::empty() })
}

/// The place of a field among the fields of an account change.
pub open spec fn account_write_rank(w: AccountWrite) -> int {
    match w {
        AccountWrite::Username => 0,
        AccountWrite::AccountType => 1,
        AccountWrite::Password => 2,
        AccountWrite::ProfilePicture => 3,
    }
}

/// Every field a change request carries is written exactly once, and no
/// other: the writes hold a field exactly when the request carries it,
/// whatever else it carries, and come in the order username, account type,
/// password, profile picture, each once.
pub proof fn account_writes_are_the_carried_fields(p: AccountPatch)
    ensures
        account_writes(p).contains(AccountWrite::Username) <==> p.new_username,
        account_writes(p).contains(AccountWrite::AccountType) <==> p.new_account_type,
        account_writes(p).contains(AccountWrite::Password) <==> p.new_password,
        account_writes(p).contains(AccountWrite::ProfilePicture) <==> p.new_profile_picture,
        forall|i: int, j: int| 0 <= i < j < account_writes(p).len()
            ==> account_write_rank(#[trigger] account_writes(p)[i]) < account_write_rank(#[trigger] account_writes(p)[j]),
{
    let s = account_writes(p);
    let a = if p.new_username { 1int } else { 0int };
    let b = a + if p.new_account_type { 1int } else { 0int };
    let c = b + if p.new_password { 1int } else { 0int };
    lemma_account_write_position(p, 0);
    assert forall|i: int, j: int| 0 <= i < j < s.len()
        implies account_write_rank(#[trigger] s[i]) < account_write_rank(#[trigger] s[j]) by {
        lemma_account_write_position(p, i);
        lemma_account_write_position(p, j);
    }
    assert forall|x: AccountWrite| #[trigger] s.contains(x) implies (match x {
        AccountWrite::Username => p.new_username,
        AccountWrite::AccountType => p.new_account_type,
        AccountWrite::Password => p.new_password,
        AccountWrite::ProfilePicture => p.new_profile_picture,
    }) by {
        let k = choose|k: int| 0 <= k < s.len() && s[k] == x;
        lemma_account_write_position(p, k);
    }
    if p.new_username {
        assert(s[0] == AccountWrite::Username);
    }
    if p.new_account_type {
        lemma_account_write_position(p, a);
        assert(s[a] == AccountWrite::AccountType);
    }
    if p.new_password {
        lemma_account_write_position(p, b);
        assert(s[b] == AccountWrite::Password);
    }
    if p.new_profile_picture {
        lemma_account_write_position(p, c);
        assert(s[c] == AccountWrite::ProfilePicture);
    }
}

/// Where the `k`-th write of an account change stands.
proof fn lemma_account_write_position(p: AccountPatch, k: int)
    ensures
        ({
            let a = if p.new_username { 1int } else { 0int };
            let b = a + if p.new_account_type { 1int } else { 0int };
            let c = b + if p.new_password { 1int } else { 0int };
            &&& account_writes(p).len() == c + if p.new_profile_picture { 1int } else { 0int }
            &&& 0 <= k < account_writes(p).len() ==> account_writes(p)[k] == (
                if k < a {
                    AccountWrite::Username
                } else if k < b {
                    AccountWrite::AccountType
                } else if k < c {
                    AccountWrite::Password
                } else {
                    AccountWrite::ProfilePicture
                }
            )
        }),
{
    let u = if p.new_username { seq![AccountWrite::Username] } else { Seq::<AccountWrite>::empty() };
    let t = if p.new_account_type { seq![AccountWrite::AccountType] } else { Seq::<AccountWrite>::empty() };
    let w = if p.new_password { seq![AccountWrite::Password] } else { Seq::<AccountWrite>::empty() };
    let f = if p.new_profile_picture { seq![AccountWrite::ProfilePicture] } else { Seq::<AccountWrite>::empty() };
    let ut = u + t;
    let utw = ut + w;
    assert(account_writes(p) == utw + f);
    if 0 <= k < account_writes(p).len() {
        if k < u.len() {
            assert(account_writes(p)[k] == u[k]);
        } else if k < ut.len() {
            assert(account_writes(p)[k] == ut[k]);
            assert(ut[k] == t[k - u.len()]);
        } else if k < utw.len() {
            assert(account_writes(p)[k] == utw[k]);
            assert(utw[k] == w[k - ut.len()]);
        } else {
            assert(account_writes(p)[k] == f[k - utw.len()]);
        }
    }
}

/// How far a change request has got: how many of its writes are done.
#[derive(Clone, Copy, Debug, PartialEq, Eq, Structural)]
pub struct AccountPatchState {
    pub patch: AccountPatch,
    pub written: usize,
}

/// What one write of an account gave.
#[derive(Debug)]
pub enum AccountWriteResult {
    /// `Ok(false)`: the new username breaks the username rules.
    Username(Result<bool, DbError>),
    AccountType(Result<(), DbError>),
    /// `Ok(false)`: the new password breaks the password rules.
    Password(Result<bool, DbError>),
    ProfilePicture(Result<(), AccountError>),
}

/// What the service learned while changing an account.
#[derive(Debug)]
pub enum AccountPatchEvent {
    /// The request came in.
    Start,
    /// The account's password was checked.
    AccountChecked(PasswordOutcome),
    /// The pending write was made.
    Written(AccountWriteResult),
}

/// What the service does next while changing an account.
#[derive(Debug)]
pub enum AccountPatchAction {
    /// Check the account's password.
    CheckAccount,
    /// Write this field.
    Write(AccountWrite),
    /// Answer the request with a status.
    Answer(Status),
    /// Answer 400 Bad Request with this text.
    Refuse(&'static str),
}

/// The write after `s`, or 200 OK when all are done.
pub open spec fn account_next(s: AccountPatchState) -> AccountPatchAction {
    if s.written < account_writes(s.patch).len() {
        AccountPatchAction::Write(account_writes(s.patch)[s.written as int])
    } else {
        AccountPatchAction::Answer(Status { code: 200 })
    }
}

/// Whether a write result is a success.
pub open spec fn account_write_succeeded(res: AccountWriteResult) -> bool {
    match res {
        AccountWriteResult::Username(Ok(b)) => b,
        AccountWriteResult::AccountType(Ok(())) => true,
        AccountWriteResult::Password(Ok(b)) => b,
        AccountWriteResult::ProfilePicture(Ok(())) => true,
        _ => false,
    }
}

/// The `i`-th write of `p`, if there is one.
fn account_write_at(p: &AccountPatch, i: usize) -> (r: Option<AccountWrite>)
    ensures
        r == if i < account_writes(*p).len() {
            Some(account_writes(*p)[i as int])
        } else {
            None::<AccountWrite>
        },
{
    let mut v: Vec<AccountWrite> = Vec::new();
    if p.new_username {
        v.push(AccountWrite::Username);
    }
    if p.new_account_type {
        v.push(AccountWrite::AccountType);
    }
    if p.new_password {
        v.push(AccountWrite::Password);
    }
    if p.new_profile_picture {
        v.push(AccountWrite::ProfilePicture);
    }
    assert(v@ =~= account_writes(*p));
    if i < v.len() {
        Some(v[i])
    } else {
        None
    }
}

fn account_next_action(s: AccountPatchState) -> (r: AccountPatchAction)
    ensures
        r == account_next(s),
{
    match account_write_at(&s.patch, s.written) {
        Some(w) => AccountPatchAction::Write(w),
        None => AccountPatchAction::Answer(Status { code: 200 }),
    }
}

/// The next step of changing an account: the account's password must be
/// right (a failed lookup is answered as `db_err_to_status` with 404 Not
/// Found says, a wrong password 401 Unauthorized); then the username,
/// account type, password and profile picture are written in that order,
/// each where the request carries it; the first failed write is answered
/// (a bad username, account type, password or picture base64 with 400 and
/// its text, a failed username write as `db_err_to_status` with 409
/// Conflict says, any other failure 500); when all are done, 200 OK.
pub fn update_account_step(state: AccountPatchState, event: AccountPatchEvent) -> (r: (AccountPatchState, AccountPatchAction))
    ensures
        event is Start ==> r == (state, AccountPatchAction::CheckAccount),
        event matches AccountPatchEvent::AccountChecked(o) ==> match o {
            PasswordOutcome::NoAccount(e) => r == (state, AccountPatchAction::Answer(spec_db_err_to_status(e.kind, Status { code: 404 }))),
            PasswordOutcome::CheckFailed => r == (state, AccountPatchAction::Answer(Status { code: 500 })),
            PasswordOutcome::Answered(false) => r == (state, AccountPatchAction::Answer(Status { code: 401 })),
            PasswordOutcome::Answered(true) => r.0 == AccountPatchState { patch: state.patch, written: 0 } && r.1 == account_next(r.0),
        },
        event matches AccountPatchEvent::Written(res) ==> {
            if account_write_succeeded(res) {
                if state.written < account_writes(state.patch).len() {
                    r.0 == AccountPatchState { patch: state.patch, written: (state.written + 1) as usize } && r.1 == account_next(r.0)
                } else {
                    r == (state, AccountPatchAction::Answer(Status { code: 200 }))
                }
            } else {
                &&& r.0 == state
                &&& match res {
                    AccountWriteResult::Username(Ok(_)) => r.1 matches AccountPatchAction::Refuse(t) && t@ == "bad username"@,
                    AccountWriteResult::Username(Err(e)) => r.1 == AccountPatchAction::Answer(spec_db_err_to_status(e.kind, Status { code: 409 })),
                    AccountWriteResult::AccountType(_) => r.1 matches AccountPatchAction::Refuse(t) && t@ == "bad account type"@,
                    AccountWriteResult::Password(Ok(_)) => r.1 matches AccountPatchAction::Refuse(t) && t@ == "bad password"@,
                    AccountWriteResult::Password(Err(_)) => r.1 == AccountPatchAction::Answer(Status { code: 500 }),
                    AccountWriteResult::ProfilePicture(Err(AccountError::Base64(_))) => r.1 matches AccountPatchAction::Refuse(t) && t@ == "bad profile picture base64"@,
                    AccountWriteResult::ProfilePicture(_) => r.1 == AccountPatchAction::Answer(Status { code: 500 }),
                }
            }
        },
{
    match event {
        AccountPatchEvent::Start => (state, AccountPatchAction::CheckAccount),
        AccountPatchEvent::AccountChecked(o) => match o {
            PasswordOutcome::NoAccount(e) => (state, AccountPatchAction::Answer(crate::db_err_to_status(&e, Status { code: 404 }))),
            PasswordOutcome::CheckFailed => (state, AccountPatchAction::Answer(Status { code: 500 })),
            PasswordOutcome::Answered(ok) => if ok {
                let s = AccountPatchState { patch: state.patch, written: 0 };
                (s, account_next_action(s))
            } else {
                (state, AccountPatchAction::Answer(Status { code: 401 }))
            },
        },
        AccountPatchEvent::Written(res) => {
            let refusal = match res {
                AccountWriteResult::Username(Ok(true)) => None,
                AccountWriteResult::Username(Ok(false)) => Some(AccountPatchAction::Refuse("bad username")),
                AccountWriteResult::Username(Err(e)) => Some(AccountPatchAction::Answer(crate::db_err_to_status(&e, Status { code: 409 }))),
                AccountWriteResult::AccountType(Ok(())) => None,
                AccountWriteResult::AccountType(Err(_)) => Some(AccountPatchAction::Refuse("bad account type")),
                AccountWriteResult::Password(Ok(true)) => None,
                AccountWriteResult::Password(Ok(false)) => Some(AccountPatchAction::Refuse("bad password")),
                AccountWriteResult::Password(Err(_)) => Some(AccountPatchAction::Answer(Status { code: 500 })),
                AccountWriteResult::ProfilePicture(Ok(())) => None,
                AccountWriteResult::ProfilePicture(Err(AccountError::Base64(_))) => Some(AccountPatchAction::Refuse("bad profile picture base64")),
                AccountWriteResult::ProfilePicture(Err(_)) => Some(AccountPatchAction::Answer(Status { code: 500 })),
            };
            match refusal {
                Some(a) => (state, a),
                None => match account_write_at(&state.patch, state.written) {
                    Some(_) => {
                        let s = AccountPatchState { patch: state.patch, written: state.written + 1 };
                        (s, account_next_action(s))
                    },
                    None => (state, AccountPatchAction::Answer(Status { code: 200 })),
                },
            }
        },
    }
}

/// The answer a password check stops a request with, if it does: `missing`
/// when the account cannot be read, 500 when the check fails, 401
/// Unauthorized for a wrong password, and nothing for a right one.
pub open spec fn password_gate(o: PasswordOutcome, missing: Status) -> Option<Status> {
    match o {
        PasswordOutcome::NoAccount(_) => Some(missing),
        PasswordOutcome::CheckFailed => Some(Status { code: 500 }),
        PasswordOutcome::Answered(ok) => if ok {
            None
        } else {
            Some(Status { code: 401 })
        },
    }
}

/// The answer a password check stops a request with, if it does.
pub fn gate_password(o: &PasswordOutcome, missing: Status) -> (r: Option<Status>)
    ensures
        r == password_gate(*o, missing),
{
    match o {
        PasswordOutcome::NoAccount(_) => Some(missing),
        PasswordOutcome::CheckFailed => Some(Status { code: 500 }),
        PasswordOutcome::Answered(ok) => if *ok {
            None
        } else {
            Some(Status { code: 401 })
        },
    }
}

/// What the service learned while deleting an account.
#[derive(Debug)]
pub enum DeleteAccountEvent {
    /// The request came in.
    Start,
    /// Whether the account is known.
    Exists(bool),
    /// The account's password was checked.
    AccountChecked(PasswordOutcome),
    /// The account was deleted, or not.
    Deleted(bool),
}

/// What the service does next while deleting an account.
#[derive(Debug)]
pub enum DeleteAccountAction {
    CheckExists,
    CheckAccount,
    Delete,
    Answer(Status),
}

/// The next step of deleting an account: an unknown account is 404 Not
/// Found; its password must be right (a failed read or check is 500, a
/// wrong password 401); then it is deleted (200 OK, or 500).
pub fn delete_account_step(event: DeleteAccountEvent) -> (r: DeleteAccountAction)
    ensures
        event is Start ==> r == DeleteAccountAction::CheckExists,
        event matches DeleteAccountEvent::Exists(e) ==> r == if e {
            DeleteAccountAction::CheckAccount
        } else {
            DeleteAccountAction::Answer(Status { code: 404 })
        },
        event matches DeleteAccountEvent::AccountChecked(o) ==> r == match password_gate(o, Status { code: 500 }) {
            Some(s) => DeleteAccountAction::Answer(s),
            None => DeleteAccountAction::Delete,
        },
        event matches DeleteAccountEvent::Deleted(ok) ==> r == DeleteAccountAction::Answer(Status { code: if ok { 200 } else { 500 } }),
{
    match event {
        DeleteAccountEvent::Start => DeleteAccountAction::CheckExists,
        DeleteAccountEvent::Exists(e) => if e {
            DeleteAccountAction::CheckAccount
        } else {
            DeleteAccountAction::Answer(Status { code: 404 })
        },
        DeleteAccountEvent::AccountChecked(o) => match gate_password(&o, Status { code: 500 }) {
            Some(s) => DeleteAccountAction::Answer(s),
            None => DeleteAccountAction::Delete,
        },
        DeleteAccountEvent::Deleted(ok) => DeleteAccountAction::Answer(Status { code: if ok { 200 } else { 500 } }),
    }
}

/// How a request to create an account is answered.
#[derive(Debug)]
pub enum CreateAccountReply {
    /// 201 Created, with the new account's address.
    Created(String),
    /// A bare status.
    Answer(Status),
    /// 400 Bad Request with this text.
    Refuse(String),
}

/// The answer to a request to create an account, given what creating it
/// gave (the new account's id, or the error): its address `account/<id>`;
/// 500 for a database or file failure; otherwise 400 with the error's text.
pub fn create_account_reply(result: Result<i32, NewAccountError>) -> (r: CreateAccountReply)
    ensures
        match result {
            Ok(id) => r matches CreateAccountReply::Created(t) && t@ == "account/"@ + decimal(id as int),
            Err(NewAccountError::Base(AccountError::Sqlx(_))) => r == CreateAccountReply::Answer(Status { code: 500 }),
            Err(NewAccountError::Base(AccountError::IO(_))) => r == CreateAccountReply::Answer(Status { code: 500 }),
            Err(e) => r matches CreateAccountReply::Refuse(t) && t@ == new_account_error_text(e),
        },
{
    match result {
        Ok(id) => CreateAccountReply::Created(located("account/", id)),
        Err(NewAccountError::Base(AccountError::Sqlx(_))) => CreateAccountReply::Answer(Status { code: 500 }),
        Err(NewAccountError::Base(AccountError::IO(_))) => CreateAccountReply::Answer(Status { code: 500 }),
        Err(e) => CreateAccountReply::Refuse(e.to_string()),
    }
}

} // verus!
