//! The credential store: one record per account, found by username, email,
//! verification token or temporary token, and changed field by field.

use vstd::prelude::*;
use crate::clock::time_view;

verus! {

/// One account, as the store keeps it.
#[derive(Debug, Clone, PartialEq, Eq)]
pub struct UserRecord {
    pub username: String,
    pub email: String,
    /// One-way hash of the current password; never the password itself.
    pub password_hash: String,
    /// Proves ownership of the address. It stays in place once used; the
    /// `verified` flag is what changes. Empty where no proof was asked for.
    pub verification_token: String,
    pub verified: bool,
    pub verification_attempts: u32,
    /// Seconds since the epoch after which the verification token is dead.
    pub token_expiry: i64,
    pub reset_password_token: Option<String>,
    pub reset_token_expiry: Option<i64>,
    pub has_2fa: bool,
    /// The code of a login challenge.
    pub two_fa_code: Option<String>,
    pub two_fa_expiry: Option<i64>,
    /// The code of a pending switch of the second factor, on or off.
    pub temp_2fa_code: Option<String>,
    /// The handle of the challenge that is open, of either kind.
    pub temp_token: Option<String>,
    pub temp_token_expiry: Option<i64>,
}

/// A `UserRecord` over mathematical values.
pub struct UserView {
    pub username: Seq<char>,
    pub email: Seq<char>,
    pub password_hash: Seq<char>,
    pub verification_token: Seq<char>,
    pub verified: bool,
    pub verification_attempts: nat,
    pub token_expiry: int,
    pub reset_password_token: Option<Seq<char>>,
    pub reset_token_expiry: Option<int>,
    pub has_2fa: bool,
    pub two_fa_code: Option<Seq<char>>,
    pub two_fa_expiry: Option<int>,
    pub temp_2fa_code: Option<Seq<char>>,
    pub temp_token: Option<Seq<char>>,
    pub temp_token_expiry: Option<int>,
}

/// The view of a text that may be absent.
pub open spec fn text_view(o: Option<String>) -> Option<Seq<char>> {
    match o {
        Some(s) => Some(s@),
        None => None,
    }
}

impl View for UserRecord {
    type V = UserView;

    open spec fn view(&self) -> UserView {
        UserView {
            username: self.username@,
            email: self.email@,
            password_hash: self.password_hash@,
            verification_token: self.verification_token@,
            verified: self.verified,
            verification_attempts: self.verification_attempts as nat,
            token_expiry: self.token_expiry as int,
            reset_password_token: text_view(self.reset_password_token),
            reset_token_expiry: time_view(self.reset_token_expiry),
            has_2fa: self.has_2fa,
            two_fa_code: text_view(self.two_fa_code),
            two_fa_expiry: time_view(self.two_fa_expiry),
            temp_2fa_code: text_view(self.temp_2fa_code),
            temp_token: text_view(self.temp_token),
            temp_token_expiry: time_view(self.temp_token_expiry),
        }
    }
}

/// The column that a lookup goes by.
#[derive(Debug, Clone, Copy)]
pub enum KeyKind {
    Username,
    Email,
    VerificationToken,
    TempToken,
}

impl UserView {
    /// The account as registration creates it: nothing pending, no second
    /// factor, no attempt counted.
    pub open spec fn fresh(
        username: Seq<char>,
        email: Seq<char>,
        password_hash: Seq<char>,
        verification_token: Seq<char>,
        token_expiry: int,
        verified: bool,
    ) -> UserView {
        UserView {
            username,
            email,
            password_hash,
            verification_token,
            verified,
            verification_attempts: 0,
            token_expiry,
            reset_password_token: None,
            reset_token_expiry: None,
            has_2fa: false,
            two_fa_code: None,
            two_fa_expiry: None,
            temp_2fa_code: None,
            temp_token: None,
            temp_token_expiry: None,
        }
    }

    /// Whether the account holds `value` in the column `kind`. An absent
    /// temporary token matches no value.
    pub open spec fn has_key(self, kind: KeyKind, value: Seq<char>) -> bool {
        match kind {
            KeyKind::Username => self.username == value,
            KeyKind::Email => self.email == value,
            KeyKind::VerificationToken => self.verification_token == value,
            KeyKind::TempToken => self.temp_token == Some(value),
        }
    }

    /// One more verification attempt counted, and the flag as given.
    pub open spec fn with_verification_attempt(self, verified: bool) -> UserView {
        UserView { verified, verification_attempts: self.verification_attempts + 1, ..self }
    }

    /// A login challenge opened: its code and handle, each with its expiry.
    pub open spec fn with_login_challenge(
        self,
        code: Seq<char>,
        code_expiry: int,
        temp_token: Seq<char>,
        temp_token_expiry: int,
    ) -> UserView {
        UserView {
            two_fa_code: Some(code),
            two_fa_expiry: Some(code_expiry),
            temp_token: Some(temp_token),
            temp_token_expiry: Some(temp_token_expiry),
            ..self
        }
    }

    /// The temporary token used up. The login code stays where it is.
    pub open spec fn without_temp_token(self) -> UserView {
        UserView { temp_token: None, temp_token_expiry: None, ..self }
    }

    /// A switch of the second factor asked for: code and handle, no expiry
    /// of their own.
    pub open spec fn with_pending_switch(self, code: Seq<char>, temp_token: Seq<char>) -> UserView {
        UserView { temp_2fa_code: Some(code), temp_token: Some(temp_token), ..self }
    }

    /// The second factor switched on, the pending secrets used up.
    pub open spec fn with_2fa_on(self) -> UserView {
        UserView { has_2fa: true, temp_2fa_code: None, temp_token: None, ..self }
    }

    /// The second factor switched off: the pending secrets and the login
    /// code with its expiry are gone.
    pub open spec fn with_2fa_off(self) -> UserView {
        UserView {
            has_2fa: false,
            two_fa_code: None,
            two_fa_expiry: None,
            temp_2fa_code: None,
            temp_token: None,
            ..self
        }
    }

    /// A password reset opened.
    pub open spec fn with_reset_token(self, token: Seq<char>, expiry: int) -> UserView {
        UserView { reset_password_token: Some(token), reset_token_expiry: Some(expiry), ..self }
    }

    /// The password replaced, the reset token used up.
    pub open spec fn with_new_password(self, password_hash: Seq<char>) -> UserView {
        UserView { password_hash, reset_password_token: None, reset_token_expiry: None, ..self }
    }
}

/// `i` is the first account of `s` that holds `value` in the column `kind`.
pub open spec fn first_match(s: Seq<UserView>, kind: KeyKind, value: Seq<char>, i: int) -> bool {
    &&& 0 <= i < s.len()
    &&& s[i].has_key(kind, value)
    &&& forall|j: int| 0 <= j < i ==> !(#[trigger] s[j]).has_key(kind, value)
}

/// The account that a lookup by `kind` and `value` finds: the first that
/// matches, or none.
pub open spec fn lookup(s: Seq<UserView>, kind: KeyKind, value: Seq<char>) -> Option<int> {
    if exists|i: int| first_match(s, kind, value, i) {
        Some(choose|i: int| first_match(s, kind, value, i))
    } else {
        None
    }
}

/// No two accounts share a username, and no two share an email address.
pub open spec fn unique_identities(s: Seq<UserView>) -> bool {
    forall|i: int, j: int|
        0 <= i < j < s.len() ==> (#[trigger] s[i]).username != (#[trigger] s[j]).username
            && s[i].email != s[j].email
}

/// A first match is the lookup's answer.
pub proof fn lemma_lookup_found(s: Seq<UserView>, kind: KeyKind, value: Seq<char>, i: int)
    requires
        first_match(s, kind, value, i),
    ensures
        lookup(s, kind, value) == Some(i),
{
    let k = choose|k: int| first_match(s, kind, value, k);
    if k < i {
        assert(!s[k].has_key(kind, value));
    } else if i < k {
        assert(!s[i].has_key(kind, value));
    }
}

/// Where no account matches, the lookup finds none.
pub proof fn lemma_lookup_missing(s: Seq<UserView>, kind: KeyKind, value: Seq<char>)
    requires
        forall|j: int| 0 <= j < s.len() ==> !(#[trigger] s[j]).has_key(kind, value),
    ensures
        lookup(s, kind, value) is None,
{
}

/// What a lookup's answer says: the index is in range, the account there
/// matches and none before it does; or no account matches at all.
pub proof fn lemma_lookup_sound(s: Seq<UserView>, kind: KeyKind, value: Seq<char>)
    ensures
        (match lookup(s, kind, value) {
            Some(i) => first_match(s, kind, value, i),
            None => forall|j: int| 0 <= j < s.len() ==> !(#[trigger] s[j]).has_key(kind, value),
        }),
{
    if lookup(s, kind, value) is None {
        assert forall|j: int| 0 <= j < s.len() implies !(#[trigger] s[j]).has_key(kind, value) by {
            if s[j].has_key(kind, value) {
                lemma_some_match_has_first(s, kind, value, j);
            }
        }
    }
}

/// A change to one account that leaves a column alone leaves every lookup
/// by that column alone.
pub proof fn lemma_lookup_after_update(
    s: Seq<UserView>,
    i: int,
    u: UserView,
    kind: KeyKind,
    value: Seq<char>,
)
    requires
        0 <= i < s.len(),
        u.has_key(kind, value) == s[i].has_key(kind, value),
    ensures
        lookup(s.update(i, u), kind, value) == lookup(s, kind, value),
{
    let t = s.update(i, u);
    lemma_lookup_sound(s, kind, value);
    match lookup(s, kind, value) {
        Some(k) => {
            assert forall|j: int| 0 <= j < k implies !(#[trigger] t[j]).has_key(kind, value) by {
                assert(!s[j].has_key(kind, value));
            }
            assert(first_match(t, kind, value, k));
            lemma_lookup_found(t, kind, value, k);
        },
        None => {
            assert forall|j: int| 0 <= j < t.len() implies !(#[trigger] t[j]).has_key(
                kind,
                value,
            ) by {
                assert(!s[j].has_key(kind, value));
            }
            lemma_lookup_missing(t, kind, value);
        },
    }
}

/// Where some account matches, a first one does.
proof fn lemma_some_match_has_first(s: Seq<UserView>, kind: KeyKind, value: Seq<char>, j: int)
    requires
        0 <= j < s.len(),
        s[j].has_key(kind, value),
    ensures
        exists|i: int| first_match(s, kind, value, i),
    decreases j,
{
    if forall|k: int| 0 <= k < j ==> !(#[trigger] s[k]).has_key(kind, value) {
        assert(first_match(s, kind, value, j));
    } else {
        let k = choose|k: int| 0 <= k < j && (#[trigger] s[k]).has_key(kind, value);
        lemma_some_match_has_first(s, kind, value, k);
    }
}

impl UserRecord {
    /// Whether this account holds `value` in the column `kind`.
    pub fn has_key(&self, kind: KeyKind, value: &String) -> (r: bool)
        ensures
            r == self@.has_key(kind, value@),
    {
        match kind {
            KeyKind::Username => self.username == *value,
            KeyKind::Email => self.email == *value,
            KeyKind::VerificationToken => self.verification_token == *value,
            KeyKind::TempToken => match &self.temp_token {
                Some(t) => *t == *value,
                None => false,
            },
        }
    }
}

/// Whether two optional texts read the same.
fn same_text(a: &Option<String>, b: &Option<String>) -> (r: bool)
    ensures
        r == (text_view(*a) == text_view(*b)),
{
    match (a, b) {
        (Some(x), Some(y)) => *x == *y,
        (None, None) => true,
        _ => false,
    }
}

/// Whether two optional times are the same.
fn same_time(a: Option<i64>, b: Option<i64>) -> (r: bool)
    ensures
        r == (time_view(a) == time_view(b)),
{
    match (a, b) {
        (Some(x), Some(y)) => x == y,
        (None, None) => true,
        _ => false,
    }
}

impl UserRecord {
    /// Whether two records say the same of their account, field by field.
    pub fn same_as(&self, other: &UserRecord) -> (r: bool)
        ensures
            r == (self@ == other@),
    {
        self.username == other.username && self.email == other.email && self.password_hash
            == other.password_hash && self.verification_token == other.verification_token
            && self.verified == other.verified && self.verification_attempts
            == other.verification_attempts && self.token_expiry == other.token_expiry && same_text(
            &self.reset_password_token,
            &other.reset_password_token,
        ) && same_time(self.reset_token_expiry, other.reset_token_expiry) && self.has_2fa
            == other.has_2fa && same_text(&self.two_fa_code, &other.two_fa_code) && same_time(
            self.two_fa_expiry,
            other.two_fa_expiry,
        ) && same_text(&self.temp_2fa_code, &other.temp_2fa_code) && same_text(
            &self.temp_token,
            &other.temp_token,
        ) && same_time(self.temp_token_expiry, other.temp_token_expiry)
    }
}

/// What has to be written so that a copy of the store that was taken
/// earlier holds what the store holds now.
#[derive(Debug, Clone, Copy, PartialEq, Eq)]
pub enum Change {
    /// The account at this index is new.
    Insert(usize),
    /// The account at this index is not as it was.
    Update(usize),
}

/// The change that brings the account at `i` up to date, if it needs one:
/// an account beyond the earlier copy is inserted, one that differs from
/// it is updated.
pub open spec fn change_at(before: Seq<UserView>, after: Seq<UserView>, i: int) -> Option<Change> {
    if i >= before.len() {
        Some(Change::Insert(i as usize))
    } else if after[i] != before[i] {
        Some(Change::Update(i as usize))
    } else {
        None
    }
}

/// The changes that bring the first `n` accounts up to date, in the order
/// of the accounts.
pub open spec fn changes_up_to(before: Seq<UserView>, after: Seq<UserView>, n: int) -> Seq<Change>
    decreases n,
{
    if n <= 0 {
        Seq::empty()
    } else {
        match change_at(before, after, n - 1) {
            Some(c) => changes_up_to(before, after, n - 1).push(c),
            None => changes_up_to(before, after, n - 1),
        }
    }
}

/// The store refused a new account: its username or its email address is
/// taken.
#[derive(Debug, Clone, Copy, PartialEq, Eq)]
pub struct Conflict;

/// The accounts of the service, in the order in which they were created.
#[derive(Debug, Clone)]
pub struct CredentialStore {
    users: Vec<UserRecord>,
}

impl View for CredentialStore {
    type V = Seq<UserView>;

    closed spec fn view(&self) -> Seq<UserView> {
        self.users@.map_values(|r: UserRecord| r@)
    }
}

/// The index that a search returned, as a mathematical integer.
pub open spec fn index_view(o: Option<usize>) -> Option<int> {
    match o {
        Some(i) => Some(i as int),
        None => None,
    }
}

impl CredentialStore {
    /// A store without accounts.
    pub fn new() -> (store: CredentialStore)
        ensures
            store@ == Seq::<UserView>::empty(),
    {
        let store = CredentialStore { users: Vec::new() };
        assert(store@ =~= Seq::<UserView>::empty());
        store
    }

    /// How many accounts there are.
    pub fn len(&self) -> (n: usize)
        ensures
            n == self@.len(),
    {
        self.users.len()
    }

    /// The account at `index`.
    pub fn get(&self, index: usize) -> (record: &UserRecord)
        requires
            index < self@.len(),
        ensures
            record@ == self@[index as int],
    {
        &self.users[index]
    }

    /// The first account that holds `value` in the column `kind`.
    pub fn find(&self, kind: KeyKind, value: &str) -> (found: Option<usize>)
        ensures
            index_view(found) == lookup(self@, kind, value@),
    {
        let wanted: String = value.to_owned();
        let mut i: usize = 0;
        while i < self.users.len()
            invariant
                i <= self.users.len(),
                wanted@ == value@,
                forall|j: int| 0 <= j < i ==> !(#[trigger] self@[j]).has_key(kind, value@),
            decreases self.users.len() - i,
        {
            if self.users[i].has_key(kind, &wanted) {
                proof {
                    assert(first_match(self@, kind, value@, i as int));
                    lemma_lookup_found(self@, kind, value@, i as int);
                }
                return Some(i);
            }
            i = i + 1;
        }
        proof {
            lemma_lookup_missing(self@, kind, value@);
        }
        None
    }

    /// The account with this username.
    pub fn find_by_username(&self, username: &str) -> (found: Option<usize>)
        ensures
            index_view(found) == lookup(self@, KeyKind::Username, username@),
    {
        self.find(KeyKind::Username, username)
    }

    /// The account with this email address.
    pub fn find_by_email(&self, email: &str) -> (found: Option<usize>)
        ensures
            index_view(found) == lookup(self@, KeyKind::Email, email@),
    {
        self.find(KeyKind::Email, email)
    }

    /// The first account that was given this verification token.
    pub fn find_by_verification_token(&self, token: &str) -> (found: Option<usize>)
        ensures
            index_view(found) == lookup(self@, KeyKind::VerificationToken, token@),
    {
        self.find(KeyKind::VerificationToken, token)
    }

    /// The first account whose open challenge has this handle.
    pub fn find_by_temp_token(&self, token: &str) -> (found: Option<usize>)
        ensures
            index_view(found) == lookup(self@, KeyKind::TempToken, token@),
    {
        self.find(KeyKind::TempToken, token)
    }

    /// What changed since `before` was copied from this store: one change
    /// for each account that is new or differs, in the order of the
    /// accounts. Every index is one of this store.
    pub fn changes_since(&self, before: &CredentialStore) -> (changes: Vec<Change>)
        ensures
            changes@ == changes_up_to(before@, self@, self@.len() as int),
            forall|k: int|
                0 <= k < changes@.len() ==> match #[trigger] changes@[k] {
                    Change::Insert(i) => i < self@.len(),
                    Change::Update(i) => i < self@.len(),
                },
    {
        let mut changes: Vec<Change> = Vec::new();
        let mut i: usize = 0;
        while i < self.users.len()
            invariant
                i <= self.users.len(),
                changes@ == changes_up_to(before@, self@, i as int),
                forall|k: int|
                    0 <= k < changes@.len() ==> match #[trigger] changes@[k] {
                        Change::Insert(j) => j < self@.len(),
                        Change::Update(j) => j < self@.len(),
                    },
            decreases self.users.len() - i,
        {
            if i >= before.users.len() {
                changes.push(Change::Insert(i));
            } else if !self.users[i].same_as(&before.users[i]) {
                changes.push(Change::Update(i));
            }
            i = i + 1;
        }
        changes
    }

    /// Adds an account as it stands, unless its username or its email
    /// address is taken; then the store stays as it was.
    pub fn insert_record(&mut self, record: UserRecord) -> (r: Result<(), Conflict>)
        ensures
            r is Err <==> lookup(old(self)@, KeyKind::Username, record@.username) is Some || lookup(
                old(self)@,
                KeyKind::Email,
                record@.email,
            ) is Some,
            r is Ok ==> final(self)@ == old(self)@.push(record@),
            r is Err ==> final(self)@ == old(self)@,
            unique_identities(old(self)@) ==> unique_identities(final(self)@),
    {
        if self.find(KeyKind::Username, record.username.as_str()).is_some() {
            return Err(Conflict);
        }
        if self.find(KeyKind::Email, record.email.as_str()).is_some() {
            return Err(Conflict);
        }
        proof {
            lemma_lookup_sound(self@, KeyKind::Username, record@.username);
            lemma_lookup_sound(self@, KeyKind::Email, record@.email);
        }
        let ghost before = self@;
        self.users.push(record);
        assert(self@ =~= before.push(record@));
        assert(unique_identities(before) ==> unique_identities(self@)) by {
            if unique_identities(before) {
                assert forall|i: int, j: int| 0 <= i < j < self@.len() implies (#[trigger] self@[i]).username
                    != (#[trigger] self@[j]).username && self@[i].email != self@[j].email by {
                    if j < before.len() {
                        assert(self@[i] == before[i] && self@[j] == before[j]);
                    } else {
                        assert(self@[i] == before[i]);
                        assert(!before[i].has_key(KeyKind::Username, record@.username));
                        assert(!before[i].has_key(KeyKind::Email, record@.email));
                    }
                }
            }
        }
        Ok(())
    }

    /// Adds a new account from what registration hands over.
    pub fn insert_user(
        &mut self,
        username: String,
        email: String,
        password_hash: String,
        verification_token: String,
        token_expiry: i64,
        verified: bool,
    ) -> (r: Result<(), Conflict>)
        ensures
            r is Err <==> lookup(old(self)@, KeyKind::Username, username@) is Some || lookup(
                old(self)@,
                KeyKind::Email,
                email@,
            ) is Some,
            r is Ok ==> final(self)@ == old(self)@.push(
                UserView::fresh(
                    username@,
                    email@,
                    password_hash@,
                    verification_token@,
                    token_expiry as int,
                    verified,
                ),
            ),
            r is Err ==> final(self)@ == old(self)@,
            unique_identities(old(self)@) ==> unique_identities(final(self)@),
    {
        self.insert_record(
            UserRecord {
                username,
                email,
                password_hash,
                verification_token,
                verified,
                verification_attempts: 0,
                token_expiry,
                reset_password_token: None,
                reset_token_expiry: None,
                has_2fa: false,
                two_fa_code: None,
                two_fa_expiry: None,
                temp_2fa_code: None,
                temp_token: None,
                temp_token_expiry: None,
            },
        )
    }

    /// Counts one verification attempt on the account at `index` and sets
    /// its `verified` flag.
    pub fn record_verification_attempt(&mut self, index: usize, verified: bool)
        requires
            index < old(self)@.len(),
            old(self)@[index as int].verification_attempts < u32::MAX,
        ensures
            final(self)@ == old(self)@.update(
                index as int,
                old(self)@[index as int].with_verification_attempt(verified),
            ),
    {
        let ghost before = self@;
        self.users[index].verification_attempts = self.users[index].verification_attempts + 1;
        self.users[index].verified = verified;
        assert(self@ =~= before.update(
            index as int,
            before[index as int].with_verification_attempt(verified),
        ));
    }

    /// Opens a login challenge on the account at `index`.
    pub fn set_login_challenge(
        &mut self,
        index: usize,
        code: String,
        code_expiry: i64,
        temp_token: String,
        temp_token_expiry: i64,
    )
        requires
            index < old(self)@.len(),
        ensures
            final(self)@ == old(self)@.update(
                index as int,
                old(self)@[index as int].with_login_challenge(
                    code@,
                    code_expiry as int,
                    temp_token@,
                    temp_token_expiry as int,
                ),
            ),
    {
        let ghost before = self@;
        self.users[index].two_fa_code = Some(code);
        self.users[index].two_fa_expiry = Some(code_expiry);
        self.users[index].temp_token = Some(temp_token);
        self.users[index].temp_token_expiry = Some(temp_token_expiry);
        assert(self@ =~= before.update(
            index as int,
            before[index as int].with_login_challenge(
                code@,
                code_expiry as int,
                temp_token@,
                temp_token_expiry as int,
            ),
        ));
    }

    /// Uses up the temporary token of the account at `index`.
    pub fn clear_temp_token(&mut self, index: usize)
        requires
            index < old(self)@.len(),
        ensures
            final(self)@ == old(self)@.update(
                index as int,
                old(self)@[index as int].without_temp_token(),
            ),
    {
        let ghost before = self@;
        self.users[index].temp_token = None;
        self.users[index].temp_token_expiry = None;
        assert(self@ =~= before.update(index as int, before[index as int].without_temp_token()));
    }

    /// Notes that the account at `index` asked to switch its second factor.
    pub fn set_pending_switch(&mut self, index: usize, code: String, temp_token: String)
        requires
            index < old(self)@.len(),
        ensures
            final(self)@ == old(self)@.update(
                index as int,
                old(self)@[index as int].with_pending_switch(code@, temp_token@),
            ),
    {
        let ghost before = self@;
        self.users[index].temp_2fa_code = Some(code);
        self.users[index].temp_token = Some(temp_token);
        assert(self@ =~= before.update(
            index as int,
            before[index as int].with_pending_switch(code@, temp_token@),
        ));
    }

    /// Switches the second factor of the account at `index` on.
    pub fn enable_2fa(&mut self, index: usize)
        requires
            index < old(self)@.len(),
        ensures
            final(self)@ == old(self)@.update(index as int, old(self)@[index as int].with_2fa_on()),
    {
        let ghost before = self@;
        self.users[index].has_2fa = true;
        self.users[index].temp_2fa_code = None;
        self.users[index].temp_token = None;
        assert(self@ =~= before.update(index as int, before[index as int].with_2fa_on()));
    }

    /// Switches the second factor of the account at `index` off.
    pub fn disable_2fa(&mut self, index: usize)
        requires
            index < old(self)@.len(),
        ensures
            final(self)@ == old(self)@.update(index as int, old(self)@[index as int].with_2fa_off()),
    {
        let ghost before = self@;
        self.users[index].has_2fa = false;
        self.users[index].two_fa_code = None;
        self.users[index].two_fa_expiry = None;
        self.users[index].temp_2fa_code = None;
        self.users[index].temp_token = None;
        assert(self@ =~= before.update(index as int, before[index as int].with_2fa_off()));
    }

    /// Opens a password reset on the account at `index`.
    pub fn set_reset_token(&mut self, index: usize, token: String, expiry: i64)
        requires
            index < old(self)@.len(),
        ensures
            final(self)@ == old(self)@.update(
                index as int,
                old(self)@[index as int].with_reset_token(token@, expiry as int),
            ),
    {
        let ghost before = self@;
        self.users[index].reset_password_token = Some(token);
        self.users[index].reset_token_expiry = Some(expiry);
        assert(self@ =~= before.update(
            index as int,
            before[index as int].with_reset_token(token@, expiry as int),
        ));
    }

    /// Replaces the password hash of the account at `index` and uses up its
    /// reset token.
    pub fn set_password(&mut self, index: usize, password_hash: String)
        requires
            index < old(self)@.len(),
        ensures
            final(self)@ == old(self)@.update(
                index as int,
                old(self)@[index as int].with_new_password(password_hash@),
            ),
    {
        let ghost before = self@;
        self.users[index].password_hash = password_hash;
        self.users[index].reset_password_token = None;
        self.users[index].reset_token_expiry = None;
        assert(self@ =~= before.update(
            index as int,
            before[index as int].with_new_password(password_hash@),
        ));
    }
}

} // verus!
