use vstd::prelude::*;

use crate::domain::SubscriberEmail;
use crate::domain::SubscriberName;

verus! {

/// One mailing-list signup as stored, with its confirmation lifecycle.
pub struct SubscriberRecord {
    pub id: u64,
    pub email: String,
    pub name: String,
    pub subscribed_at: u64,
    pub confirmed: bool,
}

/// A confirmation token paired with the subscriber it was issued for.
pub struct TokenRecord {
    pub token: String,
    pub subscriber_id: u64,
}

/// An operator account against which credentials are checked.
pub struct UserRecord {
    pub user_id: u64,
    pub username: String,
    pub password: String,
}

/// Mathematical image of a stored subscriber.
#[verifier::ext_equal]
pub struct SubscriberView {
    pub id: u64,
    pub email: Seq<char>,
    pub name: Seq<char>,
    pub subscribed_at: u64,
    pub confirmed: bool,
}

/// Mathematical image of a stored token.
#[verifier::ext_equal]
pub struct TokenView {
    pub token: Seq<char>,
    pub subscriber_id: u64,
}

/// Mathematical image of a stored user.
#[verifier::ext_equal]
pub struct UserView {
    pub user_id: u64,
    pub username: Seq<char>,
    pub password: Seq<char>,
}

/// Mathematical image of the whole store.
#[verifier::ext_equal]
pub struct StoreView {
    pub next_id: u64,
    pub subscribers: Seq<SubscriberView>,
    pub tokens: Seq<TokenView>,
    pub users: Seq<UserView>,
}

impl View for SubscriberRecord {
    type V = SubscriberView;

    open spec fn view(&self) -> SubscriberView {
        SubscriberView {
            id: self.id,
            email: self.email@,
            name: self.name@,
            subscribed_at: self.subscribed_at,
            confirmed: self.confirmed,
        }
    }
}

impl View for TokenRecord {
    type V = TokenView;

    open spec fn view(&self) -> TokenView {
        TokenView { token: self.token@, subscriber_id: self.subscriber_id }
    }
}

impl View for UserRecord {
    type V = UserView;

    open spec fn view(&self) -> UserView {
        UserView { user_id: self.user_id, username: self.username@, password: self.password@ }
    }
}

/// A token is on file.
pub open spec fn has_token(s: StoreView, tok: Seq<char>) -> bool {
    exists|i: int| 0 <= i < s.tokens.len() && #[trigger] s.tokens[i].token == tok
}

/// Position of a token on file.
pub open spec fn token_index(s: StoreView, tok: Seq<char>) -> int {
    choose|i: int| 0 <= i < s.tokens.len() && #[trigger] s.tokens[i].token == tok
}

/// The subscriber a token on file was issued for.
pub open spec fn token_subscriber(s: StoreView, tok: Seq<char>) -> u64 {
    s.tokens[token_index(s, tok)].subscriber_id
}

/// A subscriber with this identifier is on file.
pub open spec fn has_subscriber(s: StoreView, id: u64) -> bool {
    exists|i: int| 0 <= i < s.subscribers.len() && #[trigger] s.subscribers[i].id == id
}

/// Position of the subscriber with this identifier.
pub open spec fn subscriber_index(s: StoreView, id: u64) -> int {
    choose|i: int| 0 <= i < s.subscribers.len() && #[trigger] s.subscribers[i].id == id
}

/// How many of these tokens were issued for one subscriber.
pub open spec fn count_tokens(toks: Seq<TokenView>, id: u64) -> nat
    decreases toks.len(),
{
    if toks.len() == 0 {
        0
    } else {
        count_tokens(toks.drop_last(), id) + if toks.last().subscriber_id == id {
            1nat
        } else {
            0nat
        }
    }
}

/// How many tokens are on file for one subscriber.
pub open spec fn token_count_for(s: StoreView, id: u64) -> nat {
    count_tokens(s.tokens, id)
}

/// An operator account under this username is on file.
pub open spec fn has_username(s: StoreView, username: Seq<char>) -> bool {
    exists|i: int| 0 <= i < s.users.len() && #[trigger] s.users[i].username == username
}

/// An account matching both the username and the password is on file.
pub open spec fn credentials_valid(s: StoreView, username: Seq<char>, password: Seq<char>) -> bool {
    exists|i: int|
        0 <= i < s.users.len() && #[trigger] s.users[i].username == username
            && s.users[i].password == password
}

/// The identifier of the account matching the credentials.
pub open spec fn credentials_user_id(s: StoreView, username: Seq<char>, password: Seq<char>) -> u64 {
    let i = choose|i: int|
        0 <= i < s.users.len() && #[trigger] s.users[i].username == username
            && s.users[i].password == password;
    s.users[i].user_id
}

/// Well-formedness of the store: identifiers are unique and below the
/// next one to be issued, every token points at a stored subscriber,
/// token strings are unique, a confirmed subscriber has at least one
/// token on file, and usernames are unique.
pub open spec fn store_wf(s: StoreView) -> bool {
    &&& forall|i: int, j: int|
        0 <= i < j < s.subscribers.len() ==> #[trigger] s.subscribers[i].id
            != #[trigger] s.subscribers[j].id
    &&& forall|i: int|
        0 <= i < s.subscribers.len() ==> #[trigger] s.subscribers[i].id < s.next_id
    &&& forall|i: int|
        0 <= i < s.tokens.len() ==> has_subscriber(s, #[trigger] s.tokens[i].subscriber_id)
    &&& forall|i: int, j: int|
        0 <= i < j < s.tokens.len() ==> #[trigger] s.tokens[i].token
            != #[trigger] s.tokens[j].token
    &&& forall|i: int|
        0 <= i < s.subscribers.len() && #[trigger] s.subscribers[i].confirmed ==> exists|j: int|
            0 <= j < s.tokens.len() && #[trigger] s.tokens[j].subscriber_id == s.subscribers[i].id
    &&& forall|i: int, j: int|
        0 <= i < j < s.users.len() ==> #[trigger] s.users[i].username
            != #[trigger] s.users[j].username
}

/// The atomic two-row write: one pending subscriber under the next free
/// identifier together with its first token.
pub open spec fn create_effect(
    s: StoreView,
    name: Seq<char>,
    email: Seq<char>,
    token: Seq<char>,
    at: u64,
) -> StoreView {
    StoreView {
        next_id: (s.next_id + 1) as u64,
        subscribers: s.subscribers.push(
            SubscriberView { id: s.next_id, email: email, name: name, subscribed_at: at, confirmed: false },
        ),
        tokens: s.tokens.push(TokenView { token: token, subscriber_id: s.next_id }),
        users: s.users,
    }
}

/// Confirming a token: when it is on file, the subscriber it was issued
/// for becomes confirmed; otherwise nothing changes.
pub open spec fn confirm_effect(s: StoreView, tok: Seq<char>) -> StoreView {
    if has_token(s, tok) {
        let i = subscriber_index(s, token_subscriber(s, tok));
        StoreView {
            subscribers: s.subscribers.update(
                i,
                SubscriberView { confirmed: true, ..s.subscribers[i] },
            ),
            ..s
        }
    } else {
        s
    }
}

/// Why the atomic subscription write did not happen.
pub enum StoreError {
    /// No fresh identifier was left to insert the subscriber row under.
    IdsExhausted,
    /// The token is already on file; storing it again would violate its
    /// uniqueness, so the whole write is abandoned.
    DuplicateToken,
}

/// In-memory image of the persistence layer: subscriber rows, token
/// rows and operator accounts.
pub struct SubscriberStore {
    next_id: u64,
    subscribers: Vec<SubscriberRecord>,
    tokens: Vec<TokenRecord>,
    users: Vec<UserRecord>,
}

impl View for SubscriberStore {
    type V = StoreView;

    closed spec fn view(&self) -> StoreView {
        StoreView {
            next_id: self.next_id,
            subscribers: self.subscribers@.map_values(|r: SubscriberRecord| r@),
            tokens: self.tokens@.map_values(|r: TokenRecord| r@),
            users: self.users@.map_values(|r: UserRecord| r@),
        }
    }
}

impl SubscriberStore {
    /// Well-formedness of the store's contents.
    pub open spec fn wf(&self) -> bool {
        store_wf(self@)
    }

    /// A store with nothing on file.
    pub fn new() -> (r: SubscriberStore)
        ensures
            r.wf(),
            r@.next_id == 0,
            r@.subscribers =~= Seq::<SubscriberView>::empty(),
            r@.tokens =~= Seq::<TokenView>::empty(),
            r@.users =~= Seq::<UserView>::empty(),
    {
        SubscriberStore { next_id: 0, subscribers: Vec::new(), tokens: Vec::new(), users: Vec::new() }
    }

    fn find_token(&self, token: &str) -> (r: Option<usize>)
        ensures
            match r {
                Some(i) => i < self@.tokens.len() && self@.tokens[i as int].token == token@,
                None => !has_token(self@, token@),
            },
    {
        let n = self.tokens.len();
        let mut i: usize = 0;
        while i < n
            invariant
                i <= n,
                n == self@.tokens.len(),
                n == self.tokens.len(),
                forall|j: int| 0 <= j < i ==> #[trigger] self@.tokens[j].token != token@,
            decreases n - i,
        {
            assert(self@.tokens[i as int] == self.tokens@[i as int]@);
            if crate::str_eq(self.tokens[i].token.as_str(), token) {
                return Some(i);
            }
            i = i + 1;
        }
        None
    }

    fn find_subscriber(&self, id: u64) -> (r: Option<usize>)
        ensures
            match r {
                Some(i) => i < self@.subscribers.len() && self@.subscribers[i as int].id == id,
                None => !has_subscriber(self@, id),
            },
    {
        let n = self.subscribers.len();
        let mut i: usize = 0;
        while i < n
            invariant
                i <= n,
                n == self@.subscribers.len(),
                n == self.subscribers.len(),
                forall|j: int| 0 <= j < i ==> #[trigger] self@.subscribers[j].id != id,
            decreases n - i,
        {
            assert(self@.subscribers[i as int] == self.subscribers@[i as int]@);
            if self.subscribers[i].id == id {
                return Some(i);
            }
            i = i + 1;
        }
        None
    }

    /// The atomic subscription write: one pending subscriber row and one
    /// token row are stored together, or nothing is stored at all.
    pub fn create_subscriber(
        &mut self,
        name: &SubscriberName,
        email: &SubscriberEmail,
        token: &String,
        subscribed_at: u64,
    ) -> (r: Result<u64, StoreError>)
        requires
            old(self).wf(),
        ensures
            final(self).wf(),
            match r {
                Ok(id) => {
                    &&& old(self)@.next_id < u64::MAX
                    &&& !has_token(old(self)@, token@)
                    &&& id == old(self)@.next_id
                    &&& final(self)@ == create_effect(
                        old(self)@,
                        name@,
                        email@,
                        token@,
                        subscribed_at,
                    )
                },
                Err(StoreError::IdsExhausted) => old(self)@.next_id == u64::MAX && final(self)@
                    == old(self)@,
                Err(StoreError::DuplicateToken) => {
                    &&& old(self)@.next_id < u64::MAX
                    &&& has_token(old(self)@, token@)
                    &&& final(self)@ == old(self)@
                },
            },
    {
        if self.next_id == u64::MAX {
            return Err(StoreError::IdsExhausted);
        }
        if self.find_token(token.as_str()).is_some() {
            return Err(StoreError::DuplicateToken);
        }
        let id = self.next_id;
        let ghost s0 = self@;
        let record = SubscriberRecord {
            id,
            email: String::from_str(email.as_ref()),
            name: String::from_str(name.as_ref()),
            subscribed_at,
            confirmed: false,
        };
        self.subscribers.push(record);
        self.tokens.push(TokenRecord { token: token.clone(), subscriber_id: id });
        self.next_id = id + 1;
        proof {
            let s2 = create_effect(s0, name@, email@, token@, subscribed_at);
            assert(self@.subscribers =~= s2.subscribers);
            assert(self@.tokens =~= s2.tokens);
            assert(self@.users =~= s2.users);
            assert(self@ =~= s2);
            lemma_create_effect_wf(s0, name@, email@, token@, subscribed_at);
        }
        Ok(id)
    }

    /// Confirming a token: when the token is on file, the subscriber it
    /// was issued for is switched to confirmed (a no-op when it already
    /// was); when it is not on file, the store is left untouched.
    pub fn confirm(&mut self, token: &str) -> (found: bool)
        requires
            old(self).wf(),
        ensures
            final(self).wf(),
            found == has_token(old(self)@, token@),
            final(self)@ == confirm_effect(old(self)@, token@),
    {
        let ghost s0 = self@;
        match self.find_token(token) {
            None => false,
            Some(ti) => {
                let id = self.tokens[ti].subscriber_id;
                proof {
                    assert(s0.tokens[ti as int] == self.tokens@[ti as int]@);
                    assert(s0.tokens[ti as int].subscriber_id == id);
                    assert(has_subscriber(s0, id));
                    let k = token_index(s0, token@);
                    assert(s0.tokens[k].token == token@);
                    if k != ti as int {
                        assert(false);
                    }
                }
                let si_opt = self.find_subscriber(id);
                match si_opt {
                    None => {
                        proof {
                            assert(false);
                        }
                        false
                    },
                    Some(si) => {
                        self.subscribers[si].confirmed = true;
                        proof {
                            let s2 = confirm_effect(s0, token@);
                            let k = subscriber_index(s0, id);
                            assert(s0.subscribers[k].id == id);
                            if k != si as int {
                                assert(false);
                            }
                            assert(self@.subscribers =~= s2.subscribers);
                            assert(self@ =~= s2);
                            lemma_confirm_effect_wf(s0, token@);
                        }
                        true
                    },
                }
            },
        }
    }

    /// Registers an operator account; refused when the username is
    /// already taken.
    pub fn add_user(&mut self, user_id: u64, username: String, password: String) -> (r: bool)
        requires
            old(self).wf(),
        ensures
            final(self).wf(),
            r == !has_username(old(self)@, username@),
            r ==> final(self)@ == (StoreView {
                users: old(self)@.users.push(
                    UserView { user_id, username: username@, password: password@ },
                ),
                ..old(self)@
            }),
            !r ==> final(self)@ == old(self)@,
    {
        let ghost s0 = self@;
        let n = self.users.len();
        let mut i: usize = 0;
        while i < n
            invariant
                i <= n,
                n == self@.users.len(),
                n == self.users.len(),
                self@ == s0,
                s0 == old(self)@,
                old(self).wf(),
                forall|j: int| 0 <= j < i ==> #[trigger] s0.users[j].username != username@,
            decreases n - i,
        {
            assert(s0.users[i as int] == self.users@[i as int]@);
            if crate::str_eq(self.users[i].username.as_str(), username.as_str()) {
                proof {
                    assert(s0.users[i as int].username == username@);
                }
                return false;
            }
            i = i + 1;
        }
        self.users.push(UserRecord { user_id, username, password });
        proof {
            let s2 = StoreView {
                users: s0.users.push(
                    UserView { user_id, username: username@, password: password@ },
                ),
                ..s0
            };
            assert(self@.users =~= s2.users);
            assert(self@ =~= s2);
            assert forall|i2: int, j2: int|
                0 <= i2 < j2 < s2.users.len() implies #[trigger] s2.users[i2].username
                != #[trigger] s2.users[j2].username by {
                if j2 == s0.users.len() {
                    assert(s2.users[i2].username == s0.users[i2].username);
                }
            }
            lemma_wf_users_changed(s0, s2);
        }
        true
    }

    /// The lookup behind credential validation: the stored account whose
    /// username and password both equal the submitted ones, if any.
    pub fn lookup_user(&self, username: &str, password: &str) -> (r: Option<u64>)
        requires
            self.wf(),
        ensures
            match r {
                Some(uid) => credentials_valid(self@, username@, password@) && uid
                    == credentials_user_id(self@, username@, password@),
                None => !credentials_valid(self@, username@, password@),
            },
    {
        let n = self.users.len();
        let mut i: usize = 0;
        while i < n
            invariant
                i <= n,
                n == self@.users.len(),
                n == self.users.len(),
                self.wf(),
                forall|j: int|
                    0 <= j < i ==> !(#[trigger] self@.users[j].username == username@
                        && self@.users[j].password == password@),
            decreases n - i,
        {
            assert(self@.users[i as int] == self.users@[i as int]@);
            if crate::str_eq(self.users[i].username.as_str(), username) && crate::str_eq(
                self.users[i].password.as_str(),
                password,
            ) {
                proof {
                    let k = choose|k: int|
                        0 <= k < self@.users.len() && #[trigger] self@.users[k].username
                            == username@ && self@.users[k].password == password@;
                    if k != i as int {
                        assert(self@.users[k].username == self@.users[i as int].username);
                        assert(false);
                    }
                }
                return Some(self.users[i].user_id);
            }
            i = i + 1;
        }
        None
    }

    /// How many subscriber rows are on file.
    pub fn subscriber_count(&self) -> (n: usize)
        ensures
            n == self@.subscribers.len(),
    {
        self.subscribers.len()
    }

    /// The stored subscriber with this identifier, if any.
    pub fn get_subscriber(&self, id: u64) -> (r: Option<&SubscriberRecord>)
        requires
            self.wf(),
        ensures
            match r {
                Some(rec) => has_subscriber(self@, id) && rec@ == self@.subscribers[
                    subscriber_index(self@, id)
                ],
                None => !has_subscriber(self@, id),
            },
    {
        match self.find_subscriber(id) {
            None => None,
            Some(i) => {
                proof {
                    assert(self@.subscribers[i as int] == self.subscribers@[i as int]@);
                    let k = subscriber_index(self@, id);
                    assert(self@.subscribers[k].id == id);
                    if k != i as int {
                        assert(false);
                    }
                }
                Some(&self.subscribers[i])
            },
        }
    }

    /// The email strings of all confirmed subscribers, in storage order.
    pub fn confirmed_emails(&self) -> (r: Vec<String>)
        ensures
            r@.map_values(|e: String| e@) == confirmed_email_list(self@.subscribers),
    {
        let n = self.subscribers.len();
        let mut acc: Vec<String> = Vec::new();
        let mut i: usize = 0;
        while i < n
            invariant
                i <= n,
                n == self@.subscribers.len(),
                n == self.subscribers.len(),
                acc@.map_values(|e: String| e@) =~= confirmed_email_list(
                    self@.subscribers.take(i as int),
                ),
            decreases n - i,
        {
            proof {
                assert(self@.subscribers[i as int] == self.subscribers@[i as int]@);
                assert(self@.subscribers.take(i as int + 1).drop_last() =~= self@.subscribers.take(
                    i as int,
                ));
                assert(self@.subscribers.take(i as int + 1).last() == self@.subscribers[i as int]);
            }
            if self.subscribers[i].confirmed {
                acc.push(self.subscribers[i].email.clone());
            }
            proof {
                assert(acc@.map_values(|e: String| e@) =~= confirmed_email_list(
                    self@.subscribers.take(i as int + 1),
                ));
            }
            i = i + 1;
        }
        proof {
            assert(self@.subscribers.take(n as int) =~= self@.subscribers);
        }
        acc
    }
}

/// A change that touches only the user accounts keeps the rest of the
/// store's well-formedness.
proof fn lemma_wf_users_changed(s0: StoreView, s2: StoreView)
    requires
        store_wf(s0),
        s2.subscribers == s0.subscribers,
        s2.tokens == s0.tokens,
        s2.next_id == s0.next_id,
        forall|i: int, j: int|
            0 <= i < j < s2.users.len() ==> #[trigger] s2.users[i].username
                != #[trigger] s2.users[j].username,
    ensures
        store_wf(s2),
{
    assert forall|i: int|
        0 <= i < s2.tokens.len() implies has_subscriber(
        s2,
        #[trigger] s2.tokens[i].subscriber_id,
    ) by {
        assert(s2.tokens[i].subscriber_id == s0.tokens[i].subscriber_id);
        assert(has_subscriber(s0, s0.tokens[i].subscriber_id));
        let w = choose|w: int|
            0 <= w < s0.subscribers.len() && #[trigger] s0.subscribers[w].id
                == s0.tokens[i].subscriber_id;
        assert(s2.subscribers[w].id == s2.tokens[i].subscriber_id);
    }
    assert forall|i: int|
        0 <= i < s2.subscribers.len() && #[trigger] s2.subscribers[i].confirmed implies exists|
        j: int,
    |
        0 <= j < s2.tokens.len() && #[trigger] s2.tokens[j].subscriber_id
            == s2.subscribers[i].id by {
        assert(s0.subscribers[i].confirmed);
        let w = choose|w: int|
            0 <= w < s0.tokens.len() && #[trigger] s0.tokens[w].subscriber_id
                == s0.subscribers[i].id;
        assert(s2.tokens[w].subscriber_id == s2.subscribers[i].id);
    }
}

/// The email strings of the confirmed subscribers among these, in order.
pub open spec fn confirmed_email_list(subs: Seq<SubscriberView>) -> Seq<Seq<char>>
    decreases subs.len(),
{
    if subs.len() == 0 {
        Seq::empty()
    } else {
        let rest = confirmed_email_list(subs.drop_last());
        if subs.last().confirmed {
            rest.push(subs.last().email)
        } else {
            rest
        }
    }
}

/// The atomic write keeps the store well formed.
proof fn lemma_create_effect_wf(
    s: StoreView,
    name: Seq<char>,
    email: Seq<char>,
    token: Seq<char>,
    at: u64,
)
    requires
        store_wf(s),
        s.next_id < u64::MAX,
        !has_token(s, token),
    ensures
        store_wf(create_effect(s, name, email, token, at)),
{
    let s2 = create_effect(s, name, email, token, at);
    let ns = s.subscribers.len() as int;
    let nt = s.tokens.len() as int;
    assert forall|i: int|
        0 <= i < s2.tokens.len() implies has_subscriber(s2, #[trigger] s2.tokens[i].subscriber_id) by {
        if i < nt {
            let w = choose|w: int|
                0 <= w < s.subscribers.len() && #[trigger] s.subscribers[w].id
                    == s.tokens[i].subscriber_id;
            assert(s2.subscribers[w].id == s2.tokens[i].subscriber_id);
        } else {
            assert(s2.subscribers[ns].id == s2.tokens[i].subscriber_id);
        }
    }
    assert forall|i: int, j: int|
        0 <= i < j < s2.tokens.len() implies #[trigger] s2.tokens[i].token
        != #[trigger] s2.tokens[j].token by {
        if j == nt {
            assert(s2.tokens[i].token == s.tokens[i].token);
            assert(!(s.tokens[i].token == token));
        }
    }
    assert forall|i: int|
        0 <= i < s2.subscribers.len() && #[trigger] s2.subscribers[i].confirmed implies exists|j: int|
            0 <= j < s2.tokens.len() && #[trigger] s2.tokens[j].subscriber_id
                == s2.subscribers[i].id by {
        assert(i < ns);
        assert(s.subscribers[i].confirmed);
        let w = choose|w: int|
            0 <= w < s.tokens.len() && #[trigger] s.tokens[w].subscriber_id == s.subscribers[i].id;
        assert(s2.tokens[w].subscriber_id == s2.subscribers[i].id);
    }
}

/// Confirming keeps the store well formed.
proof fn lemma_confirm_effect_wf(s: StoreView, tok: Seq<char>)
    requires
        store_wf(s),
    ensures
        store_wf(confirm_effect(s, tok)),
{
    if has_token(s, tok) {
        let s2 = confirm_effect(s, tok);
        let ti = token_index(s, tok);
        let id = token_subscriber(s, tok);
        let si = subscriber_index(s, id);
        assert(s.tokens[ti].token == tok);
        assert(has_subscriber(s, id));
        assert(s.subscribers[si].id == id);
        assert forall|i: int|
            0 <= i < s2.tokens.len() implies has_subscriber(
            s2,
            #[trigger] s2.tokens[i].subscriber_id,
        ) by {
            let w = choose|w: int|
                0 <= w < s.subscribers.len() && #[trigger] s.subscribers[w].id
                    == s.tokens[i].subscriber_id;
            assert(s2.subscribers[w].id == s.tokens[i].subscriber_id);
        }
        assert forall|i: int|
            0 <= i < s2.subscribers.len() && #[trigger] s2.subscribers[i].confirmed implies exists|
            j: int,
        |
            0 <= j < s2.tokens.len() && #[trigger] s2.tokens[j].subscriber_id
                == s2.subscribers[i].id by {
            if i == si {
                assert(s2.tokens[ti].subscriber_id == s2.subscribers[i].id);
            } else {
                assert(s.subscribers[i].confirmed);
                let w = choose|w: int|
                    0 <= w < s.tokens.len() && #[trigger] s.tokens[w].subscriber_id
                        == s.subscribers[i].id;
                assert(s2.tokens[w].subscriber_id == s2.subscribers[i].id);
            }
        }
    }
}

/// Tokens issued for nobody are counted as none.
proof fn lemma_count_tokens_zero(toks: Seq<TokenView>, id: u64)
    requires
        forall|i: int| 0 <= i < toks.len() ==> #[trigger] toks[i].subscriber_id != id,
    ensures
        count_tokens(toks, id) == 0,
    decreases toks.len(),
{
    if toks.len() > 0 {
        assert(forall|i: int|
            0 <= i < toks.drop_last().len() ==> #[trigger] toks.drop_last()[i].subscriber_id
                != id);
        lemma_count_tokens_zero(toks.drop_last(), id);
    }
}

/// The atomic subscription write leaves a subscriber that is pending,
/// stored verbatim, and holds exactly one token.
pub proof fn lemma_create_pending_with_one_token(
    s: StoreView,
    name: Seq<char>,
    email: Seq<char>,
    token: Seq<char>,
    at: u64,
)
    requires
        store_wf(s),
        !has_token(s, token),
        s.next_id < u64::MAX,
    ensures
        ({
            let s2 = create_effect(s, name, email, token, at);
            let si = subscriber_index(s2, s.next_id);
            &&& store_wf(s2)
            &&& has_subscriber(s2, s.next_id)
            &&& si == s.subscribers.len()
            &&& !s2.subscribers[si].confirmed
            &&& s2.subscribers[si].email == email
            &&& s2.subscribers[si].name == name
            &&& s2.subscribers[si].subscribed_at == at
            &&& token_count_for(s2, s.next_id) == 1
        }),
{
    let s2 = create_effect(s, name, email, token, at);
    let ns = s.subscribers.len() as int;
    lemma_create_effect_wf(s, name, email, token, at);
    assert(s2.subscribers[ns].id == s.next_id);
    let si = subscriber_index(s2, s.next_id);
    assert(s2.subscribers[si].id == s.next_id);
    if si != ns {
        assert(false);
    }
    assert forall|i: int|
        0 <= i < s.tokens.len() implies #[trigger] s.tokens[i].subscriber_id != s.next_id by {
        assert(has_subscriber(s, s.tokens[i].subscriber_id));
        let w = choose|w: int|
            0 <= w < s.subscribers.len() && #[trigger] s.subscribers[w].id
                == s.tokens[i].subscriber_id;
        assert(s.subscribers[w].id < s.next_id);
    }
    lemma_count_tokens_zero(s.tokens, s.next_id);
    assert(s2.tokens.drop_last() =~= s.tokens);
    assert(s2.tokens.last().subscriber_id == s.next_id);
}

/// Round trip: the token stored by the atomic subscription write
/// resolves to exactly the subscriber it was issued for; confirming it
/// switches that subscriber, and only that subscriber, to confirmed;
/// confirming the same token again changes nothing at all.
pub proof fn lemma_token_round_trip(
    s: StoreView,
    name: Seq<char>,
    email: Seq<char>,
    token: Seq<char>,
    at: u64,
)
    requires
        store_wf(s),
        !has_token(s, token),
        s.next_id < u64::MAX,
    ensures
        ({
            let s2 = create_effect(s, name, email, token, at);
            let s3 = confirm_effect(s2, token);
            let si = subscriber_index(s2, s.next_id);
            &&& has_token(s2, token)
            &&& token_subscriber(s2, token) == s.next_id
            &&& !s2.subscribers[si].confirmed
            &&& s3.subscribers[si].confirmed
            &&& s3.subscribers.len() == s2.subscribers.len()
            &&& forall|j: int|
                0 <= j < s2.subscribers.len() && j != si ==> s3.subscribers[j]
                    == s2.subscribers[j]
            &&& s3.tokens == s2.tokens
            &&& s3.users == s2.users
            &&& confirm_effect(s3, token) == s3
        }),
{
    let s2 = create_effect(s, name, email, token, at);
    let s3 = confirm_effect(s2, token);
    let ns = s.subscribers.len() as int;
    let nt = s.tokens.len() as int;
    lemma_create_effect_wf(s, name, email, token, at);
    assert(s2.tokens[nt].token == token);
    assert(has_token(s2, token));
    let ti = token_index(s2, token);
    assert(s2.tokens[ti].token == token);
    if ti != nt {
        assert(false);
    }
    assert(token_subscriber(s2, token) == s.next_id);
    assert(s2.subscribers[ns].id == s.next_id);
    let si = subscriber_index(s2, s.next_id);
    assert(s2.subscribers[si].id == s.next_id);
    if si != ns {
        assert(false);
    }
    lemma_confirm_idempotent(s2, token);
}

/// Idempotence: confirming a token twice leaves exactly the store that
/// confirming it once leaves.
pub proof fn lemma_confirm_idempotent(s: StoreView, token: Seq<char>)
    requires
        store_wf(s),
    ensures
        confirm_effect(confirm_effect(s, token), token) == confirm_effect(s, token),
{
    if has_token(s, token) {
        lemma_confirm_effect_wf(s, token);
        let s2 = confirm_effect(s, token);
        let ti = token_index(s, token);
        let id = token_subscriber(s, token);
        let si = subscriber_index(s, id);
        assert(s.tokens[ti].token == token);
        assert(has_subscriber(s, id));
        assert(s.subscribers[si].id == id);
        assert(s2.tokens == s.tokens);
        assert(has_token(s2, token)) by {
            assert(s2.tokens[ti].token == token);
        }
        let ti2 = token_index(s2, token);
        assert(s2.tokens[ti2].token == token);
        if ti2 != ti {
            assert(s.tokens[ti2].token == s.tokens[ti].token);
            assert(false);
        }
        assert(token_subscriber(s2, token) == id);
        assert(s2.subscribers[si].id == id);
        let si2 = subscriber_index(s2, id);
        assert(s2.subscribers[si2].id == id);
        if si2 != si {
            assert(false);
        }
        let s3 = confirm_effect(s2, token);
        assert(s2.subscribers[si2].confirmed);
        assert(SubscriberView { confirmed: true, ..s2.subscribers[si2] } == s2.subscribers[si2]);
        assert(s3.subscribers =~= s2.subscribers);
        assert(s3 =~= s2);
    }
}

/// Confirmation never regresses: a subscriber that is confirmed stays
/// confirmed, whatever token a later confirmation request carries.
pub proof fn lemma_confirm_never_regresses(s: StoreView, token: Seq<char>, i: int)
    requires
        store_wf(s),
        0 <= i < s.subscribers.len(),
        s.subscribers[i].confirmed,
    ensures
        confirm_effect(s, token).subscribers.len() == s.subscribers.len(),
        confirm_effect(s, token).subscribers[i].confirmed,
{
}

} // verus!
