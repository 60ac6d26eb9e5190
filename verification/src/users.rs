//! The server's table of registered accounts.

use crate::address::SocketAddress;
use crate::protocol::{user_list_view, MessageClient, UserList, UserListView, LOGIN_NO_SUCH_USER, LOGIN_SUCCESS, LOGIN_WRONG_PASSWORD, REG_EXISTED, REG_SUCCESS};
use vstd::prelude::*;

verus! {

/// The connection on which the server reaches a client.
#[derive(Clone, Copy, Debug, PartialEq, Eq, Structural)]
pub struct ConnectionId {
    pub id: u64,
}

/// What the table knows of one account.
pub struct UserRecord {
    pub passwd: Seq<char>,
    /// Whether the account is logged in.
    pub state: bool,
    pub address: SocketAddress,
    /// The connection on which texts for the account are delivered.
    pub stream: ConnectionId,
}

/// A registered account.
pub struct User {
    pub account: String,
    pub passwd: String,
    pub state: bool,
    pub address: SocketAddress,
    pub stream: ConnectionId,
}

impl User {
    /// What the table records of the user.
    pub open spec fn record(&self) -> UserRecord {
        UserRecord {
            passwd: self.passwd@,
            state: self.state,
            address: self.address,
            stream: self.stream,
        }
    }
}

/// The registered accounts, each under its account name, no name twice.
pub struct UserTable {
    users: Vec<User>,
    model: Ghost<Map<Seq<char>, UserRecord>>,
}

impl View for UserTable {
    type V = Map<Seq<char>, UserRecord>;

    closed spec fn view(&self) -> Map<Seq<char>, UserRecord> {
        self.model@
    }
}

/// An account that is not registered.
pub struct NotRegistered {
    pub account: String,
}

impl UserTable {
    /// The stored users agree with the model, and no account appears twice.
    pub closed spec fn wf(&self) -> bool {
        &&& forall|i: int|
            0 <= i < self.users@.len() ==> {
                &&& self.model@.contains_key(#[trigger] self.users@[i].account@)
                &&& self.model@[self.users@[i].account@] == self.users@[i].record()
            }
        &&& forall|k: Seq<char>|
            #[trigger] self.model@.contains_key(k) ==> exists|i: int|
                0 <= i < self.users@.len() && #[trigger] self.users@[i].account@ == k
        &&& forall|i: int, j: int|
            0 <= i < j < self.users@.len() ==> #[trigger] self.users@[i].account@
                != #[trigger] self.users@[j].account@
    }

    /// An empty table.
    pub fn new() -> (r: UserTable)
        ensures
            r.wf(),
            r@ == Map::<Seq<char>, UserRecord>::empty(),
    {
        UserTable { users: Vec::new(), model: Ghost(Map::empty()) }
    }

    /// The number of registered accounts.
    pub fn len(&self) -> (n: usize)
        requires
            self.wf(),
        ensures
            n == self@.len(),
    {
        proof {
            self.lemma_len();
        }
        self.users.len()
    }

    /// A valid table holds finitely many accounts.
    pub proof fn lemma_finite(&self)
        requires
            self.wf(),
        ensures
            self@.dom().finite(),
    {
        self.lemma_len();
    }

    proof fn lemma_len(&self)
        requires
            self.wf(),
        ensures
            self@.dom().finite(),
            self@.len() == self.users@.len(),
    {
        let accounts = Seq::new(self.users@.len(), |i: int| self.users@[i].account@);
        assert(accounts.no_duplicates());
        assert(accounts.to_set() =~= self@.dom()) by {
            assert forall|k: Seq<char>| self@.dom().contains(k) implies accounts.to_set().contains(
                k,
            ) by {
                let i = choose|i: int| 0 <= i < self.users@.len() && self.users@[i].account@ == k;
                assert(accounts[i] == k);
            }
            assert forall|k: Seq<char>| accounts.to_set().contains(k) implies self@.dom().contains(
                k,
            ) by {
                let i = choose|i: int| 0 <= i < accounts.len() && accounts[i] == k;
                assert(self.users@[i].account@ == k);
            }
        }
        accounts.unique_seq_to_set();
    }

    /// The position of `account` in the table, if it is registered.
    fn find(&self, account: &String) -> (r: Option<usize>)
        requires
            self.wf(),
        ensures
            match r {
                Some(i) => i < self.users@.len() && self.users@[i as int].account@ == account@,
                None => !self@.contains_key(account@),
            },
    {
        let mut i: usize = 0;
        while i < self.users.len()
            invariant
                self.wf(),
                i <= self.users@.len(),
                forall|j: int| 0 <= j < i ==> self.users@[j].account@ != account@,
            decreases self.users@.len() - i,
        {
            if self.users[i].account == *account {
                return Some(i);
            }
            i = i + 1;
        }
        proof {
            if self@.contains_key(account@) {
                let j = choose|j: int|
                    0 <= j < self.users@.len() && #[trigger] self.users@[j].account@ == account@;
                assert(self.users@[j].account@ != account@);
            }
        }
        None
    }

    /// The user registered under `account`, if any.
    pub fn get(&self, account: &String) -> (r: Option<&User>)
        requires
            self.wf(),
        ensures
            match r {
                Some(u) => self@.contains_key(account@) && u.account@ == account@ && u.record()
                    == self@[account@],
                None => !self@.contains_key(account@),
            },
    {
        match self.find(account) {
            Some(i) => Some(&self.users[i]),
            None => None,
        }
    }

    /// Replaces the login state, address and connection of the user at
    /// position `i`.
    fn update_at(&mut self, i: usize, state: bool, address: SocketAddress, stream: ConnectionId)
        requires
            old(self).wf(),
            i < old(self).users@.len(),
        ensures
            final(self).wf(),
            final(self).users@.len() == old(self).users@.len(),
            forall|j: int|
                0 <= j < final(self).users@.len() ==> #[trigger] final(self).users@[j].account@
                    == old(self).users@[j].account@,
            final(self)@ == old(self)@.insert(
                old(self).users@[i as int].account@,
                UserRecord { state, address, stream, ..old(self)@[old(self).users@[i as int].account@] },
            ),
    {
        let ghost key = self.users@[i as int].account@;
        let account = self.users[i].account.clone();
        let passwd = self.users[i].passwd.clone();
        let user = User { account, passwd, state, address, stream };
        self.users.set(i, user);
        proof {
            let rec = UserRecord { state, address, stream, ..old(self)@[key] };
            self.model@ = self.model@.insert(key, rec);
            assert forall|k: Seq<char>| #[trigger] self.model@.contains_key(k) implies exists|
                j: int,
            | 0 <= j < self.users@.len() && #[trigger] self.users@[j].account@ == k by {
                let j = choose|j: int|
                    0 <= j < old(self).users@.len() && #[trigger] old(self).users@[j].account@
                        == k;
                assert(self.users@[j].account@ == k);
            }
            assert forall|j: int| 0 <= j < self.users@.len() implies {
                &&& self.model@.contains_key(#[trigger] self.users@[j].account@)
                &&& self.model@[self.users@[j].account@] == self.users@[j].record()
            } by {
                if j != i {
                    assert(old(self).users@[j].account@ != key);
                }
            }
        }
    }

    /// Adds a user under a name that is not registered yet.
    fn add(&mut self, user: User)
        requires
            old(self).wf(),
            !old(self)@.contains_key(user.account@),
        ensures
            final(self).wf(),
            final(self)@ == old(self)@.insert(user.account@, user.record()),
    {
        let ghost key = user.account@;
        let ghost rec = user.record();
        self.users.push(user);
        proof {
            self.model@ = self.model@.insert(key, rec);
            let n = old(self).users@.len();
            assert(self.users@[n as int].account@ == key);
            assert forall|k: Seq<char>| #[trigger] self.model@.contains_key(k) implies exists|
                j: int,
            | 0 <= j < self.users@.len() && #[trigger] self.users@[j].account@ == k by {
                if k != key {
                    let j = choose|j: int|
                        0 <= j < old(self).users@.len() && #[trigger] old(self).users@[j].account@
                            == k;
                    assert(self.users@[j].account@ == k);
                }
            }
            assert forall|j: int| 0 <= j < n implies self.users@[j].account@ != key by {
                assert(old(self).model@.contains_key(old(self).users@[j].account@));
            }
            assert forall|a: int, b: int|
                0 <= a < b < self.users@.len() implies #[trigger] self.users@[a].account@
                != #[trigger] self.users@[b].account@ by {
                if b < n {
                    assert(old(self).users@[a].account@ != old(self).users@[b].account@);
                }
            }
        }
    }
}

/// The registration outcome for `account` in table `t`.
pub open spec fn reg_state_of(t: Map<Seq<char>, UserRecord>, account: Seq<char>) -> u8 {
    if t.contains_key(account) {
        REG_EXISTED
    } else {
        REG_SUCCESS
    }
}

/// Table `t` after `account` asked to register with `passwd` from `address`
/// on connection `stream`.
pub open spec fn after_reg(
    t: Map<Seq<char>, UserRecord>,
    account: Seq<char>,
    passwd: Seq<char>,
    address: SocketAddress,
    stream: ConnectionId,
) -> Map<Seq<char>, UserRecord> {
    if t.contains_key(account) {
        t
    } else {
        t.insert(account, UserRecord { passwd, state: false, address, stream })
    }
}

/// The login outcome for `account` with `passwd` in table `t`.
pub open spec fn login_state_of(
    t: Map<Seq<char>, UserRecord>,
    account: Seq<char>,
    passwd: Seq<char>,
) -> u8 {
    if !t.contains_key(account) {
        LOGIN_NO_SUCH_USER
    } else if t[account].passwd != passwd {
        LOGIN_WRONG_PASSWORD
    } else {
        LOGIN_SUCCESS
    }
}

/// Table `t` after `account` tried to log in with `passwd` from `address`.
pub open spec fn after_login(
    t: Map<Seq<char>, UserRecord>,
    account: Seq<char>,
    passwd: Seq<char>,
    address: SocketAddress,
) -> Map<Seq<char>, UserRecord> {
    if login_state_of(t, account, passwd) == LOGIN_SUCCESS {
        t.insert(account, UserRecord { state: true, address, ..t[account] })
    } else {
        t
    }
}

/// Table `t` after `account`, which is registered, logged out.
pub open spec fn after_logout(t: Map<Seq<char>, UserRecord>, account: Seq<char>) -> Map<
    Seq<char>,
    UserRecord,
> {
    t.insert(account, UserRecord { state: false, ..t[account] })
}

/// `list` names every account of `t` once, with its login state, none picked.
pub open spec fn lists_accounts(list: Seq<UserListView>, t: Map<Seq<char>, UserRecord>) -> bool {
    &&& forall|i: int|
        0 <= i < list.len() ==> {
            &&& t.contains_key(#[trigger] list[i].account)
            &&& list[i].state == t[list[i].account].state
            &&& !list[i].is_selected
        }
    &&& forall|k: Seq<char>|
        #[trigger] t.contains_key(k) ==> exists|i: int|
            0 <= i < list.len() && #[trigger] list[i].account == k
    &&& forall|i: int, j: int|
        0 <= i < j < list.len() ==> #[trigger] list[i].account != #[trigger] list[j].account
}

/// Registers the sender of `message` with its password and address, reached
/// on `stream`, logged out. An account that exists already is left as it is.
pub fn update_user_reg(users: &mut UserTable, message: MessageClient, stream: ConnectionId) -> (r:
    u8)
    requires
        old(users).wf(),
    ensures
        final(users).wf(),
        r == reg_state_of(old(users)@, message.s_account@),
        final(users)@ == after_reg(
            old(users)@,
            message.s_account@,
            message.passwd@,
            message.address,
            stream,
        ),
        final(users)@.dom().finite(),
        final(users)@.len() == old(users)@.len() + if old(users)@.contains_key(message.s_account@) {
            0int
        } else {
            1int
        },
{
    proof {
        users.lemma_len();
    }
    match users.find(&message.s_account) {
        Some(_) => REG_EXISTED,
        None => {
            let user = User {
                account: message.s_account,
                passwd: message.passwd,
                state: false,
                address: message.address,
                stream,
            };
            users.add(user);
            REG_SUCCESS
        },
    }
}

/// Logs the sender of `message` in when its password matches, taking the
/// message's address as the user's.
pub fn update_user_login(users: &mut UserTable, message: MessageClient) -> (r: u8)
    requires
        old(users).wf(),
    ensures
        final(users).wf(),
        r == login_state_of(old(users)@, message.s_account@, message.passwd@),
        final(users)@ == after_login(
            old(users)@,
            message.s_account@,
            message.passwd@,
            message.address,
        ),
        (r == LOGIN_SUCCESS) == (old(users)@.contains_key(message.s_account@)
            && old(users)@[message.s_account@].passwd == message.passwd@),
        r == LOGIN_SUCCESS ==> final(users)@[message.s_account@].state
            && final(users)@[message.s_account@].address == message.address
            && final(users)@[message.s_account@].passwd == message.passwd@,
        r != LOGIN_SUCCESS ==> final(users)@ == old(users)@,
{
    match users.find(&message.s_account) {
        Some(i) => {
            if message.passwd == users.users[i].passwd {
                let stream = users.users[i].stream;
                users.update_at(i, true, message.address, stream);
                LOGIN_SUCCESS
            } else {
                LOGIN_WRONG_PASSWORD
            }
        },
        None => LOGIN_NO_SUCH_USER,
    }
}

/// Logs the sender of `message` out; a sender that is not registered is an
/// error.
pub fn update_user_logout(users: &mut UserTable, message: MessageClient) -> (r: Result<
    (),
    NotRegistered,
>)
    requires
        old(users).wf(),
    ensures
        final(users).wf(),
        match r {
            Ok(()) => old(users)@.contains_key(message.s_account@) && final(users)@ == after_logout(
                old(users)@,
                message.s_account@,
            ),
            Err(e) => !old(users)@.contains_key(message.s_account@) && e.account@
                == message.s_account@ && final(users)@ == old(users)@,
        },
{
    match users.find(&message.s_account) {
        Some(i) => {
            let address = users.users[i].address;
            let stream = users.users[i].stream;
            users.update_at(i, false, address, stream);
            Ok(())
        },
        None => Err(NotRegistered { account: message.s_account }),
    }
}

/// The list of registered accounts, each with its login state and not
/// picked, every account once.
pub fn get_user_list(users: &UserTable) -> (r: Vec<UserList>)
    requires
        users.wf(),
    ensures
        lists_accounts(user_list_view(r@), users@),
        r@.len() == users@.len(),
{
    let mut r: Vec<UserList> = Vec::new();
    let mut i: usize = 0;
    while i < users.users.len()
        invariant
            users.wf(),
            i <= users.users@.len(),
            r@.len() == i,
            forall|j: int|
                #![trigger r@[j]]
                0 <= j < i ==> {
                    &&& r@[j].account@ == users.users@[j].account@
                    &&& r@[j].state == users.users@[j].state
                    &&& !r@[j].is_selected
                },
        decreases users.users@.len() - i,
    {
        let entry = UserList {
            account: users.users[i].account.clone(),
            state: users.users[i].state,
            is_selected: false,
        };
        r.push(entry);
        assert(r@[i as int].account@ == users.users@[i as int].account@);
        i = i + 1;
    }
    proof {
        users.lemma_len();
        let list = user_list_view(r@);
        assert forall|i: int| 0 <= i < list.len() implies {
            &&& users@.contains_key(#[trigger] list[i].account)
            &&& list[i].state == users@[list[i].account].state
            &&& !list[i].is_selected
        } by {
            assert(list[i] == r@[i]@);
            assert(users.model@.contains_key(users.users@[i].account@));
        }
        assert forall|k: Seq<char>| #[trigger] users@.contains_key(k) implies exists|i: int|
            0 <= i < list.len() && #[trigger] list[i].account == k by {
            let j = choose|j: int|
                0 <= j < users.users@.len() && #[trigger] users.users@[j].account@ == k;
            assert(list[j] == r@[j]@);
            assert(list[j].account == k);
        }
        assert forall|i: int, j: int| 0 <= i < j < list.len() implies #[trigger] list[i].account
            != #[trigger] list[j].account by {
            assert(list[i] == r@[i]@);
            assert(list[j] == r@[j]@);
            assert(users.users@[i].account@ != users.users@[j].account@);
        }
    }
    r
}

/// The record of an account after its connection turned out to be broken:
/// logged out, everything else kept.
pub open spec fn after_check(rec: UserRecord, broken: Seq<ConnectionId>) -> UserRecord {
    if broken.contains(rec.stream) {
        UserRecord { state: false, ..rec }
    } else {
        rec
    }
}

/// Logs out every user whose connection is among `broken`; the others are
/// left as they are.
pub fn mark_disconnected(users: &mut UserTable, broken: &Vec<ConnectionId>)
    requires
        old(users).wf(),
    ensures
        final(users).wf(),
        final(users)@.dom() == old(users)@.dom(),
        forall|k: Seq<char>|
            #[trigger] old(users)@.contains_key(k) ==> final(users)@[k] == after_check(
                old(users)@[k],
                broken@,
            ),
        forall|k: Seq<char>|
            #[trigger] old(users)@.contains_key(k) && broken@.contains(old(users)@[k].stream)
                ==> !final(users)@[k].state,
        forall|k: Seq<char>|
            #[trigger] old(users)@.contains_key(k) && !broken@.contains(old(users)@[k].stream)
                ==> final(users)@[k] == old(users)@[k],
{
    let ghost old_model = users@;
    let mut i: usize = 0;
    while i < users.users.len()
        invariant
            users.wf(),
            i <= users.users@.len(),
            users.users@.len() == old(users).users@.len(),
            forall|j: int|
                0 <= j < users.users@.len() ==> #[trigger] users.users@[j].account@ == old(
                    users,
                ).users@[j].account@,
            old_model == old(users)@,
            users@.dom() == old_model.dom(),
            forall|j: int|
                0 <= j < i ==> users@[#[trigger] old(users).users@[j].account@] == after_check(
                    old_model[old(users).users@[j].account@],
                    broken@,
                ),
            forall|j: int|
                i <= j < users.users@.len() ==> users@[#[trigger] old(users).users@[j].account@]
                    == old_model[old(users).users@[j].account@],
        decreases users.users@.len() - i,
    {
        let stream = users.users[i].stream;
        let mut hit = false;
        let mut b: usize = 0;
        while b < broken.len()
            invariant
                b <= broken@.len(),
                hit == (exists|c: int| 0 <= c < b && broken@[c] == stream),
            decreases broken@.len() - b,
        {
            if broken[b] == stream {
                hit = true;
            }
            b = b + 1;
        }
        proof {
            assert(hit == broken@.contains(stream));
            assert(users.model@.contains_key(users.users@[i as int].account@));
        }
        if hit {
            let address = users.users[i].address;
            users.update_at(i, false, address, stream);
            proof {
                assert forall|j: int| 0 <= j < users.users@.len() && j != i implies old(
                    users,
                ).users@[j].account@ != old(users).users@[i as int].account@ by {
                    if j < i {
                        assert(users.users@[j].account@ != users.users@[i as int].account@);
                    } else {
                        assert(users.users@[i as int].account@ != users.users@[j].account@);
                    }
                }
            }
        }
        i = i + 1;
    }
    proof {
        assert forall|k: Seq<char>| #[trigger] old(users)@.contains_key(k) implies users@[k]
            == after_check(old(users)@[k], broken@) by {
            let j = choose|j: int|
                0 <= j < old(users).users@.len() && #[trigger] old(users).users@[j].account@ == k;
        }
    }
}

impl UserTable {
    /// Points the account `account` at a new connection `stream` with its
    /// peer `address`; false, with nothing changed, where it is not
    /// registered.
    pub fn reattach(&mut self, account: &String, address: SocketAddress, stream: ConnectionId) -> (r:
        bool)
        requires
            old(self).wf(),
        ensures
            final(self).wf(),
            r == old(self)@.contains_key(account@),
            r ==> final(self)@ == old(self)@.insert(
                account@,
                UserRecord { address, stream, ..old(self)@[account@] },
            ),
            !r ==> final(self)@ == old(self)@,
    {
        match self.find(account) {
            Some(i) => {
                let state = self.users[i].state;
                self.update_at(i, state, address, stream);
                true
            },
            None => false,
        }
    }

    /// Logs `account` out, if it is registered.
    pub fn set_offline(&mut self, account: &String)
        requires
            old(self).wf(),
        ensures
            final(self).wf(),
            old(self)@.contains_key(account@) ==> final(self)@ == old(self)@.insert(
                account@,
                UserRecord { state: false, ..old(self)@[account@] },
            ),
            !old(self)@.contains_key(account@) ==> final(self)@ == old(self)@,
    {
        match self.find(account) {
            Some(i) => {
                let address = self.users[i].address;
                let stream = self.users[i].stream;
                self.update_at(i, false, address, stream);
            },
            None => {},
        }
    }
}

/// An account registered with a password can log in with that password; the
/// login leaves it logged in at the login's address.
pub proof fn registered_account_logs_in(
    t: Map<Seq<char>, UserRecord>,
    account: Seq<char>,
    passwd: Seq<char>,
    address: SocketAddress,
    stream: ConnectionId,
    login_address: SocketAddress,
)
    requires
        !t.contains_key(account),
    ensures
        ({
            let registered = after_reg(t, account, passwd, address, stream);
            &&& reg_state_of(t, account) == REG_SUCCESS
            &&& login_state_of(registered, account, passwd) == LOGIN_SUCCESS
            &&& after_login(registered, account, passwd, login_address)[account].state
            &&& after_login(registered, account, passwd, login_address)[account].address
                == login_address
        }),
{
}

/// A login with any other password than the registered one is refused and
/// changes nothing.
pub proof fn wrong_password_is_refused(
    t: Map<Seq<char>, UserRecord>,
    account: Seq<char>,
    passwd: Seq<char>,
    other: Seq<char>,
    address: SocketAddress,
    stream: ConnectionId,
    login_address: SocketAddress,
)
    requires
        !t.contains_key(account),
        other != passwd,
    ensures
        ({
            let registered = after_reg(t, account, passwd, address, stream);
            &&& login_state_of(registered, account, other) == LOGIN_WRONG_PASSWORD
            &&& after_login(registered, account, other, login_address) == registered
        }),
{
}

/// An account cannot be registered twice: the second registration is refused
/// and keeps the first password.
pub proof fn second_registration_is_refused(
    t: Map<Seq<char>, UserRecord>,
    account: Seq<char>,
    passwd: Seq<char>,
    other: Seq<char>,
    address: SocketAddress,
    stream: ConnectionId,
    other_address: SocketAddress,
    other_stream: ConnectionId,
)
    ensures
        ({
            let registered = after_reg(t, account, passwd, address, stream);
            &&& reg_state_of(registered, account) == REG_EXISTED
            &&& after_reg(registered, account, other, other_address, other_stream) == registered
        }),
{
}

/// Every request of one account leaves the other accounts as they were, and
/// no account is ever removed.
pub proof fn other_accounts_untouched(
    t: Map<Seq<char>, UserRecord>,
    account: Seq<char>,
    passwd: Seq<char>,
    address: SocketAddress,
    stream: ConnectionId,
    k: Seq<char>,
)
    requires
        t.contains_key(k),
        k != account,
    ensures
        after_reg(t, account, passwd, address, stream).contains_key(k),
        after_reg(t, account, passwd, address, stream)[k] == t[k],
        after_login(t, account, passwd, address).contains_key(k),
        after_login(t, account, passwd, address)[k] == t[k],
        after_logout(t, account).contains_key(k),
        after_logout(t, account)[k] == t[k],
        after_reg(t, account, passwd, address, stream).dom().contains(account),
{
}

/// A logout after a login leaves the account logged out, with its password.
pub proof fn logout_after_login(
    t: Map<Seq<char>, UserRecord>,
    account: Seq<char>,
    passwd: Seq<char>,
    address: SocketAddress,
)
    requires
        t.contains_key(account),
    ensures
        !after_logout(after_login(t, account, passwd, address), account)[account].state,
        after_logout(after_login(t, account, passwd, address), account)[account].passwd
            == t[account].passwd,
{
}

/// The checks for broken connections only log users out: a user logged in
/// after the check was logged in before, and password, address and
/// connection are kept.
pub proof fn check_only_logs_out(rec: UserRecord, broken: Seq<ConnectionId>)
    ensures
        after_check(rec, broken).state ==> rec.state,
        after_check(rec, broken).passwd == rec.passwd,
        after_check(rec, broken).address == rec.address,
        after_check(rec, broken).stream == rec.stream,
        !broken.contains(rec.stream) ==> after_check(rec, broken) == rec,
{
}

/// The list of accounts has exactly one entry per registered account.
pub proof fn listing_has_one_entry_per_account(
    list: Seq<UserListView>,
    t: Map<Seq<char>, UserRecord>,
)
    requires
        lists_accounts(list, t),
        t.dom().finite(),
    ensures
        list.len() == t.len(),
{
    let accounts = Seq::new(list.len(), |i: int| list[i].account);
    assert(accounts.no_duplicates());
    assert(accounts.to_set() =~= t.dom()) by {
        assert forall|k: Seq<char>| t.dom().contains(k) implies accounts.to_set().contains(k) by {
            let i = choose|i: int| 0 <= i < list.len() && #[trigger] list[i].account == k;
            assert(accounts[i] == k);
        }
        assert forall|k: Seq<char>| accounts.to_set().contains(k) implies t.dom().contains(k) by {
            let i = choose|i: int| 0 <= i < accounts.len() && accounts[i] == k;
            assert(t.contains_key(list[i].account));
        }
    }
    accounts.unique_seq_to_set();
}

/// A request that changes the table of users, as the functions of this
/// library handle it.
pub enum AccountRequest {
    /// `update_user_reg` (and `process_message_reg`).
    Reg { account: Seq<char>, passwd: Seq<char>, address: SocketAddress, stream: ConnectionId },
    /// `update_user_login` (and `process_message_login`).
    Login { account: Seq<char>, passwd: Seq<char>, address: SocketAddress },
    /// `update_user_logout`, `UserTable::set_offline` (and a failed delivery);
    /// an account that is not registered leaves the table as it is.
    Logout { account: Seq<char> },
    /// `UserTable::reattach` (and `process_receive_request`).
    Reattach { account: Seq<char>, address: SocketAddress, stream: ConnectionId },
    /// `mark_disconnected`.
    CheckConnections { broken: Seq<ConnectionId> },
}

/// Table `t` after request `r`.
pub open spec fn after_request(t: Map<Seq<char>, UserRecord>, r: AccountRequest) -> Map<
    Seq<char>,
    UserRecord,
> {
    match r {
        AccountRequest::Reg { account, passwd, address, stream } => after_reg(
            t,
            account,
            passwd,
            address,
            stream,
        ),
        AccountRequest::Login { account, passwd, address } => after_login(
            t,
            account,
            passwd,
            address,
        ),
        AccountRequest::Logout { account } => if t.contains_key(account) {
            after_logout(t, account)
        } else {
            t
        },
        AccountRequest::Reattach { account, address, stream } => if t.contains_key(account) {
            t.insert(account, UserRecord { address, stream, ..t[account] })
        } else {
            t
        },
        AccountRequest::CheckConnections { broken } => t.map_values(
            |rec: UserRecord| after_check(rec, broken),
        ),
    }
}

/// Table `t` after the requests `rs`, in order.
pub open spec fn after_requests(t: Map<Seq<char>, UserRecord>, rs: Seq<AccountRequest>) -> Map<
    Seq<char>,
    UserRecord,
>
    decreases rs.len(),
{
    if rs.len() == 0 {
        t
    } else {
        after_requests(after_request(t, rs[0]), rs.drop_first())
    }
}

/// No request removes an account or changes its password.
pub proof fn requests_keep_passwords(
    t: Map<Seq<char>, UserRecord>,
    rs: Seq<AccountRequest>,
    account: Seq<char>,
)
    requires
        t.contains_key(account),
    ensures
        after_requests(t, rs).contains_key(account),
        after_requests(t, rs)[account].passwd == t[account].passwd,
    decreases rs.len(),
{
    if rs.len() > 0 {
        let next = after_request(t, rs[0]);
        assert(next.contains_key(account) && next[account].passwd == t[account].passwd);
        requests_keep_passwords(next, rs.drop_first(), account);
    }
}

/// The password an account registered with stays the one that logs in,
/// whatever requests (registrations of any account with any password, logins,
/// logouts, new receiving connections, connection checks) follow: a login
/// with it succeeds, a login with any other is refused.
pub proof fn registered_password_stays(
    t: Map<Seq<char>, UserRecord>,
    account: Seq<char>,
    passwd: Seq<char>,
    address: SocketAddress,
    stream: ConnectionId,
    rs: Seq<AccountRequest>,
    attempt: Seq<char>,
)
    requires
        !t.contains_key(account),
    ensures
        ({
            let later = after_requests(after_reg(t, account, passwd, address, stream), rs);
            &&& reg_state_of(t, account) == REG_SUCCESS
            &&& later.contains_key(account)
            &&& later[account].passwd == passwd
            &&& login_state_of(later, account, attempt) == if attempt == passwd {
                LOGIN_SUCCESS
            } else {
                LOGIN_WRONG_PASSWORD
            }
        }),
{
    requests_keep_passwords(after_reg(t, account, passwd, address, stream), rs, account);
}

/// The check for broken connections logs out every user whose connection is
/// among the broken ones, and leaves every other user as it was.
pub proof fn check_logs_out_every_broken_user(rec: UserRecord, broken: Seq<ConnectionId>)
    ensures
        broken.contains(rec.stream) ==> !after_check(rec, broken).state,
        !broken.contains(rec.stream) ==> after_check(rec, broken) == rec,
{
}

/// A login with the registered password succeeds in every table, and leaves
/// the account logged in at the login's address with its password; a login
/// with another password, or of an unknown account, changes nothing.
pub proof fn login_with_registered_password(
    t: Map<Seq<char>, UserRecord>,
    account: Seq<char>,
    passwd: Seq<char>,
    address: SocketAddress,
)
    ensures
        t.contains_key(account) && t[account].passwd == passwd ==> {
            &&& login_state_of(t, account, passwd) == LOGIN_SUCCESS
            &&& after_login(t, account, passwd, address).contains_key(account)
            &&& after_login(t, account, passwd, address)[account].state
            &&& after_login(t, account, passwd, address)[account].address == address
            &&& after_login(t, account, passwd, address)[account].passwd == passwd
        },
        !(t.contains_key(account) && t[account].passwd == passwd) ==> login_state_of(
            t,
            account,
            passwd,
        ) != LOGIN_SUCCESS && after_login(t, account, passwd, address) == t,
{
}

} // verus!
