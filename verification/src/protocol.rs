//! The messages of the chat protocol: what a client sends to the server
//! (`MessageClient`) and what the server sends back or forwards
//! (`MessageServer`), and how a message is sealed with its digest before it is
//! written and checked against it when it is read.

use crate::address::{unspecified_address, SocketAddress};
use crate::digest::{digest_matches, digest_text, hex_text_injective, message_digest, sha256_hash};
use vstd::prelude::*;
use vstd::string::*;

verus! {

/// Client request: register an account.
pub const MSG_REG: u8 = 0;
/// Client request: log in.
pub const MSG_LOGIN: u8 = 1;
/// Client request: send a text to another account.
pub const MSG_CONTENT: u8 = 2;
/// Client request: log out.
pub const MSG_LOGOUT: u8 = 3;
/// Client request: the list of registered accounts.
pub const MSG_USER_LIST: u8 = 4;
/// Client request: use this connection to receive texts.
pub const MSG_START_RECEIVE: u8 = 5;

/// Server message: the answer to a registration.
pub const SRV_REG: u8 = 0;
/// Server message: the answer to a login.
pub const SRV_LOGIN: u8 = 1;
/// Server message: a text forwarded to its receiver.
pub const SRV_CONTENT_TO_RECEIVER: u8 = 2;
/// Server message: the delivery report sent back to a text's sender.
pub const SRV_CONTENT_TO_SENDER: u8 = 3;
/// Server message: the list of registered accounts.
pub const SRV_USER_LIST: u8 = 4;

/// Registration outcome: the account was created.
pub const REG_SUCCESS: u8 = 1;
/// Registration outcome: the account already exists.
pub const REG_EXISTED: u8 = 2;

/// Login outcome: logged in.
pub const LOGIN_SUCCESS: u8 = 1;
/// Login outcome: the password does not match.
pub const LOGIN_WRONG_PASSWORD: u8 = 2;
/// Login outcome: the account is not registered.
pub const LOGIN_NO_SUCH_USER: u8 = 3;

/// Delivery outcome: the text reached its receiver.
pub const CONTENT_DELIVERED: u8 = 1;
/// Delivery outcome: the receiver is not logged in.
pub const CONTENT_RECEIVER_OFFLINE: u8 = 2;
/// Delivery outcome: the receiver is not registered.
pub const CONTENT_NO_SUCH_RECEIVER: u8 = 3;
/// Delivery outcome: writing to the receiver failed.
pub const CONTENT_RECEIVER_BROKEN: u8 = 4;

pub struct ContentStateView {
    pub s_account: Seq<char>,
    pub r_account: Seq<char>,
    pub content: Seq<char>,
    pub state: u8,
}

/// A text in transit and the outcome of its delivery.
pub struct ContentState {
    pub s_account: String,
    pub r_account: String,
    pub content: String,
    pub state: u8,
}

impl View for ContentState {
    type V = ContentStateView;

    open spec fn view(&self) -> ContentStateView {
        ContentStateView {
            s_account: self.s_account@,
            r_account: self.r_account@,
            content: self.content@,
            state: self.state,
        }
    }
}

impl ContentState {
    /// An empty text with no delivery outcome yet.
    pub fn new() -> (r: ContentState)
        ensures
            r@ == (ContentStateView {
                s_account: Seq::empty(),
                r_account: Seq::empty(),
                content: Seq::empty(),
                state: 0,
            }),
    {
        ContentState {
            s_account: String::new(),
            r_account: String::new(),
            content: String::new(),
            state: 0,
        }
    }
}

pub struct UserListView {
    pub account: Seq<char>,
    pub state: bool,
    pub is_selected: bool,
}

/// One entry of the account list: the account, whether it is logged in, and
/// whether the client has picked it as a receiver.
pub struct UserList {
    pub account: String,
    pub state: bool,
    pub is_selected: bool,
}

impl View for UserList {
    type V = UserListView;

    open spec fn view(&self) -> UserListView {
        UserListView { account: self.account@, state: self.state, is_selected: self.is_selected }
    }
}

impl UserList {
    /// An entry with an empty account, offline and not picked.
    pub fn new() -> (r: UserList)
        ensures
            r@ == (UserListView { account: Seq::empty(), state: false, is_selected: false }),
    {
        UserList { account: String::new(), state: false, is_selected: false }
    }
}

/// The views of the entries of a list, in order.
pub open spec fn user_list_view(list: Seq<UserList>) -> Seq<UserListView> {
    list.map_values(|u: UserList| u@)
}

pub struct MessageClientView {
    pub msg_type: u8,
    pub s_account: Seq<char>,
    pub r_account: Seq<char>,
    pub passwd: Seq<char>,
    pub content: Seq<char>,
    pub address: SocketAddress,
    pub hash: Seq<char>,
}

impl MessageClientView {
    /// The message as it is serialized to compute its digest: bound to `peer`,
    /// with an empty digest.
    pub open spec fn unsealed_for(self, peer: SocketAddress) -> MessageClientView {
        MessageClientView { address: peer, hash: Seq::empty(), ..self }
    }

    /// The message carrying `code` as its digest.
    pub open spec fn with_hash(self, code: Seq<char>) -> MessageClientView {
        MessageClientView { hash: code, ..self }
    }
}

/// A request from a client to the server.
pub struct MessageClient {
    pub msg_type: u8,
    pub s_account: String,
    pub r_account: String,
    pub passwd: String,
    pub content: String,
    pub address: SocketAddress,
    pub hash: String,
}

impl View for MessageClient {
    type V = MessageClientView;

    open spec fn view(&self) -> MessageClientView {
        MessageClientView {
            msg_type: self.msg_type,
            s_account: self.s_account@,
            r_account: self.r_account@,
            passwd: self.passwd@,
            content: self.content@,
            address: self.address,
            hash: self.hash@,
        }
    }
}

/// A request of kind `msg_type` as a client first builds it: not yet bound
/// to a connection and without a digest.
pub open spec fn request_view(
    msg_type: u8,
    s_account: Seq<char>,
    r_account: Seq<char>,
    passwd: Seq<char>,
    content: Seq<char>,
) -> MessageClientView {
    MessageClientView {
        msg_type,
        s_account,
        r_account,
        passwd,
        content,
        address: unspecified_address(),
        hash: Seq::empty(),
    }
}

/// A message whose digest did not match its content.
pub struct IntegrityError {
    /// The digest the message carried.
    pub sent: String,
    /// The digest of what arrived.
    pub computed: String,
}

impl MessageClient {
    fn request(
        msg_type: u8,
        s_account: String,
        r_account: String,
        passwd: String,
        content: String,
    ) -> (r: MessageClient)
        ensures
            r@ == request_view(msg_type, s_account@, r_account@, passwd@, content@),
    {
        let r = MessageClient {
            msg_type,
            s_account,
            r_account,
            passwd,
            content,
            address: SocketAddress::unspecified(),
            hash: String::new(),
        };
        r
    }

    /// The registration request of `account` with `password`.
    pub fn reg_message(account: String, password: String) -> (r: MessageClient)
        ensures
            r@ == request_view(MSG_REG, account@, Seq::empty(), password@, Seq::empty()),
    {
        MessageClient::request(MSG_REG, account, String::new(), password, String::new())
    }

    /// The login request of `account` with `password`.
    pub fn login_message(account: String, password: String) -> (r: MessageClient)
        ensures
            r@ == request_view(MSG_LOGIN, account@, Seq::empty(), password@, Seq::empty()),
    {
        MessageClient::request(MSG_LOGIN, account, String::new(), password, String::new())
    }

    /// The request to send `content` from `s_account` to `r_account`.
    pub fn content_message(s_account: String, r_account: String, content: String) -> (r:
        MessageClient)
        ensures
            r@ == request_view(MSG_CONTENT, s_account@, r_account@, Seq::empty(), content@),
    {
        MessageClient::request(MSG_CONTENT, s_account, r_account, String::new(), content)
    }

    /// The logout request of `account`.
    pub fn logout_message(account: String) -> (r: MessageClient)
        ensures
            r@ == request_view(MSG_LOGOUT, account@, Seq::empty(), Seq::empty(), Seq::empty()),
    {
        MessageClient::request(MSG_LOGOUT, account, String::new(), String::new(), String::new())
    }

    /// The request of `account` for the list of registered accounts.
    pub fn user_list_request(account: String) -> (r: MessageClient)
        ensures
            r@ == request_view(MSG_USER_LIST, account@, Seq::empty(), Seq::empty(), Seq::empty()),
    {
        MessageClient::request(MSG_USER_LIST, account, String::new(), String::new(), String::new())
    }

    /// The request of `account` to receive its texts on this connection.
    pub fn start_receive_request(account: String) -> (r: MessageClient)
        ensures
            r@ == request_view(
                MSG_START_RECEIVE,
                account@,
                Seq::empty(),
                Seq::empty(),
                Seq::empty(),
            ),
    {
        MessageClient::request(
            MSG_START_RECEIVE,
            account,
            String::new(),
            String::new(),
            String::new(),
        )
    }

    /// First step of writing the message to a connection whose peer is
    /// `peer`: the message is bound to the peer and its digest is cleared, the
    /// form in which it is serialized to compute the digest.
    pub fn prepare_seal(&mut self, peer: SocketAddress)
        ensures
            final(self)@ == old(self)@.unsealed_for(peer),
    {
        self.hash = String::new();
        self.address = peer;
    }

    /// Second step of writing: `json` is the serialized form of the prepared
    /// message; the message takes its digest.
    pub fn seal(&mut self, json: &str)
        ensures
            final(self)@ == old(self)@.with_hash(digest_text(json.spec_bytes())),
            final(self)@.hash.len() == 64,
    {
        self.hash = message_digest(json);
    }

    /// First step of reading: the digest that arrived is taken out, leaving
    /// the message in the form in which it was serialized for the digest.
    pub fn take_hash(&mut self) -> (code: String)
        ensures
            code@ == old(self)@.hash,
            final(self)@ == old(self)@.with_hash(Seq::empty()),
    {
        let code = self.hash.clone();
        self.hash = String::new();
        code
    }

    /// Second step of reading: `json` is the serialized form of the message
    /// after `take_hash`, `code` the digest that came with it. The message is
    /// accepted exactly when `code` is the digest of `json`.
    pub fn verify(self, json: &str, code: String) -> (r: Result<MessageClient, IntegrityError>)
        ensures
            match r {
                Ok(m) => m@ == self@ && code@ == digest_text(json.spec_bytes()),
                Err(e) => code@ != digest_text(json.spec_bytes()) && e.sent@ == code@
                    && e.computed@ == digest_text(json.spec_bytes()),
            },
    {
        if digest_matches(json, &code) {
            Ok(self)
        } else {
            Err(IntegrityError { sent: code, computed: message_digest(json) })
        }
    }
}

pub struct MessageServerView {
    pub msg_type: u8,
    pub reg_state: u8,
    pub login_state: u8,
    pub content_state: ContentStateView,
    pub user_list: Seq<UserListView>,
    pub address: SocketAddress,
    pub hash: Seq<char>,
}

impl MessageServerView {
    /// The message as it is serialized to compute its digest: bound to `peer`,
    /// with an empty digest.
    pub open spec fn unsealed_for(self, peer: SocketAddress) -> MessageServerView {
        MessageServerView { address: peer, hash: Seq::empty(), ..self }
    }

    /// The message carrying `code` as its digest.
    pub open spec fn with_hash(self, code: Seq<char>) -> MessageServerView {
        MessageServerView { hash: code, ..self }
    }
}

/// A message from the server to a client.
pub struct MessageServer {
    pub msg_type: u8,
    pub reg_state: u8,
    pub login_state: u8,
    pub content_state: ContentState,
    pub user_list: Vec<UserList>,
    pub address: SocketAddress,
    pub hash: String,
}

impl View for MessageServer {
    type V = MessageServerView;

    open spec fn view(&self) -> MessageServerView {
        MessageServerView {
            msg_type: self.msg_type,
            reg_state: self.reg_state,
            login_state: self.login_state,
            content_state: self.content_state@,
            user_list: user_list_view(self.user_list@),
            address: self.address,
            hash: self.hash@,
        }
    }
}

/// The blank answer addressed to `address`, before the server fills it in.
pub open spec fn blank_answer(address: SocketAddress) -> MessageServerView {
    MessageServerView {
        msg_type: 0,
        reg_state: 0,
        login_state: 0,
        content_state: ContentStateView {
            s_account: Seq::empty(),
            r_account: Seq::empty(),
            content: Seq::empty(),
            state: 0,
        },
        user_list: Seq::empty(),
        address,
        hash: Seq::empty(),
    }
}

impl MessageServer {
    /// The blank answer addressed to `address`.
    pub fn new(address: SocketAddress) -> (r: MessageServer)
        ensures
            r@ == blank_answer(address),
    {
        let r = MessageServer {
            msg_type: 0,
            reg_state: 0,
            login_state: 0,
            content_state: ContentState::new(),
            user_list: Vec::new(),
            address,
            hash: String::new(),
        };
        assert(r@.user_list =~= Seq::<UserListView>::empty());
        r
    }

    /// First step of writing the message to a connection whose peer is
    /// `peer`: the message is bound to the peer and its digest is cleared.
    pub fn prepare_seal(&mut self, peer: SocketAddress)
        ensures
            final(self)@ == old(self)@.unsealed_for(peer),
    {
        self.address = peer;
        self.hash = String::new();
    }

    /// Second step of writing: `json` is the serialized form of the prepared
    /// message; the message takes its digest.
    pub fn seal(&mut self, json: &str)
        ensures
            final(self)@ == old(self)@.with_hash(digest_text(json.spec_bytes())),
            final(self)@.hash.len() == 64,
    {
        self.hash = message_digest(json);
    }

    /// First step of reading: the digest that arrived is taken out.
    pub fn take_hash(&mut self) -> (code: String)
        ensures
            code@ == old(self)@.hash,
            final(self)@ == old(self)@.with_hash(Seq::empty()),
    {
        let code = self.hash.clone();
        self.hash = String::new();
        code
    }

    /// Second step of reading: the message is accepted exactly when `code` is
    /// the digest of `json`, its serialized form after `take_hash`.
    pub fn verify(self, json: &str, code: String) -> (r: Result<MessageServer, IntegrityError>)
        ensures
            match r {
                Ok(m) => m@ == self@ && code@ == digest_text(json.spec_bytes()),
                Err(e) => code@ != digest_text(json.spec_bytes()) && e.sent@ == code@
                    && e.computed@ == digest_text(json.spec_bytes()),
            },
    {
        if digest_matches(json, &code) {
            Ok(self)
        } else {
            Err(IntegrityError { sent: code, computed: message_digest(json) })
        }
    }
}

/// A request sealed for a peer is accepted by that peer: taking its digest
/// out gives back exactly the message that was serialized for the digest, so
/// the peer serializes the same JSON, and the digest it carries is the digest
/// of that JSON.
pub proof fn sealed_request_is_accepted(
    m: MessageClientView,
    peer: SocketAddress,
    json: Seq<u8>,
)
    ensures
        ({
            let prepared = m.unsealed_for(peer);
            let sealed = prepared.with_hash(digest_text(json));
            &&& sealed.with_hash(Seq::empty()) == prepared
            &&& sealed.hash == digest_text(json)
            &&& sealed.address == peer
        }),
{
}

/// The same for the server's messages.
pub proof fn sealed_answer_is_accepted(m: MessageServerView, peer: SocketAddress, json: Seq<u8>)
    ensures
        ({
            let prepared = m.unsealed_for(peer);
            let sealed = prepared.with_hash(digest_text(json));
            &&& sealed.with_hash(Seq::empty()) == prepared
            &&& sealed.hash == digest_text(json)
            &&& sealed.address == peer
        }),
{
}

/// A message that arrives with a JSON form other than the one it was sealed
/// over is refused, wherever the two forms' SHA-256 hashes differ: their
/// digest texts differ.
pub proof fn altered_message_is_refused(sealed_json: Seq<u8>, arrived_json: Seq<u8>)
    requires
        sha256_hash(sealed_json) != sha256_hash(arrived_json),
    ensures
        digest_text(sealed_json) != digest_text(arrived_json),
{
    if digest_text(sealed_json) == digest_text(arrived_json) {
        hex_text_injective(sha256_hash(sealed_json), sha256_hash(arrived_json));
    }
}

} // verus!
