//! What the server does with each request: the answer it writes back, the
//! text it forwards, and how its table of users changes.

use crate::address::SocketAddress;
use crate::protocol::{
    blank_answer, ContentStateView, MessageClient, MessageClientView, MessageServer,
    MessageServerView, UserListView, CONTENT_DELIVERED, CONTENT_NO_SUCH_RECEIVER,
    CONTENT_RECEIVER_BROKEN, CONTENT_RECEIVER_OFFLINE, REG_EXISTED, REG_SUCCESS, MSG_CONTENT, MSG_LOGIN, MSG_LOGOUT,
    MSG_REG, MSG_START_RECEIVE, MSG_USER_LIST, SRV_CONTENT_TO_RECEIVER, SRV_CONTENT_TO_SENDER,
    SRV_LOGIN, SRV_USER_LIST,
};
use crate::users::{
    after_login, after_logout, after_reg, get_user_list, lists_accounts, login_state_of,
    mark_disconnected, reg_state_of, update_user_login, update_user_logout, update_user_reg,
    after_check, ConnectionId, NotRegistered, UserRecord, UserTable,
};
use vstd::prelude::*;

verus! {

/// What the server has to write after a request.
pub enum Dispatch {
    /// Write the message back on the connection the request came on.
    Reply(MessageServer),
    /// Write the text to its receiver's connection, then report the outcome
    /// with `complete_delivery`.
    Forward { recipient: ConnectionId, message: MessageServer },
    /// Write nothing.
    Silent,
    /// The request is of an unknown kind; write nothing.
    UnknownType(u8),
}

pub enum DispatchView {
    Reply(MessageServerView),
    Forward { recipient: ConnectionId, message: MessageServerView },
    Silent,
    UnknownType(u8),
}

impl View for Dispatch {
    type V = DispatchView;

    open spec fn view(&self) -> DispatchView {
        match self {
            Dispatch::Reply(m) => DispatchView::Reply(m@),
            Dispatch::Forward { recipient, message } => DispatchView::Forward {
                recipient: *recipient,
                message: message@,
            },
            Dispatch::Silent => DispatchView::Silent,
            Dispatch::UnknownType(t) => DispatchView::UnknownType(*t),
        }
    }
}

/// The text of request `m` as it is forwarded to its receiver, built on the
/// answer `base`.
pub open spec fn forwarded_text(base: MessageServerView, m: MessageClientView) -> MessageServerView {
    MessageServerView {
        msg_type: SRV_CONTENT_TO_RECEIVER,
        content_state: ContentStateView {
            s_account: m.s_account,
            r_account: m.r_account,
            content: m.content,
            ..base.content_state
        },
        ..base
    }
}

/// The report to the sender of `text` with delivery outcome `state`.
pub open spec fn delivery_report(text: MessageServerView, state: u8) -> MessageServerView {
    MessageServerView {
        msg_type: SRV_CONTENT_TO_SENDER,
        content_state: ContentStateView { state, ..text.content_state },
        ..text
    }
}

/// What the server does with the text request `m`, given the table `t`:
/// forward it where the receiver is logged in, otherwise report why not.
pub open spec fn content_dispatch(
    t: Map<Seq<char>, UserRecord>,
    base: MessageServerView,
    m: MessageClientView,
) -> DispatchView {
    let text = forwarded_text(base, m);
    if !t.contains_key(m.r_account) {
        DispatchView::Reply(delivery_report(text, CONTENT_NO_SUCH_RECEIVER))
    } else if !t[m.r_account].state {
        DispatchView::Reply(delivery_report(text, CONTENT_RECEIVER_OFFLINE))
    } else {
        DispatchView::Forward { recipient: t[m.r_account].stream, message: text }
    }
}

/// Answers a registration: the answer carries the outcome.
pub fn process_message_reg(
    message_client: MessageClient,
    message_server: MessageServer,
    users: &mut UserTable,
    stream: ConnectionId,
) -> (r: MessageServer)
    requires
        old(users).wf(),
    ensures
        final(users).wf(),
        r@ == (MessageServerView {
            reg_state: reg_state_of(old(users)@, message_client.s_account@),
            ..message_server@
        }),
        final(users)@ == after_reg(
            old(users)@,
            message_client.s_account@,
            message_client.passwd@,
            message_client.address,
            stream,
        ),
{
    let mut message_server = message_server;
    message_server.reg_state = update_user_reg(users, message_client, stream);
    message_server
}

/// Answers a login: the answer is of the login kind and carries the outcome.
pub fn process_message_login(
    message_client: MessageClient,
    message_server: MessageServer,
    users: &mut UserTable,
) -> (r: MessageServer)
    requires
        old(users).wf(),
    ensures
        final(users).wf(),
        r@ == (MessageServerView {
            msg_type: SRV_LOGIN,
            login_state: login_state_of(
                old(users)@,
                message_client.s_account@,
                message_client.passwd@,
            ),
            ..message_server@
        }),
        final(users)@ == after_login(
            old(users)@,
            message_client.s_account@,
            message_client.passwd@,
            message_client.address,
        ),
{
    let mut message_server = message_server;
    message_server.msg_type = SRV_LOGIN;
    message_server.login_state = update_user_login(users, message_client);
    message_server
}

/// Handles a text: forwards it to a logged-in receiver, or reports to the
/// sender that the receiver is offline or unknown. The table is not changed.
pub fn process_message_content(
    message_client: MessageClient,
    message_server: MessageServer,
    users: &UserTable,
) -> (r: Dispatch)
    requires
        users.wf(),
    ensures
        r@ == content_dispatch(users@, message_server@, message_client@),
        users@.contains_key(message_client.r_account@) && users@[message_client.r_account@].state
            ==> (r matches Dispatch::Forward { recipient, message } && recipient
            == users@[message_client.r_account@].stream && message.msg_type
            == SRV_CONTENT_TO_RECEIVER && message.content_state.s_account@
            == message_client.s_account@ && message.content_state.r_account@
            == message_client.r_account@ && message.content_state.content@
            == message_client.content@),
        users@.contains_key(message_client.r_account@) && !users@[message_client.r_account@].state
            ==> (r matches Dispatch::Reply(a) && a.msg_type == SRV_CONTENT_TO_SENDER
            && a.content_state.state == CONTENT_RECEIVER_OFFLINE),
        !users@.contains_key(message_client.r_account@) ==> (r matches Dispatch::Reply(a)
            && a.msg_type == SRV_CONTENT_TO_SENDER && a.content_state.state
            == CONTENT_NO_SUCH_RECEIVER),
{
    let mut message_server = message_server;
    message_server.msg_type = SRV_CONTENT_TO_RECEIVER;
    message_server.content_state.r_account = message_client.r_account.clone();
    message_server.content_state.s_account = message_client.s_account.clone();
    message_server.content_state.content = message_client.content.clone();
    match users.get(&message_client.r_account) {
        Some(r) => {
            if r.state {
                Dispatch::Forward { recipient: r.stream, message: message_server }
            } else {
                message_server.content_state.state = CONTENT_RECEIVER_OFFLINE;
                message_server.msg_type = SRV_CONTENT_TO_SENDER;
                Dispatch::Reply(message_server)
            }
        },
        None => {
            message_server.content_state.state = CONTENT_NO_SUCH_RECEIVER;
            message_server.msg_type = SRV_CONTENT_TO_SENDER;
            Dispatch::Reply(message_server)
        },
    }
}

/// After a forwarded text was written to its receiver (`delivered`) or the
/// write failed: the report for the sender. A receiver whose connection
/// failed is logged out.
pub fn complete_delivery(text: MessageServer, users: &mut UserTable, delivered: bool) -> (r:
    MessageServer)
    requires
        old(users).wf(),
    ensures
        final(users).wf(),
        delivered ==> r@ == delivery_report(text@, CONTENT_DELIVERED) && final(users)@ == old(
            users,
        )@,
        !delivered ==> r@ == delivery_report(text@, CONTENT_RECEIVER_BROKEN),
        !delivered && old(users)@.contains_key(text@.content_state.r_account) ==> final(users)@
            == after_logout(old(users)@, text@.content_state.r_account),
        !delivered && !old(users)@.contains_key(text@.content_state.r_account) ==> final(users)@
            == old(users)@,
{
    let mut text = text;
    if delivered {
        text.content_state.state = CONTENT_DELIVERED;
    } else {
        text.content_state.state = CONTENT_RECEIVER_BROKEN;
        users.set_offline(&text.content_state.r_account);
    }
    text.msg_type = SRV_CONTENT_TO_SENDER;
    text
}

/// Handles a logout.
pub fn process_message_logout(message_client: MessageClient, users: &mut UserTable) -> (r: Result<
    (),
    NotRegistered,
>)
    requires
        old(users).wf(),
    ensures
        final(users).wf(),
        match r {
            Ok(()) => old(users)@.contains_key(message_client.s_account@) && final(users)@
                == after_logout(old(users)@, message_client.s_account@),
            Err(e) => !old(users)@.contains_key(message_client.s_account@) && e.account@
                == message_client.s_account@ && final(users)@ == old(users)@,
        },
{
    update_user_logout(users, message_client)
}

/// Answers a request for the list of accounts.
pub fn process_message_user_list(message_server: MessageServer, users: &UserTable) -> (r:
    MessageServer)
    requires
        users.wf(),
    ensures
        r@.msg_type == SRV_USER_LIST,
        lists_accounts(r@.user_list, users@),
        r@ == (MessageServerView { msg_type: SRV_USER_LIST, user_list: r@.user_list, ..message_server@ }),
{
    let mut message_server = message_server;
    message_server.msg_type = SRV_USER_LIST;
    message_server.user_list = get_user_list(users);
    message_server
}

/// Takes the connection `stream` as the one on which texts for the sender
/// are delivered; false where the sender is not registered.
pub fn process_receive_request(
    message_client: MessageClient,
    stream: ConnectionId,
    users: &mut UserTable,
) -> (r: bool)
    requires
        old(users).wf(),
    ensures
        final(users).wf(),
        r == old(users)@.contains_key(message_client.s_account@),
        r ==> final(users)@ == old(users)@.insert(
            message_client.s_account@,
            UserRecord {
                address: message_client.address,
                stream,
                ..old(users)@[message_client.s_account@]
            },
        ),
        !r ==> final(users)@ == old(users)@,
{
    users.reattach(&message_client.s_account, message_client.address, stream)
}

/// What the server does with request `m` that came on connection `stream`
/// from `address`, given table `t`: the answer and the table after it.
/// `None` is the failed logout of an account that is not registered.
pub open spec fn dispatch_spec(
    t: Map<Seq<char>, UserRecord>,
    m: MessageClientView,
    stream: ConnectionId,
    address: SocketAddress,
) -> Option<(DispatchView, Map<Seq<char>, UserRecord>)> {
    let base = blank_answer(address);
    if m.msg_type == MSG_REG {
        Some(
            (
                DispatchView::Reply(
                    MessageServerView { reg_state: reg_state_of(t, m.s_account), ..base },
                ),
                after_reg(t, m.s_account, m.passwd, m.address, stream),
            ),
        )
    } else if m.msg_type == MSG_LOGIN {
        Some(
            (
                DispatchView::Reply(
                    MessageServerView {
                        msg_type: SRV_LOGIN,
                        login_state: login_state_of(t, m.s_account, m.passwd),
                        ..base
                    },
                ),
                after_login(t, m.s_account, m.passwd, m.address),
            ),
        )
    } else if m.msg_type == MSG_CONTENT {
        Some((content_dispatch(t, base, m), t))
    } else if m.msg_type == MSG_LOGOUT {
        if t.contains_key(m.s_account) {
            Some((DispatchView::Silent, after_logout(t, m.s_account)))
        } else {
            None
        }
    } else if m.msg_type == MSG_START_RECEIVE {
        if t.contains_key(m.s_account) {
            Some(
                (
                    DispatchView::Silent,
                    t.insert(
                        m.s_account,
                        UserRecord { address: m.address, stream, ..t[m.s_account] },
                    ),
                ),
            )
        } else {
            Some((DispatchView::Silent, t))
        }
    } else if m.msg_type == MSG_USER_LIST {
        // The list itself is stated apart (`lists_accounts`): its order is left open.
        Some((DispatchView::Reply(MessageServerView { msg_type: SRV_USER_LIST, ..base }), t))
    } else {
        Some((DispatchView::UnknownType(m.msg_type), t))
    }
}

/// Handles request `message_client` that came on connection `stream`; the
/// answer is addressed to `address`.
pub fn process_message(
    message_client: MessageClient,
    users: &mut UserTable,
    stream: ConnectionId,
    address: SocketAddress,
) -> (r: Result<Dispatch, NotRegistered>)
    requires
        old(users).wf(),
    ensures
        final(users).wf(),
        match (r, dispatch_spec(old(users)@, message_client@, stream, address)) {
            (Ok(d), Some((expected, table))) => {
                &&& final(users)@ == table
                &&& if message_client@.msg_type == MSG_USER_LIST {
                    d matches Dispatch::Reply(a) && lists_accounts(a@.user_list, old(users)@) && a@
                        == (MessageServerView {
                        msg_type: SRV_USER_LIST,
                        user_list: a@.user_list,
                        ..blank_answer(address)
                    })
                } else {
                    d@ == expected
                }
            },
            (Err(e), None) => e.account@ == message_client@.s_account && final(users)@ == old(
                users,
            )@,
            _ => false,
        },
        message_client.msg_type == MSG_REG ==> (r matches Ok(Dispatch::Reply(a)) && a.reg_state
            == if old(users)@.contains_key(message_client.s_account@) {
            REG_EXISTED
        } else {
            REG_SUCCESS
        }),
{
    let message_server = MessageServer::new(address);
    let t = message_client.msg_type;
    if t == MSG_REG {
        let a = process_message_reg(message_client, message_server, users, stream);
        Ok(Dispatch::Reply(a))
    } else if t == MSG_LOGIN {
        let a = process_message_login(message_client, message_server, users);
        Ok(Dispatch::Reply(a))
    } else if t == MSG_CONTENT {
        Ok(process_message_content(message_client, message_server, users))
    } else if t == MSG_LOGOUT {
        match process_message_logout(message_client, users) {
            Ok(()) => Ok(Dispatch::Silent),
            Err(e) => Err(e),
        }
    } else if t == MSG_USER_LIST {
        Ok(Dispatch::Reply(process_message_user_list(message_server, users)))
    } else if t == MSG_START_RECEIVE {
        process_receive_request(message_client, stream, users);
        Ok(Dispatch::Silent)
    } else {
        Ok(Dispatch::UnknownType(t))
    }
}

/// Handles one connection's request: first every user whose connection is
/// among `broken` is logged out, then the request is handled, its answer
/// addressed to the request's own address.
pub fn handle_connect(
    users: &mut UserTable,
    message_client: MessageClient,
    stream: ConnectionId,
    broken: &Vec<ConnectionId>,
) -> (r: Result<Dispatch, NotRegistered>)
    requires
        old(users).wf(),
    ensures
        final(users).wf(),
        ({
            let checked = old(users)@.map_values(|rec: UserRecord| after_check(rec, broken@));
            let address = message_client@.address;
            match (r, dispatch_spec(checked, message_client@, stream, address)) {
                (Ok(d), Some((expected, table))) => {
                    &&& final(users)@ == table
                    &&& if message_client@.msg_type == MSG_USER_LIST {
                        d matches Dispatch::Reply(a) && lists_accounts(a@.user_list, checked) && a@
                            == (MessageServerView {
                            msg_type: SRV_USER_LIST,
                            user_list: a@.user_list,
                            ..blank_answer(address)
                        })
                    } else {
                        d@ == expected
                    }
                },
                (Err(e), None) => e.account@ == message_client@.s_account && final(users)@
                    == checked,
                _ => false,
            }
        }),
{
    let address = message_client.address;
    mark_disconnected(users, broken);
    proof {
        let checked = old(users)@.map_values(|rec: UserRecord| after_check(rec, broken@));
        assert(users@ =~= checked);
    }
    process_message(message_client, users, stream, address)
}

/// Whatever becomes of a text, what the server forwards and what it reports
/// to the sender name the text's sender, receiver and content as the request
/// did; a report carries the outcome, a forwarded text goes to the
/// receiver's connection and only to a logged-in receiver.
pub proof fn delivery_keeps_the_text(
    t: Map<Seq<char>, UserRecord>,
    base: MessageServerView,
    m: MessageClientView,
    delivered: bool,
)
    ensures
        match content_dispatch(t, base, m) {
            DispatchView::Forward { recipient, message } => {
                &&& t.contains_key(m.r_account) && t[m.r_account].state
                &&& recipient == t[m.r_account].stream
                &&& message.msg_type == SRV_CONTENT_TO_RECEIVER
                &&& message.content_state.s_account == m.s_account
                &&& message.content_state.r_account == m.r_account
                &&& message.content_state.content == m.content
                &&& ({
                    let report = delivery_report(
                        message,
                        if delivered {
                            CONTENT_DELIVERED
                        } else {
                            CONTENT_RECEIVER_BROKEN
                        },
                    );
                    &&& report.msg_type == SRV_CONTENT_TO_SENDER
                    &&& report.content_state.s_account == m.s_account
                    &&& report.content_state.r_account == m.r_account
                    &&& report.content_state.content == m.content
                })
            },
            DispatchView::Reply(report) => {
                &&& report.msg_type == SRV_CONTENT_TO_SENDER
                &&& report.content_state.s_account == m.s_account
                &&& report.content_state.r_account == m.r_account
                &&& report.content_state.content == m.content
                &&& report.content_state.state == (if t.contains_key(m.r_account) {
                    CONTENT_RECEIVER_OFFLINE
                } else {
                    CONTENT_NO_SUCH_RECEIVER
                })
            },
            _ => false,
        },
{
}

/// Handling a text request leaves the table of users as it was (only the
/// report on a failed write, `complete_delivery`, logs the receiver out).
pub proof fn only_failed_delivery_logs_out(
    t: Map<Seq<char>, UserRecord>,
    m: MessageClientView,
    stream: ConnectionId,
    address: SocketAddress,
)
    requires
        m.msg_type == MSG_CONTENT,
    ensures
        dispatch_spec(t, m, stream, address) matches Some((_, table)) && table == t,
{
}

/// Where to a text goes depends on its receiver alone: a text for a
/// registered, logged-in receiver is forwarded to that receiver's connection,
/// whoever sends it; a registered receiver who is logged out is reported
/// offline, and an unknown receiver is reported unknown.
pub proof fn text_goes_to_logged_in_receiver(
    t: Map<Seq<char>, UserRecord>,
    base: MessageServerView,
    m: MessageClientView,
)
    ensures
        t.contains_key(m.r_account) && t[m.r_account].state ==> (content_dispatch(t, base, m) matches DispatchView::Forward { recipient, message }
            && recipient == t[m.r_account].stream && message.msg_type == SRV_CONTENT_TO_RECEIVER
            && message.content_state.s_account == m.s_account && message.content_state.r_account
            == m.r_account && message.content_state.content == m.content),
        t.contains_key(m.r_account) && !t[m.r_account].state ==> (content_dispatch(t, base, m) matches DispatchView::Reply(a)
            && a.msg_type == SRV_CONTENT_TO_SENDER && a.content_state.state
            == CONTENT_RECEIVER_OFFLINE),
        !t.contains_key(m.r_account) ==> (content_dispatch(t, base, m) matches DispatchView::Reply(a)
            && a.msg_type == SRV_CONTENT_TO_SENDER && a.content_state.state
            == CONTENT_NO_SUCH_RECEIVER),
{
}

/// The server's answer to a registration carries the outcome of registering
/// against the table as it was: "existed" exactly when the account was
/// registered already, "success" otherwise; and afterwards the account is
/// registered.
pub proof fn registration_answer_tells_the_outcome(
    t: Map<Seq<char>, UserRecord>,
    m: MessageClientView,
    stream: ConnectionId,
    address: SocketAddress,
)
    requires
        m.msg_type == MSG_REG,
    ensures
        dispatch_spec(t, m, stream, address) matches Some((DispatchView::Reply(a), table)) && a.reg_state
            == (if t.contains_key(m.s_account) {
            REG_EXISTED
        } else {
            REG_SUCCESS
        }) && table.contains_key(m.s_account) && (t.contains_key(m.s_account) ==> table == t),
{
}

} // verus!
