//! The client's side: the state behind its windows, the commands that update
//! it, and how it reads the server's answers.

use crate::protocol::{
    user_list_view, MessageServer, MessageServerView, UserList, UserListView, CONTENT_DELIVERED,
    CONTENT_RECEIVER_BROKEN, CONTENT_RECEIVER_OFFLINE, LOGIN_NO_SUCH_USER, LOGIN_SUCCESS,
    LOGIN_WRONG_PASSWORD, REG_EXISTED, REG_SUCCESS, SRV_CONTENT_TO_RECEIVER,
    SRV_CONTENT_TO_SENDER, SRV_LOGIN, SRV_REG, SRV_USER_LIST,
};
use std::collections::VecDeque;
use vstd::prelude::*;
use vstd::string::*;

verus! {

pub struct MessageContentView {
    pub s_account: Seq<char>,
    pub r_content: Seq<char>,
    pub content: Seq<char>,
    pub state: Seq<char>,
}

/// A text as the client shows it: sender, receiver, text and a note on its
/// delivery.
pub struct MessageContent {
    pub s_account: String,
    pub r_content: String,
    pub content: String,
    pub state: String,
}

impl View for MessageContent {
    type V = MessageContentView;

    open spec fn view(&self) -> MessageContentView {
        MessageContentView {
            s_account: self.s_account@,
            r_content: self.r_content@,
            content: self.content@,
            state: self.state@,
        }
    }
}

/// The line that shows a text: `(sender)->(receiver):text note`.
pub open spec fn display_line(m: MessageContentView) -> Seq<char> {
    "("@ + m.s_account + ")->("@ + m.r_content + "):"@ + m.content + " "@ + m.state
}

impl MessageContent {
    /// The line that shows the text.
    pub fn display(&self) -> (line: String)
        ensures
            line@ == display_line(self@),
    {
        let mut line = String::from_str("(");
        line.append(self.s_account.as_str());
        line.append(")->(");
        line.append(self.r_content.as_str());
        line.append("):");
        line.append(self.content.as_str());
        line.append(" ");
        line.append(self.state.as_str());
        line
    }
}

pub struct StateView {
    pub account: Seq<char>,
    pub passwd: Seq<char>,
    pub server_address: Seq<char>,
    pub result: Seq<char>,
    pub users: Seq<UserListView>,
    pub content: Seq<MessageContentView>,
    pub selected_users: Seq<Seq<char>>,
    pub content_to_send: Seq<char>,
}

/// Everything the client's windows show and edit.
pub struct State {
    pub account: String,
    pub passwd: String,
    pub server_address: String,
    /// The last outcome or error, shown to the user.
    pub result: String,
    pub users: Vec<UserList>,
    /// The texts sent and received, oldest first.
    pub content: VecDeque<MessageContent>,
    /// The accounts picked as receivers.
    pub selected_users: Vec<String>,
    pub content_to_send: String,
}

impl View for State {
    type V = StateView;

    open spec fn view(&self) -> StateView {
        StateView {
            account: self.account@,
            passwd: self.passwd@,
            server_address: self.server_address@,
            result: self.result@,
            users: user_list_view(self.users@),
            content: self.content@.map_values(|m: MessageContent| m@),
            selected_users: self.selected_users@.map_values(|s: String| s@),
            content_to_send: self.content_to_send@,
        }
    }
}

impl State {
    /// The state of a freshly started client: everything empty but the
    /// server's address, `127.0.0.1:12345`.
    pub fn initial() -> (r: State)
        ensures
            r@ == (StateView {
                account: Seq::empty(),
                passwd: Seq::empty(),
                server_address: "127.0.0.1:12345"@,
                result: Seq::empty(),
                users: Seq::empty(),
                content: Seq::empty(),
                selected_users: Seq::empty(),
                content_to_send: Seq::empty(),
            }),
    {
        let r = State {
            account: String::new(),
            passwd: String::new(),
            server_address: String::from_str("127.0.0.1:12345"),
            result: String::new(),
            users: Vec::new(),
            content: VecDeque::new(),
            selected_users: Vec::new(),
            content_to_send: String::new(),
        };
        assert(r@.users =~= Seq::<UserListView>::empty());
        assert(r@.content =~= Seq::<MessageContentView>::empty());
        assert(r@.selected_users =~= Seq::<Seq<char>>::empty());
        r
    }
}

/// An update that the client's window applies to its state.
pub enum Command {
    /// Pick an account as a receiver.
    AddUserToGroup(String),
    /// Show a text.
    UpdateMessageContent(MessageContent),
    /// Show an outcome.
    UpdateResult(String),
}

pub enum CommandView {
    AddUserToGroup(Seq<char>),
    UpdateMessageContent(MessageContentView),
    UpdateResult(Seq<char>),
}

impl View for Command {
    type V = CommandView;

    open spec fn view(&self) -> CommandView {
        match self {
            Command::AddUserToGroup(a) => CommandView::AddUserToGroup(a@),
            Command::UpdateMessageContent(m) => CommandView::UpdateMessageContent(m@),
            Command::UpdateResult(s) => CommandView::UpdateResult(s@),
        }
    }
}

/// State `s` after command `c`.
pub open spec fn after_command(s: StateView, c: CommandView) -> StateView {
    match c {
        CommandView::AddUserToGroup(a) => StateView {
            selected_users: s.selected_users.push(a),
            ..s
        },
        CommandView::UpdateMessageContent(m) => StateView { content: s.content.push(m), ..s },
        CommandView::UpdateResult(r) => StateView { result: r, ..s },
    }
}

/// Applies the commands that the client's windows send.
pub struct MainDelegate;

impl MainDelegate {
    /// Applies `cmd` to `data`.
    pub fn command(&mut self, cmd: Command, data: &mut State)
        ensures
            final(data)@ == after_command(old(data)@, cmd@),
            cmd@ matches CommandView::AddUserToGroup(a) ==> final(data)@.selected_users == old(
                data,
            )@.selected_users.push(a) && final(data)@.content == old(data)@.content,
            cmd@ matches CommandView::UpdateMessageContent(m) ==> final(data)@.content == old(
                data,
            )@.content.push(m) && final(data)@.selected_users == old(data)@.selected_users,
            cmd@ matches CommandView::UpdateResult(x) ==> final(data)@.result == x
                && final(data)@.selected_users == old(data)@.selected_users,
    {
        match cmd {
            Command::AddUserToGroup(account) => {
                data.selected_users.push(account);
                proof {
                    assert(final(data)@.selected_users =~= old(data)@.selected_users.push(
                        account@,
                    ));
                }
            },
            Command::UpdateMessageContent(message) => {
                data.content.push_back(message);
                proof {
                    assert(final(data)@.content =~= old(data)@.content.push(message@));
                }
            },
            Command::UpdateResult(result) => {
                data.result = result;
            },
        }
    }
}

/// State `s` showing outcome `result`.
pub open spec fn with_result(s: StateView, result: Seq<char>) -> StateView {
    StateView { result, ..s }
}

/// Why a request of the client did not get an answer.
pub enum Failure {
    /// The server's address does not parse.
    BadAddress,
    /// The registration could not be sent; the error's text.
    RegNotSent(String),
    /// The login could not be sent.
    LoginNotSent(String),
    /// The request for the account list could not be sent.
    UserListNotSent(String),
    /// The logout could not be sent.
    LogoutNotSent(String),
    /// The request to receive texts could not be sent.
    ReceiveNotSent(String),
    /// The answer could not be read or did not verify.
    NoAnswer(String),
}

pub enum FailureView {
    BadAddress,
    RegNotSent(Seq<char>),
    LoginNotSent(Seq<char>),
    UserListNotSent(Seq<char>),
    LogoutNotSent(Seq<char>),
    ReceiveNotSent(Seq<char>),
    NoAnswer(Seq<char>),
}

impl View for Failure {
    type V = FailureView;

    open spec fn view(&self) -> FailureView {
        match self {
            Failure::BadAddress => FailureView::BadAddress,
            Failure::RegNotSent(d) => FailureView::RegNotSent(d@),
            Failure::LoginNotSent(d) => FailureView::LoginNotSent(d@),
            Failure::UserListNotSent(d) => FailureView::UserListNotSent(d@),
            Failure::LogoutNotSent(d) => FailureView::LogoutNotSent(d@),
            Failure::ReceiveNotSent(d) => FailureView::ReceiveNotSent(d@),
            Failure::NoAnswer(d) => FailureView::NoAnswer(d@),
        }
    }
}

/// The text the client shows for failure `f`.
pub open spec fn failure_text(f: FailureView) -> Seq<char> {
    match f {
        FailureView::BadAddress => "无效的地址"@,
        FailureView::RegNotSent(d) => "发送注册请求失败: "@ + d,
        FailureView::LoginNotSent(d) => "发送登录请求失败: "@ + d,
        FailureView::UserListNotSent(d) => "发送用户列表请求失败: "@ + d,
        FailureView::LogoutNotSent(d) => "发送注销请求失败: "@ + d,
        FailureView::ReceiveNotSent(d) => "发送接受消息请求失败: "@ + d,
        FailureView::NoAnswer(d) => "无法收到服务器响应: "@ + d,
    }
}

fn prefixed(prefix: &str, detail: &String) -> (text: String)
    ensures
        text@ == prefix@ + detail@,
{
    let mut text = String::from_str(prefix);
    text.append(detail.as_str());
    text
}

/// Shows why a request failed.
pub fn apply_failure(state: &mut State, failure: Failure)
    ensures
        final(state)@ == with_result(old(state)@, failure_text(failure@)),
{
    let text = match &failure {
        Failure::BadAddress => String::from_str("无效的地址"),
        Failure::RegNotSent(d) => prefixed("发送注册请求失败: ", d),
        Failure::LoginNotSent(d) => prefixed("发送登录请求失败: ", d),
        Failure::UserListNotSent(d) => prefixed("发送用户列表请求失败: ", d),
        Failure::LogoutNotSent(d) => prefixed("发送注销请求失败: ", d),
        Failure::ReceiveNotSent(d) => prefixed("发送接受消息请求失败: ", d),
        Failure::NoAnswer(d) => prefixed("无法收到服务器响应: ", d),
    };
    state.result = text;
}

/// The outcome shown after the answer `r` to a registration.
pub open spec fn reg_result_text(r: MessageServerView) -> Seq<char> {
    if r.msg_type != SRV_REG {
        "响应代码无效"@
    } else if r.reg_state == REG_SUCCESS {
        "注册成功"@
    } else if r.reg_state == REG_EXISTED {
        "用户已存在"@
    } else {
        "无效的注册结果"@
    }
}

/// Shows the outcome of a registration from the server's answer.
pub fn apply_reg_response(state: &mut State, response: &MessageServer)
    ensures
        final(state)@ == with_result(old(state)@, reg_result_text(response@)),
{
    let text = if response.msg_type != SRV_REG {
        String::from_str("响应代码无效")
    } else if response.reg_state == REG_SUCCESS {
        String::from_str("注册成功")
    } else if response.reg_state == REG_EXISTED {
        String::from_str("用户已存在")
    } else {
        String::from_str("无效的注册结果")
    };
    state.result = text;
}

/// Whether the answer `r` to a login says the client is logged in.
pub open spec fn login_accepted(r: MessageServerView) -> bool {
    r.msg_type == SRV_LOGIN && r.login_state == LOGIN_SUCCESS
}

/// The outcome shown after the answer `r` to a login that was refused.
pub open spec fn login_result_text(r: MessageServerView) -> Seq<char> {
    if r.msg_type != SRV_LOGIN {
        "响应代码无效"@
    } else if r.login_state == LOGIN_WRONG_PASSWORD {
        "密码错误"@
    } else if r.login_state == LOGIN_NO_SUCH_USER {
        "用户不存在"@
    } else {
        "无效的登录结果"@
    }
}

/// Reads the server's answer to a login: true when the client is logged in
/// (the main window opens; the state is left as it is), otherwise the state
/// shows why not.
pub fn apply_login_response(state: &mut State, response: &MessageServer) -> (ok: bool)
    ensures
        ok == login_accepted(response@),
        ok ==> final(state)@ == old(state)@,
        !ok ==> final(state)@ == with_result(old(state)@, login_result_text(response@)),
{
    if response.msg_type == SRV_LOGIN && response.login_state == LOGIN_SUCCESS {
        return true;
    }
    let text = if response.msg_type != SRV_LOGIN {
        String::from_str("响应代码无效")
    } else if response.login_state == LOGIN_WRONG_PASSWORD {
        String::from_str("密码错误")
    } else if response.login_state == LOGIN_NO_SUCH_USER {
        String::from_str("用户不存在")
    } else {
        String::from_str("无效的登录结果")
    };
    state.result = text;
    false
}

/// Takes the account list from the server's answer, or shows that the answer
/// is of the wrong kind.
pub fn apply_user_list_response(state: &mut State, response: MessageServer)
    ensures
        response@.msg_type == SRV_USER_LIST ==> final(state)@ == (StateView {
            users: response@.user_list,
            result: "用户列表已刷新"@,
            ..old(state)@
        }),
        response@.msg_type != SRV_USER_LIST ==> final(state)@ == with_result(
            old(state)@,
            "响应代码无效"@,
        ),
{
    if response.msg_type == SRV_USER_LIST {
        state.users = response.user_list;
        state.result = String::from_str("用户列表已刷新");
    } else {
        state.result = String::from_str("响应代码无效");
    }
}

/// The text of the answer `r` as the client shows it, with delivery note
/// `note`.
pub open spec fn shown_text(r: MessageServerView, note: Seq<char>) -> MessageContentView {
    MessageContentView {
        s_account: r.content_state.s_account,
        r_content: r.content_state.r_account,
        content: r.content_state.content,
        state: note,
    }
}

/// What the client shows after the server's report `r` on a text it sent.
pub open spec fn group_event_spec(r: MessageServerView) -> CommandView {
    let receiver = r.content_state.r_account;
    if r.msg_type != SRV_CONTENT_TO_SENDER {
        CommandView::UpdateResult("无效的消息代码"@)
    } else if r.content_state.state == CONTENT_DELIVERED {
        CommandView::UpdateMessageContent(shown_text(r, "(已发送)"@))
    } else if r.content_state.state == CONTENT_RECEIVER_OFFLINE {
        CommandView::UpdateResult("用户："@ + receiver + " 已离线"@)
    } else if r.content_state.state == CONTENT_RECEIVER_BROKEN {
        CommandView::UpdateResult("用户："@ + receiver + " 已断开"@)
    } else {
        CommandView::UpdateResult("用户："@ + receiver + " 无效的状态"@)
    }
}

fn show_text(response: &MessageServer, note: &str) -> (m: MessageContent)
    ensures
        m@ == shown_text(response@, note@),
{
    MessageContent {
        s_account: response.content_state.s_account.clone(),
        r_content: response.content_state.r_account.clone(),
        content: response.content_state.content.clone(),
        state: String::from_str(note),
    }
}

fn receiver_note(response: &MessageServer, tail: &str) -> (s: String)
    ensures
        s@ == "用户："@ + response@.content_state.r_account + tail@,
{
    let mut s = String::from_str("用户：");
    s.append(response.content_state.r_account.as_str());
    s.append(tail);
    s
}

/// The command the client applies after the server's report on a text it
/// sent to one of the picked receivers.
pub fn group_response_event(response: &MessageServer) -> (c: Command)
    ensures
        c@ == group_event_spec(response@),
{
    if response.msg_type != SRV_CONTENT_TO_SENDER {
        Command::UpdateResult(String::from_str("无效的消息代码"))
    } else if response.content_state.state == CONTENT_DELIVERED {
        Command::UpdateMessageContent(show_text(response, "(已发送)"))
    } else if response.content_state.state == CONTENT_RECEIVER_OFFLINE {
        Command::UpdateResult(receiver_note(response, " 已离线"))
    } else if response.content_state.state == CONTENT_RECEIVER_BROKEN {
        Command::UpdateResult(receiver_note(response, " 已断开"))
    } else {
        Command::UpdateResult(receiver_note(response, " 无效的状态"))
    }
}

/// What the client shows for a message `r` that arrives on its receiving
/// connection.
pub open spec fn incoming_event_spec(r: MessageServerView) -> CommandView {
    if r.msg_type == SRV_CONTENT_TO_RECEIVER {
        CommandView::UpdateMessageContent(shown_text(r, Seq::empty()))
    } else {
        CommandView::UpdateResult("无效的消息代码"@)
    }
}

/// The command the client applies for a message that arrives on its
/// receiving connection.
pub fn incoming_event(message: &MessageServer) -> (c: Command)
    ensures
        c@ == incoming_event_spec(message@),
{
    if message.msg_type == SRV_CONTENT_TO_RECEIVER {
        proof {
            reveal_strlit("");
            assert(""@ =~= Seq::<char>::empty());
        }
        Command::UpdateMessageContent(show_text(message, ""))
    } else {
        Command::UpdateResult(String::from_str("无效的消息代码"))
    }
}

/// What became of sending a text to one picked receiver.
pub enum SendOutcome {
    /// The text could not be sent; the error's text.
    NotSent(String),
    /// No answer could be read, or it did not verify; the error's text.
    NoAnswer(String),
    /// The server's report on the text.
    Answered(MessageServer),
}

/// Whether sending a text to the picked receivers goes on with the next one.
pub enum GroupStep {
    /// Apply the command and go on with the next receiver.
    Continue(Command),
    /// Stop: the state shows why.
    Stop,
}

/// One step of sending a text to the picked receivers, for `receiver`: a
/// report gives the command to apply and the sending goes on; a failure is
/// shown and ends the sending, so no later receiver is tried.
pub fn group_send_step(state: &mut State, receiver: &String, outcome: SendOutcome) -> (r:
    GroupStep)
    ensures
        match outcome {
            SendOutcome::NotSent(d) => r is Stop && final(state)@ == with_result(
                old(state)@,
                receiver@ + "：发送失败: "@ + d@,
            ),
            SendOutcome::NoAnswer(d) => r is Stop && final(state)@ == with_result(
                old(state)@,
                "无法收到服务器响应: "@ + d@,
            ),
            SendOutcome::Answered(m) => r matches GroupStep::Continue(c) && c@ == group_event_spec(
                m@,
            ) && final(state)@ == old(state)@,
        },
{
    match outcome {
        SendOutcome::NotSent(d) => {
            let mut text = receiver.clone();
            text.append("：发送失败: ");
            text.append(d.as_str());
            state.result = text;
            GroupStep::Stop
        },
        SendOutcome::NoAnswer(d) => {
            state.result = prefixed("无法收到服务器响应: ", &d);
            GroupStep::Stop
        },
        SendOutcome::Answered(m) => GroupStep::Continue(group_response_event(&m)),
    }
}

/// One step of the client's receiving loop: a message that was read and
/// verified gives its command; a failed read gives none, and the loop goes
/// on listening.
pub fn incoming_step(message: Option<MessageServer>) -> (c: Option<Command>)
    ensures
        match message {
            Some(m) => c matches Some(cmd) && cmd@ == incoming_event_spec(m@),
            None => c is None,
        },
{
    match message {
        Some(m) => Some(incoming_event(&m)),
        None => None,
    }
}

/// An entry after the client clicked it: picked or unpicked, its shown login
/// state flipped.
pub open spec fn toggled(u: UserListView) -> UserListView {
    UserListView { state: !u.state, is_selected: !u.is_selected, ..u }
}

/// Clicking an account in the list: the entry flips, and the account is to be
/// added to the picked receivers.
pub fn select(user: &mut UserList) -> (c: Command)
    ensures
        final(user)@ == toggled(old(user)@),
        c@ == CommandView::AddUserToGroup(old(user)@.account),
{
    user.is_selected = !user.is_selected;
    user.state = !user.state;
    Command::AddUserToGroup(user.account.clone())
}

/// Clears the picked receivers: no entry stays picked.
pub fn flush_selected(state: &mut State)
    ensures
        final(state)@ == (StateView {
            users: final(state)@.users,
            selected_users: Seq::empty(),
            ..old(state)@
        }),
        final(state)@.users.len() == old(state)@.users.len(),
        forall|i: int|
            0 <= i < old(state)@.users.len() ==> #[trigger] final(state)@.users[i]
                == (UserListView { is_selected: false, ..old(state)@.users[i] }),
{
    let mut i: usize = 0;
    while i < state.users.len()
        invariant
            i <= state.users@.len(),
            state.users@.len() == old(state).users@.len(),
            state@ == (StateView { users: state@.users, ..old(state)@ }),
            forall|j: int|
                #![trigger state.users@[j]]
                0 <= j < i ==> state.users@[j]@ == (UserListView {
                    is_selected: false,
                    ..old(state).users@[j]@
                }),
            forall|j: int|
                #![trigger state.users@[j]]
                i <= j < state.users@.len() ==> state.users@[j]@ == old(state).users@[j]@,
        decreases state.users@.len() - i,
    {
        let entry = UserList {
            account: state.users[i].account.clone(),
            state: state.users[i].state,
            is_selected: false,
        };
        state.users.set(i, entry);
        i = i + 1;
    }
    state.selected_users = Vec::new();
    proof {
        assert(state@.selected_users =~= Seq::<Seq<char>>::empty());
    }
}

/// Clicking an account twice leaves its entry as it was.
pub proof fn select_twice_restores(u: UserListView)
    ensures
        toggled(toggled(u)) == u,
{
}

/// Each command changes one part of the state and leaves the rest: the
/// account, password, server address, text being written and account list
/// are never touched.
pub proof fn command_touches_one_part(s: StateView, c: CommandView)
    ensures
        after_command(s, c).account == s.account,
        after_command(s, c).passwd == s.passwd,
        after_command(s, c).server_address == s.server_address,
        after_command(s, c).content_to_send == s.content_to_send,
        after_command(s, c).users == s.users,
        c is AddUserToGroup ==> after_command(s, c).selected_users.last() == c->AddUserToGroup_0
            && after_command(s, c).content == s.content && after_command(s, c).result == s.result,
        c is UpdateMessageContent ==> after_command(s, c).content.last()
            == c->UpdateMessageContent_0 && after_command(s, c).selected_users == s.selected_users
            && after_command(s, c).result == s.result,
        c is UpdateResult ==> after_command(s, c).result == c->UpdateResult_0
            && after_command(s, c).content == s.content && after_command(s, c).selected_users
            == s.selected_users,
{
}

/// Picking an account appends it to the picked receivers and keeps every
/// earlier pick, in order; showing a text appends it to the texts and keeps
/// the earlier ones.
pub proof fn picks_and_texts_accumulate(s: StateView, a: Seq<char>, m: MessageContentView)
    ensures
        after_command(s, CommandView::AddUserToGroup(a)).selected_users == s.selected_users.push(a),
        after_command(s, CommandView::UpdateMessageContent(m)).content == s.content.push(m),
        after_command(s, CommandView::AddUserToGroup(a)).selected_users.len()
            == s.selected_users.len() + 1,
        forall|i: int|
            0 <= i < s.selected_users.len() ==> after_command(
                s,
                CommandView::AddUserToGroup(a),
            ).selected_users[i] == #[trigger] s.selected_users[i],
{
}

} // verus!
