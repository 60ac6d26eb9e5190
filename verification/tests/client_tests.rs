use chatroom::client::{
    apply_login_response, apply_reg_response, apply_user_list_response, flush_selected,
    group_response_event, incoming_event, select, apply_failure, group_send_step, incoming_step, Failure, GroupStep, SendOutcome, Command, MainDelegate, MessageContent, State,
};
use chatroom::address::SocketAddress;
use chatroom::protocol::{
    MessageServer, UserList, CONTENT_DELIVERED, CONTENT_RECEIVER_BROKEN,
    CONTENT_RECEIVER_OFFLINE, SRV_CONTENT_TO_RECEIVER, SRV_CONTENT_TO_SENDER, SRV_LOGIN,
    SRV_REG, SRV_USER_LIST,
};

fn answer(msg_type: u8) -> MessageServer {
    let mut m = MessageServer::new(SocketAddress::unspecified());
    m.msg_type = msg_type;
    m
}

fn entry(account: &str, state: bool, is_selected: bool) -> UserList {
    UserList { account: account.to_string(), state, is_selected }
}

fn report(state: u8) -> MessageServer {
    let mut m = answer(SRV_CONTENT_TO_SENDER);
    m.content_state.s_account = "alice".to_string();
    m.content_state.r_account = "bob".to_string();
    m.content_state.content = "hi".to_string();
    m.content_state.state = state;
    m
}

fn result_of(c: Command) -> String {
    match c {
        Command::UpdateResult(s) => s,
        _ => panic!("expected an outcome"),
    }
}

#[test]
fn initial_state() {
    let s = State::initial();
    assert_eq!(s.server_address, "127.0.0.1:12345");
    assert!(s.account.is_empty() && s.result.is_empty() && s.users.is_empty());
    assert!(s.content.is_empty() && s.selected_users.is_empty());
}

#[test]
fn registration_outcomes() {
    let mut s = State::initial();
    let mut r = answer(SRV_REG);
    r.reg_state = 1;
    apply_reg_response(&mut s, &r);
    assert_eq!(s.result, "注册成功");
    r.reg_state = 2;
    apply_reg_response(&mut s, &r);
    assert_eq!(s.result, "用户已存在");
    r.reg_state = 7;
    apply_reg_response(&mut s, &r);
    assert_eq!(s.result, "无效的注册结果");
    apply_reg_response(&mut s, &answer(SRV_LOGIN));
    assert_eq!(s.result, "响应代码无效");
}

#[test]
fn login_outcomes() {
    let mut s = State::initial();
    let mut r = answer(SRV_LOGIN);
    r.login_state = 1;
    assert!(apply_login_response(&mut s, &r));
    assert_eq!(s.result, "");
    r.login_state = 2;
    assert!(!apply_login_response(&mut s, &r));
    assert_eq!(s.result, "密码错误");
    r.login_state = 3;
    assert!(!apply_login_response(&mut s, &r));
    assert_eq!(s.result, "用户不存在");
    r.login_state = 0;
    assert!(!apply_login_response(&mut s, &r));
    assert_eq!(s.result, "无效的登录结果");
    assert!(!apply_login_response(&mut s, &answer(SRV_REG)));
    assert_eq!(s.result, "响应代码无效");
}

#[test]
fn user_list_outcomes() {
    let mut s = State::initial();
    let mut r = answer(SRV_USER_LIST);
    r.user_list = vec![entry("alice", true, false), entry("bob", false, false)];
    apply_user_list_response(&mut s, r);
    assert_eq!(s.users.len(), 2);
    assert_eq!(s.users[1].account, "bob");
    assert_eq!(s.result, "用户列表已刷新");
    apply_user_list_response(&mut s, answer(SRV_REG));
    assert_eq!(s.result, "响应代码无效");
    assert_eq!(s.users.len(), 2);
}

#[test]
fn reports_on_sent_texts() {
    match group_response_event(&report(CONTENT_DELIVERED)) {
        Command::UpdateMessageContent(m) => {
            assert_eq!(m.s_account, "alice");
            assert_eq!(m.r_content, "bob");
            assert_eq!(m.content, "hi");
            assert_eq!(m.state, "(已发送)");
        }
        _ => panic!("expected a text"),
    }
    assert_eq!(result_of(group_response_event(&report(CONTENT_RECEIVER_OFFLINE))), "用户：bob 已离线");
    assert_eq!(result_of(group_response_event(&report(CONTENT_RECEIVER_BROKEN))), "用户：bob 已断开");
    assert_eq!(result_of(group_response_event(&report(3))), "用户：bob 无效的状态");
    assert_eq!(result_of(group_response_event(&answer(SRV_LOGIN))), "无效的消息代码");
}

#[test]
fn incoming_texts() {
    let mut m = report(0);
    m.msg_type = SRV_CONTENT_TO_RECEIVER;
    match incoming_event(&m) {
        Command::UpdateMessageContent(c) => {
            assert_eq!(c.content, "hi");
            assert_eq!(c.state, "");
        }
        _ => panic!("expected a text"),
    }
    assert_eq!(result_of(incoming_event(&answer(SRV_USER_LIST))), "无效的消息代码");
}

#[test]
fn delegate_applies_commands() {
    let mut s = State::initial();
    let mut d = MainDelegate;
    d.command(Command::AddUserToGroup("bob".to_string()), &mut s);
    assert_eq!(s.selected_users, vec!["bob".to_string()]);
    let text = MessageContent {
        s_account: "a".to_string(),
        r_content: "b".to_string(),
        content: "c".to_string(),
        state: "d".to_string(),
    };
    d.command(Command::UpdateMessageContent(text), &mut s);
    assert_eq!(s.content.len(), 1);
    assert_eq!(s.content[0].content, "c");
    d.command(Command::UpdateResult("done".to_string()), &mut s);
    assert_eq!(s.result, "done");
    assert_eq!(s.selected_users.len(), 1);
}

#[test]
fn select_twice_restores_the_entry() {
    let mut u = entry("bob", true, false);
    match select(&mut u) {
        Command::AddUserToGroup(a) => assert_eq!(a, "bob"),
        _ => panic!("expected the account"),
    }
    assert!(u.is_selected && !u.state);
    select(&mut u);
    assert!(!u.is_selected && u.state);
}

#[test]
fn flush_selected_clears_every_pick() {
    let mut s = State::initial();
    s.users = vec![entry("a", true, true), entry("b", false, false), entry("c", false, true)];
    s.selected_users = vec!["a".to_string(), "c".to_string()];
    flush_selected(&mut s);
    assert!(s.selected_users.is_empty());
    assert_eq!(s.users.len(), 3);
    assert!(s.users.iter().all(|u| !u.is_selected));
    assert!(s.users[0].state);
    assert_eq!(s.users[2].account, "c");
}

#[test]
fn display_line_of_a_text() {
    let m = MessageContent {
        s_account: "alice".to_string(),
        r_content: "bob".to_string(),
        content: "hi".to_string(),
        state: "(已发送)".to_string(),
    };
    assert_eq!(m.display(), "(alice)->(bob):hi (已发送)");
}

#[test]
fn failures_are_shown_with_their_detail() {
    let mut s = State::initial();
    apply_failure(&mut s, Failure::NoAnswer("timed out".to_string()));
    assert_eq!(s.result, "无法收到服务器响应: timed out");
    apply_failure(&mut s, Failure::BadAddress);
    assert_eq!(s.result, "无效的地址");
    apply_failure(&mut s, Failure::RegNotSent("refused".to_string()));
    assert_eq!(s.result, "发送注册请求失败: refused");
    apply_failure(&mut s, Failure::LoginNotSent("x".to_string()));
    assert_eq!(s.result, "发送登录请求失败: x");
    apply_failure(&mut s, Failure::UserListNotSent("x".to_string()));
    assert_eq!(s.result, "发送用户列表请求失败: x");
    apply_failure(&mut s, Failure::LogoutNotSent("x".to_string()));
    assert_eq!(s.result, "发送注销请求失败: x");
    apply_failure(&mut s, Failure::ReceiveNotSent("x".to_string()));
    assert_eq!(s.result, "发送接受消息请求失败: x");
    assert_eq!(s.server_address, "127.0.0.1:12345");
}

#[test]
fn group_sending_stops_at_the_first_failure() {
    let mut s = State::initial();
    let bob = "bob".to_string();
    match group_send_step(&mut s, &bob, SendOutcome::Answered(report(CONTENT_DELIVERED))) {
        GroupStep::Continue(Command::UpdateMessageContent(m)) => assert_eq!(m.state, "(已发送)"),
        _ => panic!("expected to go on"),
    }
    assert_eq!(s.result, "");
    assert!(matches!(
        group_send_step(&mut s, &bob, SendOutcome::NotSent("refused".to_string())),
        GroupStep::Stop
    ));
    assert_eq!(s.result, "bob：发送失败: refused");
    assert!(matches!(
        group_send_step(&mut s, &bob, SendOutcome::NoAnswer("eof".to_string())),
        GroupStep::Stop
    ));
    assert_eq!(s.result, "无法收到服务器响应: eof");
}

#[test]
fn receiving_loop_skips_failed_reads() {
    assert!(incoming_step(None).is_none());
    let mut m = report(0);
    m.msg_type = SRV_CONTENT_TO_RECEIVER;
    match incoming_step(Some(m)) {
        Some(Command::UpdateMessageContent(c)) => assert_eq!(c.s_account, "alice"),
        _ => panic!("expected a text"),
    }
}
