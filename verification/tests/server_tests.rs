use chatroom::address::SocketAddress;
use chatroom::protocol::{
    MessageClient, MessageServer, CONTENT_DELIVERED, CONTENT_NO_SUCH_RECEIVER,
    CONTENT_RECEIVER_BROKEN, CONTENT_RECEIVER_OFFLINE, LOGIN_NO_SUCH_USER, LOGIN_SUCCESS,
    LOGIN_WRONG_PASSWORD, REG_EXISTED, REG_SUCCESS, SRV_CONTENT_TO_RECEIVER,
    SRV_CONTENT_TO_SENDER, SRV_LOGIN, SRV_REG, SRV_USER_LIST,
};
use chatroom::server::{
    complete_delivery, handle_connect, process_message, process_message_content,
    process_message_login, process_message_logout, process_message_reg,
    process_message_user_list, process_receive_request, Dispatch,
};
use chatroom::users::{
    get_user_list, mark_disconnected, update_user_login, update_user_logout, update_user_reg,
    ConnectionId, UserTable,
};

fn addr(last: u8, port: u16) -> SocketAddress {
    SocketAddress::V4 { octets: [127, 0, 0, last], port }
}

fn conn(id: u64) -> ConnectionId {
    ConnectionId { id }
}

fn with_address(mut m: MessageClient, a: SocketAddress) -> MessageClient {
    m.address = a;
    m
}

fn registered(accounts: &[(&str, &str, u64)]) -> UserTable {
    let mut t = UserTable::new();
    for (a, p, c) in accounts {
        let r = update_user_reg(
            &mut t,
            MessageClient::reg_message(a.to_string(), p.to_string()),
            conn(*c),
        );
        assert_eq!(r, REG_SUCCESS);
    }
    t
}

#[test]
fn registration_then_login_succeeds() {
    let mut t = registered(&[("alice", "secret", 1)]);
    let a = t.get(&"alice".to_string()).unwrap();
    assert!(!a.state);
    assert_eq!(a.stream, conn(1));
    let login = with_address(
        MessageClient::login_message("alice".to_string(), "secret".to_string()),
        addr(9, 4000),
    );
    assert_eq!(update_user_login(&mut t, login), LOGIN_SUCCESS);
    let a = t.get(&"alice".to_string()).unwrap();
    assert!(a.state);
    assert_eq!(a.address, addr(9, 4000));
}

#[test]
fn wrong_password_is_refused_and_changes_nothing() {
    let mut t = registered(&[("alice", "secret", 1)]);
    let login = MessageClient::login_message("alice".to_string(), "guess".to_string());
    assert_eq!(update_user_login(&mut t, login), LOGIN_WRONG_PASSWORD);
    assert!(!t.get(&"alice".to_string()).unwrap().state);
}

#[test]
fn login_of_unknown_account() {
    let mut t = registered(&[("alice", "secret", 1)]);
    let login = MessageClient::login_message("bob".to_string(), "secret".to_string());
    assert_eq!(update_user_login(&mut t, login), LOGIN_NO_SUCH_USER);
    assert!(t.get(&"bob".to_string()).is_none());
}

#[test]
fn second_registration_is_refused() {
    let mut t = registered(&[("alice", "secret", 1)]);
    let again = MessageClient::reg_message("alice".to_string(), "other".to_string());
    assert_eq!(update_user_reg(&mut t, again, conn(2)), REG_EXISTED);
    assert_eq!(t.len(), 1);
    let other = MessageClient::reg_message("bob".to_string(), "b".to_string());
    assert_eq!(update_user_reg(&mut t, other, conn(2)), REG_SUCCESS);
    assert_eq!(t.len(), 2);
    assert_eq!(t.get(&"alice".to_string()).unwrap().passwd, "secret");
    assert_eq!(t.get(&"alice".to_string()).unwrap().stream, conn(1));
}

#[test]
fn logout_of_registered_and_unknown_accounts() {
    let mut t = registered(&[("alice", "secret", 1)]);
    update_user_login(
        &mut t,
        MessageClient::login_message("alice".to_string(), "secret".to_string()),
    );
    assert!(update_user_logout(&mut t, MessageClient::logout_message("alice".to_string())).is_ok());
    assert!(!t.get(&"alice".to_string()).unwrap().state);
    match update_user_logout(&mut t, MessageClient::logout_message("carol".to_string())) {
        Err(e) => assert_eq!(e.account, "carol"),
        Ok(()) => panic!("an unknown account logged out"),
    }
}

#[test]
fn user_list_names_every_account_once() {
    let mut t = registered(&[("alice", "a", 1), ("bob", "b", 2), ("carol", "c", 3)]);
    update_user_login(&mut t, MessageClient::login_message("bob".to_string(), "b".to_string()));
    let list = get_user_list(&t);
    assert_eq!(list.len(), 3);
    let mut names: Vec<String> = list.iter().map(|u| u.account.clone()).collect();
    names.sort();
    assert_eq!(names, vec!["alice", "bob", "carol"]);
    for u in &list {
        assert!(!u.is_selected);
        assert_eq!(u.state, u.account == "bob");
    }
}

#[test]
fn broken_connections_are_logged_out() {
    let mut t = registered(&[("alice", "a", 1), ("bob", "b", 2)]);
    update_user_login(&mut t, MessageClient::login_message("alice".to_string(), "a".to_string()));
    update_user_login(&mut t, MessageClient::login_message("bob".to_string(), "b".to_string()));
    mark_disconnected(&mut t, &vec![conn(2), conn(40)]);
    assert!(t.get(&"alice".to_string()).unwrap().state);
    assert!(!t.get(&"bob".to_string()).unwrap().state);
    assert_eq!(t.get(&"bob".to_string()).unwrap().stream, conn(2));
}

#[test]
fn text_to_logged_in_receiver_is_forwarded() {
    let mut t = registered(&[("alice", "a", 1), ("bob", "b", 2)]);
    update_user_login(&mut t, MessageClient::login_message("bob".to_string(), "b".to_string()));
    let text = MessageClient::content_message("alice".to_string(), "bob".to_string(), "hi".to_string());
    match process_message_content(text, MessageServer::new(addr(1, 1)), &t) {
        Dispatch::Forward { recipient, message } => {
            assert_eq!(recipient, conn(2));
            assert_eq!(message.msg_type, SRV_CONTENT_TO_RECEIVER);
            assert_eq!(message.content_state.s_account, "alice");
            assert_eq!(message.content_state.r_account, "bob");
            assert_eq!(message.content_state.content, "hi");
            let ok = complete_delivery(message, &mut t, true);
            assert_eq!(ok.msg_type, SRV_CONTENT_TO_SENDER);
            assert_eq!(ok.content_state.state, CONTENT_DELIVERED);
            assert!(t.get(&"bob".to_string()).unwrap().state);
        }
        _ => panic!("the text was not forwarded"),
    }
}

#[test]
fn failed_forward_logs_the_receiver_out() {
    let mut t = registered(&[("alice", "a", 1), ("bob", "b", 2)]);
    update_user_login(&mut t, MessageClient::login_message("bob".to_string(), "b".to_string()));
    let text = MessageClient::content_message("alice".to_string(), "bob".to_string(), "hi".to_string());
    match process_message_content(text, MessageServer::new(addr(1, 1)), &t) {
        Dispatch::Forward { message, .. } => {
            let report = complete_delivery(message, &mut t, false);
            assert_eq!(report.msg_type, SRV_CONTENT_TO_SENDER);
            assert_eq!(report.content_state.state, CONTENT_RECEIVER_BROKEN);
            assert_eq!(report.content_state.content, "hi");
            assert!(!t.get(&"bob".to_string()).unwrap().state);
        }
        _ => panic!("the text was not forwarded"),
    }
}

#[test]
fn text_to_offline_or_unknown_receiver_is_reported() {
    let t = registered(&[("alice", "a", 1), ("bob", "b", 2)]);
    let text = MessageClient::content_message("alice".to_string(), "bob".to_string(), "hi".to_string());
    match process_message_content(text, MessageServer::new(addr(1, 1)), &t) {
        Dispatch::Reply(r) => {
            assert_eq!(r.msg_type, SRV_CONTENT_TO_SENDER);
            assert_eq!(r.content_state.state, CONTENT_RECEIVER_OFFLINE);
            assert_eq!(r.content_state.r_account, "bob");
        }
        _ => panic!("expected a report"),
    }
    let text = MessageClient::content_message("alice".to_string(), "zed".to_string(), "hi".to_string());
    match process_message_content(text, MessageServer::new(addr(1, 1)), &t) {
        Dispatch::Reply(r) => {
            assert_eq!(r.content_state.state, CONTENT_NO_SUCH_RECEIVER);
            assert_eq!(r.content_state.s_account, "alice");
        }
        _ => panic!("expected a report"),
    }
}

#[test]
fn process_message_dispatches_on_the_kind() {
    let mut t = UserTable::new();
    let reg = with_address(
        MessageClient::reg_message("alice".to_string(), "a".to_string()),
        addr(5, 50),
    );
    match process_message(reg, &mut t, conn(7), addr(5, 50)) {
        Ok(Dispatch::Reply(r)) => {
            assert_eq!(r.msg_type, SRV_REG);
            assert_eq!(r.reg_state, REG_SUCCESS);
            assert_eq!(r.address, addr(5, 50));
            assert_eq!(r.hash, "");
        }
        _ => panic!("expected an answer"),
    }
    let login = MessageClient::login_message("alice".to_string(), "a".to_string());
    match process_message(login, &mut t, conn(8), addr(5, 51)) {
        Ok(Dispatch::Reply(r)) => {
            assert_eq!(r.msg_type, SRV_LOGIN);
            assert_eq!(r.login_state, LOGIN_SUCCESS);
        }
        _ => panic!("expected an answer"),
    }
    match process_message(MessageClient::user_list_request("alice".to_string()), &mut t, conn(8), addr(5, 51)) {
        Ok(Dispatch::Reply(r)) => {
            assert_eq!(r.msg_type, SRV_USER_LIST);
            assert_eq!(r.user_list.len(), 1);
            assert_eq!(r.user_list[0].account, "alice");
            assert!(r.user_list[0].state);
        }
        _ => panic!("expected an answer"),
    }
    let receive = with_address(
        MessageClient::start_receive_request("alice".to_string()),
        addr(6, 60),
    );
    assert!(matches!(process_message(receive, &mut t, conn(9), addr(6, 60)), Ok(Dispatch::Silent)));
    assert_eq!(t.get(&"alice".to_string()).unwrap().stream, conn(9));
    assert_eq!(t.get(&"alice".to_string()).unwrap().address, addr(6, 60));
    assert!(matches!(
        process_message(MessageClient::logout_message("alice".to_string()), &mut t, conn(9), addr(6, 60)),
        Ok(Dispatch::Silent)
    ));
    assert!(!t.get(&"alice".to_string()).unwrap().state);
    assert!(process_message(MessageClient::logout_message("nobody".to_string()), &mut t, conn(9), addr(6, 60)).is_err());
    let mut odd = MessageClient::logout_message("alice".to_string());
    odd.msg_type = 9;
    assert!(matches!(process_message(odd, &mut t, conn(9), addr(6, 60)), Ok(Dispatch::UnknownType(9))));
}

#[test]
fn sub_handlers_fill_in_the_answer() {
    let mut t = UserTable::new();
    let r = process_message_reg(
        MessageClient::reg_message("alice".to_string(), "a".to_string()),
        MessageServer::new(addr(1, 1)),
        &mut t,
        conn(3),
    );
    assert_eq!(r.reg_state, REG_SUCCESS);
    let r = process_message_login(
        MessageClient::login_message("alice".to_string(), "b".to_string()),
        MessageServer::new(addr(1, 1)),
        &mut t,
    );
    assert_eq!(r.msg_type, SRV_LOGIN);
    assert_eq!(r.login_state, LOGIN_WRONG_PASSWORD);
    let r = process_message_user_list(MessageServer::new(addr(1, 1)), &t);
    assert_eq!(r.msg_type, SRV_USER_LIST);
    assert_eq!(r.user_list.len(), 1);
    assert!(!process_receive_request(
        MessageClient::start_receive_request("bob".to_string()),
        conn(4),
        &mut t
    ));
    assert!(process_message_logout(MessageClient::logout_message("alice".to_string()), &mut t).is_ok());
}

#[test]
fn handle_connect_checks_connections_first() {
    let mut t = registered(&[("alice", "a", 1), ("bob", "b", 2)]);
    update_user_login(&mut t, MessageClient::login_message("bob".to_string(), "b".to_string()));
    let text = MessageClient::content_message("alice".to_string(), "bob".to_string(), "hi".to_string());
    match handle_connect(&mut t, text, conn(1), &vec![conn(2)]) {
        Ok(Dispatch::Reply(r)) => {
            assert_eq!(r.content_state.state, CONTENT_RECEIVER_OFFLINE);
        }
        _ => panic!("expected a report"),
    }
    assert!(!t.get(&"bob".to_string()).unwrap().state);
}

#[test]
fn registered_password_stays_through_later_requests() {
    let mut t = registered(&[("alice", "secret", 1)]);
    update_user_reg(&mut t, MessageClient::reg_message("alice".to_string(), "other".to_string()), conn(2));
    update_user_reg(&mut t, MessageClient::reg_message("bob".to_string(), "b".to_string()), conn(3));
    update_user_login(&mut t, MessageClient::login_message("alice".to_string(), "other".to_string()));
    assert!(update_user_logout(&mut t, MessageClient::logout_message("alice".to_string())).is_ok());
    mark_disconnected(&mut t, &vec![conn(1)]);
    t.reattach(&"alice".to_string(), addr(2, 2), conn(5));
    let wrong = MessageClient::login_message("alice".to_string(), "other".to_string());
    assert_eq!(update_user_login(&mut t, wrong), LOGIN_WRONG_PASSWORD);
    let right = MessageClient::login_message("alice".to_string(), "secret".to_string());
    assert_eq!(update_user_login(&mut t, right), LOGIN_SUCCESS);
}
