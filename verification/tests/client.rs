use juus::client::{Member, State};

#[test]
fn member_has_its_name() {
    assert_eq!(Member::new("Nolan".to_string()).name, "Nolan");
    assert_eq!(Member::new("Nolan".to_string()).clone().name, "Nolan");
}

#[test]
fn sent_message_names_its_sender() {
    let member = Member::new("Christian".to_string());
    let message = member.send_message("hello".to_string());
    assert_eq!(message.sender.name, "Christian");
    assert_eq!(message.content, "hello");
    assert_eq!(member.name, "Christian");
}

#[test]
fn new_window_is_empty() {
    let state = State::new(Member::new("Gabriel".to_string()));
    assert_eq!(state.user.name, "Gabriel");
    assert!(state.messages.is_empty());
}

#[test]
fn posted_messages_are_appended_in_the_users_name() {
    let mut state = State::new(Member::new("Gabriel".to_string()));
    state.post("first".to_string());
    state.post("second".to_string());
    state.post(String::new());
    let texts: Vec<&str> = state.messages.iter().map(|m| m.content.as_str()).collect();
    assert_eq!(texts, vec!["first", "second", ""]);
    assert!(state.messages.iter().all(|m| m.sender.name == "Gabriel"));
    assert_eq!(state.user.name, "Gabriel");
}
