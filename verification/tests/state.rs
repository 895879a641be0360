use juus::state::types::message::Message;
use juus::state::Client;

#[test]
fn new_message_holds_its_parts() {
    let message = Message::new("You".to_string(), "hello".to_string());
    assert_eq!(message.username(), "You");
    assert_eq!(message.content(), "hello");
}

#[test]
fn new_client_has_no_messages() {
    assert!(Client::new().messages().is_empty());
}

#[test]
fn requested_messages_are_kept_in_order() {
    let mut client = Client::new();
    client.request_message(Message::new("You".to_string(), "first".to_string()));
    client.request_message(Message::new("You".to_string(), "second".to_string()));
    client.request_message(Message::new("Nolan".to_string(), "".to_string()));
    let texts: Vec<&str> = client.messages().iter().map(|m| m.content()).collect();
    assert_eq!(texts, vec!["first", "second", ""]);
    let names: Vec<&str> = client.messages().iter().map(|m| m.username()).collect();
    assert_eq!(names, vec!["You", "You", "Nolan"]);
}
