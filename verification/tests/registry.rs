use rustirc::registry::HandlerRegistry;
use rustirc::value::HandlerRef;

fn handler(id: u64) -> HandlerRef {
    HandlerRef { id }
}

#[test]
fn a_new_registry_knows_no_handler() {
    let registry = HandlerRegistry::new();
    assert!(!registry.has_handlers(&b"PRIVMSG".to_vec()));
    assert_eq!(registry.handlers(&b"PRIVMSG".to_vec()), vec![]);
    assert!(!registry.has_handlers(&Vec::new()));
}

#[test]
fn handlers_stand_in_the_order_of_their_registration() {
    let mut registry = HandlerRegistry::new();
    registry.add_handler(b"PRIVMSG".to_vec(), handler(7));
    registry.add_handler(b"PRIVMSG".to_vec(), handler(3));
    registry.add_handler(b"PRIVMSG".to_vec(), handler(9));
    assert!(registry.has_handlers(&b"PRIVMSG".to_vec()));
    assert_eq!(registry.handlers(&b"PRIVMSG".to_vec()), vec![handler(7), handler(3), handler(9)]);
}

#[test]
fn one_callback_may_be_registered_more_than_once() {
    let mut registry = HandlerRegistry::new();
    registry.add_handler(b"JOIN".to_vec(), handler(1));
    registry.add_handler(b"JOIN".to_vec(), handler(1));
    registry.add_handler(b"PART".to_vec(), handler(1));
    assert_eq!(registry.handlers(&b"JOIN".to_vec()), vec![handler(1), handler(1)]);
    assert_eq!(registry.handlers(&b"PART".to_vec()), vec![handler(1)]);
}

#[test]
fn each_name_has_a_list_of_its_own() {
    let mut registry = HandlerRegistry::new();
    registry.add_handler(b"PRIVMSG".to_vec(), handler(1));
    registry.add_handler(b"001".to_vec(), handler(2));
    registry.add_handler(b"-CONNECTED".to_vec(), handler(3));
    registry.add_handler(b"PRIVMSG".to_vec(), handler(4));
    registry.add_handler(b"".to_vec(), handler(5));
    assert_eq!(registry.handlers(&b"PRIVMSG".to_vec()), vec![handler(1), handler(4)]);
    assert_eq!(registry.handlers(&b"001".to_vec()), vec![handler(2)]);
    assert_eq!(registry.handlers(&b"-CONNECTED".to_vec()), vec![handler(3)]);
    assert_eq!(registry.handlers(&b"".to_vec()), vec![handler(5)]);
    // Names are compared byte by byte.
    assert_eq!(registry.handlers(&b"privmsg".to_vec()), vec![]);
    assert_eq!(registry.handlers(&b"PRIVMSG ".to_vec()), vec![]);
    assert_eq!(registry.handlers(&b"1".to_vec()), vec![]);
}

#[test]
fn clear_forgets_every_handler() {
    let mut registry = HandlerRegistry::new();
    registry.add_handler(b"PRIVMSG".to_vec(), handler(1));
    registry.add_handler(b"JOIN".to_vec(), handler(2));
    registry.clear();
    assert!(!registry.has_handlers(&b"PRIVMSG".to_vec()));
    assert!(!registry.has_handlers(&b"JOIN".to_vec()));
    registry.add_handler(b"PRIVMSG".to_vec(), handler(3));
    assert_eq!(registry.handlers(&b"PRIVMSG".to_vec()), vec![handler(3)]);
}
