use chat_backend::chat::controller::{websocket_step, ConnectAction};
use chat_backend::chat::model::chat_context::ChatContext;
use chat_backend::chat::model::chat_message::ChatMessage;
use chat_backend::chat::model::chat_room::ChatSession;
use chat_backend::chat::service::{add_connection, create_room};
use chat_backend::models::api::HttpStatus;

fn s(x: &str) -> String {
    x.to_string()
}

#[test]
fn room_puts_first_name_in_byte_order_first() {
    assert_eq!(create_room(s("alice"), s("bob")), "alice-bob");
    assert_eq!(create_room(s("bob"), s("alice")), "alice-bob");
}

#[test]
fn room_is_the_same_from_both_ends() {
    let pairs = [("carol", "dave"), ("Zed", "amy"), ("ab", "abc"), ("é", "z"), ("x", "x"), ("", "q")];
    for (a, b) in pairs {
        assert_eq!(create_room(s(a), s(b)), create_room(s(b), s(a)));
    }
}

#[test]
fn room_orders_by_bytes() {
    // 'Z' (0x5A) comes before 'a' (0x61).
    assert_eq!(create_room(s("amy"), s("Zed")), "Zed-amy");
    // A prefix comes first.
    assert_eq!(create_room(s("abc"), s("ab")), "ab-abc");
    // 'z' (0x7A) comes before the first byte of 'é' (0xC3).
    assert_eq!(create_room(s("é"), s("z")), "z-é");
    // Equal names.
    assert_eq!(create_room(s("x"), s("x")), "x-x");
    // Bytes, not letters: 'B' (0x42) comes before 'a' (0x61).
    assert_eq!(create_room(s("a"), s("B")), "B-a");
    assert_eq!(create_room(s("q"), s("")), "-q");
}

#[test]
fn frame_lists_kind_data_and_sender() {
    let m = ChatMessage { message_type: s("msg"), sender: s("bob"), data: s("hi there") };
    assert_eq!(m.to_frame(), r#"["msg","hi there","bob"]"#);
    let empty = ChatMessage { message_type: s("other"), sender: s(""), data: s("") };
    assert_eq!(empty.to_frame(), r#"["msg","",""]"#);
}

#[test]
fn added_connections_can_be_looked_up() {
    let mut ctx: ChatContext<u32> = ChatContext::new();
    let room = s("alice-bob");
    assert!(!ctx.contains_room(&room));
    add_connection(&mut ctx, 7, room.clone(), 100);
    assert!(ctx.contains_room(&room));
    assert_eq!(ctx.connection_count(&room), 1);
    assert_eq!(ctx.address(&room, 100), Some(&7));
    assert_eq!(ctx.address(&room, 101), None);
    assert_eq!(ctx.address(&s("other"), 100), None);
    add_connection(&mut ctx, 8, room.clone(), 101);
    assert_eq!(ctx.connection_count(&room), 2);
    assert_eq!(ctx.address(&room, 101), Some(&8));
}

#[test]
fn adding_a_known_connection_replaces_its_address() {
    let mut ctx: ChatContext<u32> = ChatContext::new();
    let room = s("r");
    add_connection(&mut ctx, 1, room.clone(), 5);
    add_connection(&mut ctx, 2, room.clone(), 5);
    assert_eq!(ctx.connection_count(&room), 1);
    assert_eq!(ctx.address(&room, 5), Some(&2));
}

#[test]
fn leaving_drops_the_room_with_its_last_connection() {
    let mut ctx: ChatContext<u32> = ChatContext::new();
    let room = s("alice-bob");
    add_connection(&mut ctx, 1, room.clone(), 10);
    add_connection(&mut ctx, 2, room.clone(), 11);
    add_connection(&mut ctx, 3, s("carol_dave"), 12);
    let first = ChatSession { room: room.clone(), connection: 10, sender: s("alice") };
    first.finished(&mut ctx);
    assert!(ctx.contains_room(&room));
    assert_eq!(ctx.connection_count(&room), 1);
    assert_eq!(ctx.address(&room, 10), None);
    let second = ChatSession { room: room.clone(), connection: 11, sender: s("bob") };
    second.finished(&mut ctx);
    assert!(!ctx.contains_room(&room));
    assert!(ctx.contains_room(&s("carol_dave")));
}

#[test]
fn leaving_with_an_unknown_connection_keeps_the_room() {
    let mut ctx: ChatContext<u32> = ChatContext::new();
    let room = s("r");
    add_connection(&mut ctx, 1, room.clone(), 10);
    let stranger = ChatSession { room: room.clone(), connection: 99, sender: s("x") };
    stranger.finished(&mut ctx);
    assert!(ctx.contains_room(&room));
    assert_eq!(ctx.connection_count(&room), 1);
}

#[test]
fn join_then_leave_restores_the_table() {
    let mut ctx: ChatContext<u32> = ChatContext::new();
    add_connection(&mut ctx, 1, s("a_b"), 1);
    add_connection(&mut ctx, 2, s("a_b"), 2);
    add_connection(&mut ctx, 3, s("a_c"), 3);
    let session = ChatSession { room: s("a_b"), connection: 4, sender: s("a") };
    add_connection(&mut ctx, 4, s("a_b"), 4);
    session.finished(&mut ctx);
    assert_eq!(ctx.connection_count(&s("a_b")), 2);
    assert_eq!(ctx.address(&s("a_b"), 1), Some(&1));
    assert_eq!(ctx.address(&s("a_b"), 2), Some(&2));
    assert_eq!(ctx.address(&s("a_b"), 4), None);
    assert_eq!(ctx.connection_count(&s("a_c")), 1);
    let newcomer = ChatSession { room: s("z_z"), connection: 9, sender: s("z") };
    add_connection(&mut ctx, 9, s("z_z"), 9);
    newcomer.finished(&mut ctx);
    assert!(!ctx.contains_room(&s("z_z")));
}

#[test]
fn text_goes_to_every_other_connection_of_the_room() {
    let mut ctx: ChatContext<u32> = ChatContext::new();
    let room = s("alice-bob");
    add_connection(&mut ctx, 1, room.clone(), 10);
    add_connection(&mut ctx, 2, room.clone(), 11);
    add_connection(&mut ctx, 3, room.clone(), 12);
    add_connection(&mut ctx, 4, s("other"), 13);
    let session = ChatSession { room: room.clone(), connection: 11, sender: s("bob") };
    let d = session.handle_text(&ctx, s("hello")).expect("delivery");
    assert_eq!(d.message.message_type, "msg");
    assert_eq!(d.message.data, "hello");
    assert_eq!(d.message.sender, "bob");
    let mut r = d.recipients.clone();
    r.sort();
    assert_eq!(r, vec![10, 12]);
}

#[test]
fn text_alone_in_a_room_reaches_nobody_but_is_kept() {
    let mut ctx: ChatContext<u32> = ChatContext::new();
    let room = s("alice-bob");
    add_connection(&mut ctx, 1, room.clone(), 10);
    let session = ChatSession { room: room.clone(), connection: 10, sender: s("alice") };
    let d = session.handle_text(&ctx, s("anyone?")).expect("delivery");
    assert!(d.recipients.is_empty());
    assert_eq!(d.message.data, "anyone?");
    // A lone connection that is not this session's own is not reached either.
    let other = ChatSession { room: room.clone(), connection: 77, sender: s("bob") };
    let d = other.handle_text(&ctx, s("hi")).expect("delivery");
    assert!(d.recipients.is_empty());
}

#[test]
fn empty_text_or_missing_room_is_ignored() {
    let mut ctx: ChatContext<u32> = ChatContext::new();
    let room = s("alice-bob");
    add_connection(&mut ctx, 1, room.clone(), 10);
    add_connection(&mut ctx, 2, room.clone(), 11);
    let session = ChatSession { room: room.clone(), connection: 10, sender: s("alice") };
    assert!(session.handle_text(&ctx, s("")).is_none());
    let lost = ChatSession { room: s("gone"), connection: 10, sender: s("alice") };
    assert!(lost.handle_text(&ctx, s("hi")).is_none());
}

#[test]
fn websocket_refuses_clients_without_a_session() {
    match websocket_step(None, s("bob")) {
        ConnectAction::Refuse(r) => {
            assert_eq!(r.status, HttpStatus::Unauthorized);
            assert!(!r.success);
            assert_eq!(r.detail, "Unauthorized");
        }
        ConnectAction::Join(_) => panic!("joined without a session"),
    }
}

#[test]
fn websocket_joins_the_shared_room() {
    match websocket_step(Some(s("bob")), s("alice")) {
        ConnectAction::Join(room) => assert_eq!(room, "alice-bob"),
        ConnectAction::Refuse(_) => panic!("refused a signed-in client"),
    }
}
