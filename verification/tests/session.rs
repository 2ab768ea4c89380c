use controlmylights::repo::LedRepo;
use controlmylights::session::{
    handle_message, resolve_params, Broadcaster, HandleMessageResult, WsMessage, WsParams,
};
use controlmylights::types::Color;

fn white() -> Color {
    Color { red: 255, green: 255, blue: 255 }
}

#[test]
fn binary_command_applies_a_write() {
    let mut repo = LedRepo::new(vec![white(); 3]);
    let r = handle_message(WsMessage::Binary(vec![0, 1, 10, 20, 30]), &mut repo);
    assert_eq!(r, HandleMessageResult { close_handler: false, send_pong: false });
    assert_eq!(repo.generation(), 1);
    assert_eq!(
        repo.get(1).expect("id 1 exists").color,
        Color { red: 10, green: 20, blue: 30 }
    );
}

#[test]
fn malformed_short_frame_is_silently_ignored() {
    // A 3-byte binary frame: the connection stays open, nothing is written,
    // nothing is replied.
    let mut repo = LedRepo::new(vec![white(); 3]);
    let r = handle_message(WsMessage::Binary(vec![0, 1, 10]), &mut repo);
    assert_eq!(r, HandleMessageResult { close_handler: false, send_pong: false });
    assert_eq!(repo.generation(), 0);
    assert_eq!(repo.get(1).expect("id 1 exists").color, white());
}

#[test]
fn out_of_bounds_command_is_tolerated() {
    let mut repo = LedRepo::new(vec![white(); 3]);
    let r = handle_message(WsMessage::Binary(vec![0, 9, 10, 20, 30]), &mut repo);
    assert_eq!(r, HandleMessageResult { close_handler: false, send_pong: false });
    assert_eq!(repo.generation(), 0);
}

#[test]
fn ping_text_asks_for_pong() {
    let mut repo = LedRepo::new(vec![white(); 1]);
    let r = handle_message(WsMessage::Text(String::from("ping")), &mut repo);
    assert_eq!(r, HandleMessageResult { close_handler: false, send_pong: true });
    assert_eq!(repo.generation(), 0);
}

#[test]
fn other_text_is_ignored() {
    let mut repo = LedRepo::new(vec![white(); 1]);
    let r = handle_message(WsMessage::Text(String::from("hello")), &mut repo);
    assert_eq!(r, HandleMessageResult { close_handler: false, send_pong: false });
}

#[test]
fn close_frame_ends_the_loop() {
    let mut repo = LedRepo::new(vec![white(); 1]);
    let r = handle_message(WsMessage::Close, &mut repo);
    assert_eq!(r, HandleMessageResult { close_handler: true, send_pong: false });
}

#[test]
fn params_default_to_full_mode_and_hundred_ms() {
    assert_eq!(
        resolve_params(None, None),
        WsParams { colors_only: false, snapshot_interval: 100 }
    );
}

#[test]
fn params_clamp_the_interval_to_a_hundred_ms() {
    assert_eq!(
        resolve_params(Some(true), Some(5)),
        WsParams { colors_only: true, snapshot_interval: 100 }
    );
    assert_eq!(
        resolve_params(Some(false), Some(250)),
        WsParams { colors_only: false, snapshot_interval: 250 }
    );
}

#[test]
fn broadcaster_is_silent_until_a_write_happens() {
    let mut repo = LedRepo::new(vec![white(); 2]);
    let mut b = Broadcaster::new(true);
    assert!(b.tick(&repo).is_none());
    assert!(b.tick(&repo).is_none());
    repo.set(0, Color { red: 1, green: 2, blue: 3 }).expect("in bounds");
    assert!(b.tick(&repo).is_some());
}

#[test]
fn broadcaster_sends_nothing_twice_for_one_write() {
    let mut repo = LedRepo::new(vec![white(); 2]);
    let mut b = Broadcaster::new(false);
    repo.set(1, Color { red: 7, green: 7, blue: 7 }).expect("in bounds");
    assert!(b.tick(&repo).is_some());
    assert!(b.tick(&repo).is_none());
    repo.set(1, Color { red: 8, green: 8, blue: 8 }).expect("in bounds");
    assert!(b.tick(&repo).is_some());
    assert!(b.tick(&repo).is_none());
}

#[test]
fn both_encodings_carry_the_same_post_write_color() {
    // Two connections, one colors-only and one full: after one write the
    // next frame of the first is 3*N bytes, of the second 11*N bytes, and
    // both carry the new color of the written cell.
    let n = 3usize;
    let mut repo = LedRepo::new(vec![white(); n]);
    let mut a = Broadcaster::new(true);
    let mut b = Broadcaster::new(false);
    repo.set(1, Color { red: 10, green: 20, blue: 30 }).expect("in bounds");
    let frame_a = a.tick(&repo).expect("generation advanced");
    let frame_b = b.tick(&repo).expect("generation advanced");
    assert_eq!(frame_a.len(), 3 * n);
    assert_eq!(frame_b.len(), 11 * n);
    assert_eq!(&frame_a[3..6], &[10, 20, 30]);
    assert_eq!(&frame_b[11..14], &[10, 20, 30]);
}
