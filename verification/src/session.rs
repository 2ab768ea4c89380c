//! Per-connection session logic.
//!
//! A WebSocket session runs two concurrent loops over one shared store: an
//! inbound loop that decodes and applies command frames, and an outbound
//! broadcaster that polls the store's generation on a fixed interval and
//! pushes a freshly encoded snapshot only when the generation has advanced.
//! The transport, the timer and the first-exit-wins cancellation live
//! outside the library; everything either loop decides is here.

use vstd::prelude::*;

use crate::codec::{decode_spec, decode_command, encode_leds, encode_snapshot};
use crate::repo::{LedRepo, RepoModel, spec_set};

verus! {

/// An inbound WebSocket message, reduced to what the session logic reads:
/// a binary command frame, a text frame, a close request, or anything else
/// (control frames the session ignores).
pub enum WsMessage {
    Binary(Vec<u8>),
    Text(String),
    Close,
    Other,
}

/// What the inbound loop must do after one message: stop its loop, and/or
/// reply with a `"pong"` text frame.
#[derive(Clone, Copy, Debug, PartialEq, Eq, Structural)]
pub struct HandleMessageResult {
    pub close_handler: bool,
    pub send_pong: bool,
}

/// Handles one inbound message.
///
/// A binary frame of at least five bytes is decoded and applied as a write;
/// a write to a missing id is tolerated and changes nothing. A shorter
/// binary frame is silently ignored. The text frame `"ping"` asks for a
/// `"pong"` reply; any other text is ignored. Only a close frame ends the
/// loop. No message other than a well-formed in-bounds command changes the
/// store.
pub fn handle_message(message: WsMessage, leds: &mut LedRepo) -> (r: HandleMessageResult)
    requires
        old(leds)@.generation + 1 <= usize::MAX,
    ensures
        r.close_handler == (message is Close),
        r.send_pong == (message matches WsMessage::Text(t) && t@ == "ping"@),
        match message {
            WsMessage::Binary(bytes) => match decode_spec(bytes@) {
                Some(cmd) => {
                    &&& cmd.id < old(leds)@.leds.len()
                        ==> exists|now: i64| final(leds)@ == spec_set(old(leds)@, cmd.id, cmd.color, now)
                    &&& cmd.id >= old(leds)@.leds.len() ==> final(leds)@ == old(leds)@
                },
                None => final(leds)@ == old(leds)@,
            },
            _ => final(leds)@ == old(leds)@,
        },
{
    let mut close_handler = false;
    let mut send_pong = false;

    match message {
        WsMessage::Binary(bytes) => {
            if let Some(cmd) = decode_command(&bytes) {
                let _ = leds.set(cmd.id, cmd.color);
            }
        },
        WsMessage::Text(text) => {
            let ping: String = String::from_str("ping");
            if text == ping {
                send_pong = true;
            }
        },
        WsMessage::Close => {
            close_handler = true;
        },
        WsMessage::Other => {},
    }

    HandleMessageResult { close_handler, send_pong }
}

/// The connection parameters a session runs with, resolved from the query
/// string of the upgrade request.
#[derive(Clone, Copy, Debug, PartialEq, Eq, Structural)]
pub struct WsParams {
    pub colors_only: bool,
    pub snapshot_interval: u64,
}

/// The polling interval actually used for a requested one: never below
/// 100 ms, so a client cannot force a tight poll loop.
pub open spec fn clamp_interval(requested: u64) -> u64 {
    if requested < 100 {
        100
    } else {
        requested
    }
}

/// Resolves the optional query parameters: `colors_only` defaults to
/// `false`, the interval defaults to 100 ms and is clamped to at least
/// 100 ms.
pub fn resolve_params(colors_only: Option<bool>, snapshot_interval: Option<u64>) -> (p: WsParams)
    ensures
        p.colors_only == (match colors_only {
            Some(b) => b,
            None => false,
        }),
        p.snapshot_interval == clamp_interval(
            match snapshot_interval {
                Some(ms) => ms,
                None => 100,
            },
        ),
{
    let co = match colors_only {
        Some(b) => b,
        None => false,
    };
    let requested = match snapshot_interval {
        Some(ms) => ms,
        None => 100,
    };
    let interval = if requested < 100 {
        100
    } else {
        requested
    };
    WsParams { colors_only: co, snapshot_interval: interval }
}

/// The outbound loop's state: the encoding the connection chose and the
/// generation of the last snapshot actually sent, starting at 0.
#[derive(Clone, Copy, Debug, PartialEq, Eq, Structural)]
pub struct Broadcaster {
    pub colors_only: bool,
    pub last_sent_generation: usize,
}

/// Whether a tick against store state `m` pushes a frame: only when the
/// store has moved past the last generation this connection was sent.
pub open spec fn tick_sends(b: Broadcaster, m: RepoModel) -> bool {
    (b.last_sent_generation as nat) < m.generation
}

/// The broadcaster's state after one tick against store state `m`: on a
/// push it records the generation of the snapshot it sent, otherwise it is
/// unchanged.
pub open spec fn tick_next(b: Broadcaster, m: RepoModel) -> Broadcaster {
    if tick_sends(b, m) {
        Broadcaster { colors_only: b.colors_only, last_sent_generation: m.generation as usize }
    } else {
        b
    }
}

impl Broadcaster {
    /// A broadcaster for a fresh connection: nothing sent yet.
    pub fn new(colors_only: bool) -> (b: Self)
        ensures
            b == (Broadcaster { colors_only, last_sent_generation: 0 }),
    {
        Broadcaster { colors_only, last_sent_generation: 0 }
    }

    /// One timer tick: polls the store's generation and, only if it has
    /// advanced past the last sent one, returns a freshly encoded snapshot
    /// frame to push. Equal generations produce no frame and change
    /// nothing.
    pub fn tick(&mut self, leds: &LedRepo) -> (frame: Option<Vec<u8>>)
        ensures
            *final(self) == tick_next(*old(self), leds@),
            frame is Some <==> tick_sends(*old(self), leds@),
            frame matches Some(f) ==> f@ == encode_leds(leds@.leds, old(self).colors_only),
    {
        if self.last_sent_generation < leds.generation() {
            let snap = leds.snapshot();
            let frame = encode_snapshot(&snap.leds, self.colors_only);
            self.last_sent_generation = snap.generation;
            Some(frame)
        } else {
            None
        }
    }
}

/// Idempotent no-op broadcast: after a tick against store state `m`, a
/// second tick with no write in between — the store still at `m` — sends
/// nothing, whether or not the first tick pushed a frame.
pub proof fn lemma_second_tick_is_silent(b: Broadcaster, m: RepoModel)
    requires
        m.generation <= usize::MAX,
    ensures
        !tick_sends(tick_next(b, m), m),
{
}

} // verus!
