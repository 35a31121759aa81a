use vstd::prelude::*;

use crate::error::{LostLoveError, Result};
use crate::kdf::decimal_digits;
use crate::packet::PacketType;
use crate::session::{new_uuid_v4_string, uuid_v4_text};
use vstd::string::StringExecFns;

verus! {

/// The only protocol version a server accepts.
pub const PROTOCOL_VERSION: u8 = 1;

/// States of the handshake.
#[derive(Debug, Clone, Copy, PartialEq, Eq, Structural)]
pub enum HandshakeState {
    Init,
    ClientHelloSent,
    ServerHelloReceived,
    Completed,
    Failed,
}

/// Messages of the handshake. The finish messages are reserved.
#[derive(Debug, Clone)]
pub enum HandshakeMessage {
    ClientHello { client_random: [u8; 32], protocol_version: u8 },
    ServerHello { server_random: [u8; 32], session_id: String },
    ClientFinish { verification_data: Vec<u8> },
    ServerFinish { verification_data: Vec<u8> },
}

/// Relies on rand's `thread_rng` and `Rng::fill`: 32 bytes from the
/// thread-local cryptographically secure generator.
#[verifier::external_body]
fn generate_random() -> [u8; 32] {
    let mut bytes = [0u8; 32];
    rand::Rng::fill(&mut rand::thread_rng(), &mut bytes);
    bytes
}

/// The text "Unsupported protocol version: " followed by `v` in decimal.
pub open spec fn unsupported_version_text(v: u8) -> Seq<char> {
    "Unsupported protocol version: "@ + decimal_digits(v as nat).map_values(|b: u8| b as char)
}

/// The one-character text of decimal digit `d`.
fn digit_text(d: u8) -> (r: &'static str)
    requires
        d < 10,
    ensures
        r@ == seq![(48 + d) as u8 as char],
{
    proof {
        reveal_strlit("0");
        reveal_strlit("1");
        reveal_strlit("2");
        reveal_strlit("3");
        reveal_strlit("4");
        reveal_strlit("5");
        reveal_strlit("6");
        reveal_strlit("7");
        reveal_strlit("8");
        reveal_strlit("9");
    }
    match d {
        0 => "0",
        1 => "1",
        2 => "2",
        3 => "3",
        4 => "4",
        5 => "5",
        6 => "6",
        7 => "7",
        8 => "8",
        _ => "9",
    }
}

/// Appends the decimal digits of `n`.
fn append_decimal(s: &mut String, n: u8)
    ensures
        final(s)@ == old(s)@ + decimal_digits(n as nat).map_values(|b: u8| b as char),
    decreases n,
{
    if n >= 10 {
        append_decimal(s, n / 10);
    }
    s.append(digit_text(n % 10));
    proof {
        let f = |b: u8| b as char;
        if n >= 10 {
            assert(decimal_digits(n as nat) == decimal_digits((n / 10) as nat).push(
                (48 + n % 10) as u8,
            ));
            assert(decimal_digits(n as nat).map_values(f) =~= decimal_digits(
                (n / 10) as nat,
            ).map_values(f).push(f((48 + n % 10) as u8)));
        } else {
            assert(decimal_digits(n as nat).map_values(f) =~= seq![f((48 + n) as u8)]);
        }
        assert(final(s)@ =~= old(s)@ + decimal_digits(n as nat).map_values(f));
    }
}

/// The error text for an unsupported protocol version.
fn unsupported_version_message(v: u8) -> (r: String)
    ensures
        r@ == unsupported_version_text(v),
{
    let mut text = "Unsupported protocol version: ".to_owned();
    append_decimal(&mut text, v);
    text
}

/// A server's handshake starts with a `HandshakeInit` packet; any other
/// packet type fails it.
pub fn require_handshake_init(packet_type: PacketType) -> (r: Result<()>)
    ensures
        r is Ok <==> packet_type == PacketType::HandshakeInit,
        r is Err ==> r->Err_0 is HandshakeFailed,
{
    if packet_type != PacketType::HandshakeInit {
        return Err(LostLoveError::HandshakeFailed("Expected HandshakeInit packet".to_string()));
    }
    Ok(())
}

/// One side of the handshake: a client sends the ClientHello and takes the
/// ServerHello; a server takes the ClientHello and answers it.
pub struct Handshake {
    is_client: bool,
    state: HandshakeState,
    client_random: Option<[u8; 32]>,
    server_random: Option<[u8; 32]>,
    session_id: Option<String>,
}

/// The view of an optional string.
pub open spec fn opt_text(s: Option<String>) -> Option<Seq<char>> {
    match s {
        Some(t) => Some(t@),
        None => None,
    }
}

impl Handshake {
    pub closed spec fn client_side(&self) -> bool {
        self.is_client
    }

    pub closed spec fn current_state(&self) -> HandshakeState {
        self.state
    }

    pub closed spec fn stored_client_random(&self) -> Option<[u8; 32]> {
        self.client_random
    }

    pub closed spec fn stored_server_random(&self) -> Option<[u8; 32]> {
        self.server_random
    }

    pub closed spec fn stored_session_id(&self) -> Option<Seq<char>> {
        opt_text(self.session_id)
    }

    /// Same role and stored values; only the state may differ.
    pub open spec fn same_values(&self, other: Handshake) -> bool {
        &&& self.client_side() == other.client_side()
        &&& self.stored_client_random() == other.stored_client_random()
        &&& self.stored_server_random() == other.stored_server_random()
        &&& self.stored_session_id() == other.stored_session_id()
    }

    /// Server side, in `Init`, with nothing stored.
    pub fn new_server() -> (r: Handshake)
        ensures
            !r.client_side(),
            r.current_state() == HandshakeState::Init,
            r.stored_client_random() is None,
            r.stored_server_random() is None,
            r.stored_session_id() is None,
    {
        Handshake {
            is_client: false,
            state: HandshakeState::Init,
            client_random: None,
            server_random: None,
            session_id: None,
        }
    }

    /// Client side, in `Init`, with a fresh random client nonce.
    pub fn new_client() -> (r: Handshake)
        ensures
            r.client_side(),
            r.current_state() == HandshakeState::Init,
            r.stored_client_random() is Some,
            r.stored_server_random() is None,
            r.stored_session_id() is None,
    {
        Handshake {
            is_client: true,
            state: HandshakeState::Init,
            client_random: Some(generate_random()),
            server_random: None,
            session_id: None,
        }
    }

    pub fn state(&self) -> (r: HandshakeState)
        ensures
            r == self.current_state(),
    {
        self.state
    }

    pub fn is_completed(&self) -> (r: bool)
        ensures
            r == (self.current_state() == HandshakeState::Completed),
    {
        self.state == HandshakeState::Completed
    }

    /// Client side, from `Init`: sends the client nonce with protocol
    /// version 1 and moves to `ClientHelloSent`. Anywhere else it fails and
    /// nothing changes.
    pub fn generate_client_hello(&mut self) -> (r: Result<HandshakeMessage>)
        ensures
            old(self).client_side() && old(self).current_state() == HandshakeState::Init
                <==> r is Ok,
            r is Err ==> r->Err_0 is HandshakeFailed && *final(self) == *old(self),
            r is Ok ==> ({
                let m = r->Ok_0;
                &&& m is ClientHello
                &&& m->ClientHello_protocol_version == PROTOCOL_VERSION
                &&& final(self).stored_client_random() == Some(m->ClientHello_client_random)
                &&& (old(self).stored_client_random() is Some ==> old(
                    self,
                ).stored_client_random() == final(self).stored_client_random())
                &&& final(self).current_state() == HandshakeState::ClientHelloSent
                &&& final(self).client_side() == old(self).client_side()
                &&& final(self).stored_server_random() == old(self).stored_server_random()
                &&& final(self).stored_session_id() == old(self).stored_session_id()
            }),
    {
        if !self.is_client || self.state != HandshakeState::Init {
            return Err(LostLoveError::HandshakeFailed("Invalid state for ClientHello".to_string()));
        }
        let client_random = match self.client_random {
            Some(c) => c,
            None => generate_random(),
        };
        self.client_random = Some(client_random);
        self.state = HandshakeState::ClientHelloSent;
        Ok(HandshakeMessage::ClientHello { client_random, protocol_version: PROTOCOL_VERSION })
    }

    /// Server side, from `Init`: answers a version-1 ClientHello with a fresh
    /// random server nonce and a fresh UUID as session id, and moves to
    /// `ServerHelloReceived`.
    pub fn process_client_hello(&mut self, msg: &HandshakeMessage) -> (r: Result<HandshakeMessage>)
        ensures
            r is Ok <==> (!old(self).client_side() && old(self).current_state()
                == HandshakeState::Init && msg is ClientHello && msg->ClientHello_protocol_version
                == PROTOCOL_VERSION),
            r is Err ==> r->Err_0 is HandshakeFailed,
            old(self).current_state() == HandshakeState::Init && !old(self).client_side()
                && msg is ClientHello && msg->ClientHello_protocol_version != PROTOCOL_VERSION
                ==> r is Err && r->Err_0->HandshakeFailed_0@ == unsupported_version_text(
                msg->ClientHello_protocol_version,
            ),
            r is Err && old(self).current_state() == HandshakeState::Init && !old(self).client_side()
                ==> final(self).current_state() == HandshakeState::Failed && final(self).same_values(
                *old(self),
            ),
            r is Err && !(old(self).current_state() == HandshakeState::Init && !old(
                self,
            ).client_side()) ==> *final(self) == *old(self),
            old(self).current_state() == HandshakeState::Init && !old(self).client_side()
                && !(msg is ClientHello) ==> r is Err && r->Err_0->HandshakeFailed_0@
                == "Expected ClientHello message"@,
            r is Ok ==> ({
                let m = r->Ok_0;
                &&& m is ServerHello
                &&& uuid_v4_text(m->ServerHello_session_id@)
                &&& final(self).stored_client_random() == Some(msg->ClientHello_client_random)
                &&& final(self).stored_server_random() == Some(m->ServerHello_server_random)
                &&& final(self).stored_session_id() == Some(m->ServerHello_session_id@)
                &&& final(self).current_state() == HandshakeState::ServerHelloReceived
                &&& final(self).client_side() == old(self).client_side()
            }),
    {
        let server_random = generate_random();
        let session_id = new_uuid_v4_string();
        self.answer_client_hello(msg, server_random, session_id)
    }

    /// `process_client_hello` with the server nonce and session id given.
    /// An unsupported version or another message moves the handshake to
    /// `Failed`.
    pub fn answer_client_hello(
        &mut self,
        msg: &HandshakeMessage,
        server_random: [u8; 32],
        session_id: String,
    ) -> (r: Result<HandshakeMessage>)
        ensures
            r is Ok <==> (!old(self).client_side() && old(self).current_state()
                == HandshakeState::Init && msg is ClientHello && msg->ClientHello_protocol_version
                == PROTOCOL_VERSION),
            r is Err ==> r->Err_0 is HandshakeFailed,
            !(old(self).current_state() == HandshakeState::Init && !old(self).client_side())
                ==> *final(self) == *old(self),
            old(self).current_state() == HandshakeState::Init && !old(self).client_side()
                && msg is ClientHello && msg->ClientHello_protocol_version != PROTOCOL_VERSION
                ==> r is Err && r->Err_0->HandshakeFailed_0@ == unsupported_version_text(
                msg->ClientHello_protocol_version,
            ),
            old(self).current_state() == HandshakeState::Init && !old(self).client_side()
                && !(msg is ClientHello) ==> r is Err && r->Err_0->HandshakeFailed_0@
                == "Expected ClientHello message"@,
            r is Err && old(self).current_state() == HandshakeState::Init && !old(self).client_side()
                ==> final(self).current_state() == HandshakeState::Failed && final(self).same_values(
                *old(self),
            ),
            r is Ok ==> ({
                let m = r->Ok_0;
                &&& m is ServerHello
                &&& m->ServerHello_server_random == server_random
                &&& m->ServerHello_session_id@ == session_id@
                &&& final(self).stored_client_random() == Some(msg->ClientHello_client_random)
                &&& final(self).stored_server_random() == Some(server_random)
                &&& final(self).stored_session_id() == Some(session_id@)
                &&& final(self).current_state() == HandshakeState::ServerHelloReceived
                &&& final(self).client_side() == old(self).client_side()
            }),
    {
        if self.is_client || self.state != HandshakeState::Init {
            return Err(
                LostLoveError::HandshakeFailed(
                    "Invalid state for processing ClientHello".to_string(),
                ),
            );
        }
        match msg {
            HandshakeMessage::ClientHello { client_random, protocol_version } => {
                if *protocol_version != PROTOCOL_VERSION {
                    self.state = HandshakeState::Failed;
                    return Err(
                        LostLoveError::HandshakeFailed(
                            unsupported_version_message(*protocol_version),
                        ),
                    );
                }
                self.client_random = Some(*client_random);
                self.server_random = Some(server_random);
                let reply_id = session_id.clone();
                self.session_id = Some(session_id);
                self.state = HandshakeState::ServerHelloReceived;
                Ok(HandshakeMessage::ServerHello { server_random, session_id: reply_id })
            },
            _ => {
                self.state = HandshakeState::Failed;
                Err(LostLoveError::HandshakeFailed("Expected ClientHello message".to_owned()))
            },
        }
    }

    /// Client side, from `ClientHelloSent`: stores the server nonce and the
    /// session id of a ServerHello and completes. Another message moves the
    /// handshake to `Failed`; in another state nothing changes.
    pub fn process_server_hello(&mut self, msg: &HandshakeMessage) -> (r: Result<()>)
        ensures
            r is Ok <==> (old(self).current_state() == HandshakeState::ClientHelloSent
                && msg is ServerHello),
            r is Err ==> r->Err_0 is HandshakeFailed,
            old(self).current_state() != HandshakeState::ClientHelloSent ==> *final(self) == *old(
                self,
            ),
            old(self).current_state() == HandshakeState::ClientHelloSent && !(msg is ServerHello)
                ==> final(self).current_state() == HandshakeState::Failed && final(self).same_values(
                *old(self),
            ) && r is Err && r->Err_0->HandshakeFailed_0@ == "Expected ServerHello message"@,
            r is Ok ==> ({
                &&& final(self).stored_server_random() == Some(msg->ServerHello_server_random)
                &&& final(self).stored_session_id() == Some(msg->ServerHello_session_id@)
                &&& final(self).stored_client_random() == old(self).stored_client_random()
                &&& final(self).current_state() == HandshakeState::Completed
                &&& final(self).client_side() == old(self).client_side()
            }),
    {
        if self.state != HandshakeState::ClientHelloSent {
            return Err(
                LostLoveError::HandshakeFailed(
                    "Invalid state for processing ServerHello".to_string(),
                ),
            );
        }
        match msg {
            HandshakeMessage::ServerHello { server_random, session_id } => {
                self.server_random = Some(*server_random);
                self.session_id = Some(session_id.clone());
                self.state = HandshakeState::Completed;
                Ok(())
            },
            _ => {
                self.state = HandshakeState::Failed;
                Err(LostLoveError::HandshakeFailed("Expected ServerHello message".to_owned()))
            },
        }
    }

    pub fn session_id(&self) -> (r: Option<&str>)
        ensures
            match r {
                Some(s) => self.stored_session_id() == Some(s@),
                None => self.stored_session_id() is None,
            },
    {
        match &self.session_id {
            Some(s) => Some(s.as_str()),
            None => None,
        }
    }

    pub fn client_random(&self) -> (r: Option<[u8; 32]>)
        ensures
            r == self.stored_client_random(),
    {
        self.client_random
    }

    pub fn server_random(&self) -> (r: Option<[u8; 32]>)
        ensures
            r == self.stored_server_random(),
    {
        self.server_random
    }
}

} // verus!
