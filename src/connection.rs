use crate::handshake::{
    accept_handshake, build_initial_message, first_session_is, is_handshake_for, no_session,
    static_keypair, static_keypair_of, KEY_LEN, MESSAGE_LEN,
};
use crate::role::{ClientData, Config, Mode, ServerData, TypeData};
use crate::session::{push_range, SessionMaterial};
use vstd::prelude::*;

verus! {

/// Where a connection stands in its life.
#[derive(Debug, Clone, Copy, PartialEq, Eq, Structural)]
pub enum Phase {
    Created,
    Initialized,
    Running,
    Closed,
}

/// A readiness event on the connection's socket, with what was read.
pub enum Event {
    /// The socket was readable; these bytes were read from it.
    Readable(Vec<u8>),
    /// The peer shut the stream down, or the socket failed.
    Hangup,
}

/// What the connection asks of the loop that drives it.
pub enum Action {
    Nothing,
    /// Write these bytes to the socket.
    Send(Vec<u8>),
    /// Drop the connection.
    Close,
}

/// One end of a connection, apart from its socket: the configuration, the
/// negotiated session once there is one, and role-specific state.
pub struct Oxy {
    pub config: Config,
    pub key: Option<SessionMaterial>,
    pub typedata: TypeData,
    pub phase: Phase,
}

/// The handshake buffer after `bytes` arrive: filled up to the message size,
/// any further bytes left out.
pub open spec fn buffered_after(received: Seq<u8>, bytes: Seq<u8>) -> Seq<u8> {
    let room = MESSAGE_LEN - received.len();
    if bytes.len() <= room {
        received + bytes
    } else {
        received + bytes.subrange(0, room)
    }
}

impl Oxy {
    /// The role-specific state matches the mode, the session is well formed,
    /// and the server's handshake buffer never exceeds one message.
    pub open spec fn wf(&self) -> bool {
        &&& (self.config.mode == Mode::Server <==> self.typedata is Server)
        &&& (self.key matches Some(m) ==> m.wf())
        &&& (self.typedata matches TypeData::Server(s) ==> {
            &&& s.received@.len() <= MESSAGE_LEN
            &&& (self.phase == Phase::Initialized || self.phase == Phase::Running ==> s.static_secret@.len()
                == KEY_LEN)
        })
    }

    /// A fresh connection end for the configured role.
    pub fn new(config: Config) -> (r: Oxy)
        ensures
            r.wf(),
            r.config == config,
            r.key is None,
            r.phase == Phase::Created,
            r.typedata matches TypeData::Server(s) ==> s.received@.len() == 0
                && s.static_secret@.len() == 0,
    {
        let typedata = match config.mode {
            Mode::Server => TypeData::Server(
                ServerData { static_secret: Vec::new(), received: Vec::new() },
            ),
            Mode::Client => TypeData::Client(ClientData {  }),
        };
        Oxy { config, key: None, typedata, phase: Phase::Created }
    }

    /// Readies the connection. A client builds its handshake message, keeps the
    /// session material it carries, and asks for the message to be sent. A
    /// server derives its static key pair from the password and keeps the
    /// secret half. Closes the connection where either cannot be done.
    pub fn init(&mut self) -> (r: Action)
        requires
            old(self).wf(),
            old(self).phase == Phase::Created,
        ensures
            final(self).wf(),
            final(self).config == old(self).config,
            final(self).phase == Phase::Initialized || final(self).phase == Phase::Closed,
            r is Close <==> final(self).phase == Phase::Closed,
            old(self).config.mode == Mode::Client && final(self).phase == Phase::Initialized ==> (
            r matches Action::Send(msg) && final(self).key matches Some(m) && {
                &&& msg@.len() == MESSAGE_LEN
                &&& is_handshake_for(
                    msg@,
                    static_keypair_of(old(self).config.password_view()).0,
                    m.encoding(),
                )
            }),
            old(self).config.mode == Mode::Server && final(self).phase == Phase::Initialized ==> {
                &&& r is Nothing
                &&& final(self).key == old(self).key
                &&& final(self).typedata matches TypeData::Server(s) && old(self).typedata matches TypeData::Server(s0) && {
                    &&& s.static_secret@ == static_keypair_of(old(self).config.password_view()).1
                    &&& s.received == s0.received
                }
            },
    {
        let password = self.config.password_bytes();
        match self.config.mode {
            Mode::Client => match build_initial_message(password.as_slice()) {
                Ok((msg, material)) => {
                    self.key = Some(material);
                    self.phase = Phase::Initialized;
                    Action::Send(msg)
                },
                Err(_) => {
                    self.phase = Phase::Closed;
                    Action::Close
                },
            },
            Mode::Server => match static_keypair(password.as_slice()) {
                Ok((_pk, sk)) => {
                    let server = self.typedata.server_mut();
                    server.static_secret = sk;
                    self.phase = Phase::Initialized;
                    Action::Nothing
                },
                Err(_) => {
                    self.phase = Phase::Closed;
                    Action::Close
                },
            },
        }
    }
    /// Handles one readiness event. Once closed, nothing more happens. A hangup
    /// closes the connection. A server that awaits the handshake buffers what
    /// was read, up to one message; when the message is complete it accepts
    /// the session material that the message carries, or closes the connection
    /// where no block in it verifies. Reads after that, and all reads on the
    /// client end, belong to the data phase and leave the state as it is.
    pub fn dispatch_event(&mut self, event: Event) -> (r: Action)
        requires
            old(self).wf(),
            old(self).phase != Phase::Created,
        ensures
            final(self).wf(),
            final(self).config == old(self).config,
            !(r is Send),
            old(self).phase == Phase::Closed ==> r is Nothing && *final(self) == *old(self),
            old(self).phase != Phase::Closed && event is Hangup ==> {
                &&& r is Close
                &&& final(self).phase == Phase::Closed
                &&& final(self).key == old(self).key
                &&& final(self).typedata == old(self).typedata
            },
            event matches Event::Readable(bytes) ==> (old(self).phase != Phase::Closed ==> {
                if old(self).typedata is Server && old(self).key is None {
                        let s0 = old(self).typedata->Server_0;
                        let buf = buffered_after(s0.received@, bytes@);
                        final(self).typedata matches TypeData::Server(s) && {
                            &&& s.received@ == buf
                            &&& s.static_secret == s0.static_secret
                            &&& buf.len() < MESSAGE_LEN ==> {
                                &&& r is Nothing
                                &&& final(self).phase == Phase::Running
                                &&& final(self).key is None
                            }
                            &&& buf.len() == MESSAGE_LEN ==> {
                                &&& (r is Close <==> no_session(buf, s0.static_secret@))
                                &&& (r is Close ==> final(self).phase == Phase::Closed
                                    && final(self).key is None)
                                &&& (r is Nothing ==> final(self).phase == Phase::Running)
                                &&& (r is Nothing ==> (final(self).key matches Some(m)
                                    && first_session_is(buf, s0.static_secret@, m.encoding())))
                            }
                        }
                } else {
                        &&& r is Nothing
                        &&& final(self).phase == Phase::Running
                        &&& final(self).key == old(self).key
                        &&& final(self).typedata == old(self).typedata
                }
            }),
    {
        if self.phase == Phase::Closed {
            return Action::Nothing;
        }
        match event {
            Event::Hangup => {
                self.phase = Phase::Closed;
                Action::Close
            },
            Event::Readable(bytes) => {
                if self.key.is_some() || !(self.config.mode == Mode::Server) {
                    self.phase = Phase::Running;
                    return Action::Nothing;
                }
                let server = self.typedata.server_mut();
                let room = MESSAGE_LEN - server.received.len();
                let take = if bytes.len() <= room { bytes.len() } else { room };
                push_range(&mut server.received, bytes.as_slice(), 0, take);
                proof {
                    assert(bytes@.subrange(0, bytes@.len() as int) =~= bytes@);
                }
                if server.received.len() < MESSAGE_LEN {
                    self.phase = Phase::Running;
                    return Action::Nothing;
                }
                match accept_handshake(server.received.as_slice(), server.static_secret.as_slice()) {
                    Some(m) => {
                        self.key = Some(m);
                        self.phase = Phase::Running;
                        Action::Nothing
                    },
                    None => {
                        self.phase = Phase::Closed;
                        Action::Close
                    },
                }
            },
        }
    }
}

} // verus!
