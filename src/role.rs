use vstd::prelude::*;
use vstd::string::StringSliceAdditionalSpecFns;

verus! {

/// Which end of the tunnel this process is.
#[derive(Debug, Clone, Copy, PartialEq, Eq, Structural)]
pub enum Mode {
    Server,
    Client,
}

/// The bytes of the word that names a mode on the command line.
pub open spec fn mode_word(m: Mode) -> Seq<u8> {
    match m {
        Mode::Server => seq![115u8, 101u8, 114u8, 118u8, 101u8, 114u8],
        Mode::Client => seq![99u8, 108u8, 105u8, 101u8, 110u8, 116u8],
    }
}

impl Mode {
    /// The mode named by `src`: `server` or `client`; `None` for any other word.
    pub fn from_name(src: &str) -> (r: Option<Mode>)
        ensures
            r == Some(Mode::Server) <==> src.spec_bytes() == mode_word(Mode::Server),
            r == Some(Mode::Client) <==> src.spec_bytes() == mode_word(Mode::Client),
            r is None <==> (src.spec_bytes() != mode_word(Mode::Server) && src.spec_bytes()
                != mode_word(Mode::Client)),
    {
        let b = src.as_bytes();
        let server: Vec<u8> = vec![115u8, 101u8, 114u8, 118u8, 101u8, 114u8];
        let client: Vec<u8> = vec![99u8, 108u8, 105u8, 101u8, 110u8, 116u8];
        assert(server@ =~= mode_word(Mode::Server));
        assert(client@ =~= mode_word(Mode::Client));
        assert(mode_word(Mode::Server) != mode_word(Mode::Client)) by {
            assert(mode_word(Mode::Server)[0] != mode_word(Mode::Client)[0]);
        }
        if crate::session::bytes_equal(b, server.as_slice()) {
            Some(Mode::Server)
        } else if crate::session::bytes_equal(b, client.as_slice()) {
            Some(Mode::Client)
        } else {
            None
        }
    }
}

impl std::str::FromStr for Mode {
    type Err = &'static str;

    /// The mode named by `src`: `server` or `client`; `"invalid mode"` for any
    /// other word.
    fn from_str(src: &str) -> (r: Result<Mode, &'static str>)
        ensures
            r matches Ok(m) ==> src.spec_bytes() == mode_word(m),
            r is Err <==> (src.spec_bytes() != mode_word(Mode::Server) && src.spec_bytes()
                != mode_word(Mode::Client)),
            r matches Err(e) ==> e == "invalid mode",
    {
        match Mode::from_name(src) {
            Some(m) => Ok(m),
            None => Err("invalid mode"),
        }
    }
}

/// What a connection is run with: its role and the shared password. An absent
/// password counts as the empty one.
pub struct Config {
    pub mode: Mode,
    pub password: Option<Vec<u8>>,
}

impl Config {
    /// The password's bytes, empty where none was given.
    pub open spec fn password_view(&self) -> Seq<u8> {
        match self.password {
            Some(p) => p@,
            None => Seq::empty(),
        }
    }

    /// The password's bytes, empty where none was given.
    pub fn password_bytes(&self) -> (r: Vec<u8>)
        ensures
            r@ == self.password_view(),
    {
        match &self.password {
            Some(p) => p.clone(),
            None => Vec::new(),
        }
    }
}

/// State that only the server end holds.
pub struct ServerData {
    /// Secret half of the static key pair that the password determines.
    pub static_secret: Vec<u8>,
    /// Handshake bytes received so far.
    pub received: Vec<u8>,
}

/// State that only the client end holds.
pub struct ClientData {}

/// The role-specific part of a connection's state.
pub enum TypeData {
    Server(ServerData),
    Client(ClientData),
}

impl TypeData {
    /// The server's state; only a server connection has one.
    pub fn server(&self) -> (r: &ServerData)
        requires
            self is Server,
        ensures
            *r == self->Server_0,
    {
        match self {
            TypeData::Server(x) => x,
            TypeData::Client(_) => unreached(),
        }
    }

    /// The server's state, for update in place.
    pub fn server_mut(&mut self) -> (r: &mut ServerData)
        requires
            *old(self) is Server,
        ensures
            *r == old(self)->Server_0,
            *final(self) == TypeData::Server(*final(r)),
    {
        match self {
            TypeData::Server(x) => x,
            TypeData::Client(_) => unreached(),
        }
    }

    /// The client's state; only a client connection has one.
    pub fn client(&self) -> (r: &ClientData)
        requires
            self is Client,
        ensures
            *r == self->Client_0,
    {
        match self {
            TypeData::Client(x) => x,
            TypeData::Server(_) => unreached(),
        }
    }

    /// The client's state, for update in place.
    pub fn client_mut(&mut self) -> (r: &mut ClientData)
        requires
            *old(self) is Client,
        ensures
            *r == old(self)->Client_0,
            *final(self) == TypeData::Client(*final(r)),
    {
        match self {
            TypeData::Client(x) => x,
            TypeData::Server(_) => unreached(),
        }
    }
}

} // verus!
