use oxy::connection::{Action, Event, Oxy, Phase};
use oxy::handshake::build_initial_message;
use oxy::role::{ClientData, Config, Mode, ServerData, TypeData};

fn setup() {
    sodiumoxide::init().unwrap();
}

fn config(mode: Mode, password: Option<&str>) -> Config {
    Config { mode, password: password.map(|p| p.as_bytes().to_vec()) }
}

fn ready_server(password: &str) -> Oxy {
    let mut server = Oxy::new(config(Mode::Server, Some(password)));
    assert!(matches!(server.init(), Action::Nothing));
    assert_eq!(server.phase, Phase::Initialized);
    server
}

#[test]
fn mode_names() {
    assert_eq!(Mode::from_name("server"), Some(Mode::Server));
    assert_eq!(Mode::from_name("client"), Some(Mode::Client));
    assert_eq!(Mode::from_name("mode"), None);
    assert_eq!(Mode::from_name(""), None);
    assert_eq!(Mode::from_name("Server"), None);
    assert_eq!("client".parse::<Mode>(), Ok(Mode::Client));
    assert_eq!("servers".parse::<Mode>(), Err("invalid mode"));
    assert_eq!("mode".parse::<Mode>(), Err("invalid mode"));
    assert_eq!("server".parse::<Mode>(), Ok(Mode::Server));
}

#[test]
fn absent_password_is_empty() {
    assert_eq!(config(Mode::Client, None).password_bytes(), Vec::<u8>::new());
    assert_eq!(config(Mode::Client, Some("pw")).password_bytes(), b"pw".to_vec());
}

#[test]
fn typedata_getters() {
    let mut t = TypeData::Server(ServerData { static_secret: vec![1; 32], received: vec![] });
    assert_eq!(t.server().static_secret, vec![1u8; 32]);
    t.server_mut().received.push(9);
    assert_eq!(t.server().received, vec![9u8]);
    let mut c = TypeData::Client(ClientData {});
    let _: &ClientData = c.client();
    let _: &mut ClientData = c.client_mut();
}

#[test]
fn new_matches_mode() {
    let s = Oxy::new(config(Mode::Server, None));
    assert!(matches!(s.typedata, TypeData::Server(_)));
    assert_eq!(s.phase, Phase::Created);
    assert!(s.key.is_none());
    assert!(s.typedata.server().static_secret.is_empty());
    assert!(s.typedata.server().received.is_empty());
    let c = Oxy::new(config(Mode::Client, None));
    assert!(matches!(c.typedata, TypeData::Client(_)));
}

#[test]
fn end_to_end_correct_password() {
    setup();
    let mut client = Oxy::new(config(Mode::Client, Some("correct")));
    let msg = match client.init() {
        Action::Send(m) => m,
        _ => panic!("client sends its handshake on init"),
    };
    assert_eq!(msg.len(), 1024);
    let mut server = ready_server("correct");
    // the message arrives in two reads
    assert!(matches!(server.dispatch_event(Event::Readable(msg[..300].to_vec())), Action::Nothing));
    assert!(server.key.is_none());
    assert_eq!(server.phase, Phase::Running);
    assert!(matches!(server.dispatch_event(Event::Readable(msg[300..].to_vec())), Action::Nothing));
    let got = server.key.as_ref().unwrap();
    let sent = client.key.as_ref().unwrap();
    assert_eq!(got.key.len(), 32);
    assert_eq!(got.client_to_server_nonce.len(), 24);
    assert_eq!(got.server_to_client_nonce.len(), 24);
    assert_ne!(got.client_to_server_nonce, got.server_to_client_nonce);
    assert_eq!(got.key, sent.key);
    assert_eq!(got.client_to_server_nonce, sent.client_to_server_nonce);
    assert_eq!(got.server_to_client_nonce, sent.server_to_client_nonce);
    // later reads belong to the data phase
    assert!(matches!(server.dispatch_event(Event::Readable(vec![1, 2, 3])), Action::Nothing));
    assert_eq!(server.phase, Phase::Running);
}

#[test]
fn end_to_end_wrong_password() {
    setup();
    let mut client = Oxy::new(config(Mode::Client, Some("wrong")));
    let msg = match client.init() {
        Action::Send(m) => m,
        _ => panic!("client sends its handshake on init"),
    };
    let mut server = ready_server("correct");
    assert!(matches!(server.dispatch_event(Event::Readable(msg)), Action::Close));
    assert_eq!(server.phase, Phase::Closed);
    assert!(server.key.is_none());
    assert!(matches!(server.dispatch_event(Event::Readable(vec![0; 10])), Action::Nothing));
}

#[test]
fn extra_bytes_after_handshake_are_not_buffered() {
    setup();
    let (mut msg, _) = build_initial_message(b"correct").unwrap();
    msg.extend_from_slice(&[7u8; 50]);
    let mut server = ready_server("correct");
    assert!(matches!(server.dispatch_event(Event::Readable(msg)), Action::Nothing));
    assert_eq!(server.typedata.server().received.len(), 1024);
    assert!(server.key.is_some());
}

#[test]
fn connections_are_isolated() {
    setup();
    let (good, _) = build_initial_message(b"correct").unwrap();
    let (bad, _) = build_initial_message(b"correct").unwrap();
    let mut tampered = bad.clone();
    for b in tampered[56..].iter_mut() {
        *b ^= 0xff;
    }
    let mut a = ready_server("correct");
    let mut b = ready_server("correct");
    let mut c = ready_server("correct");
    assert!(matches!(a.dispatch_event(Event::Readable(tampered)), Action::Close));
    assert!(matches!(b.dispatch_event(Event::Readable(good)), Action::Nothing));
    assert!(matches!(c.dispatch_event(Event::Readable(bad)), Action::Nothing));
    assert_eq!(a.phase, Phase::Closed);
    assert!(b.key.is_some());
    assert!(c.key.is_some());
}

#[test]
fn hangup_closes() {
    setup();
    let mut server = ready_server("correct");
    assert!(matches!(server.dispatch_event(Event::Hangup), Action::Close));
    assert_eq!(server.phase, Phase::Closed);
    assert!(matches!(server.dispatch_event(Event::Hangup), Action::Nothing));
}

#[test]
fn client_ignores_reads_after_handshake() {
    setup();
    let mut client = Oxy::new(config(Mode::Client, None));
    assert!(matches!(client.init(), Action::Send(_)));
    assert!(matches!(client.dispatch_event(Event::Readable(vec![1; 2000])), Action::Nothing));
    assert_eq!(client.phase, Phase::Running);
    assert!(client.key.is_some());
}
