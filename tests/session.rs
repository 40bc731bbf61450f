use rexec::{ClientConfig, Endpoint, Error, Frame, Incoming, ReadStep, Terminal, terminal_handshake};

fn open_session() -> Terminal {
    Terminal::new()
}

#[test]
fn new_session_is_open() {
    assert!(!open_session().is_closed());
}

#[test]
fn write_sends_one_binary_frame() {
    let t = open_session();
    match t.write(b"ls -la\n") {
        Ok(Frame::Binary(b)) => assert_eq!(b, b"ls -la\n".to_vec()),
        other => panic!("unexpected {:?}", other),
    }
}

#[test]
fn write_str_sends_utf8_bytes_as_binary() {
    let t = open_session();
    match t.write_str("héllo") {
        Ok(Frame::Binary(b)) => assert_eq!(b, "héllo".as_bytes().to_vec()),
        other => panic!("unexpected {:?}", other),
    }
}

#[test]
fn resize_sends_exact_json_text() {
    let t = open_session();
    match t.resize(132, 43) {
        Ok(Frame::Text(s)) => assert_eq!(s, "{\"type\":\"resize\",\"cols\":132,\"rows\":43}"),
        other => panic!("unexpected {:?}", other),
    }
}

#[test]
fn resize_extreme_sizes() {
    let t = open_session();
    match t.resize(0, 65535) {
        Ok(Frame::Text(s)) => assert_eq!(s, "{\"type\":\"resize\",\"cols\":0,\"rows\":65535}"),
        other => panic!("unexpected {:?}", other),
    }
}

fn feed(t: &mut Terminal, frames: Vec<Incoming>) -> (Vec<ReadStep>, usize) {
    let mut out = Vec::new();
    let mut used = 0;
    let mut pending = frames.into_iter();
    let mut step = t.read(None);
    loop {
        match step {
            ReadStep::NeedFrame => match pending.next() {
                Some(ev) => {
                    used += 1;
                    step = t.read(Some(ev));
                }
                None => return (out, used),
            },
            done => {
                out.push(done);
                return (out, used);
            }
        }
    }
}

#[test]
fn read_skips_pings_and_returns_payload_once() {
    let mut t = open_session();
    let frames = vec![
        Incoming::Frame(Frame::Ping(vec![1])),
        Incoming::Frame(Frame::Ping(vec![2])),
        Incoming::Frame(Frame::Binary(b"hi".to_vec())),
    ];
    let (steps, used) = feed(&mut t, frames);
    assert_eq!(used, 3);
    assert_eq!(steps.len(), 1);
    assert!(matches!(&steps[0], ReadStep::Data(b) if b == b"hi"));
    assert!(!t.is_closed());
    // nothing is left: the next read asks for a new frame
    assert!(matches!(t.read(None), ReadStep::NeedFrame));
}

#[test]
fn read_skips_pongs() {
    let mut t = open_session();
    assert!(matches!(t.read(Some(Incoming::Frame(Frame::Pong(vec![])))), ReadStep::NeedFrame));
    assert!(!t.is_closed());
}

#[test]
fn read_text_frame_yields_its_bytes() {
    let mut t = open_session();
    let step = t.read(Some(Incoming::Frame(Frame::Text("prompt$ ".to_string()))));
    assert!(matches!(step, ReadStep::Data(b) if b == b"prompt$ ".to_vec()));
}

#[test]
fn peer_close_ends_stream_and_closes() {
    let mut t = open_session();
    assert!(matches!(t.read(Some(Incoming::Frame(Frame::Close))), ReadStep::EndOfStream));
    assert!(t.is_closed());
    assert!(matches!(t.write(b"x"), Err(Error::TerminalClosed)));
    assert!(matches!(t.read(None), ReadStep::Failed(Error::TerminalClosed)));
}

#[test]
fn stream_end_closes() {
    let mut t = open_session();
    assert!(matches!(t.read(Some(Incoming::Ended)), ReadStep::EndOfStream));
    assert!(t.is_closed());
    assert!(matches!(t.resize(80, 24), Err(Error::TerminalClosed)));
}

#[test]
fn transport_error_on_read_closes_and_is_surfaced() {
    let mut t = open_session();
    let step = t.read(Some(Incoming::Failed("reset".to_string())));
    assert!(matches!(step, ReadStep::Failed(Error::WebSocket(m)) if m == "reset"));
    assert!(t.is_closed());
    assert!(matches!(t.write_str("x"), Err(Error::TerminalClosed)));
}

#[test]
fn transport_error_on_send_closes() {
    let mut t = open_session();
    let e = t.transport_failed("broken pipe".to_string());
    assert!(matches!(e, Error::WebSocket(m) if m == "broken pipe"));
    assert!(t.is_closed());
    assert!(matches!(t.write(b"x"), Err(Error::TerminalClosed)));
}

#[test]
fn operations_after_close_fail_fast() {
    let mut t = open_session();
    assert!(t.close());
    assert!(t.is_closed());
    assert!(matches!(t.write(b"x"), Err(Error::TerminalClosed)));
    assert!(matches!(t.write_str("x"), Err(Error::TerminalClosed)));
    assert!(matches!(t.resize(1, 1), Err(Error::TerminalClosed)));
    assert!(matches!(t.read(None), ReadStep::Failed(Error::TerminalClosed)));
    assert!(matches!(
        t.read(Some(Incoming::Frame(Frame::Binary(vec![1])))),
        ReadStep::Failed(Error::TerminalClosed)
    ));
}

#[test]
fn close_twice_owes_one_handshake() {
    let mut t = open_session();
    assert!(t.close());
    assert!(!t.close());
    assert!(t.is_closed());
}

#[test]
fn handshake_for_https_base_with_port() {
    let ep = Endpoint::new(&ClientConfig::new("https://host:8443", "tok"));
    let h = terminal_handshake(&ep, "abc", 100, 30).unwrap();
    assert_eq!(h.url, "wss://host:8443/ws/terminal/abc");
    assert_eq!(h.authorization, "Bearer tok");
    assert_eq!(h.host, "host");
    assert!(matches!(h.initial, Frame::Text(s) if s == "{\"type\":\"resize\",\"cols\":100,\"rows\":30}"));
}

#[test]
fn handshake_for_http_base_without_port() {
    let ep = Endpoint::new(&ClientConfig::new("http://host", "tok"));
    let h = terminal_handshake(&ep, "abc", rexec::DEFAULT_COLS, rexec::DEFAULT_ROWS).unwrap();
    assert_eq!(h.url, "ws://host/ws/terminal/abc");
    assert!(matches!(h.initial, Frame::Text(s) if s == "{\"type\":\"resize\",\"cols\":80,\"rows\":24}"));
}

#[test]
fn handshake_rejects_malformed_base_url() {
    let ep = Endpoint::new(&ClientConfig::new("not a url", "tok"));
    assert!(matches!(terminal_handshake(&ep, "abc", 80, 24), Err(Error::Connection(m)) if m.starts_with("invalid base URL: ")));
}

#[test]
fn handshake_rejects_base_url_without_host() {
    let ep = Endpoint::new(&ClientConfig::new("mailto:someone@example.com", "tok"));
    assert!(matches!(terminal_handshake(&ep, "abc", 80, 24), Err(Error::Connection(m)) if m == "Invalid host"));
}

#[test]
fn handshake_upgrade_headers() {
    let ep = Endpoint::new(&ClientConfig::new("https://host:8443", "tok"));
    let h = terminal_handshake(&ep, "abc", 80, 24).unwrap();
    let hs = h.headers("dGhlIHNhbXBsZSBub25jZQ==");
    let want: Vec<(String, String)> = vec![
        ("Authorization", "Bearer tok"),
        ("Host", "host"),
        ("Connection", "Upgrade"),
        ("Upgrade", "websocket"),
        ("Sec-WebSocket-Version", "13"),
        ("Sec-WebSocket-Key", "dGhlIHNhbXBsZSBub25jZQ=="),
    ]
    .into_iter()
    .map(|(k, v)| (k.to_string(), v.to_string()))
    .collect();
    assert_eq!(hs, want);
}

#[test]
fn read_skips_pongs_then_text_and_leaves_rest() {
    let mut t = open_session();
    let frames = vec![
        Incoming::Frame(Frame::Pong(vec![])),
        Incoming::Frame(Frame::Ping(vec![9])),
        Incoming::Frame(Frame::Text("ok".to_string())),
        Incoming::Frame(Frame::Binary(b"later".to_vec())),
    ];
    let (steps, used) = feed(&mut t, frames);
    assert_eq!(used, 3);
    assert!(matches!(&steps[0], ReadStep::Data(b) if b == b"ok"));
}

#[test]
fn read_skips_pings_then_close() {
    let mut t = open_session();
    let frames = vec![
        Incoming::Frame(Frame::Ping(vec![])),
        Incoming::Frame(Frame::Close),
    ];
    let (steps, used) = feed(&mut t, frames);
    assert_eq!(used, 2);
    assert!(matches!(&steps[0], ReadStep::EndOfStream));
    assert!(t.is_closed());
}
