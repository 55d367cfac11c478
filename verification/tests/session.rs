use std::cell::RefCell;
use std::collections::VecDeque;
use std::rc::Rc;

use wcferry::codec::{decode_request, encode_request, encode_response};
use wcferry::error::{Cause, Error};
use wcferry::transport::Socket;
use wcferry::wcf::request::Msg as Arg;
use wcferry::wcf::response::Msg as Reply;
use wcferry::wcf::{
    DbField, DbNames, DbRow, DbRows, DbTable, DbTables, Functions, MsgType, MsgTypes, Request,
    Response, RpcContact, RpcContacts, UserInfo, WxMsg,
};
use wcferry::wechat::{
    accept_new_friend, add_chatroom_members, decrypt_image, del_chatroom_members,
    disable_listen, enable_listen, exec_db_query, get_contacts, get_db_names, get_db_tables,
    get_msg_types, get_self_wx_id, get_user_info, is_login, recv_msg, recv_transfer,
    refresh_pyq, send_cmd, send_emotion, send_file, send_image, send_text, send_xml, start_args,
    stop, WeChat, DEFAULT_URL, LISTEN_URL,
};

/// What the peer does with the next message it is sent.
#[derive(Clone)]
enum Turn {
    /// Answers the request as a worker would.
    Serve,
    /// Answers with these bytes, whatever was asked.
    Say(Vec<u8>),
    /// Takes the message and stays silent.
    Silence,
    /// Refuses the message: the socket is closed.
    Closed,
}

#[derive(Default)]
struct Wire {
    url: Option<String>,
    recv_timeout: Option<u64>,
    send_timeout: Option<u64>,
    set_before_dial: bool,
    turns: VecDeque<Turn>,
    inbox: VecDeque<Vec<u8>>,
    sent: Vec<Vec<u8>>,
    closed: bool,
}

/// A peer in this process: a socket whose other end is played by a script.
#[derive(Clone)]
struct Peer {
    wire: Rc<RefCell<Wire>>,
}

impl Peer {
    fn with(turns: Vec<Turn>) -> Peer {
        let peer = Peer::create().unwrap();
        peer.wire.borrow_mut().turns = turns.into();
        peer
    }

    fn worker() -> Peer {
        Peer::with(vec![])
    }

    fn requests(&self) -> Vec<Request> {
        self.wire.borrow().sent.iter().map(|bytes| decode_request(bytes).unwrap()).collect()
    }

    fn closed(&self) -> bool {
        self.wire.borrow().closed
    }
}

fn pushed(id: u64, content: &str) -> WxMsg {
    WxMsg {
        is_self: false,
        is_group: false,
        id,
        type_: 1,
        ts: 1_688_000_000,
        roomid: String::new(),
        content: String::from(content),
        sender: String::from("wxid_friend"),
        sign: String::new(),
        thumb: String::new(),
        extra: String::new(),
        xml: String::new(),
    }
}

fn event(id: u64, content: &str) -> Vec<u8> {
    encode_response(&Response {
        func: Functions::FuncEnableRecvTxt.to_i32(),
        msg: Some(Reply::Wxmsg(pushed(id, content))),
    })
}

fn status(func: Functions, status: i32) -> Vec<u8> {
    encode_response(&Response { func: func.to_i32(), msg: Some(Reply::Status(status)) })
}

/// The answer of a worker that is logged in and does what it is asked.
fn serve(request: &Request) -> Response {
    let msg = match Functions::from_i32(request.func) {
        Some(Functions::FuncGetSelfWxid) => Some(Reply::Str(String::from("wxid_self"))),
        Some(Functions::FuncGetUserInfo) => Some(Reply::Ui(UserInfo {
            wxid: String::from("wxid_self"),
            name: String::from("Me"),
            mobile: String::from("13800000000"),
            home: String::from("C:\\WeChat Files\\"),
        })),
        Some(Functions::FuncGetContacts) => Some(Reply::Contacts(RpcContacts {
            contacts: vec![RpcContact {
                wxid: String::from("filehelper"),
                code: String::new(),
                remark: String::new(),
                name: String::from("File Transfer"),
                country: String::new(),
                province: String::new(),
                city: String::new(),
                gender: 0,
            }],
        })),
        Some(Functions::FuncGetDbNames) => Some(Reply::Dbs(DbNames {
            names: vec![String::from("MicroMsg.db"), String::from("MSG0.db")],
        })),
        Some(Functions::FuncGetDbTables) => match &request.msg {
            Some(Arg::Str(db)) if db == "MicroMsg.db" => Some(Reply::Tables(DbTables {
                tables: vec![DbTable {
                    name: String::from("Contact"),
                    sql: String::from("CREATE TABLE Contact(UserName TEXT)"),
                }],
            })),
            _ => Some(Reply::Tables(DbTables { tables: vec![] })),
        },
        Some(Functions::FuncExecDbQuery) => Some(Reply::Rows(DbRows {
            rows: vec![DbRow {
                fields: vec![DbField {
                    type_: 3,
                    column: String::from("UserName"),
                    content: b"filehelper".to_vec(),
                }],
            }],
        })),
        Some(Functions::FuncGetMsgTypes) => Some(Reply::Types(MsgTypes {
            types: vec![
                MsgType { key: 1, value: String::from("text") },
                MsgType { key: 3, value: String::from("picture") },
            ],
        })),
        Some(Functions::FuncRefreshPyq) => Some(Reply::Status(0)),
        Some(Functions::FuncReserved) | None => None,
        Some(_) => Some(Reply::Status(1)),
    };
    Response { func: request.func, msg }
}

impl Socket for Peer {
    fn create() -> Option<Self> {
        Some(Peer { wire: Rc::new(RefCell::new(Wire::default())) })
    }

    fn set_recv_timeout(&mut self, millis: u64) -> bool {
        let mut wire = self.wire.borrow_mut();
        wire.recv_timeout = Some(millis);
        wire.set_before_dial = wire.url.is_none();
        true
    }

    fn set_send_timeout(&mut self, millis: u64) -> bool {
        let mut wire = self.wire.borrow_mut();
        wire.send_timeout = Some(millis);
        wire.set_before_dial = wire.set_before_dial && wire.url.is_none();
        true
    }

    /// The address says who is there: nobody at `mock://nobody`, a peer
    /// that pushes three messages, something else and then nothing at
    /// `mock://events`, and a silent peer anywhere else.
    fn dial(&mut self, url: &str) -> bool {
        if url == "mock://nobody" {
            return false;
        }
        let mut wire = self.wire.borrow_mut();
        wire.url = Some(String::from(url));
        if url == "mock://events" {
            wire.inbox.push_back(event(1, "one"));
            wire.inbox.push_back(event(2, "two"));
            wire.inbox.push_back(event(3, "three"));
            wire.inbox.push_back(status(Functions::FuncIsLogin, 1));
        }
        true
    }

    fn send(&mut self, bytes: &[u8]) -> bool {
        let mut wire = self.wire.borrow_mut();
        if wire.closed {
            return false;
        }
        let turn = wire.turns.pop_front().unwrap_or(Turn::Serve);
        match turn {
            Turn::Closed => return false,
            Turn::Silence => {}
            Turn::Say(reply) => wire.inbox.push_back(reply),
            Turn::Serve => match decode_request(bytes) {
                Ok(request) => wire.inbox.push_back(encode_response(&serve(&request))),
                Err(_) => {}
            },
        }
        wire.sent.push(bytes.to_vec());
        true
    }

    fn recv(&mut self) -> Option<Vec<u8>> {
        let mut wire = self.wire.borrow_mut();
        if wire.closed {
            return None;
        }
        wire.inbox.pop_front()
    }

    fn close(&mut self) {
        self.wire.borrow_mut().closed = true;
    }
}

fn session(socket: Peer) -> WeChat<Peer> {
    WeChat {
        url: String::from(DEFAULT_URL),
        listen_url: String::from("mock://events"),
        wcf_path: String::from("lib/wcf.exe"),
        debug: false,
        socket,
        listening: false,
        enable_accept_firend: false,
        listener: None,
    }
}

#[test]
fn new_session_dials_the_default_address_with_both_timeouts() {
    let wechat: WeChat<Peer> = WeChat::new(true, String::from("lib/wcf.exe")).unwrap();
    assert_eq!(wechat.url, "tcp://127.0.0.1:10086");
    assert_eq!(wechat.listen_url, "tcp://127.0.0.1:10087");
    assert_eq!(wechat.url, DEFAULT_URL);
    assert_eq!(wechat.listen_url, LISTEN_URL);
    assert_eq!(wechat.wcf_path, "lib/wcf.exe");
    assert!(wechat.debug);
    assert!(!wechat.listening);
    assert!(!wechat.enable_accept_firend);
    assert!(wechat.listener.is_none());
    let wire = wechat.socket.wire.borrow();
    assert_eq!(wire.url.as_deref(), Some(DEFAULT_URL));
    assert_eq!(wire.recv_timeout, Some(5000));
    assert_eq!(wire.send_timeout, Some(5000));
    assert!(wire.set_before_dial);
}

#[test]
fn session_can_be_opened_at_other_addresses() {
    let wechat: WeChat<Peer> = WeChat::open(
        String::from("tcp://127.0.0.1:20086"),
        String::from("mock://events"),
        false,
        String::from("wcf.exe"),
    )
    .unwrap();
    assert_eq!(wechat.url, "tcp://127.0.0.1:20086");
    assert_eq!(wechat.listen_url, "mock://events");
    assert_eq!(wechat.socket.wire.borrow().url.as_deref(), Some("tcp://127.0.0.1:20086"));
    assert!(matches!(
        WeChat::<Peer>::open(String::from("mock://nobody"), String::new(), false, String::new()),
        Err(Error::ConnectFailed)
    ));
}

#[test]
fn start_args_name_the_port_and_the_debugging() {
    assert_eq!(start_args(false), vec!["start", "10086"]);
    assert_eq!(start_args(true), vec!["start", "10086", "debug"]);
}

#[test]
fn login_status_of_a_peer_that_says_true_is_true() {
    let peer = Peer::with(vec![Turn::Say(status(Functions::FuncIsLogin, 1))]);
    let mut wechat = session(peer.clone());
    assert_eq!(is_login(&mut wechat), Ok(true));
    assert_eq!(peer.requests(), vec![Request { func: 1, msg: None }]);
    assert_eq!(peer.wire.borrow().sent, vec![vec![0x08, 0x01]]);
}

#[test]
fn login_status_is_false_for_any_other_answer() {
    for reply in [
        Some(Reply::Status(0)),
        Some(Reply::Status(2)),
        Some(Reply::Status(-1)),
        Some(Reply::Str(String::from("1"))),
        Some(Reply::Dbs(DbNames { names: vec![] })),
        None,
    ] {
        let bytes = encode_response(&Response { func: 1, msg: reply });
        let mut wechat = session(Peer::with(vec![Turn::Say(bytes)]));
        assert_eq!(is_login(&mut wechat), Ok(false));
    }
}

#[test]
fn send_fails_when_the_peer_closes_and_the_session_goes_on() {
    let peer = Peer::with(vec![Turn::Silence, Turn::Serve]);
    let mut wechat = session(peer.clone());
    let sent = send_text(
        &mut wechat,
        String::from("Hello, wcferry!"),
        String::from("filehelper"),
        String::new(),
    );
    assert_eq!(sent, Err(Error::CommunicationFailed(Cause::RecvFailed)));
    assert!(!wechat.listening);
    assert_eq!(is_login(&mut wechat), Ok(true));
    assert_eq!(peer.requests().len(), 2);
}

#[test]
fn each_leg_of_a_round_trip_fails_by_its_own_name() {
    let mut wechat = session(Peer::with(vec![Turn::Closed]));
    assert_eq!(is_login(&mut wechat), Err(Error::CommunicationFailed(Cause::SendFailed)));
    let mut wechat = session(Peer::with(vec![Turn::Silence]));
    assert_eq!(is_login(&mut wechat), Err(Error::CommunicationFailed(Cause::RecvFailed)));
    let mut wechat = session(Peer::with(vec![Turn::Say(vec![0x08])]));
    assert_eq!(
        is_login(&mut wechat),
        Err(Error::CommunicationFailed(Cause::SerializationFailed))
    );
}

#[test]
fn a_failed_call_is_not_tried_again() {
    let peer = Peer::with(vec![Turn::Silence, Turn::Serve]);
    let mut wechat = session(peer.clone());
    assert!(get_self_wx_id(&mut wechat).is_err());
    assert_eq!(peer.requests().len(), 1);
}

#[test]
fn send_cmd_hands_back_the_payload_of_the_response() {
    let mut wechat = session(Peer::worker());
    let request = Request { func: Functions::FuncGetSelfWxid.to_i32(), msg: None };
    assert_eq!(send_cmd(&mut wechat, request), Ok(Some(Reply::Str(String::from("wxid_self")))));
    let request = Request { func: 0, msg: None };
    assert_eq!(send_cmd(&mut wechat, request), Ok(None));
}

#[test]
fn subscription_yields_three_events_then_nothing() {
    let mut wechat = session(Peer::worker());
    let mut client = enable_listen(&mut wechat).unwrap();
    assert_eq!(recv_msg(&mut client), Ok(Some(pushed(1, "one"))));
    assert_eq!(recv_msg(&mut client), Ok(Some(pushed(2, "two"))));
    assert_eq!(recv_msg(&mut client), Ok(Some(pushed(3, "three"))));
    assert_eq!(recv_msg(&mut client), Ok(None));
    assert_eq!(recv_msg(&mut client), Ok(None));
    assert_eq!(recv_msg(&mut client), Ok(None));
}

#[test]
fn poll_refuses_bytes_that_are_no_response() {
    let mut client = Peer::worker();
    client.wire.borrow_mut().inbox.push_back(vec![0x1a, 0x02, 0xc3, 0x28]);
    client.wire.borrow_mut().inbox.push_back(event(9, "after"));
    assert_eq!(recv_msg(&mut client), Err(Error::MalformedMessage));
    assert_eq!(recv_msg(&mut client), Ok(Some(pushed(9, "after"))));
}

#[test]
fn poll_of_a_closed_socket_is_no_event() {
    let mut client = Peer::worker();
    client.wire.borrow_mut().inbox.push_back(event(1, "lost"));
    client.close();
    assert_eq!(recv_msg(&mut client), Ok(None));
}

#[test]
fn enable_asks_the_worker_and_dials_with_both_timeouts() {
    let peer = Peer::worker();
    let mut wechat = session(peer.clone());
    let client = enable_listen(&mut wechat).unwrap();
    assert!(wechat.listening);
    assert!(wechat.listener.is_some());
    assert_eq!(
        peer.requests(),
        vec![Request { func: 0x30, msg: Some(Arg::Flag(true)) }]
    );
    let wire = client.wire.borrow();
    assert_eq!(wire.url.as_deref(), Some("mock://events"));
    assert_eq!(wire.recv_timeout, Some(5000));
    assert_eq!(wire.send_timeout, Some(5000));
    assert!(wire.set_before_dial);
}

#[test]
fn enable_twice_is_refused_and_leaves_the_first_subscription_usable() {
    let peer = Peer::worker();
    let mut wechat = session(peer.clone());
    let mut client = enable_listen(&mut wechat).unwrap();
    assert_eq!(recv_msg(&mut client), Ok(Some(pushed(1, "one"))));
    assert!(matches!(enable_listen(&mut wechat), Err(Error::AlreadySubscribed)));
    assert!(wechat.listening);
    assert!(!client.closed());
    assert_eq!(peer.requests().len(), 1);
    assert_eq!(recv_msg(&mut client), Ok(Some(pushed(2, "two"))));
    assert_eq!(recv_msg(&mut client), Ok(Some(pushed(3, "three"))));
}

#[test]
fn enable_fails_when_the_worker_does_not_confirm() {
    let silent = encode_response(&Response { func: 0x30, msg: None });
    let peer = Peer::with(vec![Turn::Say(silent)]);
    let mut wechat = session(peer.clone());
    assert!(matches!(enable_listen(&mut wechat), Err(Error::RemoteFailed)));
    assert!(!wechat.listening);
    assert!(wechat.listener.is_none());

    let mut wechat = session(Peer::with(vec![Turn::Silence]));
    assert!(matches!(
        enable_listen(&mut wechat),
        Err(Error::CommunicationFailed(Cause::RecvFailed))
    ));
    assert!(!wechat.listening);
}

#[test]
fn enable_rolls_the_worker_back_when_the_dial_fails() {
    let peer = Peer::worker();
    let mut wechat = session(peer.clone());
    wechat.listen_url = String::from("mock://nobody");
    assert!(matches!(enable_listen(&mut wechat), Err(Error::ConnectFailed)));
    assert!(!wechat.listening);
    assert!(wechat.listener.is_none());
    assert_eq!(
        peer.requests(),
        vec![
            Request { func: 0x30, msg: Some(Arg::Flag(true)) },
            Request { func: 0x40, msg: None },
        ]
    );
    wechat.listen_url = String::from("mock://events");
    assert!(enable_listen(&mut wechat).is_ok());
}

#[test]
fn disable_without_subscription_does_nothing_and_succeeds() {
    let peer = Peer::worker();
    let mut wechat = session(peer.clone());
    assert_eq!(disable_listen(&mut wechat), Ok(true));
    assert_eq!(disable_listen(&mut wechat), Ok(true));
    assert!(!wechat.listening);
    assert!(peer.requests().is_empty());
    assert!(!peer.closed());
}

#[test]
fn disable_closes_the_subscription_and_tells_the_worker() {
    let peer = Peer::worker();
    let mut wechat = session(peer.clone());
    let mut client = enable_listen(&mut wechat).unwrap();
    assert_eq!(disable_listen(&mut wechat), Ok(true));
    assert!(!wechat.listening);
    assert!(wechat.listener.is_none());
    assert!(client.closed());
    assert_eq!(recv_msg(&mut client), Ok(None));
    assert_eq!(peer.requests().last(), Some(&Request { func: 0x40, msg: None }));
    assert!(!peer.closed());
}

#[test]
fn disable_unsubscribes_even_when_the_worker_does_not_answer() {
    let peer = Peer::with(vec![Turn::Serve, Turn::Silence]);
    let mut wechat = session(peer.clone());
    let client = enable_listen(&mut wechat).unwrap();
    assert_eq!(
        disable_listen(&mut wechat),
        Err(Error::CommunicationFailed(Cause::RecvFailed))
    );
    assert!(!wechat.listening);
    assert!(wechat.listener.is_none());
    assert!(client.closed());
    assert_eq!(disable_listen(&mut wechat), Ok(true));
    assert!(enable_listen(&mut wechat).is_ok());

    let peer = Peer::with(vec![Turn::Serve, Turn::Say(vec![])]);
    let mut wechat = session(peer);
    let client = enable_listen(&mut wechat).unwrap();
    assert_eq!(disable_listen(&mut wechat), Err(Error::RemoteFailed));
    assert!(!wechat.listening);
    assert!(client.closed());
}

#[test]
fn stop_unsubscribes_and_closes_both_sockets() {
    let peer = Peer::worker();
    let mut wechat = session(peer.clone());
    let client = enable_listen(&mut wechat).unwrap();
    stop(&mut wechat);
    assert!(!wechat.listening);
    assert!(wechat.listener.is_none());
    assert!(client.closed());
    assert!(peer.closed());
    assert_eq!(peer.requests().last(), Some(&Request { func: 0x40, msg: None }));
}

#[test]
fn operations_send_the_request_of_their_function() {
    let peer = Peer::worker();
    let mut wechat = session(peer.clone());
    let s = |text: &str| String::from(text);
    assert_eq!(get_db_tables(&mut wechat, s("MicroMsg.db")).unwrap().len(), 1);
    assert_eq!(get_db_tables(&mut wechat, s("other.db")).unwrap().len(), 0);
    assert_eq!(send_file(&mut wechat, s("C:\\a.txt"), s("filehelper")), Ok(true));
    assert_eq!(send_emotion(&mut wechat, s("C:\\a.gif"), s("filehelper")), Ok(true));
    assert_eq!(send_xml(&mut wechat, s("<x/>"), s("C:\\p.jpg"), s("filehelper"), 33), Ok(true));
    assert_eq!(refresh_pyq(5, &mut wechat), Ok(true));
    let sent = peer.requests();
    assert_eq!(
        encode_request(&sent[0]),
        encode_request(&Request { func: 0x14, msg: Some(Arg::Str(s("MicroMsg.db"))) })
    );
    assert_eq!(sent[2].func, 0x22);
    assert_eq!(sent[3].func, 0x24);
    assert_eq!(sent[4].func, 0x23);
    match &sent[4].msg {
        Some(Arg::Xml(xml)) => {
            assert_eq!(xml.content, "<x/>");
            assert_eq!(xml.path, "C:\\p.jpg");
            assert_eq!(xml.receiver, "filehelper");
            assert_eq!(xml.type_, 33);
        }
        other => panic!("{:?}", other),
    }
    assert_eq!(sent[5], Request { func: 0x53, msg: Some(Arg::Ui64(5)) });
}

#[test]
fn refresh_is_refused_by_the_status_minus_one_alone() {
    for (code, expected) in [(-1, false), (0, true), (1, true), (2, true), (i32::MIN, true)] {
        let mut wechat = session(Peer::with(vec![Turn::Say(status(Functions::FuncRefreshPyq, code))]));
        assert_eq!(refresh_pyq(0, &mut wechat), Ok(expected));
    }
    let text = encode_response(&Response { func: 0x53, msg: Some(Reply::Str(String::from("0"))) });
    let mut wechat = session(Peer::with(vec![Turn::Say(text)]));
    assert_eq!(refresh_pyq(0, &mut wechat), Ok(false));
}

#[test]
fn text_and_picture_are_sent_when_the_worker_answers_with_a_status() {
    let s = |text: &str| String::from(text);
    for code in [0, 1, -1, 7] {
        let answer = status(Functions::FuncSendTxt, code);
        let mut wechat = session(Peer::with(vec![Turn::Say(answer.clone()), Turn::Say(answer)]));
        assert_eq!(send_text(&mut wechat, s("m"), s("r"), s("")), Ok(true));
        assert_eq!(send_image(&mut wechat, s("p"), s("r")), Ok(true));
    }
    let none = encode_response(&Response { func: 0x20, msg: None });
    let mut wechat = session(Peer::with(vec![Turn::Say(none.clone()), Turn::Say(none)]));
    assert_eq!(send_text(&mut wechat, s("m"), s("r"), s("")), Ok(false));
    assert_eq!(send_image(&mut wechat, s("p"), s("r")), Ok(false));
}

#[test]
fn text_is_not_sent_where_the_worker_answers_with_a_text() {
    let answer = encode_response(&Response {
        func: Functions::FuncSendTxt.to_i32(),
        msg: Some(Reply::Str(String::from("x"))),
    });
    let mut wechat = session(Peer::with(vec![Turn::Say(answer)]));
    let sent = send_text(&mut wechat, String::from("a"), String::from("b"), String::new());
    assert_eq!(sent, Ok(false));
}

#[test]
fn text_and_picture_are_not_sent_on_an_answer_of_another_shape() {
    let s = |text: &str| String::from(text);
    let others = [
        Reply::Str(s("ok")),
        Reply::Dbs(DbNames { names: vec![s("a.db")] }),
        Reply::Ui(UserInfo { wxid: s("w"), name: s("n"), mobile: s("m"), home: s("h") }),
        Reply::Contacts(RpcContacts { contacts: vec![] }),
        Reply::Tables(DbTables { tables: vec![] }),
        Reply::Rows(DbRows { rows: vec![] }),
        Reply::Types(MsgTypes { types: vec![] }),
        Reply::Wxmsg(pushed(1, "one")),
    ];
    for other in others {
        let answer = encode_response(&Response { func: 0x20, msg: Some(other) });
        let mut wechat = session(Peer::with(vec![Turn::Say(answer.clone()), Turn::Say(answer)]));
        assert_eq!(send_text(&mut wechat, s("m"), s("r"), s("")), Ok(false));
        assert_eq!(send_image(&mut wechat, s("p"), s("r")), Ok(false));
    }
}

#[test]
fn answers_of_another_shape_give_the_default() {
    let other = status(Functions::FuncIsLogin, 1);
    let turns = vec![Turn::Say(other); 7];
    let mut wechat = session(Peer::with(turns));
    assert_eq!(get_self_wx_id(&mut wechat), Ok(None));
    assert!(get_user_info(&mut wechat).unwrap().is_none());
    assert_eq!(get_contacts(&mut wechat), Ok(None));
    assert_eq!(get_db_names(&mut wechat), Ok(vec![]));
    assert_eq!(get_db_tables(&mut wechat, String::from("db")), Ok(vec![]));
    assert_eq!(exec_db_query(&mut wechat, String::from("db"), String::from("sql")), Ok(vec![]));
    assert!(get_msg_types(&mut wechat).unwrap().is_empty());
}

#[test]
fn test_start_stop() {
    let mut wechat: WeChat<Peer> = WeChat::new(false, String::from("lib/wcf.exe")).unwrap();
    let socket = wechat.socket.clone();
    stop(&mut wechat);
    assert!(socket.closed());
}

#[test]
fn test_is_login() {
    let mut wechat = session(Peer::worker());
    let is_login = is_login(&mut wechat).unwrap();
    println!("IsLogin: {}", is_login);
    assert!(is_login);
}

#[test]
fn test_get_self_wx_id() {
    let mut wechat = session(Peer::worker());
    let wx_id = get_self_wx_id(&mut wechat).unwrap().unwrap();
    println!("WxId: {}", wx_id);
    assert_eq!(wx_id, "wxid_self");
}

#[test]
fn test_get_contacts() {
    let mut wechat = session(Peer::worker());
    let contacts = get_contacts(&mut wechat).unwrap().unwrap();
    println!("WxId: {:?}", contacts);
    assert_eq!(contacts.contacts.len(), 1);
    assert_eq!(contacts.contacts[0].wxid, "filehelper");
}

#[test]
fn test_send_text() {
    let peer = Peer::worker();
    let mut wechat = session(peer.clone());
    let status = send_text(
        &mut wechat,
        String::from("Hello, wcferry!"),
        String::from("filehelper"),
        String::from(""),
    )
    .unwrap();
    println!("Success: {}", status);
    assert!(status);
    match &peer.requests()[0].msg {
        Some(Arg::Txt(text)) => {
            assert_eq!(text.msg, "Hello, wcferry!");
            assert_eq!(text.receiver, "filehelper");
            assert_eq!(text.aters, "");
        }
        other => panic!("{:?}", other),
    }
}

#[test]
fn test_send_image() {
    let peer = Peer::worker();
    let mut wechat = session(peer.clone());
    let status = send_image(
        &mut wechat,
        String::from("C:\\Users\\Administrator\\Pictures\\1.jpg"),
        String::from("filehelper"),
    )
    .unwrap();
    println!("Success: {}", status);
    assert!(status);
    match &peer.requests()[0] {
        Request { func: 0x21, msg: Some(Arg::File(file)) } => {
            assert_eq!(file.path, "C:\\Users\\Administrator\\Pictures\\1.jpg");
            assert_eq!(file.receiver, "filehelper");
        }
        other => panic!("{:?}", other),
    }
}

#[test]
fn test_recv_msg() {
    let mut wechat = session(Peer::worker());
    let mut socket = enable_listen(&mut wechat).unwrap();
    let mut seen = 0;
    for _index in 0..5 {
        let _ = refresh_pyq(0, &mut wechat);
        let msg = recv_msg(&mut socket).unwrap();
        println!("WxMsg: {:?}", msg);
        println!("--------------------------------------------------");
        if msg.is_some() {
            seen += 1;
        }
    }
    let _ = disable_listen(&mut wechat);
    assert_eq!(seen, 3);
    assert!(!wechat.listening);
}

#[test]
fn test_get_msg_types() {
    let mut wechat = session(Peer::worker());
    let types = get_msg_types(&mut wechat);
    println!("{:?}", types);
    let types = types.unwrap();
    assert_eq!(types.len(), 2);
    assert_eq!(types[&1], "text");
    assert_eq!(types[&3], "picture");
}

#[test]
fn test_accept_new_friend() {
    let peer = Peer::worker();
    let mut wechat = session(peer.clone());
    let v3 = String::from("v3_020b3826fd03010000000000d65613e9435fd2000000501ea9a3dba12f95f6b60a0536a1adb6b4e20a513856625d11892e0635fe745d9c7ee96937f341a860c34107c6417414e5b41e427fc3d26a6af2590a1f@stranger");
    let v4 = String::from("v4_000b708f0b0400000100000000003c3767b326120d5b5795b98031641000000050ded0b020927e3c97896a09d47e6e9eac7eea28e4a39b49644b3b702b82268c1d40370261e3ae6eb543d231fbd29ee7a326598ba810316c10171871103ad967ca4d147d9f6dd8fa5ccd4986042520a1173c8138e5afe21f795ee50fecf58b4ac5269acd80028627dbf65fd17ca57c0e479fbe0392288a6f42@stranger");
    let status = accept_new_friend(v3.clone(), v4.clone(), 17, &mut wechat).unwrap();
    println!("Status: {}", status);
    assert!(status);
    match &peer.requests()[0] {
        Request { func: 0x51, msg: Some(Arg::V(v)) } => {
            assert_eq!(v.v3, v3);
            assert_eq!(v.v4, v4);
            assert_eq!(v.scene, 17);
        }
        other => panic!("{:?}", other),
    }
}

#[test]
fn test_add_chatroom_members() {
    let peer = Peer::worker();
    let mut wechat = session(peer.clone());
    let status =
        add_chatroom_members(String::from("*****@chatroom"), String::from("****"), &mut wechat)
            .unwrap();
    println!("Status: {}", status);
    assert!(status);
    match &peer.requests()[0] {
        Request { func: 0x70, msg: Some(Arg::M(m)) } => {
            assert_eq!(m.roomid, "*****@chatroom");
            assert_eq!(m.wxids, "****");
        }
        other => panic!("{:?}", other),
    }
}

#[test]
fn test_del_chatroom_members() {
    let peer = Peer::worker();
    let mut wechat = session(peer.clone());
    let status = del_chatroom_members(
        String::from("34476879773@chatroom"),
        String::from("*******"),
        &mut wechat,
    )
    .unwrap();
    println!("Status: {}", status);
    assert!(status);
    match &peer.requests()[0] {
        Request { func: 0x71, msg: Some(Arg::M(m)) } => {
            assert_eq!(m.roomid, "34476879773@chatroom");
            assert_eq!(m.wxids, "*******");
        }
        other => panic!("{:?}", other),
    }
}

#[test]
fn test_get_user_info() {
    let mut wechat = session(Peer::worker());
    let user_info = get_user_info(&mut wechat).unwrap();
    println!("UserInfo: {:?}", user_info);
    let user_info = user_info.unwrap();
    assert_eq!(user_info.wxid, "wxid_self");
    assert_eq!(user_info.name, "Me");
    assert_eq!(user_info.mobile, "13800000000");
    assert_eq!(user_info.home, "C:\\WeChat Files\\");
}

#[test]
fn test_recv_transfer() {
    let peer = Peer::worker();
    let mut wechat = session(peer.clone());
    let status = recv_transfer(
        String::from("****"),
        String::from("1000050001202306300415889890620"),
        String::from("100005000123063000081247810011296088"),
        &mut wechat,
    )
    .unwrap();
    println!("Status: {}", status);
    assert!(status);
    match &peer.requests()[0] {
        Request { func: 0x52, msg: Some(Arg::Tf(tf)) } => {
            assert_eq!(tf.wxid, "****");
            assert_eq!(tf.tfid, "1000050001202306300415889890620");
            assert_eq!(tf.taid, "100005000123063000081247810011296088");
        }
        other => panic!("{:?}", other),
    }
}

#[test]
fn test_decrypt_image() {
    let peer = Peer::worker();
    let mut wechat = session(peer.clone());
    let status = decrypt_image(
        String::from("C:\\Users\\Administrator\\Documents\\WeChat Files\\****\\FileStorage\\MsgAttach\\c963b851e0578c320c2966c6fc49e35c\\Image\\2023-05\\c66044e188c64452e236e53eff73324b.dat"),
        String::from("C:\\foo"),
        &mut wechat,
    )
    .unwrap();
    println!("Status: {}", status);
    assert!(status);
    match &peer.requests()[0] {
        Request { func: 0x60, msg: Some(Arg::Dec(dec)) } => {
            assert!(dec.src.ends_with("c66044e188c64452e236e53eff73324b.dat"));
            assert_eq!(dec.dst, "C:\\foo");
        }
        other => panic!("{:?}", other),
    }
}
