use wcferry::codec::encode_response;
use wcferry::dispatch::{
    accepted, conclude, confirmed, read_event, reported, take_contacts, take_event, take_names,
    take_rows, take_tables, take_text, take_types, take_user_info,
};
use wcferry::error::{Cause, Error};
use wcferry::transport::TransportError;
use wcferry::wcf::response::Msg;
use wcferry::wcf::{
    DbField, DbNames, DbRow, DbRows, DbTable, DbTables, MsgType, MsgTypes, Response, RpcContact,
    RpcContacts, UserInfo, WxMsg,
};
use wcferry::wechat::user_info;

fn message(id: u64) -> WxMsg {
    WxMsg {
        is_self: false,
        is_group: true,
        id,
        type_: 1,
        ts: 1,
        roomid: String::from("1@chatroom"),
        content: String::from("c"),
        sender: String::from("s"),
        sign: String::new(),
        thumb: String::new(),
        extra: String::new(),
        xml: String::new(),
    }
}

fn account() -> UserInfo {
    UserInfo {
        wxid: String::from("wxid_self"),
        name: String::from("Me"),
        mobile: String::from("138"),
        home: String::from("C:\\"),
    }
}

fn contacts() -> RpcContacts {
    RpcContacts {
        contacts: vec![RpcContact {
            wxid: String::from("a"),
            code: String::from("b"),
            remark: String::from("c"),
            name: String::from("d"),
            country: String::from("e"),
            province: String::from("f"),
            city: String::from("g"),
            gender: 2,
        }],
    }
}

fn tables() -> Vec<DbTable> {
    vec![
        DbTable { name: String::from("t1"), sql: String::from("s1") },
        DbTable { name: String::from("t2"), sql: String::from("s2") },
    ]
}

fn rows() -> Vec<DbRow> {
    vec![DbRow {
        fields: vec![DbField { type_: 1, column: String::from("n"), content: vec![1, 2] }],
    }]
}

fn types() -> MsgTypes {
    MsgTypes {
        types: vec![
            MsgType { key: 1, value: String::from("first") },
            MsgType { key: 49, value: String::from("link") },
            MsgType { key: 1, value: String::from("text") },
        ],
    }
}

/// One payload of each variant, and none.
fn every_payload() -> Vec<Option<Msg>> {
    vec![
        None,
        Some(Msg::Status(1)),
        Some(Msg::Str(String::from("wxid_self"))),
        Some(Msg::Wxmsg(message(1))),
        Some(Msg::Types(types())),
        Some(Msg::Contacts(contacts())),
        Some(Msg::Dbs(DbNames { names: vec![String::from("a.db"), String::from("b.db")] })),
        Some(Msg::Tables(DbTables { tables: tables() })),
        Some(Msg::Rows(DbRows { rows: rows() })),
        Some(Msg::Ui(account())),
    ]
}

#[test]
fn conclude_hands_back_the_payload_of_the_reply() {
    for payload in every_payload() {
        let bytes = encode_response(&Response { func: 1, msg: payload.clone() });
        assert_eq!(conclude(Ok(bytes)), Ok(payload));
    }
}

#[test]
fn conclude_names_the_part_that_broke() {
    assert_eq!(
        conclude(Err(TransportError::SendFailed)),
        Err(Error::CommunicationFailed(Cause::SendFailed))
    );
    assert_eq!(
        conclude(Err(TransportError::RecvFailed)),
        Err(Error::CommunicationFailed(Cause::RecvFailed))
    );
    assert_eq!(conclude(Err(TransportError::ConnectFailed)), Err(Error::ConnectFailed));
    assert_eq!(
        conclude(Ok(vec![0x10])),
        Err(Error::CommunicationFailed(Cause::SerializationFailed))
    );
    assert_eq!(
        conclude(Ok(vec![0x1a, 0x01, 0xff])),
        Err(Error::CommunicationFailed(Cause::SerializationFailed))
    );
    assert_eq!(conclude(Ok(vec![])), Ok(None));
}

#[test]
fn confirmed_is_the_status_one() {
    assert!(confirmed(&Some(Msg::Status(1))));
    for status in [0, -1, 2, i32::MAX, i32::MIN] {
        assert!(!confirmed(&Some(Msg::Status(status))));
    }
}

#[test]
fn accepted_is_any_status_but_minus_one() {
    assert!(!accepted(&Some(Msg::Status(-1))));
    for status in [0, 1, 2, -2, i32::MAX, i32::MIN] {
        assert!(accepted(&Some(Msg::Status(status))));
    }
}

#[test]
fn reported_is_any_status_and_nothing_else() {
    for status in [1, 0, -1, 2, i32::MAX, i32::MIN] {
        assert!(reported(&Some(Msg::Status(status))));
    }
    for payload in every_payload() {
        assert_eq!(reported(&payload), matches!(payload, Some(Msg::Status(_))));
    }
}

#[test]
fn expected_payloads_are_handed_back() {
    assert_eq!(
        take_text(Some(Msg::Str(String::from("wxid_self")))),
        Some(String::from("wxid_self"))
    );
    assert_eq!(take_text(Some(Msg::Str(String::new()))), Some(String::new()));
    assert_eq!(take_user_info(Some(Msg::Ui(account()))), Some(account()));
    assert_eq!(take_contacts(Some(Msg::Contacts(contacts()))), Some(contacts()));
    assert_eq!(
        take_names(Some(Msg::Dbs(DbNames { names: vec![String::from("a"), String::from("b")] }))),
        vec![String::from("a"), String::from("b")]
    );
    assert_eq!(take_tables(Some(Msg::Tables(DbTables { tables: tables() }))), tables());
    assert_eq!(take_rows(Some(Msg::Rows(DbRows { rows: rows() }))), rows());
    assert_eq!(take_event(Some(Msg::Wxmsg(message(4)))), Some(message(4)));
}

#[test]
fn payloads_of_another_variant_give_the_default() {
    for payload in every_payload() {
        if !matches!(payload, Some(Msg::Status(_))) {
            assert!(!confirmed(&payload));
            assert!(!accepted(&payload));
            assert!(!reported(&payload));
        }
        if !matches!(payload, Some(Msg::Str(_))) {
            assert_eq!(take_text(payload.clone()), None);
        }
        if !matches!(payload, Some(Msg::Ui(_))) {
            assert_eq!(take_user_info(payload.clone()), None);
            assert!(user_info(take_user_info(payload.clone())).is_none());
        }
        if !matches!(payload, Some(Msg::Contacts(_))) {
            assert_eq!(take_contacts(payload.clone()), None);
        }
        if !matches!(payload, Some(Msg::Dbs(_))) {
            assert_eq!(take_names(payload.clone()), Vec::<String>::new());
        }
        if !matches!(payload, Some(Msg::Tables(_))) {
            assert_eq!(take_tables(payload.clone()), vec![]);
        }
        if !matches!(payload, Some(Msg::Rows(_))) {
            assert_eq!(take_rows(payload.clone()), vec![]);
        }
        if !matches!(payload, Some(Msg::Types(_))) {
            assert!(take_types(payload.clone()).is_empty());
        }
        if !matches!(payload, Some(Msg::Wxmsg(_))) {
            assert_eq!(take_event(payload.clone()), None);
        }
    }
}

#[test]
fn of_two_names_for_one_type_the_later_stands() {
    let names = take_types(Some(Msg::Types(types())));
    assert_eq!(names.len(), 2);
    assert_eq!(names[&1], "text");
    assert_eq!(names[&49], "link");
    assert!(take_types(Some(Msg::Types(MsgTypes { types: vec![] }))).is_empty());
}

#[test]
fn account_keeps_its_members() {
    let user = user_info(Some(account())).unwrap();
    assert_eq!(user.wxid, "wxid_self");
    assert_eq!(user.name, "Me");
    assert_eq!(user.mobile, "138");
    assert_eq!(user.home, "C:\\");
    assert!(user_info(None).is_none());
}

#[test]
fn poll_yields_pushed_messages_and_passes_over_the_rest() {
    let received: Vec<Option<Vec<u8>>> = vec![
        Some(encode_response(&Response { func: 0x30, msg: Some(Msg::Wxmsg(message(1))) })),
        Some(encode_response(&Response { func: 0x30, msg: Some(Msg::Wxmsg(message(2))) })),
        Some(encode_response(&Response { func: 0x30, msg: Some(Msg::Wxmsg(message(3))) })),
        Some(encode_response(&Response { func: 0x01, msg: Some(Msg::Status(1)) })),
        None,
    ];
    let events: Vec<Result<Option<WxMsg>, Error>> = received.into_iter().map(read_event).collect();
    assert_eq!(
        events,
        vec![Ok(Some(message(1))), Ok(Some(message(2))), Ok(Some(message(3))), Ok(None), Ok(None)]
    );
}

#[test]
fn poll_passes_over_every_payload_but_a_pushed_message() {
    for payload in every_payload() {
        let expected = match &payload {
            Some(Msg::Wxmsg(m)) => Some(m.clone()),
            _ => None,
        };
        let bytes = encode_response(&Response { func: 0, msg: payload });
        assert_eq!(read_event(Some(bytes)), Ok(expected));
    }
}

#[test]
fn poll_refuses_malformed_bytes() {
    assert_eq!(read_event(Some(vec![0x22, 0x05, 0x08])), Err(Error::MalformedMessage));
    assert_eq!(read_event(Some(vec![0xff])), Err(Error::MalformedMessage));
    assert_eq!(read_event(Some(vec![])), Ok(None));
    assert_eq!(read_event(None), Ok(None));
}
