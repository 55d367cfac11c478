use prost::encoding::{DecodeContext, WireType};
use prost::Message as ProstMessage;
use wcferry::codec::{decode_request, decode_response, encode_request, encode_response};
use wcferry::error::Error;
use wcferry::message::{encode, parse};
use wcferry::wcf::request::Msg as Arg;
use wcferry::wcf::response::Msg as Reply;
use wcferry::wcf::{
    AddMembers, DbField, DbNames, DbQuery, DbRow, DbRows, DbTable, DbTables, DecPath, Empty,
    Functions, MsgType, MsgTypes, PathMsg, Request, Response, RpcContact, RpcContacts, TextMsg,
    Transfer, UserInfo, Verification, WxMsg, XmlMsg,
};

/// A text message as `prost` itself handles it: what its derive writes for a
/// message of three strings.
#[derive(Debug, Default, PartialEq)]
struct ProstText {
    msg: String,
    receiver: String,
    aters: String,
}

impl ProstMessage for ProstText {
    fn encode_raw<B: prost::bytes::BufMut>(&self, buf: &mut B) {
        if !self.msg.is_empty() {
            prost::encoding::string::encode(1, &self.msg, buf);
        }
        if !self.receiver.is_empty() {
            prost::encoding::string::encode(2, &self.receiver, buf);
        }
        if !self.aters.is_empty() {
            prost::encoding::string::encode(3, &self.aters, buf);
        }
    }

    fn merge_field<B: prost::bytes::Buf>(
        &mut self,
        tag: u32,
        wire_type: WireType,
        buf: &mut B,
        ctx: DecodeContext,
    ) -> Result<(), prost::DecodeError> {
        match tag {
            1 => prost::encoding::string::merge(wire_type, &mut self.msg, buf, ctx),
            2 => prost::encoding::string::merge(wire_type, &mut self.receiver, buf, ctx),
            3 => prost::encoding::string::merge(wire_type, &mut self.aters, buf, ctx),
            _ => prost::encoding::skip_field(wire_type, tag, buf, ctx),
        }
    }

    fn encoded_len(&self) -> usize {
        let mut len = 0;
        if !self.msg.is_empty() {
            len += prost::encoding::string::encoded_len(1, &self.msg);
        }
        if !self.receiver.is_empty() {
            len += prost::encoding::string::encoded_len(2, &self.receiver);
        }
        if !self.aters.is_empty() {
            len += prost::encoding::string::encoded_len(3, &self.aters);
        }
        len
    }

    fn clear(&mut self) {
        self.msg.clear();
        self.receiver.clear();
        self.aters.clear();
    }
}

fn text(msg: &str, receiver: &str, aters: &str) -> TextMsg {
    TextMsg {
        msg: String::from(msg),
        receiver: String::from(receiver),
        aters: String::from(aters),
    }
}

fn request(func: Functions, msg: Option<Arg>) -> Request {
    Request { func: func.to_i32(), msg }
}

fn response(func: Functions, msg: Option<Reply>) -> Response {
    Response { func: func.to_i32(), msg }
}

fn contact(wxid: &str, name: &str, gender: i32) -> RpcContact {
    RpcContact {
        wxid: String::from(wxid),
        code: String::new(),
        remark: String::new(),
        name: String::from(name),
        country: String::from("CN"),
        province: String::new(),
        city: String::new(),
        gender,
    }
}

fn pushed(id: u64, content: &str) -> WxMsg {
    WxMsg {
        is_self: false,
        is_group: true,
        id,
        type_: 1,
        ts: 1_688_000_000,
        roomid: String::from("123@chatroom"),
        content: String::from(content),
        sender: String::from("wxid_sender"),
        sign: String::new(),
        thumb: String::new(),
        extra: String::new(),
        xml: String::from("<msgsource/>"),
    }
}

fn every_request() -> Vec<Request> {
    vec![
        request(Functions::FuncIsLogin, None),
        request(Functions::FuncReserved, None),
        request(Functions::FuncIsLogin, Some(Arg::Empty(Empty {}))),
        request(Functions::FuncGetDbTables, Some(Arg::Str(String::from("MicroMsg.db")))),
        request(Functions::FuncGetDbTables, Some(Arg::Str(String::new()))),
        request(Functions::FuncSendTxt, Some(Arg::Txt(text("Hello @a", "1@chatroom", "wxid_a")))),
        request(Functions::FuncSendTxt, Some(Arg::Txt(text("", "", "")))),
        request(
            Functions::FuncSendImg,
            Some(Arg::File(PathMsg {
                path: String::from("C:\\Users\\Administrator\\Pictures\\1.jpg"),
                receiver: String::from("filehelper"),
            })),
        ),
        request(
            Functions::FuncExecDbQuery,
            Some(Arg::Query(DbQuery {
                db: String::from("MicroMsg.db"),
                sql: String::from("SELECT * FROM Contact LIMIT 1;"),
            })),
        ),
        request(
            Functions::FuncAcceptFriend,
            Some(Arg::V(Verification {
                v3: String::from("v3_abc@stranger"),
                v4: String::from("v4_def@stranger"),
                scene: 17,
            })),
        ),
        request(
            Functions::FuncAddRoomMembers,
            Some(Arg::M(AddMembers {
                roomid: String::from("1@chatroom"),
                wxids: String::from("wxid_a,wxid_b"),
            })),
        ),
        request(
            Functions::FuncSendXml,
            Some(Arg::Xml(XmlMsg {
                receiver: String::from("filehelper"),
                content: String::from("<msg>\u{5fae}\u{4fe1}</msg>"),
                path: String::new(),
                type_: -3,
            })),
        ),
        request(
            Functions::FuncDecryptImage,
            Some(Arg::Dec(DecPath { src: String::from("a.dat"), dst: String::from("C:\\foo") })),
        ),
        request(
            Functions::FuncRecvTransfer,
            Some(Arg::Tf(Transfer {
                wxid: String::from("wxid_a"),
                tfid: String::from("1000050001202306300415889890620"),
                taid: String::from("100005000123063000081247810011296088"),
            })),
        ),
        request(Functions::FuncRefreshPyq, Some(Arg::Ui64(0))),
        request(Functions::FuncRefreshPyq, Some(Arg::Ui64(u64::MAX))),
        request(Functions::FuncEnableRecvTxt, Some(Arg::Flag(true))),
        request(Functions::FuncEnableRecvTxt, Some(Arg::Flag(false))),
        Request { func: -1, msg: None },
        Request { func: i32::MIN, msg: Some(Arg::Ui64(1 << 63)) },
        Request { func: i32::MAX, msg: None },
    ]
}

fn every_response() -> Vec<Response> {
    vec![
        response(Functions::FuncIsLogin, None),
        response(Functions::FuncIsLogin, Some(Reply::Status(1))),
        response(Functions::FuncIsLogin, Some(Reply::Status(0))),
        response(Functions::FuncRefreshPyq, Some(Reply::Status(-1))),
        response(Functions::FuncGetSelfWxid, Some(Reply::Str(String::from("wxid_self")))),
        response(Functions::FuncGetSelfWxid, Some(Reply::Str(String::new()))),
        response(Functions::FuncEnableRecvTxt, Some(Reply::Wxmsg(pushed(7, "hi")))),
        response(
            Functions::FuncGetMsgTypes,
            Some(Reply::Types(MsgTypes {
                types: vec![
                    MsgType { key: 1, value: String::from("\u{6587}\u{5b57}") },
                    MsgType { key: 10000, value: String::from("system") },
                    MsgType { key: 0, value: String::new() },
                    MsgType { key: 1, value: String::from("text") },
                ],
            })),
        ),
        response(
            Functions::FuncGetContacts,
            Some(Reply::Contacts(RpcContacts {
                contacts: vec![contact("wxid_a", "A", 1), contact("2@chatroom", "", 0)],
            })),
        ),
        response(Functions::FuncGetContacts, Some(Reply::Contacts(RpcContacts { contacts: vec![] }))),
        response(
            Functions::FuncGetDbNames,
            Some(Reply::Dbs(DbNames {
                names: vec![String::from("MicroMsg.db"), String::new(), String::from("MSG0.db")],
            })),
        ),
        response(
            Functions::FuncGetDbTables,
            Some(Reply::Tables(DbTables {
                tables: vec![DbTable {
                    name: String::from("Contact"),
                    sql: String::from("CREATE TABLE Contact(UserName TEXT)"),
                }],
            })),
        ),
        response(
            Functions::FuncExecDbQuery,
            Some(Reply::Rows(DbRows {
                rows: vec![
                    DbRow {
                        fields: vec![
                            DbField {
                                type_: 3,
                                column: String::from("UserName"),
                                content: b"wxid_a".to_vec(),
                            },
                            DbField {
                                type_: 4,
                                column: String::from("Blob"),
                                content: vec![0, 255, 128, 0],
                            },
                        ],
                    },
                    DbRow { fields: vec![] },
                ],
            })),
        ),
        response(
            Functions::FuncGetUserInfo,
            Some(Reply::Ui(UserInfo {
                wxid: String::from("wxid_self"),
                name: String::from("Me"),
                mobile: String::from("13800000000"),
                home: String::from("C:\\Users\\me\\Documents\\WeChat Files\\"),
            })),
        ),
        Response { func: 0x7fff_0000, msg: Some(Reply::Status(i32::MIN)) },
    ]
}

#[test]
fn every_request_reads_back_as_written() {
    for req in every_request() {
        let bytes = encode_request(&req);
        assert_eq!(decode_request(&bytes), Ok(req));
    }
}

#[test]
fn every_response_reads_back_as_written() {
    for resp in every_response() {
        let bytes = encode_response(&resp);
        assert_eq!(decode_response(&bytes), Ok(resp));
    }
}

#[test]
fn text_request_has_the_bytes_of_its_fields() {
    let req = request(Functions::FuncSendTxt, Some(Arg::Txt(text("hi", "filehelper", ""))));
    let bytes = encode_request(&req);
    let mut expected = vec![0x08, 0x20, 0x22, 0x10, 0x0a, 0x02, b'h', b'i', 0x12, 0x0a];
    expected.extend_from_slice(b"filehelper");
    assert_eq!(bytes, expected);
    assert_eq!(decode_request(&bytes), Ok(req));
}

#[test]
fn request_without_argument_is_its_function_alone() {
    assert_eq!(encode_request(&request(Functions::FuncIsLogin, None)), vec![0x08, 0x01]);
    assert_eq!(encode_request(&request(Functions::FuncDelRoomMembers, None)), vec![0x08, 0x71]);
}

#[test]
fn reserved_function_and_no_argument_is_no_bytes() {
    let req = request(Functions::FuncReserved, None);
    assert_eq!(encode_request(&req), Vec::<u8>::new());
    assert_eq!(decode_request(&[]), Ok(req));
    assert_eq!(decode_response(&[]), Ok(Response { func: 0, msg: None }));
}

#[test]
fn argument_of_a_request_is_written_even_at_its_default() {
    assert_eq!(
        encode_request(&request(Functions::FuncEnableRecvTxt, Some(Arg::Flag(true)))),
        vec![0x08, 0x30, 0x68, 0x01]
    );
    assert_eq!(
        encode_request(&request(Functions::FuncEnableRecvTxt, Some(Arg::Flag(false)))),
        vec![0x08, 0x30, 0x68, 0x00]
    );
    assert_eq!(
        encode_request(&request(Functions::FuncRefreshPyq, Some(Arg::Ui64(0)))),
        vec![0x08, 0x53, 0x60, 0x00]
    );
    assert_eq!(
        encode_request(&request(Functions::FuncGetDbTables, Some(Arg::Str(String::new())))),
        vec![0x08, 0x14, 0x1a, 0x00]
    );
    assert_eq!(
        encode_request(&request(Functions::FuncIsLogin, Some(Arg::Empty(Empty {})))),
        vec![0x08, 0x01, 0x12, 0x00]
    );
    assert_eq!(
        encode_response(&response(Functions::FuncIsLogin, Some(Reply::Status(0)))),
        vec![0x08, 0x01, 0x10, 0x00]
    );
}

#[test]
fn numbers_above_127_take_more_bytes() {
    assert_eq!(
        encode_request(&request(Functions::FuncRefreshPyq, Some(Arg::Ui64(300)))),
        vec![0x08, 0x53, 0x60, 0xac, 0x02]
    );
    let mut max = vec![0x08, 0x53, 0x60];
    max.extend_from_slice(&[0xff; 9]);
    max.push(0x01);
    assert_eq!(
        encode_request(&request(Functions::FuncRefreshPyq, Some(Arg::Ui64(u64::MAX)))),
        max
    );
}

#[test]
fn negative_status_takes_ten_bytes() {
    let resp = response(Functions::FuncRefreshPyq, Some(Reply::Status(-1)));
    let mut expected = vec![0x08, 0x53, 0x10];
    expected.extend_from_slice(&[0xff; 9]);
    expected.push(0x01);
    assert_eq!(encode_response(&resp), expected);
    assert_eq!(decode_response(&expected), Ok(resp));
}

#[test]
fn status_is_the_low_32_bits_of_what_was_written() {
    // 2^32 + 1, written as a varint
    let bytes = [0x08, 0x01, 0x10, 0x81, 0x80, 0x80, 0x80, 0x10];
    assert_eq!(
        decode_response(&bytes),
        Ok(response(Functions::FuncIsLogin, Some(Reply::Status(1))))
    );
    // 2^31: the sign bit of the low 32
    let bytes = [0x10, 0x80, 0x80, 0x80, 0x80, 0x08];
    assert_eq!(decode_response(&bytes), Ok(Response { func: 0, msg: Some(Reply::Status(i32::MIN)) }));
}

#[test]
fn flag_is_set_by_any_value_but_zero() {
    assert_eq!(
        decode_request(&[0x68, 0x02]),
        Ok(Request { func: 0, msg: Some(Arg::Flag(true)) })
    );
    assert_eq!(
        decode_request(&[0x68, 0x00]),
        Ok(Request { func: 0, msg: Some(Arg::Flag(false)) })
    );
}

#[test]
fn fields_are_read_in_any_order() {
    let bytes = [0x1a, 0x02, b'o', b'k', 0x08, 0x10];
    assert_eq!(
        decode_response(&bytes),
        Ok(response(Functions::FuncGetSelfWxid, Some(Reply::Str(String::from("ok")))))
    );
}

#[test]
fn of_a_member_met_twice_the_last_stands() {
    let bytes = [0x08, 0x01, 0x10, 0x00, 0x08, 0x10, 0x1a, 0x01, b'x'];
    assert_eq!(
        decode_response(&bytes),
        Ok(response(Functions::FuncGetSelfWxid, Some(Reply::Str(String::from("x")))))
    );
    let bytes = [0x1a, 0x01, b'x', 0x10, 0x01];
    assert_eq!(decode_response(&bytes), Ok(Response { func: 0, msg: Some(Reply::Status(1)) }));
}

#[test]
fn of_a_message_met_twice_the_later_is_taken_into_the_earlier() {
    let first = encode(&text("a", "r", ""));
    let second = encode(&text("", "s", "x"));
    let mut bytes = vec![0x08, 0x20];
    for part in [&first, &second] {
        bytes.push(0x22);
        bytes.push(part.len() as u8);
        bytes.extend_from_slice(part);
    }
    assert_eq!(
        decode_request(&bytes),
        Ok(request(Functions::FuncSendTxt, Some(Arg::Txt(text("a", "s", "x")))))
    );

    // another member in between starts afresh
    let mut bytes = vec![0x22, first.len() as u8];
    bytes.extend_from_slice(&first);
    bytes.extend_from_slice(&[0x60, 0x07]);
    bytes.push(0x22);
    bytes.push(second.len() as u8);
    bytes.extend_from_slice(&second);
    assert_eq!(
        decode_request(&bytes),
        Ok(Request { func: 0, msg: Some(Arg::Txt(text("", "s", "x"))) })
    );

    // items of a list are not merged
    let one = encode(&contact("a", "A", 1));
    let mut bytes = Vec::new();
    for _ in 0..2 {
        bytes.push(0x0a);
        bytes.push(one.len() as u8);
        bytes.extend_from_slice(&one);
    }
    let list: RpcContacts = parse(&bytes).unwrap();
    assert_eq!(list.contacts, vec![contact("a", "A", 1), contact("a", "A", 1)]);
}

#[test]
fn prost_merges_a_message_met_twice_in_the_same_way() {
    let first = ProstText { msg: String::from("a"), receiver: String::from("r"), aters: String::new() };
    let second = ProstText { msg: String::new(), receiver: String::from("s"), aters: String::from("x") };
    let mut held = ProstText::default();
    for part in [&first, &second] {
        let mut framed = Vec::new();
        prost::encoding::message::encode(4, part, &mut framed);
        let mut buf = framed.as_slice();
        let (tag, wire_type) = prost::encoding::decode_key(&mut buf).unwrap();
        assert_eq!(tag, 4);
        prost::encoding::message::merge(wire_type, &mut held, &mut buf, DecodeContext::default())
            .unwrap();
    }
    let mut bytes = Vec::new();
    prost::encoding::message::encode(4, &first, &mut bytes);
    prost::encoding::message::encode(4, &second, &mut bytes);
    match decode_request(&bytes) {
        Ok(Request { func: 0, msg: Some(Arg::Txt(ours)) }) => {
            assert_eq!(ours, text(&held.msg, &held.receiver, &held.aters));
            assert_eq!(ours, text("a", "s", "x"));
        }
        other => panic!("{:?}", other),
    }
}

#[test]
fn unknown_fields_are_passed_over() {
    let mut bytes = vec![0x08, 0x01];
    bytes.extend_from_slice(&[0xa0, 0x06, 0x2a]); // tag 100, varint
    bytes.extend_from_slice(&[0xa1, 0x06, 1, 2, 3, 4, 5, 6, 7, 8]); // tag 100, 64 bits
    bytes.extend_from_slice(&[0xa2, 0x06, 0x03, 0xff, 0xfe, 0xfd]); // tag 100, bytes
    bytes.extend_from_slice(&[0xa5, 0x06, 1, 2, 3, 4]); // tag 100, 32 bits
    bytes.extend_from_slice(&[0x10, 0x01]);
    assert_eq!(
        decode_response(&bytes),
        Ok(response(Functions::FuncIsLogin, Some(Reply::Status(1))))
    );
}

#[test]
fn unknown_groups_are_passed_over() {
    let mut bytes = vec![0x08, 0x01];
    bytes.extend_from_slice(&[0xa3, 0x06]); // tag 100 starts
    bytes.extend_from_slice(&[0x08, 0x07, 0x12, 0x01, 0xff]); // a varint and bytes in it
    bytes.extend_from_slice(&[0x0b, 0x10, 0x01, 0x0c]); // and a group of tag 1
    bytes.extend_from_slice(&[0xa4, 0x06]); // tag 100 ends
    bytes.extend_from_slice(&[0x10, 0x01]);
    assert_eq!(
        decode_response(&bytes),
        Ok(response(Functions::FuncIsLogin, Some(Reply::Status(1))))
    );
    // in a message in the envelope too
    let inner = [0x0a, 0x01, b'm', 0x7b, 0x7c, 0x12, 0x01, b'r'];
    let mut bytes = vec![0x08, 0x20, 0x22, inner.len() as u8];
    bytes.extend_from_slice(&inner);
    assert_eq!(
        decode_request(&bytes),
        Ok(request(Functions::FuncSendTxt, Some(Arg::Txt(text("m", "r", "")))))
    );
}

#[test]
fn groups_where_a_member_stands_are_refused() {
    assert_eq!(decode_response(&[0x0b, 0x0c]), Err(Error::MalformedMessage));
    assert_eq!(decode_response(&[0x13, 0x14]), Err(Error::MalformedMessage));
    assert_eq!(decode_response(&[0x53, 0x54]), Err(Error::MalformedMessage));
    assert_eq!(decode_response(&[0x5b, 0x5c]), Ok(Response { func: 0, msg: None }));
    assert_eq!(decode_request(&[0x6b, 0x6c]), Err(Error::MalformedMessage));
    assert_eq!(decode_request(&[0x73, 0x74]), Ok(Request { func: 0, msg: None }));
    // a group that does not end, and an end without a group
    assert_eq!(decode_response(&[0x5b]), Err(Error::MalformedMessage));
    assert_eq!(decode_response(&[0x5c]), Err(Error::MalformedMessage));
    assert_eq!(decode_response(&[0x5b, 0x64]), Err(Error::MalformedMessage));
}

#[test]
fn decode_refuses_what_is_no_envelope() {
    let malformed: Vec<Vec<u8>> = vec![
        vec![0x08],                                  // key without value
        vec![0x80],                                  // key cut short
        vec![0x00, 0x00],                            // tag 0
        vec![0x0b],                                  // start of a group
        vec![0x0c],                                  // end of a group
        vec![0x0e, 0x00],                            // wire type 6
        vec![0x0f, 0x00],                            // wire type 7
        vec![0x0a, 0x00],                            // the function as bytes
        vec![0x0d, 0, 0, 0, 0],                      // the function as 32 bits
        vec![0x1a, 0x02, b'a'],                      // text longer than the bytes
        vec![0x1a, 0x02, 0xc3, 0x28],                // text that is no UTF-8
        vec![0x1a, 0x01, 0x80],                      // text that is no UTF-8
        vec![0x18, 0x01],                            // text as a varint
        vec![0x10, 0x80, 0x80, 0x80, 0x80, 0x80, 0x80, 0x80, 0x80, 0x80, 0x02], // varint over 64 bits
        vec![0x10, 0x80, 0x80, 0x80, 0x80, 0x80, 0x80, 0x80, 0x80, 0x80, 0x80, 0x00], // 11 bytes
        vec![0x22, 0x02, 0x0a, 0x05],                // a message cut short inside
        vec![0x22, 0x01, 0x08],                      // an unknown field cut short inside
        vec![0xa1, 0x06, 1, 2, 3],                   // 64 bits cut short
        vec![0xa5, 0x06, 1, 2, 3],                   // 32 bits cut short
        vec![0x80, 0x80, 0x80, 0x80, 0x10, 0x00],    // key over 32 bits
        vec![0x08, 0x01, 0xff],                      // rubbish behind a field
    ];
    for bytes in malformed {
        assert_eq!(decode_response(&bytes), Err(Error::MalformedMessage), "{:?}", bytes);
    }
    assert_eq!(decode_request(&[0x22, 0x02, 0x0a, 0x05]), Err(Error::MalformedMessage));
    assert_eq!(decode_request(&[0x68, 0x80]), Err(Error::MalformedMessage));
    assert_eq!(decode_request(&[0x6a, 0x00]), Err(Error::MalformedMessage));
}

#[test]
fn contacts_are_read_in_the_order_they_were_written() {
    let contacts = RpcContacts {
        contacts: vec![contact("c", "3", 0), contact("a", "1", 2), contact("b", "2", 1)],
    };
    let bytes = encode(&contacts);
    let back: RpcContacts = parse(&bytes).unwrap();
    let ids: Vec<&str> = back.contacts.iter().map(|c| c.wxid.as_str()).collect();
    assert_eq!(ids, vec!["c", "a", "b"]);
    assert_eq!(back, contacts);
}

#[test]
fn empty_items_of_a_list_are_written() {
    let names = DbNames { names: vec![String::new(), String::from("a"), String::new()] };
    assert_eq!(encode(&names), vec![0x0a, 0x00, 0x0a, 0x01, b'a', 0x0a, 0x00]);
    let rows = DbRows { rows: vec![DbRow { fields: vec![] }, DbRow { fields: vec![] }] };
    assert_eq!(encode(&rows), vec![0x0a, 0x00, 0x0a, 0x00]);
    assert_eq!(parse::<DbRows>(&[0x0a, 0x00, 0x0a, 0x00]), Some(rows));
}

#[test]
fn pushed_message_has_the_bytes_of_its_fields() {
    let msg = WxMsg {
        is_self: true,
        is_group: false,
        id: 5,
        type_: 49,
        ts: 0,
        roomid: String::new(),
        content: String::from("c"),
        sender: String::new(),
        sign: String::new(),
        thumb: String::new(),
        extra: String::new(),
        xml: String::from("x"),
    };
    assert_eq!(encode(&msg), vec![0x08, 0x01, 0x18, 0x05, 0x20, 0x31, 0x3a, 0x01, b'c', 0x62, 0x01, b'x']);
}

#[test]
fn type_and_time_of_a_pushed_message_are_their_low_32_bits() {
    // type 2^32 + 2, time 2^32 - 1
    let bytes = [0x20, 0x82, 0x80, 0x80, 0x80, 0x10, 0x28, 0xff, 0xff, 0xff, 0xff, 0x0f];
    let msg: WxMsg = parse(&bytes).unwrap();
    assert_eq!(msg.type_, 2);
    assert_eq!(msg.ts, u32::MAX);
}

#[test]
fn prost_reads_what_the_library_writes() {
    for (msg, receiver, aters) in [
        ("Hello, wcferry!", "filehelper", ""),
        ("", "", ""),
        ("\u{4f60}\u{597d} @a @b", "1@chatroom", "wxid_a,wxid_b"),
        ("", "only", ""),
    ] {
        let bytes = encode(&text(msg, receiver, aters));
        let read = ProstText::decode(bytes.as_slice()).unwrap();
        assert_eq!(
            read,
            ProstText {
                msg: String::from(msg),
                receiver: String::from(receiver),
                aters: String::from(aters)
            }
        );
    }
}

#[test]
fn the_library_reads_what_prost_writes() {
    let long = "x".repeat(20_000);
    for (msg, receiver, aters) in [
        ("Hello, wcferry!", "filehelper", ""),
        ("", "", ""),
        ("\u{4f60}\u{597d}", "1@chatroom", "wxid_a,wxid_b"),
        (long.as_str(), "r", "a"),
    ] {
        let written = ProstText {
            msg: String::from(msg),
            receiver: String::from(receiver),
            aters: String::from(aters),
        }
        .encode_to_vec();
        assert_eq!(encode(&text(msg, receiver, aters)), written);
        assert_eq!(parse::<TextMsg>(&written), Some(text(msg, receiver, aters)));
    }
}

#[test]
fn the_library_and_prost_agree_on_what_is_malformed() {
    let samples: Vec<Vec<u8>> = vec![
        vec![],
        vec![0x0a, 0x01, b'a'],
        vec![0x0a, 0x02, b'a'],
        vec![0x0a, 0x02, 0xc3, 0x28],
        vec![0x08, 0x01],
        vec![0x00, 0x01],
        vec![0x0a],
        vec![0x12, 0x00, 0x1a, 0x00, 0x0a, 0x00],
        vec![0x20, 0x01, 0x0a, 0x01, b'z'],
        vec![0x25, 1, 2, 3, 4],
        vec![0x21, 1, 2, 3, 4, 5, 6, 7, 8, 0x12, 0x01, b'q'],
        vec![0x21, 1, 2, 3, 4, 5, 6, 7],
        vec![0x22, 0x03, 1, 2, 3],
        vec![0x26, 0x00],
        vec![0x20, 0xff, 0xff, 0xff, 0xff, 0xff, 0xff, 0xff, 0xff, 0xff, 0x01],
        vec![0x20, 0xff, 0xff, 0xff, 0xff, 0xff, 0xff, 0xff, 0xff, 0xff, 0x02],
        vec![0xf8, 0xff, 0xff, 0xff, 0x0f, 0x00],
        vec![0xf8, 0xff, 0xff, 0xff, 0x1f, 0x00],
    ];
    for bytes in samples {
        let ours = parse::<TextMsg>(&bytes);
        match ProstText::decode(bytes.as_slice()) {
            Ok(theirs) => {
                assert_eq!(ours, Some(text(&theirs.msg, &theirs.receiver, &theirs.aters)), "{:?}", bytes)
            }
            Err(_) => assert_eq!(ours, None, "{:?}", bytes),
        }
    }
}

#[test]
fn scalar_fields_have_the_bytes_that_prost_gives_them() {
    let mut expected = Vec::new();
    prost::encoding::string::encode(1, &String::from("v3"), &mut expected);
    prost::encoding::string::encode(2, &String::from("v4"), &mut expected);
    prost::encoding::int32::encode(3, &-17, &mut expected);
    let v = Verification { v3: String::from("v3"), v4: String::from("v4"), scene: -17 };
    assert_eq!(encode(&v), expected);

    let mut expected = Vec::new();
    prost::encoding::bool::encode(2, &true, &mut expected);
    prost::encoding::uint64::encode(3, &(1u64 << 40), &mut expected);
    prost::encoding::uint32::encode(4, &10000, &mut expected);
    prost::encoding::uint32::encode(5, &u32::MAX, &mut expected);
    prost::encoding::string::encode(8, &String::from("s"), &mut expected);
    let m = WxMsg {
        is_self: false,
        is_group: true,
        id: 1 << 40,
        type_: 10000,
        ts: u32::MAX,
        roomid: String::new(),
        content: String::new(),
        sender: String::from("s"),
        sign: String::new(),
        thumb: String::new(),
        extra: String::new(),
        xml: String::new(),
    };
    assert_eq!(encode(&m), expected);

    let mut expected = Vec::new();
    prost::encoding::int32::encode(1, &4, &mut expected);
    prost::encoding::string::encode(2, &String::from("col"), &mut expected);
    prost::encoding::bytes::encode(3, &vec![0u8, 1, 2], &mut expected);
    let f = DbField { type_: 4, column: String::from("col"), content: vec![0, 1, 2] };
    assert_eq!(encode(&f), expected);
}

#[test]
fn message_in_an_envelope_is_framed_as_prost_frames_it() {
    let inner = ProstText {
        msg: String::from("m"),
        receiver: String::from("r"),
        aters: String::new(),
    };
    let mut expected = Vec::new();
    prost::encoding::int32::encode(1, &0x20, &mut expected);
    prost::encoding::message::encode(4, &inner, &mut expected);
    let req = request(Functions::FuncSendTxt, Some(Arg::Txt(text("m", "r", ""))));
    assert_eq!(encode_request(&req), expected);
}

#[test]
fn functions_have_their_numbers() {
    assert_eq!(Functions::FuncReserved.to_i32(), 0);
    assert_eq!(Functions::FuncIsLogin.to_i32(), 1);
    assert_eq!(Functions::FuncGetSelfWxid.to_i32(), 16);
    assert_eq!(Functions::FuncSendTxt.to_i32(), 32);
    assert_eq!(Functions::FuncEnableRecvTxt.to_i32(), 48);
    assert_eq!(Functions::FuncDisableRecvTxt.to_i32(), 64);
    assert_eq!(Functions::FuncExecDbQuery.to_i32(), 80);
    assert_eq!(Functions::FuncDecryptImage.to_i32(), 96);
    assert_eq!(Functions::FuncDelRoomMembers.to_i32(), 113);
    for n in -2..200 {
        match Functions::from_i32(n) {
            Some(f) => assert_eq!(f.to_i32(), n),
            None => {}
        }
    }
    assert_eq!(Functions::from_i32(0x53), Some(Functions::FuncRefreshPyq));
    assert_eq!(Functions::from_i32(2), None);
    assert_eq!(Functions::from_i32(-1), None);
}
