use wcferry::codec::encode_request;
use wcferry::requests::{
    accept_new_friend_request, add_chatroom_members_request, decrypt_image_request,
    del_chatroom_members_request, disable_listen_request, enable_listen_request,
    exec_db_query_request, get_contacts_request, get_db_names_request, get_db_tables_request,
    get_msg_types_request, get_self_wx_id_request, get_user_info_request, is_login_request,
    recv_transfer_request, refresh_pyq_request, send_emotion_request, send_file_request,
    send_image_request, send_text_request, send_xml_request,
};
use wcferry::wcf::request::Msg;
use wcferry::wcf::{
    AddMembers, DbQuery, DecPath, PathMsg, Request, TextMsg, Transfer, Verification, XmlMsg,
};

fn s(text: &str) -> String {
    String::from(text)
}

#[test]
fn requests_without_argument_name_their_function() {
    assert_eq!(is_login_request(), Request { func: 0x01, msg: None });
    assert_eq!(get_self_wx_id_request(), Request { func: 0x10, msg: None });
    assert_eq!(get_msg_types_request(), Request { func: 0x11, msg: None });
    assert_eq!(get_contacts_request(), Request { func: 0x12, msg: None });
    assert_eq!(get_db_names_request(), Request { func: 0x13, msg: None });
    assert_eq!(get_user_info_request(), Request { func: 0x15, msg: None });
    assert_eq!(disable_listen_request(), Request { func: 0x40, msg: None });
}

#[test]
fn enable_request_carries_the_flag() {
    assert_eq!(enable_listen_request(), Request { func: 0x30, msg: Some(Msg::Flag(true)) });
    assert_eq!(encode_request(&enable_listen_request()), vec![0x08, 0x30, 0x68, 0x01]);
}

#[test]
fn database_requests_carry_the_database() {
    assert_eq!(
        get_db_tables_request(s("MicroMsg.db")),
        Request { func: 0x14, msg: Some(Msg::Str(s("MicroMsg.db"))) }
    );
    assert_eq!(
        exec_db_query_request(s("MicroMsg.db"), s("SELECT 1;")),
        Request {
            func: 0x50,
            msg: Some(Msg::Query(DbQuery { db: s("MicroMsg.db"), sql: s("SELECT 1;") }))
        }
    );
}

#[test]
fn sending_requests_carry_what_is_sent() {
    assert_eq!(
        send_text_request(s("Hello @a"), s("1@chatroom"), s("wxid_a")),
        Request {
            func: 0x20,
            msg: Some(Msg::Txt(TextMsg {
                msg: s("Hello @a"),
                receiver: s("1@chatroom"),
                aters: s("wxid_a")
            }))
        }
    );
    let file = |func: i32| Request {
        func,
        msg: Some(Msg::File(PathMsg { path: s("C:\\1.jpg"), receiver: s("filehelper") })),
    };
    assert_eq!(send_image_request(s("C:\\1.jpg"), s("filehelper")), file(0x21));
    assert_eq!(send_file_request(s("C:\\1.jpg"), s("filehelper")), file(0x22));
    assert_eq!(send_emotion_request(s("C:\\1.jpg"), s("filehelper")), file(0x24));
    assert_eq!(
        send_xml_request(s("<x/>"), s("C:\\1.jpg"), s("filehelper"), 0x21),
        Request {
            func: 0x23,
            msg: Some(Msg::Xml(XmlMsg {
                receiver: s("filehelper"),
                content: s("<x/>"),
                path: s("C:\\1.jpg"),
                type_: 0x21
            }))
        }
    );
}

#[test]
fn other_requests_carry_their_arguments() {
    assert_eq!(
        accept_new_friend_request(s("v3"), s("v4"), 17),
        Request {
            func: 0x51,
            msg: Some(Msg::V(Verification { v3: s("v3"), v4: s("v4"), scene: 17 }))
        }
    );
    let members = |func: i32| Request {
        func,
        msg: Some(Msg::M(AddMembers { roomid: s("1@chatroom"), wxids: s("a,b") })),
    };
    assert_eq!(add_chatroom_members_request(s("1@chatroom"), s("a,b")), members(0x70));
    assert_eq!(del_chatroom_members_request(s("1@chatroom"), s("a,b")), members(0x71));
    assert_eq!(
        decrypt_image_request(s("a.dat"), s("C:\\foo")),
        Request { func: 0x60, msg: Some(Msg::Dec(DecPath { src: s("a.dat"), dst: s("C:\\foo") })) }
    );
    assert_eq!(
        recv_transfer_request(s("wxid"), s("transfer"), s("transaction")),
        Request {
            func: 0x52,
            msg: Some(Msg::Tf(Transfer { wxid: s("wxid"), tfid: s("transfer"), taid: s("transaction") }))
        }
    );
    assert_eq!(refresh_pyq_request(0), Request { func: 0x53, msg: Some(Msg::Ui64(0)) });
    assert_eq!(
        refresh_pyq_request(u64::MAX),
        Request { func: 0x53, msg: Some(Msg::Ui64(u64::MAX)) }
    );
}
