//! The request of each operation: the function it calls and the argument it
//! hands over.

use vstd::prelude::*;
use crate::wcf::request::{Msg, MsgView};
use crate::wcf::{
    AddMembers, AddMembersView, DbQuery, DbQueryView, DecPath, DecPathView, Functions, PathMsg,
    PathMsgView, Request, RequestView, TextMsg, TextMsgView, Transfer, TransferView, Verification,
    VerificationView, XmlMsg, XmlMsgView,
};

verus! {

/// What the request of [`is_login`](crate::wechat::is_login) holds.
pub open spec fn is_login_asks() -> RequestView {
    RequestView {
        func: Functions::FuncIsLogin.number(),
        msg: None,
    }
}

/// The request of [`is_login`](crate::wechat::is_login).
pub fn is_login_request() -> (request: Request)
    ensures
        request@ == is_login_asks(),
{
    Request { func: Functions::FuncIsLogin.to_i32(), msg: None }
}

/// What the request of [`get_self_wx_id`](crate::wechat::get_self_wx_id) holds.
pub open spec fn get_self_wx_id_asks() -> RequestView {
    RequestView {
        func: Functions::FuncGetSelfWxid.number(),
        msg: None,
    }
}

/// The request of [`get_self_wx_id`](crate::wechat::get_self_wx_id).
pub fn get_self_wx_id_request() -> (request: Request)
    ensures
        request@ == get_self_wx_id_asks(),
{
    Request { func: Functions::FuncGetSelfWxid.to_i32(), msg: None }
}

/// What the request of [`get_user_info`](crate::wechat::get_user_info) holds.
pub open spec fn get_user_info_asks() -> RequestView {
    RequestView {
        func: Functions::FuncGetUserInfo.number(),
        msg: None,
    }
}

/// The request of [`get_user_info`](crate::wechat::get_user_info).
pub fn get_user_info_request() -> (request: Request)
    ensures
        request@ == get_user_info_asks(),
{
    Request { func: Functions::FuncGetUserInfo.to_i32(), msg: None }
}

/// What the request of [`get_contacts`](crate::wechat::get_contacts) holds.
pub open spec fn get_contacts_asks() -> RequestView {
    RequestView {
        func: Functions::FuncGetContacts.number(),
        msg: None,
    }
}

/// The request of [`get_contacts`](crate::wechat::get_contacts).
pub fn get_contacts_request() -> (request: Request)
    ensures
        request@ == get_contacts_asks(),
{
    Request { func: Functions::FuncGetContacts.to_i32(), msg: None }
}

/// What the request of [`get_db_names`](crate::wechat::get_db_names) holds.
pub open spec fn get_db_names_asks() -> RequestView {
    RequestView {
        func: Functions::FuncGetDbNames.number(),
        msg: None,
    }
}

/// The request of [`get_db_names`](crate::wechat::get_db_names).
pub fn get_db_names_request() -> (request: Request)
    ensures
        request@ == get_db_names_asks(),
{
    Request { func: Functions::FuncGetDbNames.to_i32(), msg: None }
}

/// What the request of [`get_db_tables`](crate::wechat::get_db_tables) holds.
pub open spec fn get_db_tables_asks(db: Seq<char>) -> RequestView {
    RequestView {
        func: Functions::FuncGetDbTables.number(),
        msg: Some(MsgView::Str(db)),
    }
}

/// The request of [`get_db_tables`](crate::wechat::get_db_tables).
pub fn get_db_tables_request(db: String) -> (request: Request)
    ensures
        request@ == get_db_tables_asks(db@),
{
    Request { func: Functions::FuncGetDbTables.to_i32(), msg: Some(Msg::Str(db)) }
}

/// What the request of [`exec_db_query`](crate::wechat::exec_db_query) holds.
pub open spec fn exec_db_query_asks(db: Seq<char>, sql: Seq<char>) -> RequestView {
    RequestView {
        func: Functions::FuncExecDbQuery.number(),
        msg: Some(MsgView::Query(DbQueryView { db, sql })),
    }
}

/// The request of [`exec_db_query`](crate::wechat::exec_db_query).
pub fn exec_db_query_request(db: String, sql: String) -> (request: Request)
    ensures
        request@ == exec_db_query_asks(db@, sql@),
{
    Request {
        func: Functions::FuncExecDbQuery.to_i32(),
        msg: Some(Msg::Query(DbQuery { db, sql })),
    }
}

/// What the request of [`send_text`](crate::wechat::send_text) holds.
pub open spec fn send_text_asks(
    msg: Seq<char>,
    receiver: Seq<char>,
    aters: Seq<char>,
) -> RequestView {
    RequestView {
        func: Functions::FuncSendTxt.number(),
        msg: Some(MsgView::Txt(TextMsgView { msg, receiver, aters })),
    }
}

/// The request of [`send_text`](crate::wechat::send_text).
pub fn send_text_request(msg: String, receiver: String, aters: String) -> (request: Request)
    ensures
        request@ == send_text_asks(msg@, receiver@, aters@),
{
    Request {
        func: Functions::FuncSendTxt.to_i32(),
        msg: Some(Msg::Txt(TextMsg { msg, receiver, aters })),
    }
}

/// What the request of [`send_image`](crate::wechat::send_image) holds.
pub open spec fn send_image_asks(path: Seq<char>, receiver: Seq<char>) -> RequestView {
    RequestView {
        func: Functions::FuncSendImg.number(),
        msg: Some(MsgView::File(PathMsgView { path, receiver })),
    }
}

/// The request of [`send_image`](crate::wechat::send_image).
pub fn send_image_request(path: String, receiver: String) -> (request: Request)
    ensures
        request@ == send_image_asks(path@, receiver@),
{
    Request {
        func: Functions::FuncSendImg.to_i32(),
        msg: Some(Msg::File(PathMsg { path, receiver })),
    }
}

/// What the request of [`send_file`](crate::wechat::send_file) holds.
pub open spec fn send_file_asks(path: Seq<char>, receiver: Seq<char>) -> RequestView {
    RequestView {
        func: Functions::FuncSendFile.number(),
        msg: Some(MsgView::File(PathMsgView { path, receiver })),
    }
}

/// The request of [`send_file`](crate::wechat::send_file).
pub fn send_file_request(path: String, receiver: String) -> (request: Request)
    ensures
        request@ == send_file_asks(path@, receiver@),
{
    Request {
        func: Functions::FuncSendFile.to_i32(),
        msg: Some(Msg::File(PathMsg { path, receiver })),
    }
}

/// What the request of [`send_xml`](crate::wechat::send_xml) holds.
pub open spec fn send_xml_asks(
    xml: Seq<char>,
    path: Seq<char>,
    receiver: Seq<char>,
    xml_type: i32,
) -> RequestView {
    RequestView {
        func: Functions::FuncSendXml.number(),
        msg: Some(
            MsgView::Xml(
                XmlMsgView {
                    receiver,
                    content: xml,
                    path,
                    type_: xml_type,
                },
            ),
        ),
    }
}

/// The request of [`send_xml`](crate::wechat::send_xml).
pub fn send_xml_request(
    xml: String,
    path: String,
    receiver: String,
    xml_type: i32,
) -> (request: Request)
    ensures
        request@ == send_xml_asks(xml@, path@, receiver@, xml_type),
{
    Request {
        func: Functions::FuncSendXml.to_i32(),
        msg: Some(Msg::Xml(XmlMsg { receiver, content: xml, path, type_: xml_type })),
    }
}

/// What the request of [`send_emotion`](crate::wechat::send_emotion) holds.
pub open spec fn send_emotion_asks(path: Seq<char>, receiver: Seq<char>) -> RequestView {
    RequestView {
        func: Functions::FuncSendEmotion.number(),
        msg: Some(MsgView::File(PathMsgView { path, receiver })),
    }
}

/// The request of [`send_emotion`](crate::wechat::send_emotion).
pub fn send_emotion_request(path: String, receiver: String) -> (request: Request)
    ensures
        request@ == send_emotion_asks(path@, receiver@),
{
    Request {
        func: Functions::FuncSendEmotion.to_i32(),
        msg: Some(Msg::File(PathMsg { path, receiver })),
    }
}

/// What the request of [`get_msg_types`](crate::wechat::get_msg_types) holds.
pub open spec fn get_msg_types_asks() -> RequestView {
    RequestView {
        func: Functions::FuncGetMsgTypes.number(),
        msg: None,
    }
}

/// The request of [`get_msg_types`](crate::wechat::get_msg_types).
pub fn get_msg_types_request() -> (request: Request)
    ensures
        request@ == get_msg_types_asks(),
{
    Request { func: Functions::FuncGetMsgTypes.to_i32(), msg: None }
}

/// What the request of [`accept_new_friend`](crate::wechat::accept_new_friend) holds.
pub open spec fn accept_new_friend_asks(v3: Seq<char>, v4: Seq<char>, scene: i32) -> RequestView {
    RequestView {
        func: Functions::FuncAcceptFriend.number(),
        msg: Some(MsgView::V(VerificationView { v3, v4, scene })),
    }
}

/// The request of [`accept_new_friend`](crate::wechat::accept_new_friend).
pub fn accept_new_friend_request(v3: String, v4: String, scene: i32) -> (request: Request)
    ensures
        request@ == accept_new_friend_asks(v3@, v4@, scene),
{
    Request {
        func: Functions::FuncAcceptFriend.to_i32(),
        msg: Some(Msg::V(Verification { v3, v4, scene })),
    }
}

/// What the request of [`add_chatroom_members`](crate::wechat::add_chatroom_members) holds.
pub open spec fn add_chatroom_members_asks(roomid: Seq<char>, wxids: Seq<char>) -> RequestView {
    RequestView {
        func: Functions::FuncAddRoomMembers.number(),
        msg: Some(MsgView::M(AddMembersView { roomid, wxids })),
    }
}

/// The request of [`add_chatroom_members`](crate::wechat::add_chatroom_members).
pub fn add_chatroom_members_request(roomid: String, wxids: String) -> (request: Request)
    ensures
        request@ == add_chatroom_members_asks(roomid@, wxids@),
{
    Request {
        func: Functions::FuncAddRoomMembers.to_i32(),
        msg: Some(Msg::M(AddMembers { roomid, wxids })),
    }
}

/// What the request of [`del_chatroom_members`](crate::wechat::del_chatroom_members) holds.
pub open spec fn del_chatroom_members_asks(roomid: Seq<char>, wxids: Seq<char>) -> RequestView {
    RequestView {
        func: Functions::FuncDelRoomMembers.number(),
        msg: Some(MsgView::M(AddMembersView { roomid, wxids })),
    }
}

/// The request of [`del_chatroom_members`](crate::wechat::del_chatroom_members).
pub fn del_chatroom_members_request(roomid: String, wxids: String) -> (request: Request)
    ensures
        request@ == del_chatroom_members_asks(roomid@, wxids@),
{
    Request {
        func: Functions::FuncDelRoomMembers.to_i32(),
        msg: Some(Msg::M(AddMembers { roomid, wxids })),
    }
}

/// What the request of [`decrypt_image`](crate::wechat::decrypt_image) holds.
pub open spec fn decrypt_image_asks(src: Seq<char>, dst: Seq<char>) -> RequestView {
    RequestView {
        func: Functions::FuncDecryptImage.number(),
        msg: Some(MsgView::Dec(DecPathView { src, dst })),
    }
}

/// The request of [`decrypt_image`](crate::wechat::decrypt_image).
pub fn decrypt_image_request(src: String, dst: String) -> (request: Request)
    ensures
        request@ == decrypt_image_asks(src@, dst@),
{
    Request {
        func: Functions::FuncDecryptImage.to_i32(),
        msg: Some(Msg::Dec(DecPath { src, dst })),
    }
}

/// What the request of [`recv_transfer`](crate::wechat::recv_transfer) holds.
pub open spec fn recv_transfer_asks(
    wxid: Seq<char>,
    transferid: Seq<char>,
    transcationid: Seq<char>,
) -> RequestView {
    RequestView {
        func: Functions::FuncRecvTransfer.number(),
        msg: Some(
            MsgView::Tf(
                TransferView {
                    wxid,
                    tfid: transferid,
                    taid: transcationid,
                },
            ),
        ),
    }
}

/// The request of [`recv_transfer`](crate::wechat::recv_transfer).
pub fn recv_transfer_request(
    wxid: String,
    transferid: String,
    transcationid: String,
) -> (request: Request)
    ensures
        request@ == recv_transfer_asks(wxid@, transferid@, transcationid@),
{
    Request {
        func: Functions::FuncRecvTransfer.to_i32(),
        msg: Some(Msg::Tf(Transfer { wxid, tfid: transferid, taid: transcationid })),
    }
}

/// What the request of [`refresh_pyq`](crate::wechat::refresh_pyq) holds.
pub open spec fn refresh_pyq_asks(id: u64) -> RequestView {
    RequestView {
        func: Functions::FuncRefreshPyq.number(),
        msg: Some(MsgView::Ui64(id)),
    }
}

/// The request of [`refresh_pyq`](crate::wechat::refresh_pyq).
pub fn refresh_pyq_request(id: u64) -> (request: Request)
    ensures
        request@ == refresh_pyq_asks(id),
{
    Request { func: Functions::FuncRefreshPyq.to_i32(), msg: Some(Msg::Ui64(id)) }
}

/// What the request of [`enable_listen`](crate::wechat::enable_listen) holds.
pub open spec fn enable_listen_asks() -> RequestView {
    RequestView {
        func: Functions::FuncEnableRecvTxt.number(),
        msg: Some(MsgView::Flag(true)),
    }
}

/// The request of [`enable_listen`](crate::wechat::enable_listen).
pub fn enable_listen_request() -> (request: Request)
    ensures
        request@ == enable_listen_asks(),
{
    Request { func: Functions::FuncEnableRecvTxt.to_i32(), msg: Some(Msg::Flag(true)) }
}

/// What the request of [`disable_listen`](crate::wechat::disable_listen) holds.
pub open spec fn disable_listen_asks() -> RequestView {
    RequestView {
        func: Functions::FuncDisableRecvTxt.number(),
        msg: None,
    }
}

/// The request of [`disable_listen`](crate::wechat::disable_listen).
pub fn disable_listen_request() -> (request: Request)
    ensures
        request@ == disable_listen_asks(),
{
    Request { func: Functions::FuncDisableRecvTxt.to_i32(), msg: None }
}

} // verus!
