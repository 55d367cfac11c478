//! The schema of the worker's protocol: the envelopes and what they carry.

pub mod account;
pub mod contacts;
pub mod database;
pub mod functions;
pub mod records;
pub mod request;
pub mod response;

pub use account::{
    MsgType, MsgTypeView, MsgTypes, MsgTypesView, UserInfo, UserInfoView, WxMsg, WxMsgView,
};
pub use contacts::{RpcContact, RpcContactView, RpcContacts, RpcContactsView};
pub use database::{
    DbField, DbFieldView, DbNames, DbNamesView, DbRow, DbRowView, DbRows, DbRowsView, DbTable,
    DbTableView, DbTables, DbTablesView,
};
pub use functions::Functions;
pub use records::{
    AddMembers, AddMembersView, DbQuery, DbQueryView, DecPath, DecPathView, Empty, EmptyView,
    PathMsg, PathMsgView, TextMsg, TextMsgView, Transfer, TransferView, Verification,
    VerificationView, XmlMsg, XmlMsgView,
};
pub use request::{Request, RequestView};
pub use response::{Response, ResponseView};
