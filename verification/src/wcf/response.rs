//! The envelope that comes from the worker.

use vstd::prelude::*;
use crate::message::{
    Message, Schema, lemma_absorb_first, lemma_absorb_next, lemma_appended,
    lemma_message_round_trip, merge_message, message_fits, message_payload, payload_merged,
    put_message_field,
};
use crate::scalar::{
    int32_member, int32_payload, int32_to_bits, lemma_int32_round_trip, lemma_text_round_trip,
    optional, payload_int32, payload_text, put_int32, put_text_field, read_int32, read_text,
    text_fits, text_payload,
};
use crate::wcf::{
    DbNames, DbNamesView, DbRows, DbRowsView, DbTables, DbTablesView, MsgTypes, MsgTypesView,
    RpcContacts, RpcContactsView, UserInfo, UserInfoView, WxMsg, WxMsgView,
};
use crate::wire::{
    Field, RECURSION_LIMIT, RawField, field_wf, lemma_fields_bytes_empty, lemma_fields_bytes_one,
    put_varint_field,
};

verus! {

/// The result of a call, or a message that the worker pushes.
#[derive(Clone, Debug, PartialEq, Eq)]
pub enum Msg {
    /// A status code.
    Status(i32),
    /// A text.
    Str(String),
    /// A message that the account received: what the worker pushes.
    Wxmsg(WxMsg),
    /// The names of the types of message.
    Types(MsgTypes),
    /// The contacts.
    Contacts(RpcContacts),
    /// The names of the databases.
    Dbs(DbNames),
    /// The tables of a database.
    Tables(DbTables),
    /// The rows of a query.
    Rows(DbRows),
    /// The account that is logged in.
    Ui(UserInfo),
}

/// What a [`Msg`] holds.
pub enum MsgView {
    Status(i32),
    Str(Seq<char>),
    Wxmsg(WxMsgView),
    Types(MsgTypesView),
    Contacts(RpcContactsView),
    Dbs(DbNamesView),
    Tables(DbTablesView),
    Rows(DbRowsView),
    Ui(UserInfoView),
}

impl View for Msg {
    type V = MsgView;

    open spec fn view(&self) -> MsgView {
        match self {
            Msg::Status(x) => MsgView::Status(*x),
            Msg::Str(x) => MsgView::Str(x@),
            Msg::Wxmsg(x) => MsgView::Wxmsg(x@),
            Msg::Types(x) => MsgView::Types(x@),
            Msg::Contacts(x) => MsgView::Contacts(x@),
            Msg::Dbs(x) => MsgView::Dbs(x@),
            Msg::Tables(x) => MsgView::Tables(x@),
            Msg::Rows(x) => MsgView::Rows(x@),
            Msg::Ui(x) => MsgView::Ui(x@),
        }
    }
}

/// A response: the function that was called and its result.
#[derive(Clone, Debug, PartialEq, Eq)]
pub struct Response {
    /// The function that the envelope is for: a number of [`Functions`](crate::wcf::Functions).
    pub func: i32,
    /// What the envelope carries, if anything.
    pub msg: Option<Msg>,
}

/// What a [`Response`] holds.
pub struct ResponseView {
    pub func: i32,
    pub msg: Option<MsgView>,
}

impl View for Response {
    type V = ResponseView;

    open spec fn view(&self) -> ResponseView {
        ResponseView {
            func: self.func,
            msg: match self.msg {
                Some(m) => Some(m@),
                None => None,
            },
        }
    }
}

/// The field that is written for what an envelope carries. It is written
/// whatever the value: an empty text or a zero too.
pub open spec fn msg_field(m: MsgView) -> Field {
    match m {
        MsgView::Status(x) => Field { tag: 2, value: int32_payload(x) },
        MsgView::Str(x) => Field { tag: 3, value: text_payload(x) },
        MsgView::Wxmsg(x) => Field { tag: 4, value: message_payload::<WxMsg>(x) },
        MsgView::Types(x) => Field { tag: 5, value: message_payload::<MsgTypes>(x) },
        MsgView::Contacts(x) => Field { tag: 6, value: message_payload::<RpcContacts>(x) },
        MsgView::Dbs(x) => Field { tag: 7, value: message_payload::<DbNames>(x) },
        MsgView::Tables(x) => Field { tag: 8, value: message_payload::<DbTables>(x) },
        MsgView::Rows(x) => Field { tag: 9, value: message_payload::<DbRows>(x) },
        MsgView::Ui(x) => Field { tag: 10, value: message_payload::<UserInfo>(x) },
    }
}

/// What an envelope carries can be written.
pub open spec fn msg_fits(m: MsgView) -> bool {
    match m {
        MsgView::Status(x) => true,
        MsgView::Str(x) => text_fits(x),
        MsgView::Wxmsg(x) => message_fits::<WxMsg>(x),
        MsgView::Types(x) => message_fits::<MsgTypes>(x),
        MsgView::Contacts(x) => message_fits::<RpcContacts>(x),
        MsgView::Dbs(x) => message_fits::<DbNames>(x),
        MsgView::Tables(x) => message_fits::<DbTables>(x),
        MsgView::Rows(x) => message_fits::<DbRows>(x),
        MsgView::Ui(x) => message_fits::<UserInfo>(x),
    }
}

/// The `WxMsg` that an envelope holds so far, blank where it holds none.
pub open spec fn held_wxmsg(msg: Option<MsgView>) -> WxMsgView {
    match msg {
        Some(MsgView::Wxmsg(x)) => x,
        _ => WxMsg::blank(),
    }
}

/// The `MsgTypes` that an envelope holds so far, blank where it holds none.
pub open spec fn held_types(msg: Option<MsgView>) -> MsgTypesView {
    match msg {
        Some(MsgView::Types(x)) => x,
        _ => MsgTypes::blank(),
    }
}

/// The `RpcContacts` that an envelope holds so far, blank where it holds none.
pub open spec fn held_contacts(msg: Option<MsgView>) -> RpcContactsView {
    match msg {
        Some(MsgView::Contacts(x)) => x,
        _ => RpcContacts::blank(),
    }
}

/// The `DbNames` that an envelope holds so far, blank where it holds none.
pub open spec fn held_dbs(msg: Option<MsgView>) -> DbNamesView {
    match msg {
        Some(MsgView::Dbs(x)) => x,
        _ => DbNames::blank(),
    }
}

/// The `DbTables` that an envelope holds so far, blank where it holds none.
pub open spec fn held_tables(msg: Option<MsgView>) -> DbTablesView {
    match msg {
        Some(MsgView::Tables(x)) => x,
        _ => DbTables::blank(),
    }
}

/// The `DbRows` that an envelope holds so far, blank where it holds none.
pub open spec fn held_rows(msg: Option<MsgView>) -> DbRowsView {
    match msg {
        Some(MsgView::Rows(x)) => x,
        _ => DbRows::blank(),
    }
}

/// The `UserInfo` that an envelope holds so far, blank where it holds none.
pub open spec fn held_ui(msg: Option<MsgView>) -> UserInfoView {
    match msg {
        Some(MsgView::Ui(x)) => x,
        _ => UserInfo::blank(),
    }
}

impl Schema for Response {
    open spec fn group_limit() -> nat {
        RECURSION_LIMIT as nat
    }

    open spec fn blank() -> ResponseView {
        ResponseView { func: 0, msg: None }
    }

    open spec fn absorb(acc: ResponseView, f: Field) -> Option<ResponseView> {
        if f.tag == 1 {
            match payload_int32(f.value) {
                Some(x) => Some(ResponseView { func: x, ..acc }),
                None => None,
            }
        } else if f.tag == 2 {
            match payload_int32(f.value) {
                Some(x) => Some(ResponseView { msg: Some(MsgView::Status(x)), ..acc }),
                None => None,
            }
        } else if f.tag == 3 {
            match payload_text(f.value) {
                Some(x) => Some(ResponseView { msg: Some(MsgView::Str(x)), ..acc }),
                None => None,
            }
        } else if f.tag == 4 {
            match payload_merged::<WxMsg>(held_wxmsg(acc.msg), f.value) {
                Some(x) => Some(ResponseView { msg: Some(MsgView::Wxmsg(x)), ..acc }),
                None => None,
            }
        } else if f.tag == 5 {
            match payload_merged::<MsgTypes>(held_types(acc.msg), f.value) {
                Some(x) => Some(ResponseView { msg: Some(MsgView::Types(x)), ..acc }),
                None => None,
            }
        } else if f.tag == 6 {
            match payload_merged::<RpcContacts>(held_contacts(acc.msg), f.value) {
                Some(x) => Some(ResponseView { msg: Some(MsgView::Contacts(x)), ..acc }),
                None => None,
            }
        } else if f.tag == 7 {
            match payload_merged::<DbNames>(held_dbs(acc.msg), f.value) {
                Some(x) => Some(ResponseView { msg: Some(MsgView::Dbs(x)), ..acc }),
                None => None,
            }
        } else if f.tag == 8 {
            match payload_merged::<DbTables>(held_tables(acc.msg), f.value) {
                Some(x) => Some(ResponseView { msg: Some(MsgView::Tables(x)), ..acc }),
                None => None,
            }
        } else if f.tag == 9 {
            match payload_merged::<DbRows>(held_rows(acc.msg), f.value) {
                Some(x) => Some(ResponseView { msg: Some(MsgView::Rows(x)), ..acc }),
                None => None,
            }
        } else if f.tag == 10 {
            match payload_merged::<UserInfo>(held_ui(acc.msg), f.value) {
                Some(x) => Some(ResponseView { msg: Some(MsgView::Ui(x)), ..acc }),
                None => None,
            }
        } else {
            Some(acc)
        }
    }

    open spec fn fields(v: ResponseView) -> Seq<Field> {
        int32_member(1, v.func) + match v.msg {
            Some(m) => seq![msg_field(m)],
            None => Seq::empty(),
        }
    }

    open spec fn representable(v: ResponseView) -> bool {
        match v.msg {
            Some(m) => msg_fits(m),
            None => true,
        }
    }
}

impl Message for Response {
    fn limit() -> (n: u32) {
        RECURSION_LIMIT
    }

    proof fn lemma_fields_absorbed(v: ResponseView) {
        let f1 = Field { tag: 1, value: int32_payload(v.func) };
        let on1 = v.func != 0;
        let a0 = Self::blank();
        let a1 = ResponseView { func: v.func, ..a0 };
        let s1 = optional(on1, f1);
        assert(on1 ==> field_wf(f1) && Self::absorb(a0, f1) == Some(a1)) by {
            lemma_int32_round_trip(v.func);
        }
        lemma_absorb_first::<Self>(a0, on1, f1, a1);
        match v.msg {
            Some(m) => {
                let f2 = msg_field(m);
                assert(field_wf(f2) && Self::absorb(a1, f2) == Some(v)) by {
                    match m {
                        MsgView::Status(x) => {
                            lemma_int32_round_trip(x);
                        },
                        MsgView::Str(x) => {
                            lemma_text_round_trip(x);
                        },
                        MsgView::Wxmsg(x) => {
                            lemma_message_round_trip::<WxMsg>(x);
                        },
                        MsgView::Types(x) => {
                            lemma_message_round_trip::<MsgTypes>(x);
                        },
                        MsgView::Contacts(x) => {
                            lemma_message_round_trip::<RpcContacts>(x);
                        },
                        MsgView::Dbs(x) => {
                            lemma_message_round_trip::<DbNames>(x);
                        },
                        MsgView::Tables(x) => {
                            lemma_message_round_trip::<DbTables>(x);
                        },
                        MsgView::Rows(x) => {
                            lemma_message_round_trip::<DbRows>(x);
                        },
                        MsgView::Ui(x) => {
                            lemma_message_round_trip::<UserInfo>(x);
                        },
                    }
                }
                lemma_absorb_next::<Self>(a0, s1, a1, true, f2, v);
                assert(Self::fields(v) =~= s1 + optional(true, f2));
            },
            None => {
                assert(Self::fields(v) =~= s1);
                assert(a1 == v);
            },
        }
    }

    fn new() -> (m: Self) {
        Response { func: 0, msg: None }
    }

    fn merge(self, f: &RawField<'_>) -> (r: Option<Self>) {
        if f.tag == 1 {
            match read_int32(&f.value) {
                Some(x) => Some(Response { func: x, ..self }),
                None => None,
            }
        } else if f.tag == 2 {
            match read_int32(&f.value) {
                Some(x) => Some(Response { msg: Some(Msg::Status(x)), ..self }),
                None => None,
            }
        } else if f.tag == 3 {
            match read_text(&f.value) {
                Some(x) => Some(Response { msg: Some(Msg::Str(x)), ..self }),
                None => None,
            }
        } else if f.tag == 4 {
            let base = match self.msg {
                Some(Msg::Wxmsg(x)) => x,
                _ => WxMsg::new(),
            };
            match merge_message(base, &f.value) {
                Some(x) => Some(Response { func: self.func, msg: Some(Msg::Wxmsg(x)) }),
                None => None,
            }
        } else if f.tag == 5 {
            let base = match self.msg {
                Some(Msg::Types(x)) => x,
                _ => MsgTypes::new(),
            };
            match merge_message(base, &f.value) {
                Some(x) => Some(Response { func: self.func, msg: Some(Msg::Types(x)) }),
                None => None,
            }
        } else if f.tag == 6 {
            let base = match self.msg {
                Some(Msg::Contacts(x)) => x,
                _ => RpcContacts::new(),
            };
            match merge_message(base, &f.value) {
                Some(x) => Some(Response { func: self.func, msg: Some(Msg::Contacts(x)) }),
                None => None,
            }
        } else if f.tag == 7 {
            let base = match self.msg {
                Some(Msg::Dbs(x)) => x,
                _ => DbNames::new(),
            };
            match merge_message(base, &f.value) {
                Some(x) => Some(Response { func: self.func, msg: Some(Msg::Dbs(x)) }),
                None => None,
            }
        } else if f.tag == 8 {
            let base = match self.msg {
                Some(Msg::Tables(x)) => x,
                _ => DbTables::new(),
            };
            match merge_message(base, &f.value) {
                Some(x) => Some(Response { func: self.func, msg: Some(Msg::Tables(x)) }),
                None => None,
            }
        } else if f.tag == 9 {
            let base = match self.msg {
                Some(Msg::Rows(x)) => x,
                _ => DbRows::new(),
            };
            match merge_message(base, &f.value) {
                Some(x) => Some(Response { func: self.func, msg: Some(Msg::Rows(x)) }),
                None => None,
            }
        } else if f.tag == 10 {
            let base = match self.msg {
                Some(Msg::Ui(x)) => x,
                _ => UserInfo::new(),
            };
            match merge_message(base, &f.value) {
                Some(x) => Some(Response { func: self.func, msg: Some(Msg::Ui(x)) }),
                None => None,
            }
        } else {
            Some(self)
        }
    }

    fn write(&self, buf: &mut Vec<u8>) {
        let ghost v = self@;
        let ghost s1 = int32_member(1, v.func);
        put_int32(buf, 1, self.func);
        let ghost b1 = buf@;
        match &self.msg {
            Some(m) => {
                match m {
                    Msg::Status(x) => put_varint_field(buf, 2, int32_to_bits(*x)),
                    Msg::Str(x) => put_text_field(buf, 3, x.as_str()),
                    Msg::Wxmsg(x) => put_message_field(buf, 4, x),
                    Msg::Types(x) => put_message_field(buf, 5, x),
                    Msg::Contacts(x) => put_message_field(buf, 6, x),
                    Msg::Dbs(x) => put_message_field(buf, 7, x),
                    Msg::Tables(x) => put_message_field(buf, 8, x),
                    Msg::Rows(x) => put_message_field(buf, 9, x),
                    Msg::Ui(x) => put_message_field(buf, 10, x),
                }
                proof {
                    lemma_fields_bytes_one(msg_field(m@));
                    lemma_appended(old(buf)@, s1, b1, seq![msg_field(m@)], buf@);
                }
            },
            None => {
                proof {
                    lemma_fields_bytes_empty();
                    lemma_appended(old(buf)@, s1, b1, Seq::empty(), buf@);
                }
            },
        }
    }
}

} // verus!
