//! The envelope that goes to the worker.

use vstd::prelude::*;
use crate::message::{
    Message, Schema, lemma_absorb_first, lemma_absorb_next, lemma_appended,
    lemma_message_round_trip, merge_message, message_fits, message_payload, payload_merged,
    put_message_field,
};
use crate::scalar::{
    flag_payload, flag_to_bits, int32_member, int32_payload, lemma_flag_round_trip,
    lemma_int32_round_trip, lemma_text_round_trip, optional, payload_flag, payload_int32,
    payload_text, payload_uint64, put_int32, put_text_field, read_flag, read_int32, read_text,
    read_uint64, text_fits, text_payload, uint64_payload,
};
use crate::wcf::{
    AddMembers, AddMembersView, DbQuery, DbQueryView, DecPath, DecPathView, Empty, EmptyView,
    PathMsg, PathMsgView, TextMsg, TextMsgView, Transfer, TransferView, Verification,
    VerificationView, XmlMsg, XmlMsgView,
};
use crate::wire::{
    Field, RECURSION_LIMIT, RawField, field_wf, lemma_fields_bytes_empty, lemma_fields_bytes_one,
    put_varint_field,
};

verus! {

/// The argument of a request.
#[derive(Clone, Debug, PartialEq, Eq)]
pub enum Msg {
    /// No argument, said in so many bytes.
    Empty(Empty),
    /// A text.
    Str(String),
    /// A text to send.
    Txt(TextMsg),
    /// A file, a picture or an emotion to send.
    File(PathMsg),
    /// A query on a database.
    Query(DbQuery),
    /// The answer to a friend request.
    V(Verification),
    /// Members of a chat room to add or to remove.
    M(AddMembers),
    /// An XML message to send.
    Xml(XmlMsg),
    /// A picture to decrypt.
    Dec(DecPath),
    /// A transfer to accept.
    Tf(Transfer),
    /// A 64-bit number.
    Ui64(u64),
    /// A flag.
    Flag(bool),
}

/// What a [`Msg`] holds.
pub enum MsgView {
    Empty(EmptyView),
    Str(Seq<char>),
    Txt(TextMsgView),
    File(PathMsgView),
    Query(DbQueryView),
    V(VerificationView),
    M(AddMembersView),
    Xml(XmlMsgView),
    Dec(DecPathView),
    Tf(TransferView),
    Ui64(u64),
    Flag(bool),
}

impl View for Msg {
    type V = MsgView;

    open spec fn view(&self) -> MsgView {
        match self {
            Msg::Empty(x) => MsgView::Empty(x@),
            Msg::Str(x) => MsgView::Str(x@),
            Msg::Txt(x) => MsgView::Txt(x@),
            Msg::File(x) => MsgView::File(x@),
            Msg::Query(x) => MsgView::Query(x@),
            Msg::V(x) => MsgView::V(x@),
            Msg::M(x) => MsgView::M(x@),
            Msg::Xml(x) => MsgView::Xml(x@),
            Msg::Dec(x) => MsgView::Dec(x@),
            Msg::Tf(x) => MsgView::Tf(x@),
            Msg::Ui64(x) => MsgView::Ui64(*x),
            Msg::Flag(x) => MsgView::Flag(*x),
        }
    }
}

/// A request: the function to call and its argument.
#[derive(Clone, Debug, PartialEq, Eq)]
pub struct Request {
    /// The function that the envelope is for: a number of [`Functions`](crate::wcf::Functions).
    pub func: i32,
    /// What the envelope carries, if anything.
    pub msg: Option<Msg>,
}

/// What a [`Request`] holds.
pub struct RequestView {
    pub func: i32,
    pub msg: Option<MsgView>,
}

impl View for Request {
    type V = RequestView;

    open spec fn view(&self) -> RequestView {
        RequestView {
            func: self.func,
            msg: match self.msg {
                Some(m) => Some(m@),
                None => None,
            },
        }
    }
}

/// The field that is written for what an envelope carries. It is written
/// whatever the value: an empty text or a zero too.
pub open spec fn msg_field(m: MsgView) -> Field {
    match m {
        MsgView::Empty(x) => Field { tag: 2, value: message_payload::<Empty>(x) },
        MsgView::Str(x) => Field { tag: 3, value: text_payload(x) },
        MsgView::Txt(x) => Field { tag: 4, value: message_payload::<TextMsg>(x) },
        MsgView::File(x) => Field { tag: 5, value: message_payload::<PathMsg>(x) },
        MsgView::Query(x) => Field { tag: 6, value: message_payload::<DbQuery>(x) },
        MsgView::V(x) => Field { tag: 7, value: message_payload::<Verification>(x) },
        MsgView::M(x) => Field { tag: 8, value: message_payload::<AddMembers>(x) },
        MsgView::Xml(x) => Field { tag: 9, value: message_payload::<XmlMsg>(x) },
        MsgView::Dec(x) => Field { tag: 10, value: message_payload::<DecPath>(x) },
        MsgView::Tf(x) => Field { tag: 11, value: message_payload::<Transfer>(x) },
        MsgView::Ui64(x) => Field { tag: 12, value: uint64_payload(x) },
        MsgView::Flag(x) => Field { tag: 13, value: flag_payload(x) },
    }
}

/// What an envelope carries can be written.
pub open spec fn msg_fits(m: MsgView) -> bool {
    match m {
        MsgView::Empty(x) => message_fits::<Empty>(x),
        MsgView::Str(x) => text_fits(x),
        MsgView::Txt(x) => message_fits::<TextMsg>(x),
        MsgView::File(x) => message_fits::<PathMsg>(x),
        MsgView::Query(x) => message_fits::<DbQuery>(x),
        MsgView::V(x) => message_fits::<Verification>(x),
        MsgView::M(x) => message_fits::<AddMembers>(x),
        MsgView::Xml(x) => message_fits::<XmlMsg>(x),
        MsgView::Dec(x) => message_fits::<DecPath>(x),
        MsgView::Tf(x) => message_fits::<Transfer>(x),
        MsgView::Ui64(x) => true,
        MsgView::Flag(x) => true,
    }
}

/// The `Empty` that an envelope holds so far, blank where it holds none.
pub open spec fn held_empty(msg: Option<MsgView>) -> EmptyView {
    match msg {
        Some(MsgView::Empty(x)) => x,
        _ => Empty::blank(),
    }
}

/// The `TextMsg` that an envelope holds so far, blank where it holds none.
pub open spec fn held_txt(msg: Option<MsgView>) -> TextMsgView {
    match msg {
        Some(MsgView::Txt(x)) => x,
        _ => TextMsg::blank(),
    }
}

/// The `PathMsg` that an envelope holds so far, blank where it holds none.
pub open spec fn held_file(msg: Option<MsgView>) -> PathMsgView {
    match msg {
        Some(MsgView::File(x)) => x,
        _ => PathMsg::blank(),
    }
}

/// The `DbQuery` that an envelope holds so far, blank where it holds none.
pub open spec fn held_query(msg: Option<MsgView>) -> DbQueryView {
    match msg {
        Some(MsgView::Query(x)) => x,
        _ => DbQuery::blank(),
    }
}

/// The `Verification` that an envelope holds so far, blank where it holds none.
pub open spec fn held_v(msg: Option<MsgView>) -> VerificationView {
    match msg {
        Some(MsgView::V(x)) => x,
        _ => Verification::blank(),
    }
}

/// The `AddMembers` that an envelope holds so far, blank where it holds none.
pub open spec fn held_m(msg: Option<MsgView>) -> AddMembersView {
    match msg {
        Some(MsgView::M(x)) => x,
        _ => AddMembers::blank(),
    }
}

/// The `XmlMsg` that an envelope holds so far, blank where it holds none.
pub open spec fn held_xml(msg: Option<MsgView>) -> XmlMsgView {
    match msg {
        Some(MsgView::Xml(x)) => x,
        _ => XmlMsg::blank(),
    }
}

/// The `DecPath` that an envelope holds so far, blank where it holds none.
pub open spec fn held_dec(msg: Option<MsgView>) -> DecPathView {
    match msg {
        Some(MsgView::Dec(x)) => x,
        _ => DecPath::blank(),
    }
}

/// The `Transfer` that an envelope holds so far, blank where it holds none.
pub open spec fn held_tf(msg: Option<MsgView>) -> TransferView {
    match msg {
        Some(MsgView::Tf(x)) => x,
        _ => Transfer::blank(),
    }
}

impl Schema for Request {
    open spec fn group_limit() -> nat {
        RECURSION_LIMIT as nat
    }

    open spec fn blank() -> RequestView {
        RequestView { func: 0, msg: None }
    }

    open spec fn absorb(acc: RequestView, f: Field) -> Option<RequestView> {
        if f.tag == 1 {
            match payload_int32(f.value) {
                Some(x) => Some(RequestView { func: x, ..acc }),
                None => None,
            }
        } else if f.tag == 2 {
            match payload_merged::<Empty>(held_empty(acc.msg), f.value) {
                Some(x) => Some(RequestView { msg: Some(MsgView::Empty(x)), ..acc }),
                None => None,
            }
        } else if f.tag == 3 {
            match payload_text(f.value) {
                Some(x) => Some(RequestView { msg: Some(MsgView::Str(x)), ..acc }),
                None => None,
            }
        } else if f.tag == 4 {
            match payload_merged::<TextMsg>(held_txt(acc.msg), f.value) {
                Some(x) => Some(RequestView { msg: Some(MsgView::Txt(x)), ..acc }),
                None => None,
            }
        } else if f.tag == 5 {
            match payload_merged::<PathMsg>(held_file(acc.msg), f.value) {
                Some(x) => Some(RequestView { msg: Some(MsgView::File(x)), ..acc }),
                None => None,
            }
        } else if f.tag == 6 {
            match payload_merged::<DbQuery>(held_query(acc.msg), f.value) {
                Some(x) => Some(RequestView { msg: Some(MsgView::Query(x)), ..acc }),
                None => None,
            }
        } else if f.tag == 7 {
            match payload_merged::<Verification>(held_v(acc.msg), f.value) {
                Some(x) => Some(RequestView { msg: Some(MsgView::V(x)), ..acc }),
                None => None,
            }
        } else if f.tag == 8 {
            match payload_merged::<AddMembers>(held_m(acc.msg), f.value) {
                Some(x) => Some(RequestView { msg: Some(MsgView::M(x)), ..acc }),
                None => None,
            }
        } else if f.tag == 9 {
            match payload_merged::<XmlMsg>(held_xml(acc.msg), f.value) {
                Some(x) => Some(RequestView { msg: Some(MsgView::Xml(x)), ..acc }),
                None => None,
            }
        } else if f.tag == 10 {
            match payload_merged::<DecPath>(held_dec(acc.msg), f.value) {
                Some(x) => Some(RequestView { msg: Some(MsgView::Dec(x)), ..acc }),
                None => None,
            }
        } else if f.tag == 11 {
            match payload_merged::<Transfer>(held_tf(acc.msg), f.value) {
                Some(x) => Some(RequestView { msg: Some(MsgView::Tf(x)), ..acc }),
                None => None,
            }
        } else if f.tag == 12 {
            match payload_uint64(f.value) {
                Some(x) => Some(RequestView { msg: Some(MsgView::Ui64(x)), ..acc }),
                None => None,
            }
        } else if f.tag == 13 {
            match payload_flag(f.value) {
                Some(x) => Some(RequestView { msg: Some(MsgView::Flag(x)), ..acc }),
                None => None,
            }
        } else {
            Some(acc)
        }
    }

    open spec fn fields(v: RequestView) -> Seq<Field> {
        int32_member(1, v.func) + match v.msg {
            Some(m) => seq![msg_field(m)],
            None => Seq::empty(),
        }
    }

    open spec fn representable(v: RequestView) -> bool {
        match v.msg {
            Some(m) => msg_fits(m),
            None => true,
        }
    }
}

impl Message for Request {
    fn limit() -> (n: u32) {
        RECURSION_LIMIT
    }

    proof fn lemma_fields_absorbed(v: RequestView) {
        let f1 = Field { tag: 1, value: int32_payload(v.func) };
        let on1 = v.func != 0;
        let a0 = Self::blank();
        let a1 = RequestView { func: v.func, ..a0 };
        let s1 = optional(on1, f1);
        assert(on1 ==> field_wf(f1) && Self::absorb(a0, f1) == Some(a1)) by {
            lemma_int32_round_trip(v.func);
        }
        lemma_absorb_first::<Self>(a0, on1, f1, a1);
        match v.msg {
            Some(m) => {
                let f2 = msg_field(m);
                assert(field_wf(f2) && Self::absorb(a1, f2) == Some(v)) by {
                    match m {
                        MsgView::Empty(x) => {
                            lemma_message_round_trip::<Empty>(x);
                        },
                        MsgView::Str(x) => {
                            lemma_text_round_trip(x);
                        },
                        MsgView::Txt(x) => {
                            lemma_message_round_trip::<TextMsg>(x);
                        },
                        MsgView::File(x) => {
                            lemma_message_round_trip::<PathMsg>(x);
                        },
                        MsgView::Query(x) => {
                            lemma_message_round_trip::<DbQuery>(x);
                        },
                        MsgView::V(x) => {
                            lemma_message_round_trip::<Verification>(x);
                        },
                        MsgView::M(x) => {
                            lemma_message_round_trip::<AddMembers>(x);
                        },
                        MsgView::Xml(x) => {
                            lemma_message_round_trip::<XmlMsg>(x);
                        },
                        MsgView::Dec(x) => {
                            lemma_message_round_trip::<DecPath>(x);
                        },
                        MsgView::Tf(x) => {
                            lemma_message_round_trip::<Transfer>(x);
                        },
                        MsgView::Ui64(x) => {},
                        MsgView::Flag(x) => {
                            lemma_flag_round_trip(x);
                        },
                    }
                }
                lemma_absorb_next::<Self>(a0, s1, a1, true, f2, v);
                assert(Self::fields(v) =~= s1 + optional(true, f2));
            },
            None => {
                assert(Self::fields(v) =~= s1);
                assert(a1 == v);
            },
        }
    }

    fn new() -> (m: Self) {
        Request { func: 0, msg: None }
    }

    fn merge(self, f: &RawField<'_>) -> (r: Option<Self>) {
        if f.tag == 1 {
            match read_int32(&f.value) {
                Some(x) => Some(Request { func: x, ..self }),
                None => None,
            }
        } else if f.tag == 2 {
            let base = match self.msg {
                Some(Msg::Empty(x)) => x,
                _ => Empty::new(),
            };
            match merge_message(base, &f.value) {
                Some(x) => Some(Request { func: self.func, msg: Some(Msg::Empty(x)) }),
                None => None,
            }
        } else if f.tag == 3 {
            match read_text(&f.value) {
                Some(x) => Some(Request { msg: Some(Msg::Str(x)), ..self }),
                None => None,
            }
        } else if f.tag == 4 {
            let base = match self.msg {
                Some(Msg::Txt(x)) => x,
                _ => TextMsg::new(),
            };
            match merge_message(base, &f.value) {
                Some(x) => Some(Request { func: self.func, msg: Some(Msg::Txt(x)) }),
                None => None,
            }
        } else if f.tag == 5 {
            let base = match self.msg {
                Some(Msg::File(x)) => x,
                _ => PathMsg::new(),
            };
            match merge_message(base, &f.value) {
                Some(x) => Some(Request { func: self.func, msg: Some(Msg::File(x)) }),
                None => None,
            }
        } else if f.tag == 6 {
            let base = match self.msg {
                Some(Msg::Query(x)) => x,
                _ => DbQuery::new(),
            };
            match merge_message(base, &f.value) {
                Some(x) => Some(Request { func: self.func, msg: Some(Msg::Query(x)) }),
                None => None,
            }
        } else if f.tag == 7 {
            let base = match self.msg {
                Some(Msg::V(x)) => x,
                _ => Verification::new(),
            };
            match merge_message(base, &f.value) {
                Some(x) => Some(Request { func: self.func, msg: Some(Msg::V(x)) }),
                None => None,
            }
        } else if f.tag == 8 {
            let base = match self.msg {
                Some(Msg::M(x)) => x,
                _ => AddMembers::new(),
            };
            match merge_message(base, &f.value) {
                Some(x) => Some(Request { func: self.func, msg: Some(Msg::M(x)) }),
                None => None,
            }
        } else if f.tag == 9 {
            let base = match self.msg {
                Some(Msg::Xml(x)) => x,
                _ => XmlMsg::new(),
            };
            match merge_message(base, &f.value) {
                Some(x) => Some(Request { func: self.func, msg: Some(Msg::Xml(x)) }),
                None => None,
            }
        } else if f.tag == 10 {
            let base = match self.msg {
                Some(Msg::Dec(x)) => x,
                _ => DecPath::new(),
            };
            match merge_message(base, &f.value) {
                Some(x) => Some(Request { func: self.func, msg: Some(Msg::Dec(x)) }),
                None => None,
            }
        } else if f.tag == 11 {
            let base = match self.msg {
                Some(Msg::Tf(x)) => x,
                _ => Transfer::new(),
            };
            match merge_message(base, &f.value) {
                Some(x) => Some(Request { func: self.func, msg: Some(Msg::Tf(x)) }),
                None => None,
            }
        } else if f.tag == 12 {
            match read_uint64(&f.value) {
                Some(x) => Some(Request { msg: Some(Msg::Ui64(x)), ..self }),
                None => None,
            }
        } else if f.tag == 13 {
            match read_flag(&f.value) {
                Some(x) => Some(Request { msg: Some(Msg::Flag(x)), ..self }),
                None => None,
            }
        } else {
            Some(self)
        }
    }

    fn write(&self, buf: &mut Vec<u8>) {
        let ghost v = self@;
        let ghost s1 = int32_member(1, v.func);
        put_int32(buf, 1, self.func);
        let ghost b1 = buf@;
        match &self.msg {
            Some(m) => {
                match m {
                    Msg::Empty(x) => put_message_field(buf, 2, x),
                    Msg::Str(x) => put_text_field(buf, 3, x.as_str()),
                    Msg::Txt(x) => put_message_field(buf, 4, x),
                    Msg::File(x) => put_message_field(buf, 5, x),
                    Msg::Query(x) => put_message_field(buf, 6, x),
                    Msg::V(x) => put_message_field(buf, 7, x),
                    Msg::M(x) => put_message_field(buf, 8, x),
                    Msg::Xml(x) => put_message_field(buf, 9, x),
                    Msg::Dec(x) => put_message_field(buf, 10, x),
                    Msg::Tf(x) => put_message_field(buf, 11, x),
                    Msg::Ui64(x) => put_varint_field(buf, 12, *x),
                    Msg::Flag(x) => put_varint_field(buf, 13, flag_to_bits(*x)),
                }
                proof {
                    lemma_fields_bytes_one(msg_field(m@));
                    lemma_appended(old(buf)@, s1, b1, seq![msg_field(m@)], buf@);
                }
            },
            None => {
                proof {
                    lemma_fields_bytes_empty();
                    lemma_appended(old(buf)@, s1, b1, Seq::empty(), buf@);
                }
            },
        }
    }
}

} // verus!
