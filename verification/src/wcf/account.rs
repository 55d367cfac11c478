//! What the worker tells of the account and of the messages it receives.

use vstd::prelude::*;
use crate::message::{
    Message, Schema, lemma_absorb_first, lemma_absorb_next, lemma_appended, payload_message,
    read_message,
};
use crate::repeated::{
    all_fit, appends_messages, lemma_repeated_absorbed, put_repeated, repeated_fields, views,
};
use crate::scalar::{
    flag_member, flag_payload, int32_member, int32_payload, lemma_int32_round_trip,
    lemma_text_round_trip, lemma_uint32_round_trip, payload_flag, payload_int32, payload_text,
    payload_uint32, payload_uint64, put_flag, put_int32, put_text, put_uint32, put_uint64,
    read_flag, read_int32, read_text, read_uint32, read_uint64, text_fits, text_member,
    text_payload, uint32_member, uint32_payload, uint64_member, uint64_payload,
};
use crate::wire::{Field, RECURSION_LIMIT, RawField, field_wf};

verus! {

/// The account that is logged in.
#[derive(Clone, Debug, PartialEq, Eq)]
pub struct UserInfo {
    /// The identifier.
    pub wxid: String,
    /// The nickname.
    pub name: String,
    /// The phone number.
    pub mobile: String,
    /// The directory under which the account's files lie.
    pub home: String,
}

/// What a [`UserInfo`] holds.
pub struct UserInfoView {
    pub wxid: Seq<char>,
    pub name: Seq<char>,
    pub mobile: Seq<char>,
    pub home: Seq<char>,
}

impl View for UserInfo {
    type V = UserInfoView;

    open spec fn view(&self) -> UserInfoView {
        UserInfoView {
            wxid: self.wxid@,
            name: self.name@,
            mobile: self.mobile@,
            home: self.home@,
        }
    }
}

impl Schema for UserInfo {
    open spec fn group_limit() -> nat {
        (RECURSION_LIMIT - 1) as nat
    }

    open spec fn blank() -> UserInfoView {
        UserInfoView {
            wxid: Seq::empty(),
            name: Seq::empty(),
            mobile: Seq::empty(),
            home: Seq::empty(),
        }
    }

    open spec fn absorb(acc: UserInfoView, f: Field) -> Option<UserInfoView> {
        if f.tag == 1 {
            match payload_text(f.value) {
                Some(x) => Some(UserInfoView { wxid: x, ..acc }),
                None => None,
            }
        } else if f.tag == 2 {
            match payload_text(f.value) {
                Some(x) => Some(UserInfoView { name: x, ..acc }),
                None => None,
            }
        } else if f.tag == 3 {
            match payload_text(f.value) {
                Some(x) => Some(UserInfoView { mobile: x, ..acc }),
                None => None,
            }
        } else if f.tag == 4 {
            match payload_text(f.value) {
                Some(x) => Some(UserInfoView { home: x, ..acc }),
                None => None,
            }
        } else {
            Some(acc)
        }
    }

    open spec fn fields(v: UserInfoView) -> Seq<Field> {
        text_member(1, v.wxid)
            + text_member(2, v.name)
            + text_member(3, v.mobile)
            + text_member(4, v.home)
    }

    open spec fn representable(v: UserInfoView) -> bool {
        &&& text_fits(v.wxid)
        &&& text_fits(v.name)
        &&& text_fits(v.mobile)
        &&& text_fits(v.home)
    }
}

impl Message for UserInfo {
    fn limit() -> (n: u32) {
        RECURSION_LIMIT - 1
    }

    proof fn lemma_fields_absorbed(v: UserInfoView) {
        let f1 = Field { tag: 1, value: text_payload(v.wxid) };
        let on1 = v.wxid.len() > 0;
        let f2 = Field { tag: 2, value: text_payload(v.name) };
        let on2 = v.name.len() > 0;
        let f3 = Field { tag: 3, value: text_payload(v.mobile) };
        let on3 = v.mobile.len() > 0;
        let f4 = Field { tag: 4, value: text_payload(v.home) };
        let on4 = v.home.len() > 0;
        let a0 = Self::blank();
        let a1 = UserInfoView { wxid: v.wxid, ..a0 };
        let a2 = UserInfoView { name: v.name, ..a1 };
        let a3 = UserInfoView { mobile: v.mobile, ..a2 };
        let a4 = UserInfoView { home: v.home, ..a3 };
        let s1 = text_member(1, v.wxid);
        let s2 = s1 + text_member(2, v.name);
        let s3 = s2 + text_member(3, v.mobile);
        let s4 = s3 + text_member(4, v.home);
        assert(on1 ==> field_wf(f1) && Self::absorb(a0, f1) == Some(a1)) by {
            lemma_text_round_trip(v.wxid);
        }
        assert(!on1 ==> a1 == a0) by {
            if !on1 {
                assert(v.wxid =~= Seq::<char>::empty());
            }
        }
        lemma_absorb_first::<Self>(a0, on1, f1, a1);
        assert(on2 ==> field_wf(f2) && Self::absorb(a1, f2) == Some(a2)) by {
            lemma_text_round_trip(v.name);
        }
        assert(!on2 ==> a2 == a1) by {
            if !on2 {
                assert(v.name =~= Seq::<char>::empty());
            }
        }
        lemma_absorb_next::<Self>(a0, s1, a1, on2, f2, a2);
        assert(on3 ==> field_wf(f3) && Self::absorb(a2, f3) == Some(a3)) by {
            lemma_text_round_trip(v.mobile);
        }
        assert(!on3 ==> a3 == a2) by {
            if !on3 {
                assert(v.mobile =~= Seq::<char>::empty());
            }
        }
        lemma_absorb_next::<Self>(a0, s2, a2, on3, f3, a3);
        assert(on4 ==> field_wf(f4) && Self::absorb(a3, f4) == Some(a4)) by {
            lemma_text_round_trip(v.home);
        }
        assert(!on4 ==> a4 == a3) by {
            if !on4 {
                assert(v.home =~= Seq::<char>::empty());
            }
        }
        lemma_absorb_next::<Self>(a0, s3, a3, on4, f4, a4);
        assert(a4 == v);
    }

    fn new() -> (m: Self) {
        UserInfo {
            wxid: String::new(),
            name: String::new(),
            mobile: String::new(),
            home: String::new(),
        }
    }

    fn merge(self, f: &RawField<'_>) -> (r: Option<Self>) {
        if f.tag == 1 {
            match read_text(&f.value) {
                Some(x) => Some(UserInfo { wxid: x, ..self }),
                None => None,
            }
        } else if f.tag == 2 {
            match read_text(&f.value) {
                Some(x) => Some(UserInfo { name: x, ..self }),
                None => None,
            }
        } else if f.tag == 3 {
            match read_text(&f.value) {
                Some(x) => Some(UserInfo { mobile: x, ..self }),
                None => None,
            }
        } else if f.tag == 4 {
            match read_text(&f.value) {
                Some(x) => Some(UserInfo { home: x, ..self }),
                None => None,
            }
        } else {
            Some(self)
        }
    }

    fn write(&self, buf: &mut Vec<u8>) {
        let ghost v = self@;
        let ghost o1 = text_member(1, v.wxid);
        let ghost o2 = text_member(2, v.name);
        let ghost o3 = text_member(3, v.mobile);
        let ghost o4 = text_member(4, v.home);
        let ghost s1 = o1;
        let ghost s2 = s1 + o2;
        let ghost s3 = s2 + o3;
        let ghost s4 = s3 + o4;
        put_text(buf, 1, self.wxid.as_str());
        let ghost b1 = buf@;
        put_text(buf, 2, self.name.as_str());
        let ghost b2 = buf@;
        proof {
            lemma_appended(old(buf)@, s1, b1, o2, b2);
        }
        put_text(buf, 3, self.mobile.as_str());
        let ghost b3 = buf@;
        proof {
            lemma_appended(old(buf)@, s2, b2, o3, b3);
        }
        put_text(buf, 4, self.home.as_str());
        let ghost b4 = buf@;
        proof {
            lemma_appended(old(buf)@, s3, b3, o4, b4);
        }
    }
}

/// A message that the account received or sent.
#[derive(Clone, Debug, PartialEq, Eq)]
pub struct WxMsg {
    /// Whether the account itself sent it.
    pub is_self: bool,
    /// Whether it was sent in a chat room.
    pub is_group: bool,
    /// The identifier of the message.
    pub id: u64,
    /// The type of the message.
    pub type_: u32,
    /// When it was sent, in seconds.
    pub ts: u32,
    /// The chat room, for a message sent in one.
    pub roomid: String,
    /// The content.
    pub content: String,
    /// Who sent it.
    pub sender: String,
    /// The signature.
    pub sign: String,
    /// The thumbnail, for a picture or a video.
    pub thumb: String,
    /// What else came with it.
    pub extra: String,
    /// The XML of the message.
    pub xml: String,
}

/// What a [`WxMsg`] holds.
pub struct WxMsgView {
    pub is_self: bool,
    pub is_group: bool,
    pub id: u64,
    pub type_: u32,
    pub ts: u32,
    pub roomid: Seq<char>,
    pub content: Seq<char>,
    pub sender: Seq<char>,
    pub sign: Seq<char>,
    pub thumb: Seq<char>,
    pub extra: Seq<char>,
    pub xml: Seq<char>,
}

impl View for WxMsg {
    type V = WxMsgView;

    open spec fn view(&self) -> WxMsgView {
        WxMsgView {
            is_self: self.is_self,
            is_group: self.is_group,
            id: self.id,
            type_: self.type_,
            ts: self.ts,
            roomid: self.roomid@,
            content: self.content@,
            sender: self.sender@,
            sign: self.sign@,
            thumb: self.thumb@,
            extra: self.extra@,
            xml: self.xml@,
        }
    }
}

impl Schema for WxMsg {
    open spec fn group_limit() -> nat {
        (RECURSION_LIMIT - 1) as nat
    }

    open spec fn blank() -> WxMsgView {
        WxMsgView {
            is_self: false,
            is_group: false,
            id: 0,
            type_: 0,
            ts: 0,
            roomid: Seq::empty(),
            content: Seq::empty(),
            sender: Seq::empty(),
            sign: Seq::empty(),
            thumb: Seq::empty(),
            extra: Seq::empty(),
            xml: Seq::empty(),
        }
    }

    open spec fn absorb(acc: WxMsgView, f: Field) -> Option<WxMsgView> {
        if f.tag == 1 {
            match payload_flag(f.value) {
                Some(x) => Some(WxMsgView { is_self: x, ..acc }),
                None => None,
            }
        } else if f.tag == 2 {
            match payload_flag(f.value) {
                Some(x) => Some(WxMsgView { is_group: x, ..acc }),
                None => None,
            }
        } else if f.tag == 3 {
            match payload_uint64(f.value) {
                Some(x) => Some(WxMsgView { id: x, ..acc }),
                None => None,
            }
        } else if f.tag == 4 {
            match payload_uint32(f.value) {
                Some(x) => Some(WxMsgView { type_: x, ..acc }),
                None => None,
            }
        } else if f.tag == 5 {
            match payload_uint32(f.value) {
                Some(x) => Some(WxMsgView { ts: x, ..acc }),
                None => None,
            }
        } else if f.tag == 6 {
            match payload_text(f.value) {
                Some(x) => Some(WxMsgView { roomid: x, ..acc }),
                None => None,
            }
        } else if f.tag == 7 {
            match payload_text(f.value) {
                Some(x) => Some(WxMsgView { content: x, ..acc }),
                None => None,
            }
        } else if f.tag == 8 {
            match payload_text(f.value) {
                Some(x) => Some(WxMsgView { sender: x, ..acc }),
                None => None,
            }
        } else if f.tag == 9 {
            match payload_text(f.value) {
                Some(x) => Some(WxMsgView { sign: x, ..acc }),
                None => None,
            }
        } else if f.tag == 10 {
            match payload_text(f.value) {
                Some(x) => Some(WxMsgView { thumb: x, ..acc }),
                None => None,
            }
        } else if f.tag == 11 {
            match payload_text(f.value) {
                Some(x) => Some(WxMsgView { extra: x, ..acc }),
                None => None,
            }
        } else if f.tag == 12 {
            match payload_text(f.value) {
                Some(x) => Some(WxMsgView { xml: x, ..acc }),
                None => None,
            }
        } else {
            Some(acc)
        }
    }

    open spec fn fields(v: WxMsgView) -> Seq<Field> {
        flag_member(1, v.is_self)
            + flag_member(2, v.is_group)
            + uint64_member(3, v.id)
            + uint32_member(4, v.type_)
            + uint32_member(5, v.ts)
            + text_member(6, v.roomid)
            + text_member(7, v.content)
            + text_member(8, v.sender)
            + text_member(9, v.sign)
            + text_member(10, v.thumb)
            + text_member(11, v.extra)
            + text_member(12, v.xml)
    }

    open spec fn representable(v: WxMsgView) -> bool {
        &&& text_fits(v.roomid)
        &&& text_fits(v.content)
        &&& text_fits(v.sender)
        &&& text_fits(v.sign)
        &&& text_fits(v.thumb)
        &&& text_fits(v.extra)
        &&& text_fits(v.xml)
    }
}

impl Message for WxMsg {
    fn limit() -> (n: u32) {
        RECURSION_LIMIT - 1
    }

    proof fn lemma_fields_absorbed(v: WxMsgView) {
        let f1 = Field { tag: 1, value: flag_payload(v.is_self) };
        let on1 = v.is_self;
        let f2 = Field { tag: 2, value: flag_payload(v.is_group) };
        let on2 = v.is_group;
        let f3 = Field { tag: 3, value: uint64_payload(v.id) };
        let on3 = v.id != 0;
        let f4 = Field { tag: 4, value: uint32_payload(v.type_) };
        let on4 = v.type_ != 0;
        let f5 = Field { tag: 5, value: uint32_payload(v.ts) };
        let on5 = v.ts != 0;
        let f6 = Field { tag: 6, value: text_payload(v.roomid) };
        let on6 = v.roomid.len() > 0;
        let f7 = Field { tag: 7, value: text_payload(v.content) };
        let on7 = v.content.len() > 0;
        let f8 = Field { tag: 8, value: text_payload(v.sender) };
        let on8 = v.sender.len() > 0;
        let f9 = Field { tag: 9, value: text_payload(v.sign) };
        let on9 = v.sign.len() > 0;
        let f10 = Field { tag: 10, value: text_payload(v.thumb) };
        let on10 = v.thumb.len() > 0;
        let f11 = Field { tag: 11, value: text_payload(v.extra) };
        let on11 = v.extra.len() > 0;
        let f12 = Field { tag: 12, value: text_payload(v.xml) };
        let on12 = v.xml.len() > 0;
        let a0 = Self::blank();
        let a1 = WxMsgView { is_self: v.is_self, ..a0 };
        let a2 = WxMsgView { is_group: v.is_group, ..a1 };
        let a3 = WxMsgView { id: v.id, ..a2 };
        let a4 = WxMsgView { type_: v.type_, ..a3 };
        let a5 = WxMsgView { ts: v.ts, ..a4 };
        let a6 = WxMsgView { roomid: v.roomid, ..a5 };
        let a7 = WxMsgView { content: v.content, ..a6 };
        let a8 = WxMsgView { sender: v.sender, ..a7 };
        let a9 = WxMsgView { sign: v.sign, ..a8 };
        let a10 = WxMsgView { thumb: v.thumb, ..a9 };
        let a11 = WxMsgView { extra: v.extra, ..a10 };
        let a12 = WxMsgView { xml: v.xml, ..a11 };
        let s1 = flag_member(1, v.is_self);
        let s2 = s1 + flag_member(2, v.is_group);
        let s3 = s2 + uint64_member(3, v.id);
        let s4 = s3 + uint32_member(4, v.type_);
        let s5 = s4 + uint32_member(5, v.ts);
        let s6 = s5 + text_member(6, v.roomid);
        let s7 = s6 + text_member(7, v.content);
        let s8 = s7 + text_member(8, v.sender);
        let s9 = s8 + text_member(9, v.sign);
        let s10 = s9 + text_member(10, v.thumb);
        let s11 = s10 + text_member(11, v.extra);
        let s12 = s11 + text_member(12, v.xml);
        assert(on1 ==> field_wf(f1) && Self::absorb(a0, f1) == Some(a1)) by {
        }
        lemma_absorb_first::<Self>(a0, on1, f1, a1);
        assert(on2 ==> field_wf(f2) && Self::absorb(a1, f2) == Some(a2)) by {
        }
        lemma_absorb_next::<Self>(a0, s1, a1, on2, f2, a2);
        assert(on3 ==> field_wf(f3) && Self::absorb(a2, f3) == Some(a3)) by {
        }
        lemma_absorb_next::<Self>(a0, s2, a2, on3, f3, a3);
        assert(on4 ==> field_wf(f4) && Self::absorb(a3, f4) == Some(a4)) by {
            lemma_uint32_round_trip(v.type_);
        }
        lemma_absorb_next::<Self>(a0, s3, a3, on4, f4, a4);
        assert(on5 ==> field_wf(f5) && Self::absorb(a4, f5) == Some(a5)) by {
            lemma_uint32_round_trip(v.ts);
        }
        lemma_absorb_next::<Self>(a0, s4, a4, on5, f5, a5);
        assert(on6 ==> field_wf(f6) && Self::absorb(a5, f6) == Some(a6)) by {
            lemma_text_round_trip(v.roomid);
        }
        assert(!on6 ==> a6 == a5) by {
            if !on6 {
                assert(v.roomid =~= Seq::<char>::empty());
            }
        }
        lemma_absorb_next::<Self>(a0, s5, a5, on6, f6, a6);
        assert(on7 ==> field_wf(f7) && Self::absorb(a6, f7) == Some(a7)) by {
            lemma_text_round_trip(v.content);
        }
        assert(!on7 ==> a7 == a6) by {
            if !on7 {
                assert(v.content =~= Seq::<char>::empty());
            }
        }
        lemma_absorb_next::<Self>(a0, s6, a6, on7, f7, a7);
        assert(on8 ==> field_wf(f8) && Self::absorb(a7, f8) == Some(a8)) by {
            lemma_text_round_trip(v.sender);
        }
        assert(!on8 ==> a8 == a7) by {
            if !on8 {
                assert(v.sender =~= Seq::<char>::empty());
            }
        }
        lemma_absorb_next::<Self>(a0, s7, a7, on8, f8, a8);
        assert(on9 ==> field_wf(f9) && Self::absorb(a8, f9) == Some(a9)) by {
            lemma_text_round_trip(v.sign);
        }
        assert(!on9 ==> a9 == a8) by {
            if !on9 {
                assert(v.sign =~= Seq::<char>::empty());
            }
        }
        lemma_absorb_next::<Self>(a0, s8, a8, on9, f9, a9);
        assert(on10 ==> field_wf(f10) && Self::absorb(a9, f10) == Some(a10)) by {
            lemma_text_round_trip(v.thumb);
        }
        assert(!on10 ==> a10 == a9) by {
            if !on10 {
                assert(v.thumb =~= Seq::<char>::empty());
            }
        }
        lemma_absorb_next::<Self>(a0, s9, a9, on10, f10, a10);
        assert(on11 ==> field_wf(f11) && Self::absorb(a10, f11) == Some(a11)) by {
            lemma_text_round_trip(v.extra);
        }
        assert(!on11 ==> a11 == a10) by {
            if !on11 {
                assert(v.extra =~= Seq::<char>::empty());
            }
        }
        lemma_absorb_next::<Self>(a0, s10, a10, on11, f11, a11);
        assert(on12 ==> field_wf(f12) && Self::absorb(a11, f12) == Some(a12)) by {
            lemma_text_round_trip(v.xml);
        }
        assert(!on12 ==> a12 == a11) by {
            if !on12 {
                assert(v.xml =~= Seq::<char>::empty());
            }
        }
        lemma_absorb_next::<Self>(a0, s11, a11, on12, f12, a12);
        assert(a12 == v);
    }

    fn new() -> (m: Self) {
        WxMsg {
            is_self: false,
            is_group: false,
            id: 0,
            type_: 0,
            ts: 0,
            roomid: String::new(),
            content: String::new(),
            sender: String::new(),
            sign: String::new(),
            thumb: String::new(),
            extra: String::new(),
            xml: String::new(),
        }
    }

    fn merge(self, f: &RawField<'_>) -> (r: Option<Self>) {
        if f.tag == 1 {
            match read_flag(&f.value) {
                Some(x) => Some(WxMsg { is_self: x, ..self }),
                None => None,
            }
        } else if f.tag == 2 {
            match read_flag(&f.value) {
                Some(x) => Some(WxMsg { is_group: x, ..self }),
                None => None,
            }
        } else if f.tag == 3 {
            match read_uint64(&f.value) {
                Some(x) => Some(WxMsg { id: x, ..self }),
                None => None,
            }
        } else if f.tag == 4 {
            match read_uint32(&f.value) {
                Some(x) => Some(WxMsg { type_: x, ..self }),
                None => None,
            }
        } else if f.tag == 5 {
            match read_uint32(&f.value) {
                Some(x) => Some(WxMsg { ts: x, ..self }),
                None => None,
            }
        } else if f.tag == 6 {
            match read_text(&f.value) {
                Some(x) => Some(WxMsg { roomid: x, ..self }),
                None => None,
            }
        } else if f.tag == 7 {
            match read_text(&f.value) {
                Some(x) => Some(WxMsg { content: x, ..self }),
                None => None,
            }
        } else if f.tag == 8 {
            match read_text(&f.value) {
                Some(x) => Some(WxMsg { sender: x, ..self }),
                None => None,
            }
        } else if f.tag == 9 {
            match read_text(&f.value) {
                Some(x) => Some(WxMsg { sign: x, ..self }),
                None => None,
            }
        } else if f.tag == 10 {
            match read_text(&f.value) {
                Some(x) => Some(WxMsg { thumb: x, ..self }),
                None => None,
            }
        } else if f.tag == 11 {
            match read_text(&f.value) {
                Some(x) => Some(WxMsg { extra: x, ..self }),
                None => None,
            }
        } else if f.tag == 12 {
            match read_text(&f.value) {
                Some(x) => Some(WxMsg { xml: x, ..self }),
                None => None,
            }
        } else {
            Some(self)
        }
    }

    fn write(&self, buf: &mut Vec<u8>) {
        let ghost v = self@;
        let ghost o1 = flag_member(1, v.is_self);
        let ghost o2 = flag_member(2, v.is_group);
        let ghost o3 = uint64_member(3, v.id);
        let ghost o4 = uint32_member(4, v.type_);
        let ghost o5 = uint32_member(5, v.ts);
        let ghost o6 = text_member(6, v.roomid);
        let ghost o7 = text_member(7, v.content);
        let ghost o8 = text_member(8, v.sender);
        let ghost o9 = text_member(9, v.sign);
        let ghost o10 = text_member(10, v.thumb);
        let ghost o11 = text_member(11, v.extra);
        let ghost o12 = text_member(12, v.xml);
        let ghost s1 = o1;
        let ghost s2 = s1 + o2;
        let ghost s3 = s2 + o3;
        let ghost s4 = s3 + o4;
        let ghost s5 = s4 + o5;
        let ghost s6 = s5 + o6;
        let ghost s7 = s6 + o7;
        let ghost s8 = s7 + o8;
        let ghost s9 = s8 + o9;
        let ghost s10 = s9 + o10;
        let ghost s11 = s10 + o11;
        let ghost s12 = s11 + o12;
        put_flag(buf, 1, self.is_self);
        let ghost b1 = buf@;
        put_flag(buf, 2, self.is_group);
        let ghost b2 = buf@;
        proof {
            lemma_appended(old(buf)@, s1, b1, o2, b2);
        }
        put_uint64(buf, 3, self.id);
        let ghost b3 = buf@;
        proof {
            lemma_appended(old(buf)@, s2, b2, o3, b3);
        }
        put_uint32(buf, 4, self.type_);
        let ghost b4 = buf@;
        proof {
            lemma_appended(old(buf)@, s3, b3, o4, b4);
        }
        put_uint32(buf, 5, self.ts);
        let ghost b5 = buf@;
        proof {
            lemma_appended(old(buf)@, s4, b4, o5, b5);
        }
        put_text(buf, 6, self.roomid.as_str());
        let ghost b6 = buf@;
        proof {
            lemma_appended(old(buf)@, s5, b5, o6, b6);
        }
        put_text(buf, 7, self.content.as_str());
        let ghost b7 = buf@;
        proof {
            lemma_appended(old(buf)@, s6, b6, o7, b7);
        }
        put_text(buf, 8, self.sender.as_str());
        let ghost b8 = buf@;
        proof {
            lemma_appended(old(buf)@, s7, b7, o8, b8);
        }
        put_text(buf, 9, self.sign.as_str());
        let ghost b9 = buf@;
        proof {
            lemma_appended(old(buf)@, s8, b8, o9, b9);
        }
        put_text(buf, 10, self.thumb.as_str());
        let ghost b10 = buf@;
        proof {
            lemma_appended(old(buf)@, s9, b9, o10, b10);
        }
        put_text(buf, 11, self.extra.as_str());
        let ghost b11 = buf@;
        proof {
            lemma_appended(old(buf)@, s10, b10, o11, b11);
        }
        put_text(buf, 12, self.xml.as_str());
        let ghost b12 = buf@;
        proof {
            lemma_appended(old(buf)@, s11, b11, o12, b12);
        }
    }
}

/// The name of one type of message.
#[derive(Clone, Debug, PartialEq, Eq)]
pub struct MsgType {
    /// The type.
    pub key: i32,
    /// Its name.
    pub value: String,
}

/// What a [`MsgType`] holds.
pub struct MsgTypeView {
    pub key: i32,
    pub value: Seq<char>,
}

impl View for MsgType {
    type V = MsgTypeView;

    open spec fn view(&self) -> MsgTypeView {
        MsgTypeView {
            key: self.key,
            value: self.value@,
        }
    }
}

impl Schema for MsgType {
    open spec fn group_limit() -> nat {
        (RECURSION_LIMIT - 2) as nat
    }

    open spec fn blank() -> MsgTypeView {
        MsgTypeView {
            key: 0,
            value: Seq::empty(),
        }
    }

    open spec fn absorb(acc: MsgTypeView, f: Field) -> Option<MsgTypeView> {
        if f.tag == 1 {
            match payload_int32(f.value) {
                Some(x) => Some(MsgTypeView { key: x, ..acc }),
                None => None,
            }
        } else if f.tag == 2 {
            match payload_text(f.value) {
                Some(x) => Some(MsgTypeView { value: x, ..acc }),
                None => None,
            }
        } else {
            Some(acc)
        }
    }

    open spec fn fields(v: MsgTypeView) -> Seq<Field> {
        int32_member(1, v.key)
            + text_member(2, v.value)
    }

    open spec fn representable(v: MsgTypeView) -> bool {
        &&& text_fits(v.value)
    }
}

impl Message for MsgType {
    fn limit() -> (n: u32) {
        RECURSION_LIMIT - 2
    }

    proof fn lemma_fields_absorbed(v: MsgTypeView) {
        let f1 = Field { tag: 1, value: int32_payload(v.key) };
        let on1 = v.key != 0;
        let f2 = Field { tag: 2, value: text_payload(v.value) };
        let on2 = v.value.len() > 0;
        let a0 = Self::blank();
        let a1 = MsgTypeView { key: v.key, ..a0 };
        let a2 = MsgTypeView { value: v.value, ..a1 };
        let s1 = int32_member(1, v.key);
        let s2 = s1 + text_member(2, v.value);
        assert(on1 ==> field_wf(f1) && Self::absorb(a0, f1) == Some(a1)) by {
            lemma_int32_round_trip(v.key);
        }
        lemma_absorb_first::<Self>(a0, on1, f1, a1);
        assert(on2 ==> field_wf(f2) && Self::absorb(a1, f2) == Some(a2)) by {
            lemma_text_round_trip(v.value);
        }
        assert(!on2 ==> a2 == a1) by {
            if !on2 {
                assert(v.value =~= Seq::<char>::empty());
            }
        }
        lemma_absorb_next::<Self>(a0, s1, a1, on2, f2, a2);
        assert(a2 == v);
    }

    fn new() -> (m: Self) {
        MsgType {
            key: 0,
            value: String::new(),
        }
    }

    fn merge(self, f: &RawField<'_>) -> (r: Option<Self>) {
        if f.tag == 1 {
            match read_int32(&f.value) {
                Some(x) => Some(MsgType { key: x, ..self }),
                None => None,
            }
        } else if f.tag == 2 {
            match read_text(&f.value) {
                Some(x) => Some(MsgType { value: x, ..self }),
                None => None,
            }
        } else {
            Some(self)
        }
    }

    fn write(&self, buf: &mut Vec<u8>) {
        let ghost v = self@;
        let ghost o1 = int32_member(1, v.key);
        let ghost o2 = text_member(2, v.value);
        let ghost s1 = o1;
        let ghost s2 = s1 + o2;
        put_int32(buf, 1, self.key);
        let ghost b1 = buf@;
        put_text(buf, 2, self.value.as_str());
        let ghost b2 = buf@;
        proof {
            lemma_appended(old(buf)@, s1, b1, o2, b2);
        }
    }
}

/// The names of the types of message, by type.
///
/// On the wire this is a run of entries, and a run it is held as: the bytes
/// of a message are then a function of what it holds, which they are not
/// where the entries are walked out of a hash map.
/// [`take_types`](crate::dispatch::take_types) makes the map of it.
#[derive(Clone, Debug, PartialEq, Eq)]
pub struct MsgTypes {
    /// The entries, in the order in which the worker sent them. Of two entries
    /// with one key the later stands.
    pub types: Vec<MsgType>,
}

/// What a [`MsgTypes`] holds.
pub struct MsgTypesView {
    pub types: Seq<MsgTypeView>,
}

impl View for MsgTypes {
    type V = MsgTypesView;

    open spec fn view(&self) -> MsgTypesView {
        MsgTypesView { types: views(self.types@) }
    }
}

impl Schema for MsgTypes {
    open spec fn group_limit() -> nat {
        (RECURSION_LIMIT - 1) as nat
    }

    open spec fn blank() -> MsgTypesView {
        MsgTypesView { types: Seq::empty() }
    }

    open spec fn absorb(acc: MsgTypesView, f: Field) -> Option<MsgTypesView> {
        if f.tag == 1 {
            match payload_message::<MsgType>(f.value) {
                Some(x) => Some(MsgTypesView { types: acc.types.push(x) }),
                None => None,
            }
        } else {
            Some(acc)
        }
    }

    open spec fn fields(v: MsgTypesView) -> Seq<Field> {
        repeated_fields::<MsgType>(1, v.types)
    }

    open spec fn representable(v: MsgTypesView) -> bool {
        all_fit::<MsgType>(v.types)
    }
}

impl Message for MsgTypes {
    fn limit() -> (n: u32) {
        RECURSION_LIMIT - 1
    }

    proof fn lemma_fields_absorbed(v: MsgTypesView) {
        let holding = |s: Seq<MsgTypeView>| MsgTypesView { types: s };
        assert(appends_messages::<Self, MsgType>(1, holding));
        lemma_repeated_absorbed::<Self, MsgType>(1, v.types, holding);
    }

    fn new() -> (m: Self) {
        let m = MsgTypes { types: Vec::new() };
        assert(views(m.types@) =~= Seq::empty());
        m
    }

    fn merge(self, f: &RawField<'_>) -> (r: Option<Self>) {
        if f.tag == 1 {
            match read_message::<MsgType>(&f.value) {
                Some(x) => {
                    let mut types = self.types;
                    types.push(x);
                    assert(views(types@) =~= views(self.types@).push(x@));
                    Some(MsgTypes { types })
                },
                None => None,
            }
        } else {
            Some(self)
        }
    }

    fn write(&self, buf: &mut Vec<u8>) {
        put_repeated(buf, 1, &self.types);
    }
}

} // verus!
