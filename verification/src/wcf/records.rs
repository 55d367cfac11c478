//! The records that a request carries.

use vstd::prelude::*;
use crate::message::{
    Message, Schema, lemma_absorb_all_empty, lemma_absorb_first, lemma_absorb_next, lemma_appended,
};
use crate::scalar::{
    int32_member, int32_payload, lemma_int32_round_trip, lemma_text_round_trip, payload_int32,
    payload_text, put_int32, put_text, read_int32, read_text, text_fits, text_member, text_payload,
};
use crate::wire::{
    Field, RECURSION_LIMIT, RawField, field_wf, fields_bytes, lemma_fields_bytes_empty,
};

verus! {

/// A record without members.
#[derive(Clone, Debug, PartialEq, Eq)]
pub struct Empty {}

/// What a [`Empty`] holds.
pub struct EmptyView {}

impl View for Empty {
    type V = EmptyView;

    open spec fn view(&self) -> EmptyView {
        EmptyView {}
    }
}

impl Schema for Empty {
    open spec fn group_limit() -> nat {
        (RECURSION_LIMIT - 1) as nat
    }

    open spec fn blank() -> EmptyView {
        EmptyView {}
    }

    open spec fn absorb(acc: EmptyView, f: Field) -> Option<EmptyView> {
        Some(acc)
    }

    open spec fn fields(v: EmptyView) -> Seq<Field> {
        Seq::empty()
    }

    open spec fn representable(v: EmptyView) -> bool {
        true
    }
}

impl Message for Empty {
    fn limit() -> (n: u32) {
        RECURSION_LIMIT - 1
    }

    proof fn lemma_fields_absorbed(v: EmptyView) {
        lemma_absorb_all_empty::<Self>(v);
    }

    fn new() -> (m: Self) {
        Empty {}
    }

    fn merge(self, f: &RawField<'_>) -> (r: Option<Self>) {
        Some(self)
    }

    fn write(&self, buf: &mut Vec<u8>) {
        proof {
            lemma_fields_bytes_empty();
        }
        assert(buf@ =~= old(buf)@ + fields_bytes(Seq::empty()));
    }
}

/// A text to send.
#[derive(Clone, Debug, PartialEq, Eq)]
pub struct TextMsg {
    /// The text; an `@` in it for each member named in `aters`.
    pub msg: String,
    /// Who receives it: a person or a chat room.
    pub receiver: String,
    /// The members to mention, separated by commas; empty outside a chat room.
    pub aters: String,
}

/// What a [`TextMsg`] holds.
pub struct TextMsgView {
    pub msg: Seq<char>,
    pub receiver: Seq<char>,
    pub aters: Seq<char>,
}

impl View for TextMsg {
    type V = TextMsgView;

    open spec fn view(&self) -> TextMsgView {
        TextMsgView {
            msg: self.msg@,
            receiver: self.receiver@,
            aters: self.aters@,
        }
    }
}

impl Schema for TextMsg {
    open spec fn group_limit() -> nat {
        (RECURSION_LIMIT - 1) as nat
    }

    open spec fn blank() -> TextMsgView {
        TextMsgView {
            msg: Seq::empty(),
            receiver: Seq::empty(),
            aters: Seq::empty(),
        }
    }

    open spec fn absorb(acc: TextMsgView, f: Field) -> Option<TextMsgView> {
        if f.tag == 1 {
            match payload_text(f.value) {
                Some(x) => Some(TextMsgView { msg: x, ..acc }),
                None => None,
            }
        } else if f.tag == 2 {
            match payload_text(f.value) {
                Some(x) => Some(TextMsgView { receiver: x, ..acc }),
                None => None,
            }
        } else if f.tag == 3 {
            match payload_text(f.value) {
                Some(x) => Some(TextMsgView { aters: x, ..acc }),
                None => None,
            }
        } else {
            Some(acc)
        }
    }

    open spec fn fields(v: TextMsgView) -> Seq<Field> {
        text_member(1, v.msg)
            + text_member(2, v.receiver)
            + text_member(3, v.aters)
    }

    open spec fn representable(v: TextMsgView) -> bool {
        &&& text_fits(v.msg)
        &&& text_fits(v.receiver)
        &&& text_fits(v.aters)
    }
}

impl Message for TextMsg {
    fn limit() -> (n: u32) {
        RECURSION_LIMIT - 1
    }

    proof fn lemma_fields_absorbed(v: TextMsgView) {
        let f1 = Field { tag: 1, value: text_payload(v.msg) };
        let on1 = v.msg.len() > 0;
        let f2 = Field { tag: 2, value: text_payload(v.receiver) };
        let on2 = v.receiver.len() > 0;
        let f3 = Field { tag: 3, value: text_payload(v.aters) };
        let on3 = v.aters.len() > 0;
        let a0 = Self::blank();
        let a1 = TextMsgView { msg: v.msg, ..a0 };
        let a2 = TextMsgView { receiver: v.receiver, ..a1 };
        let a3 = TextMsgView { aters: v.aters, ..a2 };
        let s1 = text_member(1, v.msg);
        let s2 = s1 + text_member(2, v.receiver);
        let s3 = s2 + text_member(3, v.aters);
        assert(on1 ==> field_wf(f1) && Self::absorb(a0, f1) == Some(a1)) by {
            lemma_text_round_trip(v.msg);
        }
        assert(!on1 ==> a1 == a0) by {
            if !on1 {
                assert(v.msg =~= Seq::<char>::empty());
            }
        }
        lemma_absorb_first::<Self>(a0, on1, f1, a1);
        assert(on2 ==> field_wf(f2) && Self::absorb(a1, f2) == Some(a2)) by {
            lemma_text_round_trip(v.receiver);
        }
        assert(!on2 ==> a2 == a1) by {
            if !on2 {
                assert(v.receiver =~= Seq::<char>::empty());
            }
        }
        lemma_absorb_next::<Self>(a0, s1, a1, on2, f2, a2);
        assert(on3 ==> field_wf(f3) && Self::absorb(a2, f3) == Some(a3)) by {
            lemma_text_round_trip(v.aters);
        }
        assert(!on3 ==> a3 == a2) by {
            if !on3 {
                assert(v.aters =~= Seq::<char>::empty());
            }
        }
        lemma_absorb_next::<Self>(a0, s2, a2, on3, f3, a3);
        assert(a3 == v);
    }

    fn new() -> (m: Self) {
        TextMsg {
            msg: String::new(),
            receiver: String::new(),
            aters: String::new(),
        }
    }

    fn merge(self, f: &RawField<'_>) -> (r: Option<Self>) {
        if f.tag == 1 {
            match read_text(&f.value) {
                Some(x) => Some(TextMsg { msg: x, ..self }),
                None => None,
            }
        } else if f.tag == 2 {
            match read_text(&f.value) {
                Some(x) => Some(TextMsg { receiver: x, ..self }),
                None => None,
            }
        } else if f.tag == 3 {
            match read_text(&f.value) {
                Some(x) => Some(TextMsg { aters: x, ..self }),
                None => None,
            }
        } else {
            Some(self)
        }
    }

    fn write(&self, buf: &mut Vec<u8>) {
        let ghost v = self@;
        let ghost o1 = text_member(1, v.msg);
        let ghost o2 = text_member(2, v.receiver);
        let ghost o3 = text_member(3, v.aters);
        let ghost s1 = o1;
        let ghost s2 = s1 + o2;
        let ghost s3 = s2 + o3;
        put_text(buf, 1, self.msg.as_str());
        let ghost b1 = buf@;
        put_text(buf, 2, self.receiver.as_str());
        let ghost b2 = buf@;
        proof {
            lemma_appended(old(buf)@, s1, b1, o2, b2);
        }
        put_text(buf, 3, self.aters.as_str());
        let ghost b3 = buf@;
        proof {
            lemma_appended(old(buf)@, s2, b2, o3, b3);
        }
    }
}

/// A file to send.
#[derive(Clone, Debug, PartialEq, Eq)]
pub struct PathMsg {
    /// Where the file lies on the worker's machine.
    pub path: String,
    /// Who receives it.
    pub receiver: String,
}

/// What a [`PathMsg`] holds.
pub struct PathMsgView {
    pub path: Seq<char>,
    pub receiver: Seq<char>,
}

impl View for PathMsg {
    type V = PathMsgView;

    open spec fn view(&self) -> PathMsgView {
        PathMsgView {
            path: self.path@,
            receiver: self.receiver@,
        }
    }
}

impl Schema for PathMsg {
    open spec fn group_limit() -> nat {
        (RECURSION_LIMIT - 1) as nat
    }

    open spec fn blank() -> PathMsgView {
        PathMsgView {
            path: Seq::empty(),
            receiver: Seq::empty(),
        }
    }

    open spec fn absorb(acc: PathMsgView, f: Field) -> Option<PathMsgView> {
        if f.tag == 1 {
            match payload_text(f.value) {
                Some(x) => Some(PathMsgView { path: x, ..acc }),
                None => None,
            }
        } else if f.tag == 2 {
            match payload_text(f.value) {
                Some(x) => Some(PathMsgView { receiver: x, ..acc }),
                None => None,
            }
        } else {
            Some(acc)
        }
    }

    open spec fn fields(v: PathMsgView) -> Seq<Field> {
        text_member(1, v.path)
            + text_member(2, v.receiver)
    }

    open spec fn representable(v: PathMsgView) -> bool {
        &&& text_fits(v.path)
        &&& text_fits(v.receiver)
    }
}

impl Message for PathMsg {
    fn limit() -> (n: u32) {
        RECURSION_LIMIT - 1
    }

    proof fn lemma_fields_absorbed(v: PathMsgView) {
        let f1 = Field { tag: 1, value: text_payload(v.path) };
        let on1 = v.path.len() > 0;
        let f2 = Field { tag: 2, value: text_payload(v.receiver) };
        let on2 = v.receiver.len() > 0;
        let a0 = Self::blank();
        let a1 = PathMsgView { path: v.path, ..a0 };
        let a2 = PathMsgView { receiver: v.receiver, ..a1 };
        let s1 = text_member(1, v.path);
        let s2 = s1 + text_member(2, v.receiver);
        assert(on1 ==> field_wf(f1) && Self::absorb(a0, f1) == Some(a1)) by {
            lemma_text_round_trip(v.path);
        }
        assert(!on1 ==> a1 == a0) by {
            if !on1 {
                assert(v.path =~= Seq::<char>::empty());
            }
        }
        lemma_absorb_first::<Self>(a0, on1, f1, a1);
        assert(on2 ==> field_wf(f2) && Self::absorb(a1, f2) == Some(a2)) by {
            lemma_text_round_trip(v.receiver);
        }
        assert(!on2 ==> a2 == a1) by {
            if !on2 {
                assert(v.receiver =~= Seq::<char>::empty());
            }
        }
        lemma_absorb_next::<Self>(a0, s1, a1, on2, f2, a2);
        assert(a2 == v);
    }

    fn new() -> (m: Self) {
        PathMsg {
            path: String::new(),
            receiver: String::new(),
        }
    }

    fn merge(self, f: &RawField<'_>) -> (r: Option<Self>) {
        if f.tag == 1 {
            match read_text(&f.value) {
                Some(x) => Some(PathMsg { path: x, ..self }),
                None => None,
            }
        } else if f.tag == 2 {
            match read_text(&f.value) {
                Some(x) => Some(PathMsg { receiver: x, ..self }),
                None => None,
            }
        } else {
            Some(self)
        }
    }

    fn write(&self, buf: &mut Vec<u8>) {
        let ghost v = self@;
        let ghost o1 = text_member(1, v.path);
        let ghost o2 = text_member(2, v.receiver);
        let ghost s1 = o1;
        let ghost s2 = s1 + o2;
        put_text(buf, 1, self.path.as_str());
        let ghost b1 = buf@;
        put_text(buf, 2, self.receiver.as_str());
        let ghost b2 = buf@;
        proof {
            lemma_appended(old(buf)@, s1, b1, o2, b2);
        }
    }
}

/// A query on one of the worker's databases.
#[derive(Clone, Debug, PartialEq, Eq)]
pub struct DbQuery {
    /// The database.
    pub db: String,
    /// The statement.
    pub sql: String,
}

/// What a [`DbQuery`] holds.
pub struct DbQueryView {
    pub db: Seq<char>,
    pub sql: Seq<char>,
}

impl View for DbQuery {
    type V = DbQueryView;

    open spec fn view(&self) -> DbQueryView {
        DbQueryView {
            db: self.db@,
            sql: self.sql@,
        }
    }
}

impl Schema for DbQuery {
    open spec fn group_limit() -> nat {
        (RECURSION_LIMIT - 1) as nat
    }

    open spec fn blank() -> DbQueryView {
        DbQueryView {
            db: Seq::empty(),
            sql: Seq::empty(),
        }
    }

    open spec fn absorb(acc: DbQueryView, f: Field) -> Option<DbQueryView> {
        if f.tag == 1 {
            match payload_text(f.value) {
                Some(x) => Some(DbQueryView { db: x, ..acc }),
                None => None,
            }
        } else if f.tag == 2 {
            match payload_text(f.value) {
                Some(x) => Some(DbQueryView { sql: x, ..acc }),
                None => None,
            }
        } else {
            Some(acc)
        }
    }

    open spec fn fields(v: DbQueryView) -> Seq<Field> {
        text_member(1, v.db)
            + text_member(2, v.sql)
    }

    open spec fn representable(v: DbQueryView) -> bool {
        &&& text_fits(v.db)
        &&& text_fits(v.sql)
    }
}

impl Message for DbQuery {
    fn limit() -> (n: u32) {
        RECURSION_LIMIT - 1
    }

    proof fn lemma_fields_absorbed(v: DbQueryView) {
        let f1 = Field { tag: 1, value: text_payload(v.db) };
        let on1 = v.db.len() > 0;
        let f2 = Field { tag: 2, value: text_payload(v.sql) };
        let on2 = v.sql.len() > 0;
        let a0 = Self::blank();
        let a1 = DbQueryView { db: v.db, ..a0 };
        let a2 = DbQueryView { sql: v.sql, ..a1 };
        let s1 = text_member(1, v.db);
        let s2 = s1 + text_member(2, v.sql);
        assert(on1 ==> field_wf(f1) && Self::absorb(a0, f1) == Some(a1)) by {
            lemma_text_round_trip(v.db);
        }
        assert(!on1 ==> a1 == a0) by {
            if !on1 {
                assert(v.db =~= Seq::<char>::empty());
            }
        }
        lemma_absorb_first::<Self>(a0, on1, f1, a1);
        assert(on2 ==> field_wf(f2) && Self::absorb(a1, f2) == Some(a2)) by {
            lemma_text_round_trip(v.sql);
        }
        assert(!on2 ==> a2 == a1) by {
            if !on2 {
                assert(v.sql =~= Seq::<char>::empty());
            }
        }
        lemma_absorb_next::<Self>(a0, s1, a1, on2, f2, a2);
        assert(a2 == v);
    }

    fn new() -> (m: Self) {
        DbQuery {
            db: String::new(),
            sql: String::new(),
        }
    }

    fn merge(self, f: &RawField<'_>) -> (r: Option<Self>) {
        if f.tag == 1 {
            match read_text(&f.value) {
                Some(x) => Some(DbQuery { db: x, ..self }),
                None => None,
            }
        } else if f.tag == 2 {
            match read_text(&f.value) {
                Some(x) => Some(DbQuery { sql: x, ..self }),
                None => None,
            }
        } else {
            Some(self)
        }
    }

    fn write(&self, buf: &mut Vec<u8>) {
        let ghost v = self@;
        let ghost o1 = text_member(1, v.db);
        let ghost o2 = text_member(2, v.sql);
        let ghost s1 = o1;
        let ghost s2 = s1 + o2;
        put_text(buf, 1, self.db.as_str());
        let ghost b1 = buf@;
        put_text(buf, 2, self.sql.as_str());
        let ghost b2 = buf@;
        proof {
            lemma_appended(old(buf)@, s1, b1, o2, b2);
        }
    }
}

/// The answer to a friend request.
#[derive(Clone, Debug, PartialEq, Eq)]
pub struct Verification {
    /// The encrypted user name of the request.
    pub v3: String,
    /// The ticket of the request.
    pub v4: String,
    /// How the request came: 17 by card, 30 by code.
    pub scene: i32,
}

/// What a [`Verification`] holds.
pub struct VerificationView {
    pub v3: Seq<char>,
    pub v4: Seq<char>,
    pub scene: i32,
}

impl View for Verification {
    type V = VerificationView;

    open spec fn view(&self) -> VerificationView {
        VerificationView {
            v3: self.v3@,
            v4: self.v4@,
            scene: self.scene,
        }
    }
}

impl Schema for Verification {
    open spec fn group_limit() -> nat {
        (RECURSION_LIMIT - 1) as nat
    }

    open spec fn blank() -> VerificationView {
        VerificationView {
            v3: Seq::empty(),
            v4: Seq::empty(),
            scene: 0,
        }
    }

    open spec fn absorb(acc: VerificationView, f: Field) -> Option<VerificationView> {
        if f.tag == 1 {
            match payload_text(f.value) {
                Some(x) => Some(VerificationView { v3: x, ..acc }),
                None => None,
            }
        } else if f.tag == 2 {
            match payload_text(f.value) {
                Some(x) => Some(VerificationView { v4: x, ..acc }),
                None => None,
            }
        } else if f.tag == 3 {
            match payload_int32(f.value) {
                Some(x) => Some(VerificationView { scene: x, ..acc }),
                None => None,
            }
        } else {
            Some(acc)
        }
    }

    open spec fn fields(v: VerificationView) -> Seq<Field> {
        text_member(1, v.v3)
            + text_member(2, v.v4)
            + int32_member(3, v.scene)
    }

    open spec fn representable(v: VerificationView) -> bool {
        &&& text_fits(v.v3)
        &&& text_fits(v.v4)
    }
}

impl Message for Verification {
    fn limit() -> (n: u32) {
        RECURSION_LIMIT - 1
    }

    proof fn lemma_fields_absorbed(v: VerificationView) {
        let f1 = Field { tag: 1, value: text_payload(v.v3) };
        let on1 = v.v3.len() > 0;
        let f2 = Field { tag: 2, value: text_payload(v.v4) };
        let on2 = v.v4.len() > 0;
        let f3 = Field { tag: 3, value: int32_payload(v.scene) };
        let on3 = v.scene != 0;
        let a0 = Self::blank();
        let a1 = VerificationView { v3: v.v3, ..a0 };
        let a2 = VerificationView { v4: v.v4, ..a1 };
        let a3 = VerificationView { scene: v.scene, ..a2 };
        let s1 = text_member(1, v.v3);
        let s2 = s1 + text_member(2, v.v4);
        let s3 = s2 + int32_member(3, v.scene);
        assert(on1 ==> field_wf(f1) && Self::absorb(a0, f1) == Some(a1)) by {
            lemma_text_round_trip(v.v3);
        }
        assert(!on1 ==> a1 == a0) by {
            if !on1 {
                assert(v.v3 =~= Seq::<char>::empty());
            }
        }
        lemma_absorb_first::<Self>(a0, on1, f1, a1);
        assert(on2 ==> field_wf(f2) && Self::absorb(a1, f2) == Some(a2)) by {
            lemma_text_round_trip(v.v4);
        }
        assert(!on2 ==> a2 == a1) by {
            if !on2 {
                assert(v.v4 =~= Seq::<char>::empty());
            }
        }
        lemma_absorb_next::<Self>(a0, s1, a1, on2, f2, a2);
        assert(on3 ==> field_wf(f3) && Self::absorb(a2, f3) == Some(a3)) by {
            lemma_int32_round_trip(v.scene);
        }
        lemma_absorb_next::<Self>(a0, s2, a2, on3, f3, a3);
        assert(a3 == v);
    }

    fn new() -> (m: Self) {
        Verification {
            v3: String::new(),
            v4: String::new(),
            scene: 0,
        }
    }

    fn merge(self, f: &RawField<'_>) -> (r: Option<Self>) {
        if f.tag == 1 {
            match read_text(&f.value) {
                Some(x) => Some(Verification { v3: x, ..self }),
                None => None,
            }
        } else if f.tag == 2 {
            match read_text(&f.value) {
                Some(x) => Some(Verification { v4: x, ..self }),
                None => None,
            }
        } else if f.tag == 3 {
            match read_int32(&f.value) {
                Some(x) => Some(Verification { scene: x, ..self }),
                None => None,
            }
        } else {
            Some(self)
        }
    }

    fn write(&self, buf: &mut Vec<u8>) {
        let ghost v = self@;
        let ghost o1 = text_member(1, v.v3);
        let ghost o2 = text_member(2, v.v4);
        let ghost o3 = int32_member(3, v.scene);
        let ghost s1 = o1;
        let ghost s2 = s1 + o2;
        let ghost s3 = s2 + o3;
        put_text(buf, 1, self.v3.as_str());
        let ghost b1 = buf@;
        put_text(buf, 2, self.v4.as_str());
        let ghost b2 = buf@;
        proof {
            lemma_appended(old(buf)@, s1, b1, o2, b2);
        }
        put_int32(buf, 3, self.scene);
        let ghost b3 = buf@;
        proof {
            lemma_appended(old(buf)@, s2, b2, o3, b3);
        }
    }
}

/// Members to add to a chat room or to remove from it.
#[derive(Clone, Debug, PartialEq, Eq)]
pub struct AddMembers {
    /// The chat room.
    pub roomid: String,
    /// The members, separated by commas.
    pub wxids: String,
}

/// What a [`AddMembers`] holds.
pub struct AddMembersView {
    pub roomid: Seq<char>,
    pub wxids: Seq<char>,
}

impl View for AddMembers {
    type V = AddMembersView;

    open spec fn view(&self) -> AddMembersView {
        AddMembersView {
            roomid: self.roomid@,
            wxids: self.wxids@,
        }
    }
}

impl Schema for AddMembers {
    open spec fn group_limit() -> nat {
        (RECURSION_LIMIT - 1) as nat
    }

    open spec fn blank() -> AddMembersView {
        AddMembersView {
            roomid: Seq::empty(),
            wxids: Seq::empty(),
        }
    }

    open spec fn absorb(acc: AddMembersView, f: Field) -> Option<AddMembersView> {
        if f.tag == 1 {
            match payload_text(f.value) {
                Some(x) => Some(AddMembersView { roomid: x, ..acc }),
                None => None,
            }
        } else if f.tag == 2 {
            match payload_text(f.value) {
                Some(x) => Some(AddMembersView { wxids: x, ..acc }),
                None => None,
            }
        } else {
            Some(acc)
        }
    }

    open spec fn fields(v: AddMembersView) -> Seq<Field> {
        text_member(1, v.roomid)
            + text_member(2, v.wxids)
    }

    open spec fn representable(v: AddMembersView) -> bool {
        &&& text_fits(v.roomid)
        &&& text_fits(v.wxids)
    }
}

impl Message for AddMembers {
    fn limit() -> (n: u32) {
        RECURSION_LIMIT - 1
    }

    proof fn lemma_fields_absorbed(v: AddMembersView) {
        let f1 = Field { tag: 1, value: text_payload(v.roomid) };
        let on1 = v.roomid.len() > 0;
        let f2 = Field { tag: 2, value: text_payload(v.wxids) };
        let on2 = v.wxids.len() > 0;
        let a0 = Self::blank();
        let a1 = AddMembersView { roomid: v.roomid, ..a0 };
        let a2 = AddMembersView { wxids: v.wxids, ..a1 };
        let s1 = text_member(1, v.roomid);
        let s2 = s1 + text_member(2, v.wxids);
        assert(on1 ==> field_wf(f1) && Self::absorb(a0, f1) == Some(a1)) by {
            lemma_text_round_trip(v.roomid);
        }
        assert(!on1 ==> a1 == a0) by {
            if !on1 {
                assert(v.roomid =~= Seq::<char>::empty());
            }
        }
        lemma_absorb_first::<Self>(a0, on1, f1, a1);
        assert(on2 ==> field_wf(f2) && Self::absorb(a1, f2) == Some(a2)) by {
            lemma_text_round_trip(v.wxids);
        }
        assert(!on2 ==> a2 == a1) by {
            if !on2 {
                assert(v.wxids =~= Seq::<char>::empty());
            }
        }
        lemma_absorb_next::<Self>(a0, s1, a1, on2, f2, a2);
        assert(a2 == v);
    }

    fn new() -> (m: Self) {
        AddMembers {
            roomid: String::new(),
            wxids: String::new(),
        }
    }

    fn merge(self, f: &RawField<'_>) -> (r: Option<Self>) {
        if f.tag == 1 {
            match read_text(&f.value) {
                Some(x) => Some(AddMembers { roomid: x, ..self }),
                None => None,
            }
        } else if f.tag == 2 {
            match read_text(&f.value) {
                Some(x) => Some(AddMembers { wxids: x, ..self }),
                None => None,
            }
        } else {
            Some(self)
        }
    }

    fn write(&self, buf: &mut Vec<u8>) {
        let ghost v = self@;
        let ghost o1 = text_member(1, v.roomid);
        let ghost o2 = text_member(2, v.wxids);
        let ghost s1 = o1;
        let ghost s2 = s1 + o2;
        put_text(buf, 1, self.roomid.as_str());
        let ghost b1 = buf@;
        put_text(buf, 2, self.wxids.as_str());
        let ghost b2 = buf@;
        proof {
            lemma_appended(old(buf)@, s1, b1, o2, b2);
        }
    }
}

/// An XML message to send.
#[derive(Clone, Debug, PartialEq, Eq)]
pub struct XmlMsg {
    /// Who receives it.
    pub receiver: String,
    /// The XML.
    pub content: String,
    /// The picture that goes with it.
    pub path: String,
    /// The type of the message.
    pub type_: i32,
}

/// What a [`XmlMsg`] holds.
pub struct XmlMsgView {
    pub receiver: Seq<char>,
    pub content: Seq<char>,
    pub path: Seq<char>,
    pub type_: i32,
}

impl View for XmlMsg {
    type V = XmlMsgView;

    open spec fn view(&self) -> XmlMsgView {
        XmlMsgView {
            receiver: self.receiver@,
            content: self.content@,
            path: self.path@,
            type_: self.type_,
        }
    }
}

impl Schema for XmlMsg {
    open spec fn group_limit() -> nat {
        (RECURSION_LIMIT - 1) as nat
    }

    open spec fn blank() -> XmlMsgView {
        XmlMsgView {
            receiver: Seq::empty(),
            content: Seq::empty(),
            path: Seq::empty(),
            type_: 0,
        }
    }

    open spec fn absorb(acc: XmlMsgView, f: Field) -> Option<XmlMsgView> {
        if f.tag == 1 {
            match payload_text(f.value) {
                Some(x) => Some(XmlMsgView { receiver: x, ..acc }),
                None => None,
            }
        } else if f.tag == 2 {
            match payload_text(f.value) {
                Some(x) => Some(XmlMsgView { content: x, ..acc }),
                None => None,
            }
        } else if f.tag == 3 {
            match payload_text(f.value) {
                Some(x) => Some(XmlMsgView { path: x, ..acc }),
                None => None,
            }
        } else if f.tag == 4 {
            match payload_int32(f.value) {
                Some(x) => Some(XmlMsgView { type_: x, ..acc }),
                None => None,
            }
        } else {
            Some(acc)
        }
    }

    open spec fn fields(v: XmlMsgView) -> Seq<Field> {
        text_member(1, v.receiver)
            + text_member(2, v.content)
            + text_member(3, v.path)
            + int32_member(4, v.type_)
    }

    open spec fn representable(v: XmlMsgView) -> bool {
        &&& text_fits(v.receiver)
        &&& text_fits(v.content)
        &&& text_fits(v.path)
    }
}

impl Message for XmlMsg {
    fn limit() -> (n: u32) {
        RECURSION_LIMIT - 1
    }

    proof fn lemma_fields_absorbed(v: XmlMsgView) {
        let f1 = Field { tag: 1, value: text_payload(v.receiver) };
        let on1 = v.receiver.len() > 0;
        let f2 = Field { tag: 2, value: text_payload(v.content) };
        let on2 = v.content.len() > 0;
        let f3 = Field { tag: 3, value: text_payload(v.path) };
        let on3 = v.path.len() > 0;
        let f4 = Field { tag: 4, value: int32_payload(v.type_) };
        let on4 = v.type_ != 0;
        let a0 = Self::blank();
        let a1 = XmlMsgView { receiver: v.receiver, ..a0 };
        let a2 = XmlMsgView { content: v.content, ..a1 };
        let a3 = XmlMsgView { path: v.path, ..a2 };
        let a4 = XmlMsgView { type_: v.type_, ..a3 };
        let s1 = text_member(1, v.receiver);
        let s2 = s1 + text_member(2, v.content);
        let s3 = s2 + text_member(3, v.path);
        let s4 = s3 + int32_member(4, v.type_);
        assert(on1 ==> field_wf(f1) && Self::absorb(a0, f1) == Some(a1)) by {
            lemma_text_round_trip(v.receiver);
        }
        assert(!on1 ==> a1 == a0) by {
            if !on1 {
                assert(v.receiver =~= Seq::<char>::empty());
            }
        }
        lemma_absorb_first::<Self>(a0, on1, f1, a1);
        assert(on2 ==> field_wf(f2) && Self::absorb(a1, f2) == Some(a2)) by {
            lemma_text_round_trip(v.content);
        }
        assert(!on2 ==> a2 == a1) by {
            if !on2 {
                assert(v.content =~= Seq::<char>::empty());
            }
        }
        lemma_absorb_next::<Self>(a0, s1, a1, on2, f2, a2);
        assert(on3 ==> field_wf(f3) && Self::absorb(a2, f3) == Some(a3)) by {
            lemma_text_round_trip(v.path);
        }
        assert(!on3 ==> a3 == a2) by {
            if !on3 {
                assert(v.path =~= Seq::<char>::empty());
            }
        }
        lemma_absorb_next::<Self>(a0, s2, a2, on3, f3, a3);
        assert(on4 ==> field_wf(f4) && Self::absorb(a3, f4) == Some(a4)) by {
            lemma_int32_round_trip(v.type_);
        }
        lemma_absorb_next::<Self>(a0, s3, a3, on4, f4, a4);
        assert(a4 == v);
    }

    fn new() -> (m: Self) {
        XmlMsg {
            receiver: String::new(),
            content: String::new(),
            path: String::new(),
            type_: 0,
        }
    }

    fn merge(self, f: &RawField<'_>) -> (r: Option<Self>) {
        if f.tag == 1 {
            match read_text(&f.value) {
                Some(x) => Some(XmlMsg { receiver: x, ..self }),
                None => None,
            }
        } else if f.tag == 2 {
            match read_text(&f.value) {
                Some(x) => Some(XmlMsg { content: x, ..self }),
                None => None,
            }
        } else if f.tag == 3 {
            match read_text(&f.value) {
                Some(x) => Some(XmlMsg { path: x, ..self }),
                None => None,
            }
        } else if f.tag == 4 {
            match read_int32(&f.value) {
                Some(x) => Some(XmlMsg { type_: x, ..self }),
                None => None,
            }
        } else {
            Some(self)
        }
    }

    fn write(&self, buf: &mut Vec<u8>) {
        let ghost v = self@;
        let ghost o1 = text_member(1, v.receiver);
        let ghost o2 = text_member(2, v.content);
        let ghost o3 = text_member(3, v.path);
        let ghost o4 = int32_member(4, v.type_);
        let ghost s1 = o1;
        let ghost s2 = s1 + o2;
        let ghost s3 = s2 + o3;
        let ghost s4 = s3 + o4;
        put_text(buf, 1, self.receiver.as_str());
        let ghost b1 = buf@;
        put_text(buf, 2, self.content.as_str());
        let ghost b2 = buf@;
        proof {
            lemma_appended(old(buf)@, s1, b1, o2, b2);
        }
        put_text(buf, 3, self.path.as_str());
        let ghost b3 = buf@;
        proof {
            lemma_appended(old(buf)@, s2, b2, o3, b3);
        }
        put_int32(buf, 4, self.type_);
        let ghost b4 = buf@;
        proof {
            lemma_appended(old(buf)@, s3, b3, o4, b4);
        }
    }
}

/// A picture to decrypt.
#[derive(Clone, Debug, PartialEq, Eq)]
pub struct DecPath {
    /// The encrypted file.
    pub src: String,
    /// Where the picture goes.
    pub dst: String,
}

/// What a [`DecPath`] holds.
pub struct DecPathView {
    pub src: Seq<char>,
    pub dst: Seq<char>,
}

impl View for DecPath {
    type V = DecPathView;

    open spec fn view(&self) -> DecPathView {
        DecPathView {
            src: self.src@,
            dst: self.dst@,
        }
    }
}

impl Schema for DecPath {
    open spec fn group_limit() -> nat {
        (RECURSION_LIMIT - 1) as nat
    }

    open spec fn blank() -> DecPathView {
        DecPathView {
            src: Seq::empty(),
            dst: Seq::empty(),
        }
    }

    open spec fn absorb(acc: DecPathView, f: Field) -> Option<DecPathView> {
        if f.tag == 1 {
            match payload_text(f.value) {
                Some(x) => Some(DecPathView { src: x, ..acc }),
                None => None,
            }
        } else if f.tag == 2 {
            match payload_text(f.value) {
                Some(x) => Some(DecPathView { dst: x, ..acc }),
                None => None,
            }
        } else {
            Some(acc)
        }
    }

    open spec fn fields(v: DecPathView) -> Seq<Field> {
        text_member(1, v.src)
            + text_member(2, v.dst)
    }

    open spec fn representable(v: DecPathView) -> bool {
        &&& text_fits(v.src)
        &&& text_fits(v.dst)
    }
}

impl Message for DecPath {
    fn limit() -> (n: u32) {
        RECURSION_LIMIT - 1
    }

    proof fn lemma_fields_absorbed(v: DecPathView) {
        let f1 = Field { tag: 1, value: text_payload(v.src) };
        let on1 = v.src.len() > 0;
        let f2 = Field { tag: 2, value: text_payload(v.dst) };
        let on2 = v.dst.len() > 0;
        let a0 = Self::blank();
        let a1 = DecPathView { src: v.src, ..a0 };
        let a2 = DecPathView { dst: v.dst, ..a1 };
        let s1 = text_member(1, v.src);
        let s2 = s1 + text_member(2, v.dst);
        assert(on1 ==> field_wf(f1) && Self::absorb(a0, f1) == Some(a1)) by {
            lemma_text_round_trip(v.src);
        }
        assert(!on1 ==> a1 == a0) by {
            if !on1 {
                assert(v.src =~= Seq::<char>::empty());
            }
        }
        lemma_absorb_first::<Self>(a0, on1, f1, a1);
        assert(on2 ==> field_wf(f2) && Self::absorb(a1, f2) == Some(a2)) by {
            lemma_text_round_trip(v.dst);
        }
        assert(!on2 ==> a2 == a1) by {
            if !on2 {
                assert(v.dst =~= Seq::<char>::empty());
            }
        }
        lemma_absorb_next::<Self>(a0, s1, a1, on2, f2, a2);
        assert(a2 == v);
    }

    fn new() -> (m: Self) {
        DecPath {
            src: String::new(),
            dst: String::new(),
        }
    }

    fn merge(self, f: &RawField<'_>) -> (r: Option<Self>) {
        if f.tag == 1 {
            match read_text(&f.value) {
                Some(x) => Some(DecPath { src: x, ..self }),
                None => None,
            }
        } else if f.tag == 2 {
            match read_text(&f.value) {
                Some(x) => Some(DecPath { dst: x, ..self }),
                None => None,
            }
        } else {
            Some(self)
        }
    }

    fn write(&self, buf: &mut Vec<u8>) {
        let ghost v = self@;
        let ghost o1 = text_member(1, v.src);
        let ghost o2 = text_member(2, v.dst);
        let ghost s1 = o1;
        let ghost s2 = s1 + o2;
        put_text(buf, 1, self.src.as_str());
        let ghost b1 = buf@;
        put_text(buf, 2, self.dst.as_str());
        let ghost b2 = buf@;
        proof {
            lemma_appended(old(buf)@, s1, b1, o2, b2);
        }
    }
}

/// A transfer of money to accept.
#[derive(Clone, Debug, PartialEq, Eq)]
pub struct Transfer {
    /// Who sent it.
    pub wxid: String,
    /// The transfer.
    pub tfid: String,
    /// The transaction.
    pub taid: String,
}

/// What a [`Transfer`] holds.
pub struct TransferView {
    pub wxid: Seq<char>,
    pub tfid: Seq<char>,
    pub taid: Seq<char>,
}

impl View for Transfer {
    type V = TransferView;

    open spec fn view(&self) -> TransferView {
        TransferView {
            wxid: self.wxid@,
            tfid: self.tfid@,
            taid: self.taid@,
        }
    }
}

impl Schema for Transfer {
    open spec fn group_limit() -> nat {
        (RECURSION_LIMIT - 1) as nat
    }

    open spec fn blank() -> TransferView {
        TransferView {
            wxid: Seq::empty(),
            tfid: Seq::empty(),
            taid: Seq::empty(),
        }
    }

    open spec fn absorb(acc: TransferView, f: Field) -> Option<TransferView> {
        if f.tag == 1 {
            match payload_text(f.value) {
                Some(x) => Some(TransferView { wxid: x, ..acc }),
                None => None,
            }
        } else if f.tag == 2 {
            match payload_text(f.value) {
                Some(x) => Some(TransferView { tfid: x, ..acc }),
                None => None,
            }
        } else if f.tag == 3 {
            match payload_text(f.value) {
                Some(x) => Some(TransferView { taid: x, ..acc }),
                None => None,
            }
        } else {
            Some(acc)
        }
    }

    open spec fn fields(v: TransferView) -> Seq<Field> {
        text_member(1, v.wxid)
            + text_member(2, v.tfid)
            + text_member(3, v.taid)
    }

    open spec fn representable(v: TransferView) -> bool {
        &&& text_fits(v.wxid)
        &&& text_fits(v.tfid)
        &&& text_fits(v.taid)
    }
}

impl Message for Transfer {
    fn limit() -> (n: u32) {
        RECURSION_LIMIT - 1
    }

    proof fn lemma_fields_absorbed(v: TransferView) {
        let f1 = Field { tag: 1, value: text_payload(v.wxid) };
        let on1 = v.wxid.len() > 0;
        let f2 = Field { tag: 2, value: text_payload(v.tfid) };
        let on2 = v.tfid.len() > 0;
        let f3 = Field { tag: 3, value: text_payload(v.taid) };
        let on3 = v.taid.len() > 0;
        let a0 = Self::blank();
        let a1 = TransferView { wxid: v.wxid, ..a0 };
        let a2 = TransferView { tfid: v.tfid, ..a1 };
        let a3 = TransferView { taid: v.taid, ..a2 };
        let s1 = text_member(1, v.wxid);
        let s2 = s1 + text_member(2, v.tfid);
        let s3 = s2 + text_member(3, v.taid);
        assert(on1 ==> field_wf(f1) && Self::absorb(a0, f1) == Some(a1)) by {
            lemma_text_round_trip(v.wxid);
        }
        assert(!on1 ==> a1 == a0) by {
            if !on1 {
                assert(v.wxid =~= Seq::<char>::empty());
            }
        }
        lemma_absorb_first::<Self>(a0, on1, f1, a1);
        assert(on2 ==> field_wf(f2) && Self::absorb(a1, f2) == Some(a2)) by {
            lemma_text_round_trip(v.tfid);
        }
        assert(!on2 ==> a2 == a1) by {
            if !on2 {
                assert(v.tfid =~= Seq::<char>::empty());
            }
        }
        lemma_absorb_next::<Self>(a0, s1, a1, on2, f2, a2);
        assert(on3 ==> field_wf(f3) && Self::absorb(a2, f3) == Some(a3)) by {
            lemma_text_round_trip(v.taid);
        }
        assert(!on3 ==> a3 == a2) by {
            if !on3 {
                assert(v.taid =~= Seq::<char>::empty());
            }
        }
        lemma_absorb_next::<Self>(a0, s2, a2, on3, f3, a3);
        assert(a3 == v);
    }

    fn new() -> (m: Self) {
        Transfer {
            wxid: String::new(),
            tfid: String::new(),
            taid: String::new(),
        }
    }

    fn merge(self, f: &RawField<'_>) -> (r: Option<Self>) {
        if f.tag == 1 {
            match read_text(&f.value) {
                Some(x) => Some(Transfer { wxid: x, ..self }),
                None => None,
            }
        } else if f.tag == 2 {
            match read_text(&f.value) {
                Some(x) => Some(Transfer { tfid: x, ..self }),
                None => None,
            }
        } else if f.tag == 3 {
            match read_text(&f.value) {
                Some(x) => Some(Transfer { taid: x, ..self }),
                None => None,
            }
        } else {
            Some(self)
        }
    }

    fn write(&self, buf: &mut Vec<u8>) {
        let ghost v = self@;
        let ghost o1 = text_member(1, v.wxid);
        let ghost o2 = text_member(2, v.tfid);
        let ghost o3 = text_member(3, v.taid);
        let ghost s1 = o1;
        let ghost s2 = s1 + o2;
        let ghost s3 = s2 + o3;
        put_text(buf, 1, self.wxid.as_str());
        let ghost b1 = buf@;
        put_text(buf, 2, self.tfid.as_str());
        let ghost b2 = buf@;
        proof {
            lemma_appended(old(buf)@, s1, b1, o2, b2);
        }
        put_text(buf, 3, self.taid.as_str());
        let ghost b3 = buf@;
        proof {
            lemma_appended(old(buf)@, s2, b2, o3, b3);
        }
    }
}

} // verus!
