//! The contacts of the account.

use vstd::prelude::*;
use crate::message::{
    Message, Schema, lemma_absorb_first, lemma_absorb_next, lemma_appended, payload_message,
    read_message,
};
use crate::repeated::{
    all_fit, appends_messages, lemma_repeated_absorbed, put_repeated, repeated_fields, views,
};
use crate::scalar::{
    int32_member, int32_payload, lemma_int32_round_trip, lemma_text_round_trip, payload_int32,
    payload_text, put_int32, put_text, read_int32, read_text, text_fits, text_member, text_payload,
};
use crate::wire::{Field, RECURSION_LIMIT, RawField, field_wf};

verus! {

/// One contact: a person, a chat room or an official account.
#[derive(Clone, Debug, PartialEq, Eq)]
pub struct RpcContact {
    /// The identifier.
    pub wxid: String,
    /// The name that the contact chose for the account.
    pub code: String,
    /// The note that the user keeps on the contact.
    pub remark: String,
    /// The nickname.
    pub name: String,
    pub country: String,
    pub province: String,
    pub city: String,
    pub gender: i32,
}

/// What a [`RpcContact`] holds.
pub struct RpcContactView {
    pub wxid: Seq<char>,
    pub code: Seq<char>,
    pub remark: Seq<char>,
    pub name: Seq<char>,
    pub country: Seq<char>,
    pub province: Seq<char>,
    pub city: Seq<char>,
    pub gender: i32,
}

impl View for RpcContact {
    type V = RpcContactView;

    open spec fn view(&self) -> RpcContactView {
        RpcContactView {
            wxid: self.wxid@,
            code: self.code@,
            remark: self.remark@,
            name: self.name@,
            country: self.country@,
            province: self.province@,
            city: self.city@,
            gender: self.gender,
        }
    }
}

impl Schema for RpcContact {
    open spec fn group_limit() -> nat {
        (RECURSION_LIMIT - 2) as nat
    }

    open spec fn blank() -> RpcContactView {
        RpcContactView {
            wxid: Seq::empty(),
            code: Seq::empty(),
            remark: Seq::empty(),
            name: Seq::empty(),
            country: Seq::empty(),
            province: Seq::empty(),
            city: Seq::empty(),
            gender: 0,
        }
    }

    open spec fn absorb(acc: RpcContactView, f: Field) -> Option<RpcContactView> {
        if f.tag == 1 {
            match payload_text(f.value) {
                Some(x) => Some(RpcContactView { wxid: x, ..acc }),
                None => None,
            }
        } else if f.tag == 2 {
            match payload_text(f.value) {
                Some(x) => Some(RpcContactView { code: x, ..acc }),
                None => None,
            }
        } else if f.tag == 3 {
            match payload_text(f.value) {
                Some(x) => Some(RpcContactView { remark: x, ..acc }),
                None => None,
            }
        } else if f.tag == 4 {
            match payload_text(f.value) {
                Some(x) => Some(RpcContactView { name: x, ..acc }),
                None => None,
            }
        } else if f.tag == 5 {
            match payload_text(f.value) {
                Some(x) => Some(RpcContactView { country: x, ..acc }),
                None => None,
            }
        } else if f.tag == 6 {
            match payload_text(f.value) {
                Some(x) => Some(RpcContactView { province: x, ..acc }),
                None => None,
            }
        } else if f.tag == 7 {
            match payload_text(f.value) {
                Some(x) => Some(RpcContactView { city: x, ..acc }),
                None => None,
            }
        } else if f.tag == 8 {
            match payload_int32(f.value) {
                Some(x) => Some(RpcContactView { gender: x, ..acc }),
                None => None,
            }
        } else {
            Some(acc)
        }
    }

    open spec fn fields(v: RpcContactView) -> Seq<Field> {
        text_member(1, v.wxid)
            + text_member(2, v.code)
            + text_member(3, v.remark)
            + text_member(4, v.name)
            + text_member(5, v.country)
            + text_member(6, v.province)
            + text_member(7, v.city)
            + int32_member(8, v.gender)
    }

    open spec fn representable(v: RpcContactView) -> bool {
        &&& text_fits(v.wxid)
        &&& text_fits(v.code)
        &&& text_fits(v.remark)
        &&& text_fits(v.name)
        &&& text_fits(v.country)
        &&& text_fits(v.province)
        &&& text_fits(v.city)
    }
}

impl Message for RpcContact {
    fn limit() -> (n: u32) {
        RECURSION_LIMIT - 2
    }

    proof fn lemma_fields_absorbed(v: RpcContactView) {
        let f1 = Field { tag: 1, value: text_payload(v.wxid) };
        let on1 = v.wxid.len() > 0;
        let f2 = Field { tag: 2, value: text_payload(v.code) };
        let on2 = v.code.len() > 0;
        let f3 = Field { tag: 3, value: text_payload(v.remark) };
        let on3 = v.remark.len() > 0;
        let f4 = Field { tag: 4, value: text_payload(v.name) };
        let on4 = v.name.len() > 0;
        let f5 = Field { tag: 5, value: text_payload(v.country) };
        let on5 = v.country.len() > 0;
        let f6 = Field { tag: 6, value: text_payload(v.province) };
        let on6 = v.province.len() > 0;
        let f7 = Field { tag: 7, value: text_payload(v.city) };
        let on7 = v.city.len() > 0;
        let f8 = Field { tag: 8, value: int32_payload(v.gender) };
        let on8 = v.gender != 0;
        let a0 = Self::blank();
        let a1 = RpcContactView { wxid: v.wxid, ..a0 };
        let a2 = RpcContactView { code: v.code, ..a1 };
        let a3 = RpcContactView { remark: v.remark, ..a2 };
        let a4 = RpcContactView { name: v.name, ..a3 };
        let a5 = RpcContactView { country: v.country, ..a4 };
        let a6 = RpcContactView { province: v.province, ..a5 };
        let a7 = RpcContactView { city: v.city, ..a6 };
        let a8 = RpcContactView { gender: v.gender, ..a7 };
        let s1 = text_member(1, v.wxid);
        let s2 = s1 + text_member(2, v.code);
        let s3 = s2 + text_member(3, v.remark);
        let s4 = s3 + text_member(4, v.name);
        let s5 = s4 + text_member(5, v.country);
        let s6 = s5 + text_member(6, v.province);
        let s7 = s6 + text_member(7, v.city);
        let s8 = s7 + int32_member(8, v.gender);
        assert(on1 ==> field_wf(f1) && Self::absorb(a0, f1) == Some(a1)) by {
            lemma_text_round_trip(v.wxid);
        }
        assert(!on1 ==> a1 == a0) by {
            if !on1 {
                assert(v.wxid =~= Seq::<char>::empty());
            }
        }
        lemma_absorb_first::<Self>(a0, on1, f1, a1);
        assert(on2 ==> field_wf(f2) && Self::absorb(a1, f2) == Some(a2)) by {
            lemma_text_round_trip(v.code);
        }
        assert(!on2 ==> a2 == a1) by {
            if !on2 {
                assert(v.code =~= Seq::<char>::empty());
            }
        }
        lemma_absorb_next::<Self>(a0, s1, a1, on2, f2, a2);
        assert(on3 ==> field_wf(f3) && Self::absorb(a2, f3) == Some(a3)) by {
            lemma_text_round_trip(v.remark);
        }
        assert(!on3 ==> a3 == a2) by {
            if !on3 {
                assert(v.remark =~= Seq::<char>::empty());
            }
        }
        lemma_absorb_next::<Self>(a0, s2, a2, on3, f3, a3);
        assert(on4 ==> field_wf(f4) && Self::absorb(a3, f4) == Some(a4)) by {
            lemma_text_round_trip(v.name);
        }
        assert(!on4 ==> a4 == a3) by {
            if !on4 {
                assert(v.name =~= Seq::<char>::empty());
            }
        }
        lemma_absorb_next::<Self>(a0, s3, a3, on4, f4, a4);
        assert(on5 ==> field_wf(f5) && Self::absorb(a4, f5) == Some(a5)) by {
            lemma_text_round_trip(v.country);
        }
        assert(!on5 ==> a5 == a4) by {
            if !on5 {
                assert(v.country =~= Seq::<char>::empty());
            }
        }
        lemma_absorb_next::<Self>(a0, s4, a4, on5, f5, a5);
        assert(on6 ==> field_wf(f6) && Self::absorb(a5, f6) == Some(a6)) by {
            lemma_text_round_trip(v.province);
        }
        assert(!on6 ==> a6 == a5) by {
            if !on6 {
                assert(v.province =~= Seq::<char>::empty());
            }
        }
        lemma_absorb_next::<Self>(a0, s5, a5, on6, f6, a6);
        assert(on7 ==> field_wf(f7) && Self::absorb(a6, f7) == Some(a7)) by {
            lemma_text_round_trip(v.city);
        }
        assert(!on7 ==> a7 == a6) by {
            if !on7 {
                assert(v.city =~= Seq::<char>::empty());
            }
        }
        lemma_absorb_next::<Self>(a0, s6, a6, on7, f7, a7);
        assert(on8 ==> field_wf(f8) && Self::absorb(a7, f8) == Some(a8)) by {
            lemma_int32_round_trip(v.gender);
        }
        lemma_absorb_next::<Self>(a0, s7, a7, on8, f8, a8);
        assert(a8 == v);
    }

    fn new() -> (m: Self) {
        RpcContact {
            wxid: String::new(),
            code: String::new(),
            remark: String::new(),
            name: String::new(),
            country: String::new(),
            province: String::new(),
            city: String::new(),
            gender: 0,
        }
    }

    fn merge(self, f: &RawField<'_>) -> (r: Option<Self>) {
        if f.tag == 1 {
            match read_text(&f.value) {
                Some(x) => Some(RpcContact { wxid: x, ..self }),
                None => None,
            }
        } else if f.tag == 2 {
            match read_text(&f.value) {
                Some(x) => Some(RpcContact { code: x, ..self }),
                None => None,
            }
        } else if f.tag == 3 {
            match read_text(&f.value) {
                Some(x) => Some(RpcContact { remark: x, ..self }),
                None => None,
            }
        } else if f.tag == 4 {
            match read_text(&f.value) {
                Some(x) => Some(RpcContact { name: x, ..self }),
                None => None,
            }
        } else if f.tag == 5 {
            match read_text(&f.value) {
                Some(x) => Some(RpcContact { country: x, ..self }),
                None => None,
            }
        } else if f.tag == 6 {
            match read_text(&f.value) {
                Some(x) => Some(RpcContact { province: x, ..self }),
                None => None,
            }
        } else if f.tag == 7 {
            match read_text(&f.value) {
                Some(x) => Some(RpcContact { city: x, ..self }),
                None => None,
            }
        } else if f.tag == 8 {
            match read_int32(&f.value) {
                Some(x) => Some(RpcContact { gender: x, ..self }),
                None => None,
            }
        } else {
            Some(self)
        }
    }

    fn write(&self, buf: &mut Vec<u8>) {
        let ghost v = self@;
        let ghost o1 = text_member(1, v.wxid);
        let ghost o2 = text_member(2, v.code);
        let ghost o3 = text_member(3, v.remark);
        let ghost o4 = text_member(4, v.name);
        let ghost o5 = text_member(5, v.country);
        let ghost o6 = text_member(6, v.province);
        let ghost o7 = text_member(7, v.city);
        let ghost o8 = int32_member(8, v.gender);
        let ghost s1 = o1;
        let ghost s2 = s1 + o2;
        let ghost s3 = s2 + o3;
        let ghost s4 = s3 + o4;
        let ghost s5 = s4 + o5;
        let ghost s6 = s5 + o6;
        let ghost s7 = s6 + o7;
        let ghost s8 = s7 + o8;
        put_text(buf, 1, self.wxid.as_str());
        let ghost b1 = buf@;
        put_text(buf, 2, self.code.as_str());
        let ghost b2 = buf@;
        proof {
            lemma_appended(old(buf)@, s1, b1, o2, b2);
        }
        put_text(buf, 3, self.remark.as_str());
        let ghost b3 = buf@;
        proof {
            lemma_appended(old(buf)@, s2, b2, o3, b3);
        }
        put_text(buf, 4, self.name.as_str());
        let ghost b4 = buf@;
        proof {
            lemma_appended(old(buf)@, s3, b3, o4, b4);
        }
        put_text(buf, 5, self.country.as_str());
        let ghost b5 = buf@;
        proof {
            lemma_appended(old(buf)@, s4, b4, o5, b5);
        }
        put_text(buf, 6, self.province.as_str());
        let ghost b6 = buf@;
        proof {
            lemma_appended(old(buf)@, s5, b5, o6, b6);
        }
        put_text(buf, 7, self.city.as_str());
        let ghost b7 = buf@;
        proof {
            lemma_appended(old(buf)@, s6, b6, o7, b7);
        }
        put_int32(buf, 8, self.gender);
        let ghost b8 = buf@;
        proof {
            lemma_appended(old(buf)@, s7, b7, o8, b8);
        }
    }
}

/// The list of contacts.
#[derive(Clone, Debug, PartialEq, Eq)]
pub struct RpcContacts {
    /// The contacts, in the order in which the worker sent them.
    pub contacts: Vec<RpcContact>,
}

/// What a [`RpcContacts`] holds.
pub struct RpcContactsView {
    pub contacts: Seq<RpcContactView>,
}

impl View for RpcContacts {
    type V = RpcContactsView;

    open spec fn view(&self) -> RpcContactsView {
        RpcContactsView { contacts: views(self.contacts@) }
    }
}

impl Schema for RpcContacts {
    open spec fn group_limit() -> nat {
        (RECURSION_LIMIT - 1) as nat
    }

    open spec fn blank() -> RpcContactsView {
        RpcContactsView { contacts: Seq::empty() }
    }

    open spec fn absorb(acc: RpcContactsView, f: Field) -> Option<RpcContactsView> {
        if f.tag == 1 {
            match payload_message::<RpcContact>(f.value) {
                Some(x) => Some(RpcContactsView { contacts: acc.contacts.push(x) }),
                None => None,
            }
        } else {
            Some(acc)
        }
    }

    open spec fn fields(v: RpcContactsView) -> Seq<Field> {
        repeated_fields::<RpcContact>(1, v.contacts)
    }

    open spec fn representable(v: RpcContactsView) -> bool {
        all_fit::<RpcContact>(v.contacts)
    }
}

impl Message for RpcContacts {
    fn limit() -> (n: u32) {
        RECURSION_LIMIT - 1
    }

    proof fn lemma_fields_absorbed(v: RpcContactsView) {
        let holding = |s: Seq<RpcContactView>| RpcContactsView { contacts: s };
        assert(appends_messages::<Self, RpcContact>(1, holding));
        lemma_repeated_absorbed::<Self, RpcContact>(1, v.contacts, holding);
    }

    fn new() -> (m: Self) {
        let m = RpcContacts { contacts: Vec::new() };
        assert(views(m.contacts@) =~= Seq::empty());
        m
    }

    fn merge(self, f: &RawField<'_>) -> (r: Option<Self>) {
        if f.tag == 1 {
            match read_message::<RpcContact>(&f.value) {
                Some(x) => {
                    let mut contacts = self.contacts;
                    contacts.push(x);
                    assert(views(contacts@) =~= views(self.contacts@).push(x@));
                    Some(RpcContacts { contacts })
                },
                None => None,
            }
        } else {
            Some(self)
        }
    }

    fn write(&self, buf: &mut Vec<u8>) {
        put_repeated(buf, 1, &self.contacts);
    }
}

} // verus!
