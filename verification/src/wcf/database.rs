//! The worker's databases: their names, their tables and the rows of a query.

use vstd::prelude::*;
use crate::message::{
    Message, Schema, lemma_absorb_first, lemma_absorb_next, lemma_appended, payload_message,
    read_message,
};
use crate::repeated::{
    all_fit, all_text_fits, appends_messages, appends_text, lemma_repeated_absorbed,
    lemma_repeated_text_absorbed, put_repeated, put_repeated_text, repeated_fields,
    repeated_text_fields, views,
};
use crate::scalar::{
    bytes_member, bytes_payload, int32_member, int32_payload, lemma_int32_round_trip,
    lemma_text_round_trip, payload_bytes_value, payload_int32, payload_text, put_bytes, put_int32,
    put_text, read_bytes, read_int32, read_text, text_fits, text_member, text_payload,
};
use crate::wire::{Field, RECURSION_LIMIT, RawField, field_wf};

verus! {

/// The names of the databases.
#[derive(Clone, Debug, PartialEq, Eq)]
pub struct DbNames {
    /// The names, in the order in which the worker sent them.
    pub names: Vec<String>,
}

/// What a [`DbNames`] holds.
pub struct DbNamesView {
    pub names: Seq<Seq<char>>,
}

impl View for DbNames {
    type V = DbNamesView;

    open spec fn view(&self) -> DbNamesView {
        DbNamesView { names: views(self.names@) }
    }
}

impl Schema for DbNames {
    open spec fn group_limit() -> nat {
        (RECURSION_LIMIT - 1) as nat
    }

    open spec fn blank() -> DbNamesView {
        DbNamesView { names: Seq::empty() }
    }

    open spec fn absorb(acc: DbNamesView, f: Field) -> Option<DbNamesView> {
        if f.tag == 1 {
            match payload_text(f.value) {
                Some(x) => Some(DbNamesView { names: acc.names.push(x) }),
                None => None,
            }
        } else {
            Some(acc)
        }
    }

    open spec fn fields(v: DbNamesView) -> Seq<Field> {
        repeated_text_fields(1, v.names)
    }

    open spec fn representable(v: DbNamesView) -> bool {
        all_text_fits(v.names)
    }
}

impl Message for DbNames {
    fn limit() -> (n: u32) {
        RECURSION_LIMIT - 1
    }

    proof fn lemma_fields_absorbed(v: DbNamesView) {
        let holding = |s: Seq<Seq<char>>| DbNamesView { names: s };
        assert(appends_text::<Self>(1, holding));
        lemma_repeated_text_absorbed::<Self>(1, v.names, holding);
    }

    fn new() -> (m: Self) {
        let m = DbNames { names: Vec::new() };
        assert(views(m.names@) =~= Seq::empty());
        m
    }

    fn merge(self, f: &RawField<'_>) -> (r: Option<Self>) {
        if f.tag == 1 {
            match read_text(&f.value) {
                Some(x) => {
                    let mut names = self.names;
                    names.push(x);
                    assert(views(names@) =~= views(self.names@).push(x@));
                    Some(DbNames { names })
                },
                None => None,
            }
        } else {
            Some(self)
        }
    }

    fn write(&self, buf: &mut Vec<u8>) {
        put_repeated_text(buf, 1, &self.names);
    }
}

/// One table of a database.
#[derive(Clone, Debug, PartialEq, Eq)]
pub struct DbTable {
    /// The name of the table.
    pub name: String,
    /// The statement that made it.
    pub sql: String,
}

/// What a [`DbTable`] holds.
pub struct DbTableView {
    pub name: Seq<char>,
    pub sql: Seq<char>,
}

impl View for DbTable {
    type V = DbTableView;

    open spec fn view(&self) -> DbTableView {
        DbTableView {
            name: self.name@,
            sql: self.sql@,
        }
    }
}

impl Schema for DbTable {
    open spec fn group_limit() -> nat {
        (RECURSION_LIMIT - 2) as nat
    }

    open spec fn blank() -> DbTableView {
        DbTableView {
            name: Seq::empty(),
            sql: Seq::empty(),
        }
    }

    open spec fn absorb(acc: DbTableView, f: Field) -> Option<DbTableView> {
        if f.tag == 1 {
            match payload_text(f.value) {
                Some(x) => Some(DbTableView { name: x, ..acc }),
                None => None,
            }
        } else if f.tag == 2 {
            match payload_text(f.value) {
                Some(x) => Some(DbTableView { sql: x, ..acc }),
                None => None,
            }
        } else {
            Some(acc)
        }
    }

    open spec fn fields(v: DbTableView) -> Seq<Field> {
        text_member(1, v.name)
            + text_member(2, v.sql)
    }

    open spec fn representable(v: DbTableView) -> bool {
        &&& text_fits(v.name)
        &&& text_fits(v.sql)
    }
}

impl Message for DbTable {
    fn limit() -> (n: u32) {
        RECURSION_LIMIT - 2
    }

    proof fn lemma_fields_absorbed(v: DbTableView) {
        let f1 = Field { tag: 1, value: text_payload(v.name) };
        let on1 = v.name.len() > 0;
        let f2 = Field { tag: 2, value: text_payload(v.sql) };
        let on2 = v.sql.len() > 0;
        let a0 = Self::blank();
        let a1 = DbTableView { name: v.name, ..a0 };
        let a2 = DbTableView { sql: v.sql, ..a1 };
        let s1 = text_member(1, v.name);
        let s2 = s1 + text_member(2, v.sql);
        assert(on1 ==> field_wf(f1) && Self::absorb(a0, f1) == Some(a1)) by {
            lemma_text_round_trip(v.name);
        }
        assert(!on1 ==> a1 == a0) by {
            if !on1 {
                assert(v.name =~= Seq::<char>::empty());
            }
        }
        lemma_absorb_first::<Self>(a0, on1, f1, a1);
        assert(on2 ==> field_wf(f2) && Self::absorb(a1, f2) == Some(a2)) by {
            lemma_text_round_trip(v.sql);
        }
        assert(!on2 ==> a2 == a1) by {
            if !on2 {
                assert(v.sql =~= Seq::<char>::empty());
            }
        }
        lemma_absorb_next::<Self>(a0, s1, a1, on2, f2, a2);
        assert(a2 == v);
    }

    fn new() -> (m: Self) {
        DbTable {
            name: String::new(),
            sql: String::new(),
        }
    }

    fn merge(self, f: &RawField<'_>) -> (r: Option<Self>) {
        if f.tag == 1 {
            match read_text(&f.value) {
                Some(x) => Some(DbTable { name: x, ..self }),
                None => None,
            }
        } else if f.tag == 2 {
            match read_text(&f.value) {
                Some(x) => Some(DbTable { sql: x, ..self }),
                None => None,
            }
        } else {
            Some(self)
        }
    }

    fn write(&self, buf: &mut Vec<u8>) {
        let ghost v = self@;
        let ghost o1 = text_member(1, v.name);
        let ghost o2 = text_member(2, v.sql);
        let ghost s1 = o1;
        let ghost s2 = s1 + o2;
        put_text(buf, 1, self.name.as_str());
        let ghost b1 = buf@;
        put_text(buf, 2, self.sql.as_str());
        let ghost b2 = buf@;
        proof {
            lemma_appended(old(buf)@, s1, b1, o2, b2);
        }
    }
}

/// The tables of a database.
#[derive(Clone, Debug, PartialEq, Eq)]
pub struct DbTables {
    /// The tables, in the order in which the worker sent them.
    pub tables: Vec<DbTable>,
}

/// What a [`DbTables`] holds.
pub struct DbTablesView {
    pub tables: Seq<DbTableView>,
}

impl View for DbTables {
    type V = DbTablesView;

    open spec fn view(&self) -> DbTablesView {
        DbTablesView { tables: views(self.tables@) }
    }
}

impl Schema for DbTables {
    open spec fn group_limit() -> nat {
        (RECURSION_LIMIT - 1) as nat
    }

    open spec fn blank() -> DbTablesView {
        DbTablesView { tables: Seq::empty() }
    }

    open spec fn absorb(acc: DbTablesView, f: Field) -> Option<DbTablesView> {
        if f.tag == 1 {
            match payload_message::<DbTable>(f.value) {
                Some(x) => Some(DbTablesView { tables: acc.tables.push(x) }),
                None => None,
            }
        } else {
            Some(acc)
        }
    }

    open spec fn fields(v: DbTablesView) -> Seq<Field> {
        repeated_fields::<DbTable>(1, v.tables)
    }

    open spec fn representable(v: DbTablesView) -> bool {
        all_fit::<DbTable>(v.tables)
    }
}

impl Message for DbTables {
    fn limit() -> (n: u32) {
        RECURSION_LIMIT - 1
    }

    proof fn lemma_fields_absorbed(v: DbTablesView) {
        let holding = |s: Seq<DbTableView>| DbTablesView { tables: s };
        assert(appends_messages::<Self, DbTable>(1, holding));
        lemma_repeated_absorbed::<Self, DbTable>(1, v.tables, holding);
    }

    fn new() -> (m: Self) {
        let m = DbTables { tables: Vec::new() };
        assert(views(m.tables@) =~= Seq::empty());
        m
    }

    fn merge(self, f: &RawField<'_>) -> (r: Option<Self>) {
        if f.tag == 1 {
            match read_message::<DbTable>(&f.value) {
                Some(x) => {
                    let mut tables = self.tables;
                    tables.push(x);
                    assert(views(tables@) =~= views(self.tables@).push(x@));
                    Some(DbTables { tables })
                },
                None => None,
            }
        } else {
            Some(self)
        }
    }

    fn write(&self, buf: &mut Vec<u8>) {
        put_repeated(buf, 1, &self.tables);
    }
}

/// One column of a row.
#[derive(Clone, Debug, PartialEq, Eq)]
pub struct DbField {
    /// The storage type of the value.
    pub type_: i32,
    /// The name of the column.
    pub column: String,
    /// The value, as the database holds it.
    pub content: Vec<u8>,
}

/// What a [`DbField`] holds.
pub struct DbFieldView {
    pub type_: i32,
    pub column: Seq<char>,
    pub content: Seq<u8>,
}

impl View for DbField {
    type V = DbFieldView;

    open spec fn view(&self) -> DbFieldView {
        DbFieldView {
            type_: self.type_,
            column: self.column@,
            content: self.content@,
        }
    }
}

impl Schema for DbField {
    open spec fn group_limit() -> nat {
        (RECURSION_LIMIT - 3) as nat
    }

    open spec fn blank() -> DbFieldView {
        DbFieldView {
            type_: 0,
            column: Seq::empty(),
            content: Seq::empty(),
        }
    }

    open spec fn absorb(acc: DbFieldView, f: Field) -> Option<DbFieldView> {
        if f.tag == 1 {
            match payload_int32(f.value) {
                Some(x) => Some(DbFieldView { type_: x, ..acc }),
                None => None,
            }
        } else if f.tag == 2 {
            match payload_text(f.value) {
                Some(x) => Some(DbFieldView { column: x, ..acc }),
                None => None,
            }
        } else if f.tag == 3 {
            match payload_bytes_value(f.value) {
                Some(x) => Some(DbFieldView { content: x, ..acc }),
                None => None,
            }
        } else {
            Some(acc)
        }
    }

    open spec fn fields(v: DbFieldView) -> Seq<Field> {
        int32_member(1, v.type_)
            + text_member(2, v.column)
            + bytes_member(3, v.content)
    }

    open spec fn representable(v: DbFieldView) -> bool {
        &&& text_fits(v.column)
        &&& v.content.len() <= u64::MAX
    }
}

impl Message for DbField {
    fn limit() -> (n: u32) {
        RECURSION_LIMIT - 3
    }

    proof fn lemma_fields_absorbed(v: DbFieldView) {
        let f1 = Field { tag: 1, value: int32_payload(v.type_) };
        let on1 = v.type_ != 0;
        let f2 = Field { tag: 2, value: text_payload(v.column) };
        let on2 = v.column.len() > 0;
        let f3 = Field { tag: 3, value: bytes_payload(v.content) };
        let on3 = v.content.len() > 0;
        let a0 = Self::blank();
        let a1 = DbFieldView { type_: v.type_, ..a0 };
        let a2 = DbFieldView { column: v.column, ..a1 };
        let a3 = DbFieldView { content: v.content, ..a2 };
        let s1 = int32_member(1, v.type_);
        let s2 = s1 + text_member(2, v.column);
        let s3 = s2 + bytes_member(3, v.content);
        assert(on1 ==> field_wf(f1) && Self::absorb(a0, f1) == Some(a1)) by {
            lemma_int32_round_trip(v.type_);
        }
        lemma_absorb_first::<Self>(a0, on1, f1, a1);
        assert(on2 ==> field_wf(f2) && Self::absorb(a1, f2) == Some(a2)) by {
            lemma_text_round_trip(v.column);
        }
        assert(!on2 ==> a2 == a1) by {
            if !on2 {
                assert(v.column =~= Seq::<char>::empty());
            }
        }
        lemma_absorb_next::<Self>(a0, s1, a1, on2, f2, a2);
        assert(on3 ==> field_wf(f3) && Self::absorb(a2, f3) == Some(a3)) by {
        }
        assert(!on3 ==> a3 == a2) by {
            if !on3 {
                assert(v.content =~= Seq::<u8>::empty());
            }
        }
        lemma_absorb_next::<Self>(a0, s2, a2, on3, f3, a3);
        assert(a3 == v);
    }

    fn new() -> (m: Self) {
        DbField {
            type_: 0,
            column: String::new(),
            content: Vec::new(),
        }
    }

    fn merge(self, f: &RawField<'_>) -> (r: Option<Self>) {
        if f.tag == 1 {
            match read_int32(&f.value) {
                Some(x) => Some(DbField { type_: x, ..self }),
                None => None,
            }
        } else if f.tag == 2 {
            match read_text(&f.value) {
                Some(x) => Some(DbField { column: x, ..self }),
                None => None,
            }
        } else if f.tag == 3 {
            match read_bytes(&f.value) {
                Some(x) => Some(DbField { content: x, ..self }),
                None => None,
            }
        } else {
            Some(self)
        }
    }

    fn write(&self, buf: &mut Vec<u8>) {
        let ghost v = self@;
        let ghost o1 = int32_member(1, v.type_);
        let ghost o2 = text_member(2, v.column);
        let ghost o3 = bytes_member(3, v.content);
        let ghost s1 = o1;
        let ghost s2 = s1 + o2;
        let ghost s3 = s2 + o3;
        put_int32(buf, 1, self.type_);
        let ghost b1 = buf@;
        put_text(buf, 2, self.column.as_str());
        let ghost b2 = buf@;
        proof {
            lemma_appended(old(buf)@, s1, b1, o2, b2);
        }
        put_bytes(buf, 3, self.content.as_slice());
        let ghost b3 = buf@;
        proof {
            lemma_appended(old(buf)@, s2, b2, o3, b3);
        }
    }
}

/// One row of a query's result.
#[derive(Clone, Debug, PartialEq, Eq)]
pub struct DbRow {
    /// The columns of the row.
    pub fields: Vec<DbField>,
}

/// What a [`DbRow`] holds.
pub struct DbRowView {
    pub fields: Seq<DbFieldView>,
}

impl View for DbRow {
    type V = DbRowView;

    open spec fn view(&self) -> DbRowView {
        DbRowView { fields: views(self.fields@) }
    }
}

impl Schema for DbRow {
    open spec fn group_limit() -> nat {
        (RECURSION_LIMIT - 2) as nat
    }

    open spec fn blank() -> DbRowView {
        DbRowView { fields: Seq::empty() }
    }

    open spec fn absorb(acc: DbRowView, f: Field) -> Option<DbRowView> {
        if f.tag == 1 {
            match payload_message::<DbField>(f.value) {
                Some(x) => Some(DbRowView { fields: acc.fields.push(x) }),
                None => None,
            }
        } else {
            Some(acc)
        }
    }

    open spec fn fields(v: DbRowView) -> Seq<Field> {
        repeated_fields::<DbField>(1, v.fields)
    }

    open spec fn representable(v: DbRowView) -> bool {
        all_fit::<DbField>(v.fields)
    }
}

impl Message for DbRow {
    fn limit() -> (n: u32) {
        RECURSION_LIMIT - 2
    }

    proof fn lemma_fields_absorbed(v: DbRowView) {
        let holding = |s: Seq<DbFieldView>| DbRowView { fields: s };
        assert(appends_messages::<Self, DbField>(1, holding));
        lemma_repeated_absorbed::<Self, DbField>(1, v.fields, holding);
    }

    fn new() -> (m: Self) {
        let m = DbRow { fields: Vec::new() };
        assert(views(m.fields@) =~= Seq::empty());
        m
    }

    fn merge(self, f: &RawField<'_>) -> (r: Option<Self>) {
        if f.tag == 1 {
            match read_message::<DbField>(&f.value) {
                Some(x) => {
                    let mut fields = self.fields;
                    fields.push(x);
                    assert(views(fields@) =~= views(self.fields@).push(x@));
                    Some(DbRow { fields })
                },
                None => None,
            }
        } else {
            Some(self)
        }
    }

    fn write(&self, buf: &mut Vec<u8>) {
        put_repeated(buf, 1, &self.fields);
    }
}

/// The result of a query.
#[derive(Clone, Debug, PartialEq, Eq)]
pub struct DbRows {
    /// The rows, in the order in which the worker sent them.
    pub rows: Vec<DbRow>,
}

/// What a [`DbRows`] holds.
pub struct DbRowsView {
    pub rows: Seq<DbRowView>,
}

impl View for DbRows {
    type V = DbRowsView;

    open spec fn view(&self) -> DbRowsView {
        DbRowsView { rows: views(self.rows@) }
    }
}

impl Schema for DbRows {
    open spec fn group_limit() -> nat {
        (RECURSION_LIMIT - 1) as nat
    }

    open spec fn blank() -> DbRowsView {
        DbRowsView { rows: Seq::empty() }
    }

    open spec fn absorb(acc: DbRowsView, f: Field) -> Option<DbRowsView> {
        if f.tag == 1 {
            match payload_message::<DbRow>(f.value) {
                Some(x) => Some(DbRowsView { rows: acc.rows.push(x) }),
                None => None,
            }
        } else {
            Some(acc)
        }
    }

    open spec fn fields(v: DbRowsView) -> Seq<Field> {
        repeated_fields::<DbRow>(1, v.rows)
    }

    open spec fn representable(v: DbRowsView) -> bool {
        all_fit::<DbRow>(v.rows)
    }
}

impl Message for DbRows {
    fn limit() -> (n: u32) {
        RECURSION_LIMIT - 1
    }

    proof fn lemma_fields_absorbed(v: DbRowsView) {
        let holding = |s: Seq<DbRowView>| DbRowsView { rows: s };
        assert(appends_messages::<Self, DbRow>(1, holding));
        lemma_repeated_absorbed::<Self, DbRow>(1, v.rows, holding);
    }

    fn new() -> (m: Self) {
        let m = DbRows { rows: Vec::new() };
        assert(views(m.rows@) =~= Seq::empty());
        m
    }

    fn merge(self, f: &RawField<'_>) -> (r: Option<Self>) {
        if f.tag == 1 {
            match read_message::<DbRow>(&f.value) {
                Some(x) => {
                    let mut rows = self.rows;
                    rows.push(x);
                    assert(views(rows@) =~= views(self.rows@).push(x@));
                    Some(DbRows { rows })
                },
                None => None,
            }
        } else {
            Some(self)
        }
    }

    fn write(&self, buf: &mut Vec<u8>) {
        put_repeated(buf, 1, &self.rows);
    }
}

} // verus!
