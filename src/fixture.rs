use vstd::prelude::*;

use crate::allowed_type::{AllowedType, AllowedTypeMarker, ScalarView};
use crate::config::{ConfigFields, FieldSpec};

verus! {

/// The bits of the least positive normal `f32`.
pub const F32_MIN_POSITIVE_BITS: u32 = 0x0080_0000;

/// The bits of the least positive normal `f64`.
pub const F64_MIN_POSITIVE_BITS: u64 = 0x0010_0000_0000_0000;

/// The grammar a fixture file is written in.
#[allow(non_camel_case_types)]
#[derive(Debug, Clone, Copy, PartialEq, Eq, Structural)]
pub enum TestFileType {
    JSON,
    TOML,
}

/// A configuration file built for exercising the library: where it lives,
/// its grammar, and the top-level entries it is to hold, keys distinct, in
/// order of first insertion.
#[derive(Debug)]
pub struct TestFile {
    path: String,
    file_type: TestFileType,
    entries: Vec<(String, AllowedType)>,
}

/// The models of a sequence of entries.
pub open spec fn entries_model(es: Seq<(String, AllowedType)>) -> Seq<(Seq<char>, ScalarView)> {
    es.map_values(|e: (String, AllowedType)| (e.0@, e.1@))
}

/// The index of the first entry at or after `i` with key `k`.
pub open spec fn entry_index_from(es: Seq<(Seq<char>, ScalarView)>, k: Seq<char>, i: int) -> Option<
    int,
>
    decreases es.len() - i,
{
    if i < 0 || i >= es.len() {
        None
    } else if es[i].0 == k {
        Some(i)
    } else {
        entry_index_from(es, k, i + 1)
    }
}

/// The entries after setting key `k` to `v`: the value of an existing key is
/// replaced in place, a new key is appended.
pub open spec fn put(es: Seq<(Seq<char>, ScalarView)>, k: Seq<char>, v: ScalarView) -> Seq<
    (Seq<char>, ScalarView),
> {
    match entry_index_from(es, k, 0) {
        Some(i) => es.update(i, (k, v)),
        None => es.push((k, v)),
    }
}

/// Whether no two entries share a key.
pub open spec fn keys_distinct(es: Seq<(Seq<char>, ScalarView)>) -> bool {
    forall|i: int, j: int| 0 <= i < j < es.len() ==> es[i].0 != es[j].0
}

/// A key that `entry_index_from` does not find from `i` on is absent from
/// there on.
proof fn lemma_index_none(es: Seq<(Seq<char>, ScalarView)>, k: Seq<char>, i: int)
    requires
        0 <= i,
        entry_index_from(es, k, i) is None,
    ensures
        forall|j: int| i <= j < es.len() ==> es[j].0 != k,
    decreases es.len() - i,
{
    if i < es.len() {
        lemma_index_none(es, k, i + 1);
    }
}

/// A key that `entry_index_from` finds at `j` is stored there.
proof fn lemma_index_some(es: Seq<(Seq<char>, ScalarView)>, k: Seq<char>, i: int)
    requires
        0 <= i,
        entry_index_from(es, k, i) is Some,
    ensures
        ({
            let j = entry_index_from(es, k, i)->0;
            i <= j < es.len() && es[j].0 == k
        }),
    decreases es.len() - i,
{
    if i < es.len() && es[i].0 != k {
        lemma_index_some(es, k, i + 1);
    }
}

/// Setting a key keeps the keys distinct.
pub proof fn lemma_put_keeps_keys_distinct(
    es: Seq<(Seq<char>, ScalarView)>,
    k: Seq<char>,
    v: ScalarView,
)
    requires
        keys_distinct(es),
    ensures
        keys_distinct(put(es, k, v)),
{
    match entry_index_from(es, k, 0) {
        Some(_) => lemma_index_some(es, k, 0),
        None => lemma_index_none(es, k, 0),
    }
}

/// The entries after setting each of `items` in turn.
pub open spec fn put_all(es: Seq<(Seq<char>, ScalarView)>, items: Seq<(Seq<char>, ScalarView)>) -> Seq<
    (Seq<char>, ScalarView),
>
    decreases items.len(),
{
    if items.len() == 0 {
        es
    } else {
        let prev = put_all(es, items.drop_last());
        put(prev, items.last().0, items.last().1)
    }
}

/// One entry for each scalar kind and its extreme values. TOML integers are
/// 64-bit signed, so for TOML the entries outside that range are left out.
pub open spec fn all_type_entries(tft: TestFileType) -> Seq<(Seq<char>, ScalarView)> {
    let head = seq![
        ("String"@, ScalarView::String("i am string"@)),
        ("String_Empty"@, ScalarView::String(""@)),
        ("Char"@, ScalarView::Char('c')),
        ("Bool_False"@, ScalarView::Bool(false)),
        ("Bool_True"@, ScalarView::Bool(true)),
        ("U8_MAX"@, ScalarView::U8(u8::MAX)),
        ("U8_MIN"@, ScalarView::U8(u8::MIN)),
        ("U16_MAX"@, ScalarView::U16(u16::MAX)),
        ("U16_MIN"@, ScalarView::U16(u16::MIN)),
        ("U32_MAX"@, ScalarView::U32(u32::MAX)),
        ("U32_MIN"@, ScalarView::U32(u32::MIN))
    ];
    let big = seq![
        ("U64_MAX"@, ScalarView::U64(u64::MAX)),
        ("U64_MIN"@, ScalarView::U64(u64::MIN)),
        ("U128_MAX"@, ScalarView::U128(u128::MAX)),
        ("U128_MIN"@, ScalarView::U128(u128::MIN))
    ];
    let signed = seq![
        ("I8_MAX"@, ScalarView::I8(i8::MAX)),
        ("I8_MIN"@, ScalarView::I8(i8::MIN)),
        ("I16_MAX"@, ScalarView::I16(i16::MAX)),
        ("I16_MIN"@, ScalarView::I16(i16::MIN)),
        ("I32_MAX"@, ScalarView::I32(i32::MAX)),
        ("I32_MIN"@, ScalarView::I32(i32::MIN)),
        ("I64_MAX"@, ScalarView::I64(i64::MAX)),
        ("I64_MIN"@, ScalarView::I64(i64::MIN))
    ];
    let huge = seq![
        ("I128_MAX"@, ScalarView::I128(i128::MAX)),
        ("I128_MIN"@, ScalarView::I128(i128::MIN))
    ];
    let floats = seq![
        ("F32_MIN_POSITIVE"@, ScalarView::F32(F32_MIN_POSITIVE_BITS)),
        ("F64_MIN_POSITIVE"@, ScalarView::F64(F64_MIN_POSITIVE_BITS))
    ];
    match tft {
        TestFileType::JSON => head + big + signed + huge + floats,
        TestFileType::TOML => head + signed + floats,
    }
}

/// The entries of [`all_type_entries`], as values.
fn type_entries(tft: TestFileType) -> (r: Vec<(String, AllowedType)>)
    ensures
        entries_model(r@) == all_type_entries(tft),
{
    let mut out: Vec<(String, AllowedType)> = Vec::new();
    out.push(("String".to_owned(), AllowedType::String("i am string".to_owned())));
    out.push(("String_Empty".to_owned(), AllowedType::String("".to_owned())));
    out.push(("Char".to_owned(), AllowedType::Char('c')));
    out.push(("Bool_False".to_owned(), AllowedType::Bool(false)));
    out.push(("Bool_True".to_owned(), AllowedType::Bool(true)));
    out.push(("U8_MAX".to_owned(), AllowedType::U8(u8::MAX)));
    out.push(("U8_MIN".to_owned(), AllowedType::U8(u8::MIN)));
    out.push(("U16_MAX".to_owned(), AllowedType::U16(u16::MAX)));
    out.push(("U16_MIN".to_owned(), AllowedType::U16(u16::MIN)));
    out.push(("U32_MAX".to_owned(), AllowedType::U32(u32::MAX)));
    out.push(("U32_MIN".to_owned(), AllowedType::U32(u32::MIN)));
    if tft == TestFileType::JSON {
        out.push(("U64_MAX".to_owned(), AllowedType::U64(u64::MAX)));
        out.push(("U64_MIN".to_owned(), AllowedType::U64(u64::MIN)));
        out.push(("U128_MAX".to_owned(), AllowedType::U128(u128::MAX)));
        out.push(("U128_MIN".to_owned(), AllowedType::U128(u128::MIN)));
    }
    out.push(("I8_MAX".to_owned(), AllowedType::I8(i8::MAX)));
    out.push(("I8_MIN".to_owned(), AllowedType::I8(i8::MIN)));
    out.push(("I16_MAX".to_owned(), AllowedType::I16(i16::MAX)));
    out.push(("I16_MIN".to_owned(), AllowedType::I16(i16::MIN)));
    out.push(("I32_MAX".to_owned(), AllowedType::I32(i32::MAX)));
    out.push(("I32_MIN".to_owned(), AllowedType::I32(i32::MIN)));
    out.push(("I64_MAX".to_owned(), AllowedType::I64(i64::MAX)));
    out.push(("I64_MIN".to_owned(), AllowedType::I64(i64::MIN)));
    if tft == TestFileType::JSON {
        out.push(("I128_MAX".to_owned(), AllowedType::I128(i128::MAX)));
        out.push(("I128_MIN".to_owned(), AllowedType::I128(i128::MIN)));
    }
    out.push(("F32_MIN_POSITIVE".to_owned(), AllowedType::F32(F32_MIN_POSITIVE_BITS)));
    out.push(("F64_MIN_POSITIVE".to_owned(), AllowedType::F64(F64_MIN_POSITIVE_BITS)));
    assert(entries_model(out@) =~= all_type_entries(tft));
    out
}

/// Sets `entry.0` to `entry.1` in a list of entries, as [`put`] says.
fn put_entry(es: &mut Vec<(String, AllowedType)>, entry: (String, AllowedType))
    ensures
        entries_model(final(es)@) == put(entries_model(old(es)@), entry.0@, entry.1@),
{
    let ghost model = entries_model(es@);
    let mut i: usize = 0;
    while i < es.len()
        invariant
            0 <= i <= es.len(),
            model == entries_model(es@),
            model == entries_model(old(es)@),
            entry_index_from(model, entry.0@, 0) == entry_index_from(model, entry.0@, i as int),
        decreases es.len() - i,
    {
        assert(model[i as int].0 == es@[i as int].0@);
        if es[i].0 == entry.0 {
            let ghost e = entry;
            es.set(i, entry);
            assert(entries_model(es@) =~= model.update(i as int, (e.0@, e.1@)));
            return;
        }
        i += 1;
    }
    let ghost e = entry;
    es.push(entry);
    assert(entries_model(es@) =~= model.push((e.0@, e.1@)));
}

impl TestFile {
    /// No two entries share a key.
    #[verifier::type_invariant]
    spec fn entries_keys_distinct(&self) -> bool {
        keys_distinct(entries_model(self.entries@))
    }

    /// The path of the file.
    pub closed spec fn path_view(&self) -> Seq<char> {
        self.path@
    }

    /// The grammar of the file.
    pub closed spec fn type_view(&self) -> TestFileType {
        self.file_type
    }

    /// The entries the file is to hold.
    pub closed spec fn entries_view(&self) -> Seq<(Seq<char>, ScalarView)> {
        entries_model(self.entries@)
    }

    /// A file at `path` in grammar `test_file_type`, holding no entries yet.
    pub fn new_at_path(path: String, test_file_type: TestFileType) -> (r: TestFile)
        ensures
            r.path_view() == path@,
            r.type_view() == test_file_type,
            r.entries_view() == Seq::<(Seq<char>, ScalarView)>::empty(),
    {
        let r = TestFile { path, file_type: test_file_type, entries: Vec::new() };
        assert(r.entries_view() =~= Seq::<(Seq<char>, ScalarView)>::empty());
        r
    }

    /// The path of the file.
    pub fn get_path(&self) -> (r: String)
        ensures
            r@ == self.path_view(),
    {
        self.path.clone()
    }

    /// The grammar of the file.
    pub fn get_type(&self) -> (r: TestFileType)
        ensures
            r == self.type_view(),
    {
        self.file_type
    }

    /// The entries the file is to hold, in order.
    pub fn get_entries(&self) -> (r: &Vec<(String, AllowedType)>)
        ensures
            entries_model(r@) == self.entries_view(),
    {
        &self.entries
    }

    /// Sets `entry.0` to `entry.1`: an existing key keeps its place and takes
    /// the new value, a new key goes last.
    pub fn add_entry(&mut self, entry: (String, AllowedType))
        ensures
            final(self).path_view() == old(self).path_view(),
            final(self).type_view() == old(self).type_view(),
            final(self).entries_view() == put(old(self).entries_view(), entry.0@, entry.1@),
            keys_distinct(final(self).entries_view()),
    {
        proof {
            use_type_invariant(&*self);
            lemma_put_keeps_keys_distinct(self.entries_view(), entry.0@, entry.1@);
        }
        let mut es: Vec<(String, AllowedType)> = Vec::new();
        std::mem::swap(&mut self.entries, &mut es);
        put_entry(&mut es, entry);
        self.entries = es;
    }

    /// Sets every entry of [`all_type_entries`] for `tft`, in order.
    pub fn add_all_type_entries(&mut self, tft: TestFileType)
        ensures
            final(self).path_view() == old(self).path_view(),
            final(self).type_view() == old(self).type_view(),
            final(self).entries_view() == put_all(old(self).entries_view(), all_type_entries(tft)),
            keys_distinct(final(self).entries_view()),
    {
        let mut items = type_entries(tft);
        let ghost all = all_type_entries(tft);
        let ghost start = self.entries_view();
        let ghost n = items.len();
        let mut done: usize = 0;
        assert(all.take(0) =~= Seq::<(Seq<char>, ScalarView)>::empty());
        while items.len() > 0
            invariant
                done + items.len() == n,
                n == all.len(),
                entries_model(items@) == all.skip(done as int),
                self.entries_view() == put_all(start, all.take(done as int)),
                self.path_view() == old(self).path_view(),
                self.type_view() == old(self).type_view(),
            decreases items.len(),
        {
            let ghost rest = items@;
            let item = items.remove(0);
            assert(items@ =~= rest.drop_first());
            assert(entries_model(items@) =~= entries_model(rest).drop_first());
            assert(entries_model(items@) =~= all.skip(done + 1));
            assert(all.take(done + 1).drop_last() =~= all.take(done as int));
            assert(all.take(done + 1).last() == (item.0@, item.1@)) by {
                assert(entries_model(rest)[0] == (item.0@, item.1@));
            }
            self.add_entry(item);
            done += 1;
        }
        assert(all.take(n as int) =~= all);
        proof {
            use_type_invariant(&*self);
        }
    }
}

/// Each variant names a field of the fixture file that
/// [`TestFile::add_all_type_entries`] writes, stored under the variant's own
/// name, and may take any scalar kind.
#[allow(non_camel_case_types)]
#[derive(Debug, Clone, Copy, PartialEq, Eq, Structural)]
pub enum TestEnum {
    String,
    String_Empty,
    Char,
    Bool_False,
    Bool_True,
    U8_MAX,
    U16_MAX,
    U32_MAX,
    U64_MAX,
    U128_MAX,
    I8_MAX,
    I16_MAX,
    I32_MAX,
    I64_MAX,
    I128_MAX,
    U8_MIN,
    U16_MIN,
    U32_MIN,
    U64_MIN,
    U128_MIN,
    I8_MIN,
    I16_MIN,
    I32_MIN,
    I64_MIN,
    I128_MIN,
    F32_MIN_POSITIVE,
    F64_MIN_POSITIVE,
}

/// Every scalar kind, in declaration order.
pub open spec fn all_kinds() -> Seq<AllowedTypeMarker> {
    seq![
        AllowedTypeMarker::String,
        AllowedTypeMarker::Char,
        AllowedTypeMarker::U8,
        AllowedTypeMarker::U16,
        AllowedTypeMarker::U32,
        AllowedTypeMarker::U64,
        AllowedTypeMarker::U128,
        AllowedTypeMarker::I8,
        AllowedTypeMarker::I16,
        AllowedTypeMarker::I32,
        AllowedTypeMarker::I64,
        AllowedTypeMarker::I128,
        AllowedTypeMarker::Bool,
        AllowedTypeMarker::F32,
        AllowedTypeMarker::F64,
    ]
}

/// Every scalar kind, in declaration order, as a value.
pub fn all_kinds_vec() -> (r: Vec<AllowedTypeMarker>)
    ensures
        r@ == all_kinds(),
{
    let mut out: Vec<AllowedTypeMarker> = Vec::new();
    out.push(AllowedTypeMarker::String);
    out.push(AllowedTypeMarker::Char);
    out.push(AllowedTypeMarker::U8);
    out.push(AllowedTypeMarker::U16);
    out.push(AllowedTypeMarker::U32);
    out.push(AllowedTypeMarker::U64);
    out.push(AllowedTypeMarker::U128);
    out.push(AllowedTypeMarker::I8);
    out.push(AllowedTypeMarker::I16);
    out.push(AllowedTypeMarker::I32);
    out.push(AllowedTypeMarker::I64);
    out.push(AllowedTypeMarker::I128);
    out.push(AllowedTypeMarker::Bool);
    out.push(AllowedTypeMarker::F32);
    out.push(AllowedTypeMarker::F64);
    assert(out@ =~= all_kinds());
    out
}

impl TestEnum {
    /// The variant's name: the key its field is stored under.
    pub open spec fn name_view(self) -> Seq<char> {
        match self {
            TestEnum::String => "String"@,
            TestEnum::String_Empty => "String_Empty"@,
            TestEnum::Char => "Char"@,
            TestEnum::Bool_False => "Bool_False"@,
            TestEnum::Bool_True => "Bool_True"@,
            TestEnum::U8_MAX => "U8_MAX"@,
            TestEnum::U16_MAX => "U16_MAX"@,
            TestEnum::U32_MAX => "U32_MAX"@,
            TestEnum::U64_MAX => "U64_MAX"@,
            TestEnum::U128_MAX => "U128_MAX"@,
            TestEnum::I8_MAX => "I8_MAX"@,
            TestEnum::I16_MAX => "I16_MAX"@,
            TestEnum::I32_MAX => "I32_MAX"@,
            TestEnum::I64_MAX => "I64_MAX"@,
            TestEnum::I128_MAX => "I128_MAX"@,
            TestEnum::U8_MIN => "U8_MIN"@,
            TestEnum::U16_MIN => "U16_MIN"@,
            TestEnum::U32_MIN => "U32_MIN"@,
            TestEnum::U64_MIN => "U64_MIN"@,
            TestEnum::U128_MIN => "U128_MIN"@,
            TestEnum::I8_MIN => "I8_MIN"@,
            TestEnum::I16_MIN => "I16_MIN"@,
            TestEnum::I32_MIN => "I32_MIN"@,
            TestEnum::I64_MIN => "I64_MIN"@,
            TestEnum::I128_MIN => "I128_MIN"@,
            TestEnum::F32_MIN_POSITIVE => "F32_MIN_POSITIVE"@,
            TestEnum::F64_MIN_POSITIVE => "F64_MIN_POSITIVE"@,
        }
    }

    /// The variant's name.
    pub fn name(&self) -> (r: String)
        ensures
            r@ == self.name_view(),
    {
        match self {
            TestEnum::String => "String".to_owned(),
            TestEnum::String_Empty => "String_Empty".to_owned(),
            TestEnum::Char => "Char".to_owned(),
            TestEnum::Bool_False => "Bool_False".to_owned(),
            TestEnum::Bool_True => "Bool_True".to_owned(),
            TestEnum::U8_MAX => "U8_MAX".to_owned(),
            TestEnum::U16_MAX => "U16_MAX".to_owned(),
            TestEnum::U32_MAX => "U32_MAX".to_owned(),
            TestEnum::U64_MAX => "U64_MAX".to_owned(),
            TestEnum::U128_MAX => "U128_MAX".to_owned(),
            TestEnum::I8_MAX => "I8_MAX".to_owned(),
            TestEnum::I16_MAX => "I16_MAX".to_owned(),
            TestEnum::I32_MAX => "I32_MAX".to_owned(),
            TestEnum::I64_MAX => "I64_MAX".to_owned(),
            TestEnum::I128_MAX => "I128_MAX".to_owned(),
            TestEnum::U8_MIN => "U8_MIN".to_owned(),
            TestEnum::U16_MIN => "U16_MIN".to_owned(),
            TestEnum::U32_MIN => "U32_MIN".to_owned(),
            TestEnum::U64_MIN => "U64_MIN".to_owned(),
            TestEnum::U128_MIN => "U128_MIN".to_owned(),
            TestEnum::I8_MIN => "I8_MIN".to_owned(),
            TestEnum::I16_MIN => "I16_MIN".to_owned(),
            TestEnum::I32_MIN => "I32_MIN".to_owned(),
            TestEnum::I64_MIN => "I64_MIN".to_owned(),
            TestEnum::I128_MIN => "I128_MIN".to_owned(),
            TestEnum::F32_MIN_POSITIVE => "F32_MIN_POSITIVE".to_owned(),
            TestEnum::F64_MIN_POSITIVE => "F64_MIN_POSITIVE".to_owned(),
        }
    }
}

impl ConfigFields for TestEnum {
    open spec fn declared_keys(&self) -> Seq<Seq<char>> {
        seq![self.name_view()]
    }

    open spec fn declared_types(&self) -> Seq<AllowedTypeMarker> {
        all_kinds()
    }

    fn field_spec(&self) -> (r: FieldSpec) {
        FieldSpec::new(Vec::new(), self.name(), all_kinds_vec())
    }
}

} // verus!
