use vstd::prelude::*;

use crate::allowed_type::{AllowedType, AllowedTypeMarker, ScalarView};

verus! {

/// One successful coercion: the key it was read under and the value, whose
/// kind is the field's type.
#[derive(Debug, Clone, PartialEq, Eq)]
pub struct Field {
    pub key: String,
    pub value: AllowedType,
}

/// The mathematical model of a [`Field`].
pub struct FieldView {
    pub key: Seq<char>,
    pub value: ScalarView,
}

impl View for Field {
    type V = FieldView;

    open spec fn view(&self) -> FieldView {
        FieldView { key: self.key@, value: self.value@ }
    }
}

/// The models of a sequence of fields.
pub open spec fn fields_view(fs: Seq<Field>) -> Seq<FieldView> {
    fs.map_values(|f: Field| f@)
}

/// The keys of a sequence of fields, in order, repeats kept.
pub open spec fn keys_of(fs: Seq<FieldView>) -> Seq<Seq<char>> {
    fs.map_values(|f: FieldView| f.key)
}

/// The set of distinct keys across a sequence of fields.
pub open spec fn key_set(fs: Seq<FieldView>) -> Set<Seq<char>> {
    keys_of(fs).to_set()
}

/// The index of the first field of kind `ty` at or after `i`.
pub open spec fn kind_index_from(fs: Seq<FieldView>, ty: AllowedTypeMarker, i: int) -> Option<int>
    decreases fs.len() - i,
{
    if i < 0 || i >= fs.len() {
        None
    } else if fs[i].value.marker() == ty {
        Some(i)
    } else {
        kind_index_from(fs, ty, i + 1)
    }
}

/// The value of the first field of kind `ty`, if there is one.
pub open spec fn first_value(fs: Seq<FieldView>, ty: AllowedTypeMarker) -> Option<ScalarView> {
    match kind_index_from(fs, ty, 0) {
        Some(i) => Some(fs[i].value),
        None => None,
    }
}

/// Raised when the fields of one result were read under more than one key.
#[derive(Debug, Clone, PartialEq, Eq)]
pub struct AmbiguousKeyError {
    /// The distinct keys found, each once, in the order they first appear.
    pub keys: Vec<String>,
}

impl AmbiguousKeyError {
    /// The keys as character sequences.
    pub open spec fn keys_view(&self) -> Seq<Seq<char>> {
        self.keys@.map_values(|k: String| k@)
    }
}

impl Field {
    /// A field read under `key` with value `value`.
    pub fn new(key: String, value: AllowedType) -> (r: Field)
        ensures
            r@ == (FieldView { key: key@, value: value@ }),
    {
        Field { key, value }
    }

    /// The key this field was read under.
    pub fn get_key(&self) -> (r: String)
        ensures
            r@ == self.key@,
    {
        self.key.clone()
    }

    /// The kind of this field's value.
    pub fn get_type(&self) -> (r: AllowedTypeMarker)
        ensures
            r == self.value@.marker(),
    {
        self.value.marker()
    }
}

/// Appending an element to a sequence adds it to the sequence's set.
proof fn lemma_push_to_set<A>(s: Seq<A>, x: A)
    ensures
        s.push(x).to_set() == s.to_set().insert(x),
{
    assert(s.push(x) =~= s + seq![x]);
    Seq::lemma_to_set_insert_commutes(s, x);
}

/// Whether `key` occurs in `keys`.
fn contains_key(keys: &Vec<String>, key: &String) -> (r: bool)
    ensures
        r == keys@.map_values(|k: String| k@).contains(key@),
{
    let ghost kv = keys@.map_values(|k: String| k@);
    let mut i: usize = 0;
    while i < keys.len()
        invariant
            0 <= i <= keys.len(),
            kv == keys@.map_values(|k: String| k@),
            forall|j: int| 0 <= j < i ==> kv[j] != key@,
        decreases keys.len() - i,
    {
        if keys[i] == *key {
            assert(kv[i as int] == key@);
            return true;
        }
        i += 1;
    }
    false
}

/// The distinct keys of `fields`, each once, in order of first appearance.
fn distinct_keys(fields: &Vec<Field>) -> (r: Vec<String>)
    ensures
        r@.map_values(|k: String| k@).no_duplicates(),
        r@.map_values(|k: String| k@).to_set() == key_set(fields_view(fields@)),
{
    let ghost fs = fields_view(fields@);
    let mut out: Vec<String> = Vec::new();
    let mut i: usize = 0;
    while i < fields.len()
        invariant
            0 <= i <= fields.len(),
            fs == fields_view(fields@),
            out@.map_values(|k: String| k@).no_duplicates(),
            out@.map_values(|k: String| k@).to_set() == keys_of(fs.take(i as int)).to_set(),
        decreases fields.len() - i,
    {
        let ghost before = out@.map_values(|k: String| k@);
        assert(keys_of(fs.take(i + 1)) =~= keys_of(fs.take(i as int)).push(fields@[i as int].key@));
        proof {
            lemma_push_to_set(keys_of(fs.take(i as int)), fields@[i as int].key@);
        }
        if !contains_key(&out, &fields[i].key) {
            out.push(fields[i].key.clone());
            assert(out@.map_values(|k: String| k@) =~= before.push(fields@[i as int].key@));
            proof {
                lemma_push_to_set(before, fields@[i as int].key@);
            }
        } else {
            assert(keys_of(fs.take(i + 1)).to_set() =~= keys_of(fs.take(i as int)).to_set());
        }
        i += 1;
    }
    assert(fs.take(fields.len() as int) =~= fs);
    out
}

/// The index of the first field of kind `ty`.
fn kind_index(fields: &Vec<Field>, ty: AllowedTypeMarker) -> (r: Option<usize>)
    ensures
        match r {
            Some(i) => kind_index_from(fields_view(fields@), ty, 0) == Some(i as int) && i
                < fields.len() && fields@[i as int].value@.marker() == ty,
            None => kind_index_from(fields_view(fields@), ty, 0) is None,
        },
{
    let ghost fs = fields_view(fields@);
    let mut i: usize = 0;
    while i < fields.len()
        invariant
            0 <= i <= fields.len(),
            fs == fields_view(fields@),
            kind_index_from(fs, ty, 0) == kind_index_from(fs, ty, i as int),
        decreases fields.len() - i,
    {
        if fields[i].value.marker() == ty {
            return Some(i);
        }
        i += 1;
    }
    None
}


/// What a caller reads out of the fields of one resolution.
pub trait VecField {
    /// The models of the fields, in stored order.
    spec fn fields(&self) -> Seq<FieldView>;

    /// Succeeds exactly when all fields were read under a single key; otherwise
    /// fails with the distinct keys found.
    fn only_one_key(&self) -> (r: Result<(), AmbiguousKeyError>)
        requires
            self.fields().len() >= 1,
        ensures
            r is Ok <==> key_set(self.fields()).len() == 1,
            r matches Err(e) ==> e.keys_view().no_duplicates() && e.keys_view().to_set()
                == key_set(self.fields()),
    ;

    /// The first field, whatever its kind.
    fn get_wrapper(&self) -> (r: Option<&Field>)
        ensures
            r is None <==> self.fields().len() == 0,
            r matches Some(f) ==> f@ == self.fields()[0],
    ;

    /// The value of the first field of kind `String`.
    fn get_string(&self) -> (r: Option<String>)
        ensures
            match r {
                Some(s) => first_value(self.fields(), AllowedTypeMarker::String) == Some(
                    ScalarView::String(s@),
                ),
                None => first_value(self.fields(), AllowedTypeMarker::String) is None,
            },
    ;

    /// The value of the first field of kind `Char`.
    fn get_char(&self) -> (r: Option<char>)
        ensures
            r == (match first_value(self.fields(), AllowedTypeMarker::Char) {
                Some(ScalarView::Char(x)) => Some(x),
                _ => None,
            }),
    ;

    /// The value of the first field of kind `U8`.
    fn get_u8(&self) -> (r: Option<u8>)
        ensures
            r == (match first_value(self.fields(), AllowedTypeMarker::U8) {
                Some(ScalarView::U8(x)) => Some(x),
                _ => None,
            }),
    ;

    /// The value of the first field of kind `U16`.
    fn get_u16(&self) -> (r: Option<u16>)
        ensures
            r == (match first_value(self.fields(), AllowedTypeMarker::U16) {
                Some(ScalarView::U16(x)) => Some(x),
                _ => None,
            }),
    ;

    /// The value of the first field of kind `U32`.
    fn get_u32(&self) -> (r: Option<u32>)
        ensures
            r == (match first_value(self.fields(), AllowedTypeMarker::U32) {
                Some(ScalarView::U32(x)) => Some(x),
                _ => None,
            }),
    ;

    /// The value of the first field of kind `U64`.
    fn get_u64(&self) -> (r: Option<u64>)
        ensures
            r == (match first_value(self.fields(), AllowedTypeMarker::U64) {
                Some(ScalarView::U64(x)) => Some(x),
                _ => None,
            }),
    ;

    /// The value of the first field of kind `U128`.
    fn get_u128(&self) -> (r: Option<u128>)
        ensures
            r == (match first_value(self.fields(), AllowedTypeMarker::U128) {
                Some(ScalarView::U128(x)) => Some(x),
                _ => None,
            }),
    ;

    /// The value of the first field of kind `I8`.
    fn get_i8(&self) -> (r: Option<i8>)
        ensures
            r == (match first_value(self.fields(), AllowedTypeMarker::I8) {
                Some(ScalarView::I8(x)) => Some(x),
                _ => None,
            }),
    ;

    /// The value of the first field of kind `I16`.
    fn get_i16(&self) -> (r: Option<i16>)
        ensures
            r == (match first_value(self.fields(), AllowedTypeMarker::I16) {
                Some(ScalarView::I16(x)) => Some(x),
                _ => None,
            }),
    ;

    /// The value of the first field of kind `I32`.
    fn get_i32(&self) -> (r: Option<i32>)
        ensures
            r == (match first_value(self.fields(), AllowedTypeMarker::I32) {
                Some(ScalarView::I32(x)) => Some(x),
                _ => None,
            }),
    ;

    /// The value of the first field of kind `I64`.
    fn get_i64(&self) -> (r: Option<i64>)
        ensures
            r == (match first_value(self.fields(), AllowedTypeMarker::I64) {
                Some(ScalarView::I64(x)) => Some(x),
                _ => None,
            }),
    ;

    /// The value of the first field of kind `I128`.
    fn get_i128(&self) -> (r: Option<i128>)
        ensures
            r == (match first_value(self.fields(), AllowedTypeMarker::I128) {
                Some(ScalarView::I128(x)) => Some(x),
                _ => None,
            }),
    ;

    /// The value of the first field of kind `Bool`.
    fn get_bool(&self) -> (r: Option<bool>)
        ensures
            r == (match first_value(self.fields(), AllowedTypeMarker::Bool) {
                Some(ScalarView::Bool(x)) => Some(x),
                _ => None,
            }),
    ;

    /// The value of the first field of kind `F32`.
    fn get_f32_bits(&self) -> (r: Option<u32>)
        ensures
            r == (match first_value(self.fields(), AllowedTypeMarker::F32) {
                Some(ScalarView::F32(x)) => Some(x),
                _ => None,
            }),
    ;

    /// The value of the first field of kind `F64`.
    fn get_f64_bits(&self) -> (r: Option<u64>)
        ensures
            r == (match first_value(self.fields(), AllowedTypeMarker::F64) {
                Some(ScalarView::F64(x)) => Some(x),
                _ => None,
            }),
    ;
}

impl VecField for Vec<Field> {
    open spec fn fields(&self) -> Seq<FieldView> {
        fields_view(self@)
    }

    fn only_one_key(&self) -> (r: Result<(), AmbiguousKeyError>) {
        let keys = distinct_keys(self);
        proof {
            keys@.map_values(|k: String| k@).unique_seq_to_set();
        }
        if keys.len() == 1 {
            Ok(())
        } else {
            Err(AmbiguousKeyError { keys })
        }
    }

    fn get_wrapper(&self) -> (r: Option<&Field>) {
        if self.len() == 0 {
            None
        } else {
            Some(&self[0])
        }
    }

    fn get_string(&self) -> (r: Option<String>) {
        match kind_index(self, AllowedTypeMarker::String) {
            Some(i) => {
                assert(self.fields()[i as int] == self@[i as int]@);
                self[i].value.get_string()
            },
            None => None,
        }
    }

    fn get_char(&self) -> (r: Option<char>) {
        match kind_index(self, AllowedTypeMarker::Char) {
            Some(i) => self[i].value.get_char(),
            None => None,
        }
    }

    fn get_u8(&self) -> (r: Option<u8>) {
        match kind_index(self, AllowedTypeMarker::U8) {
            Some(i) => self[i].value.get_u8(),
            None => None,
        }
    }

    fn get_u16(&self) -> (r: Option<u16>) {
        match kind_index(self, AllowedTypeMarker::U16) {
            Some(i) => self[i].value.get_u16(),
            None => None,
        }
    }

    fn get_u32(&self) -> (r: Option<u32>) {
        match kind_index(self, AllowedTypeMarker::U32) {
            Some(i) => self[i].value.get_u32(),
            None => None,
        }
    }

    fn get_u64(&self) -> (r: Option<u64>) {
        match kind_index(self, AllowedTypeMarker::U64) {
            Some(i) => self[i].value.get_u64(),
            None => None,
        }
    }

    fn get_u128(&self) -> (r: Option<u128>) {
        match kind_index(self, AllowedTypeMarker::U128) {
            Some(i) => self[i].value.get_u128(),
            None => None,
        }
    }

    fn get_i8(&self) -> (r: Option<i8>) {
        match kind_index(self, AllowedTypeMarker::I8) {
            Some(i) => self[i].value.get_i8(),
            None => None,
        }
    }

    fn get_i16(&self) -> (r: Option<i16>) {
        match kind_index(self, AllowedTypeMarker::I16) {
            Some(i) => self[i].value.get_i16(),
            None => None,
        }
    }

    fn get_i32(&self) -> (r: Option<i32>) {
        match kind_index(self, AllowedTypeMarker::I32) {
            Some(i) => self[i].value.get_i32(),
            None => None,
        }
    }

    fn get_i64(&self) -> (r: Option<i64>) {
        match kind_index(self, AllowedTypeMarker::I64) {
            Some(i) => self[i].value.get_i64(),
            None => None,
        }
    }

    fn get_i128(&self) -> (r: Option<i128>) {
        match kind_index(self, AllowedTypeMarker::I128) {
            Some(i) => self[i].value.get_i128(),
            None => None,
        }
    }

    fn get_bool(&self) -> (r: Option<bool>) {
        match kind_index(self, AllowedTypeMarker::Bool) {
            Some(i) => self[i].value.get_bool(),
            None => None,
        }
    }

    fn get_f32_bits(&self) -> (r: Option<u32>) {
        match kind_index(self, AllowedTypeMarker::F32) {
            Some(i) => self[i].value.get_f32_bits(),
            None => None,
        }
    }

    fn get_f64_bits(&self) -> (r: Option<u64>) {
        match kind_index(self, AllowedTypeMarker::F64) {
            Some(i) => self[i].value.get_f64_bits(),
            None => None,
        }
    }
}

} // verus!
