use vstd::prelude::*;

use crate::allowed_type::AllowedTypeMarker;
use crate::document::{coerce, coerce_spec, Node, NodeView};
use crate::field::{fields_view, Field, FieldView};

verus! {

/// One top-level entry of a document: its key, the node that coercion reads,
/// and the backend's own value, kept for callers that deserialize it further.
pub struct Entry<S> {
    pub key: String,
    pub node: Node,
    pub raw: S,
}

/// The models of a sequence of entries: each key with its node.
pub open spec fn entries_view<S>(es: Seq<Entry<S>>) -> Seq<(Seq<char>, NodeView)> {
    es.map_values(|e: Entry<S>| (e.key@, e.node@))
}

/// The index of the first entry at or after `i` stored under `key`.
pub open spec fn find_from(doc: Seq<(Seq<char>, NodeView)>, key: Seq<char>, i: int) -> Option<int>
    decreases doc.len() - i,
{
    if i < 0 || i >= doc.len() {
        None
    } else if doc[i].0 == key {
        Some(i)
    } else {
        find_from(doc, key, i + 1)
    }
}

/// The index of the first entry stored under `key`.
pub open spec fn find_key(doc: Seq<(Seq<char>, NodeView)>, key: Seq<char>) -> Option<int> {
    find_from(doc, key, 0)
}

/// The node stored under `key`, if any.
pub open spec fn lookup(doc: Seq<(Seq<char>, NodeView)>, key: Seq<char>) -> Option<NodeView> {
    match find_key(doc, key) {
        Some(i) => Some(doc[i].1),
        None => None,
    }
}

/// The fields that one present key yields: one for each permitted type, in
/// order, that its node coerces into.
pub open spec fn key_fields(key: Seq<char>, node: NodeView, types: Seq<AllowedTypeMarker>) -> Seq<
    FieldView,
>
    decreases types.len(),
{
    if types.len() == 0 {
        Seq::empty()
    } else {
        let prev = key_fields(key, node, types.drop_last());
        match coerce_spec(node, types.last()) {
            Some(v) => prev.push(FieldView { key, value: v }),
            None => prev,
        }
    }
}

/// Every field that a declaration yields against a document: key by key in
/// declared order, skipping absent keys, and within a key type by type.
pub open spec fn resolve_spec(
    doc: Seq<(Seq<char>, NodeView)>,
    keys: Seq<Seq<char>>,
    types: Seq<AllowedTypeMarker>,
) -> Seq<FieldView>
    decreases keys.len(),
{
    if keys.len() == 0 {
        Seq::empty()
    } else {
        let prev = resolve_spec(doc, keys.drop_last(), types);
        match lookup(doc, keys.last()) {
            Some(node) => prev + key_fields(keys.last(), node, types),
            None => prev,
        }
    }
}

/// The outcome of a resolution: absent when no field was found.
pub open spec fn resolve_view(
    doc: Seq<(Seq<char>, NodeView)>,
    keys: Seq<Seq<char>>,
    types: Seq<AllowedTypeMarker>,
) -> Option<Seq<FieldView>> {
    let fs = resolve_spec(doc, keys, types);
    if fs.len() == 0 {
        None
    } else {
        Some(fs)
    }
}

/// The declaration of one logical field: the keys it may be stored under and
/// the kinds it may take, both in order of preference.
pub struct FieldSpec {
    pub keys: Vec<String>,
    pub types: Vec<AllowedTypeMarker>,
}

impl FieldSpec {
    /// The keys as character sequences.
    pub open spec fn key_views(&self) -> Seq<Seq<char>> {
        self.keys@.map_values(|k: String| k@)
    }

    /// A declaration with the given keys and types; when no key is given, the
    /// field is looked up under `default_key` alone.
    pub fn new(keys: Vec<String>, default_key: String, types: Vec<AllowedTypeMarker>) -> (r:
        FieldSpec)
        ensures
            keys@.len() > 0 ==> r.keys@ == keys@,
            keys@.len() == 0 ==> r.key_views() == seq![default_key@],
            r.types@ == types@,
    {
        if keys.len() == 0 {
            let mut only: Vec<String> = Vec::new();
            only.push(default_key);
            assert(only@.map_values(|k: String| k@) =~= seq![default_key@]);
            FieldSpec { keys: only, types }
        } else {
            FieldSpec { keys, types }
        }
    }
}

/// Something that declares a logical field.
pub trait ConfigFields {
    /// The keys the field may be stored under.
    spec fn declared_keys(&self) -> Seq<Seq<char>>;

    /// The kinds the field may take.
    spec fn declared_types(&self) -> Seq<AllowedTypeMarker>;

    /// The declaration as a value.
    fn field_spec(&self) -> (r: FieldSpec)
        ensures
            r.key_views() == self.declared_keys(),
            r.types@ == self.declared_types(),
    ;
}

/// Whether no two entries of a document share a key.
pub open spec fn keys_distinct(doc: Seq<(Seq<char>, NodeView)>) -> bool {
    forall|i: int, j: int| 0 <= i < j < doc.len() ==> doc[i].0 != doc[j].0
}

/// In a document whose keys are distinct, looking up the key of an entry
/// finds that very entry.
pub proof fn lemma_find_key_distinct(doc: Seq<(Seq<char>, NodeView)>, i: int)
    requires
        keys_distinct(doc),
        0 <= i < doc.len(),
    ensures
        find_key(doc, doc[i].0) == Some(i),
{
    lemma_find_from_distinct(doc, i, 0);
}

/// The step of [`lemma_find_key_distinct`]: searching from any `j <= i` finds `i`.
proof fn lemma_find_from_distinct(doc: Seq<(Seq<char>, NodeView)>, i: int, j: int)
    requires
        keys_distinct(doc),
        0 <= j <= i < doc.len(),
    ensures
        find_from(doc, doc[i].0, j) == Some(i),
    decreases i - j,
{
    if j < i {
        assert(doc[j].0 != doc[i].0);
        lemma_find_from_distinct(doc, i, j + 1);
    }
}

/// One parsed configuration document: its top-level entries, in stored order,
/// each key at most once. `S` is the backend's own value type.
pub struct Config<S> {
    entries: Vec<Entry<S>>,
}

impl<S> View for Config<S> {
    type V = Seq<(Seq<char>, NodeView)>;

    closed spec fn view(&self) -> Seq<(Seq<char>, NodeView)> {
        entries_view(self.entries@)
    }
}

impl<S> Config<S> {
    /// The backend value of the `i`-th entry.
    pub closed spec fn raw_at(&self, i: int) -> S {
        self.entries@[i].raw
    }

    /// No two entries share a key.
    #[verifier::type_invariant]
    spec fn entry_keys_distinct(&self) -> bool {
        keys_distinct(self@)
    }

    /// The document made of these entries; absent when two of them share a
    /// key, as no parsed map holds.
    pub fn new(entries: Vec<Entry<S>>) -> (r: Option<Config<S>>)
        ensures
            r is Some <==> keys_distinct(entries_view(entries@)),
            r matches Some(c) ==> c@ == entries_view(entries@) && forall|i: int|
                0 <= i < entries@.len() ==> c.raw_at(i) == entries@[i].raw,
    {
        let ghost doc = entries_view(entries@);
        let mut i: usize = 0;
        while i < entries.len()
            invariant
                0 <= i <= entries.len(),
                doc == entries_view(entries@),
                forall|a: int, b: int| 0 <= a < b < i ==> doc[a].0 != doc[b].0,
            decreases entries.len() - i,
        {
            let mut j: usize = 0;
            while j < i
                invariant
                    0 <= j <= i < entries.len(),
                    doc == entries_view(entries@),
                    forall|a: int, b: int| 0 <= a < b < i ==> doc[a].0 != doc[b].0,
                    forall|a: int| 0 <= a < j ==> doc[a].0 != doc[i as int].0,
                decreases i - j,
            {
                assert(doc[j as int].0 == entries@[j as int].key@);
                assert(doc[i as int].0 == entries@[i as int].key@);
                if entries[j].key == entries[i].key {
                    return None;
                }
                j += 1;
            }
            i += 1;
        }
        Some(Config { entries })
    }

    /// The index of the first entry stored under `key`.
    fn find(&self, key: &String) -> (r: Option<usize>)
        ensures
            match r {
                Some(i) => find_key(self@, key@) == Some(i as int) && i < self@.len(),
                None => find_key(self@, key@) is None,
            },
    {
        let mut i: usize = 0;
        while i < self.entries.len()
            invariant
                0 <= i <= self.entries.len(),
                find_key(self@, key@) == find_from(self@, key@, i as int),
            decreases self.entries.len() - i,
        {
            assert(self@[i as int].0 == self.entries@[i as int].key@);
            if self.entries[i].key == *key {
                return Some(i);
            }
            i += 1;
        }
        None
    }

    /// Whether the document has an entry under `key`.
    pub fn has_key(&self, key: &str) -> (r: bool)
        ensures
            r == (lookup(self@, key@) is Some),
    {
        let k = key.to_owned();
        self.find(&k).is_some()
    }

    /// The node stored under `key`.
    pub fn get_at(&self, key: &str) -> (r: Option<&Node>)
        ensures
            match r {
                Some(n) => lookup(self@, key@) == Some(n@),
                None => lookup(self@, key@) is None,
            },
    {
        let k = key.to_owned();
        match self.find(&k) {
            Some(i) => {
                assert(self@[i as int].1 == self.entries@[i as int].node@);
                Some(&self.entries[i].node)
            },
            None => None,
        }
    }

    /// Resolves a declaration against this document: every `(key, type,
    /// value)` combination that coerces, keys in declared order, types in
    /// declared order within a key; absent when there is none.
    pub fn resolve(&self, spec: &FieldSpec) -> (r: Option<Vec<Field>>)
        ensures
            match r {
                Some(fs) => resolve_view(self@, spec.key_views(), spec.types@) == Some(
                    fields_view(fs@),
                ),
                None => resolve_view(self@, spec.key_views(), spec.types@) is None,
            },
    {
        let ghost kv = spec.key_views();
        let ghost ts = spec.types@;
        let mut out: Vec<Field> = Vec::new();
        let mut i: usize = 0;
        while i < spec.keys.len()
            invariant
                0 <= i <= spec.keys.len(),
                kv == spec.key_views(),
                ts == spec.types@,
                fields_view(out@) == resolve_spec(self@, kv.take(i as int), ts),
            decreases spec.keys.len() - i,
        {
            let key = &spec.keys[i];
            assert(kv.take(i + 1).drop_last() =~= kv.take(i as int));
            assert(kv.take(i + 1).last() == key@);
            match self.find(key) {
                Some(idx) => {
                    let node = &self.entries[idx].node;
                    assert(self@[idx as int].1 == node@);
                    let ghost prev = fields_view(out@);
                    let mut j: usize = 0;
                    while j < spec.types.len()
                        invariant
                            0 <= j <= spec.types.len(),
                            ts == spec.types@,
                            fields_view(out@) == prev + key_fields(key@, node@, ts.take(j as int)),
                        decreases spec.types.len() - j,
                    {
                        assert(ts.take(j + 1).drop_last() =~= ts.take(j as int));
                        assert(ts.take(j + 1).last() == ts[j as int]);
                        match coerce(node, spec.types[j]) {
                            Some(v) => {
                                let f = Field::new(key.clone(), v);
                                let ghost before = out@;
                                out.push(f);
                                assert(fields_view(out@) =~= fields_view(before).push(f@));
                                assert((prev + key_fields(key@, node@, ts.take(j as int))).push(f@)
                                    =~= prev + key_fields(key@, node@, ts.take(j as int)).push(f@));
                            },
                            None => {},
                        }
                        j += 1;
                    }
                    assert(ts.take(spec.types.len() as int) =~= ts);
                },
                None => {},
            }
            i += 1;
        }
        assert(kv.take(spec.keys.len() as int) =~= kv);
        if out.len() == 0 {
            None
        } else {
            Some(out)
        }
    }

    /// Resolves the declaration of `field` against this document.
    pub fn get<F: ConfigFields>(&self, field: &F) -> (r: Option<Vec<Field>>)
        ensures
            match r {
                Some(fs) => resolve_view(self@, field.declared_keys(), field.declared_types())
                    == Some(fields_view(fs@)),
                None => resolve_view(self@, field.declared_keys(), field.declared_types()) is None,
            },
    {
        let spec = field.field_spec();
        self.resolve(&spec)
    }

    /// The backend value stored under `key`, for callers that deserialize it
    /// themselves (arrays and tables coerce into no scalar kind).
    pub fn get_raw(&self, key: &str) -> (r: Option<&S>)
        ensures
            match find_key(self@, key@) {
                Some(i) => r matches Some(s) && *s == self.raw_at(i),
                None => r is None,
            },
    {
        let k = key.to_owned();
        match self.find(&k) {
            Some(i) => Some(&self.entries[i].raw),
            None => None,
        }
    }

    /// The backend value stored under the key of the first field, for callers
    /// that deserialize it themselves.
    pub fn get_generic_inner(&self, fields: &Vec<Field>) -> (r: Option<&S>)
        ensures
            fields@.len() == 0 ==> r is None,
            fields@.len() > 0 ==> match find_key(self@, fields@[0].key@) {
                Some(i) => r matches Some(s) && *s == self.raw_at(i),
                None => r is None,
            },
    {
        if fields.len() == 0 {
            return None;
        }
        match self.find(&fields[0].key) {
            Some(i) => Some(&self.entries[i].raw),
            None => None,
        }
    }
}

/// Whether `key` is present in the document with a node that coerces into `ty`.
pub open spec fn key_matches(
    doc: Seq<(Seq<char>, NodeView)>,
    key: Seq<char>,
    ty: AllowedTypeMarker,
) -> bool {
    match lookup(doc, key) {
        Some(n) => coerce_spec(n, ty) is Some,
        None => false,
    }
}

/// A present key yields no field exactly when its node coerces into none of
/// the types.
proof fn lemma_key_fields_empty(key: Seq<char>, node: NodeView, types: Seq<AllowedTypeMarker>)
    ensures
        key_fields(key, node, types).len() == 0 <==> forall|j: int|
            0 <= j < types.len() ==> coerce_spec(node, #[trigger] types[j]) is None,
    decreases types.len(),
{
    if types.len() > 0 {
        let rest = types.drop_last();
        lemma_key_fields_empty(key, node, rest);
        assert forall|j: int| 0 <= j < rest.len() implies rest[j] == types[j] by {}
        if key_fields(key, node, types).len() == 0 {
            assert forall|j: int| 0 <= j < types.len() implies coerce_spec(
                node,
                #[trigger] types[j],
            ) is None by {
                if j < rest.len() {
                    assert(rest[j] == types[j]);
                }
            }
        }
    }
}

/// A resolution is absent exactly when no declared key is present in the
/// document with a value that coerces into any declared type.
pub proof fn lemma_absent_iff_no_match<S>(config: Config<S>, spec: FieldSpec)
    ensures
        resolve_view(config@, spec.key_views(), spec.types@) is None <==> forall|i: int, j: int|
            0 <= i < spec.keys@.len() && 0 <= j < spec.types@.len() ==> !key_matches(
                config@,
                #[trigger] spec.key_views()[i],
                #[trigger] spec.types@[j],
            ),
{
    lemma_resolve_empty(config@, spec.key_views(), spec.types@);
}

/// The view-level form of [`lemma_absent_iff_no_match`].
proof fn lemma_resolve_empty(
    doc: Seq<(Seq<char>, NodeView)>,
    keys: Seq<Seq<char>>,
    types: Seq<AllowedTypeMarker>,
)
    ensures
        resolve_spec(doc, keys, types).len() == 0 <==> forall|i: int, j: int|
            0 <= i < keys.len() && 0 <= j < types.len() ==> !key_matches(
                doc,
                #[trigger] keys[i],
                #[trigger] types[j],
            ),
    decreases keys.len(),
{
    if keys.len() > 0 {
        let rest = keys.drop_last();
        let last = keys.last();
        lemma_resolve_empty(doc, rest, types);
        let prev = resolve_spec(doc, rest, types);
        match lookup(doc, last) {
            Some(n) => {
                lemma_key_fields_empty(last, n, types);
                assert((prev + key_fields(last, n, types)).len() == prev.len() + key_fields(
                    last,
                    n,
                    types,
                ).len());
            },
            None => {},
        }
        if resolve_spec(doc, keys, types).len() == 0 {
            assert forall|i: int, j: int|
                0 <= i < keys.len() && 0 <= j < types.len() implies !key_matches(
                doc,
                #[trigger] keys[i],
                #[trigger] types[j],
            ) by {
                if i < rest.len() {
                    assert(rest[i] == keys[i]);
                } else {
                    assert(keys[i] == last);
                }
            }
        } else {
            if prev.len() != 0 {
                let (i, j) = choose|i: int, j: int|
                    0 <= i < rest.len() && 0 <= j < types.len() && key_matches(
                        doc,
                        #[trigger] rest[i],
                        #[trigger] types[j],
                    );
                assert(rest[i] == keys[i]);
            } else {
                let n = lookup(doc, last)->0;
                let j = choose|j: int| 0 <= j < types.len() && !(coerce_spec(n, #[trigger] types[j]) is None);
                assert(keys[keys.len() - 1] == last);
                assert(key_matches(doc, keys[keys.len() - 1], types[j]));
            }
        }
    }
}

/// Resolution is deterministic: documents with the same entries, resolved
/// against declarations with the same keys and types, give the same fields
/// in the same order.
pub proof fn lemma_resolve_deterministic<S, T>(
    c1: Config<S>,
    c2: Config<T>,
    s1: FieldSpec,
    s2: FieldSpec,
)
    requires
        c1@ == c2@,
        s1.key_views() == s2.key_views(),
        s1.types@ == s2.types@,
    ensures
        resolve_view(c1@, s1.key_views(), s1.types@) == resolve_view(
            c2@,
            s2.key_views(),
            s2.types@,
        ),
{
}

} // verus!
