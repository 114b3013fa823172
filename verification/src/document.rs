//! JSON and YAML documents: the values the parsers give, and the lookups the agents make in them.

use crate::text::{count_nesting_marks, nesting_marks, str_eq};
use crate::toml_merge::TOML_NESTING_LIMIT;
use serde::Deserialize;
use vstd::prelude::*;

verus! {

broadcast use vstd::std_specs::vec::group_vec_axioms;

/// A value of a JSON or YAML document. A number is held by its text; a mapping by its entries
/// in document order; a YAML value with a tag by the tag and the tagged value.
#[derive(Debug)]
pub enum Doc {
    Null,
    Bool(bool),
    Number(String),
    Text(String),
    List(Vec<Doc>),
    Mapping(Vec<(Doc, Doc)>),
    Tagged(String, Box<Doc>),
}

/// The abstract value of a [`Doc`].
pub enum DocView {
    Null,
    Bool(bool),
    Number(Seq<char>),
    Text(Seq<char>),
    List(Seq<DocView>),
    Mapping(Seq<(DocView, DocView)>),
    Tagged(Seq<char>, Box<DocView>),
}

/// The abstract value of `d`.
pub open spec fn doc_view(d: Doc) -> DocView
    decreases d,
{
    match d {
        Doc::Null => DocView::Null,
        Doc::Bool(b) => DocView::Bool(b),
        Doc::Number(n) => DocView::Number(n@),
        Doc::Text(s) => DocView::Text(s@),
        Doc::List(a) => DocView::List(
            Seq::new(
                a.len() as nat,
                |i: int|
                    if 0 <= i < a.len() {
                        doc_view(a[i])
                    } else {
                        DocView::Null
                    },
            ),
        ),
        Doc::Mapping(es) => DocView::Mapping(
            Seq::new(
                es.len() as nat,
                |i: int|
                    if 0 <= i < es.len() {
                        (doc_view(es[i].0), doc_view(es[i].1))
                    } else {
                        (DocView::Null, DocView::Null)
                    },
            ),
        ),
        Doc::Tagged(t, inner) => DocView::Tagged(t@, Box::new(doc_view(*inner))),
    }
}

impl View for Doc {
    type V = DocView;

    open spec fn view(&self) -> DocView {
        doc_view(*self)
    }
}

/// The abstract values of `ds`.
pub open spec fn doc_views(ds: Seq<Doc>) -> Seq<DocView> {
    ds.map_values(|d: Doc| d@)
}

/// The abstract value of an optional document value.
pub open spec fn opt_doc_view(d: Option<Doc>) -> Option<DocView> {
    match d {
        Some(x) => Some(x@),
        None => None,
    }
}

/// `d` without its tags.
pub open spec fn untagged(d: DocView) -> DocView
    decreases d,
{
    match d {
        DocView::Tagged(_, inner) => untagged(*inner),
        _ => d,
    }
}

/// The index of the first entry of `es` at or after `j` whose key is the text `key`, or the
/// number of entries.
pub open spec fn key_index(es: Seq<(DocView, DocView)>, key: Seq<char>, j: nat) -> nat
    decreases es.len() - j,
{
    if j >= es.len() {
        es.len()
    } else if es[j as int].0 == DocView::Text(key) {
        j
    } else {
        key_index(es, key, j + 1)
    }
}

/// The value under the text key `key` of the mapping `d` (its tags aside); `None` when `d` is no
/// mapping or has no such key.
pub open spec fn doc_get(d: DocView, key: Seq<char>) -> Option<DocView> {
    match untagged(d) {
        DocView::Mapping(es) => {
            let i = key_index(es, key, 0);
            if i < es.len() {
                Some(es[i as int].1)
            } else {
                None
            }
        },
        _ => None,
    }
}

/// `doc_get` on an optional value.
pub open spec fn opt_get(d: Option<DocView>, key: Seq<char>) -> Option<DocView> {
    match d {
        Some(x) => doc_get(x, key),
        None => None,
    }
}

/// The text of `d` (its tags aside), when it is one.
pub open spec fn doc_text(d: Option<DocView>) -> Option<Seq<char>> {
    match d {
        Some(x) => match untagged(x) {
            DocView::Text(s) => Some(s),
            _ => None,
        },
        None => None,
    }
}

/// The elements of `d` (its tags aside), when it is a list.
pub open spec fn doc_list(d: Option<DocView>) -> Option<Seq<DocView>> {
    match d {
        Some(x) => match untagged(x) {
            DocView::List(a) => Some(a),
            _ => None,
        },
        None => None,
    }
}

/// The index of the first element of `s` for which `p` holds, or the length of `s`.
pub open spec fn first_where<A>(s: Seq<A>, p: spec_fn(A) -> bool) -> nat
    decreases s.len(),
{
    if s.len() == 0 {
        0
    } else if p(s[0]) {
        0
    } else {
        1 + first_where(s.drop_first(), p)
    }
}

pub proof fn lemma_first_where<A>(s: Seq<A>, p: spec_fn(A) -> bool, i: nat)
    requires
        i <= s.len(),
        forall|j: int| 0 <= j < i ==> !p(#[trigger] s[j]),
    ensures
        first_where(s, p) == i + first_where(s.subrange(i as int, s.len() as int), p),
    decreases i,
{
    if i > 0 {
        let rest = s.drop_first();
        assert(!p(s[0]));
        assert forall|j: int| 0 <= j < i - 1 implies !p(#[trigger] rest[j]) by {
            assert(rest[j] == s[j + 1]);
        }
        lemma_first_where(rest, p, (i - 1) as nat);
        assert(rest.subrange(i - 1, rest.len() as int) =~= s.subrange(i as int, s.len() as int));
    } else {
        assert(s.subrange(0, s.len() as int) =~= s);
    }
}

pub proof fn lemma_first_where_found<A>(s: Seq<A>, p: spec_fn(A) -> bool, i: nat)
    requires
        i < s.len(),
        forall|j: int| 0 <= j < i ==> !p(#[trigger] s[j]),
        p(s[i as int]),
    ensures
        first_where(s, p) == i,
{
    lemma_first_where(s, p, i);
    assert(s.subrange(i as int, s.len() as int)[0] == s[i as int]);
}

pub proof fn lemma_first_where_none<A>(s: Seq<A>, p: spec_fn(A) -> bool)
    requires
        forall|j: int| 0 <= j < s.len() ==> !p(#[trigger] s[j]),
    ensures
        first_where(s, p) == s.len(),
{
    lemma_first_where(s, p, s.len());
}

/// The element of `s` at `first_where(s, p)`, if there is one.
pub open spec fn find_where<A>(s: Seq<A>, p: spec_fn(A) -> bool) -> Option<A> {
    let i = first_where(s, p);
    if i < s.len() {
        Some(s[i as int])
    } else {
        None
    }
}

/// Whether `d` is the untagged text `text`.
pub open spec fn is_text(d: Option<DocView>, text: Seq<char>) -> bool {
    d == Some(DocView::Text(text))
}

/// The abstract value of a mapping is that of its entries.
pub proof fn lemma_entries_view(es: Vec<(Doc, Doc)>)
    ensures
        doc_view(Doc::Mapping(es)) == DocView::Mapping(entry_views(es@)),
{
    match doc_view(Doc::Mapping(es)) {
        DocView::Mapping(s) => {
            assert(s =~= entry_views(es@));
        },
        _ => {},
    }
}

/// The abstract value of a list is that of its elements.
pub proof fn lemma_list_view(a: Vec<Doc>)
    ensures
        doc_view(Doc::List(a)) == DocView::List(doc_views(a@)),
{
    match doc_view(Doc::List(a)) {
        DocView::List(s) => {
            assert(s =~= doc_views(a@));
        },
        _ => {},
    }
}

impl Doc {
    /// The value without its tags.
    pub fn untag(&self) -> (r: &Doc)
        ensures
            r@ == untagged(self@),
        decreases self,
    {
        match self {
            Doc::Tagged(_, inner) => inner.untag(),
            _ => self,
        }
    }

    /// Whether the value is the untagged text `text`.
    pub fn is_text(&self, text: &str) -> (r: bool)
        ensures
            r == (self@ == DocView::Text(text@)),
    {
        match self {
            Doc::Text(s) => str_eq(s.as_str(), text),
            _ => false,
        }
    }

    /// The value under the text key `key`, when the value is a mapping that has it.
    pub fn get(&self, key: &str) -> (r: Option<&Doc>)
        ensures
            opt_doc_view(
                match r {
                    Some(x) => Some(*x),
                    None => None,
                },
            ) == doc_get(self@, key@),
    {
        let d = self.untag();
        match d {
            Doc::Mapping(es) => {
                proof {
                    lemma_entries_view(*es);
                }
                let ghost ev = entry_views(es@);
                let mut i: usize = 0;
                while i < es.len()
                    invariant
                        0 <= i <= es@.len(),
                        ev == entry_views(es@),
                        untagged(self@) == DocView::Mapping(ev),
                        key_index(ev, key@, 0) == key_index(ev, key@, i as nat),
                    decreases es.len() - i,
                {
                    assert(ev[i as int] == (es@[i as int].0@, es@[i as int].1@));
                    if es[i].0.is_text(key) {
                        return Some(&es[i].1);
                    }
                    i = i + 1;
                }
                None
            },
            _ => None,
        }
    }

    /// The text of the value, its tags aside, when it is one.
    pub fn as_text(&self) -> (r: Option<&String>)
        ensures
            match r {
                Some(s) => doc_text(Some(self@)) == Some(s@),
                None => doc_text(Some(self@)) is None,
            },
    {
        match self.untag() {
            Doc::Text(s) => Some(s),
            _ => None,
        }
    }

    /// The elements of the value, its tags aside, when it is a list.
    pub fn as_list(&self) -> (r: Option<&Vec<Doc>>)
        ensures
            match r {
                Some(a) => doc_list(Some(self@)) == Some(doc_views(a@)),
                None => doc_list(Some(self@)) is None,
            },
    {
        match self.untag() {
            Doc::List(a) => {
                proof {
                    lemma_list_view(*a);
                }
                Some(a)
            },
            _ => None,
        }
    }
}

/// The abstract values of mapping entries.
pub open spec fn entry_views(es: Seq<(Doc, Doc)>) -> Seq<(DocView, DocView)> {
    es.map_values(|e: (Doc, Doc)| (e.0@, e.1@))
}

/// The position of the entry of `es` whose key is the text `key`, or the number of entries.
pub fn key_position(es: &Vec<(Doc, Doc)>, key: &str) -> (r: usize)
    ensures
        r == key_index(entry_views(es@), key@, 0),
        r <= es@.len(),
{
    let ghost ev = entry_views(es@);
    let mut i: usize = 0;
    while i < es.len()
        invariant
            0 <= i <= es@.len(),
            ev == entry_views(es@),
            key_index(ev, key@, 0) == key_index(ev, key@, i as nat),
        decreases es.len() - i,
    {
        assert(ev[i as int] == (es@[i as int].0@, es@[i as int].1@));
        if es[i].0.is_text(key) {
            return i;
        }
        i = i + 1;
    }
    i
}

/// The mapping with the entries `es`.
pub fn mapping_of(es: Vec<(Doc, Doc)>) -> (r: Doc)
    ensures
        r@ == DocView::Mapping(entry_views(es@)),
{
    proof {
        lemma_entries_view(es);
    }
    Doc::Mapping(es)
}

/// The value of the mapping `d` with the value under the text key `key` set to `value`, when
/// `d` is a mapping with that key and `keep` holds of the value it has there.
pub open spec fn replaced(
    d: DocView,
    key: Seq<char>,
    value: DocView,
    keep: spec_fn(DocView) -> bool,
) -> Option<DocView> {
    match d {
        DocView::Mapping(es) => {
            let i = key_index(es, key, 0);
            if i < es.len() && keep(es[i as int].1) {
                Some(DocView::Mapping(es.update(i as int, (DocView::Text(key), value))))
            } else {
                None
            }
        },
        _ => None,
    }
}

proof fn lemma_key_index_found(es: Seq<(DocView, DocView)>, key: Seq<char>, j: nat)
    requires
        key_index(es, key, j) < es.len(),
    ensures
        es[key_index(es, key, j) as int].0 == DocView::Text(key),
    decreases es.len() - j,
{
    if j < es.len() && es[j as int].0 != DocView::Text(key) {
        lemma_key_index_found(es, key, j + 1);
    }
}

proof fn lemma_key_index_same_keys(
    a: Seq<(DocView, DocView)>,
    b: Seq<(DocView, DocView)>,
    key: Seq<char>,
    j: nat,
)
    requires
        a.len() == b.len(),
        forall|i: int| 0 <= i < a.len() ==> (#[trigger] a[i]).0 == b[i].0,
    ensures
        key_index(a, key, j) == key_index(b, key, j),
    decreases a.len() - j,
{
    if j < a.len() {
        assert(a[j as int].0 == b[j as int].0);
        lemma_key_index_same_keys(a, b, key, j + 1);
    }
}

/// What a lookup gives back of a write: after the value under `key` of a mapping is set, the
/// lookup of `key` gives the value set, and that of any other key what it gave before.
pub proof fn lemma_replaced_lookup(
    d: DocView,
    key: Seq<char>,
    value: DocView,
    keep: spec_fn(DocView) -> bool,
    other: Seq<char>,
)
    requires
        replaced(d, key, value, keep) is Some,
    ensures
        doc_get(replaced(d, key, value, keep)->0, key) == Some(value),
        other != key ==> doc_get(replaced(d, key, value, keep)->0, other) == doc_get(d, other),
{
    match d {
        DocView::Mapping(es) => {
            let i = key_index(es, key, 0);
            lemma_key_index_found(es, key, 0);
            let es2 = es.update(i as int, (DocView::Text(key), value));
            assert forall|m: int| 0 <= m < es.len() implies (#[trigger] es[m]).0 == es2[m].0 by {}
            lemma_key_index_same_keys(es, es2, key, 0);
            lemma_key_index_same_keys(es, es2, other, 0);
            let k = key_index(es, other, 0);
            if other != key && k < es.len() {
                lemma_key_index_found(es, other, 0);
            }
        },
        _ => {},
    }
}

/// The value a JSON text holds, where `text` is JSON.
pub uninterp spec fn json_document(text: Seq<char>) -> Option<DocView>;

/// The value a YAML text holds, where `text` is one YAML document.
pub uninterp spec fn yaml_document(text: Seq<char>) -> Option<DocView>;

/// The values of the documents of a YAML stream, where every one of them is YAML.
pub uninterp spec fn yaml_documents(bytes: Seq<u8>) -> Option<Seq<DocView>>;

/// The pretty-printed JSON text of a value.
pub uninterp spec fn json_pretty(d: DocView) -> Seq<char>;

/// The compact JSON text of a value.
pub uninterp spec fn json_compact(d: DocView) -> Seq<char>;

/// The value a TOML text (given by its bytes) holds, as JSON values, where it is TOML.
pub uninterp spec fn toml_json_document(bytes: Seq<u8>) -> Option<DocView>;

#[verifier::external_type_specification]
#[verifier::external_body]
pub struct ExJsonValue(serde_json::Value);

#[verifier::external_type_specification]
#[verifier::external_body]
pub struct ExYamlValue(serde_yaml::Value);

/// A `serde_json::Value` as a document value, variant for variant; a number by its text.
#[verifier::external_body]
fn from_json_value(v: serde_json::Value) -> Doc {
    match v {
        serde_json::Value::Null => Doc::Null,
        serde_json::Value::Bool(b) => Doc::Bool(b),
        serde_json::Value::Number(n) => Doc::Number(n.to_string()),
        serde_json::Value::String(s) => Doc::Text(s),
        serde_json::Value::Array(a) => Doc::List(a.into_iter().map(from_json_value).collect()),
        serde_json::Value::Object(m) => Doc::Mapping(
            m.into_iter().map(|(k, v)| (Doc::Text(k), from_json_value(v))).collect(),
        ),
    }
}

/// A `serde_yaml::Value` as a document value, variant for variant; a number by its text, a tag
/// by its text.
#[verifier::external_body]
fn from_yaml_value(v: serde_yaml::Value) -> Doc {
    match v {
        serde_yaml::Value::Null => Doc::Null,
        serde_yaml::Value::Bool(b) => Doc::Bool(b),
        serde_yaml::Value::Number(n) => Doc::Number(n.to_string()),
        serde_yaml::Value::String(s) => Doc::Text(s),
        serde_yaml::Value::Sequence(a) => Doc::List(a.into_iter().map(from_yaml_value).collect()),
        serde_yaml::Value::Mapping(m) => Doc::Mapping(
            m.into_iter().map(|(k, v)| (from_yaml_value(k), from_yaml_value(v))).collect(),
        ),
        serde_yaml::Value::Tagged(t) => Doc::Tagged(t.tag.to_string(), Box::new(from_yaml_value(t.value))),
    }
}

/// A document value as a `serde_json::Value`, variant for variant; tags are dropped, a key that
/// is no text is written as its JSON text, and a number whose text `serde_json` does not read as
/// a number becomes `null`.
#[verifier::external_body]
fn to_json_value(d: &Doc) -> serde_json::Value {
    match d {
        Doc::Null => serde_json::Value::Null,
        Doc::Bool(b) => serde_json::Value::Bool(*b),
        Doc::Number(n) => n.parse::<serde_json::Number>().map_or(serde_json::Value::Null, serde_json::Value::Number),
        Doc::Text(s) => serde_json::Value::String(s.clone()),
        Doc::List(a) => serde_json::Value::Array(a.iter().map(to_json_value).collect()),
        Doc::Mapping(es) => serde_json::Value::Object(es.iter().map(|(k, v)| (match to_json_value(k) {
            serde_json::Value::String(s) => s,
            other => other.to_string(),
        }, to_json_value(v))).collect()),
        Doc::Tagged(_, inner) => to_json_value(inner),
    }
}

/// Parses `text` with `serde_json::from_str` into a `serde_json::Value`. The contract claims
/// that the result is a function of `text` alone; which texts are JSON is not stated.
#[verifier::external_body]
pub(crate) fn parse_json(text: &str) -> (r: Option<Doc>)
    ensures
        opt_doc_view(r) == json_document(text@),
{
    match serde_json::from_str::<serde_json::Value>(text) {
        Ok(v) => Some(from_json_value(v)),
        Err(_) => None,
    }
}

/// Parses `text` with `serde_yaml::from_str` into a `serde_yaml::Value`. The contract claims
/// that the result is a function of `text` alone; which texts are YAML is not stated.
#[verifier::external_body]
pub(crate) fn parse_yaml(text: &str) -> (r: Option<Doc>)
    ensures
        opt_doc_view(r) == yaml_document(text@),
{
    match serde_yaml::from_str::<serde_yaml::Value>(text) {
        Ok(v) => Some(from_yaml_value(v)),
        Err(_) => None,
    }
}

/// Reads every document of the YAML stream `bytes` with `serde_yaml::Deserializer::from_slice`
/// into a `serde_yaml::Value`; `None` as soon as one of them is no YAML. The contract claims that
/// the result is a function of `bytes` alone.
#[verifier::external_body]
pub(crate) fn parse_yaml_documents(bytes: &[u8]) -> (r: Option<Vec<Doc>>)
    ensures
        match r {
            Some(ds) => yaml_documents(bytes@) == Some(doc_views(ds@)),
            None => yaml_documents(bytes@) is None,
        },
{
    let mut docs = Vec::new();
    for document in serde_yaml::Deserializer::from_slice(bytes) {
        match serde_yaml::Value::deserialize(document) {
            Ok(v) => docs.push(from_yaml_value(v)),
            Err(_) => return None,
        }
    }
    Some(docs)
}

/// The JSON text of `d`, pretty-printed by `serde_json::to_string_pretty`. The contract claims
/// that the text is a function of `d` alone.
#[verifier::external_body]
pub(crate) fn json_pretty_text(d: &Doc) -> (r: String)
    ensures
        r@ == json_pretty(d@),
{
    serde_json::to_string_pretty(&to_json_value(d)).unwrap_or_default()
}

/// The compact JSON text of `d`, as `serde_json::Value`'s `to_string` writes it. The contract
/// claims that the text is a function of `d` alone.
#[verifier::external_body]
pub(crate) fn json_text(d: &Doc) -> (r: String)
    ensures
        r@ == json_compact(d@),
{
    to_json_value(d).to_string()
}

/// Reads the TOML `bytes` with `toml::from_slice` into a `serde_json::Value`. The contract claims
/// that the result is a function of `bytes` alone; which texts are TOML is not stated. The reader
/// recurses once per level of nesting, with no bound of its own, so the bytes are held to
/// `TOML_NESTING_LIMIT` nesting marks.
#[verifier::external_body]
fn parse_toml_as_json(bytes: &[u8]) -> (r: Option<Doc>)
    requires
        nesting_marks(bytes@) <= TOML_NESTING_LIMIT,
    ensures
        opt_doc_view(r) == toml_json_document(bytes@),
{
    match toml::from_slice::<serde_json::Value>(bytes) {
        Ok(v) => Some(from_json_value(v)),
        Err(_) => None,
    }
}

/// The document the library reads from the TOML `bytes`: none where they hold more nesting marks
/// than `TOML_NESTING_LIMIT` or are not TOML.
pub open spec fn toml_json_read(bytes: Seq<u8>) -> Option<DocView> {
    if nesting_marks(bytes) > TOML_NESTING_LIMIT {
        None
    } else {
        toml_json_document(bytes)
    }
}

/// Reads the TOML `bytes` as a document, refusing bytes that nest deeper than the limit allows.
pub fn read_toml_as_json(bytes: &[u8]) -> (r: Option<Doc>)
    ensures
        opt_doc_view(r) == toml_json_read(bytes@),
{
    if count_nesting_marks(bytes) > TOML_NESTING_LIMIT {
        None
    } else {
        parse_toml_as_json(bytes)
    }
}

} // verus!
