//! TOML values as user data holds them, and the merge of one TOML value into another.

use crate::provider::{ProviderError, Resources};
use crate::text::{count_nesting_marks, nesting_marks};
use toml::Value;
use vstd::utf8::encode_utf8;
use vstd::prelude::*;

verus! {

broadcast use vstd::std_specs::vec::group_vec_axioms;

/// A TOML value. A table is held as its entries, in the order in which they are iterated; a float
/// and a date-time by their text.
#[derive(Debug)]
pub enum TomlValue {
    String(String),
    Integer(i64),
    Float(String),
    Boolean(bool),
    Datetime(String),
    Array(Vec<TomlValue>),
    Table(Vec<(String, TomlValue)>),
}

/// The abstract value of a [`TomlValue`].
pub enum TomlView {
    String(Seq<char>),
    Integer(i64),
    Float(Seq<char>),
    Boolean(bool),
    Datetime(Seq<char>),
    Array(Seq<TomlView>),
    Table(Seq<(Seq<char>, TomlView)>),
}

pub open spec fn entry_view(e: (String, TomlValue)) -> (Seq<char>, TomlView) {
    (e.0@, toml_view(e.1))
}

/// The abstract value of `v`.
pub open spec fn toml_view(v: TomlValue) -> TomlView
    decreases v,
{
    match v {
        TomlValue::String(s) => TomlView::String(s@),
        TomlValue::Integer(i) => TomlView::Integer(i),
        TomlValue::Float(f) => TomlView::Float(f@),
        TomlValue::Boolean(b) => TomlView::Boolean(b),
        TomlValue::Datetime(d) => TomlView::Datetime(d@),
        TomlValue::Array(a) => TomlView::Array(
            Seq::new(
                a.len() as nat,
                |i: int|
                    if 0 <= i < a.len() {
                        toml_view(a[i])
                    } else {
                        TomlView::Boolean(false)
                    },
            ),
        ),
        TomlValue::Table(t) => TomlView::Table(
            Seq::new(
                t.len() as nat,
                |i: int|
                    if 0 <= i < t.len() {
                        (t[i].0@, toml_view(t[i].1))
                    } else {
                        (Seq::empty(), TomlView::Boolean(false))
                    },
            ),
        ),
    }
}

impl View for TomlValue {
    type V = TomlView;

    open spec fn view(&self) -> TomlView {
        toml_view(*self)
    }
}

/// Whether two values have the same TOML type.
pub open spec fn same_kind(a: TomlView, b: TomlView) -> bool {
    match (a, b) {
        (TomlView::String(_), TomlView::String(_)) => true,
        (TomlView::Integer(_), TomlView::Integer(_)) => true,
        (TomlView::Float(_), TomlView::Float(_)) => true,
        (TomlView::Boolean(_), TomlView::Boolean(_)) => true,
        (TomlView::Datetime(_), TomlView::Datetime(_)) => true,
        (TomlView::Array(_), TomlView::Array(_)) => true,
        (TomlView::Table(_), TomlView::Table(_)) => true,
        _ => false,
    }
}

/// Index of the first entry of `te` at or after `j` whose key is `k`, or `te.len()`.
pub open spec fn find_key(te: Seq<(Seq<char>, TomlView)>, k: Seq<char>, j: nat) -> nat
    decreases te.len() - j,
{
    if j >= te.len() {
        te.len()
    } else if te[j as int].0 == k {
        j
    } else {
        find_key(te, k, j + 1)
    }
}

/// `from` merged into `into`, and whether the merge went through. Scalars and arrays of `from`
/// replace those of `into`; the entries of a table of `from` are merged, one after the other,
/// into the table of `into`: an entry whose key `into` lacks is added at the end, one whose key
/// it has is merged into that entry. Values of different types do not merge: the merge stops
/// there, with what was merged before kept.
pub open spec fn merged(from: TomlView, into: TomlView) -> (TomlView, bool)
    decreases from, 0nat,
{
    if !same_kind(into, from) {
        (into, false)
    } else {
        match from {
            TomlView::Table(fe) => match into {
                TomlView::Table(te) => {
                    let r = merged_entries(fe, 0, te);
                    (TomlView::Table(r.0), r.1)
                },
                _ => (into, false),
            },
            _ => (from, true),
        }
    }
}

/// The entries `fe[i..]` merged, in order, into the table entries `te`.
pub open spec fn merged_entries(
    fe: Seq<(Seq<char>, TomlView)>,
    i: nat,
    te: Seq<(Seq<char>, TomlView)>,
) -> (Seq<(Seq<char>, TomlView)>, bool)
    decreases fe, fe.len() - i,
{
    if i >= fe.len() {
        (te, true)
    } else {
        let k = fe[i as int].0;
        let j = find_key(te, k, 0);
        if j < te.len() {
            let m = merged(fe[i as int].1, te[j as int].1);
            let te2 = te.update(j as int, (te[j as int].0, m.0));
            if m.1 {
                merged_entries(fe, i + 1, te2)
            } else {
                (te2, false)
            }
        } else {
            merged_entries(fe, i + 1, te.push(fe[i as int]))
        }
    }
}

pub open spec fn table_view(t: Vec<(String, TomlValue)>) -> Seq<(Seq<char>, TomlView)> {
    t@.map_values(|e: (String, TomlValue)| entry_view(e))
}

proof fn lemma_table_view(t: Vec<(String, TomlValue)>)
    ensures
        toml_view(TomlValue::Table(t)) == TomlView::Table(table_view(t)),
{
    match toml_view(TomlValue::Table(t)) {
        TomlView::Table(s) => {
            assert(s =~= table_view(t));
        },
        _ => {},
    }
}

proof fn lemma_array_view(a: Vec<TomlValue>)
    ensures
        toml_view(TomlValue::Array(a)) == TomlView::Array(a@.map_values(|x: TomlValue| toml_view(x))),
{
    match toml_view(TomlValue::Array(a)) {
        TomlView::Array(s) => {
            assert(s =~= a@.map_values(|x: TomlValue| toml_view(x)));
        },
        _ => {},
    }
}

/// Whether `a` and `b` have the same TOML type.
pub fn same_type(a: &TomlValue, b: &TomlValue) -> (r: bool)
    ensures
        r == same_kind(a@, b@),
{
    match (a, b) {
        (TomlValue::String(_), TomlValue::String(_)) => true,
        (TomlValue::Integer(_), TomlValue::Integer(_)) => true,
        (TomlValue::Float(_), TomlValue::Float(_)) => true,
        (TomlValue::Boolean(_), TomlValue::Boolean(_)) => true,
        (TomlValue::Datetime(_), TomlValue::Datetime(_)) => true,
        (TomlValue::Array(_), TomlValue::Array(_)) => true,
        (TomlValue::Table(_), TomlValue::Table(_)) => true,
        _ => false,
    }
}

/// A copy of `v`.
pub fn clone_value(v: &TomlValue) -> (r: TomlValue)
    ensures
        r@ == v@,
    decreases v,
{
    match v {
        TomlValue::String(s) => TomlValue::String(s.clone()),
        TomlValue::Integer(i) => TomlValue::Integer(*i),
        TomlValue::Float(f) => TomlValue::Float(f.clone()),
        TomlValue::Boolean(b) => TomlValue::Boolean(*b),
        TomlValue::Datetime(d) => TomlValue::Datetime(d.clone()),
        TomlValue::Array(a) => {
            let mut out: Vec<TomlValue> = Vec::new();
            let mut i: usize = 0;
            while i < a.len()
                invariant
                    0 <= i <= a.len(),
                    out.len() == i,
                    forall|j: int| 0 <= j < i ==> toml_view(#[trigger] out@[j]) == toml_view(a@[j]),
                    decreases_to!(v => a),
                decreases a.len() - i,
            {
                proof {
                    assert(decreases_to!(a => a[i as int]));
                }
                let c = clone_value(&a[i]);
                out.push(c);
                i = i + 1;
            }
            proof {
                lemma_array_view(*a);
                lemma_array_view(out);
                assert(out@.map_values(|x: TomlValue| toml_view(x)) =~= a@.map_values(
                    |x: TomlValue| toml_view(x),
                ));
            }
            TomlValue::Array(out)
        },
        TomlValue::Table(t) => {
            let mut out: Vec<(String, TomlValue)> = Vec::new();
            let mut i: usize = 0;
            while i < t.len()
                invariant
                    0 <= i <= t.len(),
                    out.len() == i,
                    forall|j: int| 0 <= j < i ==> entry_view(#[trigger] out@[j]) == entry_view(t@[j]),
                    decreases_to!(v => t),
                decreases t.len() - i,
            {
                proof {
                    assert(decreases_to!(t => t[i as int]));
                }
                let c = clone_value(&t[i].1);
                out.push((t[i].0.clone(), c));
                i = i + 1;
            }
            proof {
                lemma_table_view(*t);
                lemma_table_view(out);
                assert(table_view(out) =~= table_view(*t));
            }
            TomlValue::Table(out)
        },
    }
}

/// The message of a merge of values of different types.
pub open spec fn mismatch_message() -> Seq<char> {
    "Cannot merge mismatched data types in given TOML"@
}

fn mismatch_error() -> (e: ProviderError)
    ensures
        e.resources == Resources::Clear,
        e.context@ == mismatch_message(),
{
    let mut msg = String::new();
    msg.append("Cannot merge mismatched data types in given TOML");
    ProviderError::new_with_context(Resources::Clear, msg)
}

fn find_key_index(te: &Vec<(String, TomlValue)>, k: &String) -> (r: usize)
    ensures
        r == find_key(table_view(*te), k@, 0),
{
    let ghost tv = table_view(*te);
    let mut j: usize = 0;
    while j < te.len()
        invariant
            tv == table_view(*te),
            0 <= j <= te.len(),
            find_key(tv, k@, 0) == find_key(tv, k@, j as nat),
        decreases te.len() - j,
    {
        if te[j].0 == *k {
            return j;
        }
        j = j + 1;
    }
    j
}

/// This modifies the first given toml Value by inserting any values from the second Value.
///
/// This is done recursively. Any time a scalar or array is seen, the left side is set to match
/// the right side. Any time a table is seen, we iterate through the keys of the tables; if the
/// left side does not have the key from the right side, it's inserted, otherwise we recursively
/// merge the values in each table for that key.
///
/// If at any point in the recursion the data types of the two values does not match, we error.
pub fn merge_values(merge_from: &TomlValue, merge_into: &mut TomlValue) -> (r: Result<
    (),
    ProviderError,
>)
    ensures
        (final(merge_into)@, r is Ok) == merged(merge_from@, old(merge_into)@),
        r matches Err(e) ==> e.resources == Resources::Clear && e.context@ == mismatch_message(),
    decreases merge_from, 0nat,
{
    if !same_type(merge_into, merge_from) {
        return Err(mismatch_error());
    }
    match merge_from {
        TomlValue::Table(from) => {
            let mut taken = TomlValue::Boolean(false);
            std::mem::swap(&mut taken, merge_into);
            match taken {
                TomlValue::Table(mut to) => {
                    proof {
                        lemma_table_view(*from);
                        lemma_table_view(to);
                    }
                    let r = merge_entries(from, &mut to);
                    proof {
                        lemma_table_view(to);
                    }
                    *merge_into = TomlValue::Table(to);
                    r
                },
                other => {
                    *merge_into = other;
                    Err(mismatch_error())
                },
            }
        },
        _ => {
            *merge_into = clone_value(merge_from);
            Ok(())
        },
    }
}

fn merge_entries(from: &Vec<(String, TomlValue)>, to: &mut Vec<(String, TomlValue)>) -> (r: Result<
    (),
    ProviderError,
>)
    ensures
        (table_view(*final(to)), r is Ok) == merged_entries(table_view(*from), 0, table_view(*old(to))),
        r matches Err(e) ==> e.resources == Resources::Clear && e.context@ == mismatch_message(),
    decreases from, 1nat,
{
    let ghost fe = table_view(*from);
    let ghost target = merged_entries(fe, 0, table_view(*to));
    let mut i: usize = 0;
    while i < from.len()
        invariant
            fe == table_view(*from),
            0 <= i <= from.len(),
            merged_entries(fe, i as nat, table_view(*to)) == target,
            target == merged_entries(fe, 0, table_view(*old(to))),
        decreases from.len() - i,
    {
        let j = find_key_index(to, &from[i].0);
        proof {
            assert(decreases_to!(from => from[i as int]));
            assert(fe[i as int] == entry_view(from@[i as int]));
        }
        let ghost te = table_view(*to);
        if j < to.len() {
            let ghost to0 = to@;
            let (key, mut value) = to.remove(j);
            let res = merge_values(&from[i].1, &mut value);
            to.insert(j, (key, value));
            proof {
                let m = merged(fe[i as int].1, te[j as int].1);
                assert(entry_view(to0[j as int]) == te[j as int]);
                assert(table_view(*to) =~= te.update(j as int, (te[j as int].0, m.0)));
            }
            if res.is_err() {
                return res;
            }
        } else {
            let c = clone_value(&from[i].1);
            to.push((from[i].0.clone(), c));
            assert(table_view(*to) =~= te.push(fe[i as int]));
        }
        i = i + 1;
    }
    Ok(())
}

/// Whether `v` is a table.
pub open spec fn is_table(v: TomlView) -> bool {
    v is Table
}

/// Whether some entry of `te` has the key `k`.
pub open spec fn has_key(te: Seq<(Seq<char>, TomlView)>, k: Seq<char>) -> bool {
    exists|j: int| 0 <= j < te.len() && (#[trigger] te[j]).0 == k
}

proof fn lemma_find_key(te: Seq<(Seq<char>, TomlView)>, k: Seq<char>, j: nat)
    ensures
        find_key(te, k, j) <= te.len(),
        find_key(te, k, j) < te.len() ==> te[find_key(te, k, j) as int].0 == k,
        j <= te.len() && find_key(te, k, j) == te.len() ==> forall|m: int|
            j <= m < te.len() ==> (#[trigger] te[m]).0 != k,
    decreases te.len() - j,
{
    if j < te.len() && te[j as int].0 != k {
        lemma_find_key(te, k, j + 1);
    }
}

proof fn lemma_merged_entries(
    fe: Seq<(Seq<char>, TomlView)>,
    i: nat,
    te: Seq<(Seq<char>, TomlView)>,
)
    requires
        i <= fe.len(),
    ensures
        merged_entries(fe, i, te).0.len() >= te.len(),
        forall|j: int| 0 <= j < te.len() ==> (#[trigger] merged_entries(fe, i, te).0[j]).0 == te[j].0,
        forall|j: int|
            0 <= j < te.len() && (forall|m: int| i <= m < fe.len() ==> (#[trigger] fe[m]).0 != te[j].0)
                ==> (#[trigger] merged_entries(fe, i, te).0[j]) == te[j],
        merged_entries(fe, i, te).1 ==> forall|m: int|
            i <= m < fe.len() ==> has_key(merged_entries(fe, i, te).0, (#[trigger] fe[m]).0),
    decreases fe.len() - i,
{
    if i < fe.len() {
        let k = fe[i as int].0;
        let j = find_key(te, k, 0);
        lemma_find_key(te, k, 0);
        let r = merged_entries(fe, i, te);
        if j < te.len() {
            let m = merged(fe[i as int].1, te[j as int].1);
            let te2 = te.update(j as int, (te[j as int].0, m.0));
            if m.1 {
                lemma_merged_entries(fe, i + 1, te2);
                assert(r == merged_entries(fe, i + 1, te2));
                assert forall|jj: int|
                    0 <= jj < te.len() && (forall|mm: int|
                        i <= mm < fe.len() ==> (#[trigger] fe[mm]).0 != te[jj].0) implies (
                #[trigger] r.0[jj]) == te[jj] by {
                    assert(fe[i as int].0 != te[jj].0);
                    assert(jj != j);
                    assert(te2[jj] == te[jj]);
                }
                if r.1 {
                    assert forall|mm: int| i <= mm < fe.len() implies has_key(
                        r.0,
                        (#[trigger] fe[mm]).0,
                    ) by {
                        if mm == i {
                            assert(r.0[j as int].0 == te2[j as int].0);
                        }
                    }
                }
            } else {
                assert(r == (te2, false));
            }
        } else {
            let te3 = te.push(fe[i as int]);
            lemma_merged_entries(fe, i + 1, te3);
            assert(r == merged_entries(fe, i + 1, te3));
            assert forall|jj: int| 0 <= jj < te.len() implies (#[trigger] r.0[jj]).0 == te[jj].0 by {
                assert(te3[jj] == te[jj]);
            }
            assert forall|jj: int|
                0 <= jj < te.len() && (forall|mm: int|
                    i <= mm < fe.len() ==> (#[trigger] fe[mm]).0 != te[jj].0) implies (
            #[trigger] r.0[jj]) == te[jj] by {
                assert(fe[i as int].0 != te[jj].0);
                assert(te3[jj] == te[jj]);
            }
            if r.1 {
                assert forall|mm: int| i <= mm < fe.len() implies has_key(
                    r.0,
                    (#[trigger] fe[mm]).0,
                ) by {
                    if mm == i {
                        assert(r.0[te.len() as int].0 == te3[te.len() as int].0);
                    }
                }
            }
        }
    }
}

/// The entries of a table (none for another value).
pub open spec fn table_entries(v: TomlView) -> Seq<(Seq<char>, TomlView)> {
    match v {
        TomlView::Table(te) => te,
        _ => Seq::empty(),
    }
}

/// A merge of values of different types fails and leaves the value merged into as it was; a
/// scalar or an array replaces a value of its type.
pub proof fn lemma_merge_values_laws(from: TomlView, into: TomlView)
    ensures
        !same_kind(into, from) ==> merged(from, into) == (into, false),
        same_kind(into, from) && !is_table(from) ==> merged(from, into) == (from, true),
{
}

/// Merging a table into a table keeps every key of the table merged into, in its place; leaves
/// the entries whose key the merged table lacks as they were; and, when the merge goes through,
/// gives every key of the merged table an entry. Merging an empty table changes nothing.
pub proof fn lemma_merge_tables_laws(fe: Seq<(Seq<char>, TomlView)>, te: Seq<(Seq<char>, TomlView)>)
    ensures
        ({
            let r = merged(TomlView::Table(fe), TomlView::Table(te));
            let re = table_entries(r.0);
            &&& is_table(r.0)
            &&& re.len() >= te.len()
            &&& forall|j: int| 0 <= j < te.len() ==> (#[trigger] re[j]).0 == te[j].0
            &&& forall|j: int|
                0 <= j < te.len() && !has_key(fe, te[j].0) ==> (#[trigger] re[j]) == te[j]
            &&& r.1 ==> forall|m: int| 0 <= m < fe.len() ==> has_key(re, (#[trigger] fe[m]).0)
            &&& fe.len() == 0 ==> r == (TomlView::Table(te), true)
        }),
{
    lemma_merged_entries(fe, 0, te);
    let re = merged_entries(fe, 0, te).0;
    assert forall|j: int| 0 <= j < te.len() && !has_key(fe, te[j].0) implies (#[trigger] re[j])
        == te[j] by {
        assert forall|m: int| 0 <= m < fe.len() implies (#[trigger] fe[m]).0 != te[j].0 by {
            if fe[m].0 == te[j].0 {
                assert(has_key(fe, te[j].0));
            }
        }
    }
}

/// Whether no two entries of `te` have the same key.
pub open spec fn unique_keys(te: Seq<(Seq<char>, TomlView)>) -> bool {
    forall|a: int, b: int| 0 <= a < b < te.len() ==> te[a].0 != te[b].0
}

/// Whether `v` is a TOML value as TOML has them: each of its tables, however deep, has each key
/// once.
pub open spec fn well_formed(v: TomlView) -> bool
    decreases v, 0nat,
{
    match v {
        TomlView::Array(a) => values_well_formed(a, 0),
        TomlView::Table(te) => unique_keys(te) && entries_well_formed(te, 0),
        _ => true,
    }
}

/// Whether the values `a[i..]` are well formed.
pub open spec fn values_well_formed(a: Seq<TomlView>, i: nat) -> bool
    decreases a, a.len() - i,
{
    if i >= a.len() {
        true
    } else {
        well_formed(a[i as int]) && values_well_formed(a, i + 1)
    }
}

/// Whether the values of the entries `te[i..]` are well formed.
pub open spec fn entries_well_formed(te: Seq<(Seq<char>, TomlView)>, i: nat) -> bool
    decreases te, te.len() - i,
{
    if i >= te.len() {
        true
    } else {
        well_formed(te[i as int].1) && entries_well_formed(te, i + 1)
    }
}

proof fn lemma_entries_well_formed_at(te: Seq<(Seq<char>, TomlView)>, i: nat, j: int)
    requires
        entries_well_formed(te, i),
        i <= j < te.len(),
    ensures
        well_formed(te[j].1),
    decreases j - i,
{
    if j > i {
        lemma_entries_well_formed_at(te, i + 1, j);
    }
}

proof fn lemma_entries_well_formed_from(te: Seq<(Seq<char>, TomlView)>, i: nat)
    requires
        forall|j: int| i <= j < te.len() ==> well_formed(#[trigger] te[j].1),
    ensures
        entries_well_formed(te, i),
    decreases te.len() - i,
{
    if i < te.len() {
        lemma_entries_well_formed_from(te, i + 1);
    }
}

proof fn lemma_merged_well_formed(from: TomlView, into: TomlView)
    requires
        well_formed(from),
        well_formed(into),
    ensures
        well_formed(merged(from, into).0),
    decreases from, 0nat,
{
    if same_kind(into, from) {
        if let TomlView::Table(fe) = from {
            if let TomlView::Table(te) = into {
                assert forall|j: int| 0 <= j < fe.len() implies well_formed(#[trigger] fe[j].1) by {
                    lemma_entries_well_formed_at(fe, 0, j);
                }
                assert forall|j: int| 0 <= j < te.len() implies well_formed(#[trigger] te[j].1) by {
                    lemma_entries_well_formed_at(te, 0, j);
                }
                lemma_merged_entries_well_formed(fe, 0, te);
                lemma_entries_well_formed_from(merged_entries(fe, 0, te).0, 0);
            }
        }
    }
}

proof fn lemma_merged_entries_well_formed(
    fe: Seq<(Seq<char>, TomlView)>,
    i: nat,
    te: Seq<(Seq<char>, TomlView)>,
)
    requires
        forall|j: int| 0 <= j < fe.len() ==> well_formed(#[trigger] fe[j].1),
        forall|j: int| 0 <= j < te.len() ==> well_formed(#[trigger] te[j].1),
        unique_keys(te),
    ensures
        forall|j: int|
            0 <= j < merged_entries(fe, i, te).0.len() ==> well_formed(
                #[trigger] merged_entries(fe, i, te).0[j].1,
            ),
        unique_keys(merged_entries(fe, i, te).0),
    decreases fe, fe.len() - i,
{
    if i < fe.len() {
        let k = fe[i as int].0;
        let j = find_key(te, k, 0);
        lemma_find_key(te, k, 0);
        if j < te.len() {
            assert(decreases_to!(fe => fe[i as int]));
            lemma_merged_well_formed(fe[i as int].1, te[j as int].1);
            let m = merged(fe[i as int].1, te[j as int].1);
            let te2 = te.update(j as int, (te[j as int].0, m.0));
            assert forall|a: int| 0 <= a < te2.len() implies well_formed(#[trigger] te2[a].1) by {
                if a != j {
                    assert(te2[a] == te[a]);
                }
            }
            assert forall|a: int, b: int| 0 <= a < b < te2.len() implies te2[a].0 != te2[b].0 by {
                assert(te2[a].0 == te[a].0 && te2[b].0 == te[b].0);
            }
            if m.1 {
                lemma_merged_entries_well_formed(fe, i + 1, te2);
            }
        } else {
            let te3 = te.push(fe[i as int]);
            assert forall|a: int| 0 <= a < te3.len() implies well_formed(#[trigger] te3[a].1) by {
                if a < te.len() {
                    assert(te3[a] == te[a]);
                }
            }
            assert forall|a: int, b: int| 0 <= a < b < te3.len() implies te3[a].0 != te3[b].0 by {
                if b == te.len() {
                    assert(te3[a] == te[a]);
                    assert(te[a].0 != k);
                } else {
                    assert(te3[a] == te[a] && te3[b] == te[b]);
                }
            }
            lemma_merged_entries_well_formed(fe, i + 1, te3);
        }
    }
}

/// A merge keeps TOML values well formed: when both values have each key of each of their tables
/// once, so has the value merged into, after the merge (whether the merge went through or not).
pub proof fn lemma_merge_keeps_values_well_formed(from: TomlView, into: TomlView)
    requires
        well_formed(from),
        well_formed(into),
    ensures
        well_formed(merged(from, into).0),
{
    lemma_merged_well_formed(from, into);
}

proof fn lemma_find_key_at(te: Seq<(Seq<char>, TomlView)>, k: Seq<char>, j: int, x: nat)
    requires
        x <= j < te.len(),
        te[j].0 == k,
        forall|m: int| x <= m < j ==> (#[trigger] te[m]).0 != k,
    ensures
        find_key(te, k, x) == j,
    decreases j - x,
{
    if x < j {
        lemma_find_key_at(te, k, j, x + 1);
    }
}

/// Whether the entries `fe` are those of a well-formed table.
pub open spec fn well_formed_entries(fe: Seq<(Seq<char>, TomlView)>) -> bool {
    &&& unique_keys(fe)
    &&& forall|j: int| 0 <= j < fe.len() ==> well_formed(#[trigger] fe[j].1)
}

proof fn lemma_well_formed_entries(fe: Seq<(Seq<char>, TomlView)>)
    requires
        well_formed(TomlView::Table(fe)),
    ensures
        well_formed_entries(fe),
{
    assert forall|j: int| 0 <= j < fe.len() implies well_formed(#[trigger] fe[j].1) by {
        lemma_entries_well_formed_at(fe, 0, j);
    }
}

proof fn lemma_merge_self(v: TomlView)
    requires
        well_formed(v),
    ensures
        merged(v, v) == (v, true),
    decreases v, 0nat,
{
    if let TomlView::Table(fe) = v {
        lemma_well_formed_entries(fe);
        lemma_entries_self(fe, 0);
    }
}

proof fn lemma_entries_self(fe: Seq<(Seq<char>, TomlView)>, i: nat)
    requires
        well_formed_entries(fe),
        i <= fe.len(),
    ensures
        merged_entries(fe, i, fe) == (fe, true),
    decreases fe, fe.len() - i,
{
    if i < fe.len() {
        let k = fe[i as int].0;
        lemma_find_key_at(fe, k, i as int, 0);
        assert(decreases_to!(fe => fe[i as int]));
        lemma_merge_self(fe[i as int].1);
        assert(fe.update(i as int, (fe[i as int].0, fe[i as int].1)) =~= fe);
        lemma_entries_self(fe, i + 1);
    }
}

proof fn lemma_merge_idempotent_values(f: TomlView, v: TomlView)
    requires
        well_formed(f),
        merged(f, v).1,
    ensures
        merged(f, merged(f, v).0) == (merged(f, v).0, true),
    decreases f, 0nat,
{
    match f {
        TomlView::Table(fe) => match v {
            TomlView::Table(te) => {
                lemma_well_formed_entries(fe);
                lemma_merge_idempotent_entries(fe, 0, te);
            },
            _ => {},
        },
        _ => {
            lemma_merge_self(f);
        },
    }
}

proof fn lemma_merge_idempotent_entries(
    fe: Seq<(Seq<char>, TomlView)>,
    i: nat,
    te: Seq<(Seq<char>, TomlView)>,
)
    requires
        well_formed_entries(fe),
        i <= fe.len(),
        merged_entries(fe, i, te).1,
    ensures
        merged_entries(fe, i, merged_entries(fe, i, te).0) == (merged_entries(fe, i, te).0, true),
    decreases fe, fe.len() - i,
{
    if i < fe.len() {
        let k = fe[i as int].0;
        let j = find_key(te, k, 0);
        lemma_find_key(te, k, 0);
        assert(decreases_to!(fe => fe[i as int]));
        if j < te.len() {
            let m = merged(fe[i as int].1, te[j as int].1);
            let te2 = te.update(j as int, (te[j as int].0, m.0));
            let r = merged_entries(fe, i + 1, te2).0;
            lemma_merged_entries(fe, i + 1, te2);
            lemma_merge_idempotent_entries(fe, i + 1, te2);
            assert forall|mm: int| i + 1 <= mm < fe.len() implies (#[trigger] fe[mm]).0 != te2[j as int].0 by {
                assert(fe[i as int].0 != fe[mm].0);
            }
            assert(r[j as int] == te2[j as int]);
            assert forall|x: int| 0 <= x < j implies (#[trigger] r[x]).0 != k by {
                assert(r[x].0 == te2[x].0);
                assert(te2[x] == te[x]);
                if te[x].0 == k {
                    lemma_find_key_first(te, k, 0, x);
                }
            }
            lemma_find_key_at(r, k, j as int, 0);
            lemma_merge_idempotent_values(fe[i as int].1, te[j as int].1);
            assert(r.update(j as int, (r[j as int].0, m.0)) =~= r);
        } else {
            let te3 = te.push(fe[i as int]);
            let r = merged_entries(fe, i + 1, te3).0;
            lemma_merged_entries(fe, i + 1, te3);
            lemma_merge_idempotent_entries(fe, i + 1, te3);
            let n = te.len() as int;
            assert forall|mm: int| i + 1 <= mm < fe.len() implies (#[trigger] fe[mm]).0 != te3[n].0 by {
                assert(fe[i as int].0 != fe[mm].0);
            }
            assert(r[n] == te3[n]);
            assert forall|x: int| 0 <= x < n implies (#[trigger] r[x]).0 != k by {
                assert(r[x].0 == te3[x].0);
                assert(te3[x] == te[x]);
            }
            lemma_find_key_at(r, k, n, 0);
            lemma_merge_self(fe[i as int].1);
            assert(r.update(n, (r[n].0, fe[i as int].1)) =~= r);
        }
    }
}

proof fn lemma_find_key_first(te: Seq<(Seq<char>, TomlView)>, k: Seq<char>, x: nat, y: int)
    requires
        x <= y < te.len(),
        te[y].0 == k,
    ensures
        find_key(te, k, x) <= y,
    decreases y - x,
{
    if te[x as int].0 != k {
        lemma_find_key_first(te, k, x + 1, y);
    }
}

/// Merging is idempotent: when merging a well-formed value into another goes through, merging it
/// again into the result goes through and changes nothing.
pub proof fn lemma_merge_idempotent(from: TomlView, into: TomlView)
    requires
        well_formed(from),
        merged(from, into).1,
    ensures
        merged(from, merged(from, into).0) == (merged(from, into).0, true),
{
    lemma_merge_idempotent_values(from, into);
}

/// The most `[`, `{` and `.` that a TOML text may hold for the library to read it. Each level of
/// nesting takes one of them, so this bounds how deep the reader recurses.
pub const TOML_NESTING_LIMIT: usize = 512;

/// The value the library reads from the TOML `text`: none where it holds more nesting marks than
/// `TOML_NESTING_LIMIT` or is not TOML.
pub open spec fn toml_read(text: Seq<char>) -> Option<TomlView> {
    if nesting_marks(encode_utf8(text)) > TOML_NESTING_LIMIT {
        None
    } else {
        toml_document(text)
    }
}

/// Reads the TOML `text`, refusing one that nests deeper than the limit allows. Each table of
/// what it reads holds a key once, so merging it twice changes nothing more than merging it once
/// (`lemma_merge_idempotent`).
pub fn read_toml(text: &str) -> (r: Option<TomlValue>)
    ensures
        match r {
            Some(v) => toml_read(text@) == Some(v@),
            None => toml_read(text@) is None,
        },
        r matches Some(v) ==> well_formed(v@),
{
    if count_nesting_marks(text.as_bytes()) > TOML_NESTING_LIMIT {
        None
    } else {
        parse_toml(text)
    }
}

/// The value of a TOML document, where `text` is TOML.
pub uninterp spec fn toml_document(text: Seq<char>) -> Option<TomlView>;

/// The TOML text of a value, where the value can be written as TOML.
pub uninterp spec fn toml_printed(v: TomlView) -> Option<Seq<char>>;

#[verifier::external_type_specification]
#[verifier::external_body]
pub struct ExTomlValue(toml::Value);

/// A `toml::Value` as a TOML value of the library, variant for variant; a float and a date-time
/// by their text.
#[verifier::external_body]
fn from_toml_value(v: Value) -> TomlValue {
    match v {
        Value::String(s) => TomlValue::String(s),
        Value::Integer(i) => TomlValue::Integer(i),
        Value::Float(f) => TomlValue::Float(f.to_string()),
        Value::Boolean(b) => TomlValue::Boolean(b),
        Value::Datetime(d) => TomlValue::Datetime(d.to_string()),
        Value::Array(a) => TomlValue::Array(a.into_iter().map(from_toml_value).collect()),
        Value::Table(t) => TomlValue::Table(t.into_iter().map(|(k, v)| (k, from_toml_value(v))).collect()),
    }
}

/// A TOML value of the library as a `toml::Value`, variant for variant; `None` where a float or
/// a date-time text does not read back as one.
#[verifier::external_body]
fn to_toml_value(v: &TomlValue) -> Option<Value> {
    Some(match v {
        TomlValue::String(s) => Value::String(s.clone()),
        TomlValue::Integer(i) => Value::Integer(*i),
        TomlValue::Float(f) => Value::Float(f.parse().ok()?),
        TomlValue::Boolean(b) => Value::Boolean(*b),
        TomlValue::Datetime(d) => Value::Datetime(d.parse().ok()?),
        TomlValue::Array(a) => Value::Array(a.iter().map(to_toml_value).collect::<Option<_>>()?),
        TomlValue::Table(t) => Value::Table(t.iter().map(|(k, v)| Some((k.clone(), to_toml_value(v)?))).collect::<Option<_>>()?),
    })
}

/// Parses `text` with `str::parse::<toml::Value>`. The contract claims that the result is a
/// function of `text` alone, and that each of its tables holds a key once (a `toml::Value` table
/// is a map); which texts are TOML is not stated. The reader recurses once per
/// level of nesting, with no bound of its own, so the text is held to `TOML_NESTING_LIMIT`
/// nesting marks.
#[verifier::external_body]
fn parse_toml(text: &str) -> (r: Option<TomlValue>)
    requires
        nesting_marks(encode_utf8(text@)) <= TOML_NESTING_LIMIT,
    ensures
        match r {
            Some(v) => toml_document(text@) == Some(v@),
            None => toml_document(text@) is None,
        },
        r matches Some(v) ==> well_formed(v@),
{
    match text.parse::<toml::Value>() {
        Ok(v) => Some(from_toml_value(v)),
        Err(_) => None,
    }
}

/// The TOML text of `v`, written by `toml::to_string`. The contract claims that the result is a
/// function of `v` alone; which values can be written is not stated.
#[verifier::external_body]
pub(crate) fn toml_text(v: &TomlValue) -> (r: Option<String>)
    ensures
        match r {
            Some(t) => toml_printed(v@) == Some(t@),
            None => toml_printed(v@) is None,
        },
{
    match to_toml_value(v) {
        Some(t) => toml::to_string(&t).ok(),
        None => None,
    }
}

} // verus!
