//! A parsed Kubernetes version such as `v1.21` or `1.21.3`.

use crate::text::{
    decimal, find_char_from, find_from, lemma_decimal, lemma_find_from_bounds,
    lemma_parse_decimal, parse_int_error_text, parse_u8, parse_u8_spec, push_decimal_u8,
};
use vstd::prelude::*;

verus! {

/// Represents a parsed Kubernetes version. Examples of valid values when parsing:
/// - `v1.21`
/// - `1.21`
/// - `v1.21.1`
/// - `1.21.1`
#[derive(Clone, Copy, Debug, PartialEq, Eq, Structural)]
pub struct K8sVersion {
    major: u8,
    minor: u8,
    patch: Option<u8>,
}

/// The abstract value of a [`K8sVersion`].
#[derive(Clone, Copy, Debug, PartialEq, Eq, Structural)]
pub struct K8sVersionView {
    pub major: u8,
    pub minor: u8,
    pub patch: Option<u8>,
}

impl View for K8sVersion {
    type V = K8sVersionView;

    closed spec fn view(&self) -> K8sVersionView {
        K8sVersionView { major: self.major, minor: self.minor, patch: self.patch }
    }
}

/// A version is determined by its abstract value: two versions are equal exactly when their
/// views are, so versions made from the same numbers are the same version.
pub proof fn lemma_k8s_version_view_injective(a: K8sVersion, b: K8sVersion)
    ensures
        (a@ == b@) <==> (a == b),
{
}

/// The default version: `0.0`, without patch.
pub open spec fn default_version_view() -> K8sVersionView {
    K8sVersionView { major: 0, minor: 0, patch: None }
}

impl Default for K8sVersion {
    fn default() -> (r: Self)
        ensures
            r@ == default_version_view(),
    {
        Self { major: 0, minor: 0, patch: None }
    }
}

/// `s` without one leading `v`, if it has one.
pub open spec fn strip_v(s: Seq<char>) -> Seq<char> {
    if s.len() > 0 && s[0] == 'v' {
        s.drop_first()
    } else {
        s
    }
}

/// The first three pieces of `s` split at `.` (what `split('.')` yields first, second, third).
pub open spec fn dot_pieces(s: Seq<char>) -> (Seq<char>, Option<Seq<char>>, Option<Seq<char>>) {
    let d1 = find_from(s, '.', 0);
    let first = s.subrange(0, d1 as int);
    if d1 == s.len() {
        (first, None, None)
    } else {
        let d2 = find_from(s, '.', d1 + 1);
        let second = s.subrange((d1 + 1) as int, d2 as int);
        if d2 == s.len() {
            (first, Some(second), None)
        } else {
            let d3 = find_from(s, '.', d2 + 1);
            (first, Some(second), Some(s.subrange((d2 + 1) as int, d3 as int)))
        }
    }
}

/// The message for a text whose minor version is missing.
pub open spec fn minor_missing_message(text: Seq<char>) -> Seq<char> {
    "Unable to find the minor version number when parsing '"@ + text
        + "' as a k8s version"@
}

/// The message for a major version that does not parse.
pub open spec fn major_error_message(piece: Seq<char>) -> Seq<char> {
    "Error when parsing the major version number of a k8s version: "@ + parse_int_error_text(
        piece,
    )
}

/// The message for a minor version that does not parse.
pub open spec fn minor_error_message(piece: Seq<char>) -> Seq<char> {
    "Error when parsing the minor version number of a k8s version: "@ + parse_int_error_text(
        piece,
    )
}

/// What parsing `s` as a Kubernetes version gives: an optional leading `v` is skipped, the major
/// and minor numbers are the first two `.`-separated pieces and must be `u8` numbers, and the
/// patch is the third piece when it is one (it is dropped otherwise; further pieces are ignored).
pub open spec fn parse_k8s_version(s: Seq<char>) -> Result<K8sVersionView, Seq<char>> {
    let (major, minor, patch) = dot_pieces(strip_v(s));
    match parse_u8_spec(major) {
        None => Err(major_error_message(major)),
        Some(a) => match minor {
            None => Err(minor_missing_message(s)),
            Some(m) => match parse_u8_spec(m) {
                None => Err(minor_error_message(m)),
                Some(b) => Ok(
                    K8sVersionView {
                        major: a,
                        minor: b,
                        patch: match patch {
                            Some(p) => parse_u8_spec(p),
                            None => None,
                        },
                    },
                ),
            },
        },
    }
}

/// `v<major>.<minor>`
pub open spec fn major_minor_with_v_text(v: K8sVersionView) -> Seq<char> {
    seq!['v'] + major_minor_without_v_text(v)
}

/// `<major>.<minor>`
pub open spec fn major_minor_without_v_text(v: K8sVersionView) -> Seq<char> {
    decimal(v.major as nat) + seq!['.'] + decimal(v.minor as nat)
}

/// `<major>.<minor>.<patch>`, or `<major>.<minor>` without a patch.
pub open spec fn full_version_without_v_text(v: K8sVersionView) -> Seq<char> {
    match v.patch {
        Some(p) => major_minor_without_v_text(v) + seq!['.'] + decimal(p as nat),
        None => major_minor_without_v_text(v),
    }
}

/// `v<major>.<minor>.<patch>`, or `v<major>.<minor>` without a patch.
pub open spec fn full_version_with_v_text(v: K8sVersionView) -> Seq<char> {
    seq!['v'] + full_version_without_v_text(v)
}

impl K8sVersion {
    pub fn new(major: u8, minor: u8, patch: Option<u8>) -> (r: Self)
        ensures
            r@ == (K8sVersionView { major, minor, patch }),
    {
        Self { major, minor, patch }
    }

    /// Returns a string representation of the Kubernetes version with a v prefix, and only
    /// includes the major and minor versions (even if a patch value is present). Example: `v1.21`.
    pub fn major_minor_with_v(&self) -> (r: String)
        ensures
            r@ == major_minor_with_v_text(self@),
    {
        let mut s = String::new();
        s.append("v");
        proof {
            reveal_strlit("v");
        }
        self.push_major_minor(&mut s);
        assert(s@ =~= major_minor_with_v_text(self@));
        s
    }

    /// Returns a string representation of the Kubernetes version without a v prefix, and only
    /// includes the major and minor versions (even if a patch value is present). Example: `1.21`.
    pub fn major_minor_without_v(&self) -> (r: String)
        ensures
            r@ == major_minor_without_v_text(self@),
    {
        let mut s = String::new();
        self.push_major_minor(&mut s);
        assert(s@ =~= major_minor_without_v_text(self@));
        s
    }

    /// Returns a string representation of the Kubernetes version with a v prefix. Includes the
    /// patch value if it exists. Examples: `v1.21.1` when a patch value exists, or `v1.21` if the
    /// patch value is `None`.
    pub fn full_version_with_v(&self) -> (r: String)
        ensures
            r@ == full_version_with_v_text(self@),
    {
        let mut s = String::new();
        s.append("v");
        proof {
            reveal_strlit("v");
        }
        self.push_full(&mut s);
        assert(s@ =~= full_version_with_v_text(self@));
        s
    }

    /// Returns a string representation of the Kubernetes version without a v prefix. Includes the
    /// patch value if it exists. Examples: `1.21.1` when a patch value exists, or `1.21` if the
    /// patch value is `None`.
    pub fn full_version_without_v(&self) -> (r: String)
        ensures
            r@ == full_version_without_v_text(self@),
    {
        let mut s = String::new();
        self.push_full(&mut s);
        assert(s@ =~= full_version_without_v_text(self@));
        s
    }

    /// The text form of this version (what its `Display` form is): the full version with a `v`.
    pub fn to_string(&self) -> (r: String)
        ensures
            r@ == full_version_with_v_text(self@),
    {
        self.full_version_with_v()
    }

    fn push_major_minor(&self, s: &mut String)
        ensures
            final(s)@ == old(s)@ + major_minor_without_v_text(self@),
    {
        push_decimal_u8(s, self.major);
        s.append(".");
        proof {
            reveal_strlit(".");
        }
        push_decimal_u8(s, self.minor);
        assert(s@ =~= old(s)@ + major_minor_without_v_text(self@));
    }

    fn push_full(&self, s: &mut String)
        ensures
            final(s)@ == old(s)@ + full_version_without_v_text(self@),
    {
        self.push_major_minor(s);
        if let Some(patch) = self.patch {
            s.append(".");
            proof {
                reveal_strlit(".");
            }
            push_decimal_u8(s, patch);
        }
        assert(s@ =~= old(s)@ + full_version_without_v_text(self@));
    }

    /// Parses a Kubernetes version such as `v1.21`, `1.21`, `v1.21.1` or `1.21.1`.
    pub fn parse(s: &str) -> (r: Result<Self, String>)
        ensures
            r matches Ok(v) ==> parse_k8s_version(s@) == Ok::<K8sVersionView, Seq<char>>(v@),
            r matches Err(e) ==> parse_k8s_version(s@) == Err::<K8sVersionView, Seq<char>>(e@),
    {
        let n = s.unicode_len();
        let start: usize = if n > 0 && s.get_char(0) == 'v' {
            1
        } else {
            0
        };
        let no_v = s.substring_char(start, n);
        assert(no_v@ =~= strip_v(s@));
        let m = no_v.unicode_len();
        proof {
            lemma_find_from_bounds(no_v@, '.', 0);
        }
        let d1 = find_char_from(no_v, '.', 0);
        let major_text = no_v.substring_char(0, d1);
        let major = match parse_u8(major_text) {
            Ok(v) => v,
            Err(e) => {
                let mut msg = String::new();
                msg.append("Error when parsing the major version number of a k8s version: ");
                msg.append(e.as_str());
                return Err(msg);
            },
        };
        if d1 == m {
            let mut msg = String::new();
            msg.append("Unable to find the minor version number when parsing '");
            msg.append(s);
            msg.append("' as a k8s version");
            return Err(msg);
        }
        proof {
            lemma_find_from_bounds(no_v@, '.', (d1 + 1) as nat);
        }
        let d2 = find_char_from(no_v, '.', d1 + 1);
        let minor = match parse_u8(no_v.substring_char(d1 + 1, d2)) {
            Ok(v) => v,
            Err(e) => {
                let mut msg = String::new();
                msg.append("Error when parsing the minor version number of a k8s version: ");
                msg.append(e.as_str());
                return Err(msg);
            },
        };
        let patch = if d2 == m {
            None
        } else {
            proof {
                lemma_find_from_bounds(no_v@, '.', (d2 + 1) as nat);
            }
            let d3 = find_char_from(no_v, '.', d2 + 1);
            match parse_u8(no_v.substring_char(d2 + 1, d3)) {
                Ok(p) => Some(p),
                Err(_) => None,
            }
        };
        Ok(Self { major, minor, patch })
    }
}

impl std::str::FromStr for K8sVersion {
    type Err = String;

    fn from_str(s: &str) -> (r: Result<Self, Self::Err>)
        ensures
            r matches Ok(v) ==> parse_k8s_version(s@) == Ok::<K8sVersionView, Seq<char>>(v@),
            r matches Err(e) ==> parse_k8s_version(s@) == Err::<K8sVersionView, Seq<char>>(e@),
    {
        K8sVersion::parse(s)
    }
}

/// Every version prints, with or without its `v`, as text that parses back to that version; its
/// `major.minor` form parses back to the version without its patch.
pub proof fn lemma_k8s_version_text_round_trip(v: K8sVersionView)
    ensures
        parse_k8s_version(full_version_with_v_text(v)) == Ok::<K8sVersionView, Seq<char>>(v),
        parse_k8s_version(full_version_without_v_text(v)) == Ok::<K8sVersionView, Seq<char>>(v),
        parse_k8s_version(major_minor_with_v_text(v)) == Ok::<K8sVersionView, Seq<char>>(
            K8sVersionView { patch: None, ..v },
        ),
        parse_k8s_version(major_minor_without_v_text(v)) == Ok::<K8sVersionView, Seq<char>>(
            K8sVersionView { patch: None, ..v },
        ),
{
    lemma_full_round_trip(v);
    let w = K8sVersionView { patch: None, ..v };
    lemma_full_round_trip(w);
    assert(major_minor_with_v_text(v) == full_version_with_v_text(w));
    assert(major_minor_without_v_text(v) == full_version_without_v_text(w));
}

proof fn lemma_full_round_trip(v: K8sVersionView)
    ensures
        parse_k8s_version(full_version_with_v_text(v)) == Ok::<K8sVersionView, Seq<char>>(v),
        parse_k8s_version(full_version_without_v_text(v)) == Ok::<K8sVersionView, Seq<char>>(v),
{
    lemma_without_v_round_trip(v);
    let t = full_version_without_v_text(v);
    lemma_decimal(v.major as nat);
    assert(strip_v(full_version_with_v_text(v)) =~= t);
    assert(strip_v(t) == t);
}

proof fn lemma_without_v_round_trip(v: K8sVersionView)
    ensures
        dot_pieces(full_version_without_v_text(v)) == (
            decimal(v.major as nat),
            Some(decimal(v.minor as nat)),
            match v.patch {
                Some(p) => Some(decimal(p as nat)),
                None => None,
            },
        ),
        parse_k8s_version(full_version_without_v_text(v)) == Ok::<K8sVersionView, Seq<char>>(v),
{
    let a = decimal(v.major as nat);
    let b = decimal(v.minor as nat);
    lemma_decimal(v.major as nat);
    lemma_decimal(v.minor as nat);
    lemma_parse_decimal(v.major);
    lemma_parse_decimal(v.minor);
    let t = full_version_without_v_text(v);
    let la = a.len();
    let lb = b.len();
    assert(t[la as int] == '.');
    lemma_find_dot_at(t, 0, la);
    lemma_find_dot_at(t, la + 1, la + 1 + lb);
    assert(t.subrange(0, la as int) =~= a);
    assert(t.subrange((la + 1) as int, (la + 1 + lb) as int) =~= b);
    match v.patch {
        Some(p) => {
            let c = decimal(p as nat);
            lemma_decimal(p as nat);
            lemma_parse_decimal(p);
            assert(t[(la + 1 + lb) as int] == '.');
            lemma_find_dot_at(t, la + 1 + lb + 1, t.len());
            assert(t.subrange((la + 1 + lb + 1) as int, t.len() as int) =~= c);
        },
        None => {
            assert(t.len() == la + 1 + lb);
        },
    }
    assert(strip_v(t) == t);
}

/// When no `.` sits in `s[from..to]` and `to` is the end or a `.`, the search from `from`
/// stops at `to`.
proof fn lemma_find_dot_at(s: Seq<char>, from: nat, to: nat)
    requires
        from <= to <= s.len(),
        forall|j: int| from <= j < to ==> s[j] != '.',
        to < s.len() ==> s[to as int] == '.',
    ensures
        find_from(s, '.', from) == to,
    decreases to - from,
{
    if from < to {
        lemma_find_dot_at(s, from + 1, to);
    }
}

} // verus!
