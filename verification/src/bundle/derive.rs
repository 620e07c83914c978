use vstd::prelude::*;

use crate::text::{chars_of, string_from_chars};

verus! {

/// A character allowed in a canonical tool identity: anything but `.`,
/// which separates the tool from the rest of a version.
pub open spec fn is_tool_char(c: char) -> bool {
    c != '.'
}

/// A well-formed canonical tool identity: non-empty and without `.`.
pub open spec fn is_tool_identity(s: Seq<char>) -> bool {
    s.len() > 0 && forall|i: int| 0 <= i < s.len() ==> is_tool_char(#[trigger] s[i])
}

/// A non-empty run of ASCII digits.
pub open spec fn is_numeral(s: Seq<char>) -> bool {
    s.len() > 0 && forall|i: int| 0 <= i < s.len() ==> '0' <= #[trigger] s[i] && s[i] <= '9'
}

/// `version` splits at index `k` into a tool identity, `.v` and a number:
/// `<tool>.v<N>`.
pub open spec fn splits_as_tool_version(version: Seq<char>, k: int) -> bool {
    &&& 0 <= k
    &&& k + 2 <= version.len()
    &&& is_tool_identity(version.take(k))
    &&& version[k] == '.'
    &&& version[k + 1] == 'v'
    &&& is_numeral(version.skip(k + 2))
}

/// The tool identity a `version` string of the form `<tool>.v<N>` names.
pub open spec fn version_tool(version: Seq<char>) -> Option<Seq<char>> {
    if exists|k: int| splits_as_tool_version(version, k) {
        Some(version.take(choose|k: int| splits_as_tool_version(version, k)))
    } else {
        None
    }
}

/// The canonical tool identity of a report: its explicit `tool` when present
/// (which must be a well-formed identity), otherwise the identity its
/// `version` names.
pub open spec fn canonical_tool_of(explicit_tool: Option<Seq<char>>, version: Seq<char>) -> Option<
    Seq<char>,
> {
    match explicit_tool {
        Some(t) => if is_tool_identity(t) {
            Some(t)
        } else {
            None
        },
        None => version_tool(version),
    }
}

fn tool_char(c: char) -> (r: bool)
    ensures
        r == is_tool_char(c),
{
    c != '.'
}

/// Whether `v[from..to]` is a well-formed tool identity.
fn tool_identity_range(v: &Vec<char>, from: usize, to: usize) -> (r: bool)
    requires
        from <= to <= v.len(),
    ensures
        r == is_tool_identity(v@.subrange(from as int, to as int)),
{
    if from == to {
        return false;
    }
    let mut i = from;
    while i < to
        invariant
            from <= i <= to,
            to <= v.len(),
            forall|j: int| from <= j < i ==> is_tool_char(#[trigger] v@[j]),
        decreases to - i,
    {
        if !tool_char(v[i]) {
            assert(v@.subrange(from as int, to as int)[i - from] == v@[i as int]);
            return false;
        }
        i = i + 1;
    }
    assert forall|j: int| 0 <= j < to - from implies is_tool_char(
        #[trigger] v@.subrange(from as int, to as int)[j],
    ) by {
        assert(v@.subrange(from as int, to as int)[j] == v@[from + j]);
    }
    true
}

/// Whether `v[from..]` is a non-empty run of digits.
fn numeral_from(v: &Vec<char>, from: usize) -> (r: bool)
    requires
        from <= v.len(),
    ensures
        r == is_numeral(v@.skip(from as int)),
{
    if from == v.len() {
        return false;
    }
    let mut i = from;
    while i < v.len()
        invariant
            from <= i <= v.len(),
            forall|j: int| from <= j < i ==> '0' <= #[trigger] v@[j] && v@[j] <= '9',
        decreases v.len() - i,
    {
        let c = v[i];
        if !('0' <= c && c <= '9') {
            assert(v@.skip(from as int)[i - from] == v@[i as int]);
            return false;
        }
        i = i + 1;
    }
    assert forall|j: int| 0 <= j < v@.len() - from implies '0' <= #[trigger] v@.skip(
        from as int,
    )[j] && v@.skip(from as int)[j] <= '9' by {
        assert(v@.skip(from as int)[j] == v@[from + j]);
    }
    true
}

/// A split point is unique: it is the first `.` of the version.
proof fn lemma_split_is_first_dot(version: Seq<char>, k: int, d: int)
    requires
        splits_as_tool_version(version, k),
        0 <= d < version.len(),
        version[d] == '.',
        forall|j: int| 0 <= j < d ==> version[j] != '.',
    ensures
        k == d,
{
    if k < d {
        assert(version[k] == '.');
    } else if k > d {
        assert(version.take(k)[d] == version[d]);
        assert(is_tool_char(version.take(k)[d]));
    }
}

/// What a canonical tool identity is: a derived identity is never empty
/// and holds no `.`; an explicit tool is taken exactly as given when it is
/// non-empty and holds no `.`, and refused otherwise, whatever the version
/// says; without one, a derived identity is the part of the version before
/// `.v<N>`, `N` a run of ASCII digits.
pub proof fn law_canonical_tool_identity(explicit_tool: Option<Seq<char>>, version: Seq<char>)
    ensures
        canonical_tool_of(explicit_tool, version) matches Some(t) ==> t.len() > 0 && forall|i: int|
            0 <= i < t.len() ==> #[trigger] t[i] != '.',
        explicit_tool matches Some(e) ==> canonical_tool_of(explicit_tool, version) == (if e.len()
            > 0 && forall|i: int| 0 <= i < e.len() ==> #[trigger] e[i] != '.' {
            Some(e)
        } else {
            None::<Seq<char>>
        }),
        explicit_tool is None ==> (canonical_tool_of(explicit_tool, version) matches Some(t) ==> {
            &&& version.len() > t.len() + 2
            &&& version.take(t.len() as int) == t
            &&& version[t.len() as int] == '.'
            &&& version[t.len() + 1int] == 'v'
            &&& forall|i: int|
                t.len() + 2 <= i < version.len() ==> '0' <= #[trigger] version[i] && version[i] <= '9'
        }),
{
    if explicit_tool is None && canonical_tool_of(explicit_tool, version) is Some {
        let k = choose|k: int| splits_as_tool_version(version, k);
        let t = version.take(k);
        let n = version.skip(k + 2);
        assert(canonical_tool_of(explicit_tool, version) == Some(t));
        assert(is_numeral(n));
        assert forall|i: int| t.len() + 2 <= i < version.len() implies '0' <= #[trigger] version[i]
            && version[i] <= '9' by {
            assert(version[i] == n[i - k - 2]);
        }
    }
}

/// A version of the form `<tool>.v<N>` names exactly that tool, when the
/// tool is non-empty and holds no `.` and `N` is a run of ASCII digits.
pub proof fn law_version_names_its_tool(tool: Seq<char>, n: Seq<char>)
    requires
        tool.len() > 0,
        forall|i: int| 0 <= i < tool.len() ==> #[trigger] tool[i] != '.',
        n.len() > 0,
        forall|i: int| 0 <= i < n.len() ==> '0' <= #[trigger] n[i] && n[i] <= '9',
    ensures
        canonical_tool_of(None, tool + seq!['.', 'v'] + n) == Some(tool),
{
    let version = tool + seq!['.', 'v'] + n;
    let d = tool.len() as int;
    assert(version.take(d) =~= tool);
    assert(version.skip(d + 2) =~= n);
    assert(version[d] == '.');
    assert(version[d + 1] == 'v');
    assert(splits_as_tool_version(version, d));
    let k = choose|k: int| splits_as_tool_version(version, k);
    assert forall|j: int| 0 <= j < d implies version[j] != '.' by {
        assert(version[j] == tool[j]);
    }
    lemma_split_is_first_dot(version, k, d);
}

/// The identity that a `<tool>.v<N>` version names, if it has that form.
fn tool_from_version(version: &str) -> (r: Option<String>)
    ensures
        match r {
            Some(t) => version_tool(version@) == Some(t@),
            None => version_tool(version@) is None,
        },
{
    let v = chars_of(version);
    let mut d: usize = 0;
    while d < v.len() && v[d] != '.'
        invariant
            d <= v.len(),
            v@ == version@,
            forall|j: int| 0 <= j < d ==> v@[j] != '.',
        decreases v.len() - d,
    {
        d = d + 1;
    }
    if d == v.len() {
        proof {
            if exists|k: int| splits_as_tool_version(version@, k) {
                let k = choose|k: int| splits_as_tool_version(version@, k);
                assert(version@[k] == '.');
            }
        }
        return None;
    }
    let ok = d + 1 < v.len() && v[d + 1] == 'v' && tool_identity_range(&v, 0, d) && numeral_from(
        &v,
        d + 2,
    );
    assert(v@.subrange(0, d as int) =~= v@.take(d as int));
    if ok {
        assert(splits_as_tool_version(version@, d as int));
        proof {
            let k = choose|k: int| splits_as_tool_version(version@, k);
            lemma_split_is_first_dot(version@, k, d as int);
        }
        let mut t: Vec<char> = Vec::new();
        let mut i: usize = 0;
        while i < d
            invariant
                i <= d,
                d < v.len(),
                t@ == v@.take(i as int),
            decreases d - i,
        {
            t.push(v[i]);
            assert(v@.take(i as int).push(v@[i as int]) =~= v@.take(i + 1));
            i = i + 1;
        }
        Some(string_from_chars(&t))
    } else {
        proof {
            if exists|k: int| splits_as_tool_version(version@, k) {
                let k = choose|k: int| splits_as_tool_version(version@, k);
                lemma_split_is_first_dot(version@, k, d as int);
            }
        }
        None
    }
}

/// The canonical tool identity of an artifact report: the explicit top-level
/// `tool` when present and well-formed; otherwise, when there is no explicit
/// tool, the identity its `version` names (`verify.v0` names `verify`).
pub fn canonical_tool(explicit_tool: Option<&str>, version: &str) -> (r: Option<String>)
    ensures
        match r {
            Some(t) => canonical_tool_of(
                match explicit_tool {
                    Some(e) => Some(e@),
                    None => None,
                },
                version@,
            ) == Some(t@),
            None => canonical_tool_of(
                match explicit_tool {
                    Some(e) => Some(e@),
                    None => None,
                },
                version@,
            ) is None,
        },
{
    match explicit_tool {
        Some(tool) => {
            let v = chars_of(tool);
            if tool_identity_range(&v, 0, v.len()) {
                assert(v@.subrange(0, v@.len() as int) =~= v@);
                Some(string_from_chars(&v))
            } else {
                assert(v@.subrange(0, v@.len() as int) =~= v@);
                None
            }
        },
        None => tool_from_version(version),
    }
}

} // verus!
