//! Safety of archive entry names. Archive content originates from a network
//! response, so an entry's stored name is untrusted: a name that is absolute
//! or contains a parent-directory component could make extraction write
//! outside the destination directory.
//!
//! A name is safe when it is non-empty, relative, and has no `..` component.
//! `lemma_safe_name_stays_inside` shows that this check suffices: resolving a
//! safe name's components under any destination path keeps the destination's
//! components as a prefix of the result.
use vstd::prelude::*;

verus! {

/// Whether `c` separates path components in a stored entry name.
pub open spec fn is_sep(c: char) -> bool {
    c == '/' || c == '\\'
}

/// Whether a parent-directory component `..` starts at position `i` of `s`:
/// the two dots, preceded by a separator or the start of the name, and
/// followed by a separator or its end.
pub open spec fn has_dotdot_at(s: Seq<char>, i: int) -> bool {
    &&& 0 <= i
    &&& i + 2 <= s.len()
    &&& s[i] == '.'
    &&& s[i + 1] == '.'
    &&& (i == 0 || is_sep(s[i - 1]))
    &&& (i + 2 == s.len() || is_sep(s[i + 2]))
}

/// Whether `s` holds a parent-directory component anywhere.
pub open spec fn has_dotdot_component(s: Seq<char>) -> bool {
    exists|i: int| has_dotdot_at(s, i)
}

/// Whether a stored entry name may be written under the destination: it is
/// non-empty, relative, and free of parent-directory components.
pub open spec fn is_safe_entry_name(s: Seq<char>) -> bool {
    &&& s.len() > 0
    &&& !is_sep(s[0])
    &&& !has_dotdot_component(s)
}

/// Whether a stored entry name denotes a directory (the archive format marks
/// directories with a trailing separator).
pub open spec fn is_dir_name(s: Seq<char>) -> bool {
    s.len() > 0 && is_sep(s[s.len() - 1])
}

/// Whether `c` is a path separator.
pub fn sep_char(c: char) -> (b: bool)
    ensures
        b == is_sep(c),
{
    c == '/' || c == '\\'
}

/// Decides `is_safe_entry_name` for a stored entry name.
pub fn check_entry_name(name: &str) -> (b: bool)
    ensures
        b == is_safe_entry_name(name@),
{
    let n: usize = name.unicode_len();
    if n == 0 {
        return false;
    }
    if sep_char(name.get_char(0)) {
        return false;
    }
    let mut i: usize = 0;
    while i < n && n - i >= 2
        invariant
            n == name@.len(),
            0 <= i,
            i <= n,
            forall|k: int| 0 <= k < i ==> !has_dotdot_at(name@, k),
        decreases n - i,
    {
        if name.get_char(i) == '.' && name.get_char(i + 1) == '.' {
            let pre_ok: bool = if i == 0 {
                true
            } else {
                sep_char(name.get_char(i - 1))
            };
            let post_ok: bool = if i + 2 == n {
                true
            } else {
                sep_char(name.get_char(i + 2))
            };
            if pre_ok && post_ok {
                assert(has_dotdot_at(name@, i as int));
                return false;
            }
        }
        assert(!has_dotdot_at(name@, i as int));
        i += 1;
    }
    assert(forall|k: int| k + 2 > n ==> !has_dotdot_at(name@, k));
    assert(!has_dotdot_component(name@));
    true
}

/// Decides `is_dir_name` for a stored entry name.
pub fn check_dir_name(name: &str) -> (b: bool)
    ensures
        b == is_dir_name(name@),
{
    let n: usize = name.unicode_len();
    if n == 0 {
        return false;
    }
    sep_char(name.get_char(n - 1))
}

/// The components of a stored entry name, split at separators, collecting the
/// current component in `cur`; `components_of` starts it at the front.
pub open spec fn split_from(s: Seq<char>, i: int, cur: Seq<char>) -> Seq<Seq<char>>
    decreases s.len() - i,
{
    if i < 0 || i >= s.len() {
        seq![cur]
    } else if is_sep(s[i]) {
        seq![cur] + split_from(s, i + 1, Seq::empty())
    } else {
        split_from(s, i + 1, cur.push(s[i]))
    }
}

/// The components of a stored entry name, split at separators.
pub open spec fn components_of(s: Seq<char>) -> Seq<Seq<char>> {
    split_from(s, 0, Seq::empty())
}

/// Resolves `comps` on top of the already-resolved path `base`: a `..`
/// component removes the last resolved component, a `.` or empty component is
/// skipped, and any other component is appended.
pub open spec fn normalize_onto(base: Seq<Seq<char>>, comps: Seq<Seq<char>>) -> Seq<Seq<char>>
    decreases comps.len(),
{
    if comps.len() == 0 {
        base
    } else {
        let c = comps[0];
        let rest = comps.subrange(1, comps.len() as int);
        if c == ".."@ {
            normalize_onto(if base.len() > 0 { base.drop_last() } else { base }, rest)
        } else if c == "."@ || c.len() == 0 {
            normalize_onto(base, rest)
        } else {
            normalize_onto(base.push(c), rest)
        }
    }
}

/// Resolving components free of `..` on top of `base` keeps every component
/// of `base` in place.
pub proof fn lemma_no_dotdot_normalize_keeps_prefix(base: Seq<Seq<char>>, comps: Seq<Seq<char>>)
    requires
        forall|k: int| 0 <= k < comps.len() ==> comps[k] != ".."@,
    ensures
        normalize_onto(base, comps).len() >= base.len(),
        forall|k: int| 0 <= k < base.len() ==> normalize_onto(base, comps)[k] == base[k],
    decreases comps.len(),
{
    if comps.len() > 0 {
        let c = comps[0];
        let rest = comps.subrange(1, comps.len() as int);
        assert(forall|k: int| 0 <= k < rest.len() ==> rest[k] != ".."@);
        if c == "."@ || c.len() == 0 {
            lemma_no_dotdot_normalize_keeps_prefix(base, rest);
            assert(normalize_onto(base, comps) == normalize_onto(base, rest));
        } else {
            lemma_no_dotdot_normalize_keeps_prefix(base.push(c), rest);
            assert(normalize_onto(base, comps) == normalize_onto(base.push(c), rest));
            assert forall|k: int| 0 <= k < base.len() implies normalize_onto(base, comps)[k]
                == base[k] by {
                assert(normalize_onto(base.push(c), rest)[k] == base.push(c)[k]);
                assert(base.push(c)[k] == base[k]);
            }
        }
    }
}

/// A safe entry name has no `..` among its components.
pub proof fn lemma_safe_name_components(s: Seq<char>)
    requires
        is_safe_entry_name(s),
    ensures
        forall|k: int| 0 <= k < components_of(s).len() ==> components_of(s)[k] != ".."@,
{
    assert(Seq::<char>::empty() =~= s.subrange(0, 0));
    lemma_split_no_dotdot(s, 0, Seq::empty());
}

/// While splitting a name free of `..` components, the collected component
/// never comes out as `..`: its boundaries in `s` would otherwise witness
/// `has_dotdot_at`.
proof fn lemma_split_no_dotdot(s: Seq<char>, i: int, cur: Seq<char>)
    requires
        0 <= i <= s.len(),
        cur.len() <= i,
        cur =~= s.subrange(i - cur.len(), i),
        i - cur.len() == 0 || is_sep(s[i - cur.len() - 1]),
        !has_dotdot_component(s),
    ensures
        forall|k: int| 0 <= k < split_from(s, i, cur).len() ==> split_from(s, i, cur)[k] != ".."@,
    decreases s.len() - i,
{
    reveal_strlit("..");
    let start = i - cur.len();
    if i >= s.len() {
        if cur == ".."@ {
            assert(cur.len() == 2);
            assert(s.subrange(start, i)[0] == s[start]);
            assert(s.subrange(start, i)[1] == s[start + 1]);
            assert(has_dotdot_at(s, start));
            assert(has_dotdot_component(s));
        }
        assert(cur != ".."@);
        assert(split_from(s, i, cur) == seq![cur]);
        assert(seq![cur][0] == cur);
    } else if is_sep(s[i]) {
        if cur == ".."@ {
            assert(cur.len() == 2);
            assert(s.subrange(start, i)[0] == s[start]);
            assert(s.subrange(start, i)[1] == s[start + 1]);
            assert(has_dotdot_at(s, start));
            assert(has_dotdot_component(s));
        }
        assert(cur != ".."@);
        assert(Seq::<char>::empty() =~= s.subrange(i + 1, i + 1));
        lemma_split_no_dotdot(s, i + 1, Seq::empty());
        let tail = split_from(s, i + 1, Seq::<char>::empty());
        assert(split_from(s, i, cur) == seq![cur] + tail);
        assert forall|k: int|
            0 <= k < split_from(s, i, cur).len() implies split_from(s, i, cur)[k] != ".."@ by {
            if k == 0 {
                assert((seq![cur] + tail)[0] == cur);
            } else {
                assert((seq![cur] + tail)[k] == tail[k - 1]);
            }
        }
    } else {
        assert(cur.push(s[i]) =~= s.subrange(start, i + 1));
        lemma_split_no_dotdot(s, i + 1, cur.push(s[i]));
        assert(split_from(s, i, cur) == split_from(s, i + 1, cur.push(s[i])));
    }
}

/// The headline safety law: a safe entry name, resolved under any destination
/// path, yields a path that still has every component of the destination as a
/// prefix — extraction of a safe name cannot escape the destination.
pub proof fn lemma_safe_name_stays_inside(dest: Seq<Seq<char>>, name: Seq<char>)
    requires
        is_safe_entry_name(name),
    ensures
        normalize_onto(dest, components_of(name)).len() >= dest.len(),
        forall|k: int|
            0 <= k < dest.len() ==> normalize_onto(dest, components_of(name))[k] == dest[k],
{
    lemma_safe_name_components(name);
    lemma_no_dotdot_normalize_keeps_prefix(dest, components_of(name));
}

} // verus!
