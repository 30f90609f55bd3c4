//! File-presence predicates over a directory listing.
//!
//! A directory is modelled by the names of its immediate children, as a
//! `Vec<String>`; nothing below the top level is visible, so every predicate
//! here is non-recursive by construction. A caller that cannot read a
//! directory hands in an empty listing, on which every predicate fails
//! closed to false.

use vstd::prelude::*;

verus! {

/// Position `d` holds the last `.` of `name`.
pub open spec fn is_last_dot(name: Seq<char>, d: int) -> bool {
    &&& 0 <= d < name.len()
    &&& name[d] == '.'
    &&& forall|j: int| d < j < name.len() ==> name[j] != '.'
}

/// `name` has the extension `ext`: everything after the last `.`, provided
/// that dot is not the leading character (a leading-dot name, such as a
/// hidden file, has no extension).
pub open spec fn name_has_ext(name: Seq<char>, ext: Seq<char>) -> bool {
    exists|d: int|
        is_last_dot(name, d) && 1 <= d && ext == name.subrange(d + 1, name.len() as int)
}

/// Some entry of the listing is exactly `name`.
pub open spec fn contains_name(es: Seq<Seq<char>>, name: Seq<char>) -> bool {
    exists|i: int| 0 <= i < es.len() && es[i] == name
}

/// Some entry of the listing has the extension `ext`.
pub open spec fn contains_ext(es: Seq<Seq<char>>, ext: Seq<char>) -> bool {
    exists|i: int| 0 <= i < es.len() && name_has_ext(es[i], ext)
}

proof fn lemma_last_dot_unique(name: Seq<char>, d1: int, d2: int)
    requires
        is_last_dot(name, d1),
        is_last_dot(name, d2),
    ensures
        d1 == d2,
{
    if d1 < d2 {
        assert(name[d2] != '.');
    }
    if d2 < d1 {
        assert(name[d1] != '.');
    }
}

/// Whether `name`'s extension is exactly `ext`.
fn name_matches_ext(name: &str, ext: &str) -> (b: bool)
    ensures
        b == name_has_ext(name@, ext@),
{
    let n: usize = name.unicode_len();
    let mut i: usize = n;
    let mut dot_at: usize = 0;
    let mut has_dot: bool = false;
    loop
        invariant_except_break
            !has_dot,
        invariant
            i <= n,
            n == name@.len(),
            forall|j: int| i <= j < n ==> name@[j] != '.',
        ensures
            has_dot ==> is_last_dot(name@, dot_at as int),
            !has_dot ==> forall|j: int| 0 <= j < n ==> name@[j] != '.',
        decreases i,
    {
        if i == 0 {
            break ;
        }
        if name.get_char(i - 1) == '.' {
            has_dot = true;
            dot_at = i - 1;
            break ;
        }
        i = i - 1;
    }
    if has_dot && dot_at >= 1 {
        let tail = name.substring_char(dot_at + 1, n);
        let b = String::from_str(tail) == String::from_str(ext);
        proof {
            if b {
                assert(is_last_dot(name@, dot_at as int) && 1 <= dot_at as int && ext@
                    == name@.subrange(dot_at as int + 1, name@.len() as int));
            } else if name_has_ext(name@, ext@) {
                let d = choose|d: int|
                    is_last_dot(name@, d) && 1 <= d && ext@ == name@.subrange(
                        d + 1,
                        name@.len() as int,
                    );
                lemma_last_dot_unique(name@, d, dot_at as int);
            }
        }
        b
    } else {
        proof {
            if name_has_ext(name@, ext@) {
                let d = choose|d: int|
                    is_last_dot(name@, d) && 1 <= d && ext@ == name@.subrange(
                        d + 1,
                        name@.len() as int,
                    );
                if has_dot {
                    lemma_last_dot_unique(name@, d, dot_at as int);
                }
            }
        }
        false
    }
}

/// An exact-name check is unaffected by unrelated files: adding an entry
/// under any other name leaves it as it was.
pub proof fn lemma_contains_name_unrelated(es: Seq<Seq<char>>, extra: Seq<char>, name: Seq<char>)
    requires
        extra != name,
    ensures
        contains_name(es.push(extra), name) == contains_name(es, name),
{
    if contains_name(es, name) {
        let i = choose|i: int| 0 <= i < es.len() && es[i] == name;
        assert(es.push(extra)[i] == name);
    }
    if contains_name(es.push(extra), name) {
        let i = choose|i: int| 0 <= i < es.push(extra).len() && es.push(extra)[i] == name;
        if i < es.len() {
            assert(es[i] == name);
        } else {
            assert(es.push(extra)[i] == extra);
        }
    }
}

/// An extension check is unaffected by unrelated files: adding an entry
/// whose extension is not `ext` leaves it as it was.
pub proof fn lemma_contains_ext_unrelated(es: Seq<Seq<char>>, extra: Seq<char>, ext: Seq<char>)
    requires
        !name_has_ext(extra, ext),
    ensures
        contains_ext(es.push(extra), ext) == contains_ext(es, ext),
{
    if contains_ext(es, ext) {
        let i = choose|i: int| 0 <= i < es.len() && name_has_ext(es[i], ext);
        assert(name_has_ext(es.push(extra)[i], ext));
    }
    if contains_ext(es.push(extra), ext) {
        let i = choose|i: int|
            0 <= i < es.push(extra).len() && name_has_ext(es.push(extra)[i], ext);
        if i < es.len() {
            assert(name_has_ext(es[i], ext));
        } else {
            assert(es.push(extra)[i] == extra);
        }
    }
}

/// A pattern without any wildcard: matched as an exact file name.
pub open spec fn exact_pattern(p: Seq<char>) -> bool {
    forall|i: int| 0 <= i < p.len() ==> p[i] != '*'
}

/// A pattern of the shape `*.<ext>`: matched against entry extensions.
pub open spec fn ext_pattern(p: Seq<char>) -> bool {
    &&& p.len() >= 2
    &&& p[0] == '*'
    &&& p[1] == '.'
    &&& forall|i: int| 2 <= i < p.len() ==> p[i] != '*'
}

/// The `<ext>` part of a `*.<ext>` pattern.
pub open spec fn pattern_ext(p: Seq<char>) -> Seq<char> {
    p.subrange(2, p.len() as int)
}

/// What a well-formed pattern asks of a directory listing: an exact pattern
/// names one required child, an extension pattern asks for at least one child
/// with that extension.
pub open spec fn matches_pattern(es: Seq<Seq<char>>, p: Seq<char>) -> bool {
    if exact_pattern(p) {
        contains_name(es, p)
    } else {
        contains_ext(es, pattern_ext(p))
    }
}

/// Some entry of `entries` is exactly `name`.
fn has_entry_named(entries: &Vec<String>, name: &str) -> (b: bool)
    ensures
        b == contains_name(entries.deep_view(), name@),
{
    let wanted = String::from_str(name);
    let n: usize = entries.len();
    let mut i: usize = 0;
    while i < n
        invariant
            i <= n,
            n == entries@.len(),
            wanted@ == name@,
            forall|j: int| 0 <= j < i ==> entries.deep_view()[j] != name@,
        decreases n - i,
    {
        if entries[i] == wanted {
            assert(entries.deep_view()[i as int] == name@);
            return true;
        }
        i = i + 1;
    }
    false
}

/// Some entry of `entries` has the extension `ext`.
fn has_entry_with_ext(entries: &Vec<String>, ext: &str) -> (b: bool)
    ensures
        b == contains_ext(entries.deep_view(), ext@),
{
    let n: usize = entries.len();
    let mut i: usize = 0;
    while i < n
        invariant
            i <= n,
            n == entries@.len(),
            forall|j: int| 0 <= j < i ==> !name_has_ext(entries.deep_view()[j], ext@),
        decreases n - i,
    {
        if name_matches_ext(entries[i].as_str(), ext) {
            assert(name_has_ext(entries.deep_view()[i as int], ext@));
            return true;
        }
        i = i + 1;
    }
    false
}

/// Whether the directory listing `entries` satisfies `pattern`.
///
/// Only the two documented pattern shapes are allowed: an exact file name
/// (no `*` anywhere) or `*.<ext>`; anything else is a programming error and
/// is ruled out by the precondition.
pub fn has_file(entries: &Vec<String>, pattern: &str) -> (b: bool)
    requires
        exact_pattern(pattern@) || ext_pattern(pattern@),
    ensures
        b == matches_pattern(entries.deep_view(), pattern@),
{
    let n: usize = pattern.unicode_len();
    if n == 0 || pattern.get_char(0) != '*' {
        assert(exact_pattern(pattern@));
        has_entry_named(entries, pattern)
    } else {
        assert(ext_pattern(pattern@));
        assert(!exact_pattern(pattern@));
        let ext = pattern.substring_char(2, n);
        has_entry_with_ext(entries, ext)
    }
}

} // verus!
