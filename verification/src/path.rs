//! Paths as text.
//!
//! What a path is made of depends on the machine. The contracts speak of texts that
//! every machine reads alike: parts between slashes, without drive letters and without
//! backslashes.
use crate::text;
use vstd::prelude::*;

verus! {

/// Every machine reads the text alike: it has no backslash and no colon, and does not
/// begin with two slashes.
pub open spec fn is_portable(s: Seq<char>) -> bool {
    &&& forall|i: int| 0 <= i < s.len() ==> #[trigger] s[i] != '\\' && s[i] != ':'
    &&& !(s.len() >= 2 && s[0] == '/' && s[1] == '/')
}

/// The place after the last slash; zero if there is none.
pub open spec fn after_last_slash(s: Seq<char>) -> int
    decreases s.len(),
{
    if s.len() == 0 {
        0
    } else if s.last() == '/' {
        s.len() as int
    } else {
        after_last_slash(s.drop_last())
    }
}

/// The place of the last dot; -1 if there is none.
pub open spec fn last_dot(s: Seq<char>) -> int
    decreases s.len(),
{
    if s.len() == 0 {
        -1
    } else if s.last() == '.' {
        s.len() - 1
    } else {
        last_dot(s.drop_last())
    }
}

/// The last part of a path, if it names something: trailing slashes and parts that are
/// a single dot are passed over, and two dots name nothing.
pub open spec fn final_name(s: Seq<char>) -> Option<Seq<char>>
    decreases s.len(),
{
    let start = after_last_slash(s);
    let part = s.skip(start);
    if s.len() == 0 {
        None
    } else if s.last() == '/' {
        final_name(s.drop_last())
    } else if start < 0 || start >= s.len() {
        None
    } else if part == seq!['.'] {
        final_name(s.take(start))
    } else if part == seq!['.', '.'] {
        None
    } else {
        Some(part)
    }
}

/// What follows the last dot of a name; nothing if there is no dot but a leading one.
pub open spec fn name_extension(name: Seq<char>) -> Option<Seq<char>> {
    if last_dot(name) > 0 {
        Some(name.skip(last_dot(name) + 1))
    } else {
        None
    }
}

/// A name without its extension.
pub open spec fn name_stem(name: Seq<char>) -> Seq<char> {
    if last_dot(name) > 0 {
        name.take(last_dot(name))
    } else {
        name
    }
}

/// The view of an optional text.
pub open spec fn text_of(s: Option<String>) -> Option<Seq<char>> {
    match s {
        Some(s) => Some(s@),
        None => None,
    }
}

/// `std::path::Path::file_name`: the last part of a path, if it names something. Nothing
/// is said of texts that machines read differently.
#[verifier::external_body]
pub(crate) fn file_name(path: &str) -> (r: Option<String>)
    ensures
        is_portable(path@) ==> text_of(r) == final_name(path@),
{
    std::path::Path::new(path).file_name().and_then(|n| n.to_str()).map(String::from)
}

/// `std::path::Path::extension`: what follows the last dot of a path's last part, unless
/// that dot is its first character. Nothing is said of texts that machines read
/// differently.
#[verifier::external_body]
pub(crate) fn extension(path: &str) -> (r: Option<String>)
    ensures
        is_portable(path@) ==> text_of(r) == match final_name(path@) {
            Some(name) => name_extension(name),
            None => None,
        },
{
    std::path::Path::new(path).extension().and_then(|n| n.to_str()).map(String::from)
}

/// `std::path::Path::file_stem`: a path's last part without its extension. Nothing is
/// said of texts that machines read differently.
#[verifier::external_body]
pub(crate) fn file_stem(path: &str) -> (r: Option<String>)
    ensures
        is_portable(path@) ==> text_of(r) == match final_name(path@) {
            Some(name) => Some(name_stem(name)),
            None => None,
        },
{
    std::path::Path::new(path).file_stem().and_then(|n| n.to_str()).map(String::from)
}

/// The parts of a path, in order. A slash that it begins with is the first of them; further
/// slashes only separate, and a part that is a single dot is passed over unless the path
/// begins with it.
pub open spec fn components(s: Seq<char>) -> Seq<Seq<char>>
    decreases s.len(),
{
    let start = after_last_slash(s);
    let part = s.skip(start);
    if s.len() == 0 {
        Seq::empty()
    } else if s == seq!['/'] {
        seq![s]
    } else if s.last() == '/' {
        components(s.drop_last())
    } else if start < 0 || start >= s.len() {
        Seq::empty()
    } else if part == seq!['.'] && start > 0 {
        components(s.take(start))
    } else {
        components(s.take(start)).push(part)
    }
}

/// A path with these parts lies in no directory: there is none, or it is the root.
pub open spec fn is_topmost(parts: Seq<Seq<char>>) -> bool {
    parts.len() == 0 || parts.last() == seq!['/']
}

/// The path is written without detours: it names something, no two slashes meet, none
/// stands at its end, and no part after a slash is a single dot.
pub open spec fn is_direct(s: Seq<char>) -> bool {
    &&& is_portable(s)
    &&& s.len() > 0
    &&& s.last() != '/'
    &&& s != seq!['.']
    &&& !text::occurs(s, seq!['/', '/'])
    &&& !text::occurs(s, seq!['/', '.', '/'])
    &&& !(s.len() >= 2 && s.last() == '.' && s[s.len() - 2] == '/')
}

/// The directory that a direct path lies in: what comes before its last part, without the
/// slash between them unless that is the root.
pub open spec fn directory_of(s: Seq<char>) -> Seq<char> {
    let start = after_last_slash(s);
    if start <= 1 {
        s.take(start)
    } else {
        s.take(start - 1)
    }
}

proof fn lemma_after_last_slash(s: Seq<char>)
    ensures
        0 <= after_last_slash(s) <= s.len(),
        after_last_slash(s) > 0 ==> s[after_last_slash(s) - 1] == '/',
        s.len() > 0 && s.last() != '/' ==> after_last_slash(s) < s.len(),
    decreases s.len(),
{
    if s.len() > 0 && s.last() != '/' {
        lemma_after_last_slash(s.drop_last());
    }
}

/// The directory of a direct path has the path's parts without the last.
pub proof fn a_direct_path_lies_in_its_directory(s: Seq<char>)
    requires
        is_direct(s),
    ensures
        !is_topmost(components(s)),
        components(directory_of(s)) == components(s).drop_last(),
{
    let start = after_last_slash(s);
    let part = s.skip(start);
    let front = s.take(start);
    lemma_after_last_slash(s);
    assert(part.last() == s.last());
    assert(part != seq!['/']);
    if part == seq!['.'] {
        assert(s =~= front + part);
        assert(start == 0 ==> s =~= seq!['.']);
        assert(s.last() == '.');
    }
    assert(components(s) == components(front).push(part));
    assert(components(s).drop_last() =~= components(front));
    if start > 1 {
        assert(front.last() == '/');
        assert(front.len() > 1);
        assert(front.drop_last() =~= s.take(start - 1));
    }
}

/// `std::path::Path::parent`: the path without its last part, or nothing where it has none or
/// ends in the root. Of a direct path it says how the result is written. Nothing is said of
/// texts that machines read differently.
#[verifier::external_body]
pub(crate) fn parent(path: &str) -> (r: Option<String>)
    ensures
        is_portable(path@) ==> match r {
            Some(dir) => !is_topmost(components(path@)) && components(dir@) == components(
                path@,
            ).drop_last(),
            None => is_topmost(components(path@)),
        },
        is_direct(path@) ==> text_of(r) == Some(directory_of(path@)),
{
    std::path::Path::new(path).parent().and_then(|p| p.to_str()).map(String::from)
}

/// The text is `base` and then `path`: a rooted `path` stands alone, and otherwise the
/// machine's separator is put between the two unless `base` ends in a slash.
pub open spec fn is_joined(base: Seq<char>, path: Seq<char>, r: Seq<char>) -> bool {
    if path.len() > 0 && path[0] == '/' {
        r == path
    } else if base.len() > 0 && base.last() == '/' {
        r == base + path
    } else {
        r == base + seq!['/'] + path || r == base + seq!['\\'] + path
    }
}

/// `std::path::Path::join`: `path` as seen from `base`. Nothing is said of an empty
/// `base` or `path`, nor of texts that machines read differently.
#[verifier::external_body]
pub(crate) fn join(base: &str, path: &str) -> (r: String)
    ensures
        is_portable(base@) && is_portable(path@) && base@.len() > 0 && path@.len() > 0
            ==> is_joined(base@, path@, r@),
{
    std::path::Path::new(base).join(path).to_string_lossy().into_owned()
}

/// `r` is `path` as seen from `base`: `path` itself where `base` is empty. Else nothing is
/// said of an empty `path`, nor of texts that machines read differently.
pub open spec fn seen_from(base: Seq<char>, path: Seq<char>, r: Seq<char>) -> bool {
    if base.len() == 0 {
        r == path
    } else {
        is_portable(base) && is_portable(path) && path.len() > 0 ==> is_joined(base, path, r)
    }
}

/// `path` as seen from `base`.
pub fn seen(base: &str, path: &str) -> (r: String)
    ensures
        seen_from(base@, path@, r@),
{
    if base.is_empty() {
        path.to_owned()
    } else {
        join(base, path)
    }
}

/// From nowhere a path is seen as it is, and so is a rooted path from anywhere. Any other is seen
/// behind the directory, with a separator between the two.
pub proof fn a_path_is_seen_behind_its_directory(base: &str, path: &str, r: String)
    requires
        call_ensures(seen, (base, path), r),
    ensures
        base@.len() == 0 ==> r@ == path@,
        is_portable(base@) && is_portable(path@) && path@.len() > 0 ==> {
            &&& path@[0] == '/' ==> r@ == path@
            &&& path@[0] != '/' ==> base@.is_prefix_of(r@) && path@.is_suffix_of(r@)
            &&& path@[0] != '/' && base@.len() > 0 && base@.last() == '/' ==> r@.len()
                == base@.len() + path@.len()
            &&& path@[0] != '/' && base@.len() > 0 && base@.last() != '/' ==> r@.len()
                == base@.len() + 1 + path@.len() && (r@[base@.len() as int] == '/'
                || r@[base@.len() as int] == '\\')
        },
{
    assert(path@.is_suffix_of(path@)) by {
        assert(path@.skip(0) =~= path@);
    }
    if base@.len() > 0 && is_portable(base@) && is_portable(path@) && path@.len() > 0 && path@[0]
        != '/' {
        assert(base@.is_prefix_of(r@)) by {
            assert(r@.subrange(0, base@.len() as int) =~= base@);
        }
        assert(path@.is_suffix_of(r@)) by {
            assert(r@.subrange(r@.len() - path@.len(), r@.len() as int) =~= path@);
        }
    }
}

proof fn lemma_no_slash(s: Seq<char>, n: int)
    requires
        0 <= n <= s.len(),
        forall|i: int| n <= i < s.len() ==> s[i] != '/',
    ensures
        after_last_slash(s) == after_last_slash(s.take(n)),
    decreases s.len(),
{
    if n < s.len() {
        lemma_no_slash(s.drop_last(), n);
        assert(s.drop_last().take(n) =~= s.take(n));
    } else {
        assert(s.take(n) =~= s);
    }
}

/// A name without slashes at the end of a path is its last part.
pub proof fn lemma_last_name(s: Seq<char>, name: Seq<char>)
    requires
        !name.contains('/'),
        name.len() > 0,
    ensures
        ({
            let n = s.len() - name.len();
            n >= 0 && s.subrange(n, s.len() as int) == name && (n > 0 ==> s[n - 1] == '/')
                ==> after_last_slash(s) == n
        }),
{
    let n = s.len() - name.len();
    if n >= 0 && s.subrange(n, s.len() as int) == name && (n > 0 ==> s[n - 1] == '/') {
        assert forall|i: int| n <= i < s.len() implies s[i] != '/' by {
            assert(name[i - n] == s[i]);
        }
        lemma_no_slash(s, n);
        if n > 0 {
            assert(s.take(n).last() == '/');
        }
    }
}

}
