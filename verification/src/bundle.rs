//! Where a plugin bundle keeps its binary.
use vstd::prelude::*;
use crate::text::string_from_chars;

verus! {

/// The folder of a bundle's `Contents` that holds the binary for this platform.
pub const OS_LABEL: &'static str = "MacOS";

/// The text of the last component of a path, as `std::path::Path::components`
/// yields it; `None` for a path without any.
pub uninterp spec fn last_path_component(path: Seq<char>) -> Option<Seq<char>>;

/// The text after the last '/' of `path`; `None` where it has no '/'.
pub open spec fn after_last_slash(path: Seq<char>) -> Option<Seq<char>>
    decreases path.len(),
{
    if path.len() == 0 {
        None
    } else if path.last() == '/' {
        Some(Seq::empty())
    } else {
        match after_last_slash(path.drop_last()) {
            Some(rest) => Some(rest.push(path.last())),
            None => None,
        }
    }
}

/// The last component of a path whose last '/' is followed by a name: where
/// the path holds no '\\' and a '/', and the text after its last '/' is neither
/// empty nor ".", that text is the path's last component. `None` for other
/// paths (those with a trailing separator or "." or none at all, and those
/// that Windows might read with a prefix).
pub open spec fn final_name(path: Seq<char>) -> Option<Seq<char>> {
    if path.contains('\\') {
        None
    } else {
        match after_last_slash(path) {
            Some(c) => if c.len() > 0 && c != seq!['.'] {
                Some(c)
            } else {
                None
            },
            None => None,
        }
    }
}

/// The last component of `path`.
///
/// Calls `std::path::Path::components` and takes its last item; the result
/// is a function of the path's text and is named. One fact is stated: the
/// documentation of `components` says that only repeated separators, a
/// trailing separator and "." components are normalised away, so where the
/// last '/' is followed by a name (`final_name`), that name is the last
/// component.
#[verifier::external_body]
fn path_last_component(path: &str) -> (r: Option<Vec<char>>)
    ensures
        r is Some <==> last_path_component(path@) is Some,
        r matches Some(c) ==> c@ == last_path_component(path@).unwrap(),
        final_name(path@) is Some ==> r is Some,
        r matches Some(c) ==> (final_name(path@) is Some ==> c@ == final_name(path@).unwrap()),
{
    match std::path::Path::new(path).components().last() {
        Some(c) => Some(c.as_os_str().to_string_lossy().chars().collect()),
        None => None,
    }
}

/// What comes before the first '.' of `name` (as `str::split_once('.')`
/// splits it); `None` where `name` has no '.'.
pub open spec fn text_before_dot(name: Seq<char>) -> Option<Seq<char>>
    decreases name.len(),
{
    if name.len() == 0 {
        None
    } else if name[0] == '.' {
        Some(Seq::empty())
    } else {
        match text_before_dot(name.drop_first()) {
            Some(rest) => Some(seq![name[0]] + rest),
            None => None,
        }
    }
}

/// `base` with the relative path `part` appended, as `PathBuf::push` does
/// on Unix: a '/' goes between them unless `base` is empty or ends with one.
pub open spec fn path_join(base: Seq<char>, part: Seq<char>) -> Seq<char> {
    if base.len() == 0 || base.last() == '/' {
        base + part
    } else {
        base + seq!['/'] + part
    }
}

/// The last component of the bundle's path: the name after its last '/'
/// where that settles it, else what `Path::components` yields.
pub open spec fn bundle_component(path: Seq<char>) -> Option<Seq<char>> {
    match final_name(path) {
        Some(c) => Some(c),
        None => last_path_component(path),
    }
}

/// The path of the binary inside the bundle at `path`: the bundle's last
/// component up to its first '.' names the binary, which lies under
/// `Contents/MacOS`.
pub open spec fn bundle_binary_path_of(path: Seq<char>) -> Option<Seq<char>> {
    match bundle_component(path) {
        Some(component) => match text_before_dot(component) {
            Some(name) => Some(
                path_join(path_join(path_join(path, "Contents"@), OS_LABEL@), name),
            ),
            None => None,
        },
        None => None,
    }
}

/// The binary's path lies inside the bundle: it begins with the bundle's path
/// and ends with the binary's name.
pub proof fn lemma_binary_path_extends_bundle_path(path: Seq<char>)
    requires
        bundle_binary_path_of(path) is Some,
    ensures
        path.is_prefix_of(bundle_binary_path_of(path).unwrap()),
        text_before_dot(bundle_component(path).unwrap()).unwrap().is_suffix_of(
            bundle_binary_path_of(path).unwrap(),
        ),
{
    let name = text_before_dot(bundle_component(path).unwrap()).unwrap();
    let c = path_join(path, "Contents"@);
    let m = path_join(c, OS_LABEL@);
    let full = path_join(m, name);
    assert(path.is_prefix_of(c));
    assert(c.is_prefix_of(m));
    assert(m.is_prefix_of(full));
    assert(name =~= full.subrange(full.len() - name.len(), full.len() as int));
}

/// The text after the last '/' of `dir` + "/" + `comp`, where `comp` holds no
/// '/', is `comp`.
proof fn lemma_after_last_slash_of_join(dir: Seq<char>, comp: Seq<char>)
    requires
        !comp.contains('/'),
    ensures
        after_last_slash(dir + seq!['/'] + comp) == Some(comp),
    decreases comp.len(),
{
    let p = dir + seq!['/'] + comp;
    if comp.len() == 0 {
        assert(p.last() == '/');
        assert(comp =~= Seq::<char>::empty());
    } else {
        let shorter = comp.drop_last();
        assert(!shorter.contains('/')) by {
            if shorter.contains('/') {
                let k = choose|k: int| 0 <= k < shorter.len() && shorter[k] == '/';
                assert(comp[k] == '/');
            }
        }
        assert(comp[comp.len() - 1] != '/');
        lemma_after_last_slash_of_join(dir, shorter);
        assert(p.drop_last() =~= dir + seq!['/'] + shorter);
        assert(shorter.push(p.last()) =~= comp);
    }
}

/// The binary of a bundle at `dir/comp`, where `comp` is a name (no '/' or
/// '\\', not empty, not ".") and the path holds no '\\', is named by `comp`
/// alone: with `comp` cut at its first '.' into `name`, the binary lies at
/// `dir/comp/Contents/MacOS/name`; without a '.' there is none. Nothing of
/// `dir` (dots in a folder's name included) plays a part.
pub proof fn lemma_binary_named_by_last_component(dir: Seq<char>, comp: Seq<char>)
    requires
        !dir.contains('\\'),
        !comp.contains('\\'),
        !comp.contains('/'),
        comp.len() > 0,
        comp != seq!['.'],
    ensures
        bundle_binary_path_of(dir + seq!['/'] + comp) is Some <==> comp.contains('.'),
        text_before_dot(comp) matches Some(name) ==> bundle_binary_path_of(dir + seq!['/'] + comp)
            == Some(dir + seq!['/'] + comp + "/Contents/MacOS/"@ + name),
{
    let p = dir + seq!['/'] + comp;
    lemma_after_last_slash_of_join(dir, comp);
    assert(!p.contains('\\')) by {
        if p.contains('\\') {
            let k = choose|k: int| 0 <= k < p.len() && p[k] == '\\';
            if k < dir.len() {
                assert(dir[k] == '\\');
            } else if k > dir.len() {
                assert(comp[k - dir.len() - 1] == '\\');
            }
        }
    }
    assert(final_name(p) == Some(comp));
    lemma_text_before_dot_iff_dot(comp);
    reveal_strlit("Contents");
    reveal_strlit("MacOS");
    reveal_strlit("/Contents/MacOS/");
    if let Some(name) = text_before_dot(comp) {
        let c = path_join(p, "Contents"@);
        assert(p.last() == comp.last());
        assert(c =~= p + seq!['/'] + "Contents"@);
        let m = path_join(c, OS_LABEL@);
        assert(m =~= c + seq!['/'] + "MacOS"@);
        assert(path_join(m, name) =~= p + "/Contents/MacOS/"@ + name);
    }
}

/// `name` has a '.' exactly when there is a text before its first '.'.
proof fn lemma_text_before_dot_iff_dot(name: Seq<char>)
    ensures
        text_before_dot(name) is Some <==> name.contains('.'),
    decreases name.len(),
{
    if name.len() > 0 && name[0] != '.' {
        lemma_text_before_dot_iff_dot(name.drop_first());
        if name.drop_first().contains('.') {
            let k = choose|k: int| 0 <= k < name.drop_first().len() && name.drop_first()[k] == '.';
            assert(name[k + 1] == '.');
        }
        if name.contains('.') {
            let k = choose|k: int| 0 <= k < name.len() && name[k] == '.';
            assert(name.drop_first()[k - 1] == '.');
        }
    } else if name.len() > 0 {
        assert(name[0] == '.');
    }
}

/// The characters before the first '.' of `name`, if it has one.
fn before_first_dot(name: &Vec<char>) -> (r: Option<Vec<char>>)
    ensures
        r is Some <==> text_before_dot(name@) is Some,
        r matches Some(s) ==> s@ == text_before_dot(name@).unwrap(),
{
    let mut i: usize = 0;
    while i < name.len() && name[i] != '.'
        invariant
            i <= name@.len(),
            forall|j: int| 0 <= j < i ==> name@[j] != '.',
        decreases name@.len() - i,
    {
        i = i + 1;
    }
    proof {
        lemma_text_before_dot(name@, i as int);
    }
    if i == name.len() {
        return None;
    }
    let mut prefix: Vec<char> = Vec::new();
    let mut k: usize = 0;
    while k < i
        invariant
            i < name@.len(),
            k <= i,
            prefix@ == name@.subrange(0, k as int),
        decreases i - k,
    {
        prefix.push(name[k]);
        k = k + 1;
        assert(prefix@ =~= name@.subrange(0, k as int));
    }
    Some(prefix)
}

/// With no '.' before `n`, and `n` the end or a '.', the text before the first
/// dot is none or the first `n` characters.
proof fn lemma_text_before_dot(name: Seq<char>, n: int)
    requires
        0 <= n <= name.len(),
        forall|j: int| 0 <= j < n ==> name[j] != '.',
        n < name.len() ==> name[n] == '.',
    ensures
        n == name.len() ==> text_before_dot(name) is None,
        n < name.len() ==> text_before_dot(name) == Some(name.subrange(0, n)),
    decreases name.len(),
{
    if name.len() == 0 {
    } else if n == 0 {
        assert(name.subrange(0, 0) =~= Seq::<char>::empty());
    } else {
        let rest = name.drop_first();
        assert forall|j: int| 0 <= j < n - 1 implies rest[j] != '.' by {
            assert(rest[j] == name[j + 1]);
        }
        lemma_text_before_dot(rest, n - 1);
        if n < name.len() {
            assert(seq![name[0]] + rest.subrange(0, n - 1) =~= name.subrange(0, n));
        }
    }
}

/// Appends the characters of `s` to `out`.
fn push_chars(out: &mut Vec<char>, s: &str)
    ensures
        final(out)@ == old(out)@ + s@,
{
    let ghost start = out@;
    for c in it: s.chars()
        invariant
            it.seq() == s@,
            out@ == start + s@.subrange(0, it.index() as int),
    {
        out.push(c);
        assert(out@ =~= start + s@.subrange(0, it.index() + 1));
    }
    assert(s@.subrange(0, s@.len() as int) =~= s@);
}

/// Appends the relative path `part` to the path held in `out`, with a '/'
/// between them unless `out` is empty or ends with one.
fn push_path_part(out: &mut Vec<char>, part: &Vec<char>)
    ensures
        final(out)@ == path_join(old(out)@, part@),
{
    let n = out.len();
    if n > 0 && out[n - 1] != '/' {
        out.push('/');
    }
    let ghost start = out@;
    let mut i: usize = 0;
    while i < part.len()
        invariant
            i <= part@.len(),
            out@ == start + part@.subrange(0, i as int),
        decreases part@.len() - i,
    {
        out.push(part[i]);
        i = i + 1;
        assert(out@ =~= start + part@.subrange(0, i as int));
    }
    assert(part@.subrange(0, part@.len() as int) =~= part@);
    assert(out@ =~= path_join(old(out)@, part@));
}

/// The characters of `s`.
fn chars_of(s: &str) -> (r: Vec<char>)
    ensures
        r@ == s@,
{
    let mut r: Vec<char> = Vec::new();
    push_chars(&mut r, s);
    assert(r@ =~= s@);
    r
}

/// Where no '/' lies at or after `i` and `i` is the start or follows a '/',
/// the text after the last '/' is what follows `i` (none where `i` is 0).
proof fn lemma_after_last_slash_at(p: Seq<char>, i: int)
    requires
        0 <= i <= p.len(),
        forall|j: int| i <= j < p.len() ==> p[j] != '/',
        i > 0 ==> p[i - 1] == '/',
    ensures
        i == 0 ==> after_last_slash(p) is None,
        i > 0 ==> after_last_slash(p) == Some(p.subrange(i, p.len() as int)),
    decreases p.len(),
{
    if p.len() == 0 {
    } else if p.last() == '/' {
        assert(p.subrange(i, p.len() as int) =~= Seq::<char>::empty());
    } else {
        let q = p.drop_last();
        lemma_after_last_slash_at(q, i);
        if i > 0 {
            assert(q.subrange(i, q.len() as int).push(p.last()) =~= p.subrange(i, p.len() as int));
        }
    }
}

/// The name after the last '/' of `path`, where it settles the last
/// component (see `final_name`).
fn final_path_name(path: &str) -> (r: Option<Vec<char>>)
    ensures
        r is Some <==> final_name(path@) is Some,
        r matches Some(c) ==> c@ == final_name(path@).unwrap(),
{
    let chars = chars_of(path);
    let n = chars.len();
    let mut k: usize = 0;
    while k < n
        invariant
            n == chars@.len(),
            chars@ == path@,
            k <= n,
            forall|j: int| 0 <= j < k ==> chars@[j] != '\\',
        decreases n - k,
    {
        if chars[k] == '\\' {
            assert(chars@.contains('\\'));
            return None;
        }
        k = k + 1;
    }
    assert(!chars@.contains('\\'));
    let mut i: usize = n;
    while i > 0 && chars[i - 1] != '/'
        invariant
            n == chars@.len(),
            i <= n,
            forall|j: int| i <= j < n ==> chars@[j] != '/',
        decreases i,
    {
        i = i - 1;
    }
    proof {
        lemma_after_last_slash_at(chars@, i as int);
    }
    if i == 0 {
        return None;
    }
    let mut comp: Vec<char> = Vec::new();
    let mut m: usize = i;
    while m < n
        invariant
            n == chars@.len(),
            i <= m <= n,
            comp@ == chars@.subrange(i as int, m as int),
        decreases n - m,
    {
        comp.push(chars[m]);
        m = m + 1;
        assert(comp@ =~= chars@.subrange(i as int, m as int));
    }
    if comp.len() == 0 {
        return None;
    }
    if comp.len() == 1 && comp[0] == '.' {
        assert(comp@ =~= seq!['.']);
        return None;
    }
    assert(comp@ != seq!['.']) by {
        if comp@ == seq!['.'] {
            assert(comp@[0] == '.');
        }
    }
    Some(comp)
}

/// The path of the binary in the bundle at `path` whose last path component is
/// `component`: the component cut at its first '.' names the binary, which
/// lies in `Contents/MacOS` under the bundle. `None` where the component has
/// no '.'.
pub fn binary_path_for_component(path: &str, component: &Vec<char>) -> (r: Option<String>)
    ensures
        r is Some <==> text_before_dot(component@) is Some,
        r matches Some(p) ==> p@ == path_join(
            path_join(path_join(path@, "Contents"@), OS_LABEL@),
            text_before_dot(component@).unwrap(),
        ),
{
    let name = match before_first_dot(component) {
        Some(n) => n,
        None => {
            return None;
        },
    };
    let mut out = chars_of(path);
    let contents = chars_of("Contents");
    push_path_part(&mut out, &contents);
    let label = chars_of(OS_LABEL);
    push_path_part(&mut out, &label);
    push_path_part(&mut out, &name);
    Some(string_from_chars(&out))
}

/// The path of the binary in the plugin bundle at `path`: the bundle's last
/// path component, cut at its first '.', names the binary, which lies in
/// `Contents/MacOS` under the bundle. `None` where the path has no component
/// or that component has no '.'.
pub fn bundle_binary_path(path: &str) -> (r: Option<String>)
    ensures
        r is Some <==> bundle_binary_path_of(path@) is Some,
        r matches Some(p) ==> p@ == bundle_binary_path_of(path@).unwrap(),
{
    let component = match final_path_name(path) {
        Some(c) => c,
        None => match path_last_component(path) {
            Some(c) => c,
            None => {
                return None;
            },
        },
    };
    binary_path_for_component(path, &component)
}

} // verus!
