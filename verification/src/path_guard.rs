use vstd::prelude::*;

verus! {

/// What `str::to_lowercase` makes of a string (Unicode lowercase mapping).
pub uninterp spec fn lowercase(s: Seq<char>) -> Seq<char>;

/// Calls `str::to_lowercase`; the result is the Unicode lowercase form of
/// the argument, which is named here and not spelled out.
#[verifier::external_body]
fn to_lowercase(s: &str) -> (r: String)
    ensures
        r@ == lowercase(s@),
{
    s.to_lowercase()
}

/// `s` with every forward slash turned into a backslash.
pub open spec fn unify_separators(s: Seq<char>) -> Seq<char> {
    s.map_values(|c: char| if c == '/' { '\\' } else { c })
}

/// Calls `str::replace` with the pattern `'/'` and the replacement `"\\"`:
/// every forward slash becomes a backslash, every other character stays.
#[verifier::external_body]
fn replace_slashes(s: &str) -> (r: String)
    ensures
        r@ == unify_separators(s@),
{
    s.replace('/', "\\")
}

/// The form in which two paths are compared: backslash separators, lower case.
pub open spec fn spec_normalized(path: Seq<char>) -> Seq<char> {
    lowercase(unify_separators(path))
}

/// `prefix` is the beginning of `s`.
pub open spec fn starts_with(s: Seq<char>, prefix: Seq<char>) -> bool {
    prefix.len() <= s.len() && s.subrange(0, prefix.len() as int) == prefix
}

/// `suffix` is the end of `s`.
pub open spec fn ends_with(s: Seq<char>, suffix: Seq<char>) -> bool {
    suffix.len() <= s.len() && s.subrange(s.len() - suffix.len(), s.len() as int) == suffix
}

/// `needle` occurs somewhere in `s`.
pub open spec fn contains_infix(s: Seq<char>, needle: Seq<char>) -> bool {
    exists|i: int| 0 <= i && i + needle.len() <= s.len() && #[trigger] s.subrange(i, i + needle.len()) == needle
}

/// `s` without its trailing backslashes.
pub open spec fn trim_trailing_separators(s: Seq<char>) -> Seq<char>
    decreases s.len(),
{
    if s.len() > 0 && s.last() == '\\' {
        trim_trailing_separators(s.drop_last())
    } else {
        s
    }
}

/// `child` is `parent` itself or lies below it: after normalisation it is
/// equal to `parent`, or it begins with `parent` (trailing separators
/// removed) followed by one separator. A sibling whose name merely begins
/// with the parent's name is not inside it.
pub open spec fn spec_contains_path(parent: Seq<char>, child: Seq<char>) -> bool {
    let p = spec_normalized(parent);
    let c = spec_normalized(child);
    c == p || starts_with(c, trim_trailing_separators(p).push('\\'))
}

/// Name of the folder that holds recycled items on every Windows volume.
pub open spec fn recycle_folder() -> Seq<char> {
    seq!['\\', '$', 'r', 'e', 'c', 'y', 'c', 'l', 'e', '.', 'b', 'i', 'n']
}

/// A normalised path that is the recycle bin folder or lies inside one.
pub open spec fn spec_in_recycle_bin(path: Seq<char>) -> bool {
    let n = spec_normalized(path);
    contains_infix(n, recycle_folder().push('\\')) || ends_with(n, recycle_folder())
}

/// The characters of `s`, one by one.
pub fn char_vec(s: &str) -> (v: Vec<char>)
    ensures
        v@ == s@,
{
    let n = s.unicode_len();
    let mut v: Vec<char> = Vec::new();
    let mut i: usize = 0;
    while i < n
        invariant
            n == s@.len(),
            i <= n,
            v@ == s@.subrange(0, i as int),
        decreases n - i,
    {
        v.push(s.get_char(i));
        i = i + 1;
    }
    v
}

/// Path text in comparable form: separators unified to backslashes, then
/// lower-cased.
pub fn normalized(path: &str) -> (n: String)
    ensures
        n@ == spec_normalized(path@),
{
    let unified = replace_slashes(path);
    to_lowercase(unified.as_str())
}

proof fn lemma_trim_shape(s: Seq<char>)
    ensures
        trim_trailing_separators(s).len() <= s.len(),
        trim_trailing_separators(s) == s.subrange(0, trim_trailing_separators(s).len() as int),
        trim_trailing_separators(s).len() == 0 || trim_trailing_separators(s).last() != '\\',
        forall|j: int| trim_trailing_separators(s).len() <= j < s.len() ==> s[j] == '\\',
    decreases s.len(),
{
    if s.len() > 0 && s.last() == '\\' {
        lemma_trim_shape(s.drop_last());
        let t = trim_trailing_separators(s.drop_last());
        assert(s.drop_last().subrange(0, t.len() as int) == s.subrange(0, t.len() as int));
        assert forall|j: int| t.len() <= j < s.len() implies s[j] == '\\' by {
            if j < s.len() - 1 {
                assert(s[j] == s.drop_last()[j]);
            }
        }
    } else {
        assert(s.subrange(0, s.len() as int) == s);
    }
}

/// Length of `s` once its trailing backslashes are removed.
fn trimmed_len(s: &Vec<char>) -> (k: usize)
    ensures
        k <= s.len(),
        trim_trailing_separators(s@) == s@.subrange(0, k as int),
{
    let mut k = s.len();
    assert(s@.subrange(0, k as int) == s@);
    while k > 0 && s[k - 1] == '\\'
        invariant
            k <= s.len(),
            trim_trailing_separators(s@.subrange(0, k as int)) == trim_trailing_separators(s@),
        decreases k,
    {
        assert(s@.subrange(0, k as int).drop_last() == s@.subrange(0, k - 1));
        k = k - 1;
    }
    k
}

/// Whether `a[0..len] == b[0..len]`.
fn same_prefix(a: &Vec<char>, b: &Vec<char>, len: usize) -> (same: bool)
    requires
        len <= a.len(),
        len <= b.len(),
    ensures
        same == (a@.subrange(0, len as int) == b@.subrange(0, len as int)),
{
    let mut i: usize = 0;
    while i < len
        invariant
            len <= a.len(),
            len <= b.len(),
            i <= len,
            forall|j: int| 0 <= j < i ==> a@[j] == b@[j],
        decreases len - i,
    {
        if a[i] != b[i] {
            assert(a@.subrange(0, len as int)[i as int] != b@.subrange(0, len as int)[i as int]);
            return false;
        }
        i = i + 1;
    }
    assert(a@.subrange(0, len as int) =~= b@.subrange(0, len as int));
    true
}

/// Whether the two character sequences are equal.
fn same_chars(a: &Vec<char>, b: &Vec<char>) -> (same: bool)
    ensures
        same == (a@ == b@),
{
    if a.len() != b.len() {
        return false;
    }
    let same = same_prefix(a, b, a.len());
    proof {
        assert(a@.subrange(0, a.len() as int) == a@);
        assert(b@.subrange(0, b.len() as int) == b@);
    }
    same
}

/// Whether `child` is `parent` or a path below it, compared without regard
/// to case or to the kind of separator. `C:\Apps\Cat Bin` contains
/// `C:\Apps\Cat Bin\cat.exe`; `C:\Apps\Cat` does not.
pub fn contains_path(parent: &str, child: &str) -> (inside: bool)
    ensures
        inside == spec_contains_path(parent@, child@),
{
    let p = char_vec(normalized(parent).as_str());
    let c = char_vec(normalized(child).as_str());
    if same_chars(&c, &p) {
        return true;
    }
    let k = trimmed_len(&p);
    let ghost prefix = trim_trailing_separators(p@).push('\\');
    if c.len() <= k {
        return false;
    }
    let head = same_prefix(&p, &c, k);
    let sep = c[k] == '\\';
    proof {
        if head && sep {
            assert(c@.subrange(0, k + 1) =~= prefix);
        }
        if starts_with(c@, prefix) {
            assert(c@.subrange(0, k as int) =~= c@.subrange(0, k + 1).subrange(0, k as int));
            assert(c@[k as int] == c@.subrange(0, k + 1)[k as int]);
            assert(p@.subrange(0, k as int) =~= prefix.subrange(0, k as int));
        }
    }
    head && sep
}

/// Whether `s[at..at + needle.len()] == needle`.
fn matches_at(s: &Vec<char>, at: usize, needle: &Vec<char>) -> (hit: bool)
    requires
        at + needle.len() <= s.len(),
    ensures
        hit == (s@.subrange(at as int, at + needle.len()) == needle@),
{
    let mut i: usize = 0;
    while i < needle.len()
        invariant
            at + needle.len() <= s.len(),
            i <= needle.len(),
            forall|j: int| 0 <= j < i ==> s@[at + j] == needle@[j],
        decreases needle.len() - i,
    {
        if s[at + i] != needle[i] {
            assert(s@.subrange(at as int, at + needle.len())[i as int] != needle@[i as int]);
            return false;
        }
        i = i + 1;
    }
    assert(s@.subrange(at as int, at + needle.len()) =~= needle@);
    true
}

/// Whether `needle` occurs in `s`.
fn has_infix(s: &Vec<char>, needle: &Vec<char>) -> (found: bool)
    ensures
        found == contains_infix(s@, needle@),
{
    if needle.len() > s.len() {
        return false;
    }
    let last = s.len() - needle.len();
    let mut i: usize = 0;
    loop
        invariant
            needle.len() <= s.len(),
            last == s.len() - needle.len(),
            i <= last,
            forall|j: int| 0 <= j < i ==> #[trigger] s@.subrange(j, j + needle.len()) != needle@,
        decreases last - i,
    {
        if matches_at(s, i, needle) {
            return true;
        }
        if i == last {
            return false;
        }
        i = i + 1;
    }
}

/// Whether `s` ends with `suffix`.
fn has_suffix(s: &Vec<char>, suffix: &Vec<char>) -> (found: bool)
    ensures
        found == ends_with(s@, suffix@),
{
    if suffix.len() > s.len() {
        return false;
    }
    matches_at(s, s.len() - suffix.len(), suffix)
}

/// Whether the (already canonical) path is a recycle bin folder or lies
/// inside one, on any volume.
pub fn in_recycle_bin(path: &str) -> (inside: bool)
    ensures
        inside == spec_in_recycle_bin(path@),
{
    let n = char_vec(normalized(path).as_str());
    let folder = vec!['\\', '$', 'r', 'e', 'c', 'y', 'c', 'l', 'e', '.', 'b', 'i', 'n'];
    let folder_inside = vec!['\\', '$', 'r', 'e', 'c', 'y', 'c', 'l', 'e', '.', 'b', 'i', 'n', '\\'];
    proof {
        assert(folder@ =~= recycle_folder());
        assert(folder_inside@ =~= recycle_folder().push('\\'));
    }
    has_infix(&n, &folder_inside) || has_suffix(&n, &folder)
}

/// Every path contains itself.
pub proof fn lemma_contains_path_reflexive(p: Seq<char>)
    ensures
        spec_contains_path(p, p),
{
}

/// What lies below a path that lies below `a` lies below `a` too.
pub proof fn lemma_contains_path_transitive(a: Seq<char>, b: Seq<char>, c: Seq<char>)
    requires
        spec_contains_path(a, b),
        spec_contains_path(b, c),
    ensures
        spec_contains_path(a, c),
{
    let na = spec_normalized(a);
    let nb = spec_normalized(b);
    let nc = spec_normalized(c);
    if nc == nb || nb == na {
        return;
    }
    let ta = trim_trailing_separators(na);
    let tb = trim_trailing_separators(nb);
    lemma_trim_shape(na);
    lemma_trim_shape(nb);
    let pa = ta.push('\\');
    let pb = tb.push('\\');
    assert(starts_with(nb, pa));
    assert(starts_with(nc, pb));
    // `tb` keeps at least the characters of `ta`: the last one of `ta` is no separator.
    if tb.len() < ta.len() {
        if ta.len() > 0 {
            assert(nb[ta.len() - 1] == nb.subrange(0, pa.len() as int)[ta.len() - 1]);
            assert(pa[ta.len() - 1] == ta.last());
        }
    }
    assert(tb.len() >= ta.len());
    if tb.len() == ta.len() {
        assert(tb =~= nb.subrange(0, ta.len() as int));
        assert(nb.subrange(0, ta.len() as int) =~= nb.subrange(0, pa.len() as int).subrange(0, ta.len() as int));
        assert(pa.subrange(0, ta.len() as int) =~= ta);
        assert(pb =~= pa);
    } else {
        assert forall|j: int| 0 <= j < pa.len() implies nc.subrange(0, pa.len() as int)[j] == pa[j] by {
            assert(nc.subrange(0, pa.len() as int)[j] == nc[j]);
            assert(nc[j] == nc.subrange(0, pb.len() as int)[j]);
            assert(pb[j] == tb[j]);
            assert(tb[j] == nb[j]);
            assert(nb[j] == nb.subrange(0, pa.len() as int)[j]);
        }
        assert(nc.subrange(0, pa.len() as int) =~= pa);
    }
}

/// A path is recognised as lying in a recycle bin whenever its normalised
/// text holds `\$recycle.bin\` at any position, whatever precedes it (a
/// drive letter, a `\\?\` prefix or a longer volume path).
pub proof fn lemma_recycle_folder_anywhere(path: Seq<char>, i: int)
    requires
        0 <= i,
        i + 14 <= spec_normalized(path).len(),
        spec_normalized(path).subrange(i, i + 14) == seq![
            '\\', '$', 'r', 'e', 'c', 'y', 'c', 'l', 'e', '.', 'b', 'i', 'n', '\\'
        ],
    ensures
        spec_in_recycle_bin(path),
{
    let n = spec_normalized(path);
    assert(recycle_folder().push('\\') =~= seq!['\\', '$', 'r', 'e', 'c', 'y', 'c', 'l', 'e', '.', 'b', 'i', 'n', '\\']);
    assert(n.subrange(i, i + recycle_folder().push('\\').len()) == recycle_folder().push('\\'));
}

/// A path whose normalised text ends with `\$recycle.bin` is a recycle bin
/// folder, whatever precedes it.
pub proof fn lemma_recycle_folder_at_end(path: Seq<char>)
    requires
        13 <= spec_normalized(path).len(),
        spec_normalized(path).subrange(spec_normalized(path).len() - 13, spec_normalized(path).len() as int)
            == seq!['\\', '$', 'r', 'e', 'c', 'y', 'c', 'l', 'e', '.', 'b', 'i', 'n'],
    ensures
        spec_in_recycle_bin(path),
{
    assert(recycle_folder() =~= seq!['\\', '$', 'r', 'e', 'c', 'y', 'c', 'l', 'e', '.', 'b', 'i', 'n']);
}

/// Only those paths are recognised: a path in a recycle bin holds
/// `\$recycle.bin\` somewhere or ends with `\$recycle.bin`, once normalised.
pub proof fn lemma_recycle_folder_only(path: Seq<char>)
    requires
        spec_in_recycle_bin(path),
    ensures
        (exists|i: int|
            0 <= i && i + 14 <= spec_normalized(path).len() && #[trigger] spec_normalized(path).subrange(i, i + 14)
                == seq!['\\', '$', 'r', 'e', 'c', 'y', 'c', 'l', 'e', '.', 'b', 'i', 'n', '\\'])
            || (13 <= spec_normalized(path).len() && spec_normalized(path).subrange(
            spec_normalized(path).len() - 13,
            spec_normalized(path).len() as int,
        ) == seq!['\\', '$', 'r', 'e', 'c', 'y', 'c', 'l', 'e', '.', 'b', 'i', 'n']),
{
    let n = spec_normalized(path);
    let inside = seq!['\\', '$', 'r', 'e', 'c', 'y', 'c', 'l', 'e', '.', 'b', 'i', 'n', '\\'];
    assert(recycle_folder().push('\\') =~= inside);
    assert(recycle_folder() =~= seq!['\\', '$', 'r', 'e', 'c', 'y', 'c', 'l', 'e', '.', 'b', 'i', 'n']);
    if contains_infix(n, recycle_folder().push('\\')) {
        let i = choose|i: int| 0 <= i && i + recycle_folder().push('\\').len() <= n.len() && #[trigger] n.subrange(i, i + recycle_folder().push('\\').len()) == recycle_folder().push('\\');
        assert(n.subrange(i, i + 14) == inside);
    }
}

/// Unifying separators keeps the length, turns every `/` into `\` and
/// keeps every other character.
pub proof fn lemma_unify_separators(s: Seq<char>)
    ensures
        unify_separators(s).len() == s.len(),
        forall|i: int| 0 <= i < s.len() && s[i] == '/' ==> #[trigger] unify_separators(s)[i] == '\\',
        forall|i: int| 0 <= i < s.len() && s[i] != '/' ==> #[trigger] unify_separators(s)[i] == s[i],
{
}

/// A path whose normalised text is the normalised parent (not ending in a
/// separator) followed by a separator and more lies inside the parent.
pub proof fn lemma_child_below_parent(parent: Seq<char>, child: Seq<char>)
    requires
        spec_normalized(child).len() > spec_normalized(parent).len(),
        spec_normalized(parent).len() == 0 || spec_normalized(parent).last() != '\\',
        spec_normalized(child).subrange(0, spec_normalized(parent).len() as int) == spec_normalized(parent),
        spec_normalized(child)[spec_normalized(parent).len() as int] == '\\',
    ensures
        spec_contains_path(parent, child),
{
    let np = spec_normalized(parent);
    let nc = spec_normalized(child);
    assert(trim_trailing_separators(np) == np);
    assert(nc.subrange(0, np.len() as int + 1) =~= np.push('\\'));
}

/// A sibling whose normalised name merely begins with the normalised
/// parent's name (the next character is no separator) is not inside it.
pub proof fn lemma_sibling_not_below_parent(parent: Seq<char>, child: Seq<char>)
    requires
        spec_normalized(child).len() > spec_normalized(parent).len(),
        spec_normalized(parent).len() == 0 || spec_normalized(parent).last() != '\\',
        spec_normalized(child).subrange(0, spec_normalized(parent).len() as int) == spec_normalized(parent),
        spec_normalized(child)[spec_normalized(parent).len() as int] != '\\',
    ensures
        !spec_contains_path(parent, child),
{
    let np = spec_normalized(parent);
    let nc = spec_normalized(child);
    assert(trim_trailing_separators(np) == np);
    if starts_with(nc, np.push('\\')) {
        assert(nc[np.len() as int] == nc.subrange(0, np.len() as int + 1)[np.len() as int]);
    }
}

} // verus!
