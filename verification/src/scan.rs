use vstd::prelude::*;

use crate::text::{chars_of, split_on, split_spec, string_from_chars, views};

verus! {

broadcast use vstd::string::group_string_axioms;

/// The directories to look in, from the pieces of a colon-separated search
/// path: empty pieces are skipped, and a directory met again is not visited
/// a second time.
pub open spec fn unique_dirs(parts: Seq<Seq<char>>) -> Seq<Seq<char>>
    decreases parts.len(),
{
    if parts.len() == 0 {
        Seq::<Seq<char>>::empty()
    } else {
        let d = unique_dirs(parts.drop_last());
        let p = parts.last();
        if p.len() == 0 || d.contains(p) {
            d
        } else {
            d.push(p)
        }
    }
}

/// Law: every directory is named by a non-empty piece of the search path,
/// every non-empty piece names one of them, and none comes twice.
pub proof fn lemma_unique_dirs(parts: Seq<Seq<char>>)
    ensures
        forall|i: int| 0 <= i < unique_dirs(parts).len() ==> (#[trigger] unique_dirs(parts)[i]).len() > 0
            && parts.contains(unique_dirs(parts)[i]),
        forall|i: int, j: int|
            0 <= i < j < unique_dirs(parts).len() ==> #[trigger] unique_dirs(parts)[i] != #[trigger] unique_dirs(parts)[j],
        forall|k: int| 0 <= k < parts.len() && (#[trigger] parts[k]).len() > 0 ==> unique_dirs(parts).contains(parts[k]),
    decreases parts.len(),
{
    if parts.len() > 0 {
        let init = parts.drop_last();
        lemma_unique_dirs(init);
        let d = unique_dirs(init);
        let p = parts.last();
        let r = unique_dirs(parts);
        assert forall|i: int| 0 <= i < r.len() implies (#[trigger] r[i]).len() > 0 && parts.contains(r[i]) by {
            if i < d.len() {
                assert(r[i] == d[i]);
                let k = choose|k: int| 0 <= k < init.len() && init[k] == d[i];
                assert(parts[k] == d[i]);
            } else {
                assert(parts[parts.len() - 1] == p);
            }
        }
        assert forall|k: int| 0 <= k < parts.len() && (#[trigger] parts[k]).len() > 0 implies r.contains(parts[k]) by {
            if k < init.len() {
                assert(init[k] == parts[k]);
                let j = choose|j: int| 0 <= j < d.len() && d[j] == parts[k];
                assert(r[j] == d[j]);
            } else if !d.contains(p) {
                assert(r[r.len() - 1] == p);
            }
        }
    }
}

/// Whether some string of `list` reads `s`.
pub fn contains_string(list: &Vec<String>, s: &String) -> (r: bool)
    ensures
        r == views(list@).contains(s@),
{
    let mut i: usize = 0;
    while i < list.len()
        invariant
            i <= list@.len(),
            forall|k: int| 0 <= k < i ==> list@[k]@ != s@,
        decreases list@.len() - i,
    {
        if list[i] == *s {
            assert(views(list@)[i as int] == s@);
            return true;
        }
        i = i + 1;
    }
    proof {
        if views(list@).contains(s@) {
            let k = choose|k: int| 0 <= k < views(list@).len() && views(list@)[k] == s@;
            assert(list@[k]@ == s@);
        }
    }
    false
}

/// The directories named by a colon-separated search path such as
/// `XDG_DATA_DIRS` gives them, each once, in the order first met.
pub fn desktop_directories(search_path: &str) -> (r: Vec<String>)
    ensures
        views(r@) == unique_dirs(split_spec(search_path@, ':')),
{
    let parts = split_on(search_path, ':');
    let ghost pv = views(parts@);
    let mut out: Vec<String> = Vec::new();
    let mut i: usize = 0;
    while i < parts.len()
        invariant
            pv == views(parts@),
            pv == split_spec(search_path@, ':'),
            i <= parts@.len(),
            views(out@) == unique_dirs(pv.take(i as int)),
        decreases parts@.len() - i,
    {
        proof {
            assert(pv.take(i + 1).drop_last() =~= pv.take(i as int));
            assert(pv.take(i + 1).last() == parts@[i as int]@);
        }
        let p = &parts[i];
        if p.as_str().is_empty() {
        } else if contains_string(&out, p) {
        } else {
            assert(p@.len() != 0);
            out.push(p.clone());
            assert(views(out@) =~= unique_dirs(pv.take(i as int)).push(p@));
        }
        i = i + 1;
    }
    assert(pv.take(parts@.len() as int) =~= pv);
    out
}

/// Position of the last `'.'` in `s`, or -1 when there is none.
pub open spec fn last_dot(s: Seq<char>) -> int
    decreases s.len(),
{
    if s.len() == 0 {
        -1
    } else if s.last() == '.' {
        s.len() - 1
    } else {
        last_dot(s.drop_last())
    }
}

/// The extension of a file name, as `Path::extension` gives it: what
/// follows the last `'.'`, unless there is no `'.'`, the only one starts the
/// name, or the name is `..`.
pub open spec fn extension_spec(name: Seq<char>) -> Option<Seq<char>> {
    if name == seq!['.', '.'] {
        None
    } else {
        let d = last_dot(name);
        if d <= 0 {
            None
        } else {
            Some(name.subrange(d + 1, name.len() as int))
        }
    }
}

/// Law: a file name with an extension is a non-empty stem, a `'.'` and
/// the extension, which holds no `'.'`.
pub proof fn lemma_extension_parts(name: Seq<char>)
    requires
        extension_spec(name) is Some,
    ensures
        exists|stem: Seq<char>|
            stem.len() > 0 && name == stem + seq!['.'] + extension_spec(name)->0,
        !extension_spec(name)->0.contains('.'),
{
    lemma_last_dot(name);
    let d = last_dot(name);
    let e = extension_spec(name)->0;
    let stem = name.subrange(0, d);
    assert(name =~= stem + seq!['.'] + e);
    if e.contains('.') {
        let k = choose|k: int| 0 <= k < e.len() && e[k] == '.';
        assert(name[d + 1 + k] == '.');
    }
}

/// The extension of a desktop entry file.
pub open spec fn desktop_extension() -> Seq<char> {
    seq!['d', 'e', 's', 'k', 't', 'o', 'p']
}

/// `last_dot` is the position of a `'.'` after which no `'.'` follows.
pub proof fn lemma_last_dot(s: Seq<char>)
    ensures
        -1 <= last_dot(s) < s.len(),
        last_dot(s) >= 0 ==> s[last_dot(s)] == '.',
        forall|k: int| last_dot(s) < k < s.len() ==> s[k] != '.',
    decreases s.len(),
{
    if s.len() > 0 {
        lemma_last_dot(s.drop_last());
        assert forall|k: int| last_dot(s) < k < s.len() implies s[k] != '.' by {
            if k < s.len() - 1 {
                assert(s[k] == s.drop_last()[k]);
            }
        }
    }
}

/// The extension of a file name (see `extension_spec`).
pub fn file_extension(name: &str) -> (r: Option<String>)
    ensures
        match r {
            Some(e) => extension_spec(name@) == Some(e@),
            None => extension_spec(name@) is None,
        },
{
    let chars = chars_of(name);
    let n = chars.len();
    if n == 2 && chars[0] == '.' && chars[1] == '.' {
        assert(name@ =~= seq!['.', '.']);
        return None;
    }
    assert(name@ != seq!['.', '.']);
    let mut j: usize = n;
    while j > 0 && chars[j - 1] != '.'
        invariant
            j <= n == chars@.len(),
            chars@ == name@,
            forall|k: int| j <= k < n ==> chars@[k] != '.',
        decreases j,
    {
        j = j - 1;
    }
    proof {
        lemma_last_dot(name@);
        if j > 0 {
            assert(last_dot(name@) == j - 1);
        } else {
            assert(last_dot(name@) == -1);
        }
    }
    if j <= 1 {
        None
    } else {
        let ext = string_from_chars(&chars.as_slice()[j..n]);
        assert(ext@ =~= name@.subrange(j as int, n as int));
        Some(ext)
    }
}

/// Whether the entry `file_name` of an applications directory is a desktop
/// entry to read: it is not one of the `hidden` names and its extension is
/// `desktop`. A name that is not hidden must have an extension.
pub fn is_desktop_file(file_name: &str, hidden: &Vec<String>) -> (r: bool)
    requires
        views(hidden@).contains(file_name@) || extension_spec(file_name@) is Some,
    ensures
        r == (!views(hidden@).contains(file_name@) && extension_spec(file_name@) == Some(
            desktop_extension(),
        )),
{
    let owned = file_name.to_owned();
    if contains_string(hidden, &owned) {
        return false;
    }
    match file_extension(file_name) {
        Some(ext) => {
            let c = chars_of(ext.as_str());
            let r = c.len() == 7 && c[0] == 'd' && c[1] == 'e' && c[2] == 's' && c[3] == 'k'
                && c[4] == 't' && c[5] == 'o' && c[6] == 'p';
            proof {
                if r {
                    assert(c@ =~= desktop_extension());
                } else if c@ == desktop_extension() {
                    assert(c@[0] == 'd');
                }
            }
            r
        },
        None => false,
    }
}

} // verus!
