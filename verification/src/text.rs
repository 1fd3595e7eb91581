use vstd::prelude::*;

verus! {

broadcast use vstd::string::group_string_axioms;

/// The pieces of `s` between occurrences of `sep`, as `str::split` yields
/// them for a character pattern: always at least one piece, and an empty
/// piece wherever two separators meet or `s` starts or ends with one.
pub open spec fn split_spec(s: Seq<char>, sep: char) -> Seq<Seq<char>>
    decreases s.len(),
{
    if s.len() == 0 {
        seq![Seq::<char>::empty()]
    } else {
        let rest = split_spec(s.drop_last(), sep);
        if s.last() == sep {
            rest.push(Seq::<char>::empty())
        } else {
            rest.update(rest.len() - 1, rest.last().push(s.last()))
        }
    }
}

/// Splitting always gives at least one piece.
pub proof fn lemma_split_len(s: Seq<char>, sep: char)
    ensures
        split_spec(s, sep).len() >= 1,
    decreases s.len(),
{
    if s.len() > 0 {
        lemma_split_len(s.drop_last(), sep);
    }
}

/// Law: the pieces hold no separator, and joining them with it gives the
/// text back.
pub proof fn lemma_split_join(s: Seq<char>, sep: char)
    ensures
        join_spec(split_spec(s, sep), sep) == s,
        forall|i: int| 0 <= i < split_spec(s, sep).len() ==> !(#[trigger] split_spec(s, sep)[i]).contains(sep),
    decreases s.len(),
{
    lemma_split_len(s, sep);
    if s.len() > 0 {
        let t = s.drop_last();
        lemma_split_join(t, sep);
        lemma_split_len(t, sep);
        let rest = split_spec(t, sep);
        let parts = split_spec(s, sep);
        if s.last() == sep {
            assert(parts.drop_last() =~= rest);
            assert(join_spec(parts, sep) =~= join_spec(rest, sep).push(sep) + Seq::<char>::empty());
            assert(s =~= t.push(sep));
            assert forall|i: int| 0 <= i < parts.len() implies !(#[trigger] parts[i]).contains(sep) by {
                if i < rest.len() {
                    assert(parts[i] == rest[i]);
                } else {
                    assert(parts[i] =~= Seq::<char>::empty());
                }
            }
        } else {
            let lst = rest.last();
            assert(parts.last() == lst.push(s.last()));
            assert forall|i: int| 0 <= i < parts.len() implies !(#[trigger] parts[i]).contains(sep) by {
                if i < rest.len() - 1 {
                    assert(parts[i] == rest[i]);
                } else {
                    assert(!rest[rest.len() - 1].contains(sep));
                    if parts[i].contains(sep) {
                        let k = choose|k: int| 0 <= k < parts[i].len() && parts[i][k] == sep;
                        if k < lst.len() {
                            assert(lst[k] == sep);
                        }
                    }
                }
            }
            if rest.len() == 1 {
                assert(join_spec(rest, sep) == rest[0]);
                assert(join_spec(parts, sep) == parts[0]);
                assert(s =~= t.push(s.last()));
            } else {
                assert(parts.drop_last() =~= rest.drop_last());
                assert(join_spec(rest, sep) == join_spec(rest.drop_last(), sep).push(sep) + lst);
                assert(join_spec(parts, sep) == join_spec(parts.drop_last(), sep).push(sep) + parts.last());
                assert(s =~= t.push(s.last()));
                assert(join_spec(parts, sep) =~= join_spec(rest, sep).push(s.last()));
            }
        }
    }
}

/// Law: no line holds a line feed.
pub proof fn lemma_lines_have_no_newline(s: Seq<char>)
    ensures
        forall|i: int| 0 <= i < lines_spec(s).len() ==> !(#[trigger] lines_spec(s)[i]).contains('\n'),
{
    lemma_split_join(s, '\n');
    lemma_split_len(s, '\n');
    let parts = split_spec(s, '\n');
    let n = parts.len();
    let body = if parts.last().len() == 0 { parts.drop_last() } else { parts };
    assert forall|i: int| 0 <= i < lines_spec(s).len() implies !(#[trigger] lines_spec(s)[i]).contains('\n') by {
        assert(body[i] == parts[i]);
        assert(!parts[i].contains('\n'));
        if i < n - 1 && lines_spec(s)[i].contains('\n') {
            let k = choose|k: int| 0 <= k < lines_spec(s)[i].len() && lines_spec(s)[i][k] == '\n';
            assert(parts[i][k] == '\n');
        }
    }
}

/// `p` without one trailing carriage return, if it has one.
pub open spec fn strip_cr(p: Seq<char>) -> Seq<char> {
    if p.len() > 0 && p.last() == '\r' {
        p.drop_last()
    } else {
        p
    }
}

/// The lines of `s` as `str::lines` gives them: the text is cut at each
/// `'\n'`; a `'\r'` right before a `'\n'` belongs to the line ending; a final
/// empty piece (after a last `'\n'`, or of an empty text) is not a line.
pub open spec fn lines_spec(s: Seq<char>) -> Seq<Seq<char>> {
    let parts = split_spec(s, '\n');
    let n = parts.len();
    let body = if parts.last().len() == 0 {
        parts.drop_last()
    } else {
        parts
    };
    Seq::new(body.len(), |i: int| if i < n - 1 { strip_cr(body[i]) } else { body[i] })
}

/// The views of a list of strings.
pub open spec fn views(v: Seq<String>) -> Seq<Seq<char>> {
    v.map_values(|s: String| s@)
}

/// `pieces` joined with `sep` between each two of them.
pub open spec fn join_spec(pieces: Seq<Seq<char>>, sep: char) -> Seq<char>
    decreases pieces.len(),
{
    if pieces.len() == 0 {
        Seq::<char>::empty()
    } else if pieces.len() == 1 {
        pieces[0]
    } else {
        join_spec(pieces.drop_last(), sep).push(sep) + pieces.last()
    }
}

/// The characters of `s`, in order.
pub fn chars_of(s: &str) -> (r: Vec<char>)
    ensures
        r@ == s@,
{
    let mut out: Vec<char> = Vec::new();
    for c in it: s.chars()
        invariant
            it.seq() == s@,
            out@ == it.seq().take(it.index() as int),
    {
        out.push(c);
    }
    out
}

/// `String::from_iter` on characters: the string made of them, in order,
/// as its documentation says of collecting an iterator of `char`s.
#[verifier::external_body]
pub(crate) fn string_from_chars(chars: &[char]) -> (r: String)
    ensures
        r@ == chars@,
{
    String::from_iter(chars)
}

/// Cuts a character sequence at each `sep`.
fn split_chars(s: &Vec<char>, sep: char) -> (r: Vec<Vec<char>>)
    ensures
        r@.len() == split_spec(s@, sep).len(),
        forall|i: int| 0 <= i < r@.len() ==> #[trigger] r@[i]@ == split_spec(s@, sep)[i],
{
    let mut done: Vec<Vec<char>> = Vec::new();
    let mut cur: Vec<char> = Vec::new();
    let mut i: usize = 0;
    while i < s.len()
        invariant
            i <= s@.len(),
            done@.len() + 1 == split_spec(s@.take(i as int), sep).len(),
            forall|k: int| 0 <= k < done@.len() ==> #[trigger] done@[k]@ == split_spec(s@.take(i as int), sep)[k],
            cur@ == split_spec(s@.take(i as int), sep).last(),
        decreases s@.len() - i,
    {
        let c = s[i];
        proof {
            assert(s@.take(i + 1).drop_last() =~= s@.take(i as int));
        }
        if c == sep {
            done.push(cur);
            cur = Vec::new();
        } else {
            cur.push(c);
        }
        i = i + 1;
    }
    proof {
        assert(s@.take(s@.len() as int) =~= s@);
    }
    done.push(cur);
    done
}

/// Turns character vectors into strings.
fn to_strings(pieces: Vec<Vec<char>>) -> (r: Vec<String>)
    ensures
        r@.len() == pieces@.len(),
        forall|i: int| 0 <= i < r@.len() ==> #[trigger] r@[i]@ == pieces@[i]@,
{
    let mut out: Vec<String> = Vec::new();
    let mut i: usize = 0;
    while i < pieces.len()
        invariant
            i <= pieces@.len(),
            out@.len() == i,
            forall|k: int| 0 <= k < i ==> #[trigger] out@[k]@ == pieces@[k]@,
        decreases pieces@.len() - i,
    {
        out.push(string_from_chars(pieces[i].as_slice()));
        i = i + 1;
    }
    out
}

/// Splits `text` at each occurrence of `sep`, as `text.split(sep)` does.
pub fn split_on(text: &str, sep: char) -> (r: Vec<String>)
    ensures
        views(r@) == split_spec(text@, sep),
{
    let chars = chars_of(text);
    let pieces = split_chars(&chars, sep);
    let r = to_strings(pieces);
    assert(views(r@) =~= split_spec(text@, sep));
    r
}

/// The lines of `text`, as `text.lines()` gives them.
pub fn split_lines(text: &str) -> (r: Vec<String>)
    ensures
        views(r@) == lines_spec(text@),
{
    let chars = chars_of(text);
    let mut pieces = split_chars(&chars, '\n');
    let ghost parts = split_spec(text@, '\n');
    proof {
        lemma_split_len(text@, '\n');
    }
    let n = pieces.len();
    let mut out: Vec<String> = Vec::new();
    let mut i: usize = 0;
    let last_empty = pieces[n - 1].len() == 0;
    let count = if last_empty { n - 1 } else { n };
    while i < count
        invariant
            parts == split_spec(text@, '\n'),
            n == pieces@.len() == parts.len(),
            n >= 1,
            count <= n,
            last_empty == (parts.last().len() == 0),
            count == if last_empty { n - 1 } else { n as int },
            forall|k: int| 0 <= k < n ==> #[trigger] pieces@[k]@ == parts[k],
            i <= count,
            out@.len() == i,
            forall|k: int| 0 <= k < i ==> #[trigger] out@[k]@ == lines_spec(text@)[k],
        decreases count - i,
    {
        let mut p = pieces[i].clone();
        if i < n - 1 && p.len() > 0 && p[p.len() - 1] == '\r' {
            p.pop();
        }
        proof {
            let body = if parts.last().len() == 0 { parts.drop_last() } else { parts };
            assert(body.len() == count);
            assert(body[i as int] == parts[i as int]);
            assert(lines_spec(text@).len() == count);
        }
        assert(p@ == lines_spec(text@)[i as int]);
        out.push(string_from_chars(p.as_slice()));
        i = i + 1;
    }
    assert(views(out@) =~= lines_spec(text@));
    out
}

} // verus!
