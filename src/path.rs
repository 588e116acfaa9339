use vstd::prelude::*;

verus! {

/// The pieces of `s` between separators, empty pieces included: `"/a//b"` gives
/// `["", "a", "", "b"]`.
pub open spec fn split_on_slash(s: Seq<char>) -> Seq<Seq<char>>
    decreases s.len(),
{
    if s.len() == 0 {
        seq![Seq::<char>::empty()]
    } else {
        let init = split_on_slash(s.drop_last());
        if s.last() == '/' {
            init.push(Seq::<char>::empty())
        } else {
            init.update(init.len() - 1, init.last().push(s.last()))
        }
    }
}

/// A piece that names a directory: neither empty (a repeated separator) nor `.`.
pub open spec fn is_named_piece(p: Seq<char>) -> bool {
    p.len() > 0 && p != seq!['.']
}

/// The pieces of `ps` that name a directory, in order.
pub open spec fn named_pieces(ps: Seq<Seq<char>>) -> Seq<Seq<char>>
    decreases ps.len(),
{
    if ps.len() == 0 {
        Seq::empty()
    } else {
        let init = named_pieces(ps.drop_last());
        if is_named_piece(ps.last()) {
            init.push(ps.last())
        } else {
            init
        }
    }
}

pub open spec fn has_root(s: Seq<char>) -> bool {
    s.len() > 0 && s[0] == '/'
}

/// A relative path whose first piece is `.` keeps it as its first component.
pub open spec fn has_leading_cur_dir(s: Seq<char>) -> bool {
    split_on_slash(s)[0] == seq!['.']
}

/// The components of a Unix path: the root (written `/`), a leading `.`, then
/// every named piece. Repeated separators, a trailing separator and inner `.`
/// pieces are not components; `..` is one.
pub open spec fn components(s: Seq<char>) -> Seq<Seq<char>> {
    let root: Seq<Seq<char>> = if has_root(s) { seq![seq!['/']] } else { Seq::empty() };
    let cur: Seq<Seq<char>> = if has_leading_cur_dir(s) { seq![seq!['.']] } else { Seq::empty() };
    root + cur + named_pieces(split_on_slash(s))
}

/// `path` lies at or below `base`: the components of `base` begin those of `path`.
pub open spec fn path_starts_with(path: Seq<char>, base: Seq<char>) -> bool {
    let p = components(path);
    let b = components(base);
    b.len() <= p.len() && p.subrange(0, b.len() as int) == b
}

/// What a list of character vectors holds, as sequences.
pub open spec fn pieces_view(v: Seq<Vec<char>>) -> Seq<Seq<char>> {
    v.map_values(|x: Vec<char>| x@)
}

proof fn lemma_named_push(ps: Seq<Seq<char>>, p: Seq<char>)
    ensures
        named_pieces(ps.push(p)) == if is_named_piece(p) {
            named_pieces(ps).push(p)
        } else {
            named_pieces(ps)
        },
{
    assert(ps.push(p).drop_last() =~= ps);
}

/// The components of a path.
fn path_components(s: &str) -> (r: Vec<Vec<char>>)
    ensures
        pieces_view(r@) == components(s@),
{
    let n = s.unicode_len();
    let mut named: Vec<Vec<char>> = Vec::new();
    let mut cur: Vec<char> = Vec::new();
    let mut seen_slash = false;
    let mut first_is_dot = false;
    let ghost mut done: Seq<Seq<char>> = Seq::empty();
    let mut i: usize = 0;
    assert(s@.subrange(0, 0) =~= Seq::<char>::empty());
    while i < n
        invariant
            n == s@.len(),
            0 <= i <= n,
            split_on_slash(s@.subrange(0, i as int)) == done.push(cur@),
            pieces_view(named@) == named_pieces(done),
            seen_slash <==> done.len() > 0,
            seen_slash ==> (first_is_dot <==> done[0] == seq!['.']),
        decreases n - i,
    {
        let c = s.get_char(i);
        let ghost t = s@.subrange(0, i as int + 1);
        assert(t.drop_last() =~= s@.subrange(0, i as int));
        proof {
            lemma_named_push(done, cur@);
        }
        if c == '/' {
            if !seen_slash {
                first_is_dot = cur.len() == 1 && cur[0] == '.';
                assert(first_is_dot <==> cur@ == seq!['.']) by {
                    if cur@.len() == 1 && cur@[0] == '.' {
                        assert(cur@ =~= seq!['.']);
                    }
                }
            }
            let named_piece = cur.len() > 0 && !(cur.len() == 1 && cur[0] == '.');
            assert(named_piece <==> is_named_piece(cur@)) by {
                if cur@.len() == 1 && cur@[0] == '.' {
                    assert(cur@ =~= seq!['.']);
                }
            }
            proof {
                done = done.push(cur@);
            }
            if named_piece {
                let ghost before = pieces_view(named@);
                named.push(cur);
                assert(pieces_view(named@) =~= before.push(cur@));
            }
            cur = Vec::new();
            seen_slash = true;
        } else {
            let ghost before = cur@;
            cur.push(c);
            assert(done.push(before).update(done.len() as int, before.push(c)) =~= done.push(cur@));
        }
        i = i + 1;
    }
    assert(s@.subrange(0, n as int) =~= s@);
    proof {
        lemma_named_push(done, cur@);
    }
    let rooted = n > 0 && s.get_char(0) == '/';
    let cur_is_dot = cur.len() == 1 && cur[0] == '.';
    assert(cur_is_dot <==> cur@ == seq!['.']) by {
        if cur@.len() == 1 && cur@[0] == '.' {
            assert(cur@ =~= seq!['.']);
        }
    }
    let leading_dot = if seen_slash { first_is_dot } else { cur_is_dot };
    let named_piece = cur.len() > 0 && !cur_is_dot;
    if named_piece {
        let ghost before = pieces_view(named@);
        named.push(cur);
        assert(pieces_view(named@) =~= before.push(cur@));
    }
    let mut r: Vec<Vec<char>> = Vec::new();
    if rooted {
        let mut root_piece: Vec<char> = Vec::new();
        root_piece.push('/');
        assert(root_piece@ =~= seq!['/']);
        r.push(root_piece);
    }
    if leading_dot {
        let mut dot_piece: Vec<char> = Vec::new();
        dot_piece.push('.');
        assert(dot_piece@ =~= seq!['.']);
        r.push(dot_piece);
    }
    let ghost head = pieces_view(r@);
    assert(split_on_slash(s@)[0] == if seen_slash { done[0] } else { cur@ });
    assert(leading_dot == has_leading_cur_dir(s@));
    assert(head =~= (if has_root(s@) { seq![seq!['/']] } else { Seq::<Seq<char>>::empty() }) + (
    if has_leading_cur_dir(s@) {
        seq![seq!['.']]
    } else {
        Seq::<Seq<char>>::empty()
    }));
    r.append(&mut named);
    assert(pieces_view(r@) =~= head + named_pieces(split_on_slash(s@)));
    r
}

fn same_chars(a: &Vec<char>, b: &Vec<char>) -> (r: bool)
    ensures
        r == (a@ == b@),
{
    if a.len() != b.len() {
        return false;
    }
    let mut i: usize = 0;
    while i < a.len()
        invariant
            a@.len() == b@.len(),
            0 <= i <= a@.len(),
            forall|j: int| 0 <= j < i ==> a@[j] == b@[j],
        decreases a@.len() - i,
    {
        if a[i] != b[i] {
            return false;
        }
        i = i + 1;
    }
    assert(a@ =~= b@);
    true
}

/// Whether `path` lies at or below `base`, comparing whole components: `/work/repo`
/// is below `/work` but not below `/wo`.
pub fn starts_with_path(path: &str, base: &str) -> (r: bool)
    ensures
        r == path_starts_with(path@, base@),
{
    let p = path_components(path);
    let b = path_components(base);
    if b.len() > p.len() {
        return false;
    }
    let mut i: usize = 0;
    while i < b.len()
        invariant
            pieces_view(p@) == components(path@),
            pieces_view(b@) == components(base@),
            b@.len() <= p@.len(),
            0 <= i <= b@.len(),
            forall|j: int| 0 <= j < i ==> pieces_view(p@)[j] == pieces_view(b@)[j],
        decreases b@.len() - i,
    {
        if !same_chars(&p[i], &b[i]) {
            assert(pieces_view(p@)[i as int] != pieces_view(b@)[i as int]);
            return false;
        }
        i = i + 1;
    }
    assert(pieces_view(p@).subrange(0, b@.len() as int) =~= pieces_view(b@));
    true
}

} // verus!
