//! Slash-separated file paths, held as text.

use crate::text::{followed_by, has_prefix, has_suffix, same_text, texts};
use vstd::prelude::*;

verus! {

/// The path starts at the root of the file system.
pub open spec fn is_absolute(p: Seq<char>) -> bool {
    p.len() > 0 && p[0] == '/'
}

/// `base` extended by `rest`: an absolute `rest` takes the place of `base`, and one separator
/// stands between the two unless `base` is empty or already ends with it.
pub open spec fn joined(base: Seq<char>, rest: Seq<char>) -> Seq<char> {
    if is_absolute(rest) || base.len() == 0 {
        rest
    } else if base.last() == '/' {
        base + rest
    } else {
        base.push('/') + rest
    }
}

/// What stands between the slashes of a path, the empty pieces too.
pub open spec fn pieces(p: Seq<char>) -> Seq<Seq<char>>
    decreases p.len(),
{
    if p.len() == 0 {
        seq![Seq::<char>::empty()]
    } else {
        let before = pieces(p.drop_last());
        if p.last() == '/' {
            before.push(Seq::empty())
        } else {
            before.drop_last().push(before.last().push(p.last()))
        }
    }
}

/// A piece counts as a component unless it is empty, or is a dot that does not begin the path.
pub open spec fn counts(piece: Seq<char>, at: int) -> bool {
    piece.len() > 0 && (at == 0 || piece != seq!['.'])
}

/// The pieces that count, in order.
pub open spec fn counted(all: Seq<Seq<char>>) -> Seq<Seq<char>>
    decreases all.len(),
{
    if all.len() == 0 {
        Seq::empty()
    } else {
        let before = counted(all.drop_last());
        if counts(all.last(), all.len() - 1) {
            before.push(all.last())
        } else {
            before
        }
    }
}

/// The components of a path: the root, written as a slash, where the path is absolute, then the
/// pieces that count. Repeated and trailing slashes and inner dots make no difference.
pub open spec fn components(p: Seq<char>) -> Seq<Seq<char>> {
    if is_absolute(p) {
        seq![seq!['/']] + counted(pieces(p))
    } else {
        counted(pieces(p))
    }
}

/// The path has a last component that is not the root.
pub open spec fn has_parent(p: Seq<char>) -> bool {
    components(p).len() > 0 && !(is_absolute(p) && components(p).len() == 1)
}

/// `at` is the length of the shortest beginning of `p` whose components are those of `p`
/// without the last.
pub open spec fn is_parent_end(p: Seq<char>, at: int) -> bool {
    &&& 0 <= at <= p.len()
    &&& components(p.take(at)) == components(p).drop_last()
    &&& forall|k: int| 0 <= k < at ==> components(#[trigger] p.take(k)) != components(p).drop_last()
}

/// `base` extended by `rest`.
pub fn join(base: &str, rest: &str) -> (path: String)
    ensures
        path@ == joined(base@, rest@),
{
    let n: usize = base.unicode_len();
    let m: usize = rest.unicode_len();
    if n == 0 || (m > 0 && rest.get_char(0) == '/') {
        rest.to_owned()
    } else if base.get_char(n - 1) == '/' {
        followed_by(base, rest)
    } else {
        proof {
            reveal_strlit("/");
            assert(base@ + "/"@ =~= base@.push('/'));
        }
        followed_by(base, "/").concat(rest)
    }
}

proof fn lemma_pieces_nonempty(p: Seq<char>)
    ensures
        pieces(p).len() > 0,
    decreases p.len(),
{
    if p.len() > 0 {
        lemma_pieces_nonempty(p.drop_last());
    }
}

/// The components of a path, in order.
pub fn path_components(p: &str) -> (list: Vec<String>)
    ensures
        texts(list@) == components(p@),
{
    let n: usize = p.unicode_len();
    let mut list: Vec<String> = Vec::new();
    if n > 0 && p.get_char(0) == '/' {
        list.push("/".to_owned());
    }
    let ghost root = texts(list@);
    proof {
        reveal_strlit("/");
        reveal_strlit(".");
        assert("/"@ =~= seq!['/']);
        assert("."@ =~= seq!['.']);
        assert(root =~= if is_absolute(p@) {
            seq![seq!['/']]
        } else {
            Seq::<Seq<char>>::empty()
        });
        assert(p@.take(0) =~= Seq::<char>::empty());
        reveal_with_fuel(counted, 2);
        assert(counted(pieces(p@.take(0)).drop_last()) =~= Seq::<Seq<char>>::empty());
        assert(p@.subrange(0, 0) =~= Seq::<char>::empty());
    }
    let mut start: usize = 0;
    let mut first: bool = true;
    let mut i: usize = 0;
    while i < n
        invariant
            n == p@.len(),
            start <= i <= n,
            "."@ == seq!['.'],
            pieces(p@.take(i as int)).len() > 0,
            pieces(p@.take(i as int)).last() == p@.subrange(start as int, i as int),
            first <==> pieces(p@.take(i as int)).len() == 1,
            texts(list@) == root + counted(pieces(p@.take(i as int)).drop_last()),
        decreases n - i,
    {
        let ghost prior = pieces(p@.take(i as int));
        let ghost next = pieces(p@.take(i + 1));
        let ghost before = list@;
        proof {
            assert(p@.take(i + 1).drop_last() =~= p@.take(i as int));
            assert(p@.take(i + 1).last() == p@[i as int]);
        }
        if p.get_char(i) == '/' {
            let piece: &str = p.substring_char(start, i);
            if i > start && (first || !same_text(piece, ".")) {
                list.push(piece.to_owned());
                assert(texts(list@) =~= texts(before).push(piece@));
            }
            proof {
                assert(next.drop_last() =~= prior);
                assert(texts(list@) =~= root + counted(prior));
                assert(p@.subrange(i + 1, i + 1) =~= Seq::<char>::empty());
            }
            start = i + 1;
            first = false;
        } else {
            proof {
                assert(next.drop_last() =~= prior.drop_last());
                assert(p@.subrange(start as int, i + 1) =~= p@.subrange(
                    start as int,
                    i as int,
                ).push(p@[i as int]));
            }
        }
        i += 1;
    }
    let piece: &str = p.substring_char(start, n);
    let ghost before = list@;
    if n > start && (first || !same_text(piece, ".")) {
        list.push(piece.to_owned());
        assert(texts(list@) =~= texts(before).push(piece@));
    }
    proof {
        assert(p@.take(n as int) =~= p@);
        assert(texts(list@) =~= root + counted(pieces(p@)));
        if !is_absolute(p@) {
            assert(root + counted(pieces(p@)) =~= counted(pieces(p@)));
        }
    }
    list
}

/// Whether two paths have the same components.
pub fn same_path(a: &str, b: &str) -> (same: bool)
    ensures
        same == (components(a@) == components(b@)),
{
    let left: Vec<String> = path_components(a);
    let right: Vec<String> = path_components(b);
    same_list(&left, &right)
}

/// Whether two lists hold the same texts in the same order.
fn same_list(left: &Vec<String>, right: &Vec<String>) -> (same: bool)
    ensures
        same == (texts(left@) == texts(right@)),
{
    if left.len() != right.len() {
        assert(texts(left@).len() != texts(right@).len());
        return false;
    }
    let mut i: usize = 0;
    while i < left.len()
        invariant
            i <= left.len(),
            left.len() == right.len(),
            forall|k: int| 0 <= k < i ==> texts(left@)[k] == texts(right@)[k],
        decreases left.len() - i,
    {
        if !same_text(left[i].as_str(), right[i].as_str()) {
            assert(texts(left@)[i as int] != texts(right@)[i as int]);
            return false;
        }
        i += 1;
    }
    assert(texts(left@) =~= texts(right@));
    true
}

/// The path without its last component, if it has one besides the root.
pub fn parent(p: &str) -> (up: Option<String>)
    ensures
        up is Some <==> has_parent(p@),
        up matches Some(dir) ==> is_parent_end(p@, dir@.len() as int) && dir@ == p@.take(
            dir@.len() as int,
        ),
{
    let n: usize = p.unicode_len();
    let mut wanted: Vec<String> = path_components(p);
    proof {
        assert(texts(wanted@).len() == wanted@.len());
        if n == 0 {
            reveal_with_fuel(counted, 2);
            assert(counted(pieces(p@)) =~= Seq::<Seq<char>>::empty());
        }
    }
    if wanted.len() == 0 || (p.get_char(0) == '/' && wanted.len() == 1) {
        return None;
    }
    let ghost all = texts(wanted@);
    wanted.pop();
    assert(texts(wanted@) =~= all.drop_last());
    let mut k: usize = 0;
    while k < n
        invariant
            n == p@.len(),
            k <= n,
            has_parent(p@),
            texts(wanted@) == components(p@).drop_last(),
            forall|j: int|
                0 <= j < k ==> components(#[trigger] p@.take(j)) != components(p@).drop_last(),
        decreases n - k,
    {
        let dir: &str = p.substring_char(0, k);
        let found: Vec<String> = path_components(dir);
        assert(dir@ =~= p@.take(k as int));
        if same_list(&found, &wanted) {
            return Some(dir.to_owned());
        }
        k += 1;
    }
    proof {
        lemma_parent_end(p@);
    }
    None
}

/// A path with a parent has a beginning that names it.
proof fn lemma_parent_end(p: Seq<char>)
    requires
        has_parent(p),
    ensures
        exists|k: int| 0 <= k < p.len() && components(#[trigger] p.take(k)) == components(p).drop_last(),
    decreases p.len(),
{
    reveal_with_fuel(counted, 2);
    if p.len() == 0 {
        assert(counted(pieces(p)) =~= Seq::<Seq<char>>::empty());
    } else {
        let q = p.drop_last();
        lemma_pieces_nonempty(q);
        lemma_pieces_nonempty(p);
        assert(q =~= p.take(p.len() - 1));
        assert(q.len() > 0 ==> q[0] == p[0]);
        if p.last() == '/' {
            assert(pieces(p).drop_last() =~= pieces(q));
            assert(counted(pieces(p)) == counted(pieces(q)));
            if p.len() == 1 {
                assert(pieces(q).drop_last() =~= Seq::<Seq<char>>::empty());
                assert(counted(pieces(q)) =~= Seq::<Seq<char>>::empty());
                assert(components(p).len() == 1);
            } else {
                assert(components(p) == components(q));
            }
        } else {
            assert(pieces(p).drop_last() =~= pieces(q).drop_last());
            if p.len() == 1 {
                assert(counted(pieces(q)) =~= Seq::<Seq<char>>::empty());
                assert(!is_absolute(p) && !is_absolute(q));
            }
            assert(is_absolute(p) == is_absolute(q));
            let front = counted(pieces(q).drop_last());
            assert(counted(pieces(p)) == if counts(pieces(p).last(), pieces(p).len() - 1) {
                front.push(pieces(p).last())
            } else {
                front
            });
            assert(counted(pieces(q)) == if counts(pieces(q).last(), pieces(q).len() - 1) {
                front.push(pieces(q).last())
            } else {
                front
            });
            assert(pieces(p).last() == pieces(q).last().push(p.last()));
            if counts(pieces(q).last(), pieces(q).len() - 1) {
                assert(pieces(p).last().len() >= 2);
                assert(counts(pieces(p).last(), pieces(p).len() - 1));
            }
        }
        if components(p) == components(q) {
            lemma_parent_end(q);
            let k = choose|k: int|
                0 <= k < q.len() && components(#[trigger] q.take(k)) == components(q).drop_last();
            assert(p.take(k) =~= q.take(k));
        } else {
            let at = pieces(p).len() - 1;
            assert(counts(pieces(p).last(), at));
            if counts(pieces(q).last(), at) {
                assert(components(p).drop_last() =~= components(q).drop_last());
                lemma_parent_end(q);
                let k = choose|k: int|
                    0 <= k < q.len() && components(#[trigger] q.take(k)) == components(
                        q,
                    ).drop_last();
                assert(p.take(k) =~= q.take(k));
            } else {
                assert(components(p).drop_last() =~= components(q));
                assert(components(p.take(p.len() - 1)) == components(p).drop_last());
            }
        }
    }
}

/// A slash at the end of a path that is not empty makes no difference to its components.
pub proof fn law_trailing_slash(p: Seq<char>)
    requires
        p.len() > 0,
    ensures
        components(p.push('/')) == components(p),
{
    assert(p.push('/').drop_last() =~= p);
    assert(pieces(p.push('/')).drop_last() =~= pieces(p));
}

proof fn lemma_counted_concat(front: Seq<Seq<char>>, back: Seq<Seq<char>>)
    requires
        front.len() > 0,
        back.len() > 0 ==> back[0] != seq!['.'],
    ensures
        counted(front + back) == counted(front) + counted(back),
    decreases back.len(),
{
    if back.len() == 0 {
        assert(front + back =~= front);
        assert(counted(front) + counted(back) =~= counted(front));
    } else {
        lemma_counted_concat(front, back.drop_last());
        assert((front + back).drop_last() =~= front + back.drop_last());
        assert(counted(front + back) =~= counted(front) + counted(back));
    }
}

proof fn lemma_pieces_concat(dir: Seq<char>, rest: Seq<char>)
    requires
        dir.len() > 0,
        dir.last() == '/',
    ensures
        pieces(dir + rest) == pieces(dir).drop_last() + pieces(rest),
    decreases rest.len(),
{
    lemma_pieces_nonempty(dir);
    lemma_pieces_nonempty(rest);
    if rest.len() == 0 {
        assert(dir + rest =~= dir);
        assert(pieces(dir) =~= pieces(dir).drop_last() + pieces(rest));
    } else {
        lemma_pieces_concat(dir, rest.drop_last());
        lemma_pieces_nonempty(rest.drop_last());
        assert((dir + rest).drop_last() =~= dir + rest.drop_last());
        assert(pieces(dir + rest) =~= pieces(dir).drop_last() + pieces(rest));
    }
}

/// Joining a relative path that does not begin with a lone dot to a directory appends its
/// components to those of the directory.
pub proof fn law_join_appends_components(base: Seq<char>, rest: Seq<char>)
    requires
        base.len() > 0,
        !is_absolute(rest),
        pieces(rest)[0] != seq!['.'],
    ensures
        components(joined(base, rest)) == components(base) + components(rest),
{
    let dir = if base.last() == '/' {
        base
    } else {
        base.push('/')
    };
    if base.last() != '/' {
        law_trailing_slash(base);
    }
    assert(joined(base, rest) == dir + rest);
    assert(dir[0] == base[0]);
    assert((dir + rest)[0] == dir[0]);
    lemma_pieces_concat(dir, rest);
    let front = pieces(dir).drop_last();
    lemma_pieces_nonempty(dir.drop_last());
    lemma_counted_concat(front, pieces(rest));
    assert(counted(pieces(dir)) == counted(front));
    assert(components(dir + rest) =~= components(dir) + components(rest));
}

/// Joining an absolute path, or joining to nothing, gives that path. Otherwise the result begins
/// with the one and ends with the other, and a slash stands before the latter: the one that ends
/// the former if it ends with one, and a single new one if not.
pub proof fn law_joined(base: Seq<char>, rest: Seq<char>)
    ensures
        is_absolute(rest) || base.len() == 0 ==> joined(base, rest) == rest,
        !is_absolute(rest) && base.len() > 0 ==> {
            let path = joined(base, rest);
            &&& has_prefix(path, base)
            &&& has_suffix(path, rest)
            &&& path.len() == base.len() + rest.len() + if base.last() == '/' {
                0int
            } else {
                1int
            }
            &&& path[path.len() - rest.len() - 1] == '/'
        },
{
    if !is_absolute(rest) && base.len() > 0 {
        let path = joined(base, rest);
        assert(path.take(base.len() as int) =~= base);
        assert(path.skip(path.len() - rest.len()) =~= rest);
    }
}

/// Pieces with slashes between them.
pub open spec fn with_slashes(list: Seq<Seq<char>>) -> Seq<char>
    decreases list.len(),
{
    if list.len() == 0 {
        Seq::empty()
    } else if list.len() == 1 {
        list[0]
    } else {
        with_slashes(list.drop_last()).push('/') + list.last()
    }
}

/// The pieces of a path hold no slash, and with slashes between them are the path.
pub proof fn law_pieces_make_the_path(p: Seq<char>)
    ensures
        pieces(p).len() > 0,
        with_slashes(pieces(p)) == p,
        forall|i: int, k: int|
            0 <= i < pieces(p).len() && 0 <= k < pieces(p)[i].len()
                ==> #[trigger] pieces(p)[i][k] != '/',
    decreases p.len(),
{
    reveal_with_fuel(with_slashes, 2);
    lemma_pieces_nonempty(p);
    if p.len() == 0 {
        assert(with_slashes(pieces(p)) =~= p);
    } else {
        let q = p.drop_last();
        law_pieces_make_the_path(q);
        let before = pieces(q);
        if p.last() == '/' {
            assert(pieces(p).drop_last() =~= before);
            assert(with_slashes(pieces(p)) =~= q.push('/'));
            assert(q.push('/') =~= p);
        } else {
            assert(pieces(p).drop_last() =~= before.drop_last());
            assert forall|i: int, k: int|
                0 <= i < pieces(p).len() && 0 <= k < pieces(p)[i].len() implies #[trigger] pieces(
                p,
            )[i][k] != '/' by {
                if i < before.len() - 1 {
                    assert(pieces(p)[i] == before[i]);
                } else if k < before.last().len() {
                    assert(before[before.len() - 1][k] != '/');
                }
            }
            if before.len() == 1 {
                assert(with_slashes(pieces(p)) =~= q.push(p.last()));
            } else {
                assert(with_slashes(pieces(p)) =~= with_slashes(before).push(p.last()));
            }
            assert(q.push(p.last()) =~= p);
        }
    }
}

/// The name of a file or directory: not empty, without slashes, and not a lone dot.
pub open spec fn is_name(name: Seq<char>) -> bool {
    &&& name.len() > 0
    &&& name != seq!['.']
    &&& forall|i: int| 0 <= i < name.len() ==> name[i] != '/'
}

/// A text without slashes is a single piece.
pub proof fn lemma_one_piece(s: Seq<char>)
    requires
        forall|i: int| 0 <= i < s.len() ==> s[i] != '/',
    ensures
        pieces(s) == seq![s],
    decreases s.len(),
{
    if s.len() > 0 {
        lemma_one_piece(s.drop_last());
        assert(s.drop_last().push(s.last()) =~= s);
        assert(pieces(s) =~= seq![s]);
    } else {
        assert(s =~= Seq::<char>::empty());
        assert(pieces(s) =~= seq![s]);
    }
}

/// Names with slashes between them fall into these names.
pub proof fn lemma_pieces_of_names(names: Seq<Seq<char>>)
    requires
        names.len() > 0,
        forall|i: int| 0 <= i < names.len() ==> is_name(#[trigger] names[i]),
    ensures
        pieces(with_slashes(names)) == names,
        with_slashes(names).len() > 0,
        with_slashes(names)[0] == names[0][0],
    decreases names.len(),
{
    reveal_with_fuel(with_slashes, 2);
    lemma_one_piece(names.last());
    if names.len() == 1 {
        assert(names =~= seq![names[0]]);
    } else {
        let front = names.drop_last();
        lemma_pieces_of_names(front);
        let dir = with_slashes(front).push('/');
        lemma_pieces_concat(dir, names.last());
        assert(dir.drop_last() =~= with_slashes(front));
        assert(pieces(dir).drop_last() =~= front);
        assert(front + seq![names.last()] =~= names);
    }
}

proof fn lemma_names_count(names: Seq<Seq<char>>)
    requires
        forall|i: int| 0 <= i < names.len() ==> is_name(#[trigger] names[i]),
    ensures
        counted(names) == names,
    decreases names.len(),
{
    if names.len() > 0 {
        lemma_names_count(names.drop_last());
        assert(names.drop_last().push(names.last()) =~= names);
        assert(is_name(names[names.len() - 1]));
    }
}

/// The components of names with slashes between them are these names; and with a slash in front
/// of them all, the root comes first.
pub proof fn law_names_are_components(names: Seq<Seq<char>>)
    requires
        names.len() > 0,
        forall|i: int| 0 <= i < names.len() ==> is_name(#[trigger] names[i]),
    ensures
        components(with_slashes(names)) == names,
        components(seq!['/'] + with_slashes(names)) == seq![seq!['/']] + names,
{
    let p = with_slashes(names);
    let root = seq!['/'];
    lemma_pieces_of_names(names);
    lemma_names_count(names);
    assert(is_name(names[0]));
    lemma_pieces_concat(root, p);
    assert(root.drop_last() =~= Seq::<char>::empty());
    let nothing = seq![Seq::<char>::empty()];
    reveal_with_fuel(pieces, 2);
    assert(pieces(root).drop_last() =~= nothing);
    lemma_counted_concat(nothing, names);
    reveal_with_fuel(counted, 2);
    assert(counted(nothing) =~= Seq::<Seq<char>>::empty());
    assert(counted(nothing + names) =~= names);
}

/// A lone dot after a path makes no difference to its components.
pub proof fn law_inner_dot(p: Seq<char>)
    requires
        p.len() > 0,
    ensures
        components(p + seq!['/', '.']) == components(p),
{
    let slash = p.push('/');
    let q = p + seq!['/', '.'];
    law_trailing_slash(p);
    lemma_pieces_nonempty(p);
    assert(q.drop_last() =~= slash);
    assert(slash.drop_last() =~= p);
    assert(pieces(slash) == pieces(p).push(Seq::empty()));
    assert(pieces(q) =~= pieces(p).push(seq!['.'])) by {
        assert(Seq::<char>::empty().push('.') =~= seq!['.']);
    }
    assert(pieces(q).drop_last() =~= pieces(p));
}

/// Something in a directory has a parent: a beginning of the path, no longer than the directory,
/// with the components of the directory.
pub proof fn law_parent_of_entry(dir: Seq<char>, name: Seq<char>, at: int)
    requires
        dir.len() > 0,
        is_name(name),
    ensures
        has_parent(joined(dir, name)),
        components(joined(dir, name)) == components(dir).push(name),
        is_parent_end(joined(dir, name), at) ==> {
            &&& at <= dir.len()
            &&& components(joined(dir, name).take(at)) == components(dir)
        },
{
    let path = joined(dir, name);
    lemma_one_piece(name);
    assert(!is_absolute(name));
    law_join_appends_components(dir, name);
    lemma_names_count(seq![name]);
    assert(components(name) == seq![name]);
    assert(components(dir) + seq![name] =~= components(dir).push(name));
    assert(components(path).drop_last() =~= components(dir));
    assert(path.take(dir.len() as int) =~= dir);
    if is_absolute(dir) {
        assert(path[0] == dir[0]);
        assert(components(dir).len() >= 1);
    } else {
        assert(path[0] == dir[0]);
    }
}

/// A path is absolute exactly if it is a slash followed by something or nothing.
pub proof fn law_absolute(p: Seq<char>)
    ensures
        is_absolute(p) <==> has_prefix(p, seq!['/']),
        is_absolute(seq!['/'] + p),
{
    if has_prefix(p, seq!['/']) {
        assert(p.take(1)[0] == p[0]);
    }
    if is_absolute(p) {
        assert(p.take(1) =~= seq!['/']);
    }
}

/// What a path begins with counts: a slash is the root and a lone dot is a component, and what is
/// joined to either follows it. An empty path has no components.
pub proof fn law_beginnings(rest: Seq<char>)
    requires
        !is_absolute(rest),
        pieces(rest)[0] != seq!['.'],
    ensures
        components(Seq::empty()) == Seq::<Seq<char>>::empty(),
        components(joined(seq!['/'], rest)) == seq![seq!['/']] + components(rest),
        components(joined(seq!['.'], rest)) == seq![seq!['.']] + components(rest),
{
    let nothing = Seq::<char>::empty();
    reveal_with_fuel(pieces, 2);
    reveal_with_fuel(counted, 3);
    assert(pieces(nothing) =~= seq![nothing]);
    assert(seq![nothing].drop_last() =~= Seq::<Seq<char>>::empty());
    assert(counted(pieces(nothing)) =~= Seq::<Seq<char>>::empty());
    let root = seq!['/'];
    assert(root.drop_last() =~= nothing);
    assert(pieces(root) =~= seq![nothing, nothing]);
    assert(seq![nothing, nothing].drop_last() =~= seq![nothing]);
    assert(components(root) =~= seq![root]);
    let dot = seq!['.'];
    assert(dot.drop_last() =~= nothing);
    assert(nothing.push('.') =~= dot);
    assert(pieces(dot) =~= seq![dot]);
    assert(seq![dot].drop_last() =~= Seq::<Seq<char>>::empty());
    assert(components(dot) =~= seq![dot]);
    law_join_appends_components(root, rest);
    law_join_appends_components(dot, rest);
}

/// Neither the root nor an empty path has a parent. A lone name has one, which is empty.
pub proof fn law_parent_at_the_top(name: Seq<char>)
    requires
        is_name(name),
    ensures
        !has_parent(Seq::empty()),
        !has_parent(seq!['/']),
        has_parent(name),
        is_parent_end(name, 0),
{
    let nothing = Seq::<char>::empty();
    lemma_one_piece(nothing);
    law_beginnings(nothing);
    assert(joined(seq!['/'], nothing) =~= seq!['/']);
    assert(components(seq!['/']) =~= seq![seq!['/']]);
    lemma_one_piece(name);
    lemma_names_count(seq![name]);
    assert(components(name) == seq![name]);
    assert(name.take(0) =~= nothing);
    assert(seq![name].drop_last() =~= Seq::<Seq<char>>::empty());
}

} // verus!
