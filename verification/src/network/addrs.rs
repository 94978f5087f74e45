//! The addresses under which a peer is reached.
//!
//! A peer's address field may list several addresses separated by `';'`; they
//! are tried in the order given.

use vstd::prelude::*;

verus! {

/// The pieces of `s` between `';'` separators, in order, empty pieces included:
/// what `str::split(';')` yields. There is always at least one piece.
pub open spec fn split_semicolons(s: Seq<char>) -> Seq<Seq<char>>
    decreases s.len(),
{
    if s.len() == 0 {
        seq![Seq::<char>::empty()]
    } else {
        let init = split_semicolons(s.drop_last());
        if s.last() == ';' {
            init.push(Seq::<char>::empty())
        } else {
            init.update(init.len() - 1, init.last().push(s.last()))
        }
    }
}

/// The non-empty pieces of `pieces`, in order.
pub open spec fn non_empty_pieces(pieces: Seq<Seq<char>>) -> Seq<Seq<char>>
    decreases pieces.len(),
{
    if pieces.len() == 0 {
        Seq::<Seq<char>>::empty()
    } else {
        let init = non_empty_pieces(pieces.drop_last());
        if pieces.last().len() > 0 {
            init.push(pieces.last())
        } else {
            init
        }
    }
}

/// The addresses a peer with address field `addr` is tried at: the non-empty
/// `';'`-separated pieces of `addr`, or `addr` itself when there are none.
pub open spec fn peer_addresses(addr: Seq<char>) -> Seq<Seq<char>> {
    let pieces = non_empty_pieces(split_semicolons(addr));
    if pieces.len() == 0 {
        seq![addr]
    } else {
        pieces
    }
}

/// The character sequences behind a list of string slices.
pub open spec fn str_views(v: Seq<&str>) -> Seq<Seq<char>> {
    v.map_values(|s: &str| s@)
}

/// `split_semicolons` yields at least one piece.
pub proof fn lemma_split_semicolons_nonempty(s: Seq<char>)
    ensures
        split_semicolons(s).len() >= 1,
    decreases s.len(),
{
    if s.len() > 0 {
        lemma_split_semicolons_nonempty(s.drop_last());
    }
}

/// Every address a peer is tried at is a non-empty stretch of `addr` free of
/// `';'`, unless `addr` has no such stretch, in which case the one address is
/// `addr` itself; and there is always at least one address.
pub proof fn lemma_peer_addresses_shape(addr: Seq<char>)
    ensures
        peer_addresses(addr).len() >= 1,
        non_empty_pieces(split_semicolons(addr)).len() > 0 ==> forall|i: int|
            0 <= i < peer_addresses(addr).len() ==> {
                &&& #[trigger] peer_addresses(addr)[i].len() > 0
                &&& !peer_addresses(addr)[i].contains(';')
            },
{
    lemma_pieces_free_of_separator(addr);
    lemma_non_empty_pieces(split_semicolons(addr));
}

proof fn lemma_pieces_free_of_separator(s: Seq<char>)
    ensures
        forall|i: int|
            0 <= i < split_semicolons(s).len() ==> !(#[trigger] split_semicolons(s)[i]).contains(';'),
    decreases s.len(),
{
    if s.len() > 0 {
        let init = split_semicolons(s.drop_last());
        lemma_pieces_free_of_separator(s.drop_last());
        lemma_split_semicolons_nonempty(s.drop_last());
        if s.last() != ';' {
            let last = init.last().push(s.last());
            assert forall|j: int| 0 <= j < last.len() implies last[j] != ';' by {
                if j < init.last().len() {
                    assert(last[j] == init.last()[j]);
                    assert(!init[init.len() - 1].contains(';'));
                    if init.last()[j] == ';' {
                        assert(init.last().contains(';'));
                    }
                }
            }
        }
    }
}

proof fn lemma_non_empty_pieces(pieces: Seq<Seq<char>>)
    ensures
        forall|i: int|
            0 <= i < non_empty_pieces(pieces).len() ==> {
                &&& (#[trigger] non_empty_pieces(pieces)[i]).len() > 0
                &&& exists|j: int| 0 <= j < pieces.len() && #[trigger] pieces[j] == non_empty_pieces(pieces)[i]
            },
    decreases pieces.len(),
{
    if pieces.len() > 0 {
        lemma_non_empty_pieces(pieces.drop_last());
        let init = non_empty_pieces(pieces.drop_last());
        assert forall|i: int|
            #![trigger non_empty_pieces(pieces)[i]]
            0 <= i < non_empty_pieces(pieces).len() implies exists|j: int|
            0 <= j < pieces.len() && pieces[j] == non_empty_pieces(pieces)[i] by {
            if i < init.len() {
                let j = choose|j: int|
                    0 <= j < pieces.drop_last().len() && pieces.drop_last()[j] == init[i];
                assert(pieces[j] == pieces.drop_last()[j]);
            } else {
                assert(pieces[pieces.len() - 1] == non_empty_pieces(pieces)[i]);
            }
        }
    }
}

/// A text without `';'` is one piece.
proof fn lemma_split_without_separator(s: Seq<char>)
    requires
        !s.contains(';'),
    ensures
        split_semicolons(s) == seq![s],
    decreases s.len(),
{
    if s.len() > 0 {
        let init = s.drop_last();
        assert(!init.contains(';')) by {
            if init.contains(';') {
                let j = choose|j: int| 0 <= j < init.len() && init[j] == ';';
                assert(s[j] == ';');
            }
        }
        lemma_split_without_separator(init);
        assert(s.last() != ';') by {
            assert(s[s.len() - 1] == s.last());
        }
        assert(init.push(s.last()) =~= s);
    } else {
        assert(s =~= Seq::<char>::empty());
    }
}

/// A peer whose address field holds a single address, without `';'`, is
/// tried at exactly that address.
pub proof fn lemma_single_address(addr: Seq<char>)
    requires
        !addr.contains(';'),
    ensures
        peer_addresses(addr) == seq![addr],
{
    lemma_split_without_separator(addr);
    let pieces = seq![addr];
    assert(pieces.drop_last() =~= Seq::<Seq<char>>::empty());
    assert(pieces.last() == addr);
    assert(non_empty_pieces(pieces.drop_last()) =~= Seq::<Seq<char>>::empty());
    if addr.len() > 0 {
        assert(non_empty_pieces(pieces) =~= seq![addr]);
    } else {
        assert(non_empty_pieces(pieces) =~= Seq::<Seq<char>>::empty());
    }
}

/// The text made of `pieces` with a `';'` between each two.
pub open spec fn join_semicolons(pieces: Seq<Seq<char>>) -> Seq<char>
    decreases pieces.len(),
{
    if pieces.len() == 0 {
        Seq::<char>::empty()
    } else if pieces.len() == 1 {
        pieces[0]
    } else {
        join_semicolons(pieces.drop_last()) + seq![';'] + pieces.last()
    }
}

/// Appending a stretch free of `';'` extends the last piece.
proof fn lemma_split_append_free(s: Seq<char>, t: Seq<char>)
    requires
        !t.contains(';'),
    ensures
        split_semicolons(s + t) == split_semicolons(s).update(
            split_semicolons(s).len() - 1,
            split_semicolons(s).last() + t,
        ),
    decreases t.len(),
{
    lemma_split_semicolons_nonempty(s);
    let sp = split_semicolons(s);
    if t.len() == 0 {
        assert(s + t =~= s);
        assert(sp.last() + t =~= sp.last());
        assert(sp.update(sp.len() - 1, sp.last() + t) =~= sp);
    } else {
        let t0 = t.drop_last();
        assert(!t0.contains(';')) by {
            if t0.contains(';') {
                let j = choose|j: int| 0 <= j < t0.len() && t0[j] == ';';
                assert(t[j] == ';');
            }
        }
        lemma_split_append_free(s, t0);
        assert((s + t).drop_last() =~= s + t0);
        assert((s + t).last() == t.last());
        assert(t.last() != ';') by {
            assert(t[t.len() - 1] == t.last());
        }
        let init = split_semicolons(s + t0);
        assert(init.len() == sp.len());
        assert(init.last() == sp.last() + t0);
        assert((sp.last() + t0).push(t.last()) =~= sp.last() + t);
        assert(init.update(init.len() - 1, init.last().push(t.last())) =~= sp.update(
            sp.len() - 1,
            sp.last() + t,
        ));
    }
}

/// A `';'` followed by a stretch free of `';'` adds that stretch as a piece.
proof fn lemma_split_after_separator(s: Seq<char>, t: Seq<char>)
    requires
        !t.contains(';'),
    ensures
        split_semicolons(s + seq![';'] + t) == split_semicolons(s).push(t),
{
    let u = s + seq![';'];
    assert(u.drop_last() =~= s);
    assert(u.last() == ';');
    assert(split_semicolons(u) == split_semicolons(s).push(Seq::<char>::empty()));
    lemma_split_append_free(u, t);
    let su = split_semicolons(u);
    assert(su.last() + t =~= t);
    assert(su.update(su.len() - 1, t) =~= split_semicolons(s).push(t));
}

/// Splitting the text joined from pieces free of `';'` gives the pieces back.
pub proof fn lemma_split_join(pieces: Seq<Seq<char>>)
    requires
        pieces.len() >= 1,
        forall|i: int| 0 <= i < pieces.len() ==> !(#[trigger] pieces[i]).contains(';'),
    ensures
        split_semicolons(join_semicolons(pieces)) == pieces,
    decreases pieces.len(),
{
    if pieces.len() == 1 {
        lemma_split_without_separator(pieces[0]);
        assert(seq![pieces[0]] =~= pieces);
    } else {
        let init = pieces.drop_last();
        assert forall|i: int| 0 <= i < init.len() implies !(#[trigger] init[i]).contains(';') by {
            assert(init[i] == pieces[i]);
        }
        lemma_split_join(init);
        assert(!pieces.last().contains(';')) by {
            assert(pieces[pieces.len() - 1] == pieces.last());
        }
        lemma_split_after_separator(join_semicolons(init), pieces.last());
        assert(init.push(pieces.last()) =~= pieces);
    }
}

/// Keeping the non-empty pieces of non-empty pieces keeps them all.
proof fn lemma_non_empty_pieces_all(pieces: Seq<Seq<char>>)
    requires
        forall|i: int| 0 <= i < pieces.len() ==> (#[trigger] pieces[i]).len() > 0,
    ensures
        non_empty_pieces(pieces) == pieces,
    decreases pieces.len(),
{
    if pieces.len() > 0 {
        let init = pieces.drop_last();
        assert forall|i: int| 0 <= i < init.len() implies (#[trigger] init[i]).len() > 0 by {
            assert(init[i] == pieces[i]);
        }
        lemma_non_empty_pieces_all(init);
        assert(pieces.last().len() > 0) by {
            assert(pieces[pieces.len() - 1] == pieces.last());
        }
        assert(init.push(pieces.last()) =~= pieces);
    } else {
        assert(pieces =~= Seq::<Seq<char>>::empty());
    }
}

/// Law: a peer whose address field lists addresses separated by `';'`, none
/// of them empty or holding `';'`, is tried at exactly those addresses, all
/// of them, in the order listed.
pub proof fn lemma_peer_addresses_of_list(addrs: Seq<Seq<char>>)
    requires
        addrs.len() >= 1,
        forall|i: int|
            0 <= i < addrs.len() ==> (#[trigger] addrs[i]).len() > 0 && !addrs[i].contains(';'),
    ensures
        peer_addresses(join_semicolons(addrs)) == addrs,
{
    lemma_split_join(addrs);
    lemma_non_empty_pieces_all(addrs);
}

/// Law: for addresses `a`, `b` and `c`, none empty or holding `';'`, the
/// field `a;b;c` is tried at `a`, then `b`, then `c`.
pub proof fn lemma_three_addresses(a: Seq<char>, b: Seq<char>, c: Seq<char>)
    requires
        a.len() > 0 && !a.contains(';'),
        b.len() > 0 && !b.contains(';'),
        c.len() > 0 && !c.contains(';'),
    ensures
        peer_addresses(a + seq![';'] + b + seq![';'] + c) == seq![a, b, c],
{
    let addrs = seq![a, b, c];
    assert(addrs.drop_last() =~= seq![a, b]);
    assert(seq![a, b].drop_last() =~= seq![a]);
    assert(join_semicolons(seq![a]) == a);
    assert(join_semicolons(seq![a, b]) == a + seq![';'] + b);
    assert(join_semicolons(addrs) == a + seq![';'] + b + seq![';'] + c);
    lemma_peer_addresses_of_list(addrs);
}

/// Law: whenever the address field has a non-empty `';'`-separated piece,
/// the peer is tried at exactly its non-empty pieces, all of them, in order;
/// otherwise at the field itself.
pub proof fn lemma_peer_addresses_are_the_pieces(addr: Seq<char>)
    ensures
        non_empty_pieces(split_semicolons(addr)).len() > 0 ==> peer_addresses(addr)
            == non_empty_pieces(split_semicolons(addr)),
        non_empty_pieces(split_semicolons(addr)).len() == 0 ==> peer_addresses(addr) == seq![addr],
{
}

/// The addresses a peer with address field `addr` is tried at, in order: the
/// non-empty `';'`-separated pieces of `addr`, or `addr` itself when there are
/// none.
pub fn target_addrs(addr: &str) -> (r: Vec<&str>)
    ensures
        str_views(r@) == peer_addresses(addr@),
        non_empty_pieces(split_semicolons(addr@)).len() > 0 ==> str_views(r@) == non_empty_pieces(
            split_semicolons(addr@),
        ),
        non_empty_pieces(split_semicolons(addr@)).len() == 0 ==> str_views(r@) == seq![addr@],
        r.len() >= 1,
{
    let n = addr.unicode_len();
    let mut result: Vec<&str> = Vec::new();
    let mut start: usize = 0;
    let mut i: usize = 0;
    let ghost mut done: Seq<Seq<char>> = Seq::empty();
    assert(addr@.subrange(0, 0) =~= Seq::<char>::empty());
    assert(split_semicolons(Seq::<char>::empty()) =~= done.push(addr@.subrange(0, 0)));
    assert(str_views(result@) =~= non_empty_pieces(done));
    while i < n
        invariant
            n == addr@.len(),
            start <= i <= n,
            split_semicolons(addr@.subrange(0, i as int)) == done.push(
                addr@.subrange(start as int, i as int),
            ),
            str_views(result@) == non_empty_pieces(done),
        decreases n - i,
    {
        let c = addr.get_char(i);
        let ghost prefix = addr@.subrange(0, i as int);
        let ghost cur = addr@.subrange(start as int, i as int);
        assert(addr@.subrange(0, i + 1).drop_last() =~= prefix);
        assert(addr@.subrange(0, i + 1).last() == c);
        if c == ';' {
            if start < i {
                let ghost before = result@;
                let piece = addr.substring_char(start, i);
                result.push(piece);
                assert(str_views(result@) =~= str_views(before).push(cur));
            }
            proof {
                assert(done.push(cur).drop_last() =~= done);
                done = done.push(cur);
            }
            start = i + 1;
            assert(addr@.subrange(start as int, i + 1) =~= Seq::<char>::empty());
        } else {
            assert(addr@.subrange(start as int, i + 1) =~= cur.push(c));
        }
        i = i + 1;
    }
    let ghost cur = addr@.subrange(start as int, n as int);
    assert(addr@.subrange(0, n as int) =~= addr@);
    assert(done.push(cur).drop_last() =~= done);
    if start < n {
        let ghost before = result@;
        let piece = addr.substring_char(start, n);
        result.push(piece);
        assert(str_views(result@) =~= str_views(before).push(cur));
    }
    if result.len() == 0 {
        let r = vec![addr];
        assert(str_views(r@) =~= seq![addr@]);
        r
    } else {
        result
    }
}

} // verus!
