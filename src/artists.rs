use vstd::prelude::*;

verus! {

/// The characters of each string, in order.
pub open spec fn strings_view(v: Seq<String>) -> Seq<Seq<char>> {
    v.map_values(|s: String| s@)
}

/// Prepends `p` to the first of `pieces`.
pub open spec fn glue(p: Seq<char>, pieces: Seq<Seq<char>>) -> Seq<Seq<char>> {
    pieces.update(0, p + pieces[0])
}

/// `s` cut at every leftmost non-overlapping occurrence of `sep`, as
/// `str::split` cuts it. An empty separator leaves `s` whole, and an empty `s`
/// gives one empty piece.
pub open spec fn split_on(s: Seq<char>, sep: Seq<char>) -> Seq<Seq<char>>
    decreases s.len(),
{
    if sep.len() == 0 || s.len() < sep.len() {
        seq![s]
    } else if s.subrange(0, sep.len() as int) == sep {
        seq![Seq::<char>::empty()] + split_on(s.subrange(sep.len() as int, s.len() as int), sep)
    } else {
        glue(seq![s[0]], split_on(s.drop_first(), sep))
    }
}

/// The pieces with `sep` between each two neighbours.
pub open spec fn join_with(pieces: Seq<Seq<char>>, sep: Seq<char>) -> Seq<char>
    decreases pieces.len(),
{
    if pieces.len() == 0 {
        Seq::empty()
    } else if pieces.len() == 1 {
        pieces[0]
    } else {
        pieces[0] + sep + join_with(pieces.drop_first(), sep)
    }
}

/// Splitting always yields at least one piece.
pub proof fn lemma_split_nonempty(s: Seq<char>, sep: Seq<char>)
    ensures
        split_on(s, sep).len() >= 1,
    decreases s.len(),
{
    if sep.len() == 0 || s.len() < sep.len() {
    } else if s.subrange(0, sep.len() as int) == sep {
        lemma_split_nonempty(s.subrange(sep.len() as int, s.len() as int), sep);
    } else {
        lemma_split_nonempty(s.drop_first(), sep);
    }
}

/// Joining the pieces of a split with the same separator gives back the
/// string that was split.
pub proof fn lemma_join_split(s: Seq<char>, sep: Seq<char>)
    ensures
        join_with(split_on(s, sep), sep) == s,
    decreases s.len(),
{
    if sep.len() == 0 || s.len() < sep.len() {
    } else if s.subrange(0, sep.len() as int) == sep {
        let rest = s.subrange(sep.len() as int, s.len() as int);
        let r = split_on(rest, sep);
        lemma_split_nonempty(rest, sep);
        lemma_join_split(rest, sep);
        let whole = seq![Seq::<char>::empty()] + r;
        assert(whole.drop_first() =~= r);
        assert(Seq::<char>::empty() + sep + rest =~= s);
    } else {
        let rest = s.drop_first();
        let r = split_on(rest, sep);
        lemma_split_nonempty(rest, sep);
        lemma_join_split(rest, sep);
        let g = glue(seq![s[0]], r);
        if r.len() == 1 {
            assert(seq![s[0]] + rest =~= s);
        } else {
            assert(g.drop_first() =~= r.drop_first());
            let tail = sep + join_with(r.drop_first(), sep);
            assert(seq![s[0]] + r[0] + tail =~= seq![s[0]] + (r[0] + tail));
            assert(seq![s[0]] + rest =~= s);
        }
    }
}

/// Joining a list extended by one value appends the separator and the value.
pub proof fn lemma_join_push(pieces: Seq<Seq<char>>, sep: Seq<char>, v: Seq<char>)
    requires
        pieces.len() >= 1,
    ensures
        join_with(pieces.push(v), sep) == join_with(pieces, sep) + sep + v,
    decreases pieces.len(),
{
    if pieces.len() == 1 {
        assert(pieces.push(v).drop_first() =~= seq![v]);
        assert(join_with(seq![v], sep) == v);
    } else {
        let rest = pieces.drop_first();
        lemma_join_push(rest, sep, v);
        assert(pieces.push(v).drop_first() =~= rest.push(v));
        let a = pieces[0] + sep;
        assert(a + (join_with(rest, sep) + sep + v) =~= a + join_with(rest, sep) + sep + v);
    }
}

proof fn lemma_glue_glue(a: Seq<char>, b: Seq<char>, y: Seq<Seq<char>>)
    requires
        y.len() >= 1,
    ensures
        glue(a, glue(b, y)) == glue(a + b, y),
{
    assert(a + (b + y[0]) =~= a + b + y[0]);
    assert(glue(a, glue(b, y)) =~= glue(a + b, y));
}

proof fn lemma_glue_cut(a: Seq<char>, y: Seq<Seq<char>>)
    requires
        y.len() >= 1,
    ensures
        glue(a, seq![Seq::<char>::empty()] + y) == seq![a] + glue(Seq::<char>::empty(), y),
        glue(Seq::<char>::empty(), y) == y,
{
    assert(a + Seq::<char>::empty() =~= a);
    assert(Seq::<char>::empty() + y[0] =~= y[0]);
    assert(glue(a, seq![Seq::<char>::empty()] + y) =~= seq![a] + glue(Seq::<char>::empty(), y));
    assert(glue(Seq::<char>::empty(), y) =~= y);
}

fn chars_of(s: &str) -> (r: Vec<char>)
    ensures
        r@ == s@,
{
    let n = s.unicode_len();
    let mut r: Vec<char> = Vec::new();
    let mut i: usize = 0;
    while i < n
        invariant
            n == s@.len(),
            i <= n,
            r@ == s@.subrange(0, i as int),
        decreases n - i,
    {
        r.push(s.get_char(i));
        i = i + 1;
        assert(r@ =~= s@.subrange(0, i as int));
    }
    assert(r@ =~= s@);
    r
}

fn matches_at(sc: &Vec<char>, pc: &Vec<char>, i: usize) -> (r: bool)
    requires
        i + pc@.len() <= sc@.len(),
    ensures
        r == (sc@.subrange(i as int, i + pc@.len()) == pc@),
{
    let k = pc.len();
    let m = sc.len();
    let mut j: usize = 0;
    while j < k
        invariant
            k == pc@.len(),
            m == sc@.len(),
            i + k <= sc@.len(),
            j <= k,
            forall|t: int| 0 <= t < j ==> sc@[i + t] == pc@[t],
        decreases k - j,
    {
        if sc[i + j] != pc[j] {
            assert(sc@.subrange(i as int, i + k)[j as int] != pc@[j as int]);
            return false;
        }
        j = j + 1;
    }
    assert(sc@.subrange(i as int, i + k) =~= pc@);
    true
}

/// Cuts `s` at every occurrence of `sep`.
pub fn split_artists(s: &str, sep: &str) -> (r: Vec<String>)
    ensures
        strings_view(r@) == split_on(s@, sep@),
{
    let n = s.unicode_len();
    let k = sep.unicode_len();
    let mut pieces: Vec<String> = Vec::new();
    if k == 0 {
        pieces.push(s.to_owned());
        assert(strings_view(pieces@) =~= split_on(s@, sep@));
        return pieces;
    }
    let sc = chars_of(s);
    let pc = chars_of(sep);
    let mut start: usize = 0;
    let mut i: usize = 0;
    proof {
        assert(s@.subrange(0, n as int) =~= s@);
        assert(s@.subrange(0, 0) =~= Seq::<char>::empty());
        lemma_split_nonempty(s@, sep@);
        lemma_glue_cut(Seq::<char>::empty(), split_on(s@, sep@));
        assert(strings_view(pieces@) =~= Seq::<Seq<char>>::empty());
        assert(Seq::<Seq<char>>::empty() + split_on(s@, sep@) =~= split_on(s@, sep@));
    }
    while i <= n && n - i >= k
        invariant
            n == s@.len(),
            k == sep@.len(),
            k > 0,
            sc@ == s@,
            pc@ == sep@,
            start <= i <= n,
            split_on(s@, sep@) == strings_view(pieces@) + glue(
                s@.subrange(start as int, i as int),
                split_on(s@.subrange(i as int, n as int), sep@),
            ),
        decreases n - i,
    {
        let ghost cur = s@.subrange(start as int, i as int);
        let ghost tail = s@.subrange(i as int, n as int);
        if matches_at(&sc, &pc, i) {
            proof {
                assert(tail.subrange(0, k as int) =~= s@.subrange(i as int, i + k));
                let next = tail.subrange(k as int, tail.len() as int);
                assert(next =~= s@.subrange(i + k, n as int));
                lemma_split_nonempty(next, sep@);
                lemma_glue_cut(cur, split_on(next, sep@));
            }
            let piece = s.substring_char(start, i).to_owned();
            let ghost before = pieces@;
            pieces.push(piece);
            i = i + k;
            start = i;
            proof {
                assert(strings_view(pieces@) =~= strings_view(before).push(cur));
                assert(s@.subrange(start as int, i as int) =~= Seq::<char>::empty());
                let y = split_on(s@.subrange(i as int, n as int), sep@);
                assert(strings_view(before) + (seq![cur] + y) =~= strings_view(before).push(cur)
                    + y);
            }
        } else {
            proof {
                assert(tail.subrange(0, k as int) =~= s@.subrange(i as int, i + k));
                assert(tail.drop_first() =~= s@.subrange(i + 1, n as int));
                lemma_split_nonempty(tail.drop_first(), sep@);
                lemma_glue_glue(cur, seq![s@[i as int]], split_on(tail.drop_first(), sep@));
                assert(cur + seq![s@[i as int]] =~= s@.subrange(start as int, i + 1));
            }
            i = i + 1;
        }
    }
    proof {
        let tail = s@.subrange(i as int, n as int);
        assert(s@.subrange(start as int, i as int) + tail =~= s@.subrange(
            start as int,
            n as int,
        ));
    }
    let last = s.substring_char(start, n).to_owned();
    let ghost before = pieces@;
    pieces.push(last);
    assert(strings_view(pieces@) =~= strings_view(before).push(last@));
    assert(strings_view(pieces@) =~= split_on(s@, sep@));
    pieces
}

/// Writes the values one after another with `sep` between neighbours.
pub fn join_artists(values: &Vec<String>, sep: &str) -> (r: String)
    ensures
        r@ == join_with(strings_view(values@), sep@),
{
    let n = values.len();
    if n == 0 {
        return String::new();
    }
    let mut acc = values[0].clone();
    let mut i: usize = 1;
    proof {
        assert(strings_view(values@).subrange(0, 1) =~= seq![values@[0]@]);
    }
    while i < n
        invariant
            n == values@.len(),
            1 <= i <= n,
            acc@ == join_with(strings_view(values@).subrange(0, i as int), sep@),
        decreases n - i,
    {
        proof {
            let p = strings_view(values@).subrange(0, i as int);
            lemma_join_push(p, sep@, values@[i as int]@);
            assert(p.push(values@[i as int]@) =~= strings_view(values@).subrange(0, i + 1));
        }
        acc.append(sep);
        acc.append(values[i].as_str());
        i = i + 1;
    }
    assert(strings_view(values@).subrange(0, n as int) =~= strings_view(values@));
    acc
}

} // verus!
