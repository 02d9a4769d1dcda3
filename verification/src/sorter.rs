//! Table sorter: a deterministically ordered view of the process table
//! according to a sort column and direction.
//!
//! Rows are sorted ascending by the column key with a stable insertion sort
//! (ties keep their original relative order), and a descending direction is
//! achieved by a full reversal of the ascending result, never by inverting
//! the comparator.

use vstd::prelude::*;
use vstd::string::StrSliceExecFns;

verus! {

/// The direction of the process table sort.
#[derive(Debug, Default, Clone, Copy, PartialEq, Eq, Structural)]
pub enum SortDirection {
    Ascending,
    #[default]
    Descending,
}

/// What `str::to_lowercase` returns for a string: a function of the
/// characters alone.
pub uninterp spec fn lower_of(s: Seq<char>) -> Seq<char>;

/// Relies on str::to_lowercase: lowercases a string for the case-insensitive
/// name column; the result depends on the input characters alone.
#[verifier::external_body]
pub(crate) fn lowercase(s: &str) -> (r: String)
    ensures
        r@ == lower_of(s@),
{
    s.to_lowercase()
}

/// Lexicographic order on character sequences by code point: the empty
/// sequence first, otherwise by the first differing position.
pub open spec fn lex_le(a: Seq<char>, b: Seq<char>) -> bool
    decreases a.len(),
{
    if a.len() == 0 {
        true
    } else if b.len() == 0 {
        false
    } else if a[0] as u32 == b[0] as u32 {
        lex_le(a.drop_first(), b.drop_first())
    } else {
        (a[0] as u32) < (b[0] as u32)
    }
}

/// The key a row exposes under some column: a case-folded text or a number.
pub enum RowKey {
    Text(Seq<char>),
    Num(int),
}

/// The order on row keys: texts lexicographically, numbers numerically.
/// Texts sort before numbers, though one column never mixes the two.
pub open spec fn key_le(a: RowKey, b: RowKey) -> bool {
    match (a, b) {
        (RowKey::Text(x), RowKey::Text(y)) => lex_le(x, y),
        (RowKey::Num(x), RowKey::Num(y)) => x <= y,
        (RowKey::Text(_), RowKey::Num(_)) => true,
        (RowKey::Num(_), RowKey::Text(_)) => false,
    }
}

/// A row of a sortable table: each sortable column maps the row to a key,
/// and rows can be compared at runtime consistently with those keys.
pub trait SortRow: Sized {
    /// The key this row exposes under `column`.
    spec fn sort_key(self, column: u32) -> RowKey;

    /// Compares two rows by the key of `column`.
    fn le_by(&self, other: &Self, column: u32) -> (r: bool)
        ensures
            r == key_le((*self).sort_key(column), (*other).sort_key(column)),
    ;
}

/// `x` inserted into `s` after every element whose key is at most the key of
/// `x`: exactly where a stable insertion sort puts it.
pub open spec fn spec_insert<R: SortRow>(s: Seq<R>, x: R, col: u32) -> Seq<R>
    decreases s.len(),
{
    if s.len() == 0 {
        seq![x]
    } else if key_le(s.last().sort_key(col), x.sort_key(col)) {
        s.push(x)
    } else {
        spec_insert(s.drop_last(), x, col).push(s.last())
    }
}

/// The stable ascending sort of `s` by the key of `col`: ties keep their
/// original relative order.
pub open spec fn spec_sort_by<R: SortRow>(s: Seq<R>, col: u32) -> Seq<R>
    decreases s.len(),
{
    if s.len() == 0 {
        s
    } else {
        spec_insert(spec_sort_by(s.drop_last(), col), s.last(), col)
    }
}

/// Compares two strings lexicographically by character code point.
pub(crate) fn str_lex_le(a: &str, b: &str) -> (r: bool)
    ensures
        r == lex_le(a@, b@),
{
    let alen = a.unicode_len();
    let blen = b.unicode_len();
    let mut i: usize = 0;
    proof {
        assert(a@.skip(0) =~= a@);
        assert(b@.skip(0) =~= b@);
    }
    loop
        invariant
            i <= alen,
            i <= blen,
            alen == a@.len(),
            blen == b@.len(),
            lex_le(a@, b@) == lex_le(a@.skip(i as int), b@.skip(i as int)),
        ensures
            lex_le(a@, b@) == lex_le(a@.skip(i as int), b@.skip(i as int)),
            i >= alen || i >= blen || a@[i as int] as u32 != b@[i as int] as u32,
            i <= alen && i <= blen && alen == a@.len() && blen == b@.len(),
        decreases alen - i,
    {
        if i >= alen || i >= blen {
            break ;
        }
        let ca = a.get_char(i);
        let cb = b.get_char(i);
        if ca as u32 != cb as u32 {
            break ;
        }
        proof {
            assert(a@.skip(i as int)[0] == a@[i as int]);
            assert(b@.skip(i as int)[0] == b@[i as int]);
            assert(a@.skip(i as int).drop_first() =~= a@.skip(i + 1));
            assert(b@.skip(i as int).drop_first() =~= b@.skip(i + 1));
        }
        i = i + 1;
    }
    if i >= alen {
        proof {
            assert(a@.skip(i as int).len() == 0);
        }
        true
    } else if i >= blen {
        proof {
            assert(b@.skip(i as int).len() == 0);
            assert(a@.skip(i as int).len() > 0);
        }
        false
    } else {
        let ca = a.get_char(i);
        let cb = b.get_char(i);
        proof {
            assert(a@.skip(i as int)[0] == a@[i as int]);
            assert(b@.skip(i as int)[0] == b@[i as int]);
        }
        (ca as u32) < (cb as u32)
    }
}

proof fn lemma_insert_position<R: SortRow>(s: Seq<R>, x: R, col: u32, p: int)
    requires
        0 <= p <= s.len(),
        p > 0 ==> key_le(s[p - 1].sort_key(col), x.sort_key(col)),
        forall|j: int| p <= j < s.len() ==> !key_le(#[trigger] s[j].sort_key(col), x.sort_key(col)),
    ensures
        spec_insert(s, x, col) =~= s.subrange(0, p) + seq![x] + s.subrange(p, s.len() as int),
    decreases s.len(),
{
    if s.len() == p {
        if p == 0 {
            assert(spec_insert(s, x, col) =~= seq![x]);
        } else {
            assert(spec_insert(s, x, col) == s.push(x));
        }
    } else {
        assert(!key_le(s.last().sort_key(col), x.sort_key(col)));
        let prefix = s.drop_last();
        assert(forall|j: int|
            p <= j < prefix.len() ==> !key_le(#[trigger] prefix[j].sort_key(col), x.sort_key(col)));
        if p > 0 {
            assert(prefix[p - 1] == s[p - 1]);
        }
        lemma_insert_position(prefix, x, col, p);
        assert(spec_insert(s, x, col) == spec_insert(prefix, x, col).push(s.last()));
    }
}

/// Inserts `x` into the sorted prefix `out`, keeping it exactly the stable
/// insertion-sort shape.
fn insert_sorted<R: SortRow>(out: &mut Vec<R>, x: R, col: u32)
    ensures
        final(out)@ == spec_insert(old(out)@, x, col),
{
    let mut p: usize = out.len();
    loop
        invariant
            p <= out@.len(),
            out@ == old(out)@,
            forall|j: int|
                p <= j < out@.len() ==> !key_le(
                    #[trigger] out@[j].sort_key(col),
                    x.sort_key(col),
                ),
        ensures
            p <= out@.len(),
            out@ == old(out)@,
            forall|j: int|
                p <= j < out@.len() ==> !key_le(
                    #[trigger] out@[j].sort_key(col),
                    x.sort_key(col),
                ),
            p > 0 ==> key_le(out@[p - 1].sort_key(col), x.sort_key(col)),
        decreases p,
    {
        if p == 0 {
            break ;
        }
        if out[p - 1].le_by(&x, col) {
            break ;
        }
        p = p - 1;
    }
    proof {
        lemma_insert_position(out@, x, col, p as int);
    }
    out.insert(p, x);
    proof {
        assert(out@ =~= old(out)@.subrange(0, p as int) + seq![x] + old(out)@.subrange(
            p as int,
            old(out)@.len() as int,
        ));
    }
}

/// Sorts the rows ascending by the key of `col` with a stable insertion
/// sort: ties keep their original relative order.
pub fn sort_rows<R: SortRow>(rows: &mut Vec<R>, col: u32)
    ensures
        final(rows)@ == spec_sort_by(old(rows)@, col),
{
    let ghost orig = old(rows)@;
    let mut out: Vec<R> = Vec::new();
    proof {
        assert(orig.take(0) =~= Seq::<R>::empty());
        assert(orig.skip(0) =~= orig);
    }
    while rows.len() > 0
        invariant
            rows@.len() <= orig.len(),
            rows@ =~= orig.skip(orig.len() - rows@.len()),
            out@ == spec_sort_by(orig.take(orig.len() - rows@.len()), col),
        decreases rows@.len(),
    {
        let ghost taken = orig.len() - rows@.len();
        let x = rows.remove(0);
        proof {
            assert(orig.skip(taken)[0] == orig[taken]);
            assert(orig.skip(taken).remove(0) =~= orig.skip(taken + 1));
            assert(orig.take(taken + 1).drop_last() =~= orig.take(taken));
            assert(orig.take(taken + 1).last() == orig[taken]);
        }
        insert_sorted(&mut out, x, col);
    }
    proof {
        assert(orig.take(orig.len() as int) =~= orig);
    }
    *rows = out;
}

/// Reverses the rows in place: how a descending view is produced from the
/// ascending sort.
pub fn reverse_rows<R>(rows: &mut Vec<R>)
    ensures
        final(rows)@ == old(rows)@.reverse(),
{
    let ghost orig = old(rows)@;
    let mut out: Vec<R> = Vec::new();
    while rows.len() > 0
        invariant
            rows@ =~= orig.take(rows@.len() as int),
            out@.len() + rows@.len() == orig.len(),
            forall|j: int| 0 <= j < out@.len() ==> out@[j] == orig[orig.len() - 1 - j],
        decreases rows@.len(),
    {
        let x = rows.pop().unwrap();
        proof {
            assert(orig.take(rows@.len() as int + 1).last() == orig[rows@.len() as int]);
            assert(orig.take(rows@.len() as int + 1).drop_last() =~= orig.take(
                rows@.len() as int,
            ));
        }
        out.push(x);
    }
    proof {
        assert(out@ =~= orig.reverse());
    }
    *rows = out;
}

/// The ordered view the table sorter produces: rows sorted ascending by the
/// column key where the column is sortable (an index past the last sortable
/// column leaves the order alone), then reversed for a descending direction.
pub open spec fn spec_sorted_view<R: SortRow>(
    s: Seq<R>,
    column: u32,
    direction: SortDirection,
) -> Seq<R> {
    let ascending = if column <= 4 {
        spec_sort_by(s, column)
    } else {
        s
    };
    match direction {
        SortDirection::Ascending => ascending,
        SortDirection::Descending => ascending.reverse(),
    }
}

/// The rows are ascending by the key of `col`.
pub open spec fn sorted_by_key<R: SortRow>(s: Seq<R>, col: u32) -> bool {
    forall|i: int, j: int|
        0 <= i < j < s.len() ==> key_le(#[trigger] s[i].sort_key(col), #[trigger] s[j].sort_key(col))
}

/// Two rows tie when each key is at most the other.
pub open spec fn tied<R: SortRow>(a: R, b: R, col: u32) -> bool {
    key_le(a.sort_key(col), b.sort_key(col)) && key_le(b.sort_key(col), a.sort_key(col))
}

/// No two rows tie on the key of `col`.
pub open spec fn distinct_keys<R: SortRow>(s: Seq<R>, col: u32) -> bool {
    forall|i: int, j: int| 0 <= i < j < s.len() ==> !tied(#[trigger] s[i], #[trigger] s[j], col)
}

proof fn lemma_lex_le_refl(a: Seq<char>)
    ensures
        lex_le(a, a),
    decreases a.len(),
{
    if a.len() > 0 {
        lemma_lex_le_refl(a.drop_first());
    }
}

proof fn lemma_lex_le_total(a: Seq<char>, b: Seq<char>)
    ensures
        lex_le(a, b) || lex_le(b, a),
    decreases a.len(),
{
    if a.len() == 0 {
    } else if b.len() == 0 {
    } else if a[0] as u32 == b[0] as u32 {
        lemma_lex_le_total(a.drop_first(), b.drop_first());
    }
}

proof fn lemma_lex_le_trans(a: Seq<char>, b: Seq<char>, c: Seq<char>)
    requires
        lex_le(a, b),
        lex_le(b, c),
    ensures
        lex_le(a, c),
    decreases a.len(),
{
    if a.len() == 0 {
    } else {
        assert(b.len() > 0);
        assert(c.len() > 0);
        if a[0] as u32 == b[0] as u32 && b[0] as u32 == c[0] as u32 {
            lemma_lex_le_trans(a.drop_first(), b.drop_first(), c.drop_first());
        }
    }
}

/// The key order is reflexive.
pub proof fn lemma_key_le_refl(a: RowKey)
    ensures
        key_le(a, a),
{
    match a {
        RowKey::Text(x) => lemma_lex_le_refl(x),
        RowKey::Num(_) => (),
    }
}

/// Any two keys compare one way or the other.
pub proof fn lemma_key_le_total(a: RowKey, b: RowKey)
    ensures
        key_le(a, b) || key_le(b, a),
{
    match (a, b) {
        (RowKey::Text(x), RowKey::Text(y)) => lemma_lex_le_total(x, y),
        _ => (),
    }
}

/// The key order is transitive.
pub proof fn lemma_key_le_trans(a: RowKey, b: RowKey, c: RowKey)
    requires
        key_le(a, b),
        key_le(b, c),
    ensures
        key_le(a, c),
{
    match (a, b, c) {
        (RowKey::Text(x), RowKey::Text(y), RowKey::Text(z)) => lemma_lex_le_trans(x, y, z),
        _ => (),
    }
}

proof fn lemma_insert_to_multiset<R: SortRow>(s: Seq<R>, x: R, col: u32)
    ensures
        spec_insert(s, x, col).to_multiset() =~= s.to_multiset().insert(x),
    decreases s.len(),
{
    broadcast use vstd::seq_lib::group_to_multiset_ensures;

    if s.len() == 0 {
        assert(spec_insert(s, x, col) =~= s.push(x));
    } else if key_le(s.last().sort_key(col), x.sort_key(col)) {
    } else {
        lemma_insert_to_multiset(s.drop_last(), x, col);
        assert(s =~= s.drop_last().push(s.last()));
        assert(s.to_multiset() =~= s.drop_last().to_multiset().insert(s.last()));
        assert(spec_insert(s, x, col) == spec_insert(s.drop_last(), x, col).push(s.last()));
        assert(spec_insert(s, x, col).to_multiset() =~= s.drop_last().to_multiset().insert(
            x,
        ).insert(s.last()));
    }
}

/// The stable sort is a permutation: it keeps exactly the rows it was given.
pub proof fn lemma_sort_to_multiset<R: SortRow>(s: Seq<R>, col: u32)
    ensures
        spec_sort_by(s, col).to_multiset() =~= s.to_multiset(),
    decreases s.len(),
{
    broadcast use vstd::seq_lib::group_to_multiset_ensures;

    if s.len() > 0 {
        lemma_sort_to_multiset(s.drop_last(), col);
        lemma_insert_to_multiset(spec_sort_by(s.drop_last(), col), s.last(), col);
        assert(s =~= s.drop_last().push(s.last()));
        assert(s.to_multiset() =~= s.drop_last().to_multiset().insert(s.last()));
    }
}

proof fn lemma_insert_sorted_output<R: SortRow>(s: Seq<R>, x: R, col: u32)
    requires
        sorted_by_key(s, col),
    ensures
        sorted_by_key(spec_insert(s, x, col), col),
    decreases s.len(),
{
    broadcast use vstd::seq_lib::group_to_multiset_ensures;

    if s.len() == 0 {
    } else if key_le(s.last().sort_key(col), x.sort_key(col)) {
        let r = s.push(x);
        assert forall|i: int, j: int|
            0 <= i < j < r.len() implies key_le(
            #[trigger] r[i].sort_key(col),
            #[trigger] r[j].sort_key(col),
        ) by {
            if j == s.len() {
                if i < s.len() - 1 {
                    lemma_key_le_trans(
                        s[i].sort_key(col),
                        s.last().sort_key(col),
                        x.sort_key(col),
                    );
                }
            }
        }
    } else {
        lemma_insert_sorted_output(s.drop_last(), x, col);
        lemma_insert_to_multiset(s.drop_last(), x, col);
        let t = spec_insert(s.drop_last(), x, col);
        let r = t.push(s.last());
        assert(spec_insert(s, x, col) == r);
        assert forall|i: int, j: int|
            0 <= i < j < r.len() implies key_le(
            #[trigger] r[i].sort_key(col),
            #[trigger] r[j].sort_key(col),
        ) by {
            if j == t.len() {
                assert(t.contains(t[i]));
                assert(t.to_multiset().count(t[i]) > 0);
                assert(s.drop_last().to_multiset().insert(x).count(t[i]) > 0);
                if t[i] == x {
                    lemma_key_le_total(s.last().sort_key(col), x.sort_key(col));
                } else {
                    assert(s.drop_last().to_multiset().count(t[i]) > 0);
                    assert(s.drop_last().contains(t[i]));
                    let m = choose|m: int|
                        0 <= m < s.drop_last().len() && s.drop_last()[m] == t[i];
                    assert(s[m] == t[i]);
                    assert(key_le(s[m].sort_key(col), s.last().sort_key(col)));
                }
            }
        }
    }
}

/// The stable sort leaves the rows ascending by the key of `col`.
pub proof fn lemma_sort_sorted_output<R: SortRow>(s: Seq<R>, col: u32)
    ensures
        sorted_by_key(spec_sort_by(s, col), col),
    decreases s.len(),
{
    if s.len() > 0 {
        lemma_sort_sorted_output(s.drop_last(), col);
        lemma_insert_sorted_output(spec_sort_by(s.drop_last(), col), s.last(), col);
    }
}

/// Sorting rows that are already ascending changes nothing.
pub proof fn lemma_sort_of_sorted<R: SortRow>(s: Seq<R>, col: u32)
    requires
        sorted_by_key(s, col),
    ensures
        spec_sort_by(s, col) =~= s,
    decreases s.len(),
{
    if s.len() == 0 {
    } else {
        let prefix = s.drop_last();
        assert(sorted_by_key(prefix, col));
        lemma_sort_of_sorted(prefix, col);
        if prefix.len() == 0 {
            assert(spec_insert(prefix, s.last(), col) =~= seq![s.last()]);
            assert(seq![s.last()] =~= s);
        } else {
            assert(key_le(prefix.last().sort_key(col), s.last().sort_key(col)));
            assert(spec_insert(prefix, s.last(), col) == prefix.push(s.last()));
            assert(prefix.push(s.last()) =~= s);
        }
    }
}

proof fn lemma_sort_of_strictly_descending<R: SortRow>(s: Seq<R>, col: u32)
    requires
        forall|i: int, j: int|
            0 <= i < j < s.len() ==> !key_le(
                #[trigger] s[i].sort_key(col),
                #[trigger] s[j].sort_key(col),
            ),
    ensures
        spec_sort_by(s, col) =~= s.reverse(),
    decreases s.len(),
{
    if s.len() == 0 {
        assert(s.reverse() =~= s);
    } else {
        let prefix = s.drop_last();
        lemma_sort_of_strictly_descending(prefix, col);
        let pr = prefix.reverse();
        assert forall|j: int|
            0 <= j < pr.len() implies !key_le(
            #[trigger] pr[j].sort_key(col),
            s.last().sort_key(col),
        ) by {
            assert(pr[j] == prefix[prefix.len() - 1 - j]);
            assert(prefix[prefix.len() - 1 - j] == s[prefix.len() - 1 - j]);
        }
        lemma_insert_position(pr, s.last(), col, 0);
        assert(spec_sort_by(s, col) == spec_insert(spec_sort_by(prefix, col), s.last(), col));
        assert(spec_sort_by(prefix, col) =~= pr);
        assert(spec_insert(pr, s.last(), col) =~= pr.subrange(0, 0) + seq![s.last()] + pr.subrange(
            0,
            pr.len() as int,
        ));
        assert(spec_insert(pr, s.last(), col) =~= s.reverse());
    }
}

/// Sorting a column, toggling the direction, and toggling it back restores
/// the first descending view, provided no two rows tie on the sort column:
/// the descending view is the reversal of the ascending stable sort, toggling
/// re-sorts the current rows ascending, and toggling again reverses the
/// re-sorted rows. With a tie the intermediate re-sort keeps the reversed
/// order of the tied rows, so the round trip is exact only for tie-free
/// columns.
pub proof fn lemma_sort_direction_round_trip<R: SortRow>(rows: Seq<R>, col: u32)
    requires
        distinct_keys(rows, col),
    ensures
        spec_sort_by(spec_sort_by(rows, col).reverse(), col) =~= spec_sort_by(rows, col),
        spec_sort_by(spec_sort_by(spec_sort_by(rows, col).reverse(), col), col).reverse()
            =~= spec_sort_by(rows, col).reverse(),
{
    broadcast use vstd::seq_lib::group_to_multiset_ensures;

    let a = spec_sort_by(rows, col);
    lemma_sort_sorted_output(rows, col);
    lemma_sort_to_multiset(rows, col);
    assert forall|i: int, j: int| 0 <= i < j < rows.len() implies rows[i] != rows[j] by {
        if rows[i] == rows[j] {
            lemma_key_le_refl(rows[i].sort_key(col));
            assert(tied(rows[i], rows[j], col));
        }
    }
    assert(rows.no_duplicates());
    rows.lemma_multiset_has_no_duplicates();
    assert forall|x: R| a.to_multiset().contains(x) implies a.to_multiset().count(x) == 1 by {
        assert(rows.to_multiset().contains(x));
    }
    a.lemma_multiset_has_no_duplicates_conv();
    assert forall|i: int, j: int| 0 <= i < j < a.len() implies !tied(
        #[trigger] a[i],
        #[trigger] a[j],
        col,
    ) by {
        assert(a[i] != a[j]);
        assert(a.contains(a[i]));
        assert(a.contains(a[j]));
        assert(a.to_multiset().count(a[i]) > 0);
        assert(a.to_multiset().count(a[j]) > 0);
        assert(rows.to_multiset().count(a[i]) > 0);
        assert(rows.to_multiset().count(a[j]) > 0);
        assert(rows.contains(a[i]));
        assert(rows.contains(a[j]));
        let m1 = choose|m: int| 0 <= m < rows.len() && rows[m] == a[i];
        let m2 = choose|m: int| 0 <= m < rows.len() && rows[m] == a[j];
        assert(m1 != m2);
        if m1 < m2 {
            assert(!tied(rows[m1], rows[m2], col));
        } else {
            assert(!tied(rows[m2], rows[m1], col));
        }
    }
    let d = a.reverse();
    assert forall|i: int, j: int| 0 <= i < j < d.len() implies !key_le(
        #[trigger] d[i].sort_key(col),
        #[trigger] d[j].sort_key(col),
    ) by {
        let n = a.len() as int;
        assert(d[i] == a[n - 1 - i]);
        assert(d[j] == a[n - 1 - j]);
        assert(key_le(a[n - 1 - j].sort_key(col), a[n - 1 - i].sort_key(col)));
        assert(!tied(a[n - 1 - j], a[n - 1 - i], col));
    }
    lemma_sort_of_strictly_descending(d, col);
    assert(d.reverse() =~= a);
    assert(spec_sort_by(d, col) =~= a);
    lemma_sort_of_sorted(a, col);
    assert(spec_sort_by(spec_sort_by(d, col), col) =~= a);
    assert(spec_sort_by(spec_sort_by(d, col), col).reverse() =~= d);
}

} // verus!
