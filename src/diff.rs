use vstd::prelude::*;

verus! {

/// How one byte of a blob relates to the byte at the same index of the other blob.
#[derive(Debug, Clone, Copy, PartialEq, Eq, Structural)]
pub enum Diff {
    /// Both blobs have a byte here, and the two are equal.
    Same,
    /// Both blobs have a byte here, and the two differ.
    Different,
    /// Only this blob has a byte here: the other one is shorter.
    NoOther,
}

/// The classification of index `i` of `this`, against `other`.
pub open spec fn classify(this: Seq<u8>, other: Seq<u8>, i: int) -> Diff {
    if i < other.len() {
        if this[i] == other[i] {
            Diff::Same
        } else {
            Diff::Different
        }
    } else {
        Diff::NoOther
    }
}

/// One classification for each byte of `this`, in index order.
pub open spec fn diffs_of(this: Seq<u8>, other: Seq<u8>) -> Seq<Diff> {
    Seq::new(this.len(), |i: int| classify(this, other, i))
}

/// The pair of classification sequences for `a` and `b`.
pub open spec fn compare(a: Seq<u8>, b: Seq<u8>) -> (Seq<Diff>, Seq<Diff>) {
    (diffs_of(a, b), diffs_of(b, a))
}

/// Walks `a` and `b` in lockstep and classifies every byte of each.
pub fn get_diffs(a: &[u8], b: &[u8]) -> (r: (Vec<Diff>, Vec<Diff>))
    ensures
        (r.0@, r.1@) == compare(a@, b@),
{
    let la: usize = a.len();
    let lb: usize = b.len();
    let mut a_diff: Vec<Diff> = Vec::new();
    let mut b_diff: Vec<Diff> = Vec::new();
    let mut i: usize = 0;
    while i < la || i < lb
        invariant
            la == a@.len(),
            lb == b@.len(),
            i <= la || i <= lb,
            a_diff@ =~= diffs_of(a@, b@).take(if i < la { i as int } else { la as int }),
            b_diff@ =~= diffs_of(b@, a@).take(if i < lb { i as int } else { lb as int }),
        decreases (if la > lb { la } else { lb }) - i,
    {
        if i < la && i < lb {
            if a[i] == b[i] {
                a_diff.push(Diff::Same);
                b_diff.push(Diff::Same);
            } else {
                a_diff.push(Diff::Different);
                b_diff.push(Diff::Different);
            }
        } else if i < la {
            a_diff.push(Diff::NoOther);
        } else {
            b_diff.push(Diff::NoOther);
        }
        i = i + 1;
    }
    assert(a_diff@ =~= diffs_of(a@, b@));
    assert(b_diff@ =~= diffs_of(b@, a@));
    (a_diff, b_diff)
}

/// Each classification sequence has exactly one entry per byte of its blob.
pub proof fn lemma_lengths(a: Seq<u8>, b: Seq<u8>)
    ensures
        compare(a, b).0.len() == a.len(),
        compare(a, b).1.len() == b.len(),
{
}

/// Where both blobs have a byte, the two sides agree on whether it is `Same`
/// and on whether it is `Different`.
pub proof fn lemma_agreement_symmetric(a: Seq<u8>, b: Seq<u8>, i: int)
    requires
        0 <= i < a.len(),
        i < b.len(),
    ensures
        (compare(a, b).0[i] == Diff::Same) <==> (compare(a, b).1[i] == Diff::Same),
        (compare(a, b).0[i] == Diff::Different) <==> (compare(a, b).1[i] == Diff::Different),
{
}

/// Past the end of the shorter blob `b`, every byte of `a` is `NoOther`, and
/// `b`'s sequence has no entry there.
pub proof fn lemma_tail_no_other(a: Seq<u8>, b: Seq<u8>, i: int)
    requires
        a.len() > b.len(),
        b.len() <= i < a.len(),
    ensures
        compare(a, b).0[i] == Diff::NoOther,
        compare(a, b).1.len() <= i,
{
}

/// A blob compared with itself is `Same` everywhere, on both sides.
pub proof fn lemma_self_all_same(a: Seq<u8>)
    ensures
        forall|i: int| 0 <= i < a.len() ==> #[trigger] compare(a, a).0[i] == Diff::Same,
        forall|i: int| 0 <= i < a.len() ==> #[trigger] compare(a, a).1[i] == Diff::Same,
{
}

} // verus!
