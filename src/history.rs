//! The bounded, deduplicating, most-recent-first history of copied text.

use std::collections::VecDeque;
use vstd::prelude::*;

verus! {

/// Number of entries the history keeps.
pub const CAPACITY: usize = 10;

/// A history (most recent first) is well formed when it holds at most
/// `CAPACITY` entries and no entry twice.
pub open spec fn history_wf(h: Seq<Seq<char>>) -> bool {
    h.len() <= CAPACITY && h.no_duplicates()
}

/// The history after `content` is recorded into `h`: an entry already present
/// moves to the front; otherwise the content goes to the front and, when the
/// history is full, the oldest entry is dropped.
pub open spec fn recorded(h: Seq<Seq<char>>, content: Seq<char>) -> Seq<Seq<char>> {
    if h.contains(content) {
        seq![content] + h.remove(h.index_of(content))
    } else if h.len() >= CAPACITY {
        seq![content] + h.drop_last()
    } else {
        seq![content] + h
    }
}

/// The history after recording every value of `contents`, first to last.
pub open spec fn record_all(h: Seq<Seq<char>>, contents: Seq<Seq<char>>) -> Seq<Seq<char>>
    decreases contents.len(),
{
    if contents.len() == 0 {
        h
    } else {
        recorded(record_all(h, contents.drop_last()), contents.last())
    }
}

/// The distinct values of `s`, each where it first occurs, in the order of `s`.
pub open spec fn dedup_keep_first(s: Seq<Seq<char>>) -> Seq<Seq<char>>
    decreases s.len(),
{
    if s.len() == 0 {
        Seq::empty()
    } else {
        let d = dedup_keep_first(s.drop_last());
        if s.drop_last().contains(s.last()) {
            d
        } else {
            d.push(s.last())
        }
    }
}

/// The first `CAPACITY` values of `s` (all of them when there are fewer).
pub open spec fn first_capacity(s: Seq<Seq<char>>) -> Seq<Seq<char>> {
    if s.len() > CAPACITY {
        s.take(CAPACITY as int)
    } else {
        s
    }
}

/// `d` without its occurrence of `c`, if it has one.
spec fn without(d: Seq<Seq<char>>, c: Seq<char>) -> Seq<Seq<char>> {
    if d.contains(c) {
        d.remove(d.index_of(c))
    } else {
        d
    }
}

/// Copied text values, most recent first.
pub struct History {
    entries: VecDeque<String>,
}

impl View for History {
    type V = Seq<Seq<char>>;

    closed spec fn view(&self) -> Seq<Seq<char>> {
        self.entries@.map_values(|s: String| s@)
    }
}

impl History {
    pub open spec fn wf(&self) -> bool {
        history_wf(self@)
    }

    /// An empty history.
    pub fn new() -> (r: History)
        ensures
            r.wf(),
            r@ == Seq::<Seq<char>>::empty(),
    {
        let r = History { entries: VecDeque::with_capacity(CAPACITY) };
        assert(r@ =~= Seq::<Seq<char>>::empty());
        r
    }

    /// Number of entries.
    pub fn len(&self) -> (r: usize)
        ensures
            r == self@.len(),
    {
        self.entries.len()
    }

    /// Whether the history holds no entry.
    pub fn is_empty(&self) -> (r: bool)
        ensures
            r == (self@.len() == 0),
    {
        self.entries.len() == 0
    }

    /// The entry at `index`, counting from the most recent (0).
    pub fn get(&self, index: usize) -> (r: Option<&String>)
        ensures
            index < self@.len() ==> r is Some && r.unwrap()@ == self@[index as int],
            index >= self@.len() ==> r is None,
    {
        if index < self.entries.len() {
            Some(&self.entries[index])
        } else {
            None
        }
    }

    /// Records `content` as the most recent entry (promote on repeat, evict
    /// the oldest when full).
    pub fn record(&mut self, content: String)
        requires
            old(self).wf(),
        ensures
            final(self).wf(),
            final(self)@ == recorded(old(self)@, content@),
    {
        let ghost h = self@;
        let ghost c = content@;
        let n = self.entries.len();
        let mut i: usize = 0;
        while i < n
            invariant
                n == self.entries@.len(),
                h == self@,
                h == old(self)@,
                c == content@,
                history_wf(h),
                i <= n,
                forall|j: int| 0 <= j < i ==> h[j] != content@,
            decreases n - i,
        {
            let same = self.entries[i].eq(&content);
            if same {
                assert(h[i as int] == c);
                proof {
                    lemma_index_of_unique(h, c, i as int);
                }
                self.entries.remove(i);
                self.entries.push_front(content);
                assert(self@ =~= recorded(h, c));
                proof {
                    lemma_recorded_wf(h, c);
                }
                return;
            }
            i = i + 1;
        }
        assert(!h.contains(c));
        if n >= CAPACITY {
            self.entries.pop_back();
        }
        self.entries.push_front(content);
        assert(self@ =~= recorded(h, c));
        proof {
            lemma_recorded_wf(h, c);
        }
    }
}

/// In a history without duplicates, an entry's index is the one place it stands.
proof fn lemma_index_of_unique(h: Seq<Seq<char>>, c: Seq<char>, i: int)
    requires
        h.no_duplicates(),
        0 <= i < h.len(),
        h[i] == c,
    ensures
        h.index_of(c) == i,
{
    assert(h.contains(c));
}

/// Recording keeps a history well formed and puts the content in front.
pub proof fn lemma_recorded_wf(h: Seq<Seq<char>>, content: Seq<char>)
    requires
        history_wf(h),
    ensures
        history_wf(recorded(h, content)),
        recorded(h, content).len() > 0,
        recorded(h, content)[0] == content,
{
    let r = recorded(h, content);
    if h.contains(content) {
        let k = h.index_of(content);
        let rest = h.remove(k);
        assert(forall|j: int| 0 <= j < rest.len() ==> rest[j] != content);
    } else if h.len() >= CAPACITY {
        let rest = h.drop_last();
        assert(forall|j: int| 0 <= j < rest.len() ==> rest[j] == h[j]);
    }
    assert(r.no_duplicates());
}

/// Whatever values are recorded, and in whatever order, a well-formed history
/// stays within `CAPACITY` and never holds the same content twice.
pub proof fn lemma_record_all_wf(h: Seq<Seq<char>>, contents: Seq<Seq<char>>)
    requires
        history_wf(h),
    ensures
        history_wf(record_all(h, contents)),
    decreases contents.len(),
{
    if contents.len() > 0 {
        lemma_record_all_wf(h, contents.drop_last());
        lemma_recorded_wf(record_all(h, contents.drop_last()), contents.last());
    }
}

/// Recording content that is already present moves it to the front, keeps
/// the length, and keeps the other entries in their order.
pub proof fn lemma_record_present_promotes(h: Seq<Seq<char>>, content: Seq<char>)
    requires
        history_wf(h),
        h.contains(content),
    ensures
        recorded(h, content).len() == h.len(),
        recorded(h, content)[0] == content,
        recorded(h, content).drop_first() == h.remove(h.index_of(content)),
{
    let k = h.index_of(content);
    assert(recorded(h, content).drop_first() =~= h.remove(k));
}

/// Recording new content into a full history drops the oldest entry and
/// keeps the length at `CAPACITY`.
pub proof fn lemma_record_new_into_full_evicts(h: Seq<Seq<char>>, content: Seq<char>)
    requires
        history_wf(h),
        h.len() == CAPACITY,
        !h.contains(content),
    ensures
        recorded(h, content).len() == CAPACITY,
        recorded(h, content)[0] == content,
        recorded(h, content).drop_first() == h.drop_last(),
{
    assert(recorded(h, content).drop_first() =~= h.drop_last());
}

/// The distinct values of a sequence are distinct, and are exactly its values.
proof fn lemma_dedup_props(s: Seq<Seq<char>>)
    ensures
        dedup_keep_first(s).no_duplicates(),
        forall|y: Seq<char>| dedup_keep_first(s).contains(y) <==> s.contains(y),
    decreases s.len(),
{
    if s.len() > 0 {
        let p = s.drop_last();
        let x = s.last();
        let d = dedup_keep_first(p);
        lemma_dedup_props(p);
        assert forall|y: Seq<char>| dedup_keep_first(s).contains(y) <==> s.contains(y) by {
            if s.contains(y) {
                let j = choose|j: int| 0 <= j < s.len() && s[j] == y;
                if j < p.len() {
                    assert(p[j] == y);
                    assert(p.contains(y));
                }
            }
            if p.contains(y) {
                let j = choose|j: int| 0 <= j < p.len() && p[j] == y;
                assert(s[j] == y);
            }
            if !p.contains(x) {
                if d.contains(y) {
                    let j = choose|j: int| 0 <= j < d.len() && d[j] == y;
                    assert(d.push(x)[j] == y);
                }
                if d.push(x).contains(y) {
                    let j = choose|j: int| 0 <= j < d.len() + 1 && d.push(x)[j] == y;
                    if j < d.len() {
                        assert(d[j] == y);
                    }
                }
                assert(d.push(x)[d.len() as int] == x);
                assert(s[s.len() - 1] == x);
            }
        }
        if !p.contains(x) {
            assert(!d.contains(x));
            assert forall|i: int, j: int|
                0 <= i < d.push(x).len() && 0 <= j < d.push(x).len() && i != j implies d.push(x)[i]
                != d.push(x)[j] by {
                if i < d.len() && j < d.len() {
                } else if i < d.len() {
                    assert(d[i] == d.push(x)[i]);
                } else if j < d.len() {
                    assert(d[j] == d.push(x)[j]);
                }
            }
        }
    }
}

/// Putting a value in front of a sequence puts it in front of the distinct
/// values, and takes its later occurrence out.
proof fn lemma_dedup_prepend(c: Seq<char>, p: Seq<Seq<char>>)
    ensures
        dedup_keep_first(seq![c] + p) == seq![c] + without(dedup_keep_first(p), c),
    decreases p.len(),
{
    let s = seq![c] + p;
    if p.len() == 0 {
        assert(s.drop_last() =~= Seq::<Seq<char>>::empty());
        assert(dedup_keep_first(s.drop_last()) =~= Seq::<Seq<char>>::empty());
        assert(dedup_keep_first(s) =~= seq![c]);
        assert(seq![c] + without(dedup_keep_first(p), c) =~= seq![c]);
    } else {
        let q = p.drop_last();
        let x = p.last();
        let dq = dedup_keep_first(q);
        assert(s.drop_last() =~= seq![c] + q);
        assert(s.last() == x);
        lemma_dedup_prepend(c, q);
        lemma_dedup_props(q);
        lemma_dedup_props(seq![c] + q);
        let cq = seq![c] + q;
        assert(cq[0] == c);
        assert(cq.contains(x) <==> (x == c || q.contains(x))) by {
            if q.contains(x) {
                let j = choose|j: int| 0 <= j < q.len() && q[j] == x;
                assert(cq[j + 1] == x);
            }
            if cq.contains(x) && x != c {
                let j = choose|j: int| 0 <= j < cq.len() && cq[j] == x;
                assert(q[j - 1] == x);
            }
        }
        if x == c {
            if !q.contains(c) {
                let dp = dq.push(c);
                assert(dp[dq.len() as int] == c);
                assert(dp.no_duplicates()) by {
                    assert forall|i: int, j: int|
                        0 <= i < dp.len() && 0 <= j < dp.len() && i != j implies dp[i] != dp[j] by {
                        if i < dq.len() && j < dq.len() {
                        } else if i < dq.len() {
                            assert(dq[i] == dp[i]);
                        } else if j < dq.len() {
                            assert(dq[j] == dp[j]);
                        }
                    }
                }
                lemma_index_of_unique(dp, c, dq.len() as int);
                assert(dp.remove(dq.len() as int) =~= dq);
            }
        } else if !q.contains(x) {
            let dp = dq.push(x);
            assert(!dq.contains(x));
            assert(dp.no_duplicates()) by {
                assert forall|i: int, j: int|
                    0 <= i < dp.len() && 0 <= j < dp.len() && i != j implies dp[i] != dp[j] by {
                    if i < dq.len() && j < dq.len() {
                    } else if i < dq.len() {
                        assert(dq[i] == dp[i]);
                    } else if j < dq.len() {
                        assert(dq[j] == dp[j]);
                    }
                }
            }
            if dq.contains(c) {
                let k = dq.index_of(c);
                assert(dp[k] == c);
                lemma_index_of_unique(dp, c, k);
                assert(dp.remove(k) =~= dq.remove(k).push(x));
                assert(dp.contains(c));
            } else {
                assert(!dp.contains(c)) by {
                    if dp.contains(c) {
                        let j = choose|j: int| 0 <= j < dp.len() && dp[j] == c;
                        assert(dq[j] == c);
                    }
                }
            }
            assert(dedup_keep_first(s) =~= seq![c] + without(dedup_keep_first(p), c));
        }
    }
}

/// Recording into the first `CAPACITY` distinct values gives the first
/// `CAPACITY` distinct values with the recorded one in front.
proof fn lemma_recorded_first_capacity(d: Seq<Seq<char>>, c: Seq<char>)
    requires
        d.no_duplicates(),
    ensures
        recorded(first_capacity(d), c) == first_capacity(seq![c] + without(d, c)),
{
    let h = first_capacity(d);
    assert(forall|j: int| 0 <= j < h.len() ==> h[j] == d[j]);
    if d.contains(c) {
        let k = d.index_of(c);
        if k < h.len() {
            assert(h[k] == c);
            assert(h.no_duplicates());
            lemma_index_of_unique(h, c, k);
            assert(recorded(h, c) =~= first_capacity(seq![c] + without(d, c)));
        } else {
            assert(!h.contains(c)) by {
                if h.contains(c) {
                    let j = choose|j: int| 0 <= j < h.len() && h[j] == c;
                    assert(d[j] == c);
                }
            }
            assert(recorded(h, c) =~= first_capacity(seq![c] + without(d, c)));
        }
    } else {
        assert(!h.contains(c)) by {
            if h.contains(c) {
                let j = choose|j: int| 0 <= j < h.len() && h[j] == c;
                assert(d[j] == c);
            }
        }
        assert(recorded(h, c) =~= first_capacity(seq![c] + without(d, c)));
    }
}

/// After recording a sequence of values into an empty history, entry `i` is
/// the `i`-th distinct value counting from the most recently recorded, and
/// the history holds the first `CAPACITY` of those values.
pub proof fn lemma_record_all_newest_distinct(contents: Seq<Seq<char>>)
    ensures
        record_all(Seq::empty(), contents) == first_capacity(dedup_keep_first(contents.reverse())),
    decreases contents.len(),
{
    if contents.len() == 0 {
        assert(contents.reverse() =~= Seq::<Seq<char>>::empty());
        assert(first_capacity(dedup_keep_first(contents.reverse())) =~= Seq::<Seq<char>>::empty());
    } else {
        let p = contents.drop_last();
        let c = contents.last();
        lemma_record_all_newest_distinct(p);
        lemma_dedup_props(p.reverse());
        lemma_recorded_first_capacity(dedup_keep_first(p.reverse()), c);
        lemma_dedup_prepend(c, p.reverse());
        assert(contents.reverse() =~= seq![c] + p.reverse());
    }
}

} // verus!
