//! The holder ledger: an amount per address, kept in ascending order of the
//! addresses' bytes so that every listing comes out in the same order.

use vstd::prelude::*;
use vstd::utf8::{encode_utf8, encode_utf8_decode_utf8};

verus! {

/// Lexicographic order on byte strings: `a` comes strictly before `b`.
pub open spec fn bytes_before(a: Seq<u8>, b: Seq<u8>) -> bool
    decreases a.len(),
{
    if b.len() == 0 {
        false
    } else if a.len() == 0 {
        true
    } else if a[0] != b[0] {
        a[0] < b[0]
    } else {
        bytes_before(a.skip(1), b.skip(1))
    }
}

/// The order of the ledger's keys: by the bytes of their UTF-8 encoding.
pub open spec fn key_before(a: Seq<char>, b: Seq<char>) -> bool {
    bytes_before(encode_utf8(a), encode_utf8(b))
}

/// A listing is sorted when its keys ascend strictly.
pub open spec fn sorted(l: Seq<(Seq<char>, u128)>) -> bool {
    forall|i: int, j: int| 0 <= i < j < l.len() ==> key_before(#[trigger] l[i].0, #[trigger] l[j].0)
}

/// Whether some entry of `l` has the key `k`.
pub open spec fn has_key(l: Seq<(Seq<char>, u128)>, k: Seq<char>) -> bool {
    exists|i: int| 0 <= i < l.len() && (#[trigger] l[i]).0 == k
}

/// A place of `l` at which the key `k` stands, where there is one.
pub open spec fn place_of(l: Seq<(Seq<char>, u128)>, k: Seq<char>) -> int {
    choose|i: int| 0 <= i < l.len() && (#[trigger] l[i]).0 == k
}

/// The map that a listing stands for.
pub open spec fn listing_map(l: Seq<(Seq<char>, u128)>) -> Map<Seq<char>, u128> {
    Map::new(|k: Seq<char>| has_key(l, k), |k: Seq<char>| l[place_of(l, k)].1)
}

/// The sum of the amounts of a listing.
pub open spec fn listing_total(l: Seq<(Seq<char>, u128)>) -> nat
    decreases l.len(),
{
    if l.len() == 0 {
        0
    } else {
        listing_total(l.drop_last()) + l.last().1 as nat
    }
}

/// The amount that a map holds for `k`, zero where it holds none.
pub open spec fn amount_of(m: Map<Seq<char>, u128>, k: Seq<char>) -> u128 {
    if m.contains_key(k) {
        m[k]
    } else {
        0
    }
}

/// No byte string comes before itself.
pub proof fn lemma_bytes_before_irreflexive(a: Seq<u8>)
    ensures
        !bytes_before(a, a),
    decreases a.len(),
{
    if a.len() > 0 {
        lemma_bytes_before_irreflexive(a.skip(1));
    }
}

/// The order of byte strings is transitive.
pub proof fn lemma_bytes_before_transitive(a: Seq<u8>, b: Seq<u8>, c: Seq<u8>)
    requires
        bytes_before(a, b),
        bytes_before(b, c),
    ensures
        bytes_before(a, c),
    decreases a.len(),
{
    if a.len() > 0 && a[0] == b[0] && b[0] == c[0] {
        lemma_bytes_before_transitive(a.skip(1), b.skip(1), c.skip(1));
    }
}

/// Two byte strings that agree on their first `n` bytes are ordered as what
/// follows those bytes.
pub proof fn lemma_bytes_before_skip(a: Seq<u8>, b: Seq<u8>, n: int)
    requires
        0 <= n <= a.len(),
        n <= b.len(),
        forall|j: int| 0 <= j < n ==> a[j] == b[j],
    ensures
        bytes_before(a, b) == bytes_before(a.skip(n), b.skip(n)),
    decreases n,
{
    if n == 0 {
        assert(a.skip(0) =~= a);
        assert(b.skip(0) =~= b);
    } else {
        lemma_bytes_before_skip(a.skip(1), b.skip(1), n - 1);
        assert(a.skip(1).skip(n - 1) =~= a.skip(n));
        assert(b.skip(1).skip(n - 1) =~= b.skip(n));
    }
}

/// No key comes before itself.
pub proof fn lemma_key_before_irreflexive(a: Seq<char>)
    ensures
        !key_before(a, a),
{
    lemma_bytes_before_irreflexive(encode_utf8(a));
}

/// The key order is transitive.
pub proof fn lemma_key_before_transitive(a: Seq<char>, b: Seq<char>, c: Seq<char>)
    requires
        key_before(a, b),
        key_before(b, c),
    ensures
        key_before(a, c),
{
    lemma_bytes_before_transitive(encode_utf8(a), encode_utf8(b), encode_utf8(c));
}

/// In a sorted listing no key occurs twice.
pub proof fn lemma_sorted_distinct(l: Seq<(Seq<char>, u128)>, i: int, j: int)
    requires
        sorted(l),
        0 <= i < l.len(),
        0 <= j < l.len(),
        l[i].0 == l[j].0,
    ensures
        i == j,
{
    lemma_key_before_irreflexive(l[i].0);
}

/// The map of a sorted listing holds each entry of the listing.
pub proof fn lemma_map_at(l: Seq<(Seq<char>, u128)>, i: int)
    requires
        sorted(l),
        0 <= i < l.len(),
    ensures
        listing_map(l).contains_key(l[i].0),
        listing_map(l)[l[i].0] == l[i].1,
{
    let k = l[i].0;
    assert(has_key(l, k));
    let c = place_of(l, k);
    lemma_sorted_distinct(l, i, c);
}

/// Putting an entry with a new key at its place in a sorted listing keeps it
/// sorted, adds the entry to the map and its amount to the total.
pub proof fn lemma_insert(l: Seq<(Seq<char>, u128)>, p: int, k: Seq<char>, v: u128)
    requires
        sorted(l),
        0 <= p <= l.len(),
        forall|j: int| 0 <= j < p ==> key_before(#[trigger] l[j].0, k),
        p < l.len() ==> key_before(k, l[p].0),
    ensures
        sorted(l.insert(p, (k, v))),
        !has_key(l, k),
        listing_map(l.insert(p, (k, v))) == listing_map(l).insert(k, v),
        listing_total(l.insert(p, (k, v))) == listing_total(l) + v,
{
    let n = l.insert(p, (k, v));
    assert forall|j: int| p <= j < l.len() implies key_before(k, #[trigger] l[j].0) by {
        if j > p {
            lemma_key_before_transitive(k, l[p].0, l[j].0);
        }
    }
    assert forall|i: int, j: int| 0 <= i < j < n.len() implies key_before(
        #[trigger] n[i].0,
        #[trigger] n[j].0,
    ) by {
        if j < p {
            assert(n[i] == l[i] && n[j] == l[j]);
        } else if j == p {
            assert(n[i] == l[i]);
        } else if i < p {
            assert(n[i] == l[i] && n[j] == l[j - 1]);
        } else if i == p {
            assert(n[j] == l[j - 1]);
        } else {
            assert(n[i] == l[i - 1] && n[j] == l[j - 1]);
        }
    }
    assert(!has_key(l, k)) by {
        if has_key(l, k) {
            let c = place_of(l, k);
            lemma_key_before_irreflexive(k);
        }
    }
    let a = listing_map(n);
    let b = listing_map(l).insert(k, v);
    assert forall|x: Seq<char>| a.contains_key(x) == b.contains_key(x) by {
        if a.contains_key(x) {
            let c = place_of(n, x);
            if c < p {
                assert(l[c].0 == x);
            } else if c > p {
                assert(l[c - 1].0 == x);
            }
        }
        if b.contains_key(x) {
            if x == k {
                assert(n[p].0 == x);
            } else {
                let c = place_of(l, x);
                if c < p {
                    assert(n[c].0 == x);
                } else {
                    assert(n[c + 1].0 == x);
                }
            }
        }
    }
    assert forall|x: Seq<char>| a.contains_key(x) implies a[x] == b[x] by {
        let c = place_of(n, x);
        lemma_map_at(n, c);
        if c < p {
            assert(l[c] == n[c]);
            lemma_map_at(l, c);
        } else if c > p {
            assert(l[c - 1] == n[c]);
            lemma_map_at(l, c - 1);
        }
    }
    assert(a =~= b);
    lemma_total_insert(l, p, (k, v));
}

/// Changing the amount of an entry of a sorted listing keeps it sorted,
/// changes that key's amount in the map and the total by the difference.
pub proof fn lemma_update(l: Seq<(Seq<char>, u128)>, p: int, v: u128)
    requires
        sorted(l),
        0 <= p < l.len(),
    ensures
        sorted(l.update(p, (l[p].0, v))),
        listing_map(l.update(p, (l[p].0, v))) == listing_map(l).insert(l[p].0, v),
        listing_total(l.update(p, (l[p].0, v))) == listing_total(l) - l[p].1 + v,
{
    let k = l[p].0;
    let n = l.update(p, (k, v));
    assert forall|i: int, j: int| 0 <= i < j < n.len() implies key_before(
        #[trigger] n[i].0,
        #[trigger] n[j].0,
    ) by {
        assert(n[i].0 == l[i].0 && n[j].0 == l[j].0);
    }
    let a = listing_map(n);
    let b = listing_map(l).insert(k, v);
    assert forall|x: Seq<char>| a.contains_key(x) == b.contains_key(x) by {
        if a.contains_key(x) {
            let c = place_of(n, x);
            assert(l[c].0 == x);
        }
        if b.contains_key(x) {
            if x == k {
                assert(n[p].0 == x);
            } else {
                let c = place_of(l, x);
                assert(n[c].0 == x);
            }
        }
    }
    assert forall|x: Seq<char>| a.contains_key(x) implies a[x] == b[x] by {
        let c = place_of(n, x);
        lemma_map_at(n, c);
        if c != p {
            assert(l[c] == n[c]);
            lemma_map_at(l, c);
            if x == k {
                lemma_sorted_distinct(l, c, p);
            }
        }
    }
    assert(a =~= b);
    lemma_total_update(l, p, (k, v));
}

/// An entry put into a listing adds its amount to the total.
pub proof fn lemma_total_insert(l: Seq<(Seq<char>, u128)>, p: int, e: (Seq<char>, u128))
    requires
        0 <= p <= l.len(),
    ensures
        listing_total(l.insert(p, e)) == listing_total(l) + e.1,
    decreases l.len(),
{
    let n = l.insert(p, e);
    if p == l.len() {
        assert(n.drop_last() =~= l);
    } else {
        lemma_total_insert(l.drop_last(), p, e);
        assert(n.drop_last() =~= l.drop_last().insert(p, e));
        assert(n.last() == l.last());
    }
}

/// An entry put in the place of another changes the total by the difference
/// of their amounts.
pub proof fn lemma_total_update(l: Seq<(Seq<char>, u128)>, p: int, e: (Seq<char>, u128))
    requires
        0 <= p < l.len(),
    ensures
        listing_total(l.update(p, e)) == listing_total(l) - l[p].1 + e.1,
    decreases l.len(),
{
    let n = l.update(p, e);
    if p == l.len() - 1 {
        assert(n.drop_last() =~= l.drop_last());
    } else {
        lemma_total_update(l.drop_last(), p, e);
        assert(n.drop_last() =~= l.drop_last().update(p, e));
        assert(n.last() == l.last());
    }
}

/// The total of the first entries of a listing is no more than the total of
/// all.
pub proof fn lemma_total_take(l: Seq<(Seq<char>, u128)>, n: int)
    requires
        0 <= n <= l.len(),
    ensures
        listing_total(l.take(n)) <= listing_total(l),
    decreases l.len(),
{
    if n == l.len() {
        assert(l.take(n) =~= l);
    } else {
        lemma_total_take(l.drop_last(), n);
        assert(l.drop_last().take(n) =~= l.take(n));
    }
}

/// No amount of a listing exceeds the listing's total.
pub proof fn lemma_total_bounds(l: Seq<(Seq<char>, u128)>, i: int)
    requires
        0 <= i < l.len(),
    ensures
        l[i].1 <= listing_total(l),
    decreases l.len(),
{
    if i < l.len() - 1 {
        lemma_total_bounds(l.drop_last(), i);
    }
}

/// No amount of a sorted listing's map exceeds the listing's total.
pub proof fn lemma_amount_bounds(l: Seq<(Seq<char>, u128)>, k: Seq<char>)
    requires
        sorted(l),
    ensures
        amount_of(listing_map(l), k) <= listing_total(l),
{
    if listing_map(l).contains_key(k) {
        let c = place_of(l, k);
        lemma_map_at(l, c);
        lemma_total_bounds(l, c);
    }
}

/// A sorted listing without its first entry is sorted and stands for the map
/// without the key of that entry.
pub proof fn lemma_map_skip(l: Seq<(Seq<char>, u128)>)
    requires
        sorted(l),
        l.len() > 0,
    ensures
        sorted(l.skip(1)),
        listing_map(l.skip(1)) == listing_map(l).remove(l[0].0),
{
    let t = l.skip(1);
    assert forall|i: int, j: int| 0 <= i < j < t.len() implies key_before(
        #[trigger] t[i].0,
        #[trigger] t[j].0,
    ) by {
        assert(t[i] == l[i + 1] && t[j] == l[j + 1]);
    }
    let a = listing_map(t);
    let b = listing_map(l).remove(l[0].0);
    assert forall|x: Seq<char>| a.contains_key(x) == b.contains_key(x) by {
        if a.contains_key(x) {
            let c = place_of(t, x);
            assert(l[c + 1].0 == x);
            if x == l[0].0 {
                lemma_sorted_distinct(l, c + 1, 0);
            }
        }
        if b.contains_key(x) {
            let c = place_of(l, x);
            assert(t[c - 1].0 == x);
        }
    }
    assert forall|x: Seq<char>| a.contains_key(x) implies a[x] == b[x] by {
        let c = place_of(t, x);
        lemma_map_at(t, c);
        assert(t[c] == l[c + 1]);
        lemma_map_at(l, c + 1);
    }
    assert(a =~= b);
}

/// The order of a listing is fixed by what the listing holds: two sorted
/// listings that stand for the same map are the same listing.
pub proof fn lemma_listing_is_determined(a: Seq<(Seq<char>, u128)>, b: Seq<(Seq<char>, u128)>)
    requires
        sorted(a),
        sorted(b),
        listing_map(a) == listing_map(b),
    ensures
        a == b,
    decreases a.len(),
{
    if a.len() == 0 {
        if b.len() > 0 {
            lemma_map_at(b, 0);
            assert(has_key(a, b[0].0));
        }
        assert(a =~= b);
    } else {
        lemma_map_at(a, 0);
        assert(has_key(b, a[0].0));
        let j = place_of(b, a[0].0);
        lemma_map_at(b, 0);
        assert(has_key(a, b[0].0));
        let i = place_of(a, b[0].0);
        if j > 0 {
            if i > 0 {
                lemma_key_before_transitive(a[0].0, a[i].0, b[j].0);
            }
            lemma_key_before_irreflexive(a[0].0);
        }
        lemma_map_at(b, j);
        assert(a[0] == b[0]);
        lemma_map_skip(a);
        lemma_map_skip(b);
        lemma_listing_is_determined(a.skip(1), b.skip(1));
        assert(a =~= seq![a[0]] + a.skip(1));
        assert(b =~= seq![b[0]] + b.skip(1));
    }
}

/// The listing of a map: its entries in ascending order of their keys.
pub open spec fn sorted_listing(m: Map<Seq<char>, u128>) -> Seq<(Seq<char>, u128)> {
    choose|l: Seq<(Seq<char>, u128)>| sorted(l) && listing_map(l) == m
}

/// A sorted listing is the listing of the map that it stands for.
pub proof fn lemma_sorted_listing(l: Seq<(Seq<char>, u128)>)
    requires
        sorted(l),
    ensures
        sorted_listing(listing_map(l)) == l,
{
    let c = sorted_listing(listing_map(l));
    assert(sorted(l) && listing_map(l) == listing_map(l));
    lemma_listing_is_determined(c, l);
}

/// How one key stands to another.
#[derive(Clone, Copy, Debug, PartialEq, Eq, Structural)]
pub enum Rank {
    Before,
    Same,
    After,
}

/// Compares two byte strings lexicographically.
fn rank_bytes(x: &[u8], y: &[u8]) -> (r: Rank)
    ensures
        r == Rank::Before <==> bytes_before(x@, y@),
        r == Rank::Same <==> x@ == y@,
        r == Rank::After <==> bytes_before(y@, x@),
{
    let mut i: usize = 0;
    while i < x.len() && i < y.len()
        invariant
            i <= x@.len(),
            i <= y@.len(),
            forall|j: int| 0 <= j < i ==> x@[j] == y@[j],
        decreases x@.len() - i,
    {
        if x[i] != y[i] {
            proof {
                lemma_bytes_before_skip(x@, y@, i as int);
                lemma_bytes_before_skip(y@, x@, i as int);
                assert(x@.skip(i as int)[0] == x@[i as int]);
                assert(y@.skip(i as int)[0] == y@[i as int]);
            }
            if x[i] < y[i] {
                return Rank::Before;
            } else {
                return Rank::After;
            }
        }
        i += 1;
    }
    proof {
        lemma_bytes_before_skip(x@, y@, i as int);
        lemma_bytes_before_skip(y@, x@, i as int);
        lemma_bytes_before_irreflexive(x@);
    }
    if x.len() < y.len() {
        Rank::Before
    } else if x.len() > y.len() {
        Rank::After
    } else {
        assert(x@ =~= y@);
        Rank::Same
    }
}

/// Compares two keys by their bytes.
pub fn rank(a: &str, b: &str) -> (r: Rank)
    ensures
        r == Rank::Before <==> key_before(a@, b@),
        r == Rank::Same <==> a@ == b@,
        r == Rank::After <==> key_before(b@, a@),
{
    proof {
        encode_utf8_decode_utf8(a@);
        encode_utf8_decode_utf8(b@);
    }
    rank_bytes(a.as_bytes(), b.as_bytes())
}

/// One line of the ledger.
#[derive(Debug, Clone, PartialEq, Eq)]
pub struct Entry {
    pub address: String,
    pub amount: u128,
}

/// Amounts by address.
#[derive(Debug, Clone, PartialEq, Eq)]
pub struct Ledger {
    entries: Vec<Entry>,
}

impl Ledger {
    /// The entries in the order in which the ledger lists them.
    pub closed spec fn listing(&self) -> Seq<(Seq<char>, u128)> {
        Seq::new(
            self.entries@.len(),
            |i: int| (self.entries@[i].address@, self.entries@[i].amount),
        )
    }

    /// The ledger's invariant: its listing ascends strictly by address.
    pub open spec fn wf(&self) -> bool {
        sorted(self.listing())
    }

    /// The amount of each address that has an entry.
    pub open spec fn view(&self) -> Map<Seq<char>, u128> {
        listing_map(self.listing())
    }

    /// The sum of all amounts.
    pub open spec fn total(&self) -> nat {
        listing_total(self.listing())
    }

    /// The amount of `address`, zero where it has no entry.
    pub open spec fn amount(&self, address: Seq<char>) -> u128 {
        amount_of(self@, address)
    }

    /// Two ledgers that hold the same amounts for the same addresses list
    /// them in the same order.
    pub proof fn lemma_listing_is_determined(self, other: Ledger)
        requires
            self.wf(),
            other.wf(),
            self@ == other@,
        ensures
            self.listing() == other.listing(),
    {
        lemma_listing_is_determined(self.listing(), other.listing());
    }

    /// A ledger lists what it holds in ascending order of the addresses.
    pub proof fn lemma_listing_is_sorted(self)
        requires
            self.wf(),
        ensures
            self.listing() == sorted_listing(self@),
    {
        lemma_sorted_listing(self.listing());
    }

    /// The listing of a ledger ascends strictly by address, so no address is
    /// listed twice.
    pub proof fn lemma_listing_ascends(self, i: int, j: int)
        requires
            self.wf(),
            0 <= i < j < self.listing().len(),
        ensures
            key_before(self.listing()[i].0, self.listing()[j].0),
            self.listing()[i].0 != self.listing()[j].0,
    {
        lemma_key_before_irreflexive(self.listing()[i].0);
    }

    /// A ledger without entries.
    pub fn new() -> (r: Ledger)
        ensures
            r.wf(),
            r.listing() == Seq::<(Seq<char>, u128)>::empty(),
            r@ == Map::<Seq<char>, u128>::empty(),
            r.total() == 0,
    {
        let r = Ledger { entries: Vec::new() };
        assert(r.listing() =~= Seq::<(Seq<char>, u128)>::empty());
        assert(r@ =~= Map::<Seq<char>, u128>::empty());
        r
    }

    /// The number of entries.
    pub fn len(&self) -> (n: usize)
        ensures
            n == self.listing().len(),
    {
        self.entries.len()
    }

    /// The entry at place `i` of the listing.
    pub fn entry(&self, i: usize) -> (e: &Entry)
        requires
            i < self.listing().len(),
        ensures
            (e.address@, e.amount) == self.listing()[i as int],
    {
        &self.entries[i]
    }

    /// The amount that `address` has an entry for.
    pub fn get(&self, address: &str) -> (r: Option<u128>)
        requires
            self.wf(),
        ensures
            r == if self@.contains_key(address@) {
                Some(self@[address@])
            } else {
                None
            },
    {
        let mut i: usize = 0;
        while i < self.entries.len()
            invariant
                i <= self.listing().len(),
                self.listing().len() == self.entries@.len(),
                self.wf(),
                forall|j: int| 0 <= j < i ==> (#[trigger] self.listing()[j]).0 != address@,
            decreases self.entries@.len() - i,
        {
            if rank(self.entries[i].address.as_str(), address) == Rank::Same {
                proof {
                    lemma_map_at(self.listing(), i as int);
                }
                return Some(self.entries[i].amount);
            }
            i += 1;
        }
        None
    }

    /// Sets the amount of `address`, with a new entry where it had none.
    pub fn set(&mut self, address: &str, amount: u128)
        requires
            old(self).wf(),
        ensures
            final(self).wf(),
            final(self)@ == old(self)@.insert(address@, amount),
            final(self).total() == old(self).total() - old(self).amount(address@) + amount,
    {
        let mut i: usize = 0;
        while i < self.entries.len() && rank(self.entries[i].address.as_str(), address)
            == Rank::Before
            invariant
                i <= self.listing().len(),
                self.listing().len() == self.entries@.len(),
                forall|j: int| 0 <= j < i ==> key_before(#[trigger] self.listing()[j].0, address@),
            decreases self.entries@.len() - i,
        {
            i += 1;
        }
        let ghost before = self.listing();
        let key = address.to_owned();
        if i < self.entries.len() && rank(self.entries[i].address.as_str(), address) == Rank::Same {
            proof {
                lemma_update(before, i as int, amount);
                lemma_map_at(before, i as int);
            }
            self.entries.set(i, Entry { address: key, amount });
            assert(self.listing() =~= before.update(i as int, (address@, amount)));
        } else {
            proof {
                if i < self.entries.len() {
                    assert(before[i as int].0 == self.entries@[i as int].address@);
                }
                lemma_insert(before, i as int, address@, amount);
            }
            self.entries.insert(i, Entry { address: key, amount });
            assert(self.listing() =~= before.insert(i as int, (address@, amount)));
        }
    }
}

} // verus!
