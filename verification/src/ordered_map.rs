//! A map that keeps its entries in the order of their keys.
//!
//! What `BTreeMap` does is specified for keys whose `Ord` is, and that of `String` is
//! not. This map is proved for text as it is for numbers.

use crate::text::chars_of;
use crate::model::FaithfulClone;
use vstd::prelude::*;

verus! {

/// Where one key stands relative to another.
#[derive(Debug, Clone, Copy)]
pub enum KeyPosition {
    Before,
    Same,
    After,
}

/// Keys with a total order over their models.
pub trait OrderedKey: DeepView + Sized {
    /// `a` comes strictly before `b`.
    spec fn before(a: Self::V, b: Self::V) -> bool;

    proof fn before_is_strict(a: Self::V, b: Self::V)
        ensures
            Self::before(a, b) ==> a != b && !Self::before(b, a),
    ;

    proof fn before_is_transitive(a: Self::V, b: Self::V, c: Self::V)
        ensures
            Self::before(a, b) && Self::before(b, c) ==> Self::before(a, c),
    ;

    proof fn before_is_total(a: Self::V, b: Self::V)
        ensures
            a == b || Self::before(a, b) || Self::before(b, a),
    ;

    /// The position of `self` relative to `other`.
    fn position(&self, other: &Self) -> (position: KeyPosition)
        ensures
            position is Before <==> Self::before(self.deep_view(), other.deep_view()),
            position is Same <==> self.deep_view() == other.deep_view(),
            position is After <==> Self::before(other.deep_view(), self.deep_view()),
    ;
}

impl OrderedKey for u64 {
    open spec fn before(a: u64, b: u64) -> bool {
        a < b
    }

    proof fn before_is_strict(a: u64, b: u64) {
    }

    proof fn before_is_transitive(a: u64, b: u64, c: u64) {
    }

    proof fn before_is_total(a: u64, b: u64) {
    }

    fn position(&self, other: &Self) -> (position: KeyPosition) {
        if *self < *other {
            KeyPosition::Before
        } else if *self == *other {
            KeyPosition::Same
        } else {
            KeyPosition::After
        }
    }
}

/// `a` and `b` agree on their first `n` characters.
pub open spec fn agree_up_to(a: Seq<char>, b: Seq<char>, n: int) -> bool {
    &&& 0 <= n <= a.len()
    &&& n <= b.len()
    &&& forall|j: int| 0 <= j < n ==> a[j] == b[j]
}

/// `a` precedes `b` as text: at the first place where they differ `a` has the
/// smaller character, or `a` ends there.
pub open spec fn text_before(a: Seq<char>, b: Seq<char>) -> bool {
    exists|n: int|
        #[trigger] agree_up_to(a, b, n) && n < b.len() && (n == a.len() || (a[n] as int) < (
        b[n] as int))
}

impl OrderedKey for String {
    open spec fn before(a: Seq<char>, b: Seq<char>) -> bool {
        text_before(a, b)
    }

    proof fn before_is_strict(a: Seq<char>, b: Seq<char>) {
        if text_before(a, b) {
            let n = choose|n: int|
                #[trigger] agree_up_to(a, b, n) && n < b.len() && (n == a.len() || (a[n] as int) < (
                b[n] as int));
            if text_before(b, a) {
                let m = choose|m: int|
                    #[trigger] agree_up_to(b, a, m) && m < a.len() && (m == b.len() || (b[m] as int)
                        < (a[m] as int));
                if n < m {
                    assert(b[n] == a[n]);
                } else if m < n {
                    assert(a[m] == b[m]);
                }
            }
        }
    }

    proof fn before_is_transitive(a: Seq<char>, b: Seq<char>, c: Seq<char>) {
        if text_before(a, b) && text_before(b, c) {
            let n = choose|n: int|
                #[trigger] agree_up_to(a, b, n) && n < b.len() && (n == a.len() || (a[n] as int) < (
                b[n] as int));
            let m = choose|m: int|
                #[trigger] agree_up_to(b, c, m) && m < c.len() && (m == b.len() || (b[m] as int) < (
                c[m] as int));
            let first = if n < m {
                n
            } else {
                m
            };
            assert forall|j: int| 0 <= j < first implies a[j] == c[j] by {
                assert(a[j] == b[j] && b[j] == c[j]);
            }
            assert(agree_up_to(a, c, first));
            if n < m {
                assert(b[n] == c[n]);
            } else if m < n {
                assert(a[m] == b[m]);
            }
        }
    }

    proof fn before_is_total(a: Seq<char>, b: Seq<char>) {
        lemma_text_order_is_total(a, b, 0);
    }

    fn position(&self, other: &Self) -> (position: KeyPosition) {
        let left = chars_of(self.as_str());
        let right = chars_of(other.as_str());
        let ghost a = self@;
        let ghost b = other@;
        proof {
            Self::before_is_strict(a, b);
            Self::before_is_strict(b, a);
        }
        let mut i: usize = 0;
        while i < left.len() && i < right.len()
            invariant
                left@ == a,
                right@ == b,
                a == self@,
                b == other@,
                agree_up_to(a, b, i as int),
                text_before(a, b) ==> a != b && !text_before(b, a),
                text_before(b, a) ==> a != b && !text_before(a, b),
            decreases left.len() - i,
        {
            let l: char = left[i];
            let r: char = right[i];
            if l != r {
                assert(agree_up_to(b, a, i as int));
                if l < r {
                    return KeyPosition::Before;
                } else {
                    return KeyPosition::After;
                }
            }
            i += 1;
        }
        assert(agree_up_to(b, a, i as int));
        if i < right.len() {
            KeyPosition::Before
        } else if i < left.len() {
            KeyPosition::After
        } else {
            assert(a =~= b);
            KeyPosition::Same
        }
    }
}

proof fn lemma_text_order_is_total(a: Seq<char>, b: Seq<char>, n: int)
    requires
        agree_up_to(a, b, n),
    ensures
        a == b || text_before(a, b) || text_before(b, a),
    decreases a.len() - n,
{
    assert(agree_up_to(b, a, n));
    if n < a.len() && n < b.len() && a[n] == b[n] {
        lemma_text_order_is_total(a, b, n + 1);
    } else if n == a.len() && n == b.len() {
        assert(a =~= b);
    }
}

/// The keys of `entries` are strictly increasing.
pub open spec fn in_key_order<K: OrderedKey, W>(entries: Seq<(K::V, W)>) -> bool {
    forall|i: int, j: int|
        0 <= i < j < entries.len() ==> K::before((#[trigger] entries[i]).0, (#[trigger] entries[j]).0)
}

/// `p` splits `entries` into those with a key before `key` and the others.
pub open spec fn splits<K: OrderedKey, W>(entries: Seq<(K::V, W)>, key: K::V, p: int) -> bool {
    &&& 0 <= p <= entries.len()
    &&& forall|j: int| 0 <= j < p ==> K::before((#[trigger] entries[j]).0, key)
    &&& forall|j: int| p <= j < entries.len() ==> !K::before((#[trigger] entries[j]).0, key)
}

/// The place in `entries` where `key` stands or belongs.
pub open spec fn slot<K: OrderedKey, W>(entries: Seq<(K::V, W)>, key: K::V) -> int {
    choose|p: int| splits::<K, W>(entries, key, p)
}

/// `key` has an entry.
pub open spec fn has_key<K: OrderedKey, W>(entries: Seq<(K::V, W)>, key: K::V) -> bool {
    let p = slot::<K, W>(entries, key);
    0 <= p < entries.len() && entries[p].0 == key
}

/// What `key` maps to.
pub open spec fn lookup<K: OrderedKey, W>(entries: Seq<(K::V, W)>, key: K::V) -> Option<W> {
    if has_key::<K, W>(entries, key) {
        Some(entries[slot::<K, W>(entries, key)].1)
    } else {
        None
    }
}

/// `entries` with `key` mapped to `value`.
pub open spec fn with_entry<K: OrderedKey, W>(
    entries: Seq<(K::V, W)>,
    key: K::V,
    value: W,
) -> Seq<(K::V, W)> {
    let p = slot::<K, W>(entries, key);
    if has_key::<K, W>(entries, key) {
        entries.update(p, (key, value))
    } else {
        entries.insert(p, (key, value))
    }
}

/// `entries` without `key`.
pub open spec fn without_entry<K: OrderedKey, W>(
    entries: Seq<(K::V, W)>,
    key: K::V,
) -> Seq<(K::V, W)> {
    if has_key::<K, W>(entries, key) {
        entries.remove(slot::<K, W>(entries, key))
    } else {
        entries
    }
}

/// There is only one place that splits the entries.
pub proof fn slot_is_unique<K: OrderedKey, W>(entries: Seq<(K::V, W)>, key: K::V, p: int)
    requires
        splits::<K, W>(entries, key, p),
    ensures
        slot::<K, W>(entries, key) == p,
{
    let q = slot::<K, W>(entries, key);
    assert(splits::<K, W>(entries, key, q));
    if p < q {
        assert(K::before(entries[p].0, key));
    } else if q < p {
        assert(K::before(entries[q].0, key));
    }
}

/// In ordered entries every key has a place.
pub proof fn slot_exists<K: OrderedKey, W>(entries: Seq<(K::V, W)>, key: K::V)
    requires
        in_key_order::<K, W>(entries),
    ensures
        splits::<K, W>(entries, key, slot::<K, W>(entries, key)),
{
    lemma_split_from::<K, W>(entries, key, 0);
}

proof fn lemma_split_from<K: OrderedKey, W>(entries: Seq<(K::V, W)>, key: K::V, p: int)
    requires
        in_key_order::<K, W>(entries),
        0 <= p <= entries.len(),
        forall|j: int| 0 <= j < p ==> K::before((#[trigger] entries[j]).0, key),
    ensures
        exists|q: int| splits::<K, W>(entries, key, q),
    decreases entries.len() - p,
{
    if p < entries.len() && K::before(entries[p].0, key) {
        lemma_split_from::<K, W>(entries, key, p + 1);
    } else {
        assert forall|j: int| p <= j < entries.len() implies !K::before(
            (#[trigger] entries[j]).0,
            key,
        ) by {
            if j > p {
                K::before_is_transitive(entries[p].0, entries[j].0, key);
            }
        }
        assert(splits::<K, W>(entries, key, p));
    }
}

/// A key of ordered entries has an entry exactly where some entry carries it.
pub proof fn has_key_means_present<K: OrderedKey, W>(entries: Seq<(K::V, W)>, key: K::V)
    requires
        in_key_order::<K, W>(entries),
    ensures
        has_key::<K, W>(entries, key) <==> exists|i: int|
            0 <= i < entries.len() && (#[trigger] entries[i]).0 == key,
{
    slot_exists::<K, W>(entries, key);
    if exists|i: int| 0 <= i < entries.len() && (#[trigger] entries[i]).0 == key {
        let i = choose|i: int| 0 <= i < entries.len() && (#[trigger] entries[i]).0 == key;
        lemma_slot_of_entry::<K, W>(entries, i);
    }
}

/// The slot of an entry's own key is where the entry stands.
pub proof fn lemma_slot_of_entry<K: OrderedKey, W>(entries: Seq<(K::V, W)>, i: int)
    requires
        in_key_order::<K, W>(entries),
        0 <= i < entries.len(),
    ensures
        slot::<K, W>(entries, entries[i].0) == i,
        lookup::<K, W>(entries, entries[i].0) == Some(entries[i].1),
{
    let key = entries[i].0;
    assert forall|j: int| i <= j < entries.len() implies !K::before(
        (#[trigger] entries[j]).0,
        key,
    ) by {
        K::before_is_strict(key, entries[j].0);
        K::before_is_strict(key, key);
    }
    slot_is_unique::<K, W>(entries, key, i);
}

/// Setting an entry keeps the order, is read back, and leaves the others.
pub proof fn with_entry_is_read_back<K: OrderedKey, W>(
    entries: Seq<(K::V, W)>,
    key: K::V,
    value: W,
)
    requires
        in_key_order::<K, W>(entries),
    ensures
        in_key_order::<K, W>(with_entry::<K, W>(entries, key, value)),
        lookup::<K, W>(with_entry::<K, W>(entries, key, value), key) == Some(value),
        forall|other: K::V|
            other != key ==> lookup::<K, W>(with_entry::<K, W>(entries, key, value), other)
                == #[trigger] lookup::<K, W>(entries, other),
{
    let after = with_entry::<K, W>(entries, key, value);
    let p = slot::<K, W>(entries, key);
    slot_exists::<K, W>(entries, key);
    if has_key::<K, W>(entries, key) {
        assert(after[p] == (key, value));
        assert(in_key_order::<K, W>(after));
    } else {
        assert forall|i: int, j: int| 0 <= i < j < after.len() implies K::before(
            (#[trigger] after[i]).0,
            (#[trigger] after[j]).0,
        ) by {
            if i < p && j == p {
                assert(after[i] == entries[i]);
            } else if i == p {
                assert(after[j] == entries[j - 1]);
                K::before_is_total(key, entries[j - 1].0);
                K::before_is_total(key, entries[p].0);
                if j - 1 > p {
                    K::before_is_transitive(key, entries[p].0, entries[j - 1].0);
                }
            } else if i < p && j > p {
                assert(after[i] == entries[i] && after[j] == entries[j - 1]);
            } else if i > p {
                assert(after[i] == entries[i - 1] && after[j] == entries[j - 1]);
            } else {
                assert(after[i] == entries[i] && after[j] == entries[j]);
            }
        }
    }
    assert(after[p] == (key, value));
    lemma_slot_of_entry::<K, W>(after, p);
    assert forall|other: K::V| other != key implies lookup::<K, W>(after, other)
        == #[trigger] lookup::<K, W>(entries, other) by {
        has_key_means_present::<K, W>(entries, other);
        has_key_means_present::<K, W>(after, other);
        if has_key::<K, W>(entries, other) {
            let i = slot::<K, W>(entries, other);
            let k = if has_key::<K, W>(entries, key) || i < p {
                i
            } else {
                i + 1
            };
            assert(after[k] == entries[i]);
            lemma_slot_of_entry::<K, W>(after, k);
        } else if has_key::<K, W>(after, other) {
            let k = slot::<K, W>(after, other);
            let i = if has_key::<K, W>(entries, key) || k < p {
                k
            } else {
                k - 1
            };
            assert(after[k] == entries[i]);
            lemma_slot_of_entry::<K, W>(entries, i);
        }
    }
}

/// Removing an entry keeps the order, forgets the key, and leaves the others.
pub proof fn without_entry_is_forgotten<K: OrderedKey, W>(entries: Seq<(K::V, W)>, key: K::V)
    requires
        in_key_order::<K, W>(entries),
    ensures
        in_key_order::<K, W>(without_entry::<K, W>(entries, key)),
        lookup::<K, W>(without_entry::<K, W>(entries, key), key) is None,
        forall|other: K::V|
            other != key ==> lookup::<K, W>(without_entry::<K, W>(entries, key), other)
                == #[trigger] lookup::<K, W>(entries, other),
{
    let after = without_entry::<K, W>(entries, key);
    let p = slot::<K, W>(entries, key);
    slot_exists::<K, W>(entries, key);
    let present = has_key::<K, W>(entries, key);
    assert forall|i: int, j: int| 0 <= i < j < after.len() implies K::before(
        (#[trigger] after[i]).0,
        (#[trigger] after[j]).0,
    ) by {
        let a = if present && i >= p {
            i + 1
        } else {
            i
        };
        let b = if present && j >= p {
            j + 1
        } else {
            j
        };
        assert(after[i] == entries[a] && after[j] == entries[b]);
    }
    has_key_means_present::<K, W>(after, key);
    if has_key::<K, W>(after, key) {
        let i = slot::<K, W>(after, key);
        let a = if present && i >= p {
            i + 1
        } else {
            i
        };
        assert(after[i] == entries[a]);
        lemma_slot_of_entry::<K, W>(entries, a);
    }
    assert forall|other: K::V| other != key implies lookup::<K, W>(after, other)
        == #[trigger] lookup::<K, W>(entries, other) by {
        has_key_means_present::<K, W>(entries, other);
        has_key_means_present::<K, W>(after, other);
        if has_key::<K, W>(entries, other) {
            let i = slot::<K, W>(entries, other);
            let k = if present && i > p {
                i - 1
            } else {
                i
            };
            assert(after[k] == entries[i]);
            lemma_slot_of_entry::<K, W>(after, k);
        } else if has_key::<K, W>(after, other) {
            let k = slot::<K, W>(after, other);
            let i = if present && k >= p {
                k + 1
            } else {
                k
            };
            assert(after[k] == entries[i]);
            lemma_slot_of_entry::<K, W>(entries, i);
        }
    }
}

/// A map with its entries in key order.
#[derive(Debug, PartialEq)]
pub struct OrderedMap<K: OrderedKey, T> {
    entries: Vec<(K, T)>,
}

impl<K: OrderedKey, T: DeepView> DeepView for OrderedMap<K, T> {
    type V = Seq<(K::V, T::V)>;

    closed spec fn deep_view(&self) -> Seq<(K::V, T::V)> {
        Seq::new(
            self.entries@.len(),
            |i: int| (self.entries@[i].0.deep_view(), self.entries@[i].1.deep_view()),
        )
    }
}

impl<K: OrderedKey, T> OrderedMap<K, T> {
    #[verifier::type_invariant]
    spec fn ordered(self) -> bool {
        forall|i: int, j: int|
            0 <= i < j < self.entries@.len() ==> K::before(
                (#[trigger] self.entries@[i]).0.deep_view(),
                (#[trigger] self.entries@[j]).0.deep_view(),
            )
    }
}

impl<K: OrderedKey, T: DeepView> OrderedMap<K, T> {
    /// The empty map.
    pub fn new() -> (map: Self)
        ensures
            map.deep_view() == Seq::<(K::V, T::V)>::empty(),
    {
        let map = OrderedMap { entries: Vec::new() };
        assert(map.deep_view() =~= Seq::<(K::V, T::V)>::empty());
        map
    }

    /// The entries of an executable map are in key order.
    pub fn keeps_order(&self)
        ensures
            in_key_order::<K, T::V>(self.deep_view()),
    {
        proof {
            use_type_invariant(self);
        }
    }

    fn find(entries: &Vec<(K, T)>, key: &K, Ghost(model): Ghost<Seq<(K::V, T::V)>>) -> (p: usize)
        requires
            model == Seq::new(
                entries@.len(),
                |i: int| (entries@[i].0.deep_view(), entries@[i].1.deep_view()),
            ),
            in_key_order::<K, T::V>(model),
        ensures
            p == slot::<K, T::V>(model, key.deep_view()),
            p <= entries@.len(),
            splits::<K, T::V>(model, key.deep_view(), p as int),
    {
        proof {
            slot_exists::<K, T::V>(model, key.deep_view());
        }
        let mut p: usize = 0;
        while p < entries.len()
            invariant
                p <= entries@.len(),
                model == Seq::new(
                    entries@.len(),
                    |i: int| (entries@[i].0.deep_view(), entries@[i].1.deep_view()),
                ),
                p <= slot::<K, T::V>(model, key.deep_view()),
                splits::<K, T::V>(
                    model,
                    key.deep_view(),
                    slot::<K, T::V>(model, key.deep_view()),
                ),
            decreases entries@.len() - p,
        {
            proof {
                assert(model[p as int].0 == entries@[p as int].0.deep_view());
            }
            match entries[p].0.position(key) {
                KeyPosition::Before => {
                    p += 1;
                },
                _ => {
                    return p;
                },
            }
        }
        p
    }

    /// The number of entries.
    pub fn len(&self) -> (len: usize)
        ensures
            len == self.deep_view().len(),
    {
        self.entries.len()
    }

    /// The value that `key` maps to.
    pub fn get(&self, key: &K) -> (value: Option<&T>)
        ensures
            value is Some <==> lookup::<K, T::V>(self.deep_view(), key.deep_view()) is Some,
            value is Some ==> lookup::<K, T::V>(self.deep_view(), key.deep_view()) == Some(
                value->0.deep_view(),
            ),
    {
        proof {
            use_type_invariant(self);
        }
        let p = Self::find(&self.entries, key, Ghost(self.deep_view()));
        if p < self.entries.len() {
            proof {
                assert(self.deep_view()[p as int].0 == self.entries@[p as int].0.deep_view());
            }
            match self.entries[p].0.position(key) {
                KeyPosition::Same => Some(&self.entries[p].1),
                _ => None,
            }
        } else {
            None
        }
    }

    /// Whether `key` has an entry.
    pub fn contains_key(&self, key: &K) -> (present: bool)
        ensures
            present == has_key::<K, T::V>(self.deep_view(), key.deep_view()),
    {
        self.get(key).is_some()
    }

    /// The key of the entry at `index`.
    pub fn key_at(&self, index: usize) -> (key: &K)
        requires
            index < self.deep_view().len(),
        ensures
            key.deep_view() == self.deep_view()[index as int].0,
    {
        &self.entries[index].0
    }

    /// The value of the entry at `index`.
    pub fn value_at(&self, index: usize) -> (value: &T)
        requires
            index < self.deep_view().len(),
        ensures
            value.deep_view() == self.deep_view()[index as int].1,
    {
        &self.entries[index].1
    }

    /// Map `key` to `value`.
    pub fn insert(&mut self, key: K, value: T)
        ensures
            final(self).deep_view() == with_entry::<K, T::V>(
                old(self).deep_view(),
                key.deep_view(),
                value.deep_view(),
            ),
    {
        proof {
            use_type_invariant(&*self);
            with_entry_is_read_back::<K, T::V>(
                self.deep_view(),
                key.deep_view(),
                value.deep_view(),
            );
        }
        let ghost before = self.deep_view();
        let ghost after = with_entry::<K, T::V>(before, key.deep_view(), value.deep_view());
        let mut entries: Vec<(K, T)> = Vec::new();
        std::mem::swap(&mut entries, &mut self.entries);
        let p = Self::find(&entries, &key, Ghost(before));
        let mut replace = false;
        if p < entries.len() {
            proof {
                assert(before[p as int].0 == entries@[p as int].0.deep_view());
            }
            match entries[p].0.position(&key) {
                KeyPosition::Same => {
                    replace = true;
                },
                _ => {},
            }
        }
        if replace {
            entries.remove(p);
        }
        entries.insert(p, (key, value));
        assert(Seq::new(
            entries@.len(),
            |i: int| (entries@[i].0.deep_view(), entries@[i].1.deep_view()),
        ) =~= after);
        proof {
            assert forall|i: int, j: int| 0 <= i < j < entries@.len() implies K::before(
                (#[trigger] entries@[i]).0.deep_view(),
                (#[trigger] entries@[j]).0.deep_view(),
            ) by {
                assert(after[i].0 == entries@[i].0.deep_view());
                assert(after[j].0 == entries@[j].0.deep_view());
            }
        }
        self.entries = entries;
    }

    /// Take the entry of `key` out.
    pub fn remove(&mut self, key: &K) -> (removed: Option<T>)
        ensures
            final(self).deep_view() == without_entry::<K, T::V>(
                old(self).deep_view(),
                key.deep_view(),
            ),
            removed is Some <==> lookup::<K, T::V>(old(self).deep_view(), key.deep_view()) is Some,
            removed is Some ==> lookup::<K, T::V>(old(self).deep_view(), key.deep_view()) == Some(
                removed->0.deep_view(),
            ),
    {
        proof {
            use_type_invariant(&*self);
            without_entry_is_forgotten::<K, T::V>(self.deep_view(), key.deep_view());
        }
        let ghost before = self.deep_view();
        let ghost after = without_entry::<K, T::V>(before, key.deep_view());
        let mut entries: Vec<(K, T)> = Vec::new();
        std::mem::swap(&mut entries, &mut self.entries);
        let p = Self::find(&entries, key, Ghost(before));
        let mut removed: Option<T> = None;
        let mut present = false;
        if p < entries.len() {
            proof {
                assert(before[p as int].0 == entries@[p as int].0.deep_view());
            }
            match entries[p].0.position(key) {
                KeyPosition::Same => {
                    present = true;
                },
                _ => {},
            }
        }
        if present {
            let (_, value) = entries.remove(p);
            removed = Some(value);
        }
        assert(Seq::new(
            entries@.len(),
            |i: int| (entries@[i].0.deep_view(), entries@[i].1.deep_view()),
        ) =~= after);
        proof {
            assert forall|i: int, j: int| 0 <= i < j < entries@.len() implies K::before(
                (#[trigger] entries@[i]).0.deep_view(),
                (#[trigger] entries@[j]).0.deep_view(),
            ) by {
                assert(after[i].0 == entries@[i].0.deep_view());
                assert(after[j].0 == entries@[j].0.deep_view());
            }
        }
        self.entries = entries;
        removed
    }

    /// Take every entry out.
    pub fn clear(&mut self)
        ensures
            final(self).deep_view() == Seq::<(K::V, T::V)>::empty(),
    {
        self.entries = Vec::new();
        assert(self.deep_view() =~= Seq::<(K::V, T::V)>::empty());
    }
}

impl<K: OrderedKey + FaithfulClone, T: FaithfulClone> Clone for OrderedMap<K, T> {
    fn clone(&self) -> (copy: Self)
        ensures
            copy.deep_view() == self.deep_view(),
    {
        proof {
            use_type_invariant(self);
        }
        let mut entries: Vec<(K, T)> = Vec::new();
        let mut i: usize = 0;
        while i < self.entries.len()
            invariant
                i <= self.entries@.len(),
                entries@.len() == i,
                forall|k: int|
                    0 <= k < i ==> (#[trigger] entries@[k]).0.deep_view()
                        == self.entries@[k].0.deep_view() && entries@[k].1.deep_view()
                        == self.entries@[k].1.deep_view(),
            decreases self.entries@.len() - i,
        {
            let key = self.entries[i].0.clone();
            let value = self.entries[i].1.clone();
            proof {
                K::clone_keeps_model(self.entries@[i as int].0, key);
                T::clone_keeps_model(self.entries@[i as int].1, value);
            }
            entries.push((key, value));
            i += 1;
        }
        proof {
            assert forall|a: int, b: int| 0 <= a < b < entries@.len() implies K::before(
                (#[trigger] entries@[a]).0.deep_view(),
                (#[trigger] entries@[b]).0.deep_view(),
            ) by {
                assert(K::before(
                    self.entries@[a].0.deep_view(),
                    self.entries@[b].0.deep_view(),
                ));
            }
        }
        let copy = OrderedMap { entries };
        assert(copy.deep_view() =~= self.deep_view());
        copy
    }
}

impl<K: OrderedKey + FaithfulClone, T: FaithfulClone> FaithfulClone for OrderedMap<K, T> {
    proof fn clone_keeps_model(original: Self, copy: Self) {
    }
}

/// Of two texts that agree up to some place, the one that ends there comes first, or the
/// one with the smaller character there; a text does not come before itself.
pub proof fn first_difference_orders_texts(a: Seq<char>, b: Seq<char>, n: int)
    requires
        0 <= n <= a.len(),
        n <= b.len(),
        forall|j: int| 0 <= j < n ==> a[j] == b[j],
    ensures
        n == a.len() && n < b.len() ==> String::before(a, b) && !String::before(b, a),
        n < a.len() && n < b.len() && (a[n] as int) < (b[n] as int) ==> String::before(a, b)
            && !String::before(b, a),
        !String::before(a, a),
{
    assert(agree_up_to(a, b, n));
    String::before_is_strict(a, b);
    String::before_is_strict(a, a);
}

/// Numbers are ordered by their size.
pub proof fn smaller_numbers_come_first(a: u64, b: u64)
    ensures
        u64::before(a, b) <==> a < b,
{
}

/// In ordered entries a key has the value of the entry that carries it, and none where no
/// entry does. No two entries carry one key.
pub proof fn keys_have_the_values_of_their_entries<K: OrderedKey, W>(
    entries: Seq<(K::V, W)>,
    key: K::V,
    i: int,
    j: int,
)
    requires
        in_key_order::<K, W>(entries),
        0 <= i < j < entries.len(),
    ensures
        entries[i].0 != entries[j].0,
        lookup::<K, W>(entries, entries[i].0) == Some(entries[i].1),
        lookup::<K, W>(entries, entries[j].0) == Some(entries[j].1),
        (forall|k: int| 0 <= k < entries.len() ==> (#[trigger] entries[k]).0 != key) ==> lookup::<
            K,
            W,
        >(entries, key) is None,
{
    K::before_is_strict(entries[i].0, entries[j].0);
    lemma_slot_of_entry::<K, W>(entries, i);
    lemma_slot_of_entry::<K, W>(entries, j);
    has_key_means_present::<K, W>(entries, key);
}

/// The model of a map holds the models of its entries in their order.
proof fn map_is_told_by_its_model<K: OrderedKey, T: DeepView>(map: &OrderedMap<K, T>, i: int)
    requires
        0 <= i < map.entries@.len(),
    ensures
        map.deep_view().len() == map.entries@.len(),
        map.deep_view()[i].0 == map.entries@[i].0.deep_view(),
        map.deep_view()[i].1 == map.entries@[i].1.deep_view(),
{
}

}
