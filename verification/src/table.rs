//! A table of rows keyed by text, kept in key order.
use crate::text;
use vstd::prelude::*;

verus! {

/// Whether text `a` sorts before text `b`, character by character.
pub open spec fn text_before(a: Seq<char>, b: Seq<char>) -> bool
    decreases b.len(),
{
    if b.len() == 0 {
        false
    } else if a.len() == 0 {
        true
    } else if a[0] == b[0] {
        text_before(a.skip(1), b.skip(1))
    } else {
        a[0] < b[0]
    }
}

proof fn lemma_before_irreflexive(a: Seq<char>)
    ensures
        !text_before(a, a),
    decreases a.len(),
{
    if a.len() > 0 {
        lemma_before_irreflexive(a.skip(1));
    }
}

proof fn lemma_before_transitive(a: Seq<char>, b: Seq<char>, c: Seq<char>)
    requires
        text_before(a, b),
        text_before(b, c),
    ensures
        text_before(a, c),
    decreases c.len(),
{
    if a.len() > 0 && b.len() > 0 && c.len() > 0 && a[0] == b[0] && b[0] == c[0] {
        lemma_before_transitive(a.skip(1), b.skip(1), c.skip(1));
    }
}

/// How two texts sort.
#[derive(Clone, Copy, Debug, PartialEq, Eq, Structural)]
pub enum TextOrder {
    Before,
    Same,
    After,
}

/// Sorts two texts character by character.
pub fn order_texts(a: &str, b: &str) -> (order: TextOrder)
    ensures
        order is Before <==> text_before(a@, b@),
        order is Same <==> a@ == b@,
        order is After <==> text_before(b@, a@),
{
    let left = text::chars_of(a);
    let right = text::chars_of(b);
    let mut i: usize = 0;
    proof {
        assert(a@.skip(0) =~= a@);
        assert(b@.skip(0) =~= b@);
    }
    while i < left.len() && i < right.len() && left[i] == right[i]
        invariant
            left@ == a@,
            right@ == b@,
            i <= left@.len(),
            i <= right@.len(),
            a@.take(i as int) == b@.take(i as int),
            text_before(a@, b@) == text_before(a@.skip(i as int), b@.skip(i as int)),
            text_before(b@, a@) == text_before(b@.skip(i as int), a@.skip(i as int)),
        decreases left@.len() - i,
    {
        proof {
            let n = i as int;
            assert(a@.skip(n).skip(1) =~= a@.skip(n + 1));
            assert(b@.skip(n).skip(1) =~= b@.skip(n + 1));
            assert(a@.take(n + 1) =~= a@.take(n).push(a@[n]));
            assert(b@.take(n + 1) =~= b@.take(n).push(b@[n]));
        }
        i += 1;
    }
    if i == left.len() && i == right.len() {
        proof {
            assert(a@ =~= a@.take(i as int));
            assert(b@ =~= b@.take(i as int));
            lemma_before_irreflexive(a@);
        }
        TextOrder::Same
    } else if i == left.len() {
        TextOrder::Before
    } else if i == right.len() {
        TextOrder::After
    } else if left[i] < right[i] {
        proof {
            assert(a@.skip(i as int)[0] == a@[i as int]);
            assert(b@.skip(i as int)[0] == b@[i as int]);
        }
        TextOrder::Before
    } else {
        proof {
            assert(a@.skip(i as int)[0] == a@[i as int]);
            assert(b@.skip(i as int)[0] == b@[i as int]);
        }
        TextOrder::After
    }
}

/// Rows keyed by text, in key order.
pub struct Table<R> {
    keys: Vec<String>,
    rows: Vec<R>,
}

impl<R> Table<R> {
    /// The keys, in order.
    pub closed spec fn key_seq(&self) -> Seq<Seq<char>> {
        self.keys@.map_values(|k: String| k@)
    }

    /// The rows, in the order of their keys.
    pub closed spec fn row_seq(&self) -> Seq<R> {
        self.rows@
    }

    /// One row per key, keys strictly ascending.
    pub open spec fn wf(&self) -> bool {
        &&& self.key_seq().len() == self.row_seq().len()
        &&& forall|i: int, j: int|
            0 <= i < j < self.key_seq().len() ==> text_before(
                #[trigger] self.key_seq()[i],
                #[trigger] self.key_seq()[j],
            )
    }
}

impl<R> View for Table<R> {
    type V = Map<Seq<char>, R>;

    open spec fn view(&self) -> Map<Seq<char>, R> {
        Map::new(
            |key: Seq<char>| self.key_seq().contains(key),
            |key: Seq<char>| self.row_seq()[self.key_seq().index_of(key)],
        )
    }
}

impl<R> Table<R> {
    /// In a well-formed table, position and key determine each other.
    pub proof fn lemma_row_at(&self, i: int)
        requires
            self.wf(),
            0 <= i < self.key_seq().len(),
        ensures
            self.key_seq().index_of(self.key_seq()[i]) == i,
            self@.dom().contains(self.key_seq()[i]),
            self@[self.key_seq()[i]] == self.row_seq()[i],
    {
        let keys = self.key_seq();
        let j = keys.index_of(keys[i]);
        assert(0 <= j < keys.len() && keys[j] == keys[i]);
        if i < j {
            lemma_before_irreflexive(keys[i]);
        } else if j < i {
            lemma_before_irreflexive(keys[i]);
        }
    }

    /// No key stands twice, and the keys are those of the table.
    pub proof fn lemma_keys(&self)
        requires
            self.wf(),
        ensures
            self.key_seq().no_duplicates(),
            forall|key: Seq<char>| #[trigger]
                self.key_seq().contains(key) <==> self@.dom().contains(key),
    {
        let keys = self.key_seq();
        assert forall|i: int, j: int| 0 <= i < keys.len() && 0 <= j < keys.len() && i != j implies
            keys[i] != keys[j] by {
            self.lemma_row_at(i);
            self.lemma_row_at(j);
        }
    }

    pub fn new() -> (table: Table<R>)
        ensures
            table.wf(),
            table@ == Map::<Seq<char>, R>::empty(),
            table.key_seq() == Seq::<Seq<char>>::empty(),
            table.row_seq() == Seq::<R>::empty(),
    {
        let table = Table { keys: Vec::new(), rows: Vec::new() };
        assert(table@ =~= Map::<Seq<char>, R>::empty());
        table
    }

    pub fn len(&self) -> (n: usize)
        requires
            self.wf(),
        ensures
            n == self.key_seq().len(),
            n == self.row_seq().len(),
    {
        self.rows.len()
    }

    /// The row at position `i`.
    pub fn row_at(&self, i: usize) -> (row: &R)
        requires
            self.wf(),
            i < self.row_seq().len(),
        ensures
            *row == self.row_seq()[i as int],
    {
        &self.rows[i]
    }

    /// Replaces the row at position `i`; its key stays.
    pub fn set_row(&mut self, i: usize, row: R)
        requires
            old(self).wf(),
            i < old(self).row_seq().len(),
        ensures
            final(self).wf(),
            final(self).key_seq() == old(self).key_seq(),
            final(self).row_seq() == old(self).row_seq().update(i as int, row),
    {
        self.rows.set(i, row);
    }

    /// Where `key` stands, or where it would have to be put.
    fn seek(&self, key: &str) -> (found: (usize, bool))
        requires
            self.wf(),
        ensures
            found.0 <= self.key_seq().len(),
            found.1 ==> found.0 < self.key_seq().len() && self.key_seq()[found.0 as int] == key@,
            !found.1 ==> !self.key_seq().contains(key@),
            forall|i: int|
                0 <= i < found.0 ==> text_before(#[trigger] self.key_seq()[i], key@),
            !found.1 ==> forall|i: int|
                found.0 <= i < self.key_seq().len() ==> text_before(
                    key@,
                    #[trigger] self.key_seq()[i],
                ),
    {
        let mut i: usize = 0;
        while i < self.keys.len()
            invariant
                self.wf(),
                i <= self.keys@.len(),
                self.keys@.len() == self.key_seq().len(),
                forall|j: int| 0 <= j < i ==> text_before(#[trigger] self.key_seq()[j], key@),
            decreases self.keys@.len() - i,
        {
            match order_texts(self.keys[i].as_str(), key) {
                TextOrder::Before => {},
                TextOrder::Same => {
                    return (i, true);
                },
                TextOrder::After => {
                    proof {
                        let keys = self.key_seq();
                        assert forall|j: int| i <= j < keys.len() implies text_before(
                            key@,
                            #[trigger] keys[j],
                        ) by {
                            if i < j {
                                lemma_before_transitive(key@, keys[i as int], keys[j]);
                            }
                        }
                        if keys.contains(key@) {
                            let j = keys.index_of(key@);
                            lemma_before_irreflexive(key@);
                            assert(false);
                        }
                    }
                    return (i, false);
                },
            }
            i += 1;
        }
        proof {
            let keys = self.key_seq();
            if keys.contains(key@) {
                let j = keys.index_of(key@);
                lemma_before_irreflexive(key@);
                assert(false);
            }
        }
        (i, false)
    }

    /// The row under `key`.
    pub fn get(&self, key: &str) -> (row: Option<&R>)
        requires
            self.wf(),
        ensures
            row is Some <==> self@.dom().contains(key@),
            row matches Some(r) ==> *r == self@[key@],
    {
        let (at, found) = self.seek(key);
        if found {
            proof {
                self.lemma_row_at(at as int);
            }
            Some(&self.rows[at])
        } else {
            None
        }
    }

    /// Puts `row` under `key`, in place of what was there.
    pub fn put(&mut self, key: &str, row: R)
        requires
            old(self).wf(),
        ensures
            final(self).wf(),
            final(self)@ == old(self)@.insert(key@, row),
    {
        let (at, found) = self.seek(key);
        let ghost keys = self.key_seq();
        let ghost rows = self.row_seq();
        let ghost before = self@;
        if found {
            proof {
                self.lemma_row_at(at as int);
            }
            self.rows.set(at, row);
            proof {
                assert(self.key_seq() =~= keys);
                assert forall|k: Seq<char>| keys.contains(k) implies #[trigger] self@[k]
                    == before.insert(key@, row)[k] by {
                    let j = keys.index_of(k);
                    assert(keys[j] == k);
                }
                assert(self@ =~= before.insert(key@, row));
            }
        } else {
            self.keys.insert(at, key.to_owned());
            self.rows.insert(at, row);
            proof {
                let grown = self.key_seq();
                assert(grown =~= keys.insert(at as int, key@));
                assert(self.row_seq() =~= rows.insert(at as int, row));
                assert forall|i: int, j: int| 0 <= i < j < grown.len() implies text_before(
                    #[trigger] grown[i],
                    #[trigger] grown[j],
                ) by {
                    let a = if i < at { i } else { i - 1 };
                    let b = if j < at { j } else { j - 1 };
                    if i != at && j != at {
                        assert(grown[i] == keys[a] && grown[j] == keys[b]);
                    }
                    if i == at {
                        assert(grown[j] == keys[b]);
                    }
                    if j == at {
                        assert(grown[i] == keys[a]);
                    }
                }
                assert(self.wf());
                assert forall|k: Seq<char>| grown.contains(k) <==> before.insert(
                    key@,
                    row,
                ).dom().contains(k) by {
                    if keys.contains(k) {
                        let j = keys.index_of(k);
                        assert(grown[if j < at { j } else { j + 1 }] == k);
                    }
                    if k == key@ {
                        assert(grown[at as int] == k);
                    }
                    if grown.contains(k) && k != key@ {
                        let j = grown.index_of(k);
                        assert(keys[if j < at { j } else { j - 1 }] == k);
                    }
                }
                assert forall|k: Seq<char>| grown.contains(k) implies #[trigger] self@[k]
                    == before.insert(key@, row)[k] by {
                    let j = grown.index_of(k);
                    assert(0 <= j < grown.len() && grown[j] == k);
                    self.lemma_row_at(j);
                    if j == at {
                    } else {
                        let i = if j < at { j } else { j - 1 };
                        assert(keys[i] == k);
                        old(self).lemma_row_at(i);
                    }
                }
                assert(self@ =~= before.insert(key@, row));
            }
        }
    }
}

/// Texts sort like words in a dictionary: what they share in front does not
/// count, the first character that differs decides, and a text stands before
/// those that go on after it.
pub proof fn law_texts_sort_like_words(shared: Seq<char>, a: Seq<char>, b: Seq<char>)
    ensures
        text_before(shared + a, shared + b) == text_before(a, b),
        a.len() > 0 && b.len() > 0 && a[0] != b[0] ==> (text_before(shared + a, shared + b)
            <==> a[0] < b[0]),
        text_before(shared, shared + b) <==> b.len() > 0,
        !(text_before(a, b) && text_before(b, a)),
        a == b || text_before(a, b) || text_before(b, a),
    decreases shared.len() + a.len(),
{
    if shared.len() > 0 {
        law_texts_sort_like_words(shared.skip(1), a, b);
        assert((shared + a).skip(1) =~= shared.skip(1) + a);
        assert((shared + b).skip(1) =~= shared.skip(1) + b);
    } else {
        assert(shared + a =~= a);
        assert(shared + b =~= b);
        if a.len() > 0 && b.len() > 0 && a[0] == b[0] {
            law_texts_sort_like_words(shared, a.skip(1), b.skip(1));
            assert(a =~= seq![a[0]] + a.skip(1));
            assert(b =~= seq![b[0]] + b.skip(1));
        } else if a.len() == 0 && b.len() == 0 {
            assert(a =~= b);
        }
    }
}

} // verus!
