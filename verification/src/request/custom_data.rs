use crate::json::{
    member_text, push_char, quoted_string, value_string, value_text, JsonModel, JsonValue,
    ObjectWriter,
};
use vstd::prelude::*;
use vstd::utf8::{decode_utf8, encode_utf8};

verus! {

/// Application specific data of a payload: JSON values under distinct keys,
/// kept in the byte order of the keys.
#[derive(Debug)]
pub struct CustomData<'a> {
    entries: Vec<(&'a str, JsonValue)>,
}

/// The model of a list of entries.
pub open spec fn entries_model(v: Seq<(&str, JsonValue)>) -> Seq<(Seq<char>, JsonModel)> {
    Seq::new(v.len(), |i: int| (v[i].0@, v[i].1@))
}

impl<'a> View for CustomData<'a> {
    type V = Seq<(Seq<char>, JsonModel)>;

    closed spec fn view(&self) -> Seq<(Seq<char>, JsonModel)> {
        entries_model(self.entries@)
    }
}

/// Lexicographic order on bytes: `a` comes before `b` when it is a proper
/// prefix of `b`, or when at the first position where they differ its byte
/// is the smaller.
pub open spec fn bytes_before(a: Seq<u8>, b: Seq<u8>) -> bool
    decreases a.len(),
{
    if a.len() == 0 {
        b.len() > 0
    } else if b.len() == 0 {
        false
    } else if a[0] != b[0] {
        a[0] < b[0]
    } else {
        bytes_before(a.drop_first(), b.drop_first())
    }
}

/// The order of keys: that of their UTF-8 bytes.
#[verifier::opaque]
pub open spec fn key_before(a: Seq<char>, b: Seq<char>) -> bool {
    bytes_before(encode_utf8(a), encode_utf8(b))
}

/// Each key comes strictly before the ones after it.
pub open spec fn keys_sorted(d: Seq<(Seq<char>, JsonModel)>) -> bool {
    forall|i: int, j: int| 0 <= i < j < d.len() ==> key_before(#[trigger] d[i].0, #[trigger] d[j].0)
}

/// No key occurs twice.
pub open spec fn keys_distinct(d: Seq<(Seq<char>, JsonModel)>) -> bool {
    forall|i: int, j: int| 0 <= i < d.len() && 0 <= j < d.len() && i != j ==> #[trigger] d[i].0 != #[trigger] d[j].0
}

/// The map from keys to values that a list of entries holds.
pub open spec fn entries_map(d: Seq<(Seq<char>, JsonModel)>) -> Map<Seq<char>, JsonModel>
    decreases d.len(),
{
    if d.len() == 0 {
        Map::empty()
    } else {
        entries_map(d.drop_last()).insert(d.last().0, d.last().1)
    }
}

pub proof fn lemma_bytes_before_irreflexive(a: Seq<u8>)
    ensures
        !bytes_before(a, a),
    decreases a.len(),
{
    if a.len() > 0 {
        lemma_bytes_before_irreflexive(a.drop_first());
    }
}

pub proof fn lemma_bytes_before_asymmetric(a: Seq<u8>, b: Seq<u8>)
    ensures
        !(bytes_before(a, b) && bytes_before(b, a)),
    decreases a.len(),
{
    if a.len() > 0 && b.len() > 0 && a[0] == b[0] {
        lemma_bytes_before_asymmetric(a.drop_first(), b.drop_first());
    }
}

pub proof fn lemma_bytes_before_total(a: Seq<u8>, b: Seq<u8>)
    ensures
        a != b ==> bytes_before(a, b) || bytes_before(b, a),
    decreases a.len(),
{
    if a.len() > 0 && b.len() > 0 && a[0] == b[0] {
        lemma_bytes_before_total(a.drop_first(), b.drop_first());
        if a.drop_first() == b.drop_first() {
            assert(a =~= seq![a[0]] + a.drop_first());
            assert(b =~= seq![b[0]] + b.drop_first());
        }
    } else if a.len() == 0 && b.len() == 0 {
        assert(a =~= b);
    }
}

pub proof fn lemma_bytes_before_transitive(a: Seq<u8>, b: Seq<u8>, c: Seq<u8>)
    requires
        bytes_before(a, b),
        bytes_before(b, c),
    ensures
        bytes_before(a, c),
    decreases a.len(),
{
    if a.len() > 0 && b.len() > 0 && c.len() > 0 && a[0] == b[0] && b[0] == c[0] {
        lemma_bytes_before_transitive(a.drop_first(), b.drop_first(), c.drop_first());
    }
}

proof fn lemma_key_order(a: Seq<char>, b: Seq<char>)
    ensures
        !key_before(a, a),
        !(key_before(a, b) && key_before(b, a)),
        a != b ==> key_before(a, b) || key_before(b, a),
{
    broadcast use vstd::utf8::encode_utf8_decode_utf8;

    reveal(key_before);
    lemma_bytes_before_irreflexive(encode_utf8(a));
    lemma_bytes_before_asymmetric(encode_utf8(a), encode_utf8(b));
    lemma_bytes_before_total(encode_utf8(a), encode_utf8(b));
    if encode_utf8(a) == encode_utf8(b) {
        assert(decode_utf8(encode_utf8(a)) == decode_utf8(encode_utf8(b)));
    }
}

proof fn lemma_key_before_transitive(a: Seq<char>, b: Seq<char>, c: Seq<char>)
    requires
        key_before(a, b),
        key_before(b, c),
    ensures
        key_before(a, c),
{
    reveal(key_before);
    lemma_bytes_before_transitive(encode_utf8(a), encode_utf8(b), encode_utf8(c));
}

proof fn lemma_sorted_distinct(d: Seq<(Seq<char>, JsonModel)>)
    requires
        keys_sorted(d),
    ensures
        keys_distinct(d),
{
    assert forall|i: int, j: int| 0 <= i < d.len() && 0 <= j < d.len() && i != j implies #[trigger] d[i].0 != #[trigger] d[j].0 by {
        lemma_key_order(d[i].0, d[j].0);
        if i < j {
            assert(key_before(d[i].0, d[j].0));
        } else {
            assert(key_before(d[j].0, d[i].0));
        }
    }
}

/// With distinct keys, the map holds exactly the keys of the entries, each
/// with its value.
proof fn lemma_entries_map(d: Seq<(Seq<char>, JsonModel)>)
    requires
        keys_distinct(d),
    ensures
        forall|x: Seq<char>| #[trigger] entries_map(d).contains_key(x) <==> exists|i: int| 0 <= i < d.len() && d[i].0 == x,
        forall|i: int| 0 <= i < d.len() ==> #[trigger] entries_map(d)[d[i].0] == d[i].1,
    decreases d.len(),
{
    if d.len() > 0 {
        let p = d.drop_last();
        assert(keys_distinct(p));
        lemma_entries_map(p);
        assert forall|x: Seq<char>| #[trigger] entries_map(d).contains_key(x) <==> exists|i: int| 0 <= i < d.len() && d[i].0 == x by {
            assert(entries_map(d) == entries_map(p).insert(d.last().0, d.last().1));
            if entries_map(d).contains_key(x) && x != d.last().0 {
                assert(entries_map(p).contains_key(x));
                let i = choose|i: int| 0 <= i < p.len() && p[i].0 == x;
                assert(d[i].0 == x);
            }
            if exists|i: int| 0 <= i < d.len() && d[i].0 == x {
                let i = choose|i: int| 0 <= i < d.len() && d[i].0 == x;
                if i < d.len() - 1 {
                    assert(p[i].0 == x);
                    assert(entries_map(p).contains_key(x));
                }
            }
        }
        assert forall|i: int| 0 <= i < d.len() implies #[trigger] entries_map(d)[d[i].0] == d[i].1 by {
            assert(entries_map(d) == entries_map(p).insert(d.last().0, d.last().1));
            if i < d.len() - 1 {
                assert(p[i] == d[i]);
                assert(d[i].0 != d[d.len() - 1].0);
                assert(entries_map(p)[p[i].0] == p[i].1);
            }
        }
    }
}

/// The object members that custom data adds to the payload, in order.
pub open spec fn custom_members(d: Seq<(Seq<char>, JsonModel)>) -> Seq<Seq<char>> {
    Seq::new(d.len(), |i: int| member_text(d[i].0, value_text(d[i].1)))
}

/// Where one key stands in the order of keys, relative to another.
#[derive(Debug, Clone, Copy, PartialEq, Eq, Structural)]
pub enum KeyOrder {
    Before,
    Same,
    After,
}

/// Compares two keys by their UTF-8 bytes, as `str` orders them.
pub fn compare_keys(a: &str, b: &str) -> (r: KeyOrder)
    ensures
        r == KeyOrder::Before <==> key_before(a@, b@),
        r == KeyOrder::Same <==> a@ == b@,
        r == KeyOrder::After <==> key_before(b@, a@),
{
    proof {
        lemma_key_order(a@, b@);
        reveal(key_before);
    }
    let x = a.as_bytes();
    let y = b.as_bytes();
    let ghost xs = x@;
    let ghost ys = y@;
    assert(xs == encode_utf8(a@));
    assert(ys == encode_utf8(b@));
    let mut i: usize = 0;
    assert(xs.skip(0) =~= xs);
    assert(ys.skip(0) =~= ys);
    while i < x.len() && i < y.len()
        invariant
            xs == x@,
            ys == y@,
            xs == encode_utf8(a@),
            ys == encode_utf8(b@),
            !key_before(a@, a@),
            !(key_before(a@, b@) && key_before(b@, a@)),
            a@ != b@ ==> key_before(a@, b@) || key_before(b@, a@),
            i <= xs.len(),
            i <= ys.len(),
            xs.take(i as int) == ys.take(i as int),
            bytes_before(xs, ys) == bytes_before(xs.skip(i as int), ys.skip(i as int)),
            bytes_before(ys, xs) == bytes_before(ys.skip(i as int), xs.skip(i as int)),
        decreases xs.len() - i,
    {
        if x[i] != y[i] {
            proof {
                reveal(key_before);
            }
            assert(xs.skip(i as int)[0] == xs[i as int]);
            assert(ys.skip(i as int)[0] == ys[i as int]);
            assert(xs != ys);
            if x[i] < y[i] {
                assert(bytes_before(xs.skip(i as int), ys.skip(i as int)));
                return KeyOrder::Before;
            } else {
                assert(bytes_before(ys.skip(i as int), xs.skip(i as int)));
                return KeyOrder::After;
            }
        }
        assert(xs.skip(i as int).drop_first() =~= xs.skip(i + 1));
        assert(ys.skip(i as int).drop_first() =~= ys.skip(i + 1));
        assert(xs.take(i + 1) =~= xs.take(i as int).push(xs[i as int]));
        assert(ys.take(i + 1) =~= ys.take(i as int).push(ys[i as int]));
        i = i + 1;
    }
    if x.len() == y.len() {
        assert(xs =~= xs.take(i as int));
        assert(ys =~= ys.take(i as int));
        KeyOrder::Same
    } else if x.len() < y.len() {
        assert(xs.skip(i as int).len() == 0);
        assert(xs != ys);
        assert(bytes_before(xs.skip(i as int), ys.skip(i as int)));
        KeyOrder::Before
    } else {
        assert(ys.skip(i as int).len() == 0);
        assert(xs != ys);
        assert(bytes_before(ys.skip(i as int), xs.skip(i as int)));
        KeyOrder::After
    }
}

impl<'a> CustomData<'a> {
    /// The entries stand in the order of their keys, so no key occurs twice.
    #[verifier::type_invariant]
    spec fn sorted(&self) -> bool {
        keys_sorted(self@)
    }

    /// The map from keys to values that this data holds.
    pub closed spec fn map(&self) -> Map<Seq<char>, JsonModel> {
        entries_map(self@)
    }

    /// Adds `value` under `key`, in the place that the order of keys gives
    /// it; a value already under `key` is replaced.
    pub fn insert(&mut self, key: &'a str, value: JsonValue)
        ensures
            keys_sorted(final(self)@),
            entries_map(final(self)@) == entries_map(old(self)@).insert(key@, value@),
    {
        proof {
            use_type_invariant(&*self);
        }
        let mut entries: Vec<(&'a str, JsonValue)> = Vec::new();
        std::mem::swap(&mut entries, &mut self.entries);
        let ghost d = entries_model(entries@);
        assert(d == old(self)@);
        let pos = find_slot(&entries, key);
        let ghost vm = value@;
        if pos < entries.len() && compare_keys(entries[pos].0, key) == KeyOrder::Same {
            entries.set(pos, (key, value));
            let ghost e = entries_model(entries@);
            proof {
                assert(e =~= d.update(pos as int, (key@, vm)));
                lemma_replace(d, pos as int, key@, vm);
            }
        } else {
            entries.insert(pos, (key, value));
            let ghost e = entries_model(entries@);
            proof {
                d.insert_ensures(pos as int, (key@, vm));
                assert(e =~= d.insert(pos as int, (key@, vm)));
                if pos < d.len() {
                    lemma_key_order(d[pos as int].0, key@);
                }
                lemma_insert(d, pos as int, key@, vm);
            }
        }
        self.entries = entries;
    }

    /// Custom data with no entries.
    pub fn new() -> (r: Self)
        ensures
            r@ == Seq::<(Seq<char>, JsonModel)>::empty(),
    {
        let r = CustomData { entries: Vec::new() };
        assert(r@ =~= Seq::<(Seq<char>, JsonModel)>::empty());
        r
    }

    /// Appends the members of this data to an object being written.
    pub(crate) fn write_members(&self, out: &mut String, w: &mut ObjectWriter)
        requires
            old(w).inv(old(out)@),
        ensures
            final(w).inv(final(out)@),
            final(w).start == old(w).start,
            final(w).members@ == old(w).members@ + custom_members(self@),
    {
        let ghost before = w.members@;
        let ghost d = self@;
        let mut i: usize = 0;
        while i < self.entries.len()
            invariant
                i <= self.entries@.len(),
                d == self@,
                d.len() == self.entries@.len(),
                w.inv(out@),
                w.start == old(w).start,
                w.members@ == before + custom_members(d.take(i as int)),
            decreases self.entries@.len() - i,
        {
            let entry = &self.entries[i];
            let mut key = quoted_string(entry.0);
            push_char(&mut key, ':');
            let value = value_string(&entry.1);
            assert(key@ + value@ =~= member_text(d[i as int].0, value_text(d[i as int].1)));
            w.member(out, key.as_str(), value.as_str());
            proof {
                assert(custom_members(d.take(i + 1)) =~= custom_members(d.take(i as int)).push(
                    member_text(d[i as int].0, value_text(d[i as int].1)),
                ));
            }
            i = i + 1;
        }
        assert(d.take(i as int) =~= d);
    }
}


impl<'a> Clone for CustomData<'a> {
    fn clone(&self) -> (r: Self)
        ensures
            r@ == self@,
    {
        proof {
            use_type_invariant(self);
        }
        let mut entries: Vec<(&'a str, JsonValue)> = Vec::new();
        let mut i: usize = 0;
        while i < self.entries.len()
            invariant
                i <= self.entries@.len(),
                entries@.len() == i,
                entries_model(entries@) == entries_model(self.entries@).take(i as int),
            decreases self.entries@.len() - i,
        {
            let value = self.entries[i].1.clone();
            let ghost before = entries@;
            entries.push((self.entries[i].0, value));
            assert(entries@[i as int].1@ == self.entries@[i as int].1@);
            assert(entries@[i as int].0@ == self.entries@[i as int].0@);
            assert forall|k: int| 0 <= k < i implies entries@[k] == before[k] by {}
            i = i + 1;
            assert(entries_model(entries@) =~= entries_model(self.entries@).take(i as int));
        }
        assert(entries_model(self.entries@).take(i as int) =~= entries_model(self.entries@));
        CustomData { entries }
    }
}

/// The first position whose key does not come before `key`.
fn find_slot(entries: &Vec<(&str, JsonValue)>, key: &str) -> (r: usize)
    ensures
        r <= entries@.len(),
        forall|k: int| 0 <= k < r ==> key_before(#[trigger] entries_model(entries@)[k].0, key@),
        r < entries@.len() ==> !key_before(entries_model(entries@)[r as int].0, key@),
{
    let ghost d = entries_model(entries@);
    let mut i: usize = 0;
    while i < entries.len()
        invariant
            i <= entries@.len(),
            d == entries_model(entries@),
            forall|k: int| 0 <= k < i ==> key_before(#[trigger] d[k].0, key@),
        decreases entries@.len() - i,
    {
        if compare_keys(entries[i].0, key) != KeyOrder::Before {
            return i;
        }
        i = i + 1;
    }
    i
}

/// Replacing the value under a key that is present keeps the order and
/// updates the map.
proof fn lemma_replace(d: Seq<(Seq<char>, JsonModel)>, pos: int, key: Seq<char>, value: JsonModel)
    requires
        keys_sorted(d),
        0 <= pos < d.len(),
        d[pos].0 == key,
    ensures
        keys_sorted(d.update(pos, (key, value))),
        entries_map(d.update(pos, (key, value))) == entries_map(d).insert(key, value),
{
    let e = d.update(pos, (key, value));
    assert(keys_sorted(e)) by {
        assert forall|i: int, j: int| 0 <= i < j < e.len() implies key_before(#[trigger] e[i].0, #[trigger] e[j].0) by {
            assert(e[i].0 == d[i].0);
            assert(e[j].0 == d[j].0);
        }
    }
    lemma_sorted_distinct(d);
    lemma_sorted_distinct(e);
    lemma_entries_map(d);
    lemma_entries_map(e);
    let m = entries_map(d).insert(key, value);
    assert forall|x: Seq<char>| #[trigger] entries_map(e).contains_key(x) <==> m.contains_key(x) by {
        if m.contains_key(x) && x != key {
            let i = choose|i: int| 0 <= i < d.len() && d[i].0 == x;
            assert(e[i].0 == x);
        }
        if entries_map(e).contains_key(x) {
            let i = choose|i: int| 0 <= i < e.len() && e[i].0 == x;
            assert(d[i].0 == x);
        }
        if x == key {
            assert(e[pos].0 == x);
        }
    }
    assert forall|x: Seq<char>| #[trigger] entries_map(e).contains_key(x) implies entries_map(e)[x] == m[x] by {
        let i = choose|i: int| 0 <= i < e.len() && e[i].0 == x;
        assert(entries_map(e)[e[i].0] == e[i].1);
        if i != pos {
            assert(entries_map(d)[d[i].0] == d[i].1);
        }
    }
    assert(entries_map(e) =~= m);
}

/// Inserting an entry at the place its key takes in the order keeps the
/// order.
proof fn lemma_insert_sorted(d: Seq<(Seq<char>, JsonModel)>, pos: int, key: Seq<char>, value: JsonModel)
    requires
        keys_sorted(d),
        0 <= pos <= d.len(),
        forall|k: int| 0 <= k < pos ==> key_before(#[trigger] d[k].0, key),
        pos < d.len() ==> key_before(key, d[pos].0),
    ensures
        keys_sorted(d.insert(pos, (key, value))),
{
    let e = d.insert(pos, (key, value));
    d.insert_ensures(pos, (key, value));
    assert forall|k: int| pos < k < e.len() implies key_before(key, #[trigger] e[k].0) by {
        assert(e[k] == d[k - 1]);
        if k - 1 > pos {
            assert(key_before(d[pos].0, d[k - 1].0));
            lemma_key_before_transitive(key, d[pos].0, d[k - 1].0);
        }
    }
    assert forall|i: int, j: int| 0 <= i < j < e.len() implies key_before(#[trigger] e[i].0, #[trigger] e[j].0) by {
        if j < pos {
            assert(e[i] == d[i] && e[j] == d[j]);
        } else if j == pos {
            assert(e[i] == d[i]);
        } else if i < pos {
            assert(e[i] == d[i]);
            assert(key_before(e[i].0, key));
            assert(key_before(key, e[j].0));
            lemma_key_before_transitive(e[i].0, key, e[j].0);
        } else if i == pos {
        } else {
            assert(e[i] == d[i - 1] && e[j] == d[j - 1]);
        }
    }
}

/// Inserting an entry whose key is absent, at the place its key takes in the
/// order, keeps the order and adds the key to the map.
proof fn lemma_insert(d: Seq<(Seq<char>, JsonModel)>, pos: int, key: Seq<char>, value: JsonModel)
    requires
        keys_sorted(d),
        0 <= pos <= d.len(),
        forall|k: int| 0 <= k < pos ==> key_before(#[trigger] d[k].0, key),
        pos < d.len() ==> key_before(key, d[pos].0),
    ensures
        keys_sorted(d.insert(pos, (key, value))),
        entries_map(d.insert(pos, (key, value))) == entries_map(d).insert(key, value),
{
    let e = d.insert(pos, (key, value));
    d.insert_ensures(pos, (key, value));
    lemma_insert_sorted(d, pos, key, value);
    lemma_sorted_distinct(d);
    lemma_sorted_distinct(e);
    lemma_entries_map(d);
    lemma_entries_map(e);
    let m = entries_map(d).insert(key, value);
    assert forall|x: Seq<char>| #[trigger] entries_map(e).contains_key(x) <==> m.contains_key(x) by {
        if m.contains_key(x) && x != key {
            let i = choose|i: int| 0 <= i < d.len() && d[i].0 == x;
            if i < pos {
                assert(e[i].0 == x);
            } else {
                assert(e[i + 1].0 == x);
            }
        }
        if entries_map(e).contains_key(x) && x != key {
            let i = choose|i: int| 0 <= i < e.len() && e[i].0 == x;
            if i < pos {
                assert(d[i].0 == x);
            } else if i > pos {
                assert(d[i - 1].0 == x);
            }
        }
        if x == key {
            assert(e[pos].0 == x);
        }
    }
    assert forall|x: Seq<char>| #[trigger] entries_map(e).contains_key(x) implies entries_map(e)[x] == m[x] by {
        let i = choose|i: int| 0 <= i < e.len() && e[i].0 == x;
        assert(entries_map(e)[e[i].0] == e[i].1);
        if i != pos {
            assert(e[i].0 != e[pos].0);
        }
        if i < pos {
            assert(e[i] == d[i]);
            assert(entries_map(d)[d[i].0] == d[i].1);
        } else if i > pos {
            assert(e[i] == d[i - 1]);
            assert(entries_map(d)[d[i - 1].0] == d[i - 1].1);
        }
    }
    assert(entries_map(e) =~= m);
}


/// The last key of a sorted list comes after every other key of its map.
proof fn lemma_last_is_greatest(d: Seq<(Seq<char>, JsonModel)>, x: Seq<char>)
    requires
        keys_sorted(d),
        d.len() > 0,
        entries_map(d).contains_key(x),
        x != d.last().0,
    ensures
        key_before(x, d.last().0),
{
    lemma_sorted_distinct(d);
    lemma_entries_map(d);
    let i = choose|i: int| 0 <= i < d.len() && d[i].0 == x;
    assert(i < d.len() - 1);
    assert(key_before(d[i].0, d[d.len() - 1].0));
}

/// Dropping the last entry of a list with distinct keys removes its key
/// from the map.
proof fn lemma_drop_last_map(d: Seq<(Seq<char>, JsonModel)>)
    requires
        keys_distinct(d),
        d.len() > 0,
    ensures
        entries_map(d.drop_last()) == entries_map(d).remove(d.last().0),
{
    let p = d.drop_last();
    assert(keys_distinct(p));
    lemma_entries_map(p);
    assert(!entries_map(p).contains_key(d.last().0)) by {
        if entries_map(p).contains_key(d.last().0) {
            let i = choose|i: int| 0 <= i < p.len() && p[i].0 == d.last().0;
            assert(d[i].0 == d[d.len() - 1].0);
        }
    }
    assert(entries_map(p) =~= entries_map(p).insert(d.last().0, d.last().1).remove(d.last().0));
}

/// Custom data is determined by the keys and values it holds: two sorted
/// lists with the same map are the same list. So the order in which values
/// were added never shows in the payload.
pub proof fn lemma_sorted_entries_determined(d1: Seq<(Seq<char>, JsonModel)>, d2: Seq<(Seq<char>, JsonModel)>)
    requires
        keys_sorted(d1),
        keys_sorted(d2),
        entries_map(d1) == entries_map(d2),
    ensures
        d1 == d2,
    decreases d1.len(),
{
    lemma_sorted_distinct(d1);
    lemma_sorted_distinct(d2);
    lemma_entries_map(d1);
    lemma_entries_map(d2);
    if d1.len() == 0 {
        if d2.len() > 0 {
            assert(entries_map(d2).contains_key(d2[0].0));
        }
        assert(d1 =~= d2);
    } else if d2.len() == 0 {
        assert(entries_map(d1).contains_key(d1[0].0));
    } else {
        let k1 = d1.last().0;
        let k2 = d2.last().0;
        assert(entries_map(d1).contains_key(k1)) by {
            assert(d1[d1.len() - 1].0 == k1);
        }
        assert(entries_map(d2).contains_key(k2)) by {
            assert(d2[d2.len() - 1].0 == k2);
        }
        if k1 != k2 {
            lemma_last_is_greatest(d1, k2);
            lemma_last_is_greatest(d2, k1);
            lemma_key_order(k1, k2);
        }
        assert(entries_map(d1)[k1] == d1.last().1) by {
            assert(d1[d1.len() - 1] == d1.last());
        }
        assert(entries_map(d2)[k2] == d2.last().1) by {
            assert(d2[d2.len() - 1] == d2.last());
        }
        lemma_drop_last_map(d1);
        lemma_drop_last_map(d2);
        let p1 = d1.drop_last();
        let p2 = d2.drop_last();
        assert(keys_sorted(p1));
        assert(keys_sorted(p2));
        lemma_sorted_entries_determined(p1, p2);
        assert(d1 =~= p1.push(d1.last()));
        assert(d2 =~= p2.push(d2.last()));
    }
}

} // verus!
