use vstd::prelude::*;

use crate::assoc::{
    has_key, insert, key_index, keys, keys_unique, lemma_insert_unique, lemma_key_index,
    lemma_remove_unique, lookup, remove, Entries,
};
use crate::box_dt::BoxDt;
use crate::data_type::{DataType, Datum, TypeKind, Val};

verus! {

/// Map from key to type-erased value, kept in the order in which the keys
/// were first inserted.
#[derive(Debug)]
pub struct TypeMap {
    entries: Vec<(String, BoxDt)>,
}

impl View for TypeMap {
    type V = Entries<(TypeKind, Val)>;

    closed spec fn view(&self) -> Self::V {
        self.entries@.map_values(|e: (String, BoxDt)| (e.0@, e.1@))
    }
}

impl TypeMap {
    /// Keys are unique.
    #[verifier::type_invariant]
    pub open spec fn wf(&self) -> bool {
        keys_unique(self@)
    }

    /// Returns an empty map.
    pub fn new() -> (r: Self)
        ensures
            r.wf(),
            r@ == Seq::<(Seq<char>, (TypeKind, Val))>::empty(),
    {
        let r = TypeMap { entries: Vec::new() };
        assert(r@ =~= Seq::<(Seq<char>, (TypeKind, Val))>::empty());
        r
    }

    /// The number of entries.
    pub fn len(&self) -> (r: usize)
        ensures
            r == self@.len(),
    {
        self.entries.len()
    }

    /// Whether the map has no entry.
    pub fn is_empty(&self) -> (r: bool)
        ensures
            r == (self@.len() == 0),
    {
        self.entries.len() == 0
    }

    /// The position of key `k`, if present.
    fn find(&self, k: &String) -> (r: Option<usize>)
        ensures
            r is Some <==> has_key(self@, k@),
            r matches Some(i) ==> i < self@.len() && self@[i as int].0 == k@,
    {
        proof {
            use_type_invariant(self);
        }
        let mut i: usize = 0;
        while i < self.entries.len()
            invariant
                i <= self.entries@.len(),
                self@.len() == self.entries@.len(),
                forall|j: int| 0 <= j < i ==> self@[j].0 != k@,
            decreases self.entries@.len() - i,
        {
            if self.entries[i].0 == *k {
                assert(self@[i as int].0 == k@);
                return Some(i);
            }
            i = i + 1;
        }
        assert(!has_key(self@, k@));
        None
    }

    /// Whether key `k` is present.
    pub fn contains_key(&self, k: &String) -> (r: bool)
        ensures
            r == has_key(self@, k@),
    {
        proof {
            use_type_invariant(self);
        }
        self.find(k).is_some()
    }

    /// Stores `b` under `k`, replacing what was there: the key keeps its
    /// position if present, and goes last otherwise.
    pub fn insert_box(&mut self, k: String, b: BoxDt)
        ensures
            final(self).wf(),
            final(self)@ == insert(old(self)@, k@, b@),
    {
        proof {
            use_type_invariant(&*self);
        }
        proof {
            lemma_insert_unique(self@, k@, b@);
        }
        let ghost kview = k@;
        let found = self.find(&k);
        let mut taken = TypeMap::new();
        std::mem::swap(self, &mut taken);
        let TypeMap { mut entries } = taken;
        match found {
            Some(i) => {
                proof {
                    lemma_key_index(old(self)@, i as int);
                }
                entries.set(i, (k, b));
            },
            None => {
                entries.push((k, b));
            },
        }
        assert(entries@.map_values(|e: (String, BoxDt)| (e.0@, e.1@)) =~= insert(
            old(self)@,
            kview,
            b@,
        ));
        let r = TypeMap { entries };
        *self = r;
    }

    /// Stores `t` under `k`, replacing what was there, whatever its type.
    pub fn insert<T: DataType>(&mut self, k: String, t: T)
        ensures
            final(self).wf(),
            final(self)@ == insert(old(self)@, k@, (T::kind(), t.val_of())),
    {
        proof {
            use_type_invariant(&*self);
        }
        self.insert_box(k, BoxDt::new(t));
    }

    /// The type-erased value under `k`.
    pub fn get_raw(&self, k: &String) -> (r: Option<&BoxDt>)
        ensures
            r is Some <==> has_key(self@, k@),
            r matches Some(b) ==> lookup(self@, k@) == Some(b@),
    {
        proof {
            use_type_invariant(self);
        }
        match self.find(k) {
            Some(i) => {
                proof {
                    lemma_key_index(self@, i as int);
                }
                Some(&self.entries[i].1)
            },
            None => None,
        }
    }

    /// The value under `k`, if present and of type `T`; absent if the key is
    /// unset or holds another type.
    pub fn get<T: DataType>(&self, k: &String) -> (r: Option<&T>)
        ensures
            r is Some <==> (lookup(self@, k@) matches Some(d) && d.0 == T::kind()),
            r matches Some(v) ==> lookup(self@, k@) == Some((T::kind(), v.val_of())),
    {
        proof {
            use_type_invariant(self);
        }
        match self.get_raw(k) {
            Some(b) => b.downcast_ref::<T>(),
            None => None,
        }
    }

    /// Takes the entry of `k` out of the map, keeping the order of the
    /// others, and hands it back.
    pub fn remove(&mut self, k: &String) -> (r: Option<BoxDt>)
        ensures
            final(self).wf(),
            final(self)@ == remove(old(self)@, k@),
            r is Some <==> has_key(old(self)@, k@),
            r matches Some(b) ==> lookup(old(self)@, k@) == Some(b@),
    {
        proof {
            use_type_invariant(&*self);
        }
        proof {
            lemma_remove_unique(self@, k@);
        }
        match self.find(k) {
            Some(i) => {
                proof {
                    lemma_key_index(self@, i as int);
                }
                let mut taken = TypeMap::new();
                std::mem::swap(self, &mut taken);
                let TypeMap { mut entries } = taken;
                let e = entries.remove(i);
                assert(entries@.map_values(|e: (String, BoxDt)| (e.0@, e.1@)) =~= remove(
                    old(self)@,
                    k@,
                ));
                let r = TypeMap { entries };
                *self = r;
                Some(e.1)
            },
            None => None,
        }
    }

    /// The keys, in the map's order.
    pub fn keys(&self) -> (r: Vec<String>)
        ensures
            r@.map_values(|s: String| s@) == keys(self@),
    {
        let mut r: Vec<String> = Vec::new();
        let mut i: usize = 0;
        while i < self.entries.len()
            invariant
                i <= self.entries@.len(),
                self@.len() == self.entries@.len(),
                r@.map_values(|s: String| s@) =~= keys(self@).take(i as int),
            decreases self.entries@.len() - i,
        {
            r.push(self.entries[i].0.clone());
            assert(keys(self@).take(i + 1) =~= keys(self@).take(i as int).push(self@[i as int].0));
            i = i + 1;
        }
        assert(keys(self@).take(i as int) =~= keys(self@));
        r
    }

    /// The entry at position `i`.
    pub fn get_index(&self, i: usize) -> (r: Option<(&String, &BoxDt)>)
        ensures
            r is Some <==> i < self@.len(),
            r matches Some(e) ==> self@[i as int] == (e.0@, e.1@),
    {
        if i < self.entries.len() {
            let e = &self.entries[i];
            Some((&e.0, &e.1))
        } else {
            None
        }
    }

    /// The entries as they are written out: each key with its bare value,
    /// in the map's order.
    pub fn serialize_entries(&self) -> (r: Vec<(String, Datum)>)
        ensures
            r@.map_values(|e: (String, Datum)| (e.0@, e.1@)) == self@,
    {
        let mut r: Vec<(String, Datum)> = Vec::new();
        let mut i: usize = 0;
        while i < self.entries.len()
            invariant
                i <= self.entries@.len(),
                self@.len() == self.entries@.len(),
                r@.map_values(|e: (String, Datum)| (e.0@, e.1@)) =~= self@.take(i as int),
            decreases self.entries@.len() - i,
        {
            let e = &self.entries[i];
            r.push((e.0.clone(), e.1.inner().clone()));
            assert(self@.take(i + 1) =~= self@.take(i as int).push(self@[i as int]));
            i = i + 1;
        }
        assert(self@.take(i as int) =~= self@);
        r
    }
}

impl Clone for TypeMap {
    fn clone(&self) -> (r: Self)
        ensures
            r@ == self@,
    {
        let mut r: Vec<(String, BoxDt)> = Vec::new();
        let mut i: usize = 0;
        while i < self.entries.len()
            invariant
                i <= self.entries@.len(),
                self@.len() == self.entries@.len(),
                r@.map_values(|e: (String, BoxDt)| (e.0@, e.1@)) =~= self@.take(i as int),
            decreases self.entries@.len() - i,
        {
            let e = &self.entries[i];
            r.push((e.0.clone(), e.1.clone()));
            assert(self@.take(i + 1) =~= self@.take(i as int).push(self@[i as int]));
            i = i + 1;
        }
        assert(self@.take(i as int) =~= self@);
        proof {
            use_type_invariant(self);
        }
        TypeMap { entries: r }
    }
}

impl TypeMap {
    /// Every value held is a value of its type.
    pub proof fn lemma_values_hold(&self)
        ensures
            forall|i: int| 0 <= i < self@.len() ==> (#[trigger] self@[i]).1.0.holds(self@[i].1.1),
    {
        assert forall|i: int| 0 <= i < self@.len() implies (#[trigger] self@[i]).1.0.holds(
            self@[i].1.1,
        ) by {
            self.entries@[i].1.lemma_holds();
        }
    }
}

/// Overwrite: inserting twice under one key leaves what a single insertion
/// of the second value leaves; the first value is gone entirely.
pub proof fn lemma_overwrite(
    m: Entries<(TypeKind, Val)>,
    k: Seq<char>,
    d1: (TypeKind, Val),
    d2: (TypeKind, Val),
)
    requires
        keys_unique(m),
    ensures
        insert(insert(m, k, d1), k, d2) == insert(m, k, d2),
        lookup(insert(insert(m, k, d1), k, d2), k) == Some(d2),
{
    let m1 = insert(m, k, d1);
    lemma_insert_unique(m, k, d1);
    lemma_insert_unique(m1, k, d2);
    if has_key(m, k) {
        let i = key_index(m, k);
        assert(0 <= i < m.len() && m[i].0 == k);
        lemma_key_index(m1, i);
        assert(insert(m1, k, d2) =~= insert(m, k, d2));
    } else {
        lemma_key_index(m1, m.len() as int);
        assert(insert(m1, k, d2) =~= insert(m, k, d2));
    }
}

/// Downcast to another type: after a value of type `A` is inserted under
/// `k`, the entry of `k` holds a value of type `A`, so a lookup of `k` as any
/// other type `B` finds nothing.
pub proof fn lemma_get_other_type<A: DataType, B: DataType>(
    m: Entries<(TypeKind, Val)>,
    k: Seq<char>,
    a: A,
)
    requires
        keys_unique(m),
        A::kind() != B::kind(),
    ensures
        lookup(insert(m, k, (A::kind(), a.val_of())), k) == Some((A::kind(), a.val_of())),
        !(lookup(insert(m, k, (A::kind(), a.val_of())), k) matches Some(d) && d.0 == B::kind()),
{
    lemma_insert_unique(m, k, (A::kind(), a.val_of()));
}

} // verus!

