use vstd::prelude::*;

use serde::de::value::Error;

use crate::assoc::{
    has_key, insert, keys, keys_unique, lemma_insert_unique, lemma_key_index, lookup, Entries,
};
use crate::box_dt::BoxDt;
use crate::data_type::{DataType, RawValue, TypeKind, Val};
use crate::decode::decode_raw;
use crate::type_map::TypeMap;

verus! {

/// Why a serialized map could not be decoded.
#[derive(Debug)]
pub enum DecodeError {
    /// The key has no registered type.
    UnknownKey { key: String },
    /// The value under `key` is not a value of the type registered for it.
    ValueDecode { key: String, expected: TypeKind, cause: Error },
}

/// What a [`DecodeError`] says, without the underlying cause.
pub enum Failure {
    UnknownKey(Seq<char>),
    ValueDecode(Seq<char>, TypeKind),
}

impl View for DecodeError {
    type V = Failure;

    open spec fn view(&self) -> Failure {
        match self {
            DecodeError::UnknownKey { key } => Failure::UnknownKey(key@),
            DecodeError::ValueDecode { key, expected, .. } => Failure::ValueDecode(key@, *expected),
        }
    }
}

impl DecodeError {
    /// The key of the entry that could not be decoded.
    pub fn key(&self) -> (r: &String)
        ensures
            match self@ {
                Failure::UnknownKey(k) => r@ == k,
                Failure::ValueDecode(k, _) => r@ == k,
            },
    {
        match self {
            DecodeError::UnknownKey { key } => key,
            DecodeError::ValueDecode { key, .. } => key,
        }
    }
}

/// One entry of a serialized map met by the decoder: the key is looked up in
/// the registry, then the value is decoded as the registered type and stored.
pub open spec fn decode_step(
    reg: Entries<TypeKind>,
    m: Entries<(TypeKind, Val)>,
    k: Seq<char>,
    v: Val,
) -> Result<Entries<(TypeKind, Val)>, Failure> {
    match lookup(reg, k) {
        None => Err(Failure::UnknownKey(k)),
        Some(kind) => match kind.decode(v) {
            None => Err(Failure::ValueDecode(k, kind)),
            Some(x) => Ok(insert(m, k, (kind, x))),
        },
    }
}

/// Decoding the serialized entries `es` in order, stopping at the first
/// failure.
pub open spec fn decode_entries(
    reg: Entries<TypeKind>,
    es: Entries<Val>,
) -> Result<Entries<(TypeKind, Val)>, Failure>
    decreases es.len(),
{
    if es.len() == 0 {
        Ok(Seq::empty())
    } else {
        match decode_entries(reg, es.drop_last()) {
            Err(e) => Err(e),
            Ok(m) => decode_step(reg, m, es.last().0, es.last().1),
        }
    }
}

/// Registry of the type that the value under each key decodes into.
#[derive(Debug)]
pub struct TypeReg {
    entries: Vec<(String, TypeKind)>,
}

impl View for TypeReg {
    type V = Entries<TypeKind>;

    closed spec fn view(&self) -> Self::V {
        self.entries@.map_values(|e: (String, TypeKind)| (e.0@, e.1))
    }
}

impl TypeReg {
    /// Keys are unique.
    #[verifier::type_invariant]
    pub open spec fn wf(&self) -> bool {
        keys_unique(self@)
    }

    /// Returns an empty registry.
    pub fn new() -> (r: Self)
        ensures
            r.wf(),
            r@ == Seq::<(Seq<char>, TypeKind)>::empty(),
    {
        let r = TypeReg { entries: Vec::new() };
        assert(r@ =~= Seq::<(Seq<char>, TypeKind)>::empty());
        r
    }

    /// The number of registered keys.
    pub fn len(&self) -> (r: usize)
        ensures
            r == self@.len(),
    {
        self.entries.len()
    }

    fn find(&self, k: &String) -> (r: Option<usize>)
        ensures
            r is Some <==> has_key(self@, k@),
            r matches Some(i) ==> i < self@.len() && self@[i as int].0 == k@,
    {
        proof {
            use_type_invariant(self);
        }
        let mut i: usize = 0;
        while i < self.entries.len()
            invariant
                i <= self.entries@.len(),
                self@.len() == self.entries@.len(),
                forall|j: int| 0 <= j < i ==> self@[j].0 != k@,
            decreases self.entries@.len() - i,
        {
            if self.entries[i].0 == *k {
                assert(self@[i as int].0 == k@);
                return Some(i);
            }
            i = i + 1;
        }
        assert(!has_key(self@, k@));
        None
    }

    /// Registers `kind` as the type of the value under `k`, replacing any
    /// earlier registration of `k`.
    pub fn register_kind(&mut self, k: String, kind: TypeKind)
        ensures
            final(self).wf(),
            final(self)@ == insert(old(self)@, k@, kind),
    {
        proof {
            use_type_invariant(&*self);
        }
        proof {
            lemma_insert_unique(self@, k@, kind);
        }
        let ghost kview = k@;
        let found = self.find(&k);
        let mut taken = TypeReg::new();
        std::mem::swap(self, &mut taken);
        let TypeReg { mut entries } = taken;
        match found {
            Some(i) => {
                proof {
                    lemma_key_index(old(self)@, i as int);
                }
                entries.set(i, (k, kind));
            },
            None => {
                entries.push((k, kind));
            },
        }
        assert(entries@.map_values(|e: (String, TypeKind)| (e.0@, e.1)) =~= insert(
            old(self)@,
            kview,
            kind,
        ));
        let r = TypeReg { entries };
        *self = r;
    }

    /// Registers `T` as the type of the value under `k`, replacing any
    /// earlier registration of `k`.
    pub fn register<T: DataType>(&mut self, k: String)
        ensures
            final(self).wf(),
            final(self)@ == insert(old(self)@, k@, T::kind()),
    {
        proof {
            use_type_invariant(&*self);
        }
        self.register_kind(k, T::type_kind());
    }

    /// The type registered for `k`.
    pub fn lookup(&self, k: &String) -> (r: Option<TypeKind>)
        ensures
            r == lookup(self@, k@),
    {
        proof {
            use_type_invariant(self);
        }
        match self.find(k) {
            Some(i) => {
                proof {
                    lemma_key_index(self@, i as int);
                }
                Some(self.entries[i].1)
            },
            None => None,
        }
    }

    /// The type registered for `k`, or the error for an unknown key.
    pub fn resolve(&self, k: &String) -> (r: Result<TypeKind, DecodeError>)
        ensures
            r is Ok <==> has_key(self@, k@),
            r matches Ok(kind) ==> lookup(self@, k@) == Some(kind),
            r matches Err(e) ==> e@ == Failure::UnknownKey(k@),
    {
        proof {
            use_type_invariant(self);
        }
        match self.lookup(k) {
            Some(kind) => Ok(kind),
            None => Err(DecodeError::UnknownKey { key: k.clone() }),
        }
    }

    /// Decodes the value `raw` of key `k` as the type registered for `k`,
    /// and stores it in `m`: one entry of a serialized map.
    pub fn deserialize_entry(&self, m: &mut TypeMap, k: String, raw: &RawValue) -> (r: Result<
        (),
        DecodeError,
    >)
        ensures
            final(m).wf(),
            match decode_step(self@, old(m)@, k@, raw@) {
                Ok(m2) => r is Ok && final(m)@ == m2,
                Err(e) => r matches Err(e2) && e2@ == e && final(m)@ == old(m)@,
            },
    {
        proof {
            use_type_invariant(self);
            use_type_invariant(&*m);
        }
        let kind = match self.resolve(&k) {
            Ok(kind) => kind,
            Err(e) => return Err(e),
        };
        match decode_raw(kind, raw) {
            Ok(d) => {
                proof {
                    crate::data_type::lemma_datum_holds(d);
                }
                m.insert_box(k, BoxDt::from_datum(d));
                Ok(())
            },
            Err(cause) => Err(DecodeError::ValueDecode { key: k, expected: kind, cause }),
        }
    }

    /// Decodes a serialized map, given as its entries in the order met:
    /// each value is decoded as the type registered for its key. Fails at
    /// the first key that is not registered or whose value does not decode.
    pub fn deserialize_entries(&self, es: &Vec<(String, RawValue)>) -> (r: Result<
        TypeMap,
        DecodeError,
    >)
        ensures
            match decode_entries(self@, es@.map_values(|e: (String, RawValue)| (e.0@, e.1@))) {
                Ok(m) => r matches Ok(tm) && tm.wf() && tm@ == m,
                Err(e) => r matches Err(e2) && e2@ == e,
            },
    {
        proof {
            use_type_invariant(self);
        }
        let ghost sv = es@.map_values(|e: (String, RawValue)| (e.0@, e.1@));
        let mut m = TypeMap::new();
        let mut i: usize = 0;
        assert(sv.take(0) =~= Seq::<(Seq<char>, Val)>::empty());
        while i < es.len()
            invariant
                self.wf(),
                m.wf(),
                i <= es@.len(),
                sv == es@.map_values(|e: (String, RawValue)| (e.0@, e.1@)),
                decode_entries(self@, sv.take(i as int)) == Ok::<
                    Entries<(TypeKind, Val)>,
                    Failure,
                >(m@),
            decreases es@.len() - i,
        {
            let e = &es[i];
            assert(sv.take(i + 1).drop_last() =~= sv.take(i as int));
            assert(sv.take(i + 1).last() == sv[i as int]);
            assert(sv[i as int] == (e.0@, e.1@));
            match self.deserialize_entry(&mut m, e.0.clone(), &e.1) {
                Ok(()) => {},
                Err(err) => {
                    proof {
                        lemma_decode_fails_after(self@, sv, i + 1);
                    }
                    return Err(err);
                },
            }
            i = i + 1;
        }
        assert(sv.take(i as int) =~= sv);
        Ok(m)
    }
}

/// Once a prefix of the entries fails to decode, so do all the entries.
pub proof fn lemma_decode_fails_after(reg: Entries<TypeKind>, es: Entries<Val>, n: int)
    requires
        0 <= n <= es.len(),
        decode_entries(reg, es.take(n)) is Err,
    ensures
        decode_entries(reg, es) == decode_entries(reg, es.take(n)),
    decreases es.len() - n,
{
    if n < es.len() {
        assert(es.take(n + 1).drop_last() =~= es.take(n));
        lemma_decode_fails_after(reg, es, n + 1);
    } else {
        assert(es.take(n) =~= es);
    }
}

/// A map's entries as they are written out: each key with its bare value,
/// the type left out.
pub open spec fn untyped(m: Entries<(TypeKind, Val)>) -> Entries<Val> {
    m.map_values(|e: (Seq<char>, (TypeKind, Val))| (e.0, e.1.1))
}

proof fn lemma_round_trip_prefix(reg: Entries<TypeKind>, m: Entries<(TypeKind, Val)>, n: int)
    requires
        0 <= n <= m.len(),
        keys_unique(m),
        forall|i: int| 0 <= i < m.len() ==> (#[trigger] m[i]).1.0.holds(m[i].1.1),
        forall|i: int| 0 <= i < m.len() ==> lookup(reg, (#[trigger] m[i]).0) == Some(m[i].1.0),
    ensures
        decode_entries(reg, untyped(m).take(n)) == Ok::<Entries<(TypeKind, Val)>, Failure>(
            m.take(n),
        ),
    decreases n,
{
    let u = untyped(m);
    if n == 0 {
        assert(u.take(0) =~= Seq::<(Seq<char>, Val)>::empty());
        assert(m.take(0) =~= Seq::<(Seq<char>, (TypeKind, Val))>::empty());
    } else {
        lemma_round_trip_prefix(reg, m, n - 1);
        assert(u.take(n).drop_last() =~= u.take(n - 1));
        let k = m[n - 1].0;
        let p = m.take(n - 1);
        assert(u.take(n).last() == (k, m[n - 1].1.1));
        if has_key(p, k) {
            let j = choose|j: int| 0 <= j < p.len() && p[j].0 == k;
            assert(m[j].0 != m[n - 1].0);
        }
        assert(insert(p, k, m[n - 1].1) =~= m.take(n));
    }
}

/// Round trip: writing out a map whose every key is registered with the
/// type of its value, then decoding what was written with that registry,
/// gives the same map back.
pub proof fn lemma_round_trip(reg: Entries<TypeKind>, m: Entries<(TypeKind, Val)>)
    requires
        keys_unique(m),
        forall|i: int| 0 <= i < m.len() ==> (#[trigger] m[i]).1.0.holds(m[i].1.1),
        forall|i: int| 0 <= i < m.len() ==> lookup(reg, (#[trigger] m[i]).0) == Some(m[i].1.0),
    ensures
        decode_entries(reg, untyped(m)) == Ok::<Entries<(TypeKind, Val)>, Failure>(m),
{
    lemma_round_trip_prefix(reg, m, m.len() as int);
    assert(untyped(m).take(m.len() as int) =~= untyped(m));
    assert(m.take(m.len() as int) =~= m);
}

proof fn lemma_decode_ok_prefix(reg: Entries<TypeKind>, es: Entries<Val>, n: int)
    requires
        0 <= n <= es.len(),
        forall|j: int|
            0 <= j < n ==> (lookup(reg, (#[trigger] es[j]).0) matches Some(kind) && kind.decode(
                es[j].1,
            ) is Some),
    ensures
        decode_entries(reg, es.take(n)) is Ok,
    decreases n,
{
    if n > 0 {
        lemma_decode_ok_prefix(reg, es, n - 1);
        assert(es.take(n).drop_last() =~= es.take(n - 1));
        assert(es.take(n).last() == es[n - 1]);
    }
}

/// Unknown key: decoding entries of which one has an unregistered key
/// fails, and produces no map. Where every entry before it has a registered
/// key and a value that decodes, the failure names that key.
pub proof fn lemma_unknown_key_fails(reg: Entries<TypeKind>, es: Entries<Val>, i: int)
    requires
        0 <= i < es.len(),
        !has_key(reg, es[i].0),
    ensures
        decode_entries(reg, es) is Err,
        (forall|j: int|
            0 <= j < i ==> (lookup(reg, (#[trigger] es[j]).0) matches Some(kind) && kind.decode(
                es[j].1,
            ) is Some)) ==> decode_entries(reg, es) == Err::<Entries<(TypeKind, Val)>, Failure>(
            Failure::UnknownKey(es[i].0),
        ),
{
    if decode_entries(reg, es.take(i)) is Err {
        lemma_decode_fails_after(reg, es, i);
    } else {
        assert(es.take(i + 1).drop_last() =~= es.take(i));
        assert(es.take(i + 1).last() == es[i]);
        lemma_decode_fails_after(reg, es, i + 1);
    }
    if forall|j: int|
        0 <= j < i ==> (lookup(reg, (#[trigger] es[j]).0) matches Some(kind) && kind.decode(
            es[j].1,
        ) is Some) {
        lemma_decode_ok_prefix(reg, es, i);
    }
}

/// Order: decoding entries whose keys are distinct gives a map whose keys
/// come in the order met in the input, whatever the order of registration.
pub proof fn lemma_decode_keeps_order(reg: Entries<TypeKind>, es: Entries<Val>)
    requires
        keys_unique(es),
    ensures
        decode_entries(reg, es) matches Ok(m) ==> keys(m) == keys(es),
    decreases es.len(),
{
    if es.len() > 0 {
        let p = es.drop_last();
        assert(keys_unique(p));
        lemma_decode_keeps_order(reg, p);
        if let Ok(m0) = decode_entries(reg, p) {
            let k = es.last().0;
            if has_key(m0, k) {
                let j = choose|j: int| 0 <= j < m0.len() && m0[j].0 == k;
                assert(keys(m0)[j] == k);
                assert(keys(m0).len() == m0.len() && keys(p).len() == p.len());
                assert(keys(p)[j] == p[j].0);
                assert(es[j].0 != es[es.len() - 1].0);
            }
            if let Some(kind) = lookup(reg, k) {
                if let Some(x) = kind.decode(es.last().1) {
                    assert(keys(insert(m0, k, (kind, x))) =~= keys(m0).push(k));
                    assert(keys(es) =~= keys(p).push(k));
                }
            }
        }
    }
}

/// Round trip over the library's own types: a map, written out entry by
/// entry as its bare values and decoded with a registry that gives each of
/// its keys the type of its value, comes back equal.
pub proof fn lemma_map_round_trip(reg: &TypeReg, m: &TypeMap)
    requires
        m.wf(),
        forall|i: int| 0 <= i < m@.len() ==> lookup(reg@, (#[trigger] m@[i]).0) == Some(m@[i].1.0),
    ensures
        decode_entries(reg@, untyped(m@)) == Ok::<Entries<(TypeKind, Val)>, Failure>(m@),
{
    m.lemma_values_hold();
    lemma_round_trip(reg@, m@);
}

} // verus!

