use vstd::prelude::*;

use crate::data_type::{DataType, Datum, TypeKind};

verus! {

/// Owns one value of one of the storable types, with its concrete type
/// erased; the value is recovered by a downcast that names the type.
#[derive(Debug)]
pub struct BoxDt(pub(crate) Box<Datum>);

impl View for BoxDt {
    type V = (TypeKind, crate::data_type::Val);

    closed spec fn view(&self) -> Self::V {
        (*self.0)@
    }
}

impl Clone for BoxDt {
    /// A new box around an independently owned copy of the value.
    fn clone(&self) -> (r: Self)
        ensures
            r@ == self@,
    {
        BoxDt(Box::new((*self.0).clone()))
    }
}

impl BoxDt {
    /// Returns a new `BoxDt` wrapper around the provided value.
    pub fn new<T: DataType>(t: T) -> (r: Self)
        ensures
            r@ == (T::kind(), t.val_of()),
    {
        BoxDt(Box::new(t.into_datum()))
    }

    /// Wraps a stored value as it is.
    pub fn from_datum(d: Datum) -> (r: Self)
        ensures
            r@ == d@,
    {
        BoxDt(Box::new(d))
    }

    /// The value, if it is of type `T`; absent for any other type.
    pub fn downcast_ref<T: DataType>(&self) -> (r: Option<&T>)
        ensures
            r is Some <==> self@.0 == T::kind(),
            r matches Some(v) ==> self@ == (T::kind(), v.val_of()),
    {
        T::from_datum(&*self.0)
    }

    /// Mutable access to the value, if it is of type `T`; absent for any
    /// other type.
    pub fn downcast_mut<T: DataType>(&mut self) -> (r: Option<&mut T>)
        ensures
            r is Some <==> old(self)@.0 == T::kind(),
            r is None ==> final(self)@ == old(self)@,
            r matches Some(v) ==> old(self)@ == (T::kind(), (*v).val_of()) && final(self)@ == (
            T::kind(), (*final(v)).val_of()),
    {
        T::from_datum_mut(&mut *self.0)
    }

    /// The concrete type of the value held.
    pub fn kind(&self) -> (r: TypeKind)
        ensures
            r == self@.0,
    {
        self.0.kind()
    }

    /// The name of the concrete type of the value held.
    pub fn kind_name(&self) -> (r: &'static str)
        ensures
            r@ == self@.0.spec_name(),
    {
        self.0.kind().name()
    }

    /// The value held is a value of its type.
    pub proof fn lemma_holds(&self)
        ensures
            self@.0.holds(self@.1),
    {
        crate::data_type::lemma_datum_holds(*self.0);
    }

    /// The value held.
    pub fn inner(&self) -> (r: &Datum)
        ensures
            r@ == self@,
    {
        &*self.0
    }
}

} // verus!
