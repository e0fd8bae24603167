use vstd::prelude::*;

verus! {

/// The concrete types that a map of this crate can hold.
#[derive(Clone, Copy, Debug, PartialEq, Eq, Structural)]
pub enum TypeKind {
    Bool,
    U8,
    U16,
    U32,
    U64,
    I8,
    I16,
    I32,
    I64,
    Char,
    Str,
}

/// What a value holds, with its concrete type left aside.
pub enum Val {
    Bool(bool),
    Int(int),
    Char(char),
    Text(Seq<char>),
}

impl TypeKind {
    /// The human-readable name of the type, for diagnostics.
    pub open spec fn spec_name(self) -> Seq<char> {
        match self {
            TypeKind::Bool => "bool"@,
            TypeKind::U8 => "u8"@,
            TypeKind::U16 => "u16"@,
            TypeKind::U32 => "u32"@,
            TypeKind::U64 => "u64"@,
            TypeKind::I8 => "i8"@,
            TypeKind::I16 => "i16"@,
            TypeKind::I32 => "i32"@,
            TypeKind::I64 => "i64"@,
            TypeKind::Char => "char"@,
            TypeKind::Str => "String"@,
        }
    }

    pub fn name(&self) -> (r: &'static str)
        ensures
            r@ == self.spec_name(),
    {
        match self {
            TypeKind::Bool => "bool",
            TypeKind::U8 => "u8",
            TypeKind::U16 => "u16",
            TypeKind::U32 => "u32",
            TypeKind::U64 => "u64",
            TypeKind::I8 => "i8",
            TypeKind::I16 => "i16",
            TypeKind::I32 => "i32",
            TypeKind::I64 => "i64",
            TypeKind::Char => "char",
            TypeKind::Str => "String",
        }
    }

    /// Whether `v` is a value of this type.
    pub open spec fn holds(self, v: Val) -> bool {
        match (self, v) {
            (TypeKind::Bool, Val::Bool(_)) => true,
            (TypeKind::U8, Val::Int(n)) => 0 <= n <= u8::MAX,
            (TypeKind::U16, Val::Int(n)) => 0 <= n <= u16::MAX,
            (TypeKind::U32, Val::Int(n)) => 0 <= n <= u32::MAX,
            (TypeKind::U64, Val::Int(n)) => 0 <= n <= u64::MAX,
            (TypeKind::I8, Val::Int(n)) => i8::MIN <= n <= i8::MAX,
            (TypeKind::I16, Val::Int(n)) => i16::MIN <= n <= i16::MAX,
            (TypeKind::I32, Val::Int(n)) => i32::MIN <= n <= i32::MAX,
            (TypeKind::I64, Val::Int(n)) => i64::MIN <= n <= i64::MAX,
            (TypeKind::Char, Val::Char(_)) => true,
            (TypeKind::Str, Val::Text(_)) => true,
            _ => false,
        }
    }

    /// What decoding the untyped value `v` as this type gives: integers are
    /// range-checked, a one-character string reads as a `char`, and a `char`
    /// reads as a one-character string.
    pub open spec fn decode(self, v: Val) -> Option<Val> {
        if self.holds(v) {
            Some(v)
        } else {
            match (self, v) {
                (TypeKind::Char, Val::Text(s)) => if s.len() == 1 {
                    Some(Val::Char(s[0]))
                } else {
                    None
                },
                (TypeKind::Str, Val::Char(c)) => Some(Val::Text(seq![c])),
                _ => None,
            }
        }
    }
}

/// One stored value of one of the types of [`TypeKind`].
#[derive(Debug)]
pub enum Datum {
    Bool(bool),
    U8(u8),
    U16(u16),
    U32(u32),
    U64(u64),
    I8(i8),
    I16(i16),
    I32(i32),
    I64(i64),
    Char(char),
    Str(String),
}

impl View for Datum {
    type V = (TypeKind, Val);

    open spec fn view(&self) -> (TypeKind, Val) {
        match self {
            Datum::Bool(b) => (TypeKind::Bool, Val::Bool(*b)),
            Datum::U8(n) => (TypeKind::U8, Val::Int(*n as int)),
            Datum::U16(n) => (TypeKind::U16, Val::Int(*n as int)),
            Datum::U32(n) => (TypeKind::U32, Val::Int(*n as int)),
            Datum::U64(n) => (TypeKind::U64, Val::Int(*n as int)),
            Datum::I8(n) => (TypeKind::I8, Val::Int(*n as int)),
            Datum::I16(n) => (TypeKind::I16, Val::Int(*n as int)),
            Datum::I32(n) => (TypeKind::I32, Val::Int(*n as int)),
            Datum::I64(n) => (TypeKind::I64, Val::Int(*n as int)),
            Datum::Char(c) => (TypeKind::Char, Val::Char(*c)),
            Datum::Str(s) => (TypeKind::Str, Val::Text(s@)),
        }
    }
}

/// A stored value always holds a value of its own type.
pub proof fn lemma_datum_holds(d: Datum)
    ensures
        d@.0.holds(d@.1),
{
}

impl Clone for Datum {
    fn clone(&self) -> (r: Self)
        ensures
            r@ == self@,
    {
        match self {
            Datum::Bool(b) => Datum::Bool(*b),
            Datum::U8(n) => Datum::U8(*n),
            Datum::U16(n) => Datum::U16(*n),
            Datum::U32(n) => Datum::U32(*n),
            Datum::U64(n) => Datum::U64(*n),
            Datum::I8(n) => Datum::I8(*n),
            Datum::I16(n) => Datum::I16(*n),
            Datum::I32(n) => Datum::I32(*n),
            Datum::I64(n) => Datum::I64(*n),
            Datum::Char(c) => Datum::Char(*c),
            Datum::Str(s) => Datum::Str(s.clone()),
        }
    }
}

impl Datum {
    pub fn kind(&self) -> (r: TypeKind)
        ensures
            r == self@.0,
    {
        match self {
            Datum::Bool(_) => TypeKind::Bool,
            Datum::U8(_) => TypeKind::U8,
            Datum::U16(_) => TypeKind::U16,
            Datum::U32(_) => TypeKind::U32,
            Datum::U64(_) => TypeKind::U64,
            Datum::I8(_) => TypeKind::I8,
            Datum::I16(_) => TypeKind::I16,
            Datum::I32(_) => TypeKind::I32,
            Datum::I64(_) => TypeKind::I64,
            Datum::Char(_) => TypeKind::Char,
            Datum::Str(_) => TypeKind::Str,
        }
    }
}

/// A value as a self-describing input reports it, before its key's
/// registered type is known: no width, only a sign class for integers.
#[derive(Debug)]
pub enum RawValue {
    Bool(bool),
    Unsigned(u64),
    Signed(i64),
    Char(char),
    Str(String),
}

impl View for RawValue {
    type V = Val;

    open spec fn view(&self) -> Val {
        match self {
            RawValue::Bool(b) => Val::Bool(*b),
            RawValue::Unsigned(n) => Val::Int(*n as int),
            RawValue::Signed(n) => Val::Int(*n as int),
            RawValue::Char(c) => Val::Char(*c),
            RawValue::Str(s) => Val::Text(s@),
        }
    }
}

impl RawValue {
    /// The untyped form of a stored value, as a self-describing format
    /// reports it when it reads back what was written for `d`.
    pub fn from_datum(d: &Datum) -> (r: RawValue)
        ensures
            r@ == d@.1,
    {
        match d {
            Datum::Bool(b) => RawValue::Bool(*b),
            Datum::U8(n) => RawValue::Unsigned(*n as u64),
            Datum::U16(n) => RawValue::Unsigned(*n as u64),
            Datum::U32(n) => RawValue::Unsigned(*n as u64),
            Datum::U64(n) => RawValue::Unsigned(*n),
            Datum::I8(n) => RawValue::Signed(*n as i64),
            Datum::I16(n) => RawValue::Signed(*n as i64),
            Datum::I32(n) => RawValue::Signed(*n as i64),
            Datum::I64(n) => RawValue::Signed(*n),
            Datum::Char(c) => RawValue::Char(*c),
            Datum::Str(s) => RawValue::Str(s.clone()),
        }
    }
}

/// A type that a map of this crate can store and hand back by downcast.
pub trait DataType: Sized {
    /// The type's place among the storable types.
    spec fn kind() -> TypeKind;

    /// What the value holds.
    spec fn val_of(&self) -> Val;

    /// The type's place among the storable types.
    fn type_kind() -> (r: TypeKind)
        ensures
            r == Self::kind(),
    ;

    /// Stores the value as a [`Datum`].
    fn into_datum(self) -> (r: Datum)
        ensures
            r@ == (Self::kind(), self.val_of()),
    ;

    /// The value inside `d`, present exactly when `d` holds this type.
    fn from_datum(d: &Datum) -> (r: Option<&Self>)
        ensures
            r is Some <==> d@.0 == Self::kind(),
            r matches Some(v) ==> d@ == (Self::kind(), v.val_of()),
    ;

    /// Mutable access to the value inside `d`, present exactly when `d`
    /// holds this type; what is written through it is what `d` then holds.
    fn from_datum_mut(d: &mut Datum) -> (r: Option<&mut Self>)
        ensures
            r is Some <==> old(d)@.0 == Self::kind(),
            r is None ==> *final(d) == *old(d),
            r matches Some(v) ==> old(d)@ == (Self::kind(), (*v).val_of()) && final(d)@ == (
            Self::kind(), (*final(v)).val_of()),
    ;
}
impl DataType for u8 {
    open spec fn kind() -> TypeKind {
        TypeKind::U8
    }

    open spec fn val_of(&self) -> Val {
        Val::Int(*self as int)
    }

    fn type_kind() -> (r: TypeKind) {
        TypeKind::U8
    }

    fn into_datum(self) -> (r: Datum) {
        Datum::U8(self)
    }

    fn from_datum(d: &Datum) -> (r: Option<&u8>) {
        match d {
            Datum::U8(n) => Some(n),
            _ => None,
        }
    }

    fn from_datum_mut(d: &mut Datum) -> (r: Option<&mut u8>) {
        match d {
            Datum::U8(x) => Some(x),
            _ => None,
        }
    }
}

impl DataType for u16 {
    open spec fn kind() -> TypeKind {
        TypeKind::U16
    }

    open spec fn val_of(&self) -> Val {
        Val::Int(*self as int)
    }

    fn type_kind() -> (r: TypeKind) {
        TypeKind::U16
    }

    fn into_datum(self) -> (r: Datum) {
        Datum::U16(self)
    }

    fn from_datum(d: &Datum) -> (r: Option<&u16>) {
        match d {
            Datum::U16(n) => Some(n),
            _ => None,
        }
    }

    fn from_datum_mut(d: &mut Datum) -> (r: Option<&mut u16>) {
        match d {
            Datum::U16(x) => Some(x),
            _ => None,
        }
    }
}

impl DataType for u32 {
    open spec fn kind() -> TypeKind {
        TypeKind::U32
    }

    open spec fn val_of(&self) -> Val {
        Val::Int(*self as int)
    }

    fn type_kind() -> (r: TypeKind) {
        TypeKind::U32
    }

    fn into_datum(self) -> (r: Datum) {
        Datum::U32(self)
    }

    fn from_datum(d: &Datum) -> (r: Option<&u32>) {
        match d {
            Datum::U32(n) => Some(n),
            _ => None,
        }
    }

    fn from_datum_mut(d: &mut Datum) -> (r: Option<&mut u32>) {
        match d {
            Datum::U32(x) => Some(x),
            _ => None,
        }
    }
}

impl DataType for u64 {
    open spec fn kind() -> TypeKind {
        TypeKind::U64
    }

    open spec fn val_of(&self) -> Val {
        Val::Int(*self as int)
    }

    fn type_kind() -> (r: TypeKind) {
        TypeKind::U64
    }

    fn into_datum(self) -> (r: Datum) {
        Datum::U64(self)
    }

    fn from_datum(d: &Datum) -> (r: Option<&u64>) {
        match d {
            Datum::U64(n) => Some(n),
            _ => None,
        }
    }

    fn from_datum_mut(d: &mut Datum) -> (r: Option<&mut u64>) {
        match d {
            Datum::U64(x) => Some(x),
            _ => None,
        }
    }
}

impl DataType for i8 {
    open spec fn kind() -> TypeKind {
        TypeKind::I8
    }

    open spec fn val_of(&self) -> Val {
        Val::Int(*self as int)
    }

    fn type_kind() -> (r: TypeKind) {
        TypeKind::I8
    }

    fn into_datum(self) -> (r: Datum) {
        Datum::I8(self)
    }

    fn from_datum(d: &Datum) -> (r: Option<&i8>) {
        match d {
            Datum::I8(n) => Some(n),
            _ => None,
        }
    }

    fn from_datum_mut(d: &mut Datum) -> (r: Option<&mut i8>) {
        match d {
            Datum::I8(x) => Some(x),
            _ => None,
        }
    }
}

impl DataType for i16 {
    open spec fn kind() -> TypeKind {
        TypeKind::I16
    }

    open spec fn val_of(&self) -> Val {
        Val::Int(*self as int)
    }

    fn type_kind() -> (r: TypeKind) {
        TypeKind::I16
    }

    fn into_datum(self) -> (r: Datum) {
        Datum::I16(self)
    }

    fn from_datum(d: &Datum) -> (r: Option<&i16>) {
        match d {
            Datum::I16(n) => Some(n),
            _ => None,
        }
    }

    fn from_datum_mut(d: &mut Datum) -> (r: Option<&mut i16>) {
        match d {
            Datum::I16(x) => Some(x),
            _ => None,
        }
    }
}

impl DataType for i32 {
    open spec fn kind() -> TypeKind {
        TypeKind::I32
    }

    open spec fn val_of(&self) -> Val {
        Val::Int(*self as int)
    }

    fn type_kind() -> (r: TypeKind) {
        TypeKind::I32
    }

    fn into_datum(self) -> (r: Datum) {
        Datum::I32(self)
    }

    fn from_datum(d: &Datum) -> (r: Option<&i32>) {
        match d {
            Datum::I32(n) => Some(n),
            _ => None,
        }
    }

    fn from_datum_mut(d: &mut Datum) -> (r: Option<&mut i32>) {
        match d {
            Datum::I32(x) => Some(x),
            _ => None,
        }
    }
}

impl DataType for i64 {
    open spec fn kind() -> TypeKind {
        TypeKind::I64
    }

    open spec fn val_of(&self) -> Val {
        Val::Int(*self as int)
    }

    fn type_kind() -> (r: TypeKind) {
        TypeKind::I64
    }

    fn into_datum(self) -> (r: Datum) {
        Datum::I64(self)
    }

    fn from_datum(d: &Datum) -> (r: Option<&i64>) {
        match d {
            Datum::I64(n) => Some(n),
            _ => None,
        }
    }

    fn from_datum_mut(d: &mut Datum) -> (r: Option<&mut i64>) {
        match d {
            Datum::I64(x) => Some(x),
            _ => None,
        }
    }
}

impl DataType for bool {
    open spec fn kind() -> TypeKind {
        TypeKind::Bool
    }

    open spec fn val_of(&self) -> Val {
        Val::Bool(*self)
    }

    fn type_kind() -> (r: TypeKind) {
        TypeKind::Bool
    }

    fn into_datum(self) -> (r: Datum) {
        Datum::Bool(self)
    }

    fn from_datum(d: &Datum) -> (r: Option<&bool>) {
        match d {
            Datum::Bool(b) => Some(b),
            _ => None,
        }
    }

    fn from_datum_mut(d: &mut Datum) -> (r: Option<&mut bool>) {
        match d {
            Datum::Bool(x) => Some(x),
            _ => None,
        }
    }
}

impl DataType for char {
    open spec fn kind() -> TypeKind {
        TypeKind::Char
    }

    open spec fn val_of(&self) -> Val {
        Val::Char(*self)
    }

    fn type_kind() -> (r: TypeKind) {
        TypeKind::Char
    }

    fn into_datum(self) -> (r: Datum) {
        Datum::Char(self)
    }

    fn from_datum(d: &Datum) -> (r: Option<&char>) {
        match d {
            Datum::Char(c) => Some(c),
            _ => None,
        }
    }

    fn from_datum_mut(d: &mut Datum) -> (r: Option<&mut char>) {
        match d {
            Datum::Char(x) => Some(x),
            _ => None,
        }
    }
}

impl DataType for String {
    open spec fn kind() -> TypeKind {
        TypeKind::Str
    }

    open spec fn val_of(&self) -> Val {
        Val::Text(self@)
    }

    fn type_kind() -> (r: TypeKind) {
        TypeKind::Str
    }

    fn into_datum(self) -> (r: Datum) {
        Datum::Str(self)
    }

    fn from_datum(d: &Datum) -> (r: Option<&String>) {
        match d {
            Datum::Str(s) => Some(s),
            _ => None,
        }
    }

    fn from_datum_mut(d: &mut Datum) -> (r: Option<&mut String>) {
        match d {
            Datum::Str(x) => Some(x),
            _ => None,
        }
    }
}

} // verus!
