use vstd::prelude::*;

verus! {

/// A value as a [`Context`](crate::Context) holds it. The store keeps one
/// variant per kind of payload instead of erasing types, so that reading a
/// value back is a check of its variant.
#[derive(Debug, Clone)]
pub enum Value {
    Bool(bool),
    I32(i32),
    I64(i64),
    U32(u32),
    U64(u64),
    Text(String),
}

/// The kinds of payload a [`Value`] can carry.
#[derive(Debug, Clone, Copy, PartialEq, Eq, Structural)]
pub enum ValueKind {
    Bool,
    I32,
    I64,
    U32,
    U64,
    Text,
}

impl Value {
    pub open spec fn kind(self) -> ValueKind {
        match self {
            Value::Bool(_) => ValueKind::Bool,
            Value::I32(_) => ValueKind::I32,
            Value::I64(_) => ValueKind::I64,
            Value::U32(_) => ValueKind::U32,
            Value::U64(_) => ValueKind::U64,
            Value::Text(_) => ValueKind::Text,
        }
    }
}

/// A type whose values a [`Context`](crate::Context) can store. Each such
/// type owns one [`ValueKind`]; a stored value reads back only as the type
/// it was stored as.
pub trait Storable: Sized {
    /// The kind of slot values of this type are stored in.
    spec fn kind() -> ValueKind;

    /// How a value of this type is stored.
    spec fn wrap(self) -> Value;

    /// The value of this type that `v` holds, if it holds one.
    spec fn unwrap(v: Value) -> Option<Self>;

    /// Storing a value and reading it back gives the value, from a slot of
    /// this type's kind.
    proof fn lemma_wrap(self)
        ensures
            self.wrap().kind() == Self::kind(),
            Self::unwrap(self.wrap()) == Some(self),
    ;

    /// A slot reads back as this type exactly when it is of this type's kind,
    /// and what it reads back as is what it holds.
    proof fn lemma_unwrap(v: Value)
        ensures
            Self::unwrap(v) is Some <==> v.kind() == Self::kind(),
            Self::unwrap(v) matches Some(x) ==> x.wrap() == v,
    ;

    fn into_value(self) -> (v: Value)
        ensures
            v == self.wrap(),
    ;

    fn from_value(v: Value) -> (r: Option<Self>)
        ensures
            r == Self::unwrap(v),
    ;

    fn from_value_ref(v: &Value) -> (r: Option<&Self>)
        ensures
            match r {
                Some(x) => Self::unwrap(*v) == Some(*x),
                None => Self::unwrap(*v) is None,
            },
    ;

    fn from_value_mut(v: &mut Value) -> (r: Option<&mut Self>)
        ensures
            match r {
                Some(x) => Self::unwrap(*old(v)) == Some(*x) && *final(v) == (*final(x)).wrap(),
                None => Self::unwrap(*old(v)) is None && *final(v) == *old(v),
            },
    ;
}

impl Storable for i32 {
    open spec fn kind() -> ValueKind {
        ValueKind::I32
    }

    open spec fn wrap(self) -> Value {
        Value::I32(self)
    }

    open spec fn unwrap(v: Value) -> Option<Self> {
        match v {
            Value::I32(x) => Some(x),
            _ => None,
        }
    }

    proof fn lemma_wrap(self) {
    }

    proof fn lemma_unwrap(v: Value) {
    }

    fn into_value(self) -> (v: Value) {
        Value::I32(self)
    }

    fn from_value(v: Value) -> (r: Option<Self>) {
        match v {
            Value::I32(x) => Some(x),
            _ => None,
        }
    }

    fn from_value_ref(v: &Value) -> (r: Option<&Self>) {
        match v {
            Value::I32(x) => Some(x),
            _ => None,
        }
    }

    fn from_value_mut(v: &mut Value) -> (r: Option<&mut Self>) {
        match v {
            Value::I32(x) => Some(x),
            _ => None,
        }
    }
}

impl Storable for bool {
    open spec fn kind() -> ValueKind {
        ValueKind::Bool
    }

    open spec fn wrap(self) -> Value {
        Value::Bool(self)
    }

    open spec fn unwrap(v: Value) -> Option<Self> {
        match v {
            Value::Bool(x) => Some(x),
            _ => None,
        }
    }

    proof fn lemma_wrap(self) {
    }

    proof fn lemma_unwrap(v: Value) {
    }

    fn into_value(self) -> (v: Value) {
        Value::Bool(self)
    }

    fn from_value(v: Value) -> (r: Option<Self>) {
        match v {
            Value::Bool(x) => Some(x),
            _ => None,
        }
    }

    fn from_value_ref(v: &Value) -> (r: Option<&Self>) {
        match v {
            Value::Bool(x) => Some(x),
            _ => None,
        }
    }

    fn from_value_mut(v: &mut Value) -> (r: Option<&mut Self>) {
        match v {
            Value::Bool(x) => Some(x),
            _ => None,
        }
    }
}

impl Storable for i64 {
    open spec fn kind() -> ValueKind {
        ValueKind::I64
    }

    open spec fn wrap(self) -> Value {
        Value::I64(self)
    }

    open spec fn unwrap(v: Value) -> Option<Self> {
        match v {
            Value::I64(x) => Some(x),
            _ => None,
        }
    }

    proof fn lemma_wrap(self) {
    }

    proof fn lemma_unwrap(v: Value) {
    }

    fn into_value(self) -> (v: Value) {
        Value::I64(self)
    }

    fn from_value(v: Value) -> (r: Option<Self>) {
        match v {
            Value::I64(x) => Some(x),
            _ => None,
        }
    }

    fn from_value_ref(v: &Value) -> (r: Option<&Self>) {
        match v {
            Value::I64(x) => Some(x),
            _ => None,
        }
    }

    fn from_value_mut(v: &mut Value) -> (r: Option<&mut Self>) {
        match v {
            Value::I64(x) => Some(x),
            _ => None,
        }
    }
}

impl Storable for u32 {
    open spec fn kind() -> ValueKind {
        ValueKind::U32
    }

    open spec fn wrap(self) -> Value {
        Value::U32(self)
    }

    open spec fn unwrap(v: Value) -> Option<Self> {
        match v {
            Value::U32(x) => Some(x),
            _ => None,
        }
    }

    proof fn lemma_wrap(self) {
    }

    proof fn lemma_unwrap(v: Value) {
    }

    fn into_value(self) -> (v: Value) {
        Value::U32(self)
    }

    fn from_value(v: Value) -> (r: Option<Self>) {
        match v {
            Value::U32(x) => Some(x),
            _ => None,
        }
    }

    fn from_value_ref(v: &Value) -> (r: Option<&Self>) {
        match v {
            Value::U32(x) => Some(x),
            _ => None,
        }
    }

    fn from_value_mut(v: &mut Value) -> (r: Option<&mut Self>) {
        match v {
            Value::U32(x) => Some(x),
            _ => None,
        }
    }
}

impl Storable for u64 {
    open spec fn kind() -> ValueKind {
        ValueKind::U64
    }

    open spec fn wrap(self) -> Value {
        Value::U64(self)
    }

    open spec fn unwrap(v: Value) -> Option<Self> {
        match v {
            Value::U64(x) => Some(x),
            _ => None,
        }
    }

    proof fn lemma_wrap(self) {
    }

    proof fn lemma_unwrap(v: Value) {
    }

    fn into_value(self) -> (v: Value) {
        Value::U64(self)
    }

    fn from_value(v: Value) -> (r: Option<Self>) {
        match v {
            Value::U64(x) => Some(x),
            _ => None,
        }
    }

    fn from_value_ref(v: &Value) -> (r: Option<&Self>) {
        match v {
            Value::U64(x) => Some(x),
            _ => None,
        }
    }

    fn from_value_mut(v: &mut Value) -> (r: Option<&mut Self>) {
        match v {
            Value::U64(x) => Some(x),
            _ => None,
        }
    }
}

impl Storable for String {
    open spec fn kind() -> ValueKind {
        ValueKind::Text
    }

    open spec fn wrap(self) -> Value {
        Value::Text(self)
    }

    open spec fn unwrap(v: Value) -> Option<Self> {
        match v {
            Value::Text(x) => Some(x),
            _ => None,
        }
    }

    proof fn lemma_wrap(self) {
    }

    proof fn lemma_unwrap(v: Value) {
    }

    fn into_value(self) -> (v: Value) {
        Value::Text(self)
    }

    fn from_value(v: Value) -> (r: Option<Self>) {
        match v {
            Value::Text(x) => Some(x),
            _ => None,
        }
    }

    fn from_value_ref(v: &Value) -> (r: Option<&Self>) {
        match v {
            Value::Text(x) => Some(x),
            _ => None,
        }
    }

    fn from_value_mut(v: &mut Value) -> (r: Option<&mut Self>) {
        match v {
            Value::Text(x) => Some(x),
            _ => None,
        }
    }
}

} // verus!
