use crate::names::ContextKey;
use crate::table::Table;
use crate::value::{Storable, Value};
use vstd::prelude::*;

verus! {

#[verifier::external_type_specification]
#[verifier::external_body]
pub struct ExInstant(std::time::Instant);

/// Relies on std's `Instant::now`: a reading of the monotonic clock, taken
/// when a context is created.
pub assume_specification[ std::time::Instant::now ]() -> std::time::Instant;

/// Relies on std's `Instant::elapsed`: the time that has passed since a
/// reading. Nothing is promised of the amount.
pub assume_specification[ std::time::Instant::elapsed ](
    instant: &std::time::Instant,
) -> std::time::Duration;

/// What the key `key` of `store` reads back as, asked for as a `T`: absent
/// when the key is unset and when it holds a value of another type.
pub open spec fn stored<T: Storable>(store: Map<Seq<char>, Value>, key: Seq<char>) -> Option<T> {
    if store.contains_key(key) {
        T::unwrap(store[key])
    } else {
        None
    }
}

/// An `Option<&T>` read as the `Option<T>` it points to.
pub open spec fn deref_opt<T>(o: Option<&T>) -> Option<T> {
    match o {
        Some(x) => Some(*x),
        None => None,
    }
}

/// A key reads back as nothing when it is unset or holds a value of another
/// kind. Storing `x` under a key replaces the old value and its type: the key
/// then reads back as `x` when asked for `x`'s type, and as nothing when asked
/// for a type of any other kind.
pub proof fn stored_reads_back<T: Storable, U: Storable>(
    store: Map<Seq<char>, Value>,
    key: Seq<char>,
    x: T,
)
    ensures
        !store.contains_key(key) ==> stored::<U>(store, key) is None,
        store.contains_key(key) && store[key].kind() != U::kind() ==> stored::<U>(store, key) is None,
        stored::<T>(store.insert(key, x.wrap()), key) == Some(x),
        U::kind() != T::kind() ==> stored::<U>(store.insert(key, x.wrap()), key) is None,
{
    x.lemma_wrap();
    U::lemma_unwrap(x.wrap());
    if store.contains_key(key) {
        U::lemma_unwrap(store[key]);
    }
}

/// A new context holds nothing under any key, for any type: contexts share
/// no storage, so nothing stored through another one is visible in it.
pub proof fn fresh_context_reads_nothing<T: Storable>(key: Seq<char>)
    ensures
        stored::<T>(Map::<Seq<char>, Value>::empty(), key) is None,
{
}

/// The scratch space that the steps of one run share: values of several
/// types under text keys, free-form text metadata, and the moment the
/// context was created.
#[derive(Debug)]
pub struct Context {
    data: Table<Value>,
    metadata: Table<String>,
    started_at: std::time::Instant,
}

impl View for Context {
    type V = Map<Seq<char>, Value>;

    closed spec fn view(&self) -> Map<Seq<char>, Value> {
        self.data@
    }
}

impl Default for Context {
    fn default() -> (r: Self)
        ensures
            r.wf(),
            r@ == Map::<Seq<char>, Value>::empty(),
    {
        Context::new()
    }
}

impl Context {
    pub closed spec fn wf(&self) -> bool {
        self.data.wf() && self.metadata.wf()
    }

    /// The metadata entries, as text.
    pub closed spec fn metadata(&self) -> Map<Seq<char>, Seq<char>> {
        self.metadata@.map_values(|s: String| s@)
    }

    /// A context with no values and no metadata, whose clock starts now.
    pub fn new() -> (r: Self)
        ensures
            r.wf(),
            r@ == Map::<Seq<char>, Value>::empty(),
            r.metadata() == Map::<Seq<char>, Seq<char>>::empty(),
    {
        let r = Context {
            data: Table::new(),
            metadata: Table::new(),
            started_at: std::time::Instant::now(),
        };
        proof {
            assert(r.metadata() =~= Map::<Seq<char>, Seq<char>>::empty());
        }
        r
    }

    /// Stores `value` under `key`, replacing whatever was there, whatever its
    /// type.
    pub fn insert<T: Storable>(&mut self, key: &str, value: T)
        requires
            old(self).wf(),
        ensures
            final(self).wf(),
            final(self)@ == old(self)@.insert(key@, value.wrap()),
            final(self).metadata() == old(self).metadata(),
    {
        let v = value.into_value();
        self.data.insert(key.to_owned(), v);
    }

    /// The value under `key` if it is a `T`; absent when the key is unset or
    /// holds another type.
    pub fn get<T: Storable>(&self, key: &str) -> (r: Option<&T>)
        requires
            self.wf(),
        ensures
            deref_opt(r) == stored::<T>(self@, key@),
    {
        match self.data.get(key) {
            Some(v) => T::from_value_ref(v),
            None => None,
        }
    }

    /// Write access to the value under `key` if it is a `T`.
    pub fn get_mut<T: Storable>(&mut self, key: &str) -> (r: Option<&mut T>)
        requires
            old(self).wf(),
        ensures
            final(self).wf(),
            final(self).metadata() == old(self).metadata(),
            match r {
                Some(x) => stored::<T>(old(self)@, key@) == Some(*x) && final(self)@ == old(
                    self,
                )@.insert(key@, (*final(x)).wrap()),
                None => stored::<T>(old(self)@, key@) is None && final(self)@ == old(self)@,
            },
    {
        match self.data.get_mut(key) {
            Some(v) => T::from_value_mut(v),
            None => None,
        }
    }

    /// Takes out the value under `key` if it is a `T`; a value of another type
    /// stays where it is.
    pub fn remove<T: Storable>(&mut self, key: &str) -> (r: Option<T>)
        requires
            old(self).wf(),
        ensures
            final(self).wf(),
            final(self).metadata() == old(self).metadata(),
            r == stored::<T>(old(self)@, key@),
            r is Some ==> final(self)@ == old(self)@.remove(key@),
            r is None ==> final(self)@ == old(self)@,
    {
        let holds_t = match self.data.get(key) {
            Some(v) => T::from_value_ref(v).is_some(),
            None => false,
        };
        if !holds_t {
            return None;
        }
        match self.data.remove(key) {
            Some(v) => T::from_value(v),
            None => None,
        }
    }

    pub fn contains_key(&self, key: &str) -> (r: bool)
        requires
            self.wf(),
        ensures
            r == self@.contains_key(key@),
    {
        self.data.contains_key(key)
    }

    /// Every key once, in no promised order.
    pub fn keys(&self) -> (r: Vec<ContextKey>)
        requires
            self.wf(),
        ensures
            r@.map_values(|k: ContextKey| k@).no_duplicates(),
            r@.map_values(|k: ContextKey| k@).to_set() == self@.dom(),
    {
        let names = self.data.key_list();
        let mut out: Vec<ContextKey> = Vec::new();
        let mut i: usize = 0;
        while i < names.len()
            invariant
                i <= names@.len(),
                out@.map_values(|k: ContextKey| k@) == names@.map_values(|s: String| s@).subrange(
                    0,
                    i as int,
                ),
            decreases names@.len() - i,
        {
            let key = ContextKey::new(names[i].as_str());
            let ghost before = out@;
            out.push(key);
            proof {
                assert(before.map_values(|k: ContextKey| k@).len() == i);
                assert(out@.map_values(|k: ContextKey| k@) =~= names@.map_values(
                    |s: String| s@,
                ).subrange(0, i + 1));
            }
            i = i + 1;
        }
        proof {
            assert(names@.map_values(|s: String| s@).subrange(0, names@.len() as int)
                =~= names@.map_values(|s: String| s@));
        }
        out
    }

    pub fn len(&self) -> (r: usize)
        requires
            self.wf(),
        ensures
            r == self@.len(),
    {
        self.data.len()
    }

    pub fn is_empty(&self) -> (r: bool)
        requires
            self.wf(),
        ensures
            r == (self@.len() == 0),
    {
        self.data.len() == 0
    }

    /// Removes every value; metadata and the clock are kept.
    pub fn clear(&mut self)
        requires
            old(self).wf(),
        ensures
            final(self).wf(),
            final(self)@ == Map::<Seq<char>, Value>::empty(),
            final(self).metadata() == old(self).metadata(),
    {
        self.data.clear();
    }

    /// Sets the metadata entry `key`, replacing any earlier text.
    pub fn set_metadata(&mut self, key: &str, value: String)
        requires
            old(self).wf(),
        ensures
            final(self).wf(),
            final(self)@ == old(self)@,
            final(self).metadata() == old(self).metadata().insert(key@, value@),
    {
        let ghost value_view = value@;
        self.metadata.insert(key.to_owned(), value);
        proof {
            assert(self.metadata() =~= old(self).metadata().insert(key@, value_view));
        }
    }

    pub fn get_metadata(&self, key: &str) -> (r: Option<&String>)
        requires
            self.wf(),
        ensures
            match r {
                Some(s) => self.metadata().contains_key(key@) && s@ == self.metadata()[key@],
                None => !self.metadata().contains_key(key@),
            },
    {
        self.metadata.get(key)
    }

    /// The time since the context was created.
    pub fn elapsed(&self) -> std::time::Duration {
        self.started_at.elapsed()
    }
}

} // verus!
