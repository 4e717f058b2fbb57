use vstd::prelude::*;

verus! {

/// Returns the given closure unchanged; demonstrates passing a
/// borrowing closure through a generic function.
pub fn fun<T, F: Fn(&T) -> &T>(f: F) -> (r: F)
    ensures
        r == f,
{
    f
}

/// Increments the argument by one through a locally defined closure.
pub fn add_one_closure(v: i32) -> (r: i32)
    requires
        v < i32::MAX,
    ensures
        r == v + 1,
{
    let bump = |i: i32| -> (o: i32)
        requires
            i < i32::MAX,
        ensures
            o == i + 1,
        { i + 1 };
    bump(v)
}

/// Memoizes the first result of a `u32 -> u32` query closure.
pub struct Cache<T> where T: Fn(u32) -> u32 {
    query: T,
    value: Option<u32>,
}

impl<T> Cache<T> where T: Fn(u32) -> u32 {
    /// The stored query closure.
    pub closed spec fn spec_query(&self) -> T {
        self.query
    }

    /// The memoized value, if the query has run.
    pub closed spec fn spec_value(&self) -> Option<u32> {
        self.value
    }

    /// A fresh cache holds the query and no value yet.
    pub fn new(query: T) -> (c: Self)
        ensures
            c.spec_query() == query,
            c.spec_value() is None,
    {
        Cache { query, value: None }
    }

    /// Returns the cached value, or runs the query once and caches
    /// its result; the query is never run a second time.
    pub fn value(&mut self, arg: u32) -> (r: u32)
        requires
            old(self).spec_value() is None ==> call_requires(old(self).spec_query(), (arg,)),
        ensures
            final(self).spec_query() == old(self).spec_query(),
            final(self).spec_value() == Some(r),
            old(self).spec_value() is Some ==> final(self).spec_value() == old(self).spec_value(),
            old(self).spec_value() is None ==> call_ensures(old(self).spec_query(), (arg,), r),
    {
        match self.value {
            Some(v) => v,
            None => {
                let v = (self.query)(arg);
                self.value = Some(v);
                v
            }
        }
    }
}

/// Like `Cache`, but generic in the cached type as well.
#[verifier::reject_recursive_types(E)]
pub struct Cache2<T, E> where T: Fn(E) -> E {
    pub query: T,
    pub value: Option<E>,
}

impl<T, E> Cache2<T, E> where T: Fn(E) -> E {
    /// A fresh cache holds the query and no value yet.
    pub fn new(query: T) -> (c: Self)
        ensures
            c.query == query,
            c.value is None,
    {
        Cache2 { query, value: None }
    }

    /// Returns a reference to the cached slot, filling it from the
    /// query on first use; the query is never run a second time.
    pub fn value(&mut self, arg: E) -> (r: &Option<E>)
        requires
            old(self).value is None ==> call_requires(old(self).query, (arg,)),
        ensures
            final(self).query == old(self).query,
            *r == final(self).value,
            final(self).value is Some,
            old(self).value is Some ==> final(self).value == old(self).value,
            old(self).value is None ==> call_ensures(old(self).query, (arg,), final(self).value->0),
    {
        match self.value {
            Some(_) => &self.value,
            None => {
                let v = (self.query)(arg);
                self.value = Some(v);
                &self.value
            }
        }
    }
}

} // verus!
