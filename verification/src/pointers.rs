use vstd::prelude::*;

verus! {

/// A minimal ownership wrapper around a single value, standing in for
/// a smart pointer of one's own.
pub struct MyBox<T>(pub T);

impl<T> MyBox<T> {
    /// Wraps a value.
    pub fn new(x: T) -> (b: MyBox<T>)
        ensures
            b.0 == x,
    {
        MyBox(x)
    }

    /// Borrows the wrapped value, as dereferencing would.
    pub fn get(&self) -> (r: &T)
        ensures
            *r == self.0,
    {
        &self.0
    }
}

/// Dereferencing demonstrations: a plain reference, a heap box and a
/// wrapper of our own each hand back exactly the value put in.
pub fn dered_ex() {
    let x: i32 = 5;
    let y = &x;
    assert(5 == x);
    assert(5 == *y);

    let z: Box<i32> = Box::new(1);
    let sum = *z + 1;
    assert(sum == 2);

    let v = MyBox::new(3i32);
    let v2 = *v.get() + 1;
    assert(v2 == 4);
}

} // verus!
