use vstd::prelude::*;

verus! {

/// Maps a small vector through `+ 1` and checks the expected image.
pub fn iterator_adapter() {
    let v1: Vec<i32> = vec![1, 2, 3];
    let mut v2: Vec<i32> = Vec::new();
    let mut k: usize = 0;
    while k < v1.len()
        invariant
            k <= v1@.len(),
            v1@ == seq![1i32, 2i32, 3i32],
            v2@.len() == k,
            forall|j: int| 0 <= j < k ==> v2@[j] == v1@[j] + 1,
        decreases v1@.len() - k,
    {
        let x = v1[k];
        v2.push(x + 1);
        k += 1;
    }
    assert(v2@ =~= seq![2i32, 3i32, 4i32]);
}

/// Consumes a small vector by summation and checks the expected
/// value.
pub fn consumer_adapter() {
    let v1: Vec<i32> = vec![1, 2, 3];
    let mut total: i32 = 0;
    let mut k: usize = 0;
    while k < v1.len()
        invariant
            v1@ == seq![1i32, 2i32, 3i32],
            k <= 3,
            total == (if k == 0 {
                0int
            } else if k == 1 {
                1int
            } else if k == 2 {
                3int
            } else {
                6int
            }),
        decreases v1@.len() - k,
    {
        total = total + v1[k];
        k += 1;
    }
    assert(total == 6);
}

/// A shoe: a size and a style name.
pub struct Shoe {
    pub size: u32,
    pub style: String,
}

/// The shoes of the wanted size, in their original order.
pub open spec fn shoes_of_size(s: Seq<Shoe>, shoe_size: u32) -> Seq<Shoe> {
    s.filter(|x: Shoe| x.size == shoe_size)
}

/// Keeps exactly the shoes whose size matches `shoe_size`, preserving
/// their order.
pub fn closure_adapter(shoes: Vec<Shoe>, shoe_size: u32) -> (r: Vec<Shoe>)
    ensures
        r@ == shoes_of_size(shoes@, shoe_size),
{
    let ghost orig: Seq<Shoe> = shoes@;
    let ghost pred = |x: Shoe| x.size == shoe_size;
    let mut rest = shoes;
    let mut r: Vec<Shoe> = Vec::new();
    let ghost mut k: int = 0;
    while rest.len() > 0
        invariant
            0 <= k <= orig.len(),
            rest@ == orig.subrange(k, orig.len() as int),
            r@ == orig.subrange(0, k).filter(pred),
            forall|x: Shoe| #[trigger] pred(x) == (x.size == shoe_size),
        decreases rest@.len(),
    {
        let s = rest.remove(0);
        proof {
            assert(s == orig[k]);
            assert(rest@ =~= orig.subrange(k + 1, orig.len() as int));
        }
        if s.size == shoe_size {
            r.push(s);
        }
        proof {
            let sub1 = orig.subrange(0, k + 1);
            assert(sub1.drop_last() =~= orig.subrange(0, k));
            assert(sub1.last() == orig[k]);
            reveal_with_fuel(Seq::<_>::filter, 2);
            assert(r@ == sub1.filter(pred));
            k = k + 1;
        }
    }
    proof {
        assert(orig.subrange(0, orig.len() as int) =~= orig);
    }
    r
}

/// Counts from one up to five, then stops.
pub struct Counter {
    count: u32,
}

impl Counter {
    /// The current count.
    pub closed spec fn spec_count(&self) -> u32 {
        self.count
    }

    /// A counter that has not yet produced anything.
    pub fn new() -> (c: Self)
        ensures
            c.spec_count() == 0,
    {
        Counter { count: 0 }
    }

    /// Produces the next count while it is at most five, then `None`
    /// forever.
    pub fn next(&mut self) -> (r: Option<u32>)
        ensures
            old(self).spec_count() < 5 ==> final(self).spec_count() == old(self).spec_count() + 1
                && r == Some(final(self).spec_count()),
            old(self).spec_count() >= 5 ==> final(self).spec_count() == old(self).spec_count()
                && r is None,
    {
        if self.count < 5 {
            self.count += 1;
            Some(self.count)
        } else {
            None
        }
    }
}

} // verus!
