use vstd::prelude::*;

verus! {

/// Which root of a ray-sphere quadratic becomes the hit.
#[derive(Debug, Clone, Copy, PartialEq, Eq, Structural)]
pub enum Root {
    /// The smaller root, where the ray enters the sphere.
    Near,
    /// The larger root, where the ray leaves the sphere.
    Far,
}

/// Which side of a surface a ray struck.
#[derive(Debug, Clone, Copy, PartialEq, Eq, Structural)]
pub enum Facing {
    /// From outside: the outward normal is kept.
    Front,
    /// From inside: the normal is flipped to point against the ray.
    Back,
}

/// The root taken: the smaller one when it lies in the parameter range, else
/// the larger one when it does, else none (no hit).
pub fn choose_root(near_in_range: bool, far_in_range: bool) -> (r: Option<Root>)
    ensures
        near_in_range ==> r == Some(Root::Near),
        !near_in_range && far_in_range ==> r == Some(Root::Far),
        r is None <==> !near_in_range && !far_in_range,
{
    if near_in_range {
        Some(Root::Near)
    } else if far_in_range {
        Some(Root::Far)
    } else {
        None
    }
}

/// The side struck, given whether the ray's direction has a positive dot
/// product with the outward normal (it then travels from inside).
pub fn facing(leaves_along_normal: bool) -> (r: Facing)
    ensures
        r == Facing::Back <==> leaves_along_normal,
{
    if leaves_along_normal {
        Facing::Back
    } else {
        Facing::Front
    }
}

/// Entry `i` holds the smallest key among the surfaces that report a hit, and
/// no earlier surface reports that key.
pub open spec fn is_closest(keys: Seq<Option<u64>>, i: int) -> bool {
    &&& 0 <= i < keys.len()
    &&& keys[i] is Some
    &&& forall|j: int| #![trigger keys[j]]
        0 <= j < keys.len() && keys[j] is Some ==> keys[i]->Some_0 <= keys[j]->Some_0
    &&& forall|j: int| #![trigger keys[j]]
        0 <= j < i && keys[j] is Some ==> keys[i]->Some_0 < keys[j]->Some_0
}

/// The closest hit over a scene. Entry `i` is the hit of surface `i`, if it
/// reports one, as an order key of its ray parameter: for positive parameters
/// the IEEE-754 bit pattern orders as the number does. Gives the first surface
/// with the smallest parameter, or none when no surface reports a hit.
pub fn closest_hit(keys: &Vec<Option<u64>>) -> (r: Option<usize>)
    ensures
        r is None <==> forall|j: int| 0 <= j < keys@.len() ==> #[trigger] keys@[j] is None,
        r is Some ==> is_closest(keys@, r->Some_0 as int),
{
    let mut best: Option<usize> = None;
    let mut i: usize = 0;
    while i < keys.len()
        invariant
            i <= keys@.len(),
            best is None <==> forall|j: int| 0 <= j < i ==> #[trigger] keys@[j] is None,
            best is Some ==> is_closest(keys@.subrange(0, i as int), best->Some_0 as int),
        decreases keys@.len() - i,
    {
        let prefix = Ghost(keys@.subrange(0, i as int));
        let next = Ghost(keys@.subrange(0, i + 1));
        match keys[i] {
            Some(k) => {
                let take = match best {
                    None => true,
                    Some(b) => {
                        match keys[b] {
                            Some(kb) => k < kb,
                            None => true,
                        }
                    },
                };
                proof {
                    assert forall|j: int| 0 <= j < i implies #[trigger] next@[j] == prefix@[j] by {}
                }
                if take {
                    best = Some(i);
                }
            },
            None => {
                proof {
                    assert forall|j: int| 0 <= j < i implies #[trigger] next@[j] == prefix@[j] by {}
                }
            },
        }
        i = i + 1;
    }
    proof {
        assert(keys@.subrange(0, keys@.len() as int) =~= keys@);
    }
    best
}

} // verus!
