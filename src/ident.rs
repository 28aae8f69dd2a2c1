use vstd::prelude::*;

verus! {

/// How many random candidates one allocation draws before it gives up. The
/// bound makes every allocation end; with 32-bit identifiers, 64 collisions in
/// a row are out of reach for any realistic number of bindings.
pub const MAX_DRAWS: usize = 64;

/// Relies on rand::random: a value drawn from the thread-local generator;
/// nothing is known of which one.
pub assume_specification<T>[ rand::random::<T> ]() -> (r: T)
    where
        rand::distributions::Standard: rand::distributions::Distribution<T>,
;

/// Whether `id` occurs in `ids`.
pub fn contains_id(ids: &Vec<u32>, id: u32) -> (r: bool)
    ensures
        r == ids@.contains(id),
{
    let mut i: usize = 0;
    while i < ids.len()
        invariant
            i <= ids.len(),
            forall|j: int| 0 <= j < i ==> ids@[j] != id,
        decreases ids.len() - i,
    {
        if ids[i] == id {
            assert(ids@[i as int] == id);
            return true;
        }
        i = i + 1;
    }
    false
}

/// The first of `draws` that is not in `active`, if any.
pub fn first_fresh(active: &Vec<u32>, draws: &Vec<u32>) -> (r: Option<u32>)
    ensures
        r matches Some(x) ==> !active@.contains(x) && exists|i: int|
            0 <= i < draws@.len() && draws@[i] == x && forall|j: int|
                0 <= j < i ==> active@.contains(#[trigger] draws@[j]),
        r is None ==> forall|j: int| 0 <= j < draws@.len() ==> active@.contains(#[trigger] draws@[j]),
{
    let mut i: usize = 0;
    while i < draws.len()
        invariant
            i <= draws.len(),
            forall|j: int| 0 <= j < i ==> active@.contains(#[trigger] draws@[j]),
        decreases draws.len() - i,
    {
        let candidate = draws[i];
        if !contains_id(active, candidate) {
            return Some(candidate);
        }
        i = i + 1;
    }
    None
}

/// `n` values drawn at random.
pub fn random_draws(n: usize) -> (r: Vec<u32>)
    ensures
        r@.len() == n,
{
    let mut draws: Vec<u32> = Vec::new();
    let mut i: usize = 0;
    while i < n
        invariant
            i <= n,
            draws@.len() == i,
        decreases n - i,
    {
        draws.push(rand::random::<u32>());
        i = i + 1;
    }
    draws
}

/// A random identifier that is not in `active`; `None` when every one of
/// `MAX_DRAWS` draws collided.
pub fn allocate_identifier(active: &Vec<u32>) -> (r: Option<u32>)
    ensures
        r matches Some(x) ==> !active@.contains(x),
        active@.len() == 0 ==> r is Some,
{
    let draws = random_draws(MAX_DRAWS);
    proof {
        if active@.len() == 0 {
            assert(!active@.contains(draws@[0]));
        }
    }
    first_fresh(active, &draws)
}

} // verus!
