use vstd::prelude::*;

verus! {

/// What discovery reports of one known peripheral.
pub struct Candidate {
    /// The service identifiers it advertises.
    pub services: Vec<u128>,
    /// Whether it reports itself connected.
    pub connected: bool,
}

/// The peripheral advertises `service` and is connected.
pub open spec fn suitable(c: Candidate, service: u128) -> bool {
    c.services@.contains(service) && c.connected
}

fn advertises(services: &Vec<u128>, service: u128) -> (r: bool)
    ensures
        r == services@.contains(service),
{
    let mut s: usize = 0;
    while s < services.len()
        invariant
            s <= services@.len(),
            forall|t: int| 0 <= t < s ==> services@[t] != service,
        decreases services@.len() - s,
    {
        if services[s] == service {
            proof {
                assert(services@[s as int] == service);
            }
            return true;
        }
        s += 1;
    }
    false
}

/// The first peripheral, in the order given, that advertises `service` and
/// is connected; `None` where there is none.
pub fn pick_device(candidates: &Vec<Candidate>, service: u128) -> (r: Option<usize>)
    ensures
        match r {
            Some(i) => {
                &&& i < candidates@.len()
                &&& suitable(candidates@[i as int], service)
                &&& forall|j: int| 0 <= j < i ==> !suitable(#[trigger] candidates@[j], service)
            },
            None => forall|j: int|
                0 <= j < candidates@.len() ==> !suitable(#[trigger] candidates@[j], service),
        },
{
    let mut i: usize = 0;
    while i < candidates.len()
        invariant
            i <= candidates@.len(),
            forall|j: int| 0 <= j < i ==> !suitable(#[trigger] candidates@[j], service),
        decreases candidates@.len() - i,
    {
        let c = &candidates[i];
        if c.connected && advertises(&c.services, service) {
            return Some(i);
        }
        i += 1;
    }
    None
}

} // verus!
