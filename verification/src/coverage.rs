//! The services a coverage run covers, and which of them a name selects.

use vstd::prelude::*;
use crate::text::strip_prefix;

verus! {

/// A service of the workspace: its name and its directory.
#[derive(Clone, Copy)]
pub struct ServiceInfo {
    pub name: &'static str,
    pub dir: &'static str,
}

/// `s` starts with `p`.
pub open spec fn starts_with(s: Seq<char>, p: Seq<char>) -> bool {
    p.len() <= s.len() && s.take(p.len() as int) == p
}

/// The services whose name or directory starts with `filter`, in order.
pub open spec fn matching(all: Seq<ServiceInfo>, filter: Seq<char>) -> Seq<ServiceInfo>
    decreases all.len(),
{
    if all.len() == 0 {
        Seq::empty()
    } else {
        let prev = matching(all.drop_last(), filter);
        let s = all.last();
        if starts_with(s.name@, filter) || starts_with(s.dir@, filter) {
            prev.push(s)
        } else {
            prev
        }
    }
}

/// The services of the workspace: the authentication service, then the user
/// service, each in the directory of its name.
pub fn coverage_services() -> (v: Vec<ServiceInfo>)
    ensures
        v@.len() == 2,
        v@[0].name@ == "auth-service"@ && v@[0].dir@ == "auth-service"@,
        v@[1].name@ == "user-service"@ && v@[1].dir@ == "user-service"@,
{
    let mut v: Vec<ServiceInfo> = Vec::new();
    v.push(ServiceInfo { name: "auth-service", dir: "auth-service" });
    v.push(ServiceInfo { name: "user-service", dir: "user-service" });
    v
}

/// The services a run covers: all of them without a filter, else those whose
/// name or directory starts with the filter.
pub fn select_services(all: &Vec<ServiceInfo>, filter: Option<&str>) -> (r: Vec<ServiceInfo>)
    ensures
        filter is None ==> r@ == all@,
        filter matches Some(f) ==> r@ == matching(all@, f@),
{
    let f = match filter {
        None => return all.clone(),
        Some(f) => f,
    };
    let mut r: Vec<ServiceInfo> = Vec::new();
    let mut i: usize = 0;
    while i < all.len()
        invariant
            i <= all@.len(),
            r@ == matching(all@.take(i as int), f@),
        decreases all@.len() - i,
    {
        let s = all[i];
        proof {
            assert(all@.take(i + 1).drop_last() =~= all@.take(i as int));
            assert(all@.take(i + 1).last() == s);
        }
        if strip_prefix(s.name, f).is_some() || strip_prefix(s.dir, f).is_some() {
            r.push(s);
        }
        i = i + 1;
    }
    assert(all@.take(i as int) =~= all@);
    r
}

} // verus!
