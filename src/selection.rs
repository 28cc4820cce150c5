use vstd::prelude::*;

use crate::loadable::Loadable;
use crate::types::{Descriptor, ResourceSlot};

verus! {

/// An optional position, read as an integer.
pub open spec fn as_index(r: Option<usize>) -> Option<int> {
    match r {
        Some(k) => Some(k as int),
        None => None,
    }
}

pub open spec fn is_first_ready<T>(s: Seq<ResourceSlot<T>>, k: int) -> bool {
    &&& 0 <= k < s.len()
    &&& s[k].content is Ready
    &&& forall|j: int| 0 <= j < k ==> !(s[j].content is Ready)
}

pub open spec fn is_first_loading<T>(s: Seq<ResourceSlot<T>>, k: int) -> bool {
    &&& 0 <= k < s.len()
    &&& s[k].content is Loading
    &&& forall|j: int| 0 <= j < k ==> !(s[j].content is Loading)
}

pub open spec fn all_failed<T>(s: Seq<ResourceSlot<T>>) -> bool {
    forall|i: int| 0 <= i < s.len() ==> s[i].content is Error
}

/// The slot that stands for the screen's subject: the first ready one; else,
/// when every slot failed, the first slot; else the first one still loading.
pub open spec fn primary_index<T>(s: Seq<ResourceSlot<T>>) -> Option<int> {
    if exists|k: int| is_first_ready(s, k) {
        Some(choose|k: int| is_first_ready(s, k))
    } else if s.len() > 0 && all_failed(s) {
        Some(0)
    } else if exists|k: int| is_first_loading(s, k) {
        Some(choose|k: int| is_first_loading(s, k))
    } else {
        None
    }
}

/// Picks the primary slot among `slots` by the policy of `primary_index`.
pub fn select_primary<T>(slots: &Vec<ResourceSlot<T>>) -> (r: Option<usize>)
    ensures
        as_index(r) == primary_index(slots@),
        (exists|i: int| 0 <= i < slots@.len() && slots@[i].content is Ready) ==> (r matches Some(
            k,
        ) && is_first_ready(slots@, k as int)),
        slots@.len() > 0 && all_failed(slots@) ==> r == Some(0usize),
        (forall|i: int| 0 <= i < slots@.len() ==> !(slots@[i].content is Ready)) && !all_failed(
            slots@,
        ) ==> (r matches Some(k) && is_first_loading(slots@, k as int)),
        r is None <==> slots@.len() == 0,
{
    let n = slots.len();
    let mut i: usize = 0;
    while i < n
        invariant
            n == slots@.len(),
            i <= n,
            forall|j: int| 0 <= j < i ==> !(slots@[j].content is Ready),
        decreases n - i,
    {
        if slots[i].content.is_ready() {
            assert(is_first_ready(slots@, i as int));
            assert forall|k: int| is_first_ready(slots@, k) implies k == i by {
                if k < i {
                } else if k > i {
                    assert(!(slots@[i as int].content is Ready));
                }
            }
            return Some(i);
        }
        i = i + 1;
    }
    assert(forall|k: int| !is_first_ready(slots@, k));
    let mut all_err = true;
    let mut i: usize = 0;
    while i < n
        invariant
            n == slots@.len(),
            i <= n,
            all_err == forall|j: int| 0 <= j < i ==> slots@[j].content is Error,
            forall|j: int| 0 <= j < n ==> !(slots@[j].content is Ready),
        decreases n - i,
    {
        if !slots[i].content.is_err() {
            all_err = false;
        }
        i = i + 1;
    }
    if n > 0 && all_err {
        return Some(0);
    }
    let mut i: usize = 0;
    while i < n
        invariant
            n == slots@.len(),
            i <= n,
            forall|j: int| 0 <= j < i ==> !(slots@[j].content is Loading),
            forall|j: int| 0 <= j < n ==> !(slots@[j].content is Ready),
            !(n > 0 && all_failed(slots@)),
        decreases n - i,
    {
        if slots[i].content.is_loading() {
            assert(is_first_loading(slots@, i as int));
            assert forall|k: int| is_first_loading(slots@, k) implies k == i by {
                if k < i {
                } else if k > i {
                    assert(!(slots@[i as int].content is Loading));
                }
            }
            return Some(i);
        }
        i = i + 1;
    }
    assert(forall|k: int| !is_first_loading(slots@, k));
    if n > 0 {
        assert(slots@[0].content is Error || slots@[0].content is Ready || slots@[0].content is Loading);
        assert(all_failed(slots@));
    }
    None
}

pub open spec fn is_first_addon(addons: Seq<Descriptor>, url: Seq<char>, k: int) -> bool {
    &&& 0 <= k < addons.len()
    &&& addons[k].transport_url@ == url
    &&& forall|j: int| 0 <= j < k ==> addons[j].transport_url@ != url
}

/// The installed provider whose transport URL is `url`, if any.
pub open spec fn addon_index(addons: Seq<Descriptor>, url: Seq<char>) -> Option<int> {
    if exists|k: int| is_first_addon(addons, url, k) {
        Some(choose|k: int| is_first_addon(addons, url, k))
    } else {
        None
    }
}

/// Finds the installed provider that a request was sent to.
pub fn find_addon(addons: &Vec<Descriptor>, url: &String) -> (r: Option<usize>)
    ensures
        as_index(r) == addon_index(addons@, url@),
        r is None <==> forall|i: int| 0 <= i < addons@.len() ==> addons@[i].transport_url@ != url@,
{
    let n = addons.len();
    let mut i: usize = 0;
    while i < n
        invariant
            n == addons@.len(),
            i <= n,
            forall|j: int| 0 <= j < i ==> addons@[j].transport_url@ != url@,
        decreases n - i,
    {
        if addons[i].transport_url == *url {
            assert(is_first_addon(addons@, url@, i as int));
            assert forall|k: int| is_first_addon(addons@, url@, k) implies k == i by {
                if k > i {
                    assert(addons@[i as int].transport_url@ == url@);
                }
            }
            return Some(i);
        }
        i = i + 1;
    }
    assert(forall|k: int| !is_first_addon(addons@, url@, k));
    None
}

} // verus!

verus! {

/// The primary slot, when its provider is installed; a slot of a provider that
/// is not installed counts as absent.
pub open spec fn attributed_primary<T>(s: Seq<ResourceSlot<T>>, addons: Seq<Descriptor>) -> Option<
    int,
> {
    match primary_index(s) {
        Some(k) => if addon_index(addons, s[k].request.base@) is Some {
            Some(k)
        } else {
            None
        },
        None => None,
    }
}

/// Picks the primary slot among `slots`, when its provider is among `addons`.
pub fn select_attributed_primary<T>(slots: &Vec<ResourceSlot<T>>, addons: &Vec<Descriptor>) -> (r:
    Option<usize>)
    ensures
        as_index(r) == attributed_primary(slots@, addons@),
{
    match select_primary(slots) {
        Some(k) => match find_addon(addons, &slots[k].request.base) {
            Some(_) => Some(k),
            None => None,
        },
        None => None,
    }
}

} // verus!
