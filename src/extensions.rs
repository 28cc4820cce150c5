use vstd::prelude::*;

use itertools::Itertools;

use crate::loadable::Loadable;
use crate::meta_details::{preview, preview_of, Ctx, MetaExtension};
use crate::selection::{addon_index, find_addon};
use crate::types::{Descriptor, Link, MetaDetailsState, MetaItemInfo, ResourceSlot};

verus! {

/// Whether a link leads to another catalog item (category "meta").
pub open spec fn is_meta_link(l: Link) -> bool {
    l.category@ == seq!['m', 'e', 't', 'a']
}

/// The positions of the meta links among the first `m` links.
pub open spec fn meta_links(links: Seq<Link>, m: int) -> Seq<int>
    decreases m,
{
    if m <= 0 {
        Seq::empty()
    } else if is_meta_link(links[m - 1]) {
        meta_links(links, m - 1).push(m - 1)
    } else {
        meta_links(links, m - 1)
    }
}

/// The meta links that slot `i` offers: none unless it is loaded and its provider installed.
pub open spec fn slot_links(
    slots: Seq<ResourceSlot<MetaItemInfo>>,
    addons: Seq<Descriptor>,
    i: int,
) -> Seq<(int, int)> {
    if addon_index(addons, slots[i].request.base@) is Some {
        match slots[i].content {
            Loadable::Ready(item) => meta_links(item.links@, item.links@.len() as int).map_values(
                |j: int| (i, j),
            ),
            _ => Seq::empty(),
        }
    } else {
        Seq::empty()
    }
}

/// The meta links of the first `n` slots, as (slot, link) positions, slot by slot.
pub open spec fn candidates(
    slots: Seq<ResourceSlot<MetaItemInfo>>,
    addons: Seq<Descriptor>,
    n: int,
) -> Seq<(int, int)>
    decreases n,
{
    if n <= 0 {
        Seq::empty()
    } else {
        candidates(slots, addons, n - 1) + slot_links(slots, addons, n - 1)
    }
}

pub open spec fn link_at(slots: Seq<ResourceSlot<MetaItemInfo>>, c: (int, int)) -> Link {
    slots[c.0].content->Ready_0.links@[c.1]
}

pub open spec fn addon_at(
    slots: Seq<ResourceSlot<MetaItemInfo>>,
    addons: Seq<Descriptor>,
    c: (int, int),
) -> Descriptor {
    addons[addon_index(addons, slots[c.0].request.base@)->Some_0]
}

/// No key before position `i` equals the key at `i`.
pub open spec fn is_new_key(keys: Seq<Seq<char>>, i: int) -> bool {
    forall|j: int| 0 <= j < i ==> keys[j] != keys[i]
}

/// `pos` lists, in increasing order, exactly the positions where a key occurs first.
pub open spec fn first_positions(keys: Seq<Seq<char>>, pos: Seq<int>) -> bool {
    &&& forall|t: int| 0 <= t < pos.len() ==> 0 <= #[trigger] pos[t] < keys.len() && is_new_key(keys, pos[t])
    &&& forall|t: int, u: int| 0 <= t < u < pos.len() ==> pos[t] < pos[u]
    &&& forall|i: int| 0 <= i < keys.len() && is_new_key(keys, i) ==> exists|t: int| 0 <= t < pos.len() && pos[t] == i
}

pub open spec fn extension_of(e: MetaExtension<'_>, link: Link, addon: Descriptor) -> bool {
    &&& *e.url == link.url
    &&& *e.name == link.name
    &&& preview_of(e.addon, addon)
}

/// The meta links of all loaded, attributed meta slots, in slot order and then
/// link order, keeping only the first link of each URL.
pub open spec fn extensions_view(r: Seq<MetaExtension<'_>>, s: MetaDetailsState, ctx: Ctx) -> bool {
    let slots = s.meta_items@;
    let addons = ctx.profile.addons@;
    let c = candidates(slots, addons, slots.len() as int);
    let keys = c.map_values(|x: (int, int)| link_at(slots, x).url@);
    exists|pos: Seq<int>|
        #![trigger first_positions(keys, pos)]
        first_positions(keys, pos) && r.len() == pos.len() && forall|t: int|
            0 <= t < pos.len() ==> extension_of(
                #[trigger] r[t],
                link_at(slots, c[pos[t]]),
                addon_at(slots, addons, c[pos[t]]),
            )
}

/// The `i`-th meta link is shown through the first link with the same URL, with that link's provider.
pub open spec fn first_link_shown(r: Seq<MetaExtension<'_>>, s: MetaDetailsState, ctx: Ctx, i: int) -> bool {
    let slots = s.meta_items@;
    let addons = ctx.profile.addons@;
    let c = candidates(slots, addons, slots.len() as int);
    let url = link_at(slots, c[i]).url@;
    exists|t: int, p: int|
        #![trigger r[t], c[p]]
        0 <= t < r.len() && 0 <= p <= i && link_at(slots, c[p]).url@ == url && (forall|q: int|
            0 <= q < p ==> link_at(slots, c[q]).url@ != url) && extension_of(
            r[t],
            link_at(slots, c[p]),
            addon_at(slots, addons, c[p]),
        )
}

proof fn lemma_first_occurrence(keys: Seq<Seq<char>>, i: int)
    requires
        0 <= i < keys.len(),
    ensures
        exists|f: int| 0 <= f <= i && keys[f] == keys[i] && is_new_key(keys, f),
    decreases i,
{
    if !is_new_key(keys, i) {
        let j = choose|j: int| 0 <= j < i && keys[j] == keys[i];
        lemma_first_occurrence(keys, j);
    }
}

/// The linked catalog items show each URL once, and every meta link of a
/// loaded, attributed slot is represented by the first link with its URL in
/// traversal order (slot order, then link order), with that link's provider.
pub proof fn meta_extensions_unique(r: Seq<MetaExtension<'_>>, s: MetaDetailsState, ctx: Ctx)
    requires
        extensions_view(r, s, ctx),
    ensures
        forall|t: int, u: int| 0 <= t < u < r.len() ==> r[t].url@ != r[u].url@,
        forall|i: int|
            0 <= i < candidates(s.meta_items@, ctx.profile.addons@, s.meta_items@.len() as int).len()
                ==> #[trigger] first_link_shown(r, s, ctx, i),
{
    let slots = s.meta_items@;
    let addons = ctx.profile.addons@;
    let c = candidates(slots, addons, slots.len() as int);
    let keys = c.map_values(|x: (int, int)| link_at(slots, x).url@);
    let pos = choose|pos: Seq<int>|
        #![trigger first_positions(keys, pos)]
        first_positions(keys, pos) && r.len() == pos.len() && forall|t: int|
            0 <= t < pos.len() ==> extension_of(
                #[trigger] r[t],
                link_at(slots, c[pos[t]]),
                addon_at(slots, addons, c[pos[t]]),
            );
    assert forall|t: int, u: int| 0 <= t < u < r.len() implies r[t].url@ != r[u].url@ by {
        assert(extension_of(r[t], link_at(slots, c[pos[t]]), addon_at(slots, addons, c[pos[t]])));
        assert(extension_of(r[u], link_at(slots, c[pos[u]]), addon_at(slots, addons, c[pos[u]])));
        assert(0 <= pos[t] < keys.len() && 0 <= pos[u] < keys.len());
        assert(is_new_key(keys, pos[u]));
        assert(keys[pos[t]] != keys[pos[u]]);
    }
    assert forall|i: int| 0 <= i < c.len() implies #[trigger] first_link_shown(r, s, ctx, i) by {
        lemma_first_occurrence(keys, i);
        let f = choose|f: int| 0 <= f <= i && keys[f] == keys[i] && is_new_key(keys, f);
        let t = choose|t: int| 0 <= t < pos.len() && pos[t] == f;
        assert(extension_of(r[t], link_at(slots, c[pos[t]]), addon_at(slots, addons, c[pos[t]])));
        assert(forall|q: int| 0 <= q < f ==> keys[q] != keys[f]);
        assert forall|q: int| 0 <= q < f implies link_at(slots, c[q]).url@ != link_at(slots, c[i]).url@ by {
            assert(keys[q] != keys[f]);
        }
    }
}

/// Relies on itertools' `unique_by`: it yields, in order, each item whose key it has not
/// yielded before; here the items are the positions of `keys`.
#[verifier::external_body]
fn unique_positions(keys: &Vec<String>) -> (r: Vec<usize>)
    ensures
        first_positions(keys@.map_values(|k: String| k@), r@.map_values(|p: usize| p as int)),
{
    keys.iter().enumerate().unique_by(|(_, k)| *k).map(|(i, _)| i).collect()
}

/// The other catalog items that the loaded meta slots link to, each URL once.
pub fn project_extensions<'a>(state: &'a MetaDetailsState, ctx: &'a Ctx) -> (r: Vec<MetaExtension<'a>>)
    ensures
        extensions_view(r@, *state, *ctx),
{
    let ghost slots = state.meta_items@;
    let addons = &ctx.profile.addons;
    let meta = "meta".to_owned();
    proof {
        reveal_strlit("meta");
    }
    let mut found: Vec<(&'a Link, &'a Descriptor)> = Vec::new();
    let mut urls: Vec<String> = Vec::new();
    let ghost mut expected: Seq<(int, int)> = Seq::empty();
    let n = state.meta_items.len();
    let mut i: usize = 0;
    while i < n
        invariant
            n == slots.len(),
            slots == state.meta_items@,
            addons == &ctx.profile.addons,
            meta@ == seq!['m', 'e', 't', 'a'],
            i <= n,
            expected == candidates(slots, addons@, i as int),
            found@.len() == expected.len(),
            urls@.len() == expected.len(),
            forall|t: int|
                0 <= t < expected.len() ==> {
                    &&& *(#[trigger] found@[t]).0 == link_at(slots, expected[t])
                    &&& *found@[t].1 == addon_at(slots, addons@, expected[t])
                    &&& urls@[t]@ == link_at(slots, expected[t]).url@
                },
        decreases n - i,
    {
        let slot = &state.meta_items[i];
        let ghost before = expected;
        match find_addon(addons, &slot.request.base) {
            Some(a) => match &slot.content {
                Loadable::Ready(item) => {
                    let m = item.links.len();
                    let mut j: usize = 0;
                    while j < m
                        invariant
                            n == slots.len(),
                            slots == state.meta_items@,
                            i < n,
                            slot == &state.meta_items@[i as int],
                            slot.content == Loadable::<MetaItemInfo, crate::types::ResourceError>::Ready(*item),
                            addons == &ctx.profile.addons,
                            a < addons@.len(),
                            addon_index(addons@, slot.request.base@) == Some(a as int),
                            meta@ == seq!['m', 'e', 't', 'a'],
                            m == item.links@.len(),
                            j <= m,
                            before == candidates(slots, addons@, i as int),
                            expected == before + meta_links(item.links@, j as int).map_values(
                                |x: int| (i as int, x),
                            ),
                            found@.len() == expected.len(),
                            urls@.len() == expected.len(),
                            forall|t: int|
                                0 <= t < expected.len() ==> {
                                    &&& *(#[trigger] found@[t]).0 == link_at(slots, expected[t])
                                    &&& *found@[t].1 == addon_at(slots, addons@, expected[t])
                                    &&& urls@[t]@ == link_at(slots, expected[t]).url@
                                },
                        decreases m - j,
                    {
                        let link = &item.links[j];
                        if link.category == meta {
                            found.push((link, &addons[a]));
                            urls.push(link.url.clone());
                            proof {
                                expected = expected.push((i as int, j as int));
                                assert(meta_links(item.links@, j + 1) == meta_links(item.links@, j as int).push(j as int));
                                assert(before + meta_links(item.links@, j + 1).map_values(|x: int| (i as int, x))
                                    =~= expected);
                            }
                        } else {
                            proof {
                                assert(before + meta_links(item.links@, j + 1).map_values(|x: int| (i as int, x))
                                    =~= expected);
                            }
                        }
                        j = j + 1;
                    }
                    proof {
                        assert(expected =~= candidates(slots, addons@, i + 1));
                    }
                },
                _ => {
                    proof {
                        assert(expected =~= candidates(slots, addons@, i + 1));
                    }
                },
            },
            None => {
                proof {
                    assert(expected =~= candidates(slots, addons@, i + 1));
                }
            },
        }
        i = i + 1;
    }
    let pos = unique_positions(&urls);
    let ghost keys = expected.map_values(|x: (int, int)| link_at(slots, x).url@);
    proof {
        assert forall|t: int| 0 <= t < keys.len() implies urls@.map_values(|k: String| k@)[t]
            == keys[t] by {
            assert(*found@[t].0 == link_at(slots, expected[t]));
        }
        assert(urls@.map_values(|k: String| k@) =~= keys);
    }
    let ghost ipos = pos@.map_values(|p: usize| p as int);
    let mut out: Vec<MetaExtension<'a>> = Vec::new();
    let k = pos.len();
    let mut t: usize = 0;
    while t < k
        invariant
            k == pos@.len(),
            t <= k,
            ipos == pos@.map_values(|p: usize| p as int),
            first_positions(keys, ipos),
            keys.len() == expected.len(),
            found@.len() == expected.len(),
            forall|u: int|
                0 <= u < expected.len() ==> {
                    &&& *(#[trigger] found@[u]).0 == link_at(slots, expected[u])
                    &&& *found@[u].1 == addon_at(slots, addons@, expected[u])
                },
            out@.len() == t,
            forall|u: int|
                0 <= u < t ==> extension_of(
                    #[trigger] out@[u],
                    link_at(slots, expected[ipos[u]]),
                    addon_at(slots, addons@, expected[ipos[u]]),
                ),
        decreases k - t,
    {
        let p = pos[t];
        assert(ipos[t as int] == p as int);
        let (link, addon) = found[p];
        out.push(MetaExtension { url: &link.url, name: &link.name, addon: preview(addon) });
        t = t + 1;
    }
    assert(first_positions(keys, ipos));
    out
}

} // verus!
