use vstd::prelude::*;

use crate::loadable::Loadable;
use crate::selection::{as_index, attributed_primary, select_attributed_primary};
use crate::types::{Descriptor, MetaDetailsState, MetaItemInfo, Selected, VideoInfo};

verus! {

pub open spec fn digit(d: nat) -> char {
    if d == 0 {
        '0'
    } else if d == 1 {
        '1'
    } else if d == 2 {
        '2'
    } else if d == 3 {
        '3'
    } else if d == 4 {
        '4'
    } else if d == 5 {
        '5'
    } else if d == 6 {
        '6'
    } else if d == 7 {
        '7'
    } else if d == 8 {
        '8'
    } else {
        '9'
    }
}

/// The decimal digits of `n`, without sign or leading zeros.
pub open spec fn decimal(n: nat) -> Seq<char>
    decreases n,
{
    if n < 10 {
        seq![digit(n)]
    } else {
        decimal(n / 10).push(digit(n % 10))
    }
}

/// The digit `d` as a one-character string.
fn digit_string(d: u32) -> (r: String)
    requires
        d < 10,
    ensures
        r@ == seq![digit(d as nat)],
{
    proof {
        reveal_strlit("0");
        reveal_strlit("1");
        reveal_strlit("2");
        reveal_strlit("3");
        reveal_strlit("4");
        reveal_strlit("5");
        reveal_strlit("6");
        reveal_strlit("7");
        reveal_strlit("8");
        reveal_strlit("9");
    }
    let r = if d == 0 {
        "0".to_owned()
    } else if d == 1 {
        "1".to_owned()
    } else if d == 2 {
        "2".to_owned()
    } else if d == 3 {
        "3".to_owned()
    } else if d == 4 {
        "4".to_owned()
    } else if d == 5 {
        "5".to_owned()
    } else if d == 6 {
        "6".to_owned()
    } else if d == 7 {
        "7".to_owned()
    } else if d == 8 {
        "8".to_owned()
    } else {
        "9".to_owned()
    };
    assert(r@ =~= seq![digit(d as nat)]);
    r
}

/// `n` in decimal.
pub fn decimal_string(n: u32) -> (r: String)
    ensures
        r@ == decimal(n as nat),
    decreases n,
{
    if n < 10 {
        digit_string(n)
    } else {
        let mut s = decimal_string(n / 10);
        let d = digit_string(n % 10);
        s.append(d.as_str());
        assert(s@ =~= decimal((n / 10) as nat).push(digit((n % 10) as nat)));
        s
    }
}

pub open spec fn is_first_video(videos: Seq<VideoInfo>, id: Seq<char>, k: int) -> bool {
    &&& 0 <= k < videos.len()
    &&& videos[k].id@ == id
    &&& forall|j: int| 0 <= j < k ==> videos[j].id@ != id
}

/// The first video with id `id`, if any.
pub open spec fn video_index(videos: Seq<VideoInfo>, id: Seq<char>) -> Option<int> {
    if exists|k: int| is_first_video(videos, id, k) {
        Some(choose|k: int| is_first_video(videos, id, k))
    } else {
        None
    }
}

/// "{item} - {video}", followed by " ({season}x{episode})" for a video of a series.
pub open spec fn video_title(item: MetaItemInfo, video: VideoInfo) -> Seq<char> {
    let base = item.name@ + seq![' ', '-', ' '] + video.title@;
    match video.series_info {
        Some(s) => base + seq![' ', '('] + decimal(s.season as nat) + seq!['x'] + decimal(
            s.episode as nat,
        ) + seq![')'],
        None => base,
    }
}

/// The screen's title for a loaded item: the selected video's title when a
/// video is selected, exists, and the item names no default video; else the
/// item's name.
pub open spec fn title_of(item: MetaItemInfo, selected: Option<Selected>) -> Seq<char> {
    match selected {
        Some(sel) => match sel.stream_path {
            Some(path) => match video_index(item.videos@, path.id@) {
                Some(k) => if item.behavior_hints.default_video_id is None {
                    video_title(item, item.videos@[k])
                } else {
                    item.name@
                },
                None => item.name@,
            },
            None => item.name@,
        },
        None => item.name@,
    }
}

/// The title of the screen: present exactly when the primary meta slot is
/// loaded and its provider installed.
pub open spec fn title_view(r: Option<String>, s: MetaDetailsState, addons: Seq<Descriptor>) -> bool {
    match attributed_primary(s.meta_items@, addons) {
        Some(k) => match s.meta_items@[k].content {
            Loadable::Ready(item) => r matches Some(t) && t@ == title_of(item, s.selected),
            _ => r is None,
        },
        None => r is None,
    }
}

pub fn find_video(videos: &Vec<VideoInfo>, id: &String) -> (r: Option<usize>)
    ensures
        as_index(r) == video_index(videos@, id@),
{
    let n = videos.len();
    let mut i: usize = 0;
    while i < n
        invariant
            n == videos@.len(),
            i <= n,
            forall|j: int| 0 <= j < i ==> videos@[j].id@ != id@,
        decreases n - i,
    {
        if videos[i].id == *id {
            assert(is_first_video(videos@, id@, i as int));
            assert forall|k: int| is_first_video(videos@, id@, k) implies k == i by {
                if k > i {
                    assert(videos@[i as int].id@ == id@);
                }
            }
            return Some(i);
        }
        i = i + 1;
    }
    assert(forall|k: int| !is_first_video(videos@, id@, k));
    None
}

/// The title of one video of `item`.
pub fn format_video_title(item: &MetaItemInfo, video: &VideoInfo) -> (r: String)
    ensures
        r@ == video_title(*item, *video),
{
    let mut t = item.name.clone();
    proof {
        reveal_strlit(" - ");
        reveal_strlit(" (");
        reveal_strlit("x");
        reveal_strlit(")");
    }
    t.append(" - ");
    t.append(video.title.as_str());
    match &video.series_info {
        Some(s) => {
            t.append(" (");
            let season = decimal_string(s.season);
            t.append(season.as_str());
            t.append("x");
            let episode = decimal_string(s.episode);
            t.append(episode.as_str());
            t.append(")");
        },
        None => {},
    }
    t
}

/// The title for a loaded `item` under the current selection.
pub fn item_title(item: &MetaItemInfo, selected: &Option<Selected>) -> (r: String)
    ensures
        r@ == title_of(*item, *selected),
{
    match selected {
        Some(sel) => match &sel.stream_path {
            Some(path) => match find_video(&item.videos, &path.id) {
                Some(k) => {
                    if item.behavior_hints.default_video_id.is_none() {
                        format_video_title(item, &item.videos[k])
                    } else {
                        item.name.clone()
                    }
                },
                None => item.name.clone(),
            },
            None => item.name.clone(),
        },
        None => item.name.clone(),
    }
}

/// The title of the details screen.
pub fn derive_title(state: &MetaDetailsState, addons: &Vec<Descriptor>) -> (r: Option<String>)
    ensures
        title_view(r, *state, addons@),
{
    match select_attributed_primary(&state.meta_items, addons) {
        Some(k) => match &state.meta_items[k].content {
            Loadable::Ready(item) => Some(item_title(item, &state.selected)),
            _ => None,
        },
        None => None,
    }
}

} // verus!
