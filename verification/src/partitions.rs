//! Finding the device of each partition in the listing that a block-device
//! identification tool prints.
//!
//! The listing holds one record per line, `<device>:<attributes>`. A line is
//! taken for a partition when it holds the configured identifier anywhere,
//! as a plain substring: nothing anchors the match to an attribute. Each
//! partition is looked for on its own, so one line can serve several.

use crate::config::{Cfg, CfgView};
use crate::text::{
    chars_of, contains, lines, occurs_at, opt_text, split_lines, split_once, split_text_once,
    string_of, text_contains, texts,
};
use vstd::prelude::*;

verus! {

/// One of the three partitions that a boot needs.
#[derive(Debug, Clone, Copy, PartialEq, Eq, Structural)]
pub enum Volume {
    Root,
    Swap,
    Home,
}

/// The device path of each partition.
#[derive(Debug, Clone, PartialEq, Eq)]
pub struct Partitions {
    pub root: String,
    pub swap: String,
    pub home: String,
}

/// The device paths as plain texts.
pub ghost struct PartitionsView {
    pub root: Seq<char>,
    pub swap: Seq<char>,
    pub home: Seq<char>,
}

impl View for Partitions {
    type V = PartitionsView;

    open spec fn view(&self) -> PartitionsView {
        PartitionsView { root: self.root@, swap: self.swap@, home: self.home@ }
    }
}

/// Why no device could be given for a partition.
#[derive(Debug, Clone, PartialEq, Eq)]
pub enum PartitionError {
    /// The first line that holds the identifier `id` of `volume` has no `:`
    /// to end a device path.
    NoDevice { volume: Volume, id: String, line: String },
    /// No line of the listing holds the identifier `id` of `volume`.
    NotFound { volume: Volume, id: String },
}

/// A failure as plain values.
pub ghost enum PartitionErrorView {
    NoDevice { volume: Volume, id: Seq<char>, line: Seq<char> },
    NotFound { volume: Volume, id: Seq<char> },
}

impl View for PartitionError {
    type V = PartitionErrorView;

    open spec fn view(&self) -> PartitionErrorView {
        match self {
            PartitionError::NoDevice { volume, id, line } => PartitionErrorView::NoDevice {
                volume: *volume,
                id: id@,
                line: line@,
            },
            PartitionError::NotFound { volume, id } => PartitionErrorView::NotFound {
                volume: *volume,
                id: id@,
            },
        }
    }
}

/// The place of a volume in the order root, swap, home.
pub open spec fn volume_rank(volume: Volume) -> int {
    match volume {
        Volume::Root => 0,
        Volume::Swap => 1,
        Volume::Home => 2,
    }
}

/// The identifier that is configured for `volume`.
pub open spec fn id_of(cfg: CfgView, volume: Volume) -> Seq<char> {
    match volume {
        Volume::Root => cfg.root_uuid,
        Volume::Swap => cfg.swap_uuid,
        Volume::Home => cfg.home_uuid,
    }
}

/// Whether `line` is taken for `volume`: it holds the identifier of the
/// volume somewhere.
pub open spec fn names(line: Seq<char>, cfg: CfgView, volume: Volume) -> bool {
    contains(line, id_of(cfg, volume))
}

/// Whether line `i` is the first of `ls` that is taken for `volume`.
pub open spec fn is_first_line_of(ls: Seq<Seq<char>>, cfg: CfgView, volume: Volume, i: int) -> bool {
    &&& 0 <= i < ls.len()
    &&& names(ls[i], cfg, volume)
    &&& forall|j: int| 0 <= j < i ==> !names(#[trigger] ls[j], cfg, volume)
}

/// The index of the first line of `ls` that is taken for `volume`.
pub open spec fn first_line_of(ls: Seq<Seq<char>>, cfg: CfgView, volume: Volume) -> Option<int>
    decreases ls.len(),
{
    if ls.len() == 0 {
        None
    } else {
        match first_line_of(ls.drop_last(), cfg, volume) {
            Some(i) => Some(i),
            None => if names(ls.last(), cfg, volume) {
                Some(ls.len() - 1)
            } else {
                None
            },
        }
    }
}

/// The device path of a record: the text before its first `:`.
pub open spec fn device_of(line: Seq<char>) -> Option<Seq<char>> {
    match split_once(line, ':') {
        Some((device, _)) => Some(device),
        None => None,
    }
}

/// The index of the first line for `volume`, where that line gives no device.
pub open spec fn broken_line(ls: Seq<Seq<char>>, cfg: CfgView, volume: Volume) -> Option<int> {
    match first_line_of(ls, cfg, volume) {
        Some(i) => if device_of(ls[i]) is None {
            Some(i)
        } else {
            None
        },
        None => None,
    }
}

/// Whether `a` is a line and comes before `b`, or `b` is none.
pub open spec fn comes_first(a: Option<int>, b: Option<int>) -> bool {
    a is Some && (b is None || a->0 < b->0)
}

/// Whether `a` is a line and does not come after `b`, or `b` is none.
pub open spec fn not_after(a: Option<int>, b: Option<int>) -> bool {
    a is Some && (b is None || a->0 <= b->0)
}

/// The partition whose broken line comes first in the listing. Where one
/// line is the broken line of several, root goes before swap and swap before
/// home.
pub open spec fn first_broken(ls: Seq<Seq<char>>, cfg: CfgView) -> Option<Volume> {
    let r = broken_line(ls, cfg, Volume::Root);
    let s = broken_line(ls, cfg, Volume::Swap);
    let h = broken_line(ls, cfg, Volume::Home);
    if not_after(r, s) && not_after(r, h) {
        Some(Volume::Root)
    } else if comes_first(s, r) && not_after(s, h) {
        Some(Volume::Swap)
    } else if comes_first(h, r) && comes_first(h, s) {
        Some(Volume::Home)
    } else {
        None
    }
}

/// The device of `volume`: the device path on the first line taken for it.
pub open spec fn found_device(ls: Seq<Seq<char>>, cfg: CfgView, volume: Volume) -> Option<
    Seq<char>,
> {
    match first_line_of(ls, cfg, volume) {
        Some(i) => device_of(ls[i]),
        None => None,
    }
}

/// What a listing resolves to. Every line is tested for each of the three
/// identifiers. Each partition takes the device path of the first line that
/// holds its identifier; later lines that hold it are passed over unread. If
/// such a first line gives no device, the earliest of them is the failure. If
/// all can be read, the first of root, swap and home without a line is the
/// failure.
pub open spec fn resolve(listing: Seq<char>, cfg: CfgView) -> Result<
    PartitionsView,
    PartitionErrorView,
> {
    let ls = lines(listing);
    match first_broken(ls, cfg) {
        Some(volume) => Err(
            PartitionErrorView::NoDevice {
                volume,
                id: id_of(cfg, volume),
                line: ls[first_line_of(ls, cfg, volume)->0],
            },
        ),
        None => {
            let root = found_device(ls, cfg, Volume::Root);
            let swap = found_device(ls, cfg, Volume::Swap);
            let home = found_device(ls, cfg, Volume::Home);
            if root is None {
                Err(PartitionErrorView::NotFound { volume: Volume::Root, id: cfg.root_uuid })
            } else if swap is None {
                Err(PartitionErrorView::NotFound { volume: Volume::Swap, id: cfg.swap_uuid })
            } else if home is None {
                Err(PartitionErrorView::NotFound { volume: Volume::Home, id: cfg.home_uuid })
            } else {
                Ok(PartitionsView { root: root->0, swap: swap->0, home: home->0 })
            }
        },
    }
}

/// `first_line_of` is the least index of a line taken for the partition.
pub proof fn lemma_first_line_of(ls: Seq<Seq<char>>, cfg: CfgView, volume: Volume)
    ensures
        match first_line_of(ls, cfg, volume) {
            Some(i) => is_first_line_of(ls, cfg, volume, i),
            None => forall|j: int| 0 <= j < ls.len() ==> !names(#[trigger] ls[j], cfg, volume),
        },
    decreases ls.len(),
{
    if ls.len() > 0 {
        let init = ls.drop_last();
        lemma_first_line_of(init, cfg, volume);
        assert forall|j: int| 0 <= j < init.len() implies init[j] == ls[j] by {}
        match first_line_of(init, cfg, volume) {
            Some(i) => {
                assert(init[i] == ls[i]);
                assert forall|j: int| 0 <= j < i implies !names(#[trigger] ls[j], cfg, volume) by {
                    assert(init[j] == ls[j]);
                }
            },
            None => {
                assert forall|j: int| 0 <= j < ls.len() - 1 implies !names(
                    #[trigger] ls[j],
                    cfg,
                    volume,
                ) by {
                    assert(init[j] == ls[j]);
                }
            },
        }
    }
}

/// The first line taken for a partition is what `first_line_of` names.
pub proof fn lemma_first_line_is(ls: Seq<Seq<char>>, cfg: CfgView, volume: Volume, i: int)
    requires
        is_first_line_of(ls, cfg, volume, i),
    ensures
        first_line_of(ls, cfg, volume) == Some(i),
{
    lemma_first_line_of(ls, cfg, volume);
    match first_line_of(ls, cfg, volume) {
        Some(k) => {
            if k < i {
                assert(!names(ls[k], cfg, volume));
            }
            if i < k {
                assert(!names(ls[i], cfg, volume));
            }
        },
        None => {
            assert(!names(ls[i], cfg, volume));
        },
    }
}

/// What a scan of the first `n` lines knows of `volume`: either line `at` is
/// its first line and `found` the device there, or no line was taken for it.
pub open spec fn scanned(
    ls: Seq<Seq<char>>,
    cfg: CfgView,
    volume: Volume,
    n: int,
    at: Option<int>,
    found: Option<Seq<char>>,
) -> bool {
    match at {
        Some(k) => k < n && is_first_line_of(ls, cfg, volume, k) && found is Some && found
            == device_of(ls[k]),
        None => found is None && forall|j: int|
            0 <= j < n ==> !names(#[trigger] ls[j], cfg, volume),
    }
}

/// After a scan of `n` lines without a broken line, a partition has no broken
/// line before index `n`.
proof fn lemma_scanned_not_broken(
    ls: Seq<Seq<char>>,
    cfg: CfgView,
    volume: Volume,
    n: int,
    at: Option<int>,
    found: Option<Seq<char>>,
)
    requires
        0 <= n <= ls.len(),
        scanned(ls, cfg, volume, n, at, found),
    ensures
        broken_line(ls, cfg, volume) matches Some(k) ==> k >= n,
        at is Some ==> broken_line(ls, cfg, volume) is None && found_device(ls, cfg, volume)
            == found,
        n == ls.len() ==> found_device(ls, cfg, volume) == found && broken_line(ls, cfg, volume)
            is None,
{
    lemma_first_line_of(ls, cfg, volume);
    match at {
        Some(k) => {
            lemma_first_line_is(ls, cfg, volume, k);
        },
        None => {
            match first_line_of(ls, cfg, volume) {
                Some(k) => {
                    if k < n {
                        assert(!names(ls[k], cfg, volume));
                    }
                },
                None => {},
            }
        },
    }
}

/// How far the scan of line `i` has come when it looks at `volume`: the
/// partitions that go before it are done with that line.
spec fn reach(i: int, volume: Volume, other: Volume) -> int {
    if volume_rank(other) < volume_rank(volume) {
        i + 1
    } else {
        i
    }
}

/// A line without a device that is the first for a partition, found by a
/// scan that met no broken line before it, is the failure of the listing.
proof fn lemma_broken_here(
    ls: Seq<Seq<char>>,
    cfg: CfgView,
    volume: Volume,
    i: int,
    ri: Option<int>,
    si: Option<int>,
    hi: Option<int>,
    r: Option<Seq<char>>,
    s: Option<Seq<char>>,
    h: Option<Seq<char>>,
)
    requires
        0 <= i < ls.len(),
        scanned(ls, cfg, Volume::Root, reach(i, volume, Volume::Root), ri, r),
        scanned(ls, cfg, Volume::Swap, reach(i, volume, Volume::Swap), si, s),
        scanned(ls, cfg, Volume::Home, reach(i, volume, Volume::Home), hi, h),
        names(ls[i], cfg, volume),
        match volume {
            Volume::Root => ri is None,
            Volume::Swap => si is None,
            Volume::Home => hi is None,
        },
        device_of(ls[i]) is None,
    ensures
        first_broken(ls, cfg) == Some(volume),
        first_line_of(ls, cfg, volume) == Some(i),
{
    lemma_scanned_not_broken(ls, cfg, Volume::Root, reach(i, volume, Volume::Root), ri, r);
    lemma_scanned_not_broken(ls, cfg, Volume::Swap, reach(i, volume, Volume::Swap), si, s);
    lemma_scanned_not_broken(ls, cfg, Volume::Home, reach(i, volume, Volume::Home), hi, h);
    lemma_first_line_of(ls, cfg, Volume::Root);
    lemma_first_line_of(ls, cfg, Volume::Swap);
    lemma_first_line_of(ls, cfg, Volume::Home);
    assert(is_first_line_of(ls, cfg, volume, i));
    lemma_first_line_is(ls, cfg, volume, i);
}

/// A scan that is done with line `i` for a partition knows as much of the
/// first `i + 1` lines as it knew of the first `i`, when it had found the
/// partition before or the line does not hold the identifier.
proof fn lemma_scan_passes(
    ls: Seq<Seq<char>>,
    cfg: CfgView,
    volume: Volume,
    i: int,
    at: Option<int>,
    found: Option<Seq<char>>,
)
    requires
        0 <= i < ls.len(),
        scanned(ls, cfg, volume, i, at, found),
        at is Some || !names(ls[i], cfg, volume),
    ensures
        scanned(ls, cfg, volume, i + 1, at, found),
{
}

/// Looks at one line for one partition. A partition that was found before is
/// left as it is. Else, if the line holds the identifier `id`, the device of
/// the line is taken; `Err` says that such a line gives no device.
fn scan_line(line: &Vec<char>, id: &Vec<char>, found: Option<Vec<char>>) -> (r: Result<
    Option<Vec<char>>,
    (),
>)
    ensures
        match r {
            Ok(now) => opt_text(now) == (if found is Some || !contains(line@, id@) {
                opt_text(found)
            } else {
                device_of(line@)
            }) && (found is None && contains(line@, id@) ==> device_of(line@) is Some),
            Err(_) => found is None && contains(line@, id@) && device_of(line@) is None,
        },
{
    if found.is_some() || !text_contains(line, id) {
        return Ok(found);
    }
    match split_text_once(line, ':') {
        Some((device, _)) => Ok(Some(device)),
        None => Err(()),
    }
}

/// Finds the device of each partition of `cfg` in `listing`, the captured
/// output of the identification tool.
pub fn get_partitions(cfg: &Cfg, listing: &str) -> (r: Result<Partitions, PartitionError>)
    ensures
        match r {
            Ok(p) => resolve(listing@, cfg@) == Ok::<PartitionsView, PartitionErrorView>(p@),
            Err(e) => resolve(listing@, cfg@) == Err::<PartitionsView, PartitionErrorView>(e@),
        },
{
    let root_id = chars_of(cfg.root_uuid.as_str());
    let swap_id = chars_of(cfg.swap_uuid.as_str());
    let home_id = chars_of(cfg.home_uuid.as_str());
    let ls = split_lines(&chars_of(listing));
    let ghost all = lines(listing@);
    let ghost c = cfg@;
    let mut root: Option<Vec<char>> = None;
    let mut swap: Option<Vec<char>> = None;
    let mut home: Option<Vec<char>> = None;
    let ghost mut ri: Option<int> = None;
    let ghost mut si: Option<int> = None;
    let ghost mut hi: Option<int> = None;
    let mut i: usize = 0;
    while i < ls.len()
        invariant
            i <= ls.len(),
            texts(ls@) == all,
            all == lines(listing@),
            c == cfg@,
            root_id@ == cfg.root_uuid@,
            swap_id@ == cfg.swap_uuid@,
            home_id@ == cfg.home_uuid@,
            scanned(all, c, Volume::Root, i as int, ri, opt_text(root)),
            scanned(all, c, Volume::Swap, i as int, si, opt_text(swap)),
            scanned(all, c, Volume::Home, i as int, hi, opt_text(home)),
        decreases ls.len() - i,
    {
        let line = &ls[i];
        assert(line@ == all[i as int]);
        let ghost was_root = root;
        match scan_line(line, &root_id, root) {
            Ok(now) => {
                root = now;
                proof {
                    if was_root is None && names(all[i as int], c, Volume::Root) {
                        ri = Some(i as int);
                    } else {
                        lemma_scan_passes(all, c, Volume::Root, i as int, ri, opt_text(was_root));
                    }
                }
            },
            Err(_) => {
                proof {
                    lemma_broken_here(
                        all,
                        c,
                        Volume::Root,
                        i as int,
                        ri,
                        si,
                        hi,
                        opt_text(was_root),
                        opt_text(swap),
                        opt_text(home),
                    );
                }
                return Err(
                    PartitionError::NoDevice {
                        volume: Volume::Root,
                        id: cfg.root_uuid.clone(),
                        line: string_of(line),
                    },
                );
            },
        }
        let ghost was_swap = swap;
        match scan_line(line, &swap_id, swap) {
            Ok(now) => {
                swap = now;
                proof {
                    if was_swap is None && names(all[i as int], c, Volume::Swap) {
                        si = Some(i as int);
                    } else {
                        lemma_scan_passes(all, c, Volume::Swap, i as int, si, opt_text(was_swap));
                    }
                }
            },
            Err(_) => {
                proof {
                    lemma_broken_here(
                        all,
                        c,
                        Volume::Swap,
                        i as int,
                        ri,
                        si,
                        hi,
                        opt_text(root),
                        opt_text(was_swap),
                        opt_text(home),
                    );
                }
                return Err(
                    PartitionError::NoDevice {
                        volume: Volume::Swap,
                        id: cfg.swap_uuid.clone(),
                        line: string_of(line),
                    },
                );
            },
        }
        let ghost was_home = home;
        match scan_line(line, &home_id, home) {
            Ok(now) => {
                home = now;
                proof {
                    if was_home is None && names(all[i as int], c, Volume::Home) {
                        hi = Some(i as int);
                    } else {
                        lemma_scan_passes(all, c, Volume::Home, i as int, hi, opt_text(was_home));
                    }
                }
            },
            Err(_) => {
                proof {
                    lemma_broken_here(
                        all,
                        c,
                        Volume::Home,
                        i as int,
                        ri,
                        si,
                        hi,
                        opt_text(root),
                        opt_text(swap),
                        opt_text(was_home),
                    );
                }
                return Err(
                    PartitionError::NoDevice {
                        volume: Volume::Home,
                        id: cfg.home_uuid.clone(),
                        line: string_of(line),
                    },
                );
            },
        }
        i += 1;
    }
    proof {
        lemma_scanned_not_broken(all, c, Volume::Root, i as int, ri, opt_text(root));
        lemma_scanned_not_broken(all, c, Volume::Swap, i as int, si, opt_text(swap));
        lemma_scanned_not_broken(all, c, Volume::Home, i as int, hi, opt_text(home));
    }
    let root = match root {
        Some(v) => v,
        None => {
            return Err(
                PartitionError::NotFound { volume: Volume::Root, id: cfg.root_uuid.clone() },
            );
        },
    };
    let swap = match swap {
        Some(v) => v,
        None => {
            return Err(
                PartitionError::NotFound { volume: Volume::Swap, id: cfg.swap_uuid.clone() },
            );
        },
    };
    let home = match home {
        Some(v) => v,
        None => {
            return Err(
                PartitionError::NotFound { volume: Volume::Home, id: cfg.home_uuid.clone() },
            );
        },
    };
    Ok(Partitions { root: string_of(&root), swap: string_of(&swap), home: string_of(&home) })
}

/// The device of a partition in a resolved listing.
pub open spec fn path_of(p: PartitionsView, volume: Volume) -> Seq<char> {
    match volume {
        Volume::Root => p.root,
        Volume::Swap => p.swap,
        Volume::Home => p.home,
    }
}

/// A text holds whatever stands between two of its parts.
pub proof fn law_part_is_contained(before: Seq<char>, needle: Seq<char>, after: Seq<char>)
    ensures
        contains(before + needle + after, needle),
{
    let hay = before + needle + after;
    assert(hay.subrange(before.len() as int, (before.len() + needle.len()) as int) =~= needle);
    assert(occurs_at(hay, needle, before.len() as int));
}

/// The match is by substring alone: a line that holds the identifier of a
/// partition anywhere, whatever stands before and after it and whatever
/// other identifiers it holds, is taken for that partition.
pub proof fn law_identifier_matches_anywhere(
    cfg: CfgView,
    volume: Volume,
    before: Seq<char>,
    after: Seq<char>,
)
    ensures
        names(before + id_of(cfg, volume) + after, cfg, volume),
{
    law_part_is_contained(before, id_of(cfg, volume), after);
}

/// Each partition is looked for on its own: in a listing that resolves, the
/// device of a partition is the text before the first `:` of the first line
/// that holds its identifier, whatever else that line is taken for.
pub proof fn law_first_line_gives_device(listing: Seq<char>, cfg: CfgView, volume: Volume, i: int)
    requires
        resolve(listing, cfg) is Ok,
        is_first_line_of(lines(listing), cfg, volume, i),
    ensures
        device_of(lines(listing)[i]) == Some(path_of(resolve(listing, cfg)->Ok_0, volume)),
{
    lemma_first_line_is(lines(listing), cfg, volume, i);
}

/// A listing resolves exactly when each partition has a line that holds its
/// identifier and the first such line of each holds a `:`.
pub proof fn law_resolves_iff(listing: Seq<char>, cfg: CfgView)
    ensures
        resolve(listing, cfg) is Ok <==> (forall|volume: Volume|
            found_device(lines(listing), cfg, volume) is Some),
{
    let ls = lines(listing);
    lemma_first_line_of(ls, cfg, Volume::Root);
    lemma_first_line_of(ls, cfg, Volume::Swap);
    lemma_first_line_of(ls, cfg, Volume::Home);
    if resolve(listing, cfg) is Ok {
        assert forall|volume: Volume| found_device(ls, cfg, volume) is Some by {
            match volume {
                Volume::Root => {},
                Volume::Swap => {},
                Volume::Home => {},
            }
        }
    }
    if forall|volume: Volume| found_device(ls, cfg, volume) is Some {
        assert(found_device(ls, cfg, Volume::Root) is Some);
        assert(found_device(ls, cfg, Volume::Swap) is Some);
        assert(found_device(ls, cfg, Volume::Home) is Some);
    }
}

/// A partition is not found only when no line holds its identifier.
pub proof fn law_not_found_means_no_line(listing: Seq<char>, cfg: CfgView)
    ensures
        resolve(listing, cfg) matches Err(PartitionErrorView::NotFound { volume, id }) ==> id
            == id_of(cfg, volume) && forall|j: int|
            0 <= j < lines(listing).len() ==> !contains(#[trigger] lines(listing)[j], id),
{
    let ls = lines(listing);
    lemma_first_line_of(ls, cfg, Volume::Root);
    lemma_first_line_of(ls, cfg, Volume::Swap);
    lemma_first_line_of(ls, cfg, Volume::Home);
}

} // verus!
