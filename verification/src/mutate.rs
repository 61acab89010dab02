//! In-place tree mutations: dropping high-framerate timings, dropping
//! high-resolution frames, removing frame-based formats, and removing
//! interfaces or interface associations by number.

use vstd::prelude::*;

use crate::tree::children_view;
use crate::tree::lemma_children_view_index;
use crate::tree::lemma_children_view_len;
use crate::tree::lemma_children_view_push;
use crate::tree::node_view;
use crate::tree::NodeV;
use crate::tree::TreeNode;
use crate::usb_proto::DescriptorTypes;
use crate::usb_proto::DescV;
use crate::usb_proto::UsbInterfaceAssocDescriptor;
use crate::uvc_proto::UncompressedFormats;
use crate::uvc_proto::DescriptorUvcInputHeaderV;
use crate::usb_proto::DescError;
use crate::query::spec_get_uvc_input_hdr;
use crate::query::spec_get_uvc_input_hdr_in;

verus! {

broadcast use vstd::std_specs::vec::group_vec_axioms;

/// Frame intervals shorter than this many 100 ns units (faster than about
/// 30 frames per second) are dropped by `remove_high_fps`.
pub const MIN_FRAME_INTERVAL: u32 = 333333;

/// The intervals of `s` from position `k` on that are kept: those at least
/// `MIN_FRAME_INTERVAL` long.
pub open spec fn spec_kept_intervals(s: Seq<u32>, k: int) -> Seq<u32>
    decreases s.len() - k,
{
    if k < 0 || k >= s.len() {
        Seq::empty()
    } else {
        (if s[k] >= MIN_FRAME_INTERVAL {
            seq![s[k]]
        } else {
            Seq::empty()
        }) + spec_kept_intervals(s, k + 1)
    }
}

/// The record after dropping its high-framerate intervals; only frame
/// records change.
pub open spec fn spec_low_fps_parsed(d: DescV) -> DescV {
    match d {
        DescV::UvcFrameFrameBased(f) => DescV::UvcFrameFrameBased(
            crate::uvc_proto::DescriptorUvcFrameFrameBasedV {
                dw_frame_interval: spec_kept_intervals(f.dw_frame_interval, 0),
                ..f
            },
        ),
        DescV::DescriptorUvcFrameMjpeg(f) => DescV::DescriptorUvcFrameMjpeg(
            crate::uvc_proto::DescriptorUvcFrameMjpegV {
                dw_frame_interval: spec_kept_intervals(f.dw_frame_interval, 0),
                ..f
            },
        ),
        DescV::DescriptorUvcFrameUncompressed(f) => DescV::DescriptorUvcFrameUncompressed(
            crate::uvc_proto::DescriptorUvcFrameUncompressedV {
                dw_frame_interval: spec_kept_intervals(f.dw_frame_interval, 0),
                ..f
            },
        ),
        _ => d,
    }
}

/// The subtree after dropping high-framerate intervals everywhere.
pub open spec fn spec_remove_high_fps(n: NodeV) -> NodeV
    decreases n, 0int,
{
    NodeV { parsed: spec_low_fps_parsed(n.parsed), children: spec_remove_high_fps_in(n.children, 0) }
}

pub open spec fn spec_remove_high_fps_in(cs: Seq<NodeV>, k: int) -> Seq<NodeV>
    decreases cs, cs.len() - k + 1,
{
    if k < 0 || k >= cs.len() {
        Seq::empty()
    } else {
        seq![spec_remove_high_fps(cs[k])] + spec_remove_high_fps_in(cs, k + 1)
    }
}

/// Copies the intervals of `v` that are kept by the framerate policy.
fn filter_intervals(v: &Vec<u32>) -> (r: Vec<u32>)
    ensures
        r@ == spec_kept_intervals(v@, 0),
{
    let mut out: Vec<u32> = Vec::new();
    let mut i: usize = 0;
    proof {
        assert(out@ + spec_kept_intervals(v@, 0) =~= spec_kept_intervals(v@, 0));
    }
    while i < v.len()
        invariant
            i <= v@.len(),
            out@ + spec_kept_intervals(v@, i as int) == spec_kept_intervals(v@, 0),
        decreases v@.len() - i,
    {
        if v[i] >= MIN_FRAME_INTERVAL {
            out.push(v[i]);
        }
        proof {
            assert(out@ + spec_kept_intervals(v@, i + 1) =~= spec_kept_intervals(v@, 0));
        }
        i = i + 1;
    }
    proof {
        assert(out@ =~= out@ + spec_kept_intervals(v@, v@.len() as int));
    }
    out
}

/// Whether interface number `id` appears in `ids` at or after position `k`.
pub open spec fn spec_id_listed(ids: Seq<u8>, k: int, id: u8) -> bool
    decreases ids.len() - k,
{
    if k < 0 || k >= ids.len() {
        false
    } else {
        ids[k] == id || spec_id_listed(ids, k + 1, id)
    }
}

fn id_listed(ids: &Vec<u8>, id: u8) -> (r: bool)
    ensures
        r == spec_id_listed(ids@, 0, id),
{
    let mut i: usize = 0;
    while i < ids.len()
        invariant
            i <= ids@.len(),
            spec_id_listed(ids@, 0, id) == spec_id_listed(ids@, i as int, id),
        decreases ids@.len() - i,
    {
        if ids[i] == id {
            return true;
        }
        i = i + 1;
    }
    false
}

/// Whether the association's interface range covers any listed number at
/// or after position `k`.
pub open spec fn spec_assoc_hit(a: UsbInterfaceAssocDescriptor, ids: Seq<u8>, k: int) -> bool
    decreases ids.len() - k,
{
    if k < 0 || k >= ids.len() {
        false
    } else {
        a.spec_covers(ids[k]) || spec_assoc_hit(a, ids, k + 1)
    }
}

fn assoc_hit(a: &UsbInterfaceAssocDescriptor, ids: &Vec<u8>) -> (r: bool)
    ensures
        r == spec_assoc_hit(*a, ids@, 0),
{
    let mut i: usize = 0;
    while i < ids.len()
        invariant
            i <= ids@.len(),
            spec_assoc_hit(*a, ids@, 0) == spec_assoc_hit(*a, ids@, i as int),
        decreases ids@.len() - i,
    {
        if a.covers(ids[i]) {
            return true;
        }
        i = i + 1;
    }
    false
}

/// The subtree after removing every interface record whose number is
/// listed.
pub open spec fn spec_remove_ifaces(n: NodeV, ids: Seq<u8>) -> NodeV
    decreases n, 0int,
{
    NodeV { parsed: n.parsed, children: spec_remove_ifaces_in(n.children, 0, ids) }
}

pub open spec fn spec_remove_ifaces_in(cs: Seq<NodeV>, k: int, ids: Seq<u8>) -> Seq<NodeV>
    decreases cs, cs.len() - k + 1,
{
    if k < 0 || k >= cs.len() {
        Seq::empty()
    } else {
        (if cs[k].parsed matches DescV::Interface(i) && spec_id_listed(
            ids,
            0,
            i.b_interface_number,
        ) {
            Seq::empty()
        } else {
            seq![spec_remove_ifaces(cs[k], ids)]
        }) + spec_remove_ifaces_in(cs, k + 1, ids)
    }
}

/// The subtree after removing every interface association whose range
/// covers a listed number.
pub open spec fn spec_remove_iface_assoc(n: NodeV, ids: Seq<u8>) -> NodeV
    decreases n, 0int,
{
    NodeV { parsed: n.parsed, children: spec_remove_iface_assoc_in(n.children, 0, ids) }
}

pub open spec fn spec_remove_iface_assoc_in(cs: Seq<NodeV>, k: int, ids: Seq<u8>) -> Seq<NodeV>
    decreases cs, cs.len() - k + 1,
{
    if k < 0 || k >= cs.len() {
        Seq::empty()
    } else {
        (if cs[k].parsed matches DescV::InterfaceAssociation(a) && spec_assoc_hit(a, ids, 0) {
            Seq::empty()
        } else {
            seq![spec_remove_iface_assoc(cs[k], ids)]
        }) + spec_remove_iface_assoc_in(cs, k + 1, ids)
    }
}

impl TreeNode {
    /// Drops every frame interval faster than about 30 frames per second
    /// from every frame record in the subtree.
    pub fn remove_high_fps(&mut self)
        ensures
            final(self)@ == spec_remove_high_fps(old(self)@),
            old(self)@.tree_wf() ==> final(self)@.tree_wf(),
        decreases *old(self),
    {
        proof {
            if old(self)@.tree_wf() {
                lemma_remove_high_fps_wf(old(self)@);
            }
        }
        match &mut self.parsed {
            DescriptorTypes::UvcFrameFrameBased(frame) => {
                let kept = filter_intervals(&frame.dw_frame_interval);
                frame.dw_frame_interval = kept;
            },
            DescriptorTypes::DescriptorUvcFrameMjpeg(frame) => {
                let kept = filter_intervals(&frame.dw_frame_interval);
                frame.dw_frame_interval = kept;
            },
            DescriptorTypes::DescriptorUvcFrameUncompressed(frame) => {
                let kept = filter_intervals(&frame.dw_frame_interval);
                frame.dw_frame_interval = kept;
            },
            _ => {},
        }
        proof {
            assert(self.parsed@ == spec_low_fps_parsed(old(self).parsed@));
        }
        let mut i: usize = 0;
        while i < self.children.len()
            invariant
                i <= self.children@.len(),
                self.children@.len() == old(self).children@.len(),
                self.parsed@ == spec_low_fps_parsed(old(self).parsed@),
                forall|j: int|
                    i <= j < self.children@.len() ==> self.children@[j] == old(self).children@[j],
                forall|j: int|
                    0 <= j < i ==> node_view(#[trigger] self.children@[j]) == spec_remove_high_fps(
                        children_view(old(self).children@)[j],
                    ),
            decreases self.children@.len() - i,
        {
            proof {
                lemma_children_view_index(old(self).children@, i as int);
            }
            let child = &mut self.children[i];
            child.remove_high_fps();
            i = i + 1;
        }
        proof {
            let cv = children_view(old(self).children@);
            lemma_children_view_len(old(self).children@);
            lemma_children_view_len(self.children@);
            lemma_remove_high_fps_in_index(cv, 0);
            assert forall|j: int| 0 <= j < cv.len() implies children_view(self.children@)[j]
                == spec_remove_high_fps_in(cv, 0)[j] by {
                lemma_children_view_index(self.children@, j);
                lemma_remove_high_fps_in_index(cv, j);
            }
            assert(children_view(self.children@) =~= spec_remove_high_fps_in(cv, 0));
            assert(self@ =~= spec_remove_high_fps(old(self)@));
        }
    }

    /// Removes every interface whose number is listed in `ids`, everywhere
    /// in the subtree.
    pub fn remove_ifaces(&mut self, ids: &Vec<u8>)
        ensures
            final(self)@ == spec_remove_ifaces(old(self)@, ids@),
            old(self)@.tree_wf() ==> final(self)@.tree_wf(),
        decreases *old(self),
    {
        proof {
            if old(self)@.tree_wf() {
                lemma_remove_ifaces_wf(old(self)@, ids@);
            }
        }
        let mut i: usize = 0;
        while i < self.children.len()
            invariant
                i <= self.children@.len(),
                self.children@.len() == old(self).children@.len(),
                self.parsed == old(self).parsed,
                forall|j: int|
                    i <= j < self.children@.len() ==> self.children@[j] == old(self).children@[j],
                forall|j: int|
                    0 <= j < i ==> node_view(#[trigger] self.children@[j]) == spec_remove_ifaces(
                        children_view(old(self).children@)[j],
                        ids@,
                    ),
            decreases self.children@.len() - i,
        {
            proof {
                lemma_children_view_index(old(self).children@, i as int);
            }
            let child = &mut self.children[i];
            child.remove_ifaces(ids);
            i = i + 1;
        }
        let ghost cv = children_view(old(self).children@);
        let ghost mid = self.children@;
        proof {
            lemma_children_view_len(old(self).children@);
            lemma_children_view_len(mid);
        }
        let mut kept: Vec<TreeNode> = Vec::new();
        let ghost k: int = 0;
        proof {
            assert(children_view(kept@) + spec_remove_ifaces_in(cv, 0, ids@)
                =~= spec_remove_ifaces_in(cv, 0, ids@));
            assert(self.children@ =~= mid.skip(0));
        }
        while self.children.len() > 0
            invariant
                0 <= k <= mid.len(),
                cv == children_view(old(self).children@),
                cv.len() == mid.len(),
                self.parsed == old(self).parsed,
                forall|j: int|
                    0 <= j < mid.len() ==> node_view(#[trigger] mid[j]) == spec_remove_ifaces(
                        cv[j],
                        ids@,
                    ),
                self.children@ =~= mid.skip(k),
                children_view(kept@) + spec_remove_ifaces_in(cv, k, ids@)
                    == spec_remove_ifaces_in(cv, 0, ids@),
            decreases mid.len() - k,
        {
            let child = self.children.remove(0);
            proof {
                assert(child == mid[k]);
                assert(self.children@ =~= mid.skip(k + 1));
                assert(node_view(child) == spec_remove_ifaces(cv[k], ids@));
                assert(node_view(child).parsed == cv[k].parsed);
            }
            let drop_it = match &child.parsed {
                DescriptorTypes::Interface(iface) => id_listed(ids, iface.b_interface_number),
                _ => false,
            };
            if !drop_it {
                let ghost prev = kept@;
                kept.push(child);
                proof {
                    lemma_children_view_push(prev, child);
                    assert(children_view(kept@) + spec_remove_ifaces_in(cv, k + 1, ids@)
                        =~= spec_remove_ifaces_in(cv, 0, ids@));
                }
            } else {
                proof {
                    assert(children_view(kept@) + spec_remove_ifaces_in(cv, k + 1, ids@)
                        =~= spec_remove_ifaces_in(cv, 0, ids@));
                }
            }
            proof {
                k = k + 1;
            }
        }
        self.children = kept;
        proof {
            assert(spec_remove_ifaces_in(cv, k, ids@) =~= Seq::<NodeV>::empty());
            assert(children_view(self.children@) =~= spec_remove_ifaces_in(cv, 0, ids@));
            assert(self@ =~= spec_remove_ifaces(old(self)@, ids@));
        }
    }

    /// Removes every interface association whose `[first, last]` interface
    /// range covers a listed number, everywhere in the subtree.
    pub fn remove_iface_assoc(&mut self, ids: &Vec<u8>)
        ensures
            final(self)@ == spec_remove_iface_assoc(old(self)@, ids@),
            old(self)@.tree_wf() ==> final(self)@.tree_wf(),
        decreases *old(self),
    {
        proof {
            if old(self)@.tree_wf() {
                lemma_remove_iface_assoc_wf(old(self)@, ids@);
            }
        }
        let mut i: usize = 0;
        while i < self.children.len()
            invariant
                i <= self.children@.len(),
                self.children@.len() == old(self).children@.len(),
                self.parsed == old(self).parsed,
                forall|j: int|
                    i <= j < self.children@.len() ==> self.children@[j] == old(self).children@[j],
                forall|j: int|
                    0 <= j < i ==> node_view(#[trigger] self.children@[j])
                        == spec_remove_iface_assoc(
                        children_view(old(self).children@)[j],
                        ids@,
                    ),
            decreases self.children@.len() - i,
        {
            proof {
                lemma_children_view_index(old(self).children@, i as int);
            }
            let child = &mut self.children[i];
            child.remove_iface_assoc(ids);
            i = i + 1;
        }
        let ghost cv = children_view(old(self).children@);
        let ghost mid = self.children@;
        proof {
            lemma_children_view_len(old(self).children@);
            lemma_children_view_len(mid);
        }
        let mut kept: Vec<TreeNode> = Vec::new();
        let ghost k: int = 0;
        proof {
            assert(children_view(kept@) + spec_remove_iface_assoc_in(cv, 0, ids@)
                =~= spec_remove_iface_assoc_in(cv, 0, ids@));
            assert(self.children@ =~= mid.skip(0));
        }
        while self.children.len() > 0
            invariant
                0 <= k <= mid.len(),
                cv == children_view(old(self).children@),
                cv.len() == mid.len(),
                self.parsed == old(self).parsed,
                forall|j: int|
                    0 <= j < mid.len() ==> node_view(#[trigger] mid[j])
                        == spec_remove_iface_assoc(cv[j], ids@),
                self.children@ =~= mid.skip(k),
                children_view(kept@) + spec_remove_iface_assoc_in(cv, k, ids@)
                    == spec_remove_iface_assoc_in(cv, 0, ids@),
            decreases mid.len() - k,
        {
            let child = self.children.remove(0);
            proof {
                assert(child == mid[k]);
                assert(self.children@ =~= mid.skip(k + 1));
                assert(node_view(child) == spec_remove_iface_assoc(cv[k], ids@));
                assert(node_view(child).parsed == cv[k].parsed);
            }
            let drop_it = match &child.parsed {
                DescriptorTypes::InterfaceAssociation(assoc) => assoc_hit(assoc, ids),
                _ => false,
            };
            if !drop_it {
                let ghost prev = kept@;
                kept.push(child);
                proof {
                    lemma_children_view_push(prev, child);
                    assert(children_view(kept@) + spec_remove_iface_assoc_in(cv, k + 1, ids@)
                        =~= spec_remove_iface_assoc_in(cv, 0, ids@));
                }
            } else {
                proof {
                    assert(children_view(kept@) + spec_remove_iface_assoc_in(cv, k + 1, ids@)
                        =~= spec_remove_iface_assoc_in(cv, 0, ids@));
                }
            }
            proof {
                k = k + 1;
            }
        }
        self.children = kept;
        proof {
            assert(spec_remove_iface_assoc_in(cv, k, ids@) =~= Seq::<NodeV>::empty());
            assert(children_view(self.children@) =~= spec_remove_iface_assoc_in(cv, 0, ids@));
            assert(self@ =~= spec_remove_iface_assoc(old(self)@, ids@));
        }
    }
}

pub proof fn lemma_remove_high_fps_in_index(cs: Seq<NodeV>, j: int)
    requires
        0 <= j <= cs.len(),
    ensures
        spec_remove_high_fps_in(cs, j).len() == cs.len() - j,
        forall|t: int|
            j <= t < cs.len() ==> spec_remove_high_fps_in(cs, j)[t - j] == spec_remove_high_fps(
                #[trigger] cs[t],
            ),
    decreases cs.len() - j,
{
    if j < cs.len() {
        lemma_remove_high_fps_in_index(cs, j + 1);
    }
}


/// The pixel cap: frames larger than 1280x720 are dropped, subject to the
/// per-family safety rule that keeps at least the smallest frame.
pub const MAX_PIXELS: u64 = 921600;

/// Pixel count of a frame-based frame record.
pub open spec fn spec_fb_pixels(d: DescV) -> Option<int> {
    match d {
        DescV::UvcFrameFrameBased(f) => Some(f.w_width * f.w_height),
        _ => None,
    }
}

/// Pixel count of an MJPEG frame record.
pub open spec fn spec_mjpeg_pixels(d: DescV) -> Option<int> {
    match d {
        DescV::DescriptorUvcFrameMjpeg(f) => Some(f.w_width * f.w_height),
        _ => None,
    }
}

/// Pixel count of an uncompressed frame record.
pub open spec fn spec_unc_pixels(d: DescV) -> Option<int> {
    match d {
        DescV::DescriptorUvcFrameUncompressed(f) => Some(f.w_width * f.w_height),
        _ => None,
    }
}

pub open spec fn min_opt(a: Option<int>, b: Option<int>) -> Option<int> {
    match a {
        None => b,
        Some(x) => match b {
            None => Some(x),
            Some(y) => Some(
                if x <= y {
                    x
                } else {
                    y
                },
            ),
        },
    }
}

pub open spec fn spec_min_fb(cs: Seq<NodeV>, k: int) -> Option<int>
    decreases cs.len() - k,
{
    if k < 0 || k >= cs.len() {
        None
    } else {
        min_opt(spec_fb_pixels(cs[k].parsed), spec_min_fb(cs, k + 1))
    }
}

pub open spec fn spec_min_mjpeg(cs: Seq<NodeV>, k: int) -> Option<int>
    decreases cs.len() - k,
{
    if k < 0 || k >= cs.len() {
        None
    } else {
        min_opt(spec_mjpeg_pixels(cs[k].parsed), spec_min_mjpeg(cs, k + 1))
    }
}

pub open spec fn spec_min_unc(cs: Seq<NodeV>, k: int) -> Option<int>
    decreases cs.len() - k,
{
    if k < 0 || k >= cs.len() {
        None
    } else {
        min_opt(spec_unc_pixels(cs[k].parsed), spec_min_unc(cs, k + 1))
    }
}

pub open spec fn opt_floor(m: Option<int>) -> int {
    match m {
        Some(v) => v,
        None => 0,
    }
}

/// The per-family minimum for uncompressed frames: tracked only when the
/// parent format's GUID is one of the recognized pixel formats, so unknown
/// formats keep all their frames.
pub open spec fn spec_unc_floor(parent: DescV, cs: Seq<NodeV>) -> int {
    if parent matches DescV::DescriptorUvcFormatUncompressed(fm) && (fm.guid_format
        == UncompressedFormats::YUY2 || fm.guid_format == UncompressedFormats::NV12) {
        opt_floor(spec_min_unc(cs, 0))
    } else {
        0
    }
}

/// Whether a child survives the resolution policy, given the family
/// minima computed over its siblings.
pub open spec fn spec_keep_res(d: DescV, mfb: int, mmj: int, munc: int) -> bool {
    match d {
        DescV::UvcFrameFrameBased(f) => {
            let p = f.w_width * f.w_height;
            p <= MAX_PIXELS || ((mfb > MAX_PIXELS && p == mfb) || mfb == 0)
        },
        DescV::DescriptorUvcFrameMjpeg(f) => {
            let p = f.w_width * f.w_height;
            p <= MAX_PIXELS || ((mmj > MAX_PIXELS && p == mmj) || mmj == 0)
        },
        DescV::DescriptorUvcFrameUncompressed(f) => {
            let p = f.w_width * f.w_height;
            p <= MAX_PIXELS || munc > MAX_PIXELS || munc == 0
        },
        _ => true,
    }
}

/// The subtree after dropping frames above the resolution cap. A frame
/// survives when its pixel count is within the cap, when its whole family
/// sits above the cap (so the family's smallest frames survive), or when
/// no family minimum is known.
pub open spec fn spec_remove_high_resolution(n: NodeV) -> NodeV
    decreases n, 0int,
{
    let mfb = opt_floor(spec_min_fb(n.children, 0));
    let mmj = opt_floor(spec_min_mjpeg(n.children, 0));
    let munc = spec_unc_floor(n.parsed, n.children);
    NodeV {
        parsed: n.parsed,
        children: spec_remove_high_resolution_in(n.children, 0, mfb, mmj, munc),
    }
}

pub open spec fn spec_remove_high_resolution_in(
    cs: Seq<NodeV>,
    k: int,
    mfb: int,
    mmj: int,
    munc: int,
) -> Seq<NodeV>
    decreases cs, cs.len() - k + 1,
{
    if k < 0 || k >= cs.len() {
        Seq::empty()
    } else {
        (if spec_keep_res(cs[k].parsed, mfb, mmj, munc) {
            seq![spec_remove_high_resolution(cs[k])]
        } else {
            Seq::empty()
        }) + spec_remove_high_resolution_in(cs, k + 1, mfb, mmj, munc)
    }
}

pub open spec fn opt_u64_view(m: Option<u64>) -> Option<int> {
    match m {
        Some(v) => Some(v as int),
        None => None,
    }
}


/// The pixel count of a frame, free of overflow: both sides are 16-bit.
fn pixels_of(w: u16, h: u16) -> (r: u64)
    ensures
        r == w * h,
{
    proof {
        assert(w * h <= 0xffff * 0xffff) by (nonlinear_arith)
            requires
                w <= 0xffff,
                h <= 0xffff,
        ;
    }
    w as u64 * h as u64
}

/// The smaller of an accumulated minimum and a new pixel count.
fn min_acc(m: Option<u64>, p: u64) -> (r: Option<u64>)
    ensures
        opt_u64_view(r) == min_opt(opt_u64_view(m), Some(p as int)),
{
    match m {
        Some(v) => {
            if p <= v {
                Some(p)
            } else {
                Some(v)
            }
        },
        None => Some(p),
    }
}

impl TreeNode {
    /// Drops every frame above 1280x720 from the subtree, keeping a
    /// family's smallest frames when the whole family is above the cap so
    /// that no format loses all its frames.
    pub fn remove_high_resolution(&mut self)
        ensures
            final(self)@ == spec_remove_high_resolution(old(self)@),
            old(self)@.tree_wf() ==> final(self)@.tree_wf(),
        decreases *old(self),
    {
        proof {
            if old(self)@.tree_wf() {
                lemma_remove_high_resolution_wf(old(self)@);
            }
        }
        let ghost cv = children_view(old(self).children@);
        proof {
            lemma_children_view_len(old(self).children@);
        }
        // Family minima over the direct children, before any filtering.
        let mut min_fb: Option<u64> = None;
        let mut min_mj: Option<u64> = None;
        let mut min_un: Option<u64> = None;
        let mut i: usize = 0;
        while i < self.children.len()
            invariant
                i <= self.children@.len(),
                *self == *old(self),
                cv == children_view(old(self).children@),
                cv.len() == self.children@.len(),
                spec_min_fb(cv, 0) == min_opt(opt_u64_view(min_fb), spec_min_fb(cv, i as int)),
                spec_min_mjpeg(cv, 0) == min_opt(
                    opt_u64_view(min_mj),
                    spec_min_mjpeg(cv, i as int),
                ),
                spec_min_unc(cv, 0) == min_opt(opt_u64_view(min_un), spec_min_unc(cv, i as int)),
            decreases self.children@.len() - i,
        {
            proof {
                lemma_children_view_index(old(self).children@, i as int);
            }
            match &self.children[i].parsed {
                DescriptorTypes::UvcFrameFrameBased(f) => {
                    min_fb = min_acc(min_fb, pixels_of(f.w_width, f.w_height));
                },
                DescriptorTypes::DescriptorUvcFrameMjpeg(f) => {
                    min_mj = min_acc(min_mj, pixels_of(f.w_width, f.w_height));
                },
                DescriptorTypes::DescriptorUvcFrameUncompressed(f) => {
                    min_un = min_acc(min_un, pixels_of(f.w_width, f.w_height));
                },
                _ => {},
            }
            i = i + 1;
        }
        let mfb: u64 = match min_fb {
            Some(v) => v,
            None => 0,
        };
        let mmj: u64 = match min_mj {
            Some(v) => v,
            None => 0,
        };
        let munc: u64 = match &self.parsed {
            DescriptorTypes::DescriptorUvcFormatUncompressed(fm) => {
                if fm.guid_format == UncompressedFormats::YUY2 || fm.guid_format
                    == UncompressedFormats::NV12 {
                    match min_un {
                        Some(v) => v,
                        None => 0,
                    }
                } else {
                    0
                }
            },
            _ => 0,
        };
        proof {
            assert(mfb == opt_floor(spec_min_fb(cv, 0)));
            assert(mmj == opt_floor(spec_min_mjpeg(cv, 0)));
            assert(munc == spec_unc_floor(old(self).parsed@, cv));
        }
        // Recurse into every child, then keep the survivors.
        let mut i2: usize = 0;
        while i2 < self.children.len()
            invariant
                i2 <= self.children@.len(),
                self.children@.len() == old(self).children@.len(),
                self.parsed == old(self).parsed,
                cv == children_view(old(self).children@),
                cv.len() == self.children@.len(),
                forall|j: int|
                    i2 <= j < self.children@.len() ==> self.children@[j] == old(
                        self,
                    ).children@[j],
                forall|j: int|
                    0 <= j < i2 ==> node_view(#[trigger] self.children@[j])
                        == spec_remove_high_resolution(cv[j]),
            decreases self.children@.len() - i2,
        {
            proof {
                lemma_children_view_index(old(self).children@, i2 as int);
            }
            let child = &mut self.children[i2];
            child.remove_high_resolution();
            i2 = i2 + 1;
        }
        let ghost mid = self.children@;
        proof {
            lemma_children_view_len(mid);
        }
        let mut kept: Vec<TreeNode> = Vec::new();
        let ghost k: int = 0;
        proof {
            assert(children_view(kept@) + spec_remove_high_resolution_in(
                cv,
                0,
                mfb as int,
                mmj as int,
                munc as int,
            ) =~= spec_remove_high_resolution_in(cv, 0, mfb as int, mmj as int, munc as int));
            assert(self.children@ =~= mid.skip(0));
        }
        while self.children.len() > 0
            invariant
                0 <= k <= mid.len(),
                cv == children_view(old(self).children@),
                cv.len() == mid.len(),
                self.parsed == old(self).parsed,
                forall|j: int|
                    0 <= j < mid.len() ==> node_view(#[trigger] mid[j])
                        == spec_remove_high_resolution(cv[j]),
                self.children@ =~= mid.skip(k),
                children_view(kept@) + spec_remove_high_resolution_in(
                    cv,
                    k,
                    mfb as int,
                    mmj as int,
                    munc as int,
                ) == spec_remove_high_resolution_in(cv, 0, mfb as int, mmj as int, munc as int),
            decreases mid.len() - k,
        {
            let child = self.children.remove(0);
            proof {
                assert(child == mid[k]);
                assert(self.children@ =~= mid.skip(k + 1));
                assert(node_view(child) == spec_remove_high_resolution(cv[k]));
                assert(node_view(child).parsed == cv[k].parsed);
            }
            let keep_it = match &child.parsed {
                DescriptorTypes::UvcFrameFrameBased(frame) => {
                    let pixels = pixels_of(frame.w_width, frame.w_height);
                    pixels <= MAX_PIXELS || ((mfb > MAX_PIXELS && pixels == mfb) || mfb == 0)
                },
                DescriptorTypes::DescriptorUvcFrameMjpeg(frame) => {
                    let pixels = pixels_of(frame.w_width, frame.w_height);
                    pixels <= MAX_PIXELS || ((mmj > MAX_PIXELS && pixels == mmj) || mmj == 0)
                },
                DescriptorTypes::DescriptorUvcFrameUncompressed(frame) => {
                    let pixels = pixels_of(frame.w_width, frame.w_height);
                    pixels <= MAX_PIXELS || munc > MAX_PIXELS || munc == 0
                },
                _ => true,
            };
            if keep_it {
                let ghost prev = kept@;
                kept.push(child);
                proof {
                    lemma_children_view_push(prev, child);
                    assert(children_view(kept@) + spec_remove_high_resolution_in(
                        cv,
                        k + 1,
                        mfb as int,
                        mmj as int,
                        munc as int,
                    ) =~= spec_remove_high_resolution_in(
                        cv,
                        0,
                        mfb as int,
                        mmj as int,
                        munc as int,
                    ));
                }
            } else {
                proof {
                    assert(children_view(kept@) + spec_remove_high_resolution_in(
                        cv,
                        k + 1,
                        mfb as int,
                        mmj as int,
                        munc as int,
                    ) =~= spec_remove_high_resolution_in(
                        cv,
                        0,
                        mfb as int,
                        mmj as int,
                        munc as int,
                    ));
                }
            }
            proof {
                k = k + 1;
            }
        }
        self.children = kept;
        proof {
            assert(spec_remove_high_resolution_in(cv, k, mfb as int, mmj as int, munc as int)
                =~= Seq::<NodeV>::empty());
            assert(children_view(self.children@) =~= spec_remove_high_resolution_in(
                cv,
                0,
                mfb as int,
                mmj as int,
                munc as int,
            ));
            assert(self@ =~= spec_remove_high_resolution(old(self)@));
        }
    }
}


/// Whether the control-bitmap slice for each format child fits inside
/// `bmaControls`, for the prefix of children that the rebuild scans before
/// it either finishes or stops at a non-format child.
pub open spec fn spec_h264_prefix_ok(h: DescriptorUvcInputHeaderV, cs: Seq<NodeV>, k: int) -> bool
    decreases cs.len() - k,
{
    if k < 0 || k >= cs.len() {
        true
    } else {
        match cs[k].parsed {
            DescV::UvcFormatFrameBased(_) => spec_h264_prefix_ok(h, cs, k + 1),
            DescV::DescriptorUvcFormatMjpeg(_) => (k + 1) * h.b_control_size
                <= h.bma_controls.len() && spec_h264_prefix_ok(h, cs, k + 1),
            DescV::DescriptorUvcFormatUncompressed(_) => (k + 1) * h.b_control_size
                <= h.bma_controls.len() && spec_h264_prefix_ok(h, cs, k + 1),
            _ => true,
        }
    }
}

/// The control bitmaps that survive the removal: one `bControlSize` slice
/// per remaining (non-frame-based) format child, in order. Stops with an
/// error at the first child that is not a format record.
pub open spec fn spec_h264_scan(h: DescriptorUvcInputHeaderV, cs: Seq<NodeV>, k: int) -> Result<
    Seq<u8>,
    DescError,
>
    decreases cs.len() - k,
{
    if k < 0 || k >= cs.len() {
        Ok(Seq::empty())
    } else {
        match cs[k].parsed {
            DescV::UvcFormatFrameBased(_) => spec_h264_scan(h, cs, k + 1),
            DescV::DescriptorUvcFormatMjpeg(_) => match spec_h264_scan(h, cs, k + 1) {
                Ok(rest) => Ok(
                    h.bma_controls.subrange(k * h.b_control_size, (k + 1) * h.b_control_size)
                        + rest,
                ),
                Err(e) => Err(e),
            },
            DescV::DescriptorUvcFormatUncompressed(_) => match spec_h264_scan(h, cs, k + 1) {
                Ok(rest) => Ok(
                    h.bma_controls.subrange(k * h.b_control_size, (k + 1) * h.b_control_size)
                        + rest,
                ),
                Err(e) => Err(e),
            },
            _ => Err(DescError::UnknownInputHeaderChild),
        }
    }
}

/// The children that remain after dropping frame-based formats.
pub open spec fn spec_drop_framebased(cs: Seq<NodeV>, k: int) -> Seq<NodeV>
    decreases cs.len() - k,
{
    if k < 0 || k >= cs.len() {
        Seq::empty()
    } else {
        (if cs[k].parsed matches DescV::UvcFormatFrameBased(_) {
            Seq::empty()
        } else {
            seq![cs[k]]
        }) + spec_drop_framebased(cs, k + 1)
    }
}

/// The outcome of removing frame-based formats from an input header node:
/// the rebuilt header plus the surviving children, or the error that left
/// the tree unchanged.
pub open spec fn spec_remove_h264(n: NodeV) -> Result<NodeV, DescError> {
    match n.parsed {
        DescV::UvcInputHeader(h) => match spec_h264_scan(h, n.children, 0) {
            Ok(bma) => Ok(
                NodeV {
                    parsed: DescV::UvcInputHeader(
                        DescriptorUvcInputHeaderV { bma_controls: bma, ..h },
                    ),
                    children: spec_drop_framebased(n.children, 0),
                },
            ),
            Err(e) => Err(e),
        },
        _ => Err(DescError::NotInputHeader),
    }
}

impl TreeNode {
    /// Removes the frame-based (H.264) formats from this UVC input header
    /// node: rebuilds `bmaControls` from the bitmaps of the surviving
    /// formats, indexed by child position, then drops the frame-based
    /// children. Fails, leaving the tree unchanged, on a node that is not
    /// an input header, or when a child that is not a format record is
    /// reached. The executable `remove_h264_bounds_ok` decides the bitmap
    /// side condition for data that arrives unchecked.
    pub fn remove_h264(&mut self) -> (r: Result<(), DescError>)
        requires
            old(self)@.parsed matches DescV::UvcInputHeader(h) ==> spec_h264_prefix_ok(
                h,
                old(self)@.children,
                0,
            ),
        ensures
            match r {
                Ok(()) => spec_remove_h264(old(self)@) == Ok::<NodeV, DescError>(final(self)@),
                Err(e) => spec_remove_h264(old(self)@) == Err::<NodeV, DescError>(e)
                    && *final(self) == *old(self),
            },
            old(self)@.tree_wf() ==> final(self)@.tree_wf(),
    {
        let (csize, old_bma) = match &self.parsed {
            DescriptorTypes::UvcInputHeader(h) => (
                h.b_control_size as usize,
                h.bma_controls.clone(),
            ),
            _ => {
                return Err(DescError::NotInputHeader);
            },
        };
        let bma_len: usize = old_bma.len();
        let ghost hv = (match self.parsed@ {
            DescV::UvcInputHeader(h) => h,
            _ => arbitrary(),
        });
        let ghost cv = children_view(self.children@);
        proof {
            lemma_children_view_len(self.children@);
            assert(old_bma@ =~= hv.bma_controls);
        }
        let mut bma_ctrls: Vec<u8> = Vec::new();
        let mut i: usize = 0;
        while i < self.children.len()
            invariant
                i <= self.children@.len(),
                *self == *old(self),
                cv == children_view(self.children@),
                cv.len() == self.children@.len(),
                old_bma@ == hv.bma_controls,
                old_bma@.len() == bma_len,
                csize == hv.b_control_size,
                hv == (match self.parsed@ {
                    DescV::UvcInputHeader(h) => h,
                    _ => arbitrary(),
                }),
                self@.parsed matches DescV::UvcInputHeader(_),
                spec_h264_prefix_ok(hv, cv, i as int),
                spec_h264_scan(hv, cv, 0) == (match spec_h264_scan(hv, cv, i as int) {
                    Ok(rest) => Ok::<Seq<u8>, DescError>(bma_ctrls@ + rest),
                    Err(e) => Err::<Seq<u8>, DescError>(e),
                }),
            decreases self.children@.len() - i,
        {
            proof {
                lemma_children_view_index(self.children@, i as int);
            }
            let is_kept_format = match &self.children[i].parsed {
                DescriptorTypes::UvcFormatFrameBased(_) => false,
                DescriptorTypes::DescriptorUvcFormatMjpeg(_) => true,
                DescriptorTypes::DescriptorUvcFormatUncompressed(_) => true,
                _ => {
                    return Err(DescError::UnknownInputHeaderChild);
                },
            };
            if is_kept_format {
                proof {
                    assert((i + 1) * (csize as int) <= old_bma@.len());
                    assert(0 <= i * (csize as int) && i * (csize as int) + csize == (i + 1) * (
                    csize as int)) by (nonlinear_arith)
                        requires
                            i >= 0,
                            csize >= 0,
                    ;
                }
                let start = i * csize;
                let end = start + csize;
                let ghost base = bma_ctrls@;
                let mut t: usize = start;
                while t < end
                    invariant
                        start <= t <= end,
                        end <= old_bma@.len(),
                        bma_ctrls@ == base + old_bma@.subrange(start as int, t as int),
                    decreases end - t,
                {
                    bma_ctrls.push(old_bma[t]);
                    proof {
                        assert(bma_ctrls@ =~= base + old_bma@.subrange(start as int, t + 1));
                    }
                    t = t + 1;
                }
                proof {
                    assert(spec_h264_scan(hv, cv, i as int) == (match spec_h264_scan(
                        hv,
                        cv,
                        i + 1,
                    ) {
                        Ok(rest) => Ok::<Seq<u8>, DescError>(
                            hv.bma_controls.subrange(
                                i * hv.b_control_size,
                                (i + 1) * hv.b_control_size,
                            ) + rest,
                        ),
                        Err(e) => Err::<Seq<u8>, DescError>(e),
                    }));
                    assert(old_bma@.subrange(start as int, end as int) == hv.bma_controls.subrange(
                        i * hv.b_control_size,
                        (i + 1) * hv.b_control_size,
                    ));
                    if spec_h264_scan(hv, cv, i + 1) is Ok {
                        let rest = spec_h264_scan(hv, cv, i + 1)->Ok_0;
                        assert(bma_ctrls@ + rest =~= base + (old_bma@.subrange(
                            start as int,
                            end as int,
                        ) + rest));
                    }
                }
            }
            i = i + 1;
        }
        // All children scanned: drop the frame-based formats.
        let ghost mid = self.children@;
        let mut kept: Vec<TreeNode> = Vec::new();
        let ghost k: int = 0;
        proof {
            assert(spec_h264_scan(hv, cv, cv.len() as int) == Ok::<Seq<u8>, DescError>(
                Seq::empty(),
            ));
            assert(bma_ctrls@ + Seq::<u8>::empty() =~= bma_ctrls@);
            assert(spec_h264_scan(hv, cv, 0) == Ok::<Seq<u8>, DescError>(bma_ctrls@));
            assert(children_view(kept@) + spec_drop_framebased(cv, 0) =~= spec_drop_framebased(
                cv,
                0,
            ));
            assert(self.children@ =~= mid.skip(0));
        }
        while self.children.len() > 0
            invariant
                0 <= k <= mid.len(),
                cv == children_view(mid),
                cv.len() == mid.len(),
                self.parsed == old(self).parsed,
                self.children@ =~= mid.skip(k),
                children_view(kept@) + spec_drop_framebased(cv, k) == spec_drop_framebased(cv, 0),
            decreases mid.len() - k,
        {
            let child = self.children.remove(0);
            proof {
                assert(child == mid[k]);
                lemma_children_view_index(mid, k);
                assert(self.children@ =~= mid.skip(k + 1));
            }
            let drop_it = matches!(&child.parsed, DescriptorTypes::UvcFormatFrameBased(_));
            if !drop_it {
                let ghost prev = kept@;
                kept.push(child);
                proof {
                    lemma_children_view_push(prev, child);
                    assert(children_view(kept@) + spec_drop_framebased(cv, k + 1)
                        =~= spec_drop_framebased(cv, 0));
                }
            } else {
                proof {
                    assert(children_view(kept@) + spec_drop_framebased(cv, k + 1)
                        =~= spec_drop_framebased(cv, 0));
                }
            }
            proof {
                k = k + 1;
            }
        }
        self.children = kept;
        match &mut self.parsed {
            DescriptorTypes::UvcInputHeader(h) => {
                h.bma_controls = bma_ctrls;
            },
            _ => {
                proof {
                    assert(false);
                }
            },
        }
        proof {
            assert(spec_drop_framebased(cv, k) =~= Seq::<NodeV>::empty());
            assert(children_view(self.children@) =~= spec_drop_framebased(cv, 0));
            assert(self@ =~= (match spec_remove_h264(old(self)@) {
                Ok(m) => m,
                Err(_) => arbitrary(),
            }));
            if old(self)@.tree_wf() {
                lemma_h264_scan_len(hv, cv, 0);
                assert(self@.parsed.wf());
                assert forall|jj: int| 0 <= jj < cv.len() implies (#[trigger] cv[jj]).tree_wf() by {
                    assert(old(self)@.children[jj].tree_wf());
                }
                lemma_drop_framebased_wf(cv, 0);
                assert forall|jj: int| 0 <= jj < self@.children.len() implies (
                #[trigger] self@.children[jj]).tree_wf() by {
                    assert(self@.children[jj] == spec_drop_framebased(cv, 0)[jj]);
                }
                assert(self@.tree_wf());
            }
        }
        Ok(())
    }
}


/// The location-independent form of the removal: whether the first UVC
/// input header of the tree (if any) satisfies the bitmap-bounds side
/// condition that `remove_h264` needs.
pub open spec fn spec_h264_target_ok(n: NodeV) -> bool {
    match spec_get_uvc_input_hdr(n) {
        Some(m) => match m.parsed {
            DescV::UvcInputHeader(h) => spec_h264_prefix_ok(h, m.children, 0),
            _ => true,
        },
        None => true,
    }
}

/// The tree after removing the frame-based formats from its first UVC
/// input header: the header subtree is rewritten in place, everything
/// else is untouched. An error when the tree has no input header or the
/// header's children are not all format records.
pub open spec fn spec_remove_h264_in_tree(n: NodeV) -> Result<NodeV, DescError>
    decreases n, 0int,
{
    if n.parsed matches DescV::UvcInputHeader(_) {
        spec_remove_h264(n)
    } else {
        spec_remove_h264_tree_in(n, n.children, 0)
    }
}

pub open spec fn spec_remove_h264_tree_in(parent: NodeV, cs: Seq<NodeV>, k: int) -> Result<
    NodeV,
    DescError,
>
    decreases cs, cs.len() - k + 1,
{
    if k < 0 || k >= cs.len() {
        Err(DescError::NotInputHeader)
    } else if spec_get_uvc_input_hdr(cs[k]) is Some {
        match spec_remove_h264_in_tree(cs[k]) {
            Ok(c2) => Ok(NodeV { parsed: parent.parsed, children: cs.update(k, c2) }),
            Err(e) => Err(e),
        }
    } else {
        spec_remove_h264_tree_in(parent, cs, k + 1)
    }
}

impl TreeNode {
    /// Removes the frame-based (H.264) formats from the first UVC input
    /// header in the tree, rewriting that header's control bitmaps in
    /// place. Fails when the tree has no input header, or when that
    /// header's children are not all format records; the tree is then
    /// unchanged.
    pub fn remove_h264_in_tree(&mut self) -> (r: Result<(), DescError>)
        requires
            spec_h264_target_ok(old(self)@),
        ensures
            match r {
                Ok(()) => spec_remove_h264_in_tree(old(self)@) == Ok::<NodeV, DescError>(
                    final(self)@,
                ),
                Err(e) => spec_remove_h264_in_tree(old(self)@) == Err::<NodeV, DescError>(e)
                    && final(self)@ == old(self)@,
            },
            old(self)@.tree_wf() ==> final(self)@.tree_wf(),
        decreases *old(self),
    {
        let own_hdr = matches!(&self.parsed, DescriptorTypes::UvcInputHeader(_));
        if own_hdr {
            return self.remove_h264();
        }
        let ghost cv = children_view(old(self).children@);
        proof {
            lemma_children_view_len(old(self).children@);
        }
        let mut i: usize = 0;
        while i < self.children.len()
            invariant
                i <= self.children@.len(),
                *self == *old(self),
                cv == children_view(self.children@),
                cv.len() == self.children@.len(),
                !(self@.parsed matches DescV::UvcInputHeader(_)),
                spec_h264_target_ok(old(self)@),
                spec_remove_h264_tree_in(old(self)@, cv, 0) == spec_remove_h264_tree_in(
                    old(self)@,
                    cv,
                    i as int,
                ),
                spec_get_uvc_input_hdr_in(cv, 0) == spec_get_uvc_input_hdr_in(cv, i as int),
            decreases self.children@.len() - i,
        {
            proof {
                lemma_children_view_index(self.children@, i as int);
            }
            let hit = self.children[i].get_uvc_input_hdr().is_some();
            if hit {
                proof {
                    assert(spec_get_uvc_input_hdr(old(self)@) == spec_get_uvc_input_hdr(
                        cv[i as int],
                    ));
                }
                let res = self.children[i].remove_h264_in_tree();
                proof {
                    lemma_children_view_len(self.children@);
                    assert forall|j: int| 0 <= j < cv.len() && j != i as int implies
                        children_view(self.children@)[j] == cv[j] by {
                        lemma_children_view_index(self.children@, j);
                        lemma_children_view_index(old(self).children@, j);
                        assert(self.children@[j] == old(self).children@[j]);
                    }
                    lemma_children_view_index(self.children@, i as int);
                }
                match res {
                    Ok(()) => {
                        proof {
                            assert(children_view(self.children@) =~= cv.update(
                                i as int,
                                children_view(self.children@)[i as int],
                            ));
                            assert(self@ =~= (match spec_remove_h264_in_tree(old(self)@) {
                                Ok(m) => m,
                                Err(_) => arbitrary(),
                            }));
                            if old(self)@.tree_wf() {
                                assert(old(self)@.children[i as int].tree_wf());
                                assert forall|jj: int| 0 <= jj < self@.children.len() implies (
                                #[trigger] self@.children[jj]).tree_wf() by {
                                    lemma_children_view_index(self.children@, jj);
                                    lemma_children_view_index(old(self).children@, jj);
                                    if jj != i as int {
                                        assert(self.children@[jj] == old(self).children@[jj]);
                                        assert(self@.children[jj] == old(self)@.children[jj]);
                                    } else {
                                        assert(old(self)@.children[i as int] == node_view(
                                            old(self).children@[i as int],
                                        ));
                                        assert(self@.children[jj] == node_view(
                                            self.children@[i as int],
                                        ));
                                    }
                                }
                                assert(self@.tree_wf());
                            }
                        }
                        return Ok(());
                    },
                    Err(e) => {
                        proof {
                            assert(children_view(self.children@) =~= cv);
                            assert(self@ =~= old(self)@);
                        }
                        return Err(e);
                    },
                }
            }
            i = i + 1;
        }
        proof {
            assert(spec_remove_h264_tree_in(old(self)@, cv, cv.len() as int)
                == Err::<NodeV, DescError>(DescError::NotInputHeader));
        }
        Err(DescError::NotInputHeader)
    }
}


pub proof fn lemma_kept_intervals_len(s: Seq<u32>, k: int)
    requires
        0 <= k <= s.len(),
    ensures
        spec_kept_intervals(s, k).len() <= s.len() - k,
    decreases s.len() - k,
{
    if k < s.len() {
        lemma_kept_intervals_len(s, k + 1);
    }
}

/// Dropping intervals only shrinks a record, so the framerate policy
/// keeps every record serializable.
pub proof fn lemma_remove_high_fps_wf(n: NodeV)
    requires
        n.tree_wf(),
    ensures
        spec_remove_high_fps(n).tree_wf(),
    decreases n, 0int,
{
    match n.parsed {
        DescV::UvcFrameFrameBased(f) => {
            lemma_kept_intervals_len(f.dw_frame_interval, 0);
        },
        DescV::DescriptorUvcFrameMjpeg(f) => {
            lemma_kept_intervals_len(f.dw_frame_interval, 0);
        },
        DescV::DescriptorUvcFrameUncompressed(f) => {
            lemma_kept_intervals_len(f.dw_frame_interval, 0);
        },
        _ => {},
    }
    let out = spec_remove_high_fps(n);
    lemma_remove_high_fps_in_index(n.children, 0);
    assert forall|t: int| 0 <= t < out.children.len() implies (
    #[trigger] out.children[t]).tree_wf() by {
        lemma_remove_high_fps_in_index(n.children, 0);
        assert(n.children[t].tree_wf());
        lemma_remove_high_fps_wf(n.children[t]);
    }
}

/// The interface filter only removes children, so it keeps the tree
/// serializable.
pub proof fn lemma_remove_ifaces_wf(n: NodeV, ids: Seq<u8>)
    requires
        n.tree_wf(),
    ensures
        spec_remove_ifaces(n, ids).tree_wf(),
    decreases n, 0int,
{
    lemma_remove_ifaces_in_wf(n.children, 0, ids);
    let out = spec_remove_ifaces(n, ids);
    assert forall|i: int| 0 <= i < out.children.len() implies (
    #[trigger] out.children[i]).tree_wf() by {
        assert(out.children[i] == spec_remove_ifaces_in(n.children, 0, ids)[i]);
    }
}

pub proof fn lemma_remove_ifaces_in_wf(cs: Seq<NodeV>, k: int, ids: Seq<u8>)
    requires
        0 <= k <= cs.len(),
        forall|j: int| 0 <= j < cs.len() ==> (#[trigger] cs[j]).tree_wf(),
    ensures
        forall|m: int|
            0 <= m < spec_remove_ifaces_in(cs, k, ids).len() ==> (#[trigger] spec_remove_ifaces_in(
                cs,
                k,
                ids,
            )[m]).tree_wf(),
    decreases cs, cs.len() - k + 1,
{
    if k < cs.len() {
        lemma_remove_ifaces_in_wf(cs, k + 1, ids);
        lemma_remove_ifaces_wf(cs[k], ids);
        let rest = spec_remove_ifaces_in(cs, k + 1, ids);
        let whole = spec_remove_ifaces_in(cs, k, ids);
        assert forall|m: int| 0 <= m < whole.len() implies (#[trigger] whole[m]).tree_wf() by {
            if whole.len() > rest.len() {
                if m == 0 {
                    assert(whole[0] == spec_remove_ifaces(cs[k], ids));
                } else {
                    assert(whole[m] == rest[m - 1]);
                }
            } else {
                assert(whole[m] == rest[m]);
            }
        }
    }
}

/// The association filter only removes children, so it keeps the tree
/// serializable.
pub proof fn lemma_remove_iface_assoc_wf(n: NodeV, ids: Seq<u8>)
    requires
        n.tree_wf(),
    ensures
        spec_remove_iface_assoc(n, ids).tree_wf(),
    decreases n, 0int,
{
    lemma_remove_iface_assoc_in_wf(n.children, 0, ids);
    let out = spec_remove_iface_assoc(n, ids);
    assert forall|i: int| 0 <= i < out.children.len() implies (
    #[trigger] out.children[i]).tree_wf() by {
        assert(out.children[i] == spec_remove_iface_assoc_in(n.children, 0, ids)[i]);
    }
}

pub proof fn lemma_remove_iface_assoc_in_wf(cs: Seq<NodeV>, k: int, ids: Seq<u8>)
    requires
        0 <= k <= cs.len(),
        forall|j: int| 0 <= j < cs.len() ==> (#[trigger] cs[j]).tree_wf(),
    ensures
        forall|m: int|
            0 <= m < spec_remove_iface_assoc_in(cs, k, ids).len() ==> (
            #[trigger] spec_remove_iface_assoc_in(cs, k, ids)[m]).tree_wf(),
    decreases cs, cs.len() - k + 1,
{
    if k < cs.len() {
        lemma_remove_iface_assoc_in_wf(cs, k + 1, ids);
        lemma_remove_iface_assoc_wf(cs[k], ids);
        let rest = spec_remove_iface_assoc_in(cs, k + 1, ids);
        let whole = spec_remove_iface_assoc_in(cs, k, ids);
        assert forall|m: int| 0 <= m < whole.len() implies (#[trigger] whole[m]).tree_wf() by {
            if whole.len() > rest.len() {
                if m == 0 {
                    assert(whole[0] == spec_remove_iface_assoc(cs[k], ids));
                } else {
                    assert(whole[m] == rest[m - 1]);
                }
            } else {
                assert(whole[m] == rest[m]);
            }
        }
    }
}

/// The resolution filter only removes children, so it keeps the tree
/// serializable.
pub proof fn lemma_remove_high_resolution_wf(n: NodeV)
    requires
        n.tree_wf(),
    ensures
        spec_remove_high_resolution(n).tree_wf(),
    decreases n, 0int,
{
    let mfb = opt_floor(spec_min_fb(n.children, 0));
    let mmj = opt_floor(spec_min_mjpeg(n.children, 0));
    let munc = spec_unc_floor(n.parsed, n.children);
    lemma_remove_high_resolution_in_wf(n.children, 0, mfb, mmj, munc);
    let out = spec_remove_high_resolution(n);
    assert forall|i: int| 0 <= i < out.children.len() implies (
    #[trigger] out.children[i]).tree_wf() by {
        assert(out.children[i] == spec_remove_high_resolution_in(n.children, 0, mfb, mmj, munc)[i]);
    }
}

pub proof fn lemma_remove_high_resolution_in_wf(
    cs: Seq<NodeV>,
    k: int,
    mfb: int,
    mmj: int,
    munc: int,
)
    requires
        0 <= k <= cs.len(),
        forall|j: int| 0 <= j < cs.len() ==> (#[trigger] cs[j]).tree_wf(),
    ensures
        forall|m: int|
            0 <= m < spec_remove_high_resolution_in(cs, k, mfb, mmj, munc).len() ==> (
            #[trigger] spec_remove_high_resolution_in(cs, k, mfb, mmj, munc)[m]).tree_wf(),
    decreases cs, cs.len() - k + 1,
{
    if k < cs.len() {
        lemma_remove_high_resolution_in_wf(cs, k + 1, mfb, mmj, munc);
        lemma_remove_high_resolution_wf(cs[k]);
        let rest = spec_remove_high_resolution_in(cs, k + 1, mfb, mmj, munc);
        let whole = spec_remove_high_resolution_in(cs, k, mfb, mmj, munc);
        assert forall|m: int| 0 <= m < whole.len() implies (#[trigger] whole[m]).tree_wf() by {
            if whole.len() > rest.len() {
                if m == 0 {
                    assert(whole[0] == spec_remove_high_resolution(cs[k]));
                } else {
                    assert(whole[m] == rest[m - 1]);
                }
            } else {
                assert(whole[m] == rest[m]);
            }
        }
    }
}

/// The surviving control bitmaps never outgrow the original `bmaControls`:
/// each kept slice lies inside it.
pub proof fn lemma_h264_scan_len(h: DescriptorUvcInputHeaderV, cs: Seq<NodeV>, k: int)
    requires
        spec_h264_prefix_ok(h, cs, k),
        0 <= k,
    ensures
        spec_h264_scan(h, cs, k) matches Ok(s) ==> s.len() <= (if h.bma_controls.len() - k
            * h.b_control_size >= 0 {
            h.bma_controls.len() - k * h.b_control_size
        } else {
            0
        }),
    decreases cs.len() - k,
{
    if k < cs.len() {
        match cs[k].parsed {
            DescV::UvcFormatFrameBased(_) => {
                lemma_h264_scan_len(h, cs, k + 1);
                assert(k * h.b_control_size <= (k + 1) * h.b_control_size) by (nonlinear_arith)
                    requires
                        k >= 0,
                        h.b_control_size >= 0,
                ;
            },
            DescV::DescriptorUvcFormatMjpeg(_) => {
                lemma_h264_scan_len(h, cs, k + 1);
                assert(k * h.b_control_size + h.b_control_size == (k + 1) * h.b_control_size)
                    by (nonlinear_arith);
                assert(0 <= k * h.b_control_size) by (nonlinear_arith)
                    requires
                        k >= 0,
                        h.b_control_size >= 0,
                ;
            },
            DescV::DescriptorUvcFormatUncompressed(_) => {
                lemma_h264_scan_len(h, cs, k + 1);
                assert(k * h.b_control_size + h.b_control_size == (k + 1) * h.b_control_size)
                    by (nonlinear_arith);
                assert(0 <= k * h.b_control_size) by (nonlinear_arith)
                    requires
                        k >= 0,
                        h.b_control_size >= 0,
                ;
            },
            _ => {},
        }
    }
}

/// Dropping the frame-based formats keeps every remaining child as it
/// was.
pub proof fn lemma_drop_framebased_wf(cs: Seq<NodeV>, k: int)
    requires
        0 <= k <= cs.len(),
        forall|j: int| 0 <= j < cs.len() ==> (#[trigger] cs[j]).tree_wf(),
    ensures
        forall|m: int|
            0 <= m < spec_drop_framebased(cs, k).len() ==> (#[trigger] spec_drop_framebased(
                cs,
                k,
            )[m]).tree_wf(),
    decreases cs.len() - k,
{
    if k < cs.len() {
        lemma_drop_framebased_wf(cs, k + 1);
        let rest = spec_drop_framebased(cs, k + 1);
        let whole = spec_drop_framebased(cs, k);
        assert forall|m: int| 0 <= m < whole.len() implies (#[trigger] whole[m]).tree_wf() by {
            if whole.len() > rest.len() {
                if m == 0 {
                    assert(whole[0] == cs[k]);
                } else {
                    assert(whole[m] == rest[m - 1]);
                }
            } else {
                assert(whole[m] == rest[m]);
            }
        }
    }
}


impl TreeNode {
    /// Whether `remove_h264` may run on this node without hitting a
    /// control bitmap that is too short: on an input header, every format
    /// child the rebuild would scan has its `bControlSize` slice inside
    /// `bmaControls`. Callers check this to discharge the removal's
    /// precondition on data that arrives unchecked.
    pub fn remove_h264_bounds_ok(&self) -> (b: bool)
        ensures
            b == (self@.parsed matches DescV::UvcInputHeader(h) ==> spec_h264_prefix_ok(
                h,
                self@.children,
                0,
            )),
    {
        let (csize, bma_len) = match &self.parsed {
            DescriptorTypes::UvcInputHeader(h) => (
                h.b_control_size as usize,
                h.bma_controls.len(),
            ),
            _ => {
                return true;
            },
        };
        let ghost hv = (match self.parsed@ {
            DescV::UvcInputHeader(h) => h,
            _ => arbitrary(),
        });
        let ghost cv = children_view(self.children@);
        proof {
            lemma_children_view_len(self.children@);
        }
        let mut i: usize = 0;
        while i < self.children.len()
            invariant
                i <= self.children@.len(),
                cv == children_view(self.children@),
                cv.len() == self.children@.len(),
                csize == hv.b_control_size,
                bma_len == hv.bma_controls.len(),
                self@.parsed matches DescV::UvcInputHeader(h) && h == hv,
                spec_h264_prefix_ok(hv, cv, 0) == spec_h264_prefix_ok(hv, cv, i as int),
            decreases self.children@.len() - i,
        {
            proof {
                lemma_children_view_index(self.children@, i as int);
            }
            let needs_slice = match &self.children[i].parsed {
                DescriptorTypes::UvcFormatFrameBased(_) => false,
                DescriptorTypes::DescriptorUvcFormatMjpeg(_) => true,
                DescriptorTypes::DescriptorUvcFormatUncompressed(_) => true,
                _ => {
                    return true;
                },
            };
            if needs_slice {
                let fits = if csize == 0 {
                    true
                } else {
                    i + 1 <= bma_len / csize
                };
                proof {
                    if csize >= 1 {
                        assert(((i + 1) * csize <= bma_len) == (i + 1 <= bma_len as int
                            / csize as int)) by (nonlinear_arith)
                            requires
                                csize >= 1,
                                bma_len >= 0,
                                i >= 0,
                        ;
                    }
                }
                if !fits {
                    return false;
                }
            }
            i = i + 1;
        }
        true
    }
}

} // verus!
