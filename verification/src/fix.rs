//! The length and count fixer: after mutations, `wTotalLength`,
//! `bNumInterfaces`, `bNumFrameDescriptors` and the default frame index go
//! stale; one depth-first pass recomputes them all from the tree itself.

use vstd::prelude::*;

use crate::query::spec_find_ifaces;
use crate::tree::children_view;
use crate::tree::lemma_children_view_index;
use crate::tree::lemma_children_view_len;
use crate::tree::node_view;
use crate::tree::NodeV;
use crate::tree::TreeNode;
use crate::usb_proto::DescriptorConfig;
use crate::usb_proto::DescriptorTypes;
use crate::usb_proto::DescV;
use crate::uvc_proto::DescriptorUvcFormatMjpeg;
use crate::uvc_proto::DescriptorUvcFormatUncompressed;
use crate::uvc_proto::DescriptorUvcFormatFrameBased;
use crate::uvc_proto::DescriptorUvcInputHeaderV;

verus! {

broadcast use vstd::std_specs::vec::group_vec_axioms;

/// The frame index carried by an MJPEG frame record.
pub open spec fn spec_mjpeg_frame_idx(d: DescV) -> Option<u8> {
    match d {
        DescV::DescriptorUvcFrameMjpeg(f) => Some(f.b_frame_index),
        _ => None,
    }
}

/// How many matching frame children follow position `k`.
pub open spec fn spec_count_mjpeg(cs: Seq<NodeV>, k: int) -> int
    decreases cs.len() - k,
{
    if k < 0 || k >= cs.len() {
        0
    } else {
        (if spec_mjpeg_frame_idx(cs[k].parsed) is Some {
            1int
        } else {
            0int
        }) + spec_count_mjpeg(cs, k + 1)
    }
}

/// The frame index of the first matching frame child at or after `k`.
pub open spec fn spec_first_mjpeg(cs: Seq<NodeV>, k: int) -> Option<u8>
    decreases cs.len() - k,
{
    if k < 0 || k >= cs.len() {
        None
    } else {
        match spec_mjpeg_frame_idx(cs[k].parsed) {
            Some(x) => Some(x),
            None => spec_first_mjpeg(cs, k + 1),
        }
    }
}

/// The frame index of the last matching frame child at or after `k`.
pub open spec fn spec_last_mjpeg(cs: Seq<NodeV>, k: int) -> Option<u8>
    decreases cs.len() - k,
{
    if k < 0 || k >= cs.len() {
        None
    } else {
        match spec_last_mjpeg(cs, k + 1) {
            Some(x) => Some(x),
            None => spec_mjpeg_frame_idx(cs[k].parsed),
        }
    }
}

/// The frame index carried by an uncompressed frame record.
pub open spec fn spec_uncompressed_frame_idx(d: DescV) -> Option<u8> {
    match d {
        DescV::DescriptorUvcFrameUncompressed(f) => Some(f.b_frame_index),
        _ => None,
    }
}

/// How many matching frame children follow position `k`.
pub open spec fn spec_count_uncompressed(cs: Seq<NodeV>, k: int) -> int
    decreases cs.len() - k,
{
    if k < 0 || k >= cs.len() {
        0
    } else {
        (if spec_uncompressed_frame_idx(cs[k].parsed) is Some {
            1int
        } else {
            0int
        }) + spec_count_uncompressed(cs, k + 1)
    }
}

/// The frame index of the first matching frame child at or after `k`.
pub open spec fn spec_first_uncompressed(cs: Seq<NodeV>, k: int) -> Option<u8>
    decreases cs.len() - k,
{
    if k < 0 || k >= cs.len() {
        None
    } else {
        match spec_uncompressed_frame_idx(cs[k].parsed) {
            Some(x) => Some(x),
            None => spec_first_uncompressed(cs, k + 1),
        }
    }
}

/// The frame index of the last matching frame child at or after `k`.
pub open spec fn spec_last_uncompressed(cs: Seq<NodeV>, k: int) -> Option<u8>
    decreases cs.len() - k,
{
    if k < 0 || k >= cs.len() {
        None
    } else {
        match spec_last_uncompressed(cs, k + 1) {
            Some(x) => Some(x),
            None => spec_uncompressed_frame_idx(cs[k].parsed),
        }
    }
}

/// The frame index carried by a frame-based frame record.
pub open spec fn spec_framebased_frame_idx(d: DescV) -> Option<u8> {
    match d {
        DescV::UvcFrameFrameBased(f) => Some(f.b_frame_index),
        _ => None,
    }
}

/// How many matching frame children follow position `k`.
pub open spec fn spec_count_framebased(cs: Seq<NodeV>, k: int) -> int
    decreases cs.len() - k,
{
    if k < 0 || k >= cs.len() {
        0
    } else {
        (if spec_framebased_frame_idx(cs[k].parsed) is Some {
            1int
        } else {
            0int
        }) + spec_count_framebased(cs, k + 1)
    }
}

/// The frame index of the first matching frame child at or after `k`.
pub open spec fn spec_first_framebased(cs: Seq<NodeV>, k: int) -> Option<u8>
    decreases cs.len() - k,
{
    if k < 0 || k >= cs.len() {
        None
    } else {
        match spec_framebased_frame_idx(cs[k].parsed) {
            Some(x) => Some(x),
            None => spec_first_framebased(cs, k + 1),
        }
    }
}

/// The frame index of the last matching frame child at or after `k`.
pub open spec fn spec_last_framebased(cs: Seq<NodeV>, k: int) -> Option<u8>
    decreases cs.len() - k,
{
    if k < 0 || k >= cs.len() {
        None
    } else {
        match spec_last_framebased(cs, k + 1) {
            Some(x) => Some(x),
            None => spec_framebased_frame_idx(cs[k].parsed),
        }
    }
}

/// The default frame index clamped to the range spanned by the first and
/// last matching frame children: raised to the first index when below it,
/// then lowered to the last index when above it.
pub open spec fn spec_clamp_default(d0: u8, first: Option<u8>, last: Option<u8>) -> u8 {
    let d1 = match first {
        Some(f) => if d0 < f {
            f
        } else {
            d0
        },
        None => d0,
    };
    match last {
        Some(l) => if d1 > l {
            l
        } else {
            d1
        },
        None => d1,
    }
}

/// This node's record after its stale fields are recomputed: total lengths
/// from the serialized subtree size, interface and frame counts from the
/// tree, and the default frame index clamped to its children's range.
pub open spec fn spec_fix_parsed(n: NodeV) -> DescV {
    match n.parsed {
        DescV::Config(c) => DescV::Config(
            DescriptorConfig {
                w_total_length: (n.dfs_bytes().len() % 0x10000) as u16,
                b_num_interfaces: (spec_find_ifaces(n).len() % 0x100) as u8,
                ..c
            },
        ),
        DescV::UvcInputHeader(h) => DescV::UvcInputHeader(
            DescriptorUvcInputHeaderV {
                w_total_length: (n.dfs_bytes().len() % 0x10000) as u16,
                ..h
            },
        ),
        DescV::DescriptorUvcFormatMjpeg(f) => DescV::DescriptorUvcFormatMjpeg(
            DescriptorUvcFormatMjpeg {
                b_num_frame_descriptors: (spec_count_mjpeg(n.children, 0) % 0x100) as u8,
                b_default_frame_index: spec_clamp_default(
                    f.b_default_frame_index,
                    spec_first_mjpeg(n.children, 0),
                    spec_last_mjpeg(n.children, 0),
                ),
                ..f
            },
        ),
        DescV::DescriptorUvcFormatUncompressed(f) => DescV::DescriptorUvcFormatUncompressed(
            DescriptorUvcFormatUncompressed {
                b_num_frame_descriptors: (spec_count_uncompressed(n.children, 0) % 0x100) as u8,
                b_default_frame_index: spec_clamp_default(
                    f.b_default_frame_index,
                    spec_first_uncompressed(n.children, 0),
                    spec_last_uncompressed(n.children, 0),
                ),
                ..f
            },
        ),
        DescV::UvcFormatFrameBased(f) => DescV::UvcFormatFrameBased(
            DescriptorUvcFormatFrameBased {
                b_num_frame_descriptors: (spec_count_framebased(n.children, 0) % 0x100) as u8,
                b_default_frame_index: spec_clamp_default(
                    f.b_default_frame_index,
                    spec_first_framebased(n.children, 0),
                    spec_last_framebased(n.children, 0),
                ),
                ..f
            },
        ),
        _ => n.parsed,
    }
}

/// The subtree after the depth-first fix-up pass.
pub open spec fn spec_fix(n: NodeV) -> NodeV
    decreases n, 0int,
{
    NodeV { parsed: spec_fix_parsed(n), children: spec_fix_in(n.children, 0) }
}

pub open spec fn spec_fix_in(cs: Seq<NodeV>, k: int) -> Seq<NodeV>
    decreases cs, cs.len() - k + 1,
{
    if k < 0 || k >= cs.len() {
        Seq::empty()
    } else {
        seq![spec_fix(cs[k])] + spec_fix_in(cs, k + 1)
    }
}

pub proof fn lemma_fix_in_index(cs: Seq<NodeV>, j: int)
    requires
        0 <= j <= cs.len(),
    ensures
        spec_fix_in(cs, j).len() == cs.len() - j,
        forall|t: int|
            j <= t < cs.len() ==> spec_fix_in(cs, j)[t - j] == spec_fix(#[trigger] cs[t]),
    decreases cs.len() - j,
{
    if j < cs.len() {
        lemma_fix_in_index(cs, j + 1);
    }
}

/// Counts the matching frame children and reports the first and last
/// frame indices among them.
fn mjpeg_frame_stats(children: &Vec<TreeNode>) -> (r: (usize, Option<u8>, Option<u8>))
    ensures
        r.0 == spec_count_mjpeg(children_view(children@), 0),
        r.1 == spec_first_mjpeg(children_view(children@), 0),
        r.2 == spec_last_mjpeg(children_view(children@), 0),
{
    let ghost cv = children_view(children@);
    proof {
        lemma_children_view_len(children@);
    }
    let mut cnt: usize = 0;
    let mut fst: Option<u8> = None;
    let mut lst: Option<u8> = None;
    let mut i: usize = 0;
    while i < children.len()
        invariant
            i <= children@.len(),
            cv == children_view(children@),
            cv.len() == children@.len(),
            cnt <= i,
            cnt + spec_count_mjpeg(cv, i as int) == spec_count_mjpeg(cv, 0),
            spec_first_mjpeg(cv, 0) == (match fst {
                Some(x) => Some(x),
                None => spec_first_mjpeg(cv, i as int),
            }),
            spec_last_mjpeg(cv, 0) == (match spec_last_mjpeg(cv, i as int) {
                Some(x) => Some(x),
                None => lst,
            }),
        decreases children@.len() - i,
    {
        proof {
            lemma_children_view_index(children@, i as int);
            lemma_count_mjpeg_bound(cv, i + 1);
        }
        match &children[i].parsed {
            DescriptorTypes::DescriptorUvcFrameMjpeg(f) => {
                cnt = cnt + 1;
                if fst.is_none() {
                    fst = Some(f.b_frame_index);
                }
                lst = Some(f.b_frame_index);
            },
            _ => {},
        }
        i = i + 1;
    }
    (cnt, fst, lst)
}

proof fn lemma_count_mjpeg_bound(cs: Seq<NodeV>, k: int)
    requires
        0 <= k <= cs.len(),
    ensures
        0 <= spec_count_mjpeg(cs, k) <= cs.len() - k,
    decreases cs.len() - k,
{
    if k < cs.len() {
        lemma_count_mjpeg_bound(cs, k + 1);
    }
}

/// Counts the matching frame children and reports the first and last
/// frame indices among them.
fn uncompressed_frame_stats(children: &Vec<TreeNode>) -> (r: (usize, Option<u8>, Option<u8>))
    ensures
        r.0 == spec_count_uncompressed(children_view(children@), 0),
        r.1 == spec_first_uncompressed(children_view(children@), 0),
        r.2 == spec_last_uncompressed(children_view(children@), 0),
{
    let ghost cv = children_view(children@);
    proof {
        lemma_children_view_len(children@);
    }
    let mut cnt: usize = 0;
    let mut fst: Option<u8> = None;
    let mut lst: Option<u8> = None;
    let mut i: usize = 0;
    while i < children.len()
        invariant
            i <= children@.len(),
            cv == children_view(children@),
            cv.len() == children@.len(),
            cnt <= i,
            cnt + spec_count_uncompressed(cv, i as int) == spec_count_uncompressed(cv, 0),
            spec_first_uncompressed(cv, 0) == (match fst {
                Some(x) => Some(x),
                None => spec_first_uncompressed(cv, i as int),
            }),
            spec_last_uncompressed(cv, 0) == (match spec_last_uncompressed(cv, i as int) {
                Some(x) => Some(x),
                None => lst,
            }),
        decreases children@.len() - i,
    {
        proof {
            lemma_children_view_index(children@, i as int);
            lemma_count_uncompressed_bound(cv, i + 1);
        }
        match &children[i].parsed {
            DescriptorTypes::DescriptorUvcFrameUncompressed(f) => {
                cnt = cnt + 1;
                if fst.is_none() {
                    fst = Some(f.b_frame_index);
                }
                lst = Some(f.b_frame_index);
            },
            _ => {},
        }
        i = i + 1;
    }
    (cnt, fst, lst)
}

proof fn lemma_count_uncompressed_bound(cs: Seq<NodeV>, k: int)
    requires
        0 <= k <= cs.len(),
    ensures
        0 <= spec_count_uncompressed(cs, k) <= cs.len() - k,
    decreases cs.len() - k,
{
    if k < cs.len() {
        lemma_count_uncompressed_bound(cs, k + 1);
    }
}

/// Counts the matching frame children and reports the first and last
/// frame indices among them.
fn framebased_frame_stats(children: &Vec<TreeNode>) -> (r: (usize, Option<u8>, Option<u8>))
    ensures
        r.0 == spec_count_framebased(children_view(children@), 0),
        r.1 == spec_first_framebased(children_view(children@), 0),
        r.2 == spec_last_framebased(children_view(children@), 0),
{
    let ghost cv = children_view(children@);
    proof {
        lemma_children_view_len(children@);
    }
    let mut cnt: usize = 0;
    let mut fst: Option<u8> = None;
    let mut lst: Option<u8> = None;
    let mut i: usize = 0;
    while i < children.len()
        invariant
            i <= children@.len(),
            cv == children_view(children@),
            cv.len() == children@.len(),
            cnt <= i,
            cnt + spec_count_framebased(cv, i as int) == spec_count_framebased(cv, 0),
            spec_first_framebased(cv, 0) == (match fst {
                Some(x) => Some(x),
                None => spec_first_framebased(cv, i as int),
            }),
            spec_last_framebased(cv, 0) == (match spec_last_framebased(cv, i as int) {
                Some(x) => Some(x),
                None => lst,
            }),
        decreases children@.len() - i,
    {
        proof {
            lemma_children_view_index(children@, i as int);
            lemma_count_framebased_bound(cv, i + 1);
        }
        match &children[i].parsed {
            DescriptorTypes::UvcFrameFrameBased(f) => {
                cnt = cnt + 1;
                if fst.is_none() {
                    fst = Some(f.b_frame_index);
                }
                lst = Some(f.b_frame_index);
            },
            _ => {},
        }
        i = i + 1;
    }
    (cnt, fst, lst)
}

proof fn lemma_count_framebased_bound(cs: Seq<NodeV>, k: int)
    requires
        0 <= k <= cs.len(),
    ensures
        0 <= spec_count_framebased(cs, k) <= cs.len() - k,
    decreases cs.len() - k,
{
    if k < cs.len() {
        lemma_count_framebased_bound(cs, k + 1);
    }
}

impl TreeNode {
    /// Recomputes every stale length and count field in the subtree:
    /// `wTotalLength` on configurations and UVC input headers from the
    /// serialized subtree size, `bNumInterfaces` from the alternate-
    /// setting-0 interfaces below, `bNumFrameDescriptors` from the
    /// matching frame children, and the default frame index clamped into
    /// its children's index range.
    pub fn fix_tree(&mut self)
        requires
            old(self)@.tree_wf(),
        ensures
            final(self)@ == spec_fix(old(self)@),
            final(self)@.tree_wf(),
        decreases *old(self),
    {
        let mut tmp_buf: Vec<u8> = Vec::new();
        let _ = self.serialize(&mut tmp_buf);
        let iface_ids = self.find_ifaces();
        let iface_cnt = iface_ids.len();
        let stats_mj = mjpeg_frame_stats(&self.children);
        let stats_un = uncompressed_frame_stats(&self.children);
        let stats_fb = framebased_frame_stats(&self.children);
        proof {
            assert(tmp_buf@ == old(self)@.dfs_bytes());
            assert(iface_cnt == spec_find_ifaces(old(self)@).len());
        }
        match &mut self.parsed {
            DescriptorTypes::Config(conf) => {
                conf.w_total_length = (tmp_buf.len() % 0x10000) as u16;
                conf.b_num_interfaces = (iface_cnt % 0x100) as u8;
            },
            DescriptorTypes::UvcInputHeader(hdr) => {
                hdr.w_total_length = (tmp_buf.len() % 0x10000) as u16;
            },
            DescriptorTypes::DescriptorUvcFormatMjpeg(fmt) => {
                fmt.b_num_frame_descriptors = (stats_mj.0 % 0x100) as u8;
                match stats_mj.1 {
                    Some(fi) => {
                        if fmt.b_default_frame_index < fi {
                            fmt.b_default_frame_index = fi;
                        }
                    },
                    None => {},
                }
                match stats_mj.2 {
                    Some(li) => {
                        if fmt.b_default_frame_index > li {
                            fmt.b_default_frame_index = li;
                        }
                    },
                    None => {},
                }
            },
            DescriptorTypes::DescriptorUvcFormatUncompressed(fmt) => {
                fmt.b_num_frame_descriptors = (stats_un.0 % 0x100) as u8;
                match stats_un.1 {
                    Some(fi) => {
                        if fmt.b_default_frame_index < fi {
                            fmt.b_default_frame_index = fi;
                        }
                    },
                    None => {},
                }
                match stats_un.2 {
                    Some(li) => {
                        if fmt.b_default_frame_index > li {
                            fmt.b_default_frame_index = li;
                        }
                    },
                    None => {},
                }
            },
            DescriptorTypes::UvcFormatFrameBased(fmt) => {
                fmt.b_num_frame_descriptors = (stats_fb.0 % 0x100) as u8;
                match stats_fb.1 {
                    Some(fi) => {
                        if fmt.b_default_frame_index < fi {
                            fmt.b_default_frame_index = fi;
                        }
                    },
                    None => {},
                }
                match stats_fb.2 {
                    Some(li) => {
                        if fmt.b_default_frame_index > li {
                            fmt.b_default_frame_index = li;
                        }
                    },
                    None => {},
                }
            },
            _ => {},
        }
        proof {
            assert(self.parsed@ == spec_fix_parsed(old(self)@));
            assert(self.parsed@.wf());
        }
        let mut i: usize = 0;
        while i < self.children.len()
            invariant
                i <= self.children@.len(),
                self.children@.len() == old(self).children@.len(),
                self.parsed@ == spec_fix_parsed(old(self)@),
                self.parsed@.wf(),
                old(self)@.tree_wf(),
                forall|j: int|
                    i <= j < self.children@.len() ==> self.children@[j] == old(self).children@[j],
                forall|j: int|
                    0 <= j < i ==> node_view(#[trigger] self.children@[j]) == spec_fix(
                        children_view(old(self).children@)[j],
                    ),
                forall|j: int|
                    0 <= j < i ==> node_view(#[trigger] self.children@[j]).tree_wf(),
            decreases self.children@.len() - i,
        {
            proof {
                lemma_children_view_index(old(self).children@, i as int);
                assert(children_view(old(self).children@)[i as int].tree_wf());
            }
            let child = &mut self.children[i];
            child.fix_tree();
            i = i + 1;
        }
        proof {
            let cv = children_view(old(self).children@);
            lemma_children_view_len(old(self).children@);
            lemma_children_view_len(self.children@);
            lemma_fix_in_index(cv, 0);
            assert forall|j: int| 0 <= j < cv.len() implies children_view(self.children@)[j]
                == spec_fix_in(cv, 0)[j] && children_view(self.children@)[j].tree_wf() by {
                lemma_children_view_index(self.children@, j);
                lemma_fix_in_index(cv, j);
            }
            assert(children_view(self.children@) =~= spec_fix_in(cv, 0));
            assert(self@ =~= spec_fix(old(self)@));
            assert forall|j: int| 0 <= j < self@.children.len() implies (
            #[trigger] self@.children[j]).tree_wf() by {
                lemma_children_view_index(self.children@, j);
            }
            assert(self@.tree_wf());
        }
    }
}

} // verus!
