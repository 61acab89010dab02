//! Search and classification over the descriptor tree: interface
//! collection, endpoint lookups, format and frame lookups, and the boolean
//! classifiers on interfaces and endpoints.

use vstd::prelude::*;

use crate::tree::children_view;
use crate::tree::lemma_children_view_index;
use crate::tree::lemma_children_view_len;
use crate::tree::node_view;
use crate::tree::NodeV;
use crate::tree::TreeNode;
use crate::usb_proto::DescError;
use crate::usb_proto::DescriptorTypes;
use crate::usb_proto::DescV;
use crate::usb_proto::IfaceAltSetting;
use crate::usb_proto::CLASS_HID;
use crate::uvc_proto::MockVideoConfig;
use crate::uvc_proto::MockVideoFormat;
use crate::uvc_proto::UncompressedFormats;

verus! {

/// A width and height in pixels.
#[derive(Debug, Clone, Copy, PartialEq, Eq, Structural)]
pub struct Size2d {
    pub width: u32,
    pub height: u32,
}

impl Size2d {
    pub fn new(width: u32, height: u32) -> (r: Size2d)
        ensures
            r.width == width,
            r.height == height,
    {
        Size2d { width, height }
    }
}

/// The interface numbers of every alternate-setting-0 interface in the subtree, in depth-first
/// order.
pub open spec fn spec_find_ifaces(n: NodeV) -> Seq<u8>
    decreases n, 0int,
{
    (match n.parsed {
        DescV::Interface(i) => {
            if i.b_alternate_setting == 0 {
                seq![i.b_interface_number]
            } else {
                Seq::empty()
            }
        },
        _ => Seq::empty(),
    }) + spec_find_ifaces_in(n.children, 0)
}

pub open spec fn spec_find_ifaces_in(cs: Seq<NodeV>, k: int) -> Seq<u8>
    decreases cs, cs.len() - k + 1,
{
    if k < 0 || k >= cs.len() {
        Seq::empty()
    } else {
        spec_find_ifaces(cs[k]) + spec_find_ifaces_in(cs, k + 1)
    }
}

/// The interface numbers of every audio-class alternate-setting-0 interface in the subtree, in depth-first
/// order.
pub open spec fn spec_find_uac_ifaces(n: NodeV) -> Seq<u8>
    decreases n, 0int,
{
    (match n.parsed {
        DescV::Interface(i) => {
            if (i.spec_is_audio()) && i.b_alternate_setting == 0 {
                seq![i.b_interface_number]
            } else {
                Seq::empty()
            }
        },
        _ => Seq::empty(),
    }) + spec_find_uac_ifaces_in(n.children, 0)
}

pub open spec fn spec_find_uac_ifaces_in(cs: Seq<NodeV>, k: int) -> Seq<u8>
    decreases cs, cs.len() - k + 1,
{
    if k < 0 || k >= cs.len() {
        Seq::empty()
    } else {
        spec_find_uac_ifaces(cs[k]) + spec_find_uac_ifaces_in(cs, k + 1)
    }
}

/// The interface numbers of every non-audio alternate-setting-0 interface in the subtree, in depth-first
/// order.
pub open spec fn spec_find_non_uac_ifaces(n: NodeV) -> Seq<u8>
    decreases n, 0int,
{
    (match n.parsed {
        DescV::Interface(i) => {
            if (!i.spec_is_audio()) && i.b_alternate_setting == 0 {
                seq![i.b_interface_number]
            } else {
                Seq::empty()
            }
        },
        _ => Seq::empty(),
    }) + spec_find_non_uac_ifaces_in(n.children, 0)
}

pub open spec fn spec_find_non_uac_ifaces_in(cs: Seq<NodeV>, k: int) -> Seq<u8>
    decreases cs, cs.len() - k + 1,
{
    if k < 0 || k >= cs.len() {
        Seq::empty()
    } else {
        spec_find_non_uac_ifaces(cs[k]) + spec_find_non_uac_ifaces_in(cs, k + 1)
    }
}

/// The interface numbers of every video-streaming alternate-setting-0 interface in the subtree, in depth-first
/// order.
pub open spec fn spec_find_uvc_ifaces(n: NodeV) -> Seq<u8>
    decreases n, 0int,
{
    (match n.parsed {
        DescV::Interface(i) => {
            if (i.spec_is_video_streaming()) && i.b_alternate_setting == 0 {
                seq![i.b_interface_number]
            } else {
                Seq::empty()
            }
        },
        _ => Seq::empty(),
    }) + spec_find_uvc_ifaces_in(n.children, 0)
}

pub open spec fn spec_find_uvc_ifaces_in(cs: Seq<NodeV>, k: int) -> Seq<u8>
    decreases cs, cs.len() - k + 1,
{
    if k < 0 || k >= cs.len() {
        Seq::empty()
    } else {
        spec_find_uvc_ifaces(cs[k]) + spec_find_uvc_ifaces_in(cs, k + 1)
    }
}

/// The interface numbers of every non-video-streaming alternate-setting-0 interface in the subtree, in depth-first
/// order.
pub open spec fn spec_find_non_uvc_ifaces(n: NodeV) -> Seq<u8>
    decreases n, 0int,
{
    (match n.parsed {
        DescV::Interface(i) => {
            if (!i.spec_is_video_streaming()) && i.b_alternate_setting == 0 {
                seq![i.b_interface_number]
            } else {
                Seq::empty()
            }
        },
        _ => Seq::empty(),
    }) + spec_find_non_uvc_ifaces_in(n.children, 0)
}

pub open spec fn spec_find_non_uvc_ifaces_in(cs: Seq<NodeV>, k: int) -> Seq<u8>
    decreases cs, cs.len() - k + 1,
{
    if k < 0 || k >= cs.len() {
        Seq::empty()
    } else {
        spec_find_non_uvc_ifaces(cs[k]) + spec_find_non_uvc_ifaces_in(cs, k + 1)
    }
}


/// Finds the first node (depth-first, the node itself first) that is an interface with the given number and alternate setting in the subtree.
pub open spec fn spec_get_iface_by_num(n: NodeV, x: IfaceAltSetting) -> Option<NodeV>
    decreases n, 0int,
{
    if n.parsed matches DescV::Interface(me) && me.b_interface_number == x.iface && me.b_alternate_setting == x.alt {
        Some(n)
    } else {
        spec_get_iface_by_num_in(n.children, 0, x)
    }
}

pub open spec fn spec_get_iface_by_num_in(cs: Seq<NodeV>, k: int, x: IfaceAltSetting) -> Option<NodeV>
    decreases cs, cs.len() - k + 1,
{
    if k < 0 || k >= cs.len() {
        None
    } else if spec_get_iface_by_num(cs[k], x) is Some {
        spec_get_iface_by_num(cs[k], x)
    } else {
        spec_get_iface_by_num_in(cs, k + 1, x)
    }
}

/// Finds the first MJPEG or uncompressed format record carrying the given format index in the subtree.
pub open spec fn spec_get_format_by_idx(n: NodeV, x: u8) -> Option<NodeV>
    decreases n, 0int,
{
    if (n.parsed matches DescV::DescriptorUvcFormatMjpeg(me) && me.b_format_index == x) || (n.parsed matches DescV::DescriptorUvcFormatUncompressed(me) && me.b_format_index == x) {
        Some(n)
    } else {
        spec_get_format_by_idx_in(n.children, 0, x)
    }
}

pub open spec fn spec_get_format_by_idx_in(cs: Seq<NodeV>, k: int, x: u8) -> Option<NodeV>
    decreases cs, cs.len() - k + 1,
{
    if k < 0 || k >= cs.len() {
        None
    } else if spec_get_format_by_idx(cs[k], x) is Some {
        spec_get_format_by_idx(cs[k], x)
    } else {
        spec_get_format_by_idx_in(cs, k + 1, x)
    }
}

/// Finds the first MJPEG or uncompressed frame record carrying the given frame index in the subtree.
pub open spec fn spec_get_frame_by_idx(n: NodeV, x: u8) -> Option<NodeV>
    decreases n, 0int,
{
    if (n.parsed matches DescV::DescriptorUvcFrameMjpeg(me) && me.b_frame_index == x) || (n.parsed matches DescV::DescriptorUvcFrameUncompressed(me) && me.b_frame_index == x) {
        Some(n)
    } else {
        spec_get_frame_by_idx_in(n.children, 0, x)
    }
}

pub open spec fn spec_get_frame_by_idx_in(cs: Seq<NodeV>, k: int, x: u8) -> Option<NodeV>
    decreases cs, cs.len() - k + 1,
{
    if k < 0 || k >= cs.len() {
        None
    } else if spec_get_frame_by_idx(cs[k], x) is Some {
        spec_get_frame_by_idx(cs[k], x)
    } else {
        spec_get_frame_by_idx_in(cs, k + 1, x)
    }
}

/// Finds the first standard endpoint record in the subtree.
pub open spec fn spec_get_ep(n: NodeV) -> Option<NodeV>
    decreases n, 0int,
{
    if n.parsed matches DescV::Endpoint(_) {
        Some(n)
    } else {
        spec_get_ep_in(n.children, 0)
    }
}

pub open spec fn spec_get_ep_in(cs: Seq<NodeV>, k: int) -> Option<NodeV>
    decreases cs, cs.len() - k + 1,
{
    if k < 0 || k >= cs.len() {
        None
    } else if spec_get_ep(cs[k]) is Some {
        spec_get_ep(cs[k])
    } else {
        spec_get_ep_in(cs, k + 1)
    }
}

/// Finds the first audio-class endpoint record in the subtree.
pub open spec fn spec_get_uac_ep(n: NodeV) -> Option<NodeV>
    decreases n, 0int,
{
    if n.parsed matches DescV::UacEndpoint(_) {
        Some(n)
    } else {
        spec_get_uac_ep_in(n.children, 0)
    }
}

pub open spec fn spec_get_uac_ep_in(cs: Seq<NodeV>, k: int) -> Option<NodeV>
    decreases cs, cs.len() - k + 1,
{
    if k < 0 || k >= cs.len() {
        None
    } else if spec_get_uac_ep(cs[k]) is Some {
        spec_get_uac_ep(cs[k])
    } else {
        spec_get_uac_ep_in(cs, k + 1)
    }
}

/// Finds the first PCM format type record in the subtree.
pub open spec fn spec_get_uac_fmt(n: NodeV) -> Option<NodeV>
    decreases n, 0int,
{
    if n.parsed matches DescV::UacFormatTypeI(_) {
        Some(n)
    } else {
        spec_get_uac_fmt_in(n.children, 0)
    }
}

pub open spec fn spec_get_uac_fmt_in(cs: Seq<NodeV>, k: int) -> Option<NodeV>
    decreases cs, cs.len() - k + 1,
{
    if k < 0 || k >= cs.len() {
        None
    } else if spec_get_uac_fmt(cs[k]) is Some {
        spec_get_uac_fmt(cs[k])
    } else {
        spec_get_uac_fmt_in(cs, k + 1)
    }
}

/// Finds the first SuperSpeed endpoint companion record in the subtree.
pub open spec fn spec_get_ss_ep_comp(n: NodeV) -> Option<NodeV>
    decreases n, 0int,
{
    if n.parsed matches DescV::SsEpComp(_) {
        Some(n)
    } else {
        spec_get_ss_ep_comp_in(n.children, 0)
    }
}

pub open spec fn spec_get_ss_ep_comp_in(cs: Seq<NodeV>, k: int) -> Option<NodeV>
    decreases cs, cs.len() - k + 1,
{
    if k < 0 || k >= cs.len() {
        None
    } else if spec_get_ss_ep_comp(cs[k]) is Some {
        spec_get_ss_ep_comp(cs[k])
    } else {
        spec_get_ss_ep_comp_in(cs, k + 1)
    }
}

/// Finds the first UVC input header record in the subtree.
pub open spec fn spec_get_uvc_input_hdr(n: NodeV) -> Option<NodeV>
    decreases n, 0int,
{
    if n.parsed matches DescV::UvcInputHeader(_) {
        Some(n)
    } else {
        spec_get_uvc_input_hdr_in(n.children, 0)
    }
}

pub open spec fn spec_get_uvc_input_hdr_in(cs: Seq<NodeV>, k: int) -> Option<NodeV>
    decreases cs, cs.len() - k + 1,
{
    if k < 0 || k >= cs.len() {
        None
    } else if spec_get_uvc_input_hdr(cs[k]) is Some {
        spec_get_uvc_input_hdr(cs[k])
    } else {
        spec_get_uvc_input_hdr_in(cs, k + 1)
    }
}


/// Whether the subtree contains an audio-class interface record.
pub open spec fn spec_has_audio(n: NodeV) -> bool
    decreases n, 0int,
{
    (n.parsed matches DescV::Interface(i) && i.spec_is_audio()) || spec_has_audio_in(n.children, 0)
}

pub open spec fn spec_has_audio_in(cs: Seq<NodeV>, k: int) -> bool
    decreases cs, cs.len() - k + 1,
{
    if k < 0 || k >= cs.len() {
        false
    } else {
        spec_has_audio(cs[k]) || spec_has_audio_in(cs, k + 1)
    }
}

/// Whether the subtree contains a video-streaming interface record.
pub open spec fn spec_has_video(n: NodeV) -> bool
    decreases n, 0int,
{
    (n.parsed matches DescV::Interface(i) && i.spec_is_video_streaming()) || spec_has_video_in(
        n.children,
        0,
    )
}

pub open spec fn spec_has_video_in(cs: Seq<NodeV>, k: int) -> bool
    decreases cs, cs.len() - k + 1,
{
    if k < 0 || k >= cs.len() {
        false
    } else {
        spec_has_video(cs[k]) || spec_has_video_in(cs, k + 1)
    }
}

/// The number of UVC format records in the subtree.
pub open spec fn spec_num_uvc_formats(n: NodeV) -> nat
    decreases n, 0int,
{
    (if n.parsed.is_uvc_format() {
        1nat
    } else {
        0nat
    }) + spec_num_uvc_formats_in(n.children, 0)
}

pub open spec fn spec_num_uvc_formats_in(cs: Seq<NodeV>, k: int) -> nat
    decreases cs, cs.len() - k + 1,
{
    if k < 0 || k >= cs.len() {
        0nat
    } else {
        spec_num_uvc_formats(cs[k]) + spec_num_uvc_formats_in(cs, k + 1)
    }
}

/// The interface number carried by the first IN audio endpoint found in a
/// depth-first walk, where `iface` tracks the most recent interface seen.
pub open spec fn spec_find_mic_iface(n: NodeV, iface: Option<u8>) -> Option<u8>
    decreases n, 0int,
{
    if n.parsed matches DescV::UacEndpoint(ep) && ep.spec_is_in() {
        iface
    } else {
        let cur = match n.parsed {
            DescV::Interface(i) => Some(i.b_interface_number),
            _ => iface,
        };
        spec_find_mic_iface_in(n.children, 0, cur)
    }
}

pub open spec fn spec_find_mic_iface_in(cs: Seq<NodeV>, k: int, iface: Option<u8>) -> Option<u8>
    decreases cs, cs.len() - k + 1,
{
    if k < 0 || k >= cs.len() {
        None
    } else if spec_find_mic_iface(cs[k], iface) is Some {
        spec_find_mic_iface(cs[k], iface)
    } else {
        spec_find_mic_iface_in(cs, k + 1, iface)
    }
}

/// As `spec_find_mic_iface`, for the first OUT audio endpoint.
pub open spec fn spec_find_spkr_iface(n: NodeV, iface: Option<u8>) -> Option<u8>
    decreases n, 0int,
{
    if n.parsed matches DescV::UacEndpoint(ep) && !ep.spec_is_in() {
        iface
    } else {
        let cur = match n.parsed {
            DescV::Interface(i) => Some(i.b_interface_number),
            _ => iface,
        };
        spec_find_spkr_iface_in(n.children, 0, cur)
    }
}

pub open spec fn spec_find_spkr_iface_in(cs: Seq<NodeV>, k: int, iface: Option<u8>) -> Option<u8>
    decreases cs, cs.len() - k + 1,
{
    if k < 0 || k >= cs.len() {
        None
    } else if spec_find_spkr_iface(cs[k], iface) is Some {
        spec_find_spkr_iface(cs[k], iface)
    } else {
        spec_find_spkr_iface_in(cs, k + 1, iface)
    }
}

/// The number of the first HID-class interface in a depth-first walk.
pub open spec fn spec_find_hid_iface(n: NodeV, iface: Option<u8>) -> Option<u8>
    decreases n, 0int,
{
    match n.parsed {
        DescV::Interface(i) => {
            if i.b_interface_class == CLASS_HID {
                Some(i.b_interface_number)
            } else {
                spec_find_hid_iface_in(n.children, 0, Some(i.b_interface_number))
            }
        },
        _ => spec_find_hid_iface_in(n.children, 0, iface),
    }
}

pub open spec fn spec_find_hid_iface_in(cs: Seq<NodeV>, k: int, iface: Option<u8>) -> Option<u8>
    decreases cs, cs.len() - k + 1,
{
    if k < 0 || k >= cs.len() {
        None
    } else if spec_find_hid_iface(cs[k], iface) is Some {
        spec_find_hid_iface(cs[k], iface)
    } else {
        spec_find_hid_iface_in(cs, k + 1, iface)
    }
}

/// The address of the first IN audio endpoint in the subtree.
pub open spec fn spec_find_mic_ep(n: NodeV) -> Option<u8>
    decreases n, 0int,
{
    if n.parsed matches DescV::UacEndpoint(ep) && ep.spec_is_in() {
        match n.parsed {
            DescV::UacEndpoint(ep) => Some(ep.b_endpoint_address),
            _ => None,
        }
    } else {
        spec_find_mic_ep_in(n.children, 0)
    }
}

pub open spec fn spec_find_mic_ep_in(cs: Seq<NodeV>, k: int) -> Option<u8>
    decreases cs, cs.len() - k + 1,
{
    if k < 0 || k >= cs.len() {
        None
    } else if spec_find_mic_ep(cs[k]) is Some {
        spec_find_mic_ep(cs[k])
    } else {
        spec_find_mic_ep_in(cs, k + 1)
    }
}

/// The address of the first OUT audio endpoint in the subtree.
pub open spec fn spec_find_spkr_ep(n: NodeV) -> Option<u8>
    decreases n, 0int,
{
    if n.parsed matches DescV::UacEndpoint(ep) && !ep.spec_is_in() {
        match n.parsed {
            DescV::UacEndpoint(ep) => Some(ep.b_endpoint_address),
            _ => None,
        }
    } else {
        spec_find_spkr_ep_in(n.children, 0)
    }
}

pub open spec fn spec_find_spkr_ep_in(cs: Seq<NodeV>, k: int) -> Option<u8>
    decreases cs, cs.len() - k + 1,
{
    if k < 0 || k >= cs.len() {
        None
    } else if spec_find_spkr_ep(cs[k]) is Some {
        spec_find_spkr_ep(cs[k])
    } else {
        spec_find_spkr_ep_in(cs, k + 1)
    }
}

/// The address of the first OUT HID interrupt endpoint in the subtree.
pub open spec fn spec_find_hid_ep(n: NodeV) -> Option<u8>
    decreases n, 0int,
{
    if n.parsed matches DescV::HidEndpoint(ep) && !ep.spec_is_in() {
        match n.parsed {
            DescV::HidEndpoint(ep) => Some(ep.b_endpoint_address),
            _ => None,
        }
    } else {
        spec_find_hid_ep_in(n.children, 0)
    }
}

pub open spec fn spec_find_hid_ep_in(cs: Seq<NodeV>, k: int) -> Option<u8>
    decreases cs, cs.len() - k + 1,
{
    if k < 0 || k >= cs.len() {
        None
    } else if spec_find_hid_ep(cs[k]) is Some {
        spec_find_hid_ep(cs[k])
    } else {
        spec_find_hid_ep_in(cs, k + 1)
    }
}

/// Finds the node owning the endpoint with address `ep`: the interface it
/// sits under when one is found on the way back up, otherwise the nearest
/// enclosing node.
pub open spec fn spec_get_iface_by_ep(n: NodeV, ep: u8) -> Option<NodeV>
    decreases n, 0int,
{
    if n.parsed matches DescV::Endpoint(me) && me.b_endpoint_address == ep {
        Some(n)
    } else {
        spec_get_iface_by_ep_in(n, n.children, 0, ep)
    }
}

pub open spec fn spec_get_iface_by_ep_in(parent: NodeV, cs: Seq<NodeV>, k: int, ep: u8) -> Option<
    NodeV,
>
    decreases cs, cs.len() - k + 1,
{
    if k < 0 || k >= cs.len() {
        None
    } else {
        match spec_get_iface_by_ep(cs[k], ep) {
            Some(found) => {
                if found.parsed matches DescV::Interface(_) {
                    Some(found)
                } else {
                    Some(parent)
                }
            },
            None => spec_get_iface_by_ep_in(parent, cs, k + 1, ep),
        }
    }
}

/// The frame size of a frame record; other records carry none.
pub open spec fn spec_frame_sz(n: NodeV) -> Result<Size2d, DescError> {
    match n.parsed {
        DescV::DescriptorUvcFrameMjpeg(f) => Ok(
            Size2d { width: f.w_width as u32, height: f.w_height as u32 },
        ),
        DescV::DescriptorUvcFrameUncompressed(f) => Ok(
            Size2d { width: f.w_width as u32, height: f.w_height as u32 },
        ),
        _ => Err(DescError::NotFrame),
    }
}

/// The video configuration composed from a format index, a frame index
/// under that format, and a caller-chosen framerate.
pub open spec fn spec_get_video_cfg(n: NodeV, fmt_idx: u8, frame_idx: u8, fps: i32) -> Result<
    MockVideoConfig,
    DescError,
> {
    match spec_get_format_by_idx(n, fmt_idx) {
        None => Err(DescError::FormatNotFound),
        Some(fmt_node) => {
            let fmtv = match fmt_node.parsed {
                DescV::DescriptorUvcFormatMjpeg(_) => Ok(MockVideoFormat::Mjpeg),
                DescV::DescriptorUvcFormatUncompressed(f) => {
                    if f.guid_format == UncompressedFormats::YUY2 {
                        Ok(MockVideoFormat::Yuy2)
                    } else if f.guid_format == UncompressedFormats::NV12 {
                        Ok(MockVideoFormat::Nv12)
                    } else {
                        Err(DescError::InvalidFormat)
                    }
                },
                _ => Err(DescError::InvalidFormat),
            };
            match fmtv {
                Err(e) => Err(e),
                Ok(mf) => match spec_get_frame_by_idx(fmt_node, frame_idx) {
                    None => Err(DescError::FrameNotFound),
                    Some(frame) => match spec_frame_sz(frame) {
                        Err(e) => Err(e),
                        Ok(sz) => Ok(
                            MockVideoConfig {
                                width: sz.width,
                                height: sz.height,
                                fps,
                                format: mf,
                            },
                        ),
                    },
                },
            }
        },
    }
}

/// Whether `m` is a node of the subtree rooted at `n`.
pub open spec fn spec_in_subtree(n: NodeV, m: NodeV) -> bool
    decreases n, 0int,
{
    n == m || spec_in_subtree_in(n.children, 0, m)
}

pub open spec fn spec_in_subtree_in(cs: Seq<NodeV>, k: int, m: NodeV) -> bool
    decreases cs, cs.len() - k + 1,
{
    if k < 0 || k >= cs.len() {
        false
    } else {
        spec_in_subtree(cs[k], m) || spec_in_subtree_in(cs, k + 1, m)
    }
}


pub proof fn lemma_num_uvc_formats_in_nonneg(cs: Seq<NodeV>, k: int)
    ensures
        spec_num_uvc_formats_in(cs, k) >= 0,
{
}


/// A subtree of a child is a subtree of the parent.
pub proof fn lemma_in_subtree_step(n: NodeV, i: int, m: NodeV)
    requires
        0 <= i < n.children.len(),
        spec_in_subtree(n.children[i], m),
    ensures
        spec_in_subtree(n, m),
{
    lemma_in_subtree_in(n.children, 0, i, m);
}

pub proof fn lemma_in_subtree_in(cs: Seq<NodeV>, k: int, i: int, m: NodeV)
    requires
        0 <= k <= i < cs.len(),
        spec_in_subtree(cs[i], m),
    ensures
        spec_in_subtree_in(cs, k, m),
    decreases i - k,
{
    if k < i {
        lemma_in_subtree_in(cs, k + 1, i, m);
    }
}

impl TreeNode {

    /// Collects every alternate-setting-0 interface number in the subtree, in depth-first order.
    pub fn find_ifaces(&self) -> (r: Vec<u8>)
        ensures
            r@ == spec_find_ifaces(self@),
        decreases *self,
    {
        let ghost cv = children_view(self.children@);
        let mut ids: Vec<u8> = Vec::new();
        match &self.parsed {
            DescriptorTypes::Interface(iface) => {
                if iface.b_alternate_setting == 0 {
                    ids.push(iface.b_interface_number);
                }
            },
            _ => {},
        }
        proof {
            lemma_children_view_len(self.children@);
            assert(ids@ + spec_find_ifaces_in(cv, 0) =~= spec_find_ifaces(self@));
        }
        let mut i: usize = 0;
        while i < self.children.len()
            invariant
                i <= self.children@.len(),
                cv == children_view(self.children@),
                cv.len() == self.children@.len(),
                ids@ + spec_find_ifaces_in(cv, i as int) == spec_find_ifaces(self@),
            decreases self.children@.len() - i,
        {
            proof {
                lemma_children_view_index(self.children@, i as int);
            }
            let mut child_ids = self.children[i].find_ifaces();
            proof {
                assert(spec_find_ifaces_in(cv, i as int) == spec_find_ifaces(cv[i as int]) + spec_find_ifaces_in(
                    cv,
                    i + 1,
                ));
            }
            ids.append(&mut child_ids);
            proof {
                assert(ids@ + spec_find_ifaces_in(cv, i + 1) =~= spec_find_ifaces(self@));
            }
            i = i + 1;
        }
        ids
    }

    /// Collects every audio-class alternate-setting-0 interface number in the subtree, in depth-first order.
    pub fn find_uac_ifaces(&self) -> (r: Vec<u8>)
        ensures
            r@ == spec_find_uac_ifaces(self@),
        decreases *self,
    {
        let ghost cv = children_view(self.children@);
        let mut ids: Vec<u8> = Vec::new();
        match &self.parsed {
            DescriptorTypes::Interface(iface) => {
                if iface.is_audio() && iface.b_alternate_setting == 0 {
                    ids.push(iface.b_interface_number);
                }
            },
            _ => {},
        }
        proof {
            lemma_children_view_len(self.children@);
            assert(ids@ + spec_find_uac_ifaces_in(cv, 0) =~= spec_find_uac_ifaces(self@));
        }
        let mut i: usize = 0;
        while i < self.children.len()
            invariant
                i <= self.children@.len(),
                cv == children_view(self.children@),
                cv.len() == self.children@.len(),
                ids@ + spec_find_uac_ifaces_in(cv, i as int) == spec_find_uac_ifaces(self@),
            decreases self.children@.len() - i,
        {
            proof {
                lemma_children_view_index(self.children@, i as int);
            }
            let mut child_ids = self.children[i].find_uac_ifaces();
            proof {
                assert(spec_find_uac_ifaces_in(cv, i as int) == spec_find_uac_ifaces(cv[i as int]) + spec_find_uac_ifaces_in(
                    cv,
                    i + 1,
                ));
            }
            ids.append(&mut child_ids);
            proof {
                assert(ids@ + spec_find_uac_ifaces_in(cv, i + 1) =~= spec_find_uac_ifaces(self@));
            }
            i = i + 1;
        }
        ids
    }

    /// Collects every non-audio alternate-setting-0 interface number in the subtree, in depth-first order.
    pub fn find_non_uac_ifaces(&self) -> (r: Vec<u8>)
        ensures
            r@ == spec_find_non_uac_ifaces(self@),
        decreases *self,
    {
        let ghost cv = children_view(self.children@);
        let mut ids: Vec<u8> = Vec::new();
        match &self.parsed {
            DescriptorTypes::Interface(iface) => {
                if !iface.is_audio() && iface.b_alternate_setting == 0 {
                    ids.push(iface.b_interface_number);
                }
            },
            _ => {},
        }
        proof {
            lemma_children_view_len(self.children@);
            assert(ids@ + spec_find_non_uac_ifaces_in(cv, 0) =~= spec_find_non_uac_ifaces(self@));
        }
        let mut i: usize = 0;
        while i < self.children.len()
            invariant
                i <= self.children@.len(),
                cv == children_view(self.children@),
                cv.len() == self.children@.len(),
                ids@ + spec_find_non_uac_ifaces_in(cv, i as int) == spec_find_non_uac_ifaces(self@),
            decreases self.children@.len() - i,
        {
            proof {
                lemma_children_view_index(self.children@, i as int);
            }
            let mut child_ids = self.children[i].find_non_uac_ifaces();
            proof {
                assert(spec_find_non_uac_ifaces_in(cv, i as int) == spec_find_non_uac_ifaces(cv[i as int]) + spec_find_non_uac_ifaces_in(
                    cv,
                    i + 1,
                ));
            }
            ids.append(&mut child_ids);
            proof {
                assert(ids@ + spec_find_non_uac_ifaces_in(cv, i + 1) =~= spec_find_non_uac_ifaces(self@));
            }
            i = i + 1;
        }
        ids
    }

    /// Collects every video-streaming alternate-setting-0 interface number in the subtree, in depth-first order.
    pub fn find_uvc_ifaces(&self) -> (r: Vec<u8>)
        ensures
            r@ == spec_find_uvc_ifaces(self@),
        decreases *self,
    {
        let ghost cv = children_view(self.children@);
        let mut ids: Vec<u8> = Vec::new();
        match &self.parsed {
            DescriptorTypes::Interface(iface) => {
                if iface.is_video_streaming() && iface.b_alternate_setting == 0 {
                    ids.push(iface.b_interface_number);
                }
            },
            _ => {},
        }
        proof {
            lemma_children_view_len(self.children@);
            assert(ids@ + spec_find_uvc_ifaces_in(cv, 0) =~= spec_find_uvc_ifaces(self@));
        }
        let mut i: usize = 0;
        while i < self.children.len()
            invariant
                i <= self.children@.len(),
                cv == children_view(self.children@),
                cv.len() == self.children@.len(),
                ids@ + spec_find_uvc_ifaces_in(cv, i as int) == spec_find_uvc_ifaces(self@),
            decreases self.children@.len() - i,
        {
            proof {
                lemma_children_view_index(self.children@, i as int);
            }
            let mut child_ids = self.children[i].find_uvc_ifaces();
            proof {
                assert(spec_find_uvc_ifaces_in(cv, i as int) == spec_find_uvc_ifaces(cv[i as int]) + spec_find_uvc_ifaces_in(
                    cv,
                    i + 1,
                ));
            }
            ids.append(&mut child_ids);
            proof {
                assert(ids@ + spec_find_uvc_ifaces_in(cv, i + 1) =~= spec_find_uvc_ifaces(self@));
            }
            i = i + 1;
        }
        ids
    }

    /// Collects every non-video-streaming alternate-setting-0 interface number in the subtree, in depth-first order.
    pub fn find_non_uvc_ifaces(&self) -> (r: Vec<u8>)
        ensures
            r@ == spec_find_non_uvc_ifaces(self@),
        decreases *self,
    {
        let ghost cv = children_view(self.children@);
        let mut ids: Vec<u8> = Vec::new();
        match &self.parsed {
            DescriptorTypes::Interface(iface) => {
                if !iface.is_video_streaming() && iface.b_alternate_setting == 0 {
                    ids.push(iface.b_interface_number);
                }
            },
            _ => {},
        }
        proof {
            lemma_children_view_len(self.children@);
            assert(ids@ + spec_find_non_uvc_ifaces_in(cv, 0) =~= spec_find_non_uvc_ifaces(self@));
        }
        let mut i: usize = 0;
        while i < self.children.len()
            invariant
                i <= self.children@.len(),
                cv == children_view(self.children@),
                cv.len() == self.children@.len(),
                ids@ + spec_find_non_uvc_ifaces_in(cv, i as int) == spec_find_non_uvc_ifaces(self@),
            decreases self.children@.len() - i,
        {
            proof {
                lemma_children_view_index(self.children@, i as int);
            }
            let mut child_ids = self.children[i].find_non_uvc_ifaces();
            proof {
                assert(spec_find_non_uvc_ifaces_in(cv, i as int) == spec_find_non_uvc_ifaces(cv[i as int]) + spec_find_non_uvc_ifaces_in(
                    cv,
                    i + 1,
                ));
            }
            ids.append(&mut child_ids);
            proof {
                assert(ids@ + spec_find_non_uvc_ifaces_in(cv, i + 1) =~= spec_find_non_uvc_ifaces(self@));
            }
            i = i + 1;
        }
        ids
    }


    /// Returns the first node (depth-first, the node itself first) that is an interface with the given number and alternate setting, searching the node itself first and then the
    /// children depth-first.
    pub fn get_iface_by_num(&self, iface_setting: IfaceAltSetting) -> (r: Option<&TreeNode>)
        ensures
            match r {
                Some(t) => spec_get_iface_by_num(self@, iface_setting) == Some(t@),
                None => spec_get_iface_by_num(self@, iface_setting) is None,
            },
        decreases *self,
    {
        let own_hit = match &self.parsed {
            DescriptorTypes::Interface(me) => me.b_interface_number == iface_setting.iface
                && me.b_alternate_setting == iface_setting.alt,
            _ => false,
        };
        if own_hit {
            return Some(self);
        }
        let ghost cv = children_view(self.children@);
        proof {
            lemma_children_view_len(self.children@);
        }
        let mut i: usize = 0;
        while i < self.children.len()
            invariant
                i <= self.children@.len(),
                cv == children_view(self.children@),
                cv.len() == self.children@.len(),
                !(self@.parsed matches DescV::Interface(me) && me.b_interface_number == iface_setting.iface && me.b_alternate_setting == iface_setting.alt),
                spec_get_iface_by_num_in(cv, 0, iface_setting) == spec_get_iface_by_num_in(cv, i as int, iface_setting),
            decreases self.children@.len() - i,
        {
            proof {
                lemma_children_view_index(self.children@, i as int);
            }
            let res = self.children[i].get_iface_by_num(iface_setting);
            if res.is_some() {
                return res;
            }
            i = i + 1;
        }
        None
    }

    /// Returns the first MJPEG or uncompressed format record carrying the given format index, searching the node itself first and then the
    /// children depth-first.
    pub fn get_format_by_idx(&self, idx: u8) -> (r: Option<&TreeNode>)
        ensures
            match r {
                Some(t) => spec_get_format_by_idx(self@, idx) == Some(t@),
                None => spec_get_format_by_idx(self@, idx) is None,
            },
        decreases *self,
    {
        let own_hit = match &self.parsed {
            DescriptorTypes::DescriptorUvcFormatMjpeg(me) => me.b_format_index == idx,
            DescriptorTypes::DescriptorUvcFormatUncompressed(me) => me.b_format_index == idx,
            _ => false,
        };
        if own_hit {
            return Some(self);
        }
        let ghost cv = children_view(self.children@);
        proof {
            lemma_children_view_len(self.children@);
        }
        let mut i: usize = 0;
        while i < self.children.len()
            invariant
                i <= self.children@.len(),
                cv == children_view(self.children@),
                cv.len() == self.children@.len(),
                !((self@.parsed matches DescV::DescriptorUvcFormatMjpeg(me) && me.b_format_index == idx) || (self@.parsed matches DescV::DescriptorUvcFormatUncompressed(me) && me.b_format_index == idx)),
                spec_get_format_by_idx_in(cv, 0, idx) == spec_get_format_by_idx_in(cv, i as int, idx),
            decreases self.children@.len() - i,
        {
            proof {
                lemma_children_view_index(self.children@, i as int);
            }
            let res = self.children[i].get_format_by_idx(idx);
            if res.is_some() {
                return res;
            }
            i = i + 1;
        }
        None
    }

    /// Returns the first MJPEG or uncompressed frame record carrying the given frame index, searching the node itself first and then the
    /// children depth-first.
    pub fn get_frame_by_idx(&self, idx: u8) -> (r: Option<&TreeNode>)
        ensures
            match r {
                Some(t) => spec_get_frame_by_idx(self@, idx) == Some(t@),
                None => spec_get_frame_by_idx(self@, idx) is None,
            },
        decreases *self,
    {
        let own_hit = match &self.parsed {
            DescriptorTypes::DescriptorUvcFrameMjpeg(me) => me.b_frame_index == idx,
            DescriptorTypes::DescriptorUvcFrameUncompressed(me) => me.b_frame_index == idx,
            _ => false,
        };
        if own_hit {
            return Some(self);
        }
        let ghost cv = children_view(self.children@);
        proof {
            lemma_children_view_len(self.children@);
        }
        let mut i: usize = 0;
        while i < self.children.len()
            invariant
                i <= self.children@.len(),
                cv == children_view(self.children@),
                cv.len() == self.children@.len(),
                !((self@.parsed matches DescV::DescriptorUvcFrameMjpeg(me) && me.b_frame_index == idx) || (self@.parsed matches DescV::DescriptorUvcFrameUncompressed(me) && me.b_frame_index == idx)),
                spec_get_frame_by_idx_in(cv, 0, idx) == spec_get_frame_by_idx_in(cv, i as int, idx),
            decreases self.children@.len() - i,
        {
            proof {
                lemma_children_view_index(self.children@, i as int);
            }
            let res = self.children[i].get_frame_by_idx(idx);
            if res.is_some() {
                return res;
            }
            i = i + 1;
        }
        None
    }

    /// Returns the first standard endpoint record, searching the node itself first and then the
    /// children depth-first.
    pub fn get_ep(&self) -> (r: Option<&TreeNode>)
        ensures
            match r {
                Some(t) => spec_get_ep(self@) == Some(t@),
                None => spec_get_ep(self@) is None,
            },
        decreases *self,
    {
        let own_hit = matches!(&self.parsed, DescriptorTypes::Endpoint(_));
        if own_hit {
            return Some(self);
        }
        let ghost cv = children_view(self.children@);
        proof {
            lemma_children_view_len(self.children@);
        }
        let mut i: usize = 0;
        while i < self.children.len()
            invariant
                i <= self.children@.len(),
                cv == children_view(self.children@),
                cv.len() == self.children@.len(),
                !(self@.parsed matches DescV::Endpoint(_)),
                spec_get_ep_in(cv, 0) == spec_get_ep_in(cv, i as int),
            decreases self.children@.len() - i,
        {
            proof {
                lemma_children_view_index(self.children@, i as int);
            }
            let res = self.children[i].get_ep();
            if res.is_some() {
                return res;
            }
            i = i + 1;
        }
        None
    }

    /// Returns the first audio-class endpoint record, searching the node itself first and then the
    /// children depth-first.
    pub fn get_uac_ep(&self) -> (r: Option<&TreeNode>)
        ensures
            match r {
                Some(t) => spec_get_uac_ep(self@) == Some(t@),
                None => spec_get_uac_ep(self@) is None,
            },
        decreases *self,
    {
        let own_hit = matches!(&self.parsed, DescriptorTypes::UacEndpoint(_));
        if own_hit {
            return Some(self);
        }
        let ghost cv = children_view(self.children@);
        proof {
            lemma_children_view_len(self.children@);
        }
        let mut i: usize = 0;
        while i < self.children.len()
            invariant
                i <= self.children@.len(),
                cv == children_view(self.children@),
                cv.len() == self.children@.len(),
                !(self@.parsed matches DescV::UacEndpoint(_)),
                spec_get_uac_ep_in(cv, 0) == spec_get_uac_ep_in(cv, i as int),
            decreases self.children@.len() - i,
        {
            proof {
                lemma_children_view_index(self.children@, i as int);
            }
            let res = self.children[i].get_uac_ep();
            if res.is_some() {
                return res;
            }
            i = i + 1;
        }
        None
    }

    /// Returns the first PCM format type record, searching the node itself first and then the
    /// children depth-first.
    pub fn get_uac_fmt(&self) -> (r: Option<&TreeNode>)
        ensures
            match r {
                Some(t) => spec_get_uac_fmt(self@) == Some(t@),
                None => spec_get_uac_fmt(self@) is None,
            },
        decreases *self,
    {
        let own_hit = matches!(&self.parsed, DescriptorTypes::UacFormatTypeI(_));
        if own_hit {
            return Some(self);
        }
        let ghost cv = children_view(self.children@);
        proof {
            lemma_children_view_len(self.children@);
        }
        let mut i: usize = 0;
        while i < self.children.len()
            invariant
                i <= self.children@.len(),
                cv == children_view(self.children@),
                cv.len() == self.children@.len(),
                !(self@.parsed matches DescV::UacFormatTypeI(_)),
                spec_get_uac_fmt_in(cv, 0) == spec_get_uac_fmt_in(cv, i as int),
            decreases self.children@.len() - i,
        {
            proof {
                lemma_children_view_index(self.children@, i as int);
            }
            let res = self.children[i].get_uac_fmt();
            if res.is_some() {
                return res;
            }
            i = i + 1;
        }
        None
    }

    /// Returns the first SuperSpeed endpoint companion record, searching the node itself first and then the
    /// children depth-first.
    pub fn get_ss_ep_comp(&self) -> (r: Option<&TreeNode>)
        ensures
            match r {
                Some(t) => spec_get_ss_ep_comp(self@) == Some(t@),
                None => spec_get_ss_ep_comp(self@) is None,
            },
        decreases *self,
    {
        let own_hit = matches!(&self.parsed, DescriptorTypes::SsEpComp(_));
        if own_hit {
            return Some(self);
        }
        let ghost cv = children_view(self.children@);
        proof {
            lemma_children_view_len(self.children@);
        }
        let mut i: usize = 0;
        while i < self.children.len()
            invariant
                i <= self.children@.len(),
                cv == children_view(self.children@),
                cv.len() == self.children@.len(),
                !(self@.parsed matches DescV::SsEpComp(_)),
                spec_get_ss_ep_comp_in(cv, 0) == spec_get_ss_ep_comp_in(cv, i as int),
            decreases self.children@.len() - i,
        {
            proof {
                lemma_children_view_index(self.children@, i as int);
            }
            let res = self.children[i].get_ss_ep_comp();
            if res.is_some() {
                return res;
            }
            i = i + 1;
        }
        None
    }

    /// Returns the first UVC input header record, searching the node itself first and then the
    /// children depth-first.
    pub fn get_uvc_input_hdr(&self) -> (r: Option<&TreeNode>)
        ensures
            match r {
                Some(t) => spec_get_uvc_input_hdr(self@) == Some(t@),
                None => spec_get_uvc_input_hdr(self@) is None,
            },
        decreases *self,
    {
        let own_hit = matches!(&self.parsed, DescriptorTypes::UvcInputHeader(_));
        if own_hit {
            return Some(self);
        }
        let ghost cv = children_view(self.children@);
        proof {
            lemma_children_view_len(self.children@);
        }
        let mut i: usize = 0;
        while i < self.children.len()
            invariant
                i <= self.children@.len(),
                cv == children_view(self.children@),
                cv.len() == self.children@.len(),
                !(self@.parsed matches DescV::UvcInputHeader(_)),
                spec_get_uvc_input_hdr_in(cv, 0) == spec_get_uvc_input_hdr_in(cv, i as int),
            decreases self.children@.len() - i,
        {
            proof {
                lemma_children_view_index(self.children@, i as int);
            }
            let res = self.children[i].get_uvc_input_hdr();
            if res.is_some() {
                return res;
            }
            i = i + 1;
        }
        None
    }


    /// Whether the subtree contains an audio-class interface.
    pub fn has_audio(&self) -> (r: bool)
        ensures
            r == spec_has_audio(self@),
        decreases *self,
    {
        match &self.parsed {
            DescriptorTypes::Interface(iface) => {
                if iface.is_audio() {
                    return true;
                }
            },
            _ => {},
        }
        let ghost cv = children_view(self.children@);
        proof {
            lemma_children_view_len(self.children@);
        }
        let mut i: usize = 0;
        while i < self.children.len()
            invariant
                i <= self.children@.len(),
                cv == children_view(self.children@),
                cv.len() == self.children@.len(),
                !(self@.parsed matches DescV::Interface(x) && x.spec_is_audio()),
                spec_has_audio_in(cv, 0) == spec_has_audio_in(cv, i as int),
            decreases self.children@.len() - i,
        {
            proof {
                lemma_children_view_index(self.children@, i as int);
            }
            let res = self.children[i].has_audio();
            if res {
                return true;
            }
            i = i + 1;
        }
        false
    }

    /// Whether the subtree contains a video-streaming interface.
    pub fn has_video(&self) -> (r: bool)
        ensures
            r == spec_has_video(self@),
        decreases *self,
    {
        match &self.parsed {
            DescriptorTypes::Interface(iface) => {
                if iface.is_video_streaming() {
                    return true;
                }
            },
            _ => {},
        }
        let ghost cv = children_view(self.children@);
        proof {
            lemma_children_view_len(self.children@);
        }
        let mut i: usize = 0;
        while i < self.children.len()
            invariant
                i <= self.children@.len(),
                cv == children_view(self.children@),
                cv.len() == self.children@.len(),
                !(self@.parsed matches DescV::Interface(x) && x.spec_is_video_streaming()),
                spec_has_video_in(cv, 0) == spec_has_video_in(cv, i as int),
            decreases self.children@.len() - i,
        {
            proof {
                lemma_children_view_index(self.children@, i as int);
            }
            let res = self.children[i].has_video();
            if res {
                return true;
            }
            i = i + 1;
        }
        false
    }

    /// Counts the UVC format records in the subtree.
    pub fn num_uvc_formats(&self) -> (r: usize)
        requires
            spec_num_uvc_formats(self@) <= usize::MAX,
        ensures
            r == spec_num_uvc_formats(self@),
        decreases *self,
    {
        let own: usize = if self.parsed.is_uvc_format() {
            1
        } else {
            0
        };
        let ghost cv = children_view(self.children@);
        proof {
            lemma_children_view_len(self.children@);
        }
        let mut num: usize = own;
        let mut i: usize = 0;
        while i < self.children.len()
            invariant
                i <= self.children@.len(),
                cv == children_view(self.children@),
                cv.len() == self.children@.len(),
                num + spec_num_uvc_formats_in(cv, i as int) == spec_num_uvc_formats(self@),
                spec_num_uvc_formats(self@) <= usize::MAX,
            decreases self.children@.len() - i,
        {
            proof {
                lemma_children_view_index(self.children@, i as int);
                lemma_num_uvc_formats_in_nonneg(cv, i + 1);
            }
            let child_num = self.children[i].num_uvc_formats();
            num = num + child_num;
            i = i + 1;
        }
        num
    }

    /// Returns the interface number carrying the first IN audio endpoint;
    /// `iface` seeds the most-recently-seen interface.
    pub fn find_mic_iface(&self, iface: Option<u8>) -> (r: Option<u8>)
        ensures
            r == spec_find_mic_iface(self@, iface),
        decreases *self,
    {
        let mut cur: Option<u8> = iface;
        match &self.parsed {
            DescriptorTypes::Interface(i) => {
                cur = Some(i.b_interface_number);
            },
            DescriptorTypes::UacEndpoint(ep) => {
                if ep.is_in() {
                    return iface;
                }
            },
            _ => {},
        }
        let ghost cv = children_view(self.children@);
        proof {
            lemma_children_view_len(self.children@);
        }
        let mut i: usize = 0;
        while i < self.children.len()
            invariant
                i <= self.children@.len(),
                cv == children_view(self.children@),
                cv.len() == self.children@.len(),
                !(self@.parsed matches DescV::UacEndpoint(ep) && ep.spec_is_in()),
                cur == (match self@.parsed {
                    DescV::Interface(x) => Some(x.b_interface_number),
                    _ => iface,
                }),
                spec_find_mic_iface_in(cv, 0, cur) == spec_find_mic_iface_in(cv, i as int, cur),
            decreases self.children@.len() - i,
        {
            proof {
                lemma_children_view_index(self.children@, i as int);
            }
            let ret = self.children[i].find_mic_iface(cur);
            if ret.is_some() {
                return ret;
            }
            i = i + 1;
        }
        None
    }

    /// Returns the interface number carrying the first OUT audio endpoint.
    pub fn find_spkr_iface(&self, iface: Option<u8>) -> (r: Option<u8>)
        ensures
            r == spec_find_spkr_iface(self@, iface),
        decreases *self,
    {
        let mut cur: Option<u8> = iface;
        match &self.parsed {
            DescriptorTypes::Interface(i) => {
                cur = Some(i.b_interface_number);
            },
            DescriptorTypes::UacEndpoint(ep) => {
                if ep.is_out() {
                    return iface;
                }
            },
            _ => {},
        }
        let ghost cv = children_view(self.children@);
        proof {
            lemma_children_view_len(self.children@);
        }
        let mut i: usize = 0;
        while i < self.children.len()
            invariant
                i <= self.children@.len(),
                cv == children_view(self.children@),
                cv.len() == self.children@.len(),
                !(self@.parsed matches DescV::UacEndpoint(ep) && !ep.spec_is_in()),
                cur == (match self@.parsed {
                    DescV::Interface(x) => Some(x.b_interface_number),
                    _ => iface,
                }),
                spec_find_spkr_iface_in(cv, 0, cur) == spec_find_spkr_iface_in(cv, i as int, cur),
            decreases self.children@.len() - i,
        {
            proof {
                lemma_children_view_index(self.children@, i as int);
            }
            let ret = self.children[i].find_spkr_iface(cur);
            if ret.is_some() {
                return ret;
            }
            i = i + 1;
        }
        None
    }

    /// Returns the number of the first HID-class interface.
    pub fn find_hid_iface(&self, iface: Option<u8>) -> (r: Option<u8>)
        ensures
            r == spec_find_hid_iface(self@, iface),
        decreases *self,
    {
        let mut cur: Option<u8> = iface;
        match &self.parsed {
            DescriptorTypes::Interface(i) => {
                cur = Some(i.b_interface_number);
                if i.b_interface_class == CLASS_HID {
                    return cur;
                }
            },
            _ => {},
        }
        let ghost cv = children_view(self.children@);
        proof {
            lemma_children_view_len(self.children@);
        }
        let mut i: usize = 0;
        while i < self.children.len()
            invariant
                i <= self.children@.len(),
                cv == children_view(self.children@),
                cv.len() == self.children@.len(),
                !(self@.parsed matches DescV::Interface(x) && x.b_interface_class == CLASS_HID),
                cur == (match self@.parsed {
                    DescV::Interface(x) => Some(x.b_interface_number),
                    _ => iface,
                }),
                spec_find_hid_iface_in(cv, 0, cur) == spec_find_hid_iface_in(cv, i as int, cur),
            decreases self.children@.len() - i,
        {
            proof {
                lemma_children_view_index(self.children@, i as int);
            }
            let ret = self.children[i].find_hid_iface(cur);
            if ret.is_some() {
                return ret;
            }
            i = i + 1;
        }
        None
    }

    /// Returns the address of the first IN audio endpoint in the subtree.
    pub fn find_mic_ep(&self) -> (r: Option<u8>)
        ensures
            r == spec_find_mic_ep(self@),
        decreases *self,
    {
        match &self.parsed {
            DescriptorTypes::UacEndpoint(ep) => {
                if ep.is_in() {
                    return Some(ep.b_endpoint_address);
                }
            },
            _ => {},
        }
        let ghost cv = children_view(self.children@);
        proof {
            lemma_children_view_len(self.children@);
        }
        let mut i: usize = 0;
        while i < self.children.len()
            invariant
                i <= self.children@.len(),
                cv == children_view(self.children@),
                cv.len() == self.children@.len(),
                !(self@.parsed matches DescV::UacEndpoint(ep) && ep.spec_is_in()),
                spec_find_mic_ep_in(cv, 0) == spec_find_mic_ep_in(cv, i as int),
            decreases self.children@.len() - i,
        {
            proof {
                lemma_children_view_index(self.children@, i as int);
            }
            let ret = self.children[i].find_mic_ep();
            if ret.is_some() {
                return ret;
            }
            i = i + 1;
        }
        None
    }

    /// Returns the address of the first OUT audio endpoint in the subtree.
    pub fn find_spkr_ep(&self) -> (r: Option<u8>)
        ensures
            r == spec_find_spkr_ep(self@),
        decreases *self,
    {
        match &self.parsed {
            DescriptorTypes::UacEndpoint(ep) => {
                if ep.is_out() {
                    return Some(ep.b_endpoint_address);
                }
            },
            _ => {},
        }
        let ghost cv = children_view(self.children@);
        proof {
            lemma_children_view_len(self.children@);
        }
        let mut i: usize = 0;
        while i < self.children.len()
            invariant
                i <= self.children@.len(),
                cv == children_view(self.children@),
                cv.len() == self.children@.len(),
                !(self@.parsed matches DescV::UacEndpoint(ep) && !ep.spec_is_in()),
                spec_find_spkr_ep_in(cv, 0) == spec_find_spkr_ep_in(cv, i as int),
            decreases self.children@.len() - i,
        {
            proof {
                lemma_children_view_index(self.children@, i as int);
            }
            let ret = self.children[i].find_spkr_ep();
            if ret.is_some() {
                return ret;
            }
            i = i + 1;
        }
        None
    }

    /// Returns the address of the first OUT HID endpoint in the subtree.
    pub fn find_hid_ep(&self) -> (r: Option<u8>)
        ensures
            r == spec_find_hid_ep(self@),
        decreases *self,
    {
        match &self.parsed {
            DescriptorTypes::HidEndpoint(ep) => {
                if ep.is_out() {
                    return Some(ep.b_endpoint_address);
                }
            },
            _ => {},
        }
        let ghost cv = children_view(self.children@);
        proof {
            lemma_children_view_len(self.children@);
        }
        let mut i: usize = 0;
        while i < self.children.len()
            invariant
                i <= self.children@.len(),
                cv == children_view(self.children@),
                cv.len() == self.children@.len(),
                !(self@.parsed matches DescV::HidEndpoint(ep) && !ep.spec_is_in()),
                spec_find_hid_ep_in(cv, 0) == spec_find_hid_ep_in(cv, i as int),
            decreases self.children@.len() - i,
        {
            proof {
                lemma_children_view_index(self.children@, i as int);
            }
            let ret = self.children[i].find_hid_ep();
            if ret.is_some() {
                return ret;
            }
            i = i + 1;
        }
        None
    }

    /// Finds the node owning endpoint `ep`; a non-interface hit reports the
    /// nearest enclosing node instead, so the caller sees the interface
    /// when one encloses the endpoint.
    pub fn get_iface_by_ep(&self, ep: u8) -> (r: Option<&TreeNode>)
        ensures
            match r {
                Some(t) => spec_get_iface_by_ep(self@, ep) == Some(t@),
                None => spec_get_iface_by_ep(self@, ep) is None,
            },
        decreases *self,
    {
        match &self.parsed {
            DescriptorTypes::Endpoint(me) => {
                if me.b_endpoint_address == ep {
                    return Some(self);
                }
            },
            _ => {},
        }
        let ghost cv = children_view(self.children@);
        proof {
            lemma_children_view_len(self.children@);
        }
        let mut i: usize = 0;
        while i < self.children.len()
            invariant
                i <= self.children@.len(),
                cv == children_view(self.children@),
                cv.len() == self.children@.len(),
                !(self@.parsed matches DescV::Endpoint(me) && me.b_endpoint_address == ep),
                self@.children == cv,
                spec_get_iface_by_ep_in(self@, cv, 0, ep) == spec_get_iface_by_ep_in(
                    self@,
                    cv,
                    i as int,
                    ep,
                ),
            decreases self.children@.len() - i,
        {
            proof {
                lemma_children_view_index(self.children@, i as int);
            }
            let res = self.children[i].get_iface_by_ep(ep);
            match res {
                Some(found) => {
                    if matches!(&found.parsed, DescriptorTypes::Interface(_)) {
                        return Some(found);
                    } else {
                        return Some(self);
                    }
                },
                None => {},
            }
            i = i + 1;
        }
        None
    }

    /// The width and height of a frame record.
    pub fn frame_sz(&self) -> (r: Result<Size2d, DescError>)
        ensures
            r == spec_frame_sz(self@),
    {
        match &self.parsed {
            DescriptorTypes::DescriptorUvcFrameMjpeg(frame) => Ok(
                Size2d::new(frame.w_width as u32, frame.w_height as u32),
            ),
            DescriptorTypes::DescriptorUvcFrameUncompressed(frame) => Ok(
                Size2d::new(frame.w_width as u32, frame.w_height as u32),
            ),
            _ => Err(DescError::NotFrame),
        }
    }

    /// Composes a resolution + format summary from a format index, a frame
    /// index under that format, and a caller-chosen framerate. Fails when
    /// either index does not resolve or the format GUID is unrecognized.
    pub fn get_video_cfg(&self, fmt_idx: u8, frame_idx: u8, fps: i32) -> (r: Result<
        MockVideoConfig,
        DescError,
    >)
        ensures
            r == spec_get_video_cfg(self@, fmt_idx, frame_idx, fps),
    {
        let fmt_node = match self.get_format_by_idx(fmt_idx) {
            Some(n) => n,
            None => {
                return Err(DescError::FormatNotFound);
            },
        };
        let fmt = match &fmt_node.parsed {
            DescriptorTypes::DescriptorUvcFormatMjpeg(_) => MockVideoFormat::Mjpeg,
            DescriptorTypes::DescriptorUvcFormatUncompressed(f) => {
                if f.guid_format == UncompressedFormats::YUY2 {
                    MockVideoFormat::Yuy2
                } else if f.guid_format == UncompressedFormats::NV12 {
                    MockVideoFormat::Nv12
                } else {
                    return Err(DescError::InvalidFormat);
                }
            },
            _ => {
                return Err(DescError::InvalidFormat);
            },
        };
        let frame = match fmt_node.get_frame_by_idx(frame_idx) {
            Some(n) => n,
            None => {
                return Err(DescError::FrameNotFound);
            },
        };
        let sz = match frame.frame_sz() {
            Ok(sz) => sz,
            Err(e) => {
                return Err(e);
            },
        };
        Ok(MockVideoConfig::new(sz.width, sz.height, fps, fmt))
    }

    /// Whether this node is an AudioControl interface; an error on any
    /// non-interface node.
    pub fn is_audio_control(&self) -> (r: Result<bool, DescError>)
        ensures
            r == (match self@.parsed {
                DescV::Interface(i) => Ok::<bool, DescError>(i.spec_is_audio_control()),
                _ => Err::<bool, DescError>(DescError::NotInterface),
            }),
    {
        match &self.parsed {
            DescriptorTypes::Interface(iface_desc) => Ok(iface_desc.is_audio_control()),
            _ => Err(DescError::NotInterface),
        }
    }

    /// Whether this node is an AudioStreaming interface; an error on any
    /// non-interface node.
    pub fn is_audio_streaming(&self) -> (r: Result<bool, DescError>)
        ensures
            r == (match self@.parsed {
                DescV::Interface(i) => Ok::<bool, DescError>(i.spec_is_audio_streaming()),
                _ => Err::<bool, DescError>(DescError::NotInterface),
            }),
    {
        match &self.parsed {
            DescriptorTypes::Interface(iface_desc) => Ok(iface_desc.is_audio_streaming()),
            _ => Err(DescError::NotInterface),
        }
    }

    /// Whether the interface with the given number and alternate setting is
    /// a video-streaming interface; an error when no such interface exists.
    pub fn is_video_streaming(&self, iface_setting: &IfaceAltSetting) -> (r: Result<
        bool,
        DescError,
    >)
        ensures
            r == (match spec_get_iface_by_num(self@, *iface_setting) {
                Some(node) => match node.parsed {
                    DescV::Interface(i) => Ok::<bool, DescError>(i.spec_is_video_streaming()),
                    _ => Err::<bool, DescError>(DescError::NotInterface),
                },
                None => Err::<bool, DescError>(DescError::InterfaceNotFound),
            }),
    {
        if let Some(iface) = self.get_iface_by_num(*iface_setting) {
            match &iface.parsed {
                DescriptorTypes::Interface(iface_desc) => Ok(iface_desc.is_video_streaming()),
                _ => Err(DescError::NotInterface),
            }
        } else {
            Err(DescError::InterfaceNotFound)
        }
    }

    /// Whether some direct child of the node is a speaker endpoint:
    /// isochronous + OUT + asynchronous + data.
    pub open spec fn spec_has_speaker_child(n: NodeV) -> bool {
        exists|i: int|
            0 <= i < n.children.len() && ((#[trigger] n.children[i]).parsed matches DescV::Endpoint(
                e,
            ) && e.spec_is_speaker())
    }

    /// Whether some direct child of the node is a microphone endpoint:
    /// isochronous + IN + asynchronous + data.
    pub open spec fn spec_has_mic_child(n: NodeV) -> bool {
        exists|i: int|
            0 <= i < n.children.len() && ((#[trigger] n.children[i]).parsed matches DescV::Endpoint(
                e,
            ) && e.spec_is_mic())
    }

    /// Whether some direct child of this interface is a speaker endpoint
    /// (isochronous + OUT + asynchronous + data). An error on any
    /// non-interface node.
    pub fn is_speaker_interface(&self) -> (r: Result<bool, DescError>)
        ensures
            r == (match self@.parsed {
                DescV::Interface(_) => Ok::<bool, DescError>(Self::spec_has_speaker_child(self@)),
                _ => Err::<bool, DescError>(DescError::NotInterface),
            }),
    {
        match &self.parsed {
            DescriptorTypes::Interface(_) => {
                proof {
                    lemma_children_view_len(self.children@);
                }
                let mut i: usize = 0;
                while i < self.children.len()
                    invariant
                        i <= self.children@.len(),
                        self@.parsed matches DescV::Interface(_),
                        self@.children == children_view(self.children@),
                        self@.children.len() == self.children@.len(),
                        forall|j: int|
                            0 <= j < i ==> !((#[trigger] self@.children[j]).parsed
                                matches DescV::Endpoint(e) && e.spec_is_speaker()),
                    decreases self.children@.len() - i,
                {
                    proof {
                        lemma_children_view_index(self.children@, i as int);
                    }
                    match &self.children[i].parsed {
                        DescriptorTypes::Endpoint(ep) => {
                            if ep.is_speaker() {
                                proof {
                                    let w: int = i as int;
                                    assert(Self::spec_has_speaker_child(self@)) by {
                                        assert(0 <= w < self@.children.len() && (
                                        self@.children[w].parsed matches DescV::Endpoint(e)
                                            && e.spec_is_speaker()));
                                    }
                                }
                                return Ok(true);
                            }
                        },
                        _ => {},
                    }
                    i = i + 1;
                }
                proof {
                    assert(!Self::spec_has_speaker_child(self@));
                }
                Ok(false)
            },
            _ => Err(DescError::NotInterface),
        }
    }

    /// Whether some direct child of this interface is a microphone
    /// endpoint (isochronous + IN + asynchronous + data). An error on any
    /// non-interface node.
    pub fn is_mic_interface(&self) -> (r: Result<bool, DescError>)
        ensures
            r == (match self@.parsed {
                DescV::Interface(_) => Ok::<bool, DescError>(Self::spec_has_mic_child(self@)),
                _ => Err::<bool, DescError>(DescError::NotInterface),
            }),
    {
        match &self.parsed {
            DescriptorTypes::Interface(_) => {
                proof {
                    lemma_children_view_len(self.children@);
                }
                let mut i: usize = 0;
                while i < self.children.len()
                    invariant
                        i <= self.children@.len(),
                        self@.parsed matches DescV::Interface(_),
                        self@.children == children_view(self.children@),
                        self@.children.len() == self.children@.len(),
                        forall|j: int|
                            0 <= j < i ==> !((#[trigger] self@.children[j]).parsed
                                matches DescV::Endpoint(e) && e.spec_is_mic()),
                    decreases self.children@.len() - i,
                {
                    proof {
                        lemma_children_view_index(self.children@, i as int);
                    }
                    match &self.children[i].parsed {
                        DescriptorTypes::Endpoint(ep) => {
                            if ep.is_mic() {
                                proof {
                                    let w: int = i as int;
                                    assert(Self::spec_has_mic_child(self@)) by {
                                        assert(0 <= w < self@.children.len() && (
                                        self@.children[w].parsed matches DescV::Endpoint(e)
                                            && e.spec_is_mic()));
                                    }
                                }
                                return Ok(true);
                            }
                        },
                        _ => {},
                    }
                    i = i + 1;
                }
                proof {
                    assert(!Self::spec_has_mic_child(self@));
                }
                Ok(false)
            },
            _ => Err(DescError::NotInterface),
        }
    }

    /// Returns the first node (the node itself first, then the children
    /// depth-first) whose record the callback accepts. The result, if any,
    /// is a node of this subtree; what the callback accepts is the
    /// caller's business.
    pub fn get_node<F: Fn(&DescriptorTypes) -> bool>(&self, cb: &F) -> (r: Option<&TreeNode>)
        requires
            forall|d: &DescriptorTypes| #[trigger] call_requires(*cb, (d,)),
        ensures
            r matches Some(t) ==> spec_in_subtree(self@, t@) && call_ensures(
                *cb,
                (&t.parsed,),
                true,
            ),
        decreases *self,
    {
        if cb(&self.parsed) {
            return Some(self);
        }
        proof {
            lemma_children_view_len(self.children@);
        }
        let mut i: usize = 0;
        while i < self.children.len()
            invariant
                i <= self.children@.len(),
                self.children@.len() == children_view(self.children@).len(),
                self@.children == children_view(self.children@),
                forall|d: &DescriptorTypes| #[trigger] call_requires(*cb, (d,)),
            decreases self.children@.len() - i,
        {
            proof {
                lemma_children_view_index(self.children@, i as int);
            }
            let res = self.children[i].get_node(cb);
            match res {
                Some(t) => {
                    proof {
                        lemma_children_view_len(self.children@);
                        assert(spec_in_subtree(self@.children[i as int], t@));
                        lemma_in_subtree_step(self@, i as int, t@);
                    }
                    return Some(t);
                },
                None => {},
            }
            i = i + 1;
        }
        None
    }


    /// Replaces every child whose record the callback accepts with a copy
    /// of `new_node`, descending into the children that were kept. A
    /// freshly inserted replacement is not scanned again: a rescan could
    /// not terminate when the callback accepts part of its own
    /// replacement. The tree keeps its shape: the record of every node
    /// stays or becomes `new_node`'s, and no child list changes length.
    pub fn replace_node<F: Fn(&DescriptorTypes) -> bool>(&mut self, new_node: &TreeNode, cb: &F)
        requires
            forall|d: &DescriptorTypes| #[trigger] call_requires(*cb, (d,)),
        ensures
            final(self)@.parsed == old(self)@.parsed,
            final(self)@.children.len() == old(self)@.children.len(),
            forall|j: int|
                0 <= j < final(self)@.children.len() ==> (#[trigger] final(self)@.children[j])
                    == new_node@ || final(self)@.children[j].parsed == old(
                    self,
                )@.children[j].parsed,
        decreases *old(self),
    {
        proof {
            lemma_children_view_len(old(self).children@);
        }
        let mut i: usize = 0;
        while i < self.children.len()
            invariant
                i <= self.children@.len(),
                self.children@.len() == old(self).children@.len(),
                self.parsed == old(self).parsed,
                forall|d: &DescriptorTypes| #[trigger] call_requires(*cb, (d,)),
                forall|j: int|
                    i <= j < self.children@.len() ==> self.children@[j] == old(self).children@[j],
                forall|j: int|
                    0 <= j < i ==> node_view(#[trigger] self.children@[j]) == new_node@
                        || node_view(self.children@[j]).parsed == node_view(
                        old(self).children@[j],
                    ).parsed,
            decreases self.children@.len() - i,
        {
            let matched = cb(&self.children[i].parsed);
            if matched {
                let replacement = new_node.deep_clone();
                let slot = &mut self.children[i];
                *slot = replacement;
            } else {
                proof {
                    lemma_children_view_index(old(self).children@, i as int);
                }
                let child = &mut self.children[i];
                child.replace_node(new_node, cb);
            }
            i = i + 1;
        }
        proof {
            lemma_children_view_len(self.children@);
            assert forall|j: int| 0 <= j < self@.children.len() implies (
            #[trigger] self@.children[j]) == new_node@ || self@.children[j].parsed == old(
                self,
            )@.children[j].parsed by {
                lemma_children_view_index(self.children@, j);
                lemma_children_view_index(old(self).children@, j);
            }
        }
    }

}

} // verus!
