//! The stated laws of the library: the flat parse inverts serialization,
//! opaque records survive a round trip byte-identically, the fix-up pass
//! is idempotent, and after it every length, count and default-frame field
//! agrees with the tree.

use vstd::prelude::*;

use crate::bytes::lemma_le_bytes_len;
use crate::fix::spec_clamp_default;
use crate::fix::spec_count_framebased;
use crate::fix::spec_count_mjpeg;
use crate::fix::spec_count_uncompressed;
use crate::fix::spec_first_framebased;
use crate::fix::spec_first_mjpeg;
use crate::fix::spec_first_uncompressed;
use crate::fix::spec_fix;
use crate::fix::spec_fix_in;
use crate::fix::spec_fix_parsed;
use crate::fix::spec_framebased_frame_idx;
use crate::fix::spec_last_framebased;
use crate::fix::spec_last_mjpeg;
use crate::fix::spec_last_uncompressed;
use crate::fix::spec_mjpeg_frame_idx;
use crate::fix::spec_uncompressed_frame_idx;
use crate::fix::lemma_fix_in_index;
use crate::parse::leaves;
use crate::parse::spec_class_after;
use crate::parse::spec_node_factory;
use crate::parse::spec_parse_nodes;
use crate::parse::spec_subclass_after;
use crate::query::spec_find_ifaces;
use crate::query::spec_find_ifaces_in;
use crate::tree::dfs_children_bytes;
use crate::tree::NodeV;
use crate::usb_proto::DescV;
use crate::usb_proto::USB_DT_CONFIG;
use crate::usb_proto::USB_DT_CS_DEVICE;
use crate::usb_proto::USB_DT_CS_ENDPOINT;
use crate::usb_proto::USB_DT_CS_INTERFACE;
use crate::usb_proto::USB_DT_ENDPOINT;
use crate::usb_proto::USB_DT_INTERFACE;
use crate::usb_proto::USB_DT_INTERFACE_ASSOCIATION;
use crate::usb_proto::USB_DT_SS_EP_COMP;
use crate::usb_proto::USB_DT_SSP_ISOCH_EP_COMP;
use crate::usb_proto::CLASS_AUDIO;
use crate::usb_proto::CLASS_VIDEO;

verus! {

/// Whether the stream splits into records each of which re-encodes to
/// exactly its own bytes: the condition under which parsing loses nothing.
pub open spec fn records_reencode(b: Seq<u8>, class: u8, subclass: u8) -> bool
    decreases b.len(),
{
    if b.len() == 0 {
        true
    } else if b.len() < 2 {
        false
    } else {
        let len = b[0];
        let d = b.subrange(2, len as int);
        &&& 2 <= len <= b.len()
        &&& spec_node_factory(b[1], d, class, subclass, len).wire() == b.take(len as int)
        &&& records_reencode(
            b.skip(len as int),
            spec_class_after(b[1], d, class),
            spec_subclass_after(b[1], d, subclass),
        )
    }
}

/// Round trip at the record level: when every record of `b` re-encodes to
/// its own bytes, the flat parse of `b` serializes back to `b` exactly.
/// Together with the serializer's contract this is the byte-exact
/// round-trip law for the flat parse.
pub proof fn lemma_flat_round_trip(b: Seq<u8>, class: u8, subclass: u8)
    requires
        records_reencode(b, class, subclass),
    ensures
        dfs_children_bytes(leaves(spec_parse_nodes(b, class, subclass))) == b,
    decreases b.len(),
{
    reveal_with_fuel(dfs_children_bytes, 2);
    if b.len() == 0 {
        assert(leaves(spec_parse_nodes(b, class, subclass)) =~= Seq::<NodeV>::empty());
        assert(dfs_children_bytes(leaves(spec_parse_nodes(b, class, subclass))) =~= b);
    } else {
        let len = b[0];
        let d = b.subrange(2, len as int);
        let f = spec_node_factory(b[1], d, class, subclass, len);
        let c2 = spec_class_after(b[1], d, class);
        let s2 = spec_subclass_after(b[1], d, subclass);
        lemma_flat_round_trip(b.skip(len as int), c2, s2);
        let nodes = spec_parse_nodes(b, class, subclass);
        let rest = spec_parse_nodes(b.skip(len as int), c2, s2);
        assert(nodes == seq![f] + rest);
        let lv = leaves(nodes);
        assert(lv.len() == nodes.len());
        assert(lv[0] == NodeV { parsed: f, children: Seq::empty() });
        assert(lv.drop_first() =~= leaves(rest));
        assert(dfs_children_bytes(lv) == lv[0].dfs_bytes() + dfs_children_bytes(leaves(rest)));
        assert(lv[0].dfs_bytes() =~= f.wire());
        assert(dfs_children_bytes(lv) =~= b.take(len as int) + b.skip(len as int));
        assert(b.take(len as int) + b.skip(len as int) =~= b);
    }
}

/// Whether a descriptor type code is one the factory models with typed
/// fields; everything else is preserved as an opaque record.
pub open spec fn recognized_desc_type(t: u8) -> bool {
    t == USB_DT_CS_DEVICE || t == USB_DT_CONFIG || t == USB_DT_INTERFACE_ASSOCIATION || t
        == USB_DT_INTERFACE || t == USB_DT_CS_INTERFACE || t == USB_DT_CS_ENDPOINT || t
        == USB_DT_ENDPOINT || t == USB_DT_SS_EP_COMP || t == USB_DT_SSP_ISOCH_EP_COMP
}

/// Opaque preservation for unknown descriptor types: a record of an
/// unmodeled type re-encodes to exactly its input bytes, whatever the
/// class context.
pub proof fn lemma_unknown_type_round_trip(t: u8, d: Seq<u8>, class: u8, subclass: u8, len: u8)
    requires
        !recognized_desc_type(t),
        len == d.len() + 2,
    ensures
        spec_node_factory(t, d, class, subclass, len).wire() == seq![len, t] + d,
{
    assert(spec_node_factory(t, d, class, subclass, len).wire() =~= seq![len, t] + d);
}

/// Opaque preservation for unknown class-specific interface subtypes in a
/// video class context: the record re-encodes byte-identically.
pub proof fn lemma_unknown_uvc_subtype_round_trip(d: Seq<u8>, subclass: u8, len: u8)
    requires
        len == d.len() + 2,
        d.len() >= 1,
        subclass == crate::uvc_proto::UVC_SUBCLASS_VIDEO_STREAMING ==> !(d[0]
            == crate::uvc_proto::UVC_VS_INPUT_HEADER || d[0]
            == crate::uvc_proto::UVC_VS_FORMAT_UNCOMPRESSED || d[0]
            == crate::uvc_proto::UVC_VS_FORMAT_MJPEG || d[0]
            == crate::uvc_proto::UVC_VS_FRAME_UNCOMPRESSED || d[0]
            == crate::uvc_proto::UVC_VS_FRAME_MJPEG || d[0]
            == crate::uvc_proto::UVC_VS_FORMAT_FRAME_BASED || d[0]
            == crate::uvc_proto::UVC_VS_FRAME_FRAME_BASED),
        subclass == crate::uvc_proto::UVC_SUBCLASS_VIDEO_CONTROL ==> !(d[0]
            == crate::uvc_proto::UVC_VC_HEADER || d[0]
            == crate::uvc_proto::UVC_VC_INPUT_TERMINAL || d[0]
            == crate::uvc_proto::UVC_VC_PROCESSING_UNIT || d[0]
            == crate::uvc_proto::UVC_VC_EXTENSION_UNIT || d[0]
            == crate::uvc_proto::UVC_VC_OUTPUT_TERMINAL),
    ensures
        spec_node_factory(USB_DT_CS_INTERFACE, d, CLASS_VIDEO, subclass, len).wire() == seq![
            len,
            USB_DT_CS_INTERFACE,
        ] + d,
{
    assert(spec_node_factory(USB_DT_CS_INTERFACE, d, CLASS_VIDEO, subclass, len).wire() =~= seq![
        len,
        USB_DT_CS_INTERFACE,
    ] + d);
}

/// Opaque preservation for unknown class-specific interface subtypes in an
/// audio class context: the record re-encodes byte-identically.
pub proof fn lemma_unknown_uac_subtype_round_trip(d: Seq<u8>, subclass: u8, len: u8)
    requires
        len == d.len() + 2,
        d.len() >= 1,
        subclass == crate::uac_proto::UAC_SUBCLASS_AUDIO_CONTROL ==> !(d[0]
            == crate::uac_proto::UAC_AC_HEADER || d[0]
            == crate::uac_proto::UAC_AC_INPUT_TERMINAL || d[0]
            == crate::uac_proto::UAC_AC_FEATURE_UNIT || d[0]
            == crate::uac_proto::UAC_AC_OUTPUT_TERMINAL),
        subclass == crate::uac_proto::UAC_SUBCLASS_AUDIO_STREAMING ==> !(d[0]
            == crate::uac_proto::UAC_AS_GENERAL || d[0] == crate::uac_proto::UAC_AS_FORMAT_TYPE),
    ensures
        spec_node_factory(USB_DT_CS_INTERFACE, d, CLASS_AUDIO, subclass, len).wire() == seq![
            len,
            USB_DT_CS_INTERFACE,
        ] + d,
{
    assert(spec_node_factory(USB_DT_CS_INTERFACE, d, CLASS_AUDIO, subclass, len).wire() =~= seq![
        len,
        USB_DT_CS_INTERFACE,
    ] + d);
}

/// The fix-up pass rewrites only scalar fields, so the wire image of a
/// record keeps its length.
pub proof fn lemma_fix_parsed_wire_len(n: NodeV)
    ensures
        spec_fix_parsed(n).wire().len() == n.parsed.wire().len(),
{
    match n.parsed {
        DescV::DescriptorUvcFormatUncompressed(f) => {
            lemma_le_bytes_len(f.guid_format as nat, 16);
            let g = (match spec_fix_parsed(n) {
                DescV::DescriptorUvcFormatUncompressed(g) => g,
                _ => f,
            });
            lemma_le_bytes_len(g.guid_format as nat, 16);
        },
        DescV::UvcFormatFrameBased(f) => {
            lemma_le_bytes_len(f.guid_format as nat, 16);
            let g = (match spec_fix_parsed(n) {
                DescV::UvcFormatFrameBased(g) => g,
                _ => f,
            });
            lemma_le_bytes_len(g.guid_format as nat, 16);
        },
        _ => {},
    }
}

/// The fix-up pass preserves the serialized length of every subtree.
pub proof fn lemma_fix_dfs_len(n: NodeV)
    ensures
        spec_fix(n).dfs_bytes().len() == n.dfs_bytes().len(),
    decreases n, 0int,
{
    lemma_fix_parsed_wire_len(n);
    lemma_fix_children_dfs_len(n.children, 0);
    assert(n.children.skip(0) =~= n.children);
}

pub proof fn lemma_fix_children_dfs_len(cs: Seq<NodeV>, k: int)
    requires
        0 <= k <= cs.len(),
    ensures
        dfs_children_bytes(spec_fix_in(cs, k)).len() == dfs_children_bytes(cs.skip(k)).len(),
    decreases cs, cs.len() - k + 1,
{
    reveal_with_fuel(dfs_children_bytes, 2);
    if k == cs.len() {
        assert(cs.skip(k) =~= Seq::<NodeV>::empty());
        assert(spec_fix_in(cs, k) =~= Seq::<NodeV>::empty());
    } else {
        lemma_fix_dfs_len(cs[k]);
        lemma_fix_children_dfs_len(cs, k + 1);
        let fixed = spec_fix_in(cs, k);
        assert(fixed == seq![spec_fix(cs[k])] + spec_fix_in(cs, k + 1));
        assert(fixed[0] == spec_fix(cs[k]));
        assert(fixed.drop_first() =~= spec_fix_in(cs, k + 1));
        assert(dfs_children_bytes(fixed) == spec_fix(cs[k]).dfs_bytes() + dfs_children_bytes(
            spec_fix_in(cs, k + 1),
        ));
        let tail = cs.skip(k);
        assert(tail[0] == cs[k]);
        assert(tail.drop_first() =~= cs.skip(k + 1));
        assert(dfs_children_bytes(tail) == cs[k].dfs_bytes() + dfs_children_bytes(cs.skip(k + 1)));
    }
}

/// The fix-up pass preserves which interfaces the tree declares.
pub proof fn lemma_fix_keeps_ifaces(n: NodeV)
    ensures
        spec_find_ifaces(spec_fix(n)) == spec_find_ifaces(n),
    decreases n, 0int,
{
    lemma_fix_in_index(n.children, 0);
    lemma_fix_keeps_ifaces_in(n.children, spec_fix_in(n.children, 0), 0);
}

pub proof fn lemma_fix_keeps_ifaces_in(cs: Seq<NodeV>, fc: Seq<NodeV>, k: int)
    requires
        fc.len() == cs.len(),
        forall|j: int| 0 <= j < cs.len() ==> fc[j] == spec_fix(#[trigger] cs[j]),
        0 <= k <= cs.len(),
    ensures
        spec_find_ifaces_in(fc, k) == spec_find_ifaces_in(cs, k),
    decreases cs, cs.len() - k + 1,
{
    if k < cs.len() {
        lemma_fix_keeps_ifaces(cs[k]);
        lemma_fix_keeps_ifaces_in(cs, fc, k + 1);
    }
}

/// The fix-up pass never touches a frame record, so the frame-index view
/// of any record is unchanged by it.
pub proof fn lemma_fix_keeps_mjpeg_idx(n: NodeV)
    ensures
        spec_mjpeg_frame_idx(spec_fix_parsed(n)) == spec_mjpeg_frame_idx(n.parsed),
{
}

/// Frame counts and first/last frame indices are unchanged when every
/// child is replaced by its fixed form.
pub proof fn lemma_fix_keeps_mjpeg_stats(cs: Seq<NodeV>, fc: Seq<NodeV>, k: int)
    requires
        fc.len() == cs.len(),
        forall|j: int| 0 <= j < cs.len() ==> fc[j] == spec_fix(#[trigger] cs[j]),
        0 <= k <= cs.len(),
    ensures
        spec_count_mjpeg(fc, k) == spec_count_mjpeg(cs, k),
        spec_first_mjpeg(fc, k) == spec_first_mjpeg(cs, k),
        spec_last_mjpeg(fc, k) == spec_last_mjpeg(cs, k),
    decreases cs.len() - k,
{
    if k < cs.len() {
        lemma_fix_keeps_mjpeg_stats(cs, fc, k + 1);
        lemma_fix_keeps_mjpeg_idx(cs[k]);
    }
}

/// The fix-up pass never touches a frame record, so the frame-index view
/// of any record is unchanged by it.
pub proof fn lemma_fix_keeps_uncompressed_idx(n: NodeV)
    ensures
        spec_uncompressed_frame_idx(spec_fix_parsed(n)) == spec_uncompressed_frame_idx(n.parsed),
{
}

/// Frame counts and first/last frame indices are unchanged when every
/// child is replaced by its fixed form.
pub proof fn lemma_fix_keeps_uncompressed_stats(cs: Seq<NodeV>, fc: Seq<NodeV>, k: int)
    requires
        fc.len() == cs.len(),
        forall|j: int| 0 <= j < cs.len() ==> fc[j] == spec_fix(#[trigger] cs[j]),
        0 <= k <= cs.len(),
    ensures
        spec_count_uncompressed(fc, k) == spec_count_uncompressed(cs, k),
        spec_first_uncompressed(fc, k) == spec_first_uncompressed(cs, k),
        spec_last_uncompressed(fc, k) == spec_last_uncompressed(cs, k),
    decreases cs.len() - k,
{
    if k < cs.len() {
        lemma_fix_keeps_uncompressed_stats(cs, fc, k + 1);
        lemma_fix_keeps_uncompressed_idx(cs[k]);
    }
}

/// The fix-up pass never touches a frame record, so the frame-index view
/// of any record is unchanged by it.
pub proof fn lemma_fix_keeps_framebased_idx(n: NodeV)
    ensures
        spec_framebased_frame_idx(spec_fix_parsed(n)) == spec_framebased_frame_idx(n.parsed),
{
}

/// Frame counts and first/last frame indices are unchanged when every
/// child is replaced by its fixed form.
pub proof fn lemma_fix_keeps_framebased_stats(cs: Seq<NodeV>, fc: Seq<NodeV>, k: int)
    requires
        fc.len() == cs.len(),
        forall|j: int| 0 <= j < cs.len() ==> fc[j] == spec_fix(#[trigger] cs[j]),
        0 <= k <= cs.len(),
    ensures
        spec_count_framebased(fc, k) == spec_count_framebased(cs, k),
        spec_first_framebased(fc, k) == spec_first_framebased(cs, k),
        spec_last_framebased(fc, k) == spec_last_framebased(cs, k),
    decreases cs.len() - k,
{
    if k < cs.len() {
        lemma_fix_keeps_framebased_stats(cs, fc, k + 1);
        lemma_fix_keeps_framebased_idx(cs[k]);
    }
}

/// Clamping a second time with the same bounds changes nothing.
pub proof fn lemma_clamp_idempotent(d0: u8, first: Option<u8>, last: Option<u8>)
    ensures
        spec_clamp_default(spec_clamp_default(d0, first, last), first, last)
            == spec_clamp_default(d0, first, last),
{
}

/// The fix-up pass is idempotent: running it twice yields the same tree,
/// and therefore the same bytes, as running it once.
pub proof fn lemma_fix_idempotent(n: NodeV)
    ensures
        spec_fix(spec_fix(n)) == spec_fix(n),
    decreases n, 0int,
{
    let f1 = spec_fix(n);
    lemma_fix_dfs_len(n);
    lemma_fix_keeps_ifaces(n);
    lemma_fix_in_index(n.children, 0);
    lemma_fix_keeps_mjpeg_stats(n.children, f1.children, 0);
    lemma_fix_keeps_uncompressed_stats(n.children, f1.children, 0);
    lemma_fix_keeps_framebased_stats(n.children, f1.children, 0);
    lemma_clamp_idempotent(
        (match n.parsed {
            DescV::DescriptorUvcFormatMjpeg(f) => f.b_default_frame_index,
            DescV::DescriptorUvcFormatUncompressed(f) => f.b_default_frame_index,
            DescV::UvcFormatFrameBased(f) => f.b_default_frame_index,
            _ => 0u8,
        }),
        (match n.parsed {
            DescV::DescriptorUvcFormatMjpeg(_) => spec_first_mjpeg(n.children, 0),
            DescV::DescriptorUvcFormatUncompressed(_) => spec_first_uncompressed(n.children, 0),
            _ => spec_first_framebased(n.children, 0),
        }),
        (match n.parsed {
            DescV::DescriptorUvcFormatMjpeg(_) => spec_last_mjpeg(n.children, 0),
            DescV::DescriptorUvcFormatUncompressed(_) => spec_last_uncompressed(n.children, 0),
            _ => spec_last_framebased(n.children, 0),
        }),
    );
    assert(spec_fix_parsed(f1) == spec_fix_parsed(n));
    lemma_fix_idempotent_in(n.children, 0);
    assert(spec_fix_in(f1.children, 0) =~= spec_fix_in(n.children, 0)) by {
        lemma_fix_in_index(f1.children, 0);
        lemma_fix_in_index(n.children, 0);
        assert forall|j: int| 0 <= j < n.children.len() implies spec_fix_in(f1.children, 0)[j]
            == spec_fix_in(n.children, 0)[j] by {
            lemma_fix_in_index(f1.children, 0);
            lemma_fix_in_index(n.children, 0);
            assert(f1.children[j] == spec_fix(n.children[j]));
            lemma_fix_idempotent(n.children[j]);
        }
    }
    assert(spec_fix(spec_fix(n)) =~= spec_fix(n));
}

pub proof fn lemma_fix_idempotent_in(cs: Seq<NodeV>, k: int)
    requires
        0 <= k <= cs.len(),
    ensures
        forall|j: int| k <= j < cs.len() ==> spec_fix(spec_fix(#[trigger] cs[j])) == spec_fix(
            cs[j],
        ),
    decreases cs, cs.len() - k + 1,
{
    if k < cs.len() {
        lemma_fix_idempotent(cs[k]);
        lemma_fix_idempotent_in(cs, k + 1);
    }
}

/// Length coherence: every configuration and UVC input header record
/// carries the serialized size of its own subtree (reduced modulo the
/// 16-bit field width; the two agree outright whenever the subtree fits
/// the field).
pub open spec fn lengths_coherent(n: NodeV) -> bool
    decreases n, 0int,
{
    &&& (n.parsed matches DescV::Config(c) ==> c.w_total_length == n.dfs_bytes().len() % 0x10000)
    &&& (n.parsed matches DescV::UvcInputHeader(h) ==> h.w_total_length == n.dfs_bytes().len()
        % 0x10000)
    &&& lengths_coherent_in(n.children, 0)
}

pub open spec fn lengths_coherent_in(cs: Seq<NodeV>, k: int) -> bool
    decreases cs, cs.len() - k + 1,
{
    if k < 0 || k >= cs.len() {
        true
    } else {
        lengths_coherent(cs[k]) && lengths_coherent_in(cs, k + 1)
    }
}

/// After the fix-up pass, every length field in the tree agrees with the
/// serialized size of its subtree.
pub proof fn lemma_fix_lengths_coherent(n: NodeV)
    ensures
        lengths_coherent(spec_fix(n)),
    decreases n, 0int,
{
    lemma_fix_dfs_len(n);
    lemma_fix_in_index(n.children, 0);
    lemma_fix_lengths_coherent_in(n.children, 0);
    let f1 = spec_fix(n);
    assert forall|j: int| 0 <= j < f1.children.len() implies #[trigger] lengths_coherent(
        f1.children[j],
    ) by {
        lemma_fix_in_index(n.children, 0);
        assert(f1.children[j] == spec_fix(n.children[j]));
        assert(lengths_coherent(spec_fix(n.children[j])));
    }
    lemma_lengths_coherent_in_pointwise(f1.children, 0);
}

pub proof fn lemma_fix_lengths_coherent_in(cs: Seq<NodeV>, k: int)
    requires
        0 <= k <= cs.len(),
    ensures
        forall|j: int| k <= j < cs.len() ==> lengths_coherent(spec_fix(#[trigger] cs[j])),
    decreases cs, cs.len() - k + 1,
{
    if k < cs.len() {
        lemma_fix_lengths_coherent(cs[k]);
        lemma_fix_lengths_coherent_in(cs, k + 1);
    }
}

/// Folds pointwise coherence of a child run into the recursive predicate.
pub proof fn lemma_lengths_coherent_in_pointwise(cs: Seq<NodeV>, k: int)
    requires
        0 <= k <= cs.len(),
        forall|j: int| 0 <= j < cs.len() ==> #[trigger] lengths_coherent(cs[j]),
    ensures
        lengths_coherent_in(cs, k),
    decreases cs.len() - k,
{
    if k < cs.len() {
        assert(lengths_coherent(cs[k]));
        lemma_lengths_coherent_in_pointwise(cs, k + 1);
    }
}

/// Default-frame clamping: a format record's default frame index lies
/// between the first and last frame indices of its matching frame
/// children, whenever it has such children and their first index does not
/// exceed their last (the wire order in every well-formed descriptor).
pub open spec fn default_frames_clamped(n: NodeV) -> bool
    decreases n, 0int,
{
    &&& (n.parsed matches DescV::DescriptorUvcFormatMjpeg(f) ==> clamp_ok(
        f.b_default_frame_index,
        spec_first_mjpeg(n.children, 0),
        spec_last_mjpeg(n.children, 0),
    ))
    &&& (n.parsed matches DescV::DescriptorUvcFormatUncompressed(f) ==> clamp_ok(
        f.b_default_frame_index,
        spec_first_uncompressed(n.children, 0),
        spec_last_uncompressed(n.children, 0),
    ))
    &&& (n.parsed matches DescV::UvcFormatFrameBased(f) ==> clamp_ok(
        f.b_default_frame_index,
        spec_first_framebased(n.children, 0),
        spec_last_framebased(n.children, 0),
    ))
    &&& default_frames_clamped_in(n.children, 0)
}

pub open spec fn default_frames_clamped_in(cs: Seq<NodeV>, k: int) -> bool
    decreases cs, cs.len() - k + 1,
{
    if k < 0 || k >= cs.len() {
        true
    } else {
        default_frames_clamped(cs[k]) && default_frames_clamped_in(cs, k + 1)
    }
}

/// What clamping guarantees: with frame children whose first index does
/// not exceed their last, the default lies in `[first, last]`.
pub open spec fn clamp_ok(d: u8, first: Option<u8>, last: Option<u8>) -> bool {
    match (first, last) {
        (Some(f), Some(l)) => f <= l ==> f <= d <= l,
        _ => true,
    }
}

/// After the fix-up pass, every format record's default frame index is
/// clamped into its frame children's index range.
pub proof fn lemma_fix_defaults_clamped(n: NodeV)
    ensures
        default_frames_clamped(spec_fix(n)),
    decreases n, 0int,
{
    let f1 = spec_fix(n);
    lemma_fix_in_index(n.children, 0);
    lemma_fix_keeps_mjpeg_stats(n.children, f1.children, 0);
    lemma_fix_keeps_uncompressed_stats(n.children, f1.children, 0);
    lemma_fix_keeps_framebased_stats(n.children, f1.children, 0);
    lemma_fix_defaults_clamped_in(n.children, 0);
    assert forall|j: int| 0 <= j < f1.children.len() implies #[trigger] default_frames_clamped(
        f1.children[j],
    ) by {
        lemma_fix_in_index(n.children, 0);
        assert(f1.children[j] == spec_fix(n.children[j]));
        assert(default_frames_clamped(spec_fix(n.children[j])));
    }
    lemma_defaults_clamped_in_pointwise(f1.children, 0);
}

pub proof fn lemma_fix_defaults_clamped_in(cs: Seq<NodeV>, k: int)
    requires
        0 <= k <= cs.len(),
    ensures
        forall|j: int| k <= j < cs.len() ==> default_frames_clamped(spec_fix(#[trigger] cs[j])),
    decreases cs, cs.len() - k + 1,
{
    if k < cs.len() {
        lemma_fix_defaults_clamped(cs[k]);
        lemma_fix_defaults_clamped_in(cs, k + 1);
    }
}

pub proof fn lemma_defaults_clamped_in_pointwise(cs: Seq<NodeV>, k: int)
    requires
        0 <= k <= cs.len(),
        forall|j: int| 0 <= j < cs.len() ==> #[trigger] default_frames_clamped(cs[j]),
    ensures
        default_frames_clamped_in(cs, k),
    decreases cs.len() - k,
{
    if k < cs.len() {
        assert(default_frames_clamped(cs[k]));
        lemma_defaults_clamped_in_pointwise(cs, k + 1);
    }
}

} // verus!
