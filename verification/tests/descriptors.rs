use usb_desc::tree::TreeNode;
use usb_desc::usb_proto::DescriptorConfig;
use usb_desc::usb_proto::DescriptorEndpoint;
use usb_desc::usb_proto::DescriptorTypes;
use usb_desc::usb_proto::DescError;
use usb_desc::usb_proto::EndpointAttrSyncType;
use usb_desc::usb_proto::EndpointAttrTransferType;
use usb_desc::usb_proto::EndpointAttrUsageType;
use usb_desc::usb_proto::ep_attr_to_u8;
use usb_desc::uvc_proto::MockVideoFormat;
use usb_desc::uvc_proto::UvcFrameHeader;

fn push_u16(buf: &mut Vec<u8>, v: u16) {
    buf.push((v % 0x100) as u8);
    buf.push((v / 0x100) as u8);
}

fn push_u32(buf: &mut Vec<u8>, v: u32) {
    buf.push((v & 0xff) as u8);
    buf.push(((v >> 8) & 0xff) as u8);
    buf.push(((v >> 16) & 0xff) as u8);
    buf.push(((v >> 24) & 0xff) as u8);
}

/// A small composite device: one audio control interface, one audio
/// streaming interface with a PCM format and an isochronous endpoint, one
/// video streaming interface with an MJPEG format and one frame, and an
/// unknown trailing record.
fn sample_blob() -> Vec<u8> {
    let mut tail: Vec<u8> = Vec::new();
    // Audio control interface, alternate setting 0.
    tail.extend_from_slice(&[9, 0x04, 0, 0, 0, 0x01, 0x01, 0, 0]);
    // AudioControl header with a one-entry collection.
    tail.extend_from_slice(&[9, 0x24, 0x01, 0x00, 0x01, 9, 0, 1, 1]);
    // Audio streaming interface, alternate setting 0.
    tail.extend_from_slice(&[9, 0x04, 1, 0, 1, 0x01, 0x02, 0, 0]);
    // AudioStreaming general record.
    tail.extend_from_slice(&[7, 0x24, 0x01, 1, 1, 1, 0]);
    // PCM format type with one 48 kHz sample rate.
    tail.extend_from_slice(&[11, 0x24, 0x02, 0x01, 2, 2, 16, 1, 0x80, 0xbb, 0x00]);
    // Nine-byte audio endpoint: OUT address 2, isochronous asynchronous.
    tail.extend_from_slice(&[9, 0x05, 0x02, 0x05, 0xc4, 0x00, 1, 0, 0]);
    // Audio-class isochronous endpoint record.
    tail.extend_from_slice(&[7, 0x25, 0x01, 0x01, 0, 0, 0]);
    // Video streaming interface, alternate setting 0.
    tail.extend_from_slice(&[9, 0x04, 2, 0, 1, 0x0e, 0x02, 0, 0]);
    // UVC input header: one format, control size 1.
    let ih_total: u16 = 14 + 11 + 34;
    let mut ih: Vec<u8> = vec![14, 0x24, 0x01, 1];
    push_u16(&mut ih, ih_total);
    ih.extend_from_slice(&[0x83, 0, 2, 0, 0, 0, 1, 0x3b]);
    tail.extend_from_slice(&ih);
    // MJPEG format with one frame descriptor.
    tail.extend_from_slice(&[11, 0x24, 0x06, 1, 1, 1, 1, 0, 0, 0, 0]);
    // MJPEG frame: 1920x1080 with two intervals (60 fps and 30 fps).
    let mut frame: Vec<u8> = vec![34, 0x24, 0x07, 1, 0];
    push_u16(&mut frame, 1920);
    push_u16(&mut frame, 1080);
    push_u32(&mut frame, 10000000);
    push_u32(&mut frame, 20000000);
    push_u32(&mut frame, 4147200);
    push_u32(&mut frame, 333333);
    frame.push(2);
    push_u32(&mut frame, 166666);
    push_u32(&mut frame, 333333);
    tail.extend_from_slice(&frame);
    // An unmodeled record type, preserved verbatim.
    tail.extend_from_slice(&[5, 0x99, 0xaa, 0xbb, 0xcc]);

    let mut blob: Vec<u8> = vec![9, 0x02];
    push_u16(&mut blob, 9 + tail.len() as u16);
    blob.extend_from_slice(&[3, 1, 0, 0x80, 0xfa]);
    blob.extend_from_slice(&tail);
    blob
}

#[test]
fn round_trip_sample_blob() {
    let blob = sample_blob();
    let tree = TreeNode::deserialize(&blob).unwrap();
    let mut out: Vec<u8> = Vec::new();
    tree.serialize(&mut out).unwrap();
    assert_eq!(out, blob);
}

#[test]
fn unknown_records_survive_round_trip() {
    // Unknown top-level type, unknown VS subtype, unknown AC subtype.
    let mut blob: Vec<u8> = vec![9, 0x02];
    push_u16(&mut blob, 9 + 5 + 9 + 6 + 9 + 7);
    blob.extend_from_slice(&[2, 1, 0, 0x80, 0xfa]);
    blob.extend_from_slice(&[5, 0x99, 1, 2, 3]);
    blob.extend_from_slice(&[9, 0x04, 0, 0, 0, 0x0e, 0x02, 0, 0]);
    blob.extend_from_slice(&[6, 0x24, 0x0d, 7, 7, 7]);
    blob.extend_from_slice(&[9, 0x04, 1, 0, 0, 0x01, 0x01, 0, 0]);
    blob.extend_from_slice(&[7, 0x24, 0x42, 1, 2, 3, 4]);
    let tree = TreeNode::deserialize(&blob).unwrap();
    let mut out: Vec<u8> = Vec::new();
    tree.serialize(&mut out).unwrap();
    assert_eq!(out, blob);
}

#[test]
fn truncated_final_record_keeps_partial_tree() {
    let mut blob: Vec<u8> = vec![9, 0x02];
    push_u16(&mut blob, 9 + 9);
    blob.extend_from_slice(&[1, 1, 0, 0x80, 0xfa]);
    // A record that declares more bytes than remain.
    blob.extend_from_slice(&[9, 0x04, 0, 0]);
    let tree = TreeNode::deserialize(&blob).unwrap();
    let mut out: Vec<u8> = Vec::new();
    tree.serialize(&mut out).unwrap();
    // The truncated record is dropped; the configuration survives.
    assert_eq!(out.len(), 9);
    assert_eq!(out[1], 0x02);
}

#[test]
fn tree_queries_see_the_sample_structure() {
    let blob = sample_blob();
    let tree = TreeNode::deserialize(&blob).unwrap();
    assert!(tree.has_audio());
    assert!(tree.has_video());
    assert_eq!(tree.find_ifaces(), vec![0, 1, 2]);
    assert_eq!(tree.find_uac_ifaces(), vec![0, 1]);
    assert_eq!(tree.find_non_uac_ifaces(), vec![2]);
    assert_eq!(tree.find_uvc_ifaces(), vec![2]);
    assert_eq!(tree.find_non_uvc_ifaces(), vec![0, 1]);
    assert_eq!(tree.num_uvc_formats(), 1);
    assert!(tree.get_format_by_idx(1).is_some());
    assert!(tree.get_format_by_idx(2).is_none());
    assert!(tree.get_frame_by_idx(1).is_some());
    assert!(tree.get_uvc_input_hdr().is_some());
    assert!(tree.get_uac_ep().is_some());
    assert!(tree.get_uac_fmt().is_some());
    assert_eq!(tree.find_spkr_ep(), Some(0x02));
    assert_eq!(tree.find_mic_ep(), None);
    assert_eq!(tree.find_spkr_iface(None), Some(1));
    assert_eq!(tree.find_hid_iface(None), None);
}

#[test]
fn video_cfg_composes_resolution_and_format() {
    let blob = sample_blob();
    let tree = TreeNode::deserialize(&blob).unwrap();
    let cfg = tree.get_video_cfg(1, 1, 30).unwrap();
    assert_eq!(cfg.width, 1920);
    assert_eq!(cfg.height, 1080);
    assert_eq!(cfg.fps, 30);
    assert!(matches!(cfg.format, MockVideoFormat::Mjpeg));
    assert_eq!(tree.get_video_cfg(2, 1, 30), Err(DescError::FormatNotFound));
    assert_eq!(tree.get_video_cfg(1, 9, 30), Err(DescError::FrameNotFound));
}

#[test]
fn config_serializes_to_exact_bytes() {
    let conf = DescriptorConfig {
        w_total_length: 0x1234,
        b_num_interfaces: 3,
        b_configuration_value: 1,
        i_configuration: 0,
        bm_attributes: 0x80,
        b_max_power: 0xfa,
    };
    let mut buf: Vec<u8> = Vec::new();
    conf.serialize(&mut buf);
    assert_eq!(buf, vec![9, 0x02, 0x34, 0x12, 3, 1, 0, 0x80, 0xfa]);
}

#[test]
fn endpoint_attr_helpers_agree() {
    let attrs = ep_attr_to_u8(
        EndpointAttrTransferType::Isochronous,
        EndpointAttrSyncType::Async,
        EndpointAttrUsageType::Data,
    );
    assert_eq!(attrs, 0x05);
    let out_ep = DescriptorEndpoint {
        b_endpoint_address: 0x02,
        bm_attributes: attrs,
        w_max_packet_size: 196,
        b_interval: 1,
    };
    assert!(out_ep.is_speaker());
    assert!(!out_ep.is_mic());
    assert!(out_ep.is_iso_transfer());
    let in_ep = DescriptorEndpoint { b_endpoint_address: 0x82, ..out_ep };
    assert!(in_ep.is_mic());
    assert!(!in_ep.is_speaker());
    let bulk = DescriptorEndpoint { bm_attributes: 0x02, ..out_ep };
    assert_eq!(bulk.synch_type(), Err(DescError::NotIsochronous));
    assert_eq!(bulk.usage_type(), Err(DescError::NotIsochronous));
    assert!(bulk.is_bulk_transfer());
    assert_eq!(bulk.ep(), 2);
}

#[test]
fn frame_header_packs_flags() {
    let hdr = UvcFrameHeader::new(true, false);
    assert_eq!(hdr.b_header_length, 12);
    assert_eq!(hdr.bm_header_info, 0x82);
    let hdr = UvcFrameHeader::new(false, true);
    assert_eq!(hdr.bm_header_info, 0x81);
    let mut buf: Vec<u8> = Vec::new();
    hdr.serialize(&mut buf).unwrap();
    assert_eq!(buf.len(), 12);
    let back = UvcFrameHeader::deserialize(&buf).unwrap();
    assert_eq!(back, hdr);
}

#[test]
fn classifier_errors_identify_non_interfaces() {
    let root = TreeNode::new();
    assert_eq!(root.is_audio_control(), Err(DescError::NotInterface));
    assert_eq!(root.is_audio_streaming(), Err(DescError::NotInterface));
    assert_eq!(root.frame_sz(), Err(DescError::NotFrame));
    let setting = usb_desc::usb_proto::IfaceAltSetting::new(7, 0);
    assert_eq!(root.is_video_streaming(&setting), Err(DescError::InterfaceNotFound));
}

#[test]
fn get_node_finds_by_callback() {
    let blob = sample_blob();
    let tree = TreeNode::deserialize(&blob).unwrap();
    let hit = tree.get_node(&|parsed: &DescriptorTypes| {
        matches!(parsed, DescriptorTypes::DescriptorUvcFormatMjpeg(_))
    });
    assert!(hit.is_some());
    let miss = tree.get_node(&|parsed: &DescriptorTypes| {
        matches!(parsed, DescriptorTypes::Device(_))
    });
    assert!(miss.is_none());
}

#[test]
fn assoc_range_cover() {
    let assoc = usb_desc::usb_proto::UsbInterfaceAssocDescriptor {
        b_first_interface: 2,
        b_interface_count: 3,
        b_function_class: 1,
        b_function_sub_class: 2,
        b_function_protocol: 0,
        i_function: 0,
    };
    assert!(!assoc.covers(1));
    assert!(assoc.covers(2));
    assert!(assoc.covers(4));
    assert!(!assoc.covers(5));
    assert_eq!(assoc.last_iface(), 4);
}

#[test]
fn companion_records_round_trip() {
    let mut blob: Vec<u8> = vec![9, 0x02];
    push_u16(&mut blob, 9 + 9 + 7 + 6 + 8);
    blob.extend_from_slice(&[1, 1, 0, 0x80, 0xfa]);
    blob.extend_from_slice(&[9, 0x04, 0, 0, 1, 0xff, 0x00, 0, 0]);
    blob.extend_from_slice(&[7, 0x05, 0x81, 0x02, 0x00, 0x02, 0]);
    // SuperSpeed endpoint companion, then a SuperSpeedPlus isochronous one.
    blob.extend_from_slice(&[6, 0x30, 3, 0, 0x00, 0x04]);
    blob.extend_from_slice(&[8, 0x31, 0, 0, 0x10, 0x20, 0x30, 0x40]);
    let tree = usb_desc::tree::TreeNode::deserialize(&blob).unwrap();
    assert!(tree.get_ss_ep_comp().is_some());
    assert!(tree.get_ep().is_some());
    let mut out: Vec<u8> = Vec::new();
    tree.serialize(&mut out).unwrap();
    assert_eq!(out, blob);
}

#[test]
fn streaming_control_reads_fields() {
    let mut data: Vec<u8> = Vec::new();
    push_u16(&mut data, 0x0001);
    data.push(2);
    data.push(3);
    push_u32(&mut data, 333333);
    push_u16(&mut data, 0);
    push_u16(&mut data, 0);
    push_u16(&mut data, 0);
    push_u16(&mut data, 0);
    push_u16(&mut data, 32);
    push_u32(&mut data, 4147200);
    push_u32(&mut data, 3072);
    let ctrl = usb_desc::uvc_proto::UvcStreamingControl::deserialize(&data);
    assert_eq!(ctrl.bm_hint, 1);
    assert_eq!(ctrl.b_format_index, 2);
    assert_eq!(ctrl.b_frame_index, 3);
    assert_eq!(ctrl.dw_frame_interval, 333333);
    assert_eq!(ctrl.w_delay, 32);
    assert_eq!(ctrl.dw_max_video_frame_size, 4147200);
    assert_eq!(ctrl.dw_max_payload_transfer_size, 3072);
}

#[test]
fn speaker_and_mic_interfaces_scan_all_children() {
    let iface = usb_desc::usb_proto::DescriptorInterface {
        b_interface_number: 1,
        b_alternate_setting: 1,
        b_num_endpoints: 1,
        b_interface_class: 0x01,
        b_interface_sub_class: 0x02,
        b_interface_protocol: 0,
        i_interface: 0,
    };
    let speaker_ep = DescriptorEndpoint {
        b_endpoint_address: 0x02,
        bm_attributes: 0x05,
        w_max_packet_size: 196,
        b_interval: 1,
    };
    // The speaker endpoint comes first and a class-specific record last:
    // the classifier still sees it.
    let mut node = TreeNode { children: Vec::new(), parsed: DescriptorTypes::Interface(iface) };
    node.children.push(TreeNode {
        children: Vec::new(),
        parsed: DescriptorTypes::Endpoint(speaker_ep),
    });
    node.children.push(TreeNode {
        children: Vec::new(),
        parsed: DescriptorTypes::CsEndpoint(usb_desc::usb_proto::DescriptorCsEndpoint {
            bytes: vec![1, 2, 3],
        }),
    });
    assert_eq!(node.is_speaker_interface(), Ok(true));
    assert_eq!(node.is_mic_interface(), Ok(false));
    // An IN endpoint anywhere among the children makes it a microphone.
    let mic_ep = DescriptorEndpoint { b_endpoint_address: 0x82, ..speaker_ep };
    node.children.push(TreeNode {
        children: Vec::new(),
        parsed: DescriptorTypes::Endpoint(mic_ep),
    });
    assert_eq!(node.is_mic_interface(), Ok(true));
    // A childless interface is neither; a non-interface node errs.
    let bare = TreeNode { children: Vec::new(), parsed: DescriptorTypes::Interface(iface) };
    assert_eq!(bare.is_speaker_interface(), Ok(false));
    assert_eq!(bare.is_mic_interface(), Ok(false));
    assert_eq!(TreeNode::new().is_speaker_interface(), Err(DescError::NotInterface));
    assert_eq!(TreeNode::new().is_mic_interface(), Err(DescError::NotInterface));
}
