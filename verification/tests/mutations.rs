use usb_desc::tree::TreeNode;
use usb_desc::usb_proto::DescriptorTypes;
use usb_desc::usb_proto::DescError;
use usb_desc::uvc_proto::DescriptorUvcFormatFrameBased;
use usb_desc::uvc_proto::DescriptorUvcFormatMjpeg;
use usb_desc::uvc_proto::DescriptorUvcFormatUncompressed;
use usb_desc::uvc_proto::DescriptorUvcFrameMjpeg;
use usb_desc::uvc_proto::DescriptorUvcFrameUncompressed;
use usb_desc::uvc_proto::DescriptorUvcInputHeader;
use usb_desc::uvc_proto::UncompressedFormats;

fn leaf(parsed: DescriptorTypes) -> TreeNode {
    TreeNode { children: Vec::new(), parsed }
}

fn mjpeg_format(idx: u8, dflt: u8) -> DescriptorUvcFormatMjpeg {
    DescriptorUvcFormatMjpeg {
        b_format_index: idx,
        b_num_frame_descriptors: 0,
        bm_flags: 0,
        b_default_frame_index: dflt,
        b_aspect_ratio_x: 0,
        b_aspect_ratio_y: 0,
        bm_interface_flags: 0,
        b_copy_protect: 0,
    }
}

fn mjpeg_frame(idx: u8, w: u16, h: u16, intervals: Vec<u32>) -> DescriptorUvcFrameMjpeg {
    DescriptorUvcFrameMjpeg {
        b_frame_index: idx,
        bm_capabilities: 0,
        w_width: w,
        w_height: h,
        dw_min_bit_rate: 1000,
        dw_max_bit_rate: 2000,
        dw_max_video_frame_buffer_size: 4096,
        dw_default_frame_interval: 333333,
        dw_frame_interval: intervals,
    }
}

fn uncompressed_frame(idx: u8, w: u16, h: u16) -> DescriptorUvcFrameUncompressed {
    DescriptorUvcFrameUncompressed {
        b_frame_index: idx,
        bm_capabilities: 0,
        w_width: w,
        w_height: h,
        dw_min_bit_rate: 1000,
        dw_max_bit_rate: 2000,
        dw_max_video_frame_buffer_size: 4096,
        dw_default_frame_interval: 333333,
        dw_frame_interval: vec![333333],
    }
}

fn uncompressed_format(idx: u8, guid: u128) -> DescriptorUvcFormatUncompressed {
    DescriptorUvcFormatUncompressed {
        b_format_index: idx,
        b_num_frame_descriptors: 0,
        guid_format: guid,
        b_bits_per_pixel: 16,
        b_default_frame_index: 1,
        b_aspect_ratio_x: 0,
        b_aspect_ratio_y: 0,
        bm_interface_flags: 0,
        b_copy_protect: 0,
    }
}

fn framebased_format(idx: u8) -> DescriptorUvcFormatFrameBased {
    DescriptorUvcFormatFrameBased {
        b_format_index: idx,
        b_num_frame_descriptors: 0,
        guid_format: 0x1234,
        b_bits_per_pixel: 12,
        b_default_frame_index: 1,
        b_aspect_ratio_x: 0,
        b_aspect_ratio_y: 0,
        bm_interface_flags: 0,
        b_copy_protect: 0,
        b_variable_size: 1,
    }
}

fn input_header(control_size: u8, bma: Vec<u8>) -> DescriptorUvcInputHeader {
    DescriptorUvcInputHeader {
        w_total_length: 0,
        b_endpoint_address: 0x83,
        bm_info: 0,
        b_terminal_link: 2,
        b_still_capture_method: 0,
        b_trigger_support: 0,
        b_trigger_usage: 0,
        b_control_size: control_size,
        bma_controls: bma,
    }
}

#[test]
fn remove_high_fps_drops_fast_intervals() {
    let mut node = leaf(DescriptorTypes::DescriptorUvcFrameMjpeg(mjpeg_frame(
        1,
        1280,
        720,
        vec![166666, 333333, 666666],
    )));
    node.remove_high_fps();
    match &node.parsed {
        DescriptorTypes::DescriptorUvcFrameMjpeg(frame) => {
            assert_eq!(frame.dw_frame_interval, vec![333333, 666666]);
        },
        _ => panic!("frame variant lost"),
    }
}

#[test]
fn remove_high_resolution_keeps_family_minimum() {
    // MJPEG family: one frame within the cap survives, the larger goes.
    let mut fmt = leaf(DescriptorTypes::DescriptorUvcFormatMjpeg(mjpeg_format(1, 1)));
    fmt.children.push(leaf(DescriptorTypes::DescriptorUvcFrameMjpeg(mjpeg_frame(
        1,
        1920,
        1080,
        vec![333333],
    ))));
    fmt.children.push(leaf(DescriptorTypes::DescriptorUvcFrameMjpeg(mjpeg_frame(
        2,
        1280,
        720,
        vec![333333],
    ))));
    fmt.remove_high_resolution();
    assert_eq!(fmt.children.len(), 1);
    match &fmt.children[0].parsed {
        DescriptorTypes::DescriptorUvcFrameMjpeg(frame) => assert_eq!(frame.b_frame_index, 2),
        _ => panic!("wrong survivor"),
    }
    // A family that sits entirely above the cap keeps its smallest frame.
    let mut big = leaf(DescriptorTypes::DescriptorUvcFormatMjpeg(mjpeg_format(1, 1)));
    big.children.push(leaf(DescriptorTypes::DescriptorUvcFrameMjpeg(mjpeg_frame(
        1,
        1920,
        1080,
        vec![333333],
    ))));
    big.children.push(leaf(DescriptorTypes::DescriptorUvcFrameMjpeg(mjpeg_frame(
        2,
        3840,
        2160,
        vec![333333],
    ))));
    big.remove_high_resolution();
    assert_eq!(big.children.len(), 1);
    match &big.children[0].parsed {
        DescriptorTypes::DescriptorUvcFrameMjpeg(frame) => assert_eq!(frame.b_frame_index, 1),
        _ => panic!("wrong survivor"),
    }
}

#[test]
fn remove_high_resolution_segments_uncompressed_by_guid() {
    // Unknown GUID: every frame is kept, to be safe.
    let mut other = leaf(DescriptorTypes::DescriptorUvcFormatUncompressed(uncompressed_format(
        1, 0x42,
    )));
    other.children.push(leaf(DescriptorTypes::DescriptorUvcFrameUncompressed(
        uncompressed_frame(1, 3840, 2160),
    )));
    other.remove_high_resolution();
    assert_eq!(other.children.len(), 1);
    // Recognized GUID, family above the cap: all frames kept per the
    // uncompressed rule.
    let mut yuy2 = leaf(DescriptorTypes::DescriptorUvcFormatUncompressed(uncompressed_format(
        1,
        UncompressedFormats::YUY2,
    )));
    yuy2.children.push(leaf(DescriptorTypes::DescriptorUvcFrameUncompressed(
        uncompressed_frame(1, 1920, 1080),
    )));
    yuy2.children.push(leaf(DescriptorTypes::DescriptorUvcFrameUncompressed(
        uncompressed_frame(2, 3840, 2160),
    )));
    yuy2.remove_high_resolution();
    assert_eq!(yuy2.children.len(), 2);
    // Recognized GUID with a frame inside the cap: the large one goes.
    let mut nv12 = leaf(DescriptorTypes::DescriptorUvcFormatUncompressed(uncompressed_format(
        1,
        UncompressedFormats::NV12,
    )));
    nv12.children.push(leaf(DescriptorTypes::DescriptorUvcFrameUncompressed(
        uncompressed_frame(1, 1280, 720),
    )));
    nv12.children.push(leaf(DescriptorTypes::DescriptorUvcFrameUncompressed(
        uncompressed_frame(2, 1920, 1080),
    )));
    nv12.remove_high_resolution();
    assert_eq!(nv12.children.len(), 1);
}

#[test]
fn remove_ifaces_and_assocs_by_number() {
    let mut root = TreeNode::new();
    let mut config = leaf(DescriptorTypes::Config(usb_desc::usb_proto::DescriptorConfig {
        w_total_length: 0,
        b_num_interfaces: 2,
        b_configuration_value: 1,
        i_configuration: 0,
        bm_attributes: 0x80,
        b_max_power: 50,
    }));
    config.children.push(leaf(DescriptorTypes::InterfaceAssociation(
        usb_desc::usb_proto::UsbInterfaceAssocDescriptor {
            b_first_interface: 0,
            b_interface_count: 2,
            b_function_class: 1,
            b_function_sub_class: 0,
            b_function_protocol: 0,
            i_function: 0,
        },
    )));
    config.children.push(leaf(DescriptorTypes::Interface(
        usb_desc::usb_proto::DescriptorInterface {
            b_interface_number: 0,
            b_alternate_setting: 0,
            b_num_endpoints: 0,
            b_interface_class: 0x01,
            b_interface_sub_class: 0x01,
            b_interface_protocol: 0,
            i_interface: 0,
        },
    )));
    config.children.push(leaf(DescriptorTypes::Interface(
        usb_desc::usb_proto::DescriptorInterface {
            b_interface_number: 2,
            b_alternate_setting: 0,
            b_num_endpoints: 0,
            b_interface_class: 0x0e,
            b_interface_sub_class: 0x02,
            b_interface_protocol: 0,
            i_interface: 0,
        },
    )));
    root.children.push(config);
    let ids = root.find_uac_ifaces();
    assert_eq!(ids, vec![0]);
    root.remove_iface_assoc(&ids);
    root.remove_ifaces(&ids);
    root.fix_tree();
    assert_eq!(root.find_ifaces(), vec![2]);
    assert_eq!(root.find_uac_ifaces(), Vec::<u8>::new());
    // The association covering interface 0 is gone too.
    assert_eq!(root.children[0].children.len(), 1);
}

#[test]
fn remove_h264_rebuilds_controls_and_drops_formats() {
    let mut hdr = leaf(DescriptorTypes::UvcInputHeader(input_header(1, vec![0xaa, 0xbb, 0xcc])));
    hdr.children.push(leaf(DescriptorTypes::DescriptorUvcFormatMjpeg(mjpeg_format(1, 1))));
    hdr.children.push(leaf(DescriptorTypes::UvcFormatFrameBased(framebased_format(2))));
    hdr.children.push(leaf(DescriptorTypes::DescriptorUvcFormatUncompressed(
        uncompressed_format(3, UncompressedFormats::YUY2),
    )));
    assert!(hdr.remove_h264().is_ok());
    assert_eq!(hdr.children.len(), 2);
    match &hdr.parsed {
        DescriptorTypes::UvcInputHeader(h) => {
            assert_eq!(h.bma_controls, vec![0xaa, 0xcc]);
        },
        _ => panic!("header variant lost"),
    }
}

#[test]
fn remove_h264_rejects_bad_targets() {
    let mut not_hdr = TreeNode::new();
    assert_eq!(not_hdr.remove_h264(), Err(DescError::NotInputHeader));
    let mut hdr = leaf(DescriptorTypes::UvcInputHeader(input_header(1, vec![0xaa])));
    hdr.children.push(TreeNode::new());
    assert_eq!(hdr.remove_h264(), Err(DescError::UnknownInputHeaderChild));
    // The failed removal left the header untouched.
    match &hdr.parsed {
        DescriptorTypes::UvcInputHeader(h) => assert_eq!(h.bma_controls, vec![0xaa]),
        _ => panic!("header variant lost"),
    }
}

#[test]
fn remove_h264_in_tree_reaches_nested_header() {
    let mut root = TreeNode::new();
    let mut hdr = leaf(DescriptorTypes::UvcInputHeader(input_header(1, vec![0xaa, 0xbb])));
    hdr.children.push(leaf(DescriptorTypes::UvcFormatFrameBased(framebased_format(1))));
    hdr.children.push(leaf(DescriptorTypes::DescriptorUvcFormatMjpeg(mjpeg_format(2, 1))));
    root.children.push(hdr);
    assert!(root.remove_h264_in_tree().is_ok());
    match &root.children[0].parsed {
        DescriptorTypes::UvcInputHeader(h) => assert_eq!(h.bma_controls, vec![0xbb]),
        _ => panic!("header variant lost"),
    }
    assert_eq!(root.children[0].children.len(), 1);
    let mut empty = TreeNode::new();
    assert_eq!(empty.remove_h264_in_tree(), Err(DescError::NotInputHeader));
}

#[test]
fn fix_tree_recomputes_lengths_and_clamps_defaults() {
    let mut root = TreeNode::new();
    let mut config = leaf(DescriptorTypes::Config(usb_desc::usb_proto::DescriptorConfig {
        w_total_length: 9999,
        b_num_interfaces: 77,
        b_configuration_value: 1,
        i_configuration: 0,
        bm_attributes: 0x80,
        b_max_power: 50,
    }));
    let mut fmt = leaf(DescriptorTypes::DescriptorUvcFormatMjpeg(mjpeg_format(1, 9)));
    fmt.children.push(leaf(DescriptorTypes::DescriptorUvcFrameMjpeg(mjpeg_frame(
        2,
        1280,
        720,
        vec![333333],
    ))));
    fmt.children.push(leaf(DescriptorTypes::DescriptorUvcFrameMjpeg(mjpeg_frame(
        3,
        640,
        480,
        vec![333333],
    ))));
    config.children.push(fmt);
    root.children.push(config);
    root.fix_tree();
    match &root.children[0].parsed {
        DescriptorTypes::Config(c) => {
            // Config record + MJPEG format + two frames of 30 bytes each.
            assert_eq!(c.w_total_length, 9 + 11 + 30 + 30);
            assert_eq!(c.b_num_interfaces, 0);
        },
        _ => panic!("config variant lost"),
    }
    match &root.children[0].children[0].parsed {
        DescriptorTypes::DescriptorUvcFormatMjpeg(f) => {
            assert_eq!(f.b_num_frame_descriptors, 2);
            // The stale default index 9 is clamped down to the last frame.
            assert_eq!(f.b_default_frame_index, 3);
        },
        _ => panic!("format variant lost"),
    }
}

#[test]
fn fix_tree_applied_twice_gives_the_same_bytes() {
    let mut root = TreeNode::new();
    let mut config = leaf(DescriptorTypes::Config(usb_desc::usb_proto::DescriptorConfig {
        w_total_length: 0,
        b_num_interfaces: 0,
        b_configuration_value: 1,
        i_configuration: 0,
        bm_attributes: 0x80,
        b_max_power: 50,
    }));
    let mut fmt = leaf(DescriptorTypes::DescriptorUvcFormatMjpeg(mjpeg_format(1, 0)));
    fmt.children.push(leaf(DescriptorTypes::DescriptorUvcFrameMjpeg(mjpeg_frame(
        1,
        1280,
        720,
        vec![166666, 333333],
    ))));
    config.children.push(fmt);
    root.children.push(config);
    root.remove_high_fps();
    root.fix_tree();
    let mut once: Vec<u8> = Vec::new();
    root.serialize(&mut once).unwrap();
    root.fix_tree();
    let mut twice: Vec<u8> = Vec::new();
    root.serialize(&mut twice).unwrap();
    assert_eq!(once, twice);
}

#[test]
fn parse_wf_accepts_and_rejects() {
    // A configuration record shorter than its typed layout is refused.
    let bad: Vec<u8> = vec![5, 0x02, 0, 0, 0];
    assert!(!usb_desc::parse::parse_wf(&bad));
    // A record length below the header size is refused.
    let bad2: Vec<u8> = vec![1, 0x02];
    assert!(!usb_desc::parse::parse_wf(&bad2));
    // A lone truncated record is accepted: parsing stops early.
    let trunc: Vec<u8> = vec![9, 0x02, 0, 0];
    assert!(usb_desc::parse::parse_wf(&trunc));
    // A well-formed record sequence is accepted.
    let good: Vec<u8> = vec![9, 0x02, 30, 0, 1, 1, 0, 0x80, 0xfa, 9, 0x04, 0, 0, 0, 1, 1, 0, 0];
    assert!(usb_desc::parse::parse_wf(&good));
}

#[test]
fn h264_bounds_checker_matches_removal() {
    let mut good = leaf(DescriptorTypes::UvcInputHeader(input_header(2, vec![1, 2, 3, 4])));
    good.children.push(leaf(DescriptorTypes::DescriptorUvcFormatMjpeg(mjpeg_format(1, 1))));
    good.children.push(leaf(DescriptorTypes::UvcFormatFrameBased(framebased_format(2))));
    assert!(good.remove_h264_bounds_ok());
    // A bitmap too short for the second format's slice.
    let mut short = leaf(DescriptorTypes::UvcInputHeader(input_header(2, vec![1, 2])));
    short.children.push(leaf(DescriptorTypes::DescriptorUvcFormatMjpeg(mjpeg_format(1, 1))));
    short.children.push(leaf(DescriptorTypes::DescriptorUvcFormatMjpeg(mjpeg_format(2, 1))));
    assert!(!short.remove_h264_bounds_ok());
    // Any node that is not an input header passes vacuously.
    assert!(TreeNode::new().remove_h264_bounds_ok());
}

#[test]
fn replace_node_swaps_matching_children() {
    let mut root = TreeNode::new();
    root.children.push(leaf(DescriptorTypes::DescriptorUvcFormatMjpeg(mjpeg_format(1, 1))));
    root.children.push(leaf(DescriptorTypes::UvcFormatFrameBased(framebased_format(2))));
    let replacement = leaf(DescriptorTypes::DescriptorUvcFormatMjpeg(mjpeg_format(7, 1)));
    root.replace_node(&replacement, &|parsed: &DescriptorTypes| {
        matches!(parsed, DescriptorTypes::UvcFormatFrameBased(_))
    });
    assert_eq!(root.children.len(), 2);
    match &root.children[0].parsed {
        DescriptorTypes::DescriptorUvcFormatMjpeg(f) => assert_eq!(f.b_format_index, 1),
        _ => panic!("untouched child changed"),
    }
    match &root.children[1].parsed {
        DescriptorTypes::DescriptorUvcFormatMjpeg(f) => assert_eq!(f.b_format_index, 7),
        _ => panic!("child was not replaced"),
    }
}
