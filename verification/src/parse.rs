//! The flat parse: splitting a descriptor byte stream into records and
//! instantiating the typed variant of each, driven by the running
//! `(class, subclass)` context of the most recent interface record.

use vstd::prelude::*;

use crate::bytes::spec_u16_le;
use crate::bytes::spec_u32_le;
use crate::bytes::spec_u128_le;
use crate::bytes::copy_range;
use crate::tree::children_view;
use crate::tree::lemma_children_view_push;
use crate::tree::node_view;
use crate::tree::NodeV;
use crate::tree::TreeNode;
use crate::uac_proto::Uac1AcHeaderDescriptor;
use crate::uac_proto::Uac1AcHeaderDescriptorV;
use crate::uac_proto::Uac1AsHeaderDescriptor;
use crate::uac_proto::Uac1OutputTerminalDescriptor;
use crate::uac_proto::UacFeatureUnitDescriptor;
use crate::uac_proto::UacFeatureUnitDescriptorV;
use crate::uac_proto::UacFormatTypeIContinuousDescriptor;
use crate::uac_proto::UacFormatTypeIContinuousDescriptorV;
use crate::uac_proto::UacInputTerminalDescriptor;
use crate::uac_proto::UacIsoEndpointDescriptor;
use crate::uac_proto::DescriptorUacFormatTypeUnknown;
use crate::uac_proto::DescriptorUacFormatTypeUnknownV;
use crate::uac_proto::DescriptorUacInterfaceUnknown;
use crate::uac_proto::DescriptorUacInterfaceUnknownV;
use crate::uac_proto::UAC_AC_FEATURE_UNIT;
use crate::uac_proto::UAC_AC_HEADER;
use crate::uac_proto::UAC_AC_INPUT_TERMINAL;
use crate::uac_proto::UAC_AC_OUTPUT_TERMINAL;
use crate::uac_proto::UAC_AS_FORMAT_TYPE;
use crate::uac_proto::UAC_AS_GENERAL;
use crate::uac_proto::UAC_FORMAT_TYPE_I_PCM;
use crate::uac_proto::UAC_SUBCLASS_AUDIO_CONTROL;
use crate::uac_proto::UAC_SUBCLASS_AUDIO_STREAMING;
use crate::usb_proto::DescriptorConfig;
use crate::usb_proto::DescriptorCsDevice;
use crate::usb_proto::DescriptorCsDeviceV;
use crate::usb_proto::DescriptorCsEndpoint;
use crate::usb_proto::DescriptorCsEndpointV;
use crate::usb_proto::DescriptorCsInterface;
use crate::usb_proto::DescriptorCsInterfaceV;
use crate::usb_proto::DescriptorEndpoint;
use crate::usb_proto::DescriptorInterface;
use crate::usb_proto::DescriptorTypes;
use crate::usb_proto::DescriptorUnknown;
use crate::usb_proto::DescriptorUnknownV;
use crate::usb_proto::DescV;
use crate::usb_proto::UacDescriptorEndpoint;
use crate::usb_proto::UsbInterfaceAssocDescriptor;
use crate::usb_proto::UsbSsEpCompDescriptor;
use crate::usb_proto::UsbSspIsochEpCompDescriptor;
use crate::usb_proto::CLASS_AUDIO;
use crate::usb_proto::CLASS_VIDEO;
use crate::usb_proto::USB_DT_CONFIG;
use crate::usb_proto::USB_DT_CS_DEVICE;
use crate::usb_proto::USB_DT_CS_ENDPOINT;
use crate::usb_proto::USB_DT_CS_INTERFACE;
use crate::usb_proto::USB_DT_ENDPOINT;
use crate::usb_proto::USB_DT_INTERFACE;
use crate::usb_proto::USB_DT_INTERFACE_ASSOCIATION;
use crate::usb_proto::USB_DT_SS_EP_COMP;
use crate::usb_proto::USB_DT_SSP_ISOCH_EP_COMP;
use crate::uvc_proto::DescriptorUvcFormatFrameBased;
use crate::uvc_proto::DescriptorUvcFormatMjpeg;
use crate::uvc_proto::DescriptorUvcFormatUncompressed;
use crate::uvc_proto::DescriptorUvcFrameFrameBased;
use crate::uvc_proto::DescriptorUvcFrameFrameBasedV;
use crate::uvc_proto::DescriptorUvcFrameMjpeg;
use crate::uvc_proto::DescriptorUvcFrameMjpegV;
use crate::uvc_proto::DescriptorUvcFrameUncompressed;
use crate::uvc_proto::DescriptorUvcFrameUncompressedV;
use crate::uvc_proto::DescriptorUvcInputHeader;
use crate::uvc_proto::DescriptorUvcInputHeaderV;
use crate::uvc_proto::DescriptorUvcVcInterfaceUnknown;
use crate::uvc_proto::DescriptorUvcVcInterfaceUnknownV;
use crate::uvc_proto::DescriptorUvcVsInterfaceUnknown;
use crate::uvc_proto::DescriptorUvcVsInterfaceUnknownV;
use crate::uvc_proto::UvcExtensionUnitDescriptor;
use crate::uvc_proto::UvcExtensionUnitDescriptorV;
use crate::uvc_proto::UvcHeaderDescriptor;
use crate::uvc_proto::UvcHeaderDescriptorV;
use crate::uvc_proto::UvcInputTerminalDescriptor;
use crate::uvc_proto::UvcInputTerminalDescriptorV;
use crate::uvc_proto::UvcOutputTerminalDescriptor;
use crate::uvc_proto::UvcProcessingUnitDescriptor;
use crate::uvc_proto::UvcProcessingUnitDescriptorV;
use crate::uvc_proto::spec_parse_intervals;
use crate::uvc_proto::UVC_SUBCLASS_VIDEO_CONTROL;
use crate::uvc_proto::UVC_SUBCLASS_VIDEO_STREAMING;
use crate::uvc_proto::UVC_VC_EXTENSION_UNIT;
use crate::uvc_proto::UVC_VC_HEADER;
use crate::uvc_proto::UVC_VC_INPUT_TERMINAL;
use crate::uvc_proto::UVC_VC_OUTPUT_TERMINAL;
use crate::uvc_proto::UVC_VC_PROCESSING_UNIT;
use crate::uvc_proto::UVC_VS_FORMAT_FRAME_BASED;
use crate::uvc_proto::UVC_VS_FORMAT_MJPEG;
use crate::uvc_proto::UVC_VS_FORMAT_UNCOMPRESSED;
use crate::uvc_proto::UVC_VS_FRAME_FRAME_BASED;
use crate::uvc_proto::UVC_VS_FRAME_MJPEG;
use crate::uvc_proto::UVC_VS_FRAME_UNCOMPRESSED;
use crate::uvc_proto::UVC_VS_INPUT_HEADER;

verus! {

/// Length consistency for one UVC class-specific interface record: the
/// payload `d` (record bytes after the two-byte header) must be long enough
/// for the typed layout its subtype byte announces.
pub open spec fn uvc_record_ok(d: Seq<u8>, subclass: u8, len: u8) -> bool {
    if subclass == UVC_SUBCLASS_VIDEO_STREAMING {
        d.len() >= 1 && {
            let rest = d.skip(1);
            if d[0] == UVC_VS_INPUT_HEADER {
                rest.len() >= 10 && rest[9] >= 1 && rest.len() >= 10 + rest[9] * rest[0]
            } else if d[0] == UVC_VS_FORMAT_UNCOMPRESSED {
                rest.len() >= 24
            } else if d[0] == UVC_VS_FORMAT_MJPEG {
                rest.len() >= 8
            } else if d[0] == UVC_VS_FRAME_UNCOMPRESSED {
                rest.len() >= 23 && rest.len() >= 23 + 4 * rest[22]
            } else if d[0] == UVC_VS_FRAME_MJPEG {
                rest.len() >= 23 && rest.len() >= 23 + 4 * rest[22]
            } else if d[0] == UVC_VS_FORMAT_FRAME_BASED {
                rest.len() >= 25
            } else if d[0] == UVC_VS_FRAME_FRAME_BASED {
                rest.len() >= 23 && rest.len() >= 23 + 4 * rest[18]
            } else {
                true
            }
        }
    } else if subclass == UVC_SUBCLASS_VIDEO_CONTROL {
        d.len() >= 1 && {
            let rest = d.skip(1);
            if d[0] == UVC_VC_HEADER {
                rest.len() >= 9 && rest.len() >= 9 + rest[8]
            } else if d[0] == UVC_VC_INPUT_TERMINAL {
                len >= 8
            } else if d[0] == UVC_VC_PROCESSING_UNIT {
                len >= 11
            } else if d[0] == UVC_VC_EXTENSION_UNIT {
                rest.len() >= 20 && rest.len() >= 20 + rest[18] && rest.len() >= 21 + rest[18]
                    + rest[19 + rest[18]]
            } else if d[0] == UVC_VC_OUTPUT_TERMINAL {
                rest.len() >= 6
            } else {
                true
            }
        }
    } else {
        true
    }
}

/// Length consistency for one UAC class-specific interface record.
pub open spec fn uac_record_ok(d: Seq<u8>, subclass: u8) -> bool {
    if subclass == UAC_SUBCLASS_AUDIO_CONTROL {
        d.len() >= 1 && {
            let rest = d.skip(1);
            if d[0] == UAC_AC_HEADER {
                rest.len() >= 5 && rest.len() >= 5 + rest[4]
            } else if d[0] == UAC_AC_INPUT_TERMINAL {
                rest.len() >= 9
            } else if d[0] == UAC_AC_FEATURE_UNIT {
                rest.len() >= 3
            } else if d[0] == UAC_AC_OUTPUT_TERMINAL {
                rest.len() >= 6
            } else {
                true
            }
        }
    } else if subclass == UAC_SUBCLASS_AUDIO_STREAMING {
        d.len() >= 1 && {
            let rest = d.skip(1);
            if d[0] == UAC_AS_GENERAL {
                rest.len() >= 4
            } else if d[0] == UAC_AS_FORMAT_TYPE {
                rest.len() >= 1 && {
                    let fd = rest.skip(1);
                    if rest[0] == UAC_FORMAT_TYPE_I_PCM {
                        fd.len() >= 4 && fd.len() >= 4 + 3 * fd[3]
                    } else {
                        true
                    }
                }
            } else {
                true
            }
        }
    } else {
        true
    }
}

/// Length consistency for one record: the payload must be long enough for
/// the typed layout chosen by the descriptor type and the class context.
pub open spec fn record_ok(t: u8, d: Seq<u8>, class: u8, subclass: u8, len: u8) -> bool {
    &&& len >= 2
    &&& d.len() == len - 2
    &&& if t == USB_DT_CONFIG {
        d.len() >= 7
    } else if t == USB_DT_INTERFACE_ASSOCIATION {
        d.len() >= 6
    } else if t == USB_DT_INTERFACE {
        d.len() >= 7
    } else if t == USB_DT_CS_INTERFACE {
        if class == CLASS_VIDEO {
            uvc_record_ok(d, subclass, len)
        } else if class == CLASS_AUDIO {
            uac_record_ok(d, subclass)
        } else {
            true
        }
    } else if t == USB_DT_CS_ENDPOINT {
        if class == CLASS_AUDIO && subclass == UAC_SUBCLASS_AUDIO_STREAMING {
            d.len() >= 5
        } else {
            true
        }
    } else if t == USB_DT_ENDPOINT {
        if class == CLASS_AUDIO && len == 9 {
            true
        } else {
            d.len() >= 5
        }
    } else if t == USB_DT_SS_EP_COMP {
        d.len() >= 4
    } else if t == USB_DT_SSP_ISOCH_EP_COMP {
        d.len() >= 6
    } else {
        true
    }
}

/// The typed record a UVC class-specific interface payload parses to.
pub open spec fn spec_uvc_iface_factory(d: Seq<u8>, subclass: u8, len: u8) -> DescV {
    if subclass == UVC_SUBCLASS_VIDEO_STREAMING {
        let rest = d.skip(1);
        if d[0] == UVC_VS_INPUT_HEADER {
            DescV::UvcInputHeader(
                DescriptorUvcInputHeaderV {
                    w_total_length: spec_u16_le(rest[1], rest[2]),
                    b_endpoint_address: rest[3],
                    bm_info: rest[4],
                    b_terminal_link: rest[5],
                    b_still_capture_method: rest[6],
                    b_trigger_support: rest[7],
                    b_trigger_usage: rest[8],
                    b_control_size: rest[9],
                    bma_controls: rest.subrange(10, 10 + rest[9] * rest[0]),
                },
            )
        } else if d[0] == UVC_VS_FORMAT_UNCOMPRESSED {
            DescV::DescriptorUvcFormatUncompressed(
                DescriptorUvcFormatUncompressed {
                    b_format_index: rest[0],
                    b_num_frame_descriptors: rest[1],
                    guid_format: spec_u128_le(rest, 2),
                    b_bits_per_pixel: rest[18],
                    b_default_frame_index: rest[19],
                    b_aspect_ratio_x: rest[20],
                    b_aspect_ratio_y: rest[21],
                    bm_interface_flags: rest[22],
                    b_copy_protect: rest[23],
                },
            )
        } else if d[0] == UVC_VS_FORMAT_MJPEG {
            DescV::DescriptorUvcFormatMjpeg(DescriptorUvcFormatMjpeg::spec_parse(rest))
        } else if d[0] == UVC_VS_FRAME_UNCOMPRESSED {
            DescV::DescriptorUvcFrameUncompressed(
                DescriptorUvcFrameUncompressedV {
                    b_frame_index: rest[0],
                    bm_capabilities: rest[1],
                    w_width: spec_u16_le(rest[2], rest[3]),
                    w_height: spec_u16_le(rest[4], rest[5]),
                    dw_min_bit_rate: spec_u32_le(rest[6], rest[7], rest[8], rest[9]),
                    dw_max_bit_rate: spec_u32_le(rest[10], rest[11], rest[12], rest[13]),
                    dw_max_video_frame_buffer_size: spec_u32_le(
                        rest[14],
                        rest[15],
                        rest[16],
                        rest[17],
                    ),
                    dw_default_frame_interval: spec_u32_le(rest[18], rest[19], rest[20], rest[21]),
                    dw_frame_interval: spec_parse_intervals(rest, 23, rest[22] as nat),
                },
            )
        } else if d[0] == UVC_VS_FRAME_MJPEG {
            DescV::DescriptorUvcFrameMjpeg(
                DescriptorUvcFrameMjpegV {
                    b_frame_index: rest[0],
                    bm_capabilities: rest[1],
                    w_width: spec_u16_le(rest[2], rest[3]),
                    w_height: spec_u16_le(rest[4], rest[5]),
                    dw_min_bit_rate: spec_u32_le(rest[6], rest[7], rest[8], rest[9]),
                    dw_max_bit_rate: spec_u32_le(rest[10], rest[11], rest[12], rest[13]),
                    dw_max_video_frame_buffer_size: spec_u32_le(
                        rest[14],
                        rest[15],
                        rest[16],
                        rest[17],
                    ),
                    dw_default_frame_interval: spec_u32_le(rest[18], rest[19], rest[20], rest[21]),
                    dw_frame_interval: spec_parse_intervals(rest, 23, rest[22] as nat),
                },
            )
        } else if d[0] == UVC_VS_FORMAT_FRAME_BASED {
            DescV::UvcFormatFrameBased(
                DescriptorUvcFormatFrameBased {
                    b_format_index: rest[0],
                    b_num_frame_descriptors: rest[1],
                    guid_format: spec_u128_le(rest, 2),
                    b_bits_per_pixel: rest[18],
                    b_default_frame_index: rest[19],
                    b_aspect_ratio_x: rest[20],
                    b_aspect_ratio_y: rest[21],
                    bm_interface_flags: rest[22],
                    b_copy_protect: rest[23],
                    b_variable_size: rest[24],
                },
            )
        } else if d[0] == UVC_VS_FRAME_FRAME_BASED {
            DescV::UvcFrameFrameBased(
                DescriptorUvcFrameFrameBasedV {
                    b_frame_index: rest[0],
                    bm_capabilities: rest[1],
                    w_width: spec_u16_le(rest[2], rest[3]),
                    w_height: spec_u16_le(rest[4], rest[5]),
                    dw_min_bit_rate: spec_u32_le(rest[6], rest[7], rest[8], rest[9]),
                    dw_max_bit_rate: spec_u32_le(rest[10], rest[11], rest[12], rest[13]),
                    dw_default_frame_interval: spec_u32_le(rest[14], rest[15], rest[16], rest[17]),
                    dw_bytes_per_line: spec_u32_le(rest[19], rest[20], rest[21], rest[22]),
                    dw_frame_interval: spec_parse_intervals(rest, 23, rest[18] as nat),
                },
            )
        } else {
            DescV::DescriptorUvcVsInterfaceUnknown(
                DescriptorUvcVsInterfaceUnknownV { iface_subclass: d[0], bytes: d.skip(1) },
            )
        }
    } else if subclass == UVC_SUBCLASS_VIDEO_CONTROL {
        let rest = d.skip(1);
        if d[0] == UVC_VC_HEADER {
            DescV::UvcHeaderDescriptor(
                UvcHeaderDescriptorV {
                    bcd_uvc: spec_u16_le(rest[0], rest[1]),
                    w_total_length: spec_u16_le(rest[2], rest[3]),
                    dw_clock_frequency: spec_u32_le(rest[4], rest[5], rest[6], rest[7]),
                    b_in_collection: rest[8],
                    ba_interface_nr: rest.subrange(9, 9 + rest[8]),
                },
            )
        } else if d[0] == UVC_VC_INPUT_TERMINAL {
            DescV::UvcVcInputTerminal(
                UvcInputTerminalDescriptorV {
                    b_terminal_id: rest[0],
                    w_terminal_type: spec_u16_le(rest[1], rest[2]),
                    b_assoc_terminal: rest[3],
                    i_terminal: rest[4],
                    xtra: rest.subrange(5, rest.len() as int),
                },
            )
        } else if d[0] == UVC_VC_PROCESSING_UNIT {
            DescV::UvcVcProcessingUnit(
                UvcProcessingUnitDescriptorV {
                    b_unit_id: rest[0],
                    b_source_id: rest[1],
                    w_max_multiplier: spec_u16_le(rest[2], rest[3]),
                    b_control_size: rest[4],
                    bm_controls: spec_u16_le(rest[5], rest[6]),
                    i_processing: rest[7],
                    xtra: rest.subrange(8, rest.len() as int),
                },
            )
        } else if d[0] == UVC_VC_EXTENSION_UNIT {
            DescV::UvcVcExtensionUnit(
                UvcExtensionUnitDescriptorV {
                    b_unit_id: rest[0],
                    guid_extension_code: spec_u128_le(rest, 1),
                    b_num_controls: rest[17],
                    b_nr_in_pins: rest[18],
                    ba_source_id: rest.subrange(19, 19 + rest[18]),
                    b_control_size: rest[19 + rest[18]],
                    bm_controls: rest.subrange(
                        20 + rest[18],
                        20 + rest[18] + rest[19 + rest[18]],
                    ),
                    i_extension: rest[20 + rest[18] + rest[19 + rest[18]]],
                },
            )
        } else if d[0] == UVC_VC_OUTPUT_TERMINAL {
            DescV::UvcVcOutputTerminal(UvcOutputTerminalDescriptor::spec_parse(rest))
        } else {
            DescV::DescriptorUvcVcInterfaceUnknown(
                DescriptorUvcVcInterfaceUnknownV { iface_subclass: d[0], bytes: d.skip(1) },
            )
        }
    } else {
        DescV::CsInterface(DescriptorCsInterfaceV { bytes: d })
    }
}

/// The typed record a UAC format-type payload (after the subtype byte)
/// parses to.
pub open spec fn spec_uac_fmt_factory(rest: Seq<u8>) -> DescV {
    let fd = rest.skip(1);
    if rest[0] == UAC_FORMAT_TYPE_I_PCM {
        DescV::UacFormatTypeI(
            UacFormatTypeIContinuousDescriptorV {
                b_nr_channels: fd[0],
                b_subframe_size: fd[1],
                b_bit_resolution: fd[2],
                b_sam_freq_type: fd[3],
                t_sam_freq: UacFormatTypeIContinuousDescriptor::spec_parse_freqs(fd),
            },
        )
    } else {
        DescV::UacFormatTypeUnknown(
            DescriptorUacFormatTypeUnknownV { format_type: rest[0], bytes: fd },
        )
    }
}

/// The typed record a UAC class-specific interface payload parses to.
pub open spec fn spec_uac_iface_factory(d: Seq<u8>, subclass: u8) -> DescV {
    if subclass == UAC_SUBCLASS_AUDIO_CONTROL {
        let rest = d.skip(1);
        if d[0] == UAC_AC_HEADER {
            DescV::UacAcHeader(
                Uac1AcHeaderDescriptorV {
                    bcd_adc: spec_u16_le(rest[0], rest[1]),
                    w_total_length: spec_u16_le(rest[2], rest[3]),
                    b_in_collection: rest[4],
                    ba_interface_nr: rest.subrange(5, 5 + rest[4]),
                },
            )
        } else if d[0] == UAC_AC_INPUT_TERMINAL {
            DescV::UacInputTerminal(UacInputTerminalDescriptor::spec_parse(rest))
        } else if d[0] == UAC_AC_FEATURE_UNIT {
            DescV::UacFeatureUnit(
                UacFeatureUnitDescriptorV {
                    b_unit_id: rest[0],
                    b_source_id: rest[1],
                    b_control_size: rest[2],
                    bma_controls: rest.subrange(3, rest.len() as int),
                },
            )
        } else if d[0] == UAC_AC_OUTPUT_TERMINAL {
            DescV::UacOutputTerminal(Uac1OutputTerminalDescriptor::spec_parse(rest))
        } else {
            DescV::DescriptorUacInterfaceUnknown(
                DescriptorUacInterfaceUnknownV { iface_subclass: d[0], bytes: d.skip(1) },
            )
        }
    } else if subclass == UAC_SUBCLASS_AUDIO_STREAMING {
        let rest = d.skip(1);
        if d[0] == UAC_AS_GENERAL {
            DescV::UacAsGeneral(Uac1AsHeaderDescriptor::spec_parse(rest))
        } else if d[0] == UAC_AS_FORMAT_TYPE {
            spec_uac_fmt_factory(rest)
        } else {
            DescV::DescriptorUacInterfaceUnknown(
                DescriptorUacInterfaceUnknownV { iface_subclass: d[0], bytes: d.skip(1) },
            )
        }
    } else {
        DescV::CsInterface(DescriptorCsInterfaceV { bytes: d })
    }
}

/// The typed record a class-specific endpoint payload parses to.
pub open spec fn spec_uac_ep_factory(d: Seq<u8>, subclass: u8) -> DescV {
    if subclass == UAC_SUBCLASS_AUDIO_STREAMING {
        DescV::UacIsoEndpointDescriptor(UacIsoEndpointDescriptor::spec_parse(d))
    } else {
        DescV::CsEndpoint(DescriptorCsEndpointV { bytes: d })
    }
}

/// The typed record one raw record parses to, given its descriptor type,
/// payload and the class context. Unrecognized types and subtypes become
/// opaque variants that keep the payload verbatim.
pub open spec fn spec_node_factory(t: u8, d: Seq<u8>, class: u8, subclass: u8, len: u8) -> DescV {
    if t == USB_DT_CS_DEVICE {
        DescV::CsDevice(DescriptorCsDeviceV { bytes: d })
    } else if t == USB_DT_CONFIG {
        DescV::Config(DescriptorConfig::spec_parse(d))
    } else if t == USB_DT_INTERFACE_ASSOCIATION {
        DescV::InterfaceAssociation(UsbInterfaceAssocDescriptor::spec_parse(d))
    } else if t == USB_DT_INTERFACE {
        DescV::Interface(DescriptorInterface::spec_parse(d))
    } else if t == USB_DT_CS_INTERFACE {
        if class == CLASS_VIDEO {
            spec_uvc_iface_factory(d, subclass, len)
        } else if class == CLASS_AUDIO {
            spec_uac_iface_factory(d, subclass)
        } else {
            DescV::CsInterface(DescriptorCsInterfaceV { bytes: d })
        }
    } else if t == USB_DT_CS_ENDPOINT {
        if class == CLASS_AUDIO {
            spec_uac_ep_factory(d, subclass)
        } else {
            DescV::CsEndpoint(DescriptorCsEndpointV { bytes: d })
        }
    } else if t == USB_DT_ENDPOINT {
        if class == CLASS_AUDIO && len == 9 {
            DescV::UacEndpoint(UacDescriptorEndpoint::spec_parse(d))
        } else {
            DescV::Endpoint(DescriptorEndpoint::spec_parse(d))
        }
    } else if t == USB_DT_SS_EP_COMP {
        DescV::SsEpComp(UsbSsEpCompDescriptor::spec_parse(d))
    } else if t == USB_DT_SSP_ISOCH_EP_COMP {
        DescV::SspIsochEpComp(UsbSspIsochEpCompDescriptor::spec_parse(d))
    } else {
        DescV::Unknown(DescriptorUnknownV { desc_type: t, bytes: d })
    }
}

/// The interface class in effect after this record: an interface record
/// installs its own class, every other record keeps the current one.
pub open spec fn spec_class_after(t: u8, d: Seq<u8>, class: u8) -> u8 {
    if t == USB_DT_INTERFACE {
        d[3]
    } else {
        class
    }
}

/// The interface subclass in effect after this record.
pub open spec fn spec_subclass_after(t: u8, d: Seq<u8>, subclass: u8) -> u8 {
    if t == USB_DT_INTERFACE {
        d[4]
    } else {
        subclass
    }
}

/// Instantiates a video class-specific interface record from its payload.
fn uvc_iface_factory(data: &[u8], subclass: u8, len: u8) -> (r: DescriptorTypes)
    requires
        len >= 2,
        data@.len() == len - 2,
        uvc_record_ok(data@, subclass, len),
    ensures
        r@ == spec_uvc_iface_factory(data@, subclass, len),
        r@.wf(),
{
    if subclass == UVC_SUBCLASS_VIDEO_STREAMING {
        let iface_subclass = data[0];
        let rest = &data[1..data.len()];
        proof {
            assert(rest@ =~= data@.skip(1));
        }
        if iface_subclass == UVC_VS_INPUT_HEADER {
            DescriptorTypes::UvcInputHeader(DescriptorUvcInputHeader::deserialize(rest))
        } else if iface_subclass == UVC_VS_FORMAT_UNCOMPRESSED {
            DescriptorTypes::DescriptorUvcFormatUncompressed(
                DescriptorUvcFormatUncompressed::deserialize(rest),
            )
        } else if iface_subclass == UVC_VS_FORMAT_MJPEG {
            DescriptorTypes::DescriptorUvcFormatMjpeg(DescriptorUvcFormatMjpeg::deserialize(rest))
        } else if iface_subclass == UVC_VS_FRAME_UNCOMPRESSED {
            DescriptorTypes::DescriptorUvcFrameUncompressed(
                DescriptorUvcFrameUncompressed::deserialize(rest),
            )
        } else if iface_subclass == UVC_VS_FRAME_MJPEG {
            DescriptorTypes::DescriptorUvcFrameMjpeg(DescriptorUvcFrameMjpeg::deserialize(rest))
        } else if iface_subclass == UVC_VS_FORMAT_FRAME_BASED {
            DescriptorTypes::UvcFormatFrameBased(DescriptorUvcFormatFrameBased::deserialize(rest))
        } else if iface_subclass == UVC_VS_FRAME_FRAME_BASED {
            DescriptorTypes::UvcFrameFrameBased(DescriptorUvcFrameFrameBased::deserialize(rest))
        } else {
            let bytes = copy_range(rest, 0, rest.len());
            proof {
                assert(bytes@ =~= data@.skip(1));
            }
            DescriptorTypes::DescriptorUvcVsInterfaceUnknown(
                DescriptorUvcVsInterfaceUnknown { iface_subclass, bytes },
            )
        }
    } else if subclass == UVC_SUBCLASS_VIDEO_CONTROL {
        let iface_subclass = data[0];
        let rest = &data[1..data.len()];
        proof {
            assert(rest@ =~= data@.skip(1));
        }
        if iface_subclass == UVC_VC_HEADER {
            DescriptorTypes::UvcHeaderDescriptor(UvcHeaderDescriptor::deserialize(rest))
        } else if iface_subclass == UVC_VC_INPUT_TERMINAL {
            DescriptorTypes::UvcVcInputTerminal(UvcInputTerminalDescriptor::deserialize(rest, len))
        } else if iface_subclass == UVC_VC_PROCESSING_UNIT {
            DescriptorTypes::UvcVcProcessingUnit(
                UvcProcessingUnitDescriptor::deserialize(rest, len),
            )
        } else if iface_subclass == UVC_VC_EXTENSION_UNIT {
            DescriptorTypes::UvcVcExtensionUnit(UvcExtensionUnitDescriptor::deserialize(rest))
        } else if iface_subclass == UVC_VC_OUTPUT_TERMINAL {
            DescriptorTypes::UvcVcOutputTerminal(UvcOutputTerminalDescriptor::deserialize(rest))
        } else {
            let bytes = copy_range(rest, 0, rest.len());
            proof {
                assert(bytes@ =~= data@.skip(1));
            }
            DescriptorTypes::DescriptorUvcVcInterfaceUnknown(
                DescriptorUvcVcInterfaceUnknown { iface_subclass, bytes },
            )
        }
    } else {
        let bytes = copy_range(data, 0, data.len());
        proof {
            assert(bytes@ =~= data@);
        }
        DescriptorTypes::CsInterface(DescriptorCsInterface { bytes })
    }
}

/// Instantiates a UAC format-type record from the payload after the
/// subtype byte.
fn uac_fmt_factory(rest: &[u8]) -> (r: DescriptorTypes)
    requires
        rest@.len() >= 1,
        rest@.len() <= 252,
        rest@[0] == UAC_FORMAT_TYPE_I_PCM ==> rest@.skip(1).len() >= 4 && rest@.skip(1).len() >= 4
            + 3 * rest@.skip(1)[3],
    ensures
        r@ == spec_uac_fmt_factory(rest@),
        r@.wf(),
{
    let format_type = rest[0];
    let fd = &rest[1..rest.len()];
    proof {
        assert(fd@ =~= rest@.skip(1));
    }
    if format_type == UAC_FORMAT_TYPE_I_PCM {
        match UacFormatTypeIContinuousDescriptor::deserialize(fd) {
            Ok(desc) => DescriptorTypes::UacFormatTypeI(desc),
            Err(_) => {
                let bytes = copy_range(fd, 0, fd.len());
                DescriptorTypes::UacFormatTypeUnknown(
                    DescriptorUacFormatTypeUnknown { format_type, bytes },
                )
            },
        }
    } else {
        let bytes = copy_range(fd, 0, fd.len());
        proof {
            assert(bytes@ =~= rest@.skip(1));
        }
        DescriptorTypes::UacFormatTypeUnknown(DescriptorUacFormatTypeUnknown { format_type, bytes })
    }
}

/// Instantiates a UAC class-specific interface record from its payload.
fn uac_iface_factory(data: &[u8], subclass: u8) -> (r: DescriptorTypes)
    requires
        data@.len() <= 253,
        uac_record_ok(data@, subclass),
    ensures
        r@ == spec_uac_iface_factory(data@, subclass),
        r@.wf(),
{
    if subclass == UAC_SUBCLASS_AUDIO_CONTROL {
        let iface_subclass = data[0];
        let rest = &data[1..data.len()];
        proof {
            assert(rest@ =~= data@.skip(1));
        }
        if iface_subclass == UAC_AC_HEADER {
            DescriptorTypes::UacAcHeader(Uac1AcHeaderDescriptor::deserialize(rest))
        } else if iface_subclass == UAC_AC_INPUT_TERMINAL {
            DescriptorTypes::UacInputTerminal(UacInputTerminalDescriptor::deserialize(rest))
        } else if iface_subclass == UAC_AC_FEATURE_UNIT {
            match UacFeatureUnitDescriptor::deserialize(rest) {
                Ok(desc) => DescriptorTypes::UacFeatureUnit(desc),
                Err(_) => {
                    let bytes = copy_range(rest, 0, rest.len());
                    DescriptorTypes::DescriptorUacInterfaceUnknown(
                        DescriptorUacInterfaceUnknown { iface_subclass, bytes },
                    )
                },
            }
        } else if iface_subclass == UAC_AC_OUTPUT_TERMINAL {
            DescriptorTypes::UacOutputTerminal(Uac1OutputTerminalDescriptor::deserialize(rest))
        } else {
            let bytes = copy_range(rest, 0, rest.len());
            proof {
                assert(bytes@ =~= data@.skip(1));
            }
            DescriptorTypes::DescriptorUacInterfaceUnknown(
                DescriptorUacInterfaceUnknown { iface_subclass, bytes },
            )
        }
    } else if subclass == UAC_SUBCLASS_AUDIO_STREAMING {
        let iface_subclass = data[0];
        let rest = &data[1..data.len()];
        proof {
            assert(rest@ =~= data@.skip(1));
        }
        if iface_subclass == UAC_AS_GENERAL {
            DescriptorTypes::UacAsGeneral(Uac1AsHeaderDescriptor::deserialize(rest))
        } else if iface_subclass == UAC_AS_FORMAT_TYPE {
            uac_fmt_factory(rest)
        } else {
            let bytes = copy_range(rest, 0, rest.len());
            proof {
                assert(bytes@ =~= data@.skip(1));
            }
            DescriptorTypes::DescriptorUacInterfaceUnknown(
                DescriptorUacInterfaceUnknown { iface_subclass, bytes },
            )
        }
    } else {
        let bytes = copy_range(data, 0, data.len());
        proof {
            assert(bytes@ =~= data@);
        }
        DescriptorTypes::CsInterface(DescriptorCsInterface { bytes })
    }
}

/// Instantiates a class-specific endpoint record from its payload.
fn uac_ep_factory(data: &[u8], subclass: u8) -> (r: DescriptorTypes)
    requires
        data@.len() <= 253,
        subclass == UAC_SUBCLASS_AUDIO_STREAMING ==> data@.len() >= 5,
    ensures
        r@ == spec_uac_ep_factory(data@, subclass),
        r@.wf(),
{
    if subclass == UAC_SUBCLASS_AUDIO_STREAMING {
        match UacIsoEndpointDescriptor::deserialize(data) {
            Ok(desc) => DescriptorTypes::UacIsoEndpointDescriptor(desc),
            Err(_) => {
                let bytes = copy_range(data, 0, data.len());
                DescriptorTypes::CsEndpoint(DescriptorCsEndpoint { bytes })
            },
        }
    } else {
        let bytes = copy_range(data, 0, data.len());
        proof {
            assert(bytes@ =~= data@);
        }
        DescriptorTypes::CsEndpoint(DescriptorCsEndpoint { bytes })
    }
}

/// Instantiates the typed record for one raw record, updating the running
/// class context when the record is an interface.
fn node_factory(desc_type: u8, data: &[u8], class: &mut u8, subclass: &mut u8, len: u8) -> (r:
    DescriptorTypes)
    requires
        record_ok(desc_type, data@, *old(class), *old(subclass), len),
    ensures
        r@ == spec_node_factory(desc_type, data@, *old(class), *old(subclass), len),
        r@.wf(),
        *final(class) == spec_class_after(desc_type, data@, *old(class)),
        *final(subclass) == spec_subclass_after(desc_type, data@, *old(subclass)),
{
    if desc_type == USB_DT_CS_DEVICE {
        let bytes = copy_range(data, 0, data.len());
        proof {
            assert(bytes@ =~= data@);
        }
        DescriptorTypes::CsDevice(DescriptorCsDevice { bytes })
    } else if desc_type == USB_DT_CONFIG {
        DescriptorTypes::Config(DescriptorConfig::deserialize(data))
    } else if desc_type == USB_DT_INTERFACE_ASSOCIATION {
        DescriptorTypes::InterfaceAssociation(UsbInterfaceAssocDescriptor::deserialize(data))
    } else if desc_type == USB_DT_INTERFACE {
        let iface = DescriptorInterface::deserialize(data);
        *class = iface.b_interface_class;
        *subclass = iface.b_interface_sub_class;
        DescriptorTypes::Interface(iface)
    } else if desc_type == USB_DT_CS_INTERFACE {
        if *class == CLASS_VIDEO {
            uvc_iface_factory(data, *subclass, len)
        } else if *class == CLASS_AUDIO {
            uac_iface_factory(data, *subclass)
        } else {
            let bytes = copy_range(data, 0, data.len());
            proof {
                assert(bytes@ =~= data@);
            }
            DescriptorTypes::CsInterface(DescriptorCsInterface { bytes })
        }
    } else if desc_type == USB_DT_CS_ENDPOINT {
        if *class == CLASS_AUDIO {
            uac_ep_factory(data, *subclass)
        } else {
            let bytes = copy_range(data, 0, data.len());
            proof {
                assert(bytes@ =~= data@);
            }
            DescriptorTypes::CsEndpoint(DescriptorCsEndpoint { bytes })
        }
    } else if desc_type == USB_DT_ENDPOINT {
        if *class == CLASS_AUDIO && len == 9 {
            DescriptorTypes::UacEndpoint(UacDescriptorEndpoint::deserialize(data))
        } else {
            DescriptorTypes::Endpoint(DescriptorEndpoint::deserialize(data))
        }
    } else if desc_type == USB_DT_SS_EP_COMP {
        DescriptorTypes::SsEpComp(UsbSsEpCompDescriptor::deserialize(data))
    } else if desc_type == USB_DT_SSP_ISOCH_EP_COMP {
        DescriptorTypes::SspIsochEpComp(UsbSspIsochEpCompDescriptor::deserialize(data))
    } else {
        let bytes = copy_range(data, 0, data.len());
        proof {
            assert(bytes@ =~= data@);
        }
        DescriptorTypes::Unknown(DescriptorUnknown { desc_type, bytes })
    }
}

/// Whether the stream splits into records that the typed decoders accept:
/// at each record boundary either nothing remains, or a full header is
/// present with a self-consistent record length. A truncated final record
/// (declared length exceeding what remains) ends the parse early and is
/// accepted.
pub open spec fn spec_parse_wf(b: Seq<u8>, class: u8, subclass: u8) -> bool
    decreases b.len(),
{
    if b.len() == 0 {
        true
    } else if b.len() < 2 {
        false
    } else {
        let len = b[0];
        &&& len >= 2
        &&& (b.len() >= len ==> {
            let d = b.subrange(2, len as int);
            &&& record_ok(b[1], d, class, subclass, len)
            &&& spec_parse_wf(
                b.skip(len as int),
                spec_class_after(b[1], d, class),
                spec_subclass_after(b[1], d, subclass),
            )
        })
    }
}

/// The records of the stream, in order; parsing stops at a truncated final
/// record.
pub open spec fn spec_parse_nodes(b: Seq<u8>, class: u8, subclass: u8) -> Seq<DescV>
    decreases b.len(),
{
    if b.len() < 2 || b[0] < 2 || b.len() < b[0] {
        Seq::empty()
    } else {
        let len = b[0];
        let d = b.subrange(2, len as int);
        seq![spec_node_factory(b[1], d, class, subclass, len)] + spec_parse_nodes(
            b.skip(len as int),
            spec_class_after(b[1], d, class),
            spec_subclass_after(b[1], d, subclass),
        )
    }
}

/// Leaf tree nodes around a run of parsed records.
pub open spec fn leaves(s: Seq<DescV>) -> Seq<NodeV> {
    Seq::new(s.len(), |i: int| NodeV { parsed: s[i], children: Seq::empty() })
}

/// Parses the whole stream into a flat tree: a `Root` node whose children
/// are the records, in wire order, each without children of its own.
#[verifier::spinoff_prover]
#[verifier::rlimit(100)]
pub fn parse_list(buffer: &[u8]) -> (r: TreeNode)
    requires
        spec_parse_wf(buffer@, 0, 0),
    ensures
        r@.parsed == DescV::Root,
        r@.children == leaves(spec_parse_nodes(buffer@, 0, 0)),
        r@.tree_wf(),
{
    let mut root = TreeNode::new();
    let mut class: u8 = 0;
    let mut subclass: u8 = 0;
    let mut off: usize = 0;
    let buf_len: usize = buffer.len();
    proof {
        assert(buffer@.skip(0) =~= buffer@);
        assert(leaves(spec_parse_nodes(buffer@, 0, 0)) =~= root@.children + leaves(
            spec_parse_nodes(buffer@.skip(0), 0, 0),
        ));
    }
    while off < buf_len
        invariant
            off <= buf_len == buffer@.len(),
            spec_parse_wf(buffer@.skip(off as int), class, subclass),
            root@.parsed == DescV::Root,
            root@.tree_wf(),
            leaves(spec_parse_nodes(buffer@, 0, 0)) == root@.children + leaves(
                spec_parse_nodes(buffer@.skip(off as int), class, subclass),
            ),
        decreases buf_len - off,
    {
        let ghost rem = buffer@.skip(off as int);
        proof {
            assert(rem.len() >= 2);
            assert(rem[0] == buffer@[off as int]);
            assert(rem[1] == buffer@[off as int + 1]);
        }
        let len8 = buffer[off];
        let desc_type = buffer[off + 1];
        let len = len8 as usize;
        if buf_len - off < len {
            // Truncated final record: keep the tree built so far.
            proof {
                assert(spec_parse_nodes(rem, class, subclass) =~= Seq::<DescV>::empty());
                assert(leaves(Seq::<DescV>::empty()) =~= Seq::<NodeV>::empty());
                assert(root@.children =~= leaves(spec_parse_nodes(buffer@, 0, 0)));
            }
            return root;
        }
        let data = &buffer[off + 2..off + len];
        proof {
            assert(data@ =~= rem.subrange(2, len8 as int));
        }
        let ghost class0 = class;
        let ghost subclass0 = subclass;
        let node = node_factory(desc_type, data, &mut class, &mut subclass, len8);
        let child = TreeNode { children: Vec::new(), parsed: node };
        proof {
            assert(child.children@ =~= Seq::<TreeNode>::empty());
            assert(child@.children =~= Seq::<NodeV>::empty());
        }
        let ghost old_children = root.children@;
        root.children.push(child);
        proof {
            lemma_children_view_push(old_children, child);
            let nodes_rem = spec_parse_nodes(rem, class0, subclass0);
            let nodes_next = spec_parse_nodes(buffer@.skip(off + len), class, subclass);
            assert(rem.skip(len8 as int) =~= buffer@.skip(off + len));
            assert(nodes_rem == seq![
                spec_node_factory(desc_type, rem.subrange(2, len8 as int), class0, subclass0, len8),
            ] + nodes_next);
            assert(leaves(nodes_rem) =~= seq![node_view(child)] + leaves(nodes_next));
            assert(child@.tree_wf());
            assert(root@.children == children_view(old_children).push(child@));
            assert forall|i: int| 0 <= i < root@.children.len() implies (
            #[trigger] root@.children[i]).tree_wf() by {
                if i < children_view(old_children).len() {
                    assert(root@.children[i] == children_view(old_children)[i]);
                }
            }
            assert(root@.tree_wf());
            assert(leaves(spec_parse_nodes(buffer@, 0, 0)) =~= root@.children + leaves(
                nodes_next,
            ));
        }
        off = off + len;
    }
    proof {
        assert(buffer@.skip(off as int).len() == 0);
        assert(spec_parse_nodes(buffer@.skip(off as int), class, subclass) =~= Seq::<
            DescV,
        >::empty());
        assert(root@.children =~= leaves(spec_parse_nodes(buffer@, 0, 0)));
    }
    root
}


/// Checks the length consistency of one UVC class-specific interface
/// payload, mirroring `uvc_record_ok`.
fn check_uvc_record(data: &[u8], subclass: u8, len: u8) -> (b: bool)
    ensures
        b == uvc_record_ok(data@, subclass, len),
{
    let dlen = data.len();
    proof {
        if dlen >= 1 {
            assert(data@.skip(1).len() == dlen - 1);
        }
    }
    if subclass == UVC_SUBCLASS_VIDEO_STREAMING {
        if dlen < 1 {
            return false;
        }
        let st = data[0];
        if st == UVC_VS_INPUT_HEADER {
            if dlen < 11 {
                return false;
            }
            proof {
                assert(data@.skip(1)[9] == data@[10]);
                assert(data@.skip(1)[0] == data@[1]);
            }
            proof {
                assert(data@[10] * data@[1] <= 255 * 255) by (nonlinear_arith)
                    requires
                        data@[10] <= 255,
                        data@[1] <= 255,
                ;
            }
            let prod = data[10] as usize * data[1] as usize;
            data[10] >= 1 && dlen - 1 >= 10 + prod
        } else if st == UVC_VS_FORMAT_UNCOMPRESSED {
            dlen >= 25
        } else if st == UVC_VS_FORMAT_MJPEG {
            dlen >= 9
        } else if st == UVC_VS_FRAME_UNCOMPRESSED || st == UVC_VS_FRAME_MJPEG {
            if dlen < 24 {
                return false;
            }
            proof {
                assert(data@.skip(1)[22] == data@[23]);
            }
            dlen - 1 >= 23 + 4 * (data[23] as usize)
        } else if st == UVC_VS_FORMAT_FRAME_BASED {
            dlen >= 26
        } else if st == UVC_VS_FRAME_FRAME_BASED {
            if dlen < 24 {
                return false;
            }
            proof {
                assert(data@.skip(1)[18] == data@[19]);
            }
            dlen - 1 >= 23 + 4 * (data[19] as usize)
        } else {
            true
        }
    } else if subclass == UVC_SUBCLASS_VIDEO_CONTROL {
        if dlen < 1 {
            return false;
        }
        let st = data[0];
        if st == UVC_VC_HEADER {
            if dlen < 10 {
                return false;
            }
            proof {
                assert(data@.skip(1)[8] == data@[9]);
            }
            dlen - 1 >= 9 + (data[9] as usize)
        } else if st == UVC_VC_INPUT_TERMINAL {
            len >= 8
        } else if st == UVC_VC_PROCESSING_UNIT {
            len >= 11
        } else if st == UVC_VC_EXTENSION_UNIT {
            if dlen < 21 {
                return false;
            }
            proof {
                assert(data@.skip(1)[18] == data@[19]);
            }
            let pins = data[19] as usize;
            if dlen < 21 + pins {
                return false;
            }
            proof {
                assert(data@.skip(1)[19 + data@[19]] == data@[20 + data@[19]]);
            }
            let cs2 = data[20 + pins] as usize;
            dlen - 1 >= 21 + pins + cs2
        } else if st == UVC_VC_OUTPUT_TERMINAL {
            dlen >= 7
        } else {
            true
        }
    } else {
        true
    }
}

/// Checks the length consistency of one UAC class-specific interface
/// payload, mirroring `uac_record_ok`.
fn check_uac_record(data: &[u8], subclass: u8) -> (b: bool)
    ensures
        b == uac_record_ok(data@, subclass),
{
    let dlen = data.len();
    proof {
        if dlen >= 1 {
            assert(data@.skip(1).len() == dlen - 1);
        }
    }
    if subclass == UAC_SUBCLASS_AUDIO_CONTROL {
        if dlen < 1 {
            return false;
        }
        let st = data[0];
        if st == UAC_AC_HEADER {
            if dlen < 6 {
                return false;
            }
            proof {
                assert(data@.skip(1)[4] == data@[5]);
            }
            dlen - 1 >= 5 + (data[5] as usize)
        } else if st == UAC_AC_INPUT_TERMINAL {
            dlen >= 10
        } else if st == UAC_AC_FEATURE_UNIT {
            dlen >= 4
        } else if st == UAC_AC_OUTPUT_TERMINAL {
            dlen >= 7
        } else {
            true
        }
    } else if subclass == UAC_SUBCLASS_AUDIO_STREAMING {
        if dlen < 1 {
            return false;
        }
        let st = data[0];
        if st == UAC_AS_GENERAL {
            dlen >= 5
        } else if st == UAC_AS_FORMAT_TYPE {
            if dlen < 2 {
                return false;
            }
            proof {
                assert(data@.skip(1)[0] == data@[1]);
                assert(data@.skip(1).skip(1) =~= data@.skip(2));
                assert(data@.skip(2).len() == dlen - 2);
            }
            if data[1] == UAC_FORMAT_TYPE_I_PCM {
                if dlen < 6 {
                    return false;
                }
                proof {
                    assert(data@.skip(2)[3] == data@[5]);
                }
                dlen - 2 >= 4 + 3 * (data[5] as usize)
            } else {
                true
            }
        } else {
            true
        }
    } else {
        true
    }
}

/// Checks the length consistency of one raw record against the typed
/// layout its descriptor type and class context select, mirroring
/// `record_ok`.
fn check_record(t: u8, data: &[u8], class: u8, subclass: u8, len: u8) -> (b: bool)
    requires
        len >= 2,
        data@.len() == len - 2,
    ensures
        b == record_ok(t, data@, class, subclass, len),
{
    if t == USB_DT_CONFIG {
        data.len() >= 7
    } else if t == USB_DT_INTERFACE_ASSOCIATION {
        data.len() >= 6
    } else if t == USB_DT_INTERFACE {
        data.len() >= 7
    } else if t == USB_DT_CS_INTERFACE {
        if class == CLASS_VIDEO {
            check_uvc_record(data, subclass, len)
        } else if class == CLASS_AUDIO {
            check_uac_record(data, subclass)
        } else {
            true
        }
    } else if t == USB_DT_CS_ENDPOINT {
        if class == CLASS_AUDIO && subclass == UAC_SUBCLASS_AUDIO_STREAMING {
            data.len() >= 5
        } else {
            true
        }
    } else if t == USB_DT_ENDPOINT {
        if class == CLASS_AUDIO && len == 9 {
            true
        } else {
            data.len() >= 5
        }
    } else if t == USB_DT_SS_EP_COMP {
        data.len() >= 4
    } else if t == USB_DT_SSP_ISOCH_EP_COMP {
        data.len() >= 6
    } else {
        true
    }
}

/// Decides `spec_parse_wf` for a whole stream: whether every complete
/// record is long enough for the typed decoder its descriptor type and
/// class context select. Callers check this before `parse_list` or
/// `TreeNode::deserialize` on data that arrives unchecked.
pub fn parse_wf(buffer: &[u8]) -> (b: bool)
    ensures
        b == spec_parse_wf(buffer@, 0, 0),
{
    let n = buffer.len();
    let mut off: usize = 0;
    let mut class: u8 = 0;
    let mut subclass: u8 = 0;
    proof {
        assert(buffer@.skip(0) =~= buffer@);
    }
    while off < n
        invariant
            off <= n,
            n == buffer@.len(),
            spec_parse_wf(buffer@, 0, 0) == spec_parse_wf(buffer@.skip(off as int), class, subclass),
        decreases n - off,
    {
        let ghost rem = buffer@.skip(off as int);
        proof {
            assert(rem.len() == n - off);
            assert(rem[0] == buffer@[off as int]);
        }
        if n - off < 2 {
            return false;
        }
        proof {
            assert(rem[1] == buffer@[off as int + 1]);
        }
        let len8 = buffer[off];
        let desc_type = buffer[off + 1];
        if len8 < 2 {
            return false;
        }
        let len = len8 as usize;
        if n - off < len {
            // A truncated final record ends the parse early and is
            // accepted.
            return true;
        }
        let data = &buffer[off + 2..off + len];
        proof {
            assert(data@ =~= rem.subrange(2, len8 as int));
        }
        let ok = check_record(desc_type, data, class, subclass, len8);
        if !ok {
            return false;
        }
        if desc_type == USB_DT_INTERFACE {
            class = data[3];
            subclass = data[4];
        }
        proof {
            assert(rem.skip(len8 as int) =~= buffer@.skip(off + len));
        }
        off = off + len;
    }
    proof {
        assert(buffer@.skip(off as int).len() == 0);
    }
    true
}

} // verus!
