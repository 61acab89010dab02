//! USB Video Class records: VideoControl and VideoStreaming class-specific
//! descriptors, stream payload headers, and the mock video configuration
//! summary handed to external consumers.

use vstd::prelude::*;

use crate::bytes::le16;
use crate::bytes::le32;
use crate::bytes::le_bytes;
use crate::bytes::lemma_le_bytes_len;
use crate::bytes::spec_u128_le;
use crate::bytes::read_u16_le;
use crate::bytes::read_u32_le;
use crate::bytes::read_u128_le;
use crate::bytes::push_u16_le;
use crate::bytes::push_u32_le;
use crate::bytes::push_u128_le;
use crate::bytes::push_bytes;
use crate::bytes::copy_range;
use crate::bytes::spec_u16_le;
use crate::bytes::spec_u32_le;
use crate::usb_proto::USB_DT_CS_INTERFACE;

verus! {

// UVC interface subclass codes.
pub const UVC_SUBCLASS_VIDEO_CONTROL: u8 = 0x01;
pub const UVC_SUBCLASS_VIDEO_STREAMING: u8 = 0x02;

// VideoStreaming class-specific descriptor subtypes.
pub const UVC_VS_INPUT_HEADER: u8 = 0x01;
pub const UVC_VS_FORMAT_UNCOMPRESSED: u8 = 0x04;
pub const UVC_VS_FRAME_UNCOMPRESSED: u8 = 0x05;
pub const UVC_VS_FORMAT_MJPEG: u8 = 0x06;
pub const UVC_VS_FRAME_MJPEG: u8 = 0x07;
pub const UVC_VS_FORMAT_FRAME_BASED: u8 = 0x10;
pub const UVC_VS_FRAME_FRAME_BASED: u8 = 0x11;

// VideoControl class-specific descriptor subtypes.
pub const UVC_VC_HEADER: u8 = 0x01;
pub const UVC_VC_INPUT_TERMINAL: u8 = 0x02;
pub const UVC_VC_OUTPUT_TERMINAL: u8 = 0x03;
pub const UVC_VC_PROCESSING_UNIT: u8 = 0x05;
pub const UVC_VC_EXTENSION_UNIT: u8 = 0x06;

/// Video interface subclass.
#[derive(Debug, Clone, Copy, PartialEq, Eq, Structural)]
pub enum UvcInterfaceSubClass {
    Undefined,
    VideoControl,
    VideoStreaming,
    VideoInterfaceCollection,
}

impl UvcInterfaceSubClass {
    pub open spec fn spec_code(self) -> u8 {
        match self {
            UvcInterfaceSubClass::Undefined => 0x00,
            UvcInterfaceSubClass::VideoControl => 0x01,
            UvcInterfaceSubClass::VideoStreaming => 0x02,
            UvcInterfaceSubClass::VideoInterfaceCollection => 0x03,
        }
    }

    pub fn code(self) -> (r: u8)
        ensures
            r == self.spec_code(),
    {
        match self {
            UvcInterfaceSubClass::Undefined => 0x00,
            UvcInterfaceSubClass::VideoControl => 0x01,
            UvcInterfaceSubClass::VideoStreaming => 0x02,
            UvcInterfaceSubClass::VideoInterfaceCollection => 0x03,
        }
    }
}

/// VideoStreaming class-specific descriptor subtype codes.
#[derive(Debug, Clone, Copy, PartialEq, Eq, Structural)]
pub enum UvcVsDescriptorSubtypes {
    Undefined,
    InputHeader,
    OutputHeader,
    StillImageFrame,
    FormatUncompressed,
    FrameUncompressed,
    FormatMjpeg,
    FrameMjpeg,
    FormatMpeg2ts,
    FormatDv,
    ColorFormat,
    FormatFrameBased,
    FrameFrameBased,
    FormatStreamBased,
}

impl UvcVsDescriptorSubtypes {
    pub open spec fn spec_code(self) -> u8 {
        match self {
            UvcVsDescriptorSubtypes::Undefined => 0x00,
            UvcVsDescriptorSubtypes::InputHeader => 0x01,
            UvcVsDescriptorSubtypes::OutputHeader => 0x02,
            UvcVsDescriptorSubtypes::StillImageFrame => 0x03,
            UvcVsDescriptorSubtypes::FormatUncompressed => 0x04,
            UvcVsDescriptorSubtypes::FrameUncompressed => 0x05,
            UvcVsDescriptorSubtypes::FormatMjpeg => 0x06,
            UvcVsDescriptorSubtypes::FrameMjpeg => 0x07,
            UvcVsDescriptorSubtypes::FormatMpeg2ts => 0x0a,
            UvcVsDescriptorSubtypes::FormatDv => 0x0c,
            UvcVsDescriptorSubtypes::ColorFormat => 0x0d,
            UvcVsDescriptorSubtypes::FormatFrameBased => 0x10,
            UvcVsDescriptorSubtypes::FrameFrameBased => 0x11,
            UvcVsDescriptorSubtypes::FormatStreamBased => 0x12,
        }
    }

    pub fn code(self) -> (r: u8)
        ensures
            r == self.spec_code(),
    {
        match self {
            UvcVsDescriptorSubtypes::Undefined => 0x00,
            UvcVsDescriptorSubtypes::InputHeader => 0x01,
            UvcVsDescriptorSubtypes::OutputHeader => 0x02,
            UvcVsDescriptorSubtypes::StillImageFrame => 0x03,
            UvcVsDescriptorSubtypes::FormatUncompressed => 0x04,
            UvcVsDescriptorSubtypes::FrameUncompressed => 0x05,
            UvcVsDescriptorSubtypes::FormatMjpeg => 0x06,
            UvcVsDescriptorSubtypes::FrameMjpeg => 0x07,
            UvcVsDescriptorSubtypes::FormatMpeg2ts => 0x0a,
            UvcVsDescriptorSubtypes::FormatDv => 0x0c,
            UvcVsDescriptorSubtypes::ColorFormat => 0x0d,
            UvcVsDescriptorSubtypes::FormatFrameBased => 0x10,
            UvcVsDescriptorSubtypes::FrameFrameBased => 0x11,
            UvcVsDescriptorSubtypes::FormatStreamBased => 0x12,
        }
    }
}

/// VideoControl class-specific descriptor subtype codes.
#[derive(Debug, Clone, Copy, PartialEq, Eq, Structural)]
pub enum UvcVcDescriptorSubtypes {
    UvcVcDescriptorUndefined,
    UvcVcHeader,
    UvcVcInputTerminal,
    UvcVcOutputTerminal,
    UvcVcSelectorUnit,
    UvcVcProcessingUnit,
    UvcVcExtensionUnit,
}

impl UvcVcDescriptorSubtypes {
    pub open spec fn spec_code(self) -> u8 {
        match self {
            UvcVcDescriptorSubtypes::UvcVcDescriptorUndefined => 0x00,
            UvcVcDescriptorSubtypes::UvcVcHeader => 0x01,
            UvcVcDescriptorSubtypes::UvcVcInputTerminal => 0x02,
            UvcVcDescriptorSubtypes::UvcVcOutputTerminal => 0x03,
            UvcVcDescriptorSubtypes::UvcVcSelectorUnit => 0x04,
            UvcVcDescriptorSubtypes::UvcVcProcessingUnit => 0x05,
            UvcVcDescriptorSubtypes::UvcVcExtensionUnit => 0x06,
        }
    }

    pub fn code(self) -> (r: u8)
        ensures
            r == self.spec_code(),
    {
        match self {
            UvcVcDescriptorSubtypes::UvcVcDescriptorUndefined => 0x00,
            UvcVcDescriptorSubtypes::UvcVcHeader => 0x01,
            UvcVcDescriptorSubtypes::UvcVcInputTerminal => 0x02,
            UvcVcDescriptorSubtypes::UvcVcOutputTerminal => 0x03,
            UvcVcDescriptorSubtypes::UvcVcSelectorUnit => 0x04,
            UvcVcDescriptorSubtypes::UvcVcProcessingUnit => 0x05,
            UvcVcDescriptorSubtypes::UvcVcExtensionUnit => 0x06,
        }
    }
}

/// Video-class control request codes.
#[derive(Debug, Clone, Copy, PartialEq, Eq, Structural)]
pub enum UvcRequestCodes {
    Undefined,
    SetCur,
    GetCur,
    GetMin,
    GetMax,
    GetRes,
    GetLen,
    GetInfo,
    GetDef,
}

impl UvcRequestCodes {
    pub open spec fn spec_code(self) -> u8 {
        match self {
            UvcRequestCodes::Undefined => 0x00,
            UvcRequestCodes::SetCur => 0x01,
            UvcRequestCodes::GetCur => 0x81,
            UvcRequestCodes::GetMin => 0x82,
            UvcRequestCodes::GetMax => 0x83,
            UvcRequestCodes::GetRes => 0x84,
            UvcRequestCodes::GetLen => 0x85,
            UvcRequestCodes::GetInfo => 0x86,
            UvcRequestCodes::GetDef => 0x87,
        }
    }

    pub fn code(self) -> (r: u8)
        ensures
            r == self.spec_code(),
    {
        match self {
            UvcRequestCodes::Undefined => 0x00,
            UvcRequestCodes::SetCur => 0x01,
            UvcRequestCodes::GetCur => 0x81,
            UvcRequestCodes::GetMin => 0x82,
            UvcRequestCodes::GetMax => 0x83,
            UvcRequestCodes::GetRes => 0x84,
            UvcRequestCodes::GetLen => 0x85,
            UvcRequestCodes::GetInfo => 0x86,
            UvcRequestCodes::GetDef => 0x87,
        }
    }
}

/// VideoStreaming interface control selectors.
#[derive(Debug, Clone, Copy, PartialEq, Eq, Structural)]
pub enum UvcRequestTypes {
    ControlUndefined,
    ProbeControl,
    CommitControl,
    StillProbeControl,
    StillCommitControl,
    StillImageTriggerControl,
    StreamErrorCodeControl,
    GenerateKeyFrameControl,
    UpdateFrameSegmentControl,
    SyncDelayControl,
}

impl UvcRequestTypes {
    pub open spec fn spec_code(self) -> u8 {
        match self {
            UvcRequestTypes::ControlUndefined => 0x00,
            UvcRequestTypes::ProbeControl => 0x01,
            UvcRequestTypes::CommitControl => 0x02,
            UvcRequestTypes::StillProbeControl => 0x03,
            UvcRequestTypes::StillCommitControl => 0x04,
            UvcRequestTypes::StillImageTriggerControl => 0x05,
            UvcRequestTypes::StreamErrorCodeControl => 0x06,
            UvcRequestTypes::GenerateKeyFrameControl => 0x07,
            UvcRequestTypes::UpdateFrameSegmentControl => 0x08,
            UvcRequestTypes::SyncDelayControl => 0x09,
        }
    }

    pub fn code(self) -> (r: u8)
        ensures
            r == self.spec_code(),
    {
        match self {
            UvcRequestTypes::ControlUndefined => 0x00,
            UvcRequestTypes::ProbeControl => 0x01,
            UvcRequestTypes::CommitControl => 0x02,
            UvcRequestTypes::StillProbeControl => 0x03,
            UvcRequestTypes::StillCommitControl => 0x04,
            UvcRequestTypes::StillImageTriggerControl => 0x05,
            UvcRequestTypes::StreamErrorCodeControl => 0x06,
            UvcRequestTypes::GenerateKeyFrameControl => 0x07,
            UvcRequestTypes::UpdateFrameSegmentControl => 0x08,
            UvcRequestTypes::SyncDelayControl => 0x09,
        }
    }
}

/// Stream error codes reported by the error code control.
#[derive(Debug, Clone, Copy, PartialEq, Eq, Structural)]
pub enum UvcStreamErrorCodes {
    NoError,
    ProtectedContent,
    InputBufferUnderrun,
    DataDiscontinuity,
    OutputBufferUnderrun,
    OutputBufferOverrun,
    FormatChange,
    StillImageCapture,
}

impl UvcStreamErrorCodes {
    pub open spec fn spec_code(self) -> u8 {
        match self {
            UvcStreamErrorCodes::NoError => 0x00,
            UvcStreamErrorCodes::ProtectedContent => 0x01,
            UvcStreamErrorCodes::InputBufferUnderrun => 0x02,
            UvcStreamErrorCodes::DataDiscontinuity => 0x03,
            UvcStreamErrorCodes::OutputBufferUnderrun => 0x04,
            UvcStreamErrorCodes::OutputBufferOverrun => 0x05,
            UvcStreamErrorCodes::FormatChange => 0x06,
            UvcStreamErrorCodes::StillImageCapture => 0x07,
        }
    }

    pub fn code(self) -> (r: u8)
        ensures
            r == self.spec_code(),
    {
        match self {
            UvcStreamErrorCodes::NoError => 0x00,
            UvcStreamErrorCodes::ProtectedContent => 0x01,
            UvcStreamErrorCodes::InputBufferUnderrun => 0x02,
            UvcStreamErrorCodes::DataDiscontinuity => 0x03,
            UvcStreamErrorCodes::OutputBufferUnderrun => 0x04,
            UvcStreamErrorCodes::OutputBufferOverrun => 0x05,
            UvcStreamErrorCodes::FormatChange => 0x06,
            UvcStreamErrorCodes::StillImageCapture => 0x07,
        }
    }
}

/// The 12-byte UVC stream payload header carried in front of video data.
#[derive(Debug, Clone, Copy, PartialEq, Eq, Structural)]
pub struct UvcFrameHeader {
    pub b_header_length: u8,
    pub bm_header_info: u8,
    pub dw_presentation_time: u32,
    pub scr_source_clock: u64,
}

impl View for UvcFrameHeader {
    type V = UvcFrameHeader;

    open spec fn view(&self) -> UvcFrameHeader {
        *self
    }
}

impl UvcFrameHeader {
    /// Builds a payload header with the end-of-frame and frame-id flag bits;
    /// the end-of-header bit is always set.
    pub fn new(eof: bool, frame_id: bool) -> (r: UvcFrameHeader)
        ensures
            r.b_header_length == 12,
            r.bm_header_info == (if eof { 0x02u8 } else { 0x00u8 }) | (if frame_id {
                0x01u8
            } else {
                0x00u8
            }) | 0x80u8,
            r.dw_presentation_time == 0,
            r.scr_source_clock == 0,
    {
        let flags: u8 = if eof { 0x02 } else { 0x00 } | if frame_id { 0x01 } else { 0x00 } | 0x80;
        UvcFrameHeader {
            b_header_length: 12,
            bm_header_info: flags,
            dw_presentation_time: 0,
            scr_source_clock: 0,
        }
    }

    /// The encoded byte length: two flag bytes, the presentation time, and
    /// the 48-bit source clock packed as a 16-bit and a 32-bit group.
    pub fn size() -> (r: usize)
        ensures
            r == 12,
    {
        12
    }

    pub open spec fn wire(self) -> Seq<u8> {
        seq![self.b_header_length, self.bm_header_info] + le32(self.dw_presentation_time) + le16(
            (self.scr_source_clock >> 32) as u16,
        ) + le32(self.scr_source_clock as u32)
    }

    pub fn serialize(&self, buffer: &mut Vec<u8>) -> (r: Result<(), crate::usb_proto::DescError>)
        ensures
            r is Ok,
            final(buffer)@ == old(buffer)@ + self@.wire(),
    {
        buffer.push(self.b_header_length);
        buffer.push(self.bm_header_info);
        push_u32_le(buffer, self.dw_presentation_time);
        push_u16_le(buffer, (self.scr_source_clock >> 32) as u16);
        push_u32_le(buffer, self.scr_source_clock as u32);
        assert(buffer@ =~= old(buffer)@ + self@.wire());
        Ok(())
    }

    pub fn deserialize(data: &[u8]) -> (r: Result<UvcFrameHeader, crate::usb_proto::DescError>)
        requires
            data@.len() >= 12,
        ensures
            r matches Ok(h) ==> {
                &&& h.b_header_length == data@[0]
                &&& h.bm_header_info == data@[1]
                &&& h.dw_presentation_time == spec_u32_le(data@[2], data@[3], data@[4], data@[5])
                &&& h.scr_source_clock == (spec_u16_le(data@[6], data@[7]) as u64) << 32 | (
                spec_u32_le(data@[8], data@[9], data@[10], data@[11]) as u64)
            },
            r is Ok,
    {
        let clk1 = read_u16_le(data, 6);
        let clk2 = read_u32_le(data, 8);
        Ok(
            UvcFrameHeader {
                b_header_length: data[0],
                bm_header_info: data[1],
                dw_presentation_time: read_u32_le(data, 2),
                scr_source_clock: (clk1 as u64) << 32 | clk2 as u64,
            },
        )
    }
}

/// The VideoControl output terminal record.
#[derive(Debug, Clone, Copy, PartialEq, Eq, Structural)]
pub struct UvcOutputTerminalDescriptor {
    pub b_terminal_id: u8,
    pub w_terminal_type: u16,
    pub b_assoc_terminal: u8,
    pub b_source_id: u8,
    pub i_terminal: u8,
}

impl View for UvcOutputTerminalDescriptor {
    type V = UvcOutputTerminalDescriptor;

    open spec fn view(&self) -> UvcOutputTerminalDescriptor {
        *self
    }
}

impl UvcOutputTerminalDescriptor {
    pub open spec fn wire(self) -> Seq<u8> {
        seq![9u8, USB_DT_CS_INTERFACE, UVC_VC_OUTPUT_TERMINAL, self.b_terminal_id] + le16(
            self.w_terminal_type,
        ) + seq![self.b_assoc_terminal, self.b_source_id, self.i_terminal]
    }

    pub open spec fn spec_parse(d: Seq<u8>) -> UvcOutputTerminalDescriptor {
        UvcOutputTerminalDescriptor {
            b_terminal_id: d[0],
            w_terminal_type: spec_u16_le(d[1], d[2]),
            b_assoc_terminal: d[3],
            b_source_id: d[4],
            i_terminal: d[5],
        }
    }

    pub fn serialize(&self, buffer: &mut Vec<u8>)
        ensures
            final(buffer)@ == old(buffer)@ + self@.wire(),
    {
        buffer.push(9);
        buffer.push(USB_DT_CS_INTERFACE);
        buffer.push(UVC_VC_OUTPUT_TERMINAL);
        buffer.push(self.b_terminal_id);
        push_u16_le(buffer, self.w_terminal_type);
        buffer.push(self.b_assoc_terminal);
        buffer.push(self.b_source_id);
        buffer.push(self.i_terminal);
        assert(buffer@ =~= old(buffer)@ + self@.wire());
    }

    pub fn deserialize(data: &[u8]) -> (r: UvcOutputTerminalDescriptor)
        requires
            data@.len() >= 6,
        ensures
            r == Self::spec_parse(data@),
    {
        UvcOutputTerminalDescriptor {
            b_terminal_id: data[0],
            w_terminal_type: read_u16_le(data, 1),
            b_assoc_terminal: data[3],
            b_source_id: data[4],
            i_terminal: data[5],
        }
    }

    pub fn size(&self) -> (r: usize)
        ensures
            r == self@.wire().len(),
    {
        9
    }
}

/// The VideoControl extension unit record, with its source pin list and
/// control bitmap.
#[derive(Debug)]
#[verifier::ext_equal]
pub struct UvcExtensionUnitDescriptor {
    pub b_unit_id: u8,
    pub guid_extension_code: u128,
    pub b_num_controls: u8,
    pub b_nr_in_pins: u8,
    pub ba_source_id: Vec<u8>,
    pub b_control_size: u8,
    pub bm_controls: Vec<u8>,
    pub i_extension: u8,
}


/// The mathematical view of [`UvcExtensionUnitDescriptor`]: the same fields with
/// sequences in place of vectors.
#[verifier::ext_equal]
pub ghost struct UvcExtensionUnitDescriptorV {
    pub b_unit_id: u8,
    pub guid_extension_code: u128,
    pub b_num_controls: u8,
    pub b_nr_in_pins: u8,
    pub ba_source_id: Seq<u8>,
    pub b_control_size: u8,
    pub bm_controls: Seq<u8>,
    pub i_extension: u8,
}

impl View for UvcExtensionUnitDescriptor {
    type V = UvcExtensionUnitDescriptorV;

    open spec fn view(&self) -> UvcExtensionUnitDescriptorV {
        UvcExtensionUnitDescriptorV {
            b_unit_id: self.b_unit_id,
            guid_extension_code: self.guid_extension_code,
            b_num_controls: self.b_num_controls,
            b_nr_in_pins: self.b_nr_in_pins,
            ba_source_id: self.ba_source_id@,
            b_control_size: self.b_control_size,
            bm_controls: self.bm_controls@,
            i_extension: self.i_extension,
        }
    }
}

impl UvcExtensionUnitDescriptorV {
    pub open spec fn wf(self) -> bool {
        24 + self.ba_source_id.len() + self.bm_controls.len() <= 255
    }

    pub open spec fn wire(self) -> Seq<u8> {
        seq![
            (24 + self.ba_source_id.len() + self.bm_controls.len()) as u8,
            USB_DT_CS_INTERFACE,
            UVC_VC_EXTENSION_UNIT,
            self.b_unit_id,
        ] + le_bytes(self.guid_extension_code as nat, 16) + seq![
            self.b_num_controls,
            self.b_nr_in_pins,
        ] + self.ba_source_id + seq![self.b_control_size] + self.bm_controls + seq![
            self.i_extension,
        ]
    }
}

impl UvcExtensionUnitDescriptor {


    pub fn serialize(&self, buffer: &mut Vec<u8>)
        requires
            self@.wf(),
        ensures
            final(buffer)@ == old(buffer)@ + self@.wire(),
    {
        proof {
            lemma_le_bytes_len(self.guid_extension_code as nat, 16);
        }
        buffer.push((24 + self.ba_source_id.len() + self.bm_controls.len()) as u8);
        buffer.push(USB_DT_CS_INTERFACE);
        buffer.push(UVC_VC_EXTENSION_UNIT);
        buffer.push(self.b_unit_id);
        push_u128_le(buffer, self.guid_extension_code);
        buffer.push(self.b_num_controls);
        buffer.push(self.b_nr_in_pins);
        push_bytes(buffer, &self.ba_source_id);
        buffer.push(self.b_control_size);
        push_bytes(buffer, &self.bm_controls);
        buffer.push(self.i_extension);
        assert(buffer@ =~= old(buffer)@ + self@.wire());
    }

    pub fn deserialize(data: &[u8]) -> (r: UvcExtensionUnitDescriptor)
        requires
            data@.len() >= 20,
            data@.len() >= 20 + data@[18],
            data@.len() >= 21 + data@[18] + data@[19 + data@[18]],
        ensures
            r.b_unit_id == data@[0],
            r.guid_extension_code == spec_u128_le(data@, 1),
            r.b_num_controls == data@[17],
            r.b_nr_in_pins == data@[18],
            r.ba_source_id@ == data@.subrange(19, 19 + data@[18]),
            r.b_control_size == data@[19 + data@[18]],
            r.bm_controls@ == data@.subrange(
                20 + data@[18],
                20 + data@[18] + data@[19 + data@[18]],
            ),
            r.i_extension == data@[20 + data@[18] + data@[19 + data@[18]]],
    {
        let b_unit_id = data[0];
        let guid_extension_code = read_u128_le(data, 1);
        let b_num_controls = data[17];
        let b_nr_in_pins = data[18];
        let pins = b_nr_in_pins as usize;
        let ba_source_id = copy_range(data, 19, pins);
        let b_control_size = data[19 + pins];
        let cs = b_control_size as usize;
        let bm_controls = copy_range(data, 20 + pins, cs);
        let i_extension = data[20 + pins + cs];
        UvcExtensionUnitDescriptor {
            b_unit_id,
            guid_extension_code,
            b_num_controls,
            b_nr_in_pins,
            ba_source_id,
            b_control_size,
            bm_controls,
            i_extension,
        }
    }

    pub fn size(&self) -> (r: usize)
        requires
            self@.wf(),
        ensures
            r == self@.wire().len(),
    {
        proof {
            lemma_le_bytes_len(self.guid_extension_code as nat, 16);
        }
        24 + self.ba_source_id.len() + self.bm_controls.len()
    }
}

/// The VideoControl processing unit record; trailing bytes beyond the
/// fields the library reads are kept verbatim.
#[derive(Debug)]
#[verifier::ext_equal]
pub struct UvcProcessingUnitDescriptor {
    pub b_unit_id: u8,
    pub b_source_id: u8,
    pub w_max_multiplier: u16,
    pub b_control_size: u8,
    pub bm_controls: u16,
    pub i_processing: u8,
    pub xtra: Vec<u8>,
}


/// The mathematical view of [`UvcProcessingUnitDescriptor`]: the same fields with
/// sequences in place of vectors.
#[verifier::ext_equal]
pub ghost struct UvcProcessingUnitDescriptorV {
    pub b_unit_id: u8,
    pub b_source_id: u8,
    pub w_max_multiplier: u16,
    pub b_control_size: u8,
    pub bm_controls: u16,
    pub i_processing: u8,
    pub xtra: Seq<u8>,
}

impl View for UvcProcessingUnitDescriptor {
    type V = UvcProcessingUnitDescriptorV;

    open spec fn view(&self) -> UvcProcessingUnitDescriptorV {
        UvcProcessingUnitDescriptorV {
            b_unit_id: self.b_unit_id,
            b_source_id: self.b_source_id,
            w_max_multiplier: self.w_max_multiplier,
            b_control_size: self.b_control_size,
            bm_controls: self.bm_controls,
            i_processing: self.i_processing,
            xtra: self.xtra@,
        }
    }
}

impl UvcProcessingUnitDescriptorV {
    pub open spec fn wf(self) -> bool {
        self.xtra.len() <= 244
    }

    pub open spec fn wire(self) -> Seq<u8> {
        seq![
            (11 + self.xtra.len()) as u8,
            USB_DT_CS_INTERFACE,
            UVC_VC_PROCESSING_UNIT,
            self.b_unit_id,
            self.b_source_id,
        ] + le16(self.w_max_multiplier) + seq![self.b_control_size] + le16(self.bm_controls)
            + seq![self.i_processing] + self.xtra
    }
}

impl UvcProcessingUnitDescriptor {


    pub fn serialize(&self, buffer: &mut Vec<u8>)
        requires
            self@.wf(),
        ensures
            final(buffer)@ == old(buffer)@ + self@.wire(),
    {
        buffer.push(11 + self.xtra.len() as u8);
        buffer.push(USB_DT_CS_INTERFACE);
        buffer.push(UVC_VC_PROCESSING_UNIT);
        buffer.push(self.b_unit_id);
        buffer.push(self.b_source_id);
        push_u16_le(buffer, self.w_max_multiplier);
        buffer.push(self.b_control_size);
        push_u16_le(buffer, self.bm_controls);
        buffer.push(self.i_processing);
        push_bytes(buffer, &self.xtra);
        assert(buffer@ =~= old(buffer)@ + self@.wire());
    }

    /// Decodes a processing unit record whose declared record length is
    /// `len`; whatever follows the fixed fields is kept as the tail.
    pub fn deserialize(data: &[u8], len: u8) -> (r: UvcProcessingUnitDescriptor)
        requires
            len >= 11,
            data@.len() == len - 3,
        ensures
            r.b_unit_id == data@[0],
            r.b_source_id == data@[1],
            r.w_max_multiplier == spec_u16_le(data@[2], data@[3]),
            r.b_control_size == data@[4],
            r.bm_controls == spec_u16_le(data@[5], data@[6]),
            r.i_processing == data@[7],
            r.xtra@ == data@.subrange(8, data@.len() as int),
    {
        let b_unit_id = data[0];
        let b_source_id = data[1];
        let w_max_multiplier = read_u16_le(data, 2);
        let b_control_size = data[4];
        let bm_controls = read_u16_le(data, 5);
        let i_processing = data[7];
        let xtra = copy_range(data, 8, data.len() - 8);
        UvcProcessingUnitDescriptor {
            b_unit_id,
            b_source_id,
            w_max_multiplier,
            b_control_size,
            bm_controls,
            i_processing,
            xtra,
        }
    }

    pub fn size(&self) -> (r: usize)
        requires
            self@.wf(),
        ensures
            r == self@.wire().len(),
    {
        11 + self.xtra.len()
    }
}

/// The VideoControl input terminal record; camera-specific trailing bytes
/// are kept verbatim.
#[derive(Debug)]
#[verifier::ext_equal]
pub struct UvcInputTerminalDescriptor {
    pub b_terminal_id: u8,
    pub w_terminal_type: u16,
    pub b_assoc_terminal: u8,
    pub i_terminal: u8,
    pub xtra: Vec<u8>,
}


/// The mathematical view of [`UvcInputTerminalDescriptor`]: the same fields with
/// sequences in place of vectors.
#[verifier::ext_equal]
pub ghost struct UvcInputTerminalDescriptorV {
    pub b_terminal_id: u8,
    pub w_terminal_type: u16,
    pub b_assoc_terminal: u8,
    pub i_terminal: u8,
    pub xtra: Seq<u8>,
}

impl View for UvcInputTerminalDescriptor {
    type V = UvcInputTerminalDescriptorV;

    open spec fn view(&self) -> UvcInputTerminalDescriptorV {
        UvcInputTerminalDescriptorV {
            b_terminal_id: self.b_terminal_id,
            w_terminal_type: self.w_terminal_type,
            b_assoc_terminal: self.b_assoc_terminal,
            i_terminal: self.i_terminal,
            xtra: self.xtra@,
        }
    }
}

impl UvcInputTerminalDescriptorV {
    pub open spec fn wf(self) -> bool {
        self.xtra.len() <= 247
    }

    pub open spec fn wire(self) -> Seq<u8> {
        seq![
            (8 + self.xtra.len()) as u8,
            USB_DT_CS_INTERFACE,
            UVC_VC_INPUT_TERMINAL,
            self.b_terminal_id,
        ] + le16(self.w_terminal_type) + seq![self.b_assoc_terminal, self.i_terminal]
            + self.xtra
    }
}

impl UvcInputTerminalDescriptor {


    pub fn serialize(&self, buffer: &mut Vec<u8>)
        requires
            self@.wf(),
        ensures
            final(buffer)@ == old(buffer)@ + self@.wire(),
    {
        buffer.push(8 + self.xtra.len() as u8);
        buffer.push(USB_DT_CS_INTERFACE);
        buffer.push(UVC_VC_INPUT_TERMINAL);
        buffer.push(self.b_terminal_id);
        push_u16_le(buffer, self.w_terminal_type);
        buffer.push(self.b_assoc_terminal);
        buffer.push(self.i_terminal);
        push_bytes(buffer, &self.xtra);
        assert(buffer@ =~= old(buffer)@ + self@.wire());
    }

    /// Decodes an input terminal record whose declared record length is
    /// `len`; whatever follows the fixed fields is kept as the tail.
    pub fn deserialize(data: &[u8], len: u8) -> (r: UvcInputTerminalDescriptor)
        requires
            len >= 8,
            data@.len() == len - 3,
        ensures
            r.b_terminal_id == data@[0],
            r.w_terminal_type == spec_u16_le(data@[1], data@[2]),
            r.b_assoc_terminal == data@[3],
            r.i_terminal == data@[4],
            r.xtra@ == data@.subrange(5, data@.len() as int),
    {
        let b_terminal_id = data[0];
        let w_terminal_type = read_u16_le(data, 1);
        let b_assoc_terminal = data[3];
        let i_terminal = data[4];
        let xtra = copy_range(data, 5, data.len() - 5);
        UvcInputTerminalDescriptor { b_terminal_id, w_terminal_type, b_assoc_terminal, i_terminal, xtra }
    }

    pub fn size(&self) -> (r: usize)
        requires
            self@.wf(),
        ensures
            r == self@.wire().len(),
    {
        8 + self.xtra.len()
    }
}

/// The VideoControl header record with the streaming interface collection.
#[derive(Debug)]
#[verifier::ext_equal]
pub struct UvcHeaderDescriptor {
    pub bcd_uvc: u16,
    pub w_total_length: u16,
    pub dw_clock_frequency: u32,
    pub b_in_collection: u8,
    pub ba_interface_nr: Vec<u8>,
}


/// The mathematical view of [`UvcHeaderDescriptor`]: the same fields with
/// sequences in place of vectors.
#[verifier::ext_equal]
pub ghost struct UvcHeaderDescriptorV {
    pub bcd_uvc: u16,
    pub w_total_length: u16,
    pub dw_clock_frequency: u32,
    pub b_in_collection: u8,
    pub ba_interface_nr: Seq<u8>,
}

impl View for UvcHeaderDescriptor {
    type V = UvcHeaderDescriptorV;

    open spec fn view(&self) -> UvcHeaderDescriptorV {
        UvcHeaderDescriptorV {
            bcd_uvc: self.bcd_uvc,
            w_total_length: self.w_total_length,
            dw_clock_frequency: self.dw_clock_frequency,
            b_in_collection: self.b_in_collection,
            ba_interface_nr: self.ba_interface_nr@,
        }
    }
}

impl UvcHeaderDescriptorV {
    pub open spec fn wf(self) -> bool {
        self.ba_interface_nr.len() <= 243
    }

    pub open spec fn wire(self) -> Seq<u8> {
        seq![(12 + self.ba_interface_nr.len()) as u8, USB_DT_CS_INTERFACE, UVC_VC_HEADER] + le16(
            self.bcd_uvc,
        ) + le16(self.w_total_length) + le32(self.dw_clock_frequency) + seq![self.b_in_collection]
            + self.ba_interface_nr
    }
}

impl UvcHeaderDescriptor {


    pub fn serialize(&self, buffer: &mut Vec<u8>)
        requires
            self@.wf(),
        ensures
            final(buffer)@ == old(buffer)@ + self@.wire(),
    {
        buffer.push(12 + self.ba_interface_nr.len() as u8);
        buffer.push(USB_DT_CS_INTERFACE);
        buffer.push(UVC_VC_HEADER);
        push_u16_le(buffer, self.bcd_uvc);
        push_u16_le(buffer, self.w_total_length);
        push_u32_le(buffer, self.dw_clock_frequency);
        buffer.push(self.b_in_collection);
        push_bytes(buffer, &self.ba_interface_nr);
        assert(buffer@ =~= old(buffer)@ + self@.wire());
    }

    pub fn deserialize(data: &[u8]) -> (r: UvcHeaderDescriptor)
        requires
            data@.len() >= 9,
            data@.len() >= 9 + data@[8],
        ensures
            r.bcd_uvc == spec_u16_le(data@[0], data@[1]),
            r.w_total_length == spec_u16_le(data@[2], data@[3]),
            r.dw_clock_frequency == spec_u32_le(data@[4], data@[5], data@[6], data@[7]),
            r.b_in_collection == data@[8],
            r.ba_interface_nr@ == data@.subrange(9, 9 + data@[8]),
    {
        let bcd_uvc = read_u16_le(data, 0);
        let w_total_length = read_u16_le(data, 2);
        let dw_clock_frequency = read_u32_le(data, 4);
        let b_in_collection = data[8];
        let ba_interface_nr = copy_range(data, 9, b_in_collection as usize);
        UvcHeaderDescriptor {
            bcd_uvc,
            w_total_length,
            dw_clock_frequency,
            b_in_collection,
            ba_interface_nr,
        }
    }

    pub fn size(&self) -> (r: usize)
        requires
            self@.wf(),
        ensures
            r == self@.wire().len(),
    {
        12 + self.ba_interface_nr.len()
    }
}

/// The VideoStreaming input header record; `bmaControls` holds one
/// `bControlSize`-byte bitmap per format child.
#[derive(Debug)]
#[verifier::ext_equal]
pub struct DescriptorUvcInputHeader {
    pub w_total_length: u16,
    pub b_endpoint_address: u8,
    pub bm_info: u8,
    pub b_terminal_link: u8,
    pub b_still_capture_method: u8,
    pub b_trigger_support: u8,
    pub b_trigger_usage: u8,
    pub b_control_size: u8,
    pub bma_controls: Vec<u8>,
}


/// The mathematical view of [`DescriptorUvcInputHeader`]: the same fields with
/// sequences in place of vectors.
#[verifier::ext_equal]
pub ghost struct DescriptorUvcInputHeaderV {
    pub w_total_length: u16,
    pub b_endpoint_address: u8,
    pub bm_info: u8,
    pub b_terminal_link: u8,
    pub b_still_capture_method: u8,
    pub b_trigger_support: u8,
    pub b_trigger_usage: u8,
    pub b_control_size: u8,
    pub bma_controls: Seq<u8>,
}

impl View for DescriptorUvcInputHeader {
    type V = DescriptorUvcInputHeaderV;

    open spec fn view(&self) -> DescriptorUvcInputHeaderV {
        DescriptorUvcInputHeaderV {
            w_total_length: self.w_total_length,
            b_endpoint_address: self.b_endpoint_address,
            bm_info: self.bm_info,
            b_terminal_link: self.b_terminal_link,
            b_still_capture_method: self.b_still_capture_method,
            b_trigger_support: self.b_trigger_support,
            b_trigger_usage: self.b_trigger_usage,
            b_control_size: self.b_control_size,
            bma_controls: self.bma_controls@,
        }
    }
}

impl DescriptorUvcInputHeaderV {
    pub open spec fn wf(self) -> bool {
        &&& self.b_control_size >= 1
        &&& self.bma_controls.len() + 13 <= 255
    }

    /// The number of formats the header declares: one control bitmap per
    /// format.
    pub open spec fn spec_b_num_formats(self) -> int {
        self.bma_controls.len() as int / self.b_control_size as int
    }

    pub open spec fn wire(self) -> Seq<u8> {
        seq![
            (13 + self.bma_controls.len()) as u8,
            USB_DT_CS_INTERFACE,
            UVC_VS_INPUT_HEADER,
            (self.bma_controls.len() as int / self.b_control_size as int) as u8,
        ] + le16(self.w_total_length) + seq![
            self.b_endpoint_address,
            self.bm_info,
            self.b_terminal_link,
            self.b_still_capture_method,
            self.b_trigger_support,
            self.b_trigger_usage,
            self.b_control_size,
        ] + self.bma_controls
    }
}

impl DescriptorUvcInputHeader {


    pub fn b_num_formats(&self) -> (r: usize)
        requires
            self.b_control_size >= 1,
        ensures
            r == self@.spec_b_num_formats(),
    {
        self.bma_controls.len() / self.b_control_size as usize
    }


    pub fn serialize(&self, buffer: &mut Vec<u8>)
        requires
            self@.wf(),
        ensures
            final(buffer)@ == old(buffer)@ + self@.wire(),
    {
        buffer.push(13 + self.bma_controls.len() as u8);
        buffer.push(USB_DT_CS_INTERFACE);
        buffer.push(UVC_VS_INPUT_HEADER);
        buffer.push(self.b_num_formats() as u8);
        push_u16_le(buffer, self.w_total_length);
        buffer.push(self.b_endpoint_address);
        buffer.push(self.bm_info);
        buffer.push(self.b_terminal_link);
        buffer.push(self.b_still_capture_method);
        buffer.push(self.b_trigger_support);
        buffer.push(self.b_trigger_usage);
        buffer.push(self.b_control_size);
        push_bytes(buffer, &self.bma_controls);
        assert(buffer@ =~= old(buffer)@ + self@.wire());
    }

    pub fn deserialize(data: &[u8]) -> (r: DescriptorUvcInputHeader)
        requires
            data@.len() >= 10,
            data@.len() >= 10 + data@[9] * data@[0],
        ensures
            r.w_total_length == spec_u16_le(data@[1], data@[2]),
            r.b_endpoint_address == data@[3],
            r.bm_info == data@[4],
            r.b_terminal_link == data@[5],
            r.b_still_capture_method == data@[6],
            r.b_trigger_support == data@[7],
            r.b_trigger_usage == data@[8],
            r.b_control_size == data@[9],
            r.bma_controls@ == data@.subrange(10, 10 + data@[9] * data@[0]),
    {
        let b_num_formats = data[0];
        let w_total_length = read_u16_le(data, 1);
        let b_endpoint_address = data[3];
        let bm_info = data[4];
        let b_terminal_link = data[5];
        let b_still_capture_method = data[6];
        let b_trigger_support = data[7];
        let b_trigger_usage = data[8];
        let b_control_size = data[9];
        let sz = b_control_size as usize * b_num_formats as usize;
        let bma_controls = copy_range(data, 10, sz);
        DescriptorUvcInputHeader {
            w_total_length,
            b_endpoint_address,
            bm_info,
            b_terminal_link,
            b_still_capture_method,
            b_trigger_support,
            b_trigger_usage,
            b_control_size,
            bma_controls,
        }
    }

    pub fn size(&self) -> (r: usize)
        requires
            self.bma_controls@.len() + 13 <= usize::MAX,
        ensures
            r == self@.wire().len(),
    {
        13 + self.bma_controls.len()
    }
}

/// The probe/commit streaming control block.
#[derive(Debug, Clone, Copy, PartialEq, Eq, Structural)]
pub struct UvcStreamingControl {
    pub bm_hint: u16,
    pub b_format_index: u8,
    pub b_frame_index: u8,
    pub dw_frame_interval: u32,
    pub w_key_frame_rate: u16,
    pub w_pframe_rate: u16,
    pub w_comp_quality: u16,
    pub w_comp_window_size: u16,
    pub w_delay: u16,
    pub dw_max_video_frame_size: u32,
    pub dw_max_payload_transfer_size: u32,
}

impl UvcStreamingControl {
    pub fn deserialize(data: &[u8]) -> (r: UvcStreamingControl)
        requires
            data@.len() >= 26,
        ensures
            r.bm_hint == spec_u16_le(data@[0], data@[1]),
            r.b_format_index == data@[2],
            r.b_frame_index == data@[3],
            r.dw_frame_interval == spec_u32_le(data@[4], data@[5], data@[6], data@[7]),
            r.w_key_frame_rate == spec_u16_le(data@[8], data@[9]),
            r.w_pframe_rate == spec_u16_le(data@[10], data@[11]),
            r.w_comp_quality == spec_u16_le(data@[12], data@[13]),
            r.w_comp_window_size == spec_u16_le(data@[14], data@[15]),
            r.w_delay == spec_u16_le(data@[16], data@[17]),
            r.dw_max_video_frame_size == spec_u32_le(data@[18], data@[19], data@[20], data@[21]),
            r.dw_max_payload_transfer_size == spec_u32_le(
                data@[22],
                data@[23],
                data@[24],
                data@[25],
            ),
    {
        UvcStreamingControl {
            bm_hint: read_u16_le(data, 0),
            b_format_index: data[2],
            b_frame_index: data[3],
            dw_frame_interval: read_u32_le(data, 4),
            w_key_frame_rate: read_u16_le(data, 8),
            w_pframe_rate: read_u16_le(data, 10),
            w_comp_quality: read_u16_le(data, 12),
            w_comp_window_size: read_u16_le(data, 14),
            w_delay: read_u16_le(data, 16),
            dw_max_video_frame_size: read_u32_le(data, 18),
            dw_max_payload_transfer_size: read_u32_le(data, 22),
        }
    }
}

/// The recognized uncompressed pixel-format GUIDs, as 128-bit values read
/// little-endian from their 16 wire bytes.
#[non_exhaustive]
pub struct UncompressedFormats;

impl UncompressedFormats {
    /// GUID 32595559-0000-0010-8000-00AA00389B71.
    pub const YUY2: u128 = 0x719b3800aa0000800010000032595559;

    /// GUID 3231564E-0000-0010-8000-00AA00389B71.
    pub const NV12: u128 = 0x719b3800aa000080001000003231564e;
}

/// The little-endian byte image of a frame-interval list.
pub open spec fn frame_intervals_bytes(s: Seq<u32>) -> Seq<u8>
    decreases s.len(),
{
    if s.len() == 0 {
        Seq::empty()
    } else {
        le32(s[0]) + frame_intervals_bytes(s.drop_first())
    }
}

pub proof fn lemma_frame_intervals_bytes_len(s: Seq<u32>)
    ensures
        frame_intervals_bytes(s).len() == 4 * s.len(),
    decreases s.len(),
{
    if s.len() > 0 {
        lemma_frame_intervals_bytes_len(s.drop_first());
    }
}

pub proof fn lemma_frame_intervals_bytes_push(s: Seq<u32>, v: u32)
    ensures
        frame_intervals_bytes(s.push(v)) == frame_intervals_bytes(s) + le32(v),
    decreases s.len(),
{
    reveal_with_fuel(frame_intervals_bytes, 2);
    let p = s.push(v);
    assert(p.len() == s.len() + 1);
    if s.len() == 0 {
        assert(p[0] == v);
        assert(p.drop_first() =~= Seq::<u32>::empty());
        assert(frame_intervals_bytes(p) == le32(v) + frame_intervals_bytes(Seq::<u32>::empty()));
        assert(frame_intervals_bytes(s.push(v)) =~= frame_intervals_bytes(s) + le32(v));
    } else {
        assert(p[0] == s[0]);
        assert(p.drop_first() =~= s.drop_first().push(v));
        lemma_frame_intervals_bytes_push(s.drop_first(), v);
        assert(frame_intervals_bytes(p) == le32(s[0]) + frame_intervals_bytes(
            s.drop_first().push(v),
        ));
        assert(frame_intervals_bytes(s.push(v)) =~= frame_intervals_bytes(s) + le32(v));
    }
}

/// The interval entries encoded at `off`, one 32-bit value each.
pub open spec fn spec_parse_intervals(d: Seq<u8>, off: int, n: nat) -> Seq<u32> {
    Seq::new(
        n,
        |i: int| spec_u32_le(d[off + 4 * i], d[off + 4 * i + 1], d[off + 4 * i + 2], d[off + 4 * i + 3]),
    )
}

/// Appends every interval of `list` as four little-endian bytes.
pub(crate) fn push_intervals(buf: &mut Vec<u8>, list: &Vec<u32>)
    ensures
        final(buf)@ == old(buf)@ + frame_intervals_bytes(list@),
{
    let mut i: usize = 0;
    while i < list.len()
        invariant
            i <= list@.len(),
            buf@ == old(buf)@ + frame_intervals_bytes(list@.take(i as int)),
        decreases list@.len() - i,
    {
        proof {
            assert(list@.take(i + 1) =~= list@.take(i as int).push(list@[i as int]));
            lemma_frame_intervals_bytes_push(list@.take(i as int), list@[i as int]);
        }
        push_u32_le(buf, list[i]);
        i = i + 1;
    }
    proof {
        assert(list@.take(list@.len() as int) =~= list@);
    }
}

/// Reads `n` interval entries starting at `off`.
pub(crate) fn read_intervals(data: &[u8], off: usize, n: usize) -> (r: Vec<u32>)
    requires
        off + 4 * n <= data@.len(),
    ensures
        r@ == spec_parse_intervals(data@, off as int, n as nat),
{
    let dlen: usize = data.len();
    let mut out: Vec<u32> = Vec::new();
    let mut i: usize = 0;
    while i < n
        invariant
            i <= n,
            off + 4 * n <= dlen == data@.len(),
            out@ == spec_parse_intervals(data@, off as int, n as nat).take(i as int),
        decreases n - i,
    {
        let v = read_u32_le(data, off + 4 * i);
        out.push(v);
        assert(out@ =~= spec_parse_intervals(data@, off as int, n as nat).take(i + 1));
        i = i + 1;
    }
    assert(spec_parse_intervals(data@, off as int, n as nat).take(n as int) =~= spec_parse_intervals(
        data@,
        off as int,
        n as nat,
    ));
    out
}

/// The VideoStreaming uncompressed format record, with its 16-byte GUID.
#[derive(Debug, Clone, Copy, PartialEq, Eq, Structural)]
pub struct DescriptorUvcFormatUncompressed {
    pub b_format_index: u8,
    pub b_num_frame_descriptors: u8,
    pub guid_format: u128,
    pub b_bits_per_pixel: u8,
    pub b_default_frame_index: u8,
    pub b_aspect_ratio_x: u8,
    pub b_aspect_ratio_y: u8,
    pub bm_interface_flags: u8,
    pub b_copy_protect: u8,
}

impl View for DescriptorUvcFormatUncompressed {
    type V = DescriptorUvcFormatUncompressed;

    open spec fn view(&self) -> DescriptorUvcFormatUncompressed {
        *self
    }
}

impl DescriptorUvcFormatUncompressed {
    pub open spec fn wire(self) -> Seq<u8> {
        seq![
            27u8,
            USB_DT_CS_INTERFACE,
            UVC_VS_FORMAT_UNCOMPRESSED,
            self.b_format_index,
            self.b_num_frame_descriptors,
        ] + le_bytes(self.guid_format as nat, 16) + seq![
            self.b_bits_per_pixel,
            self.b_default_frame_index,
            self.b_aspect_ratio_x,
            self.b_aspect_ratio_y,
            self.bm_interface_flags,
            self.b_copy_protect,
        ]
    }

    pub fn serialize(&self, buffer: &mut Vec<u8>)
        ensures
            final(buffer)@ == old(buffer)@ + self@.wire(),
    {
        proof {
            lemma_le_bytes_len(self.guid_format as nat, 16);
        }
        buffer.push(27);
        buffer.push(USB_DT_CS_INTERFACE);
        buffer.push(UVC_VS_FORMAT_UNCOMPRESSED);
        buffer.push(self.b_format_index);
        buffer.push(self.b_num_frame_descriptors);
        push_u128_le(buffer, self.guid_format);
        buffer.push(self.b_bits_per_pixel);
        buffer.push(self.b_default_frame_index);
        buffer.push(self.b_aspect_ratio_x);
        buffer.push(self.b_aspect_ratio_y);
        buffer.push(self.bm_interface_flags);
        buffer.push(self.b_copy_protect);
        assert(buffer@ =~= old(buffer)@ + self@.wire());
    }

    pub fn deserialize(data: &[u8]) -> (r: DescriptorUvcFormatUncompressed)
        requires
            data@.len() >= 24,
        ensures
            r.b_format_index == data@[0],
            r.b_num_frame_descriptors == data@[1],
            r.guid_format == spec_u128_le(data@, 2),
            r.b_bits_per_pixel == data@[18],
            r.b_default_frame_index == data@[19],
            r.b_aspect_ratio_x == data@[20],
            r.b_aspect_ratio_y == data@[21],
            r.bm_interface_flags == data@[22],
            r.b_copy_protect == data@[23],
    {
        DescriptorUvcFormatUncompressed {
            b_format_index: data[0],
            b_num_frame_descriptors: data[1],
            guid_format: read_u128_le(data, 2),
            b_bits_per_pixel: data[18],
            b_default_frame_index: data[19],
            b_aspect_ratio_x: data[20],
            b_aspect_ratio_y: data[21],
            bm_interface_flags: data[22],
            b_copy_protect: data[23],
        }
    }
}

/// The VideoStreaming frame-based format record (H.264 and similar).
#[derive(Debug, Clone, Copy, PartialEq, Eq, Structural)]
pub struct DescriptorUvcFormatFrameBased {
    pub b_format_index: u8,
    pub b_num_frame_descriptors: u8,
    pub guid_format: u128,
    pub b_bits_per_pixel: u8,
    pub b_default_frame_index: u8,
    pub b_aspect_ratio_x: u8,
    pub b_aspect_ratio_y: u8,
    pub bm_interface_flags: u8,
    pub b_copy_protect: u8,
    pub b_variable_size: u8,
}

impl View for DescriptorUvcFormatFrameBased {
    type V = DescriptorUvcFormatFrameBased;

    open spec fn view(&self) -> DescriptorUvcFormatFrameBased {
        *self
    }
}

impl DescriptorUvcFormatFrameBased {
    pub open spec fn wire(self) -> Seq<u8> {
        seq![
            28u8,
            USB_DT_CS_INTERFACE,
            UVC_VS_FORMAT_FRAME_BASED,
            self.b_format_index,
            self.b_num_frame_descriptors,
        ] + le_bytes(self.guid_format as nat, 16) + seq![
            self.b_bits_per_pixel,
            self.b_default_frame_index,
            self.b_aspect_ratio_x,
            self.b_aspect_ratio_y,
            self.bm_interface_flags,
            self.b_copy_protect,
            self.b_variable_size,
        ]
    }

    pub fn serialize(&self, buffer: &mut Vec<u8>)
        ensures
            final(buffer)@ == old(buffer)@ + self@.wire(),
    {
        proof {
            lemma_le_bytes_len(self.guid_format as nat, 16);
        }
        buffer.push(28);
        buffer.push(USB_DT_CS_INTERFACE);
        buffer.push(UVC_VS_FORMAT_FRAME_BASED);
        buffer.push(self.b_format_index);
        buffer.push(self.b_num_frame_descriptors);
        push_u128_le(buffer, self.guid_format);
        buffer.push(self.b_bits_per_pixel);
        buffer.push(self.b_default_frame_index);
        buffer.push(self.b_aspect_ratio_x);
        buffer.push(self.b_aspect_ratio_y);
        buffer.push(self.bm_interface_flags);
        buffer.push(self.b_copy_protect);
        buffer.push(self.b_variable_size);
        assert(buffer@ =~= old(buffer)@ + self@.wire());
    }

    pub fn deserialize(data: &[u8]) -> (r: DescriptorUvcFormatFrameBased)
        requires
            data@.len() >= 25,
        ensures
            r.b_format_index == data@[0],
            r.b_num_frame_descriptors == data@[1],
            r.guid_format == spec_u128_le(data@, 2),
            r.b_bits_per_pixel == data@[18],
            r.b_default_frame_index == data@[19],
            r.b_aspect_ratio_x == data@[20],
            r.b_aspect_ratio_y == data@[21],
            r.bm_interface_flags == data@[22],
            r.b_copy_protect == data@[23],
            r.b_variable_size == data@[24],
    {
        DescriptorUvcFormatFrameBased {
            b_format_index: data[0],
            b_num_frame_descriptors: data[1],
            guid_format: read_u128_le(data, 2),
            b_bits_per_pixel: data[18],
            b_default_frame_index: data[19],
            b_aspect_ratio_x: data[20],
            b_aspect_ratio_y: data[21],
            bm_interface_flags: data[22],
            b_copy_protect: data[23],
            b_variable_size: data[24],
        }
    }
}

/// The VideoStreaming MJPEG format record.
#[derive(Debug, Clone, Copy, PartialEq, Eq, Structural)]
pub struct DescriptorUvcFormatMjpeg {
    pub b_format_index: u8,
    pub b_num_frame_descriptors: u8,
    pub bm_flags: u8,
    pub b_default_frame_index: u8,
    pub b_aspect_ratio_x: u8,
    pub b_aspect_ratio_y: u8,
    pub bm_interface_flags: u8,
    pub b_copy_protect: u8,
}

impl View for DescriptorUvcFormatMjpeg {
    type V = DescriptorUvcFormatMjpeg;

    open spec fn view(&self) -> DescriptorUvcFormatMjpeg {
        *self
    }
}

impl DescriptorUvcFormatMjpeg {
    pub open spec fn wire(self) -> Seq<u8> {
        seq![
            11u8,
            USB_DT_CS_INTERFACE,
            UVC_VS_FORMAT_MJPEG,
            self.b_format_index,
            self.b_num_frame_descriptors,
            self.bm_flags,
            self.b_default_frame_index,
            self.b_aspect_ratio_x,
            self.b_aspect_ratio_y,
            self.bm_interface_flags,
            self.b_copy_protect,
        ]
    }

    pub open spec fn spec_parse(d: Seq<u8>) -> DescriptorUvcFormatMjpeg {
        DescriptorUvcFormatMjpeg {
            b_format_index: d[0],
            b_num_frame_descriptors: d[1],
            bm_flags: d[2],
            b_default_frame_index: d[3],
            b_aspect_ratio_x: d[4],
            b_aspect_ratio_y: d[5],
            bm_interface_flags: d[6],
            b_copy_protect: d[7],
        }
    }

    pub fn serialize(&self, buffer: &mut Vec<u8>)
        ensures
            final(buffer)@ == old(buffer)@ + self@.wire(),
    {
        buffer.push(11);
        buffer.push(USB_DT_CS_INTERFACE);
        buffer.push(UVC_VS_FORMAT_MJPEG);
        buffer.push(self.b_format_index);
        buffer.push(self.b_num_frame_descriptors);
        buffer.push(self.bm_flags);
        buffer.push(self.b_default_frame_index);
        buffer.push(self.b_aspect_ratio_x);
        buffer.push(self.b_aspect_ratio_y);
        buffer.push(self.bm_interface_flags);
        buffer.push(self.b_copy_protect);
        assert(buffer@ =~= old(buffer)@ + self@.wire());
    }

    pub fn deserialize(data: &[u8]) -> (r: DescriptorUvcFormatMjpeg)
        requires
            data@.len() >= 8,
        ensures
            r == Self::spec_parse(data@),
    {
        DescriptorUvcFormatMjpeg {
            b_format_index: data[0],
            b_num_frame_descriptors: data[1],
            bm_flags: data[2],
            b_default_frame_index: data[3],
            b_aspect_ratio_x: data[4],
            b_aspect_ratio_y: data[5],
            bm_interface_flags: data[6],
            b_copy_protect: data[7],
        }
    }
}

/// The VideoStreaming uncompressed frame record: one resolution with its
/// supported frame intervals.
#[derive(Debug)]
#[verifier::ext_equal]
pub struct DescriptorUvcFrameUncompressed {
    pub b_frame_index: u8,
    pub bm_capabilities: u8,
    pub w_width: u16,
    pub w_height: u16,
    pub dw_min_bit_rate: u32,
    pub dw_max_bit_rate: u32,
    pub dw_max_video_frame_buffer_size: u32,
    pub dw_default_frame_interval: u32,
    pub dw_frame_interval: Vec<u32>,
}


/// The mathematical view of [`DescriptorUvcFrameUncompressed`]: the same fields with
/// sequences in place of vectors.
#[verifier::ext_equal]
pub ghost struct DescriptorUvcFrameUncompressedV {
    pub b_frame_index: u8,
    pub bm_capabilities: u8,
    pub w_width: u16,
    pub w_height: u16,
    pub dw_min_bit_rate: u32,
    pub dw_max_bit_rate: u32,
    pub dw_max_video_frame_buffer_size: u32,
    pub dw_default_frame_interval: u32,
    pub dw_frame_interval: Seq<u32>,
}

impl View for DescriptorUvcFrameUncompressed {
    type V = DescriptorUvcFrameUncompressedV;

    open spec fn view(&self) -> DescriptorUvcFrameUncompressedV {
        DescriptorUvcFrameUncompressedV {
            b_frame_index: self.b_frame_index,
            bm_capabilities: self.bm_capabilities,
            w_width: self.w_width,
            w_height: self.w_height,
            dw_min_bit_rate: self.dw_min_bit_rate,
            dw_max_bit_rate: self.dw_max_bit_rate,
            dw_max_video_frame_buffer_size: self.dw_max_video_frame_buffer_size,
            dw_default_frame_interval: self.dw_default_frame_interval,
            dw_frame_interval: self.dw_frame_interval@,
        }
    }
}

impl DescriptorUvcFrameUncompressedV {
    pub open spec fn wf(self) -> bool {
        26 + 4 * self.dw_frame_interval.len() <= 255
    }

    pub open spec fn wire(self) -> Seq<u8> {
        seq![
            (26 + 4 * self.dw_frame_interval.len()) as u8,
            USB_DT_CS_INTERFACE,
            UVC_VS_FRAME_UNCOMPRESSED,
            self.b_frame_index,
            self.bm_capabilities,
        ] + le16(self.w_width) + le16(self.w_height) + le32(self.dw_min_bit_rate) + le32(
            self.dw_max_bit_rate,
        ) + le32(self.dw_max_video_frame_buffer_size) + le32(self.dw_default_frame_interval)
            + seq![self.dw_frame_interval.len() as u8] + frame_intervals_bytes(
            self.dw_frame_interval,
        )
    }
}

impl DescriptorUvcFrameUncompressed {


    pub fn serialize(&self, buffer: &mut Vec<u8>)
        requires
            self@.wf(),
        ensures
            final(buffer)@ == old(buffer)@ + self@.wire(),
    {
        proof {
            lemma_frame_intervals_bytes_len(self.dw_frame_interval@);
        }
        buffer.push(26 + 4 * self.dw_frame_interval.len() as u8);
        buffer.push(USB_DT_CS_INTERFACE);
        buffer.push(UVC_VS_FRAME_UNCOMPRESSED);
        buffer.push(self.b_frame_index);
        buffer.push(self.bm_capabilities);
        push_u16_le(buffer, self.w_width);
        push_u16_le(buffer, self.w_height);
        push_u32_le(buffer, self.dw_min_bit_rate);
        push_u32_le(buffer, self.dw_max_bit_rate);
        push_u32_le(buffer, self.dw_max_video_frame_buffer_size);
        push_u32_le(buffer, self.dw_default_frame_interval);
        buffer.push(self.b_frame_interval_type() as u8);
        push_intervals(buffer, &self.dw_frame_interval);
        assert(buffer@ =~= old(buffer)@ + self@.wire());
    }

    pub fn deserialize(data: &[u8]) -> (r: DescriptorUvcFrameUncompressed)
        requires
            data@.len() >= 23,
            data@.len() >= 23 + 4 * data@[22],
        ensures
            r.b_frame_index == data@[0],
            r.bm_capabilities == data@[1],
            r.w_width == spec_u16_le(data@[2], data@[3]),
            r.w_height == spec_u16_le(data@[4], data@[5]),
            r.dw_min_bit_rate == spec_u32_le(data@[6], data@[7], data@[8], data@[9]),
            r.dw_max_bit_rate == spec_u32_le(data@[10], data@[11], data@[12], data@[13]),
            r.dw_max_video_frame_buffer_size == spec_u32_le(
                data@[14],
                data@[15],
                data@[16],
                data@[17],
            ),
            r.dw_default_frame_interval == spec_u32_le(data@[18], data@[19], data@[20], data@[21]),
            r.dw_frame_interval@ == spec_parse_intervals(data@, 23, data@[22] as nat),
    {
        let n = data[22] as usize;
        DescriptorUvcFrameUncompressed {
            b_frame_index: data[0],
            bm_capabilities: data[1],
            w_width: read_u16_le(data, 2),
            w_height: read_u16_le(data, 4),
            dw_min_bit_rate: read_u32_le(data, 6),
            dw_max_bit_rate: read_u32_le(data, 10),
            dw_max_video_frame_buffer_size: read_u32_le(data, 14),
            dw_default_frame_interval: read_u32_le(data, 18),
            dw_frame_interval: read_intervals(data, 23, n),
        }
    }

    /// The number of discrete frame intervals (0 would mean a continuous
    /// range, which appears as entries on the wire all the same).
    pub fn b_frame_interval_type(&self) -> (r: usize)
        ensures
            r == self.dw_frame_interval@.len(),
    {
        self.dw_frame_interval.len()
    }
}

/// The VideoStreaming MJPEG frame record.
#[derive(Debug)]
#[verifier::ext_equal]
pub struct DescriptorUvcFrameMjpeg {
    pub b_frame_index: u8,
    pub bm_capabilities: u8,
    pub w_width: u16,
    pub w_height: u16,
    pub dw_min_bit_rate: u32,
    pub dw_max_bit_rate: u32,
    pub dw_max_video_frame_buffer_size: u32,
    pub dw_default_frame_interval: u32,
    pub dw_frame_interval: Vec<u32>,
}


/// The mathematical view of [`DescriptorUvcFrameMjpeg`]: the same fields with
/// sequences in place of vectors.
#[verifier::ext_equal]
pub ghost struct DescriptorUvcFrameMjpegV {
    pub b_frame_index: u8,
    pub bm_capabilities: u8,
    pub w_width: u16,
    pub w_height: u16,
    pub dw_min_bit_rate: u32,
    pub dw_max_bit_rate: u32,
    pub dw_max_video_frame_buffer_size: u32,
    pub dw_default_frame_interval: u32,
    pub dw_frame_interval: Seq<u32>,
}

impl View for DescriptorUvcFrameMjpeg {
    type V = DescriptorUvcFrameMjpegV;

    open spec fn view(&self) -> DescriptorUvcFrameMjpegV {
        DescriptorUvcFrameMjpegV {
            b_frame_index: self.b_frame_index,
            bm_capabilities: self.bm_capabilities,
            w_width: self.w_width,
            w_height: self.w_height,
            dw_min_bit_rate: self.dw_min_bit_rate,
            dw_max_bit_rate: self.dw_max_bit_rate,
            dw_max_video_frame_buffer_size: self.dw_max_video_frame_buffer_size,
            dw_default_frame_interval: self.dw_default_frame_interval,
            dw_frame_interval: self.dw_frame_interval@,
        }
    }
}

impl DescriptorUvcFrameMjpegV {
    pub open spec fn wf(self) -> bool {
        26 + 4 * self.dw_frame_interval.len() <= 255
    }

    pub open spec fn wire(self) -> Seq<u8> {
        seq![
            (26 + 4 * self.dw_frame_interval.len()) as u8,
            USB_DT_CS_INTERFACE,
            UVC_VS_FRAME_MJPEG,
            self.b_frame_index,
            self.bm_capabilities,
        ] + le16(self.w_width) + le16(self.w_height) + le32(self.dw_min_bit_rate) + le32(
            self.dw_max_bit_rate,
        ) + le32(self.dw_max_video_frame_buffer_size) + le32(self.dw_default_frame_interval)
            + seq![self.dw_frame_interval.len() as u8] + frame_intervals_bytes(
            self.dw_frame_interval,
        )
    }
}

impl DescriptorUvcFrameMjpeg {


    pub fn serialize(&self, buffer: &mut Vec<u8>)
        requires
            self@.wf(),
        ensures
            final(buffer)@ == old(buffer)@ + self@.wire(),
    {
        proof {
            lemma_frame_intervals_bytes_len(self.dw_frame_interval@);
        }
        buffer.push(26 + 4 * self.dw_frame_interval.len() as u8);
        buffer.push(USB_DT_CS_INTERFACE);
        buffer.push(UVC_VS_FRAME_MJPEG);
        buffer.push(self.b_frame_index);
        buffer.push(self.bm_capabilities);
        push_u16_le(buffer, self.w_width);
        push_u16_le(buffer, self.w_height);
        push_u32_le(buffer, self.dw_min_bit_rate);
        push_u32_le(buffer, self.dw_max_bit_rate);
        push_u32_le(buffer, self.dw_max_video_frame_buffer_size);
        push_u32_le(buffer, self.dw_default_frame_interval);
        buffer.push(self.b_frame_interval_type() as u8);
        push_intervals(buffer, &self.dw_frame_interval);
        assert(buffer@ =~= old(buffer)@ + self@.wire());
    }

    pub fn deserialize(data: &[u8]) -> (r: DescriptorUvcFrameMjpeg)
        requires
            data@.len() >= 23,
            data@.len() >= 23 + 4 * data@[22],
        ensures
            r.b_frame_index == data@[0],
            r.bm_capabilities == data@[1],
            r.w_width == spec_u16_le(data@[2], data@[3]),
            r.w_height == spec_u16_le(data@[4], data@[5]),
            r.dw_min_bit_rate == spec_u32_le(data@[6], data@[7], data@[8], data@[9]),
            r.dw_max_bit_rate == spec_u32_le(data@[10], data@[11], data@[12], data@[13]),
            r.dw_max_video_frame_buffer_size == spec_u32_le(
                data@[14],
                data@[15],
                data@[16],
                data@[17],
            ),
            r.dw_default_frame_interval == spec_u32_le(data@[18], data@[19], data@[20], data@[21]),
            r.dw_frame_interval@ == spec_parse_intervals(data@, 23, data@[22] as nat),
    {
        let n = data[22] as usize;
        DescriptorUvcFrameMjpeg {
            b_frame_index: data[0],
            bm_capabilities: data[1],
            w_width: read_u16_le(data, 2),
            w_height: read_u16_le(data, 4),
            dw_min_bit_rate: read_u32_le(data, 6),
            dw_max_bit_rate: read_u32_le(data, 10),
            dw_max_video_frame_buffer_size: read_u32_le(data, 14),
            dw_default_frame_interval: read_u32_le(data, 18),
            dw_frame_interval: read_intervals(data, 23, n),
        }
    }

    pub fn b_frame_interval_type(&self) -> (r: usize)
        ensures
            r == self.dw_frame_interval@.len(),
    {
        self.dw_frame_interval.len()
    }

    pub fn size(&self) -> (r: usize)
        requires
            self@.wf(),
        ensures
            r == self@.wire().len(),
    {
        proof {
            lemma_frame_intervals_bytes_len(self.dw_frame_interval@);
        }
        26 + 4 * self.dw_frame_interval.len()
    }
}

/// The VideoStreaming frame-based frame record; the interval count byte
/// precedes `dwBytesPerLine` on the wire.
#[derive(Debug)]
#[verifier::ext_equal]
pub struct DescriptorUvcFrameFrameBased {
    pub b_frame_index: u8,
    pub bm_capabilities: u8,
    pub w_width: u16,
    pub w_height: u16,
    pub dw_min_bit_rate: u32,
    pub dw_max_bit_rate: u32,
    pub dw_default_frame_interval: u32,
    pub dw_bytes_per_line: u32,
    pub dw_frame_interval: Vec<u32>,
}


/// The mathematical view of [`DescriptorUvcFrameFrameBased`]: the same fields with
/// sequences in place of vectors.
#[verifier::ext_equal]
pub ghost struct DescriptorUvcFrameFrameBasedV {
    pub b_frame_index: u8,
    pub bm_capabilities: u8,
    pub w_width: u16,
    pub w_height: u16,
    pub dw_min_bit_rate: u32,
    pub dw_max_bit_rate: u32,
    pub dw_default_frame_interval: u32,
    pub dw_bytes_per_line: u32,
    pub dw_frame_interval: Seq<u32>,
}

impl View for DescriptorUvcFrameFrameBased {
    type V = DescriptorUvcFrameFrameBasedV;

    open spec fn view(&self) -> DescriptorUvcFrameFrameBasedV {
        DescriptorUvcFrameFrameBasedV {
            b_frame_index: self.b_frame_index,
            bm_capabilities: self.bm_capabilities,
            w_width: self.w_width,
            w_height: self.w_height,
            dw_min_bit_rate: self.dw_min_bit_rate,
            dw_max_bit_rate: self.dw_max_bit_rate,
            dw_default_frame_interval: self.dw_default_frame_interval,
            dw_bytes_per_line: self.dw_bytes_per_line,
            dw_frame_interval: self.dw_frame_interval@,
        }
    }
}

impl DescriptorUvcFrameFrameBasedV {
    pub open spec fn wf(self) -> bool {
        26 + 4 * self.dw_frame_interval.len() <= 255
    }

    pub open spec fn wire(self) -> Seq<u8> {
        seq![
            (26 + 4 * self.dw_frame_interval.len()) as u8,
            USB_DT_CS_INTERFACE,
            UVC_VS_FRAME_FRAME_BASED,
            self.b_frame_index,
            self.bm_capabilities,
        ] + le16(self.w_width) + le16(self.w_height) + le32(self.dw_min_bit_rate) + le32(
            self.dw_max_bit_rate,
        ) + le32(self.dw_default_frame_interval) + seq![self.dw_frame_interval.len() as u8]
            + le32(self.dw_bytes_per_line) + frame_intervals_bytes(self.dw_frame_interval)
    }
}

impl DescriptorUvcFrameFrameBased {


    pub fn serialize(&self, buffer: &mut Vec<u8>)
        requires
            self@.wf(),
        ensures
            final(buffer)@ == old(buffer)@ + self@.wire(),
    {
        proof {
            lemma_frame_intervals_bytes_len(self.dw_frame_interval@);
        }
        buffer.push(26 + 4 * self.dw_frame_interval.len() as u8);
        buffer.push(USB_DT_CS_INTERFACE);
        buffer.push(UVC_VS_FRAME_FRAME_BASED);
        buffer.push(self.b_frame_index);
        buffer.push(self.bm_capabilities);
        push_u16_le(buffer, self.w_width);
        push_u16_le(buffer, self.w_height);
        push_u32_le(buffer, self.dw_min_bit_rate);
        push_u32_le(buffer, self.dw_max_bit_rate);
        push_u32_le(buffer, self.dw_default_frame_interval);
        buffer.push(self.b_frame_interval_type() as u8);
        push_u32_le(buffer, self.dw_bytes_per_line);
        push_intervals(buffer, &self.dw_frame_interval);
        assert(buffer@ =~= old(buffer)@ + self@.wire());
    }

    pub fn deserialize(data: &[u8]) -> (r: DescriptorUvcFrameFrameBased)
        requires
            data@.len() >= 23,
            data@.len() >= 23 + 4 * data@[18],
        ensures
            r.b_frame_index == data@[0],
            r.bm_capabilities == data@[1],
            r.w_width == spec_u16_le(data@[2], data@[3]),
            r.w_height == spec_u16_le(data@[4], data@[5]),
            r.dw_min_bit_rate == spec_u32_le(data@[6], data@[7], data@[8], data@[9]),
            r.dw_max_bit_rate == spec_u32_le(data@[10], data@[11], data@[12], data@[13]),
            r.dw_default_frame_interval == spec_u32_le(data@[14], data@[15], data@[16], data@[17]),
            r.dw_bytes_per_line == spec_u32_le(data@[19], data@[20], data@[21], data@[22]),
            r.dw_frame_interval@ == spec_parse_intervals(data@, 23, data@[18] as nat),
    {
        let n = data[18] as usize;
        DescriptorUvcFrameFrameBased {
            b_frame_index: data[0],
            bm_capabilities: data[1],
            w_width: read_u16_le(data, 2),
            w_height: read_u16_le(data, 4),
            dw_min_bit_rate: read_u32_le(data, 6),
            dw_max_bit_rate: read_u32_le(data, 10),
            dw_default_frame_interval: read_u32_le(data, 14),
            dw_bytes_per_line: read_u32_le(data, 19),
            dw_frame_interval: read_intervals(data, 23, n),
        }
    }

    pub fn b_frame_interval_type(&self) -> (r: usize)
        ensures
            r == self.dw_frame_interval@.len(),
    {
        self.dw_frame_interval.len()
    }
}

/// A VideoStreaming record of an unmodeled subtype, kept verbatim.
#[derive(Debug)]
#[verifier::ext_equal]
pub struct DescriptorUvcVsInterfaceUnknown {
    pub iface_subclass: u8,
    pub bytes: Vec<u8>,
}


/// The mathematical view of [`DescriptorUvcVsInterfaceUnknown`]: the same fields with
/// sequences in place of vectors.
#[verifier::ext_equal]
pub ghost struct DescriptorUvcVsInterfaceUnknownV {
    pub iface_subclass: u8,
    pub bytes: Seq<u8>,
}

impl View for DescriptorUvcVsInterfaceUnknown {
    type V = DescriptorUvcVsInterfaceUnknownV;

    open spec fn view(&self) -> DescriptorUvcVsInterfaceUnknownV {
        DescriptorUvcVsInterfaceUnknownV {
            iface_subclass: self.iface_subclass,
            bytes: self.bytes@,
        }
    }
}

impl DescriptorUvcVsInterfaceUnknownV {
    pub open spec fn wf(self) -> bool {
        self.bytes.len() <= 252
    }

    pub open spec fn wire(self) -> Seq<u8> {
        seq![(self.bytes.len() + 3) as u8, USB_DT_CS_INTERFACE, self.iface_subclass]
            + self.bytes
    }
}

impl DescriptorUvcVsInterfaceUnknown {


    pub fn serialize(&self, buffer: &mut Vec<u8>)
        requires
            self@.wf(),
        ensures
            final(buffer)@ == old(buffer)@ + self@.wire(),
    {
        buffer.push(self.bytes.len() as u8 + 3);
        buffer.push(USB_DT_CS_INTERFACE);
        buffer.push(self.iface_subclass);
        push_bytes(buffer, &self.bytes);
        assert(buffer@ =~= old(buffer)@ + self@.wire());
    }
}

/// A VideoControl record of an unmodeled subtype, kept verbatim.
#[derive(Debug)]
#[verifier::ext_equal]
pub struct DescriptorUvcVcInterfaceUnknown {
    pub iface_subclass: u8,
    pub bytes: Vec<u8>,
}


/// The mathematical view of [`DescriptorUvcVcInterfaceUnknown`]: the same fields with
/// sequences in place of vectors.
#[verifier::ext_equal]
pub ghost struct DescriptorUvcVcInterfaceUnknownV {
    pub iface_subclass: u8,
    pub bytes: Seq<u8>,
}

impl View for DescriptorUvcVcInterfaceUnknown {
    type V = DescriptorUvcVcInterfaceUnknownV;

    open spec fn view(&self) -> DescriptorUvcVcInterfaceUnknownV {
        DescriptorUvcVcInterfaceUnknownV {
            iface_subclass: self.iface_subclass,
            bytes: self.bytes@,
        }
    }
}

impl DescriptorUvcVcInterfaceUnknownV {
    pub open spec fn wf(self) -> bool {
        self.bytes.len() <= 252
    }

    pub open spec fn wire(self) -> Seq<u8> {
        seq![(self.bytes.len() + 3) as u8, USB_DT_CS_INTERFACE, self.iface_subclass]
            + self.bytes
    }
}

impl DescriptorUvcVcInterfaceUnknown {


    pub fn serialize(&self, buffer: &mut Vec<u8>)
        requires
            self@.wf(),
        ensures
            final(buffer)@ == old(buffer)@ + self@.wire(),
    {
        buffer.push(self.bytes.len() as u8 + 3);
        buffer.push(USB_DT_CS_INTERFACE);
        buffer.push(self.iface_subclass);
        push_bytes(buffer, &self.bytes);
        assert(buffer@ =~= old(buffer)@ + self@.wire());
    }
}

/// Pixel format of a composed video configuration.
#[derive(Debug, Clone, Copy, PartialEq, Eq, Structural)]
pub enum MockVideoFormat {
    Yuy2,
    Mjpeg,
    Nv12,
}

/// A resolution + format + framerate summary for external consumers.
#[derive(Debug, Clone, Copy, PartialEq, Eq, Structural)]
pub struct MockVideoConfig {
    pub width: u32,
    pub height: u32,
    pub fps: i32,
    pub format: MockVideoFormat,
}

impl MockVideoConfig {
    pub fn new(width: u32, height: u32, fps: i32, format: MockVideoFormat) -> (r: MockVideoConfig)
        ensures
            r.width == width,
            r.height == height,
            r.fps == fps,
            r.format == format,
    {
        MockVideoConfig { width, height, fps, format }
    }
}


impl Clone for UvcExtensionUnitDescriptor {
    fn clone(&self) -> (res: Self)
        ensures
            res@ == self@,
    {
        let res = UvcExtensionUnitDescriptor {
            b_unit_id: self.b_unit_id,
            guid_extension_code: self.guid_extension_code,
            b_num_controls: self.b_num_controls,
            b_nr_in_pins: self.b_nr_in_pins,
            ba_source_id: self.ba_source_id.clone(),
            b_control_size: self.b_control_size,
            bm_controls: self.bm_controls.clone(),
            i_extension: self.i_extension,
        };
        proof {
            assert(res.ba_source_id@ =~= self.ba_source_id@);
            assert(res.bm_controls@ =~= self.bm_controls@);
            assert(res@ =~= self@);
        }
        res
    }
}


impl Clone for UvcProcessingUnitDescriptor {
    fn clone(&self) -> (res: Self)
        ensures
            res@ == self@,
    {
        let res = UvcProcessingUnitDescriptor {
            b_unit_id: self.b_unit_id,
            b_source_id: self.b_source_id,
            w_max_multiplier: self.w_max_multiplier,
            b_control_size: self.b_control_size,
            bm_controls: self.bm_controls,
            i_processing: self.i_processing,
            xtra: self.xtra.clone(),
        };
        proof {
            assert(res.xtra@ =~= self.xtra@);
            assert(res@ =~= self@);
        }
        res
    }
}


impl Clone for UvcInputTerminalDescriptor {
    fn clone(&self) -> (res: Self)
        ensures
            res@ == self@,
    {
        let res = UvcInputTerminalDescriptor {
            b_terminal_id: self.b_terminal_id,
            w_terminal_type: self.w_terminal_type,
            b_assoc_terminal: self.b_assoc_terminal,
            i_terminal: self.i_terminal,
            xtra: self.xtra.clone(),
        };
        proof {
            assert(res.xtra@ =~= self.xtra@);
            assert(res@ =~= self@);
        }
        res
    }
}


impl Clone for UvcHeaderDescriptor {
    fn clone(&self) -> (res: Self)
        ensures
            res@ == self@,
    {
        let res = UvcHeaderDescriptor {
            bcd_uvc: self.bcd_uvc,
            w_total_length: self.w_total_length,
            dw_clock_frequency: self.dw_clock_frequency,
            b_in_collection: self.b_in_collection,
            ba_interface_nr: self.ba_interface_nr.clone(),
        };
        proof {
            assert(res.ba_interface_nr@ =~= self.ba_interface_nr@);
            assert(res@ =~= self@);
        }
        res
    }
}


impl Clone for DescriptorUvcInputHeader {
    fn clone(&self) -> (res: Self)
        ensures
            res@ == self@,
    {
        let res = DescriptorUvcInputHeader {
            w_total_length: self.w_total_length,
            b_endpoint_address: self.b_endpoint_address,
            bm_info: self.bm_info,
            b_terminal_link: self.b_terminal_link,
            b_still_capture_method: self.b_still_capture_method,
            b_trigger_support: self.b_trigger_support,
            b_trigger_usage: self.b_trigger_usage,
            b_control_size: self.b_control_size,
            bma_controls: self.bma_controls.clone(),
        };
        proof {
            assert(res.bma_controls@ =~= self.bma_controls@);
            assert(res@ =~= self@);
        }
        res
    }
}


impl Clone for DescriptorUvcFrameUncompressed {
    fn clone(&self) -> (res: Self)
        ensures
            res@ == self@,
    {
        let res = DescriptorUvcFrameUncompressed {
            b_frame_index: self.b_frame_index,
            bm_capabilities: self.bm_capabilities,
            w_width: self.w_width,
            w_height: self.w_height,
            dw_min_bit_rate: self.dw_min_bit_rate,
            dw_max_bit_rate: self.dw_max_bit_rate,
            dw_max_video_frame_buffer_size: self.dw_max_video_frame_buffer_size,
            dw_default_frame_interval: self.dw_default_frame_interval,
            dw_frame_interval: self.dw_frame_interval.clone(),
        };
        proof {
            assert(res.dw_frame_interval@ =~= self.dw_frame_interval@);
            assert(res@ =~= self@);
        }
        res
    }
}


impl Clone for DescriptorUvcFrameMjpeg {
    fn clone(&self) -> (res: Self)
        ensures
            res@ == self@,
    {
        let res = DescriptorUvcFrameMjpeg {
            b_frame_index: self.b_frame_index,
            bm_capabilities: self.bm_capabilities,
            w_width: self.w_width,
            w_height: self.w_height,
            dw_min_bit_rate: self.dw_min_bit_rate,
            dw_max_bit_rate: self.dw_max_bit_rate,
            dw_max_video_frame_buffer_size: self.dw_max_video_frame_buffer_size,
            dw_default_frame_interval: self.dw_default_frame_interval,
            dw_frame_interval: self.dw_frame_interval.clone(),
        };
        proof {
            assert(res.dw_frame_interval@ =~= self.dw_frame_interval@);
            assert(res@ =~= self@);
        }
        res
    }
}


impl Clone for DescriptorUvcFrameFrameBased {
    fn clone(&self) -> (res: Self)
        ensures
            res@ == self@,
    {
        let res = DescriptorUvcFrameFrameBased {
            b_frame_index: self.b_frame_index,
            bm_capabilities: self.bm_capabilities,
            w_width: self.w_width,
            w_height: self.w_height,
            dw_min_bit_rate: self.dw_min_bit_rate,
            dw_max_bit_rate: self.dw_max_bit_rate,
            dw_default_frame_interval: self.dw_default_frame_interval,
            dw_bytes_per_line: self.dw_bytes_per_line,
            dw_frame_interval: self.dw_frame_interval.clone(),
        };
        proof {
            assert(res.dw_frame_interval@ =~= self.dw_frame_interval@);
            assert(res@ =~= self@);
        }
        res
    }
}


impl Clone for DescriptorUvcVsInterfaceUnknown {
    fn clone(&self) -> (res: Self)
        ensures
            res@ == self@,
    {
        let res = DescriptorUvcVsInterfaceUnknown {
            iface_subclass: self.iface_subclass,
            bytes: self.bytes.clone(),
        };
        proof {
            assert(res.bytes@ =~= self.bytes@);
            assert(res@ =~= self@);
        }
        res
    }
}


impl Clone for DescriptorUvcVcInterfaceUnknown {
    fn clone(&self) -> (res: Self)
        ensures
            res@ == self@,
    {
        let res = DescriptorUvcVcInterfaceUnknown {
            iface_subclass: self.iface_subclass,
            bytes: self.bytes.clone(),
        };
        proof {
            assert(res.bytes@ =~= self.bytes@);
            assert(res@ =~= self@);
        }
        res
    }
}

} // verus!
