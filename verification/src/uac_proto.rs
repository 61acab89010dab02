//! USB Audio Class (UAC 1.0) class-specific records and the volume helper.

use vstd::prelude::*;

use crate::bytes::le16;
use crate::bytes::le24;
use crate::bytes::read_u16_le;
use crate::bytes::read_u24_le;
use crate::bytes::push_u16_le;
use crate::bytes::push_u24_le;
use crate::bytes::push_bytes;
use crate::bytes::copy_range;
use crate::bytes::spec_u16_le;
use crate::bytes::spec_u24_le;
use crate::usb_proto::DescError;
use crate::usb_proto::USB_DT_CS_ENDPOINT;
use crate::usb_proto::USB_DT_CS_INTERFACE;

verus! {

// UAC interface subclass codes.
pub const UAC_SUBCLASS_AUDIO_CONTROL: u8 = 0x01;
pub const UAC_SUBCLASS_AUDIO_STREAMING: u8 = 0x02;

// AudioControl class-specific descriptor subtypes.
pub const UAC_AC_HEADER: u8 = 0x01;
pub const UAC_AC_INPUT_TERMINAL: u8 = 0x02;
pub const UAC_AC_OUTPUT_TERMINAL: u8 = 0x03;
pub const UAC_AC_FEATURE_UNIT: u8 = 0x06;

// AudioStreaming class-specific descriptor subtypes.
pub const UAC_AS_GENERAL: u8 = 0x01;
pub const UAC_AS_FORMAT_TYPE: u8 = 0x02;

// Format type codes.
pub const UAC_FORMAT_TYPE_I_PCM: u8 = 0x01;

/// Feature unit control selectors for audio control requests.
#[derive(Debug, Clone, Copy, PartialEq, Eq, Structural)]
pub enum FeatureUnitControlSelectors {
    UacFuMute,
    UacFuVolume,
    UacFuBass,
    UacFuMid,
    UacFuTreble,
    UacFuGraphicEqualizer,
    UacFuAutomaticGain,
    UacFuDelay,
    UacFuBassBoost,
    UacFuLoudness,
}

impl FeatureUnitControlSelectors {
    pub open spec fn spec_code(self) -> u16 {
        match self {
            FeatureUnitControlSelectors::UacFuMute => 0x01,
            FeatureUnitControlSelectors::UacFuVolume => 0x02,
            FeatureUnitControlSelectors::UacFuBass => 0x03,
            FeatureUnitControlSelectors::UacFuMid => 0x04,
            FeatureUnitControlSelectors::UacFuTreble => 0x05,
            FeatureUnitControlSelectors::UacFuGraphicEqualizer => 0x06,
            FeatureUnitControlSelectors::UacFuAutomaticGain => 0x07,
            FeatureUnitControlSelectors::UacFuDelay => 0x08,
            FeatureUnitControlSelectors::UacFuBassBoost => 0x09,
            FeatureUnitControlSelectors::UacFuLoudness => 0x0a,
        }
    }

    pub fn code(self) -> (r: u16)
        ensures
            r == self.spec_code(),
    {
        match self {
            FeatureUnitControlSelectors::UacFuMute => 0x01,
            FeatureUnitControlSelectors::UacFuVolume => 0x02,
            FeatureUnitControlSelectors::UacFuBass => 0x03,
            FeatureUnitControlSelectors::UacFuMid => 0x04,
            FeatureUnitControlSelectors::UacFuTreble => 0x05,
            FeatureUnitControlSelectors::UacFuGraphicEqualizer => 0x06,
            FeatureUnitControlSelectors::UacFuAutomaticGain => 0x07,
            FeatureUnitControlSelectors::UacFuDelay => 0x08,
            FeatureUnitControlSelectors::UacFuBassBoost => 0x09,
            FeatureUnitControlSelectors::UacFuLoudness => 0x0a,
        }
    }
}

/// Audio-class control request codes.
#[derive(Debug, Clone, Copy, PartialEq, Eq, Structural)]
pub enum UacRequestCodes {
    Undefined,
    SetCur,
    GetCur,
    GetMin,
    GetMax,
    GetResolution,
    GetLen,
    GetInfo,
    GetDef,
}

impl UacRequestCodes {
    pub open spec fn spec_code(self) -> u8 {
        match self {
            UacRequestCodes::Undefined => 0x00,
            UacRequestCodes::SetCur => 0x01,
            UacRequestCodes::GetCur => 0x81,
            UacRequestCodes::GetMin => 0x82,
            UacRequestCodes::GetMax => 0x83,
            UacRequestCodes::GetResolution => 0x84,
            UacRequestCodes::GetLen => 0x85,
            UacRequestCodes::GetInfo => 0x86,
            UacRequestCodes::GetDef => 0x87,
        }
    }

    pub fn code(self) -> (r: u8)
        ensures
            r == self.spec_code(),
    {
        match self {
            UacRequestCodes::Undefined => 0x00,
            UacRequestCodes::SetCur => 0x01,
            UacRequestCodes::GetCur => 0x81,
            UacRequestCodes::GetMin => 0x82,
            UacRequestCodes::GetMax => 0x83,
            UacRequestCodes::GetResolution => 0x84,
            UacRequestCodes::GetLen => 0x85,
            UacRequestCodes::GetInfo => 0x86,
            UacRequestCodes::GetDef => 0x87,
        }
    }
}

/// Audio interface subclass.
#[derive(Debug, Clone, Copy, PartialEq, Eq, Structural)]
pub enum UacInterfaceSubclass {
    AudioControl,
    AudioStreaming,
    MidiStreaming,
}

impl UacInterfaceSubclass {
    pub open spec fn spec_code(self) -> u8 {
        match self {
            UacInterfaceSubclass::AudioControl => 0x01,
            UacInterfaceSubclass::AudioStreaming => 0x02,
            UacInterfaceSubclass::MidiStreaming => 0x03,
        }
    }

    pub fn code(self) -> (r: u8)
        ensures
            r == self.spec_code(),
    {
        match self {
            UacInterfaceSubclass::AudioControl => 0x01,
            UacInterfaceSubclass::AudioStreaming => 0x02,
            UacInterfaceSubclass::MidiStreaming => 0x03,
        }
    }

    pub open spec fn spec_from_u8(v: u8) -> Option<UacInterfaceSubclass> {
        if v == 0x01 {
            Some(UacInterfaceSubclass::AudioControl)
        } else if v == 0x02 {
            Some(UacInterfaceSubclass::AudioStreaming)
        } else if v == 0x03 {
            Some(UacInterfaceSubclass::MidiStreaming)
        } else {
            None
        }
    }

    pub fn from_u8(v: u8) -> (r: Option<UacInterfaceSubclass>)
        ensures
            r == Self::spec_from_u8(v),
    {
        if v == 0x01 {
            Some(UacInterfaceSubclass::AudioControl)
        } else if v == 0x02 {
            Some(UacInterfaceSubclass::AudioStreaming)
        } else if v == 0x03 {
            Some(UacInterfaceSubclass::MidiStreaming)
        } else {
            None
        }
    }
}

/// AudioControl class-specific descriptor subtypes.
#[derive(Debug, Clone, Copy, PartialEq, Eq, Structural)]
pub enum UacDescriptorSubtypes {
    Header,
    InputTerminal,
    OutputTerminal,
    MixerUnit,
    SelectorUnit,
    FeatureUnit,
    ProcessingUnit,
    ExtensionUnit,
}

impl UacDescriptorSubtypes {
    pub open spec fn spec_code(self) -> u8 {
        match self {
            UacDescriptorSubtypes::Header => 0x01,
            UacDescriptorSubtypes::InputTerminal => 0x02,
            UacDescriptorSubtypes::OutputTerminal => 0x03,
            UacDescriptorSubtypes::MixerUnit => 0x04,
            UacDescriptorSubtypes::SelectorUnit => 0x05,
            UacDescriptorSubtypes::FeatureUnit => 0x06,
            UacDescriptorSubtypes::ProcessingUnit => 0x07,
            UacDescriptorSubtypes::ExtensionUnit => 0x08,
        }
    }

    pub fn code(self) -> (r: u8)
        ensures
            r == self.spec_code(),
    {
        match self {
            UacDescriptorSubtypes::Header => 0x01,
            UacDescriptorSubtypes::InputTerminal => 0x02,
            UacDescriptorSubtypes::OutputTerminal => 0x03,
            UacDescriptorSubtypes::MixerUnit => 0x04,
            UacDescriptorSubtypes::SelectorUnit => 0x05,
            UacDescriptorSubtypes::FeatureUnit => 0x06,
            UacDescriptorSubtypes::ProcessingUnit => 0x07,
            UacDescriptorSubtypes::ExtensionUnit => 0x08,
        }
    }
}

/// AudioStreaming class-specific descriptor subtypes.
#[derive(Debug, Clone, Copy, PartialEq, Eq, Structural)]
pub enum UacInterfaceSubtypes {
    General,
    FormatType,
    FormatSpecific,
}

impl UacInterfaceSubtypes {
    pub open spec fn spec_code(self) -> u8 {
        match self {
            UacInterfaceSubtypes::General => 0x01,
            UacInterfaceSubtypes::FormatType => 0x02,
            UacInterfaceSubtypes::FormatSpecific => 0x03,
        }
    }

    pub fn code(self) -> (r: u8)
        ensures
            r == self.spec_code(),
    {
        match self {
            UacInterfaceSubtypes::General => 0x01,
            UacInterfaceSubtypes::FormatType => 0x02,
            UacInterfaceSubtypes::FormatSpecific => 0x03,
        }
    }
}

/// Format type I audio data format codes.
#[derive(Debug, Clone, Copy, PartialEq, Eq, Structural)]
pub enum UacFormatTypeI {
    Undefined,
    Pcm,
    Pcm8,
    IeeeFloat,
    Alaw,
    Mulaw,
}

impl UacFormatTypeI {
    pub open spec fn spec_code(self) -> u8 {
        match self {
            UacFormatTypeI::Undefined => 0x00,
            UacFormatTypeI::Pcm => 0x01,
            UacFormatTypeI::Pcm8 => 0x02,
            UacFormatTypeI::IeeeFloat => 0x03,
            UacFormatTypeI::Alaw => 0x04,
            UacFormatTypeI::Mulaw => 0x05,
        }
    }

    pub fn code(self) -> (r: u8)
        ensures
            r == self.spec_code(),
    {
        match self {
            UacFormatTypeI::Undefined => 0x00,
            UacFormatTypeI::Pcm => 0x01,
            UacFormatTypeI::Pcm8 => 0x02,
            UacFormatTypeI::IeeeFloat => 0x03,
            UacFormatTypeI::Alaw => 0x04,
            UacFormatTypeI::Mulaw => 0x05,
        }
    }
}

/// The AudioControl header record, with the interface collection list.
#[derive(Debug)]
#[verifier::ext_equal]
pub struct Uac1AcHeaderDescriptor {
    pub bcd_adc: u16,
    pub w_total_length: u16,
    pub b_in_collection: u8,
    pub ba_interface_nr: Vec<u8>,
}


/// The mathematical view of [`Uac1AcHeaderDescriptor`]: the same fields with
/// sequences in place of vectors.
#[verifier::ext_equal]
pub ghost struct Uac1AcHeaderDescriptorV {
    pub bcd_adc: u16,
    pub w_total_length: u16,
    pub b_in_collection: u8,
    pub ba_interface_nr: Seq<u8>,
}

impl View for Uac1AcHeaderDescriptor {
    type V = Uac1AcHeaderDescriptorV;

    open spec fn view(&self) -> Uac1AcHeaderDescriptorV {
        Uac1AcHeaderDescriptorV {
            bcd_adc: self.bcd_adc,
            w_total_length: self.w_total_length,
            b_in_collection: self.b_in_collection,
            ba_interface_nr: self.ba_interface_nr@,
        }
    }
}

impl Uac1AcHeaderDescriptorV {
    pub open spec fn wf(self) -> bool {
        self.ba_interface_nr.len() <= 247
    }

    pub open spec fn wire(self) -> Seq<u8> {
        seq![(8 + self.ba_interface_nr.len()) as u8, USB_DT_CS_INTERFACE, UAC_AC_HEADER] + le16(
            self.bcd_adc,
        ) + le16(self.w_total_length) + seq![self.b_in_collection] + self.ba_interface_nr
    }
}

impl Uac1AcHeaderDescriptor {


    /// The interface numbers encoded in the payload after the five fixed
    /// bytes.
    pub open spec fn spec_parse_tail(d: Seq<u8>) -> Seq<u8> {
        d.subrange(5, 5 + d[4])
    }

    pub fn serialize(&self, buffer: &mut Vec<u8>)
        requires
            self@.wf(),
        ensures
            final(buffer)@ == old(buffer)@ + self@.wire(),
    {
        buffer.push(8 + self.ba_interface_nr.len() as u8);
        buffer.push(USB_DT_CS_INTERFACE);
        buffer.push(UAC_AC_HEADER);
        push_u16_le(buffer, self.bcd_adc);
        push_u16_le(buffer, self.w_total_length);
        buffer.push(self.b_in_collection);
        push_bytes(buffer, &self.ba_interface_nr);
        assert(buffer@ =~= old(buffer)@ + self@.wire());
    }

    pub fn deserialize(data: &[u8]) -> (r: Uac1AcHeaderDescriptor)
        requires
            data@.len() >= 5,
            data@.len() >= 5 + data@[4],
        ensures
            r.bcd_adc == spec_u16_le(data@[0], data@[1]),
            r.w_total_length == spec_u16_le(data@[2], data@[3]),
            r.b_in_collection == data@[4],
            r.ba_interface_nr@ == Self::spec_parse_tail(data@),
    {
        let bcd_adc = read_u16_le(data, 0);
        let w_total_length = read_u16_le(data, 2);
        let b_in_collection = data[4];
        let ba_interface_nr = copy_range(data, 5, b_in_collection as usize);
        Uac1AcHeaderDescriptor { bcd_adc, w_total_length, b_in_collection, ba_interface_nr }
    }
}

/// The AudioControl output terminal record.
#[derive(Debug, Clone, Copy, PartialEq, Eq, Structural)]
pub struct Uac1OutputTerminalDescriptor {
    pub b_terminal_id: u8,
    pub w_terminal_type: u16,
    pub b_assoc_terminal: u8,
    pub b_source_id: u8,
    pub i_terminal: u8,
}

impl View for Uac1OutputTerminalDescriptor {
    type V = Uac1OutputTerminalDescriptor;

    open spec fn view(&self) -> Uac1OutputTerminalDescriptor {
        *self
    }
}

impl Uac1OutputTerminalDescriptor {
    pub open spec fn wire(self) -> Seq<u8> {
        seq![9u8, USB_DT_CS_INTERFACE, UAC_AC_OUTPUT_TERMINAL, self.b_terminal_id] + le16(
            self.w_terminal_type,
        ) + seq![self.b_assoc_terminal, self.b_source_id, self.i_terminal]
    }

    pub open spec fn spec_parse(d: Seq<u8>) -> Uac1OutputTerminalDescriptor {
        Uac1OutputTerminalDescriptor {
            b_terminal_id: d[0],
            w_terminal_type: spec_u16_le(d[1], d[2]),
            b_assoc_terminal: d[3],
            b_source_id: d[4],
            i_terminal: d[5],
        }
    }

    pub fn serialize(&self, buffer: &mut Vec<u8>)
        ensures
            final(buffer)@ == old(buffer)@ + self@.wire(),
    {
        buffer.push(9);
        buffer.push(USB_DT_CS_INTERFACE);
        buffer.push(UAC_AC_OUTPUT_TERMINAL);
        buffer.push(self.b_terminal_id);
        push_u16_le(buffer, self.w_terminal_type);
        buffer.push(self.b_assoc_terminal);
        buffer.push(self.b_source_id);
        buffer.push(self.i_terminal);
        assert(buffer@ =~= old(buffer)@ + self@.wire());
    }

    pub fn deserialize(data: &[u8]) -> (r: Uac1OutputTerminalDescriptor)
        requires
            data@.len() >= 6,
        ensures
            r == Self::spec_parse(data@),
    {
        Uac1OutputTerminalDescriptor {
            b_terminal_id: data[0],
            w_terminal_type: read_u16_le(data, 1),
            b_assoc_terminal: data[3],
            b_source_id: data[4],
            i_terminal: data[5],
        }
    }
}

/// The AudioControl input terminal record.
#[derive(Debug, Clone, Copy, PartialEq, Eq, Structural)]
pub struct UacInputTerminalDescriptor {
    pub b_terminal_id: u8,
    pub w_terminal_type: u16,
    pub b_assoc_terminal: u8,
    pub b_nr_channels: u8,
    pub w_channel_config: u16,
    pub i_channel_names: u8,
    pub i_terminal: u8,
}

impl View for UacInputTerminalDescriptor {
    type V = UacInputTerminalDescriptor;

    open spec fn view(&self) -> UacInputTerminalDescriptor {
        *self
    }
}

impl UacInputTerminalDescriptor {
    pub open spec fn wire(self) -> Seq<u8> {
        seq![12u8, USB_DT_CS_INTERFACE, UAC_AC_INPUT_TERMINAL, self.b_terminal_id] + le16(
            self.w_terminal_type,
        ) + seq![self.b_assoc_terminal, self.b_nr_channels] + le16(self.w_channel_config) + seq![
            self.i_channel_names,
            self.i_terminal,
        ]
    }

    pub open spec fn spec_parse(d: Seq<u8>) -> UacInputTerminalDescriptor {
        UacInputTerminalDescriptor {
            b_terminal_id: d[0],
            w_terminal_type: spec_u16_le(d[1], d[2]),
            b_assoc_terminal: d[3],
            b_nr_channels: d[4],
            w_channel_config: spec_u16_le(d[5], d[6]),
            i_channel_names: d[7],
            i_terminal: d[8],
        }
    }

    pub fn serialize(&self, buffer: &mut Vec<u8>)
        ensures
            final(buffer)@ == old(buffer)@ + self@.wire(),
    {
        buffer.push(12);
        buffer.push(USB_DT_CS_INTERFACE);
        buffer.push(UAC_AC_INPUT_TERMINAL);
        buffer.push(self.b_terminal_id);
        push_u16_le(buffer, self.w_terminal_type);
        buffer.push(self.b_assoc_terminal);
        buffer.push(self.b_nr_channels);
        push_u16_le(buffer, self.w_channel_config);
        buffer.push(self.i_channel_names);
        buffer.push(self.i_terminal);
        assert(buffer@ =~= old(buffer)@ + self@.wire());
    }

    pub fn deserialize(data: &[u8]) -> (r: UacInputTerminalDescriptor)
        requires
            data@.len() >= 9,
        ensures
            r == Self::spec_parse(data@),
    {
        UacInputTerminalDescriptor {
            b_terminal_id: data[0],
            w_terminal_type: read_u16_le(data, 1),
            b_assoc_terminal: data[3],
            b_nr_channels: data[4],
            w_channel_config: read_u16_le(data, 5),
            i_channel_names: data[7],
            i_terminal: data[8],
        }
    }
}

/// The AudioControl feature unit record; the control bitmap tail is kept
/// verbatim.
#[derive(Debug)]
#[verifier::ext_equal]
pub struct UacFeatureUnitDescriptor {
    pub b_unit_id: u8,
    pub b_source_id: u8,
    pub b_control_size: u8,
    pub bma_controls: Vec<u8>,
}


/// The mathematical view of [`UacFeatureUnitDescriptor`]: the same fields with
/// sequences in place of vectors.
#[verifier::ext_equal]
pub ghost struct UacFeatureUnitDescriptorV {
    pub b_unit_id: u8,
    pub b_source_id: u8,
    pub b_control_size: u8,
    pub bma_controls: Seq<u8>,
}

impl View for UacFeatureUnitDescriptor {
    type V = UacFeatureUnitDescriptorV;

    open spec fn view(&self) -> UacFeatureUnitDescriptorV {
        UacFeatureUnitDescriptorV {
            b_unit_id: self.b_unit_id,
            b_source_id: self.b_source_id,
            b_control_size: self.b_control_size,
            bma_controls: self.bma_controls@,
        }
    }
}

impl UacFeatureUnitDescriptorV {
    pub open spec fn wf(self) -> bool {
        self.bma_controls.len() <= 249
    }

    pub open spec fn wire(self) -> Seq<u8> {
        seq![
            (6 + self.bma_controls.len()) as u8,
            USB_DT_CS_INTERFACE,
            UAC_AC_FEATURE_UNIT,
            self.b_unit_id,
            self.b_source_id,
            self.b_control_size,
        ] + self.bma_controls
    }
}

impl UacFeatureUnitDescriptor {


    pub fn serialize(&self, buffer: &mut Vec<u8>) -> (r: Result<(), DescError>)
        requires
            self@.wf(),
        ensures
            r is Ok,
            final(buffer)@ == old(buffer)@ + self@.wire(),
    {
        buffer.push(6 + self.bma_controls.len() as u8);
        buffer.push(USB_DT_CS_INTERFACE);
        buffer.push(UAC_AC_FEATURE_UNIT);
        buffer.push(self.b_unit_id);
        buffer.push(self.b_source_id);
        buffer.push(self.b_control_size);
        push_bytes(buffer, &self.bma_controls);
        assert(buffer@ =~= old(buffer)@ + self@.wire());
        Ok(())
    }

    pub fn deserialize(data: &[u8]) -> (r: Result<UacFeatureUnitDescriptor, DescError>)
        requires
            data@.len() >= 3,
        ensures
            r is Ok,
            r matches Ok(u) ==> {
                &&& u.b_unit_id == data@[0]
                &&& u.b_source_id == data@[1]
                &&& u.b_control_size == data@[2]
                &&& u.bma_controls@ == data@.subrange(3, data@.len() as int)
            },
    {
        let b_unit_id = data[0];
        let b_source_id = data[1];
        let b_control_size = data[2];
        let bma_controls = copy_range(data, 3, data.len() - 3);
        Ok(UacFeatureUnitDescriptor { b_unit_id, b_source_id, b_control_size, bma_controls })
    }
}

/// The AudioStreaming general (header) record.
#[derive(Debug, Clone, Copy, PartialEq, Eq, Structural)]
pub struct Uac1AsHeaderDescriptor {
    pub b_terminal_link: u8,
    pub b_delay: u8,
    pub w_format_tag: u16,
}

impl View for Uac1AsHeaderDescriptor {
    type V = Uac1AsHeaderDescriptor;

    open spec fn view(&self) -> Uac1AsHeaderDescriptor {
        *self
    }
}

impl Uac1AsHeaderDescriptor {
    pub open spec fn wire(self) -> Seq<u8> {
        seq![7u8, USB_DT_CS_INTERFACE, UAC_AS_GENERAL, self.b_terminal_link, self.b_delay] + le16(
            self.w_format_tag,
        )
    }

    pub open spec fn spec_parse(d: Seq<u8>) -> Uac1AsHeaderDescriptor {
        Uac1AsHeaderDescriptor {
            b_terminal_link: d[0],
            b_delay: d[1],
            w_format_tag: spec_u16_le(d[2], d[3]),
        }
    }

    pub fn serialize(&self, buffer: &mut Vec<u8>)
        ensures
            final(buffer)@ == old(buffer)@ + self@.wire(),
    {
        buffer.push(7);
        buffer.push(USB_DT_CS_INTERFACE);
        buffer.push(UAC_AS_GENERAL);
        buffer.push(self.b_terminal_link);
        buffer.push(self.b_delay);
        push_u16_le(buffer, self.w_format_tag);
        assert(buffer@ =~= old(buffer)@ + self@.wire());
    }

    pub fn deserialize(data: &[u8]) -> (r: Uac1AsHeaderDescriptor)
        requires
            data@.len() >= 4,
        ensures
            r == Self::spec_parse(data@),
    {
        Uac1AsHeaderDescriptor {
            b_terminal_link: data[0],
            b_delay: data[1],
            w_format_tag: read_u16_le(data, 2),
        }
    }
}

/// The audio-class isochronous endpoint record.
#[derive(Debug, Clone, Copy, PartialEq, Eq, Structural)]
pub struct UacIsoEndpointDescriptor {
    pub b_descriptor_subtype: u8,
    pub bm_attributes: u8,
    pub b_lock_delay_units: u8,
    pub w_lock_delay: u16,
}

impl View for UacIsoEndpointDescriptor {
    type V = UacIsoEndpointDescriptor;

    open spec fn view(&self) -> UacIsoEndpointDescriptor {
        *self
    }
}

impl UacIsoEndpointDescriptor {
    pub open spec fn wire(self) -> Seq<u8> {
        seq![
            7u8,
            USB_DT_CS_ENDPOINT,
            self.b_descriptor_subtype,
            self.bm_attributes,
            self.b_lock_delay_units,
        ] + le16(self.w_lock_delay)
    }

    pub open spec fn spec_parse(d: Seq<u8>) -> UacIsoEndpointDescriptor {
        UacIsoEndpointDescriptor {
            b_descriptor_subtype: d[0],
            bm_attributes: d[1],
            b_lock_delay_units: d[2],
            w_lock_delay: spec_u16_le(d[3], d[4]),
        }
    }

    pub fn serialize(&self, buffer: &mut Vec<u8>)
        ensures
            final(buffer)@ == old(buffer)@ + self@.wire(),
    {
        buffer.push(7);
        buffer.push(USB_DT_CS_ENDPOINT);
        buffer.push(self.b_descriptor_subtype);
        buffer.push(self.bm_attributes);
        buffer.push(self.b_lock_delay_units);
        push_u16_le(buffer, self.w_lock_delay);
        assert(buffer@ =~= old(buffer)@ + self@.wire());
    }

    pub fn deserialize(data: &[u8]) -> (r: Result<UacIsoEndpointDescriptor, DescError>)
        requires
            data@.len() >= 5,
        ensures
            r == Result::<UacIsoEndpointDescriptor, DescError>::Ok(Self::spec_parse(data@)),
    {
        Ok(
            UacIsoEndpointDescriptor {
                b_descriptor_subtype: data[0],
                bm_attributes: data[1],
                b_lock_delay_units: data[2],
                w_lock_delay: read_u16_le(data, 3),
            },
        )
    }
}

/// The 24-bit little-endian byte image of a sample-rate list.
pub open spec fn sam_freq_bytes(s: Seq<u32>) -> Seq<u8>
    decreases s.len(),
{
    if s.len() == 0 {
        Seq::empty()
    } else {
        le24(s[0]) + sam_freq_bytes(s.drop_first())
    }
}

pub proof fn lemma_sam_freq_bytes_len(s: Seq<u32>)
    ensures
        sam_freq_bytes(s).len() == 3 * s.len(),
    decreases s.len(),
{
    if s.len() > 0 {
        lemma_sam_freq_bytes_len(s.drop_first());
    }
}

pub proof fn lemma_sam_freq_bytes_push(s: Seq<u32>, v: u32)
    ensures
        sam_freq_bytes(s.push(v)) == sam_freq_bytes(s) + le24(v),
    decreases s.len(),
{
    reveal_with_fuel(sam_freq_bytes, 2);
    let p = s.push(v);
    assert(p.len() == s.len() + 1);
    if s.len() == 0 {
        assert(p[0] == v);
        assert(p.drop_first() =~= Seq::<u32>::empty());
        assert(sam_freq_bytes(p) == le24(v) + sam_freq_bytes(Seq::<u32>::empty()));
        assert(sam_freq_bytes(s.push(v)) =~= sam_freq_bytes(s) + le24(v));
    } else {
        assert(p[0] == s[0]);
        assert(p.drop_first() =~= s.drop_first().push(v));
        lemma_sam_freq_bytes_push(s.drop_first(), v);
        assert(sam_freq_bytes(p) == le24(s[0]) + sam_freq_bytes(s.drop_first().push(v)));
        assert(sam_freq_bytes(s.push(v)) =~= sam_freq_bytes(s) + le24(v));
    }
}

/// The PCM format type I record, with its discrete sample-rate list; a
/// continuous range appears as two entries, as on the wire.
#[derive(Debug)]
#[verifier::ext_equal]
pub struct UacFormatTypeIContinuousDescriptor {
    pub b_nr_channels: u8,
    pub b_subframe_size: u8,
    pub b_bit_resolution: u8,
    pub b_sam_freq_type: u8,
    pub t_sam_freq: Vec<u32>,
}


/// The mathematical view of [`UacFormatTypeIContinuousDescriptor`]: the same fields with
/// sequences in place of vectors.
#[verifier::ext_equal]
pub ghost struct UacFormatTypeIContinuousDescriptorV {
    pub b_nr_channels: u8,
    pub b_subframe_size: u8,
    pub b_bit_resolution: u8,
    pub b_sam_freq_type: u8,
    pub t_sam_freq: Seq<u32>,
}

impl View for UacFormatTypeIContinuousDescriptor {
    type V = UacFormatTypeIContinuousDescriptorV;

    open spec fn view(&self) -> UacFormatTypeIContinuousDescriptorV {
        UacFormatTypeIContinuousDescriptorV {
            b_nr_channels: self.b_nr_channels,
            b_subframe_size: self.b_subframe_size,
            b_bit_resolution: self.b_bit_resolution,
            b_sam_freq_type: self.b_sam_freq_type,
            t_sam_freq: self.t_sam_freq@,
        }
    }
}

impl UacFormatTypeIContinuousDescriptorV {
    pub open spec fn wf(self) -> bool {
        self.t_sam_freq.len() <= 82
    }

    pub open spec fn wire(self) -> Seq<u8> {
        seq![
            (8 + self.t_sam_freq.len() * 3) as u8,
            USB_DT_CS_INTERFACE,
            UAC_AS_FORMAT_TYPE,
            UAC_FORMAT_TYPE_I_PCM,
            self.b_nr_channels,
            self.b_subframe_size,
            self.b_bit_resolution,
            self.b_sam_freq_type,
        ] + sam_freq_bytes(self.t_sam_freq)
    }
}

impl UacFormatTypeIContinuousDescriptor {


    /// The sample-rate entries encoded in the payload after the four fixed
    /// bytes.
    pub open spec fn spec_parse_freqs(d: Seq<u8>) -> Seq<u32> {
        Seq::new(
            d[3] as nat,
            |i: int| spec_u24_le(d[4 + 3 * i], d[4 + 3 * i + 1], d[4 + 3 * i + 2]),
        )
    }

    pub fn serialize(&self, buffer: &mut Vec<u8>) -> (r: Result<(), DescError>)
        requires
            self@.wf(),
        ensures
            r is Ok,
            final(buffer)@ == old(buffer)@ + self@.wire(),
    {
        proof {
            lemma_sam_freq_bytes_len(self.t_sam_freq@);
        }
        buffer.push(8 + 3 * self.t_sam_freq.len() as u8);
        buffer.push(USB_DT_CS_INTERFACE);
        buffer.push(UAC_AS_FORMAT_TYPE);
        buffer.push(UAC_FORMAT_TYPE_I_PCM);
        buffer.push(self.b_nr_channels);
        buffer.push(self.b_subframe_size);
        buffer.push(self.b_bit_resolution);
        buffer.push(self.b_sam_freq_type);
        let ghost fixed = buffer@;
        let mut i: usize = 0;
        while i < self.t_sam_freq.len()
            invariant
                i <= self.t_sam_freq@.len(),
                buffer@ == fixed + sam_freq_bytes(self.t_sam_freq@.take(i as int)),
            decreases self.t_sam_freq@.len() - i,
        {
            proof {
                assert(self.t_sam_freq@.take(i + 1) =~= self.t_sam_freq@.take(i as int).push(
                    self.t_sam_freq@[i as int],
                ));
                lemma_sam_freq_bytes_push(self.t_sam_freq@.take(i as int), self.t_sam_freq@[i as int]);
            }
            push_u24_le(buffer, self.t_sam_freq[i]);
            i = i + 1;
        }
        proof {
            assert(self.t_sam_freq@.take(self.t_sam_freq@.len() as int) =~= self.t_sam_freq@);
            assert(buffer@ =~= old(buffer)@ + self@.wire());
        }
        Ok(())
    }

    pub fn deserialize(data: &[u8]) -> (r: Result<UacFormatTypeIContinuousDescriptor, DescError>)
        requires
            data@.len() >= 4,
            data@.len() >= 4 + 3 * data@[3],
        ensures
            r matches Ok(u) ==> {
                &&& u.b_nr_channels == data@[0]
                &&& u.b_subframe_size == data@[1]
                &&& u.b_bit_resolution == data@[2]
                &&& u.b_sam_freq_type == data@[3]
                &&& u.t_sam_freq@ == Self::spec_parse_freqs(data@)
            },
            r is Ok,
    {
        let b_nr_channels = data[0];
        let b_subframe_size = data[1];
        let b_bit_resolution = data[2];
        let b_sam_freq_type = data[3];
        let n = b_sam_freq_type as usize;
        let mut t_sam_freq: Vec<u32> = Vec::new();
        let mut i: usize = 0;
        while i < n
            invariant
                i <= n,
                n == data@[3],
                data@.len() >= 4 + 3 * n,
                t_sam_freq@ == Self::spec_parse_freqs(data@).take(i as int),
            decreases n - i,
        {
            let v = read_u24_le(data, 4 + 3 * i);
            t_sam_freq.push(v);
            assert(t_sam_freq@ =~= Self::spec_parse_freqs(data@).take(i + 1));
            i = i + 1;
        }
        assert(Self::spec_parse_freqs(data@).take(n as int) =~= Self::spec_parse_freqs(data@));
        Ok(
            UacFormatTypeIContinuousDescriptor {
                b_nr_channels,
                b_subframe_size,
                b_bit_resolution,
                b_sam_freq_type,
                t_sam_freq,
            },
        )
    }
}

/// An AudioControl or AudioStreaming record of a subtype the library does
/// not model, kept verbatim.
#[derive(Debug)]
#[verifier::ext_equal]
pub struct DescriptorUacInterfaceUnknown {
    pub iface_subclass: u8,
    pub bytes: Vec<u8>,
}


/// The mathematical view of [`DescriptorUacInterfaceUnknown`]: the same fields with
/// sequences in place of vectors.
#[verifier::ext_equal]
pub ghost struct DescriptorUacInterfaceUnknownV {
    pub iface_subclass: u8,
    pub bytes: Seq<u8>,
}

impl View for DescriptorUacInterfaceUnknown {
    type V = DescriptorUacInterfaceUnknownV;

    open spec fn view(&self) -> DescriptorUacInterfaceUnknownV {
        DescriptorUacInterfaceUnknownV {
            iface_subclass: self.iface_subclass,
            bytes: self.bytes@,
        }
    }
}

impl DescriptorUacInterfaceUnknownV {
    pub open spec fn wf(self) -> bool {
        self.bytes.len() <= 252
    }

    pub open spec fn wire(self) -> Seq<u8> {
        seq![(self.bytes.len() + 3) as u8, USB_DT_CS_INTERFACE, self.iface_subclass]
            + self.bytes
    }
}

impl DescriptorUacInterfaceUnknown {


    pub fn serialize(&self, buffer: &mut Vec<u8>)
        requires
            self@.wf(),
        ensures
            final(buffer)@ == old(buffer)@ + self@.wire(),
    {
        buffer.push(self.bytes.len() as u8 + 3);
        buffer.push(USB_DT_CS_INTERFACE);
        buffer.push(self.iface_subclass);
        push_bytes(buffer, &self.bytes);
        assert(buffer@ =~= old(buffer)@ + self@.wire());
    }
}

/// A format-type record whose format code the library does not model, kept
/// verbatim.
#[derive(Debug)]
#[verifier::ext_equal]
pub struct DescriptorUacFormatTypeUnknown {
    pub format_type: u8,
    pub bytes: Vec<u8>,
}


/// The mathematical view of [`DescriptorUacFormatTypeUnknown`]: the same fields with
/// sequences in place of vectors.
#[verifier::ext_equal]
pub ghost struct DescriptorUacFormatTypeUnknownV {
    pub format_type: u8,
    pub bytes: Seq<u8>,
}

impl View for DescriptorUacFormatTypeUnknown {
    type V = DescriptorUacFormatTypeUnknownV;

    open spec fn view(&self) -> DescriptorUacFormatTypeUnknownV {
        DescriptorUacFormatTypeUnknownV {
            format_type: self.format_type,
            bytes: self.bytes@,
        }
    }
}

impl DescriptorUacFormatTypeUnknownV {
    pub open spec fn wf(self) -> bool {
        self.bytes.len() <= 251
    }

    pub open spec fn wire(self) -> Seq<u8> {
        seq![
            (self.bytes.len() + 4) as u8,
            USB_DT_CS_INTERFACE,
            UAC_AS_FORMAT_TYPE,
            self.format_type,
        ] + self.bytes
    }
}

impl DescriptorUacFormatTypeUnknown {


    pub fn serialize(&self, buffer: &mut Vec<u8>)
        requires
            self@.wf(),
        ensures
            final(buffer)@ == old(buffer)@ + self@.wire(),
    {
        buffer.push(self.bytes.len() as u8 + 4);
        buffer.push(USB_DT_CS_INTERFACE);
        buffer.push(UAC_AS_FORMAT_TYPE);
        buffer.push(self.format_type);
        push_bytes(buffer, &self.bytes);
        assert(buffer@ =~= old(buffer)@ + self@.wire());
    }
}

/// A UAC volume setting: 16-bit device units of 1/256 dB, with the special
/// silence value.
#[derive(Debug, Clone, Copy, PartialEq, Eq, Structural)]
pub struct UacVolume {
    min: i16,
    max: i16,
    pub cur: i16,
}

impl UacVolume {
    /// The declared minimum, visible to contracts.
    pub closed spec fn spec_min(self) -> i16 {
        self.min
    }

    /// The declared maximum, visible to contracts.
    pub closed spec fn spec_max(self) -> i16 {
        self.max
    }

    /// The current volume, visible to contracts.
    pub closed spec fn spec_cur(self) -> i16 {
        self.cur
    }

    /// Minimum allowed decibel level in device units.
    pub const DB_MIN: i16 = i16::MIN + 1;

    /// Maximum allowed decibel level in device units.
    pub const DB_MAX: i16 = i16::MAX;

    /// Special value corresponding to silence.
    pub const DB_SILENCE: i16 = i16::MIN;

    /// Builds a volume from device units, rejecting ranges the audio class
    /// specification forbids: a minimum below the representable floor or not
    /// below the maximum, and a current value outside `[min, max]` that is
    /// not the silence sentinel.
    pub fn new(min: i16, max: i16, cur: i16) -> (r: Result<UacVolume, DescError>)
        ensures
            (min >= max || min < Self::DB_MIN) <==> r == Result::<UacVolume, DescError>::Err(
                DescError::InvalidVolumeMin,
            ),
            !(min >= max || min < Self::DB_MIN) && (cur > max || (cur < min && cur
                != Self::DB_SILENCE)) <==> r == Result::<UacVolume, DescError>::Err(
                DescError::InvalidVolumeCur,
            ),
            r matches Ok(v) ==> v.spec_min() == min && v.spec_max() == max && v.spec_cur() == cur,
            r is Ok <==> !(min >= max || min < Self::DB_MIN) && !(cur > max || (cur < min && cur
                != Self::DB_SILENCE)),
    {
        if min >= max || min < Self::DB_MIN {
            Err(DescError::InvalidVolumeMin)
        } else if max <= min {
            Err(DescError::InvalidVolumeMax)
        } else if cur > max || (cur < min && cur != Self::DB_SILENCE) {
            Err(DescError::InvalidVolumeCur)
        } else {
            Ok(UacVolume { min, max, cur })
        }
    }

    /// The declared minimum, in device units.
    pub fn min_units(&self) -> (r: i16)
        ensures
            r == self.spec_min(),
    {
        self.min
    }

    /// The declared maximum, in device units.
    pub fn max_units(&self) -> (r: i16)
        ensures
            r == self.spec_max(),
    {
        self.max
    }

    /// True when the current volume is the special silence value.
    pub fn is_silent(&self) -> (r: bool)
        ensures
            r == (self.spec_cur() == Self::DB_SILENCE),
    {
        self.cur == Self::DB_SILENCE
    }
}


impl Clone for Uac1AcHeaderDescriptor {
    fn clone(&self) -> (res: Self)
        ensures
            res@ == self@,
    {
        let res = Uac1AcHeaderDescriptor {
            bcd_adc: self.bcd_adc,
            w_total_length: self.w_total_length,
            b_in_collection: self.b_in_collection,
            ba_interface_nr: self.ba_interface_nr.clone(),
        };
        proof {
            assert(res.ba_interface_nr@ =~= self.ba_interface_nr@);
            assert(res@ =~= self@);
        }
        res
    }
}


impl Clone for UacFeatureUnitDescriptor {
    fn clone(&self) -> (res: Self)
        ensures
            res@ == self@,
    {
        let res = UacFeatureUnitDescriptor {
            b_unit_id: self.b_unit_id,
            b_source_id: self.b_source_id,
            b_control_size: self.b_control_size,
            bma_controls: self.bma_controls.clone(),
        };
        proof {
            assert(res.bma_controls@ =~= self.bma_controls@);
            assert(res@ =~= self@);
        }
        res
    }
}


impl Clone for UacFormatTypeIContinuousDescriptor {
    fn clone(&self) -> (res: Self)
        ensures
            res@ == self@,
    {
        let res = UacFormatTypeIContinuousDescriptor {
            b_nr_channels: self.b_nr_channels,
            b_subframe_size: self.b_subframe_size,
            b_bit_resolution: self.b_bit_resolution,
            b_sam_freq_type: self.b_sam_freq_type,
            t_sam_freq: self.t_sam_freq.clone(),
        };
        proof {
            assert(res.t_sam_freq@ =~= self.t_sam_freq@);
            assert(res@ =~= self@);
        }
        res
    }
}


impl Clone for DescriptorUacInterfaceUnknown {
    fn clone(&self) -> (res: Self)
        ensures
            res@ == self@,
    {
        let res = DescriptorUacInterfaceUnknown {
            iface_subclass: self.iface_subclass,
            bytes: self.bytes.clone(),
        };
        proof {
            assert(res.bytes@ =~= self.bytes@);
            assert(res@ =~= self@);
        }
        res
    }
}


impl Clone for DescriptorUacFormatTypeUnknown {
    fn clone(&self) -> (res: Self)
        ensures
            res@ == self@,
    {
        let res = DescriptorUacFormatTypeUnknown {
            format_type: self.format_type,
            bytes: self.bytes.clone(),
        };
        proof {
            assert(res.bytes@ =~= self.bytes@);
            assert(res@ =~= self@);
        }
        res
    }
}

} // verus!
