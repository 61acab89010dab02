//! Generic USB descriptor records: record header, device, configuration,
//! interface, interface association, endpoints, companion descriptors, and
//! the opaque class-specific containers.
//!
//! Every record type carries an exact wire model: `wire()` is the full
//! little-endian byte image of the record (header included), `spec_parse`
//! reads the typed fields back out of a payload, and the executable codec is
//! proved against both.

use vstd::prelude::*;

use crate::bytes::le16;
use crate::bytes::le32;
use crate::bytes::read_u16_le;
use crate::bytes::read_u32_le;
use crate::bytes::push_u16_le;
use crate::bytes::push_u32_le;
use crate::bytes::push_bytes;
use crate::bytes::copy_range;
use crate::bytes::spec_u16_le;
use crate::bytes::spec_u32_le;
use crate::uac_proto::Uac1AcHeaderDescriptor;
use crate::uac_proto::Uac1AsHeaderDescriptor;
use crate::uac_proto::Uac1OutputTerminalDescriptor;
use crate::uac_proto::UacFeatureUnitDescriptor;
use crate::uac_proto::UacFormatTypeIContinuousDescriptor;
use crate::uac_proto::UacInputTerminalDescriptor;
use crate::uac_proto::UacIsoEndpointDescriptor;
use crate::uac_proto::DescriptorUacFormatTypeUnknown;
use crate::uac_proto::DescriptorUacInterfaceUnknown;
use crate::uvc_proto::DescriptorUvcFormatFrameBased;
use crate::uvc_proto::DescriptorUvcFormatMjpeg;
use crate::uvc_proto::DescriptorUvcFormatUncompressed;
use crate::uvc_proto::DescriptorUvcFrameFrameBased;
use crate::uvc_proto::DescriptorUvcFrameMjpeg;
use crate::uvc_proto::DescriptorUvcFrameUncompressed;
use crate::uvc_proto::DescriptorUvcInputHeader;
use crate::uvc_proto::DescriptorUvcVcInterfaceUnknown;
use crate::uvc_proto::DescriptorUvcVsInterfaceUnknown;
use crate::uvc_proto::UvcExtensionUnitDescriptor;
use crate::uvc_proto::UvcHeaderDescriptor;
use crate::uvc_proto::UvcInputTerminalDescriptor;
use crate::uvc_proto::UvcOutputTerminalDescriptor;
use crate::uvc_proto::UvcProcessingUnitDescriptor;

use crate::uac_proto::Uac1AcHeaderDescriptorV;
use crate::uac_proto::UacFeatureUnitDescriptorV;
use crate::uac_proto::UacFormatTypeIContinuousDescriptorV;
use crate::uac_proto::DescriptorUacFormatTypeUnknownV;
use crate::uac_proto::DescriptorUacInterfaceUnknownV;
use crate::uvc_proto::DescriptorUvcFrameFrameBasedV;
use crate::uvc_proto::DescriptorUvcFrameMjpegV;
use crate::uvc_proto::DescriptorUvcFrameUncompressedV;
use crate::uvc_proto::DescriptorUvcInputHeaderV;
use crate::uvc_proto::DescriptorUvcVcInterfaceUnknownV;
use crate::uvc_proto::DescriptorUvcVsInterfaceUnknownV;
use crate::uvc_proto::UvcExtensionUnitDescriptorV;
use crate::uvc_proto::UvcHeaderDescriptorV;
use crate::uvc_proto::UvcInputTerminalDescriptorV;
use crate::uvc_proto::UvcProcessingUnitDescriptorV;

verus! {

// Descriptor type codes (USB 2.0 section 9.4 and the class specifications).
pub const USB_DT_DEVICE: u8 = 0x01;
pub const USB_DT_CONFIG: u8 = 0x02;
pub const USB_DT_STRING: u8 = 0x03;
pub const USB_DT_INTERFACE: u8 = 0x04;
pub const USB_DT_ENDPOINT: u8 = 0x05;
pub const USB_DT_DEVICE_QUALIFIER: u8 = 0x06;
pub const USB_DT_INTERFACE_ASSOCIATION: u8 = 0x0b;
pub const USB_DT_CS_DEVICE: u8 = 0x21;
pub const USB_DT_CS_INTERFACE: u8 = 0x24;
pub const USB_DT_CS_ENDPOINT: u8 = 0x25;
pub const USB_DT_SS_EP_COMP: u8 = 0x30;
pub const USB_DT_SSP_ISOCH_EP_COMP: u8 = 0x31;

// Interface class codes.
pub const CLASS_AUDIO: u8 = 0x01;
pub const CLASS_HID: u8 = 0x03;
pub const CLASS_VIDEO: u8 = 0x0e;

// Endpoint address and attribute masks (USB 2.0 section 9.6.6).
pub const ENDPOINT_ADDRESS_MASK: u8 = 0x0f;
pub const ENDPOINT_DIR_MASK: u8 = 0x80;
pub const ENDPOINT_IN: u8 = 0x80;
pub const ENDPOINT_OUT: u8 = 0x00;
pub const TRANSFER_TYPE_MASK: u8 = 0x03;
pub const ISO_SYNC_TYPE_MASK: u8 = 0x0c;
pub const ISO_USAGE_TYPE_MASK: u8 = 0x30;

pub const USB_DIR_MASK: u8 = 0x80;
pub const USB_XFER_TYPE_MASK: u8 = 0x60;
pub const USB_RECIP_MASK: u8 = 0x1f;

pub const MERSIVE_VID: u16 = 0x326e;

/// Transfer direction of a control request.
#[derive(Debug, Clone, Copy, PartialEq, Eq, Structural)]
pub enum XferDir {
    ToDev,
    ToHost,
}

impl XferDir {
    pub open spec fn spec_code(self) -> u8 {
        match self {
            XferDir::ToDev => 0x00,
            XferDir::ToHost => 0x80,
        }
    }

    pub fn code(self) -> (r: u8)
        ensures
            r == self.spec_code(),
    {
        match self {
            XferDir::ToDev => 0x00,
            XferDir::ToHost => 0x80,
        }
    }
}

/// Kind of a control request.
#[derive(Debug, Clone, Copy, PartialEq, Eq, Structural)]
pub enum XferType {
    Std,
    Class,
    Vendor,
    Reserved,
}

impl XferType {
    pub open spec fn spec_code(self) -> u8 {
        match self {
            XferType::Std => 0x00,
            XferType::Class => 0x20,
            XferType::Vendor => 0x40,
            XferType::Reserved => 0x60,
        }
    }

    pub fn code(self) -> (r: u8)
        ensures
            r == self.spec_code(),
    {
        match self {
            XferType::Std => 0x00,
            XferType::Class => 0x20,
            XferType::Vendor => 0x40,
            XferType::Reserved => 0x60,
        }
    }
}

/// Recipient of a control request; values 4 and up are reserved.
#[derive(Debug, Clone, Copy, PartialEq, Eq, Structural)]
pub enum Recip {
    Dev,
    Iface,
    Ep,
    Other,
    Reserved,
}

impl Recip {
    pub open spec fn spec_code(self) -> u8 {
        match self {
            Recip::Dev => 0x00,
            Recip::Iface => 0x01,
            Recip::Ep => 0x02,
            Recip::Other => 0x03,
            Recip::Reserved => 0x04,
        }
    }

    pub fn code(self) -> (r: u8)
        ensures
            r == self.spec_code(),
    {
        match self {
            Recip::Dev => 0x00,
            Recip::Iface => 0x01,
            Recip::Ep => 0x02,
            Recip::Other => 0x03,
            Recip::Reserved => 0x04,
        }
    }
}

/// The descriptor type codes this library distinguishes at the top level.
#[derive(Debug, Clone, Copy, PartialEq, Eq, Structural)]
pub enum UsbDescriptorTypes {
    Device,
    Config,
    StringDesc,
    Interface,
    Endpoint,
    DeviceQualifier,
    InterfaceAssociation,
    CsDevice,
    CsInterface,
    CsEndpoint,
    SuperSpeedEpComp,
    SuperSpeedPlusIsochEpComp,
}

impl UsbDescriptorTypes {
    pub open spec fn spec_code(self) -> u8 {
        match self {
            UsbDescriptorTypes::Device => USB_DT_DEVICE,
            UsbDescriptorTypes::Config => USB_DT_CONFIG,
            UsbDescriptorTypes::StringDesc => USB_DT_STRING,
            UsbDescriptorTypes::Interface => USB_DT_INTERFACE,
            UsbDescriptorTypes::Endpoint => USB_DT_ENDPOINT,
            UsbDescriptorTypes::DeviceQualifier => USB_DT_DEVICE_QUALIFIER,
            UsbDescriptorTypes::InterfaceAssociation => USB_DT_INTERFACE_ASSOCIATION,
            UsbDescriptorTypes::CsDevice => USB_DT_CS_DEVICE,
            UsbDescriptorTypes::CsInterface => USB_DT_CS_INTERFACE,
            UsbDescriptorTypes::CsEndpoint => USB_DT_CS_ENDPOINT,
            UsbDescriptorTypes::SuperSpeedEpComp => USB_DT_SS_EP_COMP,
            UsbDescriptorTypes::SuperSpeedPlusIsochEpComp => USB_DT_SSP_ISOCH_EP_COMP,
        }
    }

    pub fn code(self) -> (r: u8)
        ensures
            r == self.spec_code(),
    {
        match self {
            UsbDescriptorTypes::Device => USB_DT_DEVICE,
            UsbDescriptorTypes::Config => USB_DT_CONFIG,
            UsbDescriptorTypes::StringDesc => USB_DT_STRING,
            UsbDescriptorTypes::Interface => USB_DT_INTERFACE,
            UsbDescriptorTypes::Endpoint => USB_DT_ENDPOINT,
            UsbDescriptorTypes::DeviceQualifier => USB_DT_DEVICE_QUALIFIER,
            UsbDescriptorTypes::InterfaceAssociation => USB_DT_INTERFACE_ASSOCIATION,
            UsbDescriptorTypes::CsDevice => USB_DT_CS_DEVICE,
            UsbDescriptorTypes::CsInterface => USB_DT_CS_INTERFACE,
            UsbDescriptorTypes::CsEndpoint => USB_DT_CS_ENDPOINT,
            UsbDescriptorTypes::SuperSpeedEpComp => USB_DT_SS_EP_COMP,
            UsbDescriptorTypes::SuperSpeedPlusIsochEpComp => USB_DT_SSP_ISOCH_EP_COMP,
        }
    }
}

/// A USB device address: bus number and device number.
#[derive(Debug, Clone, Copy, Eq, Hash, PartialEq, Structural)]
pub struct DeviceAddress {
    pub bus: u8,
    pub num: u8,
}

impl DeviceAddress {
    pub fn new(bus: u8, num: u8) -> (r: DeviceAddress)
        ensures
            r.bus == bus,
            r.num == num,
    {
        DeviceAddress { bus, num }
    }
}

/// A USB interface address: bus, device number and interface number.
#[derive(Debug, Clone, Copy, Eq, Hash, PartialEq, Structural)]
pub struct InterfaceAddress {
    pub bus: u8,
    pub num: u8,
    pub iface: u8,
}

impl InterfaceAddress {
    pub fn new(bus: u8, num: u8, iface: u8) -> (r: InterfaceAddress)
        ensures
            r.bus == bus,
            r.num == num,
            r.iface == iface,
    {
        InterfaceAddress { bus, num, iface }
    }
}

/// A USB endpoint address: bus, device number and endpoint byte.
#[derive(Debug, Clone, Copy, Eq, Hash, PartialEq, Structural)]
pub struct EndpointAddress {
    pub bus: u8,
    pub num: u8,
    pub ep: u8,
}

impl EndpointAddress {
    pub fn new(bus: u8, num: u8, ep: u8) -> (r: EndpointAddress)
        ensures
            r.bus == bus,
            r.num == num,
            r.ep == ep,
    {
        EndpointAddress { bus, num, ep }
    }

    pub fn invalid() -> (r: EndpointAddress)
        ensures
            r.bus == 0,
            r.num == 0,
            r.ep == 0,
    {
        EndpointAddress::new(0, 0, 0)
    }

    /// The endpoint number without the direction bit.
    pub fn ep_addr(&self) -> (r: u8)
        ensures
            r == self.ep & ENDPOINT_ADDRESS_MASK,
    {
        self.ep & ENDPOINT_ADDRESS_MASK
    }

    /// The direction bit of the endpoint byte.
    pub fn dir(&self) -> (r: u8)
        ensures
            r == self.ep & ENDPOINT_DIR_MASK,
    {
        self.ep & ENDPOINT_DIR_MASK
    }

    /// Human-readable direction name.
    pub fn dir_name(&self) -> (r: String)
        ensures
            self.ep & ENDPOINT_DIR_MASK == ENDPOINT_IN ==> r@ == "IN"@,
            self.ep & ENDPOINT_DIR_MASK != ENDPOINT_IN ==> r@ == "OUT"@,
    {
        if self.dir() == ENDPOINT_IN {
            "IN".to_string()
        } else {
            "OUT".to_string()
        }
    }
}

/// An interface number together with one of its alternate settings.
#[derive(Debug, Clone, Copy, Eq, Hash, PartialEq, Structural)]
pub struct IfaceAltSetting {
    pub iface: u8,
    pub alt: u8,
}

impl IfaceAltSetting {
    pub fn new(iface: u8, alt_setting: u8) -> (r: IfaceAltSetting)
        ensures
            r.iface == iface,
            r.alt == alt_setting,
    {
        IfaceAltSetting { iface, alt: alt_setting }
    }

    pub fn invalid() -> (r: IfaceAltSetting)
        ensures
            r.iface == 0,
            r.alt == 0,
    {
        IfaceAltSetting::new(0, 0)
    }
}

/// The universal two-byte record header `{bLength, bDescriptorType}`.
#[derive(Debug, Clone, Copy, PartialEq, Eq, Structural)]
pub struct UsbDescriptorHeader {
    pub b_length: u8,
    pub b_descriptor_type: u8,
}

impl UsbDescriptorHeader {
    pub fn deserialize(data: &[u8]) -> (r: UsbDescriptorHeader)
        requires
            data@.len() >= 2,
        ensures
            r.b_length == data@[0],
            r.b_descriptor_type == data@[1],
    {
        UsbDescriptorHeader { b_length: data[0], b_descriptor_type: data[1] }
    }
}

/// A record of a descriptor type the library does not model; its payload is
/// kept verbatim so it re-serializes byte-identically.
#[derive(Debug)]
#[verifier::ext_equal]
pub struct DescriptorUnknown {
    pub desc_type: u8,
    pub bytes: Vec<u8>,
}


/// The mathematical view of [`DescriptorUnknown`]: the same fields with
/// sequences in place of vectors.
#[verifier::ext_equal]
pub ghost struct DescriptorUnknownV {
    pub desc_type: u8,
    pub bytes: Seq<u8>,
}

impl View for DescriptorUnknown {
    type V = DescriptorUnknownV;

    open spec fn view(&self) -> DescriptorUnknownV {
        DescriptorUnknownV {
            desc_type: self.desc_type,
            bytes: self.bytes@,
        }
    }
}

impl DescriptorUnknownV {
    pub open spec fn wf(self) -> bool {
        self.bytes.len() <= 253
    }

    pub open spec fn wire(self) -> Seq<u8> {
        seq![(self.bytes.len() + 2) as u8, self.desc_type] + self.bytes
    }
}

impl DescriptorUnknown {


    pub fn serialize(&self, buffer: &mut Vec<u8>)
        requires
            self@.wf(),
        ensures
            final(buffer)@ == old(buffer)@ + self@.wire(),
    {
        buffer.push(self.bytes.len() as u8 + 2);
        buffer.push(self.desc_type);
        push_bytes(buffer, &self.bytes);
        assert(buffer@ =~= old(buffer)@ + self@.wire());
    }
}

/// An opaque class-specific device record.
#[derive(Debug)]
#[verifier::ext_equal]
pub struct DescriptorCsDevice {
    pub bytes: Vec<u8>,
}


/// The mathematical view of [`DescriptorCsDevice`]: the same fields with
/// sequences in place of vectors.
#[verifier::ext_equal]
pub ghost struct DescriptorCsDeviceV {
    pub bytes: Seq<u8>,
}

impl View for DescriptorCsDevice {
    type V = DescriptorCsDeviceV;

    open spec fn view(&self) -> DescriptorCsDeviceV {
        DescriptorCsDeviceV {
            bytes: self.bytes@,
        }
    }
}

impl DescriptorCsDeviceV {
    pub open spec fn wf(self) -> bool {
        self.bytes.len() <= 253
    }

    pub open spec fn wire(self) -> Seq<u8> {
        seq![(self.bytes.len() + 2) as u8, USB_DT_CS_DEVICE] + self.bytes
    }
}

impl DescriptorCsDevice {


    pub fn serialize(&self, buffer: &mut Vec<u8>)
        requires
            self@.wf(),
        ensures
            final(buffer)@ == old(buffer)@ + self@.wire(),
    {
        buffer.push(self.bytes.len() as u8 + 2);
        buffer.push(USB_DT_CS_DEVICE);
        push_bytes(buffer, &self.bytes);
        assert(buffer@ =~= old(buffer)@ + self@.wire());
    }
}

/// An opaque class-specific interface record (unrecognized class context).
#[derive(Debug)]
#[verifier::ext_equal]
pub struct DescriptorCsInterface {
    pub bytes: Vec<u8>,
}


/// The mathematical view of [`DescriptorCsInterface`]: the same fields with
/// sequences in place of vectors.
#[verifier::ext_equal]
pub ghost struct DescriptorCsInterfaceV {
    pub bytes: Seq<u8>,
}

impl View for DescriptorCsInterface {
    type V = DescriptorCsInterfaceV;

    open spec fn view(&self) -> DescriptorCsInterfaceV {
        DescriptorCsInterfaceV {
            bytes: self.bytes@,
        }
    }
}

impl DescriptorCsInterfaceV {
    pub open spec fn wf(self) -> bool {
        self.bytes.len() <= 253
    }

    pub open spec fn wire(self) -> Seq<u8> {
        seq![(self.bytes.len() + 2) as u8, USB_DT_CS_INTERFACE] + self.bytes
    }
}

impl DescriptorCsInterface {


    pub fn serialize(&self, buffer: &mut Vec<u8>)
        requires
            self@.wf(),
        ensures
            final(buffer)@ == old(buffer)@ + self@.wire(),
    {
        buffer.push(self.bytes.len() as u8 + 2);
        buffer.push(USB_DT_CS_INTERFACE);
        push_bytes(buffer, &self.bytes);
        assert(buffer@ =~= old(buffer)@ + self@.wire());
    }
}

/// An opaque class-specific endpoint record (unrecognized class context).
#[derive(Debug)]
#[verifier::ext_equal]
pub struct DescriptorCsEndpoint {
    pub bytes: Vec<u8>,
}


/// The mathematical view of [`DescriptorCsEndpoint`]: the same fields with
/// sequences in place of vectors.
#[verifier::ext_equal]
pub ghost struct DescriptorCsEndpointV {
    pub bytes: Seq<u8>,
}

impl View for DescriptorCsEndpoint {
    type V = DescriptorCsEndpointV;

    open spec fn view(&self) -> DescriptorCsEndpointV {
        DescriptorCsEndpointV {
            bytes: self.bytes@,
        }
    }
}

impl DescriptorCsEndpointV {
    pub open spec fn wf(self) -> bool {
        self.bytes.len() <= 253
    }

    pub open spec fn wire(self) -> Seq<u8> {
        seq![(self.bytes.len() + 2) as u8, USB_DT_CS_ENDPOINT] + self.bytes
    }
}

impl DescriptorCsEndpoint {


    pub fn serialize(&self, buffer: &mut Vec<u8>)
        requires
            self@.wf(),
        ensures
            final(buffer)@ == old(buffer)@ + self@.wire(),
    {
        buffer.push(self.bytes.len() as u8 + 2);
        buffer.push(USB_DT_CS_ENDPOINT);
        push_bytes(buffer, &self.bytes);
        assert(buffer@ =~= old(buffer)@ + self@.wire());
    }
}

/// The standard device descriptor.
#[derive(Debug, Clone, Copy, PartialEq, Eq, Structural)]
pub struct DescriptorDevice {
    pub bcd_usb: u16,
    pub b_device_class: u8,
    pub b_device_sub_class: u8,
    pub b_device_protocol: u8,
    pub b_max_packet_size0: u8,
    pub id_vendor: u16,
    pub id_product: u16,
    pub bcd_device: u16,
    pub i_manufacturer: u8,
    pub i_product: u8,
    pub i_serial_number: u8,
    pub b_num_configurations: u8,
}

impl View for DescriptorDevice {
    type V = DescriptorDevice;

    open spec fn view(&self) -> DescriptorDevice {
        *self
    }
}

impl DescriptorDevice {
    pub open spec fn wire(self) -> Seq<u8> {
        seq![18u8, USB_DT_DEVICE] + le16(self.bcd_usb) + seq![
            self.b_device_class,
            self.b_device_sub_class,
            self.b_device_protocol,
            self.b_max_packet_size0,
        ] + le16(self.id_vendor) + le16(self.id_product) + le16(self.bcd_device) + seq![
            self.i_manufacturer,
            self.i_product,
            self.i_serial_number,
            self.b_num_configurations,
        ]
    }

    pub open spec fn spec_parse(d: Seq<u8>) -> DescriptorDevice {
        DescriptorDevice {
            bcd_usb: spec_u16_le(d[0], d[1]),
            b_device_class: d[2],
            b_device_sub_class: d[3],
            b_device_protocol: d[4],
            b_max_packet_size0: d[5],
            id_vendor: spec_u16_le(d[6], d[7]),
            id_product: spec_u16_le(d[8], d[9]),
            bcd_device: spec_u16_le(d[10], d[11]),
            i_manufacturer: d[12],
            i_product: d[13],
            i_serial_number: d[14],
            b_num_configurations: d[15],
        }
    }

    pub fn serialize(&self, buffer: &mut Vec<u8>)
        ensures
            final(buffer)@ == old(buffer)@ + self@.wire(),
    {
        buffer.push(18);
        buffer.push(USB_DT_DEVICE);
        push_u16_le(buffer, self.bcd_usb);
        buffer.push(self.b_device_class);
        buffer.push(self.b_device_sub_class);
        buffer.push(self.b_device_protocol);
        buffer.push(self.b_max_packet_size0);
        push_u16_le(buffer, self.id_vendor);
        push_u16_le(buffer, self.id_product);
        push_u16_le(buffer, self.bcd_device);
        buffer.push(self.i_manufacturer);
        buffer.push(self.i_product);
        buffer.push(self.i_serial_number);
        buffer.push(self.b_num_configurations);
        assert(buffer@ =~= old(buffer)@ + self@.wire());
    }

    pub fn deserialize(data: &[u8]) -> (r: DescriptorDevice)
        requires
            data@.len() >= 16,
        ensures
            r == Self::spec_parse(data@),
    {
        DescriptorDevice {
            bcd_usb: read_u16_le(data, 0),
            b_device_class: data[2],
            b_device_sub_class: data[3],
            b_device_protocol: data[4],
            b_max_packet_size0: data[5],
            id_vendor: read_u16_le(data, 6),
            id_product: read_u16_le(data, 8),
            bcd_device: read_u16_le(data, 10),
            i_manufacturer: data[12],
            i_product: data[13],
            i_serial_number: data[14],
            b_num_configurations: data[15],
        }
    }
}

/// The device qualifier descriptor.
#[derive(Debug, Clone, Copy, PartialEq, Eq, Structural)]
pub struct DescriptorDevQualifier {
    pub bcd_usb: u16,
    pub b_device_class: u8,
    pub b_device_sub_class: u8,
    pub b_device_protocol: u8,
    pub b_max_packet_size0: u8,
    pub b_num_configurations: u8,
    pub b_reserved: u8,
}

impl View for DescriptorDevQualifier {
    type V = DescriptorDevQualifier;

    open spec fn view(&self) -> DescriptorDevQualifier {
        *self
    }
}

impl DescriptorDevQualifier {
    pub open spec fn wire(self) -> Seq<u8> {
        seq![10u8, USB_DT_DEVICE_QUALIFIER] + le16(self.bcd_usb) + seq![
            self.b_device_class,
            self.b_device_sub_class,
            self.b_device_protocol,
            self.b_max_packet_size0,
            self.b_num_configurations,
            self.b_reserved,
        ]
    }

    pub open spec fn spec_parse(d: Seq<u8>) -> DescriptorDevQualifier {
        DescriptorDevQualifier {
            bcd_usb: spec_u16_le(d[0], d[1]),
            b_device_class: d[2],
            b_device_sub_class: d[3],
            b_device_protocol: d[4],
            b_max_packet_size0: d[5],
            b_num_configurations: d[6],
            b_reserved: d[7],
        }
    }

    pub fn serialize(&self, buffer: &mut Vec<u8>)
        ensures
            final(buffer)@ == old(buffer)@ + self@.wire(),
    {
        buffer.push(10);
        buffer.push(USB_DT_DEVICE_QUALIFIER);
        push_u16_le(buffer, self.bcd_usb);
        buffer.push(self.b_device_class);
        buffer.push(self.b_device_sub_class);
        buffer.push(self.b_device_protocol);
        buffer.push(self.b_max_packet_size0);
        buffer.push(self.b_num_configurations);
        buffer.push(self.b_reserved);
        assert(buffer@ =~= old(buffer)@ + self@.wire());
    }

    pub fn deserialize(data: &[u8]) -> (r: DescriptorDevQualifier)
        requires
            data@.len() >= 8,
        ensures
            r == Self::spec_parse(data@),
    {
        DescriptorDevQualifier {
            bcd_usb: read_u16_le(data, 0),
            b_device_class: data[2],
            b_device_sub_class: data[3],
            b_device_protocol: data[4],
            b_max_packet_size0: data[5],
            b_num_configurations: data[6],
            b_reserved: data[7],
        }
    }
}

/// The configuration descriptor header record.
#[derive(Debug, Clone, Copy, PartialEq, Eq, Structural)]
pub struct DescriptorConfig {
    pub w_total_length: u16,
    pub b_num_interfaces: u8,
    pub b_configuration_value: u8,
    pub i_configuration: u8,
    pub bm_attributes: u8,
    pub b_max_power: u8,
}

impl View for DescriptorConfig {
    type V = DescriptorConfig;

    open spec fn view(&self) -> DescriptorConfig {
        *self
    }
}

impl DescriptorConfig {
    pub open spec fn wire(self) -> Seq<u8> {
        seq![9u8, USB_DT_CONFIG] + le16(self.w_total_length) + seq![
            self.b_num_interfaces,
            self.b_configuration_value,
            self.i_configuration,
            self.bm_attributes,
            self.b_max_power,
        ]
    }

    pub open spec fn spec_parse(d: Seq<u8>) -> DescriptorConfig {
        DescriptorConfig {
            w_total_length: spec_u16_le(d[0], d[1]),
            b_num_interfaces: d[2],
            b_configuration_value: d[3],
            i_configuration: d[4],
            bm_attributes: d[5],
            b_max_power: d[6],
        }
    }

    pub fn serialize(&self, buffer: &mut Vec<u8>)
        ensures
            final(buffer)@ == old(buffer)@ + self@.wire(),
    {
        buffer.push(9);
        buffer.push(USB_DT_CONFIG);
        push_u16_le(buffer, self.w_total_length);
        buffer.push(self.b_num_interfaces);
        buffer.push(self.b_configuration_value);
        buffer.push(self.i_configuration);
        buffer.push(self.bm_attributes);
        buffer.push(self.b_max_power);
        assert(buffer@ =~= old(buffer)@ + self@.wire());
    }

    pub fn deserialize(data: &[u8]) -> (r: DescriptorConfig)
        requires
            data@.len() >= 7,
        ensures
            r == Self::spec_parse(data@),
    {
        DescriptorConfig {
            w_total_length: read_u16_le(data, 0),
            b_num_interfaces: data[2],
            b_configuration_value: data[3],
            i_configuration: data[4],
            bm_attributes: data[5],
            b_max_power: data[6],
        }
    }
}

/// The standard interface descriptor (one alternate setting).
#[derive(Debug, Clone, Copy, PartialEq, Eq, Structural)]
pub struct DescriptorInterface {
    pub b_interface_number: u8,
    pub b_alternate_setting: u8,
    pub b_num_endpoints: u8,
    pub b_interface_class: u8,
    pub b_interface_sub_class: u8,
    pub b_interface_protocol: u8,
    pub i_interface: u8,
}

impl View for DescriptorInterface {
    type V = DescriptorInterface;

    open spec fn view(&self) -> DescriptorInterface {
        *self
    }
}

impl DescriptorInterface {
    pub open spec fn spec_is_audio(self) -> bool {
        self.b_interface_class == CLASS_AUDIO
    }

    pub open spec fn spec_is_audio_control(self) -> bool {
        self.spec_is_audio() && self.b_interface_sub_class == 0x01
    }

    pub open spec fn spec_is_audio_streaming(self) -> bool {
        self.spec_is_audio() && self.b_interface_sub_class == 0x02
    }

    pub open spec fn spec_is_video_streaming(self) -> bool {
        self.b_interface_class == CLASS_VIDEO && self.b_interface_sub_class == 0x02
    }

    pub fn is_audio(&self) -> (r: bool)
        ensures
            r == self.spec_is_audio(),
    {
        self.b_interface_class == CLASS_AUDIO
    }

    pub fn is_audio_control(&self) -> (r: bool)
        ensures
            r == self.spec_is_audio_control(),
    {
        self.is_audio() && self.b_interface_sub_class == 0x01
    }

    pub fn is_audio_streaming(&self) -> (r: bool)
        ensures
            r == self.spec_is_audio_streaming(),
    {
        self.is_audio() && self.b_interface_sub_class == 0x02
    }

    pub fn is_video_streaming(&self) -> (r: bool)
        ensures
            r == self.spec_is_video_streaming(),
    {
        self.b_interface_class == CLASS_VIDEO && self.b_interface_sub_class == 0x02
    }

    pub open spec fn wire(self) -> Seq<u8> {
        seq![
            9u8,
            USB_DT_INTERFACE,
            self.b_interface_number,
            self.b_alternate_setting,
            self.b_num_endpoints,
            self.b_interface_class,
            self.b_interface_sub_class,
            self.b_interface_protocol,
            self.i_interface,
        ]
    }

    pub open spec fn spec_parse(d: Seq<u8>) -> DescriptorInterface {
        DescriptorInterface {
            b_interface_number: d[0],
            b_alternate_setting: d[1],
            b_num_endpoints: d[2],
            b_interface_class: d[3],
            b_interface_sub_class: d[4],
            b_interface_protocol: d[5],
            i_interface: d[6],
        }
    }

    pub fn serialize(&self, buffer: &mut Vec<u8>)
        ensures
            final(buffer)@ == old(buffer)@ + self@.wire(),
    {
        buffer.push(9);
        buffer.push(USB_DT_INTERFACE);
        buffer.push(self.b_interface_number);
        buffer.push(self.b_alternate_setting);
        buffer.push(self.b_num_endpoints);
        buffer.push(self.b_interface_class);
        buffer.push(self.b_interface_sub_class);
        buffer.push(self.b_interface_protocol);
        buffer.push(self.i_interface);
        assert(buffer@ =~= old(buffer)@ + self@.wire());
    }

    pub fn deserialize(data: &[u8]) -> (r: DescriptorInterface)
        requires
            data@.len() >= 7,
        ensures
            r == Self::spec_parse(data@),
    {
        DescriptorInterface {
            b_interface_number: data[0],
            b_alternate_setting: data[1],
            b_num_endpoints: data[2],
            b_interface_class: data[3],
            b_interface_sub_class: data[4],
            b_interface_protocol: data[5],
            i_interface: data[6],
        }
    }
}

/// The interface association descriptor: groups a run of interfaces.
#[derive(Debug, Clone, Copy, PartialEq, Eq, Structural)]
pub struct UsbInterfaceAssocDescriptor {
    pub b_first_interface: u8,
    pub b_interface_count: u8,
    pub b_function_class: u8,
    pub b_function_sub_class: u8,
    pub b_function_protocol: u8,
    pub i_function: u8,
}

impl View for UsbInterfaceAssocDescriptor {
    type V = UsbInterfaceAssocDescriptor;

    open spec fn view(&self) -> UsbInterfaceAssocDescriptor {
        *self
    }
}

impl UsbInterfaceAssocDescriptor {
    pub open spec fn wire(self) -> Seq<u8> {
        seq![
            8u8,
            USB_DT_INTERFACE_ASSOCIATION,
            self.b_first_interface,
            self.b_interface_count,
            self.b_function_class,
            self.b_function_sub_class,
            self.b_function_protocol,
            self.i_function,
        ]
    }

    pub open spec fn spec_parse(d: Seq<u8>) -> UsbInterfaceAssocDescriptor {
        UsbInterfaceAssocDescriptor {
            b_first_interface: d[0],
            b_interface_count: d[1],
            b_function_class: d[2],
            b_function_sub_class: d[3],
            b_function_protocol: d[4],
            i_function: d[5],
        }
    }

    pub fn serialize(&self, buffer: &mut Vec<u8>)
        ensures
            final(buffer)@ == old(buffer)@ + self@.wire(),
    {
        buffer.push(8);
        buffer.push(USB_DT_INTERFACE_ASSOCIATION);
        buffer.push(self.b_first_interface);
        buffer.push(self.b_interface_count);
        buffer.push(self.b_function_class);
        buffer.push(self.b_function_sub_class);
        buffer.push(self.b_function_protocol);
        buffer.push(self.i_function);
        assert(buffer@ =~= old(buffer)@ + self@.wire());
    }

    pub fn deserialize(data: &[u8]) -> (r: UsbInterfaceAssocDescriptor)
        requires
            data@.len() >= 6,
        ensures
            r == Self::spec_parse(data@),
    {
        UsbInterfaceAssocDescriptor {
            b_first_interface: data[0],
            b_interface_count: data[1],
            b_function_class: data[2],
            b_function_sub_class: data[3],
            b_function_protocol: data[4],
            i_function: data[5],
        }
    }

    /// Whether interface number `id` lies in the association's range
    /// `[bFirstInterface, bFirstInterface + bInterfaceCount - 1]`.
    pub open spec fn spec_covers(self, id: u8) -> bool {
        self.b_first_interface <= id && id + 1 <= self.b_first_interface + self.b_interface_count
    }

    pub fn covers(&self, id: u8) -> (r: bool)
        ensures
            r == self.spec_covers(id),
    {
        self.b_first_interface <= id && id as u16 + 1 <= self.b_first_interface as u16
            + self.b_interface_count as u16
    }

    /// The number of the last interface in the association's range.
    pub fn last_iface(&self) -> (r: u8)
        requires
            1 <= self.b_interface_count,
            self.b_first_interface + self.b_interface_count <= 256,
        ensures
            r == self.b_first_interface + self.b_interface_count - 1,
    {
        self.b_first_interface + (self.b_interface_count - 1)
    }
}

/// Transfer type read from an endpoint's `bmAttributes`.
#[derive(Debug, Clone, Copy, PartialEq, Eq, Structural)]
pub enum DescriptorTransferType {
    Control,
    Isochronous,
    Bulk,
    Interrupt,
    BulkStream,
    Invalid,
}

/// Isochronous synchronization type read from an endpoint's `bmAttributes`.
#[derive(Debug, Clone, Copy, PartialEq, Eq, Structural)]
pub enum SynchType {
    NoSynch,
    Asynchronous,
    Adaptive,
    Synchronous,
    Invalid,
}

/// Isochronous usage type read from an endpoint's `bmAttributes`.
#[derive(Debug, Clone, Copy, PartialEq, Eq, Structural)]
pub enum UsageType {
    Data,
    Feedback,
    Implicit,
    Invalid,
}

/// SuperSpeed endpoint companion descriptor.
#[derive(Debug, Clone, Copy, PartialEq, Eq, Structural)]
pub struct UsbSsEpCompDescriptor {
    pub b_max_burst: u8,
    pub bm_attributes: u8,
    pub w_bytes_per_interval: u16,
}

impl View for UsbSsEpCompDescriptor {
    type V = UsbSsEpCompDescriptor;

    open spec fn view(&self) -> UsbSsEpCompDescriptor {
        *self
    }
}

impl UsbSsEpCompDescriptor {
    pub open spec fn wire(self) -> Seq<u8> {
        seq![6u8, USB_DT_SS_EP_COMP, self.b_max_burst, self.bm_attributes] + le16(
            self.w_bytes_per_interval,
        )
    }

    pub open spec fn spec_parse(d: Seq<u8>) -> UsbSsEpCompDescriptor {
        UsbSsEpCompDescriptor {
            b_max_burst: d[0],
            bm_attributes: d[1],
            w_bytes_per_interval: spec_u16_le(d[2], d[3]),
        }
    }

    pub fn serialize(&self, buffer: &mut Vec<u8>)
        ensures
            final(buffer)@ == old(buffer)@ + self@.wire(),
    {
        buffer.push(6);
        buffer.push(USB_DT_SS_EP_COMP);
        buffer.push(self.b_max_burst);
        buffer.push(self.bm_attributes);
        push_u16_le(buffer, self.w_bytes_per_interval);
        assert(buffer@ =~= old(buffer)@ + self@.wire());
    }

    pub fn deserialize(data: &[u8]) -> (r: UsbSsEpCompDescriptor)
        requires
            data@.len() >= 4,
        ensures
            r == Self::spec_parse(data@),
    {
        UsbSsEpCompDescriptor {
            b_max_burst: data[0],
            bm_attributes: data[1],
            w_bytes_per_interval: read_u16_le(data, 2),
        }
    }

    pub fn size(&self) -> (r: usize)
        ensures
            r == self@.wire().len(),
    {
        6
    }

    /// Bursts per transaction; the field stores the value minus one.
    pub fn max_burst(&self) -> (r: u8)
        requires
            self.b_max_burst < 255,
        ensures
            r == self.b_max_burst + 1,
    {
        self.b_max_burst + 1
    }

    /// Packets per service interval; the field stores the value minus one.
    pub fn mult(&self) -> (r: u8)
        ensures
            r == (self.bm_attributes & 0x03) + 1,
    {
        let a = self.bm_attributes;
        assert(a & 0x03 < 4) by (bit_vector);
        (a & 0x03) + 1
    }
}

/// SuperSpeedPlus isochronous endpoint companion descriptor.
#[derive(Debug, Clone, Copy, PartialEq, Eq, Structural)]
pub struct UsbSspIsochEpCompDescriptor {
    pub w_reserved: u16,
    pub dw_bytes_per_interval: u32,
}

impl View for UsbSspIsochEpCompDescriptor {
    type V = UsbSspIsochEpCompDescriptor;

    open spec fn view(&self) -> UsbSspIsochEpCompDescriptor {
        *self
    }
}

impl UsbSspIsochEpCompDescriptor {
    pub open spec fn wire(self) -> Seq<u8> {
        seq![8u8, USB_DT_SSP_ISOCH_EP_COMP] + le16(self.w_reserved) + le32(
            self.dw_bytes_per_interval,
        )
    }

    pub open spec fn spec_parse(d: Seq<u8>) -> UsbSspIsochEpCompDescriptor {
        UsbSspIsochEpCompDescriptor {
            w_reserved: spec_u16_le(d[0], d[1]),
            dw_bytes_per_interval: spec_u32_le(d[2], d[3], d[4], d[5]),
        }
    }

    pub fn serialize(&self, buffer: &mut Vec<u8>)
        ensures
            final(buffer)@ == old(buffer)@ + self@.wire(),
    {
        buffer.push(8);
        buffer.push(USB_DT_SSP_ISOCH_EP_COMP);
        push_u16_le(buffer, self.w_reserved);
        push_u32_le(buffer, self.dw_bytes_per_interval);
        assert(buffer@ =~= old(buffer)@ + self@.wire());
    }

    pub fn deserialize(data: &[u8]) -> (r: UsbSspIsochEpCompDescriptor)
        requires
            data@.len() >= 6,
        ensures
            r == Self::spec_parse(data@),
    {
        UsbSspIsochEpCompDescriptor {
            w_reserved: read_u16_le(data, 0),
            dw_bytes_per_interval: read_u32_le(data, 2),
        }
    }

    pub fn size(&self) -> (r: usize)
        ensures
            r == self@.wire().len(),
    {
        8
    }
}

/// Transfer type bits for composing an endpoint's `bmAttributes`.
#[derive(Debug, Clone, Copy, PartialEq, Eq, Structural)]
pub enum EndpointAttrTransferType {
    Control,
    Isochronous,
    Bulk,
    Interrupt,
}

impl EndpointAttrTransferType {
    pub open spec fn spec_code(self) -> u8 {
        match self {
            EndpointAttrTransferType::Control => 0x00,
            EndpointAttrTransferType::Isochronous => 0x01,
            EndpointAttrTransferType::Bulk => 0x02,
            EndpointAttrTransferType::Interrupt => 0x03,
        }
    }

    pub fn code(self) -> (r: u8)
        ensures
            r == self.spec_code(),
    {
        match self {
            EndpointAttrTransferType::Control => 0x00,
            EndpointAttrTransferType::Isochronous => 0x01,
            EndpointAttrTransferType::Bulk => 0x02,
            EndpointAttrTransferType::Interrupt => 0x03,
        }
    }
}

/// Synchronization bits for composing an endpoint's `bmAttributes`.
#[derive(Debug, Clone, Copy, PartialEq, Eq, Structural)]
pub enum EndpointAttrSyncType {
    NoSync,
    Async,
    Adapt,
    Sync,
}

impl EndpointAttrSyncType {
    pub open spec fn spec_code(self) -> u8 {
        match self {
            EndpointAttrSyncType::NoSync => 0x00,
            EndpointAttrSyncType::Async => 0x01,
            EndpointAttrSyncType::Adapt => 0x02,
            EndpointAttrSyncType::Sync => 0x03,
        }
    }

    pub fn code(self) -> (r: u8)
        ensures
            r == self.spec_code(),
    {
        match self {
            EndpointAttrSyncType::NoSync => 0x00,
            EndpointAttrSyncType::Async => 0x01,
            EndpointAttrSyncType::Adapt => 0x02,
            EndpointAttrSyncType::Sync => 0x03,
        }
    }
}

/// Usage bits for composing an endpoint's `bmAttributes`.
#[derive(Debug, Clone, Copy, PartialEq, Eq, Structural)]
pub enum EndpointAttrUsageType {
    Data,
    Feedback,
    Implicit,
    Reserved,
}

impl EndpointAttrUsageType {
    pub open spec fn spec_code(self) -> u8 {
        match self {
            EndpointAttrUsageType::Data => 0x00,
            EndpointAttrUsageType::Feedback => 0x01,
            EndpointAttrUsageType::Implicit => 0x02,
            EndpointAttrUsageType::Reserved => 0x03,
        }
    }

    pub fn code(self) -> (r: u8)
        ensures
            r == self.spec_code(),
    {
        match self {
            EndpointAttrUsageType::Data => 0x00,
            EndpointAttrUsageType::Feedback => 0x01,
            EndpointAttrUsageType::Implicit => 0x02,
            EndpointAttrUsageType::Reserved => 0x03,
        }
    }
}

/// Packs transfer, synchronization and usage bits into one attribute byte.
pub fn ep_attr_to_u8(
    transfer: EndpointAttrTransferType,
    sync: EndpointAttrSyncType,
    usage: EndpointAttrUsageType,
) -> (r: u8)
    ensures
        r == transfer.spec_code() | (sync.spec_code() << 2) | (usage.spec_code() << 4),
{
    let t = transfer.code();
    let s = sync.code();
    let u = usage.code();
    t | (s << 2) | (u << 4)
}

/// The 9-byte audio-class endpoint descriptor, a standard endpoint plus
/// `bRefresh` and `bSynchAddress`.
#[derive(Debug, Clone, Copy, PartialEq, Eq, Structural)]
pub struct UacDescriptorEndpoint {
    pub b_endpoint_address: u8,
    pub bm_attributes: u8,
    pub w_max_packet_size: u16,
    pub b_interval: u8,
    pub b_refresh: u8,
    pub b_synch_address: u8,
}

impl View for UacDescriptorEndpoint {
    type V = UacDescriptorEndpoint;

    open spec fn view(&self) -> UacDescriptorEndpoint {
        *self
    }
}

impl UacDescriptorEndpoint {
    pub open spec fn wire(self) -> Seq<u8> {
        seq![9u8, USB_DT_ENDPOINT, self.b_endpoint_address, self.bm_attributes] + le16(
            self.w_max_packet_size,
        ) + seq![self.b_interval, self.b_refresh, self.b_synch_address]
    }

    pub open spec fn spec_parse(d: Seq<u8>) -> UacDescriptorEndpoint {
        UacDescriptorEndpoint {
            b_endpoint_address: d[0],
            bm_attributes: d[1],
            w_max_packet_size: spec_u16_le(d[2], d[3]),
            b_interval: d[4],
            b_refresh: d[5],
            b_synch_address: d[6],
        }
    }

    pub fn serialize(&self, buffer: &mut Vec<u8>)
        ensures
            final(buffer)@ == old(buffer)@ + self@.wire(),
    {
        buffer.push(9);
        buffer.push(USB_DT_ENDPOINT);
        buffer.push(self.b_endpoint_address);
        buffer.push(self.bm_attributes);
        push_u16_le(buffer, self.w_max_packet_size);
        buffer.push(self.b_interval);
        buffer.push(self.b_refresh);
        buffer.push(self.b_synch_address);
        assert(buffer@ =~= old(buffer)@ + self@.wire());
    }

    pub fn deserialize(data: &[u8]) -> (r: UacDescriptorEndpoint)
        requires
            data@.len() >= 7,
        ensures
            r == Self::spec_parse(data@),
    {
        UacDescriptorEndpoint {
            b_endpoint_address: data[0],
            bm_attributes: data[1],
            w_max_packet_size: read_u16_le(data, 2),
            b_interval: data[4],
            b_refresh: data[5],
            b_synch_address: data[6],
        }
    }

    pub fn size(&self) -> (r: usize)
        ensures
            r == self@.wire().len(),
    {
        9
    }

    pub open spec fn spec_is_in(self) -> bool {
        self.b_endpoint_address & ENDPOINT_DIR_MASK == ENDPOINT_IN
    }

    pub fn is_in(&self) -> (r: bool)
        ensures
            r == self.spec_is_in(),
    {
        self.b_endpoint_address & ENDPOINT_DIR_MASK == ENDPOINT_IN
    }

    pub fn is_out(&self) -> (r: bool)
        ensures
            r == !self.spec_is_in(),
    {
        let d = self.b_endpoint_address;
        assert(d & 0x80 == 0x00 <==> !(d & 0x80 == 0x80)) by (bit_vector);
        d & ENDPOINT_DIR_MASK == ENDPOINT_OUT
    }
}

/// The standard 7-byte endpoint descriptor.
#[derive(Debug, Clone, Copy, PartialEq, Eq, Structural)]
pub struct DescriptorEndpoint {
    pub b_endpoint_address: u8,
    pub bm_attributes: u8,
    pub w_max_packet_size: u16,
    pub b_interval: u8,
}

impl View for DescriptorEndpoint {
    type V = DescriptorEndpoint;

    open spec fn view(&self) -> DescriptorEndpoint {
        *self
    }
}

impl DescriptorEndpoint {
    pub open spec fn wire(self) -> Seq<u8> {
        seq![7u8, USB_DT_ENDPOINT, self.b_endpoint_address, self.bm_attributes] + le16(
            self.w_max_packet_size,
        ) + seq![self.b_interval]
    }

    pub open spec fn spec_parse(d: Seq<u8>) -> DescriptorEndpoint {
        DescriptorEndpoint {
            b_endpoint_address: d[0],
            bm_attributes: d[1],
            w_max_packet_size: spec_u16_le(d[2], d[3]),
            b_interval: d[4],
        }
    }

    pub fn serialize(&self, buffer: &mut Vec<u8>)
        ensures
            final(buffer)@ == old(buffer)@ + self@.wire(),
    {
        buffer.push(7);
        buffer.push(USB_DT_ENDPOINT);
        buffer.push(self.b_endpoint_address);
        buffer.push(self.bm_attributes);
        push_u16_le(buffer, self.w_max_packet_size);
        buffer.push(self.b_interval);
        assert(buffer@ =~= old(buffer)@ + self@.wire());
    }

    pub fn deserialize(data: &[u8]) -> (r: DescriptorEndpoint)
        requires
            data@.len() >= 5,
        ensures
            r == Self::spec_parse(data@),
    {
        DescriptorEndpoint {
            b_endpoint_address: data[0],
            bm_attributes: data[1],
            w_max_packet_size: read_u16_le(data, 2),
            b_interval: data[4],
        }
    }

    pub fn size(&self) -> (r: usize)
        ensures
            r == self@.wire().len(),
    {
        7
    }

    pub open spec fn spec_is_in(self) -> bool {
        self.b_endpoint_address & ENDPOINT_DIR_MASK == ENDPOINT_IN
    }

    /// The endpoint number without the direction bit.
    pub fn ep(&self) -> (r: u8)
        ensures
            r == self.b_endpoint_address & ENDPOINT_ADDRESS_MASK,
    {
        self.b_endpoint_address & ENDPOINT_ADDRESS_MASK
    }

    pub fn is_in(&self) -> (r: bool)
        ensures
            r == self.spec_is_in(),
    {
        self.b_endpoint_address & ENDPOINT_DIR_MASK == ENDPOINT_IN
    }

    pub fn is_out(&self) -> (r: bool)
        ensures
            r == !self.spec_is_in(),
    {
        let d = self.b_endpoint_address;
        assert(d & 0x80 == 0x00 <==> !(d & 0x80 == 0x80)) by (bit_vector);
        d & ENDPOINT_DIR_MASK == ENDPOINT_OUT
    }

    /// Transfer type encoded in the low two bits of `bmAttributes`.
    pub open spec fn spec_transfer_type(self) -> DescriptorTransferType {
        if self.bm_attributes & TRANSFER_TYPE_MASK == 0x00 {
            DescriptorTransferType::Control
        } else if self.bm_attributes & TRANSFER_TYPE_MASK == 0x01 {
            DescriptorTransferType::Isochronous
        } else if self.bm_attributes & TRANSFER_TYPE_MASK == 0x02 {
            DescriptorTransferType::Bulk
        } else {
            DescriptorTransferType::Interrupt
        }
    }

    pub fn transfer_type(&self) -> (r: DescriptorTransferType)
        ensures
            r == self.spec_transfer_type(),
    {
        let bits = self.bm_attributes & TRANSFER_TYPE_MASK;
        if bits == 0x00 {
            DescriptorTransferType::Control
        } else if bits == 0x01 {
            DescriptorTransferType::Isochronous
        } else if bits == 0x02 {
            DescriptorTransferType::Bulk
        } else {
            DescriptorTransferType::Interrupt
        }
    }

    /// Synchronization type of an isochronous endpoint, bits 2..4 of
    /// `bmAttributes`.
    pub open spec fn spec_synch_type(self) -> SynchType {
        if (self.bm_attributes & ISO_SYNC_TYPE_MASK) >> 2 == 0x00 {
            SynchType::NoSynch
        } else if (self.bm_attributes & ISO_SYNC_TYPE_MASK) >> 2 == 0x01 {
            SynchType::Asynchronous
        } else if (self.bm_attributes & ISO_SYNC_TYPE_MASK) >> 2 == 0x02 {
            SynchType::Adaptive
        } else {
            SynchType::Synchronous
        }
    }

    pub fn synch_type(&self) -> (r: Result<SynchType, DescError>)
        ensures
            self.spec_is_iso_transfer() ==> r == Result::<SynchType, DescError>::Ok(
                self.spec_synch_type(),
            ),
            !self.spec_is_iso_transfer() ==> r == Result::<SynchType, DescError>::Err(
                DescError::NotIsochronous,
            ),
    {
        if !self.is_iso_transfer() {
            return Err(DescError::NotIsochronous);
        }
        let bits = (self.bm_attributes & ISO_SYNC_TYPE_MASK) >> 2;
        if bits == 0x00 {
            Ok(SynchType::NoSynch)
        } else if bits == 0x01 {
            Ok(SynchType::Asynchronous)
        } else if bits == 0x02 {
            Ok(SynchType::Adaptive)
        } else {
            Ok(SynchType::Synchronous)
        }
    }

    /// Usage type of an isochronous endpoint, bits 4..6 of `bmAttributes`.
    pub open spec fn spec_usage_type(self) -> UsageType {
        if (self.bm_attributes & ISO_USAGE_TYPE_MASK) >> 4 == 0x00 {
            UsageType::Data
        } else if (self.bm_attributes & ISO_USAGE_TYPE_MASK) >> 4 == 0x01 {
            UsageType::Feedback
        } else if (self.bm_attributes & ISO_USAGE_TYPE_MASK) >> 4 == 0x02 {
            UsageType::Implicit
        } else {
            UsageType::Invalid
        }
    }

    pub fn usage_type(&self) -> (r: Result<UsageType, DescError>)
        ensures
            self.spec_is_iso_transfer() ==> r == Result::<UsageType, DescError>::Ok(
                self.spec_usage_type(),
            ),
            !self.spec_is_iso_transfer() ==> r == Result::<UsageType, DescError>::Err(
                DescError::NotIsochronous,
            ),
    {
        if !self.is_iso_transfer() {
            return Err(DescError::NotIsochronous);
        }
        let bits = (self.bm_attributes & ISO_USAGE_TYPE_MASK) >> 4;
        if bits == 0x00 {
            Ok(UsageType::Data)
        } else if bits == 0x01 {
            Ok(UsageType::Feedback)
        } else if bits == 0x02 {
            Ok(UsageType::Implicit)
        } else {
            Ok(UsageType::Invalid)
        }
    }

    /// A speaker endpoint is isochronous + OUT + asynchronous + data.
    pub open spec fn spec_is_speaker(self) -> bool {
        &&& self.spec_is_iso_transfer()
        &&& !self.spec_is_in()
        &&& self.spec_synch_type() == SynchType::Asynchronous
        &&& self.spec_usage_type() == UsageType::Data
    }

    pub fn is_speaker(&self) -> (r: bool)
        ensures
            r == self.spec_is_speaker(),
    {
        if !self.is_iso_transfer() {
            return false;
        }
        let sy = match self.synch_type() {
            Ok(s) => matches!(s, SynchType::Asynchronous),
            Err(_) => false,
        };
        let us = match self.usage_type() {
            Ok(u) => matches!(u, UsageType::Data),
            Err(_) => false,
        };
        self.is_out() && sy && us
    }

    /// A microphone endpoint is isochronous + IN + asynchronous + data.
    pub open spec fn spec_is_mic(self) -> bool {
        &&& self.spec_is_iso_transfer()
        &&& self.spec_is_in()
        &&& self.spec_synch_type() == SynchType::Asynchronous
        &&& self.spec_usage_type() == UsageType::Data
    }

    pub fn is_mic(&self) -> (r: bool)
        ensures
            r == self.spec_is_mic(),
    {
        if !self.is_iso_transfer() {
            return false;
        }
        let sy = match self.synch_type() {
            Ok(s) => matches!(s, SynchType::Asynchronous),
            Err(_) => false,
        };
        let us = match self.usage_type() {
            Ok(u) => matches!(u, UsageType::Data),
            Err(_) => false,
        };
        self.is_in() && sy && us
    }

    pub fn is_control_transfer(&self) -> (r: bool)
        ensures
            r == (self.spec_transfer_type() == DescriptorTransferType::Control),
    {
        matches!(self.transfer_type(), DescriptorTransferType::Control)
    }

    pub open spec fn spec_is_iso_transfer(self) -> bool {
        self.spec_transfer_type() == DescriptorTransferType::Isochronous
    }

    pub fn is_iso_transfer(&self) -> (r: bool)
        ensures
            r == self.spec_is_iso_transfer(),
    {
        matches!(self.transfer_type(), DescriptorTransferType::Isochronous)
    }

    pub fn is_bulk_transfer(&self) -> (r: bool)
        ensures
            r == (self.spec_transfer_type() == DescriptorTransferType::Bulk),
    {
        matches!(self.transfer_type(), DescriptorTransferType::Bulk)
    }

    pub fn is_interrupt_transfer(&self) -> (r: bool)
        ensures
            r == (self.spec_transfer_type() == DescriptorTransferType::Interrupt),
    {
        matches!(self.transfer_type(), DescriptorTransferType::Interrupt)
    }

    pub fn is_bulk_stream_transfer(&self) -> (r: bool)
        ensures
            r == (self.spec_transfer_type() == DescriptorTransferType::BulkStream),
    {
        matches!(self.transfer_type(), DescriptorTransferType::BulkStream)
    }

    pub fn transfer_type_is_valid(&self) -> (r: bool)
        ensures
            r == (self.spec_transfer_type() != DescriptorTransferType::Invalid),
    {
        !matches!(self.transfer_type(), DescriptorTransferType::Invalid)
    }
}

/// Errors the library reports to callers.
#[derive(Debug, Clone, Copy, PartialEq, Eq, Structural)]
pub enum DescError {
    /// The endpoint is not isochronous, so it has no sync or usage type.
    NotIsochronous,
    /// The queried node is not an interface.
    NotInterface,
    /// No interface matches the requested number and alternate setting.
    InterfaceNotFound,
    /// No UVC format record carries the requested index.
    FormatNotFound,
    /// No UVC frame record carries the requested index.
    FrameNotFound,
    /// The format's GUID is not one of the recognized pixel formats.
    InvalidFormat,
    /// The node is not a UVC input header, so formats cannot be removed.
    NotInputHeader,
    /// A UVC input header has a child that is not a format record.
    UnknownInputHeaderChild,
    /// The node is not a frame record, so it has no frame size.
    NotFrame,
    /// The volume's minimum is out of range or not below the maximum.
    InvalidVolumeMin,
    /// The volume's maximum is out of range or not above the minimum.
    InvalidVolumeMax,
    /// The current volume lies outside the declared range.
    InvalidVolumeCur,
}


impl Clone for DescriptorUnknown {
    fn clone(&self) -> (res: Self)
        ensures
            res@ == self@,
    {
        let res = DescriptorUnknown {
            desc_type: self.desc_type,
            bytes: self.bytes.clone(),
        };
        proof {
            assert(res.bytes@ =~= self.bytes@);
            assert(res@ =~= self@);
        }
        res
    }
}


impl Clone for DescriptorCsDevice {
    fn clone(&self) -> (res: Self)
        ensures
            res@ == self@,
    {
        let res = DescriptorCsDevice {
            bytes: self.bytes.clone(),
        };
        proof {
            assert(res.bytes@ =~= self.bytes@);
            assert(res@ =~= self@);
        }
        res
    }
}


impl Clone for DescriptorCsInterface {
    fn clone(&self) -> (res: Self)
        ensures
            res@ == self@,
    {
        let res = DescriptorCsInterface {
            bytes: self.bytes.clone(),
        };
        proof {
            assert(res.bytes@ =~= self.bytes@);
            assert(res@ =~= self@);
        }
        res
    }
}


impl Clone for DescriptorCsEndpoint {
    fn clone(&self) -> (res: Self)
        ensures
            res@ == self@,
    {
        let res = DescriptorCsEndpoint {
            bytes: self.bytes.clone(),
        };
        proof {
            assert(res.bytes@ =~= self.bytes@);
            assert(res@ =~= self@);
        }
        res
    }
}


/// A parsed record: one variant per descriptor kind the library
/// distinguishes, plus the synthetic `Root` marker at the top of a tree.
#[derive(Debug)]
pub enum DescriptorTypes {
    Root(),
    Unknown(DescriptorUnknown),
    Device(DescriptorDevice),
    CsDevice(DescriptorCsDevice),
    Config(DescriptorConfig),
    Interface(DescriptorInterface),
    CsInterface(DescriptorCsInterface),
    InterfaceAssociation(UsbInterfaceAssocDescriptor),
    Endpoint(DescriptorEndpoint),
    UacEndpoint(UacDescriptorEndpoint),
    HidEndpoint(DescriptorEndpoint),
    SsEpComp(UsbSsEpCompDescriptor),
    SspIsochEpComp(UsbSspIsochEpCompDescriptor),
    CsEndpoint(DescriptorCsEndpoint),
    UvcInputHeader(DescriptorUvcInputHeader),
    UacAcHeader(Uac1AcHeaderDescriptor),
    UacInputTerminal(UacInputTerminalDescriptor),
    UacOutputTerminal(Uac1OutputTerminalDescriptor),
    UacFeatureUnit(UacFeatureUnitDescriptor),
    UacAsGeneral(Uac1AsHeaderDescriptor),
    UacFormatTypeI(UacFormatTypeIContinuousDescriptor),
    UacFormatTypeUnknown(DescriptorUacFormatTypeUnknown),
    UacIsoEndpointDescriptor(UacIsoEndpointDescriptor),
    DescriptorUvcFormatUncompressed(DescriptorUvcFormatUncompressed),
    DescriptorUvcFormatMjpeg(DescriptorUvcFormatMjpeg),
    DescriptorUvcFrameUncompressed(DescriptorUvcFrameUncompressed),
    DescriptorUvcFrameMjpeg(DescriptorUvcFrameMjpeg),
    UvcFormatFrameBased(DescriptorUvcFormatFrameBased),
    UvcFrameFrameBased(DescriptorUvcFrameFrameBased),
    DescriptorUvcVsInterfaceUnknown(DescriptorUvcVsInterfaceUnknown),
    DescriptorUvcVcInterfaceUnknown(DescriptorUvcVcInterfaceUnknown),
    DescriptorUacInterfaceUnknown(DescriptorUacInterfaceUnknown),
    UvcHeaderDescriptor(UvcHeaderDescriptor),
    UvcVcInputTerminal(UvcInputTerminalDescriptor),
    UvcVcProcessingUnit(UvcProcessingUnitDescriptor),
    UvcVcExtensionUnit(UvcExtensionUnitDescriptor),
    UvcVcOutputTerminal(UvcOutputTerminalDescriptor),
}

/// The mathematical view of a parsed record.
#[verifier::ext_equal]
pub ghost enum DescV {
    Root,
    Unknown(DescriptorUnknownV),
    Device(DescriptorDevice),
    CsDevice(DescriptorCsDeviceV),
    Config(DescriptorConfig),
    Interface(DescriptorInterface),
    CsInterface(DescriptorCsInterfaceV),
    InterfaceAssociation(UsbInterfaceAssocDescriptor),
    Endpoint(DescriptorEndpoint),
    UacEndpoint(UacDescriptorEndpoint),
    HidEndpoint(DescriptorEndpoint),
    SsEpComp(UsbSsEpCompDescriptor),
    SspIsochEpComp(UsbSspIsochEpCompDescriptor),
    CsEndpoint(DescriptorCsEndpointV),
    UvcInputHeader(DescriptorUvcInputHeaderV),
    UacAcHeader(Uac1AcHeaderDescriptorV),
    UacInputTerminal(UacInputTerminalDescriptor),
    UacOutputTerminal(Uac1OutputTerminalDescriptor),
    UacFeatureUnit(UacFeatureUnitDescriptorV),
    UacAsGeneral(Uac1AsHeaderDescriptor),
    UacFormatTypeI(UacFormatTypeIContinuousDescriptorV),
    UacFormatTypeUnknown(DescriptorUacFormatTypeUnknownV),
    UacIsoEndpointDescriptor(UacIsoEndpointDescriptor),
    DescriptorUvcFormatUncompressed(DescriptorUvcFormatUncompressed),
    DescriptorUvcFormatMjpeg(DescriptorUvcFormatMjpeg),
    DescriptorUvcFrameUncompressed(DescriptorUvcFrameUncompressedV),
    DescriptorUvcFrameMjpeg(DescriptorUvcFrameMjpegV),
    UvcFormatFrameBased(DescriptorUvcFormatFrameBased),
    UvcFrameFrameBased(DescriptorUvcFrameFrameBasedV),
    DescriptorUvcVsInterfaceUnknown(DescriptorUvcVsInterfaceUnknownV),
    DescriptorUvcVcInterfaceUnknown(DescriptorUvcVcInterfaceUnknownV),
    DescriptorUacInterfaceUnknown(DescriptorUacInterfaceUnknownV),
    UvcHeaderDescriptor(UvcHeaderDescriptorV),
    UvcVcInputTerminal(UvcInputTerminalDescriptorV),
    UvcVcProcessingUnit(UvcProcessingUnitDescriptorV),
    UvcVcExtensionUnit(UvcExtensionUnitDescriptorV),
    UvcVcOutputTerminal(UvcOutputTerminalDescriptor),
}

impl View for DescriptorTypes {
    type V = DescV;

    open spec fn view(&self) -> DescV {
        match self {
            DescriptorTypes::Root() => DescV::Root,
            DescriptorTypes::Unknown(d) => DescV::Unknown(d@),
            DescriptorTypes::Device(d) => DescV::Device(d@),
            DescriptorTypes::CsDevice(d) => DescV::CsDevice(d@),
            DescriptorTypes::Config(d) => DescV::Config(d@),
            DescriptorTypes::Interface(d) => DescV::Interface(d@),
            DescriptorTypes::CsInterface(d) => DescV::CsInterface(d@),
            DescriptorTypes::InterfaceAssociation(d) => DescV::InterfaceAssociation(d@),
            DescriptorTypes::Endpoint(d) => DescV::Endpoint(d@),
            DescriptorTypes::UacEndpoint(d) => DescV::UacEndpoint(d@),
            DescriptorTypes::HidEndpoint(d) => DescV::HidEndpoint(d@),
            DescriptorTypes::SsEpComp(d) => DescV::SsEpComp(d@),
            DescriptorTypes::SspIsochEpComp(d) => DescV::SspIsochEpComp(d@),
            DescriptorTypes::CsEndpoint(d) => DescV::CsEndpoint(d@),
            DescriptorTypes::UvcInputHeader(d) => DescV::UvcInputHeader(d@),
            DescriptorTypes::UacAcHeader(d) => DescV::UacAcHeader(d@),
            DescriptorTypes::UacInputTerminal(d) => DescV::UacInputTerminal(d@),
            DescriptorTypes::UacOutputTerminal(d) => DescV::UacOutputTerminal(d@),
            DescriptorTypes::UacFeatureUnit(d) => DescV::UacFeatureUnit(d@),
            DescriptorTypes::UacAsGeneral(d) => DescV::UacAsGeneral(d@),
            DescriptorTypes::UacFormatTypeI(d) => DescV::UacFormatTypeI(d@),
            DescriptorTypes::UacFormatTypeUnknown(d) => DescV::UacFormatTypeUnknown(d@),
            DescriptorTypes::UacIsoEndpointDescriptor(d) => DescV::UacIsoEndpointDescriptor(d@),
            DescriptorTypes::DescriptorUvcFormatUncompressed(d) => DescV::DescriptorUvcFormatUncompressed(d@),
            DescriptorTypes::DescriptorUvcFormatMjpeg(d) => DescV::DescriptorUvcFormatMjpeg(d@),
            DescriptorTypes::DescriptorUvcFrameUncompressed(d) => DescV::DescriptorUvcFrameUncompressed(d@),
            DescriptorTypes::DescriptorUvcFrameMjpeg(d) => DescV::DescriptorUvcFrameMjpeg(d@),
            DescriptorTypes::UvcFormatFrameBased(d) => DescV::UvcFormatFrameBased(d@),
            DescriptorTypes::UvcFrameFrameBased(d) => DescV::UvcFrameFrameBased(d@),
            DescriptorTypes::DescriptorUvcVsInterfaceUnknown(d) => DescV::DescriptorUvcVsInterfaceUnknown(d@),
            DescriptorTypes::DescriptorUvcVcInterfaceUnknown(d) => DescV::DescriptorUvcVcInterfaceUnknown(d@),
            DescriptorTypes::DescriptorUacInterfaceUnknown(d) => DescV::DescriptorUacInterfaceUnknown(d@),
            DescriptorTypes::UvcHeaderDescriptor(d) => DescV::UvcHeaderDescriptor(d@),
            DescriptorTypes::UvcVcInputTerminal(d) => DescV::UvcVcInputTerminal(d@),
            DescriptorTypes::UvcVcProcessingUnit(d) => DescV::UvcVcProcessingUnit(d@),
            DescriptorTypes::UvcVcExtensionUnit(d) => DescV::UvcVcExtensionUnit(d@),
            DescriptorTypes::UvcVcOutputTerminal(d) => DescV::UvcVcOutputTerminal(d@),
        }
    }
}

impl DescV {
    /// The full wire image of the record; the `Root` marker emits nothing.
    pub open spec fn wire(self) -> Seq<u8> {
        match self {
            DescV::Root => Seq::empty(),
            DescV::Unknown(d) => d.wire(),
            DescV::Device(d) => d.wire(),
            DescV::CsDevice(d) => d.wire(),
            DescV::Config(d) => d.wire(),
            DescV::Interface(d) => d.wire(),
            DescV::CsInterface(d) => d.wire(),
            DescV::InterfaceAssociation(d) => d.wire(),
            DescV::Endpoint(d) => d.wire(),
            DescV::UacEndpoint(d) => d.wire(),
            DescV::HidEndpoint(d) => d.wire(),
            DescV::SsEpComp(d) => d.wire(),
            DescV::SspIsochEpComp(d) => d.wire(),
            DescV::CsEndpoint(d) => d.wire(),
            DescV::UvcInputHeader(d) => d.wire(),
            DescV::UacAcHeader(d) => d.wire(),
            DescV::UacInputTerminal(d) => d.wire(),
            DescV::UacOutputTerminal(d) => d.wire(),
            DescV::UacFeatureUnit(d) => d.wire(),
            DescV::UacAsGeneral(d) => d.wire(),
            DescV::UacFormatTypeI(d) => d.wire(),
            DescV::UacFormatTypeUnknown(d) => d.wire(),
            DescV::UacIsoEndpointDescriptor(d) => d.wire(),
            DescV::DescriptorUvcFormatUncompressed(d) => d.wire(),
            DescV::DescriptorUvcFormatMjpeg(d) => d.wire(),
            DescV::DescriptorUvcFrameUncompressed(d) => d.wire(),
            DescV::DescriptorUvcFrameMjpeg(d) => d.wire(),
            DescV::UvcFormatFrameBased(d) => d.wire(),
            DescV::UvcFrameFrameBased(d) => d.wire(),
            DescV::DescriptorUvcVsInterfaceUnknown(d) => d.wire(),
            DescV::DescriptorUvcVcInterfaceUnknown(d) => d.wire(),
            DescV::DescriptorUacInterfaceUnknown(d) => d.wire(),
            DescV::UvcHeaderDescriptor(d) => d.wire(),
            DescV::UvcVcInputTerminal(d) => d.wire(),
            DescV::UvcVcProcessingUnit(d) => d.wire(),
            DescV::UvcVcExtensionUnit(d) => d.wire(),
            DescV::UvcVcOutputTerminal(d) => d.wire(),
        }
    }

    /// Whether the record can be re-serialized: every variable-length tail
    /// fits the one-byte record length.
    pub open spec fn wf(self) -> bool {
        match self {
            DescV::Root => true,
            DescV::Unknown(d) => d.wf(),
            DescV::Device(_) => true,
            DescV::CsDevice(d) => d.wf(),
            DescV::Config(_) => true,
            DescV::Interface(_) => true,
            DescV::CsInterface(d) => d.wf(),
            DescV::InterfaceAssociation(_) => true,
            DescV::Endpoint(_) => true,
            DescV::UacEndpoint(_) => true,
            DescV::HidEndpoint(_) => true,
            DescV::SsEpComp(_) => true,
            DescV::SspIsochEpComp(_) => true,
            DescV::CsEndpoint(d) => d.wf(),
            DescV::UvcInputHeader(d) => d.wf(),
            DescV::UacAcHeader(d) => d.wf(),
            DescV::UacInputTerminal(_) => true,
            DescV::UacOutputTerminal(_) => true,
            DescV::UacFeatureUnit(d) => d.wf(),
            DescV::UacAsGeneral(_) => true,
            DescV::UacFormatTypeI(d) => d.wf(),
            DescV::UacFormatTypeUnknown(d) => d.wf(),
            DescV::UacIsoEndpointDescriptor(_) => true,
            DescV::DescriptorUvcFormatUncompressed(_) => true,
            DescV::DescriptorUvcFormatMjpeg(_) => true,
            DescV::DescriptorUvcFrameUncompressed(d) => d.wf(),
            DescV::DescriptorUvcFrameMjpeg(d) => d.wf(),
            DescV::UvcFormatFrameBased(_) => true,
            DescV::UvcFrameFrameBased(d) => d.wf(),
            DescV::DescriptorUvcVsInterfaceUnknown(d) => d.wf(),
            DescV::DescriptorUvcVcInterfaceUnknown(d) => d.wf(),
            DescV::DescriptorUacInterfaceUnknown(d) => d.wf(),
            DescV::UvcHeaderDescriptor(d) => d.wf(),
            DescV::UvcVcInputTerminal(d) => d.wf(),
            DescV::UvcVcProcessingUnit(d) => d.wf(),
            DescV::UvcVcExtensionUnit(d) => d.wf(),
            DescV::UvcVcOutputTerminal(_) => true,
        }
    }

    /// Whether the record is a UVC format descriptor.
    pub open spec fn is_uvc_format(self) -> bool {
        match self {
            DescV::DescriptorUvcFormatMjpeg(_) => true,
            DescV::DescriptorUvcFormatUncompressed(_) => true,
            DescV::UvcFormatFrameBased(_) => true,
            _ => false,
        }
    }

    /// Whether the record may stand under a UVC format descriptor: a frame
    /// of any family, or an unmodeled VideoStreaming record.
    pub open spec fn is_fmt_child(self) -> bool {
        match self {
            DescV::DescriptorUvcFrameMjpeg(_) => true,
            DescV::DescriptorUvcFrameUncompressed(_) => true,
            DescV::UvcFrameFrameBased(_) => true,
            DescV::DescriptorUvcVsInterfaceUnknown(_) => true,
            _ => false,
        }
    }
}

impl Clone for DescriptorTypes {
    fn clone(&self) -> (res: Self)
        ensures
            res@ == self@,
    {
        match self {
            DescriptorTypes::Root() => DescriptorTypes::Root(),
            DescriptorTypes::Unknown(d) => DescriptorTypes::Unknown(d.clone()),
            DescriptorTypes::Device(d) => DescriptorTypes::Device(*d),
            DescriptorTypes::CsDevice(d) => DescriptorTypes::CsDevice(d.clone()),
            DescriptorTypes::Config(d) => DescriptorTypes::Config(*d),
            DescriptorTypes::Interface(d) => DescriptorTypes::Interface(*d),
            DescriptorTypes::CsInterface(d) => DescriptorTypes::CsInterface(d.clone()),
            DescriptorTypes::InterfaceAssociation(d) => DescriptorTypes::InterfaceAssociation(*d),
            DescriptorTypes::Endpoint(d) => DescriptorTypes::Endpoint(*d),
            DescriptorTypes::UacEndpoint(d) => DescriptorTypes::UacEndpoint(*d),
            DescriptorTypes::HidEndpoint(d) => DescriptorTypes::HidEndpoint(*d),
            DescriptorTypes::SsEpComp(d) => DescriptorTypes::SsEpComp(*d),
            DescriptorTypes::SspIsochEpComp(d) => DescriptorTypes::SspIsochEpComp(*d),
            DescriptorTypes::CsEndpoint(d) => DescriptorTypes::CsEndpoint(d.clone()),
            DescriptorTypes::UvcInputHeader(d) => DescriptorTypes::UvcInputHeader(d.clone()),
            DescriptorTypes::UacAcHeader(d) => DescriptorTypes::UacAcHeader(d.clone()),
            DescriptorTypes::UacInputTerminal(d) => DescriptorTypes::UacInputTerminal(*d),
            DescriptorTypes::UacOutputTerminal(d) => DescriptorTypes::UacOutputTerminal(*d),
            DescriptorTypes::UacFeatureUnit(d) => DescriptorTypes::UacFeatureUnit(d.clone()),
            DescriptorTypes::UacAsGeneral(d) => DescriptorTypes::UacAsGeneral(*d),
            DescriptorTypes::UacFormatTypeI(d) => DescriptorTypes::UacFormatTypeI(d.clone()),
            DescriptorTypes::UacFormatTypeUnknown(d) => DescriptorTypes::UacFormatTypeUnknown(d.clone()),
            DescriptorTypes::UacIsoEndpointDescriptor(d) => DescriptorTypes::UacIsoEndpointDescriptor(*d),
            DescriptorTypes::DescriptorUvcFormatUncompressed(d) => DescriptorTypes::DescriptorUvcFormatUncompressed(*d),
            DescriptorTypes::DescriptorUvcFormatMjpeg(d) => DescriptorTypes::DescriptorUvcFormatMjpeg(*d),
            DescriptorTypes::DescriptorUvcFrameUncompressed(d) => DescriptorTypes::DescriptorUvcFrameUncompressed(d.clone()),
            DescriptorTypes::DescriptorUvcFrameMjpeg(d) => DescriptorTypes::DescriptorUvcFrameMjpeg(d.clone()),
            DescriptorTypes::UvcFormatFrameBased(d) => DescriptorTypes::UvcFormatFrameBased(*d),
            DescriptorTypes::UvcFrameFrameBased(d) => DescriptorTypes::UvcFrameFrameBased(d.clone()),
            DescriptorTypes::DescriptorUvcVsInterfaceUnknown(d) => DescriptorTypes::DescriptorUvcVsInterfaceUnknown(d.clone()),
            DescriptorTypes::DescriptorUvcVcInterfaceUnknown(d) => DescriptorTypes::DescriptorUvcVcInterfaceUnknown(d.clone()),
            DescriptorTypes::DescriptorUacInterfaceUnknown(d) => DescriptorTypes::DescriptorUacInterfaceUnknown(d.clone()),
            DescriptorTypes::UvcHeaderDescriptor(d) => DescriptorTypes::UvcHeaderDescriptor(d.clone()),
            DescriptorTypes::UvcVcInputTerminal(d) => DescriptorTypes::UvcVcInputTerminal(d.clone()),
            DescriptorTypes::UvcVcProcessingUnit(d) => DescriptorTypes::UvcVcProcessingUnit(d.clone()),
            DescriptorTypes::UvcVcExtensionUnit(d) => DescriptorTypes::UvcVcExtensionUnit(d.clone()),
            DescriptorTypes::UvcVcOutputTerminal(d) => DescriptorTypes::UvcVcOutputTerminal(*d),
        }
    }
}

impl DescriptorTypes {
    pub fn is_uvc_format(&self) -> (r: bool)
        ensures
            r == self@.is_uvc_format(),
    {
        match self {
            DescriptorTypes::DescriptorUvcFormatMjpeg(_) => true,
            DescriptorTypes::DescriptorUvcFormatUncompressed(_) => true,
            DescriptorTypes::UvcFormatFrameBased(_) => true,
            _ => false,
        }
    }

    pub fn is_fmt_child(&self) -> (r: bool)
        ensures
            r == self@.is_fmt_child(),
    {
        match self {
            DescriptorTypes::DescriptorUvcFrameMjpeg(_) => true,
            DescriptorTypes::DescriptorUvcFrameUncompressed(_) => true,
            DescriptorTypes::UvcFrameFrameBased(_) => true,
            DescriptorTypes::DescriptorUvcVsInterfaceUnknown(_) => true,
            _ => false,
        }
    }
}

} // verus!
