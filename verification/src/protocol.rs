//! Messages of the CFU protocol, as far as a component reads or writes them.
use vstd::prelude::*;

verus! {

/// Number of component entries in a firmware version response.
pub const MAX_CMPT_COUNT: usize = 7;

/// Number of data bytes that a content command has room for.
pub const DEFAULT_DATA_LENGTH: usize = 52;

/// Number of bytes in the packet of an extended offer or an offer information.
pub const OFFER_PACKET_LENGTH: usize = 16;

/// Flag of a content command that carries the first block of an image.
pub const FW_UPDATE_FLAG_FIRST_BLOCK: u8 = 0x80;

/// Flag of a content command that carries the last block of an image.
pub const FW_UPDATE_FLAG_LAST_BLOCK: u8 = 0x40;

/// Identifies a component within its device.
pub type ComponentId = u8;

/// A firmware version in its 32-bit form.
#[derive(Debug, Clone, Copy, PartialEq, Eq, Structural)]
pub struct FwVersion {
    pub version: u32,
}

impl FwVersion {
    /// The version with the given 32-bit form.
    pub fn new(version: u32) -> (result: Self)
        ensures
            result == (FwVersion { version }),
    {
        FwVersion { version }
    }
}

/// One component's entry in a firmware version response.
#[derive(Debug, Clone, Copy, PartialEq, Eq, Structural)]
pub struct FwVerComponentInfo {
    pub fw_version: FwVersion,
    pub component_id: ComponentId,
}

impl FwVerComponentInfo {
    /// The entry of a component that runs the given version.
    pub fn new(fw_version: FwVersion, component_id: ComponentId) -> (result: Self)
        ensures
            result == (FwVerComponentInfo { fw_version, component_id }),
    {
        FwVerComponentInfo { fw_version, component_id }
    }
}

/// Flags in the last header byte of a firmware version response.
#[derive(Debug, Clone, Copy, PartialEq, Eq, Structural)]
pub enum GetFwVerRespHeaderByte3 {
    NoSpecialFlags,
}

/// Header of a firmware version response.
#[derive(Debug, Clone, Copy, PartialEq, Eq, Structural)]
pub struct GetFwVersionResponseHeader {
    /// Number of entries that are meant to be read.
    pub component_count: u8,
    pub byte3: GetFwVerRespHeaderByte3,
}

impl GetFwVersionResponseHeader {
    /// The header with the given count and flags.
    pub fn new(component_count: u8, byte3: GetFwVerRespHeaderByte3) -> (result: Self)
        ensures
            result == (GetFwVersionResponseHeader { component_count, byte3 }),
    {
        GetFwVersionResponseHeader { component_count, byte3 }
    }
}

/// Firmware version response.
#[derive(Debug, Clone, Copy, PartialEq, Eq)]
pub struct GetFwVersionResponse {
    pub header: GetFwVersionResponseHeader,
    pub component_info: [FwVerComponentInfo; MAX_CMPT_COUNT],
}

/// Tells which part of the host an offer comes from.
#[derive(Debug, Clone, Copy, PartialEq, Eq, Structural)]
pub enum HostToken {
    Driver,
    /// Any other token, by its byte in the packet.
    Other(u8),
}

/// Answer to an offer.
#[derive(Debug, Clone, Copy, PartialEq, Eq, Structural)]
pub enum OfferStatus {
    Skip,
    Accept,
    Reject,
    Busy,
    CommandReady,
    CmdNotSupported,
}

/// Why an offer is rejected.
#[derive(Debug, Clone, Copy, PartialEq, Eq, Structural)]
pub enum OfferRejectReason {
    OldFw,
    InvalidComponent,
    UpdatePending,
    /// Any other reason, by its byte in the packet.
    Other(u8),
}

/// Offer response.
#[derive(Debug, Clone, Copy, PartialEq, Eq, Structural)]
pub struct FwUpdateOfferResponse {
    pub token: HostToken,
    pub reject_reason: OfferRejectReason,
    pub status: OfferStatus,
}

impl FwUpdateOfferResponse {
    /// The response to an offer that is not taken.
    pub fn new_with_failure(token: HostToken, reject_reason: OfferRejectReason, status: OfferStatus) -> (result: Self)
        ensures
            result == (FwUpdateOfferResponse { token, reject_reason, status }),
    {
        FwUpdateOfferResponse { token, reject_reason, status }
    }
}

/// The part of an offer that tells which component it is for.
#[derive(Debug, Clone, Copy, PartialEq, Eq, Structural)]
pub struct UpdateOfferComponentInfo {
    pub segment_number: u8,
    pub force_immediate_reset: bool,
    pub force_ignore_version: bool,
    pub component_id: ComponentId,
    pub token: HostToken,
}

/// An offer of a firmware image.
#[derive(Debug, Clone, Copy, PartialEq, Eq, Structural)]
pub struct FwUpdateOffer {
    pub component_info: UpdateOfferComponentInfo,
    pub firmware_version: FwVersion,
    pub vendor_specific: u32,
    pub misc_and_protocol_version: u32,
}

/// An extended offer. A component does not look into it.
#[derive(Debug, Clone, Copy, PartialEq, Eq)]
pub struct FwUpdateOfferExtended {
    pub packet: [u8; OFFER_PACKET_LENGTH],
}

/// Information about the offers of a host. A component does not look into it.
#[derive(Debug, Clone, Copy, PartialEq, Eq)]
pub struct FwUpdateOfferInformation {
    pub packet: [u8; OFFER_PACKET_LENGTH],
}

/// Header of a content command.
#[derive(Debug, Clone, Copy, PartialEq, Eq, Structural)]
pub struct FwUpdateContentHeader {
    pub flags: u8,
    /// Number of data bytes that belong to the block.
    pub data_length: u8,
    pub sequence_num: u16,
    /// Where the block goes in the image.
    pub firmware_address: u32,
}

impl FwUpdateContentHeader {
    /// Whether the flags mark the first block of an update.
    pub open spec fn first_block(self) -> bool {
        self.flags & FW_UPDATE_FLAG_FIRST_BLOCK != 0
    }

    /// Whether the flags mark the last block of an update.
    pub open spec fn last_block(self) -> bool {
        self.flags & FW_UPDATE_FLAG_LAST_BLOCK != 0
    }

    /// Is this the first block of the update?
    pub fn is_first_block(&self) -> (result: bool)
        ensures
            result == self.first_block(),
            result <==> self.flags & 0x80 != 0,
            result <==> self.flags >= 128,
    {
        let flags: u8 = self.flags;
        assert(flags & 0x80 != 0 <==> flags >= 128) by (bit_vector);
        self.flags & FW_UPDATE_FLAG_FIRST_BLOCK != 0
    }

    /// Is this the last block of the update?
    pub fn is_last_block(&self) -> (result: bool)
        ensures
            result == self.last_block(),
            result <==> self.flags & 0x40 != 0,
            result <==> self.flags % 128 >= 64,
    {
        let flags: u8 = self.flags;
        assert(flags & 0x40 != 0 <==> flags % 128 >= 64) by (bit_vector);
        self.flags & FW_UPDATE_FLAG_LAST_BLOCK != 0
    }
}

/// A block of a firmware image.
#[derive(Debug, Clone, Copy, PartialEq, Eq)]
pub struct FwUpdateContentCommand {
    pub header: FwUpdateContentHeader,
    pub data: [u8; DEFAULT_DATA_LENGTH],
}

impl FwUpdateContentCommand {
    /// Whether the command has room for as many bytes as its header claims.
    pub open spec fn valid(self) -> bool {
        self.header.data_length <= DEFAULT_DATA_LENGTH
    }

    /// The bytes of the block.
    pub open spec fn block(self) -> Seq<u8> {
        self.data@.subrange(0, self.header.data_length as int)
    }

    /// Does the command have room for as many bytes as its header claims?
    pub fn is_valid(&self) -> (result: bool)
        ensures
            result == self.valid(),
            result <==> self.header.data_length <= 52,
    {
        self.header.data_length as usize <= DEFAULT_DATA_LENGTH
    }

    /// The bytes of the block, without the room that is left over.
    pub fn block_data(&self) -> (result: &[u8])
        requires
            self.valid(),
        ensures
            result@ == self.block(),
            result@.len() == self.header.data_length,
            forall|i: int| 0 <= i < self.header.data_length ==> #[trigger] result@[i] == self.data@[i],
    {
        vstd::slice::slice_subrange(self.data.as_slice(), 0, self.header.data_length as usize)
    }
}

/// Outcome of a content command.
#[derive(Debug, Clone, Copy, PartialEq, Eq, Structural)]
pub enum CfuUpdateContentResponseStatus {
    Success,
    /// The component could not be made ready for the update.
    ErrorPrepare,
    /// The block could not be written.
    ErrorWrite,
}

/// Content response.
#[derive(Debug, Clone, Copy, PartialEq, Eq, Structural)]
pub struct FwUpdateContentResponse {
    /// Sequence number of the command that is answered.
    pub sequence: u16,
    pub status: CfuUpdateContentResponseStatus,
}

impl FwUpdateContentResponse {
    /// The response to the command with the given sequence number.
    pub fn new(sequence: u16, status: CfuUpdateContentResponseStatus) -> (result: Self)
        ensures
            result == (FwUpdateContentResponse { sequence, status }),
    {
        FwUpdateContentResponse { sequence, status }
    }
}

} // verus!
