//! Requests to a CFU component and the responses it gives.
use crate::protocol::{
    FwUpdateContentCommand, FwUpdateContentResponse, FwUpdateOffer, FwUpdateOfferExtended,
    FwUpdateOfferInformation, FwUpdateOfferResponse, GetFwVersionResponse,
};
use vstd::prelude::*;

verus! {

/// A request to a component.
#[derive(Debug, Clone, Copy, PartialEq, Eq)]
pub enum RequestData {
    /// Tell the version of the firmware.
    FwVersionRequest,
    /// Get ready for an update.
    PrepareComponentForUpdate,
    /// Finish an update.
    FinalizeUpdate,
    /// Give up an update.
    AbortUpdate,
    /// Judge an offer.
    GiveOffer(FwUpdateOffer),
    /// Take a block of an image.
    GiveContent(FwUpdateContentCommand),
    /// Judge an extended offer.
    GiveOfferExtended(FwUpdateOfferExtended),
    /// Take information about offers.
    GiveOfferInformation(FwUpdateOfferInformation),
}

/// A component's response to a request.
#[derive(Debug, Clone, Copy, PartialEq, Eq)]
pub enum InternalResponseData {
    FwVersionResponse(GetFwVersionResponse),
    OfferResponse(FwUpdateOfferResponse),
    ContentResponse(FwUpdateContentResponse),
    /// The component has done what was asked.
    ComponentPrepared,
    /// The component takes no commands for now.
    ComponentBusy,
}

/// What a component is woken up by.
#[derive(Debug, Clone, Copy, PartialEq, Eq)]
pub enum EventCfu {
    /// A request came in.
    Request(RequestData),
    /// The firmware update ticker ticked.
    RecoveryTick,
}

} // verus!
