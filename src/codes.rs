//! The small-integer enumerations of the feed, their wire codes, and the
//! strict decoding of those codes (an unknown code is an error, never guessed).

use vstd::prelude::*;

verus! {

/// The field a decode error is attributed to.
#[derive(Debug, Clone, Copy, PartialEq, Eq, Structural)]
pub enum Field {
    StopScheduleRelationship,
    TripScheduleRelationship,
    CurrentStatus,
    CongestionLevel,
    OccupancyStatus,
    Incrementality,
}

/// Why a record could not be decoded.
#[derive(Debug, Clone, Copy, PartialEq, Eq, Structural)]
pub enum DecodeError {
    /// An enumeration field carried a code with no variant.
    UnknownCode { field: Field, code: u8 },
    /// A whole-number bearing that does not fit in 16 signed bits.
    BearingOutOfRange { value: u64 },
    /// A bearing sent as text that does not read as a number.
    BearingNotNumeric,
    /// A bearing sent as an object, an array or a boolean.
    BearingUnsupportedShape,
}

/// Relationship of a stop-time update to the schedule.
#[derive(Debug, Clone, Copy, PartialEq, Eq, Structural)]
pub enum ScheduleRelationship {
    Scheduled,
    Skipped,
    NoData,
}

impl ScheduleRelationship {
    pub open spec fn spec_from_code(code: u8) -> Option<Self> {
        if code == 0 {
            Some(ScheduleRelationship::Scheduled)
        } else if code == 1 {
            Some(ScheduleRelationship::Skipped)
        } else if code == 2 {
            Some(ScheduleRelationship::NoData)
        } else {
            None
        }
    }

    /// The variant with wire code `code`, if there is one.
    pub fn from_code(code: u8) -> (r: Option<Self>)
        ensures
            r == Self::spec_from_code(code),
    {
        if code == 0 {
            Some(ScheduleRelationship::Scheduled)
        } else if code == 1 {
            Some(ScheduleRelationship::Skipped)
        } else if code == 2 {
            Some(ScheduleRelationship::NoData)
        } else {
            None
        }
    }

    /// What the field decodes to from its optional wire code.
    pub open spec fn spec_decode(code: Option<u8>) -> Result<Self, DecodeError> {
        match code {
            None => Ok(ScheduleRelationship::Scheduled),
            Some(c) => match Self::spec_from_code(c) {
                Some(v) => Ok(v),
                None => Err(DecodeError::UnknownCode { field: Field::StopScheduleRelationship, code: c }),
            },
        }
    }

    /// Decodes the field from its optional wire code: an absent field is
    /// `Scheduled`, an unknown code an error.
    pub fn decode(code: Option<u8>) -> (r: Result<Self, DecodeError>)
        ensures
            r == Self::spec_decode(code),
    {
        match code {
            None => Ok(Self::default()),
            Some(c) => match Self::from_code(c) {
                Some(v) => Ok(v),
                None => Err(DecodeError::UnknownCode { field: Field::StopScheduleRelationship, code: c }),
            },
        }
    }
}

impl Default for ScheduleRelationship {
    fn default() -> (r: Self)
        ensures
            r == ScheduleRelationship::Scheduled,
    {
        ScheduleRelationship::Scheduled
    }
}

/// The stop status of a vehicle.
#[derive(Debug, Clone, Copy, PartialEq, Eq, Structural)]
pub enum VehicleStopStatus {
    IncomingAt,
    StoppedAt,
    InTransitTo,
}

impl VehicleStopStatus {
    pub open spec fn spec_from_code(code: u8) -> Option<Self> {
        if code == 0 {
            Some(VehicleStopStatus::IncomingAt)
        } else if code == 1 {
            Some(VehicleStopStatus::StoppedAt)
        } else if code == 2 {
            Some(VehicleStopStatus::InTransitTo)
        } else {
            None
        }
    }

    /// The variant with wire code `code`, if there is one.
    pub fn from_code(code: u8) -> (r: Option<Self>)
        ensures
            r == Self::spec_from_code(code),
    {
        if code == 0 {
            Some(VehicleStopStatus::IncomingAt)
        } else if code == 1 {
            Some(VehicleStopStatus::StoppedAt)
        } else if code == 2 {
            Some(VehicleStopStatus::InTransitTo)
        } else {
            None
        }
    }

    /// What the field decodes to from its optional wire code.
    pub open spec fn spec_decode(code: Option<u8>) -> Result<Self, DecodeError> {
        match code {
            None => Ok(VehicleStopStatus::InTransitTo),
            Some(c) => match Self::spec_from_code(c) {
                Some(v) => Ok(v),
                None => Err(DecodeError::UnknownCode { field: Field::CurrentStatus, code: c }),
            },
        }
    }

    /// Decodes the field from its optional wire code: an absent field is
    /// `InTransitTo`, an unknown code an error.
    pub fn decode(code: Option<u8>) -> (r: Result<Self, DecodeError>)
        ensures
            r == Self::spec_decode(code),
    {
        match code {
            None => Ok(Self::default()),
            Some(c) => match Self::from_code(c) {
                Some(v) => Ok(v),
                None => Err(DecodeError::UnknownCode { field: Field::CurrentStatus, code: c }),
            },
        }
    }
}

impl Default for VehicleStopStatus {
    fn default() -> (r: Self)
        ensures
            r == VehicleStopStatus::InTransitTo,
    {
        VehicleStopStatus::InTransitTo
    }
}

/// Congestion level around a vehicle.
#[derive(Debug, Clone, Copy, PartialEq, Eq, Structural)]
pub enum CongestionLevel {
    UnknownCongestionLevel,
    RunningSmoothly,
    StopAndGo,
    Congestion,
    SevereCongestion,
}

impl CongestionLevel {
    pub open spec fn spec_from_code(code: u8) -> Option<Self> {
        if code == 0 {
            Some(CongestionLevel::UnknownCongestionLevel)
        } else if code == 1 {
            Some(CongestionLevel::RunningSmoothly)
        } else if code == 2 {
            Some(CongestionLevel::StopAndGo)
        } else if code == 3 {
            Some(CongestionLevel::Congestion)
        } else if code == 4 {
            Some(CongestionLevel::SevereCongestion)
        } else {
            None
        }
    }

    /// The variant with wire code `code`, if there is one.
    pub fn from_code(code: u8) -> (r: Option<Self>)
        ensures
            r == Self::spec_from_code(code),
    {
        if code == 0 {
            Some(CongestionLevel::UnknownCongestionLevel)
        } else if code == 1 {
            Some(CongestionLevel::RunningSmoothly)
        } else if code == 2 {
            Some(CongestionLevel::StopAndGo)
        } else if code == 3 {
            Some(CongestionLevel::Congestion)
        } else if code == 4 {
            Some(CongestionLevel::SevereCongestion)
        } else {
            None
        }
    }

    /// What the optional field decodes to from its optional wire code.
    pub open spec fn spec_decode(code: Option<u8>) -> Result<Option<Self>, DecodeError> {
        match code {
            None => Ok(None),
            Some(c) => match Self::spec_from_code(c) {
                Some(v) => Ok(Some(v)),
                None => Err(DecodeError::UnknownCode { field: Field::CongestionLevel, code: c }),
            },
        }
    }

    /// Decodes the optional field from its optional wire code: an absent
    /// field stays absent, an unknown code is an error.
    pub fn decode(code: Option<u8>) -> (r: Result<Option<Self>, DecodeError>)
        ensures
            r == Self::spec_decode(code),
    {
        match code {
            None => Ok(None),
            Some(c) => match Self::from_code(c) {
                Some(v) => Ok(Some(v)),
                None => Err(DecodeError::UnknownCode { field: Field::CongestionLevel, code: c }),
            },
        }
    }
}

/// How full a vehicle is.
#[derive(Debug, Clone, Copy, PartialEq, Eq, Structural)]
pub enum OccupancyStatus {
    Empty,
    ManySeatsAvailable,
    FewSeatsAvailable,
    StandingRoomOnly,
    CrushedStandingRoomOnly,
    Full,
    NotAcceptingPassengers,
}

impl OccupancyStatus {
    pub open spec fn spec_from_code(code: u8) -> Option<Self> {
        if code == 0 {
            Some(OccupancyStatus::Empty)
        } else if code == 1 {
            Some(OccupancyStatus::ManySeatsAvailable)
        } else if code == 2 {
            Some(OccupancyStatus::FewSeatsAvailable)
        } else if code == 3 {
            Some(OccupancyStatus::StandingRoomOnly)
        } else if code == 4 {
            Some(OccupancyStatus::CrushedStandingRoomOnly)
        } else if code == 5 {
            Some(OccupancyStatus::Full)
        } else if code == 6 {
            Some(OccupancyStatus::NotAcceptingPassengers)
        } else {
            None
        }
    }

    /// The variant with wire code `code`, if there is one.
    pub fn from_code(code: u8) -> (r: Option<Self>)
        ensures
            r == Self::spec_from_code(code),
    {
        if code == 0 {
            Some(OccupancyStatus::Empty)
        } else if code == 1 {
            Some(OccupancyStatus::ManySeatsAvailable)
        } else if code == 2 {
            Some(OccupancyStatus::FewSeatsAvailable)
        } else if code == 3 {
            Some(OccupancyStatus::StandingRoomOnly)
        } else if code == 4 {
            Some(OccupancyStatus::CrushedStandingRoomOnly)
        } else if code == 5 {
            Some(OccupancyStatus::Full)
        } else if code == 6 {
            Some(OccupancyStatus::NotAcceptingPassengers)
        } else {
            None
        }
    }

    /// What the optional field decodes to from its optional wire code.
    pub open spec fn spec_decode(code: Option<u8>) -> Result<Option<Self>, DecodeError> {
        match code {
            None => Ok(None),
            Some(c) => match Self::spec_from_code(c) {
                Some(v) => Ok(Some(v)),
                None => Err(DecodeError::UnknownCode { field: Field::OccupancyStatus, code: c }),
            },
        }
    }

    /// Decodes the optional field from its optional wire code: an absent
    /// field stays absent, an unknown code is an error.
    pub fn decode(code: Option<u8>) -> (r: Result<Option<Self>, DecodeError>)
        ensures
            r == Self::spec_decode(code),
    {
        match code {
            None => Ok(None),
            Some(c) => match Self::from_code(c) {
                Some(v) => Ok(Some(v)),
                None => Err(DecodeError::UnknownCode { field: Field::OccupancyStatus, code: c }),
            },
        }
    }
}

/// Relationship of a trip to the schedule.
#[derive(Debug, Clone, Copy, PartialEq, Eq, Structural)]
pub enum ScheduleRelationshipTripDescriptor {
    Scheduled,
    Added,
    Unscheduled,
    Cancelled,
}

impl ScheduleRelationshipTripDescriptor {
    pub open spec fn spec_from_code(code: u8) -> Option<Self> {
        if code == 0 {
            Some(ScheduleRelationshipTripDescriptor::Scheduled)
        } else if code == 1 {
            Some(ScheduleRelationshipTripDescriptor::Added)
        } else if code == 2 {
            Some(ScheduleRelationshipTripDescriptor::Unscheduled)
        } else if code == 3 {
            Some(ScheduleRelationshipTripDescriptor::Cancelled)
        } else {
            None
        }
    }

    /// The variant with wire code `code`, if there is one.
    pub fn from_code(code: u8) -> (r: Option<Self>)
        ensures
            r == Self::spec_from_code(code),
    {
        if code == 0 {
            Some(ScheduleRelationshipTripDescriptor::Scheduled)
        } else if code == 1 {
            Some(ScheduleRelationshipTripDescriptor::Added)
        } else if code == 2 {
            Some(ScheduleRelationshipTripDescriptor::Unscheduled)
        } else if code == 3 {
            Some(ScheduleRelationshipTripDescriptor::Cancelled)
        } else {
            None
        }
    }

    /// What the optional field decodes to from its optional wire code.
    pub open spec fn spec_decode(code: Option<u8>) -> Result<Option<Self>, DecodeError> {
        match code {
            None => Ok(None),
            Some(c) => match Self::spec_from_code(c) {
                Some(v) => Ok(Some(v)),
                None => Err(DecodeError::UnknownCode { field: Field::TripScheduleRelationship, code: c }),
            },
        }
    }

    /// Decodes the optional field from its optional wire code: an absent
    /// field stays absent, an unknown code is an error.
    pub fn decode(code: Option<u8>) -> (r: Result<Option<Self>, DecodeError>)
        ensures
            r == Self::spec_decode(code),
    {
        match code {
            None => Ok(None),
            Some(c) => match Self::from_code(c) {
                Some(v) => Ok(Some(v)),
                None => Err(DecodeError::UnknownCode { field: Field::TripScheduleRelationship, code: c }),
            },
        }
    }
}

/// Whether a feed holds the full dataset or only changes.
#[derive(Debug, Clone, Copy, PartialEq, Eq, Structural)]
pub enum Incrementality {
    FullDataset,
    Differential,
}

impl Incrementality {
    pub open spec fn spec_from_code(code: u8) -> Option<Self> {
        if code == 0 {
            Some(Incrementality::FullDataset)
        } else if code == 1 {
            Some(Incrementality::Differential)
        } else {
            None
        }
    }

    /// The variant with wire code `code`, if there is one.
    pub fn from_code(code: u8) -> (r: Option<Self>)
        ensures
            r == Self::spec_from_code(code),
    {
        if code == 0 {
            Some(Incrementality::FullDataset)
        } else if code == 1 {
            Some(Incrementality::Differential)
        } else {
            None
        }
    }

    /// What the field decodes to from its optional wire code.
    pub open spec fn spec_decode(code: Option<u8>) -> Result<Self, DecodeError> {
        match code {
            None => Ok(Incrementality::FullDataset),
            Some(c) => match Self::spec_from_code(c) {
                Some(v) => Ok(v),
                None => Err(DecodeError::UnknownCode { field: Field::Incrementality, code: c }),
            },
        }
    }

    /// Decodes the field from its optional wire code: an absent field is
    /// `FullDataset`, an unknown code an error.
    pub fn decode(code: Option<u8>) -> (r: Result<Self, DecodeError>)
        ensures
            r == Self::spec_decode(code),
    {
        match code {
            None => Ok(Self::default()),
            Some(c) => match Self::from_code(c) {
                Some(v) => Ok(v),
                None => Err(DecodeError::UnknownCode { field: Field::Incrementality, code: c }),
            },
        }
    }
}

impl Default for Incrementality {
    fn default() -> (r: Self)
        ensures
            r == Incrementality::FullDataset,
    {
        Incrementality::FullDataset
    }
}

} // verus!
