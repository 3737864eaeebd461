//! The messages of the newest wire version as one type, and the three
//! parts of it that the server tells apart: what only a server sends, what
//! the device manager answers itself, and what goes on to a device.

use crate::errors::ButtplugMessageError;
use crate::messages::{
    ButtplugDeviceMessage, ButtplugMessage, ButtplugMessageType, ButtplugMessageValidator,
    DeviceAdded, DeviceList, DeviceRemoved, Error, LinearCmd, OkMessage, Ping, RawReadCmd,
    RawReading, RawSubscribeCmd, RawUnsubscribeCmd, RawWriteCmd, RequestDeviceList,
    RequestServerInfo, RotateCmd, ScalarCmd, ScanningFinished, SensorReadCmd, SensorReading,
    SensorSubscribeCmd, SensorUnsubscribeCmd, ServerInfo, StartScanning, StopAllDevices,
    StopDeviceCmd, StopScanning,
};
use vstd::prelude::*;
use vstd::std_specs::convert::FromSpecImpl;

verus! {

/// Any message of the newest wire version. This is the form in which the
/// server works on a message, whatever version it came in.
#[derive(Clone, Debug, PartialEq, Eq)]
pub enum ButtplugMessageUnion {
    // Status messages
    OkMessage(OkMessage),
    Error(Error),
    Ping(Ping),
    // Handshake messages
    RequestServerInfo(RequestServerInfo),
    ServerInfo(ServerInfo),
    // Device enumeration messages
    DeviceList(DeviceList),
    DeviceAdded(DeviceAdded),
    DeviceRemoved(DeviceRemoved),
    StartScanning(StartScanning),
    StopScanning(StopScanning),
    ScanningFinished(ScanningFinished),
    RequestDeviceList(RequestDeviceList),
    // Generic commands
    StopAllDevices(StopAllDevices),
    ScalarCmd(ScalarCmd),
    LinearCmd(LinearCmd),
    RotateCmd(RotateCmd),
    StopDeviceCmd(StopDeviceCmd),
    // Sensor commands
    SensorReadCmd(SensorReadCmd),
    SensorSubscribeCmd(SensorSubscribeCmd),
    SensorUnsubscribeCmd(SensorUnsubscribeCmd),
    SensorReading(SensorReading),
    // Raw commands
    RawWriteCmd(RawWriteCmd),
    RawReadCmd(RawReadCmd),
    RawSubscribeCmd(RawSubscribeCmd),
    RawUnsubscribeCmd(RawUnsubscribeCmd),
    RawReading(RawReading),
}

impl ButtplugMessageUnion {
    /// The name of the message held.
    pub open spec fn spec_message_type(&self) -> ButtplugMessageType {
        match self {
            ButtplugMessageUnion::OkMessage(_) => ButtplugMessageType::OkMessage,
            ButtplugMessageUnion::Error(_) => ButtplugMessageType::Error,
            ButtplugMessageUnion::Ping(_) => ButtplugMessageType::Ping,
            ButtplugMessageUnion::RequestServerInfo(_) => ButtplugMessageType::RequestServerInfo,
            ButtplugMessageUnion::ServerInfo(_) => ButtplugMessageType::ServerInfo,
            ButtplugMessageUnion::DeviceList(_) => ButtplugMessageType::DeviceList,
            ButtplugMessageUnion::DeviceAdded(_) => ButtplugMessageType::DeviceAdded,
            ButtplugMessageUnion::DeviceRemoved(_) => ButtplugMessageType::DeviceRemoved,
            ButtplugMessageUnion::StartScanning(_) => ButtplugMessageType::StartScanning,
            ButtplugMessageUnion::StopScanning(_) => ButtplugMessageType::StopScanning,
            ButtplugMessageUnion::ScanningFinished(_) => ButtplugMessageType::ScanningFinished,
            ButtplugMessageUnion::RequestDeviceList(_) => ButtplugMessageType::RequestDeviceList,
            ButtplugMessageUnion::StopAllDevices(_) => ButtplugMessageType::StopAllDevices,
            ButtplugMessageUnion::ScalarCmd(_) => ButtplugMessageType::ScalarCmd,
            ButtplugMessageUnion::LinearCmd(_) => ButtplugMessageType::LinearCmd,
            ButtplugMessageUnion::RotateCmd(_) => ButtplugMessageType::RotateCmd,
            ButtplugMessageUnion::StopDeviceCmd(_) => ButtplugMessageType::StopDeviceCmd,
            ButtplugMessageUnion::SensorReadCmd(_) => ButtplugMessageType::SensorReadCmd,
            ButtplugMessageUnion::SensorSubscribeCmd(_) => ButtplugMessageType::SensorSubscribeCmd,
            ButtplugMessageUnion::SensorUnsubscribeCmd(_) => ButtplugMessageType::SensorUnsubscribeCmd,
            ButtplugMessageUnion::SensorReading(_) => ButtplugMessageType::SensorReading,
            ButtplugMessageUnion::RawWriteCmd(_) => ButtplugMessageType::RawWriteCmd,
            ButtplugMessageUnion::RawReadCmd(_) => ButtplugMessageType::RawReadCmd,
            ButtplugMessageUnion::RawSubscribeCmd(_) => ButtplugMessageType::RawSubscribeCmd,
            ButtplugMessageUnion::RawUnsubscribeCmd(_) => ButtplugMessageType::RawUnsubscribeCmd,
            ButtplugMessageUnion::RawReading(_) => ButtplugMessageType::RawReading,
        }
    }

    /// Returns the name of the message held.
    pub fn message_type(&self) -> (r: ButtplugMessageType)
        ensures
            r == self.spec_message_type(),
    {
        match self {
            ButtplugMessageUnion::OkMessage(_) => ButtplugMessageType::OkMessage,
            ButtplugMessageUnion::Error(_) => ButtplugMessageType::Error,
            ButtplugMessageUnion::Ping(_) => ButtplugMessageType::Ping,
            ButtplugMessageUnion::RequestServerInfo(_) => ButtplugMessageType::RequestServerInfo,
            ButtplugMessageUnion::ServerInfo(_) => ButtplugMessageType::ServerInfo,
            ButtplugMessageUnion::DeviceList(_) => ButtplugMessageType::DeviceList,
            ButtplugMessageUnion::DeviceAdded(_) => ButtplugMessageType::DeviceAdded,
            ButtplugMessageUnion::DeviceRemoved(_) => ButtplugMessageType::DeviceRemoved,
            ButtplugMessageUnion::StartScanning(_) => ButtplugMessageType::StartScanning,
            ButtplugMessageUnion::StopScanning(_) => ButtplugMessageType::StopScanning,
            ButtplugMessageUnion::ScanningFinished(_) => ButtplugMessageType::ScanningFinished,
            ButtplugMessageUnion::RequestDeviceList(_) => ButtplugMessageType::RequestDeviceList,
            ButtplugMessageUnion::StopAllDevices(_) => ButtplugMessageType::StopAllDevices,
            ButtplugMessageUnion::ScalarCmd(_) => ButtplugMessageType::ScalarCmd,
            ButtplugMessageUnion::LinearCmd(_) => ButtplugMessageType::LinearCmd,
            ButtplugMessageUnion::RotateCmd(_) => ButtplugMessageType::RotateCmd,
            ButtplugMessageUnion::StopDeviceCmd(_) => ButtplugMessageType::StopDeviceCmd,
            ButtplugMessageUnion::SensorReadCmd(_) => ButtplugMessageType::SensorReadCmd,
            ButtplugMessageUnion::SensorSubscribeCmd(_) => ButtplugMessageType::SensorSubscribeCmd,
            ButtplugMessageUnion::SensorUnsubscribeCmd(_) => ButtplugMessageType::SensorUnsubscribeCmd,
            ButtplugMessageUnion::SensorReading(_) => ButtplugMessageType::SensorReading,
            ButtplugMessageUnion::RawWriteCmd(_) => ButtplugMessageType::RawWriteCmd,
            ButtplugMessageUnion::RawReadCmd(_) => ButtplugMessageType::RawReadCmd,
            ButtplugMessageUnion::RawSubscribeCmd(_) => ButtplugMessageType::RawSubscribeCmd,
            ButtplugMessageUnion::RawUnsubscribeCmd(_) => ButtplugMessageType::RawUnsubscribeCmd,
            ButtplugMessageUnion::RawReading(_) => ButtplugMessageType::RawReading,
        }
    }
}

impl ButtplugMessageUnion {
    /// The message with another id and nothing else changed.
    pub open spec fn spec_with_id(self, id: u32) -> ButtplugMessageUnion {
        match self {
            Self::OkMessage(msg) => Self::OkMessage(OkMessage { id, ..msg }),
            Self::Error(msg) => Self::Error(Error { id, ..msg }),
            Self::Ping(msg) => Self::Ping(Ping { id, ..msg }),
            Self::RequestServerInfo(msg) => Self::RequestServerInfo(RequestServerInfo { id, ..msg }),
            Self::ServerInfo(msg) => Self::ServerInfo(ServerInfo { id, ..msg }),
            Self::DeviceList(msg) => Self::DeviceList(DeviceList { id, ..msg }),
            Self::DeviceAdded(msg) => Self::DeviceAdded(DeviceAdded { id, ..msg }),
            Self::DeviceRemoved(msg) => Self::DeviceRemoved(DeviceRemoved { id, ..msg }),
            Self::StartScanning(msg) => Self::StartScanning(StartScanning { id, ..msg }),
            Self::StopScanning(msg) => Self::StopScanning(StopScanning { id, ..msg }),
            Self::ScanningFinished(msg) => Self::ScanningFinished(ScanningFinished { id, ..msg }),
            Self::RequestDeviceList(msg) => Self::RequestDeviceList(RequestDeviceList { id, ..msg }),
            Self::StopAllDevices(msg) => Self::StopAllDevices(StopAllDevices { id, ..msg }),
            Self::ScalarCmd(msg) => Self::ScalarCmd(ScalarCmd { id, ..msg }),
            Self::LinearCmd(msg) => Self::LinearCmd(LinearCmd { id, ..msg }),
            Self::RotateCmd(msg) => Self::RotateCmd(RotateCmd { id, ..msg }),
            Self::StopDeviceCmd(msg) => Self::StopDeviceCmd(StopDeviceCmd { id, ..msg }),
            Self::SensorReadCmd(msg) => Self::SensorReadCmd(SensorReadCmd { id, ..msg }),
            Self::SensorSubscribeCmd(msg) => Self::SensorSubscribeCmd(SensorSubscribeCmd { id, ..msg }),
            Self::SensorUnsubscribeCmd(msg) => Self::SensorUnsubscribeCmd(SensorUnsubscribeCmd { id, ..msg }),
            Self::SensorReading(msg) => Self::SensorReading(SensorReading { id, ..msg }),
            Self::RawWriteCmd(msg) => Self::RawWriteCmd(RawWriteCmd { id, ..msg }),
            Self::RawReadCmd(msg) => Self::RawReadCmd(RawReadCmd { id, ..msg }),
            Self::RawSubscribeCmd(msg) => Self::RawSubscribeCmd(RawSubscribeCmd { id, ..msg }),
            Self::RawUnsubscribeCmd(msg) => Self::RawUnsubscribeCmd(RawUnsubscribeCmd { id, ..msg }),
            Self::RawReading(msg) => Self::RawReading(RawReading { id, ..msg }),
        }
    }
}

impl ButtplugMessage for ButtplugMessageUnion {
    open spec fn spec_id(&self) -> u32 {
        match self {
            ButtplugMessageUnion::OkMessage(msg) => msg.id,
            ButtplugMessageUnion::Error(msg) => msg.id,
            ButtplugMessageUnion::Ping(msg) => msg.id,
            ButtplugMessageUnion::RequestServerInfo(msg) => msg.id,
            ButtplugMessageUnion::ServerInfo(msg) => msg.id,
            ButtplugMessageUnion::DeviceList(msg) => msg.id,
            ButtplugMessageUnion::DeviceAdded(msg) => msg.id,
            ButtplugMessageUnion::DeviceRemoved(msg) => msg.id,
            ButtplugMessageUnion::StartScanning(msg) => msg.id,
            ButtplugMessageUnion::StopScanning(msg) => msg.id,
            ButtplugMessageUnion::ScanningFinished(msg) => msg.id,
            ButtplugMessageUnion::RequestDeviceList(msg) => msg.id,
            ButtplugMessageUnion::StopAllDevices(msg) => msg.id,
            ButtplugMessageUnion::ScalarCmd(msg) => msg.id,
            ButtplugMessageUnion::LinearCmd(msg) => msg.id,
            ButtplugMessageUnion::RotateCmd(msg) => msg.id,
            ButtplugMessageUnion::StopDeviceCmd(msg) => msg.id,
            ButtplugMessageUnion::SensorReadCmd(msg) => msg.id,
            ButtplugMessageUnion::SensorSubscribeCmd(msg) => msg.id,
            ButtplugMessageUnion::SensorUnsubscribeCmd(msg) => msg.id,
            ButtplugMessageUnion::SensorReading(msg) => msg.id,
            ButtplugMessageUnion::RawWriteCmd(msg) => msg.id,
            ButtplugMessageUnion::RawReadCmd(msg) => msg.id,
            ButtplugMessageUnion::RawSubscribeCmd(msg) => msg.id,
            ButtplugMessageUnion::RawUnsubscribeCmd(msg) => msg.id,
            ButtplugMessageUnion::RawReading(msg) => msg.id,
        }
    }

    fn id(&self) -> (r: u32) {
        match self {
            ButtplugMessageUnion::OkMessage(msg) => msg.id,
            ButtplugMessageUnion::Error(msg) => msg.id,
            ButtplugMessageUnion::Ping(msg) => msg.id,
            ButtplugMessageUnion::RequestServerInfo(msg) => msg.id,
            ButtplugMessageUnion::ServerInfo(msg) => msg.id,
            ButtplugMessageUnion::DeviceList(msg) => msg.id,
            ButtplugMessageUnion::DeviceAdded(msg) => msg.id,
            ButtplugMessageUnion::DeviceRemoved(msg) => msg.id,
            ButtplugMessageUnion::StartScanning(msg) => msg.id,
            ButtplugMessageUnion::StopScanning(msg) => msg.id,
            ButtplugMessageUnion::ScanningFinished(msg) => msg.id,
            ButtplugMessageUnion::RequestDeviceList(msg) => msg.id,
            ButtplugMessageUnion::StopAllDevices(msg) => msg.id,
            ButtplugMessageUnion::ScalarCmd(msg) => msg.id,
            ButtplugMessageUnion::LinearCmd(msg) => msg.id,
            ButtplugMessageUnion::RotateCmd(msg) => msg.id,
            ButtplugMessageUnion::StopDeviceCmd(msg) => msg.id,
            ButtplugMessageUnion::SensorReadCmd(msg) => msg.id,
            ButtplugMessageUnion::SensorSubscribeCmd(msg) => msg.id,
            ButtplugMessageUnion::SensorUnsubscribeCmd(msg) => msg.id,
            ButtplugMessageUnion::SensorReading(msg) => msg.id,
            ButtplugMessageUnion::RawWriteCmd(msg) => msg.id,
            ButtplugMessageUnion::RawReadCmd(msg) => msg.id,
            ButtplugMessageUnion::RawSubscribeCmd(msg) => msg.id,
            ButtplugMessageUnion::RawUnsubscribeCmd(msg) => msg.id,
            ButtplugMessageUnion::RawReading(msg) => msg.id,
        }
    }

    fn set_id(&mut self, id: u32)
        ensures
            *final(self) == old(self).spec_with_id(id),
    {
        match self {
            ButtplugMessageUnion::OkMessage(msg) => {
                msg.id = id;
            },
            ButtplugMessageUnion::Error(msg) => {
                msg.id = id;
            },
            ButtplugMessageUnion::Ping(msg) => {
                msg.id = id;
            },
            ButtplugMessageUnion::RequestServerInfo(msg) => {
                msg.id = id;
            },
            ButtplugMessageUnion::ServerInfo(msg) => {
                msg.id = id;
            },
            ButtplugMessageUnion::DeviceList(msg) => {
                msg.id = id;
            },
            ButtplugMessageUnion::DeviceAdded(msg) => {
                msg.id = id;
            },
            ButtplugMessageUnion::DeviceRemoved(msg) => {
                msg.id = id;
            },
            ButtplugMessageUnion::StartScanning(msg) => {
                msg.id = id;
            },
            ButtplugMessageUnion::StopScanning(msg) => {
                msg.id = id;
            },
            ButtplugMessageUnion::ScanningFinished(msg) => {
                msg.id = id;
            },
            ButtplugMessageUnion::RequestDeviceList(msg) => {
                msg.id = id;
            },
            ButtplugMessageUnion::StopAllDevices(msg) => {
                msg.id = id;
            },
            ButtplugMessageUnion::ScalarCmd(msg) => {
                msg.id = id;
            },
            ButtplugMessageUnion::LinearCmd(msg) => {
                msg.id = id;
            },
            ButtplugMessageUnion::RotateCmd(msg) => {
                msg.id = id;
            },
            ButtplugMessageUnion::StopDeviceCmd(msg) => {
                msg.id = id;
            },
            ButtplugMessageUnion::SensorReadCmd(msg) => {
                msg.id = id;
            },
            ButtplugMessageUnion::SensorSubscribeCmd(msg) => {
                msg.id = id;
            },
            ButtplugMessageUnion::SensorUnsubscribeCmd(msg) => {
                msg.id = id;
            },
            ButtplugMessageUnion::SensorReading(msg) => {
                msg.id = id;
            },
            ButtplugMessageUnion::RawWriteCmd(msg) => {
                msg.id = id;
            },
            ButtplugMessageUnion::RawReadCmd(msg) => {
                msg.id = id;
            },
            ButtplugMessageUnion::RawSubscribeCmd(msg) => {
                msg.id = id;
            },
            ButtplugMessageUnion::RawUnsubscribeCmd(msg) => {
                msg.id = id;
            },
            ButtplugMessageUnion::RawReading(msg) => {
                msg.id = id;
            },
        }
    }
}

impl ButtplugMessageValidator for ButtplugMessageUnion {
    /// The check of the message held.
    open spec fn spec_is_valid(&self) -> Result<(), ButtplugMessageError> {
        match self {
            ButtplugMessageUnion::OkMessage(msg) => msg.spec_is_valid(),
            ButtplugMessageUnion::Error(msg) => msg.spec_is_valid(),
            ButtplugMessageUnion::Ping(msg) => msg.spec_is_valid(),
            ButtplugMessageUnion::RequestServerInfo(msg) => msg.spec_is_valid(),
            ButtplugMessageUnion::ServerInfo(msg) => msg.spec_is_valid(),
            ButtplugMessageUnion::DeviceList(msg) => msg.spec_is_valid(),
            ButtplugMessageUnion::DeviceAdded(msg) => msg.spec_is_valid(),
            ButtplugMessageUnion::DeviceRemoved(msg) => msg.spec_is_valid(),
            ButtplugMessageUnion::StartScanning(msg) => msg.spec_is_valid(),
            ButtplugMessageUnion::StopScanning(msg) => msg.spec_is_valid(),
            ButtplugMessageUnion::ScanningFinished(msg) => msg.spec_is_valid(),
            ButtplugMessageUnion::RequestDeviceList(msg) => msg.spec_is_valid(),
            ButtplugMessageUnion::StopAllDevices(msg) => msg.spec_is_valid(),
            ButtplugMessageUnion::ScalarCmd(msg) => msg.spec_is_valid(),
            ButtplugMessageUnion::LinearCmd(msg) => msg.spec_is_valid(),
            ButtplugMessageUnion::RotateCmd(msg) => msg.spec_is_valid(),
            ButtplugMessageUnion::StopDeviceCmd(msg) => msg.spec_is_valid(),
            ButtplugMessageUnion::SensorReadCmd(msg) => msg.spec_is_valid(),
            ButtplugMessageUnion::SensorSubscribeCmd(msg) => msg.spec_is_valid(),
            ButtplugMessageUnion::SensorUnsubscribeCmd(msg) => msg.spec_is_valid(),
            ButtplugMessageUnion::SensorReading(msg) => msg.spec_is_valid(),
            ButtplugMessageUnion::RawWriteCmd(msg) => msg.spec_is_valid(),
            ButtplugMessageUnion::RawReadCmd(msg) => msg.spec_is_valid(),
            ButtplugMessageUnion::RawSubscribeCmd(msg) => msg.spec_is_valid(),
            ButtplugMessageUnion::RawUnsubscribeCmd(msg) => msg.spec_is_valid(),
            ButtplugMessageUnion::RawReading(msg) => msg.spec_is_valid(),
        }
    }

    fn is_valid(&self) -> (r: Result<(), ButtplugMessageError>) {
        match self {
            ButtplugMessageUnion::OkMessage(msg) => msg.is_valid(),
            ButtplugMessageUnion::Error(msg) => msg.is_valid(),
            ButtplugMessageUnion::Ping(msg) => msg.is_valid(),
            ButtplugMessageUnion::RequestServerInfo(msg) => msg.is_valid(),
            ButtplugMessageUnion::ServerInfo(msg) => msg.is_valid(),
            ButtplugMessageUnion::DeviceList(msg) => msg.is_valid(),
            ButtplugMessageUnion::DeviceAdded(msg) => msg.is_valid(),
            ButtplugMessageUnion::DeviceRemoved(msg) => msg.is_valid(),
            ButtplugMessageUnion::StartScanning(msg) => msg.is_valid(),
            ButtplugMessageUnion::StopScanning(msg) => msg.is_valid(),
            ButtplugMessageUnion::ScanningFinished(msg) => msg.is_valid(),
            ButtplugMessageUnion::RequestDeviceList(msg) => msg.is_valid(),
            ButtplugMessageUnion::StopAllDevices(msg) => msg.is_valid(),
            ButtplugMessageUnion::ScalarCmd(msg) => msg.is_valid(),
            ButtplugMessageUnion::LinearCmd(msg) => msg.is_valid(),
            ButtplugMessageUnion::RotateCmd(msg) => msg.is_valid(),
            ButtplugMessageUnion::StopDeviceCmd(msg) => msg.is_valid(),
            ButtplugMessageUnion::SensorReadCmd(msg) => msg.is_valid(),
            ButtplugMessageUnion::SensorSubscribeCmd(msg) => msg.is_valid(),
            ButtplugMessageUnion::SensorUnsubscribeCmd(msg) => msg.is_valid(),
            ButtplugMessageUnion::SensorReading(msg) => msg.is_valid(),
            ButtplugMessageUnion::RawWriteCmd(msg) => msg.is_valid(),
            ButtplugMessageUnion::RawReadCmd(msg) => msg.is_valid(),
            ButtplugMessageUnion::RawSubscribeCmd(msg) => msg.is_valid(),
            ButtplugMessageUnion::RawUnsubscribeCmd(msg) => msg.is_valid(),
            ButtplugMessageUnion::RawReading(msg) => msg.is_valid(),
        }
    }
}

/// The messages that only a server sends. A client must never send one.
#[derive(Clone, Debug, PartialEq, Eq)]
pub enum ButtplugSystemMessageUnion {
    OkMessage(OkMessage),
    Error(Error),
    ServerInfo(ServerInfo),
    DeviceList(DeviceList),
    DeviceAdded(DeviceAdded),
    DeviceRemoved(DeviceRemoved),
    ScanningFinished(ScanningFinished),
    RawReading(RawReading),
    SensorReading(SensorReading),
}

impl ButtplugSystemMessageUnion {
    /// The name of the message held.
    pub open spec fn spec_message_type(&self) -> ButtplugMessageType {
        match self {
            ButtplugSystemMessageUnion::OkMessage(_) => ButtplugMessageType::OkMessage,
            ButtplugSystemMessageUnion::Error(_) => ButtplugMessageType::Error,
            ButtplugSystemMessageUnion::ServerInfo(_) => ButtplugMessageType::ServerInfo,
            ButtplugSystemMessageUnion::DeviceList(_) => ButtplugMessageType::DeviceList,
            ButtplugSystemMessageUnion::DeviceAdded(_) => ButtplugMessageType::DeviceAdded,
            ButtplugSystemMessageUnion::DeviceRemoved(_) => ButtplugMessageType::DeviceRemoved,
            ButtplugSystemMessageUnion::ScanningFinished(_) => ButtplugMessageType::ScanningFinished,
            ButtplugSystemMessageUnion::RawReading(_) => ButtplugMessageType::RawReading,
            ButtplugSystemMessageUnion::SensorReading(_) => ButtplugMessageType::SensorReading,
        }
    }

    /// Returns the name of the message held.
    pub fn message_type(&self) -> (r: ButtplugMessageType)
        ensures
            r == self.spec_message_type(),
    {
        match self {
            ButtplugSystemMessageUnion::OkMessage(_) => ButtplugMessageType::OkMessage,
            ButtplugSystemMessageUnion::Error(_) => ButtplugMessageType::Error,
            ButtplugSystemMessageUnion::ServerInfo(_) => ButtplugMessageType::ServerInfo,
            ButtplugSystemMessageUnion::DeviceList(_) => ButtplugMessageType::DeviceList,
            ButtplugSystemMessageUnion::DeviceAdded(_) => ButtplugMessageType::DeviceAdded,
            ButtplugSystemMessageUnion::DeviceRemoved(_) => ButtplugMessageType::DeviceRemoved,
            ButtplugSystemMessageUnion::ScanningFinished(_) => ButtplugMessageType::ScanningFinished,
            ButtplugSystemMessageUnion::RawReading(_) => ButtplugMessageType::RawReading,
            ButtplugSystemMessageUnion::SensorReading(_) => ButtplugMessageType::SensorReading,
        }
    }
}

impl ButtplugSystemMessageUnion {
    /// The message with another id and nothing else changed.
    pub open spec fn spec_with_id(self, id: u32) -> ButtplugSystemMessageUnion {
        match self {
            Self::OkMessage(msg) => Self::OkMessage(OkMessage { id, ..msg }),
            Self::Error(msg) => Self::Error(Error { id, ..msg }),
            Self::ServerInfo(msg) => Self::ServerInfo(ServerInfo { id, ..msg }),
            Self::DeviceList(msg) => Self::DeviceList(DeviceList { id, ..msg }),
            Self::DeviceAdded(msg) => Self::DeviceAdded(DeviceAdded { id, ..msg }),
            Self::DeviceRemoved(msg) => Self::DeviceRemoved(DeviceRemoved { id, ..msg }),
            Self::ScanningFinished(msg) => Self::ScanningFinished(ScanningFinished { id, ..msg }),
            Self::RawReading(msg) => Self::RawReading(RawReading { id, ..msg }),
            Self::SensorReading(msg) => Self::SensorReading(SensorReading { id, ..msg }),
        }
    }
}

impl ButtplugMessage for ButtplugSystemMessageUnion {
    open spec fn spec_id(&self) -> u32 {
        match self {
            ButtplugSystemMessageUnion::OkMessage(msg) => msg.id,
            ButtplugSystemMessageUnion::Error(msg) => msg.id,
            ButtplugSystemMessageUnion::ServerInfo(msg) => msg.id,
            ButtplugSystemMessageUnion::DeviceList(msg) => msg.id,
            ButtplugSystemMessageUnion::DeviceAdded(msg) => msg.id,
            ButtplugSystemMessageUnion::DeviceRemoved(msg) => msg.id,
            ButtplugSystemMessageUnion::ScanningFinished(msg) => msg.id,
            ButtplugSystemMessageUnion::RawReading(msg) => msg.id,
            ButtplugSystemMessageUnion::SensorReading(msg) => msg.id,
        }
    }

    fn id(&self) -> (r: u32) {
        match self {
            ButtplugSystemMessageUnion::OkMessage(msg) => msg.id,
            ButtplugSystemMessageUnion::Error(msg) => msg.id,
            ButtplugSystemMessageUnion::ServerInfo(msg) => msg.id,
            ButtplugSystemMessageUnion::DeviceList(msg) => msg.id,
            ButtplugSystemMessageUnion::DeviceAdded(msg) => msg.id,
            ButtplugSystemMessageUnion::DeviceRemoved(msg) => msg.id,
            ButtplugSystemMessageUnion::ScanningFinished(msg) => msg.id,
            ButtplugSystemMessageUnion::RawReading(msg) => msg.id,
            ButtplugSystemMessageUnion::SensorReading(msg) => msg.id,
        }
    }

    fn set_id(&mut self, id: u32)
        ensures
            *final(self) == old(self).spec_with_id(id),
    {
        match self {
            ButtplugSystemMessageUnion::OkMessage(msg) => {
                msg.id = id;
            },
            ButtplugSystemMessageUnion::Error(msg) => {
                msg.id = id;
            },
            ButtplugSystemMessageUnion::ServerInfo(msg) => {
                msg.id = id;
            },
            ButtplugSystemMessageUnion::DeviceList(msg) => {
                msg.id = id;
            },
            ButtplugSystemMessageUnion::DeviceAdded(msg) => {
                msg.id = id;
            },
            ButtplugSystemMessageUnion::DeviceRemoved(msg) => {
                msg.id = id;
            },
            ButtplugSystemMessageUnion::ScanningFinished(msg) => {
                msg.id = id;
            },
            ButtplugSystemMessageUnion::RawReading(msg) => {
                msg.id = id;
            },
            ButtplugSystemMessageUnion::SensorReading(msg) => {
                msg.id = id;
            },
        }
    }
}

impl ButtplugMessageValidator for ButtplugSystemMessageUnion {
    /// The check of the message held.
    open spec fn spec_is_valid(&self) -> Result<(), ButtplugMessageError> {
        match self {
            ButtplugSystemMessageUnion::OkMessage(msg) => msg.spec_is_valid(),
            ButtplugSystemMessageUnion::Error(msg) => msg.spec_is_valid(),
            ButtplugSystemMessageUnion::ServerInfo(msg) => msg.spec_is_valid(),
            ButtplugSystemMessageUnion::DeviceList(msg) => msg.spec_is_valid(),
            ButtplugSystemMessageUnion::DeviceAdded(msg) => msg.spec_is_valid(),
            ButtplugSystemMessageUnion::DeviceRemoved(msg) => msg.spec_is_valid(),
            ButtplugSystemMessageUnion::ScanningFinished(msg) => msg.spec_is_valid(),
            ButtplugSystemMessageUnion::RawReading(msg) => msg.spec_is_valid(),
            ButtplugSystemMessageUnion::SensorReading(msg) => msg.spec_is_valid(),
        }
    }

    fn is_valid(&self) -> (r: Result<(), ButtplugMessageError>) {
        match self {
            ButtplugSystemMessageUnion::OkMessage(msg) => msg.is_valid(),
            ButtplugSystemMessageUnion::Error(msg) => msg.is_valid(),
            ButtplugSystemMessageUnion::ServerInfo(msg) => msg.is_valid(),
            ButtplugSystemMessageUnion::DeviceList(msg) => msg.is_valid(),
            ButtplugSystemMessageUnion::DeviceAdded(msg) => msg.is_valid(),
            ButtplugSystemMessageUnion::DeviceRemoved(msg) => msg.is_valid(),
            ButtplugSystemMessageUnion::ScanningFinished(msg) => msg.is_valid(),
            ButtplugSystemMessageUnion::RawReading(msg) => msg.is_valid(),
            ButtplugSystemMessageUnion::SensorReading(msg) => msg.is_valid(),
        }
    }
}

impl ButtplugSystemMessageUnion {
    /// The message as one of this union where it is one, the message itself
    /// where it is not.
    pub open spec fn spec_try_from(msg: ButtplugMessageUnion) -> Result<Self, ButtplugMessageUnion> {
        match msg {
            ButtplugMessageUnion::OkMessage(m) => Ok(Self::OkMessage(m)),
            ButtplugMessageUnion::Error(m) => Ok(Self::Error(m)),
            ButtplugMessageUnion::ServerInfo(m) => Ok(Self::ServerInfo(m)),
            ButtplugMessageUnion::DeviceList(m) => Ok(Self::DeviceList(m)),
            ButtplugMessageUnion::DeviceAdded(m) => Ok(Self::DeviceAdded(m)),
            ButtplugMessageUnion::DeviceRemoved(m) => Ok(Self::DeviceRemoved(m)),
            ButtplugMessageUnion::ScanningFinished(m) => Ok(Self::ScanningFinished(m)),
            ButtplugMessageUnion::RawReading(m) => Ok(Self::RawReading(m)),
            ButtplugMessageUnion::SensorReading(m) => Ok(Self::SensorReading(m)),
            _ => Err(msg),
        }
    }

    /// Takes a message of any kind as one of this union, or hands it back.
    pub fn try_from(msg: ButtplugMessageUnion) -> (r: Result<Self, ButtplugMessageUnion>)
        ensures
            r == Self::spec_try_from(msg),
    {
        match msg {
            ButtplugMessageUnion::OkMessage(m) => Ok(Self::OkMessage(m)),
            ButtplugMessageUnion::Error(m) => Ok(Self::Error(m)),
            ButtplugMessageUnion::ServerInfo(m) => Ok(Self::ServerInfo(m)),
            ButtplugMessageUnion::DeviceList(m) => Ok(Self::DeviceList(m)),
            ButtplugMessageUnion::DeviceAdded(m) => Ok(Self::DeviceAdded(m)),
            ButtplugMessageUnion::DeviceRemoved(m) => Ok(Self::DeviceRemoved(m)),
            ButtplugMessageUnion::ScanningFinished(m) => Ok(Self::ScanningFinished(m)),
            ButtplugMessageUnion::RawReading(m) => Ok(Self::RawReading(m)),
            ButtplugMessageUnion::SensorReading(m) => Ok(Self::SensorReading(m)),
            other => Err(other),
        }
    }
}

impl FromSpecImpl<ButtplugSystemMessageUnion> for ButtplugMessageUnion {
    open spec fn obeys_from_spec() -> bool {
        true
    }

    open spec fn from_spec(msg: ButtplugSystemMessageUnion) -> ButtplugMessageUnion {
        match msg {
            ButtplugSystemMessageUnion::OkMessage(m) => ButtplugMessageUnion::OkMessage(m),
            ButtplugSystemMessageUnion::Error(m) => ButtplugMessageUnion::Error(m),
            ButtplugSystemMessageUnion::ServerInfo(m) => ButtplugMessageUnion::ServerInfo(m),
            ButtplugSystemMessageUnion::DeviceList(m) => ButtplugMessageUnion::DeviceList(m),
            ButtplugSystemMessageUnion::DeviceAdded(m) => ButtplugMessageUnion::DeviceAdded(m),
            ButtplugSystemMessageUnion::DeviceRemoved(m) => ButtplugMessageUnion::DeviceRemoved(m),
            ButtplugSystemMessageUnion::ScanningFinished(m) => ButtplugMessageUnion::ScanningFinished(m),
            ButtplugSystemMessageUnion::RawReading(m) => ButtplugMessageUnion::RawReading(m),
            ButtplugSystemMessageUnion::SensorReading(m) => ButtplugMessageUnion::SensorReading(m),
        }
    }
}

impl From<ButtplugSystemMessageUnion> for ButtplugMessageUnion {
    fn from(msg: ButtplugSystemMessageUnion) -> (r: Self) {
        match msg {
            ButtplugSystemMessageUnion::OkMessage(m) => ButtplugMessageUnion::OkMessage(m),
            ButtplugSystemMessageUnion::Error(m) => ButtplugMessageUnion::Error(m),
            ButtplugSystemMessageUnion::ServerInfo(m) => ButtplugMessageUnion::ServerInfo(m),
            ButtplugSystemMessageUnion::DeviceList(m) => ButtplugMessageUnion::DeviceList(m),
            ButtplugSystemMessageUnion::DeviceAdded(m) => ButtplugMessageUnion::DeviceAdded(m),
            ButtplugSystemMessageUnion::DeviceRemoved(m) => ButtplugMessageUnion::DeviceRemoved(m),
            ButtplugSystemMessageUnion::ScanningFinished(m) => ButtplugMessageUnion::ScanningFinished(m),
            ButtplugSystemMessageUnion::RawReading(m) => ButtplugMessageUnion::RawReading(m),
            ButtplugSystemMessageUnion::SensorReading(m) => ButtplugMessageUnion::SensorReading(m),
        }
    }
}

/// The requests that the device manager answers itself.
#[derive(Clone, Debug, PartialEq, Eq)]
pub enum ButtplugDeviceManagerMessageUnion {
    RequestDeviceList(RequestDeviceList),
    StopAllDevices(StopAllDevices),
    StartScanning(StartScanning),
    StopScanning(StopScanning),
}

impl ButtplugDeviceManagerMessageUnion {
    /// The name of the message held.
    pub open spec fn spec_message_type(&self) -> ButtplugMessageType {
        match self {
            ButtplugDeviceManagerMessageUnion::RequestDeviceList(_) => ButtplugMessageType::RequestDeviceList,
            ButtplugDeviceManagerMessageUnion::StopAllDevices(_) => ButtplugMessageType::StopAllDevices,
            ButtplugDeviceManagerMessageUnion::StartScanning(_) => ButtplugMessageType::StartScanning,
            ButtplugDeviceManagerMessageUnion::StopScanning(_) => ButtplugMessageType::StopScanning,
        }
    }

    /// Returns the name of the message held.
    pub fn message_type(&self) -> (r: ButtplugMessageType)
        ensures
            r == self.spec_message_type(),
    {
        match self {
            ButtplugDeviceManagerMessageUnion::RequestDeviceList(_) => ButtplugMessageType::RequestDeviceList,
            ButtplugDeviceManagerMessageUnion::StopAllDevices(_) => ButtplugMessageType::StopAllDevices,
            ButtplugDeviceManagerMessageUnion::StartScanning(_) => ButtplugMessageType::StartScanning,
            ButtplugDeviceManagerMessageUnion::StopScanning(_) => ButtplugMessageType::StopScanning,
        }
    }
}

impl ButtplugDeviceManagerMessageUnion {
    /// The message with another id and nothing else changed.
    pub open spec fn spec_with_id(self, id: u32) -> ButtplugDeviceManagerMessageUnion {
        match self {
            Self::RequestDeviceList(msg) => Self::RequestDeviceList(RequestDeviceList { id, ..msg }),
            Self::StopAllDevices(msg) => Self::StopAllDevices(StopAllDevices { id, ..msg }),
            Self::StartScanning(msg) => Self::StartScanning(StartScanning { id, ..msg }),
            Self::StopScanning(msg) => Self::StopScanning(StopScanning { id, ..msg }),
        }
    }
}

impl ButtplugMessage for ButtplugDeviceManagerMessageUnion {
    open spec fn spec_id(&self) -> u32 {
        match self {
            ButtplugDeviceManagerMessageUnion::RequestDeviceList(msg) => msg.id,
            ButtplugDeviceManagerMessageUnion::StopAllDevices(msg) => msg.id,
            ButtplugDeviceManagerMessageUnion::StartScanning(msg) => msg.id,
            ButtplugDeviceManagerMessageUnion::StopScanning(msg) => msg.id,
        }
    }

    fn id(&self) -> (r: u32) {
        match self {
            ButtplugDeviceManagerMessageUnion::RequestDeviceList(msg) => msg.id,
            ButtplugDeviceManagerMessageUnion::StopAllDevices(msg) => msg.id,
            ButtplugDeviceManagerMessageUnion::StartScanning(msg) => msg.id,
            ButtplugDeviceManagerMessageUnion::StopScanning(msg) => msg.id,
        }
    }

    fn set_id(&mut self, id: u32)
        ensures
            *final(self) == old(self).spec_with_id(id),
    {
        match self {
            ButtplugDeviceManagerMessageUnion::RequestDeviceList(msg) => {
                msg.id = id;
            },
            ButtplugDeviceManagerMessageUnion::StopAllDevices(msg) => {
                msg.id = id;
            },
            ButtplugDeviceManagerMessageUnion::StartScanning(msg) => {
                msg.id = id;
            },
            ButtplugDeviceManagerMessageUnion::StopScanning(msg) => {
                msg.id = id;
            },
        }
    }
}

impl ButtplugMessageValidator for ButtplugDeviceManagerMessageUnion {
    /// The check of the message held.
    open spec fn spec_is_valid(&self) -> Result<(), ButtplugMessageError> {
        match self {
            ButtplugDeviceManagerMessageUnion::RequestDeviceList(msg) => msg.spec_is_valid(),
            ButtplugDeviceManagerMessageUnion::StopAllDevices(msg) => msg.spec_is_valid(),
            ButtplugDeviceManagerMessageUnion::StartScanning(msg) => msg.spec_is_valid(),
            ButtplugDeviceManagerMessageUnion::StopScanning(msg) => msg.spec_is_valid(),
        }
    }

    fn is_valid(&self) -> (r: Result<(), ButtplugMessageError>) {
        match self {
            ButtplugDeviceManagerMessageUnion::RequestDeviceList(msg) => msg.is_valid(),
            ButtplugDeviceManagerMessageUnion::StopAllDevices(msg) => msg.is_valid(),
            ButtplugDeviceManagerMessageUnion::StartScanning(msg) => msg.is_valid(),
            ButtplugDeviceManagerMessageUnion::StopScanning(msg) => msg.is_valid(),
        }
    }
}

impl ButtplugDeviceManagerMessageUnion {
    /// The message as one of this union where it is one, the message itself
    /// where it is not.
    pub open spec fn spec_try_from(msg: ButtplugMessageUnion) -> Result<Self, ButtplugMessageUnion> {
        match msg {
            ButtplugMessageUnion::RequestDeviceList(m) => Ok(Self::RequestDeviceList(m)),
            ButtplugMessageUnion::StopAllDevices(m) => Ok(Self::StopAllDevices(m)),
            ButtplugMessageUnion::StartScanning(m) => Ok(Self::StartScanning(m)),
            ButtplugMessageUnion::StopScanning(m) => Ok(Self::StopScanning(m)),
            _ => Err(msg),
        }
    }

    /// Takes a message of any kind as one of this union, or hands it back.
    pub fn try_from(msg: ButtplugMessageUnion) -> (r: Result<Self, ButtplugMessageUnion>)
        ensures
            r == Self::spec_try_from(msg),
    {
        match msg {
            ButtplugMessageUnion::RequestDeviceList(m) => Ok(Self::RequestDeviceList(m)),
            ButtplugMessageUnion::StopAllDevices(m) => Ok(Self::StopAllDevices(m)),
            ButtplugMessageUnion::StartScanning(m) => Ok(Self::StartScanning(m)),
            ButtplugMessageUnion::StopScanning(m) => Ok(Self::StopScanning(m)),
            other => Err(other),
        }
    }
}

impl FromSpecImpl<ButtplugDeviceManagerMessageUnion> for ButtplugMessageUnion {
    open spec fn obeys_from_spec() -> bool {
        true
    }

    open spec fn from_spec(msg: ButtplugDeviceManagerMessageUnion) -> ButtplugMessageUnion {
        match msg {
            ButtplugDeviceManagerMessageUnion::RequestDeviceList(m) => ButtplugMessageUnion::RequestDeviceList(m),
            ButtplugDeviceManagerMessageUnion::StopAllDevices(m) => ButtplugMessageUnion::StopAllDevices(m),
            ButtplugDeviceManagerMessageUnion::StartScanning(m) => ButtplugMessageUnion::StartScanning(m),
            ButtplugDeviceManagerMessageUnion::StopScanning(m) => ButtplugMessageUnion::StopScanning(m),
        }
    }
}

impl From<ButtplugDeviceManagerMessageUnion> for ButtplugMessageUnion {
    fn from(msg: ButtplugDeviceManagerMessageUnion) -> (r: Self) {
        match msg {
            ButtplugDeviceManagerMessageUnion::RequestDeviceList(m) => ButtplugMessageUnion::RequestDeviceList(m),
            ButtplugDeviceManagerMessageUnion::StopAllDevices(m) => ButtplugMessageUnion::StopAllDevices(m),
            ButtplugDeviceManagerMessageUnion::StartScanning(m) => ButtplugMessageUnion::StartScanning(m),
            ButtplugDeviceManagerMessageUnion::StopScanning(m) => ButtplugMessageUnion::StopScanning(m),
        }
    }
}

/// The commands that are routed on to a device.
#[derive(Clone, Debug, PartialEq, Eq)]
pub enum ButtplugDeviceCommandMessageUnion {
    ScalarCmd(ScalarCmd),
    LinearCmd(LinearCmd),
    RotateCmd(RotateCmd),
    StopDeviceCmd(StopDeviceCmd),
    SensorReadCmd(SensorReadCmd),
    SensorSubscribeCmd(SensorSubscribeCmd),
    SensorUnsubscribeCmd(SensorUnsubscribeCmd),
    RawWriteCmd(RawWriteCmd),
    RawReadCmd(RawReadCmd),
    RawSubscribeCmd(RawSubscribeCmd),
    RawUnsubscribeCmd(RawUnsubscribeCmd),
}

impl ButtplugDeviceCommandMessageUnion {
    /// The name of the message held.
    pub open spec fn spec_message_type(&self) -> ButtplugMessageType {
        match self {
            ButtplugDeviceCommandMessageUnion::ScalarCmd(_) => ButtplugMessageType::ScalarCmd,
            ButtplugDeviceCommandMessageUnion::LinearCmd(_) => ButtplugMessageType::LinearCmd,
            ButtplugDeviceCommandMessageUnion::RotateCmd(_) => ButtplugMessageType::RotateCmd,
            ButtplugDeviceCommandMessageUnion::StopDeviceCmd(_) => ButtplugMessageType::StopDeviceCmd,
            ButtplugDeviceCommandMessageUnion::SensorReadCmd(_) => ButtplugMessageType::SensorReadCmd,
            ButtplugDeviceCommandMessageUnion::SensorSubscribeCmd(_) => ButtplugMessageType::SensorSubscribeCmd,
            ButtplugDeviceCommandMessageUnion::SensorUnsubscribeCmd(_) => ButtplugMessageType::SensorUnsubscribeCmd,
            ButtplugDeviceCommandMessageUnion::RawWriteCmd(_) => ButtplugMessageType::RawWriteCmd,
            ButtplugDeviceCommandMessageUnion::RawReadCmd(_) => ButtplugMessageType::RawReadCmd,
            ButtplugDeviceCommandMessageUnion::RawSubscribeCmd(_) => ButtplugMessageType::RawSubscribeCmd,
            ButtplugDeviceCommandMessageUnion::RawUnsubscribeCmd(_) => ButtplugMessageType::RawUnsubscribeCmd,
        }
    }

    /// Returns the name of the message held.
    pub fn message_type(&self) -> (r: ButtplugMessageType)
        ensures
            r == self.spec_message_type(),
    {
        match self {
            ButtplugDeviceCommandMessageUnion::ScalarCmd(_) => ButtplugMessageType::ScalarCmd,
            ButtplugDeviceCommandMessageUnion::LinearCmd(_) => ButtplugMessageType::LinearCmd,
            ButtplugDeviceCommandMessageUnion::RotateCmd(_) => ButtplugMessageType::RotateCmd,
            ButtplugDeviceCommandMessageUnion::StopDeviceCmd(_) => ButtplugMessageType::StopDeviceCmd,
            ButtplugDeviceCommandMessageUnion::SensorReadCmd(_) => ButtplugMessageType::SensorReadCmd,
            ButtplugDeviceCommandMessageUnion::SensorSubscribeCmd(_) => ButtplugMessageType::SensorSubscribeCmd,
            ButtplugDeviceCommandMessageUnion::SensorUnsubscribeCmd(_) => ButtplugMessageType::SensorUnsubscribeCmd,
            ButtplugDeviceCommandMessageUnion::RawWriteCmd(_) => ButtplugMessageType::RawWriteCmd,
            ButtplugDeviceCommandMessageUnion::RawReadCmd(_) => ButtplugMessageType::RawReadCmd,
            ButtplugDeviceCommandMessageUnion::RawSubscribeCmd(_) => ButtplugMessageType::RawSubscribeCmd,
            ButtplugDeviceCommandMessageUnion::RawUnsubscribeCmd(_) => ButtplugMessageType::RawUnsubscribeCmd,
        }
    }
}

impl ButtplugDeviceCommandMessageUnion {
    /// The message with another id and nothing else changed.
    pub open spec fn spec_with_id(self, id: u32) -> ButtplugDeviceCommandMessageUnion {
        match self {
            Self::ScalarCmd(msg) => Self::ScalarCmd(ScalarCmd { id, ..msg }),
            Self::LinearCmd(msg) => Self::LinearCmd(LinearCmd { id, ..msg }),
            Self::RotateCmd(msg) => Self::RotateCmd(RotateCmd { id, ..msg }),
            Self::StopDeviceCmd(msg) => Self::StopDeviceCmd(StopDeviceCmd { id, ..msg }),
            Self::SensorReadCmd(msg) => Self::SensorReadCmd(SensorReadCmd { id, ..msg }),
            Self::SensorSubscribeCmd(msg) => Self::SensorSubscribeCmd(SensorSubscribeCmd { id, ..msg }),
            Self::SensorUnsubscribeCmd(msg) => Self::SensorUnsubscribeCmd(SensorUnsubscribeCmd { id, ..msg }),
            Self::RawWriteCmd(msg) => Self::RawWriteCmd(RawWriteCmd { id, ..msg }),
            Self::RawReadCmd(msg) => Self::RawReadCmd(RawReadCmd { id, ..msg }),
            Self::RawSubscribeCmd(msg) => Self::RawSubscribeCmd(RawSubscribeCmd { id, ..msg }),
            Self::RawUnsubscribeCmd(msg) => Self::RawUnsubscribeCmd(RawUnsubscribeCmd { id, ..msg }),
        }
    }

    /// The message for another device and nothing else changed.
    pub open spec fn spec_with_device_index(self, device_index: u32) -> ButtplugDeviceCommandMessageUnion {
        match self {
            Self::ScalarCmd(msg) => Self::ScalarCmd(ScalarCmd { device_index, ..msg }),
            Self::LinearCmd(msg) => Self::LinearCmd(LinearCmd { device_index, ..msg }),
            Self::RotateCmd(msg) => Self::RotateCmd(RotateCmd { device_index, ..msg }),
            Self::StopDeviceCmd(msg) => Self::StopDeviceCmd(StopDeviceCmd { device_index, ..msg }),
            Self::SensorReadCmd(msg) => Self::SensorReadCmd(SensorReadCmd { device_index, ..msg }),
            Self::SensorSubscribeCmd(msg) => Self::SensorSubscribeCmd(SensorSubscribeCmd { device_index, ..msg }),
            Self::SensorUnsubscribeCmd(msg) => Self::SensorUnsubscribeCmd(SensorUnsubscribeCmd { device_index, ..msg }),
            Self::RawWriteCmd(msg) => Self::RawWriteCmd(RawWriteCmd { device_index, ..msg }),
            Self::RawReadCmd(msg) => Self::RawReadCmd(RawReadCmd { device_index, ..msg }),
            Self::RawSubscribeCmd(msg) => Self::RawSubscribeCmd(RawSubscribeCmd { device_index, ..msg }),
            Self::RawUnsubscribeCmd(msg) => Self::RawUnsubscribeCmd(RawUnsubscribeCmd { device_index, ..msg }),
        }
    }
}

impl ButtplugMessage for ButtplugDeviceCommandMessageUnion {
    open spec fn spec_id(&self) -> u32 {
        match self {
            ButtplugDeviceCommandMessageUnion::ScalarCmd(msg) => msg.id,
            ButtplugDeviceCommandMessageUnion::LinearCmd(msg) => msg.id,
            ButtplugDeviceCommandMessageUnion::RotateCmd(msg) => msg.id,
            ButtplugDeviceCommandMessageUnion::StopDeviceCmd(msg) => msg.id,
            ButtplugDeviceCommandMessageUnion::SensorReadCmd(msg) => msg.id,
            ButtplugDeviceCommandMessageUnion::SensorSubscribeCmd(msg) => msg.id,
            ButtplugDeviceCommandMessageUnion::SensorUnsubscribeCmd(msg) => msg.id,
            ButtplugDeviceCommandMessageUnion::RawWriteCmd(msg) => msg.id,
            ButtplugDeviceCommandMessageUnion::RawReadCmd(msg) => msg.id,
            ButtplugDeviceCommandMessageUnion::RawSubscribeCmd(msg) => msg.id,
            ButtplugDeviceCommandMessageUnion::RawUnsubscribeCmd(msg) => msg.id,
        }
    }

    fn id(&self) -> (r: u32) {
        match self {
            ButtplugDeviceCommandMessageUnion::ScalarCmd(msg) => msg.id,
            ButtplugDeviceCommandMessageUnion::LinearCmd(msg) => msg.id,
            ButtplugDeviceCommandMessageUnion::RotateCmd(msg) => msg.id,
            ButtplugDeviceCommandMessageUnion::StopDeviceCmd(msg) => msg.id,
            ButtplugDeviceCommandMessageUnion::SensorReadCmd(msg) => msg.id,
            ButtplugDeviceCommandMessageUnion::SensorSubscribeCmd(msg) => msg.id,
            ButtplugDeviceCommandMessageUnion::SensorUnsubscribeCmd(msg) => msg.id,
            ButtplugDeviceCommandMessageUnion::RawWriteCmd(msg) => msg.id,
            ButtplugDeviceCommandMessageUnion::RawReadCmd(msg) => msg.id,
            ButtplugDeviceCommandMessageUnion::RawSubscribeCmd(msg) => msg.id,
            ButtplugDeviceCommandMessageUnion::RawUnsubscribeCmd(msg) => msg.id,
        }
    }

    fn set_id(&mut self, id: u32)
        ensures
            *final(self) == old(self).spec_with_id(id),
    {
        match self {
            ButtplugDeviceCommandMessageUnion::ScalarCmd(msg) => {
                msg.id = id;
            },
            ButtplugDeviceCommandMessageUnion::LinearCmd(msg) => {
                msg.id = id;
            },
            ButtplugDeviceCommandMessageUnion::RotateCmd(msg) => {
                msg.id = id;
            },
            ButtplugDeviceCommandMessageUnion::StopDeviceCmd(msg) => {
                msg.id = id;
            },
            ButtplugDeviceCommandMessageUnion::SensorReadCmd(msg) => {
                msg.id = id;
            },
            ButtplugDeviceCommandMessageUnion::SensorSubscribeCmd(msg) => {
                msg.id = id;
            },
            ButtplugDeviceCommandMessageUnion::SensorUnsubscribeCmd(msg) => {
                msg.id = id;
            },
            ButtplugDeviceCommandMessageUnion::RawWriteCmd(msg) => {
                msg.id = id;
            },
            ButtplugDeviceCommandMessageUnion::RawReadCmd(msg) => {
                msg.id = id;
            },
            ButtplugDeviceCommandMessageUnion::RawSubscribeCmd(msg) => {
                msg.id = id;
            },
            ButtplugDeviceCommandMessageUnion::RawUnsubscribeCmd(msg) => {
                msg.id = id;
            },
        }
    }
}

impl ButtplugDeviceMessage for ButtplugDeviceCommandMessageUnion {
    open spec fn spec_device_index(&self) -> u32 {
        match self {
            ButtplugDeviceCommandMessageUnion::ScalarCmd(msg) => msg.device_index,
            ButtplugDeviceCommandMessageUnion::LinearCmd(msg) => msg.device_index,
            ButtplugDeviceCommandMessageUnion::RotateCmd(msg) => msg.device_index,
            ButtplugDeviceCommandMessageUnion::StopDeviceCmd(msg) => msg.device_index,
            ButtplugDeviceCommandMessageUnion::SensorReadCmd(msg) => msg.device_index,
            ButtplugDeviceCommandMessageUnion::SensorSubscribeCmd(msg) => msg.device_index,
            ButtplugDeviceCommandMessageUnion::SensorUnsubscribeCmd(msg) => msg.device_index,
            ButtplugDeviceCommandMessageUnion::RawWriteCmd(msg) => msg.device_index,
            ButtplugDeviceCommandMessageUnion::RawReadCmd(msg) => msg.device_index,
            ButtplugDeviceCommandMessageUnion::RawSubscribeCmd(msg) => msg.device_index,
            ButtplugDeviceCommandMessageUnion::RawUnsubscribeCmd(msg) => msg.device_index,
        }
    }

    fn device_index(&self) -> (r: u32) {
        match self {
            ButtplugDeviceCommandMessageUnion::ScalarCmd(msg) => msg.device_index,
            ButtplugDeviceCommandMessageUnion::LinearCmd(msg) => msg.device_index,
            ButtplugDeviceCommandMessageUnion::RotateCmd(msg) => msg.device_index,
            ButtplugDeviceCommandMessageUnion::StopDeviceCmd(msg) => msg.device_index,
            ButtplugDeviceCommandMessageUnion::SensorReadCmd(msg) => msg.device_index,
            ButtplugDeviceCommandMessageUnion::SensorSubscribeCmd(msg) => msg.device_index,
            ButtplugDeviceCommandMessageUnion::SensorUnsubscribeCmd(msg) => msg.device_index,
            ButtplugDeviceCommandMessageUnion::RawWriteCmd(msg) => msg.device_index,
            ButtplugDeviceCommandMessageUnion::RawReadCmd(msg) => msg.device_index,
            ButtplugDeviceCommandMessageUnion::RawSubscribeCmd(msg) => msg.device_index,
            ButtplugDeviceCommandMessageUnion::RawUnsubscribeCmd(msg) => msg.device_index,
        }
    }

    fn set_device_index(&mut self, device_index: u32)
        ensures
            *final(self) == old(self).spec_with_device_index(device_index),
    {
        match self {
            ButtplugDeviceCommandMessageUnion::ScalarCmd(msg) => {
                msg.device_index = device_index;
            },
            ButtplugDeviceCommandMessageUnion::LinearCmd(msg) => {
                msg.device_index = device_index;
            },
            ButtplugDeviceCommandMessageUnion::RotateCmd(msg) => {
                msg.device_index = device_index;
            },
            ButtplugDeviceCommandMessageUnion::StopDeviceCmd(msg) => {
                msg.device_index = device_index;
            },
            ButtplugDeviceCommandMessageUnion::SensorReadCmd(msg) => {
                msg.device_index = device_index;
            },
            ButtplugDeviceCommandMessageUnion::SensorSubscribeCmd(msg) => {
                msg.device_index = device_index;
            },
            ButtplugDeviceCommandMessageUnion::SensorUnsubscribeCmd(msg) => {
                msg.device_index = device_index;
            },
            ButtplugDeviceCommandMessageUnion::RawWriteCmd(msg) => {
                msg.device_index = device_index;
            },
            ButtplugDeviceCommandMessageUnion::RawReadCmd(msg) => {
                msg.device_index = device_index;
            },
            ButtplugDeviceCommandMessageUnion::RawSubscribeCmd(msg) => {
                msg.device_index = device_index;
            },
            ButtplugDeviceCommandMessageUnion::RawUnsubscribeCmd(msg) => {
                msg.device_index = device_index;
            },
        }
    }
}

impl ButtplugMessageValidator for ButtplugDeviceCommandMessageUnion {
    /// The check of the message held.
    open spec fn spec_is_valid(&self) -> Result<(), ButtplugMessageError> {
        match self {
            ButtplugDeviceCommandMessageUnion::ScalarCmd(msg) => msg.spec_is_valid(),
            ButtplugDeviceCommandMessageUnion::LinearCmd(msg) => msg.spec_is_valid(),
            ButtplugDeviceCommandMessageUnion::RotateCmd(msg) => msg.spec_is_valid(),
            ButtplugDeviceCommandMessageUnion::StopDeviceCmd(msg) => msg.spec_is_valid(),
            ButtplugDeviceCommandMessageUnion::SensorReadCmd(msg) => msg.spec_is_valid(),
            ButtplugDeviceCommandMessageUnion::SensorSubscribeCmd(msg) => msg.spec_is_valid(),
            ButtplugDeviceCommandMessageUnion::SensorUnsubscribeCmd(msg) => msg.spec_is_valid(),
            ButtplugDeviceCommandMessageUnion::RawWriteCmd(msg) => msg.spec_is_valid(),
            ButtplugDeviceCommandMessageUnion::RawReadCmd(msg) => msg.spec_is_valid(),
            ButtplugDeviceCommandMessageUnion::RawSubscribeCmd(msg) => msg.spec_is_valid(),
            ButtplugDeviceCommandMessageUnion::RawUnsubscribeCmd(msg) => msg.spec_is_valid(),
        }
    }

    fn is_valid(&self) -> (r: Result<(), ButtplugMessageError>) {
        match self {
            ButtplugDeviceCommandMessageUnion::ScalarCmd(msg) => msg.is_valid(),
            ButtplugDeviceCommandMessageUnion::LinearCmd(msg) => msg.is_valid(),
            ButtplugDeviceCommandMessageUnion::RotateCmd(msg) => msg.is_valid(),
            ButtplugDeviceCommandMessageUnion::StopDeviceCmd(msg) => msg.is_valid(),
            ButtplugDeviceCommandMessageUnion::SensorReadCmd(msg) => msg.is_valid(),
            ButtplugDeviceCommandMessageUnion::SensorSubscribeCmd(msg) => msg.is_valid(),
            ButtplugDeviceCommandMessageUnion::SensorUnsubscribeCmd(msg) => msg.is_valid(),
            ButtplugDeviceCommandMessageUnion::RawWriteCmd(msg) => msg.is_valid(),
            ButtplugDeviceCommandMessageUnion::RawReadCmd(msg) => msg.is_valid(),
            ButtplugDeviceCommandMessageUnion::RawSubscribeCmd(msg) => msg.is_valid(),
            ButtplugDeviceCommandMessageUnion::RawUnsubscribeCmd(msg) => msg.is_valid(),
        }
    }
}

impl ButtplugDeviceCommandMessageUnion {
    /// The message as one of this union where it is one, the message itself
    /// where it is not.
    pub open spec fn spec_try_from(msg: ButtplugMessageUnion) -> Result<Self, ButtplugMessageUnion> {
        match msg {
            ButtplugMessageUnion::ScalarCmd(m) => Ok(Self::ScalarCmd(m)),
            ButtplugMessageUnion::LinearCmd(m) => Ok(Self::LinearCmd(m)),
            ButtplugMessageUnion::RotateCmd(m) => Ok(Self::RotateCmd(m)),
            ButtplugMessageUnion::StopDeviceCmd(m) => Ok(Self::StopDeviceCmd(m)),
            ButtplugMessageUnion::SensorReadCmd(m) => Ok(Self::SensorReadCmd(m)),
            ButtplugMessageUnion::SensorSubscribeCmd(m) => Ok(Self::SensorSubscribeCmd(m)),
            ButtplugMessageUnion::SensorUnsubscribeCmd(m) => Ok(Self::SensorUnsubscribeCmd(m)),
            ButtplugMessageUnion::RawWriteCmd(m) => Ok(Self::RawWriteCmd(m)),
            ButtplugMessageUnion::RawReadCmd(m) => Ok(Self::RawReadCmd(m)),
            ButtplugMessageUnion::RawSubscribeCmd(m) => Ok(Self::RawSubscribeCmd(m)),
            ButtplugMessageUnion::RawUnsubscribeCmd(m) => Ok(Self::RawUnsubscribeCmd(m)),
            _ => Err(msg),
        }
    }

    /// Takes a message of any kind as one of this union, or hands it back.
    pub fn try_from(msg: ButtplugMessageUnion) -> (r: Result<Self, ButtplugMessageUnion>)
        ensures
            r == Self::spec_try_from(msg),
    {
        match msg {
            ButtplugMessageUnion::ScalarCmd(m) => Ok(Self::ScalarCmd(m)),
            ButtplugMessageUnion::LinearCmd(m) => Ok(Self::LinearCmd(m)),
            ButtplugMessageUnion::RotateCmd(m) => Ok(Self::RotateCmd(m)),
            ButtplugMessageUnion::StopDeviceCmd(m) => Ok(Self::StopDeviceCmd(m)),
            ButtplugMessageUnion::SensorReadCmd(m) => Ok(Self::SensorReadCmd(m)),
            ButtplugMessageUnion::SensorSubscribeCmd(m) => Ok(Self::SensorSubscribeCmd(m)),
            ButtplugMessageUnion::SensorUnsubscribeCmd(m) => Ok(Self::SensorUnsubscribeCmd(m)),
            ButtplugMessageUnion::RawWriteCmd(m) => Ok(Self::RawWriteCmd(m)),
            ButtplugMessageUnion::RawReadCmd(m) => Ok(Self::RawReadCmd(m)),
            ButtplugMessageUnion::RawSubscribeCmd(m) => Ok(Self::RawSubscribeCmd(m)),
            ButtplugMessageUnion::RawUnsubscribeCmd(m) => Ok(Self::RawUnsubscribeCmd(m)),
            other => Err(other),
        }
    }
}

impl FromSpecImpl<ButtplugDeviceCommandMessageUnion> for ButtplugMessageUnion {
    open spec fn obeys_from_spec() -> bool {
        true
    }

    open spec fn from_spec(msg: ButtplugDeviceCommandMessageUnion) -> ButtplugMessageUnion {
        match msg {
            ButtplugDeviceCommandMessageUnion::ScalarCmd(m) => ButtplugMessageUnion::ScalarCmd(m),
            ButtplugDeviceCommandMessageUnion::LinearCmd(m) => ButtplugMessageUnion::LinearCmd(m),
            ButtplugDeviceCommandMessageUnion::RotateCmd(m) => ButtplugMessageUnion::RotateCmd(m),
            ButtplugDeviceCommandMessageUnion::StopDeviceCmd(m) => ButtplugMessageUnion::StopDeviceCmd(m),
            ButtplugDeviceCommandMessageUnion::SensorReadCmd(m) => ButtplugMessageUnion::SensorReadCmd(m),
            ButtplugDeviceCommandMessageUnion::SensorSubscribeCmd(m) => ButtplugMessageUnion::SensorSubscribeCmd(m),
            ButtplugDeviceCommandMessageUnion::SensorUnsubscribeCmd(m) => ButtplugMessageUnion::SensorUnsubscribeCmd(m),
            ButtplugDeviceCommandMessageUnion::RawWriteCmd(m) => ButtplugMessageUnion::RawWriteCmd(m),
            ButtplugDeviceCommandMessageUnion::RawReadCmd(m) => ButtplugMessageUnion::RawReadCmd(m),
            ButtplugDeviceCommandMessageUnion::RawSubscribeCmd(m) => ButtplugMessageUnion::RawSubscribeCmd(m),
            ButtplugDeviceCommandMessageUnion::RawUnsubscribeCmd(m) => ButtplugMessageUnion::RawUnsubscribeCmd(m),
        }
    }
}

impl From<ButtplugDeviceCommandMessageUnion> for ButtplugMessageUnion {
    fn from(msg: ButtplugDeviceCommandMessageUnion) -> (r: Self) {
        match msg {
            ButtplugDeviceCommandMessageUnion::ScalarCmd(m) => ButtplugMessageUnion::ScalarCmd(m),
            ButtplugDeviceCommandMessageUnion::LinearCmd(m) => ButtplugMessageUnion::LinearCmd(m),
            ButtplugDeviceCommandMessageUnion::RotateCmd(m) => ButtplugMessageUnion::RotateCmd(m),
            ButtplugDeviceCommandMessageUnion::StopDeviceCmd(m) => ButtplugMessageUnion::StopDeviceCmd(m),
            ButtplugDeviceCommandMessageUnion::SensorReadCmd(m) => ButtplugMessageUnion::SensorReadCmd(m),
            ButtplugDeviceCommandMessageUnion::SensorSubscribeCmd(m) => ButtplugMessageUnion::SensorSubscribeCmd(m),
            ButtplugDeviceCommandMessageUnion::SensorUnsubscribeCmd(m) => ButtplugMessageUnion::SensorUnsubscribeCmd(m),
            ButtplugDeviceCommandMessageUnion::RawWriteCmd(m) => ButtplugMessageUnion::RawWriteCmd(m),
            ButtplugDeviceCommandMessageUnion::RawReadCmd(m) => ButtplugMessageUnion::RawReadCmd(m),
            ButtplugDeviceCommandMessageUnion::RawSubscribeCmd(m) => ButtplugMessageUnion::RawSubscribeCmd(m),
            ButtplugDeviceCommandMessageUnion::RawUnsubscribeCmd(m) => ButtplugMessageUnion::RawUnsubscribeCmd(m),
        }
    }
}

} // verus!
