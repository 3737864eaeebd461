use crate::errors::{ButtplugError, ButtplugMessageError};
use crate::messages::converter::unexpected_message;
use crate::messages::{
    ButtplugMessage, ButtplugMessageSpecVersion, ButtplugMessageType, ButtplugMessageUnion,
    ButtplugMessageValidator, DeviceAddedV2, DeviceListV2, DeviceRemoved, Error, LinearCmd,
    OkMessage, Ping, RawReadCmd, RawReading, RawSubscribeCmd, RawUnsubscribeCmd, RawWriteCmd,
    RequestDeviceList, RequestServerInfo, RotateCmd, ScalarCmd, ScanningFinished, ServerInfo,
    StartScanning, StopAllDevices, StopDeviceCmd, StopScanning, VibrateCmd,
};
use vstd::prelude::*;

verus! {

/// Any message of the third wire version, which drops the commands of
/// single vendors and adds raw access to endpoints.
#[derive(Clone, Debug, PartialEq, Eq)]
pub enum ButtplugMessageUnionVersion2 {
    // Status messages
    OkMessage(OkMessage),
    Error(Error),
    Ping(Ping),
    // Handshake messages
    RequestServerInfo(RequestServerInfo),
    ServerInfo(ServerInfo),
    // Device enumeration messages
    DeviceList(DeviceListV2),
    DeviceAdded(DeviceAddedV2),
    DeviceRemoved(DeviceRemoved),
    StartScanning(StartScanning),
    StopScanning(StopScanning),
    ScanningFinished(ScanningFinished),
    RequestDeviceList(RequestDeviceList),
    // Generic commands
    StopAllDevices(StopAllDevices),
    VibrateCmd(VibrateCmd),
    LinearCmd(LinearCmd),
    RotateCmd(RotateCmd),
    StopDeviceCmd(StopDeviceCmd),
    // Raw commands
    RawWriteCmd(RawWriteCmd),
    RawReadCmd(RawReadCmd),
    RawSubscribeCmd(RawSubscribeCmd),
    RawUnsubscribeCmd(RawUnsubscribeCmd),
    RawReading(RawReading),
}

impl ButtplugMessageUnionVersion2 {
    /// The name of the message held.
    pub open spec fn spec_message_type(&self) -> ButtplugMessageType {
        match self {
            ButtplugMessageUnionVersion2::OkMessage(_) => ButtplugMessageType::OkMessage,
            ButtplugMessageUnionVersion2::Error(_) => ButtplugMessageType::Error,
            ButtplugMessageUnionVersion2::Ping(_) => ButtplugMessageType::Ping,
            ButtplugMessageUnionVersion2::RequestServerInfo(_) => ButtplugMessageType::RequestServerInfo,
            ButtplugMessageUnionVersion2::ServerInfo(_) => ButtplugMessageType::ServerInfo,
            ButtplugMessageUnionVersion2::DeviceList(_) => ButtplugMessageType::DeviceList,
            ButtplugMessageUnionVersion2::DeviceAdded(_) => ButtplugMessageType::DeviceAdded,
            ButtplugMessageUnionVersion2::DeviceRemoved(_) => ButtplugMessageType::DeviceRemoved,
            ButtplugMessageUnionVersion2::StartScanning(_) => ButtplugMessageType::StartScanning,
            ButtplugMessageUnionVersion2::StopScanning(_) => ButtplugMessageType::StopScanning,
            ButtplugMessageUnionVersion2::ScanningFinished(_) => ButtplugMessageType::ScanningFinished,
            ButtplugMessageUnionVersion2::RequestDeviceList(_) => ButtplugMessageType::RequestDeviceList,
            ButtplugMessageUnionVersion2::StopAllDevices(_) => ButtplugMessageType::StopAllDevices,
            ButtplugMessageUnionVersion2::VibrateCmd(_) => ButtplugMessageType::VibrateCmd,
            ButtplugMessageUnionVersion2::LinearCmd(_) => ButtplugMessageType::LinearCmd,
            ButtplugMessageUnionVersion2::RotateCmd(_) => ButtplugMessageType::RotateCmd,
            ButtplugMessageUnionVersion2::StopDeviceCmd(_) => ButtplugMessageType::StopDeviceCmd,
            ButtplugMessageUnionVersion2::RawWriteCmd(_) => ButtplugMessageType::RawWriteCmd,
            ButtplugMessageUnionVersion2::RawReadCmd(_) => ButtplugMessageType::RawReadCmd,
            ButtplugMessageUnionVersion2::RawSubscribeCmd(_) => ButtplugMessageType::RawSubscribeCmd,
            ButtplugMessageUnionVersion2::RawUnsubscribeCmd(_) => ButtplugMessageType::RawUnsubscribeCmd,
            ButtplugMessageUnionVersion2::RawReading(_) => ButtplugMessageType::RawReading,
        }
    }

    /// Returns the name of the message held.
    pub fn message_type(&self) -> (r: ButtplugMessageType)
        ensures
            r == self.spec_message_type(),
    {
        match self {
            ButtplugMessageUnionVersion2::OkMessage(_) => ButtplugMessageType::OkMessage,
            ButtplugMessageUnionVersion2::Error(_) => ButtplugMessageType::Error,
            ButtplugMessageUnionVersion2::Ping(_) => ButtplugMessageType::Ping,
            ButtplugMessageUnionVersion2::RequestServerInfo(_) => ButtplugMessageType::RequestServerInfo,
            ButtplugMessageUnionVersion2::ServerInfo(_) => ButtplugMessageType::ServerInfo,
            ButtplugMessageUnionVersion2::DeviceList(_) => ButtplugMessageType::DeviceList,
            ButtplugMessageUnionVersion2::DeviceAdded(_) => ButtplugMessageType::DeviceAdded,
            ButtplugMessageUnionVersion2::DeviceRemoved(_) => ButtplugMessageType::DeviceRemoved,
            ButtplugMessageUnionVersion2::StartScanning(_) => ButtplugMessageType::StartScanning,
            ButtplugMessageUnionVersion2::StopScanning(_) => ButtplugMessageType::StopScanning,
            ButtplugMessageUnionVersion2::ScanningFinished(_) => ButtplugMessageType::ScanningFinished,
            ButtplugMessageUnionVersion2::RequestDeviceList(_) => ButtplugMessageType::RequestDeviceList,
            ButtplugMessageUnionVersion2::StopAllDevices(_) => ButtplugMessageType::StopAllDevices,
            ButtplugMessageUnionVersion2::VibrateCmd(_) => ButtplugMessageType::VibrateCmd,
            ButtplugMessageUnionVersion2::LinearCmd(_) => ButtplugMessageType::LinearCmd,
            ButtplugMessageUnionVersion2::RotateCmd(_) => ButtplugMessageType::RotateCmd,
            ButtplugMessageUnionVersion2::StopDeviceCmd(_) => ButtplugMessageType::StopDeviceCmd,
            ButtplugMessageUnionVersion2::RawWriteCmd(_) => ButtplugMessageType::RawWriteCmd,
            ButtplugMessageUnionVersion2::RawReadCmd(_) => ButtplugMessageType::RawReadCmd,
            ButtplugMessageUnionVersion2::RawSubscribeCmd(_) => ButtplugMessageType::RawSubscribeCmd,
            ButtplugMessageUnionVersion2::RawUnsubscribeCmd(_) => ButtplugMessageType::RawUnsubscribeCmd,
            ButtplugMessageUnionVersion2::RawReading(_) => ButtplugMessageType::RawReading,
        }
    }
}

impl ButtplugMessageUnionVersion2 {
    /// The message with another id and nothing else changed.
    pub open spec fn spec_with_id(self, id: u32) -> ButtplugMessageUnionVersion2 {
        match self {
            Self::OkMessage(msg) => Self::OkMessage(OkMessage { id, ..msg }),
            Self::Error(msg) => Self::Error(Error { id, ..msg }),
            Self::Ping(msg) => Self::Ping(Ping { id, ..msg }),
            Self::RequestServerInfo(msg) => Self::RequestServerInfo(RequestServerInfo { id, ..msg }),
            Self::ServerInfo(msg) => Self::ServerInfo(ServerInfo { id, ..msg }),
            Self::DeviceList(msg) => Self::DeviceList(DeviceListV2 { id, ..msg }),
            Self::DeviceAdded(msg) => Self::DeviceAdded(DeviceAddedV2 { id, ..msg }),
            Self::DeviceRemoved(msg) => Self::DeviceRemoved(DeviceRemoved { id, ..msg }),
            Self::StartScanning(msg) => Self::StartScanning(StartScanning { id, ..msg }),
            Self::StopScanning(msg) => Self::StopScanning(StopScanning { id, ..msg }),
            Self::ScanningFinished(msg) => Self::ScanningFinished(ScanningFinished { id, ..msg }),
            Self::RequestDeviceList(msg) => Self::RequestDeviceList(RequestDeviceList { id, ..msg }),
            Self::StopAllDevices(msg) => Self::StopAllDevices(StopAllDevices { id, ..msg }),
            Self::VibrateCmd(msg) => Self::VibrateCmd(VibrateCmd { id, ..msg }),
            Self::LinearCmd(msg) => Self::LinearCmd(LinearCmd { id, ..msg }),
            Self::RotateCmd(msg) => Self::RotateCmd(RotateCmd { id, ..msg }),
            Self::StopDeviceCmd(msg) => Self::StopDeviceCmd(StopDeviceCmd { id, ..msg }),
            Self::RawWriteCmd(msg) => Self::RawWriteCmd(RawWriteCmd { id, ..msg }),
            Self::RawReadCmd(msg) => Self::RawReadCmd(RawReadCmd { id, ..msg }),
            Self::RawSubscribeCmd(msg) => Self::RawSubscribeCmd(RawSubscribeCmd { id, ..msg }),
            Self::RawUnsubscribeCmd(msg) => Self::RawUnsubscribeCmd(RawUnsubscribeCmd { id, ..msg }),
            Self::RawReading(msg) => Self::RawReading(RawReading { id, ..msg }),
        }
    }
}

impl ButtplugMessage for ButtplugMessageUnionVersion2 {
    open spec fn spec_id(&self) -> u32 {
        match self {
            ButtplugMessageUnionVersion2::OkMessage(msg) => msg.id,
            ButtplugMessageUnionVersion2::Error(msg) => msg.id,
            ButtplugMessageUnionVersion2::Ping(msg) => msg.id,
            ButtplugMessageUnionVersion2::RequestServerInfo(msg) => msg.id,
            ButtplugMessageUnionVersion2::ServerInfo(msg) => msg.id,
            ButtplugMessageUnionVersion2::DeviceList(msg) => msg.id,
            ButtplugMessageUnionVersion2::DeviceAdded(msg) => msg.id,
            ButtplugMessageUnionVersion2::DeviceRemoved(msg) => msg.id,
            ButtplugMessageUnionVersion2::StartScanning(msg) => msg.id,
            ButtplugMessageUnionVersion2::StopScanning(msg) => msg.id,
            ButtplugMessageUnionVersion2::ScanningFinished(msg) => msg.id,
            ButtplugMessageUnionVersion2::RequestDeviceList(msg) => msg.id,
            ButtplugMessageUnionVersion2::StopAllDevices(msg) => msg.id,
            ButtplugMessageUnionVersion2::VibrateCmd(msg) => msg.id,
            ButtplugMessageUnionVersion2::LinearCmd(msg) => msg.id,
            ButtplugMessageUnionVersion2::RotateCmd(msg) => msg.id,
            ButtplugMessageUnionVersion2::StopDeviceCmd(msg) => msg.id,
            ButtplugMessageUnionVersion2::RawWriteCmd(msg) => msg.id,
            ButtplugMessageUnionVersion2::RawReadCmd(msg) => msg.id,
            ButtplugMessageUnionVersion2::RawSubscribeCmd(msg) => msg.id,
            ButtplugMessageUnionVersion2::RawUnsubscribeCmd(msg) => msg.id,
            ButtplugMessageUnionVersion2::RawReading(msg) => msg.id,
        }
    }

    fn id(&self) -> (r: u32) {
        match self {
            ButtplugMessageUnionVersion2::OkMessage(msg) => msg.id,
            ButtplugMessageUnionVersion2::Error(msg) => msg.id,
            ButtplugMessageUnionVersion2::Ping(msg) => msg.id,
            ButtplugMessageUnionVersion2::RequestServerInfo(msg) => msg.id,
            ButtplugMessageUnionVersion2::ServerInfo(msg) => msg.id,
            ButtplugMessageUnionVersion2::DeviceList(msg) => msg.id,
            ButtplugMessageUnionVersion2::DeviceAdded(msg) => msg.id,
            ButtplugMessageUnionVersion2::DeviceRemoved(msg) => msg.id,
            ButtplugMessageUnionVersion2::StartScanning(msg) => msg.id,
            ButtplugMessageUnionVersion2::StopScanning(msg) => msg.id,
            ButtplugMessageUnionVersion2::ScanningFinished(msg) => msg.id,
            ButtplugMessageUnionVersion2::RequestDeviceList(msg) => msg.id,
            ButtplugMessageUnionVersion2::StopAllDevices(msg) => msg.id,
            ButtplugMessageUnionVersion2::VibrateCmd(msg) => msg.id,
            ButtplugMessageUnionVersion2::LinearCmd(msg) => msg.id,
            ButtplugMessageUnionVersion2::RotateCmd(msg) => msg.id,
            ButtplugMessageUnionVersion2::StopDeviceCmd(msg) => msg.id,
            ButtplugMessageUnionVersion2::RawWriteCmd(msg) => msg.id,
            ButtplugMessageUnionVersion2::RawReadCmd(msg) => msg.id,
            ButtplugMessageUnionVersion2::RawSubscribeCmd(msg) => msg.id,
            ButtplugMessageUnionVersion2::RawUnsubscribeCmd(msg) => msg.id,
            ButtplugMessageUnionVersion2::RawReading(msg) => msg.id,
        }
    }

    fn set_id(&mut self, id: u32)
        ensures
            *final(self) == old(self).spec_with_id(id),
    {
        match self {
            ButtplugMessageUnionVersion2::OkMessage(msg) => {
                msg.id = id;
            },
            ButtplugMessageUnionVersion2::Error(msg) => {
                msg.id = id;
            },
            ButtplugMessageUnionVersion2::Ping(msg) => {
                msg.id = id;
            },
            ButtplugMessageUnionVersion2::RequestServerInfo(msg) => {
                msg.id = id;
            },
            ButtplugMessageUnionVersion2::ServerInfo(msg) => {
                msg.id = id;
            },
            ButtplugMessageUnionVersion2::DeviceList(msg) => {
                msg.id = id;
            },
            ButtplugMessageUnionVersion2::DeviceAdded(msg) => {
                msg.id = id;
            },
            ButtplugMessageUnionVersion2::DeviceRemoved(msg) => {
                msg.id = id;
            },
            ButtplugMessageUnionVersion2::StartScanning(msg) => {
                msg.id = id;
            },
            ButtplugMessageUnionVersion2::StopScanning(msg) => {
                msg.id = id;
            },
            ButtplugMessageUnionVersion2::ScanningFinished(msg) => {
                msg.id = id;
            },
            ButtplugMessageUnionVersion2::RequestDeviceList(msg) => {
                msg.id = id;
            },
            ButtplugMessageUnionVersion2::StopAllDevices(msg) => {
                msg.id = id;
            },
            ButtplugMessageUnionVersion2::VibrateCmd(msg) => {
                msg.id = id;
            },
            ButtplugMessageUnionVersion2::LinearCmd(msg) => {
                msg.id = id;
            },
            ButtplugMessageUnionVersion2::RotateCmd(msg) => {
                msg.id = id;
            },
            ButtplugMessageUnionVersion2::StopDeviceCmd(msg) => {
                msg.id = id;
            },
            ButtplugMessageUnionVersion2::RawWriteCmd(msg) => {
                msg.id = id;
            },
            ButtplugMessageUnionVersion2::RawReadCmd(msg) => {
                msg.id = id;
            },
            ButtplugMessageUnionVersion2::RawSubscribeCmd(msg) => {
                msg.id = id;
            },
            ButtplugMessageUnionVersion2::RawUnsubscribeCmd(msg) => {
                msg.id = id;
            },
            ButtplugMessageUnionVersion2::RawReading(msg) => {
                msg.id = id;
            },
        }
    }
}

impl ButtplugMessageValidator for ButtplugMessageUnionVersion2 {
    /// The check of the message held.
    open spec fn spec_is_valid(&self) -> Result<(), ButtplugMessageError> {
        match self {
            ButtplugMessageUnionVersion2::OkMessage(msg) => msg.spec_is_valid(),
            ButtplugMessageUnionVersion2::Error(msg) => msg.spec_is_valid(),
            ButtplugMessageUnionVersion2::Ping(msg) => msg.spec_is_valid(),
            ButtplugMessageUnionVersion2::RequestServerInfo(msg) => msg.spec_is_valid(),
            ButtplugMessageUnionVersion2::ServerInfo(msg) => msg.spec_is_valid(),
            ButtplugMessageUnionVersion2::DeviceList(msg) => msg.spec_is_valid(),
            ButtplugMessageUnionVersion2::DeviceAdded(msg) => msg.spec_is_valid(),
            ButtplugMessageUnionVersion2::DeviceRemoved(msg) => msg.spec_is_valid(),
            ButtplugMessageUnionVersion2::StartScanning(msg) => msg.spec_is_valid(),
            ButtplugMessageUnionVersion2::StopScanning(msg) => msg.spec_is_valid(),
            ButtplugMessageUnionVersion2::ScanningFinished(msg) => msg.spec_is_valid(),
            ButtplugMessageUnionVersion2::RequestDeviceList(msg) => msg.spec_is_valid(),
            ButtplugMessageUnionVersion2::StopAllDevices(msg) => msg.spec_is_valid(),
            ButtplugMessageUnionVersion2::VibrateCmd(msg) => msg.spec_is_valid(),
            ButtplugMessageUnionVersion2::LinearCmd(msg) => msg.spec_is_valid(),
            ButtplugMessageUnionVersion2::RotateCmd(msg) => msg.spec_is_valid(),
            ButtplugMessageUnionVersion2::StopDeviceCmd(msg) => msg.spec_is_valid(),
            ButtplugMessageUnionVersion2::RawWriteCmd(msg) => msg.spec_is_valid(),
            ButtplugMessageUnionVersion2::RawReadCmd(msg) => msg.spec_is_valid(),
            ButtplugMessageUnionVersion2::RawSubscribeCmd(msg) => msg.spec_is_valid(),
            ButtplugMessageUnionVersion2::RawUnsubscribeCmd(msg) => msg.spec_is_valid(),
            ButtplugMessageUnionVersion2::RawReading(msg) => msg.spec_is_valid(),
        }
    }

    fn is_valid(&self) -> (r: Result<(), ButtplugMessageError>) {
        match self {
            ButtplugMessageUnionVersion2::OkMessage(msg) => msg.is_valid(),
            ButtplugMessageUnionVersion2::Error(msg) => msg.is_valid(),
            ButtplugMessageUnionVersion2::Ping(msg) => msg.is_valid(),
            ButtplugMessageUnionVersion2::RequestServerInfo(msg) => msg.is_valid(),
            ButtplugMessageUnionVersion2::ServerInfo(msg) => msg.is_valid(),
            ButtplugMessageUnionVersion2::DeviceList(msg) => msg.is_valid(),
            ButtplugMessageUnionVersion2::DeviceAdded(msg) => msg.is_valid(),
            ButtplugMessageUnionVersion2::DeviceRemoved(msg) => msg.is_valid(),
            ButtplugMessageUnionVersion2::StartScanning(msg) => msg.is_valid(),
            ButtplugMessageUnionVersion2::StopScanning(msg) => msg.is_valid(),
            ButtplugMessageUnionVersion2::ScanningFinished(msg) => msg.is_valid(),
            ButtplugMessageUnionVersion2::RequestDeviceList(msg) => msg.is_valid(),
            ButtplugMessageUnionVersion2::StopAllDevices(msg) => msg.is_valid(),
            ButtplugMessageUnionVersion2::VibrateCmd(msg) => msg.is_valid(),
            ButtplugMessageUnionVersion2::LinearCmd(msg) => msg.is_valid(),
            ButtplugMessageUnionVersion2::RotateCmd(msg) => msg.is_valid(),
            ButtplugMessageUnionVersion2::StopDeviceCmd(msg) => msg.is_valid(),
            ButtplugMessageUnionVersion2::RawWriteCmd(msg) => msg.is_valid(),
            ButtplugMessageUnionVersion2::RawReadCmd(msg) => msg.is_valid(),
            ButtplugMessageUnionVersion2::RawSubscribeCmd(msg) => msg.is_valid(),
            ButtplugMessageUnionVersion2::RawUnsubscribeCmd(msg) => msg.is_valid(),
            ButtplugMessageUnionVersion2::RawReading(msg) => msg.is_valid(),
        }
    }
}

impl ButtplugMessageUnionVersion2 {
    /// Whether `r` is what a message of this version comes to in the newest
    /// one. What a client may send and the newest version has as well stays as
    /// it is. Speeds for vibrators become levels. What only a server sends is
    /// refused as out of place.
    pub open spec fn upgrades(
        msg: ButtplugMessageUnionVersion2,
        r: Result<ButtplugMessageUnion, ButtplugError>,
    ) -> bool {
        match msg {
            ButtplugMessageUnionVersion2::OkMessage(_) => r matches Err(e) && e == unexpected_message(
                ButtplugMessageType::OkMessage,
            ),
            ButtplugMessageUnionVersion2::Error(_) => r matches Err(e) && e == unexpected_message(
                ButtplugMessageType::Error,
            ),
            ButtplugMessageUnionVersion2::Ping(m) => r matches Ok(up) && up
                == ButtplugMessageUnion::Ping(m),
            ButtplugMessageUnionVersion2::RequestServerInfo(m) => r matches Ok(up) && up
                == ButtplugMessageUnion::RequestServerInfo(m),
            ButtplugMessageUnionVersion2::ServerInfo(_) => r matches Err(e) && e == unexpected_message(
                ButtplugMessageType::ServerInfo,
            ),
            ButtplugMessageUnionVersion2::DeviceList(_) => r matches Err(e) && e == unexpected_message(
                ButtplugMessageType::DeviceList,
            ),
            ButtplugMessageUnionVersion2::DeviceAdded(_) => r matches Err(e) && e == unexpected_message(
                ButtplugMessageType::DeviceAdded,
            ),
            ButtplugMessageUnionVersion2::DeviceRemoved(_) => r matches Err(e) && e == unexpected_message(
                ButtplugMessageType::DeviceRemoved,
            ),
            ButtplugMessageUnionVersion2::StartScanning(m) => r matches Ok(up) && up
                == ButtplugMessageUnion::StartScanning(m),
            ButtplugMessageUnionVersion2::StopScanning(m) => r matches Ok(up) && up
                == ButtplugMessageUnion::StopScanning(m),
            ButtplugMessageUnionVersion2::ScanningFinished(_) => r matches Err(e) && e == unexpected_message(
                ButtplugMessageType::ScanningFinished,
            ),
            ButtplugMessageUnionVersion2::RequestDeviceList(m) => r matches Ok(up) && up
                == ButtplugMessageUnion::RequestDeviceList(m),
            ButtplugMessageUnionVersion2::StopAllDevices(m) => r matches Ok(up) && up
                == ButtplugMessageUnion::StopAllDevices(m),
            ButtplugMessageUnionVersion2::VibrateCmd(m) => {
                &&& r matches Ok(ButtplugMessageUnion::ScalarCmd(s))
                &&& s.id == m.id
                &&& s.device_index == m.device_index
                &&& s.scalars@ == ScalarCmd::spec_vibrate_scalars(m.speeds@)
            },
            ButtplugMessageUnionVersion2::LinearCmd(m) => r matches Ok(up) && up
                == ButtplugMessageUnion::LinearCmd(m),
            ButtplugMessageUnionVersion2::RotateCmd(m) => r matches Ok(up) && up
                == ButtplugMessageUnion::RotateCmd(m),
            ButtplugMessageUnionVersion2::StopDeviceCmd(m) => r matches Ok(up) && up
                == ButtplugMessageUnion::StopDeviceCmd(m),
            ButtplugMessageUnionVersion2::RawWriteCmd(m) => r matches Ok(up) && up
                == ButtplugMessageUnion::RawWriteCmd(m),
            ButtplugMessageUnionVersion2::RawReadCmd(m) => r matches Ok(up) && up
                == ButtplugMessageUnion::RawReadCmd(m),
            ButtplugMessageUnionVersion2::RawSubscribeCmd(m) => r matches Ok(up) && up
                == ButtplugMessageUnion::RawSubscribeCmd(m),
            ButtplugMessageUnionVersion2::RawUnsubscribeCmd(m) => r matches Ok(up) && up
                == ButtplugMessageUnion::RawUnsubscribeCmd(m),
            ButtplugMessageUnionVersion2::RawReading(_) => r matches Err(e) && e == unexpected_message(
                ButtplugMessageType::RawReading,
            ),
        }
    }

    /// Says in the newest wire version what a message of this version says.
    /// The id is never touched.
    pub fn upgrade(msg: ButtplugMessageUnionVersion2) -> (r: Result<
        ButtplugMessageUnion,
        ButtplugError,
    >)
        ensures
            Self::upgrades(msg, r),
            r matches Ok(up) ==> up.spec_id() == msg.spec_id(),
    {
        match msg {
            ButtplugMessageUnionVersion2::OkMessage(_) => Err(
                ButtplugError::ButtplugMessageError(
                    ButtplugMessageError::UnexpectedMessageType(ButtplugMessageType::OkMessage),
                ),
            ),
            ButtplugMessageUnionVersion2::Error(_) => Err(
                ButtplugError::ButtplugMessageError(
                    ButtplugMessageError::UnexpectedMessageType(ButtplugMessageType::Error),
                ),
            ),
            ButtplugMessageUnionVersion2::Ping(m) => Ok(ButtplugMessageUnion::Ping(m)),
            ButtplugMessageUnionVersion2::RequestServerInfo(m) => Ok(ButtplugMessageUnion::RequestServerInfo(m)),
            ButtplugMessageUnionVersion2::ServerInfo(_) => Err(
                ButtplugError::ButtplugMessageError(
                    ButtplugMessageError::UnexpectedMessageType(ButtplugMessageType::ServerInfo),
                ),
            ),
            ButtplugMessageUnionVersion2::DeviceList(_) => Err(
                ButtplugError::ButtplugMessageError(
                    ButtplugMessageError::UnexpectedMessageType(ButtplugMessageType::DeviceList),
                ),
            ),
            ButtplugMessageUnionVersion2::DeviceAdded(_) => Err(
                ButtplugError::ButtplugMessageError(
                    ButtplugMessageError::UnexpectedMessageType(ButtplugMessageType::DeviceAdded),
                ),
            ),
            ButtplugMessageUnionVersion2::DeviceRemoved(_) => Err(
                ButtplugError::ButtplugMessageError(
                    ButtplugMessageError::UnexpectedMessageType(ButtplugMessageType::DeviceRemoved),
                ),
            ),
            ButtplugMessageUnionVersion2::StartScanning(m) => Ok(ButtplugMessageUnion::StartScanning(m)),
            ButtplugMessageUnionVersion2::StopScanning(m) => Ok(ButtplugMessageUnion::StopScanning(m)),
            ButtplugMessageUnionVersion2::ScanningFinished(_) => Err(
                ButtplugError::ButtplugMessageError(
                    ButtplugMessageError::UnexpectedMessageType(ButtplugMessageType::ScanningFinished),
                ),
            ),
            ButtplugMessageUnionVersion2::RequestDeviceList(m) => Ok(ButtplugMessageUnion::RequestDeviceList(m)),
            ButtplugMessageUnionVersion2::StopAllDevices(m) => Ok(ButtplugMessageUnion::StopAllDevices(m)),
            ButtplugMessageUnionVersion2::VibrateCmd(m) => Ok(ButtplugMessageUnion::ScalarCmd(ScalarCmd::from(m))),
            ButtplugMessageUnionVersion2::LinearCmd(m) => Ok(ButtplugMessageUnion::LinearCmd(m)),
            ButtplugMessageUnionVersion2::RotateCmd(m) => Ok(ButtplugMessageUnion::RotateCmd(m)),
            ButtplugMessageUnionVersion2::StopDeviceCmd(m) => Ok(ButtplugMessageUnion::StopDeviceCmd(m)),
            ButtplugMessageUnionVersion2::RawWriteCmd(m) => Ok(ButtplugMessageUnion::RawWriteCmd(m)),
            ButtplugMessageUnionVersion2::RawReadCmd(m) => Ok(ButtplugMessageUnion::RawReadCmd(m)),
            ButtplugMessageUnionVersion2::RawSubscribeCmd(m) => Ok(ButtplugMessageUnion::RawSubscribeCmd(m)),
            ButtplugMessageUnionVersion2::RawUnsubscribeCmd(m) => Ok(ButtplugMessageUnion::RawUnsubscribeCmd(m)),
            ButtplugMessageUnionVersion2::RawReading(_) => Err(
                ButtplugError::ButtplugMessageError(
                    ButtplugMessageError::UnexpectedMessageType(ButtplugMessageType::RawReading),
                ),
            ),
        }
    }

    /// Whether `r` is what a message of the newest version comes to in this
    /// one. What this version has as well stays as it is. The announcement of a
    /// device and the device list say of each device as much as this version
    /// can say. Levels become speeds where they are all for vibrators. What
    /// this version has no name for, which includes anything to do with
    /// sensors, does not go out.
    pub open spec fn downgrades(msg: ButtplugMessageUnion, r: Option<ButtplugMessageUnionVersion2>) -> bool {
        match msg {
            ButtplugMessageUnion::OkMessage(m) => r matches Some(down) && down
                == ButtplugMessageUnionVersion2::OkMessage(m),
            ButtplugMessageUnion::Error(m) => r matches Some(down) && down
                == ButtplugMessageUnionVersion2::Error(m),
            ButtplugMessageUnion::Ping(m) => r matches Some(down) && down
                == ButtplugMessageUnionVersion2::Ping(m),
            ButtplugMessageUnion::RequestServerInfo(m) => r matches Some(down) && down
                == ButtplugMessageUnionVersion2::RequestServerInfo(m),
            ButtplugMessageUnion::ServerInfo(m) => r matches Some(down) && down
                == ButtplugMessageUnionVersion2::ServerInfo(m),
            ButtplugMessageUnion::DeviceList(m) => r matches Some(ButtplugMessageUnionVersion2::DeviceList(down))
                && down.downgrades(m, ButtplugMessageSpecVersion::Version2),
            ButtplugMessageUnion::DeviceAdded(m) => r matches Some(ButtplugMessageUnionVersion2::DeviceAdded(down))
                && down.downgrades(m, ButtplugMessageSpecVersion::Version2),
            ButtplugMessageUnion::DeviceRemoved(m) => r matches Some(down) && down
                == ButtplugMessageUnionVersion2::DeviceRemoved(m),
            ButtplugMessageUnion::StartScanning(m) => r matches Some(down) && down
                == ButtplugMessageUnionVersion2::StartScanning(m),
            ButtplugMessageUnion::StopScanning(m) => r matches Some(down) && down
                == ButtplugMessageUnionVersion2::StopScanning(m),
            ButtplugMessageUnion::ScanningFinished(m) => r matches Some(down) && down
                == ButtplugMessageUnionVersion2::ScanningFinished(m),
            ButtplugMessageUnion::RequestDeviceList(m) => r matches Some(down) && down
                == ButtplugMessageUnionVersion2::RequestDeviceList(m),
            ButtplugMessageUnion::StopAllDevices(m) => r matches Some(down) && down
                == ButtplugMessageUnionVersion2::StopAllDevices(m),
            ButtplugMessageUnion::ScalarCmd(m) => if ScalarCmd::spec_all_vibrate(m.scalars@) {
                &&& r matches Some(ButtplugMessageUnionVersion2::VibrateCmd(down))
                &&& down.id == m.id
                &&& down.device_index == m.device_index
                &&& down.speeds@ == ScalarCmd::spec_scalar_speeds(m.scalars@)
            } else {
                r is None
            },
            ButtplugMessageUnion::LinearCmd(m) => r matches Some(down) && down
                == ButtplugMessageUnionVersion2::LinearCmd(m),
            ButtplugMessageUnion::RotateCmd(m) => r matches Some(down) && down
                == ButtplugMessageUnionVersion2::RotateCmd(m),
            ButtplugMessageUnion::StopDeviceCmd(m) => r matches Some(down) && down
                == ButtplugMessageUnionVersion2::StopDeviceCmd(m),
            ButtplugMessageUnion::SensorReadCmd(_) => r is None,
            ButtplugMessageUnion::SensorSubscribeCmd(_) => r is None,
            ButtplugMessageUnion::SensorUnsubscribeCmd(_) => r is None,
            ButtplugMessageUnion::SensorReading(_) => r is None,
            ButtplugMessageUnion::RawWriteCmd(m) => r matches Some(down) && down
                == ButtplugMessageUnionVersion2::RawWriteCmd(m),
            ButtplugMessageUnion::RawReadCmd(m) => r matches Some(down) && down
                == ButtplugMessageUnionVersion2::RawReadCmd(m),
            ButtplugMessageUnion::RawSubscribeCmd(m) => r matches Some(down) && down
                == ButtplugMessageUnionVersion2::RawSubscribeCmd(m),
            ButtplugMessageUnion::RawUnsubscribeCmd(m) => r matches Some(down) && down
                == ButtplugMessageUnionVersion2::RawUnsubscribeCmd(m),
            ButtplugMessageUnion::RawReading(m) => r matches Some(down) && down
                == ButtplugMessageUnionVersion2::RawReading(m),
        }
    }

    /// Says in this wire version what a message of the newest version says,
    /// where this version can say it. The id is never touched.
    pub fn downgrade(msg: ButtplugMessageUnion) -> (r: Option<ButtplugMessageUnionVersion2>)
        ensures
            Self::downgrades(msg, r),
            r matches Some(down) ==> down.spec_id() == msg.spec_id(),
    {
        match msg {
            ButtplugMessageUnion::OkMessage(m) => Some(ButtplugMessageUnionVersion2::OkMessage(m)),
            ButtplugMessageUnion::Error(m) => Some(ButtplugMessageUnionVersion2::Error(m)),
            ButtplugMessageUnion::Ping(m) => Some(ButtplugMessageUnionVersion2::Ping(m)),
            ButtplugMessageUnion::RequestServerInfo(m) => Some(ButtplugMessageUnionVersion2::RequestServerInfo(m)),
            ButtplugMessageUnion::ServerInfo(m) => Some(ButtplugMessageUnionVersion2::ServerInfo(m)),
            ButtplugMessageUnion::DeviceList(m) => Some(
                ButtplugMessageUnionVersion2::DeviceList(
                    DeviceListV2::downgrade(&m, ButtplugMessageSpecVersion::Version2),
                ),
            ),
            ButtplugMessageUnion::DeviceAdded(m) => Some(
                ButtplugMessageUnionVersion2::DeviceAdded(
                    DeviceAddedV2::downgrade(m, ButtplugMessageSpecVersion::Version2),
                ),
            ),
            ButtplugMessageUnion::DeviceRemoved(m) => Some(ButtplugMessageUnionVersion2::DeviceRemoved(m)),
            ButtplugMessageUnion::StartScanning(m) => Some(ButtplugMessageUnionVersion2::StartScanning(m)),
            ButtplugMessageUnion::StopScanning(m) => Some(ButtplugMessageUnionVersion2::StopScanning(m)),
            ButtplugMessageUnion::ScanningFinished(m) => Some(ButtplugMessageUnionVersion2::ScanningFinished(m)),
            ButtplugMessageUnion::RequestDeviceList(m) => Some(ButtplugMessageUnionVersion2::RequestDeviceList(m)),
            ButtplugMessageUnion::StopAllDevices(m) => Some(ButtplugMessageUnionVersion2::StopAllDevices(m)),
            ButtplugMessageUnion::ScalarCmd(m) => match m.to_vibrate_cmd() {
                Some(down) => Some(ButtplugMessageUnionVersion2::VibrateCmd(down)),
                None => None,
            },
            ButtplugMessageUnion::LinearCmd(m) => Some(ButtplugMessageUnionVersion2::LinearCmd(m)),
            ButtplugMessageUnion::RotateCmd(m) => Some(ButtplugMessageUnionVersion2::RotateCmd(m)),
            ButtplugMessageUnion::StopDeviceCmd(m) => Some(ButtplugMessageUnionVersion2::StopDeviceCmd(m)),
            ButtplugMessageUnion::SensorReadCmd(_) => None,
            ButtplugMessageUnion::SensorSubscribeCmd(_) => None,
            ButtplugMessageUnion::SensorUnsubscribeCmd(_) => None,
            ButtplugMessageUnion::SensorReading(_) => None,
            ButtplugMessageUnion::RawWriteCmd(m) => Some(ButtplugMessageUnionVersion2::RawWriteCmd(m)),
            ButtplugMessageUnion::RawReadCmd(m) => Some(ButtplugMessageUnionVersion2::RawReadCmd(m)),
            ButtplugMessageUnion::RawSubscribeCmd(m) => Some(ButtplugMessageUnionVersion2::RawSubscribeCmd(m)),
            ButtplugMessageUnion::RawUnsubscribeCmd(m) => Some(ButtplugMessageUnionVersion2::RawUnsubscribeCmd(m)),
            ButtplugMessageUnion::RawReading(m) => Some(ButtplugMessageUnionVersion2::RawReading(m)),
        }
    }

    /// Whether two messages say the same: they are the same message, where two
    /// vibrate commands count as the same when they have the same id, device
    /// and speeds.
    pub open spec fn same(a: ButtplugMessageUnionVersion2, b: ButtplugMessageUnionVersion2) -> bool {
        match (a, b) {
            (ButtplugMessageUnionVersion2::VibrateCmd(x), ButtplugMessageUnionVersion2::VibrateCmd(y)) => {
                &&& x.id == y.id
                &&& x.device_index == y.device_index
                &&& x.speeds@ == y.speeds@
            },
            _ => a == b,
        }
    }

    /// A message that goes up to the newest version and comes down again says
    /// what it said.
    pub proof fn lemma_round_trip(
        msg: ButtplugMessageUnionVersion2,
        up: ButtplugMessageUnion,
        down: Option<ButtplugMessageUnionVersion2>,
    )
        requires
            Self::upgrades(msg, Ok(up)),
            Self::downgrades(up, down),
        ensures
            down matches Some(back) && Self::same(back, msg),
    {
        match msg {
            ButtplugMessageUnionVersion2::VibrateCmd(m) => {
                ScalarCmd::lemma_vibrate_round_trip(m.speeds@);
            },
            _ => {},
        }
    }
}

} // verus!
