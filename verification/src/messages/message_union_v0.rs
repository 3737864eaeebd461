use crate::errors::{ButtplugError, ButtplugMessageError};
use crate::messages::converter::{unexpected_message, unsupported_message};
use crate::messages::{
    ButtplugDeviceMessageType, ButtplugMessage, ButtplugMessageSpecVersion, ButtplugMessageType,
    ButtplugMessageUnion, ButtplugMessageValidator, DeviceAddedV2, DeviceListV2, DeviceRemoved,
    Error, FleshlightLaunchFW12Cmd, KiirooCmd, LovenseCmd, OkMessage, Ping, RequestDeviceList,
    RequestServerInfo, ScalarCmd, ScanningFinished, ServerInfo, SingleMotorVibrateCmd,
    StartScanning, StopAllDevices, StopDeviceCmd, StopScanning, VorzeA10CycloneCmd,
};
use vstd::prelude::*;

verus! {

/// Any message of the first wire version, which knows one speed for all
/// vibrators and the commands of single vendors.
#[derive(Clone, Debug, PartialEq, Eq)]
pub enum ButtplugMessageUnionVersion0 {
    // Status messages
    OkMessage(OkMessage),
    Error(Error),
    Ping(Ping),
    // Handshake messages
    RequestServerInfo(RequestServerInfo),
    ServerInfo(ServerInfo),
    // Device enumeration messages
    DeviceList(DeviceListV2),
    DeviceAdded(DeviceAddedV2),
    DeviceRemoved(DeviceRemoved),
    StartScanning(StartScanning),
    StopScanning(StopScanning),
    ScanningFinished(ScanningFinished),
    RequestDeviceList(RequestDeviceList),
    // Generic commands
    StopAllDevices(StopAllDevices),
    SingleMotorVibrateCmd(SingleMotorVibrateCmd),
    StopDeviceCmd(StopDeviceCmd),
    // Device specific commands
    FleshlightLaunchFW12Cmd(FleshlightLaunchFW12Cmd),
    LovenseCmd(LovenseCmd),
    KiirooCmd(KiirooCmd),
    VorzeA10CycloneCmd(VorzeA10CycloneCmd),
}

impl ButtplugMessageUnionVersion0 {
    /// The name of the message held.
    pub open spec fn spec_message_type(&self) -> ButtplugMessageType {
        match self {
            ButtplugMessageUnionVersion0::OkMessage(_) => ButtplugMessageType::OkMessage,
            ButtplugMessageUnionVersion0::Error(_) => ButtplugMessageType::Error,
            ButtplugMessageUnionVersion0::Ping(_) => ButtplugMessageType::Ping,
            ButtplugMessageUnionVersion0::RequestServerInfo(_) => ButtplugMessageType::RequestServerInfo,
            ButtplugMessageUnionVersion0::ServerInfo(_) => ButtplugMessageType::ServerInfo,
            ButtplugMessageUnionVersion0::DeviceList(_) => ButtplugMessageType::DeviceList,
            ButtplugMessageUnionVersion0::DeviceAdded(_) => ButtplugMessageType::DeviceAdded,
            ButtplugMessageUnionVersion0::DeviceRemoved(_) => ButtplugMessageType::DeviceRemoved,
            ButtplugMessageUnionVersion0::StartScanning(_) => ButtplugMessageType::StartScanning,
            ButtplugMessageUnionVersion0::StopScanning(_) => ButtplugMessageType::StopScanning,
            ButtplugMessageUnionVersion0::ScanningFinished(_) => ButtplugMessageType::ScanningFinished,
            ButtplugMessageUnionVersion0::RequestDeviceList(_) => ButtplugMessageType::RequestDeviceList,
            ButtplugMessageUnionVersion0::StopAllDevices(_) => ButtplugMessageType::StopAllDevices,
            ButtplugMessageUnionVersion0::SingleMotorVibrateCmd(_) => ButtplugMessageType::SingleMotorVibrateCmd,
            ButtplugMessageUnionVersion0::StopDeviceCmd(_) => ButtplugMessageType::StopDeviceCmd,
            ButtplugMessageUnionVersion0::FleshlightLaunchFW12Cmd(_) => ButtplugMessageType::FleshlightLaunchFW12Cmd,
            ButtplugMessageUnionVersion0::LovenseCmd(_) => ButtplugMessageType::LovenseCmd,
            ButtplugMessageUnionVersion0::KiirooCmd(_) => ButtplugMessageType::KiirooCmd,
            ButtplugMessageUnionVersion0::VorzeA10CycloneCmd(_) => ButtplugMessageType::VorzeA10CycloneCmd,
        }
    }

    /// Returns the name of the message held.
    pub fn message_type(&self) -> (r: ButtplugMessageType)
        ensures
            r == self.spec_message_type(),
    {
        match self {
            ButtplugMessageUnionVersion0::OkMessage(_) => ButtplugMessageType::OkMessage,
            ButtplugMessageUnionVersion0::Error(_) => ButtplugMessageType::Error,
            ButtplugMessageUnionVersion0::Ping(_) => ButtplugMessageType::Ping,
            ButtplugMessageUnionVersion0::RequestServerInfo(_) => ButtplugMessageType::RequestServerInfo,
            ButtplugMessageUnionVersion0::ServerInfo(_) => ButtplugMessageType::ServerInfo,
            ButtplugMessageUnionVersion0::DeviceList(_) => ButtplugMessageType::DeviceList,
            ButtplugMessageUnionVersion0::DeviceAdded(_) => ButtplugMessageType::DeviceAdded,
            ButtplugMessageUnionVersion0::DeviceRemoved(_) => ButtplugMessageType::DeviceRemoved,
            ButtplugMessageUnionVersion0::StartScanning(_) => ButtplugMessageType::StartScanning,
            ButtplugMessageUnionVersion0::StopScanning(_) => ButtplugMessageType::StopScanning,
            ButtplugMessageUnionVersion0::ScanningFinished(_) => ButtplugMessageType::ScanningFinished,
            ButtplugMessageUnionVersion0::RequestDeviceList(_) => ButtplugMessageType::RequestDeviceList,
            ButtplugMessageUnionVersion0::StopAllDevices(_) => ButtplugMessageType::StopAllDevices,
            ButtplugMessageUnionVersion0::SingleMotorVibrateCmd(_) => ButtplugMessageType::SingleMotorVibrateCmd,
            ButtplugMessageUnionVersion0::StopDeviceCmd(_) => ButtplugMessageType::StopDeviceCmd,
            ButtplugMessageUnionVersion0::FleshlightLaunchFW12Cmd(_) => ButtplugMessageType::FleshlightLaunchFW12Cmd,
            ButtplugMessageUnionVersion0::LovenseCmd(_) => ButtplugMessageType::LovenseCmd,
            ButtplugMessageUnionVersion0::KiirooCmd(_) => ButtplugMessageType::KiirooCmd,
            ButtplugMessageUnionVersion0::VorzeA10CycloneCmd(_) => ButtplugMessageType::VorzeA10CycloneCmd,
        }
    }
}

impl ButtplugMessageUnionVersion0 {
    /// The message with another id and nothing else changed.
    pub open spec fn spec_with_id(self, id: u32) -> ButtplugMessageUnionVersion0 {
        match self {
            Self::OkMessage(msg) => Self::OkMessage(OkMessage { id, ..msg }),
            Self::Error(msg) => Self::Error(Error { id, ..msg }),
            Self::Ping(msg) => Self::Ping(Ping { id, ..msg }),
            Self::RequestServerInfo(msg) => Self::RequestServerInfo(RequestServerInfo { id, ..msg }),
            Self::ServerInfo(msg) => Self::ServerInfo(ServerInfo { id, ..msg }),
            Self::DeviceList(msg) => Self::DeviceList(DeviceListV2 { id, ..msg }),
            Self::DeviceAdded(msg) => Self::DeviceAdded(DeviceAddedV2 { id, ..msg }),
            Self::DeviceRemoved(msg) => Self::DeviceRemoved(DeviceRemoved { id, ..msg }),
            Self::StartScanning(msg) => Self::StartScanning(StartScanning { id, ..msg }),
            Self::StopScanning(msg) => Self::StopScanning(StopScanning { id, ..msg }),
            Self::ScanningFinished(msg) => Self::ScanningFinished(ScanningFinished { id, ..msg }),
            Self::RequestDeviceList(msg) => Self::RequestDeviceList(RequestDeviceList { id, ..msg }),
            Self::StopAllDevices(msg) => Self::StopAllDevices(StopAllDevices { id, ..msg }),
            Self::SingleMotorVibrateCmd(msg) => Self::SingleMotorVibrateCmd(SingleMotorVibrateCmd { id, ..msg }),
            Self::StopDeviceCmd(msg) => Self::StopDeviceCmd(StopDeviceCmd { id, ..msg }),
            Self::FleshlightLaunchFW12Cmd(msg) => Self::FleshlightLaunchFW12Cmd(FleshlightLaunchFW12Cmd { id, ..msg }),
            Self::LovenseCmd(msg) => Self::LovenseCmd(LovenseCmd { id, ..msg }),
            Self::KiirooCmd(msg) => Self::KiirooCmd(KiirooCmd { id, ..msg }),
            Self::VorzeA10CycloneCmd(msg) => Self::VorzeA10CycloneCmd(VorzeA10CycloneCmd { id, ..msg }),
        }
    }
}

impl ButtplugMessage for ButtplugMessageUnionVersion0 {
    open spec fn spec_id(&self) -> u32 {
        match self {
            ButtplugMessageUnionVersion0::OkMessage(msg) => msg.id,
            ButtplugMessageUnionVersion0::Error(msg) => msg.id,
            ButtplugMessageUnionVersion0::Ping(msg) => msg.id,
            ButtplugMessageUnionVersion0::RequestServerInfo(msg) => msg.id,
            ButtplugMessageUnionVersion0::ServerInfo(msg) => msg.id,
            ButtplugMessageUnionVersion0::DeviceList(msg) => msg.id,
            ButtplugMessageUnionVersion0::DeviceAdded(msg) => msg.id,
            ButtplugMessageUnionVersion0::DeviceRemoved(msg) => msg.id,
            ButtplugMessageUnionVersion0::StartScanning(msg) => msg.id,
            ButtplugMessageUnionVersion0::StopScanning(msg) => msg.id,
            ButtplugMessageUnionVersion0::ScanningFinished(msg) => msg.id,
            ButtplugMessageUnionVersion0::RequestDeviceList(msg) => msg.id,
            ButtplugMessageUnionVersion0::StopAllDevices(msg) => msg.id,
            ButtplugMessageUnionVersion0::SingleMotorVibrateCmd(msg) => msg.id,
            ButtplugMessageUnionVersion0::StopDeviceCmd(msg) => msg.id,
            ButtplugMessageUnionVersion0::FleshlightLaunchFW12Cmd(msg) => msg.id,
            ButtplugMessageUnionVersion0::LovenseCmd(msg) => msg.id,
            ButtplugMessageUnionVersion0::KiirooCmd(msg) => msg.id,
            ButtplugMessageUnionVersion0::VorzeA10CycloneCmd(msg) => msg.id,
        }
    }

    fn id(&self) -> (r: u32) {
        match self {
            ButtplugMessageUnionVersion0::OkMessage(msg) => msg.id,
            ButtplugMessageUnionVersion0::Error(msg) => msg.id,
            ButtplugMessageUnionVersion0::Ping(msg) => msg.id,
            ButtplugMessageUnionVersion0::RequestServerInfo(msg) => msg.id,
            ButtplugMessageUnionVersion0::ServerInfo(msg) => msg.id,
            ButtplugMessageUnionVersion0::DeviceList(msg) => msg.id,
            ButtplugMessageUnionVersion0::DeviceAdded(msg) => msg.id,
            ButtplugMessageUnionVersion0::DeviceRemoved(msg) => msg.id,
            ButtplugMessageUnionVersion0::StartScanning(msg) => msg.id,
            ButtplugMessageUnionVersion0::StopScanning(msg) => msg.id,
            ButtplugMessageUnionVersion0::ScanningFinished(msg) => msg.id,
            ButtplugMessageUnionVersion0::RequestDeviceList(msg) => msg.id,
            ButtplugMessageUnionVersion0::StopAllDevices(msg) => msg.id,
            ButtplugMessageUnionVersion0::SingleMotorVibrateCmd(msg) => msg.id,
            ButtplugMessageUnionVersion0::StopDeviceCmd(msg) => msg.id,
            ButtplugMessageUnionVersion0::FleshlightLaunchFW12Cmd(msg) => msg.id,
            ButtplugMessageUnionVersion0::LovenseCmd(msg) => msg.id,
            ButtplugMessageUnionVersion0::KiirooCmd(msg) => msg.id,
            ButtplugMessageUnionVersion0::VorzeA10CycloneCmd(msg) => msg.id,
        }
    }

    fn set_id(&mut self, id: u32)
        ensures
            *final(self) == old(self).spec_with_id(id),
    {
        match self {
            ButtplugMessageUnionVersion0::OkMessage(msg) => {
                msg.id = id;
            },
            ButtplugMessageUnionVersion0::Error(msg) => {
                msg.id = id;
            },
            ButtplugMessageUnionVersion0::Ping(msg) => {
                msg.id = id;
            },
            ButtplugMessageUnionVersion0::RequestServerInfo(msg) => {
                msg.id = id;
            },
            ButtplugMessageUnionVersion0::ServerInfo(msg) => {
                msg.id = id;
            },
            ButtplugMessageUnionVersion0::DeviceList(msg) => {
                msg.id = id;
            },
            ButtplugMessageUnionVersion0::DeviceAdded(msg) => {
                msg.id = id;
            },
            ButtplugMessageUnionVersion0::DeviceRemoved(msg) => {
                msg.id = id;
            },
            ButtplugMessageUnionVersion0::StartScanning(msg) => {
                msg.id = id;
            },
            ButtplugMessageUnionVersion0::StopScanning(msg) => {
                msg.id = id;
            },
            ButtplugMessageUnionVersion0::ScanningFinished(msg) => {
                msg.id = id;
            },
            ButtplugMessageUnionVersion0::RequestDeviceList(msg) => {
                msg.id = id;
            },
            ButtplugMessageUnionVersion0::StopAllDevices(msg) => {
                msg.id = id;
            },
            ButtplugMessageUnionVersion0::SingleMotorVibrateCmd(msg) => {
                msg.id = id;
            },
            ButtplugMessageUnionVersion0::StopDeviceCmd(msg) => {
                msg.id = id;
            },
            ButtplugMessageUnionVersion0::FleshlightLaunchFW12Cmd(msg) => {
                msg.id = id;
            },
            ButtplugMessageUnionVersion0::LovenseCmd(msg) => {
                msg.id = id;
            },
            ButtplugMessageUnionVersion0::KiirooCmd(msg) => {
                msg.id = id;
            },
            ButtplugMessageUnionVersion0::VorzeA10CycloneCmd(msg) => {
                msg.id = id;
            },
        }
    }
}

impl ButtplugMessageValidator for ButtplugMessageUnionVersion0 {
    /// The check of the message held.
    open spec fn spec_is_valid(&self) -> Result<(), ButtplugMessageError> {
        match self {
            ButtplugMessageUnionVersion0::OkMessage(msg) => msg.spec_is_valid(),
            ButtplugMessageUnionVersion0::Error(msg) => msg.spec_is_valid(),
            ButtplugMessageUnionVersion0::Ping(msg) => msg.spec_is_valid(),
            ButtplugMessageUnionVersion0::RequestServerInfo(msg) => msg.spec_is_valid(),
            ButtplugMessageUnionVersion0::ServerInfo(msg) => msg.spec_is_valid(),
            ButtplugMessageUnionVersion0::DeviceList(msg) => msg.spec_is_valid(),
            ButtplugMessageUnionVersion0::DeviceAdded(msg) => msg.spec_is_valid(),
            ButtplugMessageUnionVersion0::DeviceRemoved(msg) => msg.spec_is_valid(),
            ButtplugMessageUnionVersion0::StartScanning(msg) => msg.spec_is_valid(),
            ButtplugMessageUnionVersion0::StopScanning(msg) => msg.spec_is_valid(),
            ButtplugMessageUnionVersion0::ScanningFinished(msg) => msg.spec_is_valid(),
            ButtplugMessageUnionVersion0::RequestDeviceList(msg) => msg.spec_is_valid(),
            ButtplugMessageUnionVersion0::StopAllDevices(msg) => msg.spec_is_valid(),
            ButtplugMessageUnionVersion0::SingleMotorVibrateCmd(msg) => msg.spec_is_valid(),
            ButtplugMessageUnionVersion0::StopDeviceCmd(msg) => msg.spec_is_valid(),
            ButtplugMessageUnionVersion0::FleshlightLaunchFW12Cmd(msg) => msg.spec_is_valid(),
            ButtplugMessageUnionVersion0::LovenseCmd(msg) => msg.spec_is_valid(),
            ButtplugMessageUnionVersion0::KiirooCmd(msg) => msg.spec_is_valid(),
            ButtplugMessageUnionVersion0::VorzeA10CycloneCmd(msg) => msg.spec_is_valid(),
        }
    }

    fn is_valid(&self) -> (r: Result<(), ButtplugMessageError>) {
        match self {
            ButtplugMessageUnionVersion0::OkMessage(msg) => msg.is_valid(),
            ButtplugMessageUnionVersion0::Error(msg) => msg.is_valid(),
            ButtplugMessageUnionVersion0::Ping(msg) => msg.is_valid(),
            ButtplugMessageUnionVersion0::RequestServerInfo(msg) => msg.is_valid(),
            ButtplugMessageUnionVersion0::ServerInfo(msg) => msg.is_valid(),
            ButtplugMessageUnionVersion0::DeviceList(msg) => msg.is_valid(),
            ButtplugMessageUnionVersion0::DeviceAdded(msg) => msg.is_valid(),
            ButtplugMessageUnionVersion0::DeviceRemoved(msg) => msg.is_valid(),
            ButtplugMessageUnionVersion0::StartScanning(msg) => msg.is_valid(),
            ButtplugMessageUnionVersion0::StopScanning(msg) => msg.is_valid(),
            ButtplugMessageUnionVersion0::ScanningFinished(msg) => msg.is_valid(),
            ButtplugMessageUnionVersion0::RequestDeviceList(msg) => msg.is_valid(),
            ButtplugMessageUnionVersion0::StopAllDevices(msg) => msg.is_valid(),
            ButtplugMessageUnionVersion0::SingleMotorVibrateCmd(msg) => msg.is_valid(),
            ButtplugMessageUnionVersion0::StopDeviceCmd(msg) => msg.is_valid(),
            ButtplugMessageUnionVersion0::FleshlightLaunchFW12Cmd(msg) => msg.is_valid(),
            ButtplugMessageUnionVersion0::LovenseCmd(msg) => msg.is_valid(),
            ButtplugMessageUnionVersion0::KiirooCmd(msg) => msg.is_valid(),
            ButtplugMessageUnionVersion0::VorzeA10CycloneCmd(msg) => msg.is_valid(),
        }
    }
}

impl ButtplugMessageUnionVersion0 {
    /// Whether `r` is what a message of this version comes to in the newest
    /// one. What a client may send and the newest version has as well stays as
    /// it is. The one speed for all vibrators becomes a level for each of the
    /// `vibrators` that the receiving device has. The commands of single
    /// vendors are refused as not supported. The two that are text have nothing
    /// that stands for them. What the stroker's command and the rotator's would
    /// become, a move and a rotation, has a position or a speed that is a
    /// quotient, and for the move a duration out of the vendor's table of
    /// speeds; that is arithmetic on real numbers, which this library does not
    /// do and leaves to whoever calls it. What only a server sends is refused
    /// as out of place.
    pub open spec fn upgrades(
        msg: ButtplugMessageUnionVersion0,
        vibrators: u32,
        r: Result<ButtplugMessageUnion, ButtplugError>,
    ) -> bool {
        match msg {
            ButtplugMessageUnionVersion0::OkMessage(_) => r matches Err(e) && e == unexpected_message(
                ButtplugMessageType::OkMessage,
            ),
            ButtplugMessageUnionVersion0::Error(_) => r matches Err(e) && e == unexpected_message(
                ButtplugMessageType::Error,
            ),
            ButtplugMessageUnionVersion0::Ping(m) => r matches Ok(up) && up
                == ButtplugMessageUnion::Ping(m),
            ButtplugMessageUnionVersion0::RequestServerInfo(m) => r matches Ok(up) && up
                == ButtplugMessageUnion::RequestServerInfo(m),
            ButtplugMessageUnionVersion0::ServerInfo(_) => r matches Err(e) && e == unexpected_message(
                ButtplugMessageType::ServerInfo,
            ),
            ButtplugMessageUnionVersion0::DeviceList(_) => r matches Err(e) && e == unexpected_message(
                ButtplugMessageType::DeviceList,
            ),
            ButtplugMessageUnionVersion0::DeviceAdded(_) => r matches Err(e) && e == unexpected_message(
                ButtplugMessageType::DeviceAdded,
            ),
            ButtplugMessageUnionVersion0::DeviceRemoved(_) => r matches Err(e) && e == unexpected_message(
                ButtplugMessageType::DeviceRemoved,
            ),
            ButtplugMessageUnionVersion0::StartScanning(m) => r matches Ok(up) && up
                == ButtplugMessageUnion::StartScanning(m),
            ButtplugMessageUnionVersion0::StopScanning(m) => r matches Ok(up) && up
                == ButtplugMessageUnion::StopScanning(m),
            ButtplugMessageUnionVersion0::ScanningFinished(_) => r matches Err(e) && e == unexpected_message(
                ButtplugMessageType::ScanningFinished,
            ),
            ButtplugMessageUnionVersion0::RequestDeviceList(m) => r matches Ok(up) && up
                == ButtplugMessageUnion::RequestDeviceList(m),
            ButtplugMessageUnionVersion0::StopAllDevices(m) => r matches Ok(up) && up
                == ButtplugMessageUnion::StopAllDevices(m),
            ButtplugMessageUnionVersion0::SingleMotorVibrateCmd(m) => {
                &&& r matches Ok(ButtplugMessageUnion::ScalarCmd(s))
                &&& s.id == m.id
                &&& s.device_index == m.device_index
                &&& s.scalars@ == ScalarCmd::spec_single_motor_scalars(m.speed, vibrators)
            },
            ButtplugMessageUnionVersion0::StopDeviceCmd(m) => r matches Ok(up) && up
                == ButtplugMessageUnion::StopDeviceCmd(m),
            ButtplugMessageUnionVersion0::FleshlightLaunchFW12Cmd(_) => r matches Err(e) && e == unsupported_message(
                ButtplugDeviceMessageType::FleshlightLaunchFW12Cmd,
            ),
            ButtplugMessageUnionVersion0::LovenseCmd(_) => r matches Err(e) && e == unsupported_message(
                ButtplugDeviceMessageType::LovenseCmd,
            ),
            ButtplugMessageUnionVersion0::KiirooCmd(_) => r matches Err(e) && e == unsupported_message(
                ButtplugDeviceMessageType::KiirooCmd,
            ),
            ButtplugMessageUnionVersion0::VorzeA10CycloneCmd(_) => r matches Err(e) && e == unsupported_message(
                ButtplugDeviceMessageType::VorzeA10CycloneCmd,
            ),
        }
    }

    /// Says in the newest wire version what a message of this version says.
    /// The id is never touched.
    pub fn upgrade(msg: ButtplugMessageUnionVersion0, vibrators: u32) -> (r: Result<
        ButtplugMessageUnion,
        ButtplugError,
    >)
        ensures
            Self::upgrades(msg, vibrators, r),
            r matches Ok(up) ==> up.spec_id() == msg.spec_id(),
    {
        match msg {
            ButtplugMessageUnionVersion0::OkMessage(_) => Err(
                ButtplugError::ButtplugMessageError(
                    ButtplugMessageError::UnexpectedMessageType(ButtplugMessageType::OkMessage),
                ),
            ),
            ButtplugMessageUnionVersion0::Error(_) => Err(
                ButtplugError::ButtplugMessageError(
                    ButtplugMessageError::UnexpectedMessageType(ButtplugMessageType::Error),
                ),
            ),
            ButtplugMessageUnionVersion0::Ping(m) => Ok(ButtplugMessageUnion::Ping(m)),
            ButtplugMessageUnionVersion0::RequestServerInfo(m) => Ok(ButtplugMessageUnion::RequestServerInfo(m)),
            ButtplugMessageUnionVersion0::ServerInfo(_) => Err(
                ButtplugError::ButtplugMessageError(
                    ButtplugMessageError::UnexpectedMessageType(ButtplugMessageType::ServerInfo),
                ),
            ),
            ButtplugMessageUnionVersion0::DeviceList(_) => Err(
                ButtplugError::ButtplugMessageError(
                    ButtplugMessageError::UnexpectedMessageType(ButtplugMessageType::DeviceList),
                ),
            ),
            ButtplugMessageUnionVersion0::DeviceAdded(_) => Err(
                ButtplugError::ButtplugMessageError(
                    ButtplugMessageError::UnexpectedMessageType(ButtplugMessageType::DeviceAdded),
                ),
            ),
            ButtplugMessageUnionVersion0::DeviceRemoved(_) => Err(
                ButtplugError::ButtplugMessageError(
                    ButtplugMessageError::UnexpectedMessageType(ButtplugMessageType::DeviceRemoved),
                ),
            ),
            ButtplugMessageUnionVersion0::StartScanning(m) => Ok(ButtplugMessageUnion::StartScanning(m)),
            ButtplugMessageUnionVersion0::StopScanning(m) => Ok(ButtplugMessageUnion::StopScanning(m)),
            ButtplugMessageUnionVersion0::ScanningFinished(_) => Err(
                ButtplugError::ButtplugMessageError(
                    ButtplugMessageError::UnexpectedMessageType(ButtplugMessageType::ScanningFinished),
                ),
            ),
            ButtplugMessageUnionVersion0::RequestDeviceList(m) => Ok(ButtplugMessageUnion::RequestDeviceList(m)),
            ButtplugMessageUnionVersion0::StopAllDevices(m) => Ok(ButtplugMessageUnion::StopAllDevices(m)),
            ButtplugMessageUnionVersion0::SingleMotorVibrateCmd(m) => Ok(
                ButtplugMessageUnion::ScalarCmd(ScalarCmd::from_single_motor(&m, vibrators)),
            ),
            ButtplugMessageUnionVersion0::StopDeviceCmd(m) => Ok(ButtplugMessageUnion::StopDeviceCmd(m)),
            ButtplugMessageUnionVersion0::FleshlightLaunchFW12Cmd(_) => Err(
                ButtplugError::ButtplugMessageError(
                    ButtplugMessageError::DeviceNotSupportedMessageType(
                        ButtplugDeviceMessageType::FleshlightLaunchFW12Cmd,
                    ),
                ),
            ),
            ButtplugMessageUnionVersion0::LovenseCmd(_) => Err(
                ButtplugError::ButtplugMessageError(
                    ButtplugMessageError::DeviceNotSupportedMessageType(
                        ButtplugDeviceMessageType::LovenseCmd,
                    ),
                ),
            ),
            ButtplugMessageUnionVersion0::KiirooCmd(_) => Err(
                ButtplugError::ButtplugMessageError(
                    ButtplugMessageError::DeviceNotSupportedMessageType(
                        ButtplugDeviceMessageType::KiirooCmd,
                    ),
                ),
            ),
            ButtplugMessageUnionVersion0::VorzeA10CycloneCmd(_) => Err(
                ButtplugError::ButtplugMessageError(
                    ButtplugMessageError::DeviceNotSupportedMessageType(
                        ButtplugDeviceMessageType::VorzeA10CycloneCmd,
                    ),
                ),
            ),
        }
    }

    /// Whether `r` is what a message of the newest version comes to in this
    /// one. What this version has as well stays as it is. The announcement of a
    /// device and the device list say of each device as much as this version
    /// can say. What this version has no name for, which includes levels and
    /// anything to do with sensors, does not go out.
    pub open spec fn downgrades(msg: ButtplugMessageUnion, r: Option<ButtplugMessageUnionVersion0>) -> bool {
        match msg {
            ButtplugMessageUnion::OkMessage(m) => r matches Some(down) && down
                == ButtplugMessageUnionVersion0::OkMessage(m),
            ButtplugMessageUnion::Error(m) => r matches Some(down) && down
                == ButtplugMessageUnionVersion0::Error(m),
            ButtplugMessageUnion::Ping(m) => r matches Some(down) && down
                == ButtplugMessageUnionVersion0::Ping(m),
            ButtplugMessageUnion::RequestServerInfo(m) => r matches Some(down) && down
                == ButtplugMessageUnionVersion0::RequestServerInfo(m),
            ButtplugMessageUnion::ServerInfo(m) => r matches Some(down) && down
                == ButtplugMessageUnionVersion0::ServerInfo(m),
            ButtplugMessageUnion::DeviceList(m) => r matches Some(ButtplugMessageUnionVersion0::DeviceList(down))
                && down.downgrades(m, ButtplugMessageSpecVersion::Version0),
            ButtplugMessageUnion::DeviceAdded(m) => r matches Some(ButtplugMessageUnionVersion0::DeviceAdded(down))
                && down.downgrades(m, ButtplugMessageSpecVersion::Version0),
            ButtplugMessageUnion::DeviceRemoved(m) => r matches Some(down) && down
                == ButtplugMessageUnionVersion0::DeviceRemoved(m),
            ButtplugMessageUnion::StartScanning(m) => r matches Some(down) && down
                == ButtplugMessageUnionVersion0::StartScanning(m),
            ButtplugMessageUnion::StopScanning(m) => r matches Some(down) && down
                == ButtplugMessageUnionVersion0::StopScanning(m),
            ButtplugMessageUnion::ScanningFinished(m) => r matches Some(down) && down
                == ButtplugMessageUnionVersion0::ScanningFinished(m),
            ButtplugMessageUnion::RequestDeviceList(m) => r matches Some(down) && down
                == ButtplugMessageUnionVersion0::RequestDeviceList(m),
            ButtplugMessageUnion::StopAllDevices(m) => r matches Some(down) && down
                == ButtplugMessageUnionVersion0::StopAllDevices(m),
            ButtplugMessageUnion::ScalarCmd(_) => r is None,
            ButtplugMessageUnion::LinearCmd(_) => r is None,
            ButtplugMessageUnion::RotateCmd(_) => r is None,
            ButtplugMessageUnion::StopDeviceCmd(m) => r matches Some(down) && down
                == ButtplugMessageUnionVersion0::StopDeviceCmd(m),
            ButtplugMessageUnion::SensorReadCmd(_) => r is None,
            ButtplugMessageUnion::SensorSubscribeCmd(_) => r is None,
            ButtplugMessageUnion::SensorUnsubscribeCmd(_) => r is None,
            ButtplugMessageUnion::SensorReading(_) => r is None,
            ButtplugMessageUnion::RawWriteCmd(_) => r is None,
            ButtplugMessageUnion::RawReadCmd(_) => r is None,
            ButtplugMessageUnion::RawSubscribeCmd(_) => r is None,
            ButtplugMessageUnion::RawUnsubscribeCmd(_) => r is None,
            ButtplugMessageUnion::RawReading(_) => r is None,
        }
    }

    /// Says in this wire version what a message of the newest version says,
    /// where this version can say it. The id is never touched.
    pub fn downgrade(msg: ButtplugMessageUnion) -> (r: Option<ButtplugMessageUnionVersion0>)
        ensures
            Self::downgrades(msg, r),
            r matches Some(down) ==> down.spec_id() == msg.spec_id(),
    {
        match msg {
            ButtplugMessageUnion::OkMessage(m) => Some(ButtplugMessageUnionVersion0::OkMessage(m)),
            ButtplugMessageUnion::Error(m) => Some(ButtplugMessageUnionVersion0::Error(m)),
            ButtplugMessageUnion::Ping(m) => Some(ButtplugMessageUnionVersion0::Ping(m)),
            ButtplugMessageUnion::RequestServerInfo(m) => Some(ButtplugMessageUnionVersion0::RequestServerInfo(m)),
            ButtplugMessageUnion::ServerInfo(m) => Some(ButtplugMessageUnionVersion0::ServerInfo(m)),
            ButtplugMessageUnion::DeviceList(m) => Some(
                ButtplugMessageUnionVersion0::DeviceList(
                    DeviceListV2::downgrade(&m, ButtplugMessageSpecVersion::Version0),
                ),
            ),
            ButtplugMessageUnion::DeviceAdded(m) => Some(
                ButtplugMessageUnionVersion0::DeviceAdded(
                    DeviceAddedV2::downgrade(m, ButtplugMessageSpecVersion::Version0),
                ),
            ),
            ButtplugMessageUnion::DeviceRemoved(m) => Some(ButtplugMessageUnionVersion0::DeviceRemoved(m)),
            ButtplugMessageUnion::StartScanning(m) => Some(ButtplugMessageUnionVersion0::StartScanning(m)),
            ButtplugMessageUnion::StopScanning(m) => Some(ButtplugMessageUnionVersion0::StopScanning(m)),
            ButtplugMessageUnion::ScanningFinished(m) => Some(ButtplugMessageUnionVersion0::ScanningFinished(m)),
            ButtplugMessageUnion::RequestDeviceList(m) => Some(ButtplugMessageUnionVersion0::RequestDeviceList(m)),
            ButtplugMessageUnion::StopAllDevices(m) => Some(ButtplugMessageUnionVersion0::StopAllDevices(m)),
            ButtplugMessageUnion::ScalarCmd(_) => None,
            ButtplugMessageUnion::LinearCmd(_) => None,
            ButtplugMessageUnion::RotateCmd(_) => None,
            ButtplugMessageUnion::StopDeviceCmd(m) => Some(ButtplugMessageUnionVersion0::StopDeviceCmd(m)),
            ButtplugMessageUnion::SensorReadCmd(_) => None,
            ButtplugMessageUnion::SensorSubscribeCmd(_) => None,
            ButtplugMessageUnion::SensorUnsubscribeCmd(_) => None,
            ButtplugMessageUnion::SensorReading(_) => None,
            ButtplugMessageUnion::RawWriteCmd(_) => None,
            ButtplugMessageUnion::RawReadCmd(_) => None,
            ButtplugMessageUnion::RawSubscribeCmd(_) => None,
            ButtplugMessageUnion::RawUnsubscribeCmd(_) => None,
            ButtplugMessageUnion::RawReading(_) => None,
        }
    }

    /// Whether two messages say the same: they are the same message.
    pub open spec fn same(a: ButtplugMessageUnionVersion0, b: ButtplugMessageUnionVersion0) -> bool {
        a == b
    }

    /// A message that goes up to the newest version and comes down again says
    /// what it said. The one exception is the one speed for all vibrators:
    /// going up it becomes a level for each vibrator of the device, and that it
    /// was one speed for all of them is lost.
    pub proof fn lemma_round_trip(
        msg: ButtplugMessageUnionVersion0,
        vibrators: u32,
        up: ButtplugMessageUnion,
        down: Option<ButtplugMessageUnionVersion0>,
    )
        requires
            Self::upgrades(msg, vibrators, Ok(up)),
            Self::downgrades(up, down),
            !(msg is SingleMotorVibrateCmd),
        ensures
            down matches Some(back) && Self::same(back, msg),
    {
    }
}

} // verus!
