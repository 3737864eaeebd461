//! The transports the manager looks for devices on, as far as the manager
//! has to know them, and the one for serial ports.

use crate::device::specifier::{ProtocolCommunicationSpecifier, SerialSpecifier};
use vstd::prelude::*;
use vstd::string::StringExecFns;

verus! {

/// A transport as the device manager sees it. Transports are written by
/// those who know the hardware; nothing is promised of what they answer.
pub trait HardwareCommunicationManager {
    /// Returns the name the transport goes by.
    fn name(&self) -> &'static str;

    /// Says whether the transport can look for devices.
    fn can_scan(&self) -> bool;
}

/// What makes a transport when the device manager is put together.
pub trait HardwareCommunicationManagerBuilder {
    /// The transport that is made.
    type Manager: HardwareCommunicationManager;

    /// Makes the transport.
    fn finish(&self) -> Self::Manager;
}

/// What a transport tells the device manager.
#[derive(Clone, Debug, PartialEq, Eq)]
pub enum DeviceCommunicationEvent {
    /// Hardware was found: what to call it, where it is, and what it looks
    /// like to the protocols.
    DeviceFound { name: String, address: String, specifier: ProtocolCommunicationSpecifier },
    /// The transport has stopped looking.
    ScanningFinished,
}

/// Makes the transport for serial ports.
#[derive(Clone, Copy, Debug, PartialEq, Eq, Structural)]
pub struct SerialPortCommunicationManagerBuilder {}

impl Default for SerialPortCommunicationManagerBuilder {
    fn default() -> (r: Self)
        ensures
            r == (SerialPortCommunicationManagerBuilder {  }),
    {
        SerialPortCommunicationManagerBuilder {  }
    }
}

impl HardwareCommunicationManagerBuilder for SerialPortCommunicationManagerBuilder {
    type Manager = SerialPortCommunicationManager;

    fn finish(&self) -> (r: SerialPortCommunicationManager)
        ensures
            r == (SerialPortCommunicationManager {  }),
    {
        SerialPortCommunicationManager::new()
    }
}

/// The transport for serial ports. Every port of the machine counts as
/// hardware that was found; which protocol it belongs to, if any, is for the
/// configuration to say.
#[derive(Clone, Copy, Debug, PartialEq, Eq, Structural)]
pub struct SerialPortCommunicationManager {}

/// The event that tells of a serial port: it is called after the port, its
/// address is the port's name, and it looks like a serial line on that port
/// with no settings made.
pub open spec fn port_found(event: DeviceCommunicationEvent, port: Seq<char>) -> bool {
    &&& event matches DeviceCommunicationEvent::DeviceFound { name, address, specifier }
    &&& name@ == "Serial Port Device "@ + port
    &&& address@ == port
    &&& specifier matches ProtocolCommunicationSpecifier::Serial(line)
    &&& line.port@ == port
    &&& line.baud_rate == 0
    &&& line.data_bits == 0
    &&& line.parity == 'N'
    &&& line.stop_bits == 0
}

impl SerialPortCommunicationManager {
    /// Creates the transport.
    fn new() -> (r: Self)
        ensures
            r == (SerialPortCommunicationManager {  }),
    {
        SerialPortCommunicationManager {  }
    }

    /// Says what a scan has to report, given the ports the machine has, or
    /// none where they could not be listed: every port as hardware that was
    /// found, in the order given, and after them that the scan has finished.
    pub fn start_scanning(&self, ports: Option<Vec<String>>) -> (r: Vec<DeviceCommunicationEvent>)
        ensures
            r@.len() == (match ports {
                Some(found) => found@.len() + 1,
                None => 1,
            }),
            r@.last() == DeviceCommunicationEvent::ScanningFinished,
            ports matches Some(found) ==> forall|i: int|
                0 <= i < found@.len() ==> port_found(#[trigger] r@[i], found@[i]@),
    {
        let mut events: Vec<DeviceCommunicationEvent> = Vec::new();
        match ports {
            Some(found) => {
                let mut i: usize = 0;
                while i < found.len()
                    invariant
                        i <= found@.len(),
                        events@.len() == i,
                        forall|j: int| 0 <= j < i ==> port_found(#[trigger] events@[j], found@[j]@),
                    decreases found@.len() - i,
                {
                    let mut name = String::from_str("Serial Port Device ");
                    name.append(found[i].as_str());
                    events.push(
                        DeviceCommunicationEvent::DeviceFound {
                            name,
                            address: found[i].clone(),
                            specifier: ProtocolCommunicationSpecifier::Serial(
                                SerialSpecifier {
                                    port: found[i].clone(),
                                    baud_rate: 0,
                                    data_bits: 0,
                                    parity: 'N',
                                    stop_bits: 0,
                                },
                            ),
                        },
                    );
                    i += 1;
                }
            },
            None => {},
        }
        events.push(DeviceCommunicationEvent::ScanningFinished);
        events
    }

    /// Says which of `count` events to report next, after the one at
    /// `position` went out and did or did not reach the device manager. As
    /// long as the events arrive they go out in order. Once one does not, the
    /// device manager is gone: what else was found is skipped, and only the
    /// last event, that the scan has finished, is still tried. After the
    /// last event nothing is left.
    pub fn next_event(&self, count: usize, position: usize, delivered: bool) -> (r: Option<usize>)
        ensures
            r == (if position >= count || position == count - 1 {
                None
            } else if delivered {
                Some((position + 1) as usize)
            } else {
                Some((count - 1) as usize)
            }),
    {
        if position >= count || position == count - 1 {
            None
        } else if delivered {
            Some(position + 1)
        } else {
            Some(count - 1)
        }
    }

    /// Stops a scan. A scan of the serial ports is over as soon as it has
    /// begun, so nothing is left to stop.
    pub fn stop_scanning(&self) {
    }
}

impl HardwareCommunicationManager for SerialPortCommunicationManager {
    fn name(&self) -> (r: &'static str)
        ensures
            r@ == "SerialPortCommunicationManager"@,
    {
        "SerialPortCommunicationManager"
    }

    /// The serial ports can always be looked at.
    fn can_scan(&self) -> (r: bool)
        ensures
            r,
    {
        true
    }
}

} // verus!
