//! The endpoints of a piece of hardware and the text each is written as.

use vstd::prelude::*;
use vstd::string::StringExecFns;

verus! {

/// A logical channel of a piece of hardware.
#[derive(Clone, Copy, Debug, PartialEq, Eq, Hash, Structural)]
pub enum Endpoint {
    Command,
    Firmware,
    Rx,
    RxAccel,
    RxBLEBattery,
    RxBLEModel,
    RxPressure,
    RxTouch,
    Tx,
    TxMode,
    TxShock,
    TxVibrate,
    TxVendorControl,
    Whitelist,
    Generic0,
    Generic1,
    Generic2,
    Generic3,
    Generic4,
    Generic5,
    Generic6,
    Generic7,
    Generic8,
    Generic9,
    Generic10,
    Generic11,
    Generic12,
    Generic13,
    Generic14,
    Generic15,
    Generic16,
    Generic17,
    Generic18,
    Generic19,
    Generic20,
    Generic21,
    Generic22,
    Generic23,
    Generic24,
    Generic25,
    Generic26,
    Generic27,
    Generic28,
    Generic29,
    Generic30,
    Generic31,
}

impl Endpoint {
    /// The text an endpoint is written as: its name in lower case.
    pub open spec fn spec_name(self) -> Seq<char> {
        match self {
            Endpoint::Command => "command"@,
            Endpoint::Firmware => "firmware"@,
            Endpoint::Rx => "rx"@,
            Endpoint::RxAccel => "rxaccel"@,
            Endpoint::RxBLEBattery => "rxblebattery"@,
            Endpoint::RxBLEModel => "rxblemodel"@,
            Endpoint::RxPressure => "rxpressure"@,
            Endpoint::RxTouch => "rxtouch"@,
            Endpoint::Tx => "tx"@,
            Endpoint::TxMode => "txmode"@,
            Endpoint::TxShock => "txshock"@,
            Endpoint::TxVibrate => "txvibrate"@,
            Endpoint::TxVendorControl => "txvendorcontrol"@,
            Endpoint::Whitelist => "whitelist"@,
            Endpoint::Generic0 => "generic0"@,
            Endpoint::Generic1 => "generic1"@,
            Endpoint::Generic2 => "generic2"@,
            Endpoint::Generic3 => "generic3"@,
            Endpoint::Generic4 => "generic4"@,
            Endpoint::Generic5 => "generic5"@,
            Endpoint::Generic6 => "generic6"@,
            Endpoint::Generic7 => "generic7"@,
            Endpoint::Generic8 => "generic8"@,
            Endpoint::Generic9 => "generic9"@,
            Endpoint::Generic10 => "generic10"@,
            Endpoint::Generic11 => "generic11"@,
            Endpoint::Generic12 => "generic12"@,
            Endpoint::Generic13 => "generic13"@,
            Endpoint::Generic14 => "generic14"@,
            Endpoint::Generic15 => "generic15"@,
            Endpoint::Generic16 => "generic16"@,
            Endpoint::Generic17 => "generic17"@,
            Endpoint::Generic18 => "generic18"@,
            Endpoint::Generic19 => "generic19"@,
            Endpoint::Generic20 => "generic20"@,
            Endpoint::Generic21 => "generic21"@,
            Endpoint::Generic22 => "generic22"@,
            Endpoint::Generic23 => "generic23"@,
            Endpoint::Generic24 => "generic24"@,
            Endpoint::Generic25 => "generic25"@,
            Endpoint::Generic26 => "generic26"@,
            Endpoint::Generic27 => "generic27"@,
            Endpoint::Generic28 => "generic28"@,
            Endpoint::Generic29 => "generic29"@,
            Endpoint::Generic30 => "generic30"@,
            Endpoint::Generic31 => "generic31"@,
        }
    }

    /// Returns the text this endpoint is written as.
    pub fn to_string(&self) -> (r: String)
        ensures
            r@ == self.spec_name(),
    {
        let text = match self {
            Endpoint::Command => "command",
            Endpoint::Firmware => "firmware",
            Endpoint::Rx => "rx",
            Endpoint::RxAccel => "rxaccel",
            Endpoint::RxBLEBattery => "rxblebattery",
            Endpoint::RxBLEModel => "rxblemodel",
            Endpoint::RxPressure => "rxpressure",
            Endpoint::RxTouch => "rxtouch",
            Endpoint::Tx => "tx",
            Endpoint::TxMode => "txmode",
            Endpoint::TxShock => "txshock",
            Endpoint::TxVibrate => "txvibrate",
            Endpoint::TxVendorControl => "txvendorcontrol",
            Endpoint::Whitelist => "whitelist",
            Endpoint::Generic0 => "generic0",
            Endpoint::Generic1 => "generic1",
            Endpoint::Generic2 => "generic2",
            Endpoint::Generic3 => "generic3",
            Endpoint::Generic4 => "generic4",
            Endpoint::Generic5 => "generic5",
            Endpoint::Generic6 => "generic6",
            Endpoint::Generic7 => "generic7",
            Endpoint::Generic8 => "generic8",
            Endpoint::Generic9 => "generic9",
            Endpoint::Generic10 => "generic10",
            Endpoint::Generic11 => "generic11",
            Endpoint::Generic12 => "generic12",
            Endpoint::Generic13 => "generic13",
            Endpoint::Generic14 => "generic14",
            Endpoint::Generic15 => "generic15",
            Endpoint::Generic16 => "generic16",
            Endpoint::Generic17 => "generic17",
            Endpoint::Generic18 => "generic18",
            Endpoint::Generic19 => "generic19",
            Endpoint::Generic20 => "generic20",
            Endpoint::Generic21 => "generic21",
            Endpoint::Generic22 => "generic22",
            Endpoint::Generic23 => "generic23",
            Endpoint::Generic24 => "generic24",
            Endpoint::Generic25 => "generic25",
            Endpoint::Generic26 => "generic26",
            Endpoint::Generic27 => "generic27",
            Endpoint::Generic28 => "generic28",
            Endpoint::Generic29 => "generic29",
            Endpoint::Generic30 => "generic30",
            Endpoint::Generic31 => "generic31",
        };
        String::from_str(text)
    }

    /// The endpoint that a text names, if it names one.
    pub open spec fn spec_from_name(name: Seq<char>) -> Option<Endpoint> {
        if name == "command"@ {
            Some(Endpoint::Command)
        } else if name == "firmware"@ {
            Some(Endpoint::Firmware)
        } else if name == "rx"@ {
            Some(Endpoint::Rx)
        } else if name == "rxaccel"@ {
            Some(Endpoint::RxAccel)
        } else if name == "rxblebattery"@ {
            Some(Endpoint::RxBLEBattery)
        } else if name == "rxblemodel"@ {
            Some(Endpoint::RxBLEModel)
        } else if name == "rxpressure"@ {
            Some(Endpoint::RxPressure)
        } else if name == "rxtouch"@ {
            Some(Endpoint::RxTouch)
        } else if name == "tx"@ {
            Some(Endpoint::Tx)
        } else if name == "txmode"@ {
            Some(Endpoint::TxMode)
        } else if name == "txshock"@ {
            Some(Endpoint::TxShock)
        } else if name == "txvibrate"@ {
            Some(Endpoint::TxVibrate)
        } else if name == "txvendorcontrol"@ {
            Some(Endpoint::TxVendorControl)
        } else if name == "whitelist"@ {
            Some(Endpoint::Whitelist)
        } else if name == "generic0"@ {
            Some(Endpoint::Generic0)
        } else if name == "generic1"@ {
            Some(Endpoint::Generic1)
        } else if name == "generic2"@ {
            Some(Endpoint::Generic2)
        } else if name == "generic3"@ {
            Some(Endpoint::Generic3)
        } else if name == "generic4"@ {
            Some(Endpoint::Generic4)
        } else if name == "generic5"@ {
            Some(Endpoint::Generic5)
        } else if name == "generic6"@ {
            Some(Endpoint::Generic6)
        } else if name == "generic7"@ {
            Some(Endpoint::Generic7)
        } else if name == "generic8"@ {
            Some(Endpoint::Generic8)
        } else if name == "generic9"@ {
            Some(Endpoint::Generic9)
        } else if name == "generic10"@ {
            Some(Endpoint::Generic10)
        } else if name == "generic11"@ {
            Some(Endpoint::Generic11)
        } else if name == "generic12"@ {
            Some(Endpoint::Generic12)
        } else if name == "generic13"@ {
            Some(Endpoint::Generic13)
        } else if name == "generic14"@ {
            Some(Endpoint::Generic14)
        } else if name == "generic15"@ {
            Some(Endpoint::Generic15)
        } else if name == "generic16"@ {
            Some(Endpoint::Generic16)
        } else if name == "generic17"@ {
            Some(Endpoint::Generic17)
        } else if name == "generic18"@ {
            Some(Endpoint::Generic18)
        } else if name == "generic19"@ {
            Some(Endpoint::Generic19)
        } else if name == "generic20"@ {
            Some(Endpoint::Generic20)
        } else if name == "generic21"@ {
            Some(Endpoint::Generic21)
        } else if name == "generic22"@ {
            Some(Endpoint::Generic22)
        } else if name == "generic23"@ {
            Some(Endpoint::Generic23)
        } else if name == "generic24"@ {
            Some(Endpoint::Generic24)
        } else if name == "generic25"@ {
            Some(Endpoint::Generic25)
        } else if name == "generic26"@ {
            Some(Endpoint::Generic26)
        } else if name == "generic27"@ {
            Some(Endpoint::Generic27)
        } else if name == "generic28"@ {
            Some(Endpoint::Generic28)
        } else if name == "generic29"@ {
            Some(Endpoint::Generic29)
        } else if name == "generic30"@ {
            Some(Endpoint::Generic30)
        } else if name == "generic31"@ {
            Some(Endpoint::Generic31)
        } else {
            None
        }
    }

    /// Reads an endpoint from its text. Only the exact lower-case names are
    /// taken.
    pub fn from_str(value: &str) -> (r: Option<Endpoint>)
        ensures
            r == Self::spec_from_name(value@),
    {
        let name = String::from_str(value);
        if name == String::from_str("command") {
            Some(Endpoint::Command)
        } else if name == String::from_str("firmware") {
            Some(Endpoint::Firmware)
        } else if name == String::from_str("rx") {
            Some(Endpoint::Rx)
        } else if name == String::from_str("rxaccel") {
            Some(Endpoint::RxAccel)
        } else if name == String::from_str("rxblebattery") {
            Some(Endpoint::RxBLEBattery)
        } else if name == String::from_str("rxblemodel") {
            Some(Endpoint::RxBLEModel)
        } else if name == String::from_str("rxpressure") {
            Some(Endpoint::RxPressure)
        } else if name == String::from_str("rxtouch") {
            Some(Endpoint::RxTouch)
        } else if name == String::from_str("tx") {
            Some(Endpoint::Tx)
        } else if name == String::from_str("txmode") {
            Some(Endpoint::TxMode)
        } else if name == String::from_str("txshock") {
            Some(Endpoint::TxShock)
        } else if name == String::from_str("txvibrate") {
            Some(Endpoint::TxVibrate)
        } else if name == String::from_str("txvendorcontrol") {
            Some(Endpoint::TxVendorControl)
        } else if name == String::from_str("whitelist") {
            Some(Endpoint::Whitelist)
        } else if name == String::from_str("generic0") {
            Some(Endpoint::Generic0)
        } else if name == String::from_str("generic1") {
            Some(Endpoint::Generic1)
        } else if name == String::from_str("generic2") {
            Some(Endpoint::Generic2)
        } else if name == String::from_str("generic3") {
            Some(Endpoint::Generic3)
        } else if name == String::from_str("generic4") {
            Some(Endpoint::Generic4)
        } else if name == String::from_str("generic5") {
            Some(Endpoint::Generic5)
        } else if name == String::from_str("generic6") {
            Some(Endpoint::Generic6)
        } else if name == String::from_str("generic7") {
            Some(Endpoint::Generic7)
        } else if name == String::from_str("generic8") {
            Some(Endpoint::Generic8)
        } else if name == String::from_str("generic9") {
            Some(Endpoint::Generic9)
        } else if name == String::from_str("generic10") {
            Some(Endpoint::Generic10)
        } else if name == String::from_str("generic11") {
            Some(Endpoint::Generic11)
        } else if name == String::from_str("generic12") {
            Some(Endpoint::Generic12)
        } else if name == String::from_str("generic13") {
            Some(Endpoint::Generic13)
        } else if name == String::from_str("generic14") {
            Some(Endpoint::Generic14)
        } else if name == String::from_str("generic15") {
            Some(Endpoint::Generic15)
        } else if name == String::from_str("generic16") {
            Some(Endpoint::Generic16)
        } else if name == String::from_str("generic17") {
            Some(Endpoint::Generic17)
        } else if name == String::from_str("generic18") {
            Some(Endpoint::Generic18)
        } else if name == String::from_str("generic19") {
            Some(Endpoint::Generic19)
        } else if name == String::from_str("generic20") {
            Some(Endpoint::Generic20)
        } else if name == String::from_str("generic21") {
            Some(Endpoint::Generic21)
        } else if name == String::from_str("generic22") {
            Some(Endpoint::Generic22)
        } else if name == String::from_str("generic23") {
            Some(Endpoint::Generic23)
        } else if name == String::from_str("generic24") {
            Some(Endpoint::Generic24)
        } else if name == String::from_str("generic25") {
            Some(Endpoint::Generic25)
        } else if name == String::from_str("generic26") {
            Some(Endpoint::Generic26)
        } else if name == String::from_str("generic27") {
            Some(Endpoint::Generic27)
        } else if name == String::from_str("generic28") {
            Some(Endpoint::Generic28)
        } else if name == String::from_str("generic29") {
            Some(Endpoint::Generic29)
        } else if name == String::from_str("generic30") {
            Some(Endpoint::Generic30)
        } else if name == String::from_str("generic31") {
            Some(Endpoint::Generic31)
        } else {
            None
        }
    }

    /// Writing an endpoint and reading the text gives the endpoint back.
    pub proof fn lemma_name_round_trip(endpoint: Endpoint)
        ensures
            Self::spec_from_name(endpoint.spec_name()) == Some(endpoint),
    {
        Self::lemma_names_spelled_out();
    }

    /// Spells every name out letter by letter, which is what tells two names
    /// of one length apart.
    proof fn lemma_names_spelled_out()
        ensures
            "command"@.len() == 7,
            "command"@[0] == 'c',
            "command"@[1] == 'o',
            "command"@[2] == 'm',
            "command"@[3] == 'm',
            "command"@[4] == 'a',
            "command"@[5] == 'n',
            "command"@[6] == 'd',
            "firmware"@.len() == 8,
            "firmware"@[0] == 'f',
            "firmware"@[1] == 'i',
            "firmware"@[2] == 'r',
            "firmware"@[3] == 'm',
            "firmware"@[4] == 'w',
            "firmware"@[5] == 'a',
            "firmware"@[6] == 'r',
            "firmware"@[7] == 'e',
            "rx"@.len() == 2,
            "rx"@[0] == 'r',
            "rx"@[1] == 'x',
            "rxaccel"@.len() == 7,
            "rxaccel"@[0] == 'r',
            "rxaccel"@[1] == 'x',
            "rxaccel"@[2] == 'a',
            "rxaccel"@[3] == 'c',
            "rxaccel"@[4] == 'c',
            "rxaccel"@[5] == 'e',
            "rxaccel"@[6] == 'l',
            "rxblebattery"@.len() == 12,
            "rxblebattery"@[0] == 'r',
            "rxblebattery"@[1] == 'x',
            "rxblebattery"@[2] == 'b',
            "rxblebattery"@[3] == 'l',
            "rxblebattery"@[4] == 'e',
            "rxblebattery"@[5] == 'b',
            "rxblebattery"@[6] == 'a',
            "rxblebattery"@[7] == 't',
            "rxblebattery"@[8] == 't',
            "rxblebattery"@[9] == 'e',
            "rxblebattery"@[10] == 'r',
            "rxblebattery"@[11] == 'y',
            "rxblemodel"@.len() == 10,
            "rxblemodel"@[0] == 'r',
            "rxblemodel"@[1] == 'x',
            "rxblemodel"@[2] == 'b',
            "rxblemodel"@[3] == 'l',
            "rxblemodel"@[4] == 'e',
            "rxblemodel"@[5] == 'm',
            "rxblemodel"@[6] == 'o',
            "rxblemodel"@[7] == 'd',
            "rxblemodel"@[8] == 'e',
            "rxblemodel"@[9] == 'l',
            "rxpressure"@.len() == 10,
            "rxpressure"@[0] == 'r',
            "rxpressure"@[1] == 'x',
            "rxpressure"@[2] == 'p',
            "rxpressure"@[3] == 'r',
            "rxpressure"@[4] == 'e',
            "rxpressure"@[5] == 's',
            "rxpressure"@[6] == 's',
            "rxpressure"@[7] == 'u',
            "rxpressure"@[8] == 'r',
            "rxpressure"@[9] == 'e',
            "rxtouch"@.len() == 7,
            "rxtouch"@[0] == 'r',
            "rxtouch"@[1] == 'x',
            "rxtouch"@[2] == 't',
            "rxtouch"@[3] == 'o',
            "rxtouch"@[4] == 'u',
            "rxtouch"@[5] == 'c',
            "rxtouch"@[6] == 'h',
            "tx"@.len() == 2,
            "tx"@[0] == 't',
            "tx"@[1] == 'x',
            "txmode"@.len() == 6,
            "txmode"@[0] == 't',
            "txmode"@[1] == 'x',
            "txmode"@[2] == 'm',
            "txmode"@[3] == 'o',
            "txmode"@[4] == 'd',
            "txmode"@[5] == 'e',
            "txshock"@.len() == 7,
            "txshock"@[0] == 't',
            "txshock"@[1] == 'x',
            "txshock"@[2] == 's',
            "txshock"@[3] == 'h',
            "txshock"@[4] == 'o',
            "txshock"@[5] == 'c',
            "txshock"@[6] == 'k',
            "txvibrate"@.len() == 9,
            "txvibrate"@[0] == 't',
            "txvibrate"@[1] == 'x',
            "txvibrate"@[2] == 'v',
            "txvibrate"@[3] == 'i',
            "txvibrate"@[4] == 'b',
            "txvibrate"@[5] == 'r',
            "txvibrate"@[6] == 'a',
            "txvibrate"@[7] == 't',
            "txvibrate"@[8] == 'e',
            "txvendorcontrol"@.len() == 15,
            "txvendorcontrol"@[0] == 't',
            "txvendorcontrol"@[1] == 'x',
            "txvendorcontrol"@[2] == 'v',
            "txvendorcontrol"@[3] == 'e',
            "txvendorcontrol"@[4] == 'n',
            "txvendorcontrol"@[5] == 'd',
            "txvendorcontrol"@[6] == 'o',
            "txvendorcontrol"@[7] == 'r',
            "txvendorcontrol"@[8] == 'c',
            "txvendorcontrol"@[9] == 'o',
            "txvendorcontrol"@[10] == 'n',
            "txvendorcontrol"@[11] == 't',
            "txvendorcontrol"@[12] == 'r',
            "txvendorcontrol"@[13] == 'o',
            "txvendorcontrol"@[14] == 'l',
            "whitelist"@.len() == 9,
            "whitelist"@[0] == 'w',
            "whitelist"@[1] == 'h',
            "whitelist"@[2] == 'i',
            "whitelist"@[3] == 't',
            "whitelist"@[4] == 'e',
            "whitelist"@[5] == 'l',
            "whitelist"@[6] == 'i',
            "whitelist"@[7] == 's',
            "whitelist"@[8] == 't',
            "generic0"@.len() == 8,
            "generic0"@[0] == 'g',
            "generic0"@[1] == 'e',
            "generic0"@[2] == 'n',
            "generic0"@[3] == 'e',
            "generic0"@[4] == 'r',
            "generic0"@[5] == 'i',
            "generic0"@[6] == 'c',
            "generic0"@[7] == '0',
            "generic1"@.len() == 8,
            "generic1"@[0] == 'g',
            "generic1"@[1] == 'e',
            "generic1"@[2] == 'n',
            "generic1"@[3] == 'e',
            "generic1"@[4] == 'r',
            "generic1"@[5] == 'i',
            "generic1"@[6] == 'c',
            "generic1"@[7] == '1',
            "generic2"@.len() == 8,
            "generic2"@[0] == 'g',
            "generic2"@[1] == 'e',
            "generic2"@[2] == 'n',
            "generic2"@[3] == 'e',
            "generic2"@[4] == 'r',
            "generic2"@[5] == 'i',
            "generic2"@[6] == 'c',
            "generic2"@[7] == '2',
            "generic3"@.len() == 8,
            "generic3"@[0] == 'g',
            "generic3"@[1] == 'e',
            "generic3"@[2] == 'n',
            "generic3"@[3] == 'e',
            "generic3"@[4] == 'r',
            "generic3"@[5] == 'i',
            "generic3"@[6] == 'c',
            "generic3"@[7] == '3',
            "generic4"@.len() == 8,
            "generic4"@[0] == 'g',
            "generic4"@[1] == 'e',
            "generic4"@[2] == 'n',
            "generic4"@[3] == 'e',
            "generic4"@[4] == 'r',
            "generic4"@[5] == 'i',
            "generic4"@[6] == 'c',
            "generic4"@[7] == '4',
            "generic5"@.len() == 8,
            "generic5"@[0] == 'g',
            "generic5"@[1] == 'e',
            "generic5"@[2] == 'n',
            "generic5"@[3] == 'e',
            "generic5"@[4] == 'r',
            "generic5"@[5] == 'i',
            "generic5"@[6] == 'c',
            "generic5"@[7] == '5',
            "generic6"@.len() == 8,
            "generic6"@[0] == 'g',
            "generic6"@[1] == 'e',
            "generic6"@[2] == 'n',
            "generic6"@[3] == 'e',
            "generic6"@[4] == 'r',
            "generic6"@[5] == 'i',
            "generic6"@[6] == 'c',
            "generic6"@[7] == '6',
            "generic7"@.len() == 8,
            "generic7"@[0] == 'g',
            "generic7"@[1] == 'e',
            "generic7"@[2] == 'n',
            "generic7"@[3] == 'e',
            "generic7"@[4] == 'r',
            "generic7"@[5] == 'i',
            "generic7"@[6] == 'c',
            "generic7"@[7] == '7',
            "generic8"@.len() == 8,
            "generic8"@[0] == 'g',
            "generic8"@[1] == 'e',
            "generic8"@[2] == 'n',
            "generic8"@[3] == 'e',
            "generic8"@[4] == 'r',
            "generic8"@[5] == 'i',
            "generic8"@[6] == 'c',
            "generic8"@[7] == '8',
            "generic9"@.len() == 8,
            "generic9"@[0] == 'g',
            "generic9"@[1] == 'e',
            "generic9"@[2] == 'n',
            "generic9"@[3] == 'e',
            "generic9"@[4] == 'r',
            "generic9"@[5] == 'i',
            "generic9"@[6] == 'c',
            "generic9"@[7] == '9',
            "generic10"@.len() == 9,
            "generic10"@[0] == 'g',
            "generic10"@[1] == 'e',
            "generic10"@[2] == 'n',
            "generic10"@[3] == 'e',
            "generic10"@[4] == 'r',
            "generic10"@[5] == 'i',
            "generic10"@[6] == 'c',
            "generic10"@[7] == '1',
            "generic10"@[8] == '0',
            "generic11"@.len() == 9,
            "generic11"@[0] == 'g',
            "generic11"@[1] == 'e',
            "generic11"@[2] == 'n',
            "generic11"@[3] == 'e',
            "generic11"@[4] == 'r',
            "generic11"@[5] == 'i',
            "generic11"@[6] == 'c',
            "generic11"@[7] == '1',
            "generic11"@[8] == '1',
            "generic12"@.len() == 9,
            "generic12"@[0] == 'g',
            "generic12"@[1] == 'e',
            "generic12"@[2] == 'n',
            "generic12"@[3] == 'e',
            "generic12"@[4] == 'r',
            "generic12"@[5] == 'i',
            "generic12"@[6] == 'c',
            "generic12"@[7] == '1',
            "generic12"@[8] == '2',
            "generic13"@.len() == 9,
            "generic13"@[0] == 'g',
            "generic13"@[1] == 'e',
            "generic13"@[2] == 'n',
            "generic13"@[3] == 'e',
            "generic13"@[4] == 'r',
            "generic13"@[5] == 'i',
            "generic13"@[6] == 'c',
            "generic13"@[7] == '1',
            "generic13"@[8] == '3',
            "generic14"@.len() == 9,
            "generic14"@[0] == 'g',
            "generic14"@[1] == 'e',
            "generic14"@[2] == 'n',
            "generic14"@[3] == 'e',
            "generic14"@[4] == 'r',
            "generic14"@[5] == 'i',
            "generic14"@[6] == 'c',
            "generic14"@[7] == '1',
            "generic14"@[8] == '4',
            "generic15"@.len() == 9,
            "generic15"@[0] == 'g',
            "generic15"@[1] == 'e',
            "generic15"@[2] == 'n',
            "generic15"@[3] == 'e',
            "generic15"@[4] == 'r',
            "generic15"@[5] == 'i',
            "generic15"@[6] == 'c',
            "generic15"@[7] == '1',
            "generic15"@[8] == '5',
            "generic16"@.len() == 9,
            "generic16"@[0] == 'g',
            "generic16"@[1] == 'e',
            "generic16"@[2] == 'n',
            "generic16"@[3] == 'e',
            "generic16"@[4] == 'r',
            "generic16"@[5] == 'i',
            "generic16"@[6] == 'c',
            "generic16"@[7] == '1',
            "generic16"@[8] == '6',
            "generic17"@.len() == 9,
            "generic17"@[0] == 'g',
            "generic17"@[1] == 'e',
            "generic17"@[2] == 'n',
            "generic17"@[3] == 'e',
            "generic17"@[4] == 'r',
            "generic17"@[5] == 'i',
            "generic17"@[6] == 'c',
            "generic17"@[7] == '1',
            "generic17"@[8] == '7',
            "generic18"@.len() == 9,
            "generic18"@[0] == 'g',
            "generic18"@[1] == 'e',
            "generic18"@[2] == 'n',
            "generic18"@[3] == 'e',
            "generic18"@[4] == 'r',
            "generic18"@[5] == 'i',
            "generic18"@[6] == 'c',
            "generic18"@[7] == '1',
            "generic18"@[8] == '8',
            "generic19"@.len() == 9,
            "generic19"@[0] == 'g',
            "generic19"@[1] == 'e',
            "generic19"@[2] == 'n',
            "generic19"@[3] == 'e',
            "generic19"@[4] == 'r',
            "generic19"@[5] == 'i',
            "generic19"@[6] == 'c',
            "generic19"@[7] == '1',
            "generic19"@[8] == '9',
            "generic20"@.len() == 9,
            "generic20"@[0] == 'g',
            "generic20"@[1] == 'e',
            "generic20"@[2] == 'n',
            "generic20"@[3] == 'e',
            "generic20"@[4] == 'r',
            "generic20"@[5] == 'i',
            "generic20"@[6] == 'c',
            "generic20"@[7] == '2',
            "generic20"@[8] == '0',
            "generic21"@.len() == 9,
            "generic21"@[0] == 'g',
            "generic21"@[1] == 'e',
            "generic21"@[2] == 'n',
            "generic21"@[3] == 'e',
            "generic21"@[4] == 'r',
            "generic21"@[5] == 'i',
            "generic21"@[6] == 'c',
            "generic21"@[7] == '2',
            "generic21"@[8] == '1',
            "generic22"@.len() == 9,
            "generic22"@[0] == 'g',
            "generic22"@[1] == 'e',
            "generic22"@[2] == 'n',
            "generic22"@[3] == 'e',
            "generic22"@[4] == 'r',
            "generic22"@[5] == 'i',
            "generic22"@[6] == 'c',
            "generic22"@[7] == '2',
            "generic22"@[8] == '2',
            "generic23"@.len() == 9,
            "generic23"@[0] == 'g',
            "generic23"@[1] == 'e',
            "generic23"@[2] == 'n',
            "generic23"@[3] == 'e',
            "generic23"@[4] == 'r',
            "generic23"@[5] == 'i',
            "generic23"@[6] == 'c',
            "generic23"@[7] == '2',
            "generic23"@[8] == '3',
            "generic24"@.len() == 9,
            "generic24"@[0] == 'g',
            "generic24"@[1] == 'e',
            "generic24"@[2] == 'n',
            "generic24"@[3] == 'e',
            "generic24"@[4] == 'r',
            "generic24"@[5] == 'i',
            "generic24"@[6] == 'c',
            "generic24"@[7] == '2',
            "generic24"@[8] == '4',
            "generic25"@.len() == 9,
            "generic25"@[0] == 'g',
            "generic25"@[1] == 'e',
            "generic25"@[2] == 'n',
            "generic25"@[3] == 'e',
            "generic25"@[4] == 'r',
            "generic25"@[5] == 'i',
            "generic25"@[6] == 'c',
            "generic25"@[7] == '2',
            "generic25"@[8] == '5',
            "generic26"@.len() == 9,
            "generic26"@[0] == 'g',
            "generic26"@[1] == 'e',
            "generic26"@[2] == 'n',
            "generic26"@[3] == 'e',
            "generic26"@[4] == 'r',
            "generic26"@[5] == 'i',
            "generic26"@[6] == 'c',
            "generic26"@[7] == '2',
            "generic26"@[8] == '6',
            "generic27"@.len() == 9,
            "generic27"@[0] == 'g',
            "generic27"@[1] == 'e',
            "generic27"@[2] == 'n',
            "generic27"@[3] == 'e',
            "generic27"@[4] == 'r',
            "generic27"@[5] == 'i',
            "generic27"@[6] == 'c',
            "generic27"@[7] == '2',
            "generic27"@[8] == '7',
            "generic28"@.len() == 9,
            "generic28"@[0] == 'g',
            "generic28"@[1] == 'e',
            "generic28"@[2] == 'n',
            "generic28"@[3] == 'e',
            "generic28"@[4] == 'r',
            "generic28"@[5] == 'i',
            "generic28"@[6] == 'c',
            "generic28"@[7] == '2',
            "generic28"@[8] == '8',
            "generic29"@.len() == 9,
            "generic29"@[0] == 'g',
            "generic29"@[1] == 'e',
            "generic29"@[2] == 'n',
            "generic29"@[3] == 'e',
            "generic29"@[4] == 'r',
            "generic29"@[5] == 'i',
            "generic29"@[6] == 'c',
            "generic29"@[7] == '2',
            "generic29"@[8] == '9',
            "generic30"@.len() == 9,
            "generic30"@[0] == 'g',
            "generic30"@[1] == 'e',
            "generic30"@[2] == 'n',
            "generic30"@[3] == 'e',
            "generic30"@[4] == 'r',
            "generic30"@[5] == 'i',
            "generic30"@[6] == 'c',
            "generic30"@[7] == '3',
            "generic30"@[8] == '0',
            "generic31"@.len() == 9,
            "generic31"@[0] == 'g',
            "generic31"@[1] == 'e',
            "generic31"@[2] == 'n',
            "generic31"@[3] == 'e',
            "generic31"@[4] == 'r',
            "generic31"@[5] == 'i',
            "generic31"@[6] == 'c',
            "generic31"@[7] == '3',
            "generic31"@[8] == '1',
    {
        reveal_strlit("command");
        reveal_strlit("firmware");
        reveal_strlit("rx");
        reveal_strlit("rxaccel");
        reveal_strlit("rxblebattery");
        reveal_strlit("rxblemodel");
        reveal_strlit("rxpressure");
        reveal_strlit("rxtouch");
        reveal_strlit("tx");
        reveal_strlit("txmode");
        reveal_strlit("txshock");
        reveal_strlit("txvibrate");
        reveal_strlit("txvendorcontrol");
        reveal_strlit("whitelist");
        reveal_strlit("generic0");
        reveal_strlit("generic1");
        reveal_strlit("generic2");
        reveal_strlit("generic3");
        reveal_strlit("generic4");
        reveal_strlit("generic5");
        reveal_strlit("generic6");
        reveal_strlit("generic7");
        reveal_strlit("generic8");
        reveal_strlit("generic9");
        reveal_strlit("generic10");
        reveal_strlit("generic11");
        reveal_strlit("generic12");
        reveal_strlit("generic13");
        reveal_strlit("generic14");
        reveal_strlit("generic15");
        reveal_strlit("generic16");
        reveal_strlit("generic17");
        reveal_strlit("generic18");
        reveal_strlit("generic19");
        reveal_strlit("generic20");
        reveal_strlit("generic21");
        reveal_strlit("generic22");
        reveal_strlit("generic23");
        reveal_strlit("generic24");
        reveal_strlit("generic25");
        reveal_strlit("generic26");
        reveal_strlit("generic27");
        reveal_strlit("generic28");
        reveal_strlit("generic29");
        reveal_strlit("generic30");
        reveal_strlit("generic31");
    }

    /// A text that reads as an endpoint is that endpoint's own text.
    pub proof fn lemma_from_name_is_name(name: Seq<char>)
        ensures
            Self::spec_from_name(name) matches Some(endpoint) ==> endpoint.spec_name() == name,
    {
    }
}

} // verus!
