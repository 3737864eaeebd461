use buttplug::device::Endpoint;

#[test]
fn endpoint_names_are_lower_case() {
    assert_eq!(Endpoint::Tx.to_string(), "tx");
    assert_eq!(Endpoint::RxAccel.to_string(), "rxaccel");
    assert_eq!(Endpoint::Generic0.to_string(), "generic0");
    assert_eq!(Endpoint::RxBLEBattery.to_string(), "rxblebattery");
}

#[test]
fn endpoint_reads_back_from_its_name() {
    assert_eq!(Endpoint::from_str("tx"), Some(Endpoint::Tx));
    assert_eq!(Endpoint::from_str("generic31"), Some(Endpoint::Generic31));
    assert_eq!(Endpoint::from_str("Tx"), None);
    assert_eq!(Endpoint::from_str("generic32"), None);
}

#[test]
fn every_endpoint_reads_back_from_its_own_name() {
    let mut endpoints = vec![
        Endpoint::Command,
        Endpoint::Firmware,
        Endpoint::Rx,
        Endpoint::RxAccel,
        Endpoint::RxBLEBattery,
        Endpoint::RxBLEModel,
        Endpoint::RxPressure,
        Endpoint::RxTouch,
        Endpoint::Tx,
        Endpoint::TxMode,
        Endpoint::TxShock,
        Endpoint::TxVibrate,
        Endpoint::TxVendorControl,
        Endpoint::Whitelist,
    ];
    for number in 0..32 {
        let generic = Endpoint::from_str(&format!("generic{number}"));
        assert!(generic.is_some(), "generic{number}");
        endpoints.push(generic.unwrap());
    }
    assert_eq!(endpoints.len(), 46);
    for (i, endpoint) in endpoints.iter().enumerate() {
        let name = endpoint.to_string();
        assert_eq!(name, name.to_lowercase());
        assert_eq!(Endpoint::from_str(&name), Some(*endpoint));
        for other in &endpoints[..i] {
            assert_ne!(other.to_string(), name);
        }
    }
    assert_eq!(Endpoint::TxVendorControl.to_string(), "txvendorcontrol");
    assert_eq!(Endpoint::Whitelist.to_string(), "whitelist");
}
