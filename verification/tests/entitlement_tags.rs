use bundlekit::entitlements::EntitlementType;

fn vocabulary() -> Vec<(EntitlementType, &'static str)> {
    vec![
        (EntitlementType::Camera, "camera"),
        (EntitlementType::Microphone, "microphone"),
        (EntitlementType::Location, "location"),
        (EntitlementType::Photos, "photos"),
        (EntitlementType::Files, "files"),
        (EntitlementType::Clipboard, "clipboard"),
        (EntitlementType::ScreenRecording, "screenrecording"),
        (EntitlementType::Accelerometer, "accelerometer"),
        (EntitlementType::Gyroscope, "gyroscope"),
        (EntitlementType::Magnetometer, "magnetometer"),
        (EntitlementType::Barometer, "barometer"),
        (EntitlementType::ProximitySensor, "proximitysensor"),
        (EntitlementType::AmbientLightSensor, "ambientlightsensor"),
        (EntitlementType::TemperatureSensor, "temperaturesensor"),
        (EntitlementType::HumiditySensor, "humiditysensor"),
        (EntitlementType::HeartRateSensor, "heartratesensor"),
        (EntitlementType::Firewall, "firewall"),
        (EntitlementType::Network, "network"),
        (EntitlementType::Bluetooth, "bluetooth"),
        (EntitlementType::Usb, "usb"),
        (EntitlementType::Nfc, "nfc"),
        (EntitlementType::VirtualMachine, "virtualmachine"),
        (EntitlementType::Container, "container"),
        (EntitlementType::VirtualFileSystem, "virtualfilesystem"),
        (EntitlementType::Notification, "notification"),
        (EntitlementType::PythonIO, "pythonio"),
        (EntitlementType::BashIO, "bashio"),
        (EntitlementType::WineEngine, "wineengine"),
        (EntitlementType::SystemServices, "systemservices"),
        (EntitlementType::VpnHost, "vpnhost"),
        (EntitlementType::VpnClient, "vpnclient"),
        (EntitlementType::CryptoStore, "cryptostore"),
        (EntitlementType::WalletRead, "walletread"),
        (EntitlementType::WalletWrite, "walletwrite"),
        (EntitlementType::ChainRead, "chainread"),
        (EntitlementType::ChainSync, "chainsync"),
        (EntitlementType::P2PNetwork, "p2pnetwork"),
        (EntitlementType::MempoolAccess, "mempoolaccess"),
        (EntitlementType::LightningChannels, "lightningchannels"),
        (EntitlementType::LightningPay, "lightningpay"),
        (EntitlementType::LightningInfo, "lightninginfo"),
        (EntitlementType::KeySeedExport, "keyseedexport"),
        (EntitlementType::HardwareWalletAccess, "hardwarewalletaccess"),
        (EntitlementType::HardwareWalletRead, "hardwarewalletread"),
        (EntitlementType::HardwareWalletSign, "hardwarewalletsign"),
        (EntitlementType::DeviceAdmin, "deviceadmin"),
        (EntitlementType::RemoteWipe, "remotewipe"),
        (EntitlementType::RemoteConfig, "remoteconfig"),
        (EntitlementType::AppInstall, "appinstall"),
        (EntitlementType::EnterpriseVpn, "enterprisevpn"),
        (EntitlementType::NetworkPolicyControl, "networkpolicycontrol"),
        (EntitlementType::EnterpriseSSO, "enterprisesso"),
        (EntitlementType::CertificateStore, "certificatestore"),
        (EntitlementType::BiometricAdmin, "biometricadmin"),
        (EntitlementType::DlpControl, "dlpcontrol"),
        (EntitlementType::SecureClipboard, "secureclipboard"),
        (EntitlementType::AuditLogAccess, "auditlogaccess"),
        (EntitlementType::UsageStats, "usagestats"),
        (EntitlementType::SelfUpdate, "selfupdate"),
        (EntitlementType::RemoteSupport, "remotesupport"),
        (EntitlementType::GpioAccess, "gpioaccess"),
        (EntitlementType::I2cAccess, "i2caccess"),
        (EntitlementType::SpiAccess, "spiaccess"),
        (EntitlementType::UartAccess, "uartaccess"),
        (EntitlementType::PwmAccess, "pwmaccess"),
        (EntitlementType::OneWireAccess, "onewireaccess"),
        (EntitlementType::CanBusAccess, "canbusaccess"),
        (EntitlementType::AdcAccess, "adcaccess"),
        (EntitlementType::DisplayAccess, "displayaccess"),
        (EntitlementType::PiCameraModule, "picameramodule"),
        (EntitlementType::BoardTemperatureAccess, "boardtemperatureaccess"),
        (EntitlementType::BoardLedAccess, "boardledaccess"),
    ]
}

#[test]
fn encode_yields_the_canonical_tag() {
    for (e, tag) in vocabulary() {
        assert_eq!(e.as_str(), tag);
    }
}

#[test]
fn round_trip_holds_for_every_vocabulary_entry() {
    for (e, _) in vocabulary() {
        let decoded = EntitlementType::from_tag(e.as_str()).expect("canonical tag decodes");
        assert_eq!(decoded, e);
    }
}

#[test]
fn camera_decodes_and_encodes_exactly() {
    assert_eq!(
        EntitlementType::from_tag("camera").unwrap(),
        EntitlementType::Camera
    );
    assert_eq!(EntitlementType::Camera.as_str(), "camera");
}

#[test]
fn unknown_tag_is_rejected_with_the_offending_tag() {
    let err = EntitlementType::from_tag("not_a_real_tag").unwrap_err();
    assert_eq!(err, "unknown permission type: not_a_real_tag");
}

#[test]
fn near_miss_tags_are_rejected() {
    assert!(EntitlementType::from_tag("Camera").is_err());
    assert!(EntitlementType::from_tag("camera ").is_err());
    assert!(EntitlementType::from_tag("").is_err());
}
