use vstd::prelude::*;
use vstd::string::StringExecFns;
use crate::text::str_eq;

verus! {

/// The closed vocabulary of permission tags a bundle may declare.
///
/// Each variant has exactly one canonical lowercase string tag; encoding is
/// total, decoding rejects any tag outside the vocabulary.
#[derive(Debug, Clone, Copy, PartialEq, Eq, Structural)]
pub enum EntitlementType {
    Camera,
    Microphone,
    Location,
    Photos,
    Files,
    Clipboard,
    ScreenRecording,
    Accelerometer,
    Gyroscope,
    Magnetometer,
    Barometer,
    ProximitySensor,
    AmbientLightSensor,
    TemperatureSensor,
    HumiditySensor,
    HeartRateSensor,
    Firewall,
    Network,
    Bluetooth,
    Usb,
    Nfc,
    VirtualMachine,
    Container,
    VirtualFileSystem,
    Notification,
    PythonIO,
    BashIO,
    WineEngine,
    SystemServices,
    VpnHost,
    VpnClient,
    CryptoStore,
    WalletRead,
    WalletWrite,
    ChainRead,
    ChainSync,
    P2PNetwork,
    MempoolAccess,
    LightningChannels,
    LightningPay,
    LightningInfo,
    KeySeedExport,
    HardwareWalletAccess,
    HardwareWalletRead,
    HardwareWalletSign,
    DeviceAdmin,
    RemoteWipe,
    RemoteConfig,
    AppInstall,
    EnterpriseVpn,
    NetworkPolicyControl,
    EnterpriseSSO,
    CertificateStore,
    BiometricAdmin,
    DlpControl,
    SecureClipboard,
    AuditLogAccess,
    UsageStats,
    SelfUpdate,
    RemoteSupport,
    GpioAccess,
    I2cAccess,
    SpiAccess,
    UartAccess,
    PwmAccess,
    OneWireAccess,
    CanBusAccess,
    AdcAccess,
    DisplayAccess,
    PiCameraModule,
    BoardTemperatureAccess,
    BoardLedAccess,
}

impl EntitlementType {
    /// The canonical lowercase tag of this entitlement.
    pub open spec fn spec_tag(&self) -> Seq<char> {
        match *self {
            EntitlementType::Camera => "camera"@,
            EntitlementType::Microphone => "microphone"@,
            EntitlementType::Location => "location"@,
            EntitlementType::Photos => "photos"@,
            EntitlementType::Files => "files"@,
            EntitlementType::Clipboard => "clipboard"@,
            EntitlementType::ScreenRecording => "screenrecording"@,
            EntitlementType::Accelerometer => "accelerometer"@,
            EntitlementType::Gyroscope => "gyroscope"@,
            EntitlementType::Magnetometer => "magnetometer"@,
            EntitlementType::Barometer => "barometer"@,
            EntitlementType::ProximitySensor => "proximitysensor"@,
            EntitlementType::AmbientLightSensor => "ambientlightsensor"@,
            EntitlementType::TemperatureSensor => "temperaturesensor"@,
            EntitlementType::HumiditySensor => "humiditysensor"@,
            EntitlementType::HeartRateSensor => "heartratesensor"@,
            EntitlementType::Firewall => "firewall"@,
            EntitlementType::Network => "network"@,
            EntitlementType::Bluetooth => "bluetooth"@,
            EntitlementType::Usb => "usb"@,
            EntitlementType::Nfc => "nfc"@,
            EntitlementType::VirtualMachine => "virtualmachine"@,
            EntitlementType::Container => "container"@,
            EntitlementType::VirtualFileSystem => "virtualfilesystem"@,
            EntitlementType::Notification => "notification"@,
            EntitlementType::PythonIO => "pythonio"@,
            EntitlementType::BashIO => "bashio"@,
            EntitlementType::WineEngine => "wineengine"@,
            EntitlementType::SystemServices => "systemservices"@,
            EntitlementType::VpnHost => "vpnhost"@,
            EntitlementType::VpnClient => "vpnclient"@,
            EntitlementType::CryptoStore => "cryptostore"@,
            EntitlementType::WalletRead => "walletread"@,
            EntitlementType::WalletWrite => "walletwrite"@,
            EntitlementType::ChainRead => "chainread"@,
            EntitlementType::ChainSync => "chainsync"@,
            EntitlementType::P2PNetwork => "p2pnetwork"@,
            EntitlementType::MempoolAccess => "mempoolaccess"@,
            EntitlementType::LightningChannels => "lightningchannels"@,
            EntitlementType::LightningPay => "lightningpay"@,
            EntitlementType::LightningInfo => "lightninginfo"@,
            EntitlementType::KeySeedExport => "keyseedexport"@,
            EntitlementType::HardwareWalletAccess => "hardwarewalletaccess"@,
            EntitlementType::HardwareWalletRead => "hardwarewalletread"@,
            EntitlementType::HardwareWalletSign => "hardwarewalletsign"@,
            EntitlementType::DeviceAdmin => "deviceadmin"@,
            EntitlementType::RemoteWipe => "remotewipe"@,
            EntitlementType::RemoteConfig => "remoteconfig"@,
            EntitlementType::AppInstall => "appinstall"@,
            EntitlementType::EnterpriseVpn => "enterprisevpn"@,
            EntitlementType::NetworkPolicyControl => "networkpolicycontrol"@,
            EntitlementType::EnterpriseSSO => "enterprisesso"@,
            EntitlementType::CertificateStore => "certificatestore"@,
            EntitlementType::BiometricAdmin => "biometricadmin"@,
            EntitlementType::DlpControl => "dlpcontrol"@,
            EntitlementType::SecureClipboard => "secureclipboard"@,
            EntitlementType::AuditLogAccess => "auditlogaccess"@,
            EntitlementType::UsageStats => "usagestats"@,
            EntitlementType::SelfUpdate => "selfupdate"@,
            EntitlementType::RemoteSupport => "remotesupport"@,
            EntitlementType::GpioAccess => "gpioaccess"@,
            EntitlementType::I2cAccess => "i2caccess"@,
            EntitlementType::SpiAccess => "spiaccess"@,
            EntitlementType::UartAccess => "uartaccess"@,
            EntitlementType::PwmAccess => "pwmaccess"@,
            EntitlementType::OneWireAccess => "onewireaccess"@,
            EntitlementType::CanBusAccess => "canbusaccess"@,
            EntitlementType::AdcAccess => "adcaccess"@,
            EntitlementType::DisplayAccess => "displayaccess"@,
            EntitlementType::PiCameraModule => "picameramodule"@,
            EntitlementType::BoardTemperatureAccess => "boardtemperatureaccess"@,
            EntitlementType::BoardLedAccess => "boardledaccess"@,
        }
    }

    /// Encodes this entitlement as its canonical lowercase tag.
    pub fn as_str(&self) -> (r: &'static str)
        ensures
            r@ == self.spec_tag(),
    {
        match *self {
            EntitlementType::Camera => "camera",
            EntitlementType::Microphone => "microphone",
            EntitlementType::Location => "location",
            EntitlementType::Photos => "photos",
            EntitlementType::Files => "files",
            EntitlementType::Clipboard => "clipboard",
            EntitlementType::ScreenRecording => "screenrecording",
            EntitlementType::Accelerometer => "accelerometer",
            EntitlementType::Gyroscope => "gyroscope",
            EntitlementType::Magnetometer => "magnetometer",
            EntitlementType::Barometer => "barometer",
            EntitlementType::ProximitySensor => "proximitysensor",
            EntitlementType::AmbientLightSensor => "ambientlightsensor",
            EntitlementType::TemperatureSensor => "temperaturesensor",
            EntitlementType::HumiditySensor => "humiditysensor",
            EntitlementType::HeartRateSensor => "heartratesensor",
            EntitlementType::Firewall => "firewall",
            EntitlementType::Network => "network",
            EntitlementType::Bluetooth => "bluetooth",
            EntitlementType::Usb => "usb",
            EntitlementType::Nfc => "nfc",
            EntitlementType::VirtualMachine => "virtualmachine",
            EntitlementType::Container => "container",
            EntitlementType::VirtualFileSystem => "virtualfilesystem",
            EntitlementType::Notification => "notification",
            EntitlementType::PythonIO => "pythonio",
            EntitlementType::BashIO => "bashio",
            EntitlementType::WineEngine => "wineengine",
            EntitlementType::SystemServices => "systemservices",
            EntitlementType::VpnHost => "vpnhost",
            EntitlementType::VpnClient => "vpnclient",
            EntitlementType::CryptoStore => "cryptostore",
            EntitlementType::WalletRead => "walletread",
            EntitlementType::WalletWrite => "walletwrite",
            EntitlementType::ChainRead => "chainread",
            EntitlementType::ChainSync => "chainsync",
            EntitlementType::P2PNetwork => "p2pnetwork",
            EntitlementType::MempoolAccess => "mempoolaccess",
            EntitlementType::LightningChannels => "lightningchannels",
            EntitlementType::LightningPay => "lightningpay",
            EntitlementType::LightningInfo => "lightninginfo",
            EntitlementType::KeySeedExport => "keyseedexport",
            EntitlementType::HardwareWalletAccess => "hardwarewalletaccess",
            EntitlementType::HardwareWalletRead => "hardwarewalletread",
            EntitlementType::HardwareWalletSign => "hardwarewalletsign",
            EntitlementType::DeviceAdmin => "deviceadmin",
            EntitlementType::RemoteWipe => "remotewipe",
            EntitlementType::RemoteConfig => "remoteconfig",
            EntitlementType::AppInstall => "appinstall",
            EntitlementType::EnterpriseVpn => "enterprisevpn",
            EntitlementType::NetworkPolicyControl => "networkpolicycontrol",
            EntitlementType::EnterpriseSSO => "enterprisesso",
            EntitlementType::CertificateStore => "certificatestore",
            EntitlementType::BiometricAdmin => "biometricadmin",
            EntitlementType::DlpControl => "dlpcontrol",
            EntitlementType::SecureClipboard => "secureclipboard",
            EntitlementType::AuditLogAccess => "auditlogaccess",
            EntitlementType::UsageStats => "usagestats",
            EntitlementType::SelfUpdate => "selfupdate",
            EntitlementType::RemoteSupport => "remotesupport",
            EntitlementType::GpioAccess => "gpioaccess",
            EntitlementType::I2cAccess => "i2caccess",
            EntitlementType::SpiAccess => "spiaccess",
            EntitlementType::UartAccess => "uartaccess",
            EntitlementType::PwmAccess => "pwmaccess",
            EntitlementType::OneWireAccess => "onewireaccess",
            EntitlementType::CanBusAccess => "canbusaccess",
            EntitlementType::AdcAccess => "adcaccess",
            EntitlementType::DisplayAccess => "displayaccess",
            EntitlementType::PiCameraModule => "picameramodule",
            EntitlementType::BoardTemperatureAccess => "boardtemperatureaccess",
            EntitlementType::BoardLedAccess => "boardledaccess",
        }
    }
}

/// The entitlement whose canonical tag is `tag`, if the tag belongs to the
/// vocabulary.
pub open spec fn spec_entitlement_of_tag(tag: Seq<char>) -> Option<EntitlementType> {
    if tag == "camera"@ {
        Some(EntitlementType::Camera)
    } else if tag == "microphone"@ {
        Some(EntitlementType::Microphone)
    } else if tag == "location"@ {
        Some(EntitlementType::Location)
    } else if tag == "photos"@ {
        Some(EntitlementType::Photos)
    } else if tag == "files"@ {
        Some(EntitlementType::Files)
    } else if tag == "clipboard"@ {
        Some(EntitlementType::Clipboard)
    } else if tag == "screenrecording"@ {
        Some(EntitlementType::ScreenRecording)
    } else if tag == "accelerometer"@ {
        Some(EntitlementType::Accelerometer)
    } else if tag == "gyroscope"@ {
        Some(EntitlementType::Gyroscope)
    } else if tag == "magnetometer"@ {
        Some(EntitlementType::Magnetometer)
    } else if tag == "barometer"@ {
        Some(EntitlementType::Barometer)
    } else if tag == "proximitysensor"@ {
        Some(EntitlementType::ProximitySensor)
    } else if tag == "ambientlightsensor"@ {
        Some(EntitlementType::AmbientLightSensor)
    } else if tag == "temperaturesensor"@ {
        Some(EntitlementType::TemperatureSensor)
    } else if tag == "humiditysensor"@ {
        Some(EntitlementType::HumiditySensor)
    } else if tag == "heartratesensor"@ {
        Some(EntitlementType::HeartRateSensor)
    } else if tag == "firewall"@ {
        Some(EntitlementType::Firewall)
    } else if tag == "network"@ {
        Some(EntitlementType::Network)
    } else if tag == "bluetooth"@ {
        Some(EntitlementType::Bluetooth)
    } else if tag == "usb"@ {
        Some(EntitlementType::Usb)
    } else if tag == "nfc"@ {
        Some(EntitlementType::Nfc)
    } else if tag == "virtualmachine"@ {
        Some(EntitlementType::VirtualMachine)
    } else if tag == "container"@ {
        Some(EntitlementType::Container)
    } else if tag == "virtualfilesystem"@ {
        Some(EntitlementType::VirtualFileSystem)
    } else if tag == "notification"@ {
        Some(EntitlementType::Notification)
    } else if tag == "pythonio"@ {
        Some(EntitlementType::PythonIO)
    } else if tag == "bashio"@ {
        Some(EntitlementType::BashIO)
    } else if tag == "wineengine"@ {
        Some(EntitlementType::WineEngine)
    } else if tag == "systemservices"@ {
        Some(EntitlementType::SystemServices)
    } else if tag == "vpnhost"@ {
        Some(EntitlementType::VpnHost)
    } else if tag == "vpnclient"@ {
        Some(EntitlementType::VpnClient)
    } else if tag == "cryptostore"@ {
        Some(EntitlementType::CryptoStore)
    } else if tag == "walletread"@ {
        Some(EntitlementType::WalletRead)
    } else if tag == "walletwrite"@ {
        Some(EntitlementType::WalletWrite)
    } else if tag == "chainread"@ {
        Some(EntitlementType::ChainRead)
    } else if tag == "chainsync"@ {
        Some(EntitlementType::ChainSync)
    } else if tag == "p2pnetwork"@ {
        Some(EntitlementType::P2PNetwork)
    } else if tag == "mempoolaccess"@ {
        Some(EntitlementType::MempoolAccess)
    } else if tag == "lightningchannels"@ {
        Some(EntitlementType::LightningChannels)
    } else if tag == "lightningpay"@ {
        Some(EntitlementType::LightningPay)
    } else if tag == "lightninginfo"@ {
        Some(EntitlementType::LightningInfo)
    } else if tag == "keyseedexport"@ {
        Some(EntitlementType::KeySeedExport)
    } else if tag == "hardwarewalletaccess"@ {
        Some(EntitlementType::HardwareWalletAccess)
    } else if tag == "hardwarewalletread"@ {
        Some(EntitlementType::HardwareWalletRead)
    } else if tag == "hardwarewalletsign"@ {
        Some(EntitlementType::HardwareWalletSign)
    } else if tag == "deviceadmin"@ {
        Some(EntitlementType::DeviceAdmin)
    } else if tag == "remotewipe"@ {
        Some(EntitlementType::RemoteWipe)
    } else if tag == "remoteconfig"@ {
        Some(EntitlementType::RemoteConfig)
    } else if tag == "appinstall"@ {
        Some(EntitlementType::AppInstall)
    } else if tag == "enterprisevpn"@ {
        Some(EntitlementType::EnterpriseVpn)
    } else if tag == "networkpolicycontrol"@ {
        Some(EntitlementType::NetworkPolicyControl)
    } else if tag == "enterprisesso"@ {
        Some(EntitlementType::EnterpriseSSO)
    } else if tag == "certificatestore"@ {
        Some(EntitlementType::CertificateStore)
    } else if tag == "biometricadmin"@ {
        Some(EntitlementType::BiometricAdmin)
    } else if tag == "dlpcontrol"@ {
        Some(EntitlementType::DlpControl)
    } else if tag == "secureclipboard"@ {
        Some(EntitlementType::SecureClipboard)
    } else if tag == "auditlogaccess"@ {
        Some(EntitlementType::AuditLogAccess)
    } else if tag == "usagestats"@ {
        Some(EntitlementType::UsageStats)
    } else if tag == "selfupdate"@ {
        Some(EntitlementType::SelfUpdate)
    } else if tag == "remotesupport"@ {
        Some(EntitlementType::RemoteSupport)
    } else if tag == "gpioaccess"@ {
        Some(EntitlementType::GpioAccess)
    } else if tag == "i2caccess"@ {
        Some(EntitlementType::I2cAccess)
    } else if tag == "spiaccess"@ {
        Some(EntitlementType::SpiAccess)
    } else if tag == "uartaccess"@ {
        Some(EntitlementType::UartAccess)
    } else if tag == "pwmaccess"@ {
        Some(EntitlementType::PwmAccess)
    } else if tag == "onewireaccess"@ {
        Some(EntitlementType::OneWireAccess)
    } else if tag == "canbusaccess"@ {
        Some(EntitlementType::CanBusAccess)
    } else if tag == "adcaccess"@ {
        Some(EntitlementType::AdcAccess)
    } else if tag == "displayaccess"@ {
        Some(EntitlementType::DisplayAccess)
    } else if tag == "picameramodule"@ {
        Some(EntitlementType::PiCameraModule)
    } else if tag == "boardtemperatureaccess"@ {
        Some(EntitlementType::BoardTemperatureAccess)
    } else if tag == "boardledaccess"@ {
        Some(EntitlementType::BoardLedAccess)
    } else {
        None
    }
}

impl EntitlementType {
    /// Decodes a string tag into an entitlement.
    ///
    /// A tag outside the closed vocabulary is rejected with an
    /// unknown-permission-type error carrying the offending tag.
    pub fn from_tag(tag: &str) -> (r: Result<EntitlementType, String>)
        ensures
            spec_entitlement_of_tag(tag@) matches Some(e) ==> r == Ok::<EntitlementType, String>(e),
            spec_entitlement_of_tag(tag@) is None ==> (r matches Err(m)
                && m@ == "unknown permission type: "@ + tag@),
    {
        if str_eq(tag, "camera") {
            return Ok(EntitlementType::Camera);
        }
        if str_eq(tag, "microphone") {
            return Ok(EntitlementType::Microphone);
        }
        if str_eq(tag, "location") {
            return Ok(EntitlementType::Location);
        }
        if str_eq(tag, "photos") {
            return Ok(EntitlementType::Photos);
        }
        if str_eq(tag, "files") {
            return Ok(EntitlementType::Files);
        }
        if str_eq(tag, "clipboard") {
            return Ok(EntitlementType::Clipboard);
        }
        if str_eq(tag, "screenrecording") {
            return Ok(EntitlementType::ScreenRecording);
        }
        if str_eq(tag, "accelerometer") {
            return Ok(EntitlementType::Accelerometer);
        }
        if str_eq(tag, "gyroscope") {
            return Ok(EntitlementType::Gyroscope);
        }
        if str_eq(tag, "magnetometer") {
            return Ok(EntitlementType::Magnetometer);
        }
        if str_eq(tag, "barometer") {
            return Ok(EntitlementType::Barometer);
        }
        if str_eq(tag, "proximitysensor") {
            return Ok(EntitlementType::ProximitySensor);
        }
        if str_eq(tag, "ambientlightsensor") {
            return Ok(EntitlementType::AmbientLightSensor);
        }
        if str_eq(tag, "temperaturesensor") {
            return Ok(EntitlementType::TemperatureSensor);
        }
        if str_eq(tag, "humiditysensor") {
            return Ok(EntitlementType::HumiditySensor);
        }
        if str_eq(tag, "heartratesensor") {
            return Ok(EntitlementType::HeartRateSensor);
        }
        if str_eq(tag, "firewall") {
            return Ok(EntitlementType::Firewall);
        }
        if str_eq(tag, "network") {
            return Ok(EntitlementType::Network);
        }
        if str_eq(tag, "bluetooth") {
            return Ok(EntitlementType::Bluetooth);
        }
        if str_eq(tag, "usb") {
            return Ok(EntitlementType::Usb);
        }
        if str_eq(tag, "nfc") {
            return Ok(EntitlementType::Nfc);
        }
        if str_eq(tag, "virtualmachine") {
            return Ok(EntitlementType::VirtualMachine);
        }
        if str_eq(tag, "container") {
            return Ok(EntitlementType::Container);
        }
        if str_eq(tag, "virtualfilesystem") {
            return Ok(EntitlementType::VirtualFileSystem);
        }
        if str_eq(tag, "notification") {
            return Ok(EntitlementType::Notification);
        }
        if str_eq(tag, "pythonio") {
            return Ok(EntitlementType::PythonIO);
        }
        if str_eq(tag, "bashio") {
            return Ok(EntitlementType::BashIO);
        }
        if str_eq(tag, "wineengine") {
            return Ok(EntitlementType::WineEngine);
        }
        if str_eq(tag, "systemservices") {
            return Ok(EntitlementType::SystemServices);
        }
        if str_eq(tag, "vpnhost") {
            return Ok(EntitlementType::VpnHost);
        }
        if str_eq(tag, "vpnclient") {
            return Ok(EntitlementType::VpnClient);
        }
        if str_eq(tag, "cryptostore") {
            return Ok(EntitlementType::CryptoStore);
        }
        if str_eq(tag, "walletread") {
            return Ok(EntitlementType::WalletRead);
        }
        if str_eq(tag, "walletwrite") {
            return Ok(EntitlementType::WalletWrite);
        }
        if str_eq(tag, "chainread") {
            return Ok(EntitlementType::ChainRead);
        }
        if str_eq(tag, "chainsync") {
            return Ok(EntitlementType::ChainSync);
        }
        if str_eq(tag, "p2pnetwork") {
            return Ok(EntitlementType::P2PNetwork);
        }
        if str_eq(tag, "mempoolaccess") {
            return Ok(EntitlementType::MempoolAccess);
        }
        if str_eq(tag, "lightningchannels") {
            return Ok(EntitlementType::LightningChannels);
        }
        if str_eq(tag, "lightningpay") {
            return Ok(EntitlementType::LightningPay);
        }
        if str_eq(tag, "lightninginfo") {
            return Ok(EntitlementType::LightningInfo);
        }
        if str_eq(tag, "keyseedexport") {
            return Ok(EntitlementType::KeySeedExport);
        }
        if str_eq(tag, "hardwarewalletaccess") {
            return Ok(EntitlementType::HardwareWalletAccess);
        }
        if str_eq(tag, "hardwarewalletread") {
            return Ok(EntitlementType::HardwareWalletRead);
        }
        if str_eq(tag, "hardwarewalletsign") {
            return Ok(EntitlementType::HardwareWalletSign);
        }
        if str_eq(tag, "deviceadmin") {
            return Ok(EntitlementType::DeviceAdmin);
        }
        if str_eq(tag, "remotewipe") {
            return Ok(EntitlementType::RemoteWipe);
        }
        if str_eq(tag, "remoteconfig") {
            return Ok(EntitlementType::RemoteConfig);
        }
        if str_eq(tag, "appinstall") {
            return Ok(EntitlementType::AppInstall);
        }
        if str_eq(tag, "enterprisevpn") {
            return Ok(EntitlementType::EnterpriseVpn);
        }
        if str_eq(tag, "networkpolicycontrol") {
            return Ok(EntitlementType::NetworkPolicyControl);
        }
        if str_eq(tag, "enterprisesso") {
            return Ok(EntitlementType::EnterpriseSSO);
        }
        if str_eq(tag, "certificatestore") {
            return Ok(EntitlementType::CertificateStore);
        }
        if str_eq(tag, "biometricadmin") {
            return Ok(EntitlementType::BiometricAdmin);
        }
        if str_eq(tag, "dlpcontrol") {
            return Ok(EntitlementType::DlpControl);
        }
        if str_eq(tag, "secureclipboard") {
            return Ok(EntitlementType::SecureClipboard);
        }
        if str_eq(tag, "auditlogaccess") {
            return Ok(EntitlementType::AuditLogAccess);
        }
        if str_eq(tag, "usagestats") {
            return Ok(EntitlementType::UsageStats);
        }
        if str_eq(tag, "selfupdate") {
            return Ok(EntitlementType::SelfUpdate);
        }
        if str_eq(tag, "remotesupport") {
            return Ok(EntitlementType::RemoteSupport);
        }
        if str_eq(tag, "gpioaccess") {
            return Ok(EntitlementType::GpioAccess);
        }
        if str_eq(tag, "i2caccess") {
            return Ok(EntitlementType::I2cAccess);
        }
        if str_eq(tag, "spiaccess") {
            return Ok(EntitlementType::SpiAccess);
        }
        if str_eq(tag, "uartaccess") {
            return Ok(EntitlementType::UartAccess);
        }
        if str_eq(tag, "pwmaccess") {
            return Ok(EntitlementType::PwmAccess);
        }
        if str_eq(tag, "onewireaccess") {
            return Ok(EntitlementType::OneWireAccess);
        }
        if str_eq(tag, "canbusaccess") {
            return Ok(EntitlementType::CanBusAccess);
        }
        if str_eq(tag, "adcaccess") {
            return Ok(EntitlementType::AdcAccess);
        }
        if str_eq(tag, "displayaccess") {
            return Ok(EntitlementType::DisplayAccess);
        }
        if str_eq(tag, "picameramodule") {
            return Ok(EntitlementType::PiCameraModule);
        }
        if str_eq(tag, "boardtemperatureaccess") {
            return Ok(EntitlementType::BoardTemperatureAccess);
        }
        if str_eq(tag, "boardledaccess") {
            return Ok(EntitlementType::BoardLedAccess);
        }
        let mut msg = String::from_str("unknown permission type: ");
        msg.append(tag);
        Err(msg)
    }
}

/// Law: decoding the canonical tag of any entitlement yields that same
/// entitlement, so encode followed by decode is the identity on the whole
/// vocabulary.
#[verifier::rlimit(100)]
pub proof fn lemma_entitlement_tag_round_trip(e: EntitlementType)
    ensures
        spec_entitlement_of_tag(e.spec_tag()) == Some(e),
{
    // Every tag literal is revealed so the solver can tell any two of them
    // apart while it walks the decode chain.
    reveal_strlit("camera");
    reveal_strlit("microphone");
    reveal_strlit("location");
    reveal_strlit("photos");
    reveal_strlit("files");
    reveal_strlit("clipboard");
    reveal_strlit("screenrecording");
    reveal_strlit("accelerometer");
    reveal_strlit("gyroscope");
    reveal_strlit("magnetometer");
    reveal_strlit("barometer");
    reveal_strlit("proximitysensor");
    reveal_strlit("ambientlightsensor");
    reveal_strlit("temperaturesensor");
    reveal_strlit("humiditysensor");
    reveal_strlit("heartratesensor");
    reveal_strlit("firewall");
    reveal_strlit("network");
    reveal_strlit("bluetooth");
    reveal_strlit("usb");
    reveal_strlit("nfc");
    reveal_strlit("virtualmachine");
    reveal_strlit("container");
    reveal_strlit("virtualfilesystem");
    reveal_strlit("notification");
    reveal_strlit("pythonio");
    reveal_strlit("bashio");
    reveal_strlit("wineengine");
    reveal_strlit("systemservices");
    reveal_strlit("vpnhost");
    reveal_strlit("vpnclient");
    reveal_strlit("cryptostore");
    reveal_strlit("walletread");
    reveal_strlit("walletwrite");
    reveal_strlit("chainread");
    reveal_strlit("chainsync");
    reveal_strlit("p2pnetwork");
    reveal_strlit("mempoolaccess");
    reveal_strlit("lightningchannels");
    reveal_strlit("lightningpay");
    reveal_strlit("lightninginfo");
    reveal_strlit("keyseedexport");
    reveal_strlit("hardwarewalletaccess");
    reveal_strlit("hardwarewalletread");
    reveal_strlit("hardwarewalletsign");
    reveal_strlit("deviceadmin");
    reveal_strlit("remotewipe");
    reveal_strlit("remoteconfig");
    reveal_strlit("appinstall");
    reveal_strlit("enterprisevpn");
    reveal_strlit("networkpolicycontrol");
    reveal_strlit("enterprisesso");
    reveal_strlit("certificatestore");
    reveal_strlit("biometricadmin");
    reveal_strlit("dlpcontrol");
    reveal_strlit("secureclipboard");
    reveal_strlit("auditlogaccess");
    reveal_strlit("usagestats");
    reveal_strlit("selfupdate");
    reveal_strlit("remotesupport");
    reveal_strlit("gpioaccess");
    reveal_strlit("i2caccess");
    reveal_strlit("spiaccess");
    reveal_strlit("uartaccess");
    reveal_strlit("pwmaccess");
    reveal_strlit("onewireaccess");
    reveal_strlit("canbusaccess");
    reveal_strlit("adcaccess");
    reveal_strlit("displayaccess");
    reveal_strlit("picameramodule");
    reveal_strlit("boardtemperatureaccess");
    reveal_strlit("boardledaccess");
    // The lengths, and one distinguishing character for each pair of
    // equal-length tags, are what the disequalities rest on.
    assert("camera"@.len() == 6);
    assert("microphone"@.len() == 10);
    assert("location"@.len() == 8);
    assert("photos"@.len() == 6);
    assert("files"@.len() == 5);
    assert("clipboard"@.len() == 9);
    assert("screenrecording"@.len() == 15);
    assert("accelerometer"@.len() == 13);
    assert("gyroscope"@.len() == 9);
    assert("magnetometer"@.len() == 12);
    assert("barometer"@.len() == 9);
    assert("proximitysensor"@.len() == 15);
    assert("ambientlightsensor"@.len() == 18);
    assert("temperaturesensor"@.len() == 17);
    assert("humiditysensor"@.len() == 14);
    assert("heartratesensor"@.len() == 15);
    assert("firewall"@.len() == 8);
    assert("network"@.len() == 7);
    assert("bluetooth"@.len() == 9);
    assert("usb"@.len() == 3);
    assert("nfc"@.len() == 3);
    assert("virtualmachine"@.len() == 14);
    assert("container"@.len() == 9);
    assert("virtualfilesystem"@.len() == 17);
    assert("notification"@.len() == 12);
    assert("pythonio"@.len() == 8);
    assert("bashio"@.len() == 6);
    assert("wineengine"@.len() == 10);
    assert("systemservices"@.len() == 14);
    assert("vpnhost"@.len() == 7);
    assert("vpnclient"@.len() == 9);
    assert("cryptostore"@.len() == 11);
    assert("walletread"@.len() == 10);
    assert("walletwrite"@.len() == 11);
    assert("chainread"@.len() == 9);
    assert("chainsync"@.len() == 9);
    assert("p2pnetwork"@.len() == 10);
    assert("mempoolaccess"@.len() == 13);
    assert("lightningchannels"@.len() == 17);
    assert("lightningpay"@.len() == 12);
    assert("lightninginfo"@.len() == 13);
    assert("keyseedexport"@.len() == 13);
    assert("hardwarewalletaccess"@.len() == 20);
    assert("hardwarewalletread"@.len() == 18);
    assert("hardwarewalletsign"@.len() == 18);
    assert("deviceadmin"@.len() == 11);
    assert("remotewipe"@.len() == 10);
    assert("remoteconfig"@.len() == 12);
    assert("appinstall"@.len() == 10);
    assert("enterprisevpn"@.len() == 13);
    assert("networkpolicycontrol"@.len() == 20);
    assert("enterprisesso"@.len() == 13);
    assert("certificatestore"@.len() == 16);
    assert("biometricadmin"@.len() == 14);
    assert("dlpcontrol"@.len() == 10);
    assert("secureclipboard"@.len() == 15);
    assert("auditlogaccess"@.len() == 14);
    assert("usagestats"@.len() == 10);
    assert("selfupdate"@.len() == 10);
    assert("remotesupport"@.len() == 13);
    assert("gpioaccess"@.len() == 10);
    assert("i2caccess"@.len() == 9);
    assert("spiaccess"@.len() == 9);
    assert("uartaccess"@.len() == 10);
    assert("pwmaccess"@.len() == 9);
    assert("onewireaccess"@.len() == 13);
    assert("canbusaccess"@.len() == 12);
    assert("adcaccess"@.len() == 9);
    assert("displayaccess"@.len() == 13);
    assert("picameramodule"@.len() == 14);
    assert("boardtemperatureaccess"@.len() == 22);
    assert("boardledaccess"@.len() == 14);
    assert("accelerometer"@[0] == 'a');
    assert("adcaccess"@[0] == 'a');
    assert("ambientlightsensor"@[0] == 'a');
    assert("appinstall"@[0] == 'a');
    assert("auditlogaccess"@[0] == 'a');
    assert("barometer"@[0] == 'b');
    assert("barometer"@[1] == 'a');
    assert("bashio"@[0] == 'b');
    assert("biometricadmin"@[0] == 'b');
    assert("biometricadmin"@[1] == 'i');
    assert("bluetooth"@[0] == 'b');
    assert("bluetooth"@[1] == 'l');
    assert("boardledaccess"@[0] == 'b');
    assert("boardledaccess"@[1] == 'o');
    assert("camera"@[0] == 'c');
    assert("canbusaccess"@[0] == 'c');
    assert("chainread"@[0] == 'c');
    assert("chainread"@[1] == 'h');
    assert("chainread"@[5] == 'r');
    assert("chainsync"@[0] == 'c');
    assert("chainsync"@[1] == 'h');
    assert("chainsync"@[5] == 's');
    assert("clipboard"@[0] == 'c');
    assert("clipboard"@[1] == 'l');
    assert("container"@[0] == 'c');
    assert("container"@[1] == 'o');
    assert("cryptostore"@[0] == 'c');
    assert("deviceadmin"@[0] == 'd');
    assert("displayaccess"@[0] == 'd');
    assert("dlpcontrol"@[0] == 'd');
    assert("enterprisesso"@[0] == 'e');
    assert("enterprisesso"@[10] == 's');
    assert("enterprisevpn"@[0] == 'e');
    assert("enterprisevpn"@[10] == 'v');
    assert("firewall"@[0] == 'f');
    assert("gpioaccess"@[0] == 'g');
    assert("gyroscope"@[0] == 'g');
    assert("hardwarewalletaccess"@[0] == 'h');
    assert("hardwarewalletread"@[0] == 'h');
    assert("hardwarewalletread"@[14] == 'r');
    assert("hardwarewalletsign"@[0] == 'h');
    assert("hardwarewalletsign"@[14] == 's');
    assert("heartratesensor"@[0] == 'h');
    assert("humiditysensor"@[0] == 'h');
    assert("i2caccess"@[0] == 'i');
    assert("keyseedexport"@[0] == 'k');
    assert("lightningchannels"@[0] == 'l');
    assert("lightninginfo"@[0] == 'l');
    assert("lightningpay"@[0] == 'l');
    assert("location"@[0] == 'l');
    assert("magnetometer"@[0] == 'm');
    assert("mempoolaccess"@[0] == 'm');
    assert("microphone"@[0] == 'm');
    assert("network"@[0] == 'n');
    assert("networkpolicycontrol"@[0] == 'n');
    assert("nfc"@[0] == 'n');
    assert("notification"@[0] == 'n');
    assert("onewireaccess"@[0] == 'o');
    assert("p2pnetwork"@[0] == 'p');
    assert("photos"@[0] == 'p');
    assert("picameramodule"@[0] == 'p');
    assert("proximitysensor"@[0] == 'p');
    assert("pwmaccess"@[0] == 'p');
    assert("pythonio"@[0] == 'p');
    assert("remoteconfig"@[0] == 'r');
    assert("remotesupport"@[0] == 'r');
    assert("remotewipe"@[0] == 'r');
    assert("screenrecording"@[0] == 's');
    assert("screenrecording"@[1] == 'c');
    assert("secureclipboard"@[0] == 's');
    assert("secureclipboard"@[1] == 'e');
    assert("selfupdate"@[0] == 's');
    assert("spiaccess"@[0] == 's');
    assert("systemservices"@[0] == 's');
    assert("temperaturesensor"@[0] == 't');
    assert("uartaccess"@[0] == 'u');
    assert("uartaccess"@[1] == 'a');
    assert("usagestats"@[0] == 'u');
    assert("usagestats"@[1] == 's');
    assert("usb"@[0] == 'u');
    assert("virtualfilesystem"@[0] == 'v');
    assert("virtualmachine"@[0] == 'v');
    assert("vpnclient"@[0] == 'v');
    assert("vpnhost"@[0] == 'v');
    assert("walletread"@[0] == 'w');
    assert("walletread"@[1] == 'a');
    assert("walletwrite"@[0] == 'w');
    assert("wineengine"@[0] == 'w');
    assert("wineengine"@[1] == 'i');
    match e {
        EntitlementType::Camera => {
            assert(spec_entitlement_of_tag("camera"@) == Some(EntitlementType::Camera));
        },
        EntitlementType::Microphone => {
            assert(spec_entitlement_of_tag("microphone"@) == Some(EntitlementType::Microphone));
        },
        EntitlementType::Location => {
            assert(spec_entitlement_of_tag("location"@) == Some(EntitlementType::Location));
        },
        EntitlementType::Photos => {
            assert(spec_entitlement_of_tag("photos"@) == Some(EntitlementType::Photos));
        },
        EntitlementType::Files => {
            assert(spec_entitlement_of_tag("files"@) == Some(EntitlementType::Files));
        },
        EntitlementType::Clipboard => {
            assert(spec_entitlement_of_tag("clipboard"@) == Some(EntitlementType::Clipboard));
        },
        EntitlementType::ScreenRecording => {
            assert(spec_entitlement_of_tag("screenrecording"@) == Some(EntitlementType::ScreenRecording));
        },
        EntitlementType::Accelerometer => {
            assert(spec_entitlement_of_tag("accelerometer"@) == Some(EntitlementType::Accelerometer));
        },
        EntitlementType::Gyroscope => {
            assert(spec_entitlement_of_tag("gyroscope"@) == Some(EntitlementType::Gyroscope));
        },
        EntitlementType::Magnetometer => {
            assert(spec_entitlement_of_tag("magnetometer"@) == Some(EntitlementType::Magnetometer));
        },
        EntitlementType::Barometer => {
            assert(spec_entitlement_of_tag("barometer"@) == Some(EntitlementType::Barometer));
        },
        EntitlementType::ProximitySensor => {
            assert(spec_entitlement_of_tag("proximitysensor"@) == Some(EntitlementType::ProximitySensor));
        },
        EntitlementType::AmbientLightSensor => {
            assert(spec_entitlement_of_tag("ambientlightsensor"@) == Some(EntitlementType::AmbientLightSensor));
        },
        EntitlementType::TemperatureSensor => {
            assert(spec_entitlement_of_tag("temperaturesensor"@) == Some(EntitlementType::TemperatureSensor));
        },
        EntitlementType::HumiditySensor => {
            assert(spec_entitlement_of_tag("humiditysensor"@) == Some(EntitlementType::HumiditySensor));
        },
        EntitlementType::HeartRateSensor => {
            assert(spec_entitlement_of_tag("heartratesensor"@) == Some(EntitlementType::HeartRateSensor));
        },
        EntitlementType::Firewall => {
            assert(spec_entitlement_of_tag("firewall"@) == Some(EntitlementType::Firewall));
        },
        EntitlementType::Network => {
            assert(spec_entitlement_of_tag("network"@) == Some(EntitlementType::Network));
        },
        EntitlementType::Bluetooth => {
            assert(spec_entitlement_of_tag("bluetooth"@) == Some(EntitlementType::Bluetooth));
        },
        EntitlementType::Usb => {
            assert(spec_entitlement_of_tag("usb"@) == Some(EntitlementType::Usb));
        },
        EntitlementType::Nfc => {
            assert(spec_entitlement_of_tag("nfc"@) == Some(EntitlementType::Nfc));
        },
        EntitlementType::VirtualMachine => {
            assert(spec_entitlement_of_tag("virtualmachine"@) == Some(EntitlementType::VirtualMachine));
        },
        EntitlementType::Container => {
            assert(spec_entitlement_of_tag("container"@) == Some(EntitlementType::Container));
        },
        EntitlementType::VirtualFileSystem => {
            assert(spec_entitlement_of_tag("virtualfilesystem"@) == Some(EntitlementType::VirtualFileSystem));
        },
        EntitlementType::Notification => {
            assert(spec_entitlement_of_tag("notification"@) == Some(EntitlementType::Notification));
        },
        EntitlementType::PythonIO => {
            assert(spec_entitlement_of_tag("pythonio"@) == Some(EntitlementType::PythonIO));
        },
        EntitlementType::BashIO => {
            assert(spec_entitlement_of_tag("bashio"@) == Some(EntitlementType::BashIO));
        },
        EntitlementType::WineEngine => {
            assert(spec_entitlement_of_tag("wineengine"@) == Some(EntitlementType::WineEngine));
        },
        EntitlementType::SystemServices => {
            assert(spec_entitlement_of_tag("systemservices"@) == Some(EntitlementType::SystemServices));
        },
        EntitlementType::VpnHost => {
            assert(spec_entitlement_of_tag("vpnhost"@) == Some(EntitlementType::VpnHost));
        },
        EntitlementType::VpnClient => {
            assert(spec_entitlement_of_tag("vpnclient"@) == Some(EntitlementType::VpnClient));
        },
        EntitlementType::CryptoStore => {
            assert(spec_entitlement_of_tag("cryptostore"@) == Some(EntitlementType::CryptoStore));
        },
        EntitlementType::WalletRead => {
            assert(spec_entitlement_of_tag("walletread"@) == Some(EntitlementType::WalletRead));
        },
        EntitlementType::WalletWrite => {
            assert(spec_entitlement_of_tag("walletwrite"@) == Some(EntitlementType::WalletWrite));
        },
        EntitlementType::ChainRead => {
            assert(spec_entitlement_of_tag("chainread"@) == Some(EntitlementType::ChainRead));
        },
        EntitlementType::ChainSync => {
            assert(spec_entitlement_of_tag("chainsync"@) == Some(EntitlementType::ChainSync));
        },
        EntitlementType::P2PNetwork => {
            assert(spec_entitlement_of_tag("p2pnetwork"@) == Some(EntitlementType::P2PNetwork));
        },
        EntitlementType::MempoolAccess => {
            assert(spec_entitlement_of_tag("mempoolaccess"@) == Some(EntitlementType::MempoolAccess));
        },
        EntitlementType::LightningChannels => {
            assert(spec_entitlement_of_tag("lightningchannels"@) == Some(EntitlementType::LightningChannels));
        },
        EntitlementType::LightningPay => {
            assert(spec_entitlement_of_tag("lightningpay"@) == Some(EntitlementType::LightningPay));
        },
        EntitlementType::LightningInfo => {
            assert(spec_entitlement_of_tag("lightninginfo"@) == Some(EntitlementType::LightningInfo));
        },
        EntitlementType::KeySeedExport => {
            assert(spec_entitlement_of_tag("keyseedexport"@) == Some(EntitlementType::KeySeedExport));
        },
        EntitlementType::HardwareWalletAccess => {
            assert(spec_entitlement_of_tag("hardwarewalletaccess"@) == Some(EntitlementType::HardwareWalletAccess));
        },
        EntitlementType::HardwareWalletRead => {
            assert(spec_entitlement_of_tag("hardwarewalletread"@) == Some(EntitlementType::HardwareWalletRead));
        },
        EntitlementType::HardwareWalletSign => {
            assert(spec_entitlement_of_tag("hardwarewalletsign"@) == Some(EntitlementType::HardwareWalletSign));
        },
        EntitlementType::DeviceAdmin => {
            assert(spec_entitlement_of_tag("deviceadmin"@) == Some(EntitlementType::DeviceAdmin));
        },
        EntitlementType::RemoteWipe => {
            assert(spec_entitlement_of_tag("remotewipe"@) == Some(EntitlementType::RemoteWipe));
        },
        EntitlementType::RemoteConfig => {
            assert(spec_entitlement_of_tag("remoteconfig"@) == Some(EntitlementType::RemoteConfig));
        },
        EntitlementType::AppInstall => {
            assert(spec_entitlement_of_tag("appinstall"@) == Some(EntitlementType::AppInstall));
        },
        EntitlementType::EnterpriseVpn => {
            assert(spec_entitlement_of_tag("enterprisevpn"@) == Some(EntitlementType::EnterpriseVpn));
        },
        EntitlementType::NetworkPolicyControl => {
            assert(spec_entitlement_of_tag("networkpolicycontrol"@) == Some(EntitlementType::NetworkPolicyControl));
        },
        EntitlementType::EnterpriseSSO => {
            assert(spec_entitlement_of_tag("enterprisesso"@) == Some(EntitlementType::EnterpriseSSO));
        },
        EntitlementType::CertificateStore => {
            assert(spec_entitlement_of_tag("certificatestore"@) == Some(EntitlementType::CertificateStore));
        },
        EntitlementType::BiometricAdmin => {
            assert(spec_entitlement_of_tag("biometricadmin"@) == Some(EntitlementType::BiometricAdmin));
        },
        EntitlementType::DlpControl => {
            assert(spec_entitlement_of_tag("dlpcontrol"@) == Some(EntitlementType::DlpControl));
        },
        EntitlementType::SecureClipboard => {
            assert(spec_entitlement_of_tag("secureclipboard"@) == Some(EntitlementType::SecureClipboard));
        },
        EntitlementType::AuditLogAccess => {
            assert(spec_entitlement_of_tag("auditlogaccess"@) == Some(EntitlementType::AuditLogAccess));
        },
        EntitlementType::UsageStats => {
            assert(spec_entitlement_of_tag("usagestats"@) == Some(EntitlementType::UsageStats));
        },
        EntitlementType::SelfUpdate => {
            assert(spec_entitlement_of_tag("selfupdate"@) == Some(EntitlementType::SelfUpdate));
        },
        EntitlementType::RemoteSupport => {
            assert(spec_entitlement_of_tag("remotesupport"@) == Some(EntitlementType::RemoteSupport));
        },
        EntitlementType::GpioAccess => {
            assert(spec_entitlement_of_tag("gpioaccess"@) == Some(EntitlementType::GpioAccess));
        },
        EntitlementType::I2cAccess => {
            assert(spec_entitlement_of_tag("i2caccess"@) == Some(EntitlementType::I2cAccess));
        },
        EntitlementType::SpiAccess => {
            assert(spec_entitlement_of_tag("spiaccess"@) == Some(EntitlementType::SpiAccess));
        },
        EntitlementType::UartAccess => {
            assert(spec_entitlement_of_tag("uartaccess"@) == Some(EntitlementType::UartAccess));
        },
        EntitlementType::PwmAccess => {
            assert(spec_entitlement_of_tag("pwmaccess"@) == Some(EntitlementType::PwmAccess));
        },
        EntitlementType::OneWireAccess => {
            assert(spec_entitlement_of_tag("onewireaccess"@) == Some(EntitlementType::OneWireAccess));
        },
        EntitlementType::CanBusAccess => {
            assert(spec_entitlement_of_tag("canbusaccess"@) == Some(EntitlementType::CanBusAccess));
        },
        EntitlementType::AdcAccess => {
            assert(spec_entitlement_of_tag("adcaccess"@) == Some(EntitlementType::AdcAccess));
        },
        EntitlementType::DisplayAccess => {
            assert(spec_entitlement_of_tag("displayaccess"@) == Some(EntitlementType::DisplayAccess));
        },
        EntitlementType::PiCameraModule => {
            assert(spec_entitlement_of_tag("picameramodule"@) == Some(EntitlementType::PiCameraModule));
        },
        EntitlementType::BoardTemperatureAccess => {
            assert(spec_entitlement_of_tag("boardtemperatureaccess"@) == Some(EntitlementType::BoardTemperatureAccess));
        },
        EntitlementType::BoardLedAccess => {
            assert(spec_entitlement_of_tag("boardledaccess"@) == Some(EntitlementType::BoardLedAccess));
        },
    }
}

} // verus!
