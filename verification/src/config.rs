//! The data model that a configuration file supplies.

use vstd::prelude::*;

verus! {

/// How the raw registers of a tag are interpreted.
#[derive(Debug, Clone, Copy, PartialEq, Eq, Hash)]
pub enum ModbusValueType {
    /// An unsigned integer held in one input register.
    IntInput,
    /// A single-precision float held in two consecutive input registers.
    RealInput,
    /// An unsigned integer held in one holding register.
    IntHolding,
    /// A single-precision float held in two consecutive holding registers.
    RealHolding,
    /// A boolean coil.
    Coil,
}

/// The class of device memory that a read addresses.
#[derive(Debug, Clone, Copy, PartialEq, Eq, Hash)]
pub enum RegisterBank {
    Holding,
    Input,
    Coil,
}

impl ModbusValueType {
    /// Number of registers that one read of a tag of this kind asks for.
    pub open spec fn spec_register_count(self) -> u16 {
        match self {
            ModbusValueType::RealInput | ModbusValueType::RealHolding => 2,
            _ => 1,
        }
    }

    /// The bank that a tag of this kind lives in.
    pub open spec fn spec_bank(self) -> RegisterBank {
        match self {
            ModbusValueType::IntInput | ModbusValueType::RealInput => RegisterBank::Input,
            ModbusValueType::IntHolding | ModbusValueType::RealHolding => RegisterBank::Holding,
            ModbusValueType::Coil => RegisterBank::Coil,
        }
    }

    /// Number of registers that one read of a tag of this kind asks for:
    /// two for the float kinds, one for every other kind.
    #[verifier::when_used_as_spec(spec_register_count)]
    pub fn register_count(self) -> (count: u16)
        ensures
            count == self.spec_register_count(),
    {
        match self {
            ModbusValueType::RealInput | ModbusValueType::RealHolding => 2,
            _ => 1,
        }
    }

    /// The bank that a tag of this kind lives in.
    #[verifier::when_used_as_spec(spec_bank)]
    pub fn bank(self) -> (bank: RegisterBank)
        ensures
            bank == self.spec_bank(),
    {
        match self {
            ModbusValueType::IntInput | ModbusValueType::RealInput => RegisterBank::Input,
            ModbusValueType::IntHolding | ModbusValueType::RealHolding => RegisterBank::Holding,
            ModbusValueType::Coil => RegisterBank::Coil,
        }
    }
}

/// One named, addressable data point of a device.
#[derive(Debug, PartialEq, Eq)]
pub struct ModbusTag {
    /// Label of the tag, unique within its device.
    pub name: String,
    pub description: String,
    /// Address of the tag's first register.
    pub address: u16,
    pub value: ModbusValueType,
}

impl Clone for ModbusTag {
    fn clone(&self) -> (copy: Self)
        ensures
            copy == *self,
    {
        ModbusTag {
            name: self.name.clone(),
            description: self.description.clone(),
            address: self.address,
            value: self.value,
        }
    }
}

/// A device reached over a stream socket.
#[derive(Debug, PartialEq, Eq)]
pub struct ModbusTcpConfig {
    pub ip: String,
    pub port: u16,
    /// The tags of the device, in the order in which they are read.
    pub tags: Vec<ModbusTag>,
}

/// A device reached over a serial line.
#[derive(Debug, PartialEq, Eq)]
pub struct ModbusRtuConfig {
    pub com: String,
    pub baudrate: u32,
    pub tags: Vec<ModbusTag>,
}

/// The transport of a device, with what that transport needs.
#[derive(Debug, PartialEq, Eq)]
pub enum DeviceType {
    ModbusTcp(ModbusTcpConfig),
    ModbusRtu(ModbusRtuConfig),
    OpcUa,
    EthernetIp,
    S7,
}

/// One configured device.
#[derive(Debug, PartialEq, Eq)]
pub struct DeviceConfig {
    /// Name of the device, unique within a run; its samples are stored
    /// under this name.
    pub name: String,
    pub device_type: DeviceType,
}

/// Everything a run is configured with.
#[derive(Debug, PartialEq, Eq)]
pub struct Config {
    /// Seconds between two read cycles of a device.
    pub poll_period: u32,
    pub devices: Vec<DeviceConfig>,
    /// Where the store lives.
    pub database_path: String,
}

/// Copies a tag list, keeping every tag and the order.
pub fn clone_tags(tags: &Vec<ModbusTag>) -> (copy: Vec<ModbusTag>)
    ensures
        copy@ == tags@,
{
    let mut copy: Vec<ModbusTag> = Vec::new();
    let mut i: usize = 0;
    while i < tags.len()
        invariant
            i <= tags.len(),
            copy@ == tags@.take(i as int),
        decreases tags.len() - i,
    {
        copy.push(tags[i].clone());
        assert(tags@.take(i + 1) == tags@.take(i as int).push(tags@[i as int]));
        i += 1;
    }
    assert(tags@.take(tags@.len() as int) == tags@);
    copy
}

impl Config {
    /// Whether `self` is the sample configuration: one stream-socket device
    /// `PLC_2` at 192.168.0.1:5502 with the single integer holding-register
    /// tag `PIT-1001` at address 0, polled every 60 seconds into
    /// `./db.sqlite`.
    pub open spec fn is_sample(&self) -> bool {
        &&& self.poll_period == 60
        &&& self.database_path@ == "./db.sqlite"@
        &&& self.devices@.len() == 1
        &&& self.devices@[0].name@ == "PLC_2"@
        &&& self.devices@[0].device_type matches DeviceType::ModbusTcp(tcp)
        &&& tcp.ip@ == "192.168.0.1"@
        &&& tcp.port == 5502
        &&& tcp.tags@.len() == 1
        &&& tcp.tags@[0].name@ == "PIT-1001"@
        &&& tcp.tags@[0].description@ == "Nothing"@
        &&& tcp.tags@[0].address == 0
        &&& tcp.tags@[0].value == ModbusValueType::IntHolding
    }

    /// The sample configuration that a user copies and edits.
    pub fn sample() -> (config: Config)
        ensures
            config.is_sample(),
    {
        let tag = ModbusTag {
            name: "PIT-1001".to_owned(),
            description: "Nothing".to_owned(),
            address: 0,
            value: ModbusValueType::IntHolding,
        };
        let mut tags: Vec<ModbusTag> = Vec::new();
        tags.push(tag);
        let device = DeviceConfig {
            name: "PLC_2".to_owned(),
            device_type: DeviceType::ModbusTcp(
                ModbusTcpConfig { ip: "192.168.0.1".to_owned(), port: 5502, tags },
            ),
        };
        let mut devices: Vec<DeviceConfig> = Vec::new();
        devices.push(device);
        Config { poll_period: 60, devices, database_path: "./db.sqlite".to_owned() }
    }
}

} // verus!
