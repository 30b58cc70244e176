use modbus_logger::config::{
    clone_tags, Config, DeviceConfig, DeviceType, ModbusRtuConfig, ModbusTag, ModbusTcpConfig,
    ModbusValueType,
};
use modbus_logger::poller::{Action, Phase, PollSettings};
use modbus_logger::supervisor::{launch_for, launch_plan, schema_statements, Launch};

fn tag(name: &str, address: u16, value: ModbusValueType) -> ModbusTag {
    ModbusTag { name: name.to_string(), description: "d".to_string(), address, value }
}

fn plant() -> Config {
    Config {
        poll_period: 15,
        devices: vec![
            DeviceConfig {
                name: "Boiler".to_string(),
                device_type: DeviceType::ModbusTcp(ModbusTcpConfig {
                    ip: "127.0.0.1".to_string(),
                    port: 1502,
                    tags: vec![
                        tag("TT-1", 10, ModbusValueType::RealHolding),
                        tag("PT-1", 12, ModbusValueType::IntHolding),
                    ],
                }),
            },
            DeviceConfig {
                name: "Pump".to_string(),
                device_type: DeviceType::ModbusRtu(ModbusRtuConfig {
                    com: "COM3".to_string(),
                    baudrate: 9600,
                    tags: vec![tag("S-1", 0, ModbusValueType::Coil)],
                }),
            },
            DeviceConfig { name: "Line".to_string(), device_type: DeviceType::OpcUa },
            DeviceConfig { name: "Robot".to_string(), device_type: DeviceType::EthernetIp },
            DeviceConfig { name: "Press".to_string(), device_type: DeviceType::S7 },
            DeviceConfig {
                name: "Chiller".to_string(),
                device_type: DeviceType::ModbusTcp(ModbusTcpConfig {
                    ip: "127.0.0.2".to_string(),
                    port: 502,
                    tags: vec![],
                }),
            },
        ],
        database_path: "plant.sqlite".to_string(),
    }
}

#[test]
fn sample_config_is_the_documented_one() {
    let expected = Config {
        poll_period: 60,
        devices: vec![DeviceConfig {
            name: "PLC_2".to_string(),
            device_type: DeviceType::ModbusTcp(ModbusTcpConfig {
                ip: "192.168.0.1".to_string(),
                port: 5502,
                tags: vec![ModbusTag {
                    name: "PIT-1001".to_string(),
                    description: "Nothing".to_string(),
                    address: 0,
                    value: ModbusValueType::IntHolding,
                }],
            }),
        }],
        database_path: "./db.sqlite".to_string(),
    };
    assert_eq!(Config::sample(), expected);
}

#[test]
fn clone_tags_keeps_tags_and_order() {
    let tags = vec![
        tag("a", 1, ModbusValueType::IntInput),
        tag("b", 2, ModbusValueType::Coil),
        tag("c", 3, ModbusValueType::RealInput),
    ];
    assert_eq!(clone_tags(&tags), tags);
    assert_eq!(clone_tags(&vec![]), Vec::<ModbusTag>::new());
    assert_eq!(tags[1].clone(), tag("b", 2, ModbusValueType::Coil));
}

#[test]
fn launch_plan_has_one_entry_for_each_device() {
    let config = plant();
    let plan = launch_plan(&config);
    assert_eq!(plan.len(), 6);
    match &plan[0] {
        Launch::Poll(poller) => {
            assert_eq!(poller.device_name(), "Boiler");
            assert_eq!(poller.ip(), "127.0.0.1");
            assert_eq!(poller.port(), 1502);
            assert_eq!(
                poller.tags(),
                &vec![
                    tag("TT-1", 10, ModbusValueType::RealHolding),
                    tag("PT-1", 12, ModbusValueType::IntHolding),
                ]
            );
            assert_eq!(
                poller.settings(),
                PollSettings { poll_period: 15, reconnect_delay: 5, connect_timeout: 5 }
            );
            assert_eq!(poller.state().phase, Phase::Connecting);
            assert_eq!(poller.pending(), Action::Connect { timeout_secs: 5 });
        }
        _ => panic!("a stream-socket device is polled"),
    }
    assert!(matches!(plan[1], Launch::Announce));
    assert!(matches!(plan[2], Launch::Skip));
    assert!(matches!(plan[3], Launch::Skip));
    assert!(matches!(plan[4], Launch::Skip));
    match &plan[5] {
        Launch::Poll(poller) => {
            assert_eq!(poller.device_name(), "Chiller");
            assert!(poller.tags().is_empty());
        }
        _ => panic!("a stream-socket device is polled"),
    }
}

#[test]
fn launch_plan_of_no_devices_is_empty() {
    let config =
        Config { poll_period: 1, devices: vec![], database_path: "x".to_string() };
    assert!(launch_plan(&config).is_empty());
    assert!(schema_statements(&config).is_empty());
}

#[test]
fn launch_for_uses_the_given_settings() {
    let config = plant();
    let settings = PollSettings { poll_period: 3, reconnect_delay: 9, connect_timeout: 1 };
    match launch_for(&config.devices[0], settings) {
        Launch::Poll(poller) => {
            assert_eq!(poller.settings(), settings);
            assert_eq!(poller.pending(), Action::Connect { timeout_secs: 1 });
        }
        _ => panic!("a stream-socket device is polled"),
    }
    assert!(matches!(launch_for(&config.devices[1], settings), Launch::Announce));
    assert!(matches!(launch_for(&config.devices[2], settings), Launch::Skip));
}

#[test]
fn schema_statements_cover_every_device() {
    let statements = schema_statements(&plant());
    let names = ["Boiler", "Pump", "Line", "Robot", "Press", "Chiller"];
    assert_eq!(statements.len(), names.len());
    for (statement, name) in statements.iter().zip(names) {
        assert_eq!(
            *statement,
            format!(
                "CREATE TABLE IF NOT EXISTS \"{name}\" (id INTEGER PRIMARY KEY, \
                 timestamp INTEGER, tag TEXT NOT NULL, description TEXT NOT NULL, value REAL)"
            )
        );
    }
}
