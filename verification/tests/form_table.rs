use termtastic::form_table::{form_items, position_flag_choices, proto_choices, FormItemKind, Formatter};
use termtastic::formdata::FormValue;
use termtastic::forms::FormItemKey;
use termtastic::radio::ProtoEnum;
use termtastic::types::FormId;

fn text(f: Formatter, v: FormValue) -> Option<String> {
    f.format(&v)
}

#[test]
fn forms_with_field_tables() {
    let expected = [
        (FormId::RadioLora, 15),
        (FormId::DeviceUser, 4),
        (FormId::DeviceDevice, 9),
        (FormId::DevicePosition, 11),
        (FormId::DevicePower, 7),
        (FormId::DeviceDisplay, 10),
        (FormId::DeviceBluetooth, 3),
        (FormId::DeviceNetwork, 7),
        (FormId::ModuleMqtt, 13),
        (FormId::ModuleSerial, 8),
        (FormId::ModuleExternalNotification, 13),
        (FormId::ModuleStoreAndForward, 6),
        (FormId::ModuleRangeTest, 3),
    ];
    for (id, n) in expected {
        assert_eq!(form_items(id).map(|items| items.len()), Some(n));
    }
    assert!(form_items(FormId::RadioChannels).is_none());
    assert!(form_items(FormId::AppUi).is_none());
}

#[test]
fn lora_form_fields() {
    let items = form_items(FormId::RadioLora).unwrap();
    assert_eq!(items[0].title, "Region");
    assert!(matches!(items[0].key, FormItemKey::Simple("region")));
    let bandwidth = &items[3];
    assert_eq!(bandwidth.title, "Bandwidth *");
    assert_eq!(bandwidth.check_value(&FormValue::UnsignedInt32(30)), Err("Must be between 31 and 500".to_string()));
    assert_eq!(bandwidth.check_value(&FormValue::UnsignedInt32(250)), Ok(()));
    assert_eq!(bandwidth.format_value(&FormValue::UnsignedInt32(250)), Some("250 kHz".to_string()));
    let coding_rate = &items[5];
    assert_eq!(coding_rate.format_value(&FormValue::UnsignedInt32(5)), Some("4/5".to_string()));
    match &coding_rate.kind {
        FormItemKind::Enum(vs) => {
            let titles: Vec<&str> = vs.iter().map(|v| v.title.as_str()).collect();
            assert_eq!(titles, vec!["4/5", "4/6", "4/7", "4/8"]);
        },
        _ => panic!("coding rate is a choice"),
    }
    let tx_power = &items[14];
    assert_eq!(tx_power.format_value(&FormValue::Int32(-5)), Some("-5 dBm".to_string()));
    assert!(tx_power.check_value(&FormValue::Int32(101)).is_err());
    assert!(tx_power.check_value(&FormValue::Int32(-100)).is_ok());
    let frequency = &items[13];
    assert!(frequency.check_value(&FormValue::Float32(2500.0f32.to_bits())).is_ok());
    assert!(frequency.check_value(&FormValue::Float32(2500.5f32.to_bits())).is_err());
    assert_eq!(frequency.format_value(&FormValue::Float32(1.0f32.to_bits())), None);
}

#[test]
fn region_names() {
    assert_eq!(text(Formatter::ProtoName(ProtoEnum::RegionCode), FormValue::Int32(1)), Some("US".to_string()));
    assert_eq!(text(Formatter::ProtoName(ProtoEnum::RegionCode), FormValue::Int32(1000)), Some("?".to_string()));
    let choices = proto_choices(ProtoEnum::GpsMode);
    let titles: Vec<&str> = choices.iter().map(|v| v.title.as_str()).collect();
    assert_eq!(titles, vec!["DISABLED", "ENABLED", "NOT_PRESENT"]);
    assert!(matches!(choices[2].value, FormValue::Int32(2)));
    assert_eq!(proto_choices(ProtoEnum::RegionCode).len(), 27);
    assert_eq!(proto_choices(ProtoEnum::SerialBaud)[11].title, "BAUD_115200");
}

#[test]
fn position_flag_bits() {
    let flags = position_flag_choices();
    assert_eq!(flags.len(), 10);
    assert_eq!(flags[0].title, "ALTITUDE");
    assert_eq!(flags[0].value, 1);
    assert_eq!(flags[9].title, "SPEED");
    assert_eq!(flags[9].value, 512);
}

#[test]
fn interval_texts() {
    let f = Formatter::PositionInterval;
    assert_eq!(text(f, FormValue::UnsignedInt32(0)), Some("Default".to_string()));
    assert_eq!(text(f, FormValue::UnsignedInt32(90)), Some("90 seconds".to_string()));
    assert_eq!(text(f, FormValue::UnsignedInt32(900)), Some("15 minutes".to_string()));
    assert_eq!(text(f, FormValue::UnsignedInt32(3600)), Some("1 hour".to_string()));
    assert_eq!(text(f, FormValue::UnsignedInt32(7200)), Some("2 hours".to_string()));
    let g = Formatter::GpsInterval;
    assert_eq!(text(g, FormValue::UnsignedInt32(80)), Some("80 seconds".to_string()));
    assert_eq!(text(g, FormValue::UnsignedInt32(120)), Some("2 minutes".to_string()));
    let s = Formatter::SmartInterval;
    assert_eq!(text(s, FormValue::UnsignedInt32(45)), Some("45 seconds".to_string()));
    assert_eq!(text(s, FormValue::UnsignedInt32(600)), Some("10 minutes".to_string()));
    assert_eq!(text(Formatter::HoursOrUnset, FormValue::UnsignedInt32(10800)), Some("3 hours".to_string()));
    assert_eq!(text(Formatter::HoursOrUnset, FormValue::UnsignedInt32(0)), Some("Unset".to_string()));
    assert_eq!(text(Formatter::Seconds, FormValue::UnsignedInt32(1)), Some("1 second".to_string()));
    assert_eq!(text(Formatter::Seconds, FormValue::UnsignedInt32(30)), Some("30 seconds".to_string()));
    assert_eq!(text(Formatter::Milliseconds, FormValue::UnsignedInt32(5000)), Some("5 seconds".to_string()));
    assert_eq!(text(Formatter::ReportInterval, FormValue::UnsignedInt32(0)), Some("1 hour".to_string()));
    assert_eq!(text(Formatter::ReportInterval, FormValue::UnsignedInt32(86400)), Some("24 hours".to_string()));
    assert_eq!(text(Formatter::SecsOr("Always On"), FormValue::UnsignedInt32(0)), Some("Always On".to_string()));
    assert_eq!(text(Formatter::SecsOr("Always On"), FormValue::UnsignedInt32(30)), Some("30 secs".to_string()));
    let m = Formatter::Minutes { zero: "Off", hour: true };
    assert_eq!(text(m, FormValue::UnsignedInt32(3600)), Some("1 hour".to_string()));
    let c = Formatter::Minutes { zero: "Unset", hour: false };
    assert_eq!(text(c, FormValue::UnsignedInt32(3600)), Some("60 minutes".to_string()));
    assert_eq!(text(Formatter::Plain, FormValue::Bool(true)), Some("true".to_string()));
}

#[test]
fn mqtt_map_report_fields() {
    let items = form_items(FormId::ModuleMqtt).unwrap();
    assert_eq!(items[10].title, "I Agree To Report My Location *");
    match &items[11].key {
        FormItemKey::NestedOption { outer, inner, default_value, .. } => {
            assert_eq!(*outer, "map_report_settings");
            assert_eq!(*inner, "position_precision");
            assert!(matches!(default_value, FormValue::UnsignedInt32(1)));
        },
        _ => panic!("nested key"),
    }
    assert!(items[1].check_value(&FormValue::String("mqtt.meshtastic.org".to_string())).is_ok());
}

#[test]
fn every_choice_list_is_sound() {
    let ids = [
        FormId::RadioLora,
        FormId::DeviceUser,
        FormId::DeviceDevice,
        FormId::DevicePosition,
        FormId::DevicePower,
        FormId::DeviceDisplay,
        FormId::DeviceBluetooth,
        FormId::DeviceNetwork,
        FormId::ModuleMqtt,
        FormId::ModuleSerial,
        FormId::ModuleExternalNotification,
        FormId::ModuleStoreAndForward,
        FormId::ModuleRangeTest,
    ];
    let mut lists = 0;
    for id in ids {
        for item in form_items(id).unwrap() {
            if let FormItemKind::Enum(vs) = &item.kind {
                lists += 1;
                assert!(!vs.is_empty());
                for (i, a) in vs.iter().enumerate() {
                    assert!(item.check_value(&a.value).is_ok());
                    for b in &vs[i + 1..] {
                        assert!(!a.value.eq_value(&b.value));
                    }
                }
            }
        }
    }
    assert!(lists >= 12);
}
