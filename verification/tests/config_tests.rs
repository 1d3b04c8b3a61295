use btsnoop_extcap::config::{
    BoolFlagConfig, BooleanConfig, ConfigExtGenerated, ConfigOptionValue, EditSelectorConfig,
    FileSelectConfig, IntegerConfig, LongConfig, MultiCheckConfig, MultiCheckValue,
    PasswordConfig, RadioConfig, SelectorConfig, StringConfig, TimestampConfig, UnsignedConfig,
};
use btsnoop_extcap::session::{
    capture_closed_message, default_device_log_path, resolve_log_source, root_declined_message,
    tail_command, LogSource,
};

fn opt(value: &str, display: &str, default: bool) -> ConfigOptionValue {
    ConfigOptionValue {
        value: value.to_string(),
        display: display.to_string(),
        default,
    }
}

#[test]
fn selector_sentences() {
    let selector = SelectorConfig {
        config_number: 3,
        call: "remote".to_string(),
        display: "Remote Channel".to_string(),
        tooltip: Some("Remote Channel Selector".to_string()),
        reload: false,
        placeholder: None,
        options: vec![opt("if1", "Remote1", true), opt("if2", "Remote2", false)],
    };
    assert_eq!(
        selector.format_config(),
        "arg {number=3}{call=--remote}{display=Remote Channel}{tooltip=Remote Channel Selector}{type=selector}\nvalue {arg=3}{value=if1}{display=Remote1}{default=true}\nvalue {arg=3}{value=if2}{display=Remote2}{default=false}\n"
    );
    assert_eq!(selector.call(), "remote");
}

#[test]
fn selector_with_reload_marks_it() {
    let selector = SelectorConfig {
        config_number: 7,
        call: "chan".to_string(),
        display: "Channel".to_string(),
        tooltip: None,
        reload: true,
        placeholder: Some("pick one".to_string()),
        options: vec![],
    };
    assert_eq!(
        selector.format_config(),
        "arg {number=7}{call=--chan}{display=Channel}{placeholder=pick one}{type=selector}{reload=true}\n"
    );
}

#[test]
fn edit_selector_sentences() {
    let config = EditSelectorConfig {
        config_number: 3,
        call: "remote".to_string(),
        display: "Remote Channel".to_string(),
        tooltip: Some("Remote Channel Selector".to_string()),
        reload: false,
        placeholder: None,
        options: vec![opt("if1", "Remote1", true), opt("if2", "Remote2", false)],
    };
    assert_eq!(
        config.format_config(),
        "arg {number=3}{call=--remote}{display=Remote Channel}{tooltip=Remote Channel Selector}{type=editselector}\nvalue {arg=3}{value=if1}{display=Remote1}{default=true}\nvalue {arg=3}{value=if2}{display=Remote2}{default=false}\n"
    );
}

#[test]
fn radio_sentences() {
    let config = RadioConfig {
        config_number: 3,
        call: "remote".to_string(),
        display: "Remote Channel".to_string(),
        tooltip: Some("Remote Channel Selector".to_string()),
        group: None,
        options: vec![opt("if1", "Remote1", true), opt("if2", "Remote2", false)],
    };
    assert_eq!(
        config.format_config(),
        "arg {number=3}{call=--remote}{display=Remote Channel}{tooltip=Remote Channel Selector}{type=radio}\nvalue {arg=3}{value=if1}{display=Remote1}{default=true}\nvalue {arg=3}{value=if2}{display=Remote2}{default=false}\n"
    );
}

#[test]
fn multicheck_sentences_including_nested_children() {
    let config = MultiCheckConfig {
        config_number: 3,
        call: "multi".to_string(),
        display: "Remote Channel".to_string(),
        tooltip: Some("Remote Channel Selector".to_string()),
        group: None,
        options: vec![
            MultiCheckValue {
                value: "if1".to_string(),
                display: "Remote1".to_string(),
                default_value: true,
                enabled: true,
                children: vec![],
            },
            MultiCheckValue {
                value: "if2".to_string(),
                display: "Remote2".to_string(),
                default_value: false,
                enabled: true,
                children: vec![
                    MultiCheckValue {
                        value: "if2a".to_string(),
                        display: "Remote2A".to_string(),
                        default_value: true,
                        enabled: true,
                        children: vec![],
                    },
                    MultiCheckValue {
                        value: "if2b".to_string(),
                        display: "Remote2B".to_string(),
                        default_value: true,
                        enabled: true,
                        children: vec![],
                    },
                ],
            },
        ],
    };
    assert_eq!(
        config.format_config(),
        "arg {number=3}{call=--multi}{display=Remote Channel}{tooltip=Remote Channel Selector}{type=multicheck}\nvalue {arg=3}{value=if1}{display=Remote1}{default=true}{enabled=true}\nvalue {arg=3}{value=if2}{display=Remote2}{default=false}{enabled=true}\nvalue {arg=3}{value=if2a}{display=Remote2A}{default=true}{enabled=true}{parent=if2}\nvalue {arg=3}{value=if2b}{display=Remote2B}{default=true}{enabled=true}{parent=if2}\n"
    );
}

#[test]
fn long_sentence_with_negative_range() {
    let config = LongConfig {
        config_number: 0,
        call: "delay".to_string(),
        display: "Time delay".to_string(),
        tooltip: Some("Time delay between packages".to_string()),
        range: Some((-2, 15)),
        default_value: 0,
        group: None,
    };
    assert_eq!(
        config.format_config(),
        "arg {number=0}{call=--delay}{display=Time delay}{tooltip=Time delay between packages}{range=-2,15}{default=0}{type=long}\n"
    );
}

#[test]
fn integer_sentence_with_negative_range() {
    let config = IntegerConfig {
        config_number: 0,
        call: "delay".to_string(),
        display: "Time delay".to_string(),
        tooltip: Some("Time delay between packages".to_string()),
        range: Some((-10, 15)),
        default_value: 0,
    };
    assert_eq!(
        config.format_config(),
        "arg {number=0}{call=--delay}{display=Time delay}{tooltip=Time delay between packages}{range=-10,15}{default=0}{type=integer}\n"
    );
}

#[test]
fn unsigned_sentence() {
    let config = UnsignedConfig {
        config_number: 0,
        call: "delay".to_string(),
        display: "Time delay".to_string(),
        tooltip: Some("Time delay between packages".to_string()),
        range: Some((1, 15)),
        default_value: 0,
    };
    assert_eq!(
        config.format_config(),
        "arg {number=0}{call=--delay}{display=Time delay}{tooltip=Time delay between packages}{range=1,15}{default=0}{type=unsigned}\n"
    );
}

#[test]
fn string_sentence_with_validation() {
    let config = StringConfig {
        config_number: 1,
        call: "server".to_string(),
        display: "IP Address".to_string(),
        tooltip: Some("IP Address for log server".to_string()),
        placeholder: None,
        required: false,
        validation: Some(r"\d\d\d\d".to_string()),
        save: false,
    };
    assert_eq!(
        config.format_config(),
        "arg {number=1}{call=--server}{display=IP Address}{tooltip=IP Address for log server}{validation=\\d\\d\\d\\d}{type=string}\n"
    );
}

#[test]
fn string_sentence_with_required_and_save() {
    let config = StringConfig {
        config_number: 2,
        call: "name".to_string(),
        display: "Name".to_string(),
        tooltip: None,
        placeholder: None,
        required: true,
        validation: None,
        save: true,
    };
    assert_eq!(
        config.format_config(),
        "arg {number=2}{call=--name}{display=Name}{required=true}{save=true}{type=string}\n"
    );
}

#[test]
fn password_sentence() {
    let config = PasswordConfig {
        config_number: 0,
        call: "password".to_string(),
        display: "The user password".to_string(),
        tooltip: Some("The password for the connection".to_string()),
        placeholder: None,
        required: false,
        validation: None,
    };
    assert_eq!(
        config.format_config(),
        "arg {number=0}{call=--password}{display=The user password}{tooltip=The password for the connection}{type=password}\n"
    );
}

#[test]
fn timestamp_sentence() {
    let config = TimestampConfig {
        config_number: 9,
        call: "ts".to_string(),
        display: "Start Time".to_string(),
        tooltip: Some("Capture start time".to_string()),
        group: "Time / Log".to_string(),
    };
    assert_eq!(
        config.format_config(),
        "arg {number=9}{call=--ts}{display=Start Time}{tooltip=Capture start time}{group=Time / Log}{type=timestamp}\n"
    );
}

#[test]
fn file_select_sentence() {
    let config = FileSelectConfig {
        config_number: 3,
        call: "logfile".to_string(),
        display: "Logfile".to_string(),
        tooltip: Some("A file for log messages".to_string()),
        group: None,
        must_exist: false,
    };
    assert_eq!(
        config.format_config(),
        "arg {number=3}{call=--logfile}{display=Logfile}{tooltip=A file for log messages}{type=fileselect}{mustexist=false}\n"
    );
}

#[test]
fn boolean_and_boolflag_sentences() {
    let config = BooleanConfig {
        config_number: 2,
        call: "verify".to_string(),
        display: "Verify".to_string(),
        tooltip: Some("Verify package content".to_string()),
        default_value: false,
    };
    assert_eq!(
        config.format_config(),
        "arg {number=2}{call=--verify}{display=Verify}{tooltip=Verify package content}{type=boolean}\n"
    );
    let config = BoolFlagConfig {
        config_number: 2,
        call: "verify".to_string(),
        display: "Verify".to_string(),
        tooltip: Some("Verify package content".to_string()),
        default_value: true,
    };
    assert_eq!(
        config.format_config(),
        "arg {number=2}{call=--verify}{display=Verify}{tooltip=Verify package content}{default=true}{type=boolflag}\n"
    );
}

#[test]
fn option_value_sentence() {
    let value = opt("if1", "Remote1", true);
    assert_eq!(
        value.format_value(3),
        "value {arg=3}{value=if1}{display=Remote1}{default=true}\n"
    );
}

#[test]
fn log_source_resolution() {
    match resolve_log_source("local:tests/testdata/btsnoop_hci.log") {
        LogSource::LocalFile(p) => assert_eq!(p, "tests/testdata/btsnoop_hci.log"),
        _ => panic!("expected a local file"),
    }
    match resolve_log_source("/data/misc/bluetooth/logs/btsnoop_hci.log") {
        LogSource::DeviceFile(p) => assert_eq!(p, "/data/misc/bluetooth/logs/btsnoop_hci.log"),
        _ => panic!("expected a device file"),
    }
    assert_eq!(
        default_device_log_path(),
        "/data/misc/bluetooth/logs/btsnoop_hci.log"
    );
}

#[test]
fn tail_command_text() {
    assert_eq!(
        tail_command("/data/log.bin"),
        "until [ -f '/data/log.bin' ]; do sleep 1; done; tail -f -c +0 '/data/log.bin'"
    );
}

#[test]
fn session_status_messages() {
    assert_eq!(capture_closed_message(), "BT capture connection closed");
    assert_eq!(
        root_declined_message(),
        "Unable to get root access. Make sure your device is rooted or on a userdebug/eng build"
    );
}
