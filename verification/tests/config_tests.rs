use statemachine::config::{
    deserialize_level_filter, serialize_level_filter, Args, Configuration, LevelFilter,
    LevelFilterError,
};

const ALL: [LevelFilter; 6] = [
    LevelFilter::Off,
    LevelFilter::Error,
    LevelFilter::Warn,
    LevelFilter::Info,
    LevelFilter::Debug,
    LevelFilter::Trace,
];

#[test]
fn level_filter_names_are_read() {
    assert_eq!(deserialize_level_filter("off").unwrap(), LevelFilter::Off);
    assert_eq!(deserialize_level_filter("error").unwrap(), LevelFilter::Error);
    assert_eq!(deserialize_level_filter("warn").unwrap(), LevelFilter::Warn);
    assert_eq!(deserialize_level_filter("info").unwrap(), LevelFilter::Info);
    assert_eq!(deserialize_level_filter("debug").unwrap(), LevelFilter::Debug);
    assert_eq!(deserialize_level_filter("trace").unwrap(), LevelFilter::Trace);
}

#[test]
fn level_filter_other_text_is_refused() {
    for text in ["Info", "INFO", "", "warning", "info ", "verbose"] {
        let err: LevelFilterError = deserialize_level_filter(text).unwrap_err();
        assert_eq!(err.input, text);
    }
    assert_eq!(LevelFilterError::expected(), "a string containing valid values");
}

#[test]
fn level_filter_names_are_written() {
    assert_eq!(serialize_level_filter(&LevelFilter::Off), "off");
    assert_eq!(serialize_level_filter(&LevelFilter::Error), "error");
    assert_eq!(serialize_level_filter(&LevelFilter::Warn), "warn");
    assert_eq!(serialize_level_filter(&LevelFilter::Info), "info");
    assert_eq!(serialize_level_filter(&LevelFilter::Debug), "debug");
    assert_eq!(serialize_level_filter(&LevelFilter::Trace), "trace");
}

#[test]
fn level_filter_round_trips() {
    for level in ALL {
        let text = serialize_level_filter(&level);
        assert_eq!(deserialize_level_filter(text).unwrap(), level);
        assert_eq!(serialize_level_filter(&deserialize_level_filter(text).unwrap()), text);
    }
}

#[test]
fn configuration_default_is_info_on_8081() {
    let config = Configuration::default();
    assert_eq!(config.log_level, LevelFilter::Info);
    assert_eq!(config.port, 8081);
}

#[test]
fn config_path_defaults_to_config_yml() {
    let args = Args { verbose: false, debug: false, config_file: None };
    assert_eq!(args.config_path(), "config.yml");
    let args = Args { verbose: true, debug: false, config_file: Some("/etc/service.yml".to_string()) };
    assert_eq!(args.config_path(), "/etc/service.yml");
}

#[test]
fn configuration_flags_decide_level_filter() {
    let file = Configuration { log_level: LevelFilter::Error, port: 9000 };
    let quiet = Args { verbose: false, debug: false, config_file: None };
    let verbose = Args { verbose: true, debug: false, config_file: None };
    let debug = Args { verbose: false, debug: true, config_file: None };
    let both = Args { verbose: true, debug: true, config_file: None };
    assert_eq!(Configuration::new(&quiet, file), Configuration { log_level: LevelFilter::Info, port: 9000 });
    assert_eq!(Configuration::new(&verbose, file), Configuration { log_level: LevelFilter::Debug, port: 9000 });
    assert_eq!(Configuration::new(&debug, file), Configuration { log_level: LevelFilter::Trace, port: 9000 });
    assert_eq!(Configuration::new(&both, file), Configuration { log_level: LevelFilter::Trace, port: 9000 });
}

#[test]
fn configuration_file_level_filter_is_ignored() {
    let quiet = Args { verbose: false, debug: false, config_file: None };
    let a = Configuration::new(&quiet, Configuration { log_level: LevelFilter::Off, port: 1 });
    let b = Configuration::new(&quiet, Configuration { log_level: LevelFilter::Trace, port: 1 });
    assert_eq!(a, b);
    assert_eq!(a.log_level, LevelFilter::Info);
}
