use cpu_monitor::process::pid_file_contents;
use cpu_monitor::reporter::Reporter;
use cpu_monitor::settings::{
    apply_config_entry, fault_at, get_settings, load_config, parse_command_line, CommandLine,
    ConfigEntry, ConfigFault, Settings, SettingsError,
};

fn args(words: &[&str]) -> Vec<String> {
    words.iter().map(|w| w.to_string()).collect()
}

fn command_line(help: bool, config_file: Option<&str>, pid_file: Option<&str>) -> CommandLine {
    CommandLine {
        help,
        config_file: config_file.map(|s| s.to_string()),
        pid_file: pid_file.map(|s| s.to_string()),
        usage: String::new(),
    }
}

#[test]
fn default_settings_name_no_files() {
    let settings = Settings::default();
    assert_eq!(settings.pid_file_path(), None);
    assert_eq!(settings.config_file_path(), None);
}

#[test]
fn command_line_without_options() {
    let parsed = parse_command_line("monitor", &args(&[])).unwrap();
    assert!(!parsed.help);
    assert_eq!(parsed.config_file, None);
    assert_eq!(parsed.pid_file, None);
}

#[test]
fn command_line_with_short_options() {
    let parsed =
        parse_command_line("monitor", &args(&["-p", "/run/m.pid", "-c", "/etc/m.toml"])).unwrap();
    assert!(!parsed.help);
    assert_eq!(parsed.pid_file.as_deref(), Some("/run/m.pid"));
    assert_eq!(parsed.config_file.as_deref(), Some("/etc/m.toml"));
}

#[test]
fn command_line_with_long_options() {
    let parsed =
        parse_command_line("monitor", &args(&["--pid_file=/a", "--config_file", "/b"])).unwrap();
    assert_eq!(parsed.pid_file.as_deref(), Some("/a"));
    assert_eq!(parsed.config_file.as_deref(), Some("/b"));
    assert!(parse_command_line("monitor", &args(&["--help"])).unwrap().help);
    assert!(parse_command_line("monitor", &args(&["-h", "-p", "x"])).unwrap().help);
}

#[test]
fn usage_names_the_program_and_the_options() {
    let parsed = parse_command_line("monitor", &args(&["-h"])).unwrap();
    assert!(parsed.usage.starts_with("Usage: monitor [options]"));
    assert!(parsed.usage.contains("--pid_file PID"));
    assert!(parsed.usage.contains("--config_file CFG"));
    assert!(parsed.usage.contains("--help"));
    assert!(parsed.usage.contains("set location for pid file"));
}

#[test]
fn command_line_that_is_not_taken() {
    assert_eq!(
        parse_command_line("monitor", &args(&["-x"])),
        Err(SettingsError::BadCommandLine("Unrecognized option: 'x'".to_string()))
    );
    assert_eq!(
        parse_command_line("monitor", &args(&["-p"])),
        Err(SettingsError::BadCommandLine("Argument to option 'p' missing".to_string()))
    );
    assert_eq!(
        parse_command_line("monitor", &args(&["-p", "a", "-p", "b"])),
        Err(SettingsError::BadCommandLine("Option 'pid_file' given more than once".to_string()))
    );
    assert_eq!(
        parse_command_line("monitor", &args(&["--help=yes"])),
        Err(SettingsError::BadCommandLine("Option 'help' does not take an argument".to_string()))
    );
}

#[test]
fn help_gives_no_settings() {
    assert_eq!(get_settings(command_line(true, None, None), None), Ok(None));
    assert_eq!(
        get_settings(command_line(true, Some("c"), Some("p")), Some("this is = not toml")),
        Ok(None)
    );
}

#[test]
fn settings_without_a_configuration_file() {
    let settings = get_settings(command_line(false, None, Some("/run/m.pid")), None)
        .unwrap()
        .unwrap();
    assert_eq!(settings.pid_file_path(), Some("/run/m.pid"));
    assert_eq!(settings.config_file_path(), None);
    let settings = get_settings(command_line(false, None, None), None).unwrap().unwrap();
    assert_eq!(settings, Settings::default());
}

#[test]
fn configuration_text_without_a_named_file_is_not_looked_at() {
    let settings = get_settings(command_line(false, None, None), Some("pid_file = \"/x\""))
        .unwrap()
        .unwrap();
    assert_eq!(settings.pid_file_path(), None);
}

#[test]
fn configuration_file_that_could_not_be_read_leaves_the_defaults() {
    let settings =
        get_settings(command_line(false, Some("/etc/m.toml"), None), None).unwrap().unwrap();
    assert_eq!(settings.config_file_path(), Some("/etc/m.toml"));
    assert_eq!(settings.pid_file_path(), None);
}

#[test]
fn configuration_file_gives_the_pid_file() {
    let settings = get_settings(
        command_line(false, Some("/etc/m.toml"), None),
        Some("# monitor\npid_file = \"/var/run/m.pid\"\n"),
    )
    .unwrap()
    .unwrap();
    assert_eq!(settings.pid_file_path(), Some("/var/run/m.pid"));
    assert_eq!(settings.config_file_path(), Some("/etc/m.toml"));
}

#[test]
fn command_line_stands_over_the_configuration_file() {
    let settings = get_settings(
        command_line(false, Some("/etc/m.toml"), Some("/tmp/mine.pid")),
        Some("pid_file = \"/var/run/m.pid\"\n"),
    )
    .unwrap()
    .unwrap();
    assert_eq!(settings.pid_file_path(), Some("/tmp/mine.pid"));
}

#[test]
fn configuration_file_with_a_pid_file_that_is_no_text() {
    assert_eq!(
        get_settings(command_line(false, Some("c"), Some("p")), Some("pid_file = 7\n")),
        Err(SettingsError::PidFileNotText)
    );
    assert_eq!(
        get_settings(command_line(false, Some("c"), None), Some("[pid_file]\nname = \"x\"\n")),
        Err(SettingsError::PidFileNotText)
    );
}

#[test]
fn configuration_file_that_is_no_toml() {
    match get_settings(command_line(false, Some("c"), None), Some("pid_file = \n")) {
        Err(SettingsError::BadConfig(faults)) => {
            assert_eq!(faults.len(), 1);
            assert_eq!(faults[0].desc, "expected a value");
            assert_eq!((faults[0].lo_line, faults[0].lo_col), (0, 11));
        }
        other => panic!("the settings came to {:?}", other),
    }
    match get_settings(command_line(false, Some("c"), None), Some("a = 1\nb = [1, \"x\"]\n")) {
        Err(SettingsError::BadConfig(faults)) => {
            assert!(!faults.is_empty());
            assert_eq!(faults[0].lo_line, 1);
        }
        other => panic!("the settings came to {:?}", other),
    }
}

#[test]
fn loading_a_configuration_keeps_what_it_does_not_name() {
    let mut settings =
        get_settings(command_line(false, Some("c"), Some("/old")), None).unwrap().unwrap();
    assert_eq!(load_config(&mut settings, "other = 1\n"), Ok(()));
    assert_eq!(settings.pid_file_path(), Some("/old"));
    assert_eq!(load_config(&mut settings, ""), Ok(()));
    assert_eq!(settings.pid_file_path(), Some("/old"));
    assert_eq!(load_config(&mut settings, "pid_file = '/new'\n"), Ok(()));
    assert_eq!(settings.pid_file_path(), Some("/new"));
    assert_eq!(settings.config_file_path(), Some("c"));
    assert_eq!(load_config(&mut settings, "pid_file = true\n"), Err(SettingsError::PidFileNotText));
    assert_eq!(settings.pid_file_path(), Some("/new"));
    assert!(load_config(&mut settings, "pid_file\n").is_err());
    assert_eq!(settings.pid_file_path(), Some("/new"));
}

#[test]
fn entries_are_applied_to_settings() {
    let mut settings = Settings::default();
    assert_eq!(apply_config_entry(&mut settings, Ok(ConfigEntry::Missing)), Ok(()));
    assert_eq!(settings, Settings::default());
    assert_eq!(apply_config_entry(&mut settings, Ok(ConfigEntry::Text("/p".to_string()))), Ok(()));
    assert_eq!(settings.pid_file_path(), Some("/p"));
    assert_eq!(
        apply_config_entry(&mut settings, Ok(ConfigEntry::NotText)),
        Err(SettingsError::PidFileNotText)
    );
    assert_eq!(settings.pid_file_path(), Some("/p"));
    let fault = fault_at((1, 2), (3, 4), &"wrong".to_string());
    assert_eq!(
        fault,
        ConfigFault { lo_line: 1, lo_col: 2, hi_line: 3, hi_col: 4, desc: "wrong".to_string() }
    );
    assert_eq!(
        apply_config_entry(&mut settings, Err(vec![fault.clone()])),
        Err(SettingsError::BadConfig(vec![fault]))
    );
    assert_eq!(settings.pid_file_path(), Some("/p"));
}

#[test]
fn pid_file_holds_the_pid_in_decimal() {
    assert_eq!(pid_file_contents(0), b"0".to_vec());
    assert_eq!(pid_file_contents(7), b"7".to_vec());
    assert_eq!(pid_file_contents(10), b"10".to_vec());
    assert_eq!(pid_file_contents(12345), b"12345".to_vec());
    assert_eq!(pid_file_contents(i32::MAX), b"2147483647".to_vec());
    assert_eq!(pid_file_contents(-1), b"-1".to_vec());
    assert_eq!(pid_file_contents(i32::MIN), b"-2147483648".to_vec());
    for pid in [1, 99, 100, 4_194_304, -350] {
        assert_eq!(pid_file_contents(pid), format!("{}", pid).into_bytes());
    }
}

#[test]
fn new_reporter_holds_the_address() {
    let reporter = Reporter::new("https".to_string(), "metrics.example".to_string(), 8086);
    assert_eq!(reporter.protocol(), "https");
    assert_eq!(reporter.host(), "metrics.example");
    assert_eq!(reporter.port(), 8086);
}
