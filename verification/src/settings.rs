use vstd::prelude::*;

verus! {

/// What the program is run with: where its pid file goes, and which
/// configuration file it was pointed to, if any.
#[derive(Debug, Clone, PartialEq, Eq)]
pub struct Settings {
    pid_file_path: Option<String>,
    config_file_path: Option<String>,
}

/// Settings as plain text.
pub struct SettingsView {
    pub pid_file_path: Option<Seq<char>>,
    pub config_file_path: Option<Seq<char>>,
}

impl View for Settings {
    type V = SettingsView;

    closed spec fn view(&self) -> SettingsView {
        SettingsView {
            pid_file_path: self.pid_file_path.deep_view(),
            config_file_path: self.config_file_path.deep_view(),
        }
    }
}

/// What a command line holds, as far as the program looks at it.
#[derive(Debug, Clone, PartialEq, Eq)]
pub struct CommandLine {
    /// The help flag is there.
    pub help: bool,
    /// The value of the option for the configuration file.
    pub config_file: Option<String>,
    /// The value of the option for the pid file.
    pub pid_file: Option<String>,
    /// The text that explains the options.
    pub usage: String,
}

/// A command line as plain text.
pub struct CommandLineView {
    pub help: bool,
    pub config_file: Option<Seq<char>>,
    pub pid_file: Option<Seq<char>>,
    pub usage: Seq<char>,
}

impl View for CommandLine {
    type V = CommandLineView;

    open spec fn view(&self) -> CommandLineView {
        CommandLineView {
            help: self.help,
            config_file: self.config_file.deep_view(),
            pid_file: self.pid_file.deep_view(),
            usage: self.usage@,
        }
    }
}

/// What a configuration file holds under one key.
#[derive(Debug, Clone, PartialEq, Eq)]
pub enum ConfigEntry {
    /// The key is not there.
    Missing,
    /// The key holds this text.
    Text(String),
    /// The key holds something that is no text.
    NotText,
}

/// A configuration entry as plain text.
pub enum ConfigEntryView {
    Missing,
    Text(Seq<char>),
    NotText,
}

impl View for ConfigEntry {
    type V = ConfigEntryView;

    open spec fn view(&self) -> ConfigEntryView {
        match self {
            ConfigEntry::Missing => ConfigEntryView::Missing,
            ConfigEntry::Text(text) => ConfigEntryView::Text(text@),
            ConfigEntry::NotText => ConfigEntryView::NotText,
        }
    }
}

/// One place where a configuration file is not what it should be: from a
/// line and column to a line and column, all counted from zero, and what is
/// wrong there.
#[derive(Debug, Clone, PartialEq, Eq)]
pub struct ConfigFault {
    pub lo_line: usize,
    pub lo_col: usize,
    pub hi_line: usize,
    pub hi_col: usize,
    pub desc: String,
}

/// A fault as plain values.
pub struct ConfigFaultView {
    pub lo_line: usize,
    pub lo_col: usize,
    pub hi_line: usize,
    pub hi_col: usize,
    pub desc: Seq<char>,
}

impl View for ConfigFault {
    type V = ConfigFaultView;

    open spec fn view(&self) -> ConfigFaultView {
        ConfigFaultView {
            lo_line: self.lo_line,
            lo_col: self.lo_col,
            hi_line: self.hi_line,
            hi_col: self.hi_col,
            desc: self.desc@,
        }
    }
}

/// Why there are no settings.
#[derive(Debug, Clone, PartialEq, Eq)]
pub enum SettingsError {
    /// The command line is not one the program takes; the text says why.
    BadCommandLine(String),
    /// The configuration file could not be read as one; the faults say where.
    BadConfig(Vec<ConfigFault>),
    /// The configuration file gives the pid file as something that is no
    /// text.
    PidFileNotText,
}

/// An error as plain values.
pub enum SettingsErrorView {
    BadCommandLine(Seq<char>),
    BadConfig(Seq<ConfigFaultView>),
    PidFileNotText,
}

impl View for SettingsError {
    type V = SettingsErrorView;

    open spec fn view(&self) -> SettingsErrorView {
        match self {
            SettingsError::BadCommandLine(why) => SettingsErrorView::BadCommandLine(why@),
            SettingsError::BadConfig(faults) => SettingsErrorView::BadConfig(faults_view(*faults)),
            SettingsError::PidFileNotText => SettingsErrorView::PidFileNotText,
        }
    }
}

/// A list of faults as plain values.
pub open spec fn faults_view(faults: Vec<ConfigFault>) -> Seq<ConfigFaultView> {
    faults@.map_values(|fault: ConfigFault| fault@)
}

/// What reading a command line came to, as plain values.
pub open spec fn command_line_view(r: Result<CommandLine, String>) -> Result<
    CommandLineView,
    Seq<char>,
> {
    match r {
        Ok(command_line) => Ok(command_line@),
        Err(why) => Err(why@),
    }
}

/// What looking up a key in a configuration text came to, as plain values.
pub open spec fn config_entry_view(r: Result<ConfigEntry, Vec<ConfigFault>>) -> Result<
    ConfigEntryView,
    Seq<ConfigFaultView>,
> {
    match r {
        Ok(entry) => Ok(entry@),
        Err(faults) => Err(faults_view(faults)),
    }
}

/// What `getopts` makes of the arguments `args` of the program `program`,
/// given the three options of this program.
pub uninterp spec fn command_line_of(program: Seq<char>, args: Seq<Seq<char>>) -> Result<
    CommandLineView,
    Seq<char>,
>;

/// What the `toml` parser finds under the top-level key `key` of the
/// configuration text `text`.
pub uninterp spec fn config_entry_of(text: Seq<char>, key: Seq<char>) -> Result<
    ConfigEntryView,
    Seq<ConfigFaultView>,
>;

/// Hands the arguments to `getopts::Options::parse`, with the options `-p`
/// for the pid file, `-c` for the configuration file and `-h` for help, and
/// takes the help flag and the two values out of its `Matches`, or the text
/// of its `Fail`. The explanation of the options is that of
/// `getopts::Options::usage`. The result depends on the arguments alone; no
/// more is claimed of it.
#[verifier::external_body]
fn getopts_command_line(program: &str, args: &Vec<String>) -> (r: Result<CommandLine, String>)
    ensures
        command_line_view(r) == command_line_of(program@, args.deep_view()),
{
    let mut opts = getopts::Options::new();
    opts.optopt("p", "pid_file", "set location for pid file", "PID");
    opts.optopt("c", "config_file", "set location of config file", "CFG");
    opts.optflag("h", "help", "print this help message and exit");
    let usage = opts.usage(&format!("Usage: {} [options]", program));
    let found = opts.parse(args).map_err(|f| f.to_string())?;
    let (config_file, pid_file) = (found.opt_str("c"), found.opt_str("p"));
    Ok(CommandLine { help: found.opt_present("h"), config_file, pid_file, usage })
}

/// Parses the text with `toml::Parser::parse` and looks the key up in the
/// table that comes out, telling a string from any other value with
/// `toml::Value::as_str`. Where the parser gives no table, each of its errors
/// is handed on with its two byte offsets turned into line and column by
/// `toml::Parser::to_linecol`. The result depends on the text and the key
/// alone; no more is claimed of it.
#[verifier::external_body]
fn toml_entry(text: &str, key: &str) -> (r: Result<ConfigEntry, Vec<ConfigFault>>)
    ensures
        config_entry_view(r) == config_entry_of(text@, key@),
{
    let mut parser = toml::Parser::new(text);
    match parser.parse() {
        Some(table) => Ok(match table.get(key) {
            None => ConfigEntry::Missing,
            Some(value) => match value.as_str() {
                Some(text) => ConfigEntry::Text(text.to_string()),
                None => ConfigEntry::NotText,
            },
        }),
        None => Err(parser.errors.iter().map(|e| {
            fault_at(parser.to_linecol(e.lo), parser.to_linecol(e.hi), &e.desc)
        }).collect()),
    }
}

/// The fault between two places, each a line and a column.
pub fn fault_at(lo: (usize, usize), hi: (usize, usize), desc: &String) -> (fault: ConfigFault)
    ensures
        fault@ == (ConfigFaultView {
            lo_line: lo.0,
            lo_col: lo.1,
            hi_line: hi.0,
            hi_col: hi.1,
            desc: desc@,
        }),
{
    ConfigFault { lo_line: lo.0, lo_col: lo.1, hi_line: hi.0, hi_col: hi.1, desc: desc.clone() }
}

/// The key under which a configuration file gives the pid file.
pub open spec fn pid_file_key() -> Seq<char> {
    "pid_file"@
}

/// What an entry for the pid file makes of settings: a text is taken as
/// the place of the pid file, a missing entry changes nothing, and anything
/// else is an error.
pub open spec fn with_config_entry(
    settings: SettingsView,
    entry: Result<ConfigEntryView, Seq<ConfigFaultView>>,
) -> Result<SettingsView, SettingsErrorView> {
    match entry {
        Ok(ConfigEntryView::Missing) => Ok(settings),
        Ok(ConfigEntryView::Text(path)) => Ok(
            SettingsView { pid_file_path: Some(path), config_file_path: settings.config_file_path },
        ),
        Ok(ConfigEntryView::NotText) => Err(SettingsErrorView::PidFileNotText),
        Err(faults) => Err(SettingsErrorView::BadConfig(faults)),
    }
}

/// What a command line and the entry for the pid file of the configuration
/// file it names, where that file could be read, come to: no settings where
/// help is asked for; else the configuration file that the command line
/// names, with the pid file of the command line, or else of the
/// configuration file, or else none.
pub open spec fn settings_of(
    command_line: CommandLineView,
    entry: Option<Result<ConfigEntryView, Seq<ConfigFaultView>>>,
) -> Result<Option<SettingsView>, SettingsErrorView> {
    if command_line.help {
        Ok(None)
    } else {
        let named = SettingsView {
            pid_file_path: None,
            config_file_path: command_line.config_file,
        };
        let loaded = if command_line.config_file is Some && entry is Some {
            with_config_entry(named, entry->0)
        } else {
            Ok(named)
        };
        match loaded {
            Err(e) => Err(e),
            Ok(settings) => Ok(
                Some(
                    if command_line.pid_file is Some {
                        SettingsView {
                            pid_file_path: command_line.pid_file,
                            config_file_path: settings.config_file_path,
                        }
                    } else {
                        settings
                    },
                ),
            ),
        }
    }
}

/// What making settings came to, as plain values.
pub open spec fn settings_result_view(r: Result<Option<Settings>, SettingsError>) -> Result<
    Option<SettingsView>,
    SettingsErrorView,
> {
    match r {
        Ok(Some(settings)) => Ok(Some(settings@)),
        Ok(None) => Ok(None),
        Err(e) => Err(e@),
    }
}

impl Default for Settings {
    /// Settings with no pid file and no configuration file.
    fn default() -> (settings: Settings)
        ensures
            settings@ == (SettingsView { pid_file_path: None, config_file_path: None }),
    {
        Settings { pid_file_path: None, config_file_path: None }
    }
}

impl Settings {
    /// Where the pid file goes, if anywhere.
    pub fn pid_file_path<'a>(&'a self) -> (path: Option<&'a str>)
        ensures
            path.deep_view() == self@.pid_file_path,
    {
        match &self.pid_file_path {
            Some(s) => Some(s.as_str()),
            None => None,
        }
    }

    /// The configuration file that the program was pointed to, if any.
    pub fn config_file_path<'a>(&'a self) -> (path: Option<&'a str>)
        ensures
            path.deep_view() == self@.config_file_path,
    {
        match &self.config_file_path {
            Some(s) => Some(s.as_str()),
            None => None,
        }
    }
}

/// Reads the arguments that follow the name of the program. The command
/// line is taken where `getopts` takes it, and refused with its words where
/// it does not.
pub fn parse_command_line(program: &str, args: &Vec<String>) -> (r: Result<
    CommandLine,
    SettingsError,
>)
    ensures
        match command_line_of(program@, args.deep_view()) {
            Ok(taken) => r is Ok && r->Ok_0@ == taken,
            Err(why) => r is Err && r->Err_0@ == SettingsErrorView::BadCommandLine(why),
        },
{
    match getopts_command_line(program, args) {
        Ok(command_line) => Ok(command_line),
        Err(why) => Err(SettingsError::BadCommandLine(why)),
    }
}

/// Takes what a configuration file holds for the pid file into the
/// settings. On an error the settings stay as they were.
pub fn apply_config_entry(
    settings: &mut Settings,
    entry: Result<ConfigEntry, Vec<ConfigFault>>,
) -> (r: Result<(), SettingsError>)
    ensures
        match with_config_entry(old(settings)@, config_entry_view(entry)) {
            Ok(loaded) => r is Ok && final(settings)@ == loaded,
            Err(e) => r is Err && r->Err_0@ == e && final(settings)@ == old(settings)@,
        },
{
    match entry {
        Ok(ConfigEntry::Missing) => Ok(()),
        Ok(ConfigEntry::Text(path)) => {
            settings.pid_file_path = Some(path);
            Ok(())
        },
        Ok(ConfigEntry::NotText) => Err(SettingsError::PidFileNotText),
        Err(faults) => Err(SettingsError::BadConfig(faults)),
    }
}

/// Loads the text of a configuration file into the settings: the place of
/// the pid file, where the file gives one. On an error the settings stay as
/// they were.
pub fn load_config(settings: &mut Settings, config_text: &str) -> (r: Result<(), SettingsError>)
    ensures
        match with_config_entry(old(settings)@, config_entry_of(config_text@, pid_file_key())) {
            Ok(loaded) => r is Ok && final(settings)@ == loaded,
            Err(e) => r is Err && r->Err_0@ == e && final(settings)@ == old(settings)@,
        },
{
    let entry = toml_entry(config_text, "pid_file");
    apply_config_entry(settings, entry)
}

/// Makes the settings from a command line and the text of the configuration
/// file that it names, where there is one and it could be read. The
/// configuration file is loaded first, the command line after it, so that
/// what the command line says of the pid file stands.
pub fn get_settings(command_line: CommandLine, config_text: Option<&str>) -> (r: Result<
    Option<Settings>,
    SettingsError,
>)
    ensures
        settings_result_view(r) == settings_of(
            command_line@,
            match config_text {
                Some(text) => Some(config_entry_of(text@, pid_file_key())),
                None => None,
            },
        ),
{
    if command_line.help {
        return Ok(None);
    }
    let mut settings = Settings::default();
    settings.config_file_path = command_line.config_file;
    if settings.config_file_path.is_some() {
        match config_text {
            Some(text) => match load_config(&mut settings, text) {
                Ok(()) => {},
                Err(e) => { return Err(e); },
            },
            None => {},
        }
    }
    match command_line.pid_file {
        Some(path) => {
            settings.pid_file_path = Some(path);
        },
        None => {},
    }
    Ok(Some(settings))
}

} // verus!
