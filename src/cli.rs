//! The command line as plain values, and what each command asks the program
//! to do. Parsing the arguments and carrying out the actions is left to the
//! program around the library.
use vstd::prelude::*;

use crate::ping::PingMode;

verus! {

/// How verbose logging is.
#[derive(Debug, Clone, Copy, PartialEq, Eq, Structural)]
pub enum LogLevel {
    Debug,
    Info,
}

/// Where log lines go.
#[derive(Debug, Clone)]
pub enum LogWritingBehaviour {
    TerminalOnly,
    /// The terminal and a new file in the logs directory.
    TerminalAndDefaultFile,
    TerminalAndSpecificFile(String),
}

/// The same destination for log lines, comparing file paths by their text.
pub open spec fn same_behaviour(a: LogWritingBehaviour, b: LogWritingBehaviour) -> bool {
    match (a, b) {
        (
            LogWritingBehaviour::TerminalAndSpecificFile(x),
            LogWritingBehaviour::TerminalAndSpecificFile(y),
        ) => x@ == y@,
        (LogWritingBehaviour::TerminalOnly, LogWritingBehaviour::TerminalOnly) => true,
        (LogWritingBehaviour::TerminalAndDefaultFile, LogWritingBehaviour::TerminalAndDefaultFile) => true,
        _ => false,
    }
}

/// Options that apply to every command.
#[derive(Debug, Clone)]
pub struct GlobalArgs {
    /// Verbose debug logging.
    pub debug: bool,
    /// Write structured logs to this file instead of the default one.
    pub log_file: Option<String>,
}

impl GlobalArgs {
    pub fn log_level(&self) -> (r: LogLevel)
        ensures
            r == if self.debug { LogLevel::Debug } else { LogLevel::Info },
    {
        if self.debug {
            LogLevel::Debug
        } else {
            LogLevel::Info
        }
    }
}

#[derive(Debug, Clone)]
pub struct RunArgs {}

/// Adds a target.
#[derive(Debug, Clone)]
pub struct TargetAddArgs {
    /// Destination to probe: a domain, an IP or a URL.
    pub value: String,
    /// Name of the target; by default made from the value.
    pub name: Option<String>,
    pub mode: PingMode,
    /// Probe period, in nanoseconds.
    pub interval_ns: u64,
}

#[derive(Debug, Clone)]
pub struct TargetRemoveArgs {
    pub name: String,
}

#[derive(Debug, Clone)]
pub struct TargetListArgs {}

#[derive(Debug, Clone)]
pub enum TargetCommand {
    Add(TargetAddArgs),
    Remove(TargetRemoveArgs),
    List(TargetListArgs),
}

#[derive(Debug, Clone)]
pub struct TargetArgs {
    pub command: TargetCommand,
}

/// Summarises the probe logs.
#[derive(Debug, Clone)]
pub struct AuditArgs {}

/// Checks whether a VPN is connected.
#[derive(Debug, Clone)]
pub struct CheckArgs {
    /// Print nothing; only the exit code tells.
    pub quiet: bool,
}

#[derive(Debug, Clone)]
pub struct AddArgs {}

#[derive(Debug, Clone)]
pub struct RemoveArgs {}

#[derive(Debug, Clone)]
pub struct ListArgs {
    /// Show every adapter, not only the active ones.
    pub all: bool,
}

#[derive(Debug, Clone)]
pub struct GetPathArgs {}

#[derive(Debug, Clone)]
pub enum AdapterCommand {
    Add(AddArgs),
    Remove(RemoveArgs),
    List(ListArgs),
    GetPath(GetPathArgs),
}

#[derive(Debug, Clone)]
pub struct AdapterArgs {
    pub command: AdapterCommand,
}

#[derive(Debug, Clone)]
pub enum VpnCommand {
    Check(CheckArgs),
    Adapter(AdapterArgs),
}

#[derive(Debug, Clone)]
pub struct VpnArgs {
    pub command: VpnCommand,
}

#[derive(Debug, Clone)]
pub struct HomeArgs {}

#[derive(Debug, Clone)]
pub struct SoundTestArgs {}

#[derive(Debug, Clone)]
pub enum SoundCommand {
    Test(SoundTestArgs),
}

#[derive(Debug, Clone)]
pub struct SoundArgs {
    pub command: SoundCommand,
}

#[derive(Debug, Clone)]
pub enum Command {
    /// Launch the tray and the probing loop.
    Run(RunArgs),
    Target(TargetArgs),
    Audit(AuditArgs),
    Vpn(VpnArgs),
    /// Print the home directory.
    Home(HomeArgs),
    Sound(SoundArgs),
}

/// A whole command line.
#[derive(Debug, Clone)]
pub struct Cli {
    pub global_args: GlobalArgs,
    /// The command; running the tray when there is none.
    pub command: Option<Command>,
}

/// One thing the program can be asked to do.
#[derive(Debug, Clone)]
pub enum Action {
    RunTray,
    AddTarget(TargetAddArgs),
    RemoveTarget(TargetRemoveArgs),
    ListTargets,
    Audit,
    CheckVpn(CheckArgs),
    AddAdapters,
    RemoveAdapters,
    ListAdapters(ListArgs),
    PrintCriteriaDir,
    PrintHome,
    TestSound,
}

/// What a command line comes to: how to log, and what to do.
#[derive(Debug, Clone)]
pub struct Invocation {
    pub log_level: LogLevel,
    pub log_behaviour: LogWritingBehaviour,
    pub action: Action,
}

impl TargetCommand {
    pub open spec fn action(self) -> Action {
        match self {
            TargetCommand::Add(a) => Action::AddTarget(a),
            TargetCommand::Remove(a) => Action::RemoveTarget(a),
            TargetCommand::List(_) => Action::ListTargets,
        }
    }

    pub fn invoke(self) -> (r: Action)
        ensures
            r == self.action(),
    {
        match self {
            TargetCommand::Add(a) => Action::AddTarget(a),
            TargetCommand::Remove(a) => Action::RemoveTarget(a),
            TargetCommand::List(_) => Action::ListTargets,
        }
    }
}

impl TargetArgs {
    pub fn invoke(self) -> (r: Action)
        ensures
            r == self.command.action(),
    {
        self.command.invoke()
    }
}

impl AdapterCommand {
    pub open spec fn action(self) -> Action {
        match self {
            AdapterCommand::Add(_) => Action::AddAdapters,
            AdapterCommand::Remove(_) => Action::RemoveAdapters,
            AdapterCommand::List(a) => Action::ListAdapters(a),
            AdapterCommand::GetPath(_) => Action::PrintCriteriaDir,
        }
    }
}

impl AdapterArgs {
    pub fn invoke(self) -> (r: Action)
        ensures
            r == self.command.action(),
    {
        match self.command {
            AdapterCommand::Add(_) => Action::AddAdapters,
            AdapterCommand::Remove(_) => Action::RemoveAdapters,
            AdapterCommand::List(a) => Action::ListAdapters(a),
            AdapterCommand::GetPath(_) => Action::PrintCriteriaDir,
        }
    }
}

impl VpnCommand {
    pub open spec fn action(self) -> Action {
        match self {
            VpnCommand::Check(a) => Action::CheckVpn(a),
            VpnCommand::Adapter(a) => a.command.action(),
        }
    }
}

impl VpnArgs {
    pub fn invoke(self) -> (r: Action)
        ensures
            r == self.command.action(),
    {
        match self.command {
            VpnCommand::Check(a) => Action::CheckVpn(a),
            VpnCommand::Adapter(a) => a.invoke(),
        }
    }
}

impl RunArgs {
    pub fn invoke(self) -> (r: Action)
        ensures
            r == Action::RunTray,
    {
        Action::RunTray
    }
}

impl SoundCommand {
    pub fn invoke(self) -> (r: Action)
        ensures
            r == Action::TestSound,
    {
        match self {
            SoundCommand::Test(_) => Action::TestSound,
        }
    }
}

impl SoundArgs {
    pub fn invoke(self) -> (r: Action)
        ensures
            r == Action::TestSound,
    {
        self.command.invoke()
    }
}

impl Command {
    pub open spec fn action(self) -> Action {
        match self {
            Command::Run(_) => Action::RunTray,
            Command::Target(a) => a.command.action(),
            Command::Audit(_) => Action::Audit,
            Command::Vpn(a) => a.command.action(),
            Command::Home(_) => Action::PrintHome,
            Command::Sound(_) => Action::TestSound,
        }
    }

    /// Where the command's logs go: running the tray always writes a file,
    /// the default one unless `--log-file` names another; other commands
    /// write a file only where `--log-file` names one.
    pub open spec fn spec_log_behaviour(self, globals: GlobalArgs) -> LogWritingBehaviour {
        match globals.log_file {
            Some(path) => LogWritingBehaviour::TerminalAndSpecificFile(path),
            None => match self {
                Command::Run(_) => LogWritingBehaviour::TerminalAndDefaultFile,
                _ => LogWritingBehaviour::TerminalOnly,
            },
        }
    }

    pub fn log_behaviour(&self, globals: &GlobalArgs) -> (r: LogWritingBehaviour)
        ensures
            same_behaviour(r, self.spec_log_behaviour(*globals)),
    {
        match &globals.log_file {
            Some(path) => LogWritingBehaviour::TerminalAndSpecificFile(path.as_str().to_owned()),
            None => match self {
                Command::Run(_) => LogWritingBehaviour::TerminalAndDefaultFile,
                _ => LogWritingBehaviour::TerminalOnly,
            },
        }
    }

    /// Resolves the command against the global options.
    pub fn invoke(self, globals: &GlobalArgs) -> (r: Invocation)
        ensures
            r.log_level == if globals.debug { LogLevel::Debug } else { LogLevel::Info },
            same_behaviour(r.log_behaviour, self.spec_log_behaviour(*globals)),
            r.action == self.action(),
    {
        let log_behaviour = self.log_behaviour(globals);
        let log_level = globals.log_level();
        let action = match self {
            Command::Run(a) => a.invoke(),
            Command::Target(a) => a.invoke(),
            Command::Audit(_) => Action::Audit,
            Command::Vpn(a) => a.invoke(),
            Command::Home(_) => Action::PrintHome,
            Command::Sound(a) => a.invoke(),
        };
        Invocation { log_level, log_behaviour, action }
    }
}

impl Default for Command {
    fn default() -> (r: Self)
        ensures
            r == Command::Run(RunArgs {}),
    {
        Command::Run(RunArgs {})
    }
}

impl Cli {
    /// Resolves a command line; no command means running the tray.
    pub fn invoke(self) -> (r: Invocation)
        ensures
            r.log_level == if self.global_args.debug { LogLevel::Debug } else { LogLevel::Info },
            r.action == match self.command {
                Some(c) => c.action(),
                None => Action::RunTray,
            },
            same_behaviour(
                r.log_behaviour,
                match self.command {
                    Some(c) => c,
                    None => Command::Run(RunArgs {}),
                }.spec_log_behaviour(self.global_args),
            ),
    {
        let command = match self.command {
            Some(c) => c,
            None => Command::default(),
        };
        command.invoke(&self.global_args)
    }
}

} // verus!
