//! The control of the screen as far as it is decided here: which backend
//! controls the screen on this machine, and which commands switch a screen
//! on or off. Running the commands is left to the caller.

use crate::state::Action;
use vstd::prelude::*;

verus! {

/// The tool that switches the HDMI output of a Raspberry Pi.
pub const TVSERVICE_PATH: &'static str = "/usr/bin/tvservice";

/// The tool that switches the power of a USB port.
pub const UHUBCTL_PATH: &'static str = "/home/pi/devel/uhubctl/uhubctl";

/// The ways there are to control the screen.
#[derive(Clone, Copy, Debug, PartialEq, Eq, Structural)]
pub enum ScreenBackend {
    /// The screen is switched by `tvservice`, and by `uhubctl` if there is
    /// one.
    TvService,
    /// Nothing switches the screen; it is painted black while it is off.
    Software,
}

/// One command with its arguments.
#[derive(Debug)]
pub struct Invocation {
    pub program: String,
    pub args: Vec<String>,
}

/// The mathematical content of an `Invocation`.
pub struct InvocationView {
    pub program: Seq<char>,
    pub args: Seq<Seq<char>>,
}

impl View for Invocation {
    type V = InvocationView;

    open spec fn view(&self) -> InvocationView {
        InvocationView {
            program: self.program@,
            args: self.args@.map_values(|arg: String| arg@),
        }
    }
}

/// The command lines of a list of invocations.
pub open spec fn invocations_view(commands: Seq<Invocation>) -> Seq<InvocationView> {
    commands.map_values(|command: Invocation| command@)
}

/// The backend for a machine on which `tvservice` is, or is not, installed.
pub open spec fn spec_screen_control(tvservice_present: bool) -> ScreenBackend {
    if tvservice_present {
        ScreenBackend::TvService
    } else {
        ScreenBackend::Software
    }
}

/// `tvservice -p` powers the output up, `tvservice -o` powers it off.
pub open spec fn spec_tvservice_command(action: Action) -> InvocationView {
    InvocationView {
        program: TVSERVICE_PATH@,
        args: seq![
            match action {
                Action::ScreenOn => "-p"@,
                Action::ScreenOff => "-o"@,
            },
        ],
    }
}

/// `uhubctl -l 1-1 -a 1 -r 100` powers port 1-1 up, `-a 0` powers it off.
pub open spec fn spec_uhubctl_command(action: Action) -> InvocationView {
    InvocationView {
        program: UHUBCTL_PATH@,
        args: seq![
            "-l"@,
            "1-1"@,
            "-a"@,
            match action {
                Action::ScreenOn => "1"@,
                Action::ScreenOff => "0"@,
            },
            "-r"@,
            "100"@,
        ],
    }
}

/// The commands that perform `action` with the `TvService` backend, in the
/// order they are to be run: `tvservice` first, then `uhubctl` if it is
/// installed.
pub open spec fn spec_power_commands(
    action: Action,
    uhubctl_present: bool,
) -> Seq<InvocationView> {
    if uhubctl_present {
        seq![spec_tvservice_command(action), spec_uhubctl_command(action)]
    } else {
        seq![spec_tvservice_command(action)]
    }
}

/// Chooses the backend once the caller has probed for `TVSERVICE_PATH`.
pub fn get_screen_control(tvservice_present: bool) -> (backend: ScreenBackend)
    ensures
        backend == spec_screen_control(tvservice_present),
{
    if tvservice_present {
        ScreenBackend::TvService
    } else {
        ScreenBackend::Software
    }
}

impl ScreenBackend {
    /// Whether the window is to be painted black while the screen is off:
    /// only where nothing switches the screen itself.
    pub fn should_clear_screen(&self) -> (clear: bool)
        ensures
            clear == (*self == ScreenBackend::Software),
    {
        match self {
            ScreenBackend::TvService => false,
            ScreenBackend::Software => true,
        }
    }
}

fn tvservice_command(action: Action) -> (command: Invocation)
    ensures
        command@ == spec_tvservice_command(action),
{
    let mut args: Vec<String> = Vec::new();
    match action {
        Action::ScreenOn => args.push("-p".to_owned()),
        Action::ScreenOff => args.push("-o".to_owned()),
    }
    let command = Invocation { program: TVSERVICE_PATH.to_owned(), args };
    assert(command@.args =~= spec_tvservice_command(action).args);
    command
}

fn uhubctl_command(action: Action) -> (command: Invocation)
    ensures
        command@ == spec_uhubctl_command(action),
{
    let mut args: Vec<String> = Vec::new();
    args.push("-l".to_owned());
    args.push("1-1".to_owned());
    args.push("-a".to_owned());
    match action {
        Action::ScreenOn => args.push("1".to_owned()),
        Action::ScreenOff => args.push("0".to_owned()),
    }
    args.push("-r".to_owned());
    args.push("100".to_owned());
    let command = Invocation { program: UHUBCTL_PATH.to_owned(), args };
    assert(command@.args =~= spec_uhubctl_command(action).args);
    command
}

/// The commands that perform `action` with the `TvService` backend, once
/// the caller has probed for `UHUBCTL_PATH`.
pub fn power_commands(action: Action, uhubctl_present: bool) -> (commands: Vec<Invocation>)
    ensures
        invocations_view(commands@) == spec_power_commands(action, uhubctl_present),
{
    let mut commands: Vec<Invocation> = Vec::new();
    commands.push(tvservice_command(action));
    if uhubctl_present {
        commands.push(uhubctl_command(action));
    }
    assert(invocations_view(commands@) =~= spec_power_commands(action, uhubctl_present));
    commands
}

} // verus!
