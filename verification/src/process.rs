//! Launching the installed driver and the lifecycle of the handle that owns it.

use vstd::prelude::*;
use vstd::string::StringExecFns;

use crate::text::{decimal, is_digit, lemma_decimal_is_digits, push_decimal};

verus! {

/// The directory into which the driver is installed.
pub const INSTALL_DIR: &'static str = "drivers/gecko";

/// The installed driver executable.
pub const DRIVER_PATH: &'static str = "drivers/gecko/geckodriver";

/// A program to spawn and the arguments to pass to it.
#[derive(Debug, PartialEq, Eq)]
pub struct LaunchCommand {
    /// The path of the executable.
    pub program: String,
    /// The arguments, in order.
    pub args: Vec<String>,
}

/// The one argument of the driver: `-p` directly followed by the port in
/// decimal notation.
pub open spec fn port_flag(port: u16) -> Seq<char> {
    "-p"@ + decimal(port as nat)
}

/// For every port the flag is `-p` with the digits of the port directly
/// behind it: no space, no sign, nothing else.
pub proof fn lemma_port_flag_is_dash_p_and_digits(port: u16)
    ensures
        port_flag(port).len() >= 3,
        port_flag(port)[0] == '-',
        port_flag(port)[1] == 'p',
        forall|i: int| 2 <= i < port_flag(port).len() ==> is_digit(#[trigger] port_flag(port)[i]),
{
    reveal_strlit("-p");
    lemma_decimal_is_digits(port as nat);
    let digits = decimal(port as nat);
    assert forall|i: int| 2 <= i < port_flag(port).len() implies is_digit(
        #[trigger] port_flag(port)[i],
    ) by {
        assert(port_flag(port)[i] == digits[i - 2]);
    }
}

/// Formats the argument that tells the driver its port.
pub fn port_argument(port: u16) -> (arg: String)
    ensures
        arg@ == port_flag(port),
{
    let mut arg = String::from_str("-p");
    push_decimal(&mut arg, port);
    arg
}

/// The command that launches the installed driver on `port`: the executable
/// at its fixed place, with the port flag as its only argument.
pub fn launch_command(port: u16) -> (command: LaunchCommand)
    ensures
        command.program@ == DRIVER_PATH@,
        command.args@.len() == 1,
        command.args@[0]@ == port_flag(port),
{
    let mut args: Vec<String> = Vec::new();
    args.push(port_argument(port));
    LaunchCommand { program: String::from_str(DRIVER_PATH), args }
}

/// The lifecycle of the handle that owns a started driver process: it is
/// running until it is released, and released for ever after.
#[derive(Debug)]
pub struct Lifecycle {
    released: bool,
}

/// What a release asks of the owner of the process.
#[derive(Clone, Copy, Debug, PartialEq, Eq, Structural)]
pub enum Signal {
    /// Ask the process to terminate, and discard how that went.
    Terminate,
    /// Do nothing: termination was asked for before.
    Nothing,
}

/// The signal that a release gives in a lifecycle, and whether the lifecycle
/// is released afterwards (it always is).
pub open spec fn release_of(released: bool) -> (bool, Signal) {
    (
        true,
        if released {
            Signal::Nothing
        } else {
            Signal::Terminate
        },
    )
}

/// How many of `count` releases in a row ask for termination.
pub open spec fn terminations(released: bool, count: nat) -> nat
    decreases count,
{
    if count == 0 {
        0
    } else {
        let (after, signal) = release_of(released);
        let this: nat = if signal == Signal::Terminate {
            1
        } else {
            0
        };
        this + terminations(after, (count - 1) as nat)
    }
}

impl Lifecycle {
    /// Whether the handle was released.
    pub closed spec fn is_released(&self) -> bool {
        self.released
    }

    /// The lifecycle of a handle whose process was just started.
    pub fn started() -> (lifecycle: Lifecycle)
        ensures
            !lifecycle.is_released(),
    {
        Lifecycle { released: false }
    }

    /// Whether the handle was released.
    pub fn released(&self) -> (r: bool)
        ensures
            r == self.is_released(),
    {
        self.released
    }

    /// Releases the handle. The first release asks for the termination of the
    /// process; any later one asks for nothing. What becomes of the
    /// termination has no part in the lifecycle.
    pub fn release(&mut self) -> (signal: Signal)
        ensures
            (final(self).is_released(), signal) == release_of(old(self).is_released()),
    {
        let signal = if self.released {
            Signal::Nothing
        } else {
            Signal::Terminate
        };
        self.released = true;
        signal
    }
}

/// However often a handle is released, termination is asked for exactly once
/// if it was running, and never if it was released before.
pub proof fn lemma_termination_is_triggered_once(released: bool, count: nat)
    requires
        count >= 1,
    ensures
        terminations(released, count) == if released {
            0nat
        } else {
            1nat
        },
    decreases count,
{
    if count > 1 {
        lemma_termination_is_triggered_once(true, (count - 1) as nat);
        if !released {
            assert(terminations(false, count) == 1 + terminations(true, (count - 1) as nat));
        }
    } else {
        assert(terminations(true, 0) == 0);
    }
}

/// Releasing is idempotent: a second release leaves the lifecycle as the first
/// left it, and asks for nothing.
pub proof fn lemma_release_is_idempotent(released: bool)
    ensures
        release_of(release_of(released).0) == (release_of(released).0, Signal::Nothing),
{
}

} // verus!
