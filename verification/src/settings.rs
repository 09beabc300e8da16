//! The program settings, as plain values.
use vstd::prelude::*;

verus! {

/// Which input source to poll.
#[derive(Clone, Copy, Debug, PartialEq, Eq, Structural)]
pub enum ChoiceOfInputSource {
    /// A GPIO pin wired to the burner's terminals.
    Gpio,
    /// A simulated source, for testing without hardware.
    Dummy,
}

/// Settings of the monitor loop. Durations are in nanoseconds.
#[derive(Debug)]
pub struct MonitorSettings {
    pub source: ChoiceOfInputSource,
    /// How long to sleep between iterations.
    pub loop_interval_ns: u128,
    /// How long the burner must stay operational after going `Low` for a
    /// startup attempt to count as successful.
    pub startup_window_ns: u128,
}

/// Settings of the GPIO input source.
#[derive(Debug)]
pub struct GpioSettings {
    pub pin: u32,
}

/// Settings of the simulated input source.
#[derive(Debug)]
pub struct DummySourceSettings {
    pub modulus: u64,
    pub threshold: u64,
}

/// The customizable strings of one notification backend.
#[derive(Clone, Debug)]
pub struct MessageStrings {
    pub alert_header: String,
    pub alert_body: String,
    pub reminder_header: String,
    pub reminder_body: String,
    pub startup_failed_header: String,
    pub startup_failed_body: String,
    pub startup_success_header: String,
    pub startup_success_body: String,
    pub footer: String,
}

/// Settings of a backend that posts to webhook URLs (Slack, Batsign).
#[derive(Debug)]
pub struct WebhookSettings {
    pub enabled: bool,
    pub urls: Vec<String>,
    pub show_response: bool,
    pub strings: MessageStrings,
}

/// Settings of the backend that runs external commands.
#[derive(Debug)]
pub struct CommandSettings {
    pub enabled: bool,
    pub commands: Vec<String>,
    pub show_response: bool,
    pub strings: MessageStrings,
}

/// Settings of the backend that prints messages to the terminal.
#[derive(Debug)]
pub struct PrintlnSettings {
    pub enabled: bool,
    pub strings: MessageStrings,
}

/// All settings of the program.
#[derive(Debug)]
pub struct Settings {
    pub monitor: MonitorSettings,
    pub gpio: GpioSettings,
    pub dummy_source: DummySourceSettings,
    pub slack: WebhookSettings,
    pub batsign: WebhookSettings,
    pub command: CommandSettings,
    pub println: PrintlnSettings,
    pub dry_run: bool,
    pub verbose: bool,
    pub debug: bool,
    pub disable_timestamps: bool,
}

} // verus!
