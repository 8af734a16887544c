//! Command-line options.

use vstd::prelude::*;
use vstd::string::*;
use crate::buttons::{parse_button_name, spec_parse_button_name, spec_button_name_error};
use crate::conf::next_arg;
use crate::intparse::{parse_i32, spec_parse_int, int_error_text};
use crate::settings::{Config, DeviceConfig, InputConfig, ClickConfig, DragReleaseConfig};
use crate::text::{str_eq, join2};

verus! {

broadcast use vstd::string::group_string_axioms;

/// A command-line option.
#[derive(Clone, Copy, Debug, PartialEq, Eq, Structural)]
pub enum ArgOption {
    Help,
    Config,
    Device,
    DryRun,
    Force,
    NoInput,
    NoRestore,
    ForceButton,
    PendingLeftMs,
    PendingLeftMotion,
    DoubleClickForceThreshold,
    DoubleClickWindowMs,
    NormalReleaseThreshold,
    DragReleaseThreshold,
    DragReleaseMotion,
    Seconds,
}

/// The option that an argument names, if any (`-h` is `--help`, and
/// `--no-emit-input` is `--no-input`).
pub open spec fn spec_arg_option(arg: Seq<char>) -> Option<ArgOption> {
    if arg == "--help"@ || arg == "-h"@ {
        Some(ArgOption::Help)
    } else if arg == "--config"@ {
        Some(ArgOption::Config)
    } else if arg == "--device"@ {
        Some(ArgOption::Device)
    } else if arg == "--dry-run"@ {
        Some(ArgOption::DryRun)
    } else if arg == "--force"@ {
        Some(ArgOption::Force)
    } else if arg == "--no-input"@ || arg == "--no-emit-input"@ {
        Some(ArgOption::NoInput)
    } else if arg == "--no-restore"@ {
        Some(ArgOption::NoRestore)
    } else if arg == "--force-button"@ {
        Some(ArgOption::ForceButton)
    } else if arg == "--pending-left-ms"@ {
        Some(ArgOption::PendingLeftMs)
    } else if arg == "--pending-left-motion"@ {
        Some(ArgOption::PendingLeftMotion)
    } else if arg == "--double-click-force-threshold"@ {
        Some(ArgOption::DoubleClickForceThreshold)
    } else if arg == "--double-click-window-ms"@ {
        Some(ArgOption::DoubleClickWindowMs)
    } else if arg == "--normal-release-threshold"@ {
        Some(ArgOption::NormalReleaseThreshold)
    } else if arg == "--drag-release-threshold"@ {
        Some(ArgOption::DragReleaseThreshold)
    } else if arg == "--drag-release-motion"@ {
        Some(ArgOption::DragReleaseMotion)
    } else if arg == "--seconds"@ {
        Some(ArgOption::Seconds)
    } else {
        None
    }
}

/// The canonical name of an option, as errors show it.
pub open spec fn spec_option_name(o: ArgOption) -> Seq<char> {
    match o {
        ArgOption::Help => "--help"@,
        ArgOption::Config => "--config"@,
        ArgOption::Device => "--device"@,
        ArgOption::DryRun => "--dry-run"@,
        ArgOption::Force => "--force"@,
        ArgOption::NoInput => "--no-input"@,
        ArgOption::NoRestore => "--no-restore"@,
        ArgOption::ForceButton => "--force-button"@,
        ArgOption::PendingLeftMs => "--pending-left-ms"@,
        ArgOption::PendingLeftMotion => "--pending-left-motion"@,
        ArgOption::DoubleClickForceThreshold => "--double-click-force-threshold"@,
        ArgOption::DoubleClickWindowMs => "--double-click-window-ms"@,
        ArgOption::NormalReleaseThreshold => "--normal-release-threshold"@,
        ArgOption::DragReleaseThreshold => "--drag-release-threshold"@,
        ArgOption::DragReleaseMotion => "--drag-release-motion"@,
        ArgOption::Seconds => "--seconds"@,
    }
}

/// Whether an option takes the next argument as its value.
pub open spec fn spec_takes_value(o: ArgOption) -> bool {
    !(o == ArgOption::Help || o == ArgOption::DryRun || o == ArgOption::Force || o == ArgOption::NoInput || o
        == ArgOption::NoRestore)
}

/// Recognises an option.
pub fn arg_option(arg: &str) -> (o: Option<ArgOption>)
    ensures
        o == spec_arg_option(arg@),
{
    if str_eq(arg, "--help") || str_eq(arg, "-h") {
        Some(ArgOption::Help)
    } else if str_eq(arg, "--config") {
        Some(ArgOption::Config)
    } else if str_eq(arg, "--device") {
        Some(ArgOption::Device)
    } else if str_eq(arg, "--dry-run") {
        Some(ArgOption::DryRun)
    } else if str_eq(arg, "--force") {
        Some(ArgOption::Force)
    } else if str_eq(arg, "--no-input") || str_eq(arg, "--no-emit-input") {
        Some(ArgOption::NoInput)
    } else if str_eq(arg, "--no-restore") {
        Some(ArgOption::NoRestore)
    } else if str_eq(arg, "--force-button") {
        Some(ArgOption::ForceButton)
    } else if str_eq(arg, "--pending-left-ms") {
        Some(ArgOption::PendingLeftMs)
    } else if str_eq(arg, "--pending-left-motion") {
        Some(ArgOption::PendingLeftMotion)
    } else if str_eq(arg, "--double-click-force-threshold") {
        Some(ArgOption::DoubleClickForceThreshold)
    } else if str_eq(arg, "--double-click-window-ms") {
        Some(ArgOption::DoubleClickWindowMs)
    } else if str_eq(arg, "--normal-release-threshold") {
        Some(ArgOption::NormalReleaseThreshold)
    } else if str_eq(arg, "--drag-release-threshold") {
        Some(ArgOption::DragReleaseThreshold)
    } else if str_eq(arg, "--drag-release-motion") {
        Some(ArgOption::DragReleaseMotion)
    } else if str_eq(arg, "--seconds") {
        Some(ArgOption::Seconds)
    } else {
        None
    }
}

/// The canonical name of an option.
pub fn option_name(o: ArgOption) -> (s: &'static str)
    ensures
        s@ == spec_option_name(o),
{
    match o {
        ArgOption::Help => "--help",
        ArgOption::Config => "--config",
        ArgOption::Device => "--device",
        ArgOption::DryRun => "--dry-run",
        ArgOption::Force => "--force",
        ArgOption::NoInput => "--no-input",
        ArgOption::NoRestore => "--no-restore",
        ArgOption::ForceButton => "--force-button",
        ArgOption::PendingLeftMs => "--pending-left-ms",
        ArgOption::PendingLeftMotion => "--pending-left-motion",
        ArgOption::DoubleClickForceThreshold => "--double-click-force-threshold",
        ArgOption::DoubleClickWindowMs => "--double-click-window-ms",
        ArgOption::NormalReleaseThreshold => "--normal-release-threshold",
        ArgOption::DragReleaseThreshold => "--drag-release-threshold",
        ArgOption::DragReleaseMotion => "--drag-release-motion",
        ArgOption::Seconds => "--seconds",
    }
}

/// Whether an option takes the next argument as its value.
pub fn takes_value(o: ArgOption) -> (t: bool)
    ensures
        t == spec_takes_value(o),
{
    match o {
        ArgOption::Help | ArgOption::DryRun | ArgOption::Force | ArgOption::NoInput | ArgOption::NoRestore => false,
        _ => true,
    }
}

/// The error for an argument that is no option.
pub fn unknown_argument(arg: &str) -> (e: String)
    ensures
        e@ == "unknown argument: "@ + arg@,
{
    join2("unknown argument: ", arg)
}

/// The options read so far, except the floating-point ones, which the
/// caller reads.
#[derive(Clone, Debug)]
pub struct Args {
    pub config: Option<String>,
    pub device: Option<String>,
    pub dry_run: bool,
    pub force: bool,
    pub no_input: bool,
    pub no_restore: bool,
    pub force_button: Option<Option<u16>>,
    pub double_click_force_threshold: Option<i32>,
    pub normal_release_threshold: Option<i32>,
    pub drag_release_threshold: Option<i32>,
}

/// What reading one option did.
#[derive(Clone, Debug)]
pub enum ArgStep {
    /// The option was stored.
    Stored,
    /// Help was asked for.
    Help,
    /// A floating-point option with its value text, for the caller to read.
    Float(ArgOption, String),
}

/// What reading an option with its value (the next argument, if any, for
/// an option that takes one) does to the options read so far.
pub open spec fn spec_apply_option(a: Args, o: ArgOption, value: Option<String>) -> Result<(Args, ArgStep), Seq<char>> {
    if !spec_takes_value(o) {
        match o {
            ArgOption::Help => Ok((a, ArgStep::Help)),
            ArgOption::DryRun => Ok((Args { dry_run: true, ..a }, ArgStep::Stored)),
            ArgOption::Force => Ok((Args { force: true, ..a }, ArgStep::Stored)),
            ArgOption::NoInput => Ok((Args { no_input: true, ..a }, ArgStep::Stored)),
            _ => Ok((Args { no_restore: true, ..a }, ArgStep::Stored)),
        }
    } else {
        match value {
            None => Err(spec_option_name(o) + " requires a value"@),
            Some(v) => match o {
                ArgOption::Config => Ok((Args { config: Some(v), ..a }, ArgStep::Stored)),
                ArgOption::Device => Ok((Args { device: Some(v), ..a }, ArgStep::Stored)),
                ArgOption::ForceButton => match spec_parse_button_name(v@) {
                    Some(b) => Ok((Args { force_button: Some(b), ..a }, ArgStep::Stored)),
                    None => Err(spec_button_name_error(spec_option_name(o))),
                },
                ArgOption::DoubleClickForceThreshold | ArgOption::NormalReleaseThreshold
                | ArgOption::DragReleaseThreshold => match spec_parse_int(
                    v@,
                    10,
                    i32::MIN as int,
                    i32::MAX as int,
                ) {
                    Ok(n) => Ok(
                        (
                            if o == ArgOption::DoubleClickForceThreshold {
                                Args { double_click_force_threshold: Some(n as i32), ..a }
                            } else if o == ArgOption::NormalReleaseThreshold {
                                Args { normal_release_threshold: Some(n as i32), ..a }
                            } else {
                                Args { drag_release_threshold: Some(n as i32), ..a }
                            },
                            ArgStep::Stored,
                        ),
                    ),
                    Err(e) => Err(spec_option_name(o) + ": "@ + int_error_text(e)),
                },
                _ => Ok((a, ArgStep::Float(o, v))),
            },
        }
    }
}

impl Args {
    /// No option read yet.
    pub fn new() -> (a: Args)
        ensures
            a.config is None && a.device is None && !a.dry_run && !a.force && !a.no_input && !a.no_restore
                && a.force_button is None && a.double_click_force_threshold is None
                && a.normal_release_threshold is None && a.drag_release_threshold is None,
    {
        Args {
            config: None,
            device: None,
            dry_run: false,
            force: false,
            no_input: false,
            no_restore: false,
            force_button: None,
            double_click_force_threshold: None,
            normal_release_threshold: None,
            drag_release_threshold: None,
        }
    }

    /// Reads one option with its value (see `spec_apply_option`).
    pub fn apply_option(&mut self, o: ArgOption, value: Option<String>) -> (r: Result<ArgStep, String>)
        ensures
            match (r, spec_apply_option(*old(self), o, value)) {
                (Ok(step), Ok((a, sstep))) => *final(self) == a && step == sstep,
                (Err(e), Err(m)) => e@ == m && *final(self) == *old(self),
                _ => false,
            },
    {
        match o {
            ArgOption::Help => {
                return Ok(ArgStep::Help);
            },
            ArgOption::DryRun => {
                self.dry_run = true;
                return Ok(ArgStep::Stored);
            },
            ArgOption::Force => {
                self.force = true;
                return Ok(ArgStep::Stored);
            },
            ArgOption::NoInput => {
                self.no_input = true;
                return Ok(ArgStep::Stored);
            },
            ArgOption::NoRestore => {
                self.no_restore = true;
                return Ok(ArgStep::Stored);
            },
            _ => {},
        }
        let name = option_name(o);
        let v = match next_arg(value, name) {
            Ok(v) => v,
            Err(e) => {
                return Err(e);
            },
        };
        match o {
            ArgOption::Config => {
                self.config = Some(v);
                Ok(ArgStep::Stored)
            },
            ArgOption::Device => {
                self.device = Some(v);
                Ok(ArgStep::Stored)
            },
            ArgOption::ForceButton => match parse_button_name(name, v.as_str()) {
                Ok(b) => {
                    self.force_button = Some(b);
                    Ok(ArgStep::Stored)
                },
                Err(e) => Err(e),
            },
            ArgOption::DoubleClickForceThreshold => match parse_i32(name, v.as_str()) {
                Ok(n) => {
                    self.double_click_force_threshold = Some(n);
                    Ok(ArgStep::Stored)
                },
                Err(e) => Err(e),
            },
            ArgOption::NormalReleaseThreshold => match parse_i32(name, v.as_str()) {
                Ok(n) => {
                    self.normal_release_threshold = Some(n);
                    Ok(ArgStep::Stored)
                },
                Err(e) => Err(e),
            },
            ArgOption::DragReleaseThreshold => match parse_i32(name, v.as_str()) {
                Ok(n) => {
                    self.drag_release_threshold = Some(n);
                    Ok(ArgStep::Stored)
                },
                Err(e) => Err(e),
            },
            _ => Ok(ArgStep::Float(o, v)),
        }
    }
}

/// The `device` option laid over the configuration.
pub open spec fn sp_args_device(c: Config, a: Args) -> Config {
    match a.device { Some(d) => Config { device: DeviceConfig { path: Some(d), ..c.device }, ..c }, None => c }
}

fn apply_args_device(config: &mut Config, args: &Args)
    ensures
        *final(config) == sp_args_device(*old(config), *args),
{
    match &args.device {
        Some(d) => {
            config.device.path = Some(d.clone());
        },
        None => {},
    }
}

/// The `no_input` option laid over the configuration.
pub open spec fn sp_args_no_input(c: Config, a: Args) -> Config {
    if a.no_input { Config { input: InputConfig { enabled: false, ..c.input }, ..c } } else { c }
}

fn apply_args_no_input(config: &mut Config, args: &Args)
    ensures
        *final(config) == sp_args_no_input(*old(config), *args),
{
    if args.no_input {
        config.input.enabled = false;
    }
}

/// The `force_button` option laid over the configuration.
pub open spec fn sp_args_force_button(c: Config, a: Args) -> Config {
    match a.force_button { Some(b) => Config { input: InputConfig { force_button: b, ..c.input }, ..c }, None => c }
}

fn apply_args_force_button(config: &mut Config, args: &Args)
    ensures
        *final(config) == sp_args_force_button(*old(config), *args),
{
    match args.force_button {
        Some(b) => {
            config.input.force_button = b;
        },
        None => {},
    }
}

/// The `double_click_force_threshold` option laid over the configuration.
pub open spec fn sp_args_double_click_force_threshold(c: Config, a: Args) -> Config {
    match a.double_click_force_threshold { Some(t) => Config { clicks: ClickConfig { double_click_force_threshold: t, ..c.clicks }, ..c }, None => c }
}

fn apply_args_double_click_force_threshold(config: &mut Config, args: &Args)
    ensures
        *final(config) == sp_args_double_click_force_threshold(*old(config), *args),
{
    match args.double_click_force_threshold {
        Some(t) => {
            config.clicks.double_click_force_threshold = t;
        },
        None => {},
    }
}

/// The `normal_release_threshold` option laid over the configuration.
pub open spec fn sp_args_normal_release_threshold(c: Config, a: Args) -> Config {
    match a.normal_release_threshold { Some(t) => Config { clicks: ClickConfig { normal_release_threshold: t, ..c.clicks }, ..c }, None => c }
}

fn apply_args_normal_release_threshold(config: &mut Config, args: &Args)
    ensures
        *final(config) == sp_args_normal_release_threshold(*old(config), *args),
{
    match args.normal_release_threshold {
        Some(t) => {
            config.clicks.normal_release_threshold = t;
        },
        None => {},
    }
}

/// The `drag_release_threshold` option laid over the configuration.
pub open spec fn sp_args_drag_release_threshold(c: Config, a: Args) -> Config {
    match a.drag_release_threshold { Some(t) => Config { drag_release: DragReleaseConfig { threshold: t, ..c.drag_release }, ..c }, None => c }
}

fn apply_args_drag_release_threshold(config: &mut Config, args: &Args)
    ensures
        *final(config) == sp_args_drag_release_threshold(*old(config), *args),
{
    match args.drag_release_threshold {
        Some(t) => {
            config.drag_release.threshold = t;
        },
        None => {},
    }
}

/// The `no_restore` option laid over the configuration.
pub open spec fn sp_args_no_restore(c: Config, a: Args) -> Config {
    if a.no_restore { Config { device: DeviceConfig { restore_on_exit: false, ..c.device }, ..c } } else { c }
}

fn apply_args_no_restore(config: &mut Config, args: &Args)
    ensures
        *final(config) == sp_args_no_restore(*old(config), *args),
{
    if args.no_restore {
        config.device.restore_on_exit = false;
    }
}

/// The configuration with the command-line options laid over it.
pub open spec fn spec_apply_args(c: Config, a: Args) -> Config {
    sp_args_no_restore(sp_args_drag_release_threshold(sp_args_normal_release_threshold(sp_args_double_click_force_threshold(sp_args_force_button(sp_args_no_input(sp_args_device(c, a), a), a), a), a), a), a)
}

/// Lays the command-line options over the configuration: the device path,
/// `--no-input`, the force button, the integer thresholds, `--no-restore`.
pub fn apply_args(config: &mut Config, args: &Args)
    ensures
        *final(config) == spec_apply_args(*old(config), *args),
{
    apply_args_device(config, args);
    apply_args_no_input(config, args);
    apply_args_force_button(config, args);
    apply_args_double_click_force_threshold(config, args);
    apply_args_normal_release_threshold(config, args);
    apply_args_drag_release_threshold(config, args);
    apply_args_no_restore(config, args);
}

/// `--no-restore` leaves host-click mode on at exit, whatever the
/// configuration file says; without it the configured choice stands.
pub proof fn lemma_no_restore(c: Config, a: Args)
    ensures
        a.no_restore ==> !spec_apply_args(c, a).device.restore_on_exit,
        !a.no_restore ==> spec_apply_args(c, a).device.restore_on_exit == c.device.restore_on_exit,
{
}

/// Each command-line option that was given replaces its setting, whatever
/// the configuration said, and every other setting stays as configured: the
/// device path, `--no-input` (input off), the force button (`none`
/// included), the three integer thresholds and `--no-restore`.
pub proof fn lemma_args_override(c: Config, a: Args)
    ensures
        ({
            let r = spec_apply_args(c, a);
            &&& r.device.path == (match a.device {
                Some(d) => Some(d),
                None => c.device.path,
            })
            &&& r.device.restore_on_exit == (c.device.restore_on_exit && !a.no_restore)
            &&& r.input.enabled == (c.input.enabled && !a.no_input)
            &&& r.input.force_button == (match a.force_button {
                Some(b) => b,
                None => c.input.force_button,
            })
            &&& r.input.multi_touch_drag_motion == c.input.multi_touch_drag_motion
            &&& r.input.multi_touch_motion_debug == c.input.multi_touch_motion_debug
            &&& r.clicks.double_click_force_threshold == (match a.double_click_force_threshold {
                Some(t) => t,
                None => c.clicks.double_click_force_threshold,
            })
            &&& r.clicks.normal_release_threshold == (match a.normal_release_threshold {
                Some(t) => t,
                None => c.clicks.normal_release_threshold,
            })
            &&& r.drag_release.threshold == (match a.drag_release_threshold {
                Some(t) => t,
                None => c.drag_release.threshold,
            })
            &&& r.clicks.normal_threshold == c.clicks.normal_threshold
            &&& r.clicks.force_threshold == c.clicks.force_threshold
            &&& r.clicks.reset_threshold == c.clicks.reset_threshold
            &&& r.clicks.rearm_threshold == c.clicks.rearm_threshold
            &&& r.clicks.force_rearm_threshold == c.clicks.force_rearm_threshold
            &&& r.drag_release.enabled == c.drag_release.enabled
            &&& r.drag_release.debug == c.drag_release.debug
            &&& r.release == c.release
            &&& r.haptics == c.haptics
            &&& r.drag == c.drag
            &&& r.ridge == c.ridge
        }),
{
}

} // verus!
