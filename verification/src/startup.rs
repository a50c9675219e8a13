//! From the command line to the decision whether to open the device.

use vstd::prelude::*;
use vstd::string::*;
use crate::arguments::{
    parse_arguments, spec_parse_arguments, ArgumentErrorView, ARGUMENT_ERROR_STATUS,
};
use crate::baud::{lemma_accepts_exactly_the_rates, BaudRate};
use crate::settings::LineSettings;

verus! {

/// What to do with a command line.
#[derive(Debug, PartialEq, Eq)]
pub enum StartupPlan {
    /// Open the device at `device_path` for reading and writing and give the
    /// line these settings.
    Open { device_path: String, settings: LineSettings },
    /// Open nothing: print `message` on standard error and leave with
    /// `status`.
    Refuse { message: String, status: i32 },
}

/// The model of a [`StartupPlan`].
pub enum StartupPlanView {
    Open { device_path: Seq<char>, settings: LineSettings },
    Refuse { message: Seq<char>, status: i32 },
}

impl View for StartupPlan {
    type V = StartupPlanView;

    open spec fn view(&self) -> StartupPlanView {
        match self {
            StartupPlan::Open { device_path, settings } => StartupPlanView::Open {
                device_path: device_path@,
                settings: *settings,
            },
            StartupPlan::Refuse { message, status } => StartupPlanView::Refuse {
                message: message@,
                status: *status,
            },
        }
    }
}

/// The plan for the command line `args`: a raw line at the rate asked for, on
/// the device asked for, or a refusal with the message of the argument error.
pub open spec fn spec_plan_startup(args: Seq<Seq<char>>) -> StartupPlanView {
    match spec_parse_arguments(args) {
        Ok(invocation) => StartupPlanView::Open {
            device_path: invocation.device_path,
            settings: LineSettings::spec_raw(invocation.rate),
        },
        Err(error) => StartupPlanView::Refuse {
            message: error.message(),
            status: ARGUMENT_ERROR_STATUS,
        },
    }
}

/// Decides from the command line whether and how to open the device.
pub fn plan_startup(args: &Vec<String>) -> (plan: StartupPlan)
    ensures
        plan@ == spec_plan_startup(args.deep_view()),
{
    match parse_arguments(args) {
        Ok(invocation) => StartupPlan::Open {
            device_path: invocation.device_path,
            settings: LineSettings::raw(invocation.rate),
        },
        Err(error) => StartupPlan::Refuse {
            message: error.message(),
            status: error.exit_status(),
        },
    }
}

/// On a command line with a device path and a rate, the rate text alone
/// decides. The text of a supported rate opens the device with a raw line at
/// that rate. Any other text opens nothing, names the text on standard error
/// and leaves with status 1.
pub proof fn lemma_rate_decides_startup(
    program: Seq<char>,
    device_path: Seq<char>,
    rate_text: Seq<char>,
)
    ensures
        forall|rate: BaudRate|
            rate_text == #[trigger] rate.spec_text() ==> spec_plan_startup(
                seq![program, device_path, rate_text],
            ) == (StartupPlanView::Open { device_path, settings: LineSettings::spec_raw(rate) }),
        (forall|rate: BaudRate| rate_text != #[trigger] rate.spec_text()) ==> spec_plan_startup(
            seq![program, device_path, rate_text],
        ) == (StartupPlanView::Refuse {
            message: "Unsupported baudrate: "@ + rate_text,
            status: 1,
        }),
{
    lemma_accepts_exactly_the_rates(rate_text);
    let args = seq![program, device_path, rate_text];
    assert(args.len() == 3 && args[1] == device_path && args[2] == rate_text);
    if BaudRate::spec_parse(rate_text) is Some {
        let rate = BaudRate::spec_parse(rate_text)->0;
        assert(rate_text == rate.spec_text());
    }
}

/// A command line without a device path or without a rate opens nothing,
/// prints how to call the program and leaves with status 1.
pub proof fn lemma_short_command_line_refused(args: Seq<Seq<char>>)
    requires
        args.len() < 3,
    ensures
        spec_plan_startup(args) == (StartupPlanView::Refuse {
            message: (ArgumentErrorView::MissingArguments {
                program: crate::arguments::program_name(args),
            }).message(),
            status: 1,
        }),
{
}

} // verus!
