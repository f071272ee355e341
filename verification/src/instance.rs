//! Instance creation planning and diagnostics routing.
//!
//! Decides which instance extensions and validation layers a run needs,
//! what identity the instance is created with, and how diagnostic
//! messages map onto the host's logging levels.

use vstd::prelude::*;

verus! {

/// The instance extensions the engine distinguishes: the surface
/// extensions a windowing toolkit may require, and the debug-utils
/// extension the diagnostics callback needs.
#[derive(Clone, Copy, Debug, PartialEq, Eq, Structural)]
pub struct InstanceExtensions {
    pub khr_surface: bool,
    pub khr_xlib_surface: bool,
    pub khr_xcb_surface: bool,
    pub khr_wayland_surface: bool,
    pub ext_debug_utils: bool,
}

/// What `required_extensions` returns: the toolkit's required extensions,
/// with debug-utils forced on when validation is enabled.
pub open spec fn required_extensions_spec(
    toolkit: InstanceExtensions,
    enable_validation: bool,
) -> InstanceExtensions {
    InstanceExtensions {
        ext_debug_utils: toolkit.ext_debug_utils || enable_validation,
        ..toolkit
    }
}

/// The instance extensions a run requires: whatever the windowing toolkit
/// asks for, plus debug-utils when the validation layer is enabled.
pub fn required_extensions(toolkit: &InstanceExtensions, enable_validation: bool) -> (r:
    InstanceExtensions)
    ensures
        r == required_extensions_spec(*toolkit, enable_validation),
{
    let mut required = *toolkit;
    if enable_validation {
        required.ext_debug_utils = true;
    }
    required
}

/// The names of the validation layers the engine asks for.
pub open spec fn validation_layers_spec() -> Seq<Seq<char>> {
    seq!["VK_LAYER_KHRONOS_validation"@]
}

/// The validation layers the engine asks for, as layer names.
pub fn validation_layers() -> (r: Vec<String>)
    ensures
        r@.len() == validation_layers_spec().len(),
        forall|i: int| 0 <= i < r@.len() ==> r@[i]@ == validation_layers_spec()[i],
{
    let mut layers: Vec<String> = Vec::new();
    layers.push("VK_LAYER_KHRONOS_validation".to_owned());
    proof {
        assert(layers@[0]@ == validation_layers_spec()[0]);
    }
    layers
}

/// Whether every required layer name appears among the available ones.
pub open spec fn all_layers_available_spec(
    required: Seq<Seq<char>>,
    available: Seq<Seq<char>>,
) -> bool {
    forall|i: int| 0 <= i < required.len() ==> available.contains(#[trigger] required[i])
}

/// Check that each required layer is present in the list of layers the
/// runtime reports as available.
pub fn all_layers_available(required: &Vec<String>, available: &Vec<String>) -> (r: bool)
    ensures
        r == all_layers_available_spec(
            required@.map_values(|s: String| s@),
            available@.map_values(|s: String| s@),
        ),
{
    let ghost req_names = required@.map_values(|s: String| s@);
    let ghost avail_names = available@.map_values(|s: String| s@);
    let n = required.len();
    let mut i: usize = 0;
    while i < n
        invariant
            n == required@.len(),
            0 <= i <= n,
            req_names == required@.map_values(|s: String| s@),
            avail_names == available@.map_values(|s: String| s@),
            forall|k: int| 0 <= k < i ==> avail_names.contains(#[trigger] req_names[k]),
        decreases n - i,
    {
        let mut found = false;
        let m = available.len();
        let mut j: usize = 0;
        while j < m
            invariant
                m == available@.len(),
                0 <= j <= m,
                avail_names == available@.map_values(|s: String| s@),
                i < n,
                n == required@.len(),
                req_names == required@.map_values(|s: String| s@),
                found <==> exists|l: int|
                    0 <= l < j && #[trigger] avail_names[l] == req_names[i as int],
            decreases m - j,
        {
            proof {
                assert(avail_names[j as int] == available@[j as int]@);
                assert(req_names[i as int] == required@[i as int]@);
            }
            if required[i].eq(&available[j]) {
                found = true;
            }
            j = j + 1;
        }
        if !found {
            proof {
                assert(!avail_names.contains(req_names[i as int]));
            }
            return false;
        }
        proof {
            let l = choose|l: int| 0 <= l < m && #[trigger] avail_names[l] == req_names[i as int];
            assert(avail_names.contains(req_names[i as int]));
        }
        i = i + 1;
    }
    true
}

/// Check that every validation layer the engine asks for is available.
pub fn check_debug_layers(available: &Vec<String>) -> (r: bool)
    ensures
        r == all_layers_available_spec(
            validation_layers_spec(),
            available@.map_values(|s: String| s@),
        ),
{
    let required = validation_layers();
    proof {
        assert(required@.map_values(|s: String| s@) =~= validation_layers_spec());
    }
    all_layers_available(&required, available)
}

/// A semantic version for the instance's application info.
#[derive(Clone, Copy, Debug, PartialEq, Eq, Structural)]
pub struct Version {
    pub major: u32,
    pub minor: u32,
    pub patch: u32,
}

/// The identity the instance is created with.
#[derive(Debug)]
pub struct ApplicationInfo {
    pub application_name: String,
    pub application_version: Option<Version>,
    pub engine_name: String,
    pub engine_version: Option<Version>,
}

/// The fixed identity of this engine: the experiment's name at version
/// 1.0.0, with no engine version.
pub fn application_info() -> (r: ApplicationInfo)
    ensures
        r.application_name@ == "Vulkan Experiments"@,
        r.application_version == Some(Version { major: 1, minor: 0, patch: 0 }),
        r.engine_name@ == "no engine"@,
        r.engine_version is None,
{
    ApplicationInfo {
        application_name: "Vulkan Experiments".to_owned(),
        application_version: Some(Version { major: 1, minor: 0, patch: 0 }),
        engine_name: "no engine".to_owned(),
        engine_version: None,
    }
}

/// Which kinds of diagnostic message severities the callback subscribes
/// to.
#[derive(Clone, Copy, Debug, PartialEq, Eq, Structural)]
pub struct MessageSeverity {
    pub error: bool,
    pub warning: bool,
    pub information: bool,
    pub verbose: bool,
}

/// Which categories of diagnostic messages the callback subscribes to.
#[derive(Clone, Copy, Debug, PartialEq, Eq, Structural)]
pub struct MessageTypes {
    pub general: bool,
    pub performance: bool,
    pub validation: bool,
}

/// The diagnostics callback registration: which severities and categories
/// it listens to.
#[derive(Clone, Copy, Debug, PartialEq, Eq, Structural)]
pub struct DebugCallbackConfig {
    pub severity: MessageSeverity,
    pub message_types: MessageTypes,
}

/// Plan the diagnostics callback: subscribed to every severity and every
/// category when validation is enabled, absent otherwise.
pub fn plan_debug_callback(enable_validation: bool) -> (r: Option<DebugCallbackConfig>)
    ensures
        !enable_validation ==> r is None,
        enable_validation ==> r == Some(
            DebugCallbackConfig {
                severity: MessageSeverity {
                    error: true,
                    warning: true,
                    information: true,
                    verbose: true,
                },
                message_types: MessageTypes { general: true, performance: true, validation: true },
            },
        ),
{
    if !enable_validation {
        return None;
    }
    Some(
        DebugCallbackConfig {
            severity: MessageSeverity {
                error: true,
                warning: true,
                information: true,
                verbose: true,
            },
            message_types: MessageTypes { general: true, performance: true, validation: true },
        },
    )
}

/// The host logging levels a diagnostic message can be routed to.
#[derive(Clone, Copy, Debug, PartialEq, Eq, Structural)]
pub enum LogLevel {
    Error,
    Warn,
    Info,
    Debug,
}

/// What `route_debug_message` returns: the highest severity flag set on
/// the message wins; a message with none of the named flags is logged at
/// debug level.
pub open spec fn route_debug_message_spec(severity: MessageSeverity) -> LogLevel {
    if severity.error {
        LogLevel::Error
    } else if severity.warning {
        LogLevel::Warn
    } else if severity.information {
        LogLevel::Info
    } else {
        LogLevel::Debug
    }
}

/// Route one diagnostic message to the host's logging sink by severity.
pub fn route_debug_message(severity: &MessageSeverity) -> (r: LogLevel)
    ensures
        r == route_debug_message_spec(*severity),
{
    if severity.error {
        LogLevel::Error
    } else if severity.warning {
        LogLevel::Warn
    } else if severity.information {
        LogLevel::Info
    } else {
        LogLevel::Debug
    }
}

/// Everything `create_instance` decides before the API call: the instance
/// identity, the extensions to enable, and whether to warn that requested
/// validation layers are missing.
#[derive(Debug)]
pub struct InstancePlan {
    pub info: ApplicationInfo,
    pub extensions: InstanceExtensions,
    pub missing_validation_layers: bool,
}

/// Plan the instance: fixed identity, the toolkit's extensions plus
/// debug-utils when validation is on, and a (diagnostic-only) note when
/// validation was requested but some layer is unavailable.
pub fn plan_instance(
    toolkit: &InstanceExtensions,
    enable_validation: bool,
    available_layers: &Vec<String>,
) -> (r: InstancePlan)
    ensures
        r.info.application_name@ == "Vulkan Experiments"@,
        r.info.application_version == Some(Version { major: 1, minor: 0, patch: 0 }),
        r.info.engine_name@ == "no engine"@,
        r.info.engine_version is None,
        r.extensions == required_extensions_spec(*toolkit, enable_validation),
        r.missing_validation_layers == (enable_validation && !all_layers_available_spec(
            validation_layers_spec(),
            available_layers@.map_values(|s: String| s@),
        )),
{
    let missing = enable_validation && !check_debug_layers(available_layers);
    InstancePlan {
        info: application_info(),
        extensions: required_extensions(toolkit, enable_validation),
        missing_validation_layers: missing,
    }
}

} // verus!
