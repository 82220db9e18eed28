use vstd::prelude::*;

use crate::diagnostics::{
    diagnostics_config, DiagnosticsConfig, SEVERITY_ERROR, SEVERITY_INFO, SEVERITY_WARNING,
    TYPE_GENERAL, TYPE_PERFORMANCE, TYPE_VALIDATION,
};
use crate::error::BootstrapError;
use crate::names::{
    device_extensions, instance_extensions, names_view, spec_device_extensions,
    spec_instance_extensions, spec_validation_layers, validation_layers,
};
use crate::selection::{
    find_first_graphics, first_graphics_pos, graphics_at, lemma_first_graphics_pos_spec,
    AcceleratorInfo, ProbeOutcome, Selection,
};

verus! {

/// Immutable configuration of one bootstrap run.
#[derive(Debug, PartialEq, Eq)]
pub struct BootstrapConfig {
    /// Application and engine identifier handed to the driver.
    pub application_name: String,
    /// Surface extensions the platform requires, in the provider's order.
    pub required_extensions: Vec<String>,
    /// Whether the platform constrains the driver to portability mode.
    /// The flag is resolved once and consulted at both the instance- and
    /// the device-extension assembly.
    pub portability: bool,
}

/// Everything the instance-creation call needs.
#[derive(Debug, PartialEq, Eq)]
pub struct InstanceConfig {
    pub application_name: String,
    pub layers: Vec<String>,
    pub extensions: Vec<String>,
    /// Mirrors `BootstrapConfig::portability`: whether to set the
    /// portability-enumeration creation flag.
    pub enumerate_portability: bool,
}

/// What the logical-device request asks of the driver: one queue of the
/// selected family (the caller requests it at full priority) and the
/// listed device extensions.
#[derive(Debug, PartialEq, Eq)]
pub struct DeviceRequest {
    /// Index of the selected accelerator in the driver's enumeration.
    pub device_index: usize,
    pub queue_family_index: u32,
    /// Number of queues requested from that family; always one.
    pub queue_count: u32,
    pub extensions: Vec<String>,
}

/// A completed bootstrap: the accelerator and queue family the logical
/// device was opened on.
#[derive(Clone, Copy, Debug, PartialEq, Eq, Structural)]
pub struct VulkanInstance {
    pub selection: Selection,
}

/// The driver or platform call the caller must perform next.
#[derive(Debug, PartialEq, Eq)]
pub enum Action {
    /// Load the driver entry point.
    LoadDriver,
    /// Open the driver connection with this configuration.
    CreateInstance(InstanceConfig),
    /// Register the diagnostics messenger with these masks.
    RegisterDiagnostics(DiagnosticsConfig),
    /// Create the window surface against the instance.
    CreateSurface,
    /// Enumerate the accelerators and their queue-family flags.
    EnumerateAccelerators,
    /// Ask the driver whether this family can present to the surface.
    QueryPresentSupport { device: usize, family: usize },
    /// Open the logical device described by the request.
    OpenDevice(DeviceRequest),
}

/// Where the bootstrap stands: which action's outcome it is waiting for.
#[derive(Debug, PartialEq, Eq)]
pub enum Phase {
    LoadingDriver,
    CreatingInstance,
    RegisteringDiagnostics,
    CreatingSurface,
    Enumerating,
    /// Selection is under way: the enumerated accelerators and the
    /// position whose presentation probe is pending.
    Probing { devices: Vec<AcceleratorInfo>, device: usize, family: usize },
    OpeningDevice { selection: Selection },
}

/// The outcome of the action a phase was waiting for.
#[derive(Debug, PartialEq, Eq)]
pub enum Event {
    /// The call succeeded (phases whose result carries no data).
    Succeeded,
    /// The driver or platform rejected the call.
    Failed,
    /// The enumerated accelerators, in driver-reported order.
    Enumerated(Vec<AcceleratorInfo>),
    /// The driver's answer to the pending presentation-support query.
    Probed(ProbeOutcome),
}

/// What the caller does after a step: perform the action and step again,
/// or stop — the bootstrap is complete or has failed for good.
#[derive(Debug, PartialEq, Eq)]
pub enum Step {
    Act(Phase, Action),
    Done(VulkanInstance),
    Fail(BootstrapError),
}

/// The queue-family counts the driver reports fit in 32 bits.
pub open spec fn families_fit_u32(devs: Seq<AcceleratorInfo>) -> bool {
    forall|i: int| 0 <= i < devs.len() ==> devs[i].families@.len() <= u32::MAX
}

/// Internal consistency of a phase, established by every step that emits
/// one: a pending probe names a graphics-capable family, and selected
/// indices fit the driver's 32-bit family index.
pub open spec fn phase_wf(phase: Phase) -> bool {
    match phase {
        Phase::Probing { devices, device, family } => graphics_at(
            devices@,
            device as int,
            family as int,
        ) && families_fit_u32(devices@),
        Phase::OpeningDevice { selection } => selection.family <= u32::MAX as usize,
        _ => true,
    }
}

/// Which events answer which phase: a probe answer only while probing, an
/// enumeration result (with driver-sized family counts) only while
/// enumerating, plain success or failure everywhere else.
pub open spec fn event_fits(phase: Phase, event: Event) -> bool {
    match phase {
        Phase::Probing { .. } => event matches Event::Probed(_),
        Phase::Enumerating => match event {
            Event::Enumerated(devs) => families_fit_u32(devs@),
            Event::Failed => true,
            _ => false,
        },
        _ => event == Event::Succeeded || event == Event::Failed,
    }
}

/// The instance configuration the step machine assembles from the run's
/// configuration.
pub open spec fn instance_config_ok(config: &BootstrapConfig, ic: InstanceConfig) -> bool {
    &&& ic.application_name@ == config.application_name@
    &&& names_view(ic.layers@) == spec_validation_layers()
    &&& names_view(ic.extensions@) == spec_instance_extensions(
        names_view(config.required_extensions@),
        config.portability,
    )
    &&& ic.enumerate_portability == config.portability
}

/// The device request the step machine assembles for a selection.
pub open spec fn device_request_ok(config: &BootstrapConfig, sel: Selection, req: DeviceRequest) -> bool {
    &&& req.device_index == sel.device
    &&& req.queue_family_index == sel.family as u32
    &&& req.queue_count == 1
    &&& names_view(req.extensions@) == spec_device_extensions(config.portability)
}

/// The full transition relation of the step machine: what `bootstrap_step`
/// returns for every phase and fitting event.  Every failure is terminal
/// and maps to the stage's error; the probing transitions advance the
/// selection to the first graphics-capable position, in driver order.
pub open spec fn step_post(config: &BootstrapConfig, phase: Phase, event: Event, r: Step) -> bool {
    match phase {
        Phase::LoadingDriver => if event == Event::Succeeded {
            r matches Step::Act(p, a) && p == Phase::CreatingInstance && (a matches
            Action::CreateInstance(ic) && instance_config_ok(config, ic))
        } else {
            r == Step::Fail(BootstrapError::DriverUnavailable)
        },
        Phase::CreatingInstance => if event == Event::Succeeded {
            r matches Step::Act(p, a) && p == Phase::RegisteringDiagnostics && (a matches
            Action::RegisterDiagnostics(dc) && dc.severity_mask == SEVERITY_ERROR | SEVERITY_WARNING
                | SEVERITY_INFO && dc.type_mask == TYPE_GENERAL | TYPE_VALIDATION
                | TYPE_PERFORMANCE)
        } else {
            r == Step::Fail(BootstrapError::InstanceCreationFailed)
        },
        Phase::RegisteringDiagnostics => if event == Event::Succeeded {
            r == Step::Act(Phase::CreatingSurface, Action::CreateSurface)
        } else {
            r == Step::Fail(BootstrapError::DebugCallbackRegistrationFailed)
        },
        Phase::CreatingSurface => if event == Event::Succeeded {
            r == Step::Act(Phase::Enumerating, Action::EnumerateAccelerators)
        } else {
            r == Step::Fail(BootstrapError::SurfaceCreationFailed)
        },
        Phase::Enumerating => match event {
            Event::Enumerated(devs) => match first_graphics_pos(devs@, 0, 0) {
                Some(p) => r matches Step::Act(ph, a) && (ph matches Phase::Probing {
                    devices,
                    device,
                    family,
                } && devices@ == devs@ && device as int == p.0 && family as int == p.1) && (
                a matches Action::QueryPresentSupport { device, family } && device as int == p.0
                    && family as int == p.1),
                None => r == Step::Fail(BootstrapError::NoSuitableDevice),
            },
            _ => r == Step::Fail(BootstrapError::EnumerationFailed),
        },
        Phase::Probing { devices, device, family } => match event {
            Event::Probed(outcome) => match outcome {
                ProbeOutcome::QueryFailed => r == Step::Fail(BootstrapError::SurfaceQueryFailed),
                ProbeOutcome::Supported => r matches Step::Act(ph, a) && ph
                    == (Phase::OpeningDevice { selection: Selection { device, family } }) && (
                a matches Action::OpenDevice(req) && device_request_ok(
                    config,
                    Selection { device, family },
                    req,
                )),
                ProbeOutcome::NotSupported => match first_graphics_pos(
                    devices@,
                    device as int,
                    family as int + 1,
                ) {
                    Some(p) => r matches Step::Act(ph, a) && (ph matches Phase::Probing {
                        devices: next_devices,
                        device: next_device,
                        family: next_family,
                    } && next_devices@ == devices@ && next_device as int == p.0
                        && next_family as int == p.1) && (a matches Action::QueryPresentSupport {
                        device: probe_device,
                        family: probe_family,
                    } && probe_device as int == p.0 && probe_family as int == p.1),
                    None => r == Step::Fail(BootstrapError::NoSuitableDevice),
                },
            },
            _ => true,
        },
        Phase::OpeningDevice { selection } => if event == Event::Succeeded {
            r == Step::Done(VulkanInstance { selection })
        } else {
            r == Step::Fail(BootstrapError::DeviceCreationFailed)
        },
    }
}

/// The first step of a bootstrap run: load the driver entry point.  Each
/// run starts afresh; nothing is cached from an earlier one.
pub fn bootstrap_start() -> (r: Step)
    ensures
        r == Step::Act(Phase::LoadingDriver, Action::LoadDriver),
{
    Step::Act(Phase::LoadingDriver, Action::LoadDriver)
}

/// Advances the bootstrap by one step, given the outcome of the phase's
/// action.  The caller performs the returned action and steps again; a
/// `Fail` or `Done` result ends the run — no retry, no degraded path.
pub fn bootstrap_step(config: &BootstrapConfig, phase: Phase, event: Event) -> (r: Step)
    requires
        phase_wf(phase),
        event_fits(phase, event),
    ensures
        step_post(config, phase, event, r),
        r matches Step::Act(p, _) ==> phase_wf(p),
{
    match phase {
        Phase::LoadingDriver => match event {
            Event::Succeeded => {
                let ic = InstanceConfig {
                    application_name: config.application_name.clone(),
                    layers: validation_layers(),
                    extensions: instance_extensions(
                        &config.required_extensions,
                        config.portability,
                    ),
                    enumerate_portability: config.portability,
                };
                Step::Act(Phase::CreatingInstance, Action::CreateInstance(ic))
            },
            _ => Step::Fail(BootstrapError::DriverUnavailable),
        },
        Phase::CreatingInstance => match event {
            Event::Succeeded => Step::Act(
                Phase::RegisteringDiagnostics,
                Action::RegisterDiagnostics(diagnostics_config()),
            ),
            _ => Step::Fail(BootstrapError::InstanceCreationFailed),
        },
        Phase::RegisteringDiagnostics => match event {
            Event::Succeeded => Step::Act(Phase::CreatingSurface, Action::CreateSurface),
            _ => Step::Fail(BootstrapError::DebugCallbackRegistrationFailed),
        },
        Phase::CreatingSurface => match event {
            Event::Succeeded => Step::Act(Phase::Enumerating, Action::EnumerateAccelerators),
            _ => Step::Fail(BootstrapError::SurfaceCreationFailed),
        },
        Phase::Enumerating => match event {
            Event::Enumerated(devs) => match find_first_graphics(&devs, 0, 0) {
                Some(sel) => {
                    proof {
                        lemma_first_graphics_pos_spec(devs@, 0, 0);
                    }
                    let device = sel.device;
                    let family = sel.family;
                    Step::Act(
                        Phase::Probing { devices: devs, device, family },
                        Action::QueryPresentSupport { device, family },
                    )
                },
                None => Step::Fail(BootstrapError::NoSuitableDevice),
            },
            _ => Step::Fail(BootstrapError::EnumerationFailed),
        },
        Phase::Probing { devices, device, family } => match event {
            Event::Probed(outcome) => match outcome {
                ProbeOutcome::QueryFailed => Step::Fail(BootstrapError::SurfaceQueryFailed),
                ProbeOutcome::Supported => {
                    let selection = Selection { device, family };
                    let req = DeviceRequest {
                        device_index: device,
                        queue_family_index: family as u32,
                        queue_count: 1,
                        extensions: device_extensions(config.portability),
                    };
                    Step::Act(Phase::OpeningDevice { selection }, Action::OpenDevice(req))
                },
                ProbeOutcome::NotSupported => match find_first_graphics(
                    &devices,
                    device,
                    family + 1,
                ) {
                    Some(sel) => {
                        proof {
                            lemma_first_graphics_pos_spec(devices@, device as int, family as int + 1);
                        }
                        let next_device = sel.device;
                        let next_family = sel.family;
                        Step::Act(
                            Phase::Probing { devices, device: next_device, family: next_family },
                            Action::QueryPresentSupport {
                                device: next_device,
                                family: next_family,
                            },
                        )
                    },
                    None => Step::Fail(BootstrapError::NoSuitableDevice),
                },
            },
            _ => Step::Fail(BootstrapError::SurfaceQueryFailed),
        },
        Phase::OpeningDevice { selection } => match event {
            Event::Succeeded => Step::Done(VulkanInstance { selection }),
            _ => Step::Fail(BootstrapError::DeviceCreationFailed),
        },
    }
}

} // verus!
