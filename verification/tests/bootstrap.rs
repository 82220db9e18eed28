use vulkan_bootstrap::error::BootstrapError;
use vulkan_bootstrap::selection::{AcceleratorInfo, ProbeOutcome, QueueFamilyDesc, Selection};
use vulkan_bootstrap::vulkan_instance::{
    bootstrap_start, bootstrap_step, Action, BootstrapConfig, Event, Phase, Step,
};

fn fam(graphics: bool) -> QueueFamilyDesc {
    QueueFamilyDesc { flags: if graphics { 1 } else { 0 } }
}

fn device(families: Vec<QueueFamilyDesc>) -> AcceleratorInfo {
    AcceleratorInfo { families }
}

fn config() -> BootstrapConfig {
    BootstrapConfig {
        application_name: "engine".to_string(),
        required_extensions: vec!["VK_KHR_surface".to_string()],
        portability: false,
    }
}

fn expect_probe(step: Step) -> (Phase, usize, usize) {
    match step {
        Step::Act(phase, Action::QueryPresentSupport { device, family }) => {
            match &phase {
                Phase::Probing { device: pd, family: pf, .. } => {
                    assert_eq!(*pd, device);
                    assert_eq!(*pf, family);
                }
                other => panic!("expected a probing phase, got {:?}", other),
            }
            (phase, device, family)
        }
        other => panic!("expected a presentation probe, got {:?}", other),
    }
}

#[test]
fn first_match_on_first_device() {
    // Device 0 carries, in order, a non-graphics family, a graphics family
    // whose probe answers "not supported", and a graphics family that can
    // present.  Device 1 would also qualify, but must never be reached.
    let cfg = config();
    let devs = vec![
        device(vec![fam(false), fam(true), fam(true)]),
        device(vec![fam(true)]),
    ];
    let step = bootstrap_step(&cfg, Phase::Enumerating, Event::Enumerated(devs));
    let (phase, d, f) = expect_probe(step);
    assert_eq!((d, f), (0, 1));
    let step = bootstrap_step(&cfg, phase, Event::Probed(ProbeOutcome::NotSupported));
    let (phase, d, f) = expect_probe(step);
    assert_eq!((d, f), (0, 2));
    let step = bootstrap_step(&cfg, phase, Event::Probed(ProbeOutcome::Supported));
    match step {
        Step::Act(Phase::OpeningDevice { selection }, Action::OpenDevice(req)) => {
            assert_eq!(selection, Selection { device: 0, family: 2 });
            assert_eq!(req.queue_family_index, 2);
            assert_eq!(req.queue_count, 1);
            assert_eq!(req.extensions, vec!["VK_KHR_swapchain".to_string()]);
        }
        other => panic!("expected a device-open step, got {:?}", other),
    }
}

#[test]
fn no_suitable_device_without_graphics_family() {
    let cfg = config();
    let devs = vec![device(vec![fam(false), fam(false)]), device(vec![])];
    let step = bootstrap_step(&cfg, Phase::Enumerating, Event::Enumerated(devs));
    assert_eq!(step, Step::Fail(BootstrapError::NoSuitableDevice));
}

#[test]
fn no_suitable_device_when_no_probe_succeeds() {
    // Both graphics-capable families answer "not supported": the run fails
    // with NoSuitableDevice and never emits a device-open action.
    let cfg = config();
    let devs = vec![device(vec![fam(true)]), device(vec![fam(false), fam(true)])];
    let step = bootstrap_step(&cfg, Phase::Enumerating, Event::Enumerated(devs));
    let (phase, d, f) = expect_probe(step);
    assert_eq!((d, f), (0, 0));
    let step = bootstrap_step(&cfg, phase, Event::Probed(ProbeOutcome::NotSupported));
    let (phase, d, f) = expect_probe(step);
    assert_eq!((d, f), (1, 1));
    let step = bootstrap_step(&cfg, phase, Event::Probed(ProbeOutcome::NotSupported));
    assert_eq!(step, Step::Fail(BootstrapError::NoSuitableDevice));
}

#[test]
fn query_failure_aborts_selection() {
    // The probe of the first graphics-capable family fails; selection
    // aborts at once although the next family might have qualified.
    let cfg = config();
    let devs = vec![device(vec![fam(true), fam(true)])];
    let step = bootstrap_step(&cfg, Phase::Enumerating, Event::Enumerated(devs));
    let (phase, d, f) = expect_probe(step);
    assert_eq!((d, f), (0, 0));
    let step = bootstrap_step(&cfg, phase, Event::Probed(ProbeOutcome::QueryFailed));
    assert_eq!(step, Step::Fail(BootstrapError::SurfaceQueryFailed));
}

#[test]
fn instance_failure_stops_bootstrap() {
    // With required extensions ["ext_a"] and the driver rejecting instance
    // creation, the run reports InstanceCreationFailed and emits no
    // further action: no diagnostics registration, no enumeration, no
    // device creation.
    let cfg = BootstrapConfig {
        application_name: "engine".to_string(),
        required_extensions: vec!["ext_a".to_string()],
        portability: false,
    };
    let step = bootstrap_start();
    assert_eq!(step, Step::Act(Phase::LoadingDriver, Action::LoadDriver));
    let step = bootstrap_step(&cfg, Phase::LoadingDriver, Event::Succeeded);
    match step {
        Step::Act(Phase::CreatingInstance, Action::CreateInstance(ic)) => {
            assert_eq!(
                ic.extensions,
                vec!["ext_a".to_string(), "VK_EXT_debug_utils".to_string()]
            );
            assert_eq!(ic.layers, vec!["VK_LAYER_KHRONOS_validation".to_string()]);
            assert_eq!(ic.application_name, "engine".to_string());
            assert!(!ic.enumerate_portability);
        }
        other => panic!("expected an instance-creation step, got {:?}", other),
    }
    let step = bootstrap_step(&cfg, Phase::CreatingInstance, Event::Failed);
    assert_eq!(step, Step::Fail(BootstrapError::InstanceCreationFailed));
}

#[test]
fn each_stage_failure_maps_to_its_error() {
    let cfg = config();
    assert_eq!(
        bootstrap_step(&cfg, Phase::LoadingDriver, Event::Failed),
        Step::Fail(BootstrapError::DriverUnavailable)
    );
    assert_eq!(
        bootstrap_step(&cfg, Phase::RegisteringDiagnostics, Event::Failed),
        Step::Fail(BootstrapError::DebugCallbackRegistrationFailed)
    );
    assert_eq!(
        bootstrap_step(&cfg, Phase::CreatingSurface, Event::Failed),
        Step::Fail(BootstrapError::SurfaceCreationFailed)
    );
    assert_eq!(
        bootstrap_step(&cfg, Phase::Enumerating, Event::Failed),
        Step::Fail(BootstrapError::EnumerationFailed)
    );
    let sel = Selection { device: 0, family: 0 };
    assert_eq!(
        bootstrap_step(&cfg, Phase::OpeningDevice { selection: sel }, Event::Failed),
        Step::Fail(BootstrapError::DeviceCreationFailed)
    );
}

#[test]
fn full_run_completes() {
    let cfg = config();
    let step = bootstrap_start();
    assert_eq!(step, Step::Act(Phase::LoadingDriver, Action::LoadDriver));
    let step = bootstrap_step(&cfg, Phase::LoadingDriver, Event::Succeeded);
    let phase = match step {
        Step::Act(phase, Action::CreateInstance(_)) => phase,
        other => panic!("expected an instance-creation step, got {:?}", other),
    };
    let step = bootstrap_step(&cfg, phase, Event::Succeeded);
    let phase = match step {
        Step::Act(phase, Action::RegisterDiagnostics(_)) => phase,
        other => panic!("expected a diagnostics step, got {:?}", other),
    };
    let step = bootstrap_step(&cfg, phase, Event::Succeeded);
    let phase = match step {
        Step::Act(phase, Action::CreateSurface) => phase,
        other => panic!("expected a surface step, got {:?}", other),
    };
    let step = bootstrap_step(&cfg, phase, Event::Succeeded);
    let phase = match step {
        Step::Act(phase, Action::EnumerateAccelerators) => phase,
        other => panic!("expected an enumeration step, got {:?}", other),
    };
    let devs = vec![device(vec![fam(true)])];
    let step = bootstrap_step(&cfg, phase, Event::Enumerated(devs));
    let (phase, d, f) = expect_probe(step);
    assert_eq!((d, f), (0, 0));
    let step = bootstrap_step(&cfg, phase, Event::Probed(ProbeOutcome::Supported));
    let phase = match step {
        Step::Act(phase, Action::OpenDevice(_)) => phase,
        other => panic!("expected a device-open step, got {:?}", other),
    };
    let step = bootstrap_step(&cfg, phase, Event::Succeeded);
    match step {
        Step::Done(instance) => {
            assert_eq!(instance.selection, Selection { device: 0, family: 0 });
        }
        other => panic!("expected a completed bootstrap, got {:?}", other),
    }
}

#[test]
fn portability_flags_mirrored() {
    // With the portability flag set, the instance list gains the two
    // portability extensions and the creation flag, and the device list
    // the portability-subset extension; without it, none of the three
    // appears.
    let cfg = BootstrapConfig {
        application_name: "engine".to_string(),
        required_extensions: vec!["VK_KHR_surface".to_string()],
        portability: true,
    };
    let step = bootstrap_step(&cfg, Phase::LoadingDriver, Event::Succeeded);
    match step {
        Step::Act(_, Action::CreateInstance(ic)) => {
            assert_eq!(
                ic.extensions,
                vec![
                    "VK_KHR_surface".to_string(),
                    "VK_EXT_debug_utils".to_string(),
                    "VK_KHR_portability_enumeration".to_string(),
                    "VK_KHR_get_physical_device_properties2".to_string(),
                ]
            );
            assert!(ic.enumerate_portability);
        }
        other => panic!("expected an instance-creation step, got {:?}", other),
    }
    let devs = vec![device(vec![fam(true)])];
    let step = bootstrap_step(&cfg, Phase::Enumerating, Event::Enumerated(devs));
    let (phase, _, _) = expect_probe(step);
    let step = bootstrap_step(&cfg, phase, Event::Probed(ProbeOutcome::Supported));
    match step {
        Step::Act(_, Action::OpenDevice(req)) => {
            assert_eq!(
                req.extensions,
                vec![
                    "VK_KHR_swapchain".to_string(),
                    "VK_KHR_portability_subset".to_string(),
                ]
            );
        }
        other => panic!("expected a device-open step, got {:?}", other),
    }

    let plain = config();
    let step = bootstrap_step(&plain, Phase::LoadingDriver, Event::Succeeded);
    match step {
        Step::Act(_, Action::CreateInstance(ic)) => {
            for name in &ic.extensions {
                assert_ne!(name, "VK_KHR_portability_enumeration");
                assert_ne!(name, "VK_KHR_get_physical_device_properties2");
                assert_ne!(name, "VK_KHR_portability_subset");
            }
            assert!(!ic.enumerate_portability);
        }
        other => panic!("expected an instance-creation step, got {:?}", other),
    }
}
