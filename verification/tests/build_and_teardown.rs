use gfx_bootstrap::context::{plan_context, standard_validation_layers};
use gfx_bootstrap::device::{DeviceCategory, PhysicalDeviceInfo, PresentSupport, QueueFamily};
use gfx_bootstrap::diagnostics::{DiagnosticCategory, DiagnosticSeverity, DiagnosticSink};
use gfx_bootstrap::errors::BootstrapError;
use gfx_bootstrap::logical::{build_logical_device, device_creation_failure, plan_logical_device};
use gfx_bootstrap::select::{select_physical_device, DeviceSelection};
use gfx_bootstrap::teardown::{teardown_order, BootstrapResource};

fn selection() -> DeviceSelection {
    let devices = vec![PhysicalDeviceInfo {
        name: String::from("discrete"),
        category: DeviceCategory::DiscreteGpu,
        supports_presentation_extension: true,
        queue_families: vec![
            QueueFamily { graphics: false, present: PresentSupport::Supported },
            QueueFamily { graphics: true, present: PresentSupport::Supported },
        ],
    }];
    select_physical_device(&devices).unwrap()
}

#[test]
fn build_with_one_queue() {
    let sel = selection();
    let built = build_logical_device(&sel, 1);
    assert_eq!(built.queues.len(), 1);
    assert_eq!(built.queues[0].family_index, sel.queue_family_index);
    assert_eq!(built.queues[0].index_in_family, 0);
    assert_eq!(built.device_name, "discrete");
}

#[test]
fn build_with_three_queues() {
    let sel = selection();
    let built = build_logical_device(&sel, 3);
    assert_eq!(built.queues.len(), 3);
    for (i, q) in built.queues.iter().enumerate() {
        assert_eq!(q.family_index, sel.queue_family_index);
        assert_eq!(q.index_in_family, i as u32);
    }
}

#[test]
fn plan_has_exactly_one_queue_request() {
    let sel = selection();
    let extensions = vec![String::from("VK_KHR_swapchain")];
    let plan = plan_logical_device(&sel, 2, extensions);
    assert_eq!(plan.queue_requests.len(), 1);
    assert_eq!(plan.queue_requests[0].queue_family_index, sel.queue_family_index);
    assert_eq!(plan.queue_requests[0].queue_count, 2);
    assert_eq!(plan.enabled_extensions, vec![String::from("VK_KHR_swapchain")]);
}

#[test]
fn creation_failure_names_device_and_family() {
    let sel = selection();
    match device_creation_failure(&sel) {
        BootstrapError::DeviceCreationFailed { device_name, queue_family_index } => {
            assert_eq!(device_name, "discrete");
            assert_eq!(queue_family_index, sel.queue_family_index);
        }
        _ => panic!("expected a device-creation failure"),
    }
}

fn position(order: &[BootstrapResource], r: BootstrapResource) -> usize {
    order.iter().position(|x| *x == r).unwrap()
}

#[test]
fn teardown_releases_in_reverse_creation_order() {
    let catalog = vec![String::from("VK_LAYER_KHRONOS_validation")];
    let ctx = plan_context(
        String::from("app"),
        Vec::new(),
        true,
        standard_validation_layers(),
        &catalog,
    )
    .unwrap();
    let order = teardown_order(&ctx);
    assert_eq!(
        order,
        vec![
            BootstrapResource::LogicalDevice,
            BootstrapResource::PresentationSurface,
            BootstrapResource::DiagnosticCallback,
            BootstrapResource::ContextHandle,
            BootstrapResource::DriverLibrary,
        ]
    );
    assert!(position(&order, BootstrapResource::DiagnosticCallback)
        < position(&order, BootstrapResource::ContextHandle));
    assert!(position(&order, BootstrapResource::LogicalDevice)
        < position(&order, BootstrapResource::ContextHandle));
    assert!(position(&order, BootstrapResource::ContextHandle)
        < position(&order, BootstrapResource::DriverLibrary));
}

#[test]
fn teardown_without_diagnostics() {
    let catalog: Vec<String> = Vec::new();
    let ctx = plan_context(
        String::from("app"),
        Vec::new(),
        false,
        standard_validation_layers(),
        &catalog,
    )
    .unwrap();
    let order = teardown_order(&ctx);
    assert_eq!(
        order,
        vec![
            BootstrapResource::LogicalDevice,
            BootstrapResource::PresentationSurface,
            BootstrapResource::ContextHandle,
            BootstrapResource::DriverLibrary,
        ]
    );
}

#[test]
fn sink_forwards_every_severity_verbatim() {
    let mut sink = DiagnosticSink::new();
    sink.forward(
        DiagnosticSeverity::Verbose,
        DiagnosticCategory::General,
        String::from("loaded"),
    );
    sink.forward(
        DiagnosticSeverity::Error,
        DiagnosticCategory::Validation,
        String::from("bad handle"),
    );
    assert_eq!(sink.records.len(), 2);
    assert_eq!(sink.records[0].message, "loaded");
    assert!(matches!(sink.records[0].severity, DiagnosticSeverity::Verbose));
    assert_eq!(sink.records[1].message, "bad handle");
    assert!(matches!(sink.records[1].category, DiagnosticCategory::Validation));
}

#[test]
fn only_presentation_query_failure_is_recoverable() {
    assert!(BootstrapError::DriverNotFound.is_fatal());
    assert!(BootstrapError::ConfigurationError { missing_layer: String::from("l") }.is_fatal());
    assert!(BootstrapError::ContextCreationFailed.is_fatal());
    assert!(BootstrapError::SurfaceCreationFailed.is_fatal());
    assert!(BootstrapError::NoSuitableDevice.is_fatal());
    assert!(BootstrapError::DeviceCreationFailed {
        device_name: String::from("d"),
        queue_family_index: 0
    }
    .is_fatal());
    assert!(!BootstrapError::PresentationQueryFailed { queue_family_index: 0 }.is_fatal());
}
