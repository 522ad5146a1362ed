//! Teardown ordering: resources are released in strictly reverse creation
//! order.
//!
//! The bootstrap chain is created driver library → context handle (with
//! its diagnostic callback, in debug mode) → presentation surface →
//! logical device. Destroying a fully-constructed chain must release the
//! logical device and the diagnostic callback before the context handle,
//! and the context handle before the driver library.

use vstd::prelude::*;
use crate::context::{ContextHandle, DiagnosticsMode};

verus! {

/// The releasable resources of a fully-constructed bootstrap chain.
#[derive(Clone, Copy, PartialEq, Eq, Structural, Debug)]
pub enum BootstrapResource {
    LogicalDevice,
    PresentationSurface,
    DiagnosticCallback,
    ContextHandle,
    DriverLibrary,
}

/// The release order of a fully-constructed chain: strictly reverse
/// creation order. The diagnostic callback appears only when the context
/// was created with diagnostics.
pub open spec fn spec_teardown_order(diagnostics: DiagnosticsMode) -> Seq<BootstrapResource> {
    if diagnostics is WithDiagnostics {
        seq![
            BootstrapResource::LogicalDevice,
            BootstrapResource::PresentationSurface,
            BootstrapResource::DiagnosticCallback,
            BootstrapResource::ContextHandle,
            BootstrapResource::DriverLibrary,
        ]
    } else {
        seq![
            BootstrapResource::LogicalDevice,
            BootstrapResource::PresentationSurface,
            BootstrapResource::ContextHandle,
            BootstrapResource::DriverLibrary,
        ]
    }
}

/// The order in which a chain built on `ctx` must be released.
pub fn teardown_order(ctx: &ContextHandle) -> (order: Vec<BootstrapResource>)
    ensures
        order@ == spec_teardown_order(ctx.diagnostics),
{
    let mut order: Vec<BootstrapResource> = Vec::new();
    order.push(BootstrapResource::LogicalDevice);
    order.push(BootstrapResource::PresentationSurface);
    if matches!(ctx.diagnostics, DiagnosticsMode::WithDiagnostics) {
        order.push(BootstrapResource::DiagnosticCallback);
    }
    order.push(BootstrapResource::ContextHandle);
    order.push(BootstrapResource::DriverLibrary);
    proof {
        assert(order@ =~= spec_teardown_order(ctx.diagnostics));
    }
    order
}

/// Destroying a fully-constructed chain releases the diagnostic callback
/// (when present) and the logical device before the context handle, and
/// the context handle before the driver library.
pub proof fn lemma_teardown_reverse_creation(diagnostics: DiagnosticsMode)
    ensures
        ({
            let order = spec_teardown_order(diagnostics);
            &&& forall|i: int, j: int|
                0 <= i < order.len() && 0 <= j < order.len() && order[i]
                    is DiagnosticCallback && order[j] is ContextHandle ==> i < j
            &&& forall|i: int, j: int|
                0 <= i < order.len() && 0 <= j < order.len() && order[i] is LogicalDevice
                    && order[j] is ContextHandle ==> i < j
            &&& forall|i: int, j: int|
                0 <= i < order.len() && 0 <= j < order.len() && order[i] is ContextHandle
                    && order[j] is DriverLibrary ==> i < j
        }),
{
}

} // verus!
