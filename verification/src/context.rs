//! Context-handle planning: validation-layer checking and extension-set
//! assembly.
//!
//! Creating the connection to the graphics subsystem is the driver's job;
//! deciding what to ask it for is this module's. In debug mode every layer
//! of the caller's policy list must be present in the driver's reported
//! layer catalog before creation is attempted at all — a missing layer is a
//! hard configuration error, never a silent downgrade. The extension set
//! handed to creation is the caller's platform-presentation extensions,
//! plus the surface-capability extension, plus the diagnostic extension in
//! debug mode.

use vstd::prelude::*;
use crate::errors::BootstrapError;

verus! {

/// Whether diagnostics (validation layers and the diagnostic callback) are
/// attached to a context handle.
#[derive(Clone, Copy, PartialEq, Eq, Structural, Debug)]
pub enum DiagnosticsMode {
    Plain,
    WithDiagnostics,
}

/// The creation request for one connection to the graphics subsystem. The
/// fields are fixed here, at planning time, and never altered afterwards:
/// the type offers no mutating method.
pub struct ContextHandle {
    pub app_name: String,
    pub enabled_extensions: Vec<String>,
    pub enabled_layers: Vec<String>,
    pub diagnostics: DiagnosticsMode,
}

/// The name of the surface-capability extension, always enabled.
pub open spec fn spec_surface_extension() -> Seq<char> {
    "VK_KHR_surface"@
}

/// The name of the diagnostic-utilities extension, enabled in debug mode.
pub open spec fn spec_debug_utils_extension() -> Seq<char> {
    "VK_EXT_debug_utils"@
}

/// The name of the standard validation layer, the one entry of the current
/// debug-mode layer policy.
pub open spec fn spec_standard_validation_layer() -> Seq<char> {
    "VK_LAYER_KHRONOS_validation"@
}

pub fn surface_extension_name() -> (s: String)
    ensures
        s@ == spec_surface_extension(),
{
    String::from_str("VK_KHR_surface")
}

pub fn debug_utils_extension_name() -> (s: String)
    ensures
        s@ == spec_debug_utils_extension(),
{
    String::from_str("VK_EXT_debug_utils")
}

/// The fixed debug-mode layer policy: currently exactly the standard
/// validation layer.
pub fn standard_validation_layers() -> (v: Vec<String>)
    ensures
        v@.len() == 1,
        v@[0]@ == spec_standard_validation_layer(),
{
    let mut v: Vec<String> = Vec::new();
    v.push(String::from_str("VK_LAYER_KHRONOS_validation"));
    v
}

/// Whether some entry of `catalog` has exactly the name `name`.
pub open spec fn catalog_contains(catalog: Seq<String>, name: Seq<char>) -> bool {
    exists|i: int| 0 <= i < catalog.len() && (#[trigger] catalog[i])@ == name
}

/// Whether every requested layer appears in the driver's layer catalog.
pub open spec fn all_layers_available(catalog: Seq<String>, requested: Seq<String>) -> bool {
    forall|i: int|
        0 <= i < requested.len() ==> catalog_contains(catalog, (#[trigger] requested[i])@)
}

/// Linear scan for a name in a catalog.
pub fn catalog_contains_name(catalog: &Vec<String>, name: &String) -> (r: bool)
    ensures
        r == catalog_contains(catalog@, name@),
{
    let n = catalog.len();
    let mut i: usize = 0;
    while i < n
        invariant
            n == catalog@.len(),
            i <= n,
            forall|k: int| 0 <= k < i ==> (#[trigger] catalog@[k])@ != name@,
        decreases n - i,
    {
        if catalog[i] == *name {
            return true;
        }
        i = i + 1;
    }
    false
}

/// Verifies that every layer in `requested` is present in the driver's
/// reported `catalog`. On the first absent layer the result is a
/// `ConfigurationError` naming it — a hard stop, reported before any
/// context creation is attempted.
pub fn check_validation_layers(catalog: &Vec<String>, requested: &Vec<String>) -> (r: Result<
    (),
    BootstrapError,
>)
    ensures
        match r {
            Ok(()) => all_layers_available(catalog@, requested@),
            Err(e) => exists|i: int|
                {
                    &&& 0 <= i < requested@.len()
                    &&& !catalog_contains(catalog@, (#[trigger] requested@[i])@)
                    &&& forall|k: int|
                        0 <= k < i ==> catalog_contains(catalog@, (#[trigger] requested@[k])@)
                    &&& e matches BootstrapError::ConfigurationError { missing_layer }
                        && missing_layer@ == requested@[i]@
                },
        },
{
    let n = requested.len();
    let mut i: usize = 0;
    while i < n
        invariant
            n == requested@.len(),
            i <= n,
            forall|k: int|
                0 <= k < i ==> catalog_contains(catalog@, (#[trigger] requested@[k])@),
        decreases n - i,
    {
        if !catalog_contains_name(catalog, &requested[i]) {
            return Err(
                BootstrapError::ConfigurationError { missing_layer: requested[i].clone() },
            );
        }
        i = i + 1;
    }
    Ok(())
}

/// The name sequence of a list of strings.
pub open spec fn names_of(v: Seq<String>) -> Seq<Seq<char>> {
    v.map_values(|s: String| s@)
}

/// `names` extended with `n`, unless `n` is already present: set-style
/// union of one extension name into an ordered extension list.
pub open spec fn push_name(names: Seq<Seq<char>>, n: Seq<char>) -> Seq<Seq<char>> {
    if names.contains(n) {
        names
    } else {
        names.push(n)
    }
}

/// The extension names a context-creation request must carry: the caller's
/// platform-presentation extensions, the surface-capability extension, and
/// in debug mode the diagnostic extension.
pub open spec fn planned_extensions(platform: Seq<Seq<char>>, debug_mode: bool) -> Seq<
    Seq<char>,
> {
    let with_surface = push_name(platform, spec_surface_extension());
    if debug_mode {
        push_name(with_surface, spec_debug_utils_extension())
    } else {
        with_surface
    }
}

proof fn lemma_names_contains(v: Seq<String>, n: Seq<char>)
    ensures
        names_of(v).contains(n) == catalog_contains(v, n),
{
    if catalog_contains(v, n) {
        let i = choose|i: int| 0 <= i < v.len() && (#[trigger] v[i])@ == n;
        assert(names_of(v)[i] == n);
    }
    if names_of(v).contains(n) {
        let i = choose|i: int| 0 <= i < names_of(v).len() && names_of(v)[i] == n;
        assert((v[i])@ == n);
    }
}

proof fn lemma_names_push(v: Seq<String>, s: String)
    ensures
        names_of(v.push(s)) == names_of(v).push(s@),
{
    assert(names_of(v.push(s)) =~= names_of(v).push(s@));
}

/// Plans one context handle. In debug mode the layer policy is checked
/// against the driver's catalog first; a missing layer fails with
/// `ConfigurationError` and no handle — and hence no creation request — is
/// produced. On success the handle carries the planned extension set, the
/// policy layers (debug mode only), and the diagnostics tag.
pub fn plan_context(
    app_name: String,
    platform_extensions: Vec<String>,
    debug_mode: bool,
    required_layers: Vec<String>,
    layer_catalog: &Vec<String>,
) -> (r: Result<ContextHandle, BootstrapError>)
    ensures
        match r {
            Ok(ctx) => {
                &&& debug_mode ==> all_layers_available(layer_catalog@, required_layers@)
                &&& ctx.app_name@ == app_name@
                &&& names_of(ctx.enabled_extensions@) == planned_extensions(
                    names_of(platform_extensions@),
                    debug_mode,
                )
                &&& ctx.enabled_layers@ == if debug_mode {
                    required_layers@
                } else {
                    Seq::<String>::empty()
                }
                &&& ctx.diagnostics == if debug_mode {
                    DiagnosticsMode::WithDiagnostics
                } else {
                    DiagnosticsMode::Plain
                }
            },
            Err(e) => {
                &&& debug_mode
                &&& exists|i: int|
                    {
                        &&& 0 <= i < required_layers@.len()
                        &&& !catalog_contains(layer_catalog@, (#[trigger] required_layers@[i])@)
                        &&& forall|k: int|
                            0 <= k < i ==> catalog_contains(
                                layer_catalog@,
                                (#[trigger] required_layers@[k])@,
                            )
                        &&& e matches BootstrapError::ConfigurationError { missing_layer }
                            && missing_layer@ == required_layers@[i]@
                    }
            },
        },
{
    if debug_mode {
        match check_validation_layers(layer_catalog, &required_layers) {
            Ok(()) => {},
            Err(e) => {
                return Err(e);
            },
        }
    }
    let mut extensions = platform_extensions;
    let surface = surface_extension_name();
    if !catalog_contains_name(&extensions, &surface) {
        proof {
            lemma_names_contains(extensions@, surface@);
            lemma_names_push(extensions@, surface);
        }
        extensions.push(surface);
    } else {
        proof {
            lemma_names_contains(extensions@, surface@);
        }
    }
    assert(names_of(extensions@) == push_name(
        names_of(platform_extensions@),
        spec_surface_extension(),
    ));
    if debug_mode {
        let debug_ext = debug_utils_extension_name();
        if !catalog_contains_name(&extensions, &debug_ext) {
            proof {
                lemma_names_contains(extensions@, debug_ext@);
                lemma_names_push(extensions@, debug_ext);
            }
            extensions.push(debug_ext);
        } else {
            proof {
                lemma_names_contains(extensions@, debug_ext@);
            }
        }
    }
    let enabled_layers = if debug_mode {
        required_layers
    } else {
        Vec::new()
    };
    let diagnostics = if debug_mode {
        DiagnosticsMode::WithDiagnostics
    } else {
        DiagnosticsMode::Plain
    };
    Ok(ContextHandle { app_name, enabled_extensions: extensions, enabled_layers, diagnostics })
}

} // verus!
