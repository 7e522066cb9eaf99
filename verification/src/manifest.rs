use vstd::prelude::*;
use vstd::string::StringExecFns;

use crate::metadata::{Metadata, MetadataV, OriMetadata, OriMetadataV};
use crate::text::{chars_of, dash_to_underscore, spec_dashes, string_of};

verus! {

// The synthesizer merges the project identity and the two resolved
// configuration blocks into a complete application manifest.  A field
// comes from the package block when given, else from the general block,
// else from a computed default; the platform version triple and the entry
// point's attributes are fixed policy constants.

/// The platform version the packaging step compiles against.
pub const PLATFORM_VERSION: u32 = 34;

/// The platform codename counterpart of `PLATFORM_VERSION`.
pub const PLATFORM_CODENAME: u32 = 14;

/// The oldest platform version the produced package supports.
pub const MIN_PLATFORM_VERSION: u32 = 21;

/// The one application entry point, with its fixed lifecycle and display
/// attributes.
#[derive(Debug)]
pub struct Activity {
    pub name: String,
    pub label: String,
    pub exported: bool,
    pub hardware_accelerated: bool,
    /// The native library the entry point loads.
    pub lib_name: String,
    pub intent_action: String,
    pub intent_category: String,
    pub config_changes: String,
    pub launch_mode: String,
    pub window_soft_input_mode: String,
}

/// Specification-level form of `Activity`.
#[verifier::ext_equal]
pub struct ActivityV {
    pub name: Seq<char>,
    pub label: Seq<char>,
    pub exported: bool,
    pub hardware_accelerated: bool,
    pub lib_name: Seq<char>,
    pub intent_action: Seq<char>,
    pub intent_category: Seq<char>,
    pub config_changes: Seq<char>,
    pub launch_mode: Seq<char>,
    pub window_soft_input_mode: Seq<char>,
}

impl View for Activity {
    type V = ActivityV;

    open spec fn view(&self) -> ActivityV {
        ActivityV {
            name: self.name@,
            label: self.label@,
            exported: self.exported,
            hardware_accelerated: self.hardware_accelerated,
            lib_name: self.lib_name@,
            intent_action: self.intent_action@,
            intent_category: self.intent_category@,
            config_changes: self.config_changes@,
            launch_mode: self.launch_mode@,
            window_soft_input_mode: self.window_soft_input_mode@,
        }
    }
}

/// The synthesized application manifest.
#[derive(Debug)]
pub struct Manifest {
    pub package: String,
    pub version_code: u32,
    pub version_name: String,
    pub compile_sdk_version: u32,
    pub platform_build_version_code: u32,
    pub compile_sdk_version_codename: u32,
    pub platform_build_version_name: u32,
    pub target_sdk_version: u32,
    pub min_sdk_version: u32,
    pub uses_feature: Vec<String>,
    pub uses_permission: Vec<String>,
    pub application_label: String,
    pub application_theme: String,
    pub activity: Activity,
}

/// Specification-level form of `Manifest`.
#[verifier::ext_equal]
pub struct ManifestV {
    pub package: Seq<char>,
    pub version_code: u32,
    pub version_name: Seq<char>,
    pub compile_sdk_version: u32,
    pub platform_build_version_code: u32,
    pub compile_sdk_version_codename: u32,
    pub platform_build_version_name: u32,
    pub target_sdk_version: u32,
    pub min_sdk_version: u32,
    pub uses_feature: Seq<Seq<char>>,
    pub uses_permission: Seq<Seq<char>>,
    pub application_label: Seq<char>,
    pub application_theme: Seq<char>,
    pub activity: ActivityV,
}

impl View for Manifest {
    type V = ManifestV;

    open spec fn view(&self) -> ManifestV {
        ManifestV {
            package: self.package@,
            version_code: self.version_code,
            version_name: self.version_name@,
            compile_sdk_version: self.compile_sdk_version,
            platform_build_version_code: self.platform_build_version_code,
            compile_sdk_version_codename: self.compile_sdk_version_codename,
            platform_build_version_name: self.platform_build_version_name,
            target_sdk_version: self.target_sdk_version,
            min_sdk_version: self.min_sdk_version,
            uses_feature: self.uses_feature.deep_view(),
            uses_permission: self.uses_permission.deep_view(),
            application_label: self.application_label@,
            application_theme: self.application_theme@,
            activity: self.activity@,
        }
    }
}

/// The default package identifier: the project name with separators
/// normalized, behind the fixed relative-package prefix.
pub open spec fn spec_default_package(name: Seq<char>) -> Seq<char> {
    seq!['.'] + spec_dashes(name)
}

/// The label of the application and of its entry point: the general
/// block's name when given, else the project name.
pub open spec fn spec_label(name: Seq<char>, ori: OriMetadataV) -> Seq<char> {
    match ori.name {
        Some(n) => n,
        None => name,
    }
}

/// The complete manifest for a project named `name` at semantic version
/// `version`, under the resolved configuration blocks `ori` and `apk`.
pub open spec fn spec_synthesize(
    name: Seq<char>,
    version: Seq<char>,
    ori: OriMetadataV,
    apk: MetadataV,
) -> ManifestV {
    ManifestV {
        package: match apk.package {
            Some(p) => p,
            None => spec_default_package(name),
        },
        version_code: match apk.version_code {
            Some(c) => c,
            None => 1,
        },
        version_name: match apk.version_name {
            Some(v) => v,
            None => version,
        },
        compile_sdk_version: PLATFORM_VERSION,
        platform_build_version_code: PLATFORM_VERSION,
        compile_sdk_version_codename: PLATFORM_CODENAME,
        platform_build_version_name: PLATFORM_CODENAME,
        target_sdk_version: PLATFORM_VERSION,
        min_sdk_version: MIN_PLATFORM_VERSION,
        uses_feature: apk.uses_feature,
        uses_permission: apk.uses_permission,
        application_label: spec_label(name, ori),
        application_theme: "@android:style/Theme.DeviceDefault.NoActionBar.TranslucentDecor"@,
        activity: ActivityV {
            name: "ori.oriactivity.OriActivity"@,
            label: spec_label(name, ori),
            exported: true,
            hardware_accelerated: true,
            lib_name: spec_dashes(name),
            intent_action: "android.intent.action.MAIN"@,
            intent_category: "android.intent.category.LAUNCHER"@,
            config_changes:
                "orientation|keyboardHidden|keyboard|screenSize|smallestScreenSize|locale|layoutDirection|fontScale|screenLayout|density|uiMode"@,
            launch_mode: "singleTop"@,
            window_soft_input_mode: "adjustResize"@,
        },
    }
}

/// Synthesizes the manifest for the project `name` at `version` from the
/// two resolved configuration blocks, exactly as `spec_synthesize` says:
/// package fields win over general fields, which win over the computed
/// defaults, and the platform baseline and entry-point attributes are
/// fixed.
pub fn synthesize(name: &String, version: &String, ori: &OriMetadata, apk: &Metadata) -> (m:
    Manifest)
    ensures
        m@ == spec_synthesize(name@, version@, ori@, apk@),
{
    let name_chars = chars_of(name.as_str());
    let lib_name_chars = dash_to_underscore(&name_chars);
    let lib_name = string_of(&lib_name_chars);

    let package = match &apk.package {
        Some(p) => p.clone(),
        None => {
            let mut v: Vec<char> = Vec::new();
            v.push('.');
            let mut rest = lib_name_chars.clone();
            v.append(&mut rest);
            proof {
                assert(v@ =~= spec_default_package(name@));
            }
            string_of(&v)
        },
    };

    let version_code: u32 = match apk.version_code {
        Some(c) => c,
        None => 1,
    };

    let version_name = match &apk.version_name {
        Some(v) => v.clone(),
        None => version.clone(),
    };

    let label = match &ori.name {
        Some(n) => n.clone(),
        None => name.clone(),
    };

    let activity = Activity {
        name: String::from_str("ori.oriactivity.OriActivity"),
        label: label.clone(),
        exported: true,
        hardware_accelerated: true,
        lib_name,
        intent_action: String::from_str("android.intent.action.MAIN"),
        intent_category: String::from_str("android.intent.category.LAUNCHER"),
        config_changes: String::from_str(
            "orientation|keyboardHidden|keyboard|screenSize|smallestScreenSize|locale|layoutDirection|fontScale|screenLayout|density|uiMode",
        ),
        launch_mode: String::from_str("singleTop"),
        window_soft_input_mode: String::from_str("adjustResize"),
    };

    let m = Manifest {
        package,
        version_code,
        version_name,
        compile_sdk_version: PLATFORM_VERSION,
        platform_build_version_code: PLATFORM_VERSION,
        compile_sdk_version_codename: PLATFORM_CODENAME,
        platform_build_version_name: PLATFORM_CODENAME,
        target_sdk_version: PLATFORM_VERSION,
        min_sdk_version: MIN_PLATFORM_VERSION,
        uses_feature: apk.uses_feature.clone(),
        uses_permission: apk.uses_permission.clone(),
        application_label: label,
        application_theme: String::from_str(
            "@android:style/Theme.DeviceDefault.NoActionBar.TranslucentDecor",
        ),
        activity,
    };
    proof {
        assert(m@ =~~= spec_synthesize(name@, version@, ori@, apk@));
    }
    m
}

} // verus!
