use vstd::prelude::*;
use vstd::string::StringExecFns;

use crate::artifact::{
    spec_candidate, spec_first_cdylib, spec_message_of, spec_opt_str, spec_scan_echo,
    spec_scan_step, ArtifactScan,
};
use crate::device::{select_single_device, Device};
use crate::error::BuildError;
use crate::manifest::{spec_synthesize, synthesize, Manifest, ManifestV};
use crate::metadata::{
    spec_resolve_metadata, spec_resolve_ori, ConfigFault, ConfigFieldV, Metadata, MetadataV,
    OriMetadata, OriMetadataV,
};
use crate::project::{get_package, spec_find_package, PackageInfoV, ProjectMetadata};
use crate::sdk::{
    dex_path, sdk_cache_path, sdk_dir, sdk_package, sdk_step, spec_dex_path, spec_sdk_dir,
    spec_sdk_package, spec_sdk_path, spec_sdk_step, SdkDecision, SDK_VERSION,
};
use crate::target::{spec_target_of_triple, spec_triple, Target};
use crate::text::{chars_of, string_of};

verus! {

// The orchestrator.  The two workflows are state machines: each state
// names the one outside action that must happen next (fetch the project
// description, probe a tool, run the compiler, check a cache file, fetch,
// assemble, install), and each event hands the action's outcome back and
// moves the machine on.  Every decision between two actions is made, and
// verified, here; the caller only performs the actions.

/// The configuration bundle of one invocation.
#[derive(Debug)]
pub struct BuildOptions {
    /// Platform SDK root override.
    pub sdk: Option<String>,
    /// Build with optimizations.
    pub release: bool,
    /// Path to the PEM-encoded signing key and certificate.
    pub pem: Option<String>,
    /// The compilation triple to build for.
    pub target: Option<String>,
    /// The package to build.
    pub package: Option<String>,
    /// Run without accessing the network.
    pub offline: bool,
    /// Features to enable.
    pub features: Vec<String>,
    /// Verbose output.
    pub verbose: bool,
}

/// Specification-level form of `BuildOptions`.
#[verifier::ext_equal]
pub struct OptionsV {
    pub sdk: Option<Seq<char>>,
    pub release: bool,
    pub pem: Option<Seq<char>>,
    pub target: Option<Seq<char>>,
    pub package: Option<Seq<char>>,
    pub offline: bool,
    pub features: Seq<Seq<char>>,
    pub verbose: bool,
}

impl View for BuildOptions {
    type V = OptionsV;

    open spec fn view(&self) -> OptionsV {
        OptionsV {
            sdk: match self.sdk {
                Some(ref s) => Some(s@),
                None => None,
            },
            release: self.release,
            pem: match self.pem {
                Some(ref s) => Some(s@),
                None => None,
            },
            target: match self.target {
                Some(ref s) => Some(s@),
                None => None,
            },
            package: match self.package {
                Some(ref s) => Some(s@),
                None => None,
            },
            offline: self.offline,
            features: self.features.deep_view(),
            verbose: self.verbose,
        }
    }
}

/// The feature list as one comma-separated argument.
pub open spec fn spec_join_comma(fs: Seq<Seq<char>>) -> Seq<char>
    decreases fs.len(),
{
    if fs.len() == 0 {
        Seq::empty()
    } else if fs.len() == 1 {
        fs[0]
    } else {
        spec_join_comma(fs.drop_last()) + seq![','] + fs.last()
    }
}

/// The argument list of one compiler invocation: structured output for
/// the given triple and package, with the release, offline and feature
/// flags exactly when asked for.
pub open spec fn spec_compiler_args(
    triple: Seq<char>,
    package: Seq<char>,
    release: bool,
    offline: bool,
    features: Seq<Seq<char>>,
) -> Seq<Seq<char>> {
    seq![
        "--color"@,
        "always"@,
        "build"@,
        "--target"@,
        triple,
        "--message-format=json"@,
        "--package"@,
        package,
        "--lib"@,
    ] + (if release {
        seq!["--release"@]
    } else {
        Seq::empty()
    }) + (if offline {
        seq!["--offline"@]
    } else {
        Seq::empty()
    }) + (if features.len() > 0 {
        seq!["--features"@, spec_join_comma(features)]
    } else {
        Seq::empty()
    })
}

/// Joins the feature names with commas.
fn join_comma(features: &Vec<String>) -> (r: String)
    ensures
        r@ == spec_join_comma(features.deep_view()),
{
    let ghost fv = features.deep_view();
    let n = features.len();
    if n == 0 {
        let r = String::new();
        proof {
            assert(r@ =~= spec_join_comma(fv));
        }
        return r;
    }
    let mut acc = chars_of(features[0].as_str());
    proof {
        assert(fv.take(1) =~= seq![fv[0]]);
    }
    let mut i: usize = 1;
    while i < n
        invariant
            1 <= i <= n,
            n == features@.len(),
            fv == features.deep_view(),
            acc@ == spec_join_comma(fv.take(i as int)),
        decreases n - i,
    {
        acc.push(',');
        let mut next = chars_of(features[i].as_str());
        acc.append(&mut next);
        proof {
            assert(fv.take(i + 1).drop_last() =~= fv.take(i as int));
            assert(acc@ =~= spec_join_comma(fv.take(i + 1)));
        }
        i = i + 1;
    }
    proof {
        assert(fv.take(n as int) =~= fv);
    }
    string_of(&acc)
}

/// Builds the compiler argument list, as `spec_compiler_args` says.
fn compiler_args(
    triple: &String,
    package: &String,
    release: bool,
    offline: bool,
    features: &Vec<String>,
) -> (r: Vec<String>)
    ensures
        r.deep_view() == spec_compiler_args(
            triple@,
            package@,
            release,
            offline,
            features.deep_view(),
        ),
{
    let mut r: Vec<String> = Vec::new();
    r.push(String::from_str("--color"));
    r.push(String::from_str("always"));
    r.push(String::from_str("build"));
    r.push(String::from_str("--target"));
    r.push(triple.clone());
    r.push(String::from_str("--message-format=json"));
    r.push(String::from_str("--package"));
    r.push(package.clone());
    r.push(String::from_str("--lib"));
    if release {
        r.push(String::from_str("--release"));
    }
    if offline {
        r.push(String::from_str("--offline"));
    }
    if features.len() > 0 {
        r.push(String::from_str("--features"));
        r.push(join_comma(features));
    }
    proof {
        assert(r.deep_view() =~~= spec_compiler_args(
            triple@,
            package@,
            release,
            offline,
            features.deep_view(),
        ));
    }
    r
}

/// Everything the compile-and-package pipeline needs, resolved up front.
#[derive(Debug)]
pub struct BuildPlan {
    pub package_name: String,
    pub package_id: String,
    pub manifest: Manifest,
    pub arch: Target,
    pub triple: String,
    pub compiler_args: Vec<String>,
    pub workspace_root: String,
    pub target_directory: String,
    pub icon_path: Option<String>,
    pub pem_path: Option<String>,
    pub release: bool,
    pub offline: bool,
}

/// Specification-level form of `BuildPlan`.
#[verifier::ext_equal]
pub struct PlanV {
    pub package_name: Seq<char>,
    pub package_id: Seq<char>,
    pub manifest: ManifestV,
    pub arch: Target,
    pub triple: Seq<char>,
    pub compiler_args: Seq<Seq<char>>,
    pub workspace_root: Seq<char>,
    pub target_directory: Seq<char>,
    pub icon_path: Option<Seq<char>>,
    pub pem_path: Option<Seq<char>>,
    pub release: bool,
    pub offline: bool,
}

impl View for BuildPlan {
    type V = PlanV;

    open spec fn view(&self) -> PlanV {
        PlanV {
            package_name: self.package_name@,
            package_id: self.package_id@,
            manifest: self.manifest@,
            arch: self.arch,
            triple: self.triple@,
            compiler_args: self.compiler_args.deep_view(),
            workspace_root: self.workspace_root@,
            target_directory: self.target_directory@,
            icon_path: match self.icon_path {
                Some(ref s) => Some(s@),
                None => None,
            },
            pem_path: match self.pem_path {
                Some(ref s) => Some(s@),
                None => None,
            },
            release: self.release,
            offline: self.offline,
        }
    }
}

/// Why a plan could not be made.
pub enum PlanFault {
    /// The general configuration block broke its schema.
    Ori(ConfigFault),
    /// The package configuration block broke its schema.
    Apk(ConfigFault),
    /// No target was given and none could be inferred.
    NoTarget,
    /// The given target is not a supported triple.
    BadTarget(Seq<char>),
}

/// Whether the reported error is the one a plan fault calls for.
pub open spec fn spec_plan_fault_matches(f: PlanFault, e: BuildError) -> bool {
    match f {
        PlanFault::Ori(ConfigFault::Unknown(k)) | PlanFault::Apk(ConfigFault::Unknown(k)) => e
            matches BuildError::UnknownConfigField(v) && v@ == k,
        PlanFault::Ori(ConfigFault::Invalid(k)) | PlanFault::Apk(ConfigFault::Invalid(k)) => e
            matches BuildError::InvalidConfigField(v) && v@ == k,
        PlanFault::NoTarget => e is TargetNotSpecified,
        PlanFault::BadTarget(t) => e matches BuildError::UnsupportedTarget(v) && v@ == t,
    }
}

/// The fields of an optional configuration block.
pub open spec fn spec_fields_or_empty(c: Option<Seq<ConfigFieldV>>) -> Seq<ConfigFieldV> {
    match c {
        Some(f) => f,
        None => Seq::empty(),
    }
}

/// The plan for one package under the given options: both configuration
/// blocks resolved, the manifest synthesized, the target triple mapped,
/// and the compiler invocation laid out.  The first failure wins, in the
/// order the pipeline meets them: general block, package block, target.
pub open spec fn spec_plan(
    options: OptionsV,
    pkg: PackageInfoV,
    workspace_root: Seq<char>,
    target_directory: Seq<char>,
) -> Result<PlanV, PlanFault> {
    match spec_resolve_ori(spec_fields_or_empty(pkg.ori_config)) {
        Err(f) => Err(PlanFault::Ori(f)),
        Ok(ori) => match spec_resolve_metadata(spec_fields_or_empty(pkg.apk_config)) {
            Err(f) => Err(PlanFault::Apk(f)),
            Ok(apk) => match options.target {
                None => Err(PlanFault::NoTarget),
                Some(t) => match spec_target_of_triple(t) {
                    None => Err(PlanFault::BadTarget(t)),
                    Some(arch) => Ok(
                        PlanV {
                            package_name: pkg.name,
                            package_id: pkg.id,
                            manifest: spec_synthesize(pkg.name, pkg.version, ori, apk),
                            arch,
                            triple: t,
                            compiler_args: spec_compiler_args(
                                t,
                                pkg.name,
                                options.release,
                                options.offline,
                                options.features,
                            ),
                            workspace_root,
                            target_directory,
                            icon_path: match apk.icon {
                                Some(ic) => Some(workspace_root + "/"@ + ic),
                                None => None,
                            },
                            pem_path: options.pem,
                            release: options.release,
                            offline: options.offline,
                        },
                    ),
                },
            },
        },
    }
}

/// Makes the build plan for the package at `package_index`, exactly as
/// `spec_plan` says.
pub fn plan_build(options: &BuildOptions, project: &ProjectMetadata, package_index: usize) -> (r:
    Result<BuildPlan, BuildError>)
    requires
        package_index < project.packages@.len(),
    ensures
        ({
            let pkg = project.packages.deep_view()[package_index as int];
            let planned = spec_plan(
                options@,
                pkg,
                project.workspace_root@,
                project.target_directory@,
            );
            match r {
                Ok(p) => planned == Ok::<PlanV, PlanFault>(p@),
                Err(e) => planned matches Err(f) && spec_plan_fault_matches(f, e),
            }
        }),
{
    let pkg = &project.packages[package_index];
    proof {
        assert(project.packages.deep_view()[package_index as int] == pkg@);
    }
    let ori = match OriMetadata::resolve(pkg.ori_config.as_ref()) {
        Ok(m) => m,
        Err(e) => {
            return Err(e);
        },
    };
    let apk_meta = match Metadata::resolve(pkg.apk_config.as_ref()) {
        Ok(m) => m,
        Err(e) => {
            return Err(e);
        },
    };
    let triple = match &options.target {
        Some(t) => t.clone(),
        None => {
            return Err(BuildError::TargetNotSpecified);
        },
    };
    let arch = match Target::from_triple(&triple) {
        Ok(a) => a,
        Err(e) => {
            return Err(e);
        },
    };
    let manifest = synthesize(&pkg.name, &pkg.version, &ori, &apk_meta);
    let args = compiler_args(&triple, &pkg.name, options.release, options.offline,
        &options.features);
    let icon_path = match &apk_meta.icon {
        Some(ic) => {
            let mut v = chars_of(project.workspace_root.as_str());
            let mut sep = chars_of("/");
            v.append(&mut sep);
            let mut rest = chars_of(ic.as_str());
            v.append(&mut rest);
            Some(string_of(&v))
        },
        None => None,
    };
    let plan = BuildPlan {
        package_name: pkg.name.clone(),
        package_id: pkg.id.clone(),
        manifest,
        arch,
        triple,
        compiler_args: args,
        workspace_root: project.workspace_root.clone(),
        target_directory: project.target_directory.clone(),
        icon_path,
        pem_path: options.pem.clone(),
        release: options.release,
        offline: options.offline,
    };
    proof {
        let pkgv = project.packages.deep_view()[package_index as int];
        let planned = spec_plan(options@, pkgv, project.workspace_root@,
            project.target_directory@);
        assert(planned matches Ok(p) && p =~~= plan@);
    }
    Ok(plan)
}

/// The prefix of `p` up to its last separator: the enclosing directory.
pub open spec fn spec_parent(p: Seq<char>) -> Seq<char>
    decreases p.len(),
{
    if p.len() == 0 {
        p
    } else if p.last() == '/' {
        p.drop_last()
    } else {
        spec_parent(p.drop_last())
    }
}

/// A separator at `j` with none after it marks the parent prefix.
proof fn lemma_parent_at(p: Seq<char>, j: int)
    requires
        0 <= j < p.len(),
        p[j] == '/',
        forall|k: int| j < k < p.len() ==> p[k] != '/',
    ensures
        spec_parent(p) == p.take(j),
    decreases p.len(),
{
    if j == p.len() - 1 {
        assert(p.drop_last() =~= p.take(j));
    } else {
        assert(p.last() != '/');
        lemma_parent_at(p.drop_last(), j);
        assert(p.drop_last().take(j) =~= p.take(j));
    }
}

/// The enclosing directory of `p`: everything before the last separator.
fn parent_dir(p: &Vec<char>) -> (r: Vec<char>)
    requires
        exists|k: int| 0 <= k < p@.len() && p@[k] == '/',
    ensures
        r@ == spec_parent(p@),
{
    let n = p.len();
    let mut j: usize = n;
    while j > 0 && !(p[j - 1] == '/')
        invariant
            0 <= j <= n,
            n == p@.len(),
            forall|k: int| j <= k < n ==> p@[k] != '/',
        decreases j,
    {
        j = j - 1;
    }
    proof {
        let k = choose|k: int| 0 <= k < p@.len() && p@[k] == '/';
        assert(j > 0);
        lemma_parent_at(p@, j - 1);
    }
    crate::text::subchars(p, 0, j - 1)
}

/// Everything the container-assembly step needs, laid out as the strict
/// call order of the container writer expects it.
#[derive(Debug)]
pub struct PackagePlan {
    /// The synthesized manifest the container is initialized with.
    pub manifest: Manifest,
    /// Where the finished package is written.
    pub package_path: String,
    /// Where the auxiliary binary payload is staged.
    pub dex_path: String,
    /// The produced native shared library.
    pub lib_path: String,
    /// The icon source, when configured.
    pub icon_path: Option<String>,
    /// The cached platform resource file.
    pub sdk_path: String,
    /// The architecture the native library was built for.
    pub arch: Target,
    /// The signing key file, when given; absent means the bundled
    /// development-only key.
    pub pem_path: Option<String>,
    /// Whether the container is marked debuggable.
    pub debuggable: bool,
}

/// Specification-level form of `PackagePlan`.
#[verifier::ext_equal]
pub struct PackagePlanV {
    pub manifest: ManifestV,
    pub package_path: Seq<char>,
    pub dex_path: Seq<char>,
    pub lib_path: Seq<char>,
    pub icon_path: Option<Seq<char>>,
    pub sdk_path: Seq<char>,
    pub arch: Target,
    pub pem_path: Option<Seq<char>>,
    pub debuggable: bool,
}

impl View for PackagePlan {
    type V = PackagePlanV;

    open spec fn view(&self) -> PackagePlanV {
        PackagePlanV {
            manifest: self.manifest@,
            package_path: self.package_path@,
            dex_path: self.dex_path@,
            lib_path: self.lib_path@,
            icon_path: match self.icon_path {
                Some(ref s) => Some(s@),
                None => None,
            },
            sdk_path: self.sdk_path@,
            arch: self.arch,
            pem_path: match self.pem_path {
                Some(ref s) => Some(s@),
                None => None,
            },
            debuggable: self.debuggable,
        }
    }
}

/// The assembly work for a finished compilation: the plan's manifest and
/// icon, the computed paths, and the fixed debuggable mark.
pub open spec fn spec_package_plan(
    plan: PlanV,
    lib_path: Seq<char>,
    package_path: Seq<char>,
    sdk_path: Seq<char>,
    dex_path: Seq<char>,
) -> PackagePlanV {
    PackagePlanV {
        manifest: plan.manifest,
        package_path,
        dex_path,
        lib_path,
        icon_path: plan.icon_path,
        sdk_path,
        arch: plan.arch,
        pem_path: plan.pem_path,
        debuggable: true,
    }
}

/// The one outside action a workflow state asks for next.
#[derive(Debug)]
pub enum Action {
    /// Retrieve the project description from the build system.
    FetchProjectMetadata,
    /// Probe whether the device bridge tool is installed.
    ProbeBridge,
    /// Enumerate attached devices through the bridge.
    ListDevices,
    /// Probe whether the cross-compiler is installed, installing it on
    /// consent.
    ProbeCompiler,
    /// Spawn the cross-compiler with these arguments and feed every
    /// output line back through `consume_compiler_line`.
    RunCompiler { args: Vec<String> },
    /// Check whether the platform resource file exists at this path.
    CheckSdkCache { path: String },
    /// Fetch the platform resource package into `directory`, keeping
    /// only the file named by `filter`.
    FetchSdk { directory: String, package: String, filter: String },
    /// Run the container-writer sequence.
    AssemblePackage { plan: PackagePlan },
    /// Install the finished package on the device.
    InstallPackage { device_id: String, package_path: String },
    /// The workflow is complete; the finished package is at this path.
    Finish { package_path: String },
}

/// The workflow's state between two actions.
#[derive(Debug)]
pub enum Workflow {
    /// Waiting for the project description.
    FetchingMetadata { options: BuildOptions, install: bool },
    /// Waiting for the bridge probe (install flow only).
    ProbingBridge { options: BuildOptions, project: ProjectMetadata, package_index: usize },
    /// Waiting for the device enumeration.
    ListingDevices { options: BuildOptions, project: ProjectMetadata, package_index: usize },
    /// Waiting for the compiler probe.
    ProbingCompiler { plan: BuildPlan, device: Option<Device> },
    /// Consuming the compiler's output stream.
    Compiling { plan: BuildPlan, device: Option<Device>, scan: ArtifactScan },
    /// Waiting for the resource cache check.
    CheckingSdk {
        plan: BuildPlan,
        device: Option<Device>,
        lib_path: String,
        package_path: String,
        sdk_path: String,
        dex_path: String,
    },
    /// Waiting for the resource fetch.
    FetchingSdk {
        plan: BuildPlan,
        device: Option<Device>,
        lib_path: String,
        package_path: String,
        sdk_path: String,
        dex_path: String,
    },
    /// Waiting for the container assembly.
    Packaging { device: Option<Device>, package_path: String },
    /// Waiting for the bridge install.
    Installing { package_path: String },
    /// Finished.
    Done { package_path: String },
}

impl Workflow {
    /// States that carry a selected package index keep it inside the
    /// package list.
    pub open spec fn wf(&self) -> bool {
        match self {
            Workflow::ProbingBridge { project, package_index, .. } => project.wf()
                && (package_index as int) < project.packages@.len(),
            Workflow::ListingDevices { project, package_index, .. } => project.wf()
                && (package_index as int) < project.packages@.len(),
            _ => true,
        }
    }
}

/// The two top-level commands.
#[derive(Debug)]
pub enum Command {
    /// Build an installable package from the project.
    Build(BuildOptions),
    /// Build the package and install it on the attached device.
    Install(BuildOptions),
}

impl Command {
    /// Starts the workflow this command names.  Both flows begin by
    /// fetching the project description.
    pub fn run(self) -> (r: (Workflow, Action))
        ensures
            ({
                let (w, a) = r;
                &&& a is FetchProjectMetadata
                &&& w.wf()
                &&& match self {
                    Command::Build(opts) => w matches Workflow::FetchingMetadata {
                        options,
                        install,
                    } && options == opts && !install,
                    Command::Install(opts) => w matches Workflow::FetchingMetadata {
                        options,
                        install,
                    } && options == opts && install,
                }
            }),
    {
        match self {
            Command::Build(options) => (
                Workflow::FetchingMetadata { options, install: false },
                Action::FetchProjectMetadata,
            ),
            Command::Install(options) => (
                Workflow::FetchingMetadata { options, install: true },
                Action::FetchProjectMetadata,
            ),
        }
    }
}

/// Rejects a missing device bridge: the probe's outcome decides, and the
/// failure is the distinct not-installed condition, reported before any
/// further bridge use.
pub fn ensure_adb_installed(available: bool) -> (r: Result<(), BuildError>)
    ensures
        r is Ok <==> available,
        !available ==> (r matches Err(e) && e is BridgeNotInstalled),
{
    if available {
        Ok(())
    } else {
        Err(BuildError::BridgeNotInstalled)
    }
}

impl Workflow {
    /// Consumes the fetched project description: selects the package,
    /// then turns to the bridge (install flow) or plans the build and
    /// turns to the compiler (build flow).
    pub fn on_project(self, project: ProjectMetadata) -> (r: Result<(Workflow, Action), BuildError>)
        requires
            self is FetchingMetadata,
            project.wf(),
        ensures
            ({
                let pv = project.packages.deep_view();
                self matches Workflow::FetchingMetadata { options, install } ==> {
                    let selected = match options@.package {
                        Some(n) => spec_find_package(pv, n),
                        None => match project.root_package {
                            Some(i) => Some(i as int),
                            None => None,
                        },
                    };
                    match selected {
                        None => r matches Err(e) && (options@.package is Some ==> e
                            is PackageNotFound) && (options@.package is None ==> e is NoPackage),
                        Some(i) => {
                            if install {
                                &&& r matches Ok((w, a))
                                &&& a is ProbeBridge
                                &&& w.wf()
                                &&& w matches Workflow::ProbingBridge {
                                    options: o2,
                                    project: p2,
                                    package_index,
                                }
                                &&& o2 == options
                                &&& p2 == project
                                &&& package_index == i
                            } else {
                                match spec_plan(
                                    options@,
                                    pv[i],
                                    project.workspace_root@,
                                    project.target_directory@,
                                ) {
                                    Err(f) => r matches Err(e) && spec_plan_fault_matches(f, e),
                                    Ok(p) => {
                                        &&& r matches Ok((w, a))
                                        &&& a is ProbeCompiler
                                        &&& w matches Workflow::ProbingCompiler { plan, device }
                                        &&& plan@ == p
                                        &&& device is None
                                    },
                                }
                            }
                        },
                    }
                }
            }),
    {
        let (options, install) = match self {
            Workflow::FetchingMetadata { options, install } => (options, install),
            _ => {
                return Err(BuildError::NoPackage);
            },
        };
        let package_index = get_package(&project, options.package.as_ref())?;
        proof {
            match options@.package {
                Some(n) => crate::project::lemma_find_package_bounds(
                    project.packages.deep_view(),
                    n,
                ),
                None => {},
            }
        }
        if install {
            Ok((
                Workflow::ProbingBridge { options, project, package_index },
                Action::ProbeBridge,
            ))
        } else {
            let plan = plan_build(&options, &project, package_index)?;
            Ok((
                Workflow::ProbingCompiler { plan, device: None },
                Action::ProbeCompiler,
            ))
        }
    }

    /// Consumes the bridge probe: a missing bridge is the distinct
    /// not-installed failure; otherwise the devices are enumerated.
    pub fn on_bridge_probe(self, available: bool) -> (r: Result<(Workflow, Action), BuildError>)
        requires
            self is ProbingBridge,
            self.wf(),
        ensures
            ({
                self matches Workflow::ProbingBridge { options, project, package_index } ==> {
                    if available {
                        &&& r matches Ok((w, a))
                        &&& a is ListDevices
                        &&& w.wf()
                        &&& w matches Workflow::ListingDevices {
                            options: o2,
                            project: p2,
                            package_index: i2,
                        }
                        &&& o2 == options
                        &&& p2 == project
                        &&& i2 == package_index
                    } else {
                        r matches Err(e) && e is BridgeNotInstalled
                    }
                }
            }),
    {
        let (options, project, package_index) = match self {
            Workflow::ProbingBridge { options, project, package_index } => (
                options,
                project,
                package_index,
            ),
            _ => {
                return Err(BuildError::NoPackage);
            },
        };
        ensure_adb_installed(available)?;
        Ok((
            Workflow::ListingDevices { options, project, package_index },
            Action::ListDevices,
        ))
    }

    /// Consumes the device enumeration: exactly one attached device is
    /// selected, the target is inferred from it when none was given, the
    /// build is planned, and the flow turns to the compiler.
    pub fn on_devices(self, devices: Vec<Device>) -> (r: Result<(Workflow, Action), BuildError>)
        requires
            self is ListingDevices,
            self.wf(),
        ensures
            ({
                let dv = devices.deep_view();
                self matches Workflow::ListingDevices { options, project, package_index } ==> {
                    if dv.len() != 1 {
                        &&& r matches Err(e)
                        &&& dv.len() == 0 ==> e is NoDevice
                        &&& dv.len() > 1 ==> (e matches BuildError::MultipleDevices(c) && c
                            == dv.len())
                    } else {
                        let chosen = devices@[0];
                        let effective = OptionsV {
                            target: match options@.target {
                                Some(t) => Some(t),
                                None => Some(spec_triple(chosen.arch)),
                            },
                            ..options@
                        };
                        match spec_plan(
                            effective,
                            project.packages.deep_view()[package_index as int],
                            project.workspace_root@,
                            project.target_directory@,
                        ) {
                            Err(f) => r matches Err(e) && spec_plan_fault_matches(f, e),
                            Ok(p) => {
                                &&& r matches Ok((w, a))
                                &&& a is ProbeCompiler
                                &&& w matches Workflow::ProbingCompiler { plan, device }
                                &&& plan@ == p
                                &&& device == Some(chosen)
                            },
                        }
                    }
                }
            }),
    {
        let (options, project, package_index) = match self {
            Workflow::ListingDevices { options, project, package_index } => (
                options,
                project,
                package_index,
            ),
            _ => {
                return Err(BuildError::NoPackage);
            },
        };
        let mut options = options;
        let device = select_single_device(devices)?;
        if options.target.is_none() {
            options.target = Some(String::from_str(device.target_triple()));
        }
        let plan = plan_build(&options, &project, package_index)?;
        Ok((
            Workflow::ProbingCompiler { plan, device: Some(device) },
            Action::ProbeCompiler,
        ))
    }

    /// Consumes the compiler probe: a compiler that is still missing
    /// after any consented install attempt is the distinct not-installed
    /// failure; otherwise the compiler is spawned and its output scanned.
    pub fn on_compiler_probe(self, available: bool) -> (r: Result<(Workflow, Action), BuildError>)
        requires
            self is ProbingCompiler,
        ensures
            ({
                self matches Workflow::ProbingCompiler { plan, device } ==> {
                    if available {
                        &&& r matches Ok((w, a))
                        &&& w matches Workflow::Compiling { plan: p2, device: d2, scan }
                        &&& p2 == plan
                        &&& d2 == device
                        &&& scan.package_id@ == plan@.package_id
                        &&& scan.candidate is None
                        &&& a matches Action::RunCompiler { args }
                        &&& args.deep_view() == plan@.compiler_args
                    } else {
                        r matches Err(e) && e is CompilerNotInstalled
                    }
                }
            }),
    {
        let (plan, device) = match self {
            Workflow::ProbingCompiler { plan, device } => (plan, device),
            _ => {
                return Err(BuildError::NoPackage);
            },
        };
        if !available {
            return Err(BuildError::CompilerNotInstalled);
        }
        let scan = ArtifactScan::new(plan.package_id.clone());
        let args = plan.compiler_args.clone();
        proof {
            assert(args.deep_view() =~~= plan@.compiler_args);
        }
        Ok((
            Workflow::Compiling { plan, device, scan },
            Action::RunCompiler { args },
        ))
    }

    /// Consumes one line of the compiler's output as it arrives: the
    /// scan captures artifact messages for the planned package (the last
    /// one wins) and hands diagnostics and plain text back for immediate
    /// echo.
    pub fn consume_compiler_line(self, line: &String) -> (r: (Workflow, Option<String>))
        requires
            self is Compiling,
        ensures
            ({
                self matches Workflow::Compiling { plan, device, scan } ==> {
                    let msg = spec_message_of(line@);
                    &&& r.0 matches Workflow::Compiling { plan: p2, device: d2, scan: s2 }
                        && p2 == plan && d2 == device && s2.package_id == scan.package_id
                        && spec_candidate(s2.candidate) == spec_scan_step(
                        spec_candidate(scan.candidate),
                        scan.package_id@,
                        msg,
                    )
                    &&& spec_opt_str(r.1) == spec_scan_echo(msg)
                }
            }),
    {
        match self {
            Workflow::Compiling { plan, device, mut scan } => {
                let echo = scan.consume_line(line);
                (Workflow::Compiling { plan, device, scan }, echo)
            },
            w => (w, None),
        }
    }

    /// Consumes the end of the compiler stream: no captured artifact is
    /// the distinct not-generated failure; a captured artifact must name
    /// a shared-library output on an absolute path, which is re-rooted
    /// under the workspace, and the flow turns to the resource cache.
    pub fn on_compiled(self) -> (r: Result<(Workflow, Action), BuildError>)
        requires
            self is Compiling,
        ensures
            ({
                self matches Workflow::Compiling { plan, device, scan } ==> {
                    match spec_candidate(scan.candidate) {
                        None => r matches Err(e) && e is ArtifactNotGenerated,
                        Some(art) => match spec_first_cdylib(art.crate_types) {
                            None => r matches Err(e) && e is NoSharedLibrary,
                            Some(ci) => if ci >= art.filenames.len() {
                                r matches Err(e) && e is NoSharedLibrary
                            } else {
                                let cd = art.filenames[ci];
                                if cd.len() == 0 || cd[0] != '/' {
                                    &&& r matches Err(e)
                                    &&& e matches BuildError::LibraryPathNotAbsolute(v)
                                    &&& v@ == cd
                                } else {
                                    let lib = plan@.workspace_root + cd;
                                    let pkg_path = spec_parent(lib) + "/"@ + plan@.package_name
                                        + ".apk"@;
                                    let sdk = spec_sdk_path(plan@.target_directory, SDK_VERSION);
                                    let dex = spec_dex_path(plan@.target_directory, SDK_VERSION);
                                    &&& r matches Ok((w, a))
                                    &&& w matches Workflow::CheckingSdk {
                                        plan: p2,
                                        device: d2,
                                        lib_path,
                                        package_path,
                                        sdk_path,
                                        dex_path,
                                    }
                                    &&& p2 == plan
                                    &&& d2 == device
                                    &&& lib_path@ == lib
                                    &&& package_path@ == pkg_path
                                    &&& sdk_path@ == sdk
                                    &&& dex_path@ == dex
                                    &&& a matches Action::CheckSdkCache { path }
                                    &&& path@ == sdk
                                }
                            },
                        },
                    }
                }
            }),
    {
        let (plan, device, scan) = match self {
            Workflow::Compiling { plan, device, scan } => (plan, device, scan),
            _ => {
                return Err(BuildError::NoPackage);
            },
        };
        let art = scan.finish()?;
        let cdylib = crate::artifact::shared_library_path(&art)?;
        let cd_chars = chars_of(cdylib.as_str());
        if cd_chars.len() == 0 {
            return Err(BuildError::LibraryPathNotAbsolute(cdylib));
        }
        if !(cd_chars[0] == '/') {
            return Err(BuildError::LibraryPathNotAbsolute(cdylib));
        }
        let mut lib_chars = chars_of(plan.workspace_root.as_str());
        let mut rest = cd_chars.clone();
        lib_chars.append(&mut rest);
        let lib_path = string_of(&lib_chars);
        proof {
            assert(lib_chars@[plan.workspace_root@.len() as int] == '/');
        }
        let parent = parent_dir(&lib_chars);
        let mut pkg_chars = parent;
        let mut sep = chars_of("/");
        pkg_chars.append(&mut sep);
        let mut name_chars = chars_of(plan.package_name.as_str());
        pkg_chars.append(&mut name_chars);
        let mut ext = chars_of(".apk");
        pkg_chars.append(&mut ext);
        let package_path = string_of(&pkg_chars);
        let sdk_path = sdk_cache_path(&plan.target_directory, SDK_VERSION);
        let dex = dex_path(&plan.target_directory, SDK_VERSION);
        let action_path = sdk_path.clone();
        Ok((
            Workflow::CheckingSdk {
                plan,
                device,
                lib_path,
                package_path,
                sdk_path,
                dex_path: dex,
            },
            Action::CheckSdkCache { path: action_path },
        ))
    }

    /// Consumes the cache check: a cached resource goes straight to
    /// assembly; a cold cache fetches only when the run is online, and
    /// an offline run fails with the distinct offline error before any
    /// assembly is asked for.
    pub fn on_sdk_cache(self, cached: bool) -> (r: Result<(Workflow, Action), BuildError>)
        requires
            self is CheckingSdk,
        ensures
            ({
                self matches Workflow::CheckingSdk {
                    plan,
                    device,
                    lib_path,
                    package_path,
                    sdk_path,
                    dex_path,
                } ==> {
                    match spec_sdk_step(cached, plan@.offline) {
                        Err(e2) => r matches Err(e) && e == e2 && e is SdkOfflineMissing,
                        Ok(SdkDecision::UseCached) => {
                            &&& r matches Ok((w, a))
                            &&& w matches Workflow::Packaging { device: d2, package_path: pp2 }
                            &&& d2 == device
                            &&& pp2 == package_path
                            &&& a matches Action::AssemblePackage { plan: ap }
                            &&& ap@ == spec_package_plan(
                                plan@,
                                lib_path@,
                                package_path@,
                                sdk_path@,
                                dex_path@,
                            )
                        },
                        Ok(SdkDecision::Fetch) => {
                            &&& r matches Ok((w, a))
                            &&& w matches Workflow::FetchingSdk {
                                plan: p2,
                                device: d2,
                                lib_path: l2,
                                package_path: pp2,
                                sdk_path: s2,
                                dex_path: x2,
                            }
                            &&& p2 == plan
                            &&& d2 == device
                            &&& l2 == lib_path
                            &&& pp2 == package_path
                            &&& s2 == sdk_path
                            &&& x2 == dex_path
                            &&& a matches Action::FetchSdk { directory, package, filter }
                            &&& directory@ == spec_sdk_dir(plan@.target_directory)
                            &&& package@ == spec_sdk_package(SDK_VERSION)
                            &&& filter@ == "android.jar"@
                        },
                    }
                }
            }),
    {
        let (plan, device, lib_path, package_path, sdk_path, dex) = match self {
            Workflow::CheckingSdk { plan, device, lib_path, package_path, sdk_path, dex_path } => (
                plan,
                device,
                lib_path,
                package_path,
                sdk_path,
                dex_path,
            ),
            _ => {
                return Err(BuildError::NoPackage);
            },
        };
        match sdk_step(cached, plan.offline)? {
            SdkDecision::UseCached => {
                let assembly = Self::make_package_plan(
                    plan,
                    lib_path,
                    package_path.clone(),
                    sdk_path,
                    dex,
                );
                Ok((
                    Workflow::Packaging { device, package_path },
                    Action::AssemblePackage { plan: assembly },
                ))
            },
            SdkDecision::Fetch => {
                let directory = sdk_dir(&plan.target_directory);
                let package = sdk_package(SDK_VERSION);
                Ok((
                    Workflow::FetchingSdk {
                        plan,
                        device,
                        lib_path,
                        package_path,
                        sdk_path,
                        dex_path: dex,
                    },
                    Action::FetchSdk {
                        directory,
                        package,
                        filter: String::from_str("android.jar"),
                    },
                ))
            },
        }
    }

    /// Consumes a completed resource fetch: the flow turns to assembly.
    pub fn on_sdk_fetched(self) -> (r: Result<(Workflow, Action), BuildError>)
        requires
            self is FetchingSdk,
        ensures
            ({
                self matches Workflow::FetchingSdk {
                    plan,
                    device,
                    lib_path,
                    package_path,
                    sdk_path,
                    dex_path,
                } ==> {
                    &&& r matches Ok((w, a))
                    &&& w matches Workflow::Packaging { device: d2, package_path: pp2 }
                    &&& d2 == device
                    &&& pp2 == package_path
                    &&& a matches Action::AssemblePackage { plan: ap }
                    &&& ap@ == spec_package_plan(
                        plan@,
                        lib_path@,
                        package_path@,
                        sdk_path@,
                        dex_path@,
                    )
                }
            }),
    {
        let (plan, device, lib_path, package_path, sdk_path, dex) = match self {
            Workflow::FetchingSdk { plan, device, lib_path, package_path, sdk_path, dex_path } => (
                plan,
                device,
                lib_path,
                package_path,
                sdk_path,
                dex_path,
            ),
            _ => {
                return Err(BuildError::NoPackage);
            },
        };
        let assembly = Self::make_package_plan(plan, lib_path, package_path.clone(), sdk_path, dex);
        Ok((
            Workflow::Packaging { device, package_path },
            Action::AssemblePackage { plan: assembly },
        ))
    }

    /// Lays out the assembly work from the finished build.
    fn make_package_plan(
        plan: BuildPlan,
        lib_path: String,
        package_path: String,
        sdk_path: String,
        dex_path: String,
    ) -> (r: PackagePlan)
        ensures
            r@ == spec_package_plan(plan@, lib_path@, package_path@, sdk_path@, dex_path@),
    {
        PackagePlan {
            manifest: plan.manifest,
            package_path,
            dex_path,
            lib_path,
            icon_path: plan.icon_path,
            sdk_path,
            arch: plan.arch,
            pem_path: plan.pem_path,
            debuggable: true,
        }
    }

    /// Consumes the assembly outcome: a failed container-writer step
    /// aborts with its message; a built package is installed (install
    /// flow) or is the finished result (build flow).
    pub fn on_packaged(self, outcome: Result<(), String>) -> (r: Result<
        (Workflow, Action),
        BuildError,
    >)
        requires
            self is Packaging,
        ensures
            ({
                self matches Workflow::Packaging { device, package_path } ==> {
                    match outcome {
                        Err(m) => r matches Err(e) && e matches BuildError::PackagingFailed(v)
                            && v@ == m@,
                        Ok(_) => match device {
                            Some(d) => {
                                &&& r matches Ok((w, a))
                                &&& w matches Workflow::Installing { package_path: pp2 }
                                &&& pp2 == package_path
                                &&& a matches Action::InstallPackage {
                                    device_id,
                                    package_path: pp3,
                                }
                                &&& device_id@ == d.id@
                                &&& pp3 == package_path
                            },
                            None => {
                                &&& r matches Ok((w, a))
                                &&& w matches Workflow::Done { package_path: pp2 }
                                &&& pp2 == package_path
                                &&& a matches Action::Finish { package_path: pp3 }
                                &&& pp3 == package_path
                            },
                        },
                    }
                }
            }),
    {
        let (device, package_path) = match self {
            Workflow::Packaging { device, package_path } => (device, package_path),
            _ => {
                return Err(BuildError::NoPackage);
            },
        };
        match outcome {
            Err(m) => Err(BuildError::PackagingFailed(m)),
            Ok(_) => match device {
                Some(d) => Ok((
                    Workflow::Installing { package_path: package_path.clone() },
                    Action::InstallPackage { device_id: d.id, package_path },
                )),
                None => Ok((
                    Workflow::Done { package_path: package_path.clone() },
                    Action::Finish { package_path },
                )),
            },
        }
    }

    /// Consumes the bridge's install outcome: a failing exit status is
    /// the distinct install failure; success finishes the workflow.
    pub fn on_installed(self, success: bool) -> (r: Result<(Workflow, Action), BuildError>)
        requires
            self is Installing,
        ensures
            ({
                self matches Workflow::Installing { package_path } ==> {
                    if success {
                        &&& r matches Ok((w, a))
                        &&& w matches Workflow::Done { package_path: pp2 }
                        &&& pp2 == package_path
                        &&& a matches Action::Finish { package_path: pp3 }
                        &&& pp3 == package_path
                    } else {
                        r matches Err(e) && e is InstallFailed
                    }
                }
            }),
    {
        let package_path = match self {
            Workflow::Installing { package_path } => package_path,
            _ => {
                return Err(BuildError::NoPackage);
            },
        };
        if success {
            Ok((
                Workflow::Done { package_path: package_path.clone() },
                Action::Finish { package_path },
            ))
        } else {
            Err(BuildError::InstallFailed)
        }
    }
}

} // verus!
