use vstd::prelude::*;

use crate::error::BuildError;
use crate::text::{chars_of, decimal_chars, spec_decimal, string_of};

verus! {

// The packaging step needs one versioned platform resource file.  Its
// location is deterministic under the build output directory, so presence
// is a pure existence check; fetching happens at most on the first build
// and never when the run is offline.

/// The platform version of the resource archive the packaging step needs.
pub const SDK_VERSION: u32 = 34;

/// The directory the resource archive is cached under.
pub open spec fn spec_sdk_dir(target_directory: Seq<char>) -> Seq<char> {
    target_directory + "/apk"@
}

/// The deterministic cache path of the platform resource file, keyed by
/// the output directory and the platform version.
pub open spec fn spec_sdk_path(target_directory: Seq<char>, version: u32) -> Seq<char> {
    target_directory + "/apk/platforms/android-"@ + spec_decimal(version as nat) + "/android.jar"@
}

/// The path the auxiliary binary payload is staged at, beside the cached
/// resource file.
pub open spec fn spec_dex_path(target_directory: Seq<char>, version: u32) -> Seq<char> {
    target_directory + "/apk/platforms/android-"@ + spec_decimal(version as nat) + "/classes.dex"@
}

/// The versioned package name under which the platform resources are
/// published.
pub open spec fn spec_sdk_package(version: u32) -> Seq<char> {
    "platforms;android-"@ + spec_decimal(version as nat)
}

/// The directory the resource archive is cached under.
pub fn sdk_dir(target_directory: &String) -> (r: String)
    ensures
        r@ == spec_sdk_dir(target_directory@),
{
    let mut v = chars_of(target_directory.as_str());
    let mut tail = chars_of("/apk");
    v.append(&mut tail);
    string_of(&v)
}

/// The deterministic cache path of the platform resource file.
pub fn sdk_cache_path(target_directory: &String, version: u32) -> (r: String)
    ensures
        r@ == spec_sdk_path(target_directory@, version),
{
    let mut v = chars_of(target_directory.as_str());
    let mut mid = chars_of("/apk/platforms/android-");
    v.append(&mut mid);
    let mut num = decimal_chars(version);
    v.append(&mut num);
    let mut tail = chars_of("/android.jar");
    v.append(&mut tail);
    string_of(&v)
}

/// The staging path for the auxiliary binary payload.
pub fn dex_path(target_directory: &String, version: u32) -> (r: String)
    ensures
        r@ == spec_dex_path(target_directory@, version),
{
    let mut v = chars_of(target_directory.as_str());
    let mut mid = chars_of("/apk/platforms/android-");
    v.append(&mut mid);
    let mut num = decimal_chars(version);
    v.append(&mut num);
    let mut tail = chars_of("/classes.dex");
    v.append(&mut tail);
    string_of(&v)
}

/// The versioned package name of the platform resources.
pub fn sdk_package(version: u32) -> (r: String)
    ensures
        r@ == spec_sdk_package(version),
{
    let mut v = chars_of("platforms;android-");
    let mut num = decimal_chars(version);
    v.append(&mut num);
    string_of(&v)
}

/// What to do about the platform resource.
#[derive(Debug)]
pub enum SdkDecision {
    /// The resource file is already cached; use it and fetch nothing.
    UseCached,
    /// The resource is absent and the run is online; fetch it.
    Fetch,
}

/// The resource decision: cached wins unconditionally, fetching is only
/// for online runs, and an offline run with a cold cache is the distinct
/// offline failure.
pub open spec fn spec_sdk_step(cached: bool, offline: bool) -> Result<SdkDecision, BuildError> {
    if cached {
        Ok(SdkDecision::UseCached)
    } else if offline {
        Err(BuildError::SdkOfflineMissing)
    } else {
        Ok(SdkDecision::Fetch)
    }
}

/// Decides what to do about the platform resource, given whether its
/// cache file exists and whether the run is offline.
pub fn sdk_step(cached: bool, offline: bool) -> (r: Result<SdkDecision, BuildError>)
    ensures
        r == spec_sdk_step(cached, offline),
{
    if cached {
        Ok(SdkDecision::UseCached)
    } else if offline {
        Err(BuildError::SdkOfflineMissing)
    } else {
        Ok(SdkDecision::Fetch)
    }
}

/// Resolution is cache-idempotent: once the resource file exists, every
/// later resolution is a pure existence check and never fetches, whatever
/// the offline flag says.
pub proof fn lemma_sdk_cache_idempotent()
    ensures
        forall|offline: bool| spec_sdk_step(true, offline) == Ok::<SdkDecision, BuildError>(
            SdkDecision::UseCached,
        ),
{
}

/// Offline mode never triggers retrieval: whatever the cache holds, an
/// offline run either uses the cached file or fails with the distinct
/// offline error; it never decides to fetch.
pub proof fn lemma_offline_never_fetches()
    ensures
        forall|cached: bool| spec_sdk_step(cached, true) != Ok::<SdkDecision, BuildError>(
            SdkDecision::Fetch,
        ),
        spec_sdk_step(false, true) == Err::<SdkDecision, BuildError>(BuildError::SdkOfflineMissing),
{
}

} // verus!
