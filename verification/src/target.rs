use vstd::prelude::*;
use vstd::string::StringExecFns;

use crate::error::BuildError;

verus! {

/// The four instruction-set architectures the mobile platform supports.
///
/// Each value corresponds to exactly one compilation triple and exactly one
/// device-reported ABI string; both mappings are bijective over this set.
#[derive(Clone, Copy, PartialEq, Eq, Structural, Debug)]
pub enum Target {
    Arm64V8a,
    ArmV7a,
    X86,
    X86_64,
}

/// The compilation triple that names `t` to the cross-compiler.
pub open spec fn spec_triple(t: Target) -> Seq<char> {
    match t {
        Target::Arm64V8a => "aarch64-linux-android"@,
        Target::ArmV7a => "armv7-linux-androideabi"@,
        Target::X86 => "i686-linux-android"@,
        Target::X86_64 => "x86_64-linux-android"@,
    }
}

/// The ABI string under which a device reports `t`.
pub open spec fn spec_abi(t: Target) -> Seq<char> {
    match t {
        Target::Arm64V8a => "arm64-v8a"@,
        Target::ArmV7a => "armeabi-v7a"@,
        Target::X86 => "x86"@,
        Target::X86_64 => "x86_64"@,
    }
}

/// The architecture named by the compilation triple `s`, if `s` is one of
/// the four supported triples.
pub open spec fn spec_target_of_triple(s: Seq<char>) -> Option<Target> {
    if s == spec_triple(Target::Arm64V8a) {
        Some(Target::Arm64V8a)
    } else if s == spec_triple(Target::ArmV7a) {
        Some(Target::ArmV7a)
    } else if s == spec_triple(Target::X86) {
        Some(Target::X86)
    } else if s == spec_triple(Target::X86_64) {
        Some(Target::X86_64)
    } else {
        None
    }
}

/// The architecture named by the ABI string `s`, if `s` is one of the four
/// supported ABI strings.
pub open spec fn spec_target_of_abi(s: Seq<char>) -> Option<Target> {
    if s == spec_abi(Target::Arm64V8a) {
        Some(Target::Arm64V8a)
    } else if s == spec_abi(Target::ArmV7a) {
        Some(Target::ArmV7a)
    } else if s == spec_abi(Target::X86) {
        Some(Target::X86)
    } else if s == spec_abi(Target::X86_64) {
        Some(Target::X86_64)
    } else {
        None
    }
}

impl Target {
    /// The compilation triple for this architecture.
    pub fn triple(self) -> (r: &'static str)
        ensures
            r@ == spec_triple(self),
    {
        match self {
            Target::Arm64V8a => "aarch64-linux-android",
            Target::ArmV7a => "armv7-linux-androideabi",
            Target::X86 => "i686-linux-android",
            Target::X86_64 => "x86_64-linux-android",
        }
    }

    /// The ABI string for this architecture.
    pub fn abi(self) -> (r: &'static str)
        ensures
            r@ == spec_abi(self),
    {
        match self {
            Target::Arm64V8a => "arm64-v8a",
            Target::ArmV7a => "armeabi-v7a",
            Target::X86 => "x86",
            Target::X86_64 => "x86_64",
        }
    }

    /// Maps a compilation triple to its architecture; an unrecognized
    /// triple is a configuration error, never a silent default.
    pub fn from_triple(s: &String) -> (r: Result<Target, BuildError>)
        ensures
            match r {
                Ok(t) => spec_target_of_triple(s@) == Some(t),
                Err(e) => e matches BuildError::UnsupportedTarget(v) && v@ == s@
                    && spec_target_of_triple(s@) is None,
            },
    {
        if *s == String::from_str("aarch64-linux-android") {
            Ok(Target::Arm64V8a)
        } else if *s == String::from_str("armv7-linux-androideabi") {
            Ok(Target::ArmV7a)
        } else if *s == String::from_str("i686-linux-android") {
            Ok(Target::X86)
        } else if *s == String::from_str("x86_64-linux-android") {
            Ok(Target::X86_64)
        } else {
            Err(BuildError::UnsupportedTarget(s.clone()))
        }
    }

    /// Maps a device-reported ABI string to its architecture; an
    /// unrecognized ABI is a hard failure, never a silent default.
    pub fn from_abi(s: &String) -> (r: Result<Target, BuildError>)
        ensures
            match r {
                Ok(t) => spec_target_of_abi(s@) == Some(t),
                Err(e) => e matches BuildError::UnknownAbi(v) && v@ == s@
                    && spec_target_of_abi(s@) is None,
            },
    {
        if *s == String::from_str("arm64-v8a") {
            Ok(Target::Arm64V8a)
        } else if *s == String::from_str("armeabi-v7a") {
            Ok(Target::ArmV7a)
        } else if *s == String::from_str("x86") {
            Ok(Target::X86)
        } else if *s == String::from_str("x86_64") {
            Ok(Target::X86_64)
        } else {
            Err(BuildError::UnknownAbi(s.clone()))
        }
    }
}

/// The four triples are pairwise distinct and the four ABI strings are
/// pairwise distinct, so both mappings are injective.
proof fn lemma_names_distinct(a: Target, b: Target)
    ensures
        a != b ==> spec_triple(a) != spec_triple(b),
        a != b ==> spec_abi(a) != spec_abi(b),
{
    broadcast use vstd::string::group_string_axioms;

    reveal_strlit("aarch64-linux-android");
    reveal_strlit("armv7-linux-androideabi");
    reveal_strlit("i686-linux-android");
    reveal_strlit("x86_64-linux-android");
    reveal_strlit("arm64-v8a");
    reveal_strlit("armeabi-v7a");
    reveal_strlit("x86");
    reveal_strlit("x86_64");
    // The eight names have pairwise distinct lengths within each family,
    // which settles every disequality once the lengths are in view.
    assert("aarch64-linux-android"@.len() == 21);
    assert("armv7-linux-androideabi"@.len() == 23);
    assert("i686-linux-android"@.len() == 18);
    assert("x86_64-linux-android"@.len() == 20);
    assert("arm64-v8a"@.len() == 9);
    assert("armeabi-v7a"@.len() == 11);
    assert("x86"@.len() == 3);
    assert("x86_64"@.len() == 6);
}

/// Round trip through the triple mapping: every supported architecture is
/// recovered from its own triple, and every recognized triple string is
/// reproduced by the architecture it names.
pub proof fn lemma_triple_round_trip(t: Target, s: Seq<char>)
    ensures
        spec_target_of_triple(spec_triple(t)) == Some(t),
        spec_target_of_triple(s) == Some(t) ==> spec_triple(t) == s,
{
    lemma_names_distinct(t, Target::Arm64V8a);
    lemma_names_distinct(t, Target::ArmV7a);
    lemma_names_distinct(t, Target::X86);
    lemma_names_distinct(t, Target::X86_64);
}

/// Round trip through the ABI mapping: every supported architecture is
/// recovered from its own ABI string, and every recognized ABI string is
/// reproduced by the architecture it names.
pub proof fn lemma_abi_round_trip(t: Target, s: Seq<char>)
    ensures
        spec_target_of_abi(spec_abi(t)) == Some(t),
        spec_target_of_abi(s) == Some(t) ==> spec_abi(t) == s,
{
    lemma_names_distinct(t, Target::Arm64V8a);
    lemma_names_distinct(t, Target::ArmV7a);
    lemma_names_distinct(t, Target::X86);
    lemma_names_distinct(t, Target::X86_64);
}

} // verus!
