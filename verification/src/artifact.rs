use vstd::prelude::*;
use vstd::string::StringExecFns;

use crate::error::BuildError;

verus! {

// The cross-compiler is spawned with a structured-output mode and emits
// one message per line.  The scan below consumes those messages as they
// arrive: artifact messages for the requested package are captured (the
// last one wins), diagnostics are handed back for immediate echo, and
// everything else is ignored.  Only line parsing itself is trusted; every
// decision about a parsed message is verified.

/// A compiler-reported artifact, reduced to what the pipeline reads: the
/// package identity, the declared output kinds, and the produced paths.
#[derive(Debug)]
pub struct RawArtifact {
    pub package_id: String,
    pub crate_types: Vec<String>,
    pub filenames: Vec<String>,
}

/// Specification-level form of `RawArtifact`.
#[verifier::ext_equal]
pub struct RawArtifactV {
    pub package_id: Seq<char>,
    pub crate_types: Seq<Seq<char>>,
    pub filenames: Seq<Seq<char>>,
}

impl View for RawArtifact {
    type V = RawArtifactV;

    open spec fn view(&self) -> RawArtifactV {
        RawArtifactV {
            package_id: self.package_id@,
            crate_types: self.crate_types.deep_view(),
            filenames: self.filenames.deep_view(),
        }
    }
}

/// One message of the compiler's output stream, classified.
#[derive(Debug)]
pub enum BuildMessage {
    /// A compiler-artifact message.
    Artifact(RawArtifact),
    /// A compiler diagnostic, rendered for display.
    Diagnostic(String),
    /// A line that is not a structured message.
    Text(String),
    /// Any other message kind.
    Other,
}

/// Specification-level form of `BuildMessage`.
#[verifier::ext_equal]
pub enum BuildMessageV {
    Artifact(RawArtifactV),
    Diagnostic(Seq<char>),
    Text(Seq<char>),
    Other,
}

impl View for BuildMessage {
    type V = BuildMessageV;

    open spec fn view(&self) -> BuildMessageV {
        match self {
            BuildMessage::Artifact(a) => BuildMessageV::Artifact(a@),
            BuildMessage::Diagnostic(d) => BuildMessageV::Diagnostic(d@),
            BuildMessage::Text(t) => BuildMessageV::Text(t@),
            BuildMessage::Other => BuildMessageV::Other,
        }
    }
}

/// The message that one line of the compiler's structured output encodes.
pub uninterp spec fn spec_message_of(line: Seq<char>) -> BuildMessageV;

/// Relies on `cargo_metadata::Message`'s serde schema, driven through
/// `serde_json::from_str`, and on the `Display` forms of diagnostics and
/// output kinds: a line parses to the message it encodes, a function of
/// the line alone, and a line that is no structured message stays text,
/// as the stream parser of that crate treats it.
#[verifier::external_body]
fn parse_message_line(line: &String) -> (r: BuildMessage)
    ensures
        r@ == spec_message_of(line@),
{
    match serde_json::from_str::<cargo_metadata::Message>(line) {
        Ok(cargo_metadata::Message::CompilerArtifact(a)) => BuildMessage::Artifact(RawArtifact {
            package_id: a.package_id.repr,
            crate_types: a.target.crate_types.iter().map(|c| c.to_string()).collect(),
            filenames: a.filenames.into_iter().map(|f| f.into_string()).collect(),
        }),
        Ok(cargo_metadata::Message::CompilerMessage(m)) => BuildMessage::Diagnostic(
            m.message.to_string(),
        ),
        Ok(cargo_metadata::Message::TextLine(t)) => BuildMessage::Text(t),
        Ok(_) => BuildMessage::Other,
        Err(_) => BuildMessage::Text(line.clone()),
    }
}

/// The candidate after one message: an artifact message for the watched
/// package replaces the candidate (the last one wins); everything else
/// leaves it unchanged.
pub open spec fn spec_scan_step(
    candidate: Option<RawArtifactV>,
    package_id: Seq<char>,
    msg: BuildMessageV,
) -> Option<RawArtifactV> {
    match msg {
        BuildMessageV::Artifact(a) => if a.package_id == package_id {
            Some(a)
        } else {
            candidate
        },
        _ => candidate,
    }
}

/// What one message asks to have echoed: diagnostics and plain text, as
/// they arrive; nothing else.
pub open spec fn spec_scan_echo(msg: BuildMessageV) -> Option<Seq<char>> {
    match msg {
        BuildMessageV::Diagnostic(d) => Some(d),
        BuildMessageV::Text(t) => Some(t),
        _ => None,
    }
}

/// The view of an optional artifact.
pub open spec fn spec_candidate(c: Option<RawArtifact>) -> Option<RawArtifactV> {
    match c {
        Some(a) => Some(a@),
        None => None,
    }
}

/// The view of an optional string.
pub open spec fn spec_opt_str(s: Option<String>) -> Option<Seq<char>> {
    match s {
        Some(v) => Some(v@),
        None => None,
    }
}

/// The streaming consumer of the compiler's output: watches for artifact
/// messages of one package while handing diagnostics back for echo.
#[derive(Debug)]
pub struct ArtifactScan {
    /// The identity of the package whose artifact is wanted.
    pub package_id: String,
    /// The artifact captured so far, the last matching message winning.
    pub candidate: Option<RawArtifact>,
}

impl ArtifactScan {
    /// A scan for the package with identity `package_id`, with nothing
    /// captured yet.
    pub fn new(package_id: String) -> (r: ArtifactScan)
        ensures
            r.package_id == package_id,
            r.candidate is None,
    {
        ArtifactScan { package_id, candidate: None }
    }

    /// Consumes one classified message, returning what should be echoed.
    pub fn step(&mut self, msg: BuildMessage) -> (echo: Option<String>)
        ensures
            final(self).package_id == old(self).package_id,
            spec_candidate(final(self).candidate) == spec_scan_step(
                spec_candidate(old(self).candidate),
                old(self).package_id@,
                msg@,
            ),
            spec_opt_str(echo) == spec_scan_echo(msg@),
    {
        match msg {
            BuildMessage::Artifact(a) => {
                if a.package_id == self.package_id {
                    self.candidate = Some(a);
                }
                None
            },
            BuildMessage::Diagnostic(d) => Some(d),
            BuildMessage::Text(t) => Some(t),
            BuildMessage::Other => None,
        }
    }

    /// Consumes one raw line of the compiler's output, returning what
    /// should be echoed.
    pub fn consume_line(&mut self, line: &String) -> (echo: Option<String>)
        ensures
            final(self).package_id == old(self).package_id,
            spec_candidate(final(self).candidate) == spec_scan_step(
                spec_candidate(old(self).candidate),
                old(self).package_id@,
                spec_message_of(line@),
            ),
            spec_opt_str(echo) == spec_scan_echo(spec_message_of(line@)),
    {
        let msg = parse_message_line(line);
        self.step(msg)
    }

    /// Ends the stream: the captured artifact, or the distinct failure
    /// that no artifact message for the package ever arrived.
    pub fn finish(self) -> (r: Result<RawArtifact, BuildError>)
        ensures
            match self.candidate {
                Some(a) => r matches Ok(v) && v == a,
                None => r matches Err(e) && e is ArtifactNotGenerated,
            },
    {
        match self.candidate {
            Some(a) => Ok(a),
            None => Err(BuildError::ArtifactNotGenerated),
        }
    }
}

/// The position of the first shared-library output kind in a declared
/// kind list, if any.
pub open spec fn spec_first_cdylib(ct: Seq<Seq<char>>) -> Option<int>
    decreases ct.len(),
{
    if ct.len() == 0 {
        None
    } else if ct[0] == "cdylib"@ {
        Some(0)
    } else {
        match spec_first_cdylib(ct.drop_first()) {
            Some(i) => Some(i + 1),
            None => None,
        }
    }
}

/// A scan that saw no shared-library kind before `i` pins down
/// `spec_first_cdylib`: found at `i`, or absent when `i` is the end.
proof fn lemma_first_cdylib(ct: Seq<Seq<char>>, i: int)
    requires
        0 <= i <= ct.len(),
        forall|j: int| 0 <= j < i ==> ct[j] != "cdylib"@,
    ensures
        i < ct.len() && ct[i] == "cdylib"@ ==> spec_first_cdylib(ct) == Some(i),
        i == ct.len() ==> spec_first_cdylib(ct) is None,
    decreases i,
{
    if i > 0 {
        assert(ct.drop_first() =~= ct.skip(1));
        lemma_first_cdylib(ct.skip(1), i - 1);
    } else {
        if i < ct.len() && ct[i] == "cdylib"@ {
        }
    }
}

/// The path of the artifact's shared-library output: the file at the
/// position of the first `cdylib` kind.  An artifact that declares no
/// such kind, or declares it without a corresponding file, has produced
/// no usable shared library, which is distinct from having produced no
/// artifact at all.
pub fn shared_library_path(a: &RawArtifact) -> (r: Result<String, BuildError>)
    ensures
        match r {
            Ok(p) => spec_first_cdylib(a@.crate_types) matches Some(i) && i
                < a@.filenames.len() && p@ == a@.filenames[i],
            Err(e) => e is NoSharedLibrary && match spec_first_cdylib(a@.crate_types) {
                Some(i) => i >= a@.filenames.len(),
                None => true,
            },
        },
{
    let n = a.crate_types.len();
    let mut i: usize = 0;
    while i < n && !(a.crate_types[i] == String::from_str("cdylib"))
        invariant
            i <= n,
            n == a.crate_types@.len(),
            forall|j: int| 0 <= j < i ==> a@.crate_types[j] != "cdylib"@,
        decreases n - i,
    {
        i = i + 1;
    }
    proof {
        lemma_first_cdylib(a@.crate_types, i as int);
    }
    if i < n {
        if i < a.filenames.len() {
            Ok(a.filenames[i].clone())
        } else {
            Err(BuildError::NoSharedLibrary)
        }
    } else {
        Err(BuildError::NoSharedLibrary)
    }
}

} // verus!
