//! Asset provisioning: the plan that places the two external tool binaries
//! on disk, as a verified state machine. The machine decides; an unverified
//! driver performs each returned action (probe the disk, stream one fixed
//! URL to a file, unpack an archive, copy an entry, set the execute bit)
//! and reports the result back as an event.

use vstd::prelude::*;
use vstd::string::StrSliceExecFns;
use vstd::string::StringExecFns;
use crate::text::{ends_with, str_ends_with};

verus! {

/// The two tools the application needs before its first download.
#[derive(Clone, Copy, Debug, PartialEq, Eq, Structural)]
pub enum Tool {
    Extractor,
    Transcoder,
}

/// The three platform variants provisioning distinguishes.
#[derive(Clone, Copy, Debug, PartialEq, Eq, Structural)]
pub enum Platform {
    Linux,
    Windows,
    MacOs,
}

/// The two archive formats an artifact can arrive in.
#[derive(Clone, Copy, Debug, PartialEq, Eq, Structural)]
pub enum ArchiveKind {
    CompressedTar,
    Zip,
}

/// How a tool is obtained on a platform: streamed directly to its final
/// path, unpacked out of an archive, or not obtainable automatically.
#[derive(Clone, Copy, Debug, PartialEq, Eq, Structural)]
pub enum Plan {
    Direct,
    Archive { kind: ArchiveKind },
    Manual,
}

/// The provisioning table: the extraction tool is a single executable on
/// every platform; the transcoding tool arrives as a compressed tar on the
/// primary desktop target, as a zip on the Windows target, and has no
/// automated source on the remaining desktop target.
pub open spec fn spec_plan(tool: Tool, platform: Platform) -> Plan {
    match tool {
        Tool::Extractor => Plan::Direct,
        Tool::Transcoder => match platform {
            Platform::Linux => Plan::Archive { kind: ArchiveKind::CompressedTar },
            Platform::Windows => Plan::Archive { kind: ArchiveKind::Zip },
            Platform::MacOs => Plan::Manual,
        },
    }
}

pub fn plan_for(tool: Tool, platform: Platform) -> (p: Plan)
    ensures
        p == spec_plan(tool, platform),
{
    match tool {
        Tool::Extractor => Plan::Direct,
        Tool::Transcoder => match platform {
            Platform::Linux => Plan::Archive { kind: ArchiveKind::CompressedTar },
            Platform::Windows => Plan::Archive { kind: ArchiveKind::Zip },
            Platform::MacOs => Plan::Manual,
        },
    }
}

/// The fixed subdirectory below the libraries root that each tool lives in.
pub open spec fn spec_tool_dir(tool: Tool) -> Seq<char> {
    match tool {
        Tool::Extractor => "yt-dlp"@,
        Tool::Transcoder => "ffmpeg"@,
    }
}

pub fn tool_dir(tool: Tool) -> (d: String)
    ensures
        d@ == spec_tool_dir(tool),
{
    match tool {
        Tool::Extractor => "yt-dlp".to_owned(),
        Tool::Transcoder => "ffmpeg".to_owned(),
    }
}

/// The platform-correct file name of each tool's executable.
pub open spec fn spec_tool_exe(tool: Tool, platform: Platform) -> Seq<char> {
    match tool {
        Tool::Extractor => if platform is Windows {
            "yt-dlp.exe"@
        } else {
            "yt-dlp"@
        },
        Tool::Transcoder => if platform is Windows {
            "ffmpeg.exe"@
        } else {
            "ffmpeg"@
        },
    }
}

pub fn tool_exe(tool: Tool, platform: Platform) -> (n: String)
    ensures
        n@ == spec_tool_exe(tool, platform),
{
    match tool {
        Tool::Extractor => if matches!(platform, Platform::Windows) {
            "yt-dlp.exe".to_owned()
        } else {
            "yt-dlp".to_owned()
        },
        Tool::Transcoder => if matches!(platform, Platform::Windows) {
            "ffmpeg.exe".to_owned()
        } else {
            "ffmpeg".to_owned()
        },
    }
}

/// A tool executable's full path: `<libs>/<tool-dir>/<executable>`, the
/// layout both provisioning and the process wrapper agree on.
pub open spec fn spec_tool_path(libs: Seq<char>, tool: Tool, platform: Platform) -> Seq<char> {
    libs + "/"@ + spec_tool_dir(tool) + "/"@ + spec_tool_exe(tool, platform)
}

pub fn tool_path(libs: &str, tool: Tool, platform: Platform) -> (p: String)
    ensures
        p@ == spec_tool_path(libs@, tool, platform),
{
    String::from_str(libs).concat("/").concat(tool_dir(tool).as_str()).concat("/").concat(
        tool_exe(tool, platform).as_str(),
    )
}

/// The fixed download locations: one release location serves the extraction
/// tool's two OS variants, completed with the platform's executable name,
/// and the transcoding tool has one archive per format.
pub open spec fn spec_download_url(tool: Tool, platform: Platform) -> Seq<char> {
    match tool {
        Tool::Extractor => "https://github.com/yt-dlp/yt-dlp/releases/latest/download/"@
            + spec_tool_exe(Tool::Extractor, platform),
        Tool::Transcoder => match platform {
            Platform::Windows => "https://www.gyan.dev/ffmpeg/builds/ffmpeg-release-essentials.zip"@,
            _ => "https://johnvansickle.com/ffmpeg/releases/ffmpeg-release-amd64-static.tar.xz"@,
        },
    }
}

pub fn download_url(tool: Tool, platform: Platform) -> (u: String)
    ensures
        u@ == spec_download_url(tool, platform),
{
    match tool {
        Tool::Extractor => String::from_str(
            "https://github.com/yt-dlp/yt-dlp/releases/latest/download/",
        ).concat(tool_exe(Tool::Extractor, platform).as_str()),
        Tool::Transcoder => match platform {
            Platform::Windows => "https://www.gyan.dev/ffmpeg/builds/ffmpeg-release-essentials.zip".to_owned(),
            _ => "https://johnvansickle.com/ffmpeg/releases/ffmpeg-release-amd64-static.tar.xz".to_owned(),
        },
    }
}

/// An archive entry names the wanted executable when its path is `name`
/// itself or ends with `name` right after a path separator, so that a
/// longer file name with the same suffix does not count.
pub open spec fn entry_matches(entry: Seq<char>, name: Seq<char>) -> bool {
    ends_with(entry, name) && (entry.len() == name.len() || entry[entry.len() - name.len()
        - 1] == '/')
}

pub fn entry_matches_name(entry: &str, name: &str) -> (b: bool)
    ensures
        b == entry_matches(entry@, name@),
{
    if !str_ends_with(entry, name) {
        return false;
    }
    let el = entry.unicode_len();
    let nl = name.unicode_len();
    if el == nl {
        return true;
    }
    entry.get_char(el - nl - 1) == '/'
}

/// The entry at `j` is the first one in `entries` that names the executable.
pub open spec fn first_match_at(entries: Seq<String>, name: Seq<char>, j: int) -> bool {
    &&& 0 <= j < entries.len()
    &&& entry_matches(entries[j]@, name)
    &&& forall|k: int| 0 <= k < j ==> !entry_matches(#[trigger] entries[k]@, name)
}

/// Find the first archive entry that names the expected executable.
pub fn locate_entry(entries: &Vec<String>, name: &str) -> (r: Option<usize>)
    ensures
        match r {
            Some(i) => first_match_at(entries@, name@, i as int),
            None => forall|k: int|
                0 <= k < entries@.len() ==> !entry_matches(#[trigger] entries@[k]@, name@),
        },
{
    let n = entries.len();
    for i in 0..n
        invariant
            n == entries@.len(),
            forall|k: int| 0 <= k < i ==> !entry_matches(#[trigger] entries@[k]@, name@),
    {
        if entry_matches_name(entries[i].as_str(), name) {
            return Some(i);
        }
    }
    None
}

/// Why provisioning of one tool stopped.
#[derive(Clone, Debug, PartialEq)]
pub enum ProvisionError {
    /// A transport or HTTP failure while fetching the artifact.
    Network { detail: String },
    /// The expected executable is missing from the extracted archive.
    ArtifactNotFound,
    /// The platform offers no automated source for this tool.
    ManualInstallRequired,
}

/// What the driver must do next.
#[derive(Debug)]
pub enum Action {
    /// Report whether the tool already sits at its final path.
    CheckPresence,
    /// Stream the HTTP response for `url` to disk: to the final path for a
    /// direct artifact, to a scratch file for an archive.
    Fetch { url: String },
    /// Extract the fetched archive to a scratch directory and report the
    /// entry paths.
    Unpack { kind: ArchiveKind },
    /// Copy the located archive entry to the tool's final path.
    CopyEntry { entry: String },
    /// Grant execute permission on the final file; a no-op where the
    /// platform enforces no such bit.
    MarkExecutable,
    /// Provisioning of this tool is over.
    Report { outcome: Result<(), ProvisionError> },
}

/// What the driver reports back after performing an action.
#[derive(Debug)]
pub enum Event {
    Presence { present: bool },
    Fetched { outcome: Result<(), String> },
    Unpacked { entries: Vec<String> },
    Copied,
    Marked,
}

/// Where the machine stands between two actions.
#[derive(Clone, Copy, Debug, PartialEq, Eq, Structural)]
pub enum Phase {
    Checking,
    Fetching,
    Unpacking,
    Copying,
    Marking,
    Complete { ok: bool },
}

/// The action kinds, without their payloads, for stating laws about whole
/// runs.
#[derive(Clone, Copy, Debug, PartialEq, Eq, Structural)]
pub enum ActionKind {
    CheckPresence,
    Fetch,
    Unpack,
    CopyEntry,
    MarkExecutable,
    Report,
}

pub open spec fn kind_of(a: Action) -> ActionKind {
    match a {
        Action::CheckPresence => ActionKind::CheckPresence,
        Action::Fetch { .. } => ActionKind::Fetch,
        Action::Unpack { .. } => ActionKind::Unpack,
        Action::CopyEntry { .. } => ActionKind::CopyEntry,
        Action::MarkExecutable => ActionKind::MarkExecutable,
        Action::Report { .. } => ActionKind::Report,
    }
}

/// The event each phase is waiting for. A complete machine accepts none.
pub open spec fn expects(ph: Phase, e: Event) -> bool {
    match ph {
        Phase::Checking => e is Presence,
        Phase::Fetching => e is Fetched,
        Phase::Unpacking => e is Unpacked,
        Phase::Copying => e is Copied,
        Phase::Marking => e is Marked,
        Phase::Complete { .. } => false,
    }
}

/// The machine's opening move: a platform without an automated source
/// reports the manual-install failure at once; otherwise the first action
/// probes the disk.
pub open spec fn spec_start(tool: Tool, platform: Platform) -> (Phase, ActionKind) {
    if spec_plan(tool, platform) is Manual {
        (Phase::Complete { ok: false }, ActionKind::Report)
    } else {
        (Phase::Checking, ActionKind::CheckPresence)
    }
}

/// The transition table: the next phase and the kind of the next action,
/// given the phase the machine was in and the event the driver reported.
pub open spec fn spec_step(tool: Tool, platform: Platform, ph: Phase, e: Event) -> (
    Phase,
    ActionKind,
)
    recommends
        expects(ph, e),
{
    match (ph, e) {
        (Phase::Checking, Event::Presence { present }) => if present {
            (Phase::Complete { ok: true }, ActionKind::Report)
        } else {
            (Phase::Fetching, ActionKind::Fetch)
        },
        (Phase::Fetching, Event::Fetched { outcome }) => match outcome {
            Err(_) => (Phase::Complete { ok: false }, ActionKind::Report),
            Ok(_) => match spec_plan(tool, platform) {
                Plan::Direct => (Phase::Marking, ActionKind::MarkExecutable),
                Plan::Archive { .. } => (Phase::Unpacking, ActionKind::Unpack),
                Plan::Manual => (Phase::Complete { ok: false }, ActionKind::Report),
            },
        },
        (Phase::Unpacking, Event::Unpacked { entries }) => if exists|j: int|
            first_match_at(entries@, spec_tool_exe(Tool::Transcoder, platform), j) {
            (Phase::Copying, ActionKind::CopyEntry)
        } else {
            (Phase::Complete { ok: false }, ActionKind::Report)
        },
        (Phase::Copying, Event::Copied) => (Phase::Marking, ActionKind::MarkExecutable),
        (Phase::Marking, Event::Marked) => (Phase::Complete { ok: true }, ActionKind::Report),
        _ => (ph, ActionKind::Report),
    }
}

/// One tool's provisioning, as far as it has got.
pub struct Provisioner {
    pub tool: Tool,
    pub platform: Platform,
    pub phase: Phase,
}

impl Provisioner {
    /// Open the provisioning of one tool on one platform.
    pub fn start(tool: Tool, platform: Platform) -> (r: (Provisioner, Action))
        ensures
            r.0.tool == tool,
            r.0.platform == platform,
            (r.0.phase, kind_of(r.1)) == spec_start(tool, platform),
            r.1 matches Action::Report { outcome } ==> outcome == Err::<(),
                ProvisionError,
            >(ProvisionError::ManualInstallRequired),
    {
        match plan_for(tool, platform) {
            Plan::Manual => (
                Provisioner { tool, platform, phase: Phase::Complete { ok: false } },
                Action::Report { outcome: Err(ProvisionError::ManualInstallRequired) },
            ),
            _ => (
                Provisioner { tool, platform, phase: Phase::Checking },
                Action::CheckPresence,
            ),
        }
    }

    /// Feed the driver's report back in and learn the next action. The
    /// phase and action kind follow the transition table exactly, and each
    /// payload is pinned: a fetch names the fixed URL of this tool and
    /// platform, an unpack names the planned archive format, a copy names
    /// the first matching archive entry, and a report carries the outcome
    /// the run earned.
    pub fn step(&mut self, e: Event) -> (a: Action)
        requires
            expects(old(self).phase, e),
        ensures
            final(self).tool == old(self).tool,
            final(self).platform == old(self).platform,
            (final(self).phase, kind_of(a)) == spec_step(
                old(self).tool,
                old(self).platform,
                old(self).phase,
                e,
            ),
            a matches Action::Fetch { url } ==> url@ == spec_download_url(
                old(self).tool,
                old(self).platform,
            ),
            a matches Action::Unpack { kind } ==> spec_plan(old(self).tool, old(self).platform)
                == (Plan::Archive { kind }),
            a matches Action::CopyEntry { entry } ==> (e matches Event::Unpacked { entries }
                && exists|j: int|
                first_match_at(entries@, spec_tool_exe(Tool::Transcoder, old(self).platform), j)
                    && entries@[j] == entry),
            e == (Event::Presence { present: true }) ==> a == (Action::Report {
                outcome: Ok::<(), ProvisionError>(()),
            }),
            e matches Event::Fetched { outcome: Err(detail) } ==> a == (Action::Report {
                outcome: Err::<(), ProvisionError>(ProvisionError::Network { detail }),
            }),
            e matches Event::Fetched { outcome: Ok(_) } ==> (spec_plan(
                old(self).tool,
                old(self).platform,
            ) is Manual ==> a == (Action::Report {
                outcome: Err::<(), ProvisionError>(ProvisionError::ManualInstallRequired),
            })),
            e matches Event::Unpacked { entries } ==> ((forall|k: int|
                0 <= k < entries@.len() ==> !entry_matches(
                    #[trigger] entries@[k]@,
                    spec_tool_exe(Tool::Transcoder, old(self).platform),
                )) ==> a == (Action::Report {
                outcome: Err::<(), ProvisionError>(ProvisionError::ArtifactNotFound),
            })),
            old(self).phase is Marking ==> a == (Action::Report {
                outcome: Ok::<(), ProvisionError>(()),
            }),
    {
        match (&self.phase, e) {
            (Phase::Checking, Event::Presence { present }) => {
                if present {
                    self.phase = Phase::Complete { ok: true };
                    Action::Report { outcome: Ok(()) }
                } else {
                    self.phase = Phase::Fetching;
                    let url = download_url(self.tool, self.platform);
                    Action::Fetch { url }
                }
            },
            (Phase::Fetching, Event::Fetched { outcome }) => {
                match outcome {
                    Err(detail) => {
                        self.phase = Phase::Complete { ok: false };
                        Action::Report { outcome: Err(ProvisionError::Network { detail }) }
                    },
                    Ok(_) => {
                        match plan_for(self.tool, self.platform) {
                            Plan::Direct => {
                                self.phase = Phase::Marking;
                                Action::MarkExecutable
                            },
                            Plan::Archive { kind } => {
                                self.phase = Phase::Unpacking;
                                Action::Unpack { kind }
                            },
                            Plan::Manual => {
                                self.phase = Phase::Complete { ok: false };
                                Action::Report {
                                    outcome: Err(ProvisionError::ManualInstallRequired),
                                }
                            },
                        }
                    },
                }
            },
            (Phase::Unpacking, Event::Unpacked { entries }) => {
                let name = tool_exe(Tool::Transcoder, self.platform);
                match locate_entry(&entries, name.as_str()) {
                    Some(i) => {
                        self.phase = Phase::Copying;
                        let entry = entries[i].clone();
                        Action::CopyEntry { entry }
                    },
                    None => {
                        self.phase = Phase::Complete { ok: false };
                        Action::Report { outcome: Err(ProvisionError::ArtifactNotFound) }
                    },
                }
            },
            (Phase::Copying, Event::Copied) => {
                self.phase = Phase::Marking;
                Action::MarkExecutable
            },
            (Phase::Marking, Event::Marked) => {
                self.phase = Phase::Complete { ok: true };
                Action::Report { outcome: Ok(()) }
            },
            _ => vstd::pervasive::unreached(),
        }
    }
}

/// The kinds of the actions a run produces: fold the transition table over
/// a sequence of driver reports, stopping at the first report the current
/// phase does not expect.
pub open spec fn run_kinds(tool: Tool, platform: Platform, ph: Phase, events: Seq<Event>) -> Seq<
    ActionKind,
>
    decreases events.len(),
{
    if events.len() == 0 || !expects(ph, events[0]) {
        Seq::empty()
    } else {
        let next = spec_step(tool, platform, ph, events[0]);
        seq![next.1] + run_kinds(tool, platform, next.0, events.drop_first())
    }
}

/// On a platform where a tool arrives as a single executable, a run that
/// finds it missing and whose fetch succeeds does exactly three things, in
/// order: the fetch that writes the final file, the permission grant, and
/// the closing report.
pub proof fn lemma_direct_install_order(tool: Tool, platform: Platform)
    requires
        spec_plan(tool, platform) is Direct,
    ensures
        run_kinds(
            tool,
            platform,
            Phase::Checking,
            seq![
                Event::Presence { present: false },
                Event::Fetched { outcome: Ok(()) },
                Event::Marked,
            ],
        ) =~= seq![ActionKind::Fetch, ActionKind::MarkExecutable, ActionKind::Report],
{
    let e0 = Event::Presence { present: false };
    let e1 = Event::Fetched { outcome: Ok(()) };
    let e2 = Event::Marked;
    let events = seq![e0, e1, e2];
    assert(spec_step(tool, platform, Phase::Checking, e0) == (Phase::Fetching, ActionKind::Fetch));
    assert(spec_step(tool, platform, Phase::Fetching, e1) == (
        Phase::Marking,
        ActionKind::MarkExecutable,
    ));
    assert(spec_step(tool, platform, Phase::Marking, e2) == (
        Phase::Complete { ok: true },
        ActionKind::Report,
    ));
    let rest1 = events.drop_first();
    let rest2 = rest1.drop_first();
    let rest3 = rest2.drop_first();
    assert(rest1 =~= seq![e1, e2]);
    assert(rest2 =~= seq![e2]);
    assert(rest3 =~= Seq::<Event>::empty());
    assert(run_kinds(tool, platform, Phase::Complete { ok: true }, rest3) =~= Seq::<
        ActionKind,
    >::empty());
    assert(run_kinds(tool, platform, Phase::Marking, rest2) =~= seq![ActionKind::Report]);
    assert(run_kinds(tool, platform, Phase::Fetching, rest1) =~= seq![
        ActionKind::MarkExecutable,
        ActionKind::Report,
    ]);
}

/// Idempotency of provisioning: a run whose presence probe finds the tool
/// already on disk issues no fetch, whatever the driver reports afterwards.
/// This holds of every such run, so in particular of the second of two runs
/// over an already-provisioned directory.
pub proof fn lemma_provisioned_run_never_fetches(
    tool: Tool,
    platform: Platform,
    events: Seq<Event>,
)
    requires
        events.len() > 0 ==> events[0] == (Event::Presence { present: true }),
    ensures
        forall|k: int|
            0 <= k < run_kinds(tool, platform, Phase::Checking, events).len() ==> run_kinds(
                tool,
                platform,
                Phase::Checking,
                events,
            )[k] != ActionKind::Fetch,
{
    if events.len() > 0 && expects(Phase::Checking, events[0]) {
        let next = spec_step(tool, platform, Phase::Checking, events[0]);
        assert(next.0 == (Phase::Complete { ok: true }));
        assert(next.1 == ActionKind::Report);
        assert(run_kinds(tool, platform, next.0, events.drop_first()) =~= Seq::<
            ActionKind,
        >::empty());
        assert(run_kinds(tool, platform, Phase::Checking, events) =~= seq![ActionKind::Report]);
    }
}

} // verus!
