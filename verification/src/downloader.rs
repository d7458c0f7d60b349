//! The process wrapper's verified core: the two tool locations and the
//! output directory, resolved from the libraries root by the fixed layout
//! `<libs>/<tool-dir>/<executable>`.

use vstd::prelude::*;
use crate::provision::{spec_tool_path, tool_path, Platform, Tool};

verus! {

/// Where the two external tools live: the extraction tool's and the
/// transcoding tool's executables, each inside its fixed subdirectory
/// below the libraries root.
#[derive(Clone, Debug)]
pub struct ToolLocation {
    pub extractor: String,
    pub transcoder: String,
}

/// The process wrapper's state: the tool locations and the directory the
/// extraction tool writes its artifacts to. Stateless beyond these paths
/// and cheaply cloneable; the unverified shell makes the actual tool
/// invocation with them.
#[derive(Clone, Debug)]
pub struct Downloader {
    pub libraries: ToolLocation,
    pub output_dir: String,
}

impl Downloader {
    /// Resolve each tool's executable below `libraries_dir`: its fixed
    /// subdirectory, then the platform-correct file name — the same layout
    /// provisioning fills. The output directory is kept verbatim.
    pub fn new(libraries_dir: String, output_dir: String, platform: Platform) -> (d: Downloader)
        ensures
            d.libraries.extractor@ == spec_tool_path(libraries_dir@, Tool::Extractor, platform),
            d.libraries.transcoder@ == spec_tool_path(libraries_dir@, Tool::Transcoder, platform),
            d.output_dir@ == output_dir@,
    {
        let extractor = tool_path(libraries_dir.as_str(), Tool::Extractor, platform);
        let transcoder = tool_path(libraries_dir.as_str(), Tool::Transcoder, platform);
        Downloader { libraries: ToolLocation { extractor, transcoder }, output_dir }
    }
}

} // verus!
