//! Master configuration: the filesystem roots that the render pipeline and
//! the artifact resolver compose their paths under. Path values are kept as
//! plain path text (`/`-separated); reading and persisting the configuration
//! file is left to the surrounding program.
use vstd::prelude::*;

verus! {

/// The process-wide configuration: the renderer's config tree, its web
/// output tree, the renderer executable, the published-artifact root and
/// the staging scratch area.
pub struct MasterConfig {
    /// Root of the external renderer's configuration tree.
    pub bluemap_config: String,
    /// Root of the external renderer's web output tree (static UI plus
    /// rendered maps under `maps/`).
    pub bluemap_web: String,
    /// Path of the external renderer executable archive.
    pub bluemap_jar: String,
    /// Root under which published artifact trees live.
    pub artifacts: String,
    /// Scratch area for staging zips and extraction directories.
    pub maps: String,
}

impl MasterConfig {
    /// True when every root is exactly the out-of-the-box default.
    pub open spec fn is_default(self) -> bool {
        &&& self.bluemap_config@ == "config"@
        &&& self.bluemap_web@ == "web"@
        &&& self.bluemap_jar@ == "bluemap.jar"@
        &&& self.artifacts@ == "artifacts"@
        &&& self.maps@ == "maps"@
    }
}

impl MasterConfig {
    /// The configuration file's path relative to the platform's config
    /// directory: `bluemap/<ident>.json`.
    pub fn config_file_rel(ident: &str) -> (r: String)
        ensures
            r@ == "bluemap/"@ + ident@ + ".json"@,
    {
        "bluemap/".to_owned().concat(ident).concat(".json")
    }
}

impl Default for MasterConfig {
    /// The defaults used when no configuration file is present.
    fn default() -> (r: MasterConfig)
        ensures
            r.is_default(),
    {
        MasterConfig {
            bluemap_config: "config".to_owned(),
            bluemap_web: "web".to_owned(),
            bluemap_jar: "bluemap.jar".to_owned(),
            artifacts: "artifacts".to_owned(),
            maps: "maps".to_owned(),
        }
    }
}

} // verus!
