//! Map rendering surface: the dimension selector, the closed error taxonomy,
//! the synthesized settings document served to the static web UI, and the
//! artifact-resolution rules that turn a request path into a concrete file
//! (with a precompressed-asset fallback) or a synthesized response.
use vstd::prelude::*;

verus! {

/// The world dimension a render targets. Part of the coalescing key;
/// its lowercase name is substituted into the renderer's config template.
#[derive(Clone, Copy, PartialEq, Eq, Structural, Hash, Debug)]
pub enum Dimension {
    Overworld,
    Nether,
    End,
}

impl Dimension {
    /// The lowercase name substituted for `%dimension%` in templates.
    pub open spec fn name_spec(self) -> Seq<char> {
        match self {
            Dimension::Overworld => "overworld"@,
            Dimension::Nether => "nether"@,
            Dimension::End => "end"@,
        }
    }

    /// The dimension's lowercase name.
    pub fn name(&self) -> (r: String)
        ensures
            r@ == self.name_spec(),
    {
        match self {
            Dimension::Overworld => "overworld".to_owned(),
            Dimension::Nether => "nether".to_owned(),
            Dimension::End => "end".to_owned(),
        }
    }
}

/// The closed set of render outcomes broadcast to every waiter identically.
#[derive(Clone, Debug)]
pub enum MapError {
    /// The archive-extraction tool exited with a non-zero status.
    UnzipFailed,
    /// The config template file could not be read.
    ConfigTemplateNotFound,
    /// The external renderer exited with a non-zero status.
    RenderingFiled,
    /// The destination path already existed before any work began.
    DestinationExist,
    /// Any unanticipated I/O or subprocess-plumbing fault, reason preserved.
    External { reason: String },
}

impl MapError {
    /// What `message` returns for each variant.
    pub open spec fn message_spec(self) -> Seq<char> {
        match self {
            MapError::UnzipFailed => "unzip failed"@,
            MapError::ConfigTemplateNotFound => "config template not found"@,
            MapError::RenderingFiled => "rendering failed"@,
            MapError::DestinationExist => "destination exist"@,
            MapError::External { reason } => reason@,
        }
    }

    /// Human-readable description of the error.
    pub fn message(&self) -> (r: String)
        ensures
            r@ == self.message_spec(),
    {
        match self {
            MapError::UnzipFailed => "unzip failed".to_owned(),
            MapError::ConfigTemplateNotFound => "config template not found".to_owned(),
            MapError::RenderingFiled => "rendering failed".to_owned(),
            MapError::DestinationExist => "destination exist".to_owned(),
            MapError::External { reason } => reason.clone(),
        }
    }
}

/// The settings document synthesized for the static web UI. Every field but
/// `maps` is a fixed default; `maps` names the single served artifact tree.
#[allow(non_snake_case)]
pub struct SettingsGlobal {
    pub version: String,
    pub useCookies: bool,
    pub enableFreeFlight: bool,
    pub defaultToFlatView: bool,
    pub resolutionDefault: u32,
    pub minZoomDistance: u32,
    pub maxZoomDistance: u32,
    pub hiresSliderMax: u32,
    pub hiresSliderDefault: u32,
    pub hiresSliderMin: u32,
    pub lowresSliderMax: u32,
    pub lowresSliderDefault: u32,
    pub lowresSliderMin: u32,
    pub maps: Vec<String>,
    pub scripts: Vec<String>,
    pub styles: Vec<String>,
}

impl SettingsGlobal {
    /// All fixed fields hold their default values.
    pub open spec fn fixed_defaults(self) -> bool {
        &&& self.version@ == "5.4"@
        &&& self.useCookies == true
        &&& self.enableFreeFlight == true
        &&& self.defaultToFlatView == false
        &&& self.resolutionDefault == 1u32
        &&& self.minZoomDistance == 5u32
        &&& self.maxZoomDistance == 100000u32
        &&& self.hiresSliderMax == 500u32
        &&& self.hiresSliderDefault == 100u32
        &&& self.hiresSliderMin == 0u32
        &&& self.lowresSliderMax == 7000u32
        &&& self.lowresSliderDefault == 2000u32
        &&& self.lowresSliderMin == 500u32
        &&& self.scripts@ == Seq::<String>::empty()
        &&& self.styles@ == Seq::<String>::empty()
    }

    /// The document served for `settings.json`: fixed defaults and a `maps`
    /// list holding exactly the one artifact directory name.
    pub fn with_map(name: String) -> (r: SettingsGlobal)
        ensures
            r.fixed_defaults(),
            r.maps@.len() == 1,
            r.maps@[0]@ == name@,
    {
        let mut maps: Vec<String> = Vec::new();
        maps.push(name);
        SettingsGlobal {
            version: "5.4".to_owned(),
            useCookies: true,
            enableFreeFlight: true,
            defaultToFlatView: false,
            resolutionDefault: 1,
            minZoomDistance: 5,
            maxZoomDistance: 100000,
            hiresSliderMax: 500,
            hiresSliderDefault: 100,
            hiresSliderMin: 0,
            lowresSliderMax: 7000,
            lowresSliderDefault: 2000,
            lowresSliderMin: 500,
            maps,
            scripts: Vec::new(),
            styles: Vec::new(),
        }
    }
}

impl Default for SettingsGlobal {
    /// The default document: fixed defaults and an empty `maps` list.
    fn default() -> (r: SettingsGlobal)
        ensures
            r.fixed_defaults(),
            r.maps@ == Seq::<String>::empty(),
    {
        SettingsGlobal {
            version: "5.4".to_owned(),
            useCookies: true,
            enableFreeFlight: true,
            defaultToFlatView: false,
            resolutionDefault: 1,
            minZoomDistance: 5,
            maxZoomDistance: 100000,
            hiresSliderMax: 500,
            hiresSliderDefault: 100,
            hiresSliderMin: 0,
            lowresSliderMax: 7000,
            lowresSliderDefault: 2000,
            lowresSliderMin: 500,
            maps: Vec::new(),
            scripts: Vec::new(),
            styles: Vec::new(),
        }
    }
}

/// Where a request path resolves: the static web UI, the artifact tree,
/// the synthesized settings document, or nowhere.
pub enum Route {
    /// Serve `rel` under the static web-UI root.
    WebUi { rel: Vec<String> },
    /// Resolve `rest` under the requested artifact tree.
    Maps { rest: Vec<String> },
    /// Synthesize the settings document.
    Settings,
    /// No rule covers the path.
    NotFound,
}

/// How a path under the artifact tree resolves once its files have been
/// probed.
pub enum Resolution {
    /// The exact file exists: serve it as-is.
    Exact,
    /// Only the precompressed sibling exists: serve `file` (the same path
    /// with `.gz` appended to its final component) marked as gzip-encoded.
    Gzip { file: Vec<String> },
    /// Neither the file nor its precompressed sibling exists.
    Absent,
}

/// Two segment lists carry the same texts.
pub open spec fn same_texts(a: Seq<String>, b: Seq<String>) -> bool {
    a.len() == b.len() && forall|i: int| 0 <= i < a.len() ==> a[i]@ == b[i]@
}

/// Namespace for the map-serving rules: the marker file that declares a
/// render complete and the resolution of request paths to artifacts.
pub struct WorldMap;

impl WorldMap {
    /// Name of the marker file whose presence under an artifact root means
    /// "render complete".
    pub fn settings_marker() -> (r: String)
        ensures
            r@ == "settings.json"@,
    {
        "settings.json".to_owned()
    }

    /// Classify a request path, given as its segments. The empty path and
    /// `index.html`, `lang/...` and `assets/...` go to the static web UI
    /// (the empty path as `index.html`); `maps/<id>/...` goes to the
    /// artifact tree with the first two segments dropped; `settings.json`
    /// is synthesized; everything else is not found.
    pub fn classify(segs: &Vec<String>) -> (r: Route)
        ensures
            segs@.len() == 0 ==> (r matches Route::WebUi { rel } && rel@.len() == 1 && rel@[0]@
                == "index.html"@),
            segs@.len() == 1 && segs@[0]@ == "index.html"@ ==> (r matches Route::WebUi { rel }
                && same_texts(rel@, segs@)),
            segs@.len() >= 1 && (segs@[0]@ == "lang"@ || segs@[0]@ == "assets"@) ==> (r matches
                Route::WebUi { rel } && same_texts(rel@, segs@)),
            segs@.len() >= 2 && segs@[0]@ == "maps"@ ==> (r matches Route::Maps { rest }
                && same_texts(rest@, segs@.skip(2))),
            segs@.len() == 1 && segs@[0]@ == "settings.json"@ ==> r == Route::Settings,
            !(segs@.len() == 0 || (segs@.len() == 1 && (segs@[0]@ == "index.html"@ || segs@[0]@
                == "settings.json"@)) || (segs@.len() >= 1 && (segs@[0]@ == "lang"@ || segs@[0]@
                == "assets"@)) || (segs@.len() >= 2 && segs@[0]@ == "maps"@)) ==> r
                == Route::NotFound,
    {
        proof {
            reveal_strlit("index.html");
            reveal_strlit("lang");
            reveal_strlit("assets");
            reveal_strlit("maps");
            reveal_strlit("settings.json");
        }
        if segs.len() == 0 {
            let mut rel: Vec<String> = Vec::new();
            rel.push("index.html".to_owned());
            return Route::WebUi { rel };
        }
        let first = &segs[0];
        let is_index = segs.len() == 1 && first.eq(&"index.html".to_owned());
        let is_ui = first.eq(&"lang".to_owned()) || first.eq(&"assets".to_owned());
        if is_index || is_ui {
            proof {
                // The route literals are pairwise distinct: same-length ones
                // differ in their first character, the rest in their length.
                assert("maps"@[0] == 'm');
                assert("lang"@[0] == 'l');
                assert("assets"@[0] == 'a');
                assert("settings.json"@.len() == 13);
                assert("lang"@.len() == 4);
                assert("assets"@.len() == 6);
                assert("index.html"@.len() == 10);
            }
            return Route::WebUi { rel: Self::clone_from(segs, 0) };
        }
        if segs.len() >= 2 && first.eq(&"maps".to_owned()) {
            return Route::Maps { rest: Self::clone_from(segs, 2) };
        }
        if segs.len() == 1 && first.eq(&"settings.json".to_owned()) {
            return Route::Settings;
        }
        Route::NotFound
    }

    /// The segments from position `from` on, with the same texts.
    fn clone_from(segs: &Vec<String>, from: usize) -> (r: Vec<String>)
        requires
            from <= segs@.len(),
        ensures
            same_texts(r@, segs@.skip(from as int)),
    {
        let n = segs.len();
        let mut r: Vec<String> = Vec::new();
        let mut i = from;
        while i < n
            invariant
                from <= i <= n,
                n == segs@.len(),
                r@.len() == i - from,
                forall|k: int| 0 <= k < r@.len() ==> r@[k]@ == segs@[from + k]@,
            decreases n - i,
        {
            r.push(segs[i].clone());
            i += 1;
        }
        r
    }

    /// Resolve a path under the artifact tree from two probes: serve the
    /// exact file when it exists; otherwise serve the precompressed sibling
    /// (final component with `.gz` appended) marked gzip-encoded when that
    /// exists; otherwise nothing.
    pub fn resolve_maps(rest: &Vec<String>, exact_exists: bool, gz_exists: bool) -> (r:
        Resolution)
        ensures
            rest@.len() == 0 ==> r == Resolution::Absent,
            rest@.len() >= 1 && exact_exists ==> r == Resolution::Exact,
            rest@.len() >= 1 && !exact_exists && gz_exists ==> (r matches Resolution::Gzip { file }
                && file@.len() == rest@.len() && (forall|i: int|
                0 <= i < rest@.len() - 1 ==> file@[i]@ == rest@[i]@) && file@[rest@.len() - 1]@
                == rest@[rest@.len() - 1]@ + ".gz"@),
            rest@.len() >= 1 && !exact_exists && !gz_exists ==> r == Resolution::Absent,
    {
        let n = rest.len();
        if n == 0 {
            return Resolution::Absent;
        }
        if exact_exists {
            return Resolution::Exact;
        }
        if gz_exists {
            let mut file: Vec<String> = Vec::new();
            let mut i: usize = 0;
            while i < n - 1
                invariant
                    0 <= i <= n - 1,
                    n == rest@.len(),
                    file@.len() == i,
                    forall|k: int| 0 <= k < i ==> file@[k]@ == rest@[k]@,
                decreases n - i,
            {
                file.push(rest[i].clone());
                i += 1;
            }
            file.push(rest[n - 1].clone().concat(".gz"));
            return Resolution::Gzip { file };
        }
        Resolution::Absent
    }
}

} // verus!
