//! The staged render pipeline for one coalescing key, as a state machine
//! over plain values. Each stage names the single filesystem or subprocess
//! operation the driver must perform next; the driver reports the outcome as
//! an [`Event`] and the machine moves on. The machine tracks which staged
//! artifacts (staging zip, extraction directory, per-run renderer config,
//! renderer output) it has asked the driver to create, and every failure
//! path passes through a cleanup stage that removes all of them, so a
//! finished run never leaves staged state behind: a failed run leaves
//! nothing, a successful run leaves exactly the published destination.
use vstd::prelude::*;
use crate::config::MasterConfig;
use crate::map::Dimension;
use crate::map::MapError;
use crate::paths::after_last_slash;
use crate::paths::split_final;
use crate::template::materialize_template;
use crate::template::materialized_config;

verus! {

/// The stages of one pipeline run. Each stage is an instruction to the
/// driver; the comments give the operation and how its outcome is reported.
pub enum Stage {
    /// Probe whether the destination already exists; report `Probed`.
    ProbeDest,
    /// Create the staging root if needed and copy the source archive to the
    /// staging zip path; report `Completed` or `Faulted`.
    CopySource,
    /// Run the archive-extraction tool on the staging zip into the
    /// extraction directory; report `Exited` (or `Faulted` if it could not
    /// be started).
    RunUnzip,
    /// Delete the staging zip, best effort, whatever the extraction outcome
    /// was; report any event.
    DropZip { unzip_ok: bool },
    /// List the extraction directory's immediate children (two are enough);
    /// report `Listed` or `Faulted`.
    ListChildren,
    /// Single wrapper directory found: rename it to the aside path next to
    /// the extraction directory; report `Completed` or `Faulted`.
    NormalizeAside { child: String },
    /// Remove the now-empty extraction directory; report `Completed` or
    /// `Faulted`.
    NormalizeSwap { child: String },
    /// Rename the aside path to the extraction directory's name; report
    /// `Completed` or `Faulted`.
    NormalizeBack { child: String },
    /// Read the config template file; report `TemplateText` (`None` when it
    /// cannot be read).
    ReadTemplate,
    /// Create the renderer's map-config directory if needed and write
    /// `content` to the per-run config path; report `Completed` or
    /// `Faulted`.
    WriteConfig { content: String },
    /// Run the external renderer one-shot; report `Exited` (or `Faulted`
    /// if it could not be started).
    RunRenderer,
    /// Delete the extraction directory and the per-run config, best effort,
    /// whatever the renderer outcome was; report any event.
    DropWork { render_ok: bool },
    /// Create the destination's parent if needed and rename the renderer's
    /// output directory to the destination; report `Completed` or
    /// `Faulted`.
    Publish,
    /// Best-effort removal of every staged artifact that may remain: the
    /// staging zip, the extraction directory, the aside path (when `aside`
    /// names a child), the per-run config and the renderer output; report
    /// any event.
    CleanupFailure { error: MapError, aside: Option<String> },
    /// The run is over with this result; no further operation is owed.
    Finished { result: Result<(), MapError> },
}

/// The driver's report of one operation's outcome.
pub enum Event {
    /// Outcome of an existence probe.
    Probed { exists: bool },
    /// The operation succeeded.
    Completed,
    /// The operation failed for an unanticipated reason, preserved as text.
    Faulted { reason: String },
    /// A subprocess ran to completion; `success` is its exit status.
    Exited { success: bool },
    /// The immediate children of the extraction directory (at most two are
    /// ever inspected).
    Listed { children: Vec<String> },
    /// The template file's text, or `None` when it could not be read.
    TemplateText { text: Option<String> },
}

/// One render run: the key it serves, the fresh per-run identifier, the
/// composed staging paths, the current stage, and which staged artifacts
/// the driver has been asked to create so far. The driver reads the fields
/// to carry out each stage's operation; all changes go through
/// [`Pipeline::step`].
pub struct Pipeline {
    /// What the driver must do next.
    pub stage: Stage,
    /// Source archive path (part of the key).
    pub source: String,
    /// Destination path (part of the key).
    pub dest: String,
    /// Config template path (part of the key).
    pub template: String,
    /// Dimension to render (part of the key).
    pub dimension: Dimension,
    /// Fresh random identifier naming every staged artifact of this run.
    pub id: String,
    /// The destination's final path component (`%name%` in templates).
    pub name: String,
    /// The staging scratch root.
    pub maps_root: String,
    /// Staging zip path: `<maps_root>/<id>.zip`.
    pub zip_path: String,
    /// Extraction directory: `<maps_root>/<id>` (`%world%` in templates).
    pub dir_path: String,
    /// The renderer's map-config directory: `<config_root>/maps`.
    pub conf_dir: String,
    /// Per-run renderer config path: `<config_root>/maps/<id>.conf`.
    pub conf_path: String,
    /// The renderer's output directory for this run: `<web_root>/maps/<id>`.
    pub rendered_path: String,
    /// The staging zip may exist on disk.
    pub zip_staged: bool,
    /// The extraction directory (or its aside sibling) may exist on disk.
    pub dir_staged: bool,
    /// The per-run renderer config may exist on disk.
    pub conf_staged: bool,
    /// The renderer's output directory may exist on disk.
    pub rendered_present: bool,
    /// The destination has been populated from the renderer's output.
    pub published: bool,
}

/// No staged artifact remains and nothing was published.
pub open spec fn cleared(p: Pipeline) -> bool {
    &&& !p.zip_staged
    &&& !p.dir_staged
    &&& !p.conf_staged
    &&& !p.rendered_present
    &&& !p.published
}

/// The key, identifier and composed paths never change over a run.
pub open spec fn same_identity(pre: Pipeline, post: Pipeline) -> bool {
    &&& post.source == pre.source
    &&& post.dest == pre.dest
    &&& post.template == pre.template
    &&& post.dimension == pre.dimension
    &&& post.id == pre.id
    &&& post.name == pre.name
    &&& post.maps_root == pre.maps_root
    &&& post.zip_path == pre.zip_path
    &&& post.dir_path == pre.dir_path
    &&& post.conf_dir == pre.conf_dir
    &&& post.conf_path == pre.conf_path
    &&& post.rendered_path == pre.rendered_path
}

/// All artifact flags unchanged.
pub open spec fn same_flags(pre: Pipeline, post: Pipeline) -> bool {
    &&& post.zip_staged == pre.zip_staged
    &&& post.dir_staged == pre.dir_staged
    &&& post.conf_staged == pre.conf_staged
    &&& post.rendered_present == pre.rendered_present
    &&& post.published == pre.published
}

/// Which staged artifacts may exist at each stage; terminal states are
/// clean: a failed run leaves nothing staged and nothing published, a
/// successful run leaves exactly the published destination.
pub open spec fn inv(p: Pipeline) -> bool {
    match p.stage {
        Stage::ProbeDest => cleared(p),
        Stage::CopySource => cleared(p),
        Stage::RunUnzip => p.zip_staged && !p.dir_staged && !p.conf_staged
            && !p.rendered_present && !p.published,
        Stage::DropZip { .. } => p.zip_staged && p.dir_staged && !p.conf_staged
            && !p.rendered_present && !p.published,
        Stage::ListChildren => mid_extraction(p),
        Stage::NormalizeAside { .. } => mid_extraction(p),
        Stage::NormalizeSwap { .. } => mid_extraction(p),
        Stage::NormalizeBack { .. } => mid_extraction(p),
        Stage::ReadTemplate => mid_extraction(p),
        Stage::WriteConfig { .. } => mid_extraction(p),
        Stage::RunRenderer => !p.zip_staged && p.dir_staged && p.conf_staged
            && !p.rendered_present && !p.published,
        Stage::DropWork { .. } => !p.zip_staged && p.dir_staged && p.conf_staged
            && p.rendered_present && !p.published,
        Stage::Publish => !p.zip_staged && !p.dir_staged && !p.conf_staged
            && p.rendered_present && !p.published,
        Stage::CleanupFailure { .. } => !p.published,
        Stage::Finished { result } => match result {
            Ok(_) => p.published && !p.zip_staged && !p.dir_staged && !p.conf_staged
                && !p.rendered_present,
            Err(_) => cleared(p),
        },
    }
}

/// Between extraction and the renderer run only the extraction directory
/// is staged.
pub open spec fn mid_extraction(p: Pipeline) -> bool {
    &&& !p.zip_staged
    &&& p.dir_staged
    &&& !p.conf_staged
    &&& !p.rendered_present
    &&& !p.published
}

/// The machine's complete transition relation: given the stage `pre` was
/// in and the event the driver reported, this pins `post` exactly. An
/// event that does not belong to the pending stage leaves the machine
/// unchanged.
pub open spec fn transition(pre: Pipeline, ev: Event, post: Pipeline) -> bool {
    &&& same_identity(pre, post)
    &&& match pre.stage {
        Stage::ProbeDest => match ev {
            Event::Probed { exists } => same_flags(pre, post) && post.stage == (
            if exists {
                Stage::Finished { result: Err(MapError::DestinationExist) }
            } else {
                Stage::CopySource
            }),
            _ => post == pre,
        },
        Stage::CopySource => match ev {
            Event::Completed => flags_set(pre, post, true, false, false, false) && post.stage
                == Stage::RunUnzip,
            Event::Faulted { reason } => flags_set(pre, post, true, false, false, false)
                && post.stage == (Stage::CleanupFailure {
                error: MapError::External { reason },
                aside: None,
            }),
            _ => post == pre,
        },
        Stage::RunUnzip => match ev {
            Event::Exited { success } => flags_set(pre, post, true, true, false, false)
                && post.stage == (Stage::DropZip { unzip_ok: success }),
            Event::Faulted { reason } => flags_set(pre, post, true, true, false, false)
                && post.stage == (Stage::CleanupFailure {
                error: MapError::External { reason },
                aside: None,
            }),
            _ => post == pre,
        },
        Stage::DropZip { unzip_ok } => flags_set(pre, post, false, pre.dir_staged, false, false)
            && post.stage == (if unzip_ok {
            Stage::ListChildren
        } else {
            Stage::CleanupFailure { error: MapError::UnzipFailed, aside: None }
        }),
        Stage::ListChildren => match ev {
            Event::Listed { children } => same_flags(pre, post) && post.stage == (
            if children.len() == 1 {
                Stage::NormalizeAside { child: children[0] }
            } else {
                Stage::ReadTemplate
            }),
            Event::Faulted { reason } => same_flags(pre, post) && post.stage == (
            Stage::CleanupFailure { error: MapError::External { reason }, aside: None }),
            _ => post == pre,
        },
        Stage::NormalizeAside { child } => match ev {
            Event::Completed => same_flags(pre, post) && post.stage == (Stage::NormalizeSwap {
                child,
            }),
            Event::Faulted { reason } => same_flags(pre, post) && post.stage == (
            Stage::CleanupFailure { error: MapError::External { reason }, aside: Some(child) }),
            _ => post == pre,
        },
        Stage::NormalizeSwap { child } => match ev {
            Event::Completed => same_flags(pre, post) && post.stage == (Stage::NormalizeBack {
                child,
            }),
            Event::Faulted { reason } => same_flags(pre, post) && post.stage == (
            Stage::CleanupFailure { error: MapError::External { reason }, aside: Some(child) }),
            _ => post == pre,
        },
        Stage::NormalizeBack { child } => match ev {
            Event::Completed => same_flags(pre, post) && post.stage == Stage::ReadTemplate,
            Event::Faulted { reason } => same_flags(pre, post) && post.stage == (
            Stage::CleanupFailure { error: MapError::External { reason }, aside: Some(child) }),
            _ => post == pre,
        },
        Stage::ReadTemplate => match ev {
            Event::TemplateText { text } => match text {
                Some(t) => same_flags(pre, post) && match post.stage {
                    Stage::WriteConfig { content } => content@ == materialized_config(
                        t@,
                        pre.dir_path@,
                        pre.dimension,
                        pre.name@,
                    ),
                    _ => false,
                },
                None => same_flags(pre, post) && post.stage == (Stage::CleanupFailure {
                    error: MapError::ConfigTemplateNotFound,
                    aside: None,
                }),
            },
            _ => post == pre,
        },
        Stage::WriteConfig { .. } => match ev {
            Event::Completed => flags_set(pre, post, false, true, true, false) && post.stage
                == Stage::RunRenderer,
            Event::Faulted { reason } => flags_set(pre, post, false, true, true, false)
                && post.stage == (Stage::CleanupFailure {
                error: MapError::External { reason },
                aside: None,
            }),
            _ => post == pre,
        },
        Stage::RunRenderer => match ev {
            Event::Exited { success } => flags_set(pre, post, false, true, true, true)
                && post.stage == (Stage::DropWork { render_ok: success }),
            Event::Faulted { reason } => flags_set(pre, post, false, true, true, true)
                && post.stage == (Stage::CleanupFailure {
                error: MapError::External { reason },
                aside: None,
            }),
            _ => post == pre,
        },
        Stage::DropWork { render_ok } => flags_set(pre, post, false, false, false, true)
            && post.stage == (if render_ok {
            Stage::Publish
        } else {
            Stage::CleanupFailure { error: MapError::RenderingFiled, aside: None }
        }),
        Stage::Publish => match ev {
            Event::Completed => !post.zip_staged && !post.dir_staged && !post.conf_staged
                && !post.rendered_present && post.published && post.stage == (Stage::Finished {
                result: Ok(()),
            }),
            Event::Faulted { reason } => same_flags(pre, post) && post.stage == (
            Stage::CleanupFailure { error: MapError::External { reason }, aside: None }),
            _ => post == pre,
        },
        Stage::CleanupFailure { error, aside } => cleared(post) && post.stage == (
        Stage::Finished { result: Err(error) }),
        Stage::Finished { .. } => post == pre,
    }
}

/// The four artifact flags take exactly these values; publication is
/// unchanged.
pub open spec fn flags_set(
    pre: Pipeline,
    post: Pipeline,
    zip: bool,
    dir: bool,
    conf: bool,
    rendered: bool,
) -> bool {
    &&& post.zip_staged == zip
    &&& post.dir_staged == dir
    &&& post.conf_staged == conf
    &&& post.rendered_present == rendered
    &&& post.published == pre.published
}

/// Draws the fresh random identifier that names one run's staged artifacts.
/// Relies on fastrand::u64 for the draw and on u64's decimal formatting;
/// nothing is assumed about the value drawn.
#[verifier::external_body]
fn fresh_render_id() -> (r: String) {
    fastrand::u64(..).to_string()
}

impl Pipeline {
    /// Begin a run for one render key: draw a fresh identifier, compose
    /// every staged path from the configured roots, and start at the
    /// destination probe with nothing staged.
    pub fn new(
        master: &MasterConfig,
        source: String,
        dest: String,
        template: String,
        dimension: Dimension,
    ) -> (r: Pipeline)
        ensures
            r.stage == Stage::ProbeDest,
            cleared(r),
            inv(r),
            r.source@ == source@,
            r.dest@ == dest@,
            r.template@ == template@,
            r.dimension == dimension,
            r.name@ == after_last_slash(dest@),
            r.maps_root@ == master.maps@,
            r.dir_path@ == master.maps@ + "/"@ + r.id@,
            r.zip_path@ == master.maps@ + "/"@ + r.id@ + ".zip"@,
            r.conf_dir@ == master.bluemap_config@ + "/maps"@,
            r.conf_path@ == master.bluemap_config@ + "/maps/"@ + r.id@ + ".conf"@,
            r.rendered_path@ == master.bluemap_web@ + "/maps/"@ + r.id@,
    {
        let id = fresh_render_id();
        let (_, name) = split_final(dest.as_str());
        let dir_path = master.maps.clone().concat("/").concat(id.as_str());
        let zip_path = dir_path.clone().concat(".zip");
        let conf_dir = master.bluemap_config.clone().concat("/maps");
        let conf_path = master.bluemap_config.clone().concat("/maps/").concat(
            id.as_str(),
        ).concat(".conf");
        let rendered_path = master.bluemap_web.clone().concat("/maps/").concat(id.as_str());
        Pipeline {
            stage: Stage::ProbeDest,
            source,
            dest,
            template,
            dimension,
            id,
            name,
            maps_root: master.maps.clone(),
            zip_path,
            dir_path,
            conf_dir,
            conf_path,
            rendered_path,
            zip_staged: false,
            dir_staged: false,
            conf_staged: false,
            rendered_present: false,
            published: false,
        }
    }

    /// The aside path a wrapper child is parked at while one nesting level
    /// is flattened: `<maps_root>/<child>_temp`.
    pub fn aside_path(&self, child: &str) -> (r: String)
        ensures
            r@ == self.maps_root@ + "/"@ + child@ + "_temp"@,
    {
        self.maps_root.clone().concat("/").concat(child).concat("_temp")
    }

    /// The run is over.
    pub fn is_finished(&self) -> (r: bool)
        ensures
            r == (self.stage matches Stage::Finished { .. }),
    {
        match self.stage {
            Stage::Finished { .. } => true,
            _ => false,
        }
    }

    /// Advance the machine by one reported outcome. The whole behaviour is
    /// [`transition`]; the staged-artifact accounting of [`inv`] is
    /// preserved by every step.
    pub fn step(self, ev: Event) -> (r: Pipeline)
        ensures
            transition(self, ev, r),
            inv(self) ==> inv(r),
    {
        let mut p = self;
        let mut stage = Stage::ProbeDest;
        core::mem::swap(&mut stage, &mut p.stage);
        match (stage, ev) {
            (Stage::ProbeDest, Event::Probed { exists }) => {
                p.stage = if exists {
                    Stage::Finished { result: Err(MapError::DestinationExist) }
                } else {
                    Stage::CopySource
                };
                p
            },
            (Stage::CopySource, Event::Completed) => {
                p.zip_staged = true;
                p.dir_staged = false;
                p.conf_staged = false;
                p.rendered_present = false;
                p.stage = Stage::RunUnzip;
                p
            },
            (Stage::CopySource, Event::Faulted { reason }) => {
                p.zip_staged = true;
                p.dir_staged = false;
                p.conf_staged = false;
                p.rendered_present = false;
                p.stage = Stage::CleanupFailure {
                    error: MapError::External { reason },
                    aside: None,
                };
                p
            },
            (Stage::RunUnzip, Event::Exited { success }) => {
                p.zip_staged = true;
                p.dir_staged = true;
                p.conf_staged = false;
                p.rendered_present = false;
                p.stage = Stage::DropZip { unzip_ok: success };
                p
            },
            (Stage::RunUnzip, Event::Faulted { reason }) => {
                p.zip_staged = true;
                p.dir_staged = true;
                p.conf_staged = false;
                p.rendered_present = false;
                p.stage = Stage::CleanupFailure {
                    error: MapError::External { reason },
                    aside: None,
                };
                p
            },
            (Stage::DropZip { unzip_ok }, _) => {
                p.zip_staged = false;
                p.conf_staged = false;
                p.rendered_present = false;
                p.stage = if unzip_ok {
                    Stage::ListChildren
                } else {
                    Stage::CleanupFailure { error: MapError::UnzipFailed, aside: None }
                };
                p
            },
            (Stage::ListChildren, Event::Listed { children }) => {
                let mut children = children;
                p.stage = if children.len() == 1 {
                    let child = children.remove(0);
                    Stage::NormalizeAside { child }
                } else {
                    Stage::ReadTemplate
                };
                p
            },
            (Stage::ListChildren, Event::Faulted { reason }) => {
                p.stage = Stage::CleanupFailure {
                    error: MapError::External { reason },
                    aside: None,
                };
                p
            },
            (Stage::NormalizeAside { child }, Event::Completed) => {
                p.stage = Stage::NormalizeSwap { child };
                p
            },
            (Stage::NormalizeAside { child }, Event::Faulted { reason }) => {
                p.stage = Stage::CleanupFailure {
                    error: MapError::External { reason },
                    aside: Some(child),
                };
                p
            },
            (Stage::NormalizeSwap { child }, Event::Completed) => {
                p.stage = Stage::NormalizeBack { child };
                p
            },
            (Stage::NormalizeSwap { child }, Event::Faulted { reason }) => {
                p.stage = Stage::CleanupFailure {
                    error: MapError::External { reason },
                    aside: Some(child),
                };
                p
            },
            (Stage::NormalizeBack { .. }, Event::Completed) => {
                p.stage = Stage::ReadTemplate;
                p
            },
            (Stage::NormalizeBack { child }, Event::Faulted { reason }) => {
                p.stage = Stage::CleanupFailure {
                    error: MapError::External { reason },
                    aside: Some(child),
                };
                p
            },
            (Stage::ReadTemplate, Event::TemplateText { text }) => {
                p.stage = match text {
                    Some(t) => {
                        let content = materialize_template(
                            t.as_str(),
                            p.dir_path.as_str(),
                            p.dimension,
                            p.name.as_str(),
                        );
                        Stage::WriteConfig { content }
                    },
                    None => Stage::CleanupFailure {
                        error: MapError::ConfigTemplateNotFound,
                        aside: None,
                    },
                };
                p
            },
            (Stage::WriteConfig { .. }, Event::Completed) => {
                p.zip_staged = false;
                p.dir_staged = true;
                p.conf_staged = true;
                p.rendered_present = false;
                p.stage = Stage::RunRenderer;
                p
            },
            (Stage::WriteConfig { .. }, Event::Faulted { reason }) => {
                p.zip_staged = false;
                p.dir_staged = true;
                p.conf_staged = true;
                p.rendered_present = false;
                p.stage = Stage::CleanupFailure {
                    error: MapError::External { reason },
                    aside: None,
                };
                p
            },
            (Stage::RunRenderer, Event::Exited { success }) => {
                p.zip_staged = false;
                p.dir_staged = true;
                p.conf_staged = true;
                p.rendered_present = true;
                p.stage = Stage::DropWork { render_ok: success };
                p
            },
            (Stage::RunRenderer, Event::Faulted { reason }) => {
                p.zip_staged = false;
                p.dir_staged = true;
                p.conf_staged = true;
                p.rendered_present = true;
                p.stage = Stage::CleanupFailure {
                    error: MapError::External { reason },
                    aside: None,
                };
                p
            },
            (Stage::DropWork { render_ok }, _) => {
                p.zip_staged = false;
                p.dir_staged = false;
                p.conf_staged = false;
                p.rendered_present = true;
                p.stage = if render_ok {
                    Stage::Publish
                } else {
                    Stage::CleanupFailure { error: MapError::RenderingFiled, aside: None }
                };
                p
            },
            (Stage::Publish, Event::Completed) => {
                p.zip_staged = false;
                p.dir_staged = false;
                p.conf_staged = false;
                p.rendered_present = false;
                p.published = true;
                p.stage = Stage::Finished { result: Ok(()) };
                p
            },
            (Stage::Publish, Event::Faulted { reason }) => {
                p.stage = Stage::CleanupFailure {
                    error: MapError::External { reason },
                    aside: None,
                };
                p
            },
            (Stage::CleanupFailure { error, aside: _ }, _) => {
                p.zip_staged = false;
                p.dir_staged = false;
                p.conf_staged = false;
                p.rendered_present = false;
                p.published = false;
                p.stage = Stage::Finished { result: Err(error) };
                p
            },
            (st, _) => {
                p.stage = st;
                p
            },
        }
    }
}

/// A destination that already exists is rejected before any work begins:
/// the run finishes with `DestinationExist` and no staged artifact was
/// created, so nothing under the destination is touched.
pub proof fn lemma_existing_destination_rejected(pre: Pipeline, ev: Event, post: Pipeline)
    requires
        inv(pre),
        pre.stage == Stage::ProbeDest,
        ev == (Event::Probed { exists: true }),
        transition(pre, ev, post),
    ensures
        post.stage == (Stage::Finished { result: Err::<(), MapError>(MapError::DestinationExist) }),
        cleared(post),
{
}

/// After any failed run, whichever stage failed, no staging zip, no
/// extraction directory, no per-run config and no renderer output remains,
/// and nothing was published.
pub proof fn lemma_failed_run_leaves_nothing(p: Pipeline)
    requires
        inv(p),
        match p.stage {
            Stage::Finished { result } => result is Err,
            _ => false,
        },
    ensures
        cleared(p),
{
}

/// After a successful run the destination is published from the renderer's
/// output and every staged artifact used to produce it is gone.
pub proof fn lemma_success_publishes(p: Pipeline)
    requires
        inv(p),
        match p.stage {
            Stage::Finished { result } => result is Ok,
            _ => false,
        },
    ensures
        p.published,
        !p.zip_staged,
        !p.dir_staged,
        !p.conf_staged,
        !p.rendered_present,
{
}

/// Layout normalization happens exactly for a single top-level child: one
/// child starts the flattening rename dance with that child, while zero or
/// several children skip straight to the template step with the extracted
/// tree untouched.
pub proof fn lemma_normalize_exactly_single_child(
    pre: Pipeline,
    children: Vec<String>,
    post: Pipeline,
)
    requires
        inv(pre),
        pre.stage == Stage::ListChildren,
        transition(pre, Event::Listed { children }, post),
    ensures
        same_flags(pre, post),
        children.len() == 1 ==> post.stage == (Stage::NormalizeAside { child: children[0] }),
        children.len() != 1 ==> post.stage == Stage::ReadTemplate,
{
}

/// Two sequential runs with the same key: the first finished successfully,
/// so its destination is published and exists on disk; a second run's
/// destination probe therefore reports `true`, and the second run finishes
/// with `DestinationExist` without staging anything.
pub proof fn lemma_rerun_after_success(done: Pipeline, fresh: Pipeline, post: Pipeline)
    requires
        inv(done),
        done.stage == (Stage::Finished { result: Ok::<(), MapError>(()) }),
        inv(fresh),
        fresh.stage == Stage::ProbeDest,
        fresh.dest@ == done.dest@,
        transition(fresh, Event::Probed { exists: true }, post),
    ensures
        done.published,
        post.stage == (Stage::Finished { result: Err::<(), MapError>(MapError::DestinationExist) }),
        cleared(post),
{
}

} // verus!
