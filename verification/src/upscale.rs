//! The job supervisor.
//!
//! It owns the job options, the discovered models and the shared
//! "a job is running" flag; it starts at most one job at a time and
//! hands the blocking work to its caller as a [`crate::job::JobPlan`].

use vstd::prelude::*;
use crate::catalog;
use crate::catalog::ScanEntry;
use crate::error::Error;
use crate::flag::SharedFlag;
use crate::image::Image;
use crate::job;
use crate::job::JobPlan;
use crate::job::StartOutcome;
use crate::job::spec_output_path;
use crate::notice::NoticeLevel;
use crate::options::Model;
use crate::options::UpscaleOptions;
use crate::paths;

verus! {

/// Relies on `which::which`: the first executable of that name on the
/// search path, or the error's text when there is none.
#[verifier::external_body]
fn which_tool(name: &str) -> Result<String, String> {
    match which::which(name) {
        Ok(path) => Ok(path.to_string_lossy().to_string()),
        Err(err) => Err(err.to_string()),
    }
}

/// Relies on `dirs::config_local_dir`: the platform's local
/// configuration directory.  Aborts when the platform defines none;
/// the supervisor treats that as fatal.
#[verifier::external_body]
fn config_local_dir_string() -> String {
    dirs::config_local_dir().unwrap().to_string_lossy().to_string()
}

/// A catalog section grouped by origin: the models of `[from, k)`
/// all carry one directory, and those of `[k, models.len())` carry
/// the bundled directory `bundled`.
pub open spec fn folders_grouped(models: Seq<Model>, from: int, k: int, bundled: Seq<char>) -> bool {
    &&& (forall|j1: int, j2: int|
        from <= j1 < k && from <= j2 < k ==> (#[trigger] models[j1]).folder@ == (
        #[trigger] models[j2]).folder@)
    &&& (forall|j: int| k <= j < models.len() ==> (#[trigger] models[j]).folder@ == bundled)
}

/// The upscaling job supervisor.
pub struct Upscale {
    pub options: UpscaleOptions,
    pub upscaling: bool,
    pub models: Vec<Model>,
    pub models_folder: String,
    pub cli_path: String,
    pub upscaling_arc: SharedFlag,
}

impl Upscale {
    /// The path of the external tool.
    pub open spec fn tool_path(&self) -> Seq<char> {
        self.cli_path@
    }

    /// The bundled models directory.
    pub open spec fn models_dir(&self) -> Seq<char> {
        self.models_folder@
    }

    /// A supervisor over a known tool and models directory: default
    /// options, no job running, nothing discovered yet.
    pub fn with_tool(cli_path: String, models_folder: String) -> (u: Upscale)
        ensures
            u.options.is_default(),
            u.upscaling == false,
            u.models@.len() == 0,
            u.tool_path() == cli_path@,
            u.models_dir() == models_folder@,
    {
        Upscale {
            options: UpscaleOptions::default(),
            upscaling: false,
            models: Vec::new(),
            models_folder,
            cli_path,
            upscaling_arc: SharedFlag::new(false),
        }
    }

    /// Looks the external tool up on the search path and checks that
    /// the bundled models directory exists.
    pub fn new() -> (r: Result<Upscale, Error>)
        ensures
            match r {
                Ok(u) => u.options.is_default() && u.upscaling == false && u.models@.len() == 0
                    && u.models_dir() == "/usr/lib/upscayl/models"@,
                Err(e) => (e matches Error::UpscaylNotInPath(d) && d is Some) || (e matches
                    Error::ModelsFolderNotFound(d, p) && d is Some && p@
                    == "/usr/lib/upscayl/models"@),
            },
    {
        match which_tool("upscayl-bin") {
            Ok(path) => {
                let models_folder = "/usr/lib/upscayl/models".to_owned();
                if paths::path_exists(models_folder.as_str()) {
                    Ok(Upscale::with_tool(path, models_folder))
                } else {
                    Err(
                        Error::ModelsFolderNotFound(
                            Some("Folder doesn't exist".to_owned()),
                            models_folder,
                        ),
                    )
                }
            },
            Err(err) => Err(Error::UpscaylNotInPath(Some(err))),
        }
    }

    /// Scans one directory for weight/descriptor pairs and appends
    /// what it finds to the catalog.  Every appended model is
    /// well-formed and carries the scanned folder.
    fn get_models(&mut self, folder_path: &str)
        ensures
            final(self).options == old(self).options,
            final(self).upscaling == old(self).upscaling,
            final(self).tool_path() == old(self).tool_path(),
            final(self).models_dir() == old(self).models_dir(),
            final(self).upscaling_arc == old(self).upscaling_arc,
            old(self).models@.len() <= final(self).models@.len(),
            forall|j: int|
                0 <= j < old(self).models@.len() ==> final(self).models@[j] == old(self).models@[j],
            forall|j: int|
                old(self).models@.len() <= j < final(self).models@.len()
                    ==> (#[trigger] final(self).models@[j]).wf()
                    && final(self).models@[j].folder@ == folder_path@,
    {
        let pattern = paths::join(folder_path, "*.bin");
        let bins = catalog::glob_paths(pattern.as_str());
        let mut entries: Vec<ScanEntry> = Vec::new();
        let mut i: usize = 0;
        while i < bins.len()
            invariant
                i <= bins@.len(),
                entries@.len() == i,
                forall|j: int| 0 <= j < i ==> (#[trigger] entries@[j]).path@ == bins@[j]@,
            decreases bins@.len() - i,
        {
            let bin = &bins[i];
            let name = paths::file_name(bin.as_str());
            let mut param_name = paths::file_stem(name.as_str());
            param_name.append(".param");
            let mut param_path = paths::dir_prefix(bin.as_str());
            param_path.append(param_name.as_str());
            let has_param = paths::path_exists(param_path.as_str());
            entries.push(ScanEntry { path: bin.clone(), has_param });
            i = i + 1;
        }
        let mut found = catalog::models_from_entries(folder_path, &entries);
        proof {
            catalog::lemma_catalog_counts(folder_path@, entries@, found@);
        }
        self.models.append(&mut found);
    }

    /// Fills the catalog: the user-defined directory first when it is
    /// enabled, then the bundled one, concatenated and never
    /// deduplicated.  A missing user-defined directory fails with
    /// `ModelsFolderNotFound` before anything is scanned; an empty
    /// result fails with `NoModels`.
    pub fn init(&mut self, enabled: bool) -> (r: Result<(), Error>)
        ensures
            final(self).options == old(self).options,
            final(self).upscaling == old(self).upscaling,
            final(self).upscaling_arc == old(self).upscaling_arc,
            final(self).tool_path() == old(self).tool_path(),
            final(self).models_dir() == old(self).models_dir(),
            old(self).models@.len() <= final(self).models@.len(),
            forall|j: int|
                0 <= j < old(self).models@.len() ==> final(self).models@[j] == old(self).models@[j],
            forall|j: int|
                old(self).models@.len() <= j < final(self).models@.len()
                    ==> (#[trigger] final(self).models@[j]).wf(),
            !enabled ==> forall|j: int|
                old(self).models@.len() <= j < final(self).models@.len()
                    ==> (#[trigger] final(self).models@[j]).folder@ == old(self).models_dir(),
            enabled && r is Ok ==> exists|k: int|
                old(self).models@.len() <= k <= final(self).models@.len()
                    && #[trigger] folders_grouped(
                    final(self).models@,
                    old(self).models@.len() as int,
                    k,
                    old(self).models_dir(),
                ),
            r is Ok ==> final(self).models@.len() > 0,
            r matches Err(e) ==> ((e matches Error::ModelsFolderNotFound(d, _) && d is Some)
                || (e matches Error::NoModels(d, p) && d is Some && p@ == old(self).models_dir())),
            r matches Err(Error::ModelsFolderNotFound(_, _)) ==> enabled && final(self).models
                == old(self).models,
            r matches Err(Error::NoModels(_, _)) ==> final(self).models@.len() == 0,
    {
        let mut split: usize = self.models.len();
        if enabled {
            let base = config_local_dir_string();
            let with_cloudy = paths::join(base.as_str(), "cloudy");
            let with_app = paths::join(with_cloudy.as_str(), "aeternum");
            let path = paths::join(with_app.as_str(), "models");
            if paths::path_exists(path.as_str()) {
                self.get_models(path.as_str());
                split = self.models.len();
            } else {
                return Err(
                    Error::ModelsFolderNotFound(
                        Some("Custom folder doesn't exist.".to_owned()),
                        path,
                    ),
                );
            }
        }
        let folder = self.models_folder.clone();
        self.get_models(folder.as_str());
        if self.models.len() == 0 {
            return Err(
                Error::NoModels(Some("Vector is empty.".to_owned()), self.models_folder.clone()),
            );
        }
        proof {
            if enabled {
                let from = old(self).models@.len() as int;
                assert forall|j1: int, j2: int|
                    from <= j1 < split && from <= j2 < split implies (#[trigger] self.models@[j1]).folder@
                    == (#[trigger] self.models@[j2]).folder@ by {}
                assert(folders_grouped(self.models@, from, split as int, self.models_dir()));
            }
        }
        Ok(())
    }

    /// Adopts one non-blocking read of the shared flag: the observable
    /// field takes the read value, or keeps its last-observed value
    /// when the read found the lock contended.
    pub fn apply_poll(&mut self, read: Option<bool>)
        ensures
            final(self).upscaling == (match read {
                Some(v) => v,
                None => old(self).upscaling,
            }),
            final(self).options == old(self).options,
            final(self).models == old(self).models,
            final(self).upscaling_arc == old(self).upscaling_arc,
            final(self).tool_path() == old(self).tool_path(),
            final(self).models_dir() == old(self).models_dir(),
    {
        if let Some(value) = read {
            self.upscaling = value;
        }
    }

    /// The per-frame poll: refreshes the observable `upscaling` field
    /// from the shared flag, without ever blocking.  What the read
    /// returns comes from another thread; what is done with it is
    /// `apply_poll`'s contract.
    pub fn update(&mut self)
        ensures
            final(self).options == old(self).options,
            final(self).models == old(self).models,
            final(self).upscaling_arc == old(self).upscaling_arc,
            final(self).tool_path() == old(self).tool_path(),
            final(self).models_dir() == old(self).models_dir(),
    {
        let read = self.upscaling_arc.try_read();
        self.apply_poll(read);
    }

    /// Puts every job option back to its default value.  Meant for the
    /// moment the user discards the current image, which only happens
    /// while no job runs.
    pub fn reset_options(&mut self)
        requires
            !old(self).upscaling,
        ensures
            final(self).options.is_default(),
            final(self).upscaling == old(self).upscaling,
            final(self).models == old(self).models,
            final(self).upscaling_arc == old(self).upscaling_arc,
            final(self).tool_path() == old(self).tool_path(),
            final(self).models_dir() == old(self).models_dir(),
    {
        self.options = UpscaleOptions::default();
    }

    /// Re-arms the job state: the observable flag reads false and the
    /// shared cell is replaced outright, so nothing of a previous
    /// job's worker can be observed.
    pub fn upscaling_reset(&mut self)
        ensures
            final(self).upscaling == false,
            final(self).options == old(self).options,
            final(self).models == old(self).models,
            final(self).tool_path() == old(self).tool_path(),
            final(self).models_dir() == old(self).models_dir(),
    {
        self.upscaling = false;
        self.upscaling_arc = SharedFlag::new(false);
    }

    /// Starts a job for `image` unless its output path is already
    /// taken.  `out` is the computed output path and `output_exists`
    /// whether something on disk already answers to it: when it does,
    /// the supervisor stays idle and returns exactly one informational
    /// notice; when it does not, the shared flag is set before this
    /// returns and the returned plan snapshots the options as they
    /// were at this call.
    pub fn start_job(&mut self, image: &Image, out: String, output_exists: bool) -> (r:
        StartOutcome)
        requires
            old(self).options.model is Some,
            old(self).options.in_bounds(),
            !old(self).upscaling,
            out@ == spec_output_path(*image, old(self).options),
        ensures
            final(self).options == old(self).options,
            final(self).models == old(self).models,
            final(self).tool_path() == old(self).tool_path(),
            final(self).models_dir() == old(self).models_dir(),
            output_exists ==> (r matches StartOutcome::Skipped(n) && n.level == NoticeLevel::Info
                && n.text@ == job::skip_text(spec_output_path(*image, old(self).options))
                && final(self).upscaling == false),
            !output_exists ==> (r matches StartOutcome::Started(plan) && job::plan_matches(
                plan,
                *image,
                old(self).options,
                old(self).tool_path(),
            ) && final(self).upscaling == true),
    {
        self.upscaling_reset();
        if output_exists {
            StartOutcome::Skipped(job::skip_notice(out.as_str()))
        } else {
            let args = job::build_args(image.path.as_str(), out.as_str(), &self.options);
            self.upscaling_arc.set(true);
            self.upscaling = true;
            let handle = job::WorkerHandle::new_running(self.upscaling_arc.clone_handle());
            StartOutcome::Started(
                JobPlan {
                    tool: self.cli_path.clone(),
                    args,
                    initial_status: "Initializing command...".to_owned(),
                    handle,
                },
            )
        }
    }

    /// Starts a job for `image`: computes the output path, checks the
    /// disk for it, and arms the supervisor unless it is taken.
    pub fn upscale(&mut self, image: Image) -> (r: StartOutcome)
        requires
            old(self).options.model is Some,
            old(self).options.in_bounds(),
            !old(self).upscaling,
        ensures
            final(self).options == old(self).options,
            final(self).models == old(self).models,
            final(self).tool_path() == old(self).tool_path(),
            final(self).models_dir() == old(self).models_dir(),
            r matches StartOutcome::Skipped(n) ==> n.level == NoticeLevel::Info
                && n.text@ == job::skip_text(spec_output_path(image, old(self).options))
                && final(self).upscaling == false,
            r matches StartOutcome::Started(plan) ==> job::plan_matches(
                plan,
                image,
                old(self).options,
                old(self).tool_path(),
            ) && final(self).upscaling == true,
    {
        let out = job::build_output_path(&image, &self.options);
        let output_exists = paths::path_exists(out.as_str());
        self.start_job(&image, out, output_exists)
    }
}

} // verus!
