//! One upscaling job: where its output goes, the exact command line
//! of the external tool, and the worker-side life cycle from launch to
//! the single terminal notice.

use vstd::prelude::*;
use crate::decimal::dec_str;
use crate::decimal::lemma_dec_str_injective;
use crate::decimal::u64_to_string;
use crate::error::Error;
use crate::flag::SharedFlag;
use crate::image::Image;
use crate::image::output_name_of;
use crate::notice::Notice;
use crate::notice::NoticeLevel;
use crate::options::UpscaleOptions;
use crate::options::ext_chars;
use crate::paths;

verus! {

/// The directory a job writes into: the explicit output folder when
/// one is set, else the image's own directory part.
pub open spec fn out_dir_of(image: Image, options: UpscaleOptions) -> Seq<char> {
    match options.output {
        Some(d) => d@,
        None => paths::dir_prefix_of(image.path@),
    }
}

/// The full output path of a job.
pub open spec fn spec_output_path(image: Image, options: UpscaleOptions) -> Seq<char>
    recommends
        options.model is Some,
{
    paths::join_path(
        out_dir_of(image, options),
        output_name_of(
            image.path@,
            options.model->Some_0.name@,
            options.scale as int,
            options.output_ext,
        ),
    )
}

/// Computes the output path of a job: deterministic in the image and
/// the options alone.
pub fn build_output_path(image: &Image, options: &UpscaleOptions) -> (r: String)
    requires
        options.model is Some,
        options.in_bounds(),
    ensures
        r@ == spec_output_path(*image, *options),
{
    match &options.output {
        Some(dir) => {
            let name = image.output_file_name(options);
            paths::join(dir.as_str(), name.as_str())
        },
        None => {
            proof {
                paths::lemma_dir_prefix_join(
                    image.path@,
                    output_name_of(
                        image.path@,
                        options.model->Some_0.name@,
                        options.scale as int,
                        options.output_ext,
                    ),
                );
            }
            image.create_output(options)
        },
    }
}

/// The exact argument list handed to the external tool, in its wire
/// order.
pub open spec fn args_match(
    args: Seq<String>,
    input: Seq<char>,
    out: Seq<char>,
    options: UpscaleOptions,
) -> bool
    recommends
        options.model is Some,
{
    &&& args.len() == 12
    &&& args[0]@ == "-i"@
    &&& args[1]@ == input
    &&& args[2]@ == "-o"@
    &&& args[3]@ == out
    &&& args[4]@ == "-m"@
    &&& args[5]@ == options.model->Some_0.folder@
    &&& args[6]@ == "-n"@
    &&& args[7]@ == options.model->Some_0.name@
    &&& args[8]@ == "-s"@
    &&& args[9]@ == dec_str(options.scale as nat)
    &&& args[10]@ == "-c"@
    &&& args[11]@ == dec_str(options.compression as nat)
}

/// Builds the tool's argument list for one job.
pub fn build_args(input: &str, out: &str, options: &UpscaleOptions) -> (args: Vec<String>)
    requires
        options.model is Some,
        options.in_bounds(),
    ensures
        args_match(args@, input@, out@, *options),
{
    let model_folder;
    let model_name;
    match &options.model {
        Some(m) => {
            model_folder = m.folder.clone();
            model_name = m.name.clone();
        },
        None => {
            model_folder = String::new();
            model_name = String::new();
        },
    }
    let mut args: Vec<String> = Vec::new();
    args.push("-i".to_owned());
    args.push(input.to_owned());
    args.push("-o".to_owned());
    args.push(out.to_owned());
    args.push("-m".to_owned());
    args.push(model_folder);
    args.push("-n".to_owned());
    args.push(model_name);
    args.push("-s".to_owned());
    args.push(u64_to_string(options.scale as u64));
    args.push("-c".to_owned());
    args.push(u64_to_string(options.compression as u64));
    args
}

/// How a finished attempt at running the tool came out: the spawn
/// failed, waiting for the process failed, or the process exited, with
/// success or not, after so many whole seconds.
#[derive(Debug, Clone)]
pub enum ExitReport {
    SpawnFailed(String),
    WaitFailed(String),
    Exited(bool, u64),
}

/// The text of the one terminal notice of a job.  A failure notice
/// carries the underlying OS error text when one is available.
pub open spec fn terminal_text(r: ExitReport) -> Seq<char> {
    match r {
        ExitReport::Exited(success, secs) => if success {
            "Successfully upscaled image in "@ + dec_str(secs as nat) + " seconds!"@
        } else {
            "Failed to upscale the image. \n\nReason: "@ + "Process returned as not successful."@
        },
        ExitReport::WaitFailed(detail) => "Failed to upscale the image. \n\nReason: "@
            + "Failed to wait for process: "@ + detail@,
        ExitReport::SpawnFailed(detail) => "Failed to upscale the image. \n\nReason: "@
            + "Failed to spawn child process: "@ + detail@,
    }
}

/// The level of the one terminal notice of a job.
pub open spec fn terminal_level(r: ExitReport) -> NoticeLevel {
    match r {
        ExitReport::Exited(success, _) => if success {
            NoticeLevel::Success
        } else {
            NoticeLevel::Error
        },
        _ => NoticeLevel::Error,
    }
}

/// Builds the one terminal notice for an exit report.
pub fn terminal_notice(r: &ExitReport) -> (n: Notice)
    ensures
        n.text@ == terminal_text(*r),
        n.level == terminal_level(*r),
{
    match r {
        ExitReport::Exited(success, secs) => {
            if *success {
                let mut t = "Successfully upscaled image in ".to_owned();
                let s = u64_to_string(*secs);
                t.append(s.as_str());
                t.append(" seconds!");
                Notice { text: t, level: NoticeLevel::Success }
            } else {
                let e = Error::FailedToUpscaleImage(
                    None,
                    "Process returned as not successful.".to_owned(),
                );
                Notice { text: e.message(), level: NoticeLevel::Error }
            }
        },
        ExitReport::WaitFailed(detail) => {
            let mut reason = "Failed to wait for process: ".to_owned();
            reason.append(detail.as_str());
            let e = Error::FailedToUpscaleImage(Some(detail.clone()), reason);
            Notice { text: e.message(), level: NoticeLevel::Error }
        },
        ExitReport::SpawnFailed(detail) => {
            let mut reason = "Failed to spawn child process: ".to_owned();
            reason.append(detail.as_str());
            let e = Error::FailedToUpscaleImage(Some(detail.clone()), reason);
            Notice { text: e.message(), level: NoticeLevel::Error }
        },
    }
}

/// Where a job's worker stands: running, done with a known outcome, or
/// retired after its cleanup.
#[derive(Debug, Clone, Copy, PartialEq, Eq, Structural)]
pub enum JobPhase {
    Running,
    Succeeded,
    Failed,
    Idle,
}

/// The phase a worker reaches for an exit report.
pub open spec fn phase_for(r: ExitReport) -> JobPhase {
    match r {
        ExitReport::Exited(success, _) => if success {
            JobPhase::Succeeded
        } else {
            JobPhase::Failed
        },
        _ => JobPhase::Failed,
    }
}

/// The worker's side of one job.  `report` may be called once, when
/// the attempt is over, and returns the job's only terminal notice;
/// `retire` then clears the shared flag, after the caller has shown
/// the notice and cleared its loading indicator.
pub struct WorkerHandle {
    pub phase: JobPhase,
    pub flag: SharedFlag,
}

impl WorkerHandle {
    pub(crate) fn new_running(flag: SharedFlag) -> (h: WorkerHandle)
        ensures
            h.phase == JobPhase::Running,
            h.flag == flag,
    {
        WorkerHandle { phase: JobPhase::Running, flag }
    }

    /// Closes the attempt: exactly one terminal notice per job, since
    /// the handle leaves `Running` for good.
    pub fn report(&mut self, outcome: &ExitReport) -> (n: Notice)
        requires
            old(self).phase == JobPhase::Running,
        ensures
            final(self).phase == phase_for(*outcome),
            final(self).phase == JobPhase::Succeeded || final(self).phase == JobPhase::Failed,
            n.text@ == terminal_text(*outcome),
            n.level == terminal_level(*outcome),
            final(self).phase == JobPhase::Succeeded <==> n.level == NoticeLevel::Success,
    {
        let n = terminal_notice(outcome);
        match outcome {
            ExitReport::Exited(success, _) => {
                if *success {
                    self.phase = JobPhase::Succeeded;
                } else {
                    self.phase = JobPhase::Failed;
                }
            },
            _ => {
                self.phase = JobPhase::Failed;
            },
        }
        n
    }

    /// The last act of a worker: clears the shared flag, so the
    /// supervisor's next poll reads false only after the terminal
    /// notice was issued.
    pub fn retire(&mut self)
        requires
            old(self).phase == JobPhase::Succeeded || old(self).phase == JobPhase::Failed,
        ensures
            final(self).phase == JobPhase::Idle,
    {
        self.flag.set(false);
        self.phase = JobPhase::Idle;
    }
}

/// Everything a worker needs to run one job: the tool, its argument
/// list, the first loading status, and the handle for closing the job
/// out.
pub struct JobPlan {
    pub tool: String,
    pub args: Vec<String>,
    pub initial_status: String,
    pub handle: WorkerHandle,
}

/// What a job plan owes the snapshot it was made from.
pub open spec fn plan_matches(
    plan: JobPlan,
    image: Image,
    options: UpscaleOptions,
    tool: Seq<char>,
) -> bool
    recommends
        options.model is Some,
{
    &&& plan.handle.phase == JobPhase::Running
    &&& plan.tool@ == tool
    &&& plan.initial_status@ == "Initializing command..."@
    &&& args_match(plan.args@, image.path@, spec_output_path(image, options), options)
}

/// How starting a job came out: skipped with one informational
/// notice, or armed and handed to a worker.
pub enum StartOutcome {
    Skipped(Notice),
    Started(JobPlan),
}

/// The text of the notice issued when the output already exists.
pub open spec fn skip_text(out: Seq<char>) -> Seq<char> {
    "The output file '"@ + out + "' already exists! Skipping upscale."@
}

/// Builds the informational notice for an output that already exists.
pub fn skip_notice(out: &str) -> (n: Notice)
    ensures
        n.text@ == skip_text(out@),
        n.level == NoticeLevel::Info,
{
    let mut t = "The output file '".to_owned();
    t.append(out);
    t.append("' already exists! Skipping upscale.");
    Notice { text: t, level: NoticeLevel::Info }
}

proof fn lemma_concat_middle_unique(p: Seq<char>, m1: Seq<char>, m2: Seq<char>, s: Seq<char>)
    requires
        p + m1 + s == p + m2 + s,
    ensures
        m1 == m2,
{
    assert((p + m1 + s).len() == p.len() + m1.len() + s.len());
    assert((p + m2 + s).len() == p.len() + m2.len() + s.len());
    assert(m1.len() == m2.len());
    assert forall|i: int| 0 <= i < m1.len() implies m1[i] == m2[i] by {
        assert((p + m1 + s)[p.len() + i] == m1[i]);
        assert((p + m2 + s)[p.len() + i] == m2[i]);
    }
    assert(m1 =~= m2);
}

/// Two jobs over the same image whose options differ only in the scale
/// factor write different output paths.
pub proof fn lemma_output_path_varies_with_scale(
    image: Image,
    o1: UpscaleOptions,
    o2: UpscaleOptions,
)
    requires
        o1.model is Some,
        o2.model is Some,
        o1.in_bounds(),
        o2.in_bounds(),
        o2.model == o1.model,
        o2.output == o1.output,
        o2.output_ext == o1.output_ext,
        o1.scale != o2.scale,
    ensures
        spec_output_path(image, o1) != spec_output_path(image, o2),
{
    let dir = out_dir_of(image, o1);
    let stem = paths::file_stem_of(paths::file_name_of(image.path@));
    let name = o1.model->Some_0.name@;
    let pre = paths::join_prefix(dir) + stem + "_"@ + name + "_x"@;
    let suf = "."@ + ext_chars(o1.output_ext);
    paths::lemma_join_as_concat(
        dir,
        output_name_of(image.path@, name, o1.scale as int, o1.output_ext),
    );
    paths::lemma_join_as_concat(
        dir,
        output_name_of(image.path@, name, o2.scale as int, o2.output_ext),
    );
    assert(spec_output_path(image, o1) =~= pre + dec_str(o1.scale as nat) + suf);
    assert(spec_output_path(image, o2) =~= pre + dec_str(o2.scale as nat) + suf);
    if spec_output_path(image, o1) == spec_output_path(image, o2) {
        lemma_concat_middle_unique(pre, dec_str(o1.scale as nat), dec_str(o2.scale as nat), suf);
        lemma_dec_str_injective(o1.scale as nat, o2.scale as nat);
    }
}

/// Two jobs over the same image whose options differ only in the
/// chosen model's name write different output paths.
pub proof fn lemma_output_path_varies_with_model(
    image: Image,
    o1: UpscaleOptions,
    o2: UpscaleOptions,
)
    requires
        o1.model is Some,
        o2.model is Some,
        o1.in_bounds(),
        o2.in_bounds(),
        o2.scale == o1.scale,
        o2.output == o1.output,
        o2.output_ext == o1.output_ext,
        o1.model->Some_0.name@ != o2.model->Some_0.name@,
    ensures
        spec_output_path(image, o1) != spec_output_path(image, o2),
{
    let dir = out_dir_of(image, o1);
    let stem = paths::file_stem_of(paths::file_name_of(image.path@));
    let n1 = o1.model->Some_0.name@;
    let n2 = o2.model->Some_0.name@;
    let pre = paths::join_prefix(dir) + stem + "_"@;
    let suf = "_x"@ + dec_str(o1.scale as nat) + "."@ + ext_chars(o1.output_ext);
    paths::lemma_join_as_concat(dir, output_name_of(image.path@, n1, o1.scale as int, o1.output_ext));
    paths::lemma_join_as_concat(dir, output_name_of(image.path@, n2, o2.scale as int, o2.output_ext));
    assert(spec_output_path(image, o1) =~= pre + n1 + suf);
    assert(spec_output_path(image, o2) =~= pre + n2 + suf);
    if spec_output_path(image, o1) == spec_output_path(image, o2) {
        lemma_concat_middle_unique(pre, n1, n2, suf);
    }
}

} // verus!
