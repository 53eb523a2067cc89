use vstd::prelude::*;
use vstd::string::*;

use crate::clapper::Inputs;
use crate::ffmpeg::{
    add_text,
    caption_job,
    concat_strict_job,
    scale,
    scale_job,
    stitch_files_concat_demuxer,
    FfmpegError,
    JobView,
    TranscodeJob,
};
use crate::media::{captioned_path, is_separator, lemma_addition_len, scaled_path, MediaFile};
use crate::tenor::TenorError;
use crate::text::{current_time_text, opt_view, query_caption, query_text, time_sentence, Moment};
use crate::upload::{hosted_link, trim_trailing_dots};
use crate::TimeForError;

verus! {

/// The search term of the clock clip, which every run makes.
pub const REFERENCE_TERM: &'static str = "look at time";

/// How many of the leading results the clock clip is picked from.
pub const REFERENCE_CONSIDERED: u8 = 16;

/// Where a run stands. Each stage but the last two waits for one event.
pub enum Stage {
    Idle,
    Probing,
    Preparing,
    Searching,
    Downloading,
    Scaling,
    Captioning,
    Stitching,
    Uploading,
    Presenting,
    Done,
    Failed(TimeForError),
}

/// How one run of the video tool ended.
pub enum JobOutcome {
    SpawnFailed(FfmpegError),
    Exited { success: bool, code: Option<i32> },
}

/// What the outside world reports back after an action.
pub enum Event {
    Start,
    /// Whether the video tool can be run at all.
    ToolChecked(bool),
    WorkDirReady(Result<(), String>),
    /// The address picked for each search, in the order of the searches.
    Resolved(Vec<Result<String, TenorError>>),
    /// All downloads are done, or the first one that failed.
    Downloaded(Result<(), String>),
    /// How each job ended, in the order of the jobs.
    Transcoded(Vec<JobOutcome>),
    Renamed(Result<(), String>),
    /// The share link that the upload answered with, if there was one.
    Uploaded(Option<String>),
    Presented,
}

pub struct SearchQuery {
    pub term: String,
    pub considered: u8,
}

pub struct Fetch {
    pub url: String,
    pub path: String,
}

/// What the user gets at the end: the link, or the file where there is
/// none.
pub struct Presentation {
    pub link: Option<String>,
    pub path: String,
    pub explorer: bool,
    pub open: bool,
}

/// Work for the outside world; the operations of one action run
/// concurrently, and all of them end before the next event.
pub enum Action {
    ProbeTool,
    CreateWorkDir(String),
    Search(Vec<SearchQuery>),
    Download(Vec<Fetch>),
    Transcode(Vec<TranscodeJob>),
    Rename { from: String, to: String },
    Upload(String),
    Present(Presentation),
}

/// One run: the clock clip, and the searched clip when there is a query,
/// scaled, captioned, stitched, uploaded and shown.
pub struct Pipeline {
    pub query: Option<String>,
    pub custom_text: Option<String>,
    pub considered_gifs: u8,
    pub delay: u32,
    pub explorer: bool,
    pub open: bool,
    pub work_dir: String,
    pub reference_file: MediaFile,
    pub query_file: MediaFile,
    pub final_output: String,
    pub manifest: String,
    pub stage: Stage,
}

/// `name` inside the directory `dir`.
pub open spec fn join(dir: Seq<char>, name: Seq<char>) -> Seq<char> {
    if dir.len() == 0 {
        name
    } else if is_separator(dir.last()) {
        dir + name
    } else {
        dir + "/"@ + name
    }
}

pub open spec fn job_views(v: Seq<TranscodeJob>) -> Seq<JobView> {
    v.map_values(|j: TranscodeJob| j@)
}

/// The error that a job's ending stands for, if it failed.
pub open spec fn outcome_failure(o: JobOutcome) -> Option<TimeForError> {
    match o {
        JobOutcome::SpawnFailed(e) => Some(TimeForError::FfmpegError { source: e }),
        JobOutcome::Exited { success, code } => if success {
            None
        } else {
            Some(TimeForError::ScalingError { exit_code: code })
        },
    }
}

pub open spec fn first_failure(os: Seq<JobOutcome>) -> Option<TimeForError>
    decreases os.len(),
{
    if os.len() == 0 {
        None
    } else {
        match outcome_failure(os[0]) {
            Some(e) => Some(e),
            None => first_failure(os.drop_first()),
        }
    }
}

pub open spec fn first_search_error(rs: Seq<Result<String, TenorError>>) -> Option<TenorError>
    decreases rs.len(),
{
    if rs.len() == 0 {
        None
    } else {
        match rs[0] {
            Err(e) => Some(e),
            Ok(_) => first_search_error(rs.drop_first()),
        }
    }
}

impl Pipeline {
    /// The clips of the run: the clock clip, then the searched one.
    pub open spec fn asset_count(self) -> nat {
        if self.query is Some {
            2
        } else {
            1
        }
    }

    pub open spec fn asset(self, i: int) -> Seq<char> {
        if i == 0 {
            self.reference_file@
        } else {
            self.query_file@
        }
    }

    pub open spec fn with_stage(self, s: Stage) -> Pipeline {
        Pipeline { stage: s, ..self }
    }
}

pub open spec fn searches(p: Pipeline, qs: Seq<SearchQuery>) -> bool {
    &&& qs.len() == p.asset_count()
    &&& qs[0].term@ == REFERENCE_TERM@
    &&& qs[0].considered == REFERENCE_CONSIDERED
    &&& (p.query matches Some(q) ==> qs[1].term@ == q@ && qs[1].considered == p.considered_gifs)
}

pub open spec fn fetches(p: Pipeline, rs: Seq<Result<String, TenorError>>, fs: Seq<Fetch>) -> bool {
    &&& fs.len() == p.asset_count()
    &&& forall|i: int|
        0 <= i < fs.len() ==> (#[trigger] rs[i] matches Ok(url) && fs[i].url@ == url@ && fs[i].path@
            == p.asset(i))
}

pub open spec fn scale_jobs(p: Pipeline, jobs: Seq<JobView>) -> bool {
    &&& jobs.len() == p.asset_count()
    &&& forall|i: int|
        0 <= i < jobs.len() ==> #[trigger] jobs[i] == scale_job(
            p.asset(i),
            None,
            scaled_path(p.asset(i)),
        )
}

pub open spec fn caption_jobs(p: Pipeline, jobs: Seq<JobView>, clock: Seq<char>) -> bool {
    &&& jobs.len() == p.asset_count()
    &&& jobs[0] == caption_job(
        scaled_path(p.reference_file@),
        clock,
        captioned_path(p.reference_file@),
    )
    &&& (p.query matches Some(q) ==> jobs[1] == caption_job(
        scaled_path(p.query_file@),
        query_caption(q@, opt_view(p.custom_text)),
        captioned_path(p.query_file@),
    ))
}

/// With a query the two captioned clips are stitched, clock clip first;
/// without one the captioned clock clip becomes the output.
pub open spec fn stitch_action(p: Pipeline, a: Action) -> bool {
    match p.query {
        Some(_) => a matches Action::Transcode(jobs) && job_views(jobs@) == seq![
            concat_strict_job(
                captioned_path(p.reference_file@),
                captioned_path(p.query_file@),
                p.manifest@,
                p.final_output@,
            ),
        ],
        None => a matches Action::Rename { from, to } && from@ == captioned_path(p.reference_file@)
            && to@ == p.final_output@,
    }
}

pub open spec fn uploads(p: Pipeline, a: Option<Action>) -> bool {
    a matches Some(Action::Upload(path)) && path@ == p.final_output@
}

pub open spec fn presents(p: Pipeline, link: Option<String>, a: Option<Action>) -> bool {
    &&& a matches Some(Action::Present(pr))
    &&& pr.path@ == p.final_output@
    &&& pr.explorer == p.explorer
    &&& pr.open == p.open
    &&& match link {
        Some(l) => pr.link matches Some(x) && x@ == trim_trailing_dots(l@),
        None => pr.link is None,
    }
}

/// `post` and `a` are the next state and the action of `pre` on `e`. An
/// event that the stage does not wait for changes nothing.
pub open spec fn transition(pre: Pipeline, e: Event, post: Pipeline, a: Option<Action>) -> bool {
    let unchanged = post == pre && a is None;
    let fail = |err: TimeForError| post == pre.with_stage(Stage::Failed(err)) && a is None;
    match pre.stage {
        Stage::Idle => match e {
            Event::Start => post == pre.with_stage(Stage::Probing) && a == Some(Action::ProbeTool),
            _ => unchanged,
        },
        Stage::Probing => match e {
            Event::ToolChecked(found) => if found {
                post == pre.with_stage(Stage::Preparing) && (a matches Some(Action::CreateWorkDir(d))
                    && d@ == pre.work_dir@)
            } else {
                fail(TimeForError::FfmpegNotFound)
            },
            _ => unchanged,
        },
        Stage::Preparing => match e {
            Event::WorkDirReady(r) => match r {
                Ok(_) => post == pre.with_stage(Stage::Searching) && (a matches Some(Action::Search(qs))
                    && searches(pre, qs@)),
                Err(message) => fail(TimeForError::CreateWorkingDirectory { message }),
            },
            _ => unchanged,
        },
        Stage::Searching => match e {
            Event::Resolved(rs) => if rs@.len() != pre.asset_count() {
                unchanged
            } else {
                match first_search_error(rs@) {
                    Some(err) => fail(TimeForError::GetRandGif { source: err }),
                    None => post == pre.with_stage(Stage::Downloading) && (a matches Some(
                        Action::Download(fs),
                    ) && fetches(pre, rs@, fs@)),
                }
            },
            _ => unchanged,
        },
        Stage::Downloading => match e {
            Event::Downloaded(r) => match r {
                Ok(_) => post == pre.with_stage(Stage::Scaling) && (a matches Some(Action::Transcode(jobs))
                    && scale_jobs(pre, job_views(jobs@))),
                Err(message) => fail(TimeForError::Download { message }),
            },
            _ => unchanged,
        },
        Stage::Scaling => match e {
            Event::Transcoded(os) => if os@.len() != pre.asset_count() {
                unchanged
            } else {
                match first_failure(os@) {
                    Some(err) => fail(err),
                    None => post == pre.with_stage(Stage::Captioning) && (a matches Some(
                        Action::Transcode(jobs),
                    ) && exists|m: Moment|
                        m.wf() && caption_jobs(pre, job_views(jobs@), time_sentence(m))),
                }
            },
            _ => unchanged,
        },
        Stage::Captioning => match e {
            Event::Transcoded(os) => if os@.len() != pre.asset_count() {
                unchanged
            } else {
                match first_failure(os@) {
                    Some(err) => fail(err),
                    None => post == pre.with_stage(Stage::Stitching) && (a matches Some(act)
                        && stitch_action(pre, act)),
                }
            },
            _ => unchanged,
        },
        Stage::Stitching => match e {
            Event::Transcoded(os) => if pre.query is None || os@.len() != 1 {
                unchanged
            } else {
                match first_failure(os@) {
                    Some(err) => fail(err),
                    None => post == pre.with_stage(Stage::Uploading) && uploads(pre, a),
                }
            },
            Event::Renamed(r) => if pre.query is Some {
                unchanged
            } else {
                match r {
                    Ok(_) => post == pre.with_stage(Stage::Uploading) && uploads(pre, a),
                    Err(message) => fail(TimeForError::Io { message }),
                }
            },
            _ => unchanged,
        },
        Stage::Uploading => match e {
            Event::Uploaded(link) => post == pre.with_stage(Stage::Presenting) && presents(pre, link, a),
            _ => unchanged,
        },
        Stage::Presenting => match e {
            Event::Presented => post == pre.with_stage(Stage::Done) && a is None,
            _ => unchanged,
        },
        _ => unchanged,
    }
}

/// The files of a run whose work directory is `dir`.
pub open spec fn laid_out(p: Pipeline, dir: Seq<char>) -> bool {
    &&& p.work_dir@ == dir
    &&& p.reference_file@ == join(dir, "look_at_time.webm"@)
    &&& p.query_file@ == join(dir, "query.webm"@)
    &&& p.final_output@ == join(dir, "full.webm"@)
    &&& p.manifest@ == join(dir, "concat_list.txt"@)
}

/// The files that a run makes before the stitch: each clip, scaled, then
/// captioned.
pub open spec fn intermediates(p: Pipeline) -> Set<Seq<char>> {
    Set::new(
        |f: Seq<char>|
            exists|i: int|
                0 <= i < p.asset_count() && (f == p.asset(i) || f == scaled_path(p.asset(i)) || f
                    == captioned_path(p.asset(i))),
    )
}

proof fn lemma_join_len(dir: Seq<char>, name: Seq<char>)
    ensures
        join(dir, name).len() == join(dir, ""@).len() + name.len(),
{
    reveal_strlit("");
}

/// Stitching writes one file, the run's output, and that file is none of the
/// clips, scaled clips or captioned clips made before it: the stitch neither
/// overwrites nor removes any of them.
pub proof fn lemma_stitch_writes_only_output(
    dir: Seq<char>,
    pre: Pipeline,
    e: Event,
    post: Pipeline,
    a: Option<Action>,
)
    requires
        laid_out(pre, dir),
        pre.query is Some,
        pre.stage is Captioning,
        transition(pre, e, post, a),
        post.stage is Stitching,
    ensures
        a matches Some(Action::Transcode(jobs)) && jobs@.len() == 1 && jobs@[0]@.output == join(
            dir,
            "full.webm"@,
        ) && jobs@[0]@.inputs == seq![captioned_path(pre.asset(0)), captioned_path(pre.asset(1))]
            && !intermediates(pre).contains(jobs@[0]@.output),
{
    reveal_strlit("full.webm");
    reveal_strlit("look_at_time.webm");
    reveal_strlit("query.webm");
    reveal_strlit("_text");
    reveal_strlit("_scaled");
    let out = join(dir, "full.webm"@);
    let reference = join(dir, "look_at_time.webm"@);
    let searched = join(dir, "query.webm"@);
    lemma_join_len(dir, "full.webm"@);
    lemma_join_len(dir, "look_at_time.webm"@);
    lemma_join_len(dir, "query.webm"@);
    lemma_addition_len(reference, "_text"@);
    lemma_addition_len(reference, "_scaled"@);
    lemma_addition_len(searched, "_text"@);
    lemma_addition_len(searched, "_scaled"@);
    assert(!intermediates(pre).contains(out)) by {
        if intermediates(pre).contains(out) {
            let i = choose|i: int|
                0 <= i < pre.asset_count() && (out == pre.asset(i) || out == scaled_path(pre.asset(i))
                    || out == captioned_path(pre.asset(i)));
            assert(out.len() != pre.asset(i).len());
        }
    }
    assert(e is Transcoded);
    assert(a is Some && stitch_action(pre, a->Some_0));
    let jobs = a->Some_0->Transcode_0;
    assert(job_views(jobs@).len() == 1);
    assert(job_views(jobs@)[0] == jobs@[0]@);
}

/// When the video tool cannot be run, the run fails at once without asking
/// for anything, and a failed run ignores every later event: no search,
/// download or upload is ever requested.
pub proof fn lemma_missing_tool_stops_run(
    pre: Pipeline,
    mid: Pipeline,
    a: Option<Action>,
    e: Event,
    post: Pipeline,
    b: Option<Action>,
)
    requires
        pre.stage is Probing,
        transition(pre, Event::ToolChecked(false), mid, a),
        transition(mid, e, post, b),
    ensures
        mid.stage == Stage::Failed(TimeForError::FfmpegNotFound),
        a is None,
        post == mid,
        b is None,
{
}

/// `name` inside the directory `dir`.
pub fn join_path(dir: &str, name: &str) -> (r: String)
    ensures
        r@ == join(dir@, name@),
{
    let n = dir.unicode_len();
    let mut r = String::from_str(dir);
    if n == 0 {
        return String::from_str(name);
    }
    let last = dir.get_char(n - 1);
    if !(last == '/' || last == '\\') {
        r.append("/");
    }
    r.append(name);
    r
}

/// The error of the first job that failed, if one did.
fn failure_among(outcomes: Vec<JobOutcome>) -> (r: Option<TimeForError>)
    ensures
        r == first_failure(outcomes@),
{
    let ghost all = outcomes@;
    let mut rest = outcomes;
    let n = rest.len();
    let mut i: usize = 0;
    assert(all.subrange(0, all.len() as int) =~= all);
    while i < n
        invariant
            i <= n,
            n == all.len(),
            all == outcomes@,
            rest@ == all.subrange(i as int, n as int),
            first_failure(all) == first_failure(rest@),
        decreases n - i,
    {
        let ghost before = rest@;
        let o = rest.remove(0);
        assert(rest@ =~= before.drop_first());
        assert(rest@ =~= all.subrange(i + 1, n as int));
        assert(first_failure(before) == match outcome_failure(o) {
            Some(e) => Some(e),
            None => first_failure(rest@),
        });
        match o {
            JobOutcome::SpawnFailed(e) => {
                return Some(TimeForError::FfmpegError { source: e });
            },
            JobOutcome::Exited { success, code } => {
                if !success {
                    return Some(TimeForError::ScalingError { exit_code: code });
                }
            },
        }
        i = i + 1;
    }
    None
}

impl Pipeline {
    /// A run for `inputs` whose files live in `work_dir`.
    pub fn new(inputs: Inputs, work_dir: String) -> (p: Pipeline)
        ensures
            p.query == inputs.query,
            p.custom_text == inputs.custom_text,
            p.considered_gifs == inputs.considered_gifs,
            p.delay == inputs.delay,
            p.explorer == inputs.explorer,
            p.open == inputs.open,
            laid_out(p, work_dir@),
            p.stage == Stage::Idle,
    {
        let reference_file = MediaFile::new(join_path(work_dir.as_str(), "look_at_time.webm"));
        let query_file = MediaFile::new(join_path(work_dir.as_str(), "query.webm"));
        let final_output = join_path(work_dir.as_str(), "full.webm");
        let manifest = join_path(work_dir.as_str(), "concat_list.txt");
        Pipeline {
            query: inputs.query,
            custom_text: inputs.custom_text,
            considered_gifs: inputs.considered_gifs,
            delay: inputs.delay,
            explorer: inputs.explorer,
            open: inputs.open,
            work_dir,
            reference_file,
            query_file,
            final_output,
            manifest,
            stage: Stage::Idle,
        }
    }

    fn asset_base(&self, i: usize) -> (r: String)
        ensures
            r@ == self.asset(i as int),
    {
        if i == 0 {
            self.reference_file.base()
        } else {
            self.query_file.base()
        }
    }

    fn searches(&self) -> (qs: Vec<SearchQuery>)
        ensures
            searches(*self, qs@),
    {
        let mut qs: Vec<SearchQuery> = Vec::new();
        qs.push(SearchQuery { term: String::from_str(REFERENCE_TERM), considered: REFERENCE_CONSIDERED });
        match &self.query {
            Some(q) => {
                qs.push(SearchQuery { term: q.clone(), considered: self.considered_gifs });
            },
            None => {},
        }
        qs
    }

    /// The downloads for the picked addresses, or the first search error.
    fn fetches(&self, results: Vec<Result<String, TenorError>>) -> (r: Result<Vec<Fetch>, TenorError>)
        requires
            results@.len() == self.asset_count(),
        ensures
            match first_search_error(results@) {
                Some(err) => r == Err::<Vec<Fetch>, TenorError>(err),
                None => r matches Ok(fs) && fetches(*self, results@, fs@),
            },
    {
        let ghost all = results@;
        let mut rest = results;
        let n = rest.len();
        let mut fs: Vec<Fetch> = Vec::new();
        let mut i: usize = 0;
        assert(all.subrange(0, all.len() as int) =~= all);
        while i < n
            invariant
                i <= n,
                n == all.len(),
                n == self.asset_count(),
                all == results@,
                rest@ == all.subrange(i as int, n as int),
                first_search_error(all) == first_search_error(rest@),
                fs@.len() == i,
                forall|j: int|
                    0 <= j < i ==> (#[trigger] all[j] matches Ok(url) && fs@[j].url@ == url@
                        && fs@[j].path@ == self.asset(j)),
            decreases n - i,
        {
            let ghost before = rest@;
            let res = rest.remove(0);
            assert(rest@ =~= before.drop_first());
            assert(rest@ =~= all.subrange(i + 1, n as int));
            assert(all[i as int] == res);
            assert(first_search_error(before) == match res {
                Err(e) => Some(e),
                Ok(_) => first_search_error(rest@),
            });
            match res {
                Err(e) => {
                    return Err(e);
                },
                Ok(url) => {
                    let path = self.asset_base(i);
                    fs.push(Fetch { url, path });
                },
            }
            i = i + 1;
        }
        Ok(fs)
    }

    fn scale_jobs(&self) -> (jobs: Vec<TranscodeJob>)
        ensures
            scale_jobs(*self, job_views(jobs@)),
    {
        let mut jobs: Vec<TranscodeJob> = Vec::new();
        let base = self.reference_file.base();
        let scaled = self.reference_file.scaled();
        jobs.push(scale(base.as_str(), None, scaled.as_str()));
        if self.query.is_some() {
            let base = self.query_file.base();
            let scaled = self.query_file.scaled();
            jobs.push(scale(base.as_str(), None, scaled.as_str()));
        }
        assert forall|i: int| 0 <= i < jobs@.len() implies #[trigger] job_views(jobs@)[i] == scale_job(
            self.asset(i),
            None,
            scaled_path(self.asset(i)),
        ) by {}
        jobs
    }

    fn caption_jobs(&self, clock: &str) -> (jobs: Vec<TranscodeJob>)
        ensures
            caption_jobs(*self, job_views(jobs@), clock@),
    {
        let mut jobs: Vec<TranscodeJob> = Vec::new();
        let scaled = self.reference_file.scaled();
        let captioned = self.reference_file.with_text();
        jobs.push(add_text(scaled.as_str(), clock, captioned.as_str()));
        match &self.query {
            Some(q) => {
                let text = query_text(q.as_str(), &self.custom_text);
                let scaled = self.query_file.scaled();
                let captioned = self.query_file.with_text();
                jobs.push(add_text(scaled.as_str(), text.as_str(), captioned.as_str()));
            },
            None => {},
        }
        jobs
    }

    fn stitch_action(&self) -> (a: Action)
        ensures
            stitch_action(*self, a),
    {
        let captioned = self.reference_file.with_text();
        match &self.query {
            Some(_) => {
                let second = self.query_file.with_text();
                let job = stitch_files_concat_demuxer(
                    captioned.as_str(),
                    second.as_str(),
                    self.manifest.as_str(),
                    self.final_output.as_str(),
                );
                let mut jobs: Vec<TranscodeJob> = Vec::new();
                jobs.push(job);
                assert(job_views(jobs@) =~= seq![jobs@[0]@]);
                Action::Transcode(jobs)
            },
            None => Action::Rename { from: captioned, to: self.final_output.clone() },
        }
    }

    fn upload(&mut self) -> (a: Option<Action>)
        ensures
            *final(self) == old(self).with_stage(Stage::Uploading),
            uploads(*old(self), a),
    {
        self.stage = Stage::Uploading;
        Some(Action::Upload(self.final_output.clone()))
    }

    fn fail(&mut self, err: TimeForError) -> (a: Option<Action>)
        ensures
            *final(self) == old(self).with_stage(Stage::Failed(err)),
            a is None,
    {
        self.stage = Stage::Failed(err);
        None
    }

    /// Moves the run on by one event, and says what to do next.
    pub fn step(&mut self, event: Event) -> (a: Option<Action>)
        ensures
            transition(*old(self), event, *final(self), a),
    {
        match &self.stage {
            Stage::Idle => match event {
                Event::Start => {
                    self.stage = Stage::Probing;
                    Some(Action::ProbeTool)
                },
                _ => None,
            },
            Stage::Probing => match event {
                Event::ToolChecked(found) => {
                    if found {
                        self.stage = Stage::Preparing;
                        Some(Action::CreateWorkDir(self.work_dir.clone()))
                    } else {
                        self.fail(TimeForError::FfmpegNotFound)
                    }
                },
                _ => None,
            },
            Stage::Preparing => match event {
                Event::WorkDirReady(r) => match r {
                    Ok(_) => {
                        let qs = self.searches();
                        self.stage = Stage::Searching;
                        Some(Action::Search(qs))
                    },
                    Err(message) => self.fail(TimeForError::CreateWorkingDirectory { message }),
                },
                _ => None,
            },
            Stage::Searching => match event {
                Event::Resolved(results) => {
                    let count: usize = if self.query.is_some() {
                        2
                    } else {
                        1
                    };
                    if results.len() != count {
                        None
                    } else {
                        match self.fetches(results) {
                            Err(e) => self.fail(TimeForError::GetRandGif { source: e }),
                            Ok(fs) => {
                                self.stage = Stage::Downloading;
                                Some(Action::Download(fs))
                            },
                        }
                    }
                },
                _ => None,
            },
            Stage::Downloading => match event {
                Event::Downloaded(r) => match r {
                    Ok(_) => {
                        let jobs = self.scale_jobs();
                        self.stage = Stage::Scaling;
                        Some(Action::Transcode(jobs))
                    },
                    Err(message) => self.fail(TimeForError::Download { message }),
                },
                _ => None,
            },
            Stage::Scaling => match event {
                Event::Transcoded(outcomes) => {
                    let count: usize = if self.query.is_some() {
                        2
                    } else {
                        1
                    };
                    if outcomes.len() != count {
                        None
                    } else {
                        match failure_among(outcomes) {
                            Some(err) => self.fail(err),
                            None => {
                                let clock = current_time_text(self.delay);
                                let jobs = self.caption_jobs(clock.as_str());
                                let ghost m = choose|m: Moment| m.wf() && clock@ == time_sentence(m);
                                assert(caption_jobs(*self, job_views(jobs@), time_sentence(m)));
                                self.stage = Stage::Captioning;
                                Some(Action::Transcode(jobs))
                            },
                        }
                    }
                },
                _ => None,
            },
            Stage::Captioning => match event {
                Event::Transcoded(outcomes) => {
                    let count: usize = if self.query.is_some() {
                        2
                    } else {
                        1
                    };
                    if outcomes.len() != count {
                        None
                    } else {
                        match failure_among(outcomes) {
                            Some(err) => self.fail(err),
                            None => {
                                let act = self.stitch_action();
                                self.stage = Stage::Stitching;
                                Some(act)
                            },
                        }
                    }
                },
                _ => None,
            },
            Stage::Stitching => match event {
                Event::Transcoded(outcomes) => {
                    if self.query.is_none() || outcomes.len() != 1 {
                        None
                    } else {
                        match failure_among(outcomes) {
                            Some(err) => self.fail(err),
                            None => self.upload(),
                        }
                    }
                },
                Event::Renamed(r) => {
                    if self.query.is_some() {
                        None
                    } else {
                        match r {
                            Ok(_) => self.upload(),
                            Err(message) => self.fail(TimeForError::Io { message }),
                        }
                    }
                },
                _ => None,
            },
            Stage::Uploading => match event {
                Event::Uploaded(link) => {
                    let shown = match link {
                        Some(l) => Some(hosted_link(l.as_str())),
                        None => None,
                    };
                    let pr = Presentation {
                        link: shown,
                        path: self.final_output.clone(),
                        explorer: self.explorer,
                        open: self.open,
                    };
                    self.stage = Stage::Presenting;
                    Some(Action::Present(pr))
                },
                _ => None,
            },
            Stage::Presenting => match event {
                Event::Presented => {
                    self.stage = Stage::Done;
                    None
                },
                _ => None,
            },
            _ => None,
        }
    }

    /// The run has ended, well or not.
    pub fn is_finished(&self) -> (r: bool)
        ensures
            r == (self.stage is Done || self.stage is Failed),
    {
        match &self.stage {
            Stage::Done => true,
            Stage::Failed(_) => true,
            _ => false,
        }
    }
}

} // verus!
