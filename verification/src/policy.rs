//! The policy engine: which device values follow from the workload modes,
//! and in which order they are pushed onto the control files.
//!
//! Applying policy alternates decisions and device operations. The decisions
//! live here, in a [`PolicyRun`]: it names the next [`DeviceRequest`], takes
//! the [`DeviceReply`] to it and moves on, until it has a result.

use crate::device::{
    all_found, directory_of, entry_paths, entry_views, join_path, joined, last_found,
    last_found_path, parent_directory, DeviceReply, DeviceRequest, EntryView, PathEntry,
    ReplyView, RequestView,
};
use crate::error::{failure_view, DaemonError, ErrorView};
use crate::modes::{FullscreenVideo, RTCAudioActive};
use vstd::prelude::*;

verus! {

/// The energy-performance preference that the workload modes call for:
/// `179`, about 70% on the scale from 0 to 255, while real-time audio or
/// fullscreen video is active, and the platform's default otherwise.
pub open spec fn epp_value(rtc: RTCAudioActive, fullscreen: FullscreenVideo) -> Seq<char> {
    if rtc == RTCAudioActive::Active || fullscreen == FullscreenVideo::Active {
        "179"@
    } else {
        "balance_performance"@
    }
}

/// The pattern of the per-policy preference files below `root`.
pub open spec fn epp_pattern_of(root: Seq<char>) -> Seq<char> {
    root + "/sys/devices/system/cpu/cpufreq/policy*/energy_performance_preference"@
}

/// The frequency that becomes the GPU boost frequency: the lowest one while
/// real-time audio is active, the highest one otherwise. Each is `None` if it
/// could not be read.
pub open spec fn gt_boost_value<T>(mode: RTCAudioActive, min_freq: Option<T>, max_freq: Option<T>)
    -> Option<T> {
    if mode == RTCAudioActive::Active {
        min_freq
    } else {
        max_freq
    }
}

/// The energy-performance preference that the workload modes call for.
pub fn select_epp(rtc: RTCAudioActive, fullscreen: FullscreenVideo) -> (value: &'static str)
    ensures
        value@ == epp_value(rtc, fullscreen),
{
    match (rtc, fullscreen) {
        (RTCAudioActive::Inactive, FullscreenVideo::Inactive) => "balance_performance",
        _ => "179",
    }
}

/// The frequency that becomes the GPU boost frequency, or `None` if the one
/// that the mode calls for could not be read.
pub fn select_gt_boost(
    mode: RTCAudioActive,
    min_freq: Option<String>,
    max_freq: Option<String>,
) -> (value: Option<String>)
    ensures
        value == gt_boost_value(mode, min_freq, max_freq),
{
    match mode {
        RTCAudioActive::Active => min_freq,
        RTCAudioActive::Inactive => max_freq,
    }
}

/// The boosted preference and the default one are different values, so the
/// preference is `179` exactly when at least one of the two modes is active.
pub proof fn lemma_epp_boosted_iff_active(rtc: RTCAudioActive, fullscreen: FullscreenVideo)
    ensures
        epp_value(rtc, fullscreen) == "179"@ <==> rtc == RTCAudioActive::Active || fullscreen
            == FullscreenVideo::Active,
        epp_value(rtc, fullscreen) == "balance_performance"@ <==> rtc == RTCAudioActive::Inactive
            && fullscreen == FullscreenVideo::Inactive,
{
    reveal_strlit("179");
    reveal_strlit("balance_performance");
    assert("179"@.len() != "balance_performance"@.len());
}

/// Where the GPU frequency controls are: the base directory, the card
/// directory found below it, and the names of the three control files.
/// It is worked out anew each time policy is applied.
#[derive(Clone, Debug, PartialEq, Eq)]
pub struct GtSysfsPaths {
    pub base: String,
    pub card: String,
    pub boost: String,
    pub min: String,
    pub max: String,
}

/// A [`GtSysfsPaths`] over sequences of characters.
pub struct GtPathsView {
    pub base: Seq<char>,
    pub card: Seq<char>,
    pub boost: Seq<char>,
    pub min: Seq<char>,
    pub max: Seq<char>,
}

impl View for GtSysfsPaths {
    type V = GtPathsView;

    open spec fn view(&self) -> GtPathsView {
        GtPathsView {
            base: self.base@,
            card: self.card@,
            boost: self.boost@,
            min: self.min@,
            max: self.max@,
        }
    }
}

impl GtPathsView {
    /// The paths before any card was looked for: the card directory is `/`.
    pub open spec fn initial() -> GtPathsView {
        GtPathsView {
            base: "/sys/class/drm"@,
            card: "/"@,
            boost: "gt_boost_freq_mhz"@,
            min: "gt_min_freq_mhz"@,
            max: "gt_max_freq_mhz"@,
        }
    }

    /// The pattern that finds the boost file of every card below the base.
    pub open spec fn card_pattern(self) -> Seq<char> {
        joined(joined(self.base, "card*"@), self.boost)
    }

    /// The same paths with another card directory.
    pub open spec fn with_card(self, card: Seq<char>) -> GtPathsView {
        GtPathsView { card, ..self }
    }
}

impl GtSysfsPaths {
    /// The paths before any card was looked for.
    pub fn new() -> (paths: GtSysfsPaths)
        ensures
            paths@ == GtPathsView::initial(),
    {
        GtSysfsPaths {
            base: String::from_str("/sys/class/drm"),
            card: String::from_str("/"),
            boost: String::from_str("gt_boost_freq_mhz"),
            min: String::from_str("gt_min_freq_mhz"),
            max: String::from_str("gt_max_freq_mhz"),
        }
    }

    /// The pattern that finds the boost file of every card below the base.
    pub fn card_pattern(&self) -> (pattern: String)
        ensures
            pattern@ == self@.card_pattern(),
    {
        let cards = join_path(self.base.as_str(), "card*");
        join_path(cards.as_str(), self.boost.as_str())
    }
}

/// What a [`PolicyRun`] is waiting for.
pub enum Stage {
    /// For the matches of the preference pattern below `root`.
    EppEnumerate { root: String, value: String },
    /// For the write of `value` to the path found as `targets[next]`; the
    /// targets before it are written.
    EppWrite { targets: Vec<PathEntry>, next: usize, value: String },
    /// For the matches of the card pattern.
    GtEnumerate { paths: GtSysfsPaths, mode: RTCAudioActive },
    /// For the content of the lowest-frequency file.
    GtReadMin { paths: GtSysfsPaths, mode: RTCAudioActive },
    /// For the content of the highest-frequency file.
    GtReadMax { paths: GtSysfsPaths, mode: RTCAudioActive, min_freq: Option<String> },
    /// For the write of the boost frequency.
    GtWrite { path: String, value: String },
    /// For nothing: the run is over.
    Done { result: Result<(), DaemonError> },
}

/// A [`Stage`] over sequences of characters.
pub enum StageView {
    EppEnumerate { root: Seq<char>, value: Seq<char> },
    EppWrite { targets: Seq<EntryView>, next: nat, value: Seq<char> },
    GtEnumerate { paths: GtPathsView, mode: RTCAudioActive },
    GtReadMin { paths: GtPathsView, mode: RTCAudioActive },
    GtReadMax { paths: GtPathsView, mode: RTCAudioActive, min_freq: Option<Seq<char>> },
    GtWrite { path: Seq<char>, value: Seq<char> },
    Done { result: Result<(), ErrorView> },
}

/// The characters of a string that may be missing.
pub open spec fn content_view(content: Option<String>) -> Option<Seq<char>> {
    match content {
        Some(text) => Some(text@),
        None => None,
    }
}

impl View for Stage {
    type V = StageView;

    open spec fn view(&self) -> StageView {
        match self {
            Stage::EppEnumerate { root, value } => StageView::EppEnumerate {
                root: root@,
                value: value@,
            },
            Stage::EppWrite { targets, next, value } => StageView::EppWrite {
                targets: entry_views(targets@),
                next: *next as nat,
                value: value@,
            },
            Stage::GtEnumerate { paths, mode } => StageView::GtEnumerate {
                paths: paths@,
                mode: *mode,
            },
            Stage::GtReadMin { paths, mode } => StageView::GtReadMin { paths: paths@, mode: *mode },
            Stage::GtReadMax { paths, mode, min_freq } => StageView::GtReadMax {
                paths: paths@,
                mode: *mode,
                min_freq: content_view(*min_freq),
            },
            Stage::GtWrite { path, value } => StageView::GtWrite { path: path@, value: value@ },
            Stage::Done { result } => StageView::Done { result: failure_view(*result) },
        }
    }
}

/// The state of a run: what it waits for, and whether the GPU boost
/// frequency, for the given mode, is due once the preference is written.
pub struct RunView {
    pub stage: StageView,
    pub then_gt: Option<RTCAudioActive>,
}

/// The failure of the device operation on `path`.
pub open spec fn device_failure(path: Seq<char>) -> StageView {
    StageView::Done { result: Err(ErrorView::DeviceIOError { path }) }
}

impl RunView {
    /// A run in the stage `EppWrite` points at one of its targets, and that
    /// target was found.
    pub open spec fn wf(self) -> bool {
        self.stage matches StageView::EppWrite { targets, next, .. } ==> next < targets.len()
            && targets[next as int] is Found
    }

    /// The stage in which the run takes up `targets[next]`: the write to a
    /// path that was found, the failure of a path that could not be read,
    /// or what follows the preference when no target is left.
    pub open spec fn take_up(self, targets: Seq<EntryView>, next: nat, value: Seq<char>)
        -> StageView {
        if next < targets.len() {
            match targets[next as int] {
                EntryView::Found(_) => StageView::EppWrite { targets, next, value },
                EntryView::Unreadable(path) => device_failure(path),
            }
        } else {
            self.after_epp()
        }
    }

    /// The run that writes `value` to every preference file below `root`
    /// and then, if `then_gt` names a mode, sets the GPU boost frequency.
    pub open spec fn start_epp(
        root: Seq<char>,
        value: Seq<char>,
        then_gt: Option<RTCAudioActive>,
    ) -> RunView {
        RunView { stage: StageView::EppEnumerate { root, value }, then_gt }
    }

    /// The run that sets the GPU boost frequency for `mode`.
    pub open spec fn start_gt(mode: RTCAudioActive) -> RunView {
        RunView {
            stage: StageView::GtEnumerate { paths: GtPathsView::initial(), mode },
            then_gt: None,
        }
    }

    /// The policy re-evaluation for the current values of the two modes:
    /// the preference they call for, then the boost frequency.
    pub open spec fn reevaluation(rtc: RTCAudioActive, fullscreen: FullscreenVideo) -> RunView {
        RunView::start_epp("/"@, epp_value(rtc, fullscreen), Some(rtc))
    }

    /// Where the run goes once every preference file is written.
    pub open spec fn after_epp(self) -> StageView {
        match self.then_gt {
            Some(mode) => StageView::GtEnumerate { paths: GtPathsView::initial(), mode },
            None => StageView::Done { result: Ok(()) },
        }
    }

    /// The device operation that the run waits for; `None` once it is over.
    pub open spec fn request(self) -> Option<RequestView> {
        match self.stage {
            StageView::EppEnumerate { root, .. } => Some(
                RequestView::Enumerate { pattern: epp_pattern_of(root) },
            ),
            StageView::EppWrite { targets, next, value } => Some(
                RequestView::Write { path: targets[next as int].path(), value },
            ),
            StageView::GtEnumerate { paths, .. } => Some(
                RequestView::Enumerate { pattern: paths.card_pattern() },
            ),
            StageView::GtReadMin { paths, .. } => Some(
                RequestView::Read { path: joined(paths.card, paths.min) },
            ),
            StageView::GtReadMax { paths, .. } => Some(
                RequestView::Read { path: joined(paths.card, paths.max) },
            ),
            StageView::GtWrite { path, value } => Some(RequestView::Write { path, value }),
            StageView::Done { .. } => None,
        }
    }

    /// The result of the run; `None` while it waits for a device operation.
    pub open spec fn result(self) -> Option<Result<(), ErrorView>> {
        match self.stage {
            StageView::Done { result } => Some(result),
            _ => None,
        }
    }

    /// The stage that follows when `reply` answers the pending request.
    /// A reply of the wrong kind counts as a failure of the operation.
    ///
    /// The preference is written to the targets in the order of the
    /// listing, and an entry that could not be read fails the run when its
    /// turn comes. The card is the one found last; entries that could not
    /// be read are left out there.
    pub open spec fn next_stage(self, reply: ReplyView) -> StageView {
        match self.stage {
            StageView::EppEnumerate { root, value } => match reply {
                ReplyView::Paths(targets) => self.take_up(targets, 0, value),
                _ => device_failure(epp_pattern_of(root)),
            },
            StageView::EppWrite { targets, next, value } => match reply {
                ReplyView::Written => self.take_up(targets, next + 1, value),
                _ => device_failure(targets[next as int].path()),
            },
            StageView::GtEnumerate { paths, mode } => match reply {
                ReplyView::Paths(found) => match last_found(found) {
                    None => StageView::GtReadMin { paths, mode },
                    Some(boost_file) => match directory_of(boost_file) {
                        Some(card) => StageView::GtReadMin { paths: paths.with_card(card), mode },
                        None => device_failure(boost_file),
                    },
                },
                _ => device_failure(paths.card_pattern()),
            },
            StageView::GtReadMin { paths, mode } => match reply {
                ReplyView::Content(text) => StageView::GtReadMax {
                    paths,
                    mode,
                    min_freq: Some(text),
                },
                _ => StageView::GtReadMax { paths, mode, min_freq: None },
            },
            StageView::GtReadMax { paths, mode, min_freq } => {
                let max_freq = match reply {
                    ReplyView::Content(text) => Some(text),
                    _ => None,
                };
                match gt_boost_value(mode, min_freq, max_freq) {
                    Some(value) => StageView::GtWrite {
                        path: joined(paths.card, paths.boost),
                        value,
                    },
                    None => device_failure(
                        joined(
                            paths.card,
                            if mode == RTCAudioActive::Active {
                                paths.min
                            } else {
                                paths.max
                            },
                        ),
                    ),
                }
            },
            StageView::GtWrite { path, .. } => match reply {
                ReplyView::Written => StageView::Done { result: Ok(()) },
                _ => device_failure(path),
            },
            StageView::Done { result } => StageView::Done { result },
        }
    }

    /// The run after `reply` has answered the pending request.
    pub open spec fn step(self, reply: ReplyView) -> RunView {
        RunView { stage: self.next_stage(reply), then_gt: self.then_gt }
    }
}

/// One application of policy to the device control files, as a sequence of
/// device operations with a decision after each.
///
/// [`PolicyRun::request`] names the operation to perform; its outcome goes
/// to [`PolicyRun::advance`]. When no request is left,
/// [`PolicyRun::result`] tells how the run ended. The first failure that
/// counts ends the run: nothing is written after it, and nothing that was
/// written before it is taken back.
pub struct PolicyRun {
    stage: Stage,
    then_gt: Option<RTCAudioActive>,
}

impl View for PolicyRun {
    type V = RunView;

    closed spec fn view(&self) -> RunView {
        RunView { stage: self.stage@, then_gt: self.then_gt }
    }
}

/// The pattern of the per-policy preference files below `root`.
pub fn epp_pattern(root: &str) -> (pattern: String)
    ensures
        pattern@ == epp_pattern_of(root@),
{
    let mut pattern = String::from_str(root);
    pattern.append("/sys/devices/system/cpu/cpufreq/policy*/energy_performance_preference");
    pattern
}

fn failed(path: String) -> (stage: Stage)
    ensures
        stage@ == device_failure(path@),
{
    Stage::Done { result: Err(DaemonError::DeviceIOError { path }) }
}

impl PolicyRun {
    #[verifier::type_invariant]
    spec fn inv(self) -> bool {
        self.stage matches Stage::EppWrite { targets, next, .. } ==> next < targets.len()
            && targets[next as int] is Found
    }

    /// The policy re-evaluation for the current values of the two modes.
    pub fn reevaluate(rtc: RTCAudioActive, fullscreen: FullscreenVideo) -> (run: PolicyRun)
        ensures
            run@ == RunView::reevaluation(rtc, fullscreen),
    {
        PolicyRun {
            stage: Stage::EppEnumerate {
                root: String::from_str("/"),
                value: String::from_str(select_epp(rtc, fullscreen)),
            },
            then_gt: Some(rtc),
        }
    }

    /// The device operation to perform next; `None` once the run is over.
    pub fn request(&self) -> (request: Option<DeviceRequest>)
        ensures
            request is Some <==> self@.request() is Some,
            request matches Some(r) ==> r@ == self@.request()->0,
    {
        proof {
            use_type_invariant(self);
        }
        match &self.stage {
            Stage::EppEnumerate { root, .. } => Some(
                DeviceRequest::Enumerate { pattern: epp_pattern(root.as_str()) },
            ),
            Stage::EppWrite { targets, next, value } => match &targets[*next] {
                PathEntry::Found(path) => Some(
                    DeviceRequest::Write { path: path.clone(), value: value.clone() },
                ),
                PathEntry::Unreadable(path) => Some(
                    DeviceRequest::Write { path: path.clone(), value: value.clone() },
                ),
            },
            Stage::GtEnumerate { paths, .. } => Some(
                DeviceRequest::Enumerate { pattern: paths.card_pattern() },
            ),
            Stage::GtReadMin { paths, .. } => Some(
                read_gt_sysfs(paths.card.as_str(), paths.min.as_str()),
            ),
            Stage::GtReadMax { paths, .. } => Some(
                read_gt_sysfs(paths.card.as_str(), paths.max.as_str()),
            ),
            Stage::GtWrite { path, value } => Some(
                DeviceRequest::Write { path: path.clone(), value: value.clone() },
            ),
            Stage::Done { .. } => None,
        }
    }

    /// How the run ended; `None` while a device operation is pending.
    pub fn result(&self) -> (result: Option<Result<(), DaemonError>>)
        ensures
            result is Some <==> self@.result() is Some,
            result matches Some(r) ==> failure_view(r) == self@.result()->0,
    {
        match &self.stage {
            Stage::Done { result } => match result {
                Ok(()) => Some(Ok(())),
                Err(e) => Some(Err(e.clone())),
            },
            _ => None,
        }
    }

    fn after_epp(then_gt: Option<RTCAudioActive>) -> (stage: Stage)
        ensures
            stage@ == (RunView { stage: stage@, then_gt }).after_epp(),
            !(stage is EppWrite),
    {
        match then_gt {
            Some(mode) => Stage::GtEnumerate { paths: GtSysfsPaths::new(), mode },
            None => Stage::Done { result: Ok(()) },
        }
    }

    fn take_up(
        then_gt: Option<RTCAudioActive>,
        targets: Vec<PathEntry>,
        next: usize,
        value: String,
    ) -> (stage: Stage)
        ensures
            stage@ == (RunView { stage: stage@, then_gt }).take_up(
                entry_views(targets@),
                next as nat,
                value@,
            ),
            stage matches Stage::EppWrite { targets: t, next: n, .. } ==> n < t.len()
                && t[n as int] is Found,
    {
        if next < targets.len() {
            match &targets[next] {
                PathEntry::Found(_) => Stage::EppWrite { targets, next, value },
                PathEntry::Unreadable(path) => failed(path.clone()),
            }
        } else {
            Self::after_epp(then_gt)
        }
    }

    /// Takes the outcome of the pending device operation and decides how the
    /// run goes on.
    pub fn advance(self, reply: DeviceReply) -> (run: PolicyRun)
        ensures
            run@ == self@.step(reply@),
    {
        proof {
            use_type_invariant(&self);
        }
        let then_gt = self.then_gt;
        let stage = match self.stage {
            Stage::EppEnumerate { root, value } => match reply {
                DeviceReply::Paths(targets) => Self::take_up(then_gt, targets, 0, value),
                _ => failed(epp_pattern(root.as_str())),
            },
            Stage::EppWrite { targets, next, value } => match reply {
                DeviceReply::Written => Self::take_up(then_gt, targets, next + 1, value),
                _ => match &targets[next] {
                    PathEntry::Found(path) => failed(path.clone()),
                    PathEntry::Unreadable(path) => failed(path.clone()),
                },
            },
            Stage::GtEnumerate { paths, mode } => match reply {
                DeviceReply::Paths(found) => match last_found_path(&found) {
                    None => Stage::GtReadMin { paths, mode },
                    Some(boost_file) => match parent_directory(boost_file.as_str()) {
                        Some(card) => Stage::GtReadMin {
                            paths: GtSysfsPaths { card, ..paths },
                            mode,
                        },
                        None => failed(boost_file),
                    },
                },
                _ => failed(paths.card_pattern()),
            },
            Stage::GtReadMin { paths, mode } => match reply {
                DeviceReply::Content(text) => Stage::GtReadMax {
                    paths,
                    mode,
                    min_freq: Some(text),
                },
                _ => Stage::GtReadMax { paths, mode, min_freq: None },
            },
            Stage::GtReadMax { paths, mode, min_freq } => {
                let max_freq = match reply {
                    DeviceReply::Content(text) => Some(text),
                    _ => None,
                };
                match select_gt_boost(mode, min_freq, max_freq) {
                    Some(value) => Stage::GtWrite {
                        path: join_path(paths.card.as_str(), paths.boost.as_str()),
                        value,
                    },
                    None => {
                        let leaf = match mode {
                            RTCAudioActive::Active => &paths.min,
                            RTCAudioActive::Inactive => &paths.max,
                        };
                        failed(join_path(paths.card.as_str(), leaf.as_str()))
                    },
                }
            },
            Stage::GtWrite { path, value } => match reply {
                DeviceReply::Written => Stage::Done { result: Ok(()) },
                _ => failed(path),
            },
            Stage::Done { result } => Stage::Done { result },
        };
        PolicyRun { stage, then_gt }
    }
}

/// The run that writes `value` to the energy-performance preference of
/// every CPU frequency policy below `root_path`. The first write that fails
/// ends it; what was written before stays written.
pub fn set_epp(root_path: &str, value: &str) -> (run: PolicyRun)
    ensures
        run@ == RunView::start_epp(root_path@, value@, None),
{
    PolicyRun {
        stage: Stage::EppEnumerate {
            root: String::from_str(root_path),
            value: String::from_str(value),
        },
        then_gt: None,
    }
}

/// The request that reads the control file `gt_sysfs_file` in the directory
/// `gt_base_path`.
pub fn read_gt_sysfs(gt_base_path: &str, gt_sysfs_file: &str) -> (request: DeviceRequest)
    ensures
        request@ == (RequestView::Read { path: joined(gt_base_path@, gt_sysfs_file@) }),
{
    DeviceRequest::Read { path: join_path(gt_base_path, gt_sysfs_file) }
}

/// The run that sets the GPU boost frequency for `mode`: to the lowest
/// frequency while real-time audio is active, to the highest otherwise. If
/// the frequency that is called for cannot be read, the run fails and
/// writes nothing.
pub fn set_gt_boost_freq_mhz(mode: RTCAudioActive) -> (run: PolicyRun)
    ensures
        run@ == RunView::start_gt(mode),
{
    PolicyRun { stage: Stage::GtEnumerate { paths: GtSysfsPaths::new(), mode }, then_gt: None }
}

/// `count` replies that each report a write that went through.
pub open spec fn all_written(count: nat) -> Seq<ReplyView> {
    Seq::new(count, |i: int| ReplyView::Written)
}

/// The writes of `value` to `count` targets, from `targets[first]` on, in
/// order.
pub open spec fn writes_of(targets: Seq<Seq<char>>, first: nat, count: nat, value: Seq<char>)
    -> Seq<RequestView> {
    Seq::new(count, |i: int| RequestView::Write { path: targets[first + i], value })
}

impl RunView {
    /// The run after the device has answered its requests with `replies`,
    /// one after the other. Replies to a run that is over change nothing.
    pub open spec fn after(self, replies: Seq<ReplyView>) -> RunView
        decreases replies.len(),
    {
        if replies.len() == 0 {
            self
        } else {
            self.step(replies[0]).after(replies.drop_first())
        }
    }

    /// The requests that `replies` answered, in the order in which the run
    /// made them.
    pub open spec fn performed(self, replies: Seq<ReplyView>) -> Seq<RequestView>
        decreases replies.len(),
    {
        if replies.len() == 0 {
            Seq::empty()
        } else {
            match self.request() {
                Some(request) => seq![request] + self.step(replies[0]).performed(
                    replies.drop_first(),
                ),
                None => Seq::empty(),
            }
        }
    }
}

/// A run stays well formed, and a run that is over stays as it is.
pub proof fn lemma_step_keeps_wf(run: RunView, reply: ReplyView)
    requires
        run.wf(),
    ensures
        run.step(reply).wf(),
        run.result() is Some ==> run.step(reply) == run,
        run.result() is Some <==> run.request() is None,
{
}

/// A run that is over makes no request, whatever it is told.
pub proof fn lemma_nothing_after_the_end(run: RunView, replies: Seq<ReplyView>)
    requires
        run.result() is Some,
    ensures
        run.after(replies) == run,
        run.performed(replies) == Seq::<RequestView>::empty(),
    decreases replies.len(),
{
    if replies.len() > 0 {
        lemma_nothing_after_the_end(run.step(replies[0]), replies.drop_first());
    }
}

/// Replies may be fed to a run in two portions.
pub proof fn lemma_replies_in_portions(run: RunView, head: Seq<ReplyView>, tail: Seq<ReplyView>)
    ensures
        run.after(head + tail) == run.after(head).after(tail),
        run.performed(head + tail) == run.performed(head) + run.after(head).performed(tail),
    decreases head.len(),
{
    if head.len() == 0 {
        assert(head + tail =~= tail);
        assert(run.performed(head) + run.after(head).performed(tail) =~= run.performed(tail));
    } else {
        let all = head + tail;
        assert(all[0] == head[0]);
        assert(all.drop_first() =~= head.drop_first() + tail);
        let next = run.step(head[0]);
        lemma_replies_in_portions(next, head.drop_first(), tail);
        match run.request() {
            Some(request) => {
                assert(run.performed(all) =~= run.performed(head) + run.after(head).performed(
                    tail,
                ));
            },
            None => {
                lemma_nothing_after_the_end(run, head);
                lemma_nothing_after_the_end(run, tail);
                assert(run.performed(all) =~= run.performed(head) + run.after(head).performed(
                    tail,
                ));
            },
        }
    }
}

/// While the writes go through, a run that writes the preference writes the
/// value to one target after the other, each once and in order, as long as
/// the targets were found. It then takes up the target that comes next.
pub proof fn lemma_epp_writes_in_order(run: RunView, count: nat)
    requires
        run.wf(),
        run.stage is EppWrite,
        run.stage->next + count <= run.stage->targets.len(),
        forall|i: int|
            run.stage->next <= i < run.stage->next + count ==> (
            #[trigger] run.stage->targets[i]) is Found,
    ensures
        ({
            let targets = run.stage->targets;
            let next = run.stage->next;
            let value = run.stage->EppWrite_value;
            let replies = all_written(count);
            &&& run.after(replies).stage == run.take_up(targets, next + count, value)
            &&& run.after(replies).then_gt == run.then_gt
            &&& run.performed(replies) == writes_of(entry_paths(targets), next, count, value)
        }),
    decreases count,
{
    let targets = run.stage->targets;
    let next = run.stage->next;
    let value = run.stage->EppWrite_value;
    let replies = all_written(count);
    let paths = entry_paths(targets);
    if count == 0 {
        assert(run.performed(replies) =~= writes_of(paths, next, count, value));
    } else {
        let rest = all_written((count - 1) as nat);
        assert(replies.drop_first() =~= rest);
        let stepped = run.step(replies[0]);
        assert(run.after(replies) == stepped.after(rest));
        assert(stepped.after_epp() == run.after_epp());
        assert(stepped.stage == run.take_up(targets, next + 1, value));
        if count > 1 {
            assert(targets[(next + 1) as int] is Found);
            lemma_epp_writes_in_order(stepped, (count - 1) as nat);
            assert(stepped.take_up(targets, next + count, value) == run.take_up(
                targets,
                next + count,
                value,
            ));
            assert(run.performed(replies) =~= writes_of(paths, next, count, value));
        } else {
            assert(rest.len() == 0);
            assert(stepped.after(rest) == stepped);
            assert(stepped.performed(rest) =~= Seq::<RequestView>::empty());
            assert(run.performed(replies) =~= writes_of(paths, next, count, value));
        }
    }
}

/// A run that has the listing of the preference files writes the value to
/// the first `count` of them, in order, as long as they were found and the
/// writes go through. It then takes up the entry that comes next.
pub proof fn lemma_epp_listing_then_writes(
    root: Seq<char>,
    value: Seq<char>,
    then_gt: Option<RTCAudioActive>,
    targets: Seq<EntryView>,
    count: nat,
)
    requires
        count <= targets.len(),
        forall|i: int| 0 <= i < count ==> (#[trigger] targets[i]) is Found,
    ensures
        ({
            let run = RunView::start_epp(root, value, then_gt);
            let replies = seq![ReplyView::Paths(targets)] + all_written(count);
            &&& run.after(replies).stage == run.take_up(targets, count, value)
            &&& run.after(replies).then_gt == then_gt
            &&& run.performed(replies) == seq![
                RequestView::Enumerate { pattern: epp_pattern_of(root) },
            ] + writes_of(entry_paths(targets), 0, count, value)
        }),
{
    let run = RunView::start_epp(root, value, then_gt);
    let listing = seq![ReplyView::Paths(targets)];
    let writes = all_written(count);
    let listed = run.step(listing[0]);
    assert(listing.drop_first() =~= Seq::<ReplyView>::empty());
    assert(run.after(listing) == listed) by {
        assert(listed.after(listing.drop_first()) == listed);
    }
    assert(run.performed(listing) =~= seq![
        RequestView::Enumerate { pattern: epp_pattern_of(root) },
    ]) by {
        assert(listed.performed(listing.drop_first()) =~= Seq::<RequestView>::empty());
    }
    assert(listed.stage == run.take_up(targets, 0, value));
    if count == 0 {
        assert(listed.after(writes) == listed);
        assert(listed.performed(writes) =~= writes_of(entry_paths(targets), 0, 0, value));
    } else {
        assert(targets[0] is Found);
        lemma_epp_writes_in_order(listed, count);
        assert(listed.take_up(targets, count, value) == run.take_up(targets, count, value));
    }
    lemma_replies_in_portions(run, listing, writes);
}

/// One more reply to a run: the run steps once, and the reply answers the
/// request that was pending, if one was.
proof fn lemma_one_more_reply(run: RunView, replies: Seq<ReplyView>, last: ReplyView)
    ensures
        run.after(replies + seq![last]) == run.after(replies).step(last),
        run.performed(replies + seq![last]) == run.performed(replies) + match run.after(
            replies,
        ).request() {
            Some(request) => seq![request],
            None => Seq::empty(),
        },
{
    let one = seq![last];
    let before = run.after(replies);
    assert(one.drop_first() =~= Seq::<ReplyView>::empty());
    assert(before.step(last).after(one.drop_first()) == before.step(last));
    assert(before.step(last).performed(one.drop_first()) =~= Seq::<RequestView>::empty());
    assert(before.performed(one) =~= match before.request() {
        Some(request) => seq![request],
        None => Seq::empty(),
    });
    lemma_replies_in_portions(run, replies, one);
}

/// The first write of the preference that fails ends the run with the
/// failure of that file: the targets before it are written, none after it
/// is tried, and the GPU boost frequency is left alone.
pub proof fn lemma_failed_preference_write_ends_the_run(
    root: Seq<char>,
    value: Seq<char>,
    then_gt: Option<RTCAudioActive>,
    targets: Seq<Seq<char>>,
    written: nat,
    failure: ReplyView,
)
    requires
        written < targets.len(),
        !(failure is Written),
    ensures
        ({
            let run = RunView::start_epp(root, value, then_gt);
            let replies = seq![ReplyView::Paths(all_found(targets))] + all_written(written)
                + seq![failure];
            &&& run.after(replies).result() == Some(
                Err::<(), ErrorView>(ErrorView::DeviceIOError { path: targets[written as int] }),
            )
            &&& run.after(replies).request() is None
            &&& run.performed(replies) == seq![
                RequestView::Enumerate { pattern: epp_pattern_of(root) },
            ] + writes_of(targets, 0, written + 1, value)
        }),
{
    let run = RunView::start_epp(root, value, then_gt);
    let entries = all_found(targets);
    let before = seq![ReplyView::Paths(entries)] + all_written(written);
    assert(entry_paths(entries) =~= targets);
    lemma_epp_listing_then_writes(root, value, then_gt, entries, written);
    lemma_one_more_reply(run, before, failure);
    assert(run.performed(before + seq![failure]) =~= seq![
        RequestView::Enumerate { pattern: epp_pattern_of(root) },
    ] + writes_of(targets, 0, written + 1, value));
}

/// A preference file that could not be read while the pattern was expanded
/// ends the run with the failure of that path when its turn comes: the
/// targets before it are written, none after it is tried, and the GPU boost
/// frequency is left alone.
pub proof fn lemma_unreadable_preference_file_ends_the_run(
    root: Seq<char>,
    value: Seq<char>,
    then_gt: Option<RTCAudioActive>,
    before: Seq<Seq<char>>,
    unreadable: Seq<char>,
    rest: Seq<EntryView>,
)
    ensures
        ({
            let run = RunView::start_epp(root, value, then_gt);
            let listing = all_found(before) + seq![EntryView::Unreadable(unreadable)] + rest;
            let replies = seq![ReplyView::Paths(listing)] + all_written(before.len());
            &&& run.after(replies).result() == Some(
                Err::<(), ErrorView>(ErrorView::DeviceIOError { path: unreadable }),
            )
            &&& run.after(replies).request() is None
            &&& run.performed(replies) == seq![
                RequestView::Enumerate { pattern: epp_pattern_of(root) },
            ] + writes_of(before, 0, before.len(), value)
        }),
{
    let listing = all_found(before) + seq![EntryView::Unreadable(unreadable)] + rest;
    lemma_epp_listing_then_writes(root, value, then_gt, listing, before.len());
    assert(writes_of(entry_paths(listing), 0, before.len(), value) =~= writes_of(
        before,
        0,
        before.len(),
        value,
    ));
}

/// Every entry of a listing in which all paths were found is found, and the
/// path found last is the last path.
pub proof fn lemma_all_found(paths: Seq<Seq<char>>)
    ensures
        entry_paths(all_found(paths)) == paths,
        paths.len() > 0 ==> last_found(all_found(paths)) == Some(paths.last()),
        paths.len() == 0 ==> last_found(all_found(paths)) is None,
{
    assert(entry_paths(all_found(paths)) =~= paths);
}

/// On a device on which every operation succeeds, a policy re-evaluation
/// writes the preference that the two modes call for once to each file that
/// matches, in order. It then reads both frequencies in the directory of the
/// card found last, writes the one that the mode calls for to the boost file
/// in that directory, and ends well. It does nothing else.
pub proof fn lemma_reevaluation_on_a_healthy_device(
    rtc: RTCAudioActive,
    fullscreen: FullscreenVideo,
    targets: Seq<Seq<char>>,
    found: Seq<Seq<char>>,
    card: Seq<char>,
    min_freq: Seq<char>,
    max_freq: Seq<char>,
)
    requires
        found.len() > 0,
        directory_of(found.last()) == Some(card),
    ensures
        ({
            let run = RunView::reevaluation(rtc, fullscreen);
            let paths = GtPathsView::initial();
            let replies = seq![ReplyView::Paths(all_found(targets))] + all_written(targets.len())
                + seq![
                ReplyView::Paths(all_found(found)),
                ReplyView::Content(min_freq),
                ReplyView::Content(max_freq),
                ReplyView::Written,
            ];
            &&& run.after(replies).result() == Some(Ok::<(), ErrorView>(()))
            &&& run.performed(replies) == seq![
                RequestView::Enumerate { pattern: epp_pattern_of("/"@) },
            ] + writes_of(targets, 0, targets.len(), epp_value(rtc, fullscreen)) + seq![
                RequestView::Enumerate { pattern: paths.card_pattern() },
                RequestView::Read { path: joined(card, paths.min) },
                RequestView::Read { path: joined(card, paths.max) },
                RequestView::Write {
                    path: joined(card, paths.boost),
                    value: if rtc == RTCAudioActive::Active {
                        min_freq
                    } else {
                        max_freq
                    },
                },
            ]
        }),
{
    let run = RunView::reevaluation(rtc, fullscreen);
    let value = epp_value(rtc, fullscreen);
    let entries = all_found(targets);
    let first = seq![ReplyView::Paths(entries)] + all_written(targets.len());
    let boost = seq![
        ReplyView::Paths(all_found(found)),
        ReplyView::Content(min_freq),
        ReplyView::Content(max_freq),
        ReplyView::Written,
    ];
    lemma_all_found(targets);
    lemma_epp_listing_then_writes("/"@, value, Some(rtc), entries, targets.len());
    let enumerating = run.after(first);
    assert(enumerating.stage == RunView::start_gt(rtc).stage);
    lemma_gt_boost_on_a_healthy_device(enumerating, found, card, min_freq, max_freq);
    lemma_replies_in_portions(run, first, boost);
}

/// On a device on which every operation succeeds, setting the GPU boost
/// frequency reads both frequencies in the directory of the card found last
/// and writes the one that the mode calls for to the boost file in that
/// directory.
pub proof fn lemma_gt_boost_on_a_healthy_device(
    run: RunView,
    found: Seq<Seq<char>>,
    card: Seq<char>,
    min_freq: Seq<char>,
    max_freq: Seq<char>,
)
    requires
        run.stage is GtEnumerate,
        found.len() > 0,
        directory_of(found.last()) == Some(card),
    ensures
        ({
            let paths = run.stage->GtEnumerate_paths;
            let mode = run.stage->GtEnumerate_mode;
            let replies = seq![
                ReplyView::Paths(all_found(found)),
                ReplyView::Content(min_freq),
                ReplyView::Content(max_freq),
                ReplyView::Written,
            ];
            &&& run.after(replies).result() == Some(Ok::<(), ErrorView>(()))
            &&& run.performed(replies) == seq![
                RequestView::Enumerate { pattern: paths.card_pattern() },
                RequestView::Read { path: joined(card, paths.min) },
                RequestView::Read { path: joined(card, paths.max) },
                RequestView::Write {
                    path: joined(card, paths.boost),
                    value: if mode == RTCAudioActive::Active {
                        min_freq
                    } else {
                        max_freq
                    },
                },
            ]
        }),
{
    let replies = seq![
        ReplyView::Paths(all_found(found)),
        ReplyView::Content(min_freq),
        ReplyView::Content(max_freq),
        ReplyView::Written,
    ];
    lemma_all_found(found);
    let r1 = replies.drop_first();
    let r2 = r1.drop_first();
    let r3 = r2.drop_first();
    let r4 = r3.drop_first();
    assert(r4.len() == 0);
    let s1 = run.step(replies[0]);
    let s2 = s1.step(r1[0]);
    let s3 = s2.step(r2[0]);
    let s4 = s3.step(r3[0]);
    assert(s4.after(r4) == s4);
    assert(s3.after(r3) == s4);
    assert(s2.after(r2) == s4);
    assert(s1.after(r1) == s4);
    assert(run.after(replies) == s4);
    assert(s4.performed(r4) =~= Seq::<RequestView>::empty());
    assert(s3.performed(r3) =~= seq![s3.request()->0]);
    assert(s2.performed(r2) =~= seq![s2.request()->0, s3.request()->0]);
    assert(s1.performed(r1) =~= seq![s1.request()->0, s2.request()->0, s3.request()->0]);
    assert(run.performed(replies) =~= seq![
        run.request()->0,
        s1.request()->0,
        s2.request()->0,
        s3.request()->0,
    ]);
}

} // verus!
