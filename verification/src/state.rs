//! The shared state store: one guarded cell for each workload mode, and the
//! operations that read and write them.
//!
//! Recording real-time audio or fullscreen video is followed by a policy
//! re-evaluation, which looks at both of them as they are at that moment.

use crate::error::{failure_view, DaemonError, ErrorView};
use crate::modes::{FullscreenVideo, GameMode, RTCAudioActive};
use crate::device::{all_found, directory_of, joined, ReplyView, RequestView};
use crate::policy::{
    all_written, epp_pattern_of, epp_value, lemma_failed_preference_write_ends_the_run,
    lemma_reevaluation_on_a_healthy_device, select_epp, set_epp, writes_of, GtPathsView,
    PolicyRun, RunView,
};
use vstd::prelude::*;

verus! {

/// A value behind a guard. The cell always holds a value. Once its guard is
/// poisoned, which stands for an accessor that failed while it held the
/// guard, every access is refused and the value stays as it was.
pub struct StateCell<T> {
    value: T,
    poisoned: bool,
}

/// What a [`StateCell`] holds, and whether its guard can still be taken.
pub struct CellView<T> {
    pub value: T,
    pub available: bool,
}

impl<T> View for StateCell<T> {
    type V = CellView<T>;

    closed spec fn view(&self) -> CellView<T> {
        CellView { value: self.value, available: !self.poisoned }
    }
}

impl<T> CellView<T> {
    /// What reading the cell gives.
    pub open spec fn read(self) -> Result<T, ErrorView> {
        if self.available {
            Ok(self.value)
        } else {
            Err(ErrorView::StateUnavailable)
        }
    }

    /// The cell after an attempt to write `value` to it.
    pub open spec fn written(self, value: T) -> CellView<T> {
        if self.available {
            CellView { value, available: true }
        } else {
            self
        }
    }

    /// What an attempt to write the cell gives.
    pub open spec fn write_result(self) -> Result<(), ErrorView> {
        if self.available {
            Ok(())
        } else {
            Err(ErrorView::StateUnavailable)
        }
    }
}

impl<T: Copy> StateCell<T> {
    /// A cell that holds `value` behind an intact guard.
    pub fn new(value: T) -> (cell: StateCell<T>)
        ensures
            cell@ == (CellView { value, available: true }),
    {
        StateCell { value, poisoned: false }
    }

    /// Takes the guard and reads the value.
    pub fn get(&self) -> (r: Result<T, DaemonError>)
        ensures
            failure_view(r) == self@.read(),
    {
        if self.poisoned {
            Err(DaemonError::StateUnavailable)
        } else {
            Ok(self.value)
        }
    }

    /// Takes the guard and replaces the value.
    pub fn set(&mut self, value: T) -> (r: Result<(), DaemonError>)
        ensures
            failure_view(r) == old(self)@.write_result(),
            final(self)@ == old(self)@.written(value),
    {
        if self.poisoned {
            Err(DaemonError::StateUnavailable)
        } else {
            self.value = value;
            Ok(())
        }
    }

    /// Poisons the guard. The value is kept, and no access succeeds any more.
    pub fn poison(&mut self)
        ensures
            final(self)@ == (CellView { value: old(self)@.value, available: false }),
    {
        self.poisoned = true;
    }
}

/// The three workload modes of the daemon, each behind a guard of its own.
/// One store is made when the daemon starts and lives as long as it does.
/// The operations take the cells that they touch and no others, so that
/// whoever shares the store can lock each cell by itself.
pub struct StateStore {
    pub game_mode: StateCell<GameMode>,
    pub rtc_audio_active: StateCell<RTCAudioActive>,
    pub fullscreen_video: StateCell<FullscreenVideo>,
}

/// The cells of a [`StateStore`].
pub struct StoreView {
    pub game_mode: CellView<GameMode>,
    pub rtc_audio_active: CellView<RTCAudioActive>,
    pub fullscreen_video: CellView<FullscreenVideo>,
}

impl View for StateStore {
    type V = StoreView;

    open spec fn view(&self) -> StoreView {
        StoreView {
            game_mode: self.game_mode@,
            rtc_audio_active: self.rtc_audio_active@,
            fullscreen_video: self.fullscreen_video@,
        }
    }
}

impl StoreView {
    /// The store of a daemon that has just started.
    pub open spec fn initial() -> StoreView {
        StoreView {
            game_mode: CellView { value: GameMode::Off, available: true },
            rtc_audio_active: CellView { value: RTCAudioActive::Inactive, available: true },
            fullscreen_video: CellView { value: FullscreenVideo::Inactive, available: true },
        }
    }

    /// The store after an attempt to record the game mode.
    pub open spec fn with_game_mode(self, mode: GameMode) -> StoreView {
        StoreView { game_mode: self.game_mode.written(mode), ..self }
    }

    /// The store after an attempt to record the real-time audio activity.
    pub open spec fn with_rtc_audio_active(self, mode: RTCAudioActive) -> StoreView {
        StoreView { rtc_audio_active: self.rtc_audio_active.written(mode), ..self }
    }

    /// The store after an attempt to record the fullscreen video activity.
    pub open spec fn with_fullscreen_video(self, mode: FullscreenVideo) -> StoreView {
        StoreView { fullscreen_video: self.fullscreen_video.written(mode), ..self }
    }

    /// The real-time audio and fullscreen video activity, read together.
    pub open spec fn workload(self) -> Result<(RTCAudioActive, FullscreenVideo), ErrorView> {
        workload_of(self.rtc_audio_active, self.fullscreen_video)
    }

    /// The run that brings the energy-performance preference in line with
    /// the store.
    pub open spec fn epp_update(self) -> Result<RunView, ErrorView> {
        epp_update_of(self.rtc_audio_active, self.fullscreen_video)
    }

    /// The policy re-evaluation that the store calls for.
    pub open spec fn reevaluation(self) -> Result<RunView, ErrorView> {
        reevaluation_of(self.rtc_audio_active, self.fullscreen_video)
    }
}

/// The real-time audio and fullscreen video activity, read together: first
/// the one, then the other, and both or nothing.
pub open spec fn workload_of(
    rtc: CellView<RTCAudioActive>,
    fullscreen: CellView<FullscreenVideo>,
) -> Result<(RTCAudioActive, FullscreenVideo), ErrorView> {
    if rtc.available && fullscreen.available {
        Ok((rtc.value, fullscreen.value))
    } else {
        Err(ErrorView::StateUnavailable)
    }
}

/// The run that brings the energy-performance preference in line with the
/// two cells.
pub open spec fn epp_update_of(
    rtc: CellView<RTCAudioActive>,
    fullscreen: CellView<FullscreenVideo>,
) -> Result<RunView, ErrorView> {
    match workload_of(rtc, fullscreen) {
        Ok((rtc, fullscreen)) => Ok(RunView::start_epp("/"@, epp_value(rtc, fullscreen), None)),
        Err(e) => Err(e),
    }
}

/// The policy re-evaluation that the two cells call for.
pub open spec fn reevaluation_of(
    rtc: CellView<RTCAudioActive>,
    fullscreen: CellView<FullscreenVideo>,
) -> Result<RunView, ErrorView> {
    match workload_of(rtc, fullscreen) {
        Ok((rtc, fullscreen)) => Ok(RunView::reevaluation(rtc, fullscreen)),
        Err(e) => Err(e),
    }
}

/// A run or a failure, the one and the other by its view.
pub open spec fn run_view(result: Result<PolicyRun, DaemonError>) -> Result<RunView, ErrorView> {
    match result {
        Ok(run) => Ok(run@),
        Err(e) => Err(e@),
    }
}

impl StateStore {
    /// The store of a daemon that has just started: game mode off, no
    /// real-time audio, no fullscreen video, every guard intact.
    pub fn new() -> (store: StateStore)
        ensures
            store@ == StoreView::initial(),
    {
        StateStore {
            game_mode: StateCell::new(GameMode::Off),
            rtc_audio_active: StateCell::new(RTCAudioActive::Inactive),
            fullscreen_video: StateCell::new(FullscreenVideo::Inactive),
        }
    }
}

/// Reads real-time audio and fullscreen video activity together, the guards
/// taken in this order.
fn workload(rtc: &StateCell<RTCAudioActive>, fullscreen: &StateCell<FullscreenVideo>) -> (r: Result<
    (RTCAudioActive, FullscreenVideo),
    DaemonError,
>)
    ensures
        failure_view(r) == workload_of(rtc@, fullscreen@),
{
    let rtc = rtc.get()?;
    let fullscreen = fullscreen.get()?;
    Ok((rtc, fullscreen))
}

/// Records the game mode. Policy is not re-evaluated.
pub fn set_game_mode(game_mode: &mut StateCell<GameMode>, mode: GameMode) -> (r: Result<
    (),
    DaemonError,
>)
    ensures
        failure_view(r) == old(game_mode)@.write_result(),
        final(game_mode)@ == old(game_mode)@.written(mode),
{
    game_mode.set(mode)
}

/// The game mode that was recorded last.
pub fn get_game_mode(game_mode: &StateCell<GameMode>) -> (r: Result<GameMode, DaemonError>)
    ensures
        failure_view(r) == game_mode@.read(),
{
    game_mode.get()
}

/// The run that brings the energy-performance preference in line with the
/// real-time audio and fullscreen video activity as recorded.
pub fn update_epp_if_needed(
    rtc_audio_active: &StateCell<RTCAudioActive>,
    fullscreen_video: &StateCell<FullscreenVideo>,
) -> (r: Result<PolicyRun, DaemonError>)
    ensures
        run_view(r) == epp_update_of(rtc_audio_active@, fullscreen_video@),
{
    let (rtc, fullscreen) = workload(rtc_audio_active, fullscreen_video)?;
    Ok(set_epp("/", select_epp(rtc, fullscreen)))
}

/// Records the real-time audio activity and, if that went through, hands
/// out the policy re-evaluation that has to follow. The record stays
/// whatever becomes of the re-evaluation.
pub fn set_rtc_audio_active(
    rtc_audio_active: &mut StateCell<RTCAudioActive>,
    fullscreen_video: &StateCell<FullscreenVideo>,
    mode: RTCAudioActive,
) -> (r: Result<PolicyRun, DaemonError>)
    ensures
        final(rtc_audio_active)@ == old(rtc_audio_active)@.written(mode),
        old(rtc_audio_active)@.available ==> run_view(r) == reevaluation_of(
            final(rtc_audio_active)@,
            fullscreen_video@,
        ),
        !old(rtc_audio_active)@.available ==> run_view(r) == Err::<RunView, ErrorView>(
            ErrorView::StateUnavailable,
        ),
{
    rtc_audio_active.set(mode)?;
    let (rtc, fullscreen) = workload(rtc_audio_active, fullscreen_video)?;
    Ok(PolicyRun::reevaluate(rtc, fullscreen))
}

/// Whether real-time audio was last recorded as active.
pub fn get_rtc_audio_active(rtc_audio_active: &StateCell<RTCAudioActive>) -> (r: Result<
    RTCAudioActive,
    DaemonError,
>)
    ensures
        failure_view(r) == rtc_audio_active@.read(),
{
    rtc_audio_active.get()
}

/// Records the fullscreen video activity and, if that went through, hands
/// out the policy re-evaluation that has to follow. The record stays
/// whatever becomes of the re-evaluation.
pub fn set_fullscreen_video(
    rtc_audio_active: &StateCell<RTCAudioActive>,
    fullscreen_video: &mut StateCell<FullscreenVideo>,
    mode: FullscreenVideo,
) -> (r: Result<PolicyRun, DaemonError>)
    ensures
        final(fullscreen_video)@ == old(fullscreen_video)@.written(mode),
        old(fullscreen_video)@.available ==> run_view(r) == reevaluation_of(
            rtc_audio_active@,
            final(fullscreen_video)@,
        ),
        !old(fullscreen_video)@.available ==> run_view(r) == Err::<RunView, ErrorView>(
            ErrorView::StateUnavailable,
        ),
{
    fullscreen_video.set(mode)?;
    let (rtc, fullscreen) = workload(rtc_audio_active, fullscreen_video)?;
    Ok(PolicyRun::reevaluate(rtc, fullscreen))
}

/// Whether fullscreen video was last recorded as active.
pub fn get_fullscreen_video(fullscreen_video: &StateCell<FullscreenVideo>) -> (r: Result<
    FullscreenVideo,
    DaemonError,
>)
    ensures
        failure_view(r) == fullscreen_video@.read(),
{
    fullscreen_video.get()
}

/// What was recorded is what is read, until something else is recorded:
/// a mode that was set on an intact cell is the mode that a get returns,
/// and setting one mode leaves the other two as they were.
pub proof fn lemma_set_then_get(
    store: StoreView,
    game: GameMode,
    rtc: RTCAudioActive,
    fullscreen: FullscreenVideo,
)
    ensures
        store.game_mode.available ==> store.with_game_mode(game).game_mode.read() == Ok::<
            GameMode,
            ErrorView,
        >(game),
        store.rtc_audio_active.available ==> store.with_rtc_audio_active(
            rtc,
        ).rtc_audio_active.read() == Ok::<RTCAudioActive, ErrorView>(rtc),
        store.fullscreen_video.available ==> store.with_fullscreen_video(
            fullscreen,
        ).fullscreen_video.read() == Ok::<FullscreenVideo, ErrorView>(fullscreen),
        store.with_game_mode(game).rtc_audio_active == store.rtc_audio_active,
        store.with_game_mode(game).fullscreen_video == store.fullscreen_video,
        store.with_rtc_audio_active(rtc).game_mode == store.game_mode,
        store.with_rtc_audio_active(rtc).fullscreen_video == store.fullscreen_video,
        store.with_fullscreen_video(fullscreen).game_mode == store.game_mode,
        store.with_fullscreen_video(fullscreen).rtc_audio_active == store.rtc_audio_active,
{
}

/// An attempt to record a mode on a cell whose guard is poisoned changes
/// nothing at all.
pub proof fn lemma_refused_set_changes_nothing(
    store: StoreView,
    game: GameMode,
    rtc: RTCAudioActive,
    fullscreen: FullscreenVideo,
)
    ensures
        !store.game_mode.available ==> store.with_game_mode(game) == store,
        !store.rtc_audio_active.available ==> store.with_rtc_audio_active(rtc) == store,
        !store.fullscreen_video.available ==> store.with_fullscreen_video(fullscreen) == store,
{
}

/// The re-evaluation that follows a set looks at both modes as the store
/// holds them after the set, not only at the one that was set.
pub proof fn lemma_reevaluation_reads_both_modes(
    store: StoreView,
    rtc: RTCAudioActive,
    fullscreen: FullscreenVideo,
)
    requires
        store.rtc_audio_active.available,
        store.fullscreen_video.available,
    ensures
        store.with_rtc_audio_active(rtc).reevaluation() == Ok::<RunView, ErrorView>(
            RunView::reevaluation(rtc, store.fullscreen_video.value),
        ),
        store.with_fullscreen_video(fullscreen).reevaluation() == Ok::<RunView, ErrorView>(
            RunView::reevaluation(store.rtc_audio_active.value, fullscreen),
        ),
{
}

/// A write of the preference that fails while real-time audio activity is
/// being set surfaces as the failure of that file, stops the re-evaluation
/// before the GPU boost frequency, and leaves the new activity recorded.
pub proof fn lemma_record_outlives_failed_write(
    store: StoreView,
    mode: RTCAudioActive,
    targets: Seq<Seq<char>>,
    written: nat,
    failure: ReplyView,
)
    requires
        store.rtc_audio_active.available,
        store.fullscreen_video.available,
        written < targets.len(),
        !(failure is Written),
    ensures
        ({
            let recorded = store.with_rtc_audio_active(mode);
            let replies = seq![ReplyView::Paths(all_found(targets))] + all_written(written)
                + seq![failure];
            &&& recorded.reevaluation() is Ok
            &&& recorded.reevaluation()->Ok_0.after(replies).result() == Some(
                Err::<(), ErrorView>(ErrorView::DeviceIOError { path: targets[written as int] }),
            )
            &&& recorded.reevaluation()->Ok_0.after(replies).request() is None
            &&& recorded.rtc_audio_active.read() == Ok::<RTCAudioActive, ErrorView>(mode)
        }),
{
    lemma_failed_preference_write_ends_the_run(
        "/"@,
        epp_value(mode, store.fullscreen_video.value),
        Some(mode),
        targets,
        written,
        failure,
    );
}

/// Setting real-time audio to active on a device on which every operation
/// succeeds writes `179` once to each preference file, then the lowest
/// frequency once to the boost file of the card, and nothing else.
pub proof fn lemma_active_audio_on_a_healthy_device(
    store: StoreView,
    targets: Seq<Seq<char>>,
    found: Seq<Seq<char>>,
    card: Seq<char>,
    min_freq: Seq<char>,
    max_freq: Seq<char>,
)
    requires
        store.rtc_audio_active.available,
        store.fullscreen_video.available,
        found.len() > 0,
        directory_of(found.last()) == Some(card),
    ensures
        ({
            let recorded = store.with_rtc_audio_active(RTCAudioActive::Active);
            let paths = GtPathsView::initial();
            let replies = seq![ReplyView::Paths(all_found(targets))] + all_written(targets.len())
                + seq![
                ReplyView::Paths(all_found(found)),
                ReplyView::Content(min_freq),
                ReplyView::Content(max_freq),
                ReplyView::Written,
            ];
            &&& recorded.reevaluation() is Ok
            &&& recorded.reevaluation()->Ok_0.after(replies).result() == Some(
                Ok::<(), ErrorView>(()),
            )
            &&& recorded.reevaluation()->Ok_0.performed(replies) == seq![
                RequestView::Enumerate { pattern: epp_pattern_of("/"@) },
            ] + writes_of(targets, 0, targets.len(), "179"@) + seq![
                RequestView::Enumerate { pattern: paths.card_pattern() },
                RequestView::Read { path: joined(card, paths.min) },
                RequestView::Read { path: joined(card, paths.max) },
                RequestView::Write { path: joined(card, paths.boost), value: min_freq },
            ]
        }),
{
    lemma_reevaluation_on_a_healthy_device(
        RTCAudioActive::Active,
        store.fullscreen_video.value,
        targets,
        found,
        card,
        min_freq,
        max_freq,
    );
}

} // verus!
