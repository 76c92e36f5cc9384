//! The control plane of the render-owner thread.
//!
//! Commands arrive from an acceptor over a bounded FIFO queue; the
//! single owner thread drains them in order and answers each one.
//! The handlers here make every decision — parsing, layout compilation,
//! the playback state machine, which reply to send — and emit the
//! side effects as an ordered list of [`Action`]s for the host to
//! perform, so that the whole decision path is verified.

use vstd::prelude::*;

use crate::config::{WallpaperConfig, WallpaperConfigV};
use crate::config_parse::{parse_wallpaper_config, spec_parse_config};
use crate::launch_mode::LaunchMode;
use crate::layout::{spec_layout, WindowInfoV, WindowLayout};
use crate::monitor::{MonitorEntryV, MonitorMap};
use crate::playback::PlaybackState;

verus! {

/// A request accepted from the remote control surface. Every variant
/// but `Quit` is answered with exactly one reply.
#[derive(Debug, PartialEq, Eq)]
pub enum Command {
    ApplyWallpaper { config_json: String, launch_mode: String },
    DisableWallpaper,
    Pause,
    Resume,
    Quit,
    GetState,
}

/// Spec-level model of [`Command`].
pub enum CommandV {
    ApplyWallpaper { config_json: Seq<char>, launch_mode: Seq<char> },
    DisableWallpaper,
    Pause,
    Resume,
    Quit,
    GetState,
}

impl View for Command {
    type V = CommandV;

    open spec fn view(&self) -> CommandV {
        match self {
            Command::ApplyWallpaper { config_json, launch_mode } => CommandV::ApplyWallpaper {
                config_json: config_json@,
                launch_mode: launch_mode@,
            },
            Command::DisableWallpaper => CommandV::DisableWallpaper,
            Command::Pause => CommandV::Pause,
            Command::Resume => CommandV::Resume,
            Command::Quit => CommandV::Quit,
            Command::GetState => CommandV::GetState,
        }
    }
}

/// What the owner thread answers.
#[derive(Debug, PartialEq, Eq)]
pub enum Reply {
    /// Answer to `ApplyWallpaper`: success, or a failure message.
    Applied(Result<bool, String>),
    /// Answer to `DisableWallpaper`, `Pause` and `Resume`.
    Flag(bool),
    /// Answer to `GetState`: the playback state label.
    StateLabel(String),
}

/// Spec-level model of [`Reply`].
pub enum ReplyV {
    Applied(Result<bool, Seq<char>>),
    Flag(bool),
    StateLabel(Seq<char>),
}

impl View for Reply {
    type V = ReplyV;

    open spec fn view(&self) -> ReplyV {
        match self {
            Reply::Applied(r) => ReplyV::Applied(
                match r {
                    Ok(b) => Ok(*b),
                    Err(e) => Err(e@),
                },
            ),
            Reply::Flag(b) => ReplyV::Flag(*b),
            Reply::StateLabel(s) => ReplyV::StateLabel(s@),
        }
    }
}

/// The view of an optional reply.
pub open spec fn opt_reply_view(r: Option<Reply>) -> Option<ReplyV> {
    match r {
        Some(x) => Some(x@),
        None => None,
    }
}

/// One side effect the host must perform, in the order emitted, after a
/// handler has made its decisions.
#[derive(Debug, PartialEq, Eq)]
pub enum Action {
    /// Close every renderer window.
    CloseAllWindows,
    /// Stop playback on every renderer.
    StopAllRenderers,
    /// Drop every renderer from the registry.
    ClearRenderers,
    /// Create one window per directive, one renderer per `Primary`,
    /// mirror each `Clone` from its source, and start playback.
    BuildWindows(WindowLayout),
    /// Re-apply the recorded volume, mute and content-fit settings, but
    /// only after yielding control back to the owner loop at least
    /// once: applying them during a renderer's own in-flight startup
    /// transition can deadlock the owner thread.
    DeferSettingsReapply,
    /// Persist the applied strings for restart-time auto-resume.
    PersistConfig { config_json: String, launch_mode: String },
    /// Clear the persisted configuration.
    ClearPersistedConfig,
    /// Pause every renderer.
    PauseAllRenderers,
    /// Start playback on every renderer.
    PlayAllRenderers,
    /// Shut the host process down in an orderly way.
    QuitApp,
}

/// Spec-level model of [`Action`].
pub enum ActionV {
    CloseAllWindows,
    StopAllRenderers,
    ClearRenderers,
    BuildWindows(Seq<WindowInfoV>),
    DeferSettingsReapply,
    PersistConfig { config_json: Seq<char>, launch_mode: Seq<char> },
    ClearPersistedConfig,
    PauseAllRenderers,
    PlayAllRenderers,
    QuitApp,
}

impl View for Action {
    type V = ActionV;

    open spec fn view(&self) -> ActionV {
        match self {
            Action::CloseAllWindows => ActionV::CloseAllWindows,
            Action::StopAllRenderers => ActionV::StopAllRenderers,
            Action::ClearRenderers => ActionV::ClearRenderers,
            Action::BuildWindows(l) => ActionV::BuildWindows(l@),
            Action::DeferSettingsReapply => ActionV::DeferSettingsReapply,
            Action::PersistConfig { config_json, launch_mode } => ActionV::PersistConfig {
                config_json: config_json@,
                launch_mode: launch_mode@,
            },
            Action::ClearPersistedConfig => ActionV::ClearPersistedConfig,
            Action::PauseAllRenderers => ActionV::PauseAllRenderers,
            Action::PlayAllRenderers => ActionV::PlayAllRenderers,
            Action::QuitApp => ActionV::QuitApp,
        }
    }
}

/// The view of an action list.
pub open spec fn actions_view(a: Seq<Action>) -> Seq<ActionV> {
    a.map_values(|x: Action| x@)
}

/// The owner thread's mutable state: the active configuration, the
/// launch mode it was applied with, and the playback machine. The
/// renderer registry itself lives with the host; every mutation of it
/// is an emitted [`Action`].
#[derive(Debug)]
pub struct RendererState {
    pub config: Option<WallpaperConfig>,
    pub launch_mode: LaunchMode,
    pub playback_state: PlaybackState,
}

/// Spec-level model of [`RendererState`].
pub struct RendererStateV {
    pub config: Option<WallpaperConfigV>,
    pub launch_mode: LaunchMode,
    pub playback_state: PlaybackState,
}

impl View for RendererState {
    type V = RendererStateV;

    open spec fn view(&self) -> RendererStateV {
        RendererStateV {
            config: match &self.config {
                Some(c) => Some(c@),
                None => None,
            },
            launch_mode: self.launch_mode,
            playback_state: self.playback_state,
        }
    }
}

/// A handler's outcome: the state afterwards, the reply owed (none only
/// for `Quit`), and the effects for the host, in order.
pub struct StepV {
    pub post: RendererStateV,
    pub reply: Option<ReplyV>,
    pub actions: Seq<ActionV>,
}

/// `ApplyWallpaper`: on either parse failure, a failure reply and no
/// mutation; on success the config is recorded, the old windows are
/// torn down and rebuilt from the compiled layout, playback starts, and
/// the strings are persisted.
pub open spec fn spec_apply(
    s: RendererStateV,
    config_json: Seq<char>,
    launch_mode: Seq<char>,
    topo: Seq<MonitorEntryV>,
) -> StepV {
    match spec_parse_config(config_json) {
        None => StepV {
            post: s,
            reply: Some(ReplyV::Applied(Err("Invalid config JSON"@))),
            actions: Seq::empty(),
        },
        Some(cfg) => match LaunchMode::spec_from_label(launch_mode) {
            Err(_) => StepV {
                post: s,
                reply: Some(ReplyV::Applied(Err("Invalid launch mode"@))),
                actions: Seq::empty(),
            },
            Ok(lm) => StepV {
                post: RendererStateV {
                    config: Some(cfg),
                    launch_mode: lm,
                    playback_state: PlaybackState::Playing,
                },
                reply: Some(ReplyV::Applied(Ok(true))),
                actions: seq![
                    ActionV::CloseAllWindows,
                    ActionV::BuildWindows(spec_layout(cfg, topo)),
                    ActionV::DeferSettingsReapply,
                    ActionV::PersistConfig { config_json, launch_mode },
                ],
            },
        },
    }
}

/// `DisableWallpaper`: always succeeds, also when nothing is active;
/// every renderer is stopped and dropped, the config and the persisted
/// strings are cleared, and playback is idle.
pub open spec fn spec_disable(s: RendererStateV) -> StepV {
    StepV {
        post: RendererStateV {
            config: None,
            launch_mode: s.launch_mode,
            playback_state: PlaybackState::Idle,
        },
        reply: Some(ReplyV::Flag(true)),
        actions: seq![
            ActionV::StopAllRenderers,
            ActionV::CloseAllWindows,
            ActionV::ClearRenderers,
            ActionV::ClearPersistedConfig,
        ],
    }
}

/// `Pause`: rejected with `false` and no mutation unless playing.
pub open spec fn spec_pause(s: RendererStateV) -> StepV {
    if s.playback_state is Playing {
        StepV {
            post: RendererStateV { playback_state: PlaybackState::Paused, ..s },
            reply: Some(ReplyV::Flag(true)),
            actions: seq![ActionV::PauseAllRenderers],
        }
    } else {
        StepV { post: s, reply: Some(ReplyV::Flag(false)), actions: Seq::empty() }
    }
}

/// `Resume`: rejected with `false` and no mutation unless paused.
pub open spec fn spec_resume(s: RendererStateV) -> StepV {
    if s.playback_state is Paused {
        StepV {
            post: RendererStateV { playback_state: PlaybackState::Playing, ..s },
            reply: Some(ReplyV::Flag(true)),
            actions: seq![ActionV::PlayAllRenderers],
        }
    } else {
        StepV { post: s, reply: Some(ReplyV::Flag(false)), actions: Seq::empty() }
    }
}

/// What one command does to the owner state, which reply it earns and
/// which effects it emits.
pub open spec fn spec_step(s: RendererStateV, cmd: CommandV, topo: Seq<MonitorEntryV>) -> StepV {
    match cmd {
        CommandV::ApplyWallpaper { config_json, launch_mode } => spec_apply(
            s,
            config_json,
            launch_mode,
            topo,
        ),
        CommandV::DisableWallpaper => spec_disable(s),
        CommandV::Pause => spec_pause(s),
        CommandV::Resume => spec_resume(s),
        CommandV::Quit => StepV { post: s, reply: None, actions: seq![ActionV::QuitApp] },
        CommandV::GetState => StepV {
            post: s,
            reply: Some(ReplyV::StateLabel(s.playback_state.spec_str())),
            actions: Seq::empty(),
        },
    }
}

impl RendererState {
    /// A fresh owner state: idle, with nothing applied.
    pub fn new() -> (r: RendererState)
        ensures
            r@ == (RendererStateV {
                config: None,
                launch_mode: LaunchMode::Windowed,
                playback_state: PlaybackState::Idle,
            }),
    {
        RendererState {
            config: None,
            launch_mode: LaunchMode::default(),
            playback_state: PlaybackState::Idle,
        }
    }

    /// Handles `ApplyWallpaper`, deciding exactly as [`spec_apply`].
    pub fn apply_wallpaper(
        &mut self,
        config_json: &str,
        launch_mode_str: &str,
        topology: &MonitorMap,
    ) -> (r: (Result<bool, String>, Vec<Action>))
        requires
            topology.wf(),
        ensures
            final(self)@ == spec_apply(old(self)@, config_json@, launch_mode_str@, topology@).post,
            Some(ReplyV::Applied(
                match r.0 {
                    Ok(b) => Ok(b),
                    Err(e) => Err(e@),
                },
            )) == spec_apply(old(self)@, config_json@, launch_mode_str@, topology@).reply,
            actions_view(r.1@) == spec_apply(
                old(self)@,
                config_json@,
                launch_mode_str@,
                topology@,
            ).actions,
    {
        match parse_wallpaper_config(config_json) {
            Err(_) => {
                let actions: Vec<Action> = Vec::new();
                proof {
                    assert(actions_view(actions@) =~= Seq::<ActionV>::empty());
                }
                (Err("Invalid config JSON".to_owned()), actions)
            },
            Ok(config) => match LaunchMode::from_str(launch_mode_str) {
                Err(_) => {
                    let actions: Vec<Action> = Vec::new();
                    proof {
                        assert(actions_view(actions@) =~= Seq::<ActionV>::empty());
                    }
                    (Err("Invalid launch mode".to_owned()), actions)
                },
                Ok(lm) => {
                    // Record the new state before the teardown actions,
                    // so a topology change racing with this call already
                    // sees the configuration it must rebuild.
                    let layout = WindowLayout::new(&config, topology);
                    self.launch_mode = lm;
                    self.config = Some(config);
                    self.playback_state = PlaybackState::Playing;
                    let mut actions: Vec<Action> = Vec::new();
                    actions.push(Action::CloseAllWindows);
                    actions.push(Action::BuildWindows(layout));
                    actions.push(Action::DeferSettingsReapply);
                    actions.push(
                        Action::PersistConfig {
                            config_json: config_json.to_owned(),
                            launch_mode: launch_mode_str.to_owned(),
                        },
                    );
                    proof {
                        assert(actions_view(actions@) =~= spec_apply(
                            old(self)@,
                            config_json@,
                            launch_mode_str@,
                            topology@,
                        ).actions);
                    }
                    (Ok(true), actions)
                },
            },
        }
    }

    /// Handles `DisableWallpaper`, deciding exactly as [`spec_disable`]:
    /// the reply is `true` even when nothing is active, and the
    /// persisted configuration is cleared.
    pub fn disable_wallpaper(&mut self) -> (r: (bool, Vec<Action>))
        ensures
            final(self)@ == spec_disable(old(self)@).post,
            Some(ReplyV::Flag(r.0)) == spec_disable(old(self)@).reply,
            actions_view(r.1@) == spec_disable(old(self)@).actions,
            r.0 == true,
    {
        self.config = None;
        self.playback_state = PlaybackState::Idle;
        let mut actions: Vec<Action> = Vec::new();
        actions.push(Action::StopAllRenderers);
        actions.push(Action::CloseAllWindows);
        actions.push(Action::ClearRenderers);
        actions.push(Action::ClearPersistedConfig);
        proof {
            assert(actions_view(actions@) =~= spec_disable(old(self)@).actions);
        }
        (true, actions)
    }

    /// Handles `Pause`, deciding exactly as [`spec_pause`]: `false` and
    /// no mutation unless the state was `Playing`.
    pub fn pause(&mut self) -> (r: (bool, Vec<Action>))
        ensures
            final(self)@ == spec_pause(old(self)@).post,
            Some(ReplyV::Flag(r.0)) == spec_pause(old(self)@).reply,
            actions_view(r.1@) == spec_pause(old(self)@).actions,
            r.0 == (old(self).playback_state is Playing),
    {
        if !matches!(self.playback_state, PlaybackState::Playing) {
            let actions: Vec<Action> = Vec::new();
            proof {
                assert(actions_view(actions@) =~= Seq::<ActionV>::empty());
            }
            return (false, actions);
        }
        self.playback_state = PlaybackState::Paused;
        let mut actions: Vec<Action> = Vec::new();
        actions.push(Action::PauseAllRenderers);
        proof {
            assert(actions_view(actions@) =~= seq![ActionV::PauseAllRenderers]);
        }
        (true, actions)
    }

    /// Handles `Resume`, deciding exactly as [`spec_resume`]: `false`
    /// and no mutation unless the state was `Paused`.
    pub fn resume(&mut self) -> (r: (bool, Vec<Action>))
        ensures
            final(self)@ == spec_resume(old(self)@).post,
            Some(ReplyV::Flag(r.0)) == spec_resume(old(self)@).reply,
            actions_view(r.1@) == spec_resume(old(self)@).actions,
            r.0 == (old(self).playback_state is Paused),
    {
        if !matches!(self.playback_state, PlaybackState::Paused) {
            let actions: Vec<Action> = Vec::new();
            proof {
                assert(actions_view(actions@) =~= Seq::<ActionV>::empty());
            }
            return (false, actions);
        }
        self.playback_state = PlaybackState::Playing;
        let mut actions: Vec<Action> = Vec::new();
        actions.push(Action::PlayAllRenderers);
        proof {
            assert(actions_view(actions@) =~= seq![ActionV::PlayAllRenderers]);
        }
        (true, actions)
    }

    /// The label `GetState` replies with; read-only.
    pub fn get_state(&self) -> (r: String)
        ensures
            r@ == self.playback_state.spec_str(),
    {
        self.playback_state.as_str().to_owned()
    }

    /// Dispatches one drained command, deciding exactly as
    /// [`spec_step`]; only `Quit` earns no reply.
    pub fn handle_command(&mut self, cmd: &Command, topology: &MonitorMap) -> (r: (
        Option<Reply>,
        Vec<Action>,
    ))
        requires
            topology.wf(),
        ensures
            final(self)@ == spec_step(old(self)@, cmd@, topology@).post,
            opt_reply_view(r.0) == spec_step(old(self)@, cmd@, topology@).reply,
            actions_view(r.1@) == spec_step(old(self)@, cmd@, topology@).actions,
    {
        match cmd {
            Command::ApplyWallpaper { config_json, launch_mode } => {
                let (res, actions) = self.apply_wallpaper(
                    config_json.as_str(),
                    launch_mode.as_str(),
                    topology,
                );
                (Some(Reply::Applied(res)), actions)
            },
            Command::DisableWallpaper => {
                let (ok, actions) = self.disable_wallpaper();
                (Some(Reply::Flag(ok)), actions)
            },
            Command::Pause => {
                let (ok, actions) = self.pause();
                (Some(Reply::Flag(ok)), actions)
            },
            Command::Resume => {
                let (ok, actions) = self.resume();
                (Some(Reply::Flag(ok)), actions)
            },
            Command::Quit => {
                let mut actions: Vec<Action> = Vec::new();
                actions.push(Action::QuitApp);
                proof {
                    assert(actions_view(actions@) =~= seq![ActionV::QuitApp]);
                }
                (None, actions)
            },
            Command::GetState => {
                let actions: Vec<Action> = Vec::new();
                proof {
                    assert(actions_view(actions@) =~= Seq::<ActionV>::empty());
                }
                (Some(Reply::StateLabel(self.get_state())), actions)
            },
        }
    }

    /// The reaction to a topology change: with a configuration active,
    /// the identical rebuild path as `ApplyWallpaper` — tear down,
    /// recompile against the new topology, rebuild, re-apply settings —
    /// without touching the playback state or the persisted strings;
    /// with none, nothing at all.
    pub fn handle_monitors_changed(&self, topology: &MonitorMap) -> (r: Vec<Action>)
        requires
            topology.wf(),
        ensures
            actions_view(r@) == spec_monitors_changed(self@, topology@),
    {
        match &self.config {
            Some(config) => {
                let layout = WindowLayout::new(config, topology);
                let mut actions: Vec<Action> = Vec::new();
                actions.push(Action::CloseAllWindows);
                actions.push(Action::BuildWindows(layout));
                actions.push(Action::DeferSettingsReapply);
                proof {
                    assert(actions_view(actions@) =~= spec_monitors_changed(self@, topology@));
                }
                actions
            },
            None => {
                let actions: Vec<Action> = Vec::new();
                proof {
                    assert(actions_view(actions@) =~= Seq::<ActionV>::empty());
                }
                actions
            },
        }
    }
}

/// The view of a reply list.
pub open spec fn replies_view(rs: Seq<Option<Reply>>) -> Seq<Option<ReplyV>> {
    rs.map_values(|x: Option<Reply>| opt_reply_view(x))
}

/// A whole drained batch, folded in submission order.
pub struct RunV {
    pub post: RendererStateV,
    pub replies: Seq<Option<ReplyV>>,
    pub actions: Seq<ActionV>,
}

/// What draining `cmds` in order does: each command steps the state the
/// ones before it left behind.
pub open spec fn spec_run(s: RendererStateV, cmds: Seq<CommandV>, topo: Seq<MonitorEntryV>) -> RunV
    decreases cmds.len(),
{
    if cmds.len() == 0 {
        RunV { post: s, replies: Seq::empty(), actions: Seq::empty() }
    } else {
        let step = spec_step(s, cmds[0], topo);
        let rest = spec_run(step.post, cmds.skip(1), topo);
        RunV {
            post: rest.post,
            replies: seq![step.reply] + rest.replies,
            actions: step.actions + rest.actions,
        }
    }
}

impl RendererState {
    /// Drains a batch of queued commands to completion, in FIFO order,
    /// collecting one reply slot per command and every emitted effect.
    pub fn handle_commands(&mut self, cmds: &Vec<Command>, topology: &MonitorMap) -> (r: (
        Vec<Option<Reply>>,
        Vec<Action>,
    ))
        requires
            topology.wf(),
        ensures
            final(self)@ == spec_run(
                old(self)@,
                cmds@.map_values(|c: Command| c@),
                topology@,
            ).post,
            replies_view(r.0@) == spec_run(
                old(self)@,
                cmds@.map_values(|c: Command| c@),
                topology@,
            ).replies,
            actions_view(r.1@) == spec_run(
                old(self)@,
                cmds@.map_values(|c: Command| c@),
                topology@,
            ).actions,
    {
        let ghost cv = cmds@.map_values(|c: Command| c@);
        let n = cmds.len();
        let mut replies: Vec<Option<Reply>> = Vec::new();
        let mut acts: Vec<Action> = Vec::new();
        let mut i: usize = 0;
        proof {
            assert(cv.skip(0) =~= cv);
            assert(replies_view(replies@) =~= Seq::<Option<ReplyV>>::empty());
            assert(actions_view(acts@) =~= Seq::<ActionV>::empty());
        }
        #[verifier::loop_isolation(false)]
        while i < n
            invariant
                n == cmds@.len(),
                i <= n,
                spec_run(old(self)@, cv, topology@).post == spec_run(
                    self@,
                    cv.skip(i as int),
                    topology@,
                ).post,
                spec_run(old(self)@, cv, topology@).replies == replies_view(replies@) + spec_run(
                    self@,
                    cv.skip(i as int),
                    topology@,
                ).replies,
                spec_run(old(self)@, cv, topology@).actions == actions_view(acts@) + spec_run(
                    self@,
                    cv.skip(i as int),
                    topology@,
                ).actions,
            decreases n - i,
        {
            let ghost pre = self@;
            let ghost rv = replies_view(replies@);
            let ghost av = actions_view(acts@);
            let (reply, mut actions) = self.handle_command(&cmds[i], topology);
            let ghost step = spec_step(pre, cv[i as int], topology@);
            replies.push(reply);
            acts.append(&mut actions);
            proof {
                assert(cv.skip(i as int)[0] == cv[i as int]);
                assert(cv.skip(i as int).skip(1) =~= cv.skip(i + 1));
                assert(replies_view(replies@) =~= rv + seq![step.reply]);
                assert(actions_view(acts@) =~= av + step.actions);
                let rest = spec_run(self@, cv.skip(i + 1), topology@);
                assert((rv + seq![step.reply]) + rest.replies =~= rv + (seq![step.reply]
                    + rest.replies));
                assert((av + step.actions) + rest.actions =~= av + (step.actions + rest.actions));
            }
            i = i + 1;
        }
        proof {
            assert(cv.skip(n as int) =~= Seq::<CommandV>::empty());
            assert(replies_view(replies@) + Seq::<Option<ReplyV>>::empty() =~= replies_view(
                replies@,
            ));
            assert(actions_view(acts@) + Seq::<ActionV>::empty() =~= actions_view(acts@));
        }
        (replies, acts)
    }
}

/// Each drained command earns exactly one reply slot — filled for every
/// command but `Quit` — and the replies stand in strict submission
/// order: the reply at `i` is the `i`-th command's, taken against the
/// state the commands before it produced.
pub proof fn lemma_replies_in_order(
    s: RendererStateV,
    cmds: Seq<CommandV>,
    topo: Seq<MonitorEntryV>,
)
    ensures
        spec_run(s, cmds, topo).replies.len() == cmds.len(),
        forall|i: int| 0 <= i < cmds.len() ==> (spec_run(s, cmds, topo).replies[i] is Some <==> !(
        cmds[i] is Quit)),
        forall|i: int| 0 <= i < cmds.len() ==> spec_run(s, cmds, topo).replies[i] == spec_step(
            spec_run(s, cmds.take(i), topo).post,
            cmds[i],
            topo,
        ).reply,
    decreases cmds.len(),
{
    if cmds.len() > 0 {
        let step = spec_step(s, cmds[0], topo);
        let tail = cmds.skip(1);
        lemma_replies_in_order(step.post, tail, topo);
        assert(cmds.take(0) =~= Seq::<CommandV>::empty());
        assert(spec_run(s, cmds.take(0), topo).post == s);
        assert(step.reply is Some <==> !(cmds[0] is Quit));
        assert forall|i: int| 1 <= i < cmds.len() implies spec_run(s, cmds, topo).replies[i]
            == spec_step(spec_run(s, cmds.take(i), topo).post, cmds[i], topo).reply by {
            assert(spec_run(s, cmds, topo).replies[i] == spec_run(step.post, tail, topo).replies[i
                - 1]);
            assert(tail[i - 1] == cmds[i]);
            assert(tail.take(i - 1) =~= cmds.take(i).skip(1));
            assert(cmds.take(i)[0] == cmds[0]);
            assert(spec_run(s, cmds.take(i), topo).post == spec_run(
                step.post,
                tail.take(i - 1),
                topo,
            ).post);
        }
    }
}

/// `ApplyWallpaper` with a parseable configuration and a known launch
/// mode, then `Pause`, then `Resume`: every reply is a success and the
/// owner ends up `Playing`, from any starting state.
pub proof fn lemma_apply_pause_resume(
    s: RendererStateV,
    config_json: Seq<char>,
    launch_mode: Seq<char>,
    topo: Seq<MonitorEntryV>,
)
    requires
        spec_parse_config(config_json) is Some,
        LaunchMode::spec_from_label(launch_mode) is Ok,
    ensures
        spec_run(
            s,
            seq![
                CommandV::ApplyWallpaper { config_json, launch_mode },
                CommandV::Pause,
                CommandV::Resume,
            ],
            topo,
        ).post.playback_state is Playing,
        spec_run(
            s,
            seq![
                CommandV::ApplyWallpaper { config_json, launch_mode },
                CommandV::Pause,
                CommandV::Resume,
            ],
            topo,
        ).replies == seq![
            Some(ReplyV::Applied(Ok::<bool, Seq<char>>(true))),
            Some(ReplyV::Flag(true)),
            Some(ReplyV::Flag(true)),
        ],
{
    let cmds = seq![
        CommandV::ApplyWallpaper { config_json, launch_mode },
        CommandV::Pause,
        CommandV::Resume,
    ];
    let t2 = seq![CommandV::Pause, CommandV::Resume];
    let t3 = seq![CommandV::Resume];
    assert(cmds.skip(1) =~= t2);
    assert(t2.skip(1) =~= t3);
    assert(t3.skip(1) =~= Seq::<CommandV>::empty());
    let s1 = spec_step(s, cmds[0], topo);
    assert(s1.post.playback_state is Playing);
    let s2 = spec_step(s1.post, CommandV::Pause, topo);
    let s3 = spec_step(s2.post, CommandV::Resume, topo);
    assert(spec_run(s3.post, Seq::<CommandV>::empty(), topo).replies == Seq::<
        Option<ReplyV>,
    >::empty());
    assert(spec_run(s2.post, t3, topo).replies == seq![s3.reply] + spec_run(
        s3.post,
        Seq::<CommandV>::empty(),
        topo,
    ).replies);
    assert(spec_run(s1.post, t2, topo).replies == seq![s2.reply] + spec_run(
        s2.post,
        t3,
        topo,
    ).replies);
    assert(spec_run(s, cmds, topo).replies == seq![s1.reply] + spec_run(s1.post, t2, topo).replies);
    assert(spec_run(s, cmds, topo).post == spec_run(s1.post, t2, topo).post);
    assert(spec_run(s1.post, t2, topo).post == spec_run(s2.post, t3, topo).post);
    assert(spec_run(s2.post, t3, topo).post == s3.post);
    assert(spec_run(s, cmds, topo).replies =~= seq![
        Some(ReplyV::Applied(Ok::<bool, Seq<char>>(true))),
        Some(ReplyV::Flag(true)),
        Some(ReplyV::Flag(true)),
    ]);
}

/// The effects a topology change triggers.
pub open spec fn spec_monitors_changed(
    s: RendererStateV,
    topo: Seq<MonitorEntryV>,
) -> Seq<ActionV> {
    match s.config {
        Some(cfg) => seq![
            ActionV::CloseAllWindows,
            ActionV::BuildWindows(spec_layout(cfg, topo)),
            ActionV::DeferSettingsReapply,
        ],
        None => Seq::empty(),
    }
}

} // verus!
