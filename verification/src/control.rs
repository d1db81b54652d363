//! Event dispatch: what each user intent or tick does to the timer state
//! and which commands it queues for the audio worker.

use vstd::prelude::*;

use crate::audio::offered_spec;
use crate::audio::AudioCommand;
use crate::audio::Controller;
use crate::audio::QUEUE_CAPACITY;
use crate::audio::VOLUME_FULL;
use crate::audio::VOLUME_SILENT;
use crate::color::StateColorConfig;
use crate::config::Config;
use crate::state::PauseKind;
use crate::state::State;
use crate::state::StateKind;
use crate::state::RATIO_FULL;

verus! {

/// The three buttons the interface offers.
#[derive(Clone, Copy, Debug, PartialEq, Eq, Structural)]
pub enum ButtonKind {
    Start,
    Stop,
    Pause,
}

/// One input to the application: a tick of the clock or a user intent.
/// The instant it happens at is handed to [`App::update`] alongside.
#[derive(Clone, Copy, Debug, PartialEq, Eq, Structural)]
pub enum Event {
    TimerTick,
    Start,
    Stop,
    Pause,
    CancelAudio,
}

impl ButtonKind {
    /// Every button, in display order.
    pub fn all() -> (r: Vec<ButtonKind>)
        ensures
            r@ == seq![ButtonKind::Start, ButtonKind::Stop, ButtonKind::Pause],
    {
        let mut v: Vec<ButtonKind> = Vec::new();
        v.push(ButtonKind::Start);
        v.push(ButtonKind::Stop);
        v.push(ButtonKind::Pause);
        proof {
            assert(v@ =~= seq![ButtonKind::Start, ButtonKind::Stop, ButtonKind::Pause]);
        }
        v
    }

    /// The event pressing this button raises.
    pub fn event(&self) -> (ev: Event)
        ensures
            ev == match *self {
                ButtonKind::Start => Event::Start,
                ButtonKind::Stop => Event::Stop,
                ButtonKind::Pause => Event::Pause,
            },
    {
        match self {
            ButtonKind::Start => Event::Start,
            ButtonKind::Stop => Event::Stop,
            ButtonKind::Pause => Event::Pause,
        }
    }

    /// The label this button carries in the given phase, or `None` where
    /// the button is hidden.
    pub open spec fn text_spec(b: ButtonKind, state: StateKind) -> Option<Seq<char>> {
        match (b, state) {
            (ButtonKind::Start, StateKind::Work) | (ButtonKind::Start, StateKind::Break) => Option::None,
            (ButtonKind::Stop, StateKind::Begin) => Option::None,
            (ButtonKind::Pause, StateKind::Begin) | (
                ButtonKind::Pause,
                StateKind::Pause(_),
            ) => Option::None,
            (ButtonKind::Start, StateKind::Begin) => Option::Some("Start Session"@),
            (ButtonKind::Start, StateKind::Pause(_)) => Option::Some("Continue"@),
            (ButtonKind::Stop, StateKind::Work) | (
                ButtonKind::Stop,
                StateKind::Pause(PauseKind::Work),
            ) => Option::Some("Break"@),
            (ButtonKind::Stop, StateKind::Break) | (
                ButtonKind::Stop,
                StateKind::Pause(PauseKind::Break),
            ) => Option::Some("Work"@),
            (ButtonKind::Pause, StateKind::Work) | (
                ButtonKind::Pause,
                StateKind::Break,
            ) => Option::Some("Pause"@),
        }
    }

    /// The label this button carries in the given phase, or `None` where
    /// the button is hidden.
    pub fn text(&self, state: &StateKind) -> (r: Option<&'static str>)
        ensures
            r is Some <==> ButtonKind::text_spec(*self, *state) is Some,
            r matches Some(t) ==> t@ == ButtonKind::text_spec(*self, *state).unwrap(),
    {
        match (self, state) {
            (ButtonKind::Start, StateKind::Work)
            | (ButtonKind::Start, StateKind::Break)
            | (ButtonKind::Stop, StateKind::Begin)
            | (ButtonKind::Pause, StateKind::Begin)
            | (ButtonKind::Pause, StateKind::Pause(_)) => None,
            (ButtonKind::Start, StateKind::Begin) => Some("Start Session"),
            (ButtonKind::Start, StateKind::Pause(_)) => Some("Continue"),
            (ButtonKind::Stop, StateKind::Work)
            | (ButtonKind::Stop, StateKind::Pause(PauseKind::Work)) => Some("Break"),
            (ButtonKind::Stop, StateKind::Break)
            | (ButtonKind::Stop, StateKind::Pause(PauseKind::Break)) => Some("Work"),
            (ButtonKind::Pause, StateKind::Work) | (ButtonKind::Pause, StateKind::Break) => Some(
                "Pause",
            ),
        }
    }
}

/// The audio path as contracts see it: the characters, or nothing.
pub open spec fn opt_path_view(o: Option<String>) -> Option<Seq<char>> {
    match o {
        Option::None => Option::None,
        Option::Some(s) => Option::Some(s@),
    }
}

/// Whether two optional paths hold the same characters.
fn opt_path_eq(a: &Option<String>, b: &Option<String>) -> (r: bool)
    ensures
        r == (opt_path_view(*a) == opt_path_view(*b)),
{
    match (a, b) {
        (None, None) => true,
        (Some(x), Some(y)) => {
            let r = x.eq(y);
            proof {
                if x@ == y@ {
                    assert(opt_path_view(*a) == opt_path_view(*b));
                } else {
                    assert(opt_path_view(*a) != opt_path_view(*b));
                }
            }
            r
        },
        _ => false,
    }
}

/// A copy of an optional path.
fn clone_opt_path(o: &Option<String>) -> (r: Option<String>)
    ensures
        r == *o,
{
    match o {
        None => None,
        Some(s) => Some(s.clone()),
    }
}

/// The application core: the timer, its configuration, the audio handle,
/// and the one flag that keeps the alarm from firing twice per phase.
pub struct App {
    pub state: State,
    pub config: Config,
    /// Whether the alarm was already started for the phase that is
    /// currently completing.
    pub audio_started_once: bool,
    pub audio: Controller,
}

impl App {
    /// A fresh application around `config`: idle timer, empty command
    /// queue, alarm not yet fired.
    pub fn new(config: Config) -> (app: App)
        ensures
            app.state.kind == StateKind::Begin,
            app.state.elapsed == 0,
            app.state.saved_break_time == 0,
            app.state.work_bound_duration == config.work_expected_duration,
            app.state.break_divisor == config.break_divisor,
            app.state.auto_break == config.auto_break,
            app.state.wf(),
            app.audio_started_once == false,
            app.audio.queue.view_spec() == Seq::<AudioCommand>::empty(),
            app.audio.queue.capacity_spec() == QUEUE_CAPACITY,
            app.audio.initial_source == config.audio_file_path,
            app.config == config,
    {
        let state = State::from_config(&config);
        let audio = Controller::new(clone_opt_path(&config.audio_file_path));
        App { state, config, audio_started_once: false, audio }
    }

    /// The palette of the current phase.
    pub fn color_config(&self) -> (c: &StateColorConfig)
        ensures
            *c == match self.state.kind {
                StateKind::Begin => self.config.color_config.start,
                StateKind::Pause(PauseKind::Work) => self.config.color_config.pause_work,
                StateKind::Pause(PauseKind::Break) => self.config.color_config.pause_break,
                StateKind::Work => self.config.color_config.work,
                StateKind::Break => self.config.color_config.break_,
            },
    {
        self.config.color_config.with_state(&self.state.kind)
    }

    /// Takes over a freshly loaded configuration: the timer bounds follow
    /// it at once, and the audio worker is told about a changed clip path
    /// or mute flag — and about nothing else.
    pub fn update_config(&mut self, new_config: Config)
        ensures
            final(self).config == new_config,
            final(self).audio_started_once == old(self).audio_started_once,
            final(self).audio.initial_source == old(self).audio.initial_source,
            final(self).audio.queue.capacity_spec() == old(self).audio.queue.capacity_spec(),
            final(self).state == (State {
                work_bound_duration: new_config.work_expected_duration,
                break_divisor: new_config.break_divisor,
                auto_break: new_config.auto_break,
                ..old(self).state
            }),
            final(self).audio.queue.view_spec() == ({
                let cap = old(self).audio.queue.capacity_spec();
                let q0 = old(self).audio.queue.view_spec();
                let q1 = if opt_path_view(old(self).config.audio_file_path) != opt_path_view(
                    new_config.audio_file_path,
                ) {
                    offered_spec(q0, cap, AudioCommand::ChangeSource(new_config.audio_file_path))
                } else {
                    q0
                };
                if old(self).config.mute != new_config.mute {
                    offered_spec(
                        q1,
                        cap,
                        AudioCommand::ChangeVolume(
                            if new_config.mute {
                                VOLUME_SILENT
                            } else {
                                VOLUME_FULL
                            },
                        ),
                    )
                } else {
                    q1
                }
            }),
    {
        let audio_changed = !opt_path_eq(&self.config.audio_file_path, &new_config.audio_file_path);
        let mute_changed = self.config.mute != new_config.mute;
        self.config = new_config;
        if audio_changed {
            self.audio.update(clone_opt_path(&self.config.audio_file_path));
        }
        if mute_changed {
            if self.config.mute {
                self.audio.mute();
            } else {
                self.audio.unmute();
            }
        }
        self.state.update_config(&self.config);
    }

    /// Dispatches one event arriving at instant `now`.
    ///
    /// A tick advances the timer and fires the alarm the first time the
    /// running phase completes. The three intents first silence any ongoing
    /// alarm, then transition the timer; starting or stopping out of a
    /// non-paused phase re-arms the alarm for the next completion.
    /// Cancelling only silences the alarm.
    pub fn update(&mut self, ev: Event, now: u64)
        ensures
            final(self).config == old(self).config,
            final(self).audio.initial_source == old(self).audio.initial_source,
            final(self).audio.queue.capacity_spec() == old(self).audio.queue.capacity_spec(),
            ev == Event::TimerTick ==> ({
                let s1 = old(self).state.tick_spec(now);
                let fires = !old(self).audio_started_once && s1.ratio_spec() == RATIO_FULL as int;
                &&& final(self).state == s1
                &&& final(self).audio_started_once == (old(self).audio_started_once || fires)
                &&& final(self).audio.queue.view_spec() == (if fires {
                    old(self).audio.queue.offer_spec(AudioCommand::Start)
                } else {
                    old(self).audio.queue.view_spec()
                })
            }),
            ev == Event::Start ==> ({
                &&& final(self).state == old(self).state.start_spec(now)
                &&& final(self).audio_started_once == (old(self).state.kind is Pause
                    && old(self).audio_started_once)
                &&& final(self).audio.queue.view_spec() == old(self).audio.queue.offer_spec(
                    AudioCommand::Stop,
                )
            }),
            ev == Event::Stop ==> ({
                &&& final(self).state == old(self).state.stop_spec(now)
                &&& final(self).audio_started_once == (old(self).state.kind is Pause
                    && old(self).audio_started_once)
                &&& final(self).audio.queue.view_spec() == old(self).audio.queue.offer_spec(
                    AudioCommand::Stop,
                )
            }),
            ev == Event::Pause ==> ({
                &&& final(self).state == old(self).state.pause_spec()
                &&& final(self).audio_started_once == old(self).audio_started_once
                &&& final(self).audio.queue.view_spec() == old(self).audio.queue.offer_spec(
                    AudioCommand::Stop,
                )
            }),
            ev == Event::CancelAudio ==> ({
                &&& final(self).state == old(self).state
                &&& final(self).audio_started_once == old(self).audio_started_once
                &&& final(self).audio.queue.view_spec() == old(self).audio.queue.offer_spec(
                    AudioCommand::Stop,
                )
            }),
    {
        match ev {
            Event::TimerTick => {
                self.state.on_tick_at(now);
                if !self.audio_started_once && self.state.is_completed() {
                    self.audio.start();
                    self.audio_started_once = true;
                }
            },
            Event::Start => {
                self.audio.stop();
                let was_paused = self.state.kind.is_paused();
                self.state.start(now);
                if !was_paused {
                    self.audio_started_once = false;
                }
            },
            Event::Stop => {
                self.audio.stop();
                let was_paused = self.state.kind.is_paused();
                self.state.stop(now);
                if !was_paused {
                    self.audio_started_once = false;
                }
            },
            Event::Pause => {
                self.audio.stop();
                self.state.pause();
            },
            Event::CancelAudio => {
                self.audio.stop();
            },
        }
    }
}

} // verus!
