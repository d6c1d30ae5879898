//! Animation playback: configuration, playback state and the coordinator.

use vstd::prelude::*;

use crate::errors::ConfigParseError;
use crate::playback_trace::{PlayEvent, lemma_program_swap_needs_stop, lemma_trace_push, trace_end, trace_ok};

verus! {

/// The always-complete playback configuration. It is initialised from
/// static defaults and only ever replaced field-by-field by an accepted
/// partial update, so it never holds a partial value.
#[derive(Debug, Clone, Copy, PartialEq, Eq, Structural)]
pub struct AnimationConfig {
    pub led_quantity: usize,
    pub fps: u8,
    pub white_brightness: u8,
}

/// A client-submitted configuration delta: every field optional.
#[derive(Debug, Clone, Copy, PartialEq, Eq, Structural)]
pub struct ReceivedAnimationConfig {
    pub led_quantity: Option<usize>,
    pub fps: Option<u8>,
    pub white_brightness: Option<u8>,
}

impl Default for AnimationConfig {
    /// The static default configuration the device boots with.
    fn default() -> (c: Self)
        ensures
            c == (AnimationConfig { led_quantity: 150, fps: 60, white_brightness: 0 }),
    {
        Self { led_quantity: 150, fps: 60, white_brightness: 0 }
    }
}

impl Default for ReceivedAnimationConfig {
    /// The empty delta: no field present, overlaying it changes nothing.
    fn default() -> (c: Self)
        ensures
            c == (ReceivedAnimationConfig { led_quantity: None, fps: None, white_brightness: None }),
    {
        Self { led_quantity: None, fps: None, white_brightness: None }
    }
}

impl AnimationConfig {
    /// The result of overlaying a delta onto a base configuration:
    /// a present field replaces the base value, an absent one keeps it.
    pub open spec fn overlaid(self, delta: ReceivedAnimationConfig) -> AnimationConfig {
        AnimationConfig {
            led_quantity: match delta.led_quantity {
                Some(v) => v,
                None => self.led_quantity,
            },
            fps: match delta.fps {
                Some(v) => v,
                None => self.fps,
            },
            white_brightness: match delta.white_brightness {
                Some(v) => v,
                None => self.white_brightness,
            },
        }
    }

    /// Overlay a partial update onto this configuration.
    pub fn update(&mut self, new_config: ReceivedAnimationConfig)
        ensures
            *final(self) == old(self).overlaid(new_config),
    {
        if let Some(new_val) = new_config.fps {
            self.fps = new_val;
        }
        if let Some(new_val) = new_config.led_quantity {
            self.led_quantity = new_val;
        }
        if let Some(new_val) = new_config.white_brightness {
            self.white_brightness = new_val;
        }
    }

    /// The time between frames, in milliseconds, for the configured rate.
    pub fn frame_interval_ms(&self) -> (d: u64)
        requires
            self.fps > 0,
        ensures
            d == 1000int / (self.fps as int),
    {
        1000u64 / (self.fps as u64)
    }
}

impl ReceivedAnimationConfig {
    /// The field names the configuration schema knows.
    pub open spec fn known_field(name: Seq<char>) -> bool {
        ||| name == "led_quantity"@
        ||| name == "fps"@
        ||| name == "white_brightness"@
    }

    /// Check a client-submitted list of field names against the strict
    /// schema. Unknown names are rejected with the offending field, so a
    /// typo never silently loses part of an update.
    pub fn check_fields(names: &Vec<String>) -> (r: Result<(), ConfigParseError>)
        ensures
            r is Ok <==> (forall|i: int|
                0 <= i < names@.len() ==> Self::known_field(#[trigger] names@[i]@)),
            r matches Err(ConfigParseError::UnexpectedField(f)) ==> ((exists|i: int|
                0 <= i < names@.len() && f@ == #[trigger] names@[i]@) && !Self::known_field(f@)),
    {
        let led = String::from_str("led_quantity");
        let fps = String::from_str("fps");
        let white = String::from_str("white_brightness");
        let mut idx: usize = 0;
        while idx < names.len()
            invariant
                idx <= names@.len(),
                forall|i: int| 0 <= i < idx ==> Self::known_field(#[trigger] names@[i]@),
                led@ == "led_quantity"@,
                fps@ == "fps"@,
                white@ == "white_brightness"@,
            decreases names@.len() - idx,
        {
            let name = &names[idx];
            if !(*name == led || *name == fps || *name == white) {
                return Err(ConfigParseError::UnexpectedField(name.clone()));
            }
            idx += 1;
        }
        Ok(())
    }
}

/// Overlaying the same delta twice gives the configuration that one
/// overlay gives: accepted partial updates are idempotent.
pub proof fn lemma_update_idempotent(base: AnimationConfig, delta: ReceivedAnimationConfig)
    ensures
        base.overlaid(delta).overlaid(delta) == base.overlaid(delta),
{
}

/// The commands the control surface may send to the playback worker.
pub enum Messages {
    NewConfig(ReceivedAnimationConfig),
    NewProg(Vec<u8>),
    SetAuxChannel(u8),
}

/// The coordinator's playback state: running a program (its bytes), or
/// halted with the interpreter instance retained, awaiting a program.
pub enum PlaybackState {
    Running(Vec<u8>),
    Halted,
}

impl PlaybackState {
    /// The running program's bytes, if one is running.
    pub open spec fn prog(self) -> Option<Seq<u8>> {
        match self {
            PlaybackState::Running(p) => Some(p@),
            PlaybackState::Halted => None,
        }
    }
}

/// What one interpreter step reported: a frame, normal program end, or a
/// fault raised by the program.
pub enum StepOutcome {
    Frame(Vec<Rgb>),
    Ended,
    Fault,
}

/// One pixel's color as the interpreter produces it.
#[derive(Debug, Clone, Copy, PartialEq, Eq, Structural)]
pub struct Rgb {
    pub r: u8,
    pub g: u8,
    pub b: u8,
}

/// One pixel's color as written to the strip, with the white channel.
#[derive(Debug, Clone, Copy, PartialEq, Eq, Structural)]
pub struct Rgbw {
    pub r: u8,
    pub g: u8,
    pub b: u8,
    pub w: u8,
}

/// Attach the configured white-channel value to every pixel of a frame.
/// This presentation-layer concern is applied at write time and stays
/// outside the interpreter.
pub fn apply_white(frame: &Vec<Rgb>, w: u8) -> (out: Vec<Rgbw>)
    ensures
        out@.len() == frame@.len(),
        forall|i: int|
            0 <= i < frame@.len() ==> out@[i] == (Rgbw {
                r: frame@[i].r,
                g: frame@[i].g,
                b: frame@[i].b,
                w,
            }),
{
    let mut out: Vec<Rgbw> = Vec::new();
    let mut idx: usize = 0;
    while idx < frame.len()
        invariant
            idx <= frame@.len(),
            out@.len() == idx,
            forall|i: int|
                0 <= i < idx ==> out@[i] == (Rgbw {
                    r: frame@[i].r,
                    g: frame@[i].g,
                    b: frame@[i].b,
                    w,
                }),
        decreases frame@.len() - idx,
    {
        let c = frame[idx];
        out.push(Rgbw { r: c.r, g: c.g, b: c.b, w });
        idx += 1;
    }
    out
}

/// Whether a frame boundary is due: the time since the last processed
/// boundary has reached the configured interval.
pub fn should_render(now_ms: u64, last_ms: u64, interval_ms: u64) -> (r: bool)
    requires
        last_ms <= now_ms,
    ensures
        r <==> now_ms - last_ms >= interval_ms,
{
    now_ms - last_ms >= interval_ms
}

/// The animation playback coordinator. It owns the interpreter instance
/// and the pixel driver handle; the paced loop around it polls commands,
/// advances the interpreter and writes frames. Every decision of that
/// loop is made by the methods below; the loop performs them. The ghost
/// `trace` records the interpreter events for the swap-safety proof.
pub struct LedStripAnimation {
    pub config: AnimationConfig,
    pub playback: PlaybackState,
    pub trace: Ghost<Seq<PlayEvent>>,
}

impl LedStripAnimation {
    /// The interpreter-event trace is legal and ends with exactly the
    /// program the playback state says is running.
    pub open spec fn wf(self) -> bool {
        &&& trace_ok(self.trace@, None)
        &&& trace_end(self.trace@, None) == self.playback.prog()
    }

    /// A fresh coordinator: halted, with an interpreter instance sized to
    /// the configuration's pixel count, and no events yet.
    pub fn new(config: AnimationConfig) -> (s: Self)
        ensures
            s.config == config,
            s.playback is Halted,
            s.trace@ == Seq::<PlayEvent>::empty(),
            s.wf(),
    {
        LedStripAnimation {
            config,
            playback: PlaybackState::Halted,
            trace: Ghost(Seq::empty()),
        }
    }

    /// Load a new program. If one is running the interpreter is stopped
    /// first (retaining the instance); either way the retained instance
    /// is restarted with the new program, so loading always succeeds and
    /// always ends running the new program.
    pub fn load_program(&mut self, prog: Vec<u8>)
        ensures
            final(self).config == old(self).config,
            final(self).playback == PlaybackState::Running(prog),
            old(self).playback matches PlaybackState::Running(prev) ==> final(self).trace@
                == old(self).trace@ + seq![PlayEvent::Stopped, PlayEvent::Started(prog@)],
            old(self).playback is Halted ==> final(self).trace@ == old(self).trace@
                + seq![PlayEvent::Started(prog@)],
            old(self).wf() ==> final(self).wf(),
    {
        match &self.playback {
            PlaybackState::Running(_) => {
                proof {
                    lemma_trace_push(self.trace@, None, PlayEvent::Stopped);
                    lemma_trace_push(
                        self.trace@.push(PlayEvent::Stopped),
                        None,
                        PlayEvent::Started(prog@),
                    );
                }
                self.trace = Ghost(
                    self.trace@.push(PlayEvent::Stopped).push(PlayEvent::Started(prog@)),
                );
                proof {
                    assert(self.trace@ =~= old(self).trace@ + seq![
                        PlayEvent::Stopped,
                        PlayEvent::Started(prog@),
                    ]);
                }
            },
            PlaybackState::Halted => {
                proof {
                    lemma_trace_push(self.trace@, None, PlayEvent::Started(prog@));
                }
                self.trace = Ghost(self.trace@.push(PlayEvent::Started(prog@)));
                proof {
                    assert(self.trace@ =~= old(self).trace@ + seq![PlayEvent::Started(prog@)]);
                }
            },
        }
        self.playback = PlaybackState::Running(prog);
    }

    /// Apply a partial configuration update and reply with the resolved
    /// result, so the caller learns the authoritative merged value. If a
    /// program is running, the interpreter is stopped and restarted with
    /// the same program so its pixel-count parameter matches the new
    /// configuration; the running program itself is kept.
    pub fn update_config(&mut self, new_config: ReceivedAnimationConfig) -> (applied:
        AnimationConfig)
        ensures
            final(self).config == old(self).config.overlaid(new_config),
            applied == final(self).config,
            final(self).playback == old(self).playback,
            old(self).playback matches PlaybackState::Running(p) ==> final(self).trace@
                == old(self).trace@ + seq![PlayEvent::Stopped, PlayEvent::Started(p@)],
            old(self).playback is Halted ==> final(self).trace@ == old(self).trace@,
            old(self).wf() ==> final(self).wf(),
    {
        self.config.update(new_config);
        match &self.playback {
            PlaybackState::Running(p) => {
                proof {
                    lemma_trace_push(self.trace@, None, PlayEvent::Stopped);
                    lemma_trace_push(
                        self.trace@.push(PlayEvent::Stopped),
                        None,
                        PlayEvent::Started(p@),
                    );
                }
                self.trace = Ghost(
                    self.trace@.push(PlayEvent::Stopped).push(PlayEvent::Started(p@)),
                );
                proof {
                    assert(self.trace@ =~= old(self).trace@ + seq![
                        PlayEvent::Stopped,
                        PlayEvent::Started(p@),
                    ]);
                }
            },
            PlaybackState::Halted => {},
        }
        self.config
    }

    /// Set the auxiliary (white) channel value alone. It is applied at
    /// write time, outside the interpreter, so unlike a full
    /// configuration update this touches neither the interpreter nor the
    /// playback state.
    pub fn set_aux_channel(&mut self, value: u8)
        ensures
            final(self).config == (AnimationConfig { white_brightness: value, ..old(self).config }),
            final(self).playback == old(self).playback,
            final(self).trace@ == old(self).trace@,
            old(self).wf() ==> final(self).wf(),
    {
        self.config.white_brightness = value;
    }

    /// Process one due frame boundary while running: `outcome` is what
    /// the interpreter's step reported. A produced frame is returned with
    /// the white channel attached, ready for the driver; program end or a
    /// fault halts playback (retaining the instance) and produces no
    /// frame — reported, never fatal.
    pub fn tick(&mut self, outcome: StepOutcome) -> (frame: Option<Vec<Rgbw>>)
        requires
            old(self).playback is Running,
        ensures
            final(self).config == old(self).config,
            outcome matches StepOutcome::Frame(f) ==> ({
                &&& final(self).playback == old(self).playback
                &&& final(self).trace@ == old(self).trace@ + seq![
                    PlayEvent::Frame(old(self).playback->Running_0@),
                ]
                &&& frame matches Some(out) && out@.len() == f@.len() && (forall|i: int|
                    0 <= i < f@.len() ==> out@[i] == (Rgbw {
                        r: f@[i].r,
                        g: f@[i].g,
                        b: f@[i].b,
                        w: old(self).config.white_brightness,
                    }))
            }),
            (outcome is Ended || outcome is Fault) ==> ({
                &&& final(self).playback is Halted
                &&& final(self).trace@ == old(self).trace@ + seq![PlayEvent::Stopped]
                &&& frame is None
            }),
            old(self).wf() ==> final(self).wf(),
    {
        let ghost p: Seq<u8> = self.playback->Running_0@;
        match outcome {
            StepOutcome::Frame(f) => {
                proof {
                    lemma_trace_push(self.trace@, None, PlayEvent::Frame(p));
                }
                self.trace = Ghost(self.trace@.push(PlayEvent::Frame(p)));
                proof {
                    assert(self.trace@ =~= old(self).trace@ + seq![PlayEvent::Frame(p)]);
                }
                Some(apply_white(&f, self.config.white_brightness))
            },
            StepOutcome::Ended | StepOutcome::Fault => {
                proof {
                    lemma_trace_push(self.trace@, None, PlayEvent::Stopped);
                }
                self.trace = Ghost(self.trace@.push(PlayEvent::Stopped));
                proof {
                    assert(self.trace@ =~= old(self).trace@ + seq![PlayEvent::Stopped]);
                }
                self.playback = PlaybackState::Halted;
                None
            },
        }
    }
}

/// In any well-formed coordinator, two recorded frames that carry
/// different programs have a stop strictly between them: a program load
/// while running never lets frame N and frame N+1 straddle the swap.
pub proof fn lemma_coordinator_swap_needs_stop(
    s: LedStripAnimation,
    i: int,
    j: int,
    p: Seq<u8>,
    q: Seq<u8>,
)
    requires
        s.wf(),
        0 <= i < j < s.trace@.len(),
        s.trace@[i] == PlayEvent::Frame(p),
        s.trace@[j] == PlayEvent::Frame(q),
        p != q,
    ensures
        exists|k: int| i < k < j && (#[trigger] s.trace@[k] is Stopped),
{
    lemma_program_swap_needs_stop(s.trace@, i, j, p, q);
}

} // verus!
