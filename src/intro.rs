use crate::camera::{Depth, ScreenSpace, Transform};
use crate::timer::Timer;
use vstd::prelude::*;

verus! {

/// Plays the intro: a stack of timed images with sounds, then the title.
pub struct IntroPlugin;

/// One authored intro step: how long it stays before the next, where its
/// image goes (relative to the viewport), the image's asset path and the
/// optional sound's asset path.
#[derive(Clone, Copy, Debug, PartialEq, Eq)]
pub struct AnimSpec {
    pub duration: u64,
    pub x: i32,
    pub y: i32,
    pub image: &'static str,
    pub sound: Option<&'static str>,
}

/// One loaded intro step: its duration in nanoseconds, the placement of its
/// image, the image's encoded bytes and an optional sound handle.
pub struct Anim<S> {
    pub duration: u64,
    pub transform: Transform,
    pub image: Vec<u8>,
    pub sound: Option<S>,
}

impl<S> Anim<S> {
    /// The loaded step for an authored one, given its image
    /// bytes and its resolved sound: placed at the authored position, at
    /// depth level 0, for the authored duration.
    pub fn from_spec(spec: &AnimSpec, image: Vec<u8>, sound: Option<S>) -> (a: Anim<S>)
        ensures
            a.duration == spec.duration,
            a.transform == (Transform { x: spec.x, y: spec.y, depth: Depth::Level(0) }),
            a.image == image,
            a.sound == sound,
    {
        Anim {
            duration: spec.duration,
            transform: Transform::from_xyz(spec.x, spec.y, Depth::Level(0)),
            image,
            sound,
        }
    }
}

/// What one intro update asks of the scene.
pub enum IntroAction<S> {
    /// Nothing to do this frame.
    Wait,
    /// Spawn this step's image (numbered in the order shown, from 0) at its
    /// transform, read in screen space, and play its sound.
    Show(usize, Anim<S>, ScreenSpace),
    /// Every step has played: switch to the title scene.
    Finish,
}

/// The running intro: the steps still to play (the last one plays next),
/// the timer of the step on screen, how many steps have been shown, and
/// whether the switch to the title has been asked for.
pub struct IntroState<S> {
    pub anim: Vec<Anim<S>>,
    pub timer: Timer,
    pub shown: usize,
    pub done: bool,
}

/// The intro state in mathematical terms.
pub struct IntroModel<S> {
    pub anim: Seq<Anim<S>>,
    pub timer: Timer,
    pub shown: nat,
    pub done: bool,
}

impl<S> View for IntroState<S> {
    type V = IntroModel<S>;

    open spec fn view(&self) -> IntroModel<S> {
        IntroModel { anim: self.anim@, timer: self.timer, shown: self.shown as nat, done: self.done }
    }
}

impl<S> IntroState<S> {
    /// The shown count can still grow by every step left.
    pub open spec fn wf(&self) -> bool {
        self.shown as int + self.anim.len() <= usize::MAX
    }

    /// A fresh intro over `anim`; its timer has zero length, so the first
    /// update already shows a step.
    pub fn new(anim: Vec<Anim<S>>) -> (s: IntroState<S>)
        ensures
            s.wf(),
            s@ == intro_start(anim@),
    {
        IntroState { anim, timer: Timer::new(0), shown: 0, done: false }
    }
}

/// The state an intro over `frames` starts in.
pub open spec fn intro_start<S>(frames: Seq<Anim<S>>) -> IntroModel<S> {
    IntroModel { anim: frames, timer: Timer { duration: 0, elapsed: 0 }, shown: 0, done: false }
}

/// One intro update, `delta` nanoseconds after the last: once the timer
/// runs out, the last remaining step is shown and its duration starts; when
/// none remains the title is asked for, once.
pub open spec fn intro_step<S>(s: IntroModel<S>, delta: u64) -> (IntroModel<S>, IntroAction<S>) {
    let t = Timer { elapsed: s.timer.ticked_elapsed(delta), ..s.timer };
    if s.done {
        (s, IntroAction::Wait)
    } else if !t.finished_spec() {
        (IntroModel { timer: t, ..s }, IntroAction::Wait)
    } else if s.anim.len() == 0 {
        (IntroModel { timer: t, done: true, ..s }, IntroAction::Finish)
    } else {
        let a = s.anim.last();
        (
            IntroModel {
                anim: s.anim.drop_last(),
                timer: Timer { duration: a.duration, elapsed: 0 },
                shown: s.shown + 1,
                done: false,
            },
            IntroAction::Show(s.shown as usize, a, ScreenSpace),
        )
    }
}

/// The state before each of a run of updates with the given frame times,
/// paired with what that update asks for.
pub open spec fn intro_trace<S>(s: IntroModel<S>, deltas: Seq<u64>) -> Seq<
    (IntroModel<S>, IntroAction<S>),
>
    decreases deltas.len(),
{
    if deltas.len() == 0 {
        Seq::empty()
    } else {
        let (n, a) = intro_step(s, deltas[0]);
        seq![(s, a)] + intro_trace(n, deltas.drop_first())
    }
}

/// How far an intro over `frames` has come: the steps not yet shown are
/// the first ones authored, and the title is asked for only after all of
/// them were shown.
pub open spec fn intro_progress<S>(s: IntroModel<S>, frames: Seq<Anim<S>>) -> bool {
    &&& frames.len() <= usize::MAX
    &&& s.shown <= frames.len()
    &&& s.anim == frames.take(frames.len() - s.shown)
    &&& s.done ==> s.shown == frames.len()
}

/// What holds of one update of an intro over `frames`, from state `s`
/// with frame time `delta`, that asks for `a` and leads to `n`.
pub open spec fn intro_step_ok<S>(
    frames: Seq<Anim<S>>,
    s: IntroModel<S>,
    delta: u64,
    a: IntroAction<S>,
    n: IntroModel<S>,
) -> bool {
    &&& intro_progress(s, frames)
    &&& a is Show ==> {
        &&& a->0 as int == s.shown
        &&& a->1 == frames[frames.len() - 1 - s.shown]
        &&& n.shown == s.shown + 1
        &&& n.timer == (Timer { duration: a->1.duration, elapsed: 0 })
    }
    &&& !(a is Show) ==> n.shown == s.shown
    &&& a is Finish ==> s.shown == frames.len() && !s.done && n.done
    &&& !(a is Wait) ==> s.timer.elapsed + delta >= s.timer.duration
    &&& a is Wait ==> s.done || s.timer.elapsed + delta < s.timer.duration
    &&& s.done ==> a is Wait && n == s
}

proof fn lemma_step_progress<S>(frames: Seq<Anim<S>>, s: IntroModel<S>, delta: u64)
    requires
        intro_progress(s, frames),
    ensures
        intro_step_ok(frames, s, delta, intro_step(s, delta).1, intro_step(s, delta).0),
        intro_progress(intro_step(s, delta).0, frames),
{
    let n = intro_step(s, delta).0;
    if !s.done && s.anim.len() > 0 {
        assert(n.anim =~= frames.take(frames.len() - n.shown));
        assert(s.anim.last() == frames[frames.len() - 1 - s.shown]);
    }
}

proof fn lemma_trace_progress<S>(frames: Seq<Anim<S>>, s: IntroModel<S>, deltas: Seq<u64>)
    requires
        intro_progress(s, frames),
    ensures
        intro_trace(s, deltas).len() == deltas.len(),
        deltas.len() > 0 ==> intro_trace(s, deltas)[0].0 == s,
        forall|j: int|
            0 <= j < deltas.len() ==> #[trigger] intro_step_ok(
                frames,
                intro_trace(s, deltas)[j].0,
                deltas[j],
                intro_trace(s, deltas)[j].1,
                intro_step(intro_trace(s, deltas)[j].0, deltas[j]).0,
            ) && intro_step(intro_trace(s, deltas)[j].0, deltas[j]).1 == intro_trace(
                s,
                deltas,
            )[j].1,
        forall|j: int|
            0 <= j < deltas.len() - 1 ==> #[trigger] intro_trace(s, deltas)[j + 1].0 == intro_step(
                intro_trace(s, deltas)[j].0,
                deltas[j],
            ).0,
    decreases deltas.len(),
{
    if deltas.len() > 0 {
        let (n, a) = intro_step(s, deltas[0]);
        let rest = deltas.drop_first();
        lemma_step_progress(frames, s, deltas[0]);
        lemma_trace_progress(frames, n, rest);
        let t = intro_trace(s, deltas);
        let tr = intro_trace(n, rest);
        assert(t == seq![(s, a)] + tr);
        assert forall|j: int| 0 < j < deltas.len() implies t[j] == tr[j - 1] && deltas[j] == rest[j
            - 1] by {}
        assert forall|j: int| 0 <= j < deltas.len() implies #[trigger] intro_step_ok(
            frames,
            t[j].0,
            deltas[j],
            t[j].1,
            intro_step(t[j].0, deltas[j]).0,
        ) && intro_step(t[j].0, deltas[j]).1 == t[j].1 by {
            if j > 0 {
                assert(t[j] == tr[j - 1]);
                assert(intro_step_ok(
                    frames,
                    tr[j - 1].0,
                    rest[j - 1],
                    tr[j - 1].1,
                    intro_step(tr[j - 1].0, rest[j - 1]).0,
                ));
            }
        }
        assert forall|j: int| 0 <= j < deltas.len() - 1 implies #[trigger] t[j + 1].0
            == intro_step(t[j].0, deltas[j]).0 by {
            if j > 0 {
                assert(tr[(j - 1) + 1].0 == intro_step(tr[j - 1].0, rest[j - 1]).0);
            }
        }
    }
}

/// Playback order of an intro over `frames`, through any run of updates
/// from its start: the `k`-th step shown is numbered `k` and is
/// `frames[len - 1 - k]`, so the last step authored plays first; the next
/// update starts that step's own duration; an update shows a step or asks
/// for the title exactly when its frame time runs the timer out; the title
/// is asked for only once every step has been shown, and after that no
/// update changes anything.
pub proof fn lemma_playback_order<S>(frames: Seq<Anim<S>>, deltas: Seq<u64>)
    requires
        frames.len() <= usize::MAX,
    ensures
        intro_trace(intro_start(frames), deltas).len() == deltas.len(),
        forall|j: int|
            0 <= j < deltas.len() ==> #[trigger] intro_step_ok(
                frames,
                intro_trace(intro_start(frames), deltas)[j].0,
                deltas[j],
                intro_trace(intro_start(frames), deltas)[j].1,
                intro_step(intro_trace(intro_start(frames), deltas)[j].0, deltas[j]).0,
            ),
        forall|j: int|
            0 <= j < deltas.len() - 1 ==> #[trigger] intro_trace(intro_start(frames), deltas)[j
                + 1].0 == intro_step(intro_trace(intro_start(frames), deltas)[j].0, deltas[j]).0,
        deltas.len() > 0 ==> intro_trace(intro_start(frames), deltas)[0].0 == intro_start(frames),
{
    assert(frames.take(frames.len() - 0) =~= frames);
    lemma_trace_progress(frames, intro_start(frames), deltas);
}

/// The intro as authored for a viewport `width` pixels wide, in the order
/// declared (it plays from the end): duration in nanoseconds and position,
/// where `hw` is half the width.
pub open spec fn intro_layout(width: u32) -> Seq<(u64, int, int)> {
    let hw = width / 2;
    seq![
        (2_000_000_000u64, hw + 90, 140int),
        (500_000_000u64, hw + 50, 140int),
        (250_000_000u64, hw + 10, 140int),
        (150_000_000u64, hw - 20, 140int),
        (150_000_000u64, hw - 40, 140int),
        (500_000_000u64, hw - 80, 140int),
        (200_000_000u64, hw - 120, 140int),
        (500_000_000u64, hw - 40, 50int),
    ]
}

/// The intro's image assets, in the order declared.
pub open spec fn intro_images() -> Seq<&'static str> {
    seq![
        "images/logo-y.png",
        "images/logo-o.png",
        "images/logo-j.png",
        "images/logo-p.png",
        "images/logo-i.png",
        "images/logo-l.png",
        "images/logo-b.png",
        "images/logo.png",
    ]
}

/// The intro's sound assets, in the order declared.
pub open spec fn intro_sounds() -> Seq<Option<&'static str>> {
    seq![
        Some("sfx/blip7.ogg"),
        Some("sfx/blip6.ogg"),
        Some("sfx/blip5.ogg"),
        Some("sfx/blip4.ogg"),
        Some("sfx/blip3.ogg"),
        Some("sfx/blip2.ogg"),
        Some("sfx/blip1.ogg"),
        None,
    ]
}

/// The intro steps for a viewport `width` pixels wide, in the order
/// declared: the letters of the logo, then the logo itself.
pub fn intro_script(width: u32) -> (r: Vec<AnimSpec>)
    requires
        width <= i32::MAX,
    ensures
        r@.len() == 8,
        forall|i: int|
            0 <= i < 8 ==> {
                &&& (#[trigger] r@[i]).duration == intro_layout(width)[i].0
                &&& r@[i].x as int == intro_layout(width)[i].1
                &&& r@[i].y as int == intro_layout(width)[i].2
                &&& r@[i].image == intro_images()[i]
                &&& r@[i].sound == intro_sounds()[i]
            },
{
    let hw: i32 = (width / 2) as i32;
    let r = vec![
        AnimSpec { duration: 2_000_000_000, x: hw + 90, y: 140, image: "images/logo-y.png", sound: Some("sfx/blip7.ogg") },
        AnimSpec { duration: 500_000_000, x: hw + 50, y: 140, image: "images/logo-o.png", sound: Some("sfx/blip6.ogg") },
        AnimSpec { duration: 250_000_000, x: hw + 10, y: 140, image: "images/logo-j.png", sound: Some("sfx/blip5.ogg") },
        AnimSpec { duration: 150_000_000, x: hw - 20, y: 140, image: "images/logo-p.png", sound: Some("sfx/blip4.ogg") },
        AnimSpec { duration: 150_000_000, x: hw - 40, y: 140, image: "images/logo-i.png", sound: Some("sfx/blip3.ogg") },
        AnimSpec { duration: 500_000_000, x: hw - 80, y: 140, image: "images/logo-l.png", sound: Some("sfx/blip2.ogg") },
        AnimSpec { duration: 200_000_000, x: hw - 120, y: 140, image: "images/logo-b.png", sound: Some("sfx/blip1.ogg") },
        AnimSpec { duration: 500_000_000, x: hw - 40, y: 50, image: "images/logo.png", sound: None },
    ];
    assert(r@.len() == 8);
    r
}

/// The state after a run of updates with the given frame times.
pub open spec fn intro_after<S>(s: IntroModel<S>, deltas: Seq<u64>) -> IntroModel<S>
    decreases deltas.len(),
{
    if deltas.len() == 0 {
        s
    } else {
        intro_after(intro_step(s, deltas[0]).0, deltas.drop_first())
    }
}

proof fn lemma_after_covers_shown<S>(frames: Seq<Anim<S>>, s: IntroModel<S>, deltas: Seq<u64>)
    requires
        intro_progress(s, frames),
    ensures
        intro_after(s, deltas).shown >= s.shown,
        forall|j: int|
            0 <= j < deltas.len() && (#[trigger] intro_trace(s, deltas)[j]).1 is Show ==> (
            intro_trace(s, deltas)[j].1->0 as int) < intro_after(s, deltas).shown,
    decreases deltas.len(),
{
    lemma_trace_progress(frames, s, deltas);
    if deltas.len() > 0 {
        let n = intro_step(s, deltas[0]).0;
        let rest = deltas.drop_first();
        lemma_step_progress(frames, s, deltas[0]);
        lemma_after_covers_shown(frames, n, rest);
        let t = intro_trace(s, deltas);
        let tr = intro_trace(n, rest);
        assert(t == seq![(s, intro_step(s, deltas[0]).1)] + tr);
        assert forall|j: int|
            0 <= j < deltas.len() && (#[trigger] t[j]).1 is Show implies (t[j].1->0 as int)
            < intro_after(s, deltas).shown by {
            if j > 0 {
                assert(t[j] == tr[j - 1]);
            }
        }
    }
}

/// Leaving the intro after any run of updates from its start removes
/// every image the run showed: each step number shown is below the shown
/// count that `IntroPlugin::exit` then lists in full.
pub proof fn lemma_exit_covers_shown<S>(frames: Seq<Anim<S>>, deltas: Seq<u64>)
    requires
        frames.len() <= usize::MAX,
    ensures
        forall|j: int|
            0 <= j < deltas.len() && (#[trigger] intro_trace(intro_start(frames), deltas)[j]).1 is Show
                ==> (intro_trace(intro_start(frames), deltas)[j].1->0 as int) < intro_after(
                intro_start(frames),
                deltas,
            ).shown,
{
    assert(frames.take(frames.len() - 0) =~= frames);
    lemma_after_covers_shown(frames, intro_start(frames), deltas);
}

impl IntroPlugin {
    /// One frame of the intro, `delta` nanoseconds after the last.
    pub fn update<S>(state: &mut IntroState<S>, delta: u64) -> (r: IntroAction<S>)
        requires
            old(state).wf(),
        ensures
            final(state).wf(),
            (final(state)@, r) == intro_step(old(state)@, delta),
    {
        if state.done {
            return IntroAction::Wait;
        }
        state.timer.tick(delta);
        if !state.timer.finished() {
            return IntroAction::Wait;
        }
        match state.anim.pop() {
            Some(a) => {
                state.timer = Timer::new(a.duration);
                let screen = state.shown;
                state.shown = state.shown + 1;
                IntroAction::Show(screen, a, ScreenSpace)
            },
            None => {
                state.done = true;
                IntroAction::Finish
            },
        }
    }

    /// Leave the intro, wherever it stands: the state is dropped, and the
    /// numbers of every step shown so far are returned so that their images
    /// can be removed.
    pub fn exit<S>(state: IntroState<S>) -> (r: Vec<usize>)
        ensures
            r@ == Seq::new(state.shown as nat, |i: int| i as usize),
    {
        let mut r: Vec<usize> = Vec::new();
        let mut i: usize = 0;
        while i < state.shown
            invariant
                i <= state.shown,
                r@ == Seq::new(i as nat, |k: int| k as usize),
            decreases state.shown - i,
        {
            r.push(i);
            i = i + 1;
            assert(r@ =~= Seq::new(i as nat, |k: int| k as usize));
        }
        r
    }
}

} // verus!
