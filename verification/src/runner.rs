//! The run loop's core. The loop owns the terminal session, the current
//! event source, the ordered component list, the quit and suspend flags and
//! the action queue. Each iteration of the (externally driven) loop hands the
//! next event to [`Runner::handle_event`], drains the queue completely with
//! [`Runner::drain`], and only then reads [`Runner::directive`] to learn
//! whether to continue, suspend or quit — so every action enqueued before a
//! suspend or quit is fully processed before either takes effect.
//!
//! Waiting itself (channels, timers, tasks) happens outside; everything the
//! loop decides is here, and stated by the `drain_fold` model.

use vstd::prelude::*;

use crate::action::acts_view;
use crate::action::Action;
use crate::action::ActionV;
use crate::action::DelayedJob;
use crate::action::JobV;
use crate::event::Event;
use crate::event::EventSource;
use crate::event::EventV;
use crate::event::MouseEvent;
use crate::event::SourceState;
use crate::home::Home;
use crate::home::home_key_result;
use crate::home::home_mouse_result;
use crate::home::home_update_job;
use crate::home::home_update_state;
use crate::home::HomeV;
use crate::home::Mode;
use crate::keys::KeyEvent;
use crate::terminal::enter_ops_spec;
use crate::terminal::exit_ops_spec;
use crate::terminal::Session;
use crate::terminal::TermOp;

verus! {

/// An outward effect the drain asks its caller to perform: draw one frame,
/// or hand a delayed job to a background task.
#[derive(Debug, PartialEq, Eq)]
pub enum Effect {
    Render,
    Spawn(DelayedJob),
}

/// The mathematical value of an [`Effect`].
pub ghost enum EffectV {
    Render,
    Spawn(JobV),
}

impl View for Effect {
    type V = EffectV;

    open spec fn view(&self) -> EffectV {
        match self {
            Effect::Render => EffectV::Render,
            Effect::Spawn(j) => EffectV::Spawn(j@),
        }
    }
}

/// The view of a sequence of effects, element by element.
pub open spec fn effs_view(s: Seq<Effect>) -> Seq<EffectV> {
    s.map_values(|e: Effect| e@)
}

/// What the loop should do once the queue is drained.
#[derive(Clone, Copy, Debug, PartialEq, Eq, Structural)]
pub enum Directive {
    Continue,
    SuspendNow,
    QuitNow,
}

/// The part of the loop the drain model speaks about: the components and the
/// two flags.
pub ghost struct LoopState {
    pub components: Seq<HomeV>,
    pub should_quit: bool,
    pub should_suspend: bool,
}

/// The structural translation of an event: the control events map directly
/// to their control actions; everything else translates to nothing (key and
/// mouse events are offered to the components instead).
pub open spec fn translate_event(e: EventV) -> Option<ActionV> {
    match e {
        EventV::Quit => Some(ActionV::Quit),
        EventV::Tick => Some(ActionV::Tick),
        EventV::Render => Some(ActionV::Render),
        EventV::Resize(x, y) => Some(ActionV::Resize(x, y)),
        _ => None,
    }
}

/// A key event offered to the components in registration order: the first
/// non-empty answer wins, later components are not offered the event, and a
/// component that answered nothing is unchanged.
pub open spec fn offer_key(cs: Seq<HomeV>, key: KeyEvent) -> (Seq<HomeV>, Seq<ActionV>)
    decreases cs.len(),
{
    if cs.len() == 0 {
        (cs, Seq::empty())
    } else {
        let first_res = home_key_result(cs.first(), key);
        if first_res.1.len() > 0 {
            (seq![first_res.0] + cs.drop_first(), first_res.1)
        } else {
            let rest = offer_key(cs.drop_first(), key);
            (seq![first_res.0] + rest.0, rest.1)
        }
    }
}

/// A mouse event offered to the components in registration order, first
/// non-empty answer winning.
pub open spec fn offer_mouse(cs: Seq<HomeV>, m: MouseEvent) -> (Seq<HomeV>, Seq<ActionV>)
    decreases cs.len(),
{
    if cs.len() == 0 {
        (cs, Seq::empty())
    } else {
        let first_res = home_mouse_result(cs.first(), m);
        if first_res.1.len() > 0 {
            (seq![first_res.0] + cs.drop_first(), first_res.1)
        } else {
            let rest = offer_mouse(cs.drop_first(), m);
            (seq![first_res.0] + rest.0, rest.1)
        }
    }
}

/// The component list after the first `i` components have been offered a
/// mouse event and none answered: each of them has followed the pointer
/// (buttons reset or hovering), the rest are untouched.
pub open spec fn mouse_offered_prefix(cs: Seq<HomeV>, m: MouseEvent, i: int) -> Seq<HomeV> {
    Seq::new(
        cs.len(),
        |j: int|
            if j < i {
                home_mouse_result(cs[j], m).0
            } else {
                cs[j]
            },
    )
}

/// Every component's update step applied to one action.
pub open spec fn update_components(cs: Seq<HomeV>, a: ActionV) -> Seq<HomeV> {
    cs.map_values(|h: HomeV| home_update_state(h, a))
}

/// The frame a render action asks for.
pub open spec fn render_part(a: ActionV) -> Seq<EffectV> {
    if a == ActionV::Render {
        seq![EffectV::Render]
    } else {
        Seq::<EffectV>::empty()
    }
}

/// The background jobs the first `i` components ask for on one action.
pub open spec fn jobs_prefix(a: ActionV, i: int) -> Seq<EffectV> {
    match home_update_job(a) {
        Some(j) => Seq::new(i as nat, |k: int| EffectV::Spawn(j)),
        None => Seq::<EffectV>::empty(),
    }
}

/// The outward effects of one action: a render action draws one frame; a
/// schedule action yields one background job per component, in registration
/// order.
pub open spec fn action_effects(cs: Seq<HomeV>, a: ActionV) -> Seq<EffectV> {
    render_part(a) + jobs_prefix(a, cs.len() as int)
}

/// The component list after the first `i` components have applied one
/// action.
pub open spec fn updated_prefix(cs: Seq<HomeV>, a: ActionV, i: int) -> Seq<HomeV> {
    Seq::new(
        cs.len(),
        |j: int|
            if j < i {
                home_update_state(cs[j], a)
            } else {
                cs[j]
            },
    )
}

/// One drained action: quit is latched (nothing clears it), suspend is set
/// by a suspend action and cleared by a resume action, and every component
/// sees the action.
pub open spec fn drain_step(st: LoopState, a: ActionV) -> LoopState {
    LoopState {
        components: update_components(st.components, a),
        should_quit: st.should_quit || a == ActionV::Quit,
        should_suspend: if a == ActionV::Suspend {
            true
        } else if a == ActionV::Resume {
            false
        } else {
            st.should_suspend
        },
    }
}

/// The whole drain: the queue folded strictly in order.
pub open spec fn drain_fold(st: LoopState, q: Seq<ActionV>) -> LoopState
    decreases q.len(),
{
    if q.len() == 0 {
        st
    } else {
        drain_fold(drain_step(st, q.first()), q.drop_first())
    }
}

/// The outward effects of the whole drain, in the order they are performed.
pub open spec fn drain_effects(st: LoopState, q: Seq<ActionV>) -> Seq<EffectV>
    decreases q.len(),
{
    if q.len() == 0 {
        Seq::empty()
    } else {
        action_effects(st.components, q.first()) + drain_effects(
            drain_step(st, q.first()),
            q.drop_first(),
        )
    }
}

/// What the loop does once the queue is empty: a pending suspend wins over a
/// pending quit (the quit is still latched and acted on after the resume).
pub open spec fn directive_of(st: LoopState) -> Directive {
    if st.should_suspend {
        Directive::SuspendNow
    } else if st.should_quit {
        Directive::QuitNow
    } else {
        Directive::Continue
    }
}

/// The view of a component list.
pub open spec fn comps_view(cs: Seq<Home>) -> Seq<HomeV> {
    cs.map_values(|h: Home| h@)
}

/// The run loop's state.
pub struct Runner {
    pub components: Vec<Home>,
    pub queue: Vec<Action>,
    pub should_quit: bool,
    pub should_suspend: bool,
    pub session: Session,
    pub source: EventSource,
}

impl Runner {
    /// The part of the runner the drain model folds over.
    pub open spec fn loop_state(&self) -> LoopState {
        LoopState {
            components: comps_view(self.components@),
            should_quit: self.should_quit,
            should_suspend: self.should_suspend,
        }
    }

    /// The queued actions, as values.
    pub open spec fn queue_view(&self) -> Seq<ActionV> {
        acts_view(self.queue@)
    }

    /// The session holds the terminal exactly while an event source runs:
    /// the source is torn down before the session releases the display.
    pub open spec fn wf(&self) -> bool {
        self.session.entered == (self.source.state == SourceState::Running)
    }

    /// A fresh loop: no components, empty queue, flags clear, terminal
    /// untouched, source configured but not started.
    pub fn new(app_tick_ms: u64, render_tick_ms: u64, mouse: bool, paste: bool) -> (r: Runner)
        ensures
            r.loop_state() == (LoopState {
                components: Seq::<HomeV>::empty(),
                should_quit: false,
                should_suspend: false,
            }),
            r.queue_view() == Seq::<ActionV>::empty(),
            r.session == (Session { entered: false, mouse, paste }),
            r.source == (EventSource {
                state: SourceState::Idle,
                app_tick_ms,
                render_tick_ms,
                mouse,
                paste,
            }),
            r.wf(),
    {
        let r = Runner {
            components: Vec::new(),
            queue: Vec::new(),
            should_quit: false,
            should_suspend: false,
            session: Session::new(mouse, paste),
            source: EventSource::new(app_tick_ms, render_tick_ms, mouse, paste),
        };
        proof {
            assert(comps_view(r.components@) =~= Seq::<HomeV>::empty());
            assert(acts_view(r.queue@) =~= Seq::<ActionV>::empty());
        }
        r
    }

    /// Registers a component at the end of the list, before the loop starts;
    /// the registration order is the offer and update order.
    pub fn register_component(&mut self, h: Home)
        requires
            !old(self).session.entered,
        ensures
            final(self).loop_state() == (LoopState {
                components: old(self).loop_state().components.push(h@),
                ..old(self).loop_state()
            }),
            final(self).queue_view() == old(self).queue_view(),
            final(self).session == old(self).session,
            final(self).source == old(self).source,
    {
        self.components.push(h);
        proof {
            assert(comps_view(self.components@) =~= comps_view(old(self).components@).push(
                self.components@.last()@,
            ));
        }
    }

    /// Enqueues one action at the back of the queue. The queue is unbounded
    /// and insertion-ordered; background work and the loop itself feed it.
    pub fn enqueue(&mut self, a: Action)
        ensures
            final(self).queue_view() == old(self).queue_view().push(a@),
            final(self).loop_state() == old(self).loop_state(),
            final(self).session == old(self).session,
            final(self).source == old(self).source,
    {
        self.queue.push(a);
        proof {
            assert(acts_view(self.queue@) =~= acts_view(old(self).queue@).push(
                self.queue@.last()@,
            ));
        }
    }

    /// Enters the terminal session and starts the event source together;
    /// returns the terminal control operations to perform.
    pub fn start(&mut self) -> (ops: Vec<TermOp>)
        requires
            !old(self).session.entered,
        ensures
            final(self).session == (Session { entered: true, ..old(self).session }),
            final(self).source == (EventSource {
                state: SourceState::Running,
                ..old(self).source
            }),
            final(self).wf(),
            ops@ == enter_ops_spec(old(self).session.mouse, old(self).session.paste),
            final(self).loop_state() == old(self).loop_state(),
            final(self).queue_view() == old(self).queue_view(),
    {
        let ops = self.session.enter();
        self.source.start();
        ops
    }

    /// Translates one event and enqueues what it yields: control events
    /// directly, key and mouse events through the components, first
    /// non-empty answer winning; everything else is absorbed.
    pub fn handle_event(&mut self, e: &Event)
        ensures
            final(self).should_quit == old(self).should_quit,
            final(self).should_suspend == old(self).should_suspend,
            final(self).session == old(self).session,
            final(self).source == old(self).source,
            match translate_event(e@) {
                Some(a) => final(self).loop_state() == old(self).loop_state()
                    && final(self).queue_view() == old(self).queue_view().push(a),
                None => match e@ {
                    EventV::Key(k) => final(self).loop_state().components == offer_key(
                        old(self).loop_state().components,
                        k,
                    ).0 && final(self).queue_view() == old(self).queue_view() + offer_key(
                        old(self).loop_state().components,
                        k,
                    ).1,
                    EventV::Mouse(m) => final(self).loop_state().components == offer_mouse(
                        old(self).loop_state().components,
                        m,
                    ).0 && final(self).queue_view() == old(self).queue_view() + offer_mouse(
                        old(self).loop_state().components,
                        m,
                    ).1,
                    _ => final(self).loop_state() == old(self).loop_state()
                        && final(self).queue_view() == old(self).queue_view(),
                },
            },
    {
        match e {
            Event::Quit => self.enqueue(Action::Quit),
            Event::Tick => self.enqueue(Action::Tick),
            Event::Render => self.enqueue(Action::Render),
            Event::Resize(x, y) => self.enqueue(Action::Resize(*x, *y)),
            Event::Key(k) => self.offer_key_to_components(*k),
            Event::Mouse(m) => self.offer_mouse_to_components(*m),
            _ => {},
        }
    }

    /// Offers a key event to each component in order until one answers,
    /// enqueueing the answer.
    #[verifier::loop_isolation(false)]
    fn offer_key_to_components(&mut self, key: KeyEvent)
        ensures
            final(self).should_quit == old(self).should_quit,
            final(self).should_suspend == old(self).should_suspend,
            final(self).session == old(self).session,
            final(self).source == old(self).source,
            comps_view(final(self).components@) == offer_key(
                comps_view(old(self).components@),
                key,
            ).0,
            final(self).queue_view() == old(self).queue_view() + offer_key(
                comps_view(old(self).components@),
                key,
            ).1,
    {
        let ghost cs0 = comps_view(self.components@);
        let ghost q0 = self.queue_view();
        let n = self.components.len();
        let mut i: usize = 0;
        while i < n
            invariant
                i <= n,
                n == self.components@.len(),
                cs0.len() == n,
                comps_view(self.components@) == cs0,
                self.queue_view() == q0,
                self.should_quit == old(self).should_quit,
                self.should_suspend == old(self).should_suspend,
                self.session == old(self).session,
                self.source == old(self).source,
                forall|j: int| 0 <= j < i ==> home_key_result(cs0[j], key).1.len() == 0,
            decreases n - i,
        {
            let ghost pre = self.components@;
            proof {
                assert(comps_view(pre)[i as int] == pre[i as int]@);
                assert(pre[i as int]@ == cs0[i as int]);
            }
            let mut c = self.components.remove(i);
            let acts = c.handle_key_events(key);
            let responded = acts.len() > 0;
            self.components.insert(i, c);
            proof {
                assert(self.components@ =~= pre.update(i as int, self.components@[i as int]));
                assert(comps_view(self.components@) =~= cs0.update(
                    i as int,
                    home_key_result(cs0[i as int], key).0,
                ));
            }
            if responded {
                let mut acts = acts;
                let mut k: usize = 0;
                let ghost appended = home_key_result(cs0[i as int], key).1;
                while k < acts.len()
                    invariant
                        k <= acts@.len(),
                        acts_view(acts@) == appended,
                        comps_view(self.components@) == cs0.update(
                            i as int,
                            home_key_result(cs0[i as int], key).0,
                        ),
                        self.queue_view() == q0 + appended.take(k as int),
                        self.should_quit == old(self).should_quit,
                        self.should_suspend == old(self).should_suspend,
                        self.session == old(self).session,
                        self.source == old(self).source,
                    decreases acts@.len() - k,
                {
                    let a = acts[k].clone();
                    proof {
                        assert(a@ == appended[k as int]);
                    }
                    self.enqueue(a);
                    k = k + 1;
                    proof {
                        assert((q0 + appended.take(k as int - 1)).push(appended[k as int - 1])
                            =~= q0 + appended.take(k as int));
                    }
                }
                proof {
                    assert(appended.take(appended.len() as int) =~= appended);
                    lemma_offer_key_locate(cs0, key, i as int);
                }
                return ;
            }
            proof {
                lemma_empty_key_result_no_change(cs0[i as int], key);
                assert(comps_view(self.components@) =~= cs0);
            }
            i = i + 1;
        }
        proof {
            lemma_offer_key_locate(cs0, key, n as int);
            assert(self.queue_view() =~= q0 + offer_key(cs0, key).1);
        }
    }

    /// Offers a mouse event to each component in order until one answers,
    /// enqueueing the answer.
    #[verifier::loop_isolation(false)]
    fn offer_mouse_to_components(&mut self, m: MouseEvent)
        ensures
            final(self).should_quit == old(self).should_quit,
            final(self).should_suspend == old(self).should_suspend,
            final(self).session == old(self).session,
            final(self).source == old(self).source,
            comps_view(final(self).components@) == offer_mouse(
                comps_view(old(self).components@),
                m,
            ).0,
            final(self).queue_view() == old(self).queue_view() + offer_mouse(
                comps_view(old(self).components@),
                m,
            ).1,
    {
        let ghost cs0 = comps_view(self.components@);
        let ghost q0 = self.queue_view();
        let n = self.components.len();
        let mut i: usize = 0;
        proof {
            assert(mouse_offered_prefix(cs0, m, 0) =~= cs0);
        }
        while i < n
            invariant
                i <= n,
                n == self.components@.len(),
                cs0.len() == n,
                comps_view(self.components@) == mouse_offered_prefix(cs0, m, i as int),
                self.queue_view() == q0,
                self.should_quit == old(self).should_quit,
                self.should_suspend == old(self).should_suspend,
                self.session == old(self).session,
                self.source == old(self).source,
                forall|j: int| 0 <= j < i ==> home_mouse_result(cs0[j], m).1.len() == 0,
            decreases n - i,
        {
            let ghost pre = self.components@;
            proof {
                assert(comps_view(pre)[i as int] == pre[i as int]@);
                assert(mouse_offered_prefix(cs0, m, i as int)[i as int] == cs0[i as int]);
                assert(pre[i as int]@ == cs0[i as int]);
            }
            let mut c = self.components.remove(i);
            let acts = c.handle_mouse_events(m);
            let responded = acts.len() > 0;
            self.components.insert(i, c);
            proof {
                assert(self.components@ =~= pre.update(i as int, self.components@[i as int]));
                assert(self.components@[i as int]@ == home_mouse_result(cs0[i as int], m).0);
                assert forall|j: int|
                    0 <= j < cs0.len() implies comps_view(self.components@)[j]
                    == mouse_offered_prefix(cs0, m, i as int + 1)[j] by {
                    assert(comps_view(self.components@)[j] == self.components@[j]@);
                    if j != i as int {
                        assert(self.components@[j] == pre[j]);
                        assert(comps_view(pre)[j] == pre[j]@);
                        assert(comps_view(pre)[j] == mouse_offered_prefix(cs0, m, i as int)[j]);
                    }
                }
                assert(comps_view(self.components@) =~= mouse_offered_prefix(
                    cs0,
                    m,
                    i as int + 1,
                ));
            }
            if responded {
                let mut acts = acts;
                let mut k: usize = 0;
                let ghost appended = home_mouse_result(cs0[i as int], m).1;
                while k < acts.len()
                    invariant
                        k <= acts@.len(),
                        acts_view(acts@) == appended,
                        i < n,
                        cs0.len() == n,
                        comps_view(self.components@) == mouse_offered_prefix(
                            cs0,
                            m,
                            i as int + 1,
                        ),
                        self.queue_view() == q0 + appended.take(k as int),
                        self.should_quit == old(self).should_quit,
                        self.should_suspend == old(self).should_suspend,
                        self.session == old(self).session,
                        self.source == old(self).source,
                    decreases acts@.len() - k,
                {
                    let a = acts[k].clone();
                    proof {
                        assert(a@ == appended[k as int]);
                    }
                    self.enqueue(a);
                    k = k + 1;
                    proof {
                        assert((q0 + appended.take(k as int - 1)).push(appended[k as int - 1])
                            =~= q0 + appended.take(k as int));
                    }
                }
                proof {
                    assert(appended.take(appended.len() as int) =~= appended);
                    lemma_offer_mouse_locate(cs0, m, i as int);
                }
                return ;
            }
            i = i + 1;
        }
        proof {
            lemma_offer_mouse_locate(cs0, m, n as int);
            assert(self.queue_view() =~= q0 + offer_mouse(cs0, m).1);
        }
    }

    /// Drains the action queue completely, strictly in order: every queued
    /// action updates the flags and is offered to every component's update
    /// step before the next one is taken, and any follow-up action a
    /// component returns is enqueued and drained too. The returned effects
    /// (frames to draw, jobs to spawn) are in the order they arose. Only
    /// when the drain has folded the whole queue does the caller read the
    /// directive, so nothing queued before a suspend or quit is lost.
    #[verifier::loop_isolation(false)]
    pub fn drain(&mut self) -> (effects: Vec<Effect>)
        ensures
            final(self).loop_state() == drain_fold(old(self).loop_state(), old(self).queue_view()),
            effs_view(effects@) == drain_effects(old(self).loop_state(), old(self).queue_view()),
            final(self).queue_view() == Seq::<ActionV>::empty(),
            final(self).session == old(self).session,
            final(self).source == old(self).source,
    {
        let mut effects: Vec<Effect> = Vec::new();
        let ghost st0 = self.loop_state();
        let ghost q0 = self.queue_view();
        proof {
            assert(effs_view(effects@) =~= Seq::<EffectV>::empty());
            assert(drain_effects(st0, q0) =~= effs_view(effects@) + drain_effects(st0, q0));
        }
        while self.queue.len() > 0
            invariant
                drain_fold(st0, q0) == drain_fold(self.loop_state(), self.queue_view()),
                drain_effects(st0, q0) == effs_view(effects@) + drain_effects(
                    self.loop_state(),
                    self.queue_view(),
                ),
                self.session == old(self).session,
                self.source == old(self).source,
            decreases self.queue@.len(),
        {
            let ghost st_a = self.loop_state();
            let ghost q_a = self.queue_view();
            let ghost cs_a = st_a.components;
            let a = self.queue.remove(0);
            proof {
                assert(a@ == q_a.first());
                assert(self.queue_view() =~= q_a.drop_first());
            }
            let ghost effs_before = effects@;
            match &a {
                Action::Quit => {
                    self.should_quit = true;
                },
                Action::Suspend => {
                    self.should_suspend = true;
                },
                Action::Resume => {
                    self.should_suspend = false;
                },
                Action::Render => {
                    effects.push(Effect::Render);
                },
                _ => {},
            }
            proof {
                assert(effs_view(effects@) =~= effs_view(effs_before) + render_part(a@));
                assert(self.should_quit == (st_a.should_quit || a@ == ActionV::Quit));
            }
            let n = self.components.len();
            let ghost flags_quit = self.should_quit;
            let ghost flags_suspend = self.should_suspend;
            let mut i: usize = 0;
            proof {
                assert(updated_prefix(cs_a, a@, 0) =~= cs_a);
                assert(jobs_prefix(a@, 0) =~= Seq::<EffectV>::empty());
                assert(effs_view(effects@) =~= effs_view(effs_before) + render_part(a@)
                    + jobs_prefix(a@, 0));
            }
            while i < n
                invariant
                    i <= n,
                    n == self.components@.len(),
                    cs_a.len() == n,
                    comps_view(self.components@) == updated_prefix(cs_a, a@, i as int),
                    effs_view(effects@) == effs_view(effs_before) + render_part(a@) + jobs_prefix(
                        a@,
                        i as int,
                    ),
                    self.queue_view() == q_a.drop_first(),
                    self.should_quit == flags_quit,
                    self.should_suspend == flags_suspend,
                    self.session == old(self).session,
                    self.source == old(self).source,
                decreases n - i,
            {
                let ghost pre = self.components@;
                proof {
                    assert(comps_view(pre)[i as int] == pre[i as int]@);
                    assert(updated_prefix(cs_a, a@, i as int)[i as int] == cs_a[i as int]);
                }
                let mut c = self.components.remove(i);
                let upd = c.update(&a);
                self.components.insert(i, c);
                proof {
                    assert(self.components@ =~= pre.update(i as int, self.components@[i as int]));
                    assert(self.components@[i as int]@ == home_update_state(cs_a[i as int], a@));
                    assert forall|j: int|
                        0 <= j < cs_a.len() implies comps_view(self.components@)[j]
                        == updated_prefix(cs_a, a@, i as int + 1)[j] by {
                        assert(comps_view(self.components@)[j] == self.components@[j]@);
                        if j != i as int {
                            assert(self.components@[j] == pre[j]);
                            assert(comps_view(pre)[j] == pre[j]@);
                            assert(comps_view(pre)[j] == updated_prefix(cs_a, a@, i as int)[j]);
                        }
                    }
                    assert(comps_view(self.components@) =~= updated_prefix(
                        cs_a,
                        a@,
                        i as int + 1,
                    ));
                }
                let ghost effs_mid = effects@;
                match upd.1 {
                    Some(j) => {
                        let ghost jv = j@;
                        effects.push(Effect::Spawn(j));
                        proof {
                            assert(home_update_job(a@) == Some(jv));
                            assert(effs_view(effects@) =~= effs_view(effs_mid).push(
                                EffectV::Spawn(jv),
                            ));
                            assert(jobs_prefix(a@, i as int + 1) =~= jobs_prefix(
                                a@,
                                i as int,
                            ).push(EffectV::Spawn(jv)));
                            assert(effs_view(effects@) =~= effs_view(effs_before) + render_part(
                                a@,
                            ) + jobs_prefix(a@, i as int + 1));
                        }
                    },
                    None => {
                        proof {
                            assert(jobs_prefix(a@, i as int + 1) =~= jobs_prefix(a@, i as int));
                            assert(effs_view(effects@) =~= effs_view(effs_before) + render_part(
                                a@,
                            ) + jobs_prefix(a@, i as int + 1));
                        }
                    },
                }
                match upd.0 {
                    Some(f) => {
                        self.queue.push(f);
                    },
                    None => {},
                }
                i = i + 1;
            }
            proof {
                assert(updated_prefix(cs_a, a@, n as int) =~= update_components(cs_a, a@));
                assert(self.loop_state() == drain_step(st_a, a@));
                assert(effs_view(effects@) =~= effs_view(effs_before) + action_effects(cs_a, a@));
                assert(drain_effects(st_a, q_a) == action_effects(cs_a, a@) + drain_effects(
                    self.loop_state(),
                    self.queue_view(),
                ));
                assert(effs_view(effs_before) + (action_effects(cs_a, a@) + drain_effects(
                    self.loop_state(),
                    self.queue_view(),
                )) =~= effs_view(effects@) + drain_effects(self.loop_state(), self.queue_view()));
            }
        }
        proof {
            assert(self.queue_view() =~= Seq::<ActionV>::empty());
            assert(effs_view(effects@) + drain_effects(self.loop_state(), self.queue_view())
                =~= effs_view(effects@));
        }
        effects
    }

    /// What the loop should do now that the queue is empty: suspend wins
    /// over quit; a latched quit is acted on after the resume.
    pub fn directive(&self) -> (d: Directive)
        ensures
            d == directive_of(self.loop_state()),
    {
        if self.should_suspend {
            Directive::SuspendNow
        } else if self.should_quit {
            Directive::QuitNow
        } else {
            Directive::Continue
        }
    }

    /// Tears the loop down for a suspend or a quit: the event source is
    /// stopped first, and only then does the session release the display, so
    /// no producer can write through a handle that is being restored. The
    /// returned operations restore the terminal; for a suspend the caller
    /// raises the process-level stop signal after running them.
    pub fn stop_and_release(&mut self) -> (ops: Vec<TermOp>)
        ensures
            final(self).source == crate::event::stopped_of(old(self).source),
            final(self).session == (Session { entered: false, ..old(self).session }),
            ops@ == if old(self).session.entered {
                exit_ops_spec(old(self).session.mouse, old(self).session.paste)
            } else {
                Seq::<TermOp>::empty()
            },
            final(self).loop_state() == old(self).loop_state(),
            final(self).queue_view() == old(self).queue_view(),
            final(self).wf(),
    {
        self.source.stop();
        self.session.exit()
    }

    /// Brings the loop back after an external resume: the session takes the
    /// display again, a fresh producer runs, and a synthesized resume action
    /// is enqueued. Called right after a drain, the queue is empty, so the
    /// resume action stands at the head and is processed before anything a
    /// component produces later.
    pub fn resume_after_suspend(&mut self) -> (ops: Vec<TermOp>)
        requires
            !old(self).session.entered,
        ensures
            final(self).session == (Session { entered: true, ..old(self).session }),
            final(self).source == (EventSource {
                state: SourceState::Running,
                ..old(self).source
            }),
            final(self).wf(),
            ops@ == enter_ops_spec(old(self).session.mouse, old(self).session.paste),
            final(self).loop_state() == old(self).loop_state(),
            final(self).queue_view() == old(self).queue_view().push(ActionV::Resume),
    {
        let ops = self.session.resume();
        self.source.start();
        self.enqueue(Action::Resume);
        ops
    }
}

/// A key answer with no actions leaves the component exactly as it was.
pub proof fn lemma_empty_key_result_no_change(h: HomeV, key: KeyEvent)
    ensures
        home_key_result(h, key).1.len() == 0 ==> home_key_result(h, key).0 == h,
{
}

/// Locates the first component whose key answer is non-empty: the offer
/// updates exactly that component and yields its answer; if none answers,
/// the offer changes nothing and yields nothing.
pub proof fn lemma_offer_key_locate(cs: Seq<HomeV>, key: KeyEvent, i: int)
    requires
        0 <= i <= cs.len(),
        forall|j: int| 0 <= j < i ==> home_key_result(cs[j], key).1.len() == 0,
        i < cs.len() ==> home_key_result(cs[i], key).1.len() > 0,
    ensures
        i < cs.len() ==> offer_key(cs, key) == (
            cs.update(i, home_key_result(cs[i], key).0),
            home_key_result(cs[i], key).1,
        ),
        i == cs.len() ==> offer_key(cs, key) == (cs, Seq::<ActionV>::empty()),
    decreases cs.len(),
{
    if cs.len() == 0 {
        assert(offer_key(cs, key) == (cs, Seq::<ActionV>::empty()));
    } else if i == 0 {
        if i < cs.len() {
            assert(offer_key(cs, key).0 =~= cs.update(i, home_key_result(cs[i], key).0));
        }
    } else {
        assert(home_key_result(cs.first(), key).1.len() == 0);
        lemma_empty_key_result_no_change(cs.first(), key);
        let tail = cs.drop_first();
        assert(forall|j: int|
            0 <= j < i - 1 ==> home_key_result(#[trigger] tail[j], key).1.len() == 0) by {
            assert(forall|j: int| 0 <= j < i - 1 ==> tail[j] == cs[j + 1]);
        }
        lemma_offer_key_locate(tail, key, i - 1);
        if i < cs.len() {
            assert(tail[i - 1] == cs[i]);
            assert(seq![cs.first()] + tail.update(i - 1, home_key_result(cs[i], key).0)
                =~= cs.update(i, home_key_result(cs[i], key).0));
        } else {
            assert(seq![cs.first()] + tail =~= cs);
        }
    }
}

/// The mouse counterpart of `lemma_offer_key_locate`: every offered
/// component has followed the pointer, the first one with a non-empty
/// answer ends the offer, the rest are untouched.
pub proof fn lemma_offer_mouse_locate(cs: Seq<HomeV>, m: MouseEvent, i: int)
    requires
        0 <= i <= cs.len(),
        forall|j: int| 0 <= j < i ==> home_mouse_result(cs[j], m).1.len() == 0,
        i < cs.len() ==> home_mouse_result(cs[i], m).1.len() > 0,
    ensures
        i < cs.len() ==> offer_mouse(cs, m) == (
            mouse_offered_prefix(cs, m, i + 1),
            home_mouse_result(cs[i], m).1,
        ),
        i == cs.len() ==> offer_mouse(cs, m) == (
            mouse_offered_prefix(cs, m, i),
            Seq::<ActionV>::empty(),
        ),
    decreases cs.len(),
{
    if cs.len() == 0 {
        assert(mouse_offered_prefix(cs, m, 0) =~= cs);
        assert(offer_mouse(cs, m) == (cs, Seq::<ActionV>::empty()));
    } else if i == 0 {
        assert(offer_mouse(cs, m).0 =~= mouse_offered_prefix(cs, m, 1));
    } else {
        assert(home_mouse_result(cs.first(), m).1.len() == 0);
        let tail = cs.drop_first();
        assert(forall|j: int| 0 <= j < tail.len() ==> #[trigger] tail[j] == cs[j + 1]);
        lemma_offer_mouse_locate(tail, m, i - 1);
        if i < cs.len() {
            assert(tail[i - 1] == cs[i]);
            assert(seq![home_mouse_result(cs.first(), m).0] + mouse_offered_prefix(tail, m, i)
                =~= mouse_offered_prefix(cs, m, i + 1));
        } else {
            assert(seq![home_mouse_result(cs.first(), m).0] + mouse_offered_prefix(
                tail,
                m,
                i - 1,
            ) =~= mouse_offered_prefix(cs, m, i));
        }
    }
}


/// With no binding for a key in any component and every component outside
/// insert mode, the key event is absorbed: no action is enqueued and no
/// component's state changes.
pub proof fn lemma_unbound_key_is_noop(cs: Seq<HomeV>, key: KeyEvent)
    requires
        forall|j: int|
            0 <= j < cs.len() ==> (#[trigger] cs[j].mode) != Mode::Insert && !cs[j].keymap.contains_key(key),
    ensures
        offer_key(cs, key).0 == cs,
        offer_key(cs, key).1 == Seq::<ActionV>::empty(),
    decreases cs.len(),
{
    if cs.len() > 0 {
        assert(cs[0].mode != Mode::Insert);
        assert(home_key_result(cs.first(), key).1.len() == 0);
        let tail = cs.drop_first();
        assert(forall|j: int| 0 <= j < tail.len() ==> #[trigger] tail[j] == cs[j + 1]);
        lemma_unbound_key_is_noop(tail, key);
        assert(seq![cs.first()] + tail =~= cs);
    }
}

/// The drain folds queues piecewise: folding a concatenation is folding the
/// first part, then the second over the state it left. This is the order
/// guarantee in one line: everything in `q1` is applied before anything in
/// `q2`.
pub proof fn lemma_drain_fold_append(st: LoopState, q1: Seq<ActionV>, q2: Seq<ActionV>)
    ensures
        drain_fold(st, q1 + q2) == drain_fold(drain_fold(st, q1), q2),
    decreases q1.len(),
{
    if q1.len() == 0 {
        assert(q1 + q2 =~= q2);
    } else {
        assert((q1 + q2).first() == q1.first());
        assert((q1 + q2).drop_first() =~= q1.drop_first() + q2);
        lemma_drain_fold_append(drain_step(st, q1.first()), q1.drop_first(), q2);
    }
}

/// Every action enqueued before a suspend action is applied before the
/// suspend flag it raises can take effect: the fold passes through the state
/// in which the whole prefix up to and including the suspend has been
/// applied, and at that point the suspend flag is set.
pub proof fn lemma_prefix_drained_before_suspend(st: LoopState, q: Seq<ActionV>, i: int)
    requires
        0 <= i < q.len(),
        q[i] == ActionV::Suspend,
    ensures
        drain_fold(st, q) == drain_fold(drain_fold(st, q.take(i + 1)), q.skip(i + 1)),
        drain_fold(st, q.take(i + 1)).should_suspend,
{
    assert(q.take(i + 1) + q.skip(i + 1) =~= q);
    lemma_drain_fold_append(st, q.take(i + 1), q.skip(i + 1));
    let p = q.take(i + 1);
    assert(p.drop_last() =~= q.take(i));
    assert(p.last() == ActionV::Suspend);
    assert(p =~= q.take(i) + seq![ActionV::Suspend]);
    lemma_drain_fold_append(st, q.take(i), seq![ActionV::Suspend]);
    let mid = drain_fold(st, q.take(i));
    assert(drain_fold(mid, seq![ActionV::Suspend]) == drain_fold(
        drain_step(mid, ActionV::Suspend),
        seq![ActionV::Suspend].drop_first(),
    ));
    assert(seq![ActionV::Suspend].drop_first() =~= Seq::<ActionV>::empty());
}

/// A synthesized resume action at the head of the queue is processed before
/// anything behind it: the fold applies it first, it clears the suspend
/// flag, and it leaves every component as it was.
pub proof fn lemma_resume_processed_first(st: LoopState, rest: Seq<ActionV>)
    ensures
        drain_fold(st, seq![ActionV::Resume] + rest) == drain_fold(
            drain_step(st, ActionV::Resume),
            rest,
        ),
        !drain_step(st, ActionV::Resume).should_suspend,
        drain_step(st, ActionV::Resume).components == st.components,
{
    let q = seq![ActionV::Resume] + rest;
    assert(q.first() == ActionV::Resume);
    assert(q.drop_first() =~= rest);
    assert forall|j: int|
        0 <= j < st.components.len() implies update_components(st.components, ActionV::Resume)[j]
        == st.components[j] by {
        assert(home_update_state(st.components[j], ActionV::Resume) == st.components[j]);
    }
    assert(update_components(st.components, ActionV::Resume) =~= st.components);
}

/// The quit flag is latched: once set, no amount of further draining clears
/// it.
pub proof fn lemma_quit_flag_latched(st: LoopState, q: Seq<ActionV>)
    requires
        st.should_quit,
    ensures
        drain_fold(st, q).should_quit,
    decreases q.len(),
{
    if q.len() > 0 {
        lemma_quit_flag_latched(drain_step(st, q.first()), q.drop_first());
    }
}

/// An enqueued quit action forces the quit flag by the end of the drain,
/// whatever else the queue holds: with the queue empty and the suspend flag
/// clear, the loop's directive is then to quit.
pub proof fn lemma_enqueued_quit_forces_quit(st: LoopState, q: Seq<ActionV>, i: int)
    requires
        0 <= i < q.len(),
        q[i] == ActionV::Quit,
    ensures
        drain_fold(st, q).should_quit,
        !drain_fold(st, q).should_suspend ==> directive_of(drain_fold(st, q))
            == Directive::QuitNow,
{
    assert(q.take(i + 1) + q.skip(i + 1) =~= q);
    lemma_drain_fold_append(st, q.take(i + 1), q.skip(i + 1));
    let p = q.take(i + 1);
    assert(p.drop_last() =~= q.take(i));
    assert(p =~= q.take(i) + seq![ActionV::Quit]);
    lemma_drain_fold_append(st, q.take(i), seq![ActionV::Quit]);
    let mid = drain_fold(st, q.take(i));
    assert(drain_fold(mid, seq![ActionV::Quit]) == drain_fold(
        drain_step(mid, ActionV::Quit),
        seq![ActionV::Quit].drop_first(),
    ));
    assert(seq![ActionV::Quit].drop_first() =~= Seq::<ActionV>::empty());
    assert(drain_fold(st, p).should_quit);
    lemma_quit_flag_latched(drain_fold(st, p), q.skip(i + 1));
}


/// The render actions in a queue, counted.
pub open spec fn render_count(q: Seq<ActionV>) -> int
    decreases q.len(),
{
    if q.len() == 0 {
        0
    } else {
        (if q.first() == ActionV::Render {
            1int
        } else {
            0int
        }) + render_count(q.drop_first())
    }
}

/// The frames among a drain's effects, counted.
pub open spec fn frame_count(es: Seq<EffectV>) -> int
    decreases es.len(),
{
    if es.len() == 0 {
        0
    } else {
        (if es.first() == EffectV::Render {
            1int
        } else {
            0int
        }) + frame_count(es.drop_first())
    }
}

/// Frames add up over concatenation.
pub proof fn lemma_frame_count_add(e1: Seq<EffectV>, e2: Seq<EffectV>)
    ensures
        frame_count(e1 + e2) == frame_count(e1) + frame_count(e2),
    decreases e1.len(),
{
    if e1.len() == 0 {
        assert(e1 + e2 =~= e2);
    } else {
        assert((e1 + e2).first() == e1.first());
        assert((e1 + e2).drop_first() =~= e1.drop_first() + e2);
        lemma_frame_count_add(e1.drop_first(), e2);
    }
}

/// A sequence of spawned jobs holds no frame.
proof fn lemma_no_frames_in_jobs(es: Seq<EffectV>)
    requires
        forall|j: int| 0 <= j < es.len() ==> (#[trigger] es[j]) is Spawn,
    ensures
        frame_count(es) == 0,
    decreases es.len(),
{
    if es.len() > 0 {
        assert(forall|j: int|
            0 <= j < es.drop_first().len() ==> (#[trigger] es.drop_first()[j]) == es[j + 1]);
        lemma_no_frames_in_jobs(es.drop_first());
    }
}

/// One frame per render action: draining a queue draws exactly as many
/// frames as the queue holds render actions, wherever they stand and
/// whatever else is queued.
pub proof fn lemma_one_frame_per_render(st: LoopState, q: Seq<ActionV>)
    ensures
        frame_count(drain_effects(st, q)) == render_count(q),
    decreases q.len(),
{
    if q.len() > 0 {
        let a = q.first();
        let first_effects = action_effects(st.components, a);
        let rest = drain_effects(drain_step(st, a), q.drop_first());
        lemma_frame_count_add(first_effects, rest);
        lemma_frame_count_add(render_part(a), jobs_prefix(a, st.components.len() as int));
        lemma_no_frames_in_jobs(jobs_prefix(a, st.components.len() as int));
        if a == ActionV::Render {
            assert(render_part(a).drop_first() =~= Seq::<EffectV>::empty());
        }
        lemma_one_frame_per_render(drain_step(st, a), q.drop_first());
    }
}

} // verus!
