use vstd::prelude::*;
use crate::draft::DraftRecord;
use crate::draft::DraftView;
use crate::draft::Field;
use crate::draft::edited;
use crate::view::Action;
use crate::view::Outcome;
use crate::view::Screen;
use crate::view::ViewDescription;
use crate::view::ViewModel;
use crate::view::render;
use crate::view::render_spec;

verus! {

/// Every wait of the session is bounded by the same idle timeout, re-armed
/// at each wait point; one expiry is terminal for the whole session.
pub const TIMEOUT_SECS: u64 = 180;

/// The waiter's deadline policy: a wait with no event for this many seconds
/// has timed out.
pub fn wait_times_out(elapsed_secs: u64) -> (r: bool)
    ensures
        r == (elapsed_secs >= TIMEOUT_SECS),
{
    elapsed_secs >= TIMEOUT_SECS
}

/// The waiter's outcome for a value wait: the reply's text when one arrived
/// in time, else the timeout event.
pub fn reply_event(r: Option<String>) -> (e: Event)
    ensures
        e@ == match r {
            Some(t) => EventModel::Submitted(t@),
            None => EventModel::TimedOut,
        },
{
    match r {
        Some(t) => Event::Submitted(t),
        None => Event::TimedOut,
    }
}

/// The waiter's outcome for an action wait: the pressed action when one
/// arrived in time, else the timeout event.
pub fn action_event(r: Option<Action>) -> (e: Event)
    ensures
        e@ == match r {
            Some(a) => EventModel::Pressed(a),
            None => EventModel::TimedOut,
        },
{
    match r {
        Some(a) => Event::Pressed(a),
        None => Event::TimedOut,
    }
}

/// Why a session is over.
#[derive(Clone, Copy, PartialEq, Eq, Structural, Debug)]
pub enum EndReason {
    TimedOut,
    Confirmed,
    Cancelled,
    Defect,
}

/// Which wait the session's single logical flow is suspended on.
#[derive(Clone, Copy, PartialEq, Eq, Structural, Debug)]
pub enum Phase {
    /// Waiting for an action on the main panel.
    AtMain,
    /// Waiting for the replacement value of a field.
    Prompting(Field),
    /// Waiting for the Continue action after a confirmed edit.
    Confirming(Field),
    /// Over; every further event is rejected.
    Ended(EndReason),
}

/// The external input one wait resolves to: a pressed panel control, a typed
/// submission, or the expiry of the wait's deadline.
pub enum Event {
    Pressed(Action),
    Submitted(String),
    TimedOut,
}

pub enum EventModel {
    Pressed(Action),
    Submitted(Seq<char>),
    TimedOut,
}

impl View for Event {
    type V = EventModel;

    open spec fn view(&self) -> EventModel {
        match self {
            Event::Pressed(a) => EventModel::Pressed(*a),
            Event::Submitted(t) => EventModel::Submitted(t@),
            Event::TimedOut => EventModel::TimedOut,
        }
    }
}

/// What the transport must now do: rewrite the panel in place, first delete
/// the consumed submission, first hand the finished draft off, drop the
/// event, or abort the session loudly.
pub enum Directive {
    ShowPanel(ViewDescription),
    ConsumeAndShow(ViewDescription),
    FinalizeAndShow(ViewDescription),
    Ignore,
    Fail,
}

#[verifier::ext_equal]
pub enum DirectiveModel {
    ShowPanel(ViewModel),
    ConsumeAndShow(ViewModel),
    FinalizeAndShow(ViewModel),
    Ignore,
    Fail,
}

impl View for Directive {
    type V = DirectiveModel;

    open spec fn view(&self) -> DirectiveModel {
        match self {
            Directive::ShowPanel(v) => DirectiveModel::ShowPanel(v@),
            Directive::ConsumeAndShow(v) => DirectiveModel::ConsumeAndShow(v@),
            Directive::FinalizeAndShow(v) => DirectiveModel::FinalizeAndShow(v@),
            Directive::Ignore => DirectiveModel::Ignore,
            Directive::Fail => DirectiveModel::Fail,
        }
    }
}

/// One session: the draft it owns exclusively and the wait it is suspended
/// on. The panel message handle itself stays with the transport.
pub struct Session {
    pub draft: DraftRecord,
    pub phase: Phase,
}

#[verifier::ext_equal]
pub struct SessionModel {
    pub draft: DraftView,
    pub phase: Phase,
}

impl SessionModel {
    pub open spec fn wf(self) -> bool {
        self.draft.wf()
    }
}

impl View for Session {
    type V = SessionModel;

    open spec fn view(&self) -> SessionModel {
        SessionModel { draft: self.draft@, phase: self.phase }
    }
}

pub open spec fn timeout_step(s: SessionModel) -> (SessionModel, DirectiveModel) {
    (
        SessionModel { phase: Phase::Ended(EndReason::TimedOut), ..s },
        DirectiveModel::ShowPanel(render_spec(s.draft, Screen::TimedOut)),
    )
}

pub open spec fn prompt_step(s: SessionModel, f: Field) -> (SessionModel, DirectiveModel) {
    (
        SessionModel { phase: Phase::Prompting(f), ..s },
        DirectiveModel::ShowPanel(render_spec(s.draft, Screen::PromptField(f))),
    )
}

pub open spec fn defect_step(s: SessionModel) -> (SessionModel, DirectiveModel) {
    (SessionModel { phase: Phase::Ended(EndReason::Defect), ..s }, DirectiveModel::Fail)
}

/// The whole transition table of the session: from a state and the event its
/// wait resolved to, the next state and what the transport must do.
pub open spec fn step_spec(s: SessionModel, e: EventModel) -> (SessionModel, DirectiveModel) {
    match s.phase {
        Phase::Ended(_) => (s, DirectiveModel::Ignore),
        Phase::AtMain => match e {
            EventModel::TimedOut => timeout_step(s),
            EventModel::Submitted(_) => defect_step(s),
            EventModel::Pressed(a) => match a {
                Action::EditTitle => prompt_step(s, Field::Title),
                Action::EditDescription => prompt_step(s, Field::Description),
                Action::EditTags => prompt_step(s, Field::Tags),
                Action::Confirm => (
                    SessionModel { phase: Phase::Ended(EndReason::Confirmed), ..s },
                    DirectiveModel::FinalizeAndShow(
                        render_spec(s.draft, Screen::Terminal(Outcome::Confirmed)),
                    ),
                ),
                Action::Cancel => (
                    SessionModel { phase: Phase::Ended(EndReason::Cancelled), ..s },
                    DirectiveModel::ShowPanel(
                        render_spec(s.draft, Screen::Terminal(Outcome::Cancelled)),
                    ),
                ),
                Action::Continue => defect_step(s),
            },
        },
        Phase::Prompting(f) => match e {
            EventModel::TimedOut => timeout_step(s),
            EventModel::Submitted(t) => (
                SessionModel { draft: edited(s.draft, f, t), phase: Phase::Confirming(f) },
                DirectiveModel::ConsumeAndShow(
                    render_spec(edited(s.draft, f, t), Screen::Confirm(f)),
                ),
            ),
            EventModel::Pressed(_) => defect_step(s),
        },
        Phase::Confirming(_) => match e {
            EventModel::TimedOut => timeout_step(s),
            EventModel::Pressed(a) => if a == Action::Continue {
                (
                    SessionModel { phase: Phase::AtMain, ..s },
                    DirectiveModel::ShowPanel(render_spec(s.draft, Screen::Main)),
                )
            } else {
                defect_step(s)
            },
            EventModel::Submitted(_) => defect_step(s),
        },
    }
}

impl Session {
    /// A fresh session owning a draft, suspended on the main panel's wait.
    pub fn new(draft: DraftRecord) -> (s: Session)
        ensures
            s@.draft == draft@,
            s@.phase == Phase::AtMain,
    {
        Session { draft, phase: Phase::AtMain }
    }

    /// The panel the session first shows: the main screen of its draft.
    pub fn initial_view(&self) -> (v: ViewDescription)
        requires
            self@.wf(),
        ensures
            v@ == render_spec(self@.draft, Screen::Main),
    {
        render(&self.draft, Screen::Main)
    }

    /// Drives the session by one transition. The event is the one the
    /// current wait resolved to; the result tells the transport what to do
    /// before the next wait.
    pub fn step(&mut self, ev: Event) -> (dir: Directive)
        requires
            old(self)@.wf(),
        ensures
            final(self)@.wf(),
            final(self)@ == step_spec(old(self)@, ev@).0,
            dir@ == step_spec(old(self)@, ev@).1,
    {
        let ph = self.phase;
        match ph {
            Phase::Ended(_) => Directive::Ignore,
            Phase::AtMain => match ev {
                Event::TimedOut => {
                    self.phase = Phase::Ended(EndReason::TimedOut);
                    Directive::ShowPanel(render(&self.draft, Screen::TimedOut))
                },
                Event::Submitted(_) => {
                    self.phase = Phase::Ended(EndReason::Defect);
                    Directive::Fail
                },
                Event::Pressed(a) => match a {
                    Action::EditTitle => {
                        self.phase = Phase::Prompting(Field::Title);
                        Directive::ShowPanel(render(&self.draft, Screen::PromptField(Field::Title)))
                    },
                    Action::EditDescription => {
                        self.phase = Phase::Prompting(Field::Description);
                        Directive::ShowPanel(
                            render(&self.draft, Screen::PromptField(Field::Description)),
                        )
                    },
                    Action::EditTags => {
                        self.phase = Phase::Prompting(Field::Tags);
                        Directive::ShowPanel(render(&self.draft, Screen::PromptField(Field::Tags)))
                    },
                    Action::Confirm => {
                        self.phase = Phase::Ended(EndReason::Confirmed);
                        Directive::FinalizeAndShow(
                            render(&self.draft, Screen::Terminal(Outcome::Confirmed)),
                        )
                    },
                    Action::Cancel => {
                        self.phase = Phase::Ended(EndReason::Cancelled);
                        Directive::ShowPanel(
                            render(&self.draft, Screen::Terminal(Outcome::Cancelled)),
                        )
                    },
                    Action::Continue => {
                        self.phase = Phase::Ended(EndReason::Defect);
                        Directive::Fail
                    },
                },
            },
            Phase::Prompting(f) => match ev {
                Event::TimedOut => {
                    self.phase = Phase::Ended(EndReason::TimedOut);
                    Directive::ShowPanel(render(&self.draft, Screen::TimedOut))
                },
                Event::Submitted(t) => {
                    self.draft.apply_edit(f, t.as_str());
                    self.phase = Phase::Confirming(f);
                    Directive::ConsumeAndShow(render(&self.draft, Screen::Confirm(f)))
                },
                Event::Pressed(_) => {
                    self.phase = Phase::Ended(EndReason::Defect);
                    Directive::Fail
                },
            },
            Phase::Confirming(_) => match ev {
                Event::TimedOut => {
                    self.phase = Phase::Ended(EndReason::TimedOut);
                    Directive::ShowPanel(render(&self.draft, Screen::TimedOut))
                },
                Event::Pressed(a) => {
                    if a == Action::Continue {
                        self.phase = Phase::AtMain;
                        Directive::ShowPanel(render(&self.draft, Screen::Main))
                    } else {
                        self.phase = Phase::Ended(EndReason::Defect);
                        Directive::Fail
                    }
                },
                Event::Submitted(_) => {
                    self.phase = Phase::Ended(EndReason::Defect);
                    Directive::Fail
                },
            },
        }
    }
}

/// The state after a whole sequence of events, one transition per event.
pub open spec fn run_events(s: SessionModel, evs: Seq<EventModel>) -> SessionModel
    decreases evs.len(),
{
    if evs.len() == 0 {
        s
    } else {
        run_events(step_spec(s, evs[0]).0, evs.drop_first())
    }
}

/// The edit one event confirms in a state: the prompted field and the raw
/// submission, or nothing when the event confirms no edit.
pub open spec fn edit_of(s: SessionModel, e: EventModel) -> Seq<(Field, Seq<char>)> {
    match s.phase {
        Phase::Prompting(f) => match e {
            EventModel::Submitted(t) => seq![(f, t)],
            _ => Seq::<(Field, Seq<char>)>::empty(),
        },
        _ => Seq::<(Field, Seq<char>)>::empty(),
    }
}

/// The edits a sequence of events confirms, in the order they are
/// confirmed.
pub open spec fn confirmed_edits(s: SessionModel, evs: Seq<EventModel>) -> Seq<(Field, Seq<char>)>
    decreases evs.len(),
{
    if evs.len() == 0 {
        Seq::<(Field, Seq<char>)>::empty()
    } else {
        edit_of(s, evs[0]) + confirmed_edits(step_spec(s, evs[0]).0, evs.drop_first())
    }
}

/// A list of edits applied to a draft one after the other, in order.
pub open spec fn apply_edits(d: DraftView, es: Seq<(Field, Seq<char>)>) -> DraftView
    decreases es.len(),
{
    if es.len() == 0 {
        d
    } else {
        apply_edits(edited(d, es[0].0, es[0].1), es.drop_first())
    }
}

pub proof fn lemma_apply_edits_concat(d: DraftView, xs: Seq<(Field, Seq<char>)>, ys: Seq<(Field, Seq<char>)>)
    ensures
        apply_edits(d, xs + ys) == apply_edits(apply_edits(d, xs), ys),
    decreases xs.len(),
{
    if xs.len() == 0 {
        assert(xs + ys =~= ys);
    } else {
        assert((xs + ys)[0] == xs[0]);
        assert((xs + ys).drop_first() =~= xs.drop_first() + ys);
        lemma_apply_edits_concat(edited(d, xs[0].0, xs[0].1), xs.drop_first(), ys);
    }
}

/// One transition changes the draft by exactly the edit the event confirms:
/// by nothing when it confirms none.
pub proof fn lemma_step_draft(s: SessionModel, e: EventModel)
    ensures
        step_spec(s, e).0.draft == apply_edits(s.draft, edit_of(s, e)),
{
    match s.phase {
        Phase::Prompting(f) => match e {
            EventModel::Submitted(t) => {
                let es = edit_of(s, e);
                assert(es == seq![(f, t)]);
                assert(es[0].0 == f && es[0].1 == t);
                assert(es.drop_first() =~= Seq::<(Field, Seq<char>)>::empty());
                assert(apply_edits(edited(s.draft, f, t), Seq::<(Field, Seq<char>)>::empty())
                    == edited(s.draft, f, t));
                assert(apply_edits(s.draft, es) == edited(s.draft, f, t));
            },
            _ => {},
        },
        _ => {},
    }
}

/// Law: no edit is lost, duplicated or reordered. After any sequence of
/// events, the session's draft equals the starting draft with exactly the
/// confirmed edits applied, in the order they were confirmed; so the draft
/// each render shows reflects exactly the edits confirmed so far.
pub proof fn lemma_edits_in_order(s: SessionModel, evs: Seq<EventModel>)
    ensures
        run_events(s, evs).draft == apply_edits(s.draft, confirmed_edits(s, evs)),
    decreases evs.len(),
{
    if evs.len() > 0 {
        let s2 = step_spec(s, evs[0]).0;
        lemma_step_draft(s, evs[0]);
        lemma_edits_in_order(s2, evs.drop_first());
        lemma_apply_edits_concat(s.draft, edit_of(s, evs[0]), confirmed_edits(s2, evs.drop_first()));
    }
}

/// Law: a timeout at any wait point leaves the draft at its last confirmed
/// value, ends the session, and issues exactly one render: the terminal
/// timed-out panel. With the law below, nothing is rendered after it.
pub proof fn lemma_timeout_terminal(s: SessionModel)
    requires
        !(s.phase is Ended),
    ensures
        step_spec(s, EventModel::TimedOut).0.draft == s.draft,
        step_spec(s, EventModel::TimedOut).0.phase == Phase::Ended(EndReason::TimedOut),
        step_spec(s, EventModel::TimedOut).1 == DirectiveModel::ShowPanel(
            render_spec(s.draft, Screen::TimedOut),
        ),
{
}

/// Law: an ended session is not reusable. Every further event leaves the
/// state unchanged and is dropped, with no render and no edit.
pub proof fn lemma_ended_rejects(s: SessionModel, e: EventModel)
    requires
        s.phase is Ended,
    ensures
        step_spec(s, e).0 == s,
        step_spec(s, e).1 == DirectiveModel::Ignore,
{
}

} // verus!
