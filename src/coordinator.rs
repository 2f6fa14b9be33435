//! The coordinator: the single owner of the history and the selection, which
//! turns each event into state changes and commands for the outside world.

use crate::funnel::FunnelToken;
use crate::history::{recorded, History};
use crate::selection::{Action, Input, Key, Selection};
use vstd::prelude::*;

verus! {

/// Something that happened outside the core.
#[derive(Clone, Debug, PartialEq, Eq)]
pub enum Event {
    /// A token arrived through the funnel.
    Token(FunnelToken),
    /// A key was pressed in the picker.
    Key(Key),
    /// A clipboard read finished with this text.
    ClipboardText(String),
    /// A clipboard read or write failed with this message.
    ClipboardFailed(String),
}

/// A command for the outside world.
#[derive(Clone, Debug, PartialEq, Eq)]
pub enum Effect {
    /// Read the clipboard's text and hand it back as an event.
    ReadClipboard,
    /// Show the picker and give it the focus.
    Show,
    /// Hide the picker.
    Hide,
    /// Put this text on the clipboard.
    WriteClipboard(String),
    /// Report this non-fatal error.
    Report(String),
}

/// The mathematical model of an `Event`.
pub enum EventModel {
    Token(FunnelToken),
    Key(Key),
    ClipboardText(Seq<char>),
    ClipboardFailed(Seq<char>),
}

/// The mathematical model of an `Effect`.
pub enum EffectModel {
    ReadClipboard,
    Show,
    Hide,
    WriteClipboard(Seq<char>),
    Report(Seq<char>),
}

impl View for Event {
    type V = EventModel;

    open spec fn view(&self) -> EventModel {
        match self {
            Event::Token(t) => EventModel::Token(*t),
            Event::Key(k) => EventModel::Key(*k),
            Event::ClipboardText(s) => EventModel::ClipboardText(s@),
            Event::ClipboardFailed(s) => EventModel::ClipboardFailed(s@),
        }
    }
}

impl View for Effect {
    type V = EffectModel;

    open spec fn view(&self) -> EffectModel {
        match self {
            Effect::ReadClipboard => EffectModel::ReadClipboard,
            Effect::Show => EffectModel::Show,
            Effect::Hide => EffectModel::Hide,
            Effect::WriteClipboard(s) => EffectModel::WriteClipboard(s@),
            Effect::Report(s) => EffectModel::Report(s@),
        }
    }
}

/// The models of a list of effects.
pub open spec fn effects_model(effects: Seq<Effect>) -> Seq<EffectModel> {
    effects.map_values(|e: Effect| e@)
}

/// The commands an action of the state machine turns into, given the history.
pub open spec fn action_effects(h: Seq<Seq<char>>, a: Action) -> Seq<EffectModel> {
    match a {
        Action::Nothing => seq![],
        Action::Refresh => seq![EffectModel::ReadClipboard],
        Action::RefreshAndShow => seq![EffectModel::ReadClipboard, EffectModel::Show],
        Action::Hide => seq![EffectModel::Hide],
        Action::Confirm(i) => if i < h.len() {
            seq![EffectModel::WriteClipboard(h[i as int]), EffectModel::Hide]
        } else {
            seq![EffectModel::Hide]
        },
    }
}

/// The selection after an event.
pub open spec fn next_selection(s: Selection, e: EventModel) -> Selection {
    match e {
        EventModel::Token(t) => s.spec_step(Input::Token(t)).0,
        EventModel::Key(k) => s.spec_step(Input::Key(k)).0,
        _ => s,
    }
}

/// The history after an event: only clipboard text changes it.
pub open spec fn next_history(h: Seq<Seq<char>>, e: EventModel) -> Seq<Seq<char>> {
    match e {
        EventModel::ClipboardText(c) => recorded(h, c),
        _ => h,
    }
}

/// The commands that follow an event.
pub open spec fn event_effects(s: Selection, h: Seq<Seq<char>>, e: EventModel) -> Seq<EffectModel> {
    match e {
        EventModel::Token(t) => action_effects(h, s.spec_step(Input::Token(t)).1),
        EventModel::Key(k) => action_effects(h, s.spec_step(Input::Key(k)).1),
        EventModel::ClipboardText(_) => seq![],
        EventModel::ClipboardFailed(m) => seq![EffectModel::Report(m)],
    }
}

/// The history and the selection, driven one event at a time.
pub struct Coordinator {
    pub history: History,
    pub selection: Selection,
}

impl Coordinator {
    pub open spec fn wf(&self) -> bool {
        self.history.wf()
    }

    /// An empty history and a hidden picker.
    pub fn new() -> (r: Coordinator)
        ensures
            r.wf(),
            r.history@ == Seq::<Seq<char>>::empty(),
            r.selection == Selection::Hidden,
    {
        Coordinator { history: History::new(), selection: Selection::Hidden }
    }

    /// Applies one event and returns the commands that follow from it, in
    /// the order they are to be carried out.
    pub fn handle(&mut self, event: Event) -> (r: Vec<Effect>)
        requires
            old(self).wf(),
        ensures
            final(self).wf(),
            final(self).selection == next_selection(old(self).selection, event@),
            final(self).history@ == next_history(old(self).history@, event@),
            effects_model(r@) == event_effects(old(self).selection, old(self).history@, event@),
            r@.len() == event_effects(old(self).selection, old(self).history@, event@).len(),
            forall|k: int|
                0 <= k < r@.len() ==> #[trigger] r@[k]@ == event_effects(
                    old(self).selection,
                    old(self).history@,
                    event@,
                )[k],
    {
        let ghost e = event@;
        let r = match event {
            Event::Token(t) => {
                let (s, a) = self.selection.step(Input::Token(t));
                self.selection = s;
                self.effects_of(a)
            },
            Event::Key(k) => {
                let (s, a) = self.selection.step(Input::Key(k));
                self.selection = s;
                self.effects_of(a)
            },
            Event::ClipboardText(text) => {
                self.history.record(text);
                let r: Vec<Effect> = Vec::new();
                assert(effects_model(r@) =~= event_effects(old(self).selection, old(self).history@, e));
                r
            },
            Event::ClipboardFailed(message) => {
                let mut r: Vec<Effect> = Vec::new();
                r.push(Effect::Report(message));
                assert(effects_model(r@) =~= event_effects(old(self).selection, old(self).history@, e));
                r
            },
        };
        assert(effects_model(r@).len() == r@.len());
        assert(forall|k: int| 0 <= k < r@.len() ==> #[trigger] r@[k]@ == effects_model(r@)[k]);
        r
    }

    /// The commands an action turns into, reading the history for a confirmed slot.
    fn effects_of(&self, a: Action) -> (r: Vec<Effect>)
        ensures
            effects_model(r@) == action_effects(self.history@, a),
    {
        let mut r: Vec<Effect> = Vec::new();
        match a {
            Action::Nothing => {},
            Action::Refresh => {
                r.push(Effect::ReadClipboard);
            },
            Action::RefreshAndShow => {
                r.push(Effect::ReadClipboard);
                r.push(Effect::Show);
            },
            Action::Hide => {
                r.push(Effect::Hide);
            },
            Action::Confirm(i) => {
                match self.history.get(i) {
                    Some(text) => {
                        r.push(Effect::WriteClipboard(text.clone()));
                    },
                    None => {},
                }
                r.push(Effect::Hide);
            },
        }
        assert(effects_model(r@) =~= action_effects(self.history@, a));
        r
    }
}

/// Enter on a highlighted slot that holds no entry writes nothing to the
/// clipboard, still hides the picker, and leaves the history as it was.
pub proof fn lemma_enter_on_empty_slot(h: Seq<Seq<char>>, i: usize)
    requires
        i >= h.len(),
    ensures
        next_selection(Selection::Visible(i), EventModel::Key(Key::Enter)) == Selection::Hidden,
        next_history(h, EventModel::Key(Key::Enter)) == h,
        event_effects(Selection::Visible(i), h, EventModel::Key(Key::Enter)) == seq![
            EffectModel::Hide,
        ],
        forall|k: int|
            0 <= k < event_effects(Selection::Visible(i), h, EventModel::Key(Key::Enter)).len()
                ==> !(#[trigger] event_effects(
                Selection::Visible(i),
                h,
                EventModel::Key(Key::Enter),
            )[k] is WriteClipboard),
{
}

/// Enter on a highlighted slot that holds an entry writes exactly that entry
/// to the clipboard, then hides the picker.
pub proof fn lemma_enter_on_present_slot(h: Seq<Seq<char>>, i: usize)
    requires
        i < h.len(),
    ensures
        next_selection(Selection::Visible(i), EventModel::Key(Key::Enter)) == Selection::Hidden,
        event_effects(Selection::Visible(i), h, EventModel::Key(Key::Enter)) == seq![
            EffectModel::WriteClipboard(h[i as int]),
            EffectModel::Hide,
        ],
{
}

/// While the picker is hidden, a key press changes neither the selection nor
/// the history and issues no command.
pub proof fn lemma_hidden_ignores_keys(h: Seq<Seq<char>>, k: Key)
    ensures
        next_selection(Selection::Hidden, EventModel::Key(k)) == Selection::Hidden,
        next_history(h, EventModel::Key(k)) == h,
        event_effects(Selection::Hidden, h, EventModel::Key(k)).len() == 0,
{
}

} // verus!
