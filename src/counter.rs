use vstd::prelude::*;
use vstd::string::*;

use crate::text::{i32_text, int_text};

verus! {

/// The keys the counter reacts to; every other key is `Other`.
#[derive(Clone, Copy, Debug, PartialEq, Eq, Structural)]
pub enum KeyCode {
    Char(char),
    Left,
    Right,
    Other,
}

/// One input event: a key press, or anything else (a key release or repeat,
/// a resize, a focus change).
#[derive(Clone, Copy, Debug, PartialEq, Eq, Structural)]
pub enum InputEvent {
    KeyPress(KeyCode),
    Other,
}

/// The state of the counter application.
///
/// `counter` runs through `[min_counter, max_counter]`; stepping past either
/// end carries into `round_counter`, which never drops below zero.
/// `message` reports the last boundary crossing and is cleared on every event.
#[derive(Debug)]
pub struct App {
    pub counter: i8,
    pub round_counter: i32,
    pub exit: bool,
    pub max_counter: i8,
    pub min_counter: i8,
    pub max_rounds: i32,
    pub message: String,
}

/// The mathematical state of an [`App`].
pub struct AppModel {
    pub counter: int,
    pub round_counter: int,
    pub exit: bool,
    pub max_counter: int,
    pub min_counter: int,
    pub max_rounds: int,
    pub message: Seq<char>,
}

impl View for App {
    type V = AppModel;

    open spec fn view(&self) -> AppModel {
        AppModel {
            counter: self.counter as int,
            round_counter: self.round_counter as int,
            exit: self.exit,
            max_counter: self.max_counter as int,
            min_counter: self.min_counter as int,
            max_rounds: self.max_rounds as int,
            message: self.message@,
        }
    }
}

/// The message shown when the counter wraps forward into round `r`.
pub open spec fn new_round_message(r: int) -> Seq<char> {
    "Nouveau tour ! Tour actuel: "@ + int_text(r)
}

/// The message shown when the counter wraps back into round `r`.
pub open spec fn previous_round_message(r: int) -> Seq<char> {
    "Retour au tour précédent ! Tour actuel: "@ + int_text(r)
}

/// The message shown when the counter sits at its lower bound `m` in round 0.
pub open spec fn lower_limit_message(m: int) -> Seq<char> {
    "Limite inférieure des tours atteinte et compteur à "@ + int_text(m)
        + ". Impossible de décrémenter davantage."@
}

impl AppModel {
    /// The counter lies within its bounds, zero lies within them too (it is
    /// where the counter restarts after a carry), and the round count is
    /// not negative.
    pub open spec fn wf(self) -> bool {
        self.min_counter <= self.counter <= self.max_counter
            && self.min_counter <= 0 <= self.max_counter
            && 0 <= self.round_counter
    }

    /// The state with its message cleared.
    pub open spec fn cleared(self) -> AppModel {
        AppModel { message: Seq::empty(), ..self }
    }

    /// One step up: the counter grows by one below its upper bound; at it,
    /// the counter restarts at zero and the round count grows by one.
    pub open spec fn incremented(self) -> AppModel {
        if self.counter < self.max_counter {
            AppModel { counter: self.counter + 1, ..self }
        } else {
            AppModel {
                counter: 0,
                round_counter: self.round_counter + 1,
                message: new_round_message(self.round_counter + 1),
                ..self
            }
        }
    }

    /// One step down: the counter shrinks by one above its lower bound; at it,
    /// the counter restarts at zero in the previous round, or, in round zero,
    /// stays where it is and the lower-limit message is set.
    pub open spec fn decremented(self) -> AppModel {
        if self.counter > self.min_counter {
            AppModel { counter: self.counter - 1, ..self }
        } else if self.round_counter > 0 {
            AppModel {
                counter: 0,
                round_counter: self.round_counter - 1,
                message: previous_round_message(self.round_counter - 1),
                ..self
            }
        } else {
            AppModel {
                counter: self.min_counter,
                message: lower_limit_message(self.min_counter),
                ..self
            }
        }
    }

    /// The state asked to stop.
    pub open spec fn exited(self) -> AppModel {
        AppModel { exit: true, ..self }
    }

    /// A key press: the message is cleared, then `q` stops, Left steps down,
    /// Right steps up, and any other key does nothing more.
    pub open spec fn on_key(self, key: KeyCode) -> AppModel {
        let s = self.cleared();
        match key {
            KeyCode::Char(c) => if c == 'q' { s.exited() } else { s },
            KeyCode::Left => s.decremented(),
            KeyCode::Right => s.incremented(),
            KeyCode::Other => s,
        }
    }

    /// An input event: a key press as [`AppModel::on_key`] says; any other
    /// event only clears the message.
    pub open spec fn on_event(self, event: InputEvent) -> AppModel {
        match event {
            InputEvent::KeyPress(key) => self.on_key(key),
            InputEvent::Other => self.cleared(),
        }
    }

    /// Stepping up stays within machine integers: a carry needs room in the
    /// round count.
    pub open spec fn can_increment(self) -> bool {
        self.counter < self.max_counter || self.round_counter < i32::MAX
    }
}

impl Default for App {
    /// The starting state: counter and round count at zero, bounds
    /// `[-100, 100]`, a target of 50 rounds, no message.
    fn default() -> (r: Self)
        ensures
            r@.counter == 0,
            r@.round_counter == 0,
            !r@.exit,
            r@.max_counter == 100,
            r@.min_counter == -100,
            r@.max_rounds == 50,
            r@.message == Seq::<char>::empty(),
            r@.wf(),
    {
        App {
            counter: 0,
            round_counter: 0,
            exit: false,
            max_counter: 100,
            min_counter: -100,
            max_rounds: 50,
            message: String::new(),
        }
    }
}

impl App {
    /// Asks the application to stop; nothing else changes.
    pub fn exit(&mut self)
        ensures
            final(self)@ == old(self)@.exited(),
    {
        self.exit = true;
    }

    /// Steps the counter up, carrying into the round count at the upper bound.
    pub fn increment_counter(&mut self)
        requires
            old(self)@.can_increment(),
        ensures
            final(self)@ == old(self)@.incremented(),
    {
        if self.counter < self.max_counter {
            self.counter = self.counter + 1;
        } else {
            self.round_counter = self.round_counter + 1;
            self.counter = 0;
            let mut m = String::from_str("Nouveau tour ! Tour actuel: ");
            let n = i32_text(self.round_counter);
            m.append(n.as_str());
            self.message = m;
        }
    }

    /// Steps the counter down, borrowing from the round count at the lower
    /// bound; in round zero the counter stays at its lower bound and the
    /// lower-limit message is set.
    pub fn decrement_counter(&mut self)
        ensures
            final(self)@ == old(self)@.decremented(),
    {
        if self.counter > self.min_counter {
            self.counter = self.counter - 1;
        } else if self.round_counter > 0 {
            self.round_counter = self.round_counter - 1;
            self.counter = 0;
            let mut m = String::from_str("Retour au tour précédent ! Tour actuel: ");
            let n = i32_text(self.round_counter);
            m.append(n.as_str());
            self.message = m;
        } else {
            let mut m = String::from_str("Limite inférieure des tours atteinte et compteur à ");
            let n = i32_text(self.min_counter as i32);
            m.append(n.as_str());
            m.append(". Impossible de décrémenter davantage.");
            self.message = m;
            self.counter = self.min_counter;
        }
    }

    /// Handles one key press: clears the message, then quits on `q`, steps
    /// down on Left, steps up on Right, and ignores every other key.
    pub fn handle_key_event(&mut self, key: KeyCode)
        requires
            key == KeyCode::Right ==> old(self)@.can_increment(),
        ensures
            final(self)@ == old(self)@.on_key(key),
    {
        self.message = String::new();
        match key {
            KeyCode::Char(c) => {
                if c == 'q' {
                    self.exit();
                }
            },
            KeyCode::Left => self.decrement_counter(),
            KeyCode::Right => self.increment_counter(),
            KeyCode::Other => {},
        }
    }

    /// Handles one input event: a key press goes to
    /// [`App::handle_key_event`]; any other event only clears the message.
    pub fn handle_event(&mut self, event: InputEvent)
        requires
            event == InputEvent::KeyPress(KeyCode::Right) ==> old(self)@.can_increment(),
        ensures
            final(self)@ == old(self)@.on_event(event),
    {
        match event {
            InputEvent::KeyPress(key) => self.handle_key_event(key),
            InputEvent::Other => {
                self.message = String::new();
            },
        }
    }
}

/// Stepping up from any counter value `c` within the bounds gives `c + 1`
/// below the upper bound, and at it gives zero with one more round; the
/// bounds and the quit flag stay as they were.
pub proof fn increment_law(v: AppModel)
    requires
        v.min_counter <= v.counter <= v.max_counter,
    ensures
        v.counter < v.max_counter ==> v.incremented().counter == v.counter + 1
            && v.incremented().round_counter == v.round_counter,
        v.counter == v.max_counter ==> v.incremented().counter == 0
            && v.incremented().round_counter == v.round_counter + 1,
        v.incremented().min_counter == v.min_counter,
        v.incremented().max_counter == v.max_counter,
        v.incremented().max_rounds == v.max_rounds,
        v.incremented().exit == v.exit,
{
}

/// Stepping down from any counter value `c` within the bounds gives `c - 1`
/// above the lower bound; at it, with rounds left, it gives zero with one
/// round fewer, and in round zero it keeps `c`; the bounds and the quit flag
/// stay as they were.
pub proof fn decrement_law(v: AppModel)
    requires
        v.min_counter <= v.counter <= v.max_counter,
    ensures
        v.counter > v.min_counter ==> v.decremented().counter == v.counter - 1
            && v.decremented().round_counter == v.round_counter,
        v.counter == v.min_counter && v.round_counter > 0 ==> v.decremented().counter == 0
            && v.decremented().round_counter == v.round_counter - 1,
        v.counter == v.min_counter && v.round_counter <= 0 ==> v.decremented().counter
            == v.min_counter && v.decremented().round_counter == v.round_counter,
        v.decremented().min_counter == v.min_counter,
        v.decremented().max_counter == v.max_counter,
        v.decremented().max_rounds == v.max_rounds,
        v.decremented().exit == v.exit,
{
}

/// Stepping down at the lower bound in round zero changes nothing but the
/// message, which becomes the lower-limit message.
pub proof fn lower_limit_law(v: AppModel)
    requires
        v.counter == v.min_counter,
        v.round_counter == 0,
    ensures
        v.decremented() == (AppModel { message: lower_limit_message(v.min_counter), ..v }),
{
}

/// Quitting sets the quit flag and changes nothing else; the `q` key does
/// the same after clearing the message, as every key press does.
pub proof fn quit_law(v: AppModel)
    ensures
        v.exited() == (AppModel { exit: true, ..v }),
        v.on_key(KeyCode::Char('q')) == (AppModel { exit: true, message: Seq::empty(), ..v }),
{
}

/// Every event keeps a well-formed state well-formed.
pub proof fn event_keeps_wf(v: AppModel, event: InputEvent)
    requires
        v.wf(),
    ensures
        v.on_event(event).wf(),
{
}

} // verus!
