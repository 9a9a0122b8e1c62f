//! The menu state machine: screens, events, and the transition rules that
//! drive the interactive session.

use vstd::prelude::*;

verus! {

/// Which menu screen is active. Exactly one screen is active at any time;
/// rendering and key dispatch both go by this value.
#[derive(Copy, Clone, Debug, PartialEq, Eq)]
pub enum MenuItem {
    Opening,
    Home,
    SavegameName,
}

impl From<MenuItem> for usize {
    fn from(input: MenuItem) -> (r: usize) {
        match input {
            MenuItem::Opening => 0,
            MenuItem::Home => 1,
            MenuItem::SavegameName => 2,
        }
    }
}

impl vstd::std_specs::convert::FromSpecImpl<MenuItem> for usize {
    open spec fn obeys_from_spec() -> bool {
        true
    }

    open spec fn from_spec(t: MenuItem) -> usize {
        match t {
            MenuItem::Opening => 0,
            MenuItem::Home => 1,
            MenuItem::SavegameName => 2,
        }
    }
}

/// A key press, reduced to the keys the menus react to. Any other key is
/// `Other`.
#[derive(Copy, Clone, Debug, PartialEq, Eq)]
pub enum Key {
    Esc,
    Enter,
    Backspace,
    Char(char),
    Other,
}

/// One event delivered to the controller: either a key press or a tick,
/// meaning that a full tick interval elapsed with no input.
#[derive(Copy, Clone, Debug, PartialEq, Eq)]
pub enum Event {
    Input(Key),
    Tick,
}

/// Whether the key ends the session on the given screen: Escape on the
/// opening and savegame screens, 'q' on the home screen.
pub open spec fn quits(item: MenuItem, k: Key) -> bool {
    match item {
        MenuItem::Opening => k == Key::Esc,
        MenuItem::Home => k == Key::Char('q'),
        MenuItem::SavegameName => k == Key::Esc,
    }
}

/// The screen after a key that does not end the session: any key leaves the
/// opening screen for the savegame screen; 'o' leaves home for the opening
/// screen; Enter leaves the savegame screen for home; every other key keeps
/// the current screen.
pub open spec fn next_item(item: MenuItem, k: Key) -> MenuItem {
    match item {
        MenuItem::Opening => MenuItem::SavegameName,
        MenuItem::Home => if k == Key::Char('o') {
            MenuItem::Opening
        } else {
            MenuItem::Home
        },
        MenuItem::SavegameName => if k == Key::Enter {
            MenuItem::Home
        } else {
            MenuItem::SavegameName
        },
    }
}

/// The savegame-name buffer after a key that does not end the session: only
/// the savegame screen edits it, where a character key appends and Backspace
/// removes the last character (nothing on an empty buffer). The buffer is
/// never cleared, so it carries over when the screen is left.
pub open spec fn next_buffer(item: MenuItem, buf: Seq<char>, k: Key) -> Seq<char> {
    if item == MenuItem::SavegameName {
        match k {
            Key::Backspace => if buf.len() == 0 {
                buf
            } else {
                buf.drop_last()
            },
            Key::Char(c) => buf.push(c),
            _ => buf,
        }
    } else {
        buf
    }
}

/// One step of the controller: the screen and buffer after the event, and
/// whether the session ends. A tick changes nothing.
pub open spec fn step(item: MenuItem, buf: Seq<char>, ev: Event) -> (MenuItem, Seq<char>, bool) {
    match ev {
        Event::Tick => (item, buf, false),
        Event::Input(k) => if quits(item, k) {
            (item, buf, true)
        } else {
            (next_item(item, k), next_buffer(item, buf, k), false)
        },
    }
}

/// The controller run over a whole sequence of events, stopping at the first
/// event that ends the session.
pub open spec fn run_events(item: MenuItem, buf: Seq<char>, evs: Seq<Event>) -> (
    MenuItem,
    Seq<char>,
    bool,
)
    decreases evs.len(),
{
    if evs.len() == 0 {
        (item, buf, false)
    } else {
        let first = step(item, buf, evs[0]);
        if first.2 {
            (first.0, first.1, true)
        } else {
            run_events(first.0, first.1, evs.drop_first())
        }
    }
}

/// The events that type a character sequence: one character key press per
/// character.
pub open spec fn char_inputs(cs: Seq<char>) -> Seq<Event>
    decreases cs.len(),
{
    if cs.len() == 0 {
        Seq::empty()
    } else {
        seq![Event::Input(Key::Char(cs[0]))] + char_inputs(cs.drop_first())
    }
}

/// The event that types one character.
proof fn typed_event(c: char) -> (e: Event)
    ensures
        e == Event::Input(Key::Char(c)),
{
    Event::Input(Key::Char(c))
}

/// Typing events are as many as the characters typed.
pub proof fn lemma_char_inputs_len(cs: Seq<char>)
    ensures
        char_inputs(cs).len() == cs.len(),
    decreases cs.len(),
{
    if cs.len() > 0 {
        let e0 = typed_event(cs[0]);
        lemma_char_inputs_len(cs.drop_first());
    }
}

/// A sequence of events that contains neither the Escape key nor the 'q' key
/// never ends the session; in particular, ticks alone never end it.
pub proof fn lemma_no_quit_keys_no_termination(item: MenuItem, buf: Seq<char>, evs: Seq<Event>)
    requires
        forall|i: int|
            0 <= i < evs.len() ==> evs[i] != Event::Input(Key::Esc) && evs[i] != Event::Input(
                Key::Char('q'),
            ),
    ensures
        !run_events(item, buf, evs).2,
    decreases evs.len(),
{
    if evs.len() > 0 {
        let first = step(item, buf, evs[0]);
        assert(!first.2);
        assert(forall|i: int|
            0 <= i < evs.drop_first().len() ==> evs.drop_first()[i] == evs[i + 1]);
        lemma_no_quit_keys_no_termination(first.0, first.1, evs.drop_first());
    }
}

/// From home, 'o' followed by any key other than Escape moves the screen
/// from Home to Opening and then to SavegameName, without ending the session
/// or touching the buffer.
pub proof fn lemma_home_to_opening_to_savegame(buf: Seq<char>, k: Key)
    requires
        k != Key::Esc,
    ensures
        ({
            let s1 = step(MenuItem::Home, buf, Event::Input(Key::Char('o')));
            let s2 = step(s1.0, s1.1, Event::Input(k));
            !s1.2 && s1.0 == MenuItem::Opening && !s2.2 && s2.0 == MenuItem::SavegameName && s2.1
                == buf
        }),
{
}

/// Typing any character sequence on the savegame screen and then Enter
/// appends exactly those characters to the buffer and returns to the home
/// screen, with the buffer retained, without ending the session.
pub proof fn lemma_typing_then_enter(buf: Seq<char>, cs: Seq<char>)
    ensures
        ({
            let r = run_events(
                MenuItem::SavegameName,
                buf,
                char_inputs(cs).push(Event::Input(Key::Enter)),
            );
            r.0 == MenuItem::Home && r.1 =~= buf + cs && !r.2
        }),
    decreases cs.len(),
{
    let evs = char_inputs(cs).push(Event::Input(Key::Enter));
    lemma_char_inputs_len(cs);
    if cs.len() == 0 {
        assert(evs[0] == Event::Input(Key::Enter));
        assert(evs.drop_first() =~= Seq::<Event>::empty());
        assert(step(MenuItem::SavegameName, buf, Event::Input(Key::Enter)) == (
            MenuItem::Home,
            buf,
            false,
        ));
        assert(run_events(MenuItem::Home, buf, evs.drop_first()) == (MenuItem::Home, buf, false));
        assert(buf + cs =~= buf);
    } else {
        let e0 = typed_event(cs[0]);
        assert(char_inputs(cs) == seq![e0] + char_inputs(cs.drop_first()));
        assert(evs[0] == e0);
        assert(!quits(MenuItem::SavegameName, Key::Char(cs[0])));
        assert(step(MenuItem::SavegameName, buf, e0) == (
            MenuItem::SavegameName,
            buf.push(cs[0]),
            false,
        ));
        assert(run_events(MenuItem::SavegameName, buf, evs) == run_events(
            MenuItem::SavegameName,
            buf.push(cs[0]),
            evs.drop_first(),
        ));
        lemma_char_inputs_len(cs.drop_first());
        assert(evs.drop_first() =~= char_inputs(cs.drop_first()).push(Event::Input(Key::Enter)));
        lemma_typing_then_enter(buf.push(cs[0]), cs.drop_first());
        assert(buf.push(cs[0]) + cs.drop_first() =~= buf + cs);
    }
}

/// Escape ends the session from the opening and savegame screens, and 'q'
/// ends it from home; but 'q' typed on the savegame screen is appended to
/// the buffer instead of quitting.
pub proof fn lemma_quit_keys(buf: Seq<char>)
    ensures
        step(MenuItem::Opening, buf, Event::Input(Key::Esc)).2,
        step(MenuItem::SavegameName, buf, Event::Input(Key::Esc)).2,
        step(MenuItem::Home, buf, Event::Input(Key::Char('q'))).2,
        !step(MenuItem::SavegameName, buf, Event::Input(Key::Char('q'))).2,
        step(MenuItem::SavegameName, buf, Event::Input(Key::Char('q'))).0
            == MenuItem::SavegameName,
        step(MenuItem::SavegameName, buf, Event::Input(Key::Char('q'))).1 == buf.push('q'),
{
}

/// Backspace on the savegame screen removes exactly the last character of
/// the buffer, and does nothing on an empty buffer; the screen stays and the
/// session goes on.
pub proof fn lemma_backspace(buf: Seq<char>)
    ensures
        ({
            let r = step(MenuItem::SavegameName, buf, Event::Input(Key::Backspace));
            !r.2 && r.0 == MenuItem::SavegameName && (buf.len() == 0 ==> r.1 == buf) && (buf.len()
                > 0 ==> r.1 == buf.drop_last())
        }),
{
}

/// A tick never changes the screen or the buffer and never ends the
/// session.
pub proof fn lemma_tick_no_change(item: MenuItem, buf: Seq<char>)
    ensures
        step(item, buf, Event::Tick) == (item, buf, false),
{
}

/// Relies on String::push: appends the given character to the end of the
/// string.
pub assume_specification[ String::push ](s: &mut String, ch: char)
    ensures
        final(s)@ == old(s)@.push(ch),
;

/// Relies on String::pop: removes the last character of the string and
/// returns it, or returns None and leaves the string as it was when it is
/// empty.
pub assume_specification[ String::pop ](s: &mut String) -> (r: Option<char>)
    ensures
        old(s)@.len() == 0 ==> r == None::<char> && final(s)@ == old(s)@,
        old(s)@.len() > 0 ==> r == Some(old(s)@.last()) && final(s)@ == old(s)@.drop_last(),
;

/// The whole state the controller owns: the active screen and the
/// savegame-name buffer.
pub struct App {
    pub active_menu_item: MenuItem,
    pub savefile_name: String,
}

impl App {
    /// A fresh session: the home screen, with an empty savegame-name buffer.
    pub fn new() -> (a: App)
        ensures
            a.active_menu_item == MenuItem::Home,
            a.savefile_name@ == Seq::<char>::empty(),
    {
        App { active_menu_item: MenuItem::Home, savefile_name: String::new() }
    }

    /// Advance the state machine by one event. Returns true exactly when the
    /// event ends the session; otherwise the screen and buffer move as `step`
    /// says.
    pub fn handle_event(&mut self, ev: &Event) -> (quit: bool)
        ensures
            quit == step(old(self).active_menu_item, old(self).savefile_name@, *ev).2,
            final(self).active_menu_item == step(
                old(self).active_menu_item,
                old(self).savefile_name@,
                *ev,
            ).0,
            final(self).savefile_name@ == step(
                old(self).active_menu_item,
                old(self).savefile_name@,
                *ev,
            ).1,
    {
        match *ev {
            Event::Tick => false,
            Event::Input(k) => match self.active_menu_item {
                MenuItem::Opening => match k {
                    Key::Esc => true,
                    _ => {
                        self.active_menu_item = MenuItem::SavegameName;
                        false
                    },
                },
                MenuItem::Home => match k {
                    Key::Char(c) => {
                        if c == 'q' {
                            true
                        } else if c == 'o' {
                            self.active_menu_item = MenuItem::Opening;
                            false
                        } else if c == 'h' {
                            self.active_menu_item = MenuItem::Home;
                            false
                        } else {
                            false
                        }
                    },
                    _ => false,
                },
                MenuItem::SavegameName => match k {
                    Key::Esc => true,
                    Key::Enter => {
                        self.active_menu_item = MenuItem::Home;
                        false
                    },
                    Key::Backspace => {
                        self.savefile_name.pop();
                        false
                    },
                    Key::Char(c) => {
                        self.savefile_name.push(c);
                        false
                    },
                    Key::Other => false,
                },
            },
        }
    }
}

} // verus!
