//! The terminal session: its screen buffers, its title and its input mode.
//!
//! A session owns one active buffer and a stack of saved ones. Pushing a
//! buffer saves the active one and installs a fresh one in its place; popping
//! brings the most recently saved buffer back. Contracts speak of a session
//! through its view, a [`Session`].

use crate::datatypes::key::term_seq;
use crate::datatypes::{InputMode, Key, Modifiers};
use std::ops::{Deref, DerefMut};
use vstd::prelude::*;

mod char_grid;
mod dispatch;

pub use self::char_grid::CharGrid;
pub use self::dispatch::{
    decimal, lemma_decimal_digits, menu_key, offers_to_menu, route, selection, Route,
};

verus! {

/// The state of a terminal session as contracts see it.
#[verifier::ext_equal]
pub struct Session {
    /// The visible number of columns.
    pub width: u32,
    /// The visible number of rows.
    pub height: u32,
    pub title: Seq<char>,
    /// The buffer that is drawn and written to.
    pub active: CharGrid,
    /// The saved buffers, the most recently saved one last.
    pub saved: Seq<CharGrid>,
    /// The mode in which input is encoded.
    pub mode: InputMode,
}

impl Session {
    /// The session just after it was opened with the given dimensions.
    pub open spec fn opened(width: u32, height: u32) -> Session {
        Session {
            width,
            height,
            title: Seq::empty(),
            active: CharGrid { width, height, scroll_x: false, scroll_y: true },
            saved: Seq::empty(),
            mode: InputMode::Ansi,
        }
    }

    /// The session after a buffer was pushed: the active buffer is saved on
    /// top of the stack, and a fresh one of the visible dimensions takes its
    /// place.
    pub open spec fn push_buffer(self, scroll_x: bool, scroll_y: bool) -> Session {
        Session {
            active: CharGrid { width: self.width, height: self.height, scroll_x, scroll_y },
            saved: self.saved.push(self.active),
            ..self
        }
    }

    /// The session after a buffer was popped: the buffer saved last is active
    /// again and the one it replaces is gone. With nothing saved, the session
    /// is as it was.
    pub open spec fn pop_buffer(self) -> Session {
        if self.saved.len() > 0 {
            Session { active: self.saved.last(), saved: self.saved.drop_last(), ..self }
        } else {
            self
        }
    }

    /// Whether the session can take this key event: an encoding table is
    /// defined for whatever the event brings before the encoder, be it the
    /// key or the selection literal.
    pub open spec fn accepts(self, key: Key, press: bool, reply: Option<Result<usize, bool>>) -> bool {
        match Route::of(key, press, reply) {
            Route::Forward => key.covered(self.mode),
            Route::Select(_) => self.mode != InputMode::Extended,
            Route::Drop => true,
        }
    }

    /// What the session writes to the controlling process for this key
    /// event, if anything: where the event goes on to the encoder, the code
    /// of the key if the event is a press and nothing if it is a release;
    /// where a menu picked an entry, the selection literal.
    pub open spec fn written(
        self,
        key: Key,
        press: bool,
        modifiers: Modifiers,
        reply: Option<Result<usize, bool>>,
    ) -> Option<Seq<char>>
        recommends
            self.accepts(key, press, reply),
    {
        match Route::of(key, press, reply) {
            Route::Forward => if press {
                key.code(self.mode, modifiers)
            } else {
                None
            },
            Route::Select(index) => Some(decimal(index as nat)),
            Route::Drop => None,
        }
    }

    /// The session after the visible width was set to `cols`.
    pub open spec fn set_visible_width(self, cols: u32) -> Session {
        Session { width: cols, active: CharGrid { width: cols, ..self.active }, ..self }
    }

    /// The session after the visible height was set to `rows`.
    pub open spec fn set_visible_height(self, rows: u32) -> Session {
        Session { height: rows, active: CharGrid { height: rows, ..self.active }, ..self }
    }
}

/// A terminal session.
pub struct Terminal {
    pub width: u32,
    pub height: u32,
    title: String,
    active: CharGrid,
    inactive: Vec<CharGrid>,
    mode: InputMode,
}

impl View for Terminal {
    type V = Session;

    closed spec fn view(&self) -> Session {
        Session {
            width: self.width,
            height: self.height,
            title: self.title@,
            active: self.active,
            saved: self.inactive@,
            mode: self.mode,
        }
    }
}

impl Terminal {
    /// Opens a session of the given dimensions. It starts with one active
    /// buffer that scrolls vertically only, nothing saved, an empty title,
    /// and input in ANSI mode.
    pub fn new(width: u32, height: u32) -> (term: Terminal)
        ensures
            term@ == Session::opened(width, height),
    {
        Terminal {
            width,
            height,
            title: String::new(),
            active: CharGrid::new(width, height, false, true),
            inactive: Vec::new(),
            mode: InputMode::Ansi,
        }
    }

    /// Saves the active buffer and installs a fresh one of the visible
    /// dimensions, which scrolls as the flags say.
    pub fn push_buffer(&mut self, scroll_x: bool, scroll_y: bool)
        ensures
            final(self)@ == old(self)@.push_buffer(scroll_x, scroll_y),
    {
        let mut grid = CharGrid::new(self.width, self.height, scroll_x, scroll_y);
        std::mem::swap(&mut grid, &mut self.active);
        self.inactive.push(grid);
    }

    /// Makes the buffer saved last the active one again and drops the one it
    /// replaces. Does nothing when no buffer is saved.
    pub fn pop_buffer(&mut self)
        ensures
            final(self)@ == old(self)@.pop_buffer(),
    {
        match self.inactive.pop() {
            Some(grid) => {
                self.active = grid;
            },
            None => {},
        }
    }

    /// The title.
    pub fn title(&self) -> (title: &str)
        ensures
            title@ == self@.title,
    {
        self.title.as_str()
    }

    /// The mode in which input is encoded.
    pub fn input_mode(&self) -> (mode: InputMode)
        ensures
            mode == self@.mode,
    {
        self.mode
    }

    /// The saved buffers, the most recently saved one last.
    pub fn saved(&self) -> (saved: &Vec<CharGrid>)
        ensures
            saved@ == self@.saved,
    {
        &self.inactive
    }

    /// Tells whether [`Terminal::send_input`] may be called with this event.
    pub fn can_send(&self, key: &Key, press: bool, reply: Option<Result<usize, bool>>) -> (ok: bool)
        ensures
            ok == self@.accepts(*key, press, reply),
    {
        match route(key, press, reply) {
            Route::Forward => key.is_covered(self.mode),
            Route::Select(_) => match self.mode {
                InputMode::Extended => false,
                _ => true,
            },
            Route::Drop => true,
        }
    }

    /// Handles one key event and returns what is to be written to the
    /// controlling process, if anything. At most one write comes of an event.
    ///
    /// `press` tells a press from a release, `modifiers` is the modifier
    /// state that goes with the event, and `reply` is the answer of the menu
    /// under the cursor, as [`Route::of`] reads it. Ask the menu only where
    /// [`offers_to_menu`] says so.
    pub fn send_input(
        &self,
        key: Key,
        press: bool,
        modifiers: Modifiers,
        reply: Option<Result<usize, bool>>,
    ) -> (written: Option<String>)
        requires
            self@.accepts(key, press, reply),
        ensures
            written.deep_view() == self@.written(key, press, modifiers, reply),
    {
        match route(&key, press, reply) {
            Route::Forward => if press {
                key.as_code(self.mode, modifiers)
            } else {
                None
            },
            Route::Select(index) => selection(index).as_code(self.mode, modifiers),
            Route::Drop => None,
        }
    }

    /// Sets the title.
    pub fn set_title(&mut self, title: String)
        ensures
            final(self)@ == (Session { title: title@, ..old(self)@ }),
    {
        self.title = title;
    }

    /// Sets the mode in which input is encoded from now on.
    pub fn set_input_mode(&mut self, mode: InputMode)
        ensures
            final(self)@ == (Session { mode, ..old(self)@ }),
    {
        self.mode = mode;
    }

    /// Sets the visible height. Only the active buffer is resized; the saved
    /// ones keep the dimensions they have.
    pub fn set_visible_height(&mut self, rows: u32)
        ensures
            final(self)@ == old(self)@.set_visible_height(rows),
    {
        self.active.set_height(rows);
        self.height = rows;
    }

    /// Sets the visible width. Only the active buffer is resized; the saved
    /// ones keep the dimensions they have.
    pub fn set_visible_width(&mut self, cols: u32)
        ensures
            final(self)@ == old(self)@.set_visible_width(cols),
    {
        self.active.set_width(cols);
        self.width = cols;
    }
}

impl Deref for Terminal {
    type Target = CharGrid;

    /// The active buffer.
    fn deref(&self) -> (grid: &CharGrid)
        ensures
            *grid == self@.active,
    {
        &self.active
    }
}

impl DerefMut for Terminal {
    /// The active buffer, to be changed in place.
    fn deref_mut(&mut self) -> (grid: &mut CharGrid)
        ensures
            *grid == old(self)@.active,
            final(self)@ == (Session { active: *final(grid), ..old(self)@ }),
    {
        &mut self.active
    }
}

/// Where a menu under the cursor answers a press of Down, Up or the
/// confirmation key by picking an entry, the session writes the selection
/// literal and not what the key itself would send.
pub proof fn lemma_menu_choice_replaces_key(
    session: Session,
    key: Key,
    modifiers: Modifiers,
    index: usize,
)
    requires
        menu_key(key),
        session.mode != InputMode::Extended,
    ensures
        session.accepts(key, true, Some(Ok(index))),
        session.written(key, true, modifiers, Some(Ok(index))) == Some(decimal(index as nat)),
        session.written(key, true, modifiers, Some(Ok(index))) != key.code(session.mode, modifiers),
{
    // a numeral opens with a digit, the sequence of a key with an escape
    lemma_decimal_digits(index as nat);
}

/// With no menu under the cursor, a pressed key is written as the encoder
/// gives it; a press of Down is written as the Down sequence of the mode.
pub proof fn lemma_no_menu_forwards_key(session: Session, key: Key, modifiers: Modifiers)
    requires
        key.covered(session.mode),
    ensures
        session.accepts(key, true, None),
        session.written(key, true, modifiers, None) == key.code(session.mode, modifiers),
        key == Key::Down(true) ==> session.written(key, true, modifiers, None) == Some(
            term_seq(modifiers, 'B', session.mode == InputMode::Ansi),
        ),
{
}

/// With a menu under the cursor, a press of Down, Up or the confirmation key
/// is written as the encoder gives it where the menu hands it on, and not at
/// all where the menu used it up. For any other event the menu counts for
/// nothing.
pub proof fn lemma_menu_answers_menu_keys_only(
    session: Session,
    key: Key,
    press: bool,
    modifiers: Modifiers,
    reply: Option<Result<usize, bool>>,
)
    ensures
        menu_key(key) ==> session.written(key, true, modifiers, Some(Err(true))) == key.code(
            session.mode,
            modifiers,
        ),
        menu_key(key) ==> session.written(key, true, modifiers, Some(Err(false))) is None,
        !(press && menu_key(key)) ==> session.written(key, press, modifiers, reply)
            == session.written(key, press, modifiers, None),
        !(press && menu_key(key)) ==> session.accepts(key, press, reply) == session.accepts(
            key,
            press,
            None,
        ),
{
}

/// A release writes nothing, whatever the key, the modifiers and the menu.
pub proof fn lemma_release_writes_nothing(
    session: Session,
    key: Key,
    modifiers: Modifiers,
    reply: Option<Result<usize, bool>>,
)
    requires
        key.covered(session.mode),
    ensures
        session.accepts(key, false, reply),
        session.written(key, false, modifiers, reply) is None,
{
}

/// Popping a buffer right after pushing one gives the session back as it
/// was. Popping with nothing saved changes nothing, so a second pop after a
/// single push leaves the session as the first pop did.
pub proof fn lemma_push_then_pop(session: Session, scroll_x: bool, scroll_y: bool)
    ensures
        session.push_buffer(scroll_x, scroll_y).pop_buffer() == session,
        session.saved.len() == 0 ==> session.pop_buffer() == session,
        session.saved.len() == 0 ==> session.push_buffer(scroll_x, scroll_y).pop_buffer().pop_buffer()
            == session,
{
}

/// Setting the visible width or height leaves every saved buffer as it is.
pub proof fn lemma_resize_keeps_saved(session: Session, cols: u32, rows: u32)
    ensures
        session.set_visible_width(cols).saved == session.saved,
        session.set_visible_height(rows).saved == session.saved,
{
}

} // verus!
