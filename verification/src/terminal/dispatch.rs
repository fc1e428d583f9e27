//! The dispatch decision: who handles a key event.
//!
//! A press of Down, Up or the confirmation key is first offered to a menu
//! under the cursor, if there is one. The menu answers with the entry it
//! picked, or says whether the key is still to be forwarded. Everything else
//! goes straight to the encoder.

use crate::datatypes::key::digit;
use crate::datatypes::Key;
use std::borrow::Cow;
use vstd::prelude::*;

verus! {

/// What becomes of a key event.
#[derive(Copy, Clone, Debug, PartialEq, Eq, Structural)]
pub enum Route {
    /// The event goes on to the encoder.
    Forward,
    /// The menu picked the entry of this index: the literal that names it
    /// goes out in place of the key.
    Select(usize),
    /// The menu used the key up: nothing goes out.
    Drop,
}

/// Whether a menu under the cursor gets to see `key` first: it is a press of
/// Down, Up or the confirmation key.
pub open spec fn menu_key(key: Key) -> bool {
    key == Key::Down(true) || key == Key::Up(true) || key == Key::Enter(true)
}

impl Route {
    /// The route of a key event. `press` is the event's own flag; `reply` is
    /// `None` when no menu is under the cursor, and otherwise what the menu
    /// answers to the key: `Ok` with the index it picked, `Err(true)` to have
    /// the key forwarded, `Err(false)` when it used the key up.
    ///
    /// The reply counts only for the press of a menu key. Every other event
    /// goes on to the encoder.
    pub open spec fn of(key: Key, press: bool, reply: Option<Result<usize, bool>>) -> Route {
        if press && menu_key(key) {
            match reply {
                Some(Ok(index)) => Route::Select(index),
                Some(Err(false)) => Route::Drop,
                Some(Err(true)) | None => Route::Forward,
            }
        } else {
            Route::Forward
        }
    }
}

/// The decimal numeral of `n`, without leading zeros.
pub open spec fn decimal(n: nat) -> Seq<char>
    decreases n,
{
    if n < 10 {
        seq![digit(n as int)]
    } else {
        decimal(n / 10).push(digit((n % 10) as int))
    }
}

/// Tells whether a menu under the cursor is to be asked about this event
/// before anything is sent.
pub fn offers_to_menu(key: &Key, press: bool) -> (offered: bool)
    ensures
        offered == (press && menu_key(*key)),
{
    press && match key {
        Key::Down(true) | Key::Up(true) | Key::Enter(true) => true,
        _ => false,
    }
}

/// Decides the route of a key event.
pub fn route(key: &Key, press: bool, reply: Option<Result<usize, bool>>) -> (r: Route)
    ensures
        r == Route::of(*key, press, reply),
{
    if offers_to_menu(key, press) {
        match reply {
            Some(Ok(index)) => Route::Select(index),
            Some(Err(false)) => Route::Drop,
            _ => Route::Forward,
        }
    } else {
        Route::Forward
    }
}

/// Appends the decimal numeral of `n` to `text`.
fn push_decimal(text: &mut String, n: usize)
    ensures
        final(text)@ == old(text)@ + decimal(n as nat),
    decreases n,
{
    if n >= 10 {
        push_decimal(text, n / 10);
    }
    let low: u8 = (n % 10) as u8;
    text.push(('0' as u8 + low) as char);
}

/// The literal command that reports the choice of entry `index`: the index
/// as a decimal numeral.
pub fn selection(index: usize) -> (key: Key)
    ensures
        key matches Key::Cmd(text) && text@ == decimal(index as nat),
{
    let mut text = String::new();
    push_decimal(&mut text, index);
    Key::Cmd(Cow::Owned(text))
}

/// A decimal numeral is not empty and holds nothing but digits.
pub proof fn lemma_decimal_digits(n: nat)
    ensures
        decimal(n).len() >= 1,
        forall|i: int| 0 <= i < decimal(n).len() ==> '0' <= #[trigger] decimal(n)[i] <= '9',
    decreases n,
{
    if n >= 10 {
        lemma_decimal_digits(n / 10);
    }
}

} // verus!
