//! The dialog where the user adds a serial or changes one: its name and the
//! season and episode ("seria") reached, both from 1 to 255.

use vstd::prelude::*;
use vstd::string::*;
use crate::text::{parse_nonzero_u8, spec_parse_nonzero_u8};

verus! {

/// A serial: its name and the season and episode the user is at (both at
/// least 1).
pub struct Serial {
    pub name: String,
    pub current_season: u8,
    pub current_seria: u8,
}

/// Why the dialog refused a change.
pub enum SerialError {
    /// A number would pass 255.
    NumberOverflow,
    /// A season or an episode would be 0.
    SeasonAndSeriaCannotBeZero,
}

/// Whether the dialog adds a new serial or changes the one at `id`.
#[derive(Clone, Copy, PartialEq, Eq, Structural)]
pub enum Kind {
    New,
    Change { id: usize },
}

/// What can happen in the dialog.
pub enum Message {
    Back,
    /// The user accepts the values shown.
    Accept { kind: Kind, name: String, season: u8, seria: u8 },
    Delete(usize),
    NameChanged(String),
    /// The text of the season field.
    SeasonChanged(String),
    /// The text of the episode field.
    SeriaChanged(String),
    SeasonInc,
    SeasonDec,
    SeriaInc,
    SeriaDec,
}

/// What the dialog shows.
pub struct SerialEditDialogView {
    pub kind: Kind,
    pub name: Seq<char>,
    pub season: u8,
    pub seria: u8,
}

/// The dialog: the values being edited.
pub struct SerialEditDialog {
    kind: Kind,
    name: String,
    season: u8,
    seria: u8,
}

impl View for SerialEditDialog {
    type V = SerialEditDialogView;

    closed spec fn view(&self) -> SerialEditDialogView {
        SerialEditDialogView { kind: self.kind, name: self.name@, season: self.season, seria: self.seria }
    }
}

/// What a message does to the dialog, and whether it was refused.
pub open spec fn serial_edit_step(d: SerialEditDialogView, m: Message) -> (SerialEditDialogView, Result<(), SerialError>) {
    match m {
        Message::Back | Message::Accept { .. } | Message::Delete(_) => (d, Ok(())),
        Message::NameChanged(v) => (SerialEditDialogView { name: v@, ..d }, Ok(())),
        Message::SeasonChanged(v) => match spec_parse_nonzero_u8(v@) {
            Some(n) => (SerialEditDialogView { season: n, ..d }, Ok(())),
            None => (d, Ok(())),
        },
        Message::SeriaChanged(v) => match spec_parse_nonzero_u8(v@) {
            Some(n) => (SerialEditDialogView { seria: n, ..d }, Ok(())),
            None => (d, Ok(())),
        },
        Message::SeasonInc => if d.season == 255 {
            (d, Err(SerialError::NumberOverflow))
        } else {
            (SerialEditDialogView { season: (d.season + 1) as u8, ..d }, Ok(()))
        },
        Message::SeriaInc => if d.seria == 255 {
            (d, Err(SerialError::NumberOverflow))
        } else {
            (SerialEditDialogView { seria: (d.seria + 1) as u8, ..d }, Ok(()))
        },
        Message::SeasonDec | Message::SeriaDec => (d, Ok(())),
    }
}

/// A step up below 255 adds one to that number, succeeds and changes
/// nothing else; at 255 it is refused and changes nothing. A step down
/// changes nothing.
pub proof fn lemma_steps_move_by_one(d: SerialEditDialogView)
    ensures
        d.season < 255 ==> serial_edit_step(d, Message::SeasonInc).1 is Ok && serial_edit_step(d, Message::SeasonInc).0
            == (SerialEditDialogView { season: (d.season + 1) as u8, ..d }) && serial_edit_step(
            d,
            Message::SeasonInc,
        ).0.season == d.season + 1,
        d.seria < 255 ==> serial_edit_step(d, Message::SeriaInc).1 is Ok && serial_edit_step(d, Message::SeriaInc).0.seria
            == d.seria + 1 && serial_edit_step(d, Message::SeriaInc).0.season == d.season && serial_edit_step(
            d,
            Message::SeriaInc,
        ).0.name == d.name && serial_edit_step(d, Message::SeriaInc).0.kind == d.kind,
        d.season == 255 ==> serial_edit_step(d, Message::SeasonInc) == (d, Err::<(), SerialError>(SerialError::NumberOverflow)),
        d.seria == 255 ==> serial_edit_step(d, Message::SeriaInc) == (d, Err::<(), SerialError>(SerialError::NumberOverflow)),
        serial_edit_step(d, Message::SeasonDec) == (d, Ok::<(), SerialError>(())),
        serial_edit_step(d, Message::SeriaDec) == (d, Ok::<(), SerialError>(())),
{
}

/// A typed number from 1 to 255 becomes the season; other text changes
/// nothing.
pub proof fn lemma_typed_season_is_stored(d: SerialEditDialogView, v: String)
    ensures
        serial_edit_step(d, Message::SeasonChanged(v)).1 is Ok,
        match spec_parse_nonzero_u8(v@) {
            Some(n) => serial_edit_step(d, Message::SeasonChanged(v)).0 == (SerialEditDialogView { season: n, ..d }),
            None => serial_edit_step(d, Message::SeasonChanged(v)).0 == d,
        },
{
}

impl SerialEditDialog {
    #[verifier::type_invariant]
    spec fn numbers_positive(&self) -> bool {
        self.season >= 1 && self.seria >= 1
    }

    /// The dialog for a new serial: no name, season 1, episode 1.
    pub fn new() -> (res: Result<SerialEditDialog, SerialError>)
        ensures
            res matches Ok(d) && d@ == (SerialEditDialogView { kind: Kind::New, name: Seq::empty(), season: 1, seria: 1 }),
    {
        Ok(SerialEditDialog { kind: Kind::New, name: String::new(), season: 1, seria: 1 })
    }

    /// The dialog changing `serial`, which is at `id`.
    pub fn change(serial: &Serial, id: usize) -> (res: SerialEditDialog)
        requires
            serial.current_season >= 1,
            serial.current_seria >= 1,
        ensures
            res@ == (SerialEditDialogView {
                kind: Kind::Change { id },
                name: serial.name@,
                season: serial.current_season,
                seria: serial.current_seria,
            }),
    {
        SerialEditDialog {
            kind: Kind::Change { id },
            name: serial.name.clone(),
            season: serial.current_season,
            seria: serial.current_seria,
        }
    }

    /// The season and the episode shown are never 0.
    pub fn numbers(&self) -> (res: (u8, u8))
        ensures
            res == (self@.season, self@.seria),
            res.0 >= 1 && res.1 >= 1,
    {
        proof { use_type_invariant(self); }
        (self.season, self.seria)
    }

    /// What `message` does: typed numbers that are not a number from 1 to
    /// 255 are ignored, and a step past 255 is refused.
    pub fn update(&mut self, message: Message) -> (res: Result<(), SerialError>)
        ensures
            (final(self)@, res) == serial_edit_step(old(self)@, message),
    {
        proof { use_type_invariant(&*self); }
        match message {
            Message::Back | Message::Accept { .. } | Message::Delete(_) => {},
            Message::NameChanged(value) => self.name = value,
            Message::SeasonChanged(value) => match parse_nonzero_u8(value.as_str()) {
                Some(n) => self.season = n,
                None => {},
            },
            Message::SeriaChanged(value) => match parse_nonzero_u8(value.as_str()) {
                Some(n) => self.seria = n,
                None => {},
            },
            Message::SeasonInc => {
                if self.season == 255 {
                    return Err(SerialError::NumberOverflow);
                }
                self.season = self.season + 1;
            },
            Message::SeriaInc => {
                if self.seria == 255 {
                    return Err(SerialError::NumberOverflow);
                }
                self.seria = self.seria + 1;
            },
            Message::SeasonDec | Message::SeriaDec => {},
        }
        Ok(())
    }

    /// The name shown.
    pub fn name(&self) -> (res: &str)
        ensures
            res@ == self@.name,
    {
        self.name.as_str()
    }

    /// Whether the dialog adds or changes a serial.
    pub fn kind(&self) -> (res: Kind)
        ensures
            res == self@.kind,
    {
        self.kind
    }

    /// The message of the accept button: the values shown.
    pub fn accept(&self) -> (res: Message)
        ensures
            res matches Message::Accept { kind, name, season, seria } && kind == self@.kind && name@ == self@.name
                && season == self@.season && seria == self@.seria,
    {
        Message::Accept { kind: self.kind, name: self.name.clone(), season: self.season, seria: self.seria }
    }
}

} // verus!
