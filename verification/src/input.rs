//! The input dispatcher: from one terminal input event to at most one command.
//!
//! Pointer presses are tested against the regions that the geometry resolver
//! computed, the same ones the transport bar was drawn on.

use vstd::prelude::*;
use crate::config::Config;
use crate::geometry::{geometry_of, lemma_regions_hold_layout_columns, Geometry, BAR_ROW};

verus! {

/// A key press, as far as the panel tells keys apart.
#[derive(Clone, Copy, Debug, PartialEq, Eq)]
pub enum Key {
    Esc,
    Left,
    Right,
    Char(char),
    /// Any key that has no meaning here.
    Other,
}

/// A pointer button.
#[derive(Clone, Copy, Debug, PartialEq, Eq)]
pub enum PointerButton {
    Primary,
    Secondary,
    Middle,
}

/// What the pointer did.
#[derive(Clone, Copy, Debug, PartialEq, Eq)]
pub enum PointerKind {
    /// A button went down.
    Press(PointerButton),
    /// Release, drag, motion or scrolling.
    Other,
}

/// One item of the terminal's input stream.
#[derive(Clone, Copy, Debug, PartialEq, Eq)]
pub enum InputEvent {
    Key(Key),
    Pointer { kind: PointerKind, column: u16, row: u16 },
    Resize { columns: u16, rows: u16 },
}

/// What an input event asks for.
#[derive(Clone, Copy, Debug, PartialEq, Eq)]
pub enum Command {
    Previous,
    PlayPause,
    Next,
    ForceRefresh,
    Quit,
}

/// A command for the media player.
#[derive(Clone, Copy, Debug, PartialEq, Eq)]
pub enum Transport {
    Previous,
    PlayPause,
    Next,
}

/// The command bound to a key: Esc and `q` quit, the arrows skip, the space bar
/// toggles playback, `r` forces a refresh, and every other key does nothing.
pub open spec fn key_command(key: Key) -> Option<Command> {
    match key {
        Key::Esc => Some(Command::Quit),
        Key::Left => Some(Command::Previous),
        Key::Right => Some(Command::Next),
        Key::Char(c) => if c == 'q' {
            Some(Command::Quit)
        } else if c == ' ' {
            Some(Command::PlayPause)
        } else if c == 'r' {
            Some(Command::ForceRefresh)
        } else {
            None
        },
        Key::Other => None,
    }
}

/// The command of the button whose region holds the cell, if any does.
pub open spec fn button_at(geometry: Geometry, column: int, row: int) -> Option<Command> {
    if geometry.prev.contains(column, row) {
        Some(Command::Previous)
    } else if geometry.playpause.contains(column, row) {
        Some(Command::PlayPause)
    } else if geometry.next.contains(column, row) {
        Some(Command::Next)
    } else {
        None
    }
}

/// The command that an input event asks for. Of the pointer only a press of the
/// primary button counts; a resize asks for nothing.
pub open spec fn command_for(event: InputEvent, geometry: Geometry) -> Option<Command> {
    match event {
        InputEvent::Key(key) => key_command(key),
        InputEvent::Pointer { kind: PointerKind::Press(PointerButton::Primary), column, row } => {
            button_at(geometry, column as int, row as int)
        },
        InputEvent::Pointer { .. } => None,
        InputEvent::Resize { .. } => None,
    }
}

/// A press of the primary button at a cell.
pub open spec fn primary_press(column: u16, row: u16) -> InputEvent {
    InputEvent::Pointer { kind: PointerKind::Press(PointerButton::Primary), column, row }
}

impl Command {
    /// The player command in this command, if it is one.
    pub open spec fn spec_transport(self) -> Option<Transport> {
        match self {
            Command::Previous => Some(Transport::Previous),
            Command::PlayPause => Some(Transport::PlayPause),
            Command::Next => Some(Transport::Next),
            Command::ForceRefresh => None,
            Command::Quit => None,
        }
    }

    /// The player command in this command, if it is one.
    pub fn transport(self) -> (t: Option<Transport>)
        ensures
            t == self.spec_transport(),
    {
        match self {
            Command::Previous => Some(Transport::Previous),
            Command::PlayPause => Some(Transport::PlayPause),
            Command::Next => Some(Transport::Next),
            Command::ForceRefresh => None,
            Command::Quit => None,
        }
    }
}

/// Maps a key to its command.
pub fn dispatch_key(key: Key) -> (command: Option<Command>)
    ensures
        command == key_command(key),
{
    match key {
        Key::Esc => Some(Command::Quit),
        Key::Left => Some(Command::Previous),
        Key::Right => Some(Command::Next),
        Key::Char(c) => {
            if c == 'q' {
                Some(Command::Quit)
            } else if c == ' ' {
                Some(Command::PlayPause)
            } else if c == 'r' {
                Some(Command::ForceRefresh)
            } else {
                None
            }
        },
        Key::Other => None,
    }
}

/// Finds the button under a cell.
pub fn hit_test(geometry: &Geometry, column: u16, row: u16) -> (command: Option<Command>)
    ensures
        command == button_at(*geometry, column as int, row as int),
{
    if geometry.prev.hit(column, row) {
        Some(Command::Previous)
    } else if geometry.playpause.hit(column, row) {
        Some(Command::PlayPause)
    } else if geometry.next.hit(column, row) {
        Some(Command::Next)
    } else {
        None
    }
}

/// Maps one input event to at most one command.
pub fn dispatch(event: &InputEvent, geometry: &Geometry) -> (command: Option<Command>)
    ensures
        command == command_for(*event, *geometry),
{
    match event {
        InputEvent::Key(key) => dispatch_key(*key),
        InputEvent::Pointer { kind, column, row } => match kind {
            PointerKind::Press(PointerButton::Primary) => hit_test(geometry, *column, *row),
            _ => None,
        },
        InputEvent::Resize { .. } => None,
    }
}

/// A press on any cell of a button's region, padding included, asks for that
/// button's command; a press anywhere else asks for nothing. Nothing but a press
/// on one of the three regions ever asks for a player command through the pointer.
pub proof fn lemma_press_hits_exactly_the_regions(config: Config, column: u16, row: u16)
    ensures
        geometry_of(config).prev.contains(column as int, row as int) <==> command_for(
            primary_press(column, row),
            geometry_of(config),
        ) == Some(Command::Previous),
        geometry_of(config).playpause.contains(column as int, row as int) <==> command_for(
            primary_press(column, row),
            geometry_of(config),
        ) == Some(Command::PlayPause),
        geometry_of(config).next.contains(column as int, row as int) <==> command_for(
            primary_press(column, row),
            geometry_of(config),
        ) == Some(Command::Next),
        row != BAR_ROW ==> command_for(primary_press(column, row), geometry_of(config)) is None,
{
    lemma_regions_hold_layout_columns(config);
}

/// A press on the first or on the last column of a button's region, on the bar's
/// row, asks for that button's command.
pub proof fn lemma_press_on_region_edge_hits(config: Config, column: u16)
    ensures
        column == geometry_of(config).prev.col_start || column == geometry_of(
            config,
        ).prev.col_end_exclusive - 1 ==> command_for(
            primary_press(column, BAR_ROW as u16),
            geometry_of(config),
        ) == Some(Command::Previous),
        column == geometry_of(config).playpause.col_start || column == geometry_of(
            config,
        ).playpause.col_end_exclusive - 1 ==> command_for(
            primary_press(column, BAR_ROW as u16),
            geometry_of(config),
        ) == Some(Command::PlayPause),
        column == geometry_of(config).next.col_start || column == geometry_of(
            config,
        ).next.col_end_exclusive - 1 ==> command_for(
            primary_press(column, BAR_ROW as u16),
            geometry_of(config),
        ) == Some(Command::Next),
{
    lemma_regions_hold_layout_columns(config);
}

/// A press one column outside a button's region, on the bar's row, asks for
/// nothing where that column belongs to a cap or to a margin. Where the margins
/// between two buttons add up to zero the buttons adjoin, and the column outside
/// the one is the edge of the other: the press then asks for the neighbour's
/// command.
pub proof fn lemma_press_beside_region(config: Config, column: u16)
    ensures
        column == geometry_of(config).prev.col_start - 1 ==> command_for(
            primary_press(column, BAR_ROW as u16),
            geometry_of(config),
        ) is None,
        column == geometry_of(config).prev.col_end_exclusive ==> command_for(
            primary_press(column, BAR_ROW as u16),
            geometry_of(config),
        ) == (if config.controls_bar.button_prev.margins.1
            + config.controls_bar.button_playpause.margins.0 > 0 {
            None
        } else {
            Some(Command::PlayPause)
        }),
        column == geometry_of(config).playpause.col_start - 1 ==> command_for(
            primary_press(column, BAR_ROW as u16),
            geometry_of(config),
        ) == (if config.controls_bar.button_prev.margins.1
            + config.controls_bar.button_playpause.margins.0 > 0 {
            None
        } else {
            Some(Command::Previous)
        }),
        column == geometry_of(config).playpause.col_end_exclusive ==> command_for(
            primary_press(column, BAR_ROW as u16),
            geometry_of(config),
        ) == (if config.controls_bar.button_playpause.margins.1
            + config.controls_bar.button_next.margins.0 > 0 {
            None
        } else {
            Some(Command::Next)
        }),
        column == geometry_of(config).next.col_start - 1 ==> command_for(
            primary_press(column, BAR_ROW as u16),
            geometry_of(config),
        ) == (if config.controls_bar.button_playpause.margins.1
            + config.controls_bar.button_next.margins.0 > 0 {
            None
        } else {
            Some(Command::PlayPause)
        }),
        column == geometry_of(config).next.col_end_exclusive ==> command_for(
            primary_press(column, BAR_ROW as u16),
            geometry_of(config),
        ) is None,
{
    lemma_regions_hold_layout_columns(config);
}

/// Keys do not depend on the geometry, and the two quit keys always quit.
pub proof fn lemma_quit_keys(geometry: Geometry)
    ensures
        command_for(InputEvent::Key(Key::Esc), geometry) == Some(Command::Quit),
        command_for(InputEvent::Key(Key::Char('q')), geometry) == Some(Command::Quit),
        forall|key: Key|
            #[trigger] command_for(InputEvent::Key(key), geometry) == Some(Command::Quit) <==> key
                == Key::Esc || key == Key::Char('q'),
{
}

} // verus!
