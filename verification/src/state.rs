//! One frame of the render/input task.

use vstd::prelude::*;
use crate::geometry::{Rect, CENTER};
use crate::glyph::{cp437_code, PLAYER_GLYPH};
use crate::render::{
    draw_characters, draw_map, draw_player, map_cells, marker_cells, plain_cell, DrawCell,
};
use crate::runstate::{player_input, step, Command, CommandView, InputEvent, Runstate, Step};
use crate::snapshot::{copy_entities, Data};
use crate::status::{blank, decode_diagnostic, PlayerInfo};

verus! {

/// What the render/input task keeps from one frame to the next.
pub struct State {
    /// Bounds of the movable widget.
    pub rectangle: Rect,
    /// The status decoded last.
    pub player_info: PlayerInfo,
    /// The state of the interaction state machine.
    pub runstate: Runstate,
    /// The pseudo typed so far.
    pub pseudo: String,
}

/// What one frame asks of the renderer, of the network and of the log.
pub struct Frame {
    /// The world and then the local player, in drawing order. The panels
    /// of the user interface are drawn after these.
    pub world: Vec<DrawCell>,
    /// The character markers, drawn after the panels.
    pub markers: Vec<DrawCell>,
    /// The command to serialize and to enqueue, if the input calls for one.
    pub command: Option<Command>,
    /// The diagnostic to emit, if the payload could not be decoded.
    pub diagnostic: Option<String>,
}

/// The view of an optional command.
pub open spec fn command_view(command: Option<Command>) -> Option<CommandView> {
    match command {
        Some(c) => Some(c@),
        None => None,
    }
}

impl State {
    /// The state before the first frame: waiting for registration, nothing
    /// typed, nothing decoded, the widget two cells wide and six high at
    /// `(5, 5)`.
    pub fn new() -> (state: State)
        ensures
            state.runstate == Runstate::Register,
            state.pseudo@ == Seq::<char>::empty(),
            state.rectangle == (Rect { width: 2, height: 6, x: 5, y: 5 }),
            blank(state.player_info),
    {
        State {
            rectangle: Rect { width: 2, height: 6, x: 5, y: 5 },
            player_info: PlayerInfo::new(),
            runstate: Runstate::Register,
            pseudo: String::new(),
        }
    }

    /// Runs one frame on a snapshot read from the store. `decoded` is what
    /// became of decoding the snapshot's payload, `None` where that failed;
    /// `event` is the frame's input.
    ///
    /// The status is refreshed first: a failed decode keeps the status of
    /// the frame before and gives one diagnostic. The world is then drawn
    /// around the position that the status holds, the local player on top of
    /// it at the screen center, and the character markers last. The
    /// interaction state machine takes the input; a command that it gives is
    /// handed back, not sent.
    pub fn tick(&mut self, snapshot: &Data, decoded: Option<PlayerInfo>, event: InputEvent) -> (frame:
        Frame)
        ensures
            final(self).player_info == (match decoded {
                Some(info) => info,
                None => old(self).player_info,
            }),
            frame.diagnostic.is_some() == decoded.is_none(),
            frame.diagnostic.is_some() ==> frame.diagnostic.unwrap()@ == decode_diagnostic(),
            frame.world@ == map_cells(
                snapshot@.entities,
                final(self).player_info.my_info.pos,
            ).push(plain_cell(CENTER as int, CENTER as int, PLAYER_GLYPH)),
            frame.markers@ == marker_cells(snapshot@.characters, cp437_code('X')),
            (Step {
                runstate: final(self).runstate,
                rectangle: final(self).rectangle,
                pseudo: final(self).pseudo@,
                command: command_view(frame.command),
            }) == step(
                old(self).runstate,
                snapshot@.local_identity.len() > 0,
                event,
                old(self).rectangle,
                old(self).pseudo@,
            ),
    {
        let diagnostic = self.player_info.refresh(decoded);
        let mut world = draw_map(copy_entities(snapshot.map()), &self.player_info.my_info.pos);
        world.push(draw_player());
        let (next, command) = player_input(
            snapshot.my_uid(),
            event,
            &self.runstate,
            &mut self.rectangle,
            &mut self.pseudo,
        );
        self.runstate = next;
        let markers = draw_characters(snapshot.characters());
        Frame { world, markers, command, diagnostic }
    }
}

} // verus!
