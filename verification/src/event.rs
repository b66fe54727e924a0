//! Commands arriving from the external game-protocol connection.

use vstd::prelude::*;

verus! {

/// A control event decoded from the game connection: toggle the push-to-talk
/// recording, accept the pending transcript, move between chat channels, or a
/// report of whether the player is in game.
#[derive(Debug, Clone, Copy, PartialEq, Eq, Structural)]
pub enum InsimEvent {
    ToggleRecording,
    AcceptMessage,
    NextChannel,
    PeviousChannel,
    IsInGame(bool),
}

impl InsimEvent {
    /// Decodes a chat command string: exactly `"stt talk"` toggles recording,
    /// exactly `"stt accept"` accepts the pending message, and every other
    /// string is no command at all.
    pub fn from_string(cmd: String) -> (r: Option<InsimEvent>)
        ensures
            cmd@ == "stt talk"@ ==> r == Some(InsimEvent::ToggleRecording),
            cmd@ == "stt accept"@ ==> r == Some(InsimEvent::AcceptMessage),
            cmd@ != "stt talk"@ && cmd@ != "stt accept"@ ==> r is None,
    {
        proof {
            reveal_strlit("stt talk");
            reveal_strlit("stt accept");
            assert("stt talk"@.len() != "stt accept"@.len());
        }
        let talk: String = "stt talk".to_owned();
        let accept: String = "stt accept".to_owned();
        if cmd == talk {
            Some(InsimEvent::ToggleRecording)
        } else if cmd == accept {
            Some(InsimEvent::AcceptMessage)
        } else {
            None
        }
    }
}

} // verus!
