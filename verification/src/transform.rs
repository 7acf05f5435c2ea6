//! From an inbound message to the command that is sent on.

use crate::config::SwitchConfigView;
use crate::table::SwitchTable;
use crate::text::same_text;
use crate::topic::{topic_segment, topic_segments};
use vstd::prelude::*;

verus! {

/// Position, counted from zero, of the topic level that names the switch.
pub const SWITCH_SEGMENT: usize = 2;

/// The payload that asks for a switch to be turned off: the text `0`.
pub open spec fn off_payload() -> Seq<char> {
    seq!['0']
}

/// The payload that asks for a switch to be turned on: the text `1`.
pub open spec fn on_payload() -> Seq<char> {
    seq!['1']
}

/// The command that a message maps to, if any.
///
/// The third level of the topic names the switch. A message whose topic has
/// fewer than three levels, or names a switch that the table does not hold,
/// maps to nothing. For a known switch the payload `0` maps to the switch's
/// `off` command and the payload `1` to its `on` command; the comparison is
/// exact, and every other payload maps to nothing.
pub open spec fn tristate_command(
    topic: Seq<char>,
    payload: Seq<char>,
    table: Map<Seq<char>, SwitchConfigView>,
) -> Option<Seq<char>> {
    let segments = topic_segments(topic);
    if segments.len() <= SWITCH_SEGMENT {
        None
    } else if !table.contains_key(segments[SWITCH_SEGMENT as int]) {
        None
    } else if payload == off_payload() {
        Some(table[segments[SWITCH_SEGMENT as int]].off)
    } else if payload == on_payload() {
        Some(table[segments[SWITCH_SEGMENT as int]].on)
    } else {
        None
    }
}

/// Maps a message to the command to send on, or to `None` where the message
/// is not one to relay. See [`tristate_command`].
pub fn zap_tristate(topic: &str, payload: &str, switch_configs: &SwitchTable) -> (command: Option<
    String,
>)
    ensures
        match command {
            Some(text) => tristate_command(topic@, payload@, switch_configs@) == Some(text@),
            None => tristate_command(topic@, payload@, switch_configs@) is None,
        },
        // A topic of fewer than three levels maps to nothing.
        topic_segments(topic@).len() < 3 ==> command is None,
        // A payload other than `0` and `1` maps to nothing.
        payload@ != off_payload() && payload@ != on_payload() ==> command is None,
        // For a switch of the table, `0` gives its `off` command and `1` its
        // `on` command.
        topic_segments(topic@).len() >= 3 && switch_configs@.contains_key(
            topic_segments(topic@)[2],
        ) ==> {
            let switch = switch_configs@[topic_segments(topic@)[2]];
            &&& payload@ == off_payload() ==> (command matches Some(text) && text@ == switch.off)
            &&& payload@ == on_payload() ==> (command matches Some(text) && text@ == switch.on)
        },
{
    proof {
        reveal_strlit("0");
        reveal_strlit("1");
        assert("0"@ == off_payload());
        assert("1"@ == on_payload());
        assert(off_payload()[0] != on_payload()[0]);
    }
    match topic_segment(topic, SWITCH_SEGMENT) {
        None => None,
        Some(name) => match switch_configs.get(name) {
            None => None,
            Some(switch) => if same_text(payload, "0") {
                Some(switch.off.clone())
            } else if same_text(payload, "1") {
                Some(switch.on.clone())
            } else {
                None
            },
        },
    }
}

} // verus!
