//! Commands that a marker gives by coming into view.
//!
//! A command is given when its marker appears in a frame and was not in the
//! frame before: holding a marker in view gives its command once.

use vstd::prelude::*;

verus! {

/// A command that a marker gave, with the marker's identifier.
#[derive(Debug, Clone)]
pub struct ArucoCommand {
    pub marker_id: i32,
    pub command_name: String,
}

/// What a command is to its users.
pub ghost struct CommandModel {
    pub marker_id: i32,
    pub name: Seq<char>,
}

impl View for ArucoCommand {
    type V = CommandModel;

    open spec fn view(&self) -> CommandModel {
        CommandModel { marker_id: self.marker_id, name: self.command_name@ }
    }
}

impl DeepView for ArucoCommand {
    type V = CommandModel;

    open spec fn deep_view(&self) -> CommandModel {
        self@
    }
}

/// Whether an identifier has a command: those from 0 to 7 do.
pub open spec fn is_command_id(id: int) -> bool {
    0 <= id <= 7
}

/// The name of the command of an identifier that has one.
pub open spec fn command_name_of(id: int) -> Seq<char>
    recommends
        is_command_id(id),
{
    if id == 0 {
        "toggle_audio"@
    } else if id == 1 {
        "reset_pitch"@
    } else if id == 2 {
        "increase_pitch"@
    } else if id == 3 {
        "decrease_pitch"@
    } else if id == 4 {
        "stop_audio"@
    } else if id == 5 {
        "test_sound"@
    } else if id == 6 {
        "pitch_up_coarse"@
    } else {
        "pitch_down_coarse"@
    }
}

/// The command of one identifier, as the model of an `ArucoCommand`.
pub open spec fn command_of(id: i32) -> CommandModel {
    CommandModel { marker_id: id, name: command_name_of(id as int) }
}

/// Whether the marker at place `i` of the current frame gives a command: it
/// has one, and the frame before did not show it.
pub open spec fn fires(current: Seq<i32>, last: Seq<i32>, i: int) -> bool
    recommends
        0 <= i < current.len(),
{
    is_command_id(current[i] as int) && !last.contains(current[i])
}

/// The commands that the first `k` markers of the current frame give, in the
/// order of the markers.
pub open spec fn fired(current: Seq<i32>, last: Seq<i32>, k: nat) -> Seq<CommandModel>
    recommends
        k <= current.len(),
    decreases k,
{
    if k == 0 {
        Seq::empty()
    } else {
        let before = fired(current, last, (k - 1) as nat);
        if fires(current, last, k - 1) {
            before.push(command_of(current[k - 1]))
        } else {
            before
        }
    }
}

/// The command of a marker identifier, if it has one.
pub fn map_marker_to_command(marker_id: i32) -> (command: Option<ArucoCommand>)
    ensures
        command is Some <==> is_command_id(marker_id as int),
        command is Some ==> command->0@ == command_of(marker_id),
{
    let command_name = match marker_id {
        0 => "toggle_audio",
        1 => "reset_pitch",
        2 => "increase_pitch",
        3 => "decrease_pitch",
        4 => "stop_audio",
        5 => "test_sound",
        6 => "pitch_up_coarse",
        7 => "pitch_down_coarse",
        _ => {
            return None;
        },
    };
    Some(ArucoCommand { marker_id, command_name: command_name.to_string() })
}

/// Whether an identifier occurs in a list.
pub fn contains_id(ids: &Vec<i32>, id: i32) -> (found: bool)
    ensures
        found == ids@.contains(id),
{
    let mut i: usize = 0;
    while i < ids.len()
        invariant
            i <= ids.len(),
            forall|j: int| 0 <= j < i ==> ids@[j] != id,
        decreases ids.len() - i,
    {
        if ids[i] == id {
            return true;
        }
        i += 1;
    }
    false
}

/// The commands that a frame gives, and nothing for a marker that the frame
/// before showed already.
pub fn newly_fired(current: &Vec<i32>, last: &Vec<i32>) -> (commands: Vec<ArucoCommand>)
    ensures
        commands.deep_view() == fired(current@, last@, current@.len()),
{
    let mut commands: Vec<ArucoCommand> = Vec::new();
    let mut i: usize = 0;
    while i < current.len()
        invariant
            i <= current.len(),
            commands.deep_view() == fired(current@, last@, i as nat),
        decreases current.len() - i,
    {
        let id: i32 = current[i];
        if !contains_id(last, id) {
            if let Some(command) = map_marker_to_command(id) {
                let ghost before = commands.deep_view();
                commands.push(command);
                assert(commands.deep_view() =~= before.push(command_of(id)));
            }
        }
        i += 1;
    }
    commands
}

/// A frame that shows nothing new gives no command: where every marker of
/// the current frame was in the frame before, nothing fires.
pub proof fn lemma_held_markers_are_silent(current: Seq<i32>, last: Seq<i32>, k: nat)
    requires
        k <= current.len(),
        forall|i: int| 0 <= i < current.len() ==> last.contains(#[trigger] current[i]),
    ensures
        fired(current, last, k) == Seq::<CommandModel>::empty(),
    decreases k,
{
    if k > 0 {
        lemma_held_markers_are_silent(current, last, (k - 1) as nat);
    }
}

/// Every command that fires belongs to a marker of the current frame that
/// has a command and was not in the frame before.
pub proof fn lemma_fired_are_new(current: Seq<i32>, last: Seq<i32>, k: nat, n: int)
    requires
        k <= current.len(),
        0 <= n < fired(current, last, k).len(),
    ensures
        is_command_id(fired(current, last, k)[n].marker_id as int),
        current.contains(fired(current, last, k)[n].marker_id),
        !last.contains(fired(current, last, k)[n].marker_id),
        fired(current, last, k)[n] == command_of(fired(current, last, k)[n].marker_id),
    decreases k,
{
    let before = fired(current, last, (k - 1) as nat);
    if fires(current, last, k - 1) && n == before.len() {
        assert(current[k - 1] == fired(current, last, k)[n].marker_id);
    } else {
        lemma_fired_are_new(current, last, (k - 1) as nat, n);
    }
}

} // verus!
