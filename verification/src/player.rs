use vstd::prelude::*;

verus! {

/// One second, in nanoseconds.
pub const NANOS_PER_SECOND: u128 = 1_000_000_000;

/// What is done once the wait for the end of a song is over.
#[derive(Debug, Clone, Copy, PartialEq, Eq, Structural)]
pub enum AutoskipFollowUp {
    /// Move on to the next song (less than a second was left).
    QueueNext,
    /// Look again at how much of the song is left.
    UpdateAutoskip,
}

/// What the automatic skip to the next song does now.
#[derive(Debug, Clone, Copy, PartialEq, Eq, Structural)]
pub enum AutoskipAction {
    /// No song is playing: nothing to wait for.
    Nothing,
    /// The song is over: move on to the next song now.
    SkipNow,
    /// Wait for what is left of the song (in nanoseconds), then follow up.
    Wait { time_left: u128, then: AutoskipFollowUp },
}

/// The follow-up after waiting for the given rest of a song.
pub open spec fn follow_up(rest: u128) -> AutoskipFollowUp {
    if rest < NANOS_PER_SECOND {
        AutoskipFollowUp::QueueNext
    } else {
        AutoskipFollowUp::UpdateAutoskip
    }
}

/// What the automatic skip does for a song of the given length (in
/// nanoseconds) of which the given part has been played.
pub open spec fn autoskip_spec(is_playing: bool, duration: u128, duration_gone: u128) -> AutoskipAction {
    if !is_playing {
        AutoskipAction::Nothing
    } else if duration_gone == duration {
        AutoskipAction::SkipNow
    } else {
        AutoskipAction::Wait {
            time_left: (duration - duration_gone) as u128,
            then: follow_up((duration - duration_gone) as u128),
        }
    }
}

/// How much of a song has been played, from the player's position.
pub open spec fn gone_spec(position: u128, song_duration: u128) -> u128 {
    if position >= song_duration {
        song_duration
    } else {
        position
    }
}

/// How much of a song is left, from the player's position.
pub open spec fn left_spec(position: u128, song_duration: u128) -> u128 {
    if position >= song_duration {
        0
    } else {
        (song_duration - position) as u128
    }
}

/// What the automatic skip does: nothing when no song plays, skip now when
/// nothing is left, else wait for the rest and then skip (if less than a
/// second was left) or look again.
pub fn autoskip_action(is_playing: bool, duration: u128, duration_gone: u128) -> (a: AutoskipAction)
    requires
        is_playing ==> duration_gone <= duration,
    ensures
        a == autoskip_spec(is_playing, duration, duration_gone),
{
    if is_playing {
        let time_left = duration - duration_gone;
        if time_left == 0 {
            AutoskipAction::SkipNow
        } else {
            let then = if time_left < NANOS_PER_SECOND {
                AutoskipFollowUp::QueueNext
            } else {
                AutoskipFollowUp::UpdateAutoskip
            };
            AutoskipAction::Wait { time_left, then }
        }
    } else {
        AutoskipAction::Nothing
    }
}

/// How much of a song has been played, from the player's position: never
/// more than the song's length.
pub fn song_duration_gone(position: u128, song_duration: u128) -> (gone: u128)
    ensures
        gone == gone_spec(position, song_duration),
        gone <= song_duration,
{
    if position >= song_duration {
        song_duration
    } else {
        position
    }
}

/// How much of a song is left, from the player's position: nothing once the
/// position is past the end.
pub fn time_left(position: u128, song_duration: u128) -> (left: u128)
    ensures
        left == left_spec(position, song_duration),
{
    if position >= song_duration {
        0
    } else {
        song_duration - position
    }
}

/// For a playing song, the automatic skip based on the played part waits for
/// exactly what is left of the song, and skips at once when nothing is left.
pub proof fn lemma_autoskip_waits_for_rest(position: u128, duration: u128)
    ensures
        autoskip_spec(true, duration, gone_spec(position, duration)) == (if left_spec(position, duration) == 0 {
            AutoskipAction::SkipNow
        } else {
            AutoskipAction::Wait {
                time_left: left_spec(position, duration),
                then: follow_up(left_spec(position, duration)),
            }
        }),
{
}

} // verus!
