//! The commands a caller gives, and how a burst of them is coalesced.

use crate::replaygain::ReplayGainMode;
use vstd::prelude::*;

verus! {

/// Where to seek to, in microseconds.
#[derive(Clone, Copy, Debug, PartialEq, Eq, Structural)]
pub enum SeekPosition {
    Absolute(i64),
    /// Counted from the current position.
    Relative(i64),
}

/// A request to the worker.
#[derive(Debug, PartialEq)]
pub enum VoxCommand {
    Play(String),
    QueueNext(String),
    ClearNext,
    Seek(SeekPosition),
    Pause,
    Resume,
    ReplayGain(ReplayGainMode),
    Stop,
    Shutdown,
}

/// Whether starting a track should decode-and-fill the ring immediately.
#[derive(Clone, Copy, Debug, PartialEq, Eq, Structural)]
pub enum Prefill {
    /// Track start with no pending seek: fill so playback begins at once.
    Now,
    /// A coalesced seek will drain and prefill at its target; filling now is
    /// wasted decode that gets thrown away.
    Defer,
}

/// What [`seek_prefill`] decides.
pub open spec fn prefill_for(pending_seek: Option<i64>) -> Prefill {
    if pending_seek is Some {
        Prefill::Defer
    } else {
        Prefill::Now
    }
}

/// `Now` unless a seek is coalesced in the same batch; then `Defer`, so the seek
/// drains and prefills at its target instead of decoding from track start.
pub fn seek_prefill(pending_seek: &Option<i64>) -> (prefill: Prefill)
    ensures
        prefill == prefill_for(*pending_seek),
{
    match pending_seek {
        Some(_) => Prefill::Defer,
        None => Prefill::Now,
    }
}

/// `base` moved by `delta`, stopping at the ends of the range.
pub open spec fn moved(base: i64, delta: i64) -> i64 {
    let sum = base + delta;
    if sum > i64::MAX {
        i64::MAX
    } else if sum < i64::MIN {
        i64::MIN
    } else {
        sum as i64
    }
}

/// See [`moved`].
fn shift(base: i64, delta: i64) -> (sum: i64)
    ensures
        sum == moved(base, delta),
{
    match base.checked_add(delta) {
        Some(sum) => sum,
        None => if delta > 0 {
            i64::MAX
        } else {
            i64::MIN
        },
    }
}

impl SeekPosition {
    /// The position meant, seen from `base`.
    pub open spec fn from_base(self, base: i64) -> i64 {
        match self {
            SeekPosition::Absolute(to) => to,
            SeekPosition::Relative(by) => moved(base, by),
        }
    }

    /// See [`SeekPosition::from_base`].
    pub fn target(self, base: i64) -> (to: i64)
        ensures
            to == self.from_base(base),
    {
        match self {
            SeekPosition::Absolute(to) => to,
            SeekPosition::Relative(by) => shift(base, by),
        }
    }
}

/// What a burst of commands comes down to so far.
#[derive(Debug, PartialEq)]
pub struct Batch {
    pub play: Option<String>,
    pub seek: Option<i64>,
    pub next: Option<String>,
}

/// A command that can be merged with others of a burst. Any other has to take
/// effect in its place.
pub open spec fn mergeable(command: VoxCommand) -> bool {
    command is Play || command is Seek || command is QueueNext
}

impl Batch {
    /// A burst without commands.
    pub open spec fn none() -> Batch {
        Batch { play: None, seek: None, next: None }
    }

    /// Where a seek that comes next starts from: the target of the seek before it,
    /// else the start of the track about to play, else the current position.
    pub open spec fn base(self, elapsed: i64) -> i64 {
        match self.seek {
            Some(earlier) => earlier,
            None => if self.play is Some {
                0
            } else {
                elapsed
            },
        }
    }

    /// The burst with one more command: a play drops what was to become of the
    /// track it replaces and what was to follow it, a seek starts from where the
    /// commands before it lead, and a next replaces the one before it.
    pub open spec fn with(self, command: VoxCommand, elapsed: i64) -> Batch {
        match command {
            VoxCommand::Play(path) => Batch { play: Some(path), seek: None, next: None },
            VoxCommand::Seek(to) => Batch {
                seek: Some(to.from_base(self.base(elapsed))),
                ..self
            },
            VoxCommand::QueueNext(path) => Batch { next: Some(path), ..self },
            _ => self,
        }
    }

    /// An empty batch.
    pub fn new() -> (batch: Self)
        ensures
            batch == Batch::none(),
    {
        Batch { play: None, seek: None, next: None }
    }

    /// Merges `command` into the batch, or hands it back where it cannot be
    /// merged. `elapsed` is the current position in microseconds.
    pub fn merge(&mut self, command: VoxCommand, elapsed: i64) -> (unmerged: Option<VoxCommand>)
        ensures
            *final(self) == old(self).with(command, elapsed),
            unmerged == if mergeable(command) {
                None
            } else {
                Some(command)
            },
    {
        match command {
            VoxCommand::Play(path) => {
                self.next = None;
                self.seek = None;
                self.play = Some(path);
                None
            },
            VoxCommand::Seek(to) => {
                let base: i64 = match self.seek {
                    Some(earlier) => earlier,
                    None => if self.play.is_some() {
                        0
                    } else {
                        elapsed
                    },
                };
                self.seek = Some(to.target(base));
                None
            },
            VoxCommand::QueueNext(path) => {
                self.next = Some(path);
                None
            },
            other => Some(other),
        }
    }
}

/// What a burst of commands comes down to.
pub open spec fn merged(commands: Seq<VoxCommand>, elapsed: i64) -> Batch
    decreases commands.len(),
{
    if commands.len() == 0 {
        Batch::none()
    } else {
        merged(commands.drop_last(), elapsed).with(commands.last(), elapsed)
    }
}

/// Of several plays in a burst only the last one counts.
pub proof fn last_play_wins(commands: Seq<VoxCommand>, elapsed: i64, i: int, path: String)
    requires
        0 <= i < commands.len(),
        commands[i] == VoxCommand::Play(path),
        forall|j: int| i < j < commands.len() ==> commands[j] !is Play,
    ensures
        merged(commands, elapsed).play == Some(path),
    decreases commands.len(),
{
    if i < commands.len() - 1 {
        assert(commands.last() !is Play);
        last_play_wins(commands.drop_last(), elapsed, i, path);
    }
}

/// A track primed before a play in the same burst is discarded.
pub proof fn play_discards_earlier_next(commands: Seq<VoxCommand>, elapsed: i64, i: int)
    requires
        0 <= i < commands.len(),
        commands[i] is Play,
        forall|j: int| i < j < commands.len() ==> commands[j] !is QueueNext,
    ensures
        merged(commands, elapsed).next is None,
    decreases commands.len(),
{
    if i < commands.len() - 1 {
        assert(commands.last() !is QueueNext);
        play_discards_earlier_next(commands.drop_last(), elapsed, i);
    }
}

/// Of several primings in a burst, each overwrites the one before it: only the
/// last one counts, unless a play comes after it.
pub proof fn last_next_wins(commands: Seq<VoxCommand>, elapsed: i64, i: int, path: String)
    requires
        0 <= i < commands.len(),
        commands[i] == VoxCommand::QueueNext(path),
        forall|j: int|
            i < j < commands.len() ==> commands[j] !is Play && commands[j] !is QueueNext,
    ensures
        merged(commands, elapsed).next == Some(path),
    decreases commands.len(),
{
    if i < commands.len() - 1 {
        assert(commands.last() !is Play && commands.last() !is QueueNext);
        last_next_wins(commands.drop_last(), elapsed, i, path);
    }
}

/// A seek before a play in the same burst was meant for the track that the play
/// replaces: the new track starts at its beginning unless a seek comes after the
/// play.
pub proof fn play_drops_earlier_seek(commands: Seq<VoxCommand>, elapsed: i64, i: int)
    requires
        0 <= i < commands.len(),
        commands[i] is Play,
        forall|j: int| i < j < commands.len() ==> commands[j] !is Seek,
    ensures
        merged(commands, elapsed).seek is None,
        prefill_for(merged(commands, elapsed).seek) == Prefill::Now,
    decreases commands.len(),
{
    if i < commands.len() - 1 {
        assert(commands.last() !is Seek);
        play_drops_earlier_seek(commands.drop_last(), elapsed, i);
    }
}

/// An absolute seek makes every seek before it in the burst irrelevant, unless a
/// play comes after it.
pub proof fn last_absolute_seek_wins(commands: Seq<VoxCommand>, elapsed: i64, i: int, to: i64)
    requires
        0 <= i < commands.len(),
        commands[i] == VoxCommand::Seek(SeekPosition::Absolute(to)),
        forall|j: int|
            i < j < commands.len() ==> commands[j] !is Seek && commands[j] !is Play,
    ensures
        merged(commands, elapsed).seek == Some(to),
    decreases commands.len(),
{
    if i < commands.len() - 1 {
        assert(commands.last() !is Seek && commands.last() !is Play);
        last_absolute_seek_wins(commands.drop_last(), elapsed, i, to);
    }
}

/// The distance that the relative seeks among `commands` since the last play
/// cover together.
pub open spec fn distance(commands: Seq<VoxCommand>) -> int
    decreases commands.len(),
{
    if commands.len() == 0 {
        0
    } else {
        match commands.last() {
            VoxCommand::Play(_) => 0,
            VoxCommand::Seek(SeekPosition::Relative(by)) => distance(commands.drop_last()) + by,
            _ => distance(commands.drop_last()),
        }
    }
}

/// Where the seeks among `commands` start from: the start of the track that the
/// last play is for, or without a play the current position.
pub open spec fn origin(commands: Seq<VoxCommand>, elapsed: i64) -> i64
    decreases commands.len(),
{
    if commands.len() == 0 {
        elapsed
    } else if commands.last() is Play {
        0
    } else {
        origin(commands.drop_last(), elapsed)
    }
}

/// Relative seeks in a burst add up from the last play on, as long as no position
/// on the way leaves the range.
pub proof fn relative_seeks_add_up(commands: Seq<VoxCommand>, elapsed: i64)
    requires
        forall|i: int|
            0 <= i < commands.len() && #[trigger] commands[i] is Seek
                ==> commands[i]->Seek_0 is Relative,
        forall|n: int|
            0 <= n <= commands.len() ==> i64::MIN <= origin(commands.take(n), elapsed)
                + #[trigger] distance(commands.take(n)) <= i64::MAX,
    ensures
        match merged(commands, elapsed).seek {
            Some(to) => to == origin(commands, elapsed) + distance(commands),
            None => distance(commands) == 0,
        },
        origin(commands, elapsed) == (if merged(commands, elapsed).play is Some {
            0
        } else {
            elapsed
        }),
    decreases commands.len(),
{
    assert(commands.take(commands.len() as int) =~= commands);
    assert(i64::MIN <= origin(commands, elapsed) + distance(commands) <= i64::MAX);
    if commands.len() > 0 {
        let earlier = commands.drop_last();
        assert(commands.last() == commands[commands.len() - 1]);
        assert forall|n: int| 0 <= n <= earlier.len() implies i64::MIN <= origin(
            earlier.take(n),
            elapsed,
        ) + #[trigger] distance(earlier.take(n)) <= i64::MAX by {
            assert(earlier.take(n) =~= commands.take(n));
        }
        relative_seeks_add_up(earlier, elapsed);
    }
}

/// Where a run of seeks leads, each counted from where the one before it leads.
pub open spec fn folded(commands: Seq<VoxCommand>, elapsed: i64) -> i64
    decreases commands.len(),
{
    if commands.len() == 0 {
        elapsed
    } else {
        match commands.last() {
            VoxCommand::Seek(to) => to.from_base(folded(commands.drop_last(), elapsed)),
            _ => folded(commands.drop_last(), elapsed),
        }
    }
}

/// A burst of seeks comes down to one seek, to where they lead together.
pub proof fn seeks_merge_into_one(commands: Seq<VoxCommand>, elapsed: i64)
    requires
        commands.len() > 0,
        forall|i: int| 0 <= i < commands.len() ==> #[trigger] commands[i] is Seek,
    ensures
        merged(commands, elapsed) == (Batch {
            play: None,
            seek: Some(folded(commands, elapsed)),
            next: None,
        }),
    decreases commands.len(),
{
    assert(commands.last() == commands[commands.len() - 1]);
    let earlier = commands.drop_last();
    if earlier.len() > 0 {
        assert forall|i: int| 0 <= i < earlier.len() implies #[trigger] earlier[i] is Seek by {
            assert(earlier[i] == commands[i]);
        }
        seeks_merge_into_one(earlier, elapsed);
    } else {
        assert(merged(earlier, elapsed) == Batch::none());
        assert(folded(earlier, elapsed) == elapsed);
    }
}

/// A relative position is that far from where it is counted, and stops at the ends
/// of the range where that lies beyond them; an absolute one is where it is,
/// wherever it is seen from.
pub proof fn positions_are_seen_from_their_base(base: i64, by: i64, to: i64)
    ensures
        i64::MIN <= base + by <= i64::MAX ==> SeekPosition::Relative(by).from_base(base) == base
            + by,
        base + by > i64::MAX ==> SeekPosition::Relative(by).from_base(base) == i64::MAX,
        base + by < i64::MIN ==> SeekPosition::Relative(by).from_base(base) == i64::MIN,
        SeekPosition::Absolute(to).from_base(base) == to,
{
}

/// A seek that is given after a play starts from the beginning of the new track,
/// one after another seek from where that leads, and any other from the current
/// position.
pub proof fn seeks_start_from_where_the_burst_leads(
    batch: Batch,
    elapsed: i64,
    by: i64,
    path: String,
    to: i64,
)
    requires
        i64::MIN <= elapsed + by <= i64::MAX,
        i64::MIN <= to + by <= i64::MAX,
    ensures
        ({
            let step = VoxCommand::Seek(SeekPosition::Relative(by));
            let jump = VoxCommand::Seek(SeekPosition::Absolute(to));
            &&& batch.with(VoxCommand::Play(path), elapsed).with(step, elapsed).seek == Some(by)
            &&& batch.with(jump, elapsed).with(step, elapsed).seek == Some((to + by) as i64)
            &&& batch.play is None && batch.seek is None ==> batch.with(step, elapsed).seek
                == Some((elapsed + by) as i64)
            &&& batch.with(jump, elapsed).seek == Some(to)
            &&& batch.with(step, elapsed).play == batch.play
            &&& batch.with(step, elapsed).next == batch.next
        }),
{
}

/// Filling the ring at once is put off exactly where a seek is waiting.
pub proof fn only_a_waiting_seek_puts_off_filling(target: i64)
    ensures
        prefill_for(None) == Prefill::Now,
        prefill_for(Some(target)) == Prefill::Defer,
{
}

} // verus!
