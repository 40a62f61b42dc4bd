//! Audio commands, and what the audio worker does with each of them.

use vstd::prelude::*;

verus! {

/// One of the configured sound resources. The core treats them as opaque
/// handles; whoever plays them knows where the audio data lives.
#[derive(Clone, Copy, Debug, PartialEq, Eq, Structural)]
pub enum SoundId {
    /// The cue for one more point.
    Increment,
    /// Played once when bonus mode starts.
    BonusIntro,
    /// Repeated for as long as bonus mode lasts.
    BonusLoop,
}

/// A playback directive on its way to the audio worker.
#[derive(Clone, Debug, PartialEq, Eq)]
pub enum AudioCommand {
    /// Play these once, one after the other.
    Play(Vec<SoundId>),
    /// Play `intro` once, then `looping` over and over until the next
    /// command arrives.
    PlayAndLoop { intro: SoundId, looping: SoundId },
    /// Halt and clear whatever is playing or queued.
    Stop,
}

/// The mathematical content of an [`AudioCommand`].
pub enum CommandView {
    Play(Seq<SoundId>),
    PlayAndLoop { intro: SoundId, looping: SoundId },
    Stop,
}

impl View for AudioCommand {
    type V = CommandView;

    open spec fn view(&self) -> CommandView {
        match *self {
            AudioCommand::Play(sounds) => CommandView::Play(sounds@),
            AudioCommand::PlayAndLoop { intro, looping } => CommandView::PlayAndLoop {
                intro,
                looping,
            },
            AudioCommand::Stop => CommandView::Stop,
        }
    }
}

/// One operation on the playback sink that the audio worker owns. A queueing
/// operation whose sound cannot be found or decoded is skipped, and the
/// operations after it still run.
#[derive(Clone, Copy, Debug, PartialEq, Eq, Structural)]
pub enum SinkOp {
    /// Stop the current sound and drop everything queued.
    Halt,
    /// Queue a sound to be played once.
    QueueOnce(SoundId),
    /// Decode a sound fully, then queue the decoded samples to repeat
    /// without a gap until the sink is halted.
    QueueLooped(SoundId),
    /// Let the sink play what is queued.
    Resume,
}

/// The sink operations that one command stands for, in order. Every command
/// begins by halting, so a command always replaces what came before it.
pub open spec fn playback_plan(command: CommandView) -> Seq<SinkOp> {
    match command {
        CommandView::Play(sounds) => seq![SinkOp::Halt] + sounds.map_values(
            |sound: SoundId| SinkOp::QueueOnce(sound),
        ) + seq![SinkOp::Resume],
        CommandView::PlayAndLoop { intro, looping } => seq![
            SinkOp::Halt,
            SinkOp::QueueOnce(intro),
            SinkOp::QueueLooped(looping),
            SinkOp::Resume,
        ],
        CommandView::Stop => seq![SinkOp::Halt],
    }
}

/// Turns one command into the operations that the audio worker performs on
/// its sink before it turns to the next command.
pub fn plan_playback(command: &AudioCommand) -> (ops: Vec<SinkOp>)
    ensures
        ops@ == playback_plan(command@),
{
    let mut ops: Vec<SinkOp> = Vec::new();
    ops.push(SinkOp::Halt);
    match command {
        AudioCommand::Play(sounds) => {
            let mut i: usize = 0;
            while i < sounds.len()
                invariant
                    i <= sounds.len(),
                    ops@ == seq![SinkOp::Halt] + sounds@.take(i as int).map_values(
                        |sound: SoundId| SinkOp::QueueOnce(sound),
                    ),
                decreases sounds.len() - i,
            {
                ops.push(SinkOp::QueueOnce(sounds[i]));
                i += 1;
            }
            assert(sounds@.take(i as int) == sounds@);
            ops.push(SinkOp::Resume);
        },
        AudioCommand::PlayAndLoop { intro, looping } => {
            ops.push(SinkOp::QueueOnce(*intro));
            ops.push(SinkOp::QueueLooped(*looping));
            ops.push(SinkOp::Resume);
        },
        AudioCommand::Stop => {},
    }
    ops
}

/// What the sink holds: sounds waiting to be played once, or over and over.
pub enum Track {
    Once(SoundId),
    Looped(SoundId),
}

/// What the sink holds after one operation. `resolves` tells which sounds
/// can be found and decoded; one that cannot is passed over.
pub open spec fn sink_after_op(
    queue: Seq<Track>,
    op: SinkOp,
    resolves: spec_fn(SoundId) -> bool,
) -> Seq<Track> {
    match op {
        SinkOp::Halt => seq![],
        SinkOp::QueueOnce(sound) => if resolves(sound) {
            queue.push(Track::Once(sound))
        } else {
            queue
        },
        SinkOp::QueueLooped(sound) => if resolves(sound) {
            queue.push(Track::Looped(sound))
        } else {
            queue
        },
        SinkOp::Resume => queue,
    }
}

/// What the sink holds after a run of operations.
pub open spec fn sink_after(
    queue: Seq<Track>,
    ops: Seq<SinkOp>,
    resolves: spec_fn(SoundId) -> bool,
) -> Seq<Track>
    decreases ops.len(),
{
    if ops.len() == 0 {
        queue
    } else {
        sink_after_op(sink_after(queue, ops.drop_last(), resolves), ops.last(), resolves)
    }
}

/// The tracks a command asks for, before any is passed over.
pub open spec fn tracks_of(command: CommandView) -> Seq<Track> {
    match command {
        CommandView::Play(sounds) => sounds.map_values(|sound: SoundId| Track::Once(sound)),
        CommandView::PlayAndLoop { intro, looping } => seq![
            Track::Once(intro),
            Track::Looped(looping),
        ],
        CommandView::Stop => seq![],
    }
}

/// Whether a track's sound can be found and decoded.
pub open spec fn track_resolves(track: Track, resolves: spec_fn(SoundId) -> bool) -> bool {
    match track {
        Track::Once(sound) => resolves(sound),
        Track::Looped(sound) => resolves(sound),
    }
}

/// What the sink holds after queueing the first `n` sounds of a list, each
/// to be played once.
proof fn lemma_queue_once(
    sounds: Seq<SoundId>,
    n: int,
    resolves: spec_fn(SoundId) -> bool,
)
    requires
        0 <= n <= sounds.len(),
    ensures
        sink_after(
            Seq::<Track>::empty(),
            seq![SinkOp::Halt] + sounds.take(n).map_values(
                |sound: SoundId| SinkOp::QueueOnce(sound),
            ),
            resolves,
        ) == sounds.take(n).map_values(|sound: SoundId| Track::Once(sound)).filter(
            |track: Track| track_resolves(track, resolves),
        ),
    decreases n,
{
    let queue_op = |sound: SoundId| SinkOp::QueueOnce(sound);
    let once = |sound: SoundId| Track::Once(sound);
    let keep = |track: Track| track_resolves(track, resolves);
    let ops = seq![SinkOp::Halt] + sounds.take(n).map_values(queue_op);
    let tracks = sounds.take(n).map_values(once);
    reveal(Seq::filter);
    if n == 0 {
        assert(ops.drop_last() =~= Seq::<SinkOp>::empty());
        assert(tracks =~= Seq::<Track>::empty());
    } else {
        lemma_queue_once(sounds, n - 1, resolves);
        assert(ops.drop_last() =~= seq![SinkOp::Halt] + sounds.take(n - 1).map_values(queue_op));
        assert(ops.last() == SinkOp::QueueOnce(sounds[n - 1]));
        assert(tracks.drop_last() =~= sounds.take(n - 1).map_values(once));
        assert(tracks.last() == Track::Once(sounds[n - 1]));
    }
}

/// Every command replaces what came before it: whatever the sink held, after
/// the command's operations it holds the command's own tracks, in order, less
/// those whose sound could not be found or decoded. After `Stop` it holds
/// nothing.
pub proof fn lemma_command_replaces_playback(
    queue: Seq<Track>,
    command: CommandView,
    resolves: spec_fn(SoundId) -> bool,
)
    ensures
        sink_after(queue, playback_plan(command), resolves) == tracks_of(command).filter(
            |track: Track| track_resolves(track, resolves),
        ),
        command is Stop ==> sink_after(queue, playback_plan(command), resolves).len() == 0,
{
    let keep = |track: Track| track_resolves(track, resolves);
    let ops = playback_plan(command);
    let none = Seq::<Track>::empty();
    reveal(Seq::filter);
    match command {
        CommandView::Play(sounds) => {
            let queued = seq![SinkOp::Halt] + sounds.map_values(
                |sound: SoundId| SinkOp::QueueOnce(sound),
            );
            assert(ops.drop_last() =~= queued);
            assert(sounds.take(sounds.len() as int) =~= sounds);
            lemma_queue_once(sounds, sounds.len() as int, resolves);
            lemma_halt_forgets(queue, sounds.map_values(|sound: SoundId| SinkOp::QueueOnce(sound)), resolves);
        },
        CommandView::PlayAndLoop { intro, looping } => {
            let ops3 = ops.drop_last();
            let ops2 = ops3.drop_last();
            let ops1 = ops2.drop_last();
            assert(ops3 =~= seq![SinkOp::Halt, SinkOp::QueueOnce(intro), SinkOp::QueueLooped(looping)]);
            assert(ops2 =~= seq![SinkOp::Halt, SinkOp::QueueOnce(intro)]);
            assert(ops1 =~= seq![SinkOp::Halt]);
            assert(ops1.drop_last() =~= Seq::<SinkOp>::empty());
            assert(sink_after(queue, ops1, resolves) =~= none);
            let tracks = tracks_of(command);
            let first = tracks.drop_last();
            assert(first =~= seq![Track::Once(intro)]);
            assert(first.drop_last() =~= none);
            assert(first.drop_last().filter(keep) =~= none);
            assert(sink_after(queue, ops2, resolves) =~= first.filter(keep));
            assert(sink_after(queue, ops3, resolves) =~= tracks.filter(keep));
        },
        CommandView::Stop => {
            assert(ops.drop_last() =~= Seq::<SinkOp>::empty());
            assert(tracks_of(command).filter(keep) =~= none);
        },
    }
}

/// A run of operations that begins with a halt leaves the same in the sink
/// whatever the sink held before.
proof fn lemma_halt_forgets(
    queue: Seq<Track>,
    rest: Seq<SinkOp>,
    resolves: spec_fn(SoundId) -> bool,
)
    ensures
        sink_after(queue, seq![SinkOp::Halt] + rest, resolves) == sink_after(
            Seq::<Track>::empty(),
            seq![SinkOp::Halt] + rest,
            resolves,
        ),
    decreases rest.len(),
{
    let ops = seq![SinkOp::Halt] + rest;
    if rest.len() == 0 {
        assert(ops.drop_last() =~= Seq::<SinkOp>::empty());
    } else {
        lemma_halt_forgets(queue, rest.drop_last(), resolves);
        assert(ops.drop_last() =~= seq![SinkOp::Halt] + rest.drop_last());
    }
}

} // verus!
