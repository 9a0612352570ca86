//! What holds of the feeder as a whole.
#![allow(unused_imports)]
use vstd::prelude::*;

use crate::audio::{self, AudioFormat};
use crate::control::Happening;
use crate::error::{ErrorView, StatusCode};
use crate::state::{Event, FeederState, TransitionDecision};

verus! {

/// The state after a course of happenings, each with whether there was a voice
/// manager at the time.
pub open spec fn course<C, T>(
    start: FeederState<C, T>,
    audio_file: Seq<char>,
    happenings: Seq<(bool, Happening<C, T>)>,
) -> FeederState<C, T>
    decreases happenings.len(),
{
    if happenings.len() == 0 {
        start
    } else {
        let (ready, happening) = happenings.last();
        course(start, audio_file, happenings.drop_last()).after(ready, audio_file, happening)
    }
}

/// Where there is a voice manager and the audio file exists, an endpoint does
/// what the transition policy says: it answers what the policy rejects with,
/// and changes nothing; it answers 200 to a no-op, and changes nothing; and
/// where the policy proceeds, only the voice library can fail it.
pub proof fn law_endpoints_follow_policy<C, T>(
    state: FeederState<C, T>,
    audio_file: Seq<char>,
    event: Event,
    happening: Happening<C, T>,
)
    requires
        match event {
            Event::Join => happening is Join,
            Event::Play => happening is Play && happening->file_exists,
            Event::Stop => happening is Stop,
            Event::Leave => happening is Leave,
        },
    ensures
        match state.policy(event) {
            TransitionDecision::Reject(error) => {
                &&& state.reply(true, audio_file, happening) == Some(
                    Err::<StatusCode, ErrorView>(error@),
                )
                &&& state.after(true, audio_file, happening) == state
            },
            TransitionDecision::Noop => {
                &&& state.reply(true, audio_file, happening) == Some(
                    Ok::<StatusCode, ErrorView>(StatusCode::OK),
                )
                &&& state.after(true, audio_file, happening) == state
            },
            TransitionDecision::Proceed => {
                let next = state.after(true, audio_file, happening);
                ||| state.reply(true, audio_file, happening) == Some(
                    Ok::<StatusCode, ErrorView>(StatusCode::OK),
                ) && match event {
                    Event::Join => next is Joined,
                    Event::Play => next is Playing,
                    Event::Stop => next is Joined,
                    Event::Leave => next is Idle,
                }
                ||| state.reply(true, audio_file, happening) matches Some(Err(error))
                    && error is Songbird
            },
        },
{
}

/// When each error is answered: if and only if the request, the state, the
/// voice manager and the audio file are as listed here.
pub proof fn law_when_each_error<C, T>(
    state: FeederState<C, T>,
    ready: bool,
    audio_file: Seq<char>,
    happening: Happening<C, T>,
)
    ensures
        ({
            let reply = state.reply(ready, audio_file, happening);
            let answers = |error: ErrorView| reply == Some(Err::<StatusCode, ErrorView>(error));
            &&& answers(ErrorView::NotInVoice) <==> (happening matches Happening::Play {
                file_exists,
                ..
            } && file_exists && state is Idle)
            &&& answers(ErrorView::AlreadyPlaying) <==> (happening matches Happening::Play {
                file_exists,
                ..
            } && file_exists && state is Playing)
            &&& forall|path: Seq<char>| #[trigger]
                answers(ErrorView::AudioFileMissing(path)) <==> path == audio_file && (
                happening matches Happening::Play { file_exists, .. } && !file_exists)
            &&& answers(ErrorView::AlreadyJoined) <==> (happening is Join && ready
                && state !is Idle)
            &&& answers(ErrorView::NotReady) <==> (!ready && (happening is Join || (
            happening is Leave && state !is Idle)))
            &&& forall|message: Seq<char>| #[trigger]
                answers(ErrorView::Songbird(message)) <==> {
                    ||| ready && state is Idle && (happening matches Happening::Join {
                        call: Err(text),
                        ..
                    } && text@ == message)
                    ||| ready && state !is Idle && (happening matches Happening::Leave {
                        outcome: Err(text),
                        ..
                    } && text@ == message)
                }
        }),
{
}

/// A request that is answered with an error changes nothing, unless it is a
/// `/leave` that the voice library failed: that one leaves the feeder idle.
pub proof fn law_error_changes_nothing<C, T>(
    state: FeederState<C, T>,
    ready: bool,
    audio_file: Seq<char>,
    happening: Happening<C, T>,
)
    requires
        state.reply(ready, audio_file, happening) matches Some(reply) && reply is Err,
    ensures
        state.after(ready, audio_file, happening) == if happening is Leave && ready {
            FeederState::Idle
        } else {
            state
        },
{
}

/// A feeder that plays is in a voice channel.
pub proof fn law_playing_is_in_voice<C, T>(state: FeederState<C, T>)
    ensures
        state.playing() ==> state.in_voice(),
{
}

/// The only way into `Joined` from `Idle` is a `/join` that connects, and the
/// only way into `Playing` is a `/play` in `Joined`, on the call that was
/// joined.
pub proof fn law_ways_in<C, T>(
    state: FeederState<C, T>,
    ready: bool,
    audio_file: Seq<char>,
    happening: Happening<C, T>,
)
    ensures
        ({
            let next = state.after(ready, audio_file, happening);
            &&& !state.in_voice() && next.in_voice() ==> {
                &&& next is Joined
                &&& ready
                &&& happening matches Happening::Join { req, call: Ok(call) }
                &&& next == FeederState::<C, T>::Joined { guild: req.guild_id, call }
            }
            &&& !state.playing() && next.playing() ==> {
                &&& state matches FeederState::Joined { guild, call }
                &&& happening matches Happening::Play { file_exists, track }
                &&& file_exists
                &&& next == FeederState::Playing { guild, call, track }
            }
        }),
{
}

/// Until a `/play` request is accepted, the feeder is silent, whatever else
/// happens to it: a feeder that has joined does not play of its own accord.
pub proof fn law_silent_until_play<C, T>(
    start: FeederState<C, T>,
    audio_file: Seq<char>,
    happenings: Seq<(bool, Happening<C, T>)>,
)
    requires
        !start.playing(),
        forall|i: int|
            0 <= i < happenings.len() ==> ((#[trigger] happenings[i]).1 matches Happening::Play {
                file_exists,
                ..
            } ==> course(start, audio_file, happenings.take(i)).play_refusal(
                audio_file,
                file_exists,
            ) is Some),
    ensures
        !course(start, audio_file, happenings).playing(),
    decreases happenings.len(),
{
    if happenings.len() > 0 {
        let before = happenings.drop_last();
        assert(happenings.last() == happenings[happenings.len() - 1]);
        assert(happenings.take(happenings.len() - 1) =~= before);
        assert forall|i: int| 0 <= i < before.len() implies ((
        #[trigger] before[i]).1 matches Happening::Play { file_exists, .. } ==> course(
            start,
            audio_file,
            before.take(i),
        ).play_refusal(audio_file, file_exists) is Some) by {
            assert(before[i] == happenings[i]);
            assert(before.take(i) =~= happenings.take(i));
        }
        law_silent_until_play(start, audio_file, before);
    }
}

/// In whatever state a feeder gets to from `Idle`, the guild that it is in is
/// not zero, as long as each `/join` that is not refused names a guild and a
/// channel.
pub proof fn law_course_is_well_formed<C, T>(
    audio_file: Seq<char>,
    happenings: Seq<(bool, Happening<C, T>)>,
)
    requires
        forall|i: int|
            0 <= i < happenings.len() && course(
                FeederState::<C, T>::Idle,
                audio_file,
                happenings.take(i),
            ).join_refusal(happenings[i].0) is None ==> (
            #[trigger] happenings[i]).1.well_formed(),
    ensures
        course(FeederState::<C, T>::Idle, audio_file, happenings).well_formed(),
    decreases happenings.len(),
{
    if happenings.len() > 0 {
        let before = happenings.drop_last();
        assert(happenings.last() == happenings[happenings.len() - 1]);
        assert(happenings.take(happenings.len() - 1) =~= before);
        assert forall|i: int|
            0 <= i < before.len() && course(
                FeederState::<C, T>::Idle,
                audio_file,
                before.take(i),
            ).join_refusal(before[i].0) is None implies (#[trigger] before[i]).1.well_formed() by {
            assert(before[i] == happenings[i]);
            assert(before.take(i) =~= happenings.take(i));
        }
        law_course_is_well_formed(audio_file, before);
    }
}

/// A `/join` that connects puts the feeder into the guild that it names. A
/// second `/join` is then refused as a conflict, and changes nothing.
pub proof fn law_second_join_conflicts<C, T>(
    audio_file: Seq<char>,
    first: Happening<C, T>,
    second: Happening<C, T>,
)
    requires
        first matches Happening::Join { call, .. } && call is Ok,
        second is Join,
    ensures
        ({
            let idle = FeederState::<C, T>::Idle;
            let joined = idle.after(true, audio_file, first);
            &&& idle.reply(true, audio_file, first) == Some(
                Ok::<StatusCode, ErrorView>(StatusCode::OK),
            )
            &&& joined == FeederState::<C, T>::Joined {
                guild: first->req.guild_id,
                call: first->call->Ok_0,
            }
            &&& joined.reply(true, audio_file, second) == Some(
                Err::<StatusCode, ErrorView>(ErrorView::AlreadyJoined),
            )
            &&& ErrorView::AlreadyJoined.status() == StatusCode::CONFLICT
            &&& joined.after(true, audio_file, second) == joined
        }),
{
}

/// A `/play` in `Joined` starts the track. A second `/play` is then refused as
/// a conflict, and the first track plays on.
pub proof fn law_second_play_conflicts<C, T>(
    joined: FeederState<C, T>,
    ready: bool,
    audio_file: Seq<char>,
    first: T,
    second: T,
)
    requires
        joined is Joined,
    ensures
        ({
            let play = |track: T| Happening::<C, T>::Play { file_exists: true, track };
            let playing = joined.after(ready, audio_file, play(first));
            &&& joined.reply(ready, audio_file, play(first)) == Some(
                Ok::<StatusCode, ErrorView>(StatusCode::OK),
            )
            &&& playing.current_track() == Some(first)
            &&& playing.reply(ready, audio_file, play(second)) == Some(
                Err::<StatusCode, ErrorView>(ErrorView::AlreadyPlaying),
            )
            &&& ErrorView::AlreadyPlaying.status() == StatusCode::CONFLICT
            &&& playing.after(ready, audio_file, play(second)) == playing
        }),
{
}

/// `/stop`, or the end of the track, undoes `/play`: the feeder is back where
/// it was, in the same call, and can play again.
pub proof fn law_stop_undoes_play<C, T>(
    joined: FeederState<C, T>,
    ready: bool,
    audio_file: Seq<char>,
    track: T,
)
    requires
        joined is Joined,
    ensures
        ({
            let playing = joined.after(
                ready,
                audio_file,
                Happening::Play { file_exists: true, track },
            );
            &&& playing is Playing
            &&& playing.after(ready, audio_file, Happening::Stop) == joined
            &&& playing.after(ready, audio_file, Happening::TrackEnded) == joined
        }),
{
}

/// `/leave` undoes `/join`, whether or not something is playing by then.
pub proof fn law_leave_undoes_join<C, T>(
    audio_file: Seq<char>,
    join: Happening<C, T>,
    track: T,
    stop: Result<(), String>,
    outcome: Result<(), String>,
)
    requires
        join is Join,
    ensures
        ({
            let idle = FeederState::<C, T>::Idle;
            let joined = idle.after(true, audio_file, join);
            let playing = joined.after(
                true,
                audio_file,
                Happening::Play { file_exists: true, track },
            );
            &&& joined.after(true, audio_file, Happening::Leave { stop, outcome }) == idle
            &&& playing.after(true, audio_file, Happening::Leave { stop, outcome }) == idle
        }),
{
}

/// `/leave` stops the track that is playing: it leaves the same state, and is
/// answered the same, as a `/leave` after a `/stop`.
pub proof fn law_leave_implies_stop<C, T>(
    state: FeederState<C, T>,
    ready: bool,
    audio_file: Seq<char>,
    stop: Result<(), String>,
    outcome: Result<(), String>,
)
    requires
        state.leave_refusal(ready) is None,
    ensures
        ({
            let leave = Happening::<C, T>::Leave { stop, outcome };
            let stopped = state.after(ready, audio_file, Happening::Stop);
            &&& state.after(ready, audio_file, leave) == stopped.after(ready, audio_file, leave)
            &&& state.reply(ready, audio_file, leave) == stopped.reply(ready, audio_file, leave)
        }),
{
}

/// Whether the track could be stopped makes no difference to a `/leave`.
pub proof fn law_leave_despite_failed_stop<C, T>(
    state: FeederState<C, T>,
    ready: bool,
    audio_file: Seq<char>,
    stop: Result<(), String>,
    other: Result<(), String>,
    outcome: Result<(), String>,
)
    ensures
        ({
            let leave = Happening::<C, T>::Leave { stop, outcome };
            let same = Happening::<C, T>::Leave { stop: other, outcome };
            &&& state.after(ready, audio_file, leave) == state.after(ready, audio_file, same)
            &&& state.reply(ready, audio_file, leave) == state.reply(ready, audio_file, same)
        }),
{
}

/// `/stop` without a track, and `/leave` outside a voice channel, are answered
/// with 200 and change nothing, before the gateway is ready too. Either
/// request, sent again, is such a no-op.
pub proof fn law_noops<C, T>(
    state: FeederState<C, T>,
    ready: bool,
    audio_file: Seq<char>,
    stop: Result<(), String>,
    outcome: Result<(), String>,
)
    ensures
        ({
            let leave = Happening::<C, T>::Leave { stop, outcome };
            let ok = Some(Ok::<StatusCode, ErrorView>(StatusCode::OK));
            let stopped = state.after(ready, audio_file, Happening::Stop);
            let left = state.after(true, audio_file, leave);
            &&& state.reply(ready, audio_file, Happening::Stop) == ok
            &&& !state.playing() ==> stopped == state
            &&& !state.in_voice() ==> state.reply(ready, audio_file, leave) == ok && state.after(
                ready,
                audio_file,
                leave,
            ) == state
            &&& !stopped.playing()
            &&& stopped.after(ready, audio_file, Happening::Stop) == stopped
            &&& left is Idle
            &&& left.reply(ready, audio_file, leave) == ok
            &&& left.after(ready, audio_file, leave) == left
        }),
{
}

/// An error has one of exactly four statuses, none of which is 200.
pub proof fn law_error_statuses(error: ErrorView)
    ensures
        ({
            let code = error.status().code();
            &&& code == 400 <==> error is NotInVoice
            &&& code == 404 <==> error is AudioFileMissing
            &&& code == 409 <==> (error is AlreadyPlaying || error is AlreadyJoined)
            &&& code == 500 <==> (error is Songbird || error is NotReady)
            &&& code == 400 || code == 404 || code == 409 || code == 500
        }),
{
}

/// The reason tells the error: no two errors give the same one.
pub proof fn law_reason_tells_error(a: ErrorView, b: ErrorView)
    requires
        a.reason() == b.reason(),
    ensures
        a == b,
{
    reveal_strlit("not in voice channel");
    reveal_strlit("already playing");
    reveal_strlit("already joined; leave first");
    reveal_strlit("audio file missing: ");
    reveal_strlit("songbird error: ");
    reveal_strlit("songbird not ready");
    let (x, y) = (a.reason(), b.reason());
    assert(x[0] == y[0] && x[1] == y[1] && x[8] == y[8] && x[9] == y[9]);
    match (a, b) {
        (ErrorView::AudioFileMissing(p), ErrorView::AudioFileMissing(q)) => {
            assert(p =~= x.skip(20) && q =~= y.skip(20));
        },
        (ErrorView::Songbird(p), ErrorView::Songbird(q)) => {
            assert(p =~= x.skip(16) && q =~= y.skip(16));
        },
        _ => {},
    }
}

/// The format of a file depends on its first 64 bytes alone.
pub proof fn law_format_of_first_bytes(bytes: Seq<u8>, more: Seq<u8>)
    requires
        bytes.len() >= 64,
    ensures
        audio::format_of(bytes + more) == audio::format_of(bytes),
        audio::format_of(bytes) == audio::format_of(bytes.take(64)),
{
    assert((bytes + more).take(64) =~= bytes.take(64));
    assert(bytes.take(64).take(64) =~= bytes.take(64));
}

/// The sample rate that was written is the one that is read: of a file that
/// starts as an OGG page does, and holds the magic of Opus first at `head`,
/// with `rate` twelve bytes on, all within the first 64 bytes.
#[verifier::spinoff_prover]
pub proof fn law_rate_reads_back(bytes: Seq<u8>, head: int, rate: u32)
    requires
        bytes.len() >= 64,
        audio::occurs_at(bytes, audio::ogg_magic(), 0),
        audio::first_at(bytes, audio::opus_magic(), head),
        head + 16 <= 64,
        bytes.subrange(head + 12, head + 16) == audio::little_endian_bytes(rate),
    ensures
        audio::format_of(bytes) == (AudioFormat::OggOpus { sample_rate: rate }),
{
    let window = bytes.take(64);
    lemma_window_occurrence(bytes, audio::ogg_magic(), 0);
    assert forall|i: int| i <= head implies audio::occurs_at(
        window,
        audio::opus_magic(),
        i,
    ) == audio::occurs_at(bytes, audio::opus_magic(), i) by {
        lemma_window_occurrence(bytes, audio::opus_magic(), i);
    }
    assert(audio::first_at(window, audio::opus_magic(), head));
    audio::lemma_first_is_position(window, audio::opus_magic(), head);
    let stored = window.skip(head + 12);
    let written = bytes.subrange(head + 12, head + 16);
    assert(written[0] == stored[0] && written[1] == stored[1]);
    assert(written[2] == stored[2] && written[3] == stored[3]);
    assert(audio::little_endian(stored) == audio::little_endian(written));
    lemma_little_endian_reads_back(rate);
}

/// The four bytes of a number stand for it.
#[verifier::spinoff_prover]
proof fn lemma_little_endian_reads_back(number: u32)
    ensures
        audio::little_endian(audio::little_endian_bytes(number)) == number,
{
    let (a, b, c) = (number / 0x100, number / 0x1_0000, number / 0x100_0000);
    assert(number == 0x100 * a + number % 0x100);
    assert(a / 0x100 == b && a == 0x100 * b + a % 0x100);
    assert(b / 0x100 == c && b == 0x100 * c + b % 0x100);
    assert(c < 0x100);
}

/// Up to the offset at which it still fits, a pattern stands in the first 64
/// bytes exactly where it stands in the whole.
proof fn lemma_window_occurrence(bytes: Seq<u8>, needle: Seq<u8>, at: int)
    requires
        bytes.len() >= 64,
        at + needle.len() <= 64,
    ensures
        audio::occurs_at(bytes.take(64), needle, at) == audio::occurs_at(
            bytes,
            needle,
            at,
        ),
{
    if 0 <= at {
        assert(bytes.take(64).subrange(at, at + needle.len()) =~= bytes.subrange(
            at,
            at + needle.len(),
        ));
    }
}

/// A file that does not start as an OGG page does is `Unknown`, and one that
/// does, but holds no magic of Opus in its first 64 bytes, is `OggOther`.
pub proof fn law_not_opus(bytes: Seq<u8>)
    requires
        bytes.len() >= 64,
    ensures
        !audio::occurs_at(bytes, audio::ogg_magic(), 0)
            ==> audio::format_of(bytes) == AudioFormat::Unknown,
        audio::occurs_at(bytes, audio::ogg_magic(), 0) && (forall|at: int|
            at + 8 <= 64 ==> !audio::occurs_at(bytes, audio::opus_magic(), at))
            ==> audio::format_of(bytes) == AudioFormat::OggOther,
{
    let window = bytes.take(64);
    lemma_window_occurrence(bytes, audio::ogg_magic(), 0);
    if forall|at: int|
        at + 8 <= 64 ==> !audio::occurs_at(bytes, audio::opus_magic(), at) {
        assert forall|at: int| !audio::occurs_at(
            window,
            audio::opus_magic(),
            at,
        ) by {
            if at + 8 <= 64 {
                lemma_window_occurrence(bytes, audio::opus_magic(), at);
            }
        }
    }
}

} // verus!
