//! The player's operations, each split at the boundary: what to ask of the
//! player, and what its answer means.
//!
//! An action (`open`, `quit`, `play`, `pause`, `play_pause`, `set_volume`,
//! `mute`) gives the [`Request`] to deliver; the reply to it carries nothing
//! but success or failure, which [`acknowledge`] reads. A query (`is_open`,
//! `is_playing_ad`, `get_volume`, `get_song_name`) takes the reply to the
//! request for its command and gives the typed answer.

use crate::port::{
    answer_view, reply_view, Command, ExecutionError, Failure, Reply, ReplyView, Request,
    RequestView,
};
use crate::text::{
    at_most, characters, decimal, decimal_string, lemma_decimal_reads_back, parse_at_most,
    parse_decimal, range_is, range_starts_with, trim, trim_bounds,
};
use vstd::prelude::*;

verus! {

/// The loudest volume that the player accepts.
pub const MAX_VOLUME: u8 = 100;

/// A volume above [`MAX_VOLUME`] was given; nothing was asked of the player.
#[derive(Clone, Copy, Debug, PartialEq, Eq, Structural)]
pub struct InvalidArgument {
    /// The volume that was refused.
    pub volume: u8,
}

/// The request that sets the volume to `volume`: the command `SetVolume` with
/// the volume written in base ten as its one argument.
pub open spec fn volume_request(volume: u8) -> RequestView {
    RequestView::with(Command::SetVolume, decimal(volume as nat))
}

/// What the reply to an action means: its output is ignored.
pub open spec fn acknowledgement(reply: ReplyView) -> Result<(), Failure> {
    match reply {
        Ok(_) => Ok(()),
        Err(failure) => Err(failure),
    }
}

/// What the reply to `IsOpen` means: the player runs exactly when the
/// output, trimmed, is `true`.
pub open spec fn running_answer(reply: ReplyView) -> Result<bool, Failure> {
    match reply {
        Ok(output) => Ok(trim(output) == "true"@),
        Err(failure) => Err(failure),
    }
}

/// What the reply to `GetSongURL` means: an advertisement plays exactly when
/// the output, trimmed, begins with `spotify:ad`.
pub open spec fn ad_answer(reply: ReplyView) -> Result<bool, Failure> {
    match reply {
        Ok(output) => Ok("spotify:ad"@.is_prefix_of(trim(output))),
        Err(failure) => Err(failure),
    }
}

/// What the reply to `GetVolume` means: the output, trimmed, read as a
/// decimal number; anything that is no number from 0 to [`MAX_VOLUME`] is a
/// `DecodeError`.
pub open spec fn volume_answer(reply: ReplyView) -> Result<u8, Failure> {
    match reply {
        Ok(output) => match at_most(parse_decimal(trim(output)), MAX_VOLUME) {
            Some(volume) => Ok(volume),
            None => Err(Failure::DecodeError),
        },
        Err(failure) => Err(failure),
    }
}

/// The request that launches the player.
pub fn open() -> (r: Request)
    ensures
        r@ == RequestView::plain(Command::Open),
{
    Request::plain(Command::Open)
}

/// The request that terminates the player.
pub fn quit() -> (r: Request)
    ensures
        r@ == RequestView::plain(Command::Quit),
{
    Request::plain(Command::Quit)
}

/// The request that resumes playback.
pub fn play() -> (r: Request)
    ensures
        r@ == RequestView::plain(Command::Play),
{
    Request::plain(Command::Play)
}

/// The request that pauses playback.
pub fn pause() -> (r: Request)
    ensures
        r@ == RequestView::plain(Command::Pause),
{
    Request::plain(Command::Pause)
}

/// The request that toggles between playing and pausing.
pub fn play_pause() -> (r: Request)
    ensures
        r@ == RequestView::plain(Command::PlayPause),
{
    Request::plain(Command::PlayPause)
}

/// The request that sets the volume, or a refusal if the volume is above
/// [`MAX_VOLUME`]: then there is no request to deliver.
pub fn set_volume(volume: u8) -> (r: Result<Request, InvalidArgument>)
    ensures
        volume <= MAX_VOLUME ==> (r matches Ok(request) && request@ == volume_request(volume)),
        volume > MAX_VOLUME ==> r == Err::<Request, InvalidArgument>(InvalidArgument { volume }),
{
    if volume > MAX_VOLUME {
        return Err(InvalidArgument { volume });
    }
    Ok(Request::with(Command::SetVolume, decimal_string(volume)))
}

/// The request that silences the player: that of `set_volume(0)`.
pub fn mute() -> (r: Result<Request, InvalidArgument>)
    ensures
        r matches Ok(request) && request@ == volume_request(0),
{
    set_volume(0)
}

/// Reads the reply to an action: success, or the failure as it came.
pub fn acknowledge(reply: Reply) -> (r: Result<(), ExecutionError>)
    ensures
        answer_view(r) == acknowledgement(reply_view(reply)),
{
    match reply {
        Ok(_) => Ok(()),
        Err(error) => Err(error),
    }
}

/// Reads the reply to `IsOpen`: whether the player is running.
pub fn is_open(reply: Reply) -> (r: Result<bool, ExecutionError>)
    ensures
        answer_view(r) == running_answer(reply_view(reply)),
{
    match reply {
        Ok(output) => {
            let chars = characters(output.as_str());
            let (start, end) = trim_bounds(&chars);
            Ok(range_is(&chars, start, end, "true"))
        },
        Err(error) => Err(error),
    }
}

/// Reads the reply to `GetSongURL`: whether an advertisement is playing.
pub fn is_playing_ad(reply: Reply) -> (r: Result<bool, ExecutionError>)
    ensures
        answer_view(r) == ad_answer(reply_view(reply)),
{
    match reply {
        Ok(output) => {
            let chars = characters(output.as_str());
            let (start, end) = trim_bounds(&chars);
            Ok(range_starts_with(&chars, start, end, "spotify:ad"))
        },
        Err(error) => Err(error),
    }
}

/// Reads the reply to `GetVolume`: the current volume.
pub fn get_volume(reply: Reply) -> (r: Result<u8, ExecutionError>)
    ensures
        answer_view(r) == volume_answer(reply_view(reply)),
{
    match reply {
        Ok(output) => {
            let chars = characters(output.as_str());
            let (start, end) = trim_bounds(&chars);
            match parse_at_most(&chars, start, end, MAX_VOLUME) {
                Some(volume) => Ok(volume),
                None => Err(ExecutionError::DecodeError),
            }
        },
        Err(error) => Err(error),
    }
}

/// Reads the reply to `GetSongName`: the name of the current track, as the
/// player wrote it, untrimmed.
pub fn get_song_name(reply: Reply) -> (r: Result<String, ExecutionError>)
    ensures
        r == reply,
{
    reply
}

/// The argument that `set_volume` writes is read back by `get_volume` as
/// the same volume: the two agree on how a volume is written.
pub proof fn lemma_volume_reads_back(volume: u8)
    requires
        volume <= MAX_VOLUME,
    ensures
        volume_request(volume).well_formed(),
        volume_answer(Ok(volume_request(volume).args[0])) == Ok::<u8, Failure>(volume),
{
    lemma_decimal_reads_back(volume as nat);
}

} // verus!
