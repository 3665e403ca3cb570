//! What the crate takes from other crates and from std without proof.
//!
//! Each item names the outside function it stands for and says what is
//! claimed of it. Everything else in the crate is proved from these claims.

use std::path::PathBuf;
use std::sync::mpsc::{Receiver, Sender};
use vstd::prelude::*;
use wavekat_core::AudioFrame;

use crate::{EventView, TranscriptEvent};

verus! {

/// `wavekat_core::AudioFrame`: a block of samples and the rate they were
/// taken at.
#[verifier::external_type_specification]
#[verifier::external_body]
pub struct ExAudioFrame<'a>(wavekat_core::AudioFrame<'a>);

/// `std::sync::mpsc::Sender`: the sending half of a channel.
#[verifier::external_type_specification]
#[verifier::external_body]
#[verifier::reject_recursive_types(T)]
pub struct ExSender<T>(std::sync::mpsc::Sender<T>);

/// `std::sync::mpsc::Receiver`: the receiving half of a channel.
#[verifier::external_type_specification]
#[verifier::external_body]
#[verifier::reject_recursive_types(T)]
pub struct ExReceiver<T>(std::sync::mpsc::Receiver<T>);

/// `std::path::PathBuf`: a path.
#[verifier::external_type_specification]
#[verifier::external_body]
pub struct ExPathBuf(std::path::PathBuf);

/// `std::io::Error`, carried inside [`crate::AsrError::Io`].
#[verifier::external_type_specification]
#[verifier::external_body]
pub struct ExIoError(std::io::Error);

/// How many samples a frame holds.
pub uninterp spec fn frame_sample_count(frame: AudioFrame) -> usize;

/// The sample rate a frame was made with, in Hz.
pub uninterp spec fn frame_rate(frame: AudioFrame) -> u32;

/// The events handed to a channel through its sending half so far, oldest
/// first. The crate makes one sending half per channel and never clones it,
/// so the half has one history, and only [`send_event`] extends it.
pub uninterp spec fn sent(tx: Sender<TranscriptEvent>) -> Seq<EventView>;

/// Which channel a sending half belongs to.
pub uninterp spec fn channel_of(tx: Sender<TranscriptEvent>) -> int;

/// Which channel a receiving half reads. It gives out, in order, the events
/// handed to that channel.
pub uninterp spec fn channel_read(rx: Receiver<TranscriptEvent>) -> int;

/// The text of a path, if the path is valid Unicode.
pub uninterp spec fn path_text(path: PathBuf) -> Option<Seq<char>>;

/// How a path is shown to a user.
pub uninterp spec fn path_shown(path: PathBuf) -> Seq<char>;

/// The path of this name below a directory.
pub uninterp spec fn path_joined(dir: PathBuf, name: Seq<char>) -> PathBuf;

/// `AudioFrame::sample_rate`: the rate the frame was made with.
#[verifier::external_body]
pub(crate) fn sample_rate(frame: &AudioFrame) -> (rate: u32)
    ensures
        rate == frame_rate(*frame),
{
    frame.sample_rate()
}

/// `AudioFrame::samples`, by its length: the number of samples in the frame.
#[verifier::external_body]
pub(crate) fn sample_count(frame: &AudioFrame) -> (count: usize)
    ensures
        count == frame_sample_count(*frame),
{
    frame.samples().len()
}

/// `std::sync::mpsc::channel`: the two halves of a fresh channel, through
/// which nothing has been sent.
#[verifier::external_body]
pub(crate) fn event_channel() -> (halves: (Sender<TranscriptEvent>, Receiver<TranscriptEvent>))
    ensures
        sent(halves.0) == Seq::<EventView>::empty(),
        channel_of(halves.0) == channel_read(halves.1),
{
    std::sync::mpsc::channel()
}

/// `Sender::send`: hands one event to the channel, behind those handed to it
/// before; the half stays with its channel. The result tells whether a
/// receiver was still there to take it; nothing is claimed of that.
#[verifier::external_body]
pub(crate) fn send_event(tx: &mut Sender<TranscriptEvent>, event: TranscriptEvent) -> (taken: bool)
    ensures
        sent(*final(tx)) == sent(*old(tx)).push(event@),
        channel_of(*final(tx)) == channel_of(*old(tx)),
{
    tx.send(event).is_ok()
}

/// `Path::to_str`: the text of a path, or nothing where the path is not valid
/// Unicode.
#[verifier::external_body]
pub(crate) fn path_to_str(path: &PathBuf) -> (text: Option<&str>)
    ensures
        match text {
            Some(s) => path_text(*path) == Some(s@),
            None => path_text(*path) is None,
        },
{
    path.to_str()
}

/// `Path::display`, as a string: how the path is shown. The text is named,
/// not spelled out: it may replace what is not Unicode.
#[verifier::external_body]
pub(crate) fn path_display(path: &PathBuf) -> (text: String)
    ensures
        text@ == path_shown(*path),
{
    path.display().to_string()
}

/// `Path::join`: the path of `name` below `dir`. The path is named, not
/// spelled out: what stands between the two is the platform's.
#[verifier::external_body]
pub(crate) fn path_join(dir: &PathBuf, name: &str) -> (path: PathBuf)
    ensures
        path == path_joined(*dir, name@),
{
    dir.join(name)
}

/// The `Display` text of a `std::io::Error`. It depends on the operating
/// system, so nothing is claimed of it.
#[verifier::external_body]
pub(crate) fn io_error_text(error: &std::io::Error) -> String {
    error.to_string()
}

/// `String::push` appends one character.
pub assume_specification[ String::push ](s: &mut String, c: char)
    ensures
        final(s)@ == old(s)@.push(c),
;

} // verus!
