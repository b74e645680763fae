//! The decisions of the producer that plays an album and streams its
//! sample blocks: which track comes next, what to do with each packet,
//! when to tell the consumer that the album is over.
//!
//! Reading and decoding belong to the caller, who reports what came of
//! each packet.

use crate::analysis::Analyzer;
use vstd::prelude::*;

verus! {

/// What came of reading and decoding one packet.
#[derive(Clone, Copy, Debug, PartialEq, Eq, Structural)]
pub enum PacketOutcome {
    /// A block of samples.
    Decoded,
    /// The packet belongs to another track of the container.
    ForeignTrack,
    /// The packet is corrupt or cannot be decoded.
    Undecodable,
    /// No packet could be read: the stream is at its end or broken.
    EndOfStream,
    /// The decoder has failed for good.
    DecoderFailed,
}

/// What the producer does after a packet.
#[derive(Clone, Copy, Debug, PartialEq, Eq, Structural)]
pub enum PacketStep {
    /// Hand the block on and read the next packet.
    Emit,
    /// Drop the packet and read the next one.
    Skip,
    /// Leave the track.
    EndTrack,
}

/// What is done after a packet. A fired shutdown token ends the track
/// whatever the packet held; a packet that is corrupt or foreign is passed
/// over; the end of the stream and a failed decoder end the track.
pub open spec fn packet_step(outcome: PacketOutcome, shutdown: bool) -> PacketStep {
    if shutdown {
        PacketStep::EndTrack
    } else {
        match outcome {
            PacketOutcome::Decoded => PacketStep::Emit,
            PacketOutcome::ForeignTrack => PacketStep::Skip,
            PacketOutcome::Undecodable => PacketStep::Skip,
            PacketOutcome::EndOfStream => PacketStep::EndTrack,
            PacketOutcome::DecoderFailed => PacketStep::EndTrack,
        }
    }
}

/// Decides what to do after a packet.
pub fn after_packet(outcome: PacketOutcome, shutdown: bool) -> (step: PacketStep)
    ensures
        step == packet_step(outcome, shutdown),
{
    if shutdown {
        return PacketStep::EndTrack;
    }
    match outcome {
        PacketOutcome::Decoded => PacketStep::Emit,
        PacketOutcome::ForeignTrack => PacketStep::Skip,
        PacketOutcome::Undecodable => PacketStep::Skip,
        PacketOutcome::EndOfStream => PacketStep::EndTrack,
        PacketOutcome::DecoderFailed => PacketStep::EndTrack,
    }
}

/// How far the producer has come.
#[derive(Clone, Copy, Debug, PartialEq, Eq, Structural)]
pub enum ProducerState {
    /// Waiting for the consumer's permission to play.
    AwaitingStart,
    Playing,
    Finished,
}

/// What the producer does next.
#[derive(Clone, Copy, Debug, PartialEq, Eq, Structural)]
pub enum ProducerStep {
    /// Play the track with this number, counted from 0.
    PlayTrack(usize),
    /// Leave. `announce_stop` says whether the consumer is told that the
    /// album is over.
    Finish { announce_stop: bool },
}

/// What the producer knows.
pub struct AudioView {
    pub album_length: usize,
    pub current_track: usize,
    pub state: ProducerState,
    pub analyzer: Option<Analyzer>,
}

/// The producer's place in the album, and the analyzer of the track that
/// plays.
#[derive(Clone, Copy, Debug)]
pub struct Audio {
    album_length: usize,
    current_track: usize,
    state: ProducerState,
    analyzer: Option<Analyzer>,
}

impl View for Audio {
    type V = AudioView;

    closed spec fn view(&self) -> AudioView {
        AudioView {
            album_length: self.album_length,
            current_track: self.current_track,
            state: self.state,
            analyzer: self.analyzer,
        }
    }
}

impl AudioView {
    /// The place after a step to the next track: one further, but never
    /// past the end of the album.
    pub open spec fn advanced(self) -> usize {
        if self.current_track < self.album_length {
            (self.current_track + 1) as usize
        } else {
            self.current_track
        }
    }

    /// The track that a step to the next track arrives at; none at the
    /// end of the album.
    pub open spec fn next(self) -> Option<usize> {
        if self.current_track + 1 < self.album_length {
            Some((self.current_track + 1) as usize)
        } else {
            None
        }
    }
}

impl Audio {
    #[verifier::type_invariant]
    spec fn within_album(&self) -> bool {
        self.current_track <= self.album_length
    }

    /// A producer at the first track of an album of `album_length` tracks,
    /// waiting for permission to play.
    pub fn new(album_length: usize) -> (audio: Audio)
        ensures
            audio@ == (AudioView {
                album_length,
                current_track: 0,
                state: ProducerState::AwaitingStart,
                analyzer: None,
            }),
    {
        Audio {
            album_length,
            current_track: 0,
            state: ProducerState::AwaitingStart,
            analyzer: None,
        }
    }

    /// The number of tracks.
    pub fn album_length(&self) -> (length: usize)
        ensures
            length == self@.album_length,
    {
        self.album_length
    }

    /// The number of the track that plays, counted from 0; the number of
    /// tracks once the album is over.
    pub fn current_track(&self) -> (track: usize)
        ensures
            track == self@.current_track,
            track <= self@.album_length,
    {
        proof {
            use_type_invariant(self);
        }
        self.current_track
    }

    /// How far the producer has come.
    pub fn state(&self) -> (state: ProducerState)
        ensures
            state == self@.state,
    {
        self.state
    }

    /// The analyzer of the track that plays.
    pub fn analyzer(&self) -> (analyzer: Option<Analyzer>)
        ensures
            analyzer == self@.analyzer,
    {
        self.analyzer
    }

    /// Steps to the next track and says which one it is; none when the
    /// album is over.
    pub fn next_track(&mut self) -> (track: Option<usize>)
        ensures
            track == old(self)@.next(),
            final(self)@ == (AudioView { current_track: old(self)@.advanced(), ..old(self)@ }),
    {
        proof {
            use_type_invariant(&*self);
        }
        if self.current_track < self.album_length {
            self.current_track = self.current_track + 1;
            if self.current_track < self.album_length {
                Some(self.current_track)
            } else {
                None
            }
        } else {
            None
        }
    }

    /// Makes `fresh` the analyzer of the track that begins, unless one is
    /// still in use. Says whether it did: then the caller sets up a scorer
    /// for it.
    pub fn begin_track(&mut self, fresh: Analyzer) -> (created: bool)
        ensures
            created == (old(self)@.analyzer is None),
            final(self)@ == (AudioView {
                analyzer: if created {
                    Some(fresh)
                } else {
                    old(self)@.analyzer
                },
                ..old(self)@
            }),
    {
        proof {
            use_type_invariant(&*self);
        }
        match self.analyzer {
            Some(_) => false,
            None => {
                self.analyzer = Some(fresh);
                true
            },
        }
    }

    /// Lets go of the analyzer at the end of a track, so that nothing of
    /// it leaks into the next. Says whether there was one: then the caller
    /// resets its scorer.
    pub fn reset_analyzer(&mut self) -> (was_set: bool)
        ensures
            was_set == (old(self)@.analyzer is Some),
            final(self)@ == (AudioView { analyzer: None, ..old(self)@ }),
    {
        proof {
            use_type_invariant(&*self);
        }
        match self.analyzer {
            Some(_) => {
                self.analyzer = None;
                true
            },
            None => false,
        }
    }

    /// The wait for the consumer's permission is over. With permission and
    /// an album that has tracks, the first track plays; else the producer
    /// leaves and announces nothing. A producer that is past its start
    /// stays as it is and is told to leave.
    pub fn start(&mut self, permitted: bool) -> (step: ProducerStep)
        ensures
            if !(old(self)@.state is AwaitingStart) {
                &&& step == (ProducerStep::Finish { announce_stop: false })
                &&& final(self)@ == old(self)@
            } else if permitted && old(self)@.current_track < old(self)@.album_length {
                &&& step == ProducerStep::PlayTrack(old(self)@.current_track)
                &&& final(self)@ == (AudioView { state: ProducerState::Playing, ..old(self)@ })
            } else {
                &&& step == (ProducerStep::Finish { announce_stop: false })
                &&& final(self)@ == (AudioView { state: ProducerState::Finished, ..old(self)@ })
            },
    {
        proof {
            use_type_invariant(&*self);
        }
        match self.state {
            ProducerState::AwaitingStart => {
                if permitted && self.current_track < self.album_length {
                    self.state = ProducerState::Playing;
                    ProducerStep::PlayTrack(self.current_track)
                } else {
                    self.state = ProducerState::Finished;
                    ProducerStep::Finish { announce_stop: false }
                }
            },
            _ => ProducerStep::Finish { announce_stop: false },
        }
    }

    /// The track that played is over. After a shutdown the producer
    /// leaves at once. Otherwise the next track plays; after the last one
    /// the producer leaves and announces the end of the album.
    pub fn track_ended(&mut self, shutdown: bool) -> (step: ProducerStep)
        ensures
            if !(old(self)@.state is Playing) {
                &&& step == (ProducerStep::Finish { announce_stop: false })
                &&& final(self)@ == old(self)@
            } else if shutdown {
                &&& step == (ProducerStep::Finish { announce_stop: false })
                &&& final(self)@ == (AudioView { state: ProducerState::Finished, ..old(self)@ })
            } else {
                match old(self)@.next() {
                    Some(track) => {
                        &&& step == ProducerStep::PlayTrack(track)
                        &&& final(self)@ == (AudioView { current_track: track, ..old(self)@ })
                    },
                    None => {
                        &&& step == (ProducerStep::Finish { announce_stop: true })
                        &&& final(self)@ == (AudioView {
                            current_track: old(self)@.advanced(),
                            state: ProducerState::Finished,
                            ..old(self)@
                        })
                    },
                }
            },
    {
        proof {
            use_type_invariant(&*self);
        }
        match self.state {
            ProducerState::Playing => {},
            _ => {
                return ProducerStep::Finish { announce_stop: false };
            },
        }
        if shutdown {
            self.state = ProducerState::Finished;
            return ProducerStep::Finish { announce_stop: false };
        }
        match self.next_track() {
            Some(track) => ProducerStep::PlayTrack(track),
            None => {
                self.state = ProducerState::Finished;
                ProducerStep::Finish { announce_stop: true }
            },
        }
    }
}

} // verus!
