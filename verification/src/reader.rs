//! Caller-driven reading of one frame from a byte stream.
//!
//! The reader decides what to read next and what the bytes mean; the caller
//! performs each read and reports its outcome. The fixed header and every
//! declared limit are validated before any body reservation.

use crate::bytes::append_bytes;
use crate::codec::{parse_header, verify_digest_of, frame_from_sections};
use crate::frame::{
    lemma_parsed_header, spec_decode, spec_parse_header, DecodedFrame, FrameHeader, LocalFrameConfig, LocalFrameError,
    LocalFrameIoOperation, LocalFrameKind, LocalFrameSection, LOCAL_FRAME_HEADER_BYTES,
};
use vstd::prelude::*;

verus! {

/// Section currently being read.
#[derive(Debug, Clone, Copy, PartialEq, Eq, Structural)]
pub enum FrameReadPhase {
    /// The fixed header.
    Header,
    /// The control section.
    Control,
    /// The bulk section.
    Bulk,
    /// A frame was delivered or reading failed.
    Finished,
}

/// What the caller does next.
pub enum ReadStep {
    /// Read at most this many (and at least one) further bytes.
    NeedMore(usize),
    /// One complete frame whose outer layer decoded; see `DecodedFrame`.
    Frame(DecodedFrame),
    /// The stream ended cleanly before any header byte.
    EndOfStream,
    /// Reading failed.
    Failed(LocalFrameError),
}

/// Reading state of one frame.
pub struct FrameReader {
    config: LocalFrameConfig,
    phase: FrameReadPhase,
    header_bytes: Vec<u8>,
    header: FrameHeader,
    control: Vec<u8>,
    bulk: Vec<u8>,
    received: Ghost<Seq<u8>>,
    refused: Ghost<bool>,
}

/// `received` is exactly a header whose section lengths overflow, or whose
/// declared frame does not fit in this machine's address space.
pub open spec fn size_overflow_at(received: Seq<u8>, config: LocalFrameConfig) -> bool {
    &&& received.len() == 68
    &&& match spec_parse_header(received, config.frame_limits) {
        Ok(h) => h.frame_bytes > usize::MAX,
        Err(e) => e is SizeOverflow,
    }
}

/// `received` ends exactly where a section body is reserved: right after a
/// header that passed every check (the control reservation), or right after
/// the control section of a frame that has a bulk section.
pub open spec fn body_reservation_at(received: Seq<u8>, config: LocalFrameConfig) -> bool {
    &&& received.len() >= 68
    &&& spec_parse_header(received.subrange(0, 68), config.frame_limits) matches Ok(h)
    &&& h.frame_bytes <= usize::MAX
    &&& (received.len() == 68 || (received.len() == 68 + h.control_bytes && h.bulk_bytes > 0))
}

/// The step that follows receiving `received` in total: a request for the
/// rest of the header, a header's failure as soon as it is complete, a
/// request for each section in turn (or an allocation failure, exactly when
/// the allocator refused that section's reservation), and at the end of the
/// declared frame its decoding.
pub open spec fn read_step_of(
    step: ReadStep,
    received: Seq<u8>,
    config: LocalFrameConfig,
    refused: bool,
) -> bool {
    let len = received.len();
    if len < 68 {
        step == ReadStep::NeedMore((68 - len) as usize)
    } else {
        match spec_parse_header(received.subrange(0, 68), config.frame_limits) {
            Err(e) => step == ReadStep::Failed(e),
            Ok(h) => if h.frame_bytes > usize::MAX {
                step == ReadStep::Failed(LocalFrameError::SizeOverflow)
            } else if len == 68 {
                if refused {
                    step == ReadStep::Failed(LocalFrameError::AllocationFailed)
                } else {
                    step == ReadStep::NeedMore(h.control_bytes as usize)
                }
            } else if len < 68 + h.control_bytes {
                step == ReadStep::NeedMore((68 + h.control_bytes - len) as usize)
            } else if len == 68 + h.control_bytes && h.bulk_bytes > 0 {
                if refused {
                    step == ReadStep::Failed(LocalFrameError::AllocationFailed)
                } else {
                    step == ReadStep::NeedMore(h.bulk_bytes as usize)
                }
            } else if len < h.frame_bytes {
                step == ReadStep::NeedMore((h.frame_bytes - len) as usize)
            } else if len == h.frame_bytes {
                match spec_decode(received, config) {
                    Ok(v) => step matches ReadStep::Frame(f) && f@ == v,
                    Err(e) => step == ReadStep::Failed(e),
                }
            } else {
                false
            }
        }
    }
}

/// Reading a frame that decoding accepts, by handing the reader exactly the
/// bytes it asks for, never fails while the allocator grants each
/// reservation: before the end every step asks for more bytes that the frame
/// still holds, and at the end the step is that frame.
pub proof fn lemma_accepted_frame_reads_through(
    encoded: Seq<u8>,
    config: LocalFrameConfig,
    k: int,
    step: ReadStep,
)
    requires
        spec_decode(encoded, config) is Ok,
        encoded.len() <= usize::MAX,
        0 < k <= encoded.len(),
        read_step_of(step, encoded.take(k), config, false),
    ensures
        k < encoded.len() ==> (step matches ReadStep::NeedMore(n) && n > 0 && k + n
            <= encoded.len()),
        k == encoded.len() ==> (step matches ReadStep::Frame(f) && spec_decode(encoded, config)
            == Ok::<(LocalFrameKind, u64, Seq<u8>, Seq<u8>), LocalFrameError>(f@)),
{
    let received = encoded.take(k);
    assert(encoded.len() >= 68);
    let header = encoded.subrange(0, 68);
    assert(spec_parse_header(header, config.frame_limits) is Ok);
    lemma_parsed_header(header, config.frame_limits);
    if k >= 68 {
        assert(received.subrange(0, 68) =~= header);
    }
    if k == encoded.len() {
        assert(received =~= encoded);
    }
}

impl FrameReader {
    /// Every byte handed to the reader so far.
    pub closed spec fn received(&self) -> Seq<u8> {
        self.received@
    }

    /// Whether the section reservation of the last step was refused by the
    /// allocator.
    pub closed spec fn allocation_refused(&self) -> bool {
        self.refused@
    }

    /// The configuration frames are validated against.
    pub closed spec fn config(&self) -> LocalFrameConfig {
        self.config
    }

    /// The current phase.
    pub closed spec fn phase(&self) -> FrameReadPhase {
        self.phase
    }

    /// Bytes the current section still needs.
    pub closed spec fn remaining(&self) -> nat {
        match self.phase {
            FrameReadPhase::Header => (68 - self.header_bytes@.len()) as nat,
            FrameReadPhase::Control => (self.header.control_bytes - self.control@.len()) as nat,
            FrameReadPhase::Bulk => (self.header.bulk_bytes - self.bulk@.len()) as nat,
            FrameReadPhase::Finished => 0,
        }
    }

    /// The reader's internal consistency while a frame is in progress.
    pub closed spec fn wf(&self) -> bool {
        match self.phase {
            FrameReadPhase::Header => {
                &&& self.header_bytes@.len() < 68
                &&& self.control@.len() == 0
                &&& self.bulk@.len() == 0
                &&& self.received@ == self.header_bytes@
            },
            FrameReadPhase::Control => {
                &&& self.header_bytes@.len() == 68
                &&& spec_parse_header(self.header_bytes@, self.config.frame_limits) == Ok::<
                    FrameHeader,
                    LocalFrameError,
                >(self.header)
                &&& self.header.frame_bytes <= usize::MAX
                &&& self.control@.len() < self.header.control_bytes
                &&& self.bulk@.len() == 0
                &&& self.received@ == self.header_bytes@ + self.control@
            },
            FrameReadPhase::Bulk => {
                &&& self.header_bytes@.len() == 68
                &&& spec_parse_header(self.header_bytes@, self.config.frame_limits) == Ok::<
                    FrameHeader,
                    LocalFrameError,
                >(self.header)
                &&& self.header.frame_bytes <= usize::MAX
                &&& self.control@.len() == self.header.control_bytes
                &&& self.bulk@.len() < self.header.bulk_bytes
                &&& self.received@ == self.header_bytes@ + self.control@ + self.bulk@
            },
            FrameReadPhase::Finished => true,
        }
    }

    /// What a step promises about the bytes received so far.
    pub open spec fn step_agrees(&self, step: ReadStep) -> bool {
        match step {
            ReadStep::NeedMore(n) => {
                &&& self.wf()
                &&& self.phase() != FrameReadPhase::Finished
                &&& n > 0
                &&& n == self.remaining()
            },
            ReadStep::Frame(frame) => spec_decode(self.received(), self.config()) == Ok::<
                (LocalFrameKind, u64, Seq<u8>, Seq<u8>),
                LocalFrameError,
            >(frame@),
            ReadStep::EndOfStream => self.received().len() == 0,
            ReadStep::Failed(e) => match e {
                LocalFrameError::SizeOverflow => size_overflow_at(self.received(), self.config()),
                LocalFrameError::AllocationFailed => body_reservation_at(
                    self.received(),
                    self.config(),
                ),
                _ => spec_decode(self.received(), self.config()) == Err::<
                    (LocalFrameKind, u64, Seq<u8>, Seq<u8>),
                    LocalFrameError,
                >(e),
            },
        }
    }

    /// Starts reading one frame; the first read asks for the whole header.
    pub fn new(config: LocalFrameConfig) -> (reader: (Self, usize))
        ensures
            reader.0.wf(),
            reader.0.phase() == FrameReadPhase::Header,
            reader.0.received().len() == 0,
            reader.0.config() == config,
            reader.1 == LOCAL_FRAME_HEADER_BYTES,
            reader.1 == reader.0.remaining(),
    {
        let reader = FrameReader {
            config,
            phase: FrameReadPhase::Header,
            header_bytes: Vec::new(),
            header: FrameHeader {
                kind: LocalFrameKind::Control,
                correlation_id: 0,
                control_bytes: 0,
                bulk_bytes: 0,
                frame_bytes: 0,
            },
            control: Vec::new(),
            bulk: Vec::new(),
            received: Ghost(Seq::empty()),
            refused: Ghost(false),
        };
        (reader, LOCAL_FRAME_HEADER_BYTES)
    }

    /// Returns the current phase.
    pub fn current_phase(&self) -> (phase: FrameReadPhase)
        ensures
            phase == self.phase(),
    {
        self.phase
    }

    fn finish(&mut self) -> (step: ReadStep)
        requires
            old(self).header_bytes@.len() == 68,
            spec_parse_header(old(self).header_bytes@, old(self).config.frame_limits) == Ok::<
                FrameHeader,
                LocalFrameError,
            >(old(self).header),
            old(self).control@.len() == old(self).header.control_bytes,
            old(self).bulk@.len() == old(self).header.bulk_bytes,
            old(self).received@ == old(self).header_bytes@ + old(self).control@ + old(self).bulk@,
        ensures
            final(self).received() == old(self).received(),
            final(self).config() == old(self).config(),
            final(self).phase() == FrameReadPhase::Finished,
            final(self).step_agrees(step),
            step is Frame || step == ReadStep::Failed(LocalFrameError::IntegrityMismatch),
            final(self).refused == old(self).refused,
    {
        self.phase = FrameReadPhase::Finished;
        let ghost received = self.received@;
        let ghost h = self.header;
        proof {
            assert(received.subrange(0, 68) =~= self.header_bytes@);
            assert(received.subrange(68, 68 + h.control_bytes) =~= self.control@);
            assert(received.subrange(68 + h.control_bytes, received.len() as int) =~= self.bulk@);
            assert(self.header_bytes@.subrange(0, 36) =~= received.subrange(0, 36));
            assert(self.header_bytes@.subrange(36, 68) =~= received.subrange(36, 68));
            if h.kind == LocalFrameKind::Control {
                assert(h.bulk_bytes == 0);
            }
        }
        match verify_digest_of(self.header_bytes.as_slice(), self.control.as_slice(), self.bulk.as_slice()) {
            Ok(()) => {},
            Err(e) => {
                return ReadStep::Failed(e);
            },
        }
        ReadStep::Frame(frame_from_sections(self.header, self.control.as_slice(), self.bulk.as_slice()))
    }

    /// Hands the reader the next bytes read from the stream.
    #[verifier::rlimit(60)]
    #[verifier::spinoff_prover]
    pub fn receive(&mut self, chunk: &[u8]) -> (step: ReadStep)
        requires
            old(self).wf(),
            old(self).phase() != FrameReadPhase::Finished,
            0 < chunk@.len() <= old(self).remaining(),
        ensures
            final(self).received() == old(self).received() + chunk@,
            final(self).config() == old(self).config(),
            final(self).step_agrees(step),
            !(step is NeedMore) ==> final(self).phase() == FrameReadPhase::Finished,
            step matches ReadStep::NeedMore(n) ==> (final(self).received().len() < 68 ==> n == 68
                - final(self).received().len()),
            step is NeedMore && final(self).received().len() >= 68 ==> spec_parse_header(
                final(self).received().subrange(0, 68),
                final(self).config().frame_limits,
            ) is Ok,
            final(self).received().len() == 68 ==> match spec_parse_header(
                final(self).received(),
                final(self).config().frame_limits,
            ) {
                Err(e) => step == ReadStep::Failed(e),
                Ok(h) => if h.frame_bytes > usize::MAX {
                    step == ReadStep::Failed(LocalFrameError::SizeOverflow)
                } else {
                    step == ReadStep::NeedMore(h.control_bytes as usize) || step == ReadStep::Failed(
                        LocalFrameError::AllocationFailed,
                    )
                },
            },
            read_step_of(step, final(self).received(), final(self).config(), final(self).allocation_refused()),
            final(self).allocation_refused() ==> step == ReadStep::Failed(LocalFrameError::AllocationFailed),
    {
        self.received = Ghost(self.received@ + chunk@);
        self.refused = Ghost(false);
        match self.phase {
            FrameReadPhase::Header => {
                append_bytes(&mut self.header_bytes, chunk);
                if self.header_bytes.len() < LOCAL_FRAME_HEADER_BYTES {
                    return ReadStep::NeedMore(LOCAL_FRAME_HEADER_BYTES - self.header_bytes.len());
                }
                self.phase = FrameReadPhase::Finished;
                proof {
                    assert(self.received@.subrange(0, 68) =~= self.header_bytes@);
                }
                let header = match parse_header(self.header_bytes.as_slice(), &self.config.frame_limits) {
                    Ok(header) => header,
                    Err(e) => {
                        return ReadStep::Failed(e);
                    },
                };
                if header.frame_bytes > usize::MAX as u64 {
                    return ReadStep::Failed(LocalFrameError::SizeOverflow);
                }
                assert(self.header_bytes@.subrange(0, 68) =~= self.header_bytes@);
                proof {
                    lemma_parsed_header(self.header_bytes@, self.config.frame_limits);
                }
                self.header = header;
                match self.control.try_reserve(header.control_bytes as usize) {
                    Ok(()) => {},
                    Err(_) => {
                        self.refused = Ghost(true);
                        return ReadStep::Failed(LocalFrameError::AllocationFailed);
                    },
                }
                self.phase = FrameReadPhase::Control;
                assert(self.received@ =~= self.header_bytes@ + self.control@);
                ReadStep::NeedMore(header.control_bytes as usize)
            },
            FrameReadPhase::Control => {
                append_bytes(&mut self.control, chunk);
                assert(self.received@ =~= self.header_bytes@ + self.control@);
                let wanted = self.header.control_bytes as usize;
                if self.control.len() < wanted {
                    proof {
                        assert(self.received@.subrange(0, 68) =~= self.header_bytes@);
                    }
                    return ReadStep::NeedMore(wanted - self.control.len());
                }
                if self.header.bulk_bytes == 0 {
                    assert(self.received@ =~= self.header_bytes@ + self.control@ + self.bulk@);
                    return self.finish();
                }
                self.phase = FrameReadPhase::Finished;
                proof {
                    assert(self.received@.subrange(0, 68) =~= self.header_bytes@);
                }
                match self.bulk.try_reserve(self.header.bulk_bytes as usize) {
                    Ok(()) => {},
                    Err(_) => {
                        self.refused = Ghost(true);
                        return ReadStep::Failed(LocalFrameError::AllocationFailed);
                    },
                }
                self.phase = FrameReadPhase::Bulk;
                assert(self.received@ =~= self.header_bytes@ + self.control@ + self.bulk@);
                ReadStep::NeedMore(self.header.bulk_bytes as usize)
            },
            FrameReadPhase::Bulk => {
                append_bytes(&mut self.bulk, chunk);
                assert(self.received@ =~= self.header_bytes@ + self.control@ + self.bulk@);
                let wanted = self.header.bulk_bytes as usize;
                if self.bulk.len() < wanted {
                    proof {
                        assert(self.received@.subrange(0, 68) =~= self.header_bytes@);
                    }
                    return ReadStep::NeedMore(wanted - self.bulk.len());
                }
                self.finish()
            },
            FrameReadPhase::Finished => ReadStep::Failed(LocalFrameError::SizeOverflow),
        }
    }

    /// Reports that the stream ended.
    pub fn end_of_stream(&mut self) -> (step: ReadStep)
        requires
            old(self).wf(),
            old(self).phase() != FrameReadPhase::Finished,
        ensures
            final(self).received() == old(self).received(),
            final(self).config() == old(self).config(),
            final(self).phase() == FrameReadPhase::Finished,
            final(self).step_agrees(step),
            step is EndOfStream || step is Failed,
            step is Failed ==> step->Failed_0 is Truncated,
    {
        let phase = self.phase;
        self.phase = FrameReadPhase::Finished;
        match phase {
            FrameReadPhase::Header => {
                if self.header_bytes.len() == 0 {
                    ReadStep::EndOfStream
                } else {
                    ReadStep::Failed(
                        LocalFrameError::Truncated {
                            section: LocalFrameSection::Header,
                            expected: 68,
                            actual: self.header_bytes.len() as u64,
                        },
                    )
                }
            },
            FrameReadPhase::Control => {
                proof {
                    assert(self.received@.subrange(0, 68) =~= self.header_bytes@);
                }
                ReadStep::Failed(
                    LocalFrameError::Truncated {
                        section: LocalFrameSection::Control,
                        expected: self.header.control_bytes,
                        actual: self.control.len() as u64,
                    },
                )
            },
            _ => {
                proof {
                    assert(self.received@.subrange(0, 68) =~= self.header_bytes@);
                }
                ReadStep::Failed(
                    LocalFrameError::Truncated {
                        section: LocalFrameSection::Bulk,
                        expected: self.header.bulk_bytes,
                        actual: self.bulk.len() as u64,
                    },
                )
            },
        }
    }

    /// Reports that the caller's reader failed with `kind`.
    pub fn read_failed(&mut self, kind: std::io::ErrorKind) -> (step: ReadStep)
        requires
            old(self).phase() != FrameReadPhase::Finished,
        ensures
            final(self).received() == old(self).received(),
            final(self).config() == old(self).config(),
            final(self).phase() == FrameReadPhase::Finished,
            step == ReadStep::Failed(
                LocalFrameError::Io {
                    operation: match old(self).phase() {
                        FrameReadPhase::Header => LocalFrameIoOperation::ReadHeader,
                        FrameReadPhase::Control => LocalFrameIoOperation::ReadControl,
                        _ => LocalFrameIoOperation::ReadBulk,
                    },
                    kind,
                },
            ),
    {
        let operation = match self.phase {
            FrameReadPhase::Header => LocalFrameIoOperation::ReadHeader,
            FrameReadPhase::Control => LocalFrameIoOperation::ReadControl,
            _ => LocalFrameIoOperation::ReadBulk,
        };
        self.phase = FrameReadPhase::Finished;
        ReadStep::Failed(LocalFrameError::Io { operation, kind })
    }
}

} // verus!
