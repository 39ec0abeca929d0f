use vstd::prelude::*;

use crate::assemble::{pixel_of, Bitmap};
use crate::codec::{codec_code, Codec, DecodeConfig};
use crate::decode::{
    decode_error_of, decode_image, decoded_bytes, decoded_space, out_height_of, out_width_of,
    ImageDescriptor,
};
use crate::error::DecodeError;

verus! {

/// Where a decode session stands.
#[derive(Clone, Copy, Debug, PartialEq, Eq, Structural)]
pub enum Phase {
    /// The stream exists; no codec yet.
    Opened,
    /// The engine instantiated the codec.
    Created,
    /// The engine accepted the decoding parameters.
    Configured,
    /// The header was parsed and the image exists.
    HeaderRead,
    /// The image was decoded.
    Decoded,
    /// A step failed; only closing is left.
    Failed,
    /// Every resource has been released.
    Closed,
}

/// Which engine resources are held.
#[derive(Clone, Copy, Debug, PartialEq, Eq, Structural)]
pub struct Resources {
    pub stream: bool,
    pub codec: bool,
    pub image: bool,
}

/// No resource at all.
pub open spec fn no_resources() -> Resources {
    Resources { stream: false, codec: false, image: false }
}

impl Resources {
    /// No resource at all.
    pub fn none() -> (r: Resources)
        ensures
            r == no_resources(),
    {
        Resources { stream: false, codec: false, image: false }
    }

    /// Whether nothing is held.
    pub fn is_empty(&self) -> (r: bool)
        ensures
            r == (*self == no_resources()),
    {
        !self.stream && !self.codec && !self.image
    }
}

/// Message of the error for a codec the engine would not instantiate.
pub const CODEC_FAILED: &'static str = "Codec instantiation failed.";

/// Message of the error for decoding parameters the engine rejected.
pub const SETUP_FAILED: &'static str = "Setting up the decoder failed.";

/// The resources held in each phase but the failed one, where they depend
/// on the step that failed.
pub open spec fn held_in(p: Phase) -> Resources {
    match p {
        Phase::Opened => Resources { stream: true, codec: false, image: false },
        Phase::Created | Phase::Configured => Resources { stream: true, codec: true, image: false },
        Phase::HeaderRead | Phase::Decoded => Resources { stream: true, codec: true, image: true },
        Phase::Failed | Phase::Closed => no_resources(),
    }
}

/// The decisions of one decode call: which engine step comes next, which
/// resources are held, and what to release at the end.
///
/// The caller performs each engine step and reports its outcome; the session
/// moves on or fails. Whatever happened, `close` hands back exactly the
/// resources still held, once.
pub struct DecoderSession {
    phase: Phase,
    held: Resources,
    codec: Codec,
    config: DecodeConfig,
}

impl DecoderSession {
    pub closed spec fn phase_spec(&self) -> Phase {
        self.phase
    }

    pub closed spec fn held_spec(&self) -> Resources {
        self.held
    }

    pub closed spec fn codec_spec(&self) -> Codec {
        self.codec
    }

    pub closed spec fn config_spec(&self) -> DecodeConfig {
        self.config
    }

    /// The held resources follow from the phase, except after a failure.
    pub open spec fn wf(&self) -> bool {
        self.phase_spec() != Phase::Failed ==> self.held_spec() == held_in(self.phase_spec())
    }

    /// The session as it is after `close`.
    pub closed spec fn after_close(&self) -> DecoderSession {
        DecoderSession { phase: Phase::Closed, held: no_resources(), ..*self }
    }

    /// A session over a stream that the caller has just created.
    pub fn new(codec: Codec, config: DecodeConfig) -> (r: Self)
        ensures
            r.wf(),
            r.phase_spec() == Phase::Opened,
            r.held_spec() == held_in(Phase::Opened),
            r.codec_spec() == codec,
            r.config_spec() == config,
    {
        DecoderSession {
            phase: Phase::Opened,
            held: Resources { stream: true, codec: false, image: false },
            codec,
            config,
        }
    }

    pub fn phase(&self) -> (r: Phase)
        ensures
            r == self.phase_spec(),
    {
        self.phase
    }

    pub fn held(&self) -> (r: Resources)
        ensures
            r == self.held_spec(),
    {
        self.held
    }

    /// The engine's code for the codec to instantiate.
    pub fn codec_code(&self) -> (r: i32)
        ensures
            r == codec_code(self.codec_spec()),
    {
        self.codec.to_i32()
    }

    /// The resolution reduction to pass to the engine.
    pub fn discard_level(&self) -> (r: u32)
        ensures
            r == self.config_spec().discard_level,
    {
        self.config.discard_level
    }

    /// Records whether the engine instantiated the codec.
    pub fn codec_created(&mut self, created: bool) -> (r: Result<(), DecodeError>)
        requires
            old(self).wf(),
            old(self).phase_spec() == Phase::Opened,
        ensures
            final(self).wf(),
            final(self).codec_spec() == old(self).codec_spec(),
            final(self).config_spec() == old(self).config_spec(),
            created ==> r is Ok && final(self).phase_spec() == Phase::Created,
            !created ==> r == Err::<(), DecodeError>(DecodeError::FfiError(CODEC_FAILED))
                && final(self).phase_spec() == Phase::Failed && final(self).held_spec()
                == old(self).held_spec(),
    {
        if created {
            self.phase = Phase::Created;
            self.held = Resources { stream: true, codec: true, image: false };
            Ok(())
        } else {
            self.phase = Phase::Failed;
            Err(DecodeError::FfiError(CODEC_FAILED))
        }
    }

    /// Records whether the engine accepted the decoding parameters.
    pub fn decoder_setup(&mut self, accepted: bool) -> (r: Result<(), DecodeError>)
        requires
            old(self).wf(),
            old(self).phase_spec() == Phase::Created,
        ensures
            final(self).wf(),
            final(self).codec_spec() == old(self).codec_spec(),
            final(self).config_spec() == old(self).config_spec(),
            final(self).held_spec() == old(self).held_spec(),
            accepted ==> r is Ok && final(self).phase_spec() == Phase::Configured,
            !accepted ==> r == Err::<(), DecodeError>(DecodeError::FfiError(SETUP_FAILED))
                && final(self).phase_spec() == Phase::Failed,
    {
        if accepted {
            self.phase = Phase::Configured;
            Ok(())
        } else {
            self.phase = Phase::Failed;
            Err(DecodeError::FfiError(SETUP_FAILED))
        }
    }

    /// Records whether the engine parsed the header, which creates the image.
    pub fn header_read(&mut self, parsed: bool) -> (r: Result<(), DecodeError>)
        requires
            old(self).wf(),
            old(self).phase_spec() == Phase::Configured,
        ensures
            final(self).wf(),
            final(self).codec_spec() == old(self).codec_spec(),
            final(self).config_spec() == old(self).config_spec(),
            parsed ==> r is Ok && final(self).phase_spec() == Phase::HeaderRead,
            !parsed ==> r == Err::<(), DecodeError>(DecodeError::ReadHeader)
                && final(self).phase_spec() == Phase::Failed && final(self).held_spec()
                == old(self).held_spec(),
    {
        if parsed {
            self.phase = Phase::HeaderRead;
            self.held = Resources { stream: true, codec: true, image: true };
            Ok(())
        } else {
            self.phase = Phase::Failed;
            Err(DecodeError::ReadHeader)
        }
    }

    /// Records that the engine decoded the image.
    pub fn decoded(&mut self)
        requires
            old(self).wf(),
            old(self).phase_spec() == Phase::HeaderRead,
        ensures
            final(self).wf(),
            final(self).codec_spec() == old(self).codec_spec(),
            final(self).config_spec() == old(self).config_spec(),
            final(self).held_spec() == old(self).held_spec(),
            final(self).phase_spec() == Phase::Decoded,
    {
        self.phase = Phase::Decoded;
    }

    /// Builds the bitmap from what the engine decoded; on an error the
    /// session fails.
    pub fn finish(&mut self, desc: &ImageDescriptor) -> (r: Result<Bitmap, DecodeError>)
        requires
            old(self).wf(),
            old(self).phase_spec() == Phase::Decoded,
        ensures
            final(self).wf(),
            final(self).codec_spec() == old(self).codec_spec(),
            final(self).config_spec() == old(self).config_spec(),
            final(self).held_spec() == old(self).held_spec(),
            ({
                let cfg = old(self).config_spec();
                match r {
                    Ok(b) => {
                        &&& final(self).phase_spec() == Phase::Decoded
                        &&& decode_error_of(*desc, cfg) is None
                        &&& b.wf()
                        &&& b.width_spec() == out_width_of(*desc, cfg)
                        &&& b.height_spec() == out_height_of(*desc, cfg)
                        &&& b.bytes_spec() == decoded_bytes(*desc, cfg)
                        &&& forall|x: int, y: int|
                            0 <= x < b.width_spec() && 0 <= y < b.height_spec()
                                ==> #[trigger] b.pixel_spec(x, y) == pixel_of(
                                desc.components@,
                                decoded_space(*desc, cfg),
                                x,
                                y,
                            )
                    },
                    Err(e) => {
                        &&& final(self).phase_spec() == Phase::Failed
                        &&& decode_error_of(*desc, cfg) == Some(e)
                    },
                }
            }),
    {
        let r = decode_image(desc, &self.config);
        if r.is_err() {
            self.phase = Phase::Failed;
        }
        r
    }

    /// Ends the session and hands back the resources to release: exactly
    /// those still held. Nothing is held afterwards, so a second call hands
    /// back nothing.
    pub fn close(&mut self) -> (r: Resources)
        requires
            old(self).wf(),
        ensures
            r == old(self).held_spec(),
            *final(self) == old(self).after_close(),
            final(self).wf(),
            final(self).phase_spec() == Phase::Closed,
            final(self).held_spec() == no_resources(),
            final(self).codec_spec() == old(self).codec_spec(),
            final(self).config_spec() == old(self).config_spec(),
    {
        let r = self.held;
        self.phase = Phase::Closed;
        self.held = Resources { stream: false, codec: false, image: false };
        r
    }
}

/// Closing is idempotent: closing a closed session hands back nothing and
/// leaves it as it was.
pub proof fn lemma_close_idempotent(s: DecoderSession)
    ensures
        s.after_close().after_close() == s.after_close(),
        s.after_close().held_spec() == no_resources(),
{
}

} // verus!
