//! The WebP encode-and-mux state machine.
//!
//! Encoding to WebP drives a native library through a linear sequence
//! of steps — encode the pixels, create a mux handle, set the image
//! chunk, optionally set the color-profile chunk, assemble the
//! container, copy the bytes out — each of which acquires or uses a
//! manually managed native resource and each of which can fail. The
//! machine here owns the sequencing and the resource accounting: a
//! driver performs each requested [`MuxAction`] against the native
//! library and reports the outcome, and the machine guarantees that on
//! every path, success or failure at any stage, each acquired resource
//! is asked to be released exactly once, and a failure surfaces as an
//! error rather than as corrupted output.

use crate::processor::ImageType;
use crate::processor::PipelineError;
use vstd::prelude::*;

verus! {

/// The lifecycle of one native resource.
#[derive(Debug, Clone, Copy, PartialEq, Eq, Structural)]
pub enum ResourceState {
    /// Never acquired.
    Untouched,
    /// Acquired and not yet released.
    Held,
    /// Acquired and released.
    Released,
}

/// The stages of the encode-and-mux sequence, in order.
#[derive(Debug, Clone, Copy, PartialEq, Eq, Structural)]
pub enum MuxStage {
    /// Encode the pixel buffer into a raw payload.
    Encode,
    /// Create the mux handle.
    CreateMux,
    /// Hand the raw payload to the mux as the primary image chunk.
    SetImage,
    /// Attach the color-profile chunk.
    SetIcc,
    /// Assemble the container.
    Assemble,
    /// Copy the assembled bytes out.
    CopyOut,
    /// Release every resource still held.
    Cleanup,
    /// Finished, successfully or not.
    Terminal,
}

/// What the machine asks its driver to do next.
#[derive(Debug, Clone, Copy, PartialEq)]
pub enum MuxAction {
    /// Run the native encode: lossless exactly when the requested
    /// quality is 100 or more, over RGBA exactly when the pixel buffer
    /// has an alpha channel (RGB otherwise).
    Encode { lossless: bool, quality: u8, use_alpha: bool },
    /// Create the mux handle.
    CreateMux,
    /// Set the primary image chunk from the raw payload.
    SetImageChunk,
    /// Set the color-profile chunk.
    SetIccChunk,
    /// Assemble the container.
    Assemble,
    /// Copy the assembled container bytes out; this step cannot fail.
    CopyOutput,
    /// Free exactly the named resources, each exactly once.
    Release { raw: bool, mux: bool, container: bool },
    /// Stop: the copied bytes are the output when `error` is `None`,
    /// else nothing is returned but the error.
    Finish { error: Option<PipelineError> },
}

/// The machine: the current stage, the encode request it was built
/// for, and the accounting of the three native resources — the raw
/// encoded payload, the mux handle, and the assembled container.
///
/// The fields are maintained by [`WebpEncodeMachine::new`],
/// [`WebpEncodeMachine::report`] and [`WebpEncodeMachine::released`];
/// every value those produce satisfies [`WebpEncodeMachine::wf`].
pub struct WebpEncodeMachine {
    pub stage: MuxStage,
    pub quality: u8,
    pub has_alpha: bool,
    pub has_icc: bool,
    pub raw: ResourceState,
    pub mux: ResourceState,
    pub container: ResourceState,
    pub error: Option<PipelineError>,
}

impl WebpEncodeMachine {
    /// Resource accounting is consistent with the stage. In
    /// particular: a terminal machine holds nothing, failure is
    /// recorded as an encode error exactly when the encode itself
    /// failed and as a native-resource error for every later stage,
    /// and nothing is released before cleanup.
    pub open spec fn wf(self) -> bool {
        &&& match self.stage {
            MuxStage::Encode => self.raw is Untouched && self.mux is Untouched
                && self.container is Untouched && self.error is None,
            MuxStage::CreateMux => self.raw is Held && self.mux is Untouched
                && self.container is Untouched && self.error is None,
            MuxStage::SetImage => self.raw is Held && self.mux is Held
                && self.container is Untouched && self.error is None,
            MuxStage::SetIcc => self.raw is Held && self.mux is Held
                && self.container is Untouched && self.error is None && self.has_icc,
            MuxStage::Assemble => self.raw is Held && self.mux is Held
                && self.container is Untouched && self.error is None,
            MuxStage::CopyOut => self.raw is Held && self.mux is Held && self.container is Held
                && self.error is None,
            MuxStage::Cleanup => !(self.raw is Released) && !(self.mux is Released) && !(
            self.container is Released),
            MuxStage::Terminal => !(self.raw is Held) && !(self.mux is Held) && !(
            self.container is Held),
        }
        &&& match self.error {
            Some(e) => e == PipelineError::EncodeError(ImageType::WebP) || e
                == PipelineError::NativeResourceError,
            None => true,
        }
    }

    /// The machine has stopped.
    pub open spec fn is_terminal(self) -> bool {
        self.stage is Terminal
    }

    /// A stage whose outcome the driver reports with
    /// [`WebpEncodeMachine::report`].
    pub open spec fn is_operative(self) -> bool {
        match self.stage {
            MuxStage::Encode | MuxStage::CreateMux | MuxStage::SetImage | MuxStage::SetIcc
                | MuxStage::Assemble | MuxStage::CopyOut => true,
            _ => false,
        }
    }

    /// What the driver is asked to do in the current stage.
    pub open spec fn spec_action(self) -> MuxAction {
        match self.stage {
            MuxStage::Encode => MuxAction::Encode {
                lossless: self.quality >= 100,
                quality: self.quality,
                use_alpha: self.has_alpha,
            },
            MuxStage::CreateMux => MuxAction::CreateMux,
            MuxStage::SetImage => MuxAction::SetImageChunk,
            MuxStage::SetIcc => MuxAction::SetIccChunk,
            MuxStage::Assemble => MuxAction::Assemble,
            MuxStage::CopyOut => MuxAction::CopyOutput,
            MuxStage::Cleanup => MuxAction::Release {
                raw: self.raw is Held,
                mux: self.mux is Held,
                container: self.container is Held,
            },
            MuxStage::Terminal => MuxAction::Finish { error: self.error },
        }
    }

    /// The successor state once the driver reports the outcome of the
    /// current operative stage: success acquires this stage's resource
    /// and advances (skipping the color-profile stage when no profile
    /// is to be attached); failure of the encode stops at once with an
    /// encode error and nothing held, and failure of any later stage
    /// records a native-resource error and turns to cleanup.
    pub open spec fn spec_step(self, ok: bool) -> WebpEncodeMachine {
        match self.stage {
            MuxStage::Encode => if ok {
                WebpEncodeMachine { stage: MuxStage::CreateMux, raw: ResourceState::Held, ..self }
            } else {
                WebpEncodeMachine {
                    stage: MuxStage::Terminal,
                    error: Some(PipelineError::EncodeError(ImageType::WebP)),
                    ..self
                }
            },
            MuxStage::CreateMux => if ok {
                WebpEncodeMachine { stage: MuxStage::SetImage, mux: ResourceState::Held, ..self }
            } else {
                WebpEncodeMachine {
                    stage: MuxStage::Cleanup,
                    error: Some(PipelineError::NativeResourceError),
                    ..self
                }
            },
            MuxStage::SetImage => if ok {
                WebpEncodeMachine {
                    stage: if self.has_icc {
                        MuxStage::SetIcc
                    } else {
                        MuxStage::Assemble
                    },
                    ..self
                }
            } else {
                WebpEncodeMachine {
                    stage: MuxStage::Cleanup,
                    error: Some(PipelineError::NativeResourceError),
                    ..self
                }
            },
            MuxStage::SetIcc => if ok {
                WebpEncodeMachine { stage: MuxStage::Assemble, ..self }
            } else {
                WebpEncodeMachine {
                    stage: MuxStage::Cleanup,
                    error: Some(PipelineError::NativeResourceError),
                    ..self
                }
            },
            MuxStage::Assemble => if ok {
                WebpEncodeMachine {
                    stage: MuxStage::CopyOut,
                    container: ResourceState::Held,
                    ..self
                }
            } else {
                WebpEncodeMachine {
                    stage: MuxStage::Cleanup,
                    error: Some(PipelineError::NativeResourceError),
                    ..self
                }
            },
            MuxStage::CopyOut => WebpEncodeMachine { stage: MuxStage::Cleanup, ..self },
            _ => self,
        }
    }

    /// Starts an encode of the given quality, over a pixel buffer with
    /// or without alpha, with or without a color profile to attach.
    pub fn new(quality: u8, has_alpha: bool, has_icc: bool) -> (m: WebpEncodeMachine)
        ensures
            m.wf(),
            m.stage == MuxStage::Encode,
            m.quality == quality,
            m.has_alpha == has_alpha,
            m.has_icc == has_icc,
    {
        WebpEncodeMachine {
            stage: MuxStage::Encode,
            quality,
            has_alpha,
            has_icc,
            raw: ResourceState::Untouched,
            mux: ResourceState::Untouched,
            container: ResourceState::Untouched,
            error: None,
        }
    }

    /// What the driver must do next.
    pub fn next_action(&self) -> (a: MuxAction)
        ensures
            a == self.spec_action(),
    {
        match self.stage {
            MuxStage::Encode => MuxAction::Encode {
                lossless: self.quality >= 100,
                quality: self.quality,
                use_alpha: self.has_alpha,
            },
            MuxStage::CreateMux => MuxAction::CreateMux,
            MuxStage::SetImage => MuxAction::SetImageChunk,
            MuxStage::SetIcc => MuxAction::SetIccChunk,
            MuxStage::Assemble => MuxAction::Assemble,
            MuxStage::CopyOut => MuxAction::CopyOutput,
            MuxStage::Cleanup => MuxAction::Release {
                raw: matches!(self.raw, ResourceState::Held),
                mux: matches!(self.mux, ResourceState::Held),
                container: matches!(self.container, ResourceState::Held),
            },
            MuxStage::Terminal => MuxAction::Finish { error: self.error },
        }
    }

    /// Records the outcome of the current operative stage and advances
    /// to [`WebpEncodeMachine::spec_step`] of it. Copying the output
    /// out cannot fail, so that stage must report success.
    pub fn report(&mut self, ok: bool)
        requires
            old(self).wf(),
            old(self).is_operative(),
            old(self).stage is CopyOut ==> ok,
        ensures
            final(self).wf(),
            *final(self) == old(self).spec_step(ok),
    {
        match self.stage {
            MuxStage::Encode => {
                if ok {
                    self.stage = MuxStage::CreateMux;
                    self.raw = ResourceState::Held;
                } else {
                    self.stage = MuxStage::Terminal;
                    self.error = Some(PipelineError::EncodeError(ImageType::WebP));
                }
            },
            MuxStage::CreateMux => {
                if ok {
                    self.stage = MuxStage::SetImage;
                    self.mux = ResourceState::Held;
                } else {
                    self.stage = MuxStage::Cleanup;
                    self.error = Some(PipelineError::NativeResourceError);
                }
            },
            MuxStage::SetImage => {
                if ok {
                    self.stage = if self.has_icc {
                        MuxStage::SetIcc
                    } else {
                        MuxStage::Assemble
                    };
                } else {
                    self.stage = MuxStage::Cleanup;
                    self.error = Some(PipelineError::NativeResourceError);
                }
            },
            MuxStage::SetIcc => {
                if ok {
                    self.stage = MuxStage::Assemble;
                } else {
                    self.stage = MuxStage::Cleanup;
                    self.error = Some(PipelineError::NativeResourceError);
                }
            },
            MuxStage::Assemble => {
                if ok {
                    self.stage = MuxStage::CopyOut;
                    self.container = ResourceState::Held;
                } else {
                    self.stage = MuxStage::Cleanup;
                    self.error = Some(PipelineError::NativeResourceError);
                }
            },
            MuxStage::CopyOut => {
                self.stage = MuxStage::Cleanup;
            },
            _ => {},
        }
    }

    /// Records that the driver has freed exactly the resources the
    /// cleanup action named; the machine stops, holding nothing, with
    /// each resource released at most once over the whole run.
    pub fn released(&mut self)
        requires
            old(self).wf(),
            old(self).stage is Cleanup,
        ensures
            final(self).wf(),
            final(self).stage == MuxStage::Terminal,
            final(self).error == old(self).error,
            final(self).quality == old(self).quality,
            final(self).has_alpha == old(self).has_alpha,
            final(self).has_icc == old(self).has_icc,
            final(self).raw == (if old(self).raw is Held {
                ResourceState::Released
            } else {
                old(self).raw
            }),
            final(self).mux == (if old(self).mux is Held {
                ResourceState::Released
            } else {
                old(self).mux
            }),
            final(self).container == (if old(self).container is Held {
                ResourceState::Released
            } else {
                old(self).container
            }),
    {
        if matches!(self.raw, ResourceState::Held) {
            self.raw = ResourceState::Released;
        }
        if matches!(self.mux, ResourceState::Held) {
            self.mux = ResourceState::Released;
        }
        if matches!(self.container, ResourceState::Held) {
            self.container = ResourceState::Released;
        }
        self.stage = MuxStage::Terminal;
    }
}

/// Resource safety: however a run ends, a machine that has stopped
/// holds no native resource — everything acquired was released — and
/// if it stopped without output, what it reports is an encode error or
/// a native-resource error, never a result.
pub proof fn lemma_terminal_no_leak(m: WebpEncodeMachine)
    requires
        m.wf(),
        m.is_terminal(),
    ensures
        !(m.raw is Held),
        !(m.mux is Held),
        !(m.container is Held),
        m.error matches Some(e) ==> (e == PipelineError::EncodeError(ImageType::WebP) || e
            == PipelineError::NativeResourceError),
{
}

} // verus!
