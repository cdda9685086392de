//! The typed view over one connected port.  The host hands the shell a raw
//! pointer per port; here that pointer is an opaque address, and an audio
//! view pairs it with the sample count it is currently known to cover.

use vstd::prelude::*;
use crate::meta::Port;
use crate::meta::PortDescriptor;

verus! {

/// Where a port's data view currently points: at a buffer the host handed in
/// (identified by the raw address the shell received) or at one of the
/// instance's own scratch buffers (identified by its position in the pool).
#[derive(Clone, Copy, Debug, PartialEq, Eq, Structural)]
pub enum BufPtr {
    Host(usize),
    Scratch(usize),
}

/// A view over a contiguous run of samples: a base pointer and the number of
/// samples the view currently covers.  The length is refreshed on every
/// block-processing call and never trusted across calls; the base is only
/// ever replaced during additive execution and restored afterwards.
#[derive(Clone, Copy, Debug, PartialEq, Eq, Structural)]
pub struct SliceView {
    pub ptr: BufPtr,
    pub len: usize,
}

/// The typed data handle of one connected port.  Audio kinds hold a slice
/// view; control kinds hold the address of the host's single scalar.
#[derive(Clone, Copy, Debug, PartialEq, Eq, Structural)]
pub enum PortData {
    AudioInput(SliceView),
    AudioOutput(SliceView),
    ControlInput(usize),
    ControlOutput(usize),
}

impl PortData {
    /// The handle carries a run of audio samples.
    pub open spec fn is_audio(self) -> bool {
        self is AudioInput || self is AudioOutput
    }

    /// The slice view of an audio handle.
    pub open spec fn view_of(self) -> SliceView
        recommends
            self.is_audio(),
    {
        match self {
            PortData::AudioInput(v) => v,
            PortData::AudioOutput(v) => v,
            PortData::ControlInput(_) => SliceView { ptr: BufPtr::Host(0), len: 0 },
            PortData::ControlOutput(_) => SliceView { ptr: BufPtr::Host(0), len: 0 },
        }
    }

    /// The port kind this handle belongs to.
    pub open spec fn kind(self) -> PortDescriptor {
        match self {
            PortData::AudioInput(_) => PortDescriptor::AudioInput,
            PortData::AudioOutput(_) => PortDescriptor::AudioOutput,
            PortData::ControlInput(_) => PortDescriptor::ControlInput,
            PortData::ControlOutput(_) => PortDescriptor::ControlOutput,
        }
    }
}

/// The handle a freshly connected port starts with: audio views cover zero
/// samples until the first block-processing call supplies a count; control
/// handles are the scalar's address.
pub open spec fn fresh_connection(desc: PortDescriptor, addr: usize) -> PortData
    recommends
        desc != PortDescriptor::Invalid,
{
    match desc {
        PortDescriptor::AudioInput => PortData::AudioInput(
            SliceView { ptr: BufPtr::Host(addr), len: 0 },
        ),
        PortDescriptor::AudioOutput => PortData::AudioOutput(
            SliceView { ptr: BufPtr::Host(addr), len: 0 },
        ),
        PortDescriptor::ControlInput => PortData::ControlInput(addr),
        PortDescriptor::ControlOutput => PortData::ControlOutput(addr),
        PortDescriptor::Invalid => PortData::ControlInput(addr),
    }
}

/// One entry of the ordered connection list the author's run method
/// receives: the port's description paired with its current data handle.
pub struct PortConnection {
    pub port: Port,
    pub data: PortData,
}

impl PortConnection {
    /// The view of an audio-input connection.
    pub fn unwrap_audio(&self) -> (r: SliceView)
        requires
            self.data is AudioInput,
        ensures
            self.data == PortData::AudioInput(r),
    {
        match self.data {
            PortData::AudioInput(v) => v,
            _ => vstd::pervasive::unreached(),
        }
    }

    /// The view of an audio-output connection.
    pub fn unwrap_audio_mut(&self) -> (r: SliceView)
        requires
            self.data is AudioOutput,
        ensures
            self.data == PortData::AudioOutput(r),
    {
        match self.data {
            PortData::AudioOutput(v) => v,
            _ => vstd::pervasive::unreached(),
        }
    }

    /// The scalar address of a control-input connection.
    pub fn unwrap_control(&self) -> (r: usize)
        requires
            self.data is ControlInput,
        ensures
            self.data == PortData::ControlInput(r),
    {
        match self.data {
            PortData::ControlInput(a) => a,
            _ => vstd::pervasive::unreached(),
        }
    }

    /// The scalar address of a control-output connection.
    pub fn unwrap_control_mut(&self) -> (r: usize)
        requires
            self.data is ControlOutput,
        ensures
            self.data == PortData::ControlOutput(r),
    {
        match self.data {
            PortData::ControlOutput(a) => a,
            _ => vstd::pervasive::unreached(),
        }
    }
}

} // verus!
