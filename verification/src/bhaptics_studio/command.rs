//! The canonical commands of the playback engine, and how client messages
//! map to them.
//!
//! The commands are all that a playback engine has to understand. They carry
//! nothing of the wire's spellings: a message is decoded first and mapped
//! here, one command for each entry or operation, in the order given.

use vstd::prelude::*;
use crate::bhaptics_studio::tact::project::{Project, ProjectView};
use crate::bhaptics_studio::tact::wire::views;
use crate::bhaptics_studio::tact::{
    PlayerRegisterRequest, PlayerRegisterRequestView, PlayerRequest, PlayerRequestView,
    PlayerSubmitRequest, PlayerSubmitRequestView, RegisteredParameters,
    RegisteredParametersRotationOption, RegisteredParametersRotationOptionView,
    RegisteredParametersScaleOption, RegisteredParametersScaleOptionView,
    RegisteredParametersView, SubmitFrame, SubmitFrameView,
};

verus! {

/// Playback parameters with every default filled in. No alternative key
/// means the project registered under the key itself; the start offset is
/// zero unless given; no scale and no rotation mean that none is applied.
#[derive(Clone, Debug, PartialEq, Eq)]
pub struct ResolvedParameters {
    pub alt_key: Option<String>,
    pub start_offset_millis: u32,
    pub scale: Option<RegisteredParametersScaleOption>,
    pub rotation: Option<RegisteredParametersRotationOption>,
}

/// The mathematical value of a [`ResolvedParameters`].
pub struct ResolvedParametersView {
    pub alt_key: Option<Seq<char>>,
    pub start_offset_millis: u32,
    pub scale: Option<RegisteredParametersScaleOptionView>,
    pub rotation: Option<RegisteredParametersRotationOptionView>,
}

impl View for ResolvedParameters {
    type V = ResolvedParametersView;

    open spec fn view(&self) -> ResolvedParametersView {
        ResolvedParametersView {
            alt_key: match self.alt_key {
                Some(k) => Some(k@),
                None => None,
            },
            start_offset_millis: self.start_offset_millis,
            scale: match self.scale {
                Some(s) => Some(s@),
                None => None,
            },
            rotation: match self.rotation {
                Some(r) => Some(r@),
                None => None,
            },
        }
    }
}

/// The parameters that `given` resolves to.
pub open spec fn resolved(given: RegisteredParametersView) -> ResolvedParametersView {
    ResolvedParametersView {
        alt_key: given.alt_key,
        start_offset_millis: match given.start_time_millis {
            Some(t) => t,
            None => 0,
        },
        scale: given.scale_option,
        rotation: given.rotation_option,
    }
}

impl ResolvedParameters {
    /// Fills in the defaults of `given`.
    pub fn resolve(given: RegisteredParameters) -> (r: ResolvedParameters)
        ensures
            r@ == resolved(given@),
    {
        ResolvedParameters {
            alt_key: given.alt_key,
            start_offset_millis: match given.start_time_millis {
                Some(t) => t,
                None => 0,
            },
            scale: given.scale_option,
            rotation: given.rotation_option,
        }
    }
}

/// An instruction to the playback engine.
#[derive(Clone, Debug, PartialEq, Eq)]
pub enum HapticCommand {
    /// Bind a project to a key.
    RegisterProject { key: String, project: Project },
    /// Stop all feedback.
    StopAll,
    /// Stop the feedback that goes by a key.
    Stop { key: String },
    /// Play the project registered under a key.
    Play { key: String, parameters: ResolvedParameters },
    /// Play a frame that was not registered.
    PlayAdHoc { frame: SubmitFrame },
}

/// The mathematical value of a [`HapticCommand`].
pub enum HapticCommandView {
    RegisterProject { key: Seq<char>, project: ProjectView },
    StopAll,
    Stop { key: Seq<char> },
    Play { key: Seq<char>, parameters: ResolvedParametersView },
    PlayAdHoc { frame: SubmitFrameView },
}

impl View for HapticCommand {
    type V = HapticCommandView;

    open spec fn view(&self) -> HapticCommandView {
        match self {
            HapticCommand::RegisterProject { key, project } => HapticCommandView::RegisterProject {
                key: key@,
                project: project@,
            },
            HapticCommand::StopAll => HapticCommandView::StopAll,
            HapticCommand::Stop { key } => HapticCommandView::Stop { key: key@ },
            HapticCommand::Play { key, parameters } => HapticCommandView::Play {
                key: key@,
                parameters: parameters@,
            },
            HapticCommand::PlayAdHoc { frame } => HapticCommandView::PlayAdHoc { frame: frame@ },
        }
    }
}

/// The command that a register entry stands for.
pub open spec fn registration(entry: PlayerRegisterRequestView) -> HapticCommandView {
    HapticCommandView::RegisterProject { key: entry.key, project: entry.project }
}

/// The command that a submit operation stands for.
pub open spec fn operation(op: PlayerSubmitRequestView) -> HapticCommandView {
    match op {
        PlayerSubmitRequestView::TurnOffAll => HapticCommandView::StopAll,
        PlayerSubmitRequestView::TurnOff { key } => HapticCommandView::Stop { key },
        PlayerSubmitRequestView::SubmitFrame { key, frame } => HapticCommandView::PlayAdHoc {
            frame,
        },
        PlayerSubmitRequestView::SubmitRegistered { key, parameters } => HapticCommandView::Play {
            key,
            parameters: resolved(parameters),
        },
    }
}

/// The commands that a message stands for: one for each entry or operation,
/// in the order of the message.
pub open spec fn commands_of(message: PlayerRequestView) -> Seq<HapticCommandView> {
    match message {
        PlayerRequestView::Register(entries) => Seq::new(
            entries.len(),
            |i: int| registration(entries[i]),
        ),
        PlayerRequestView::Submit(operations) => Seq::new(
            operations.len(),
            |i: int| operation(operations[i]),
        ),
    }
}

/// A message maps to as many commands as it has entries or operations, and
/// the command in each place is that of the entry or operation in that place:
/// what came first in the message comes first among the commands.
pub proof fn law_commands_keep_order(message: PlayerRequestView)
    ensures
        match message {
            PlayerRequestView::Register(entries) => {
                &&& commands_of(message).len() == entries.len()
                &&& forall|i: int|
                    0 <= i < entries.len() ==> commands_of(message)[i] == registration(
                        #[trigger] entries[i],
                    )
            },
            PlayerRequestView::Submit(operations) => {
                &&& commands_of(message).len() == operations.len()
                &&& forall|i: int|
                    0 <= i < operations.len() ==> commands_of(message)[i] == operation(
                        #[trigger] operations[i],
                    )
            },
        },
{
}

/// Maps a register entry to its command.
fn register_command(entry: PlayerRegisterRequest) -> (c: HapticCommand)
    ensures
        c@ == registration(entry@),
{
    HapticCommand::RegisterProject { key: entry.key, project: entry.project }
}

/// Maps a submit operation to its command.
fn submit_command(op: PlayerSubmitRequest) -> (c: HapticCommand)
    ensures
        c@ == operation(op@),
{
    match op {
        PlayerSubmitRequest::TurnOffAll => HapticCommand::StopAll,
        PlayerSubmitRequest::TurnOff { key } => HapticCommand::Stop { key },
        PlayerSubmitRequest::SubmitFrame { key, frame } => HapticCommand::PlayAdHoc { frame },
        PlayerSubmitRequest::SubmitRegistered { key, parameters } => HapticCommand::Play {
            key,
            parameters: ResolvedParameters::resolve(parameters),
        },
    }
}

/// Maps a decoded message to the commands it stands for.
pub fn to_haptic_commands(message: PlayerRequest) -> (r: Vec<HapticCommand>)
    ensures
        views(r@) == commands_of(message@),
{
    let mut out: Vec<HapticCommand> = Vec::new();
    match message {
        PlayerRequest::Register(entries) => {
            let ghost all = views(entries@);
            for entry in it: entries.into_iter()
                invariant
                    all == views(entries@),
                    out@.len() == it.index(),
                    forall|k: int|
                        0 <= k < out@.len() ==> (#[trigger] out@[k])@ == registration(all[k]),
            {
                out.push(register_command(entry));
            }
            assert(views(out@) =~= commands_of(PlayerRequestView::Register(all)));
        },
        PlayerRequest::Submit(operations) => {
            let ghost all = views(operations@);
            for op in it: operations.into_iter()
                invariant
                    all == views(operations@),
                    out@.len() == it.index(),
                    forall|k: int|
                        0 <= k < out@.len() ==> (#[trigger] out@[k])@ == operation(all[k]),
            {
                out.push(submit_command(op));
            }
            assert(views(out@) =~= commands_of(PlayerRequestView::Submit(all)));
        },
    }
    out
}

} // verus!
