//! The messages of the second version of the websocket protocol.

use vstd::prelude::*;
use crate::bhaptics_studio::tact::grammar::Field;
use crate::bhaptics_studio::tact::project::{
    DotMode, DotModeFeedbackCollection, HapticEffect, HapticEffectMode, HapticFeedbackMode,
    PathMode, PathModeFeedbackCollection, PathMovingPattern, Project, ProjectLayout,
    ProjectLayoutObject, ProjectTrack,
};
use crate::bhaptics_studio::tact::wire::{hold, holding, number, numeral, views};
use crate::bhaptics_studio::tact::{
    PlayerRegisterRequest, PlayerRequest, PlayerSubmitRequest, RegisteredParameters,
    RegisteredParametersRotationOption, RegisteredParametersScaleOption, SubmitFrame,
};
use crate::haptic_lib::EffectInterpolation;
use crate::enumerated::Enumerated;
use crate::json::{
    item_views, lemma_array_view, lemma_object_view, member_views, Json, JsonView, Member,
    MemberView,
};
use crate::text::same_text;

verus! {

/// A message from a client, under the name that this version of the
/// protocol has for it. The names below are this version's names for the
/// parts of the message.
pub type BHapticsWebsocketV2ClientMessage = PlayerRequest;

pub type BHapticsWebsocketV2Register = PlayerRegisterRequest;

pub type BHapticsWebsocketV2RegisterProject = Project;

pub type BHapticsWebsocketV2RegisterProjectLayout = ProjectLayout;

pub type BHapticsWebsocketV2RegisterProjectLayoutObject = ProjectLayoutObject;

pub type BHapticsWebsocketV2RegisterProjectTrack = ProjectTrack;

pub type BHapticsWebsocketV2RegisterProjectTrackEffect = HapticEffect;

pub type BHapticsWebsocketV2RegisterProjectTrackEffectMode = HapticEffectMode;

pub type BHapticsWebsocketV2RegisterProjectTrackEffectModeType = HapticFeedbackMode;

pub type BHapticsWebsocketV2RegisterProjectTrackEffectDotMode = DotMode;

pub type BHapticsWebsocketV2RegisterProjectTrackEffectPathMode = PathMode;

pub type BHapticsWebsocketV2RegisterProjectTrackEffectModeDotModeFeedbackCollection =
    DotModeFeedbackCollection;

pub type BHapticsWebsocketV2RegisterProjectTrackEffectModePathModeFeedbackCollection =
    PathModeFeedbackCollection;

pub type BHapticsPlaybackType = EffectInterpolation;

pub type BHapticsPathMovingPattern = PathMovingPattern;

/// An operation of a `Submit` message. In this version of the protocol the
/// operations that play something are discriminated as `Key` and `Frame`;
/// both names are read.
pub type BHapticsWebsocketV2Submit = PlayerSubmitRequest;

pub type BHapticsWebsocketV2SubmitParameters = RegisteredParameters;

pub type BHapticsWebsocketV2SubmitScaleOption = RegisteredParametersScaleOption;

pub type BHapticsWebsocketV2SubmitRotationOption = RegisteredParametersRotationOption;

pub type BHapticsWebsocketV2SubmitFrame = SubmitFrame;

/// Where on the body a device sits.
#[derive(Clone, Copy, Debug, PartialEq, Eq, Structural)]
pub enum PositionType {
    All,
    /// Legacy name of the left forearm device.
    Left,
    /// Legacy name of the right forearm device.
    Right,
    Vest,
    Head,
    /// Legacy name of the racket device.
    Racket,
    HandL,
    HandR,
    FootL,
    FootR,
    ForearmL,
    ForearmR,
    VestFront,
    VestBack,
    GloveL,
    GloveR,
    Custom1,
    Custom2,
    Custom3,
    Custom4,
}

impl View for PositionType {
    type V = PositionType;

    open spec fn view(&self) -> PositionType {
        *self
    }
}

impl PositionType {
    /// The number that the device library gives the position.
    pub open spec fn code_of(self) -> u8 {
        match self {
            PositionType::All => 0,
            PositionType::Left => 1,
            PositionType::Right => 2,
            PositionType::Vest => 3,
            PositionType::Head => 4,
            PositionType::Racket => 5,
            PositionType::HandL => 6,
            PositionType::HandR => 7,
            PositionType::FootL => 8,
            PositionType::FootR => 9,
            PositionType::ForearmL => 10,
            PositionType::ForearmR => 11,
            PositionType::VestFront => 201,
            PositionType::VestBack => 202,
            PositionType::GloveL => 203,
            PositionType::GloveR => 204,
            PositionType::Custom1 => 251,
            PositionType::Custom2 => 252,
            PositionType::Custom3 => 253,
            PositionType::Custom4 => 254,
        }
    }

    /// The number that the device library gives the position.
    pub fn code(self) -> (r: u8)
        ensures
            r == self.code_of(),
    {
        match self {
            PositionType::All => 0,
            PositionType::Left => 1,
            PositionType::Right => 2,
            PositionType::Vest => 3,
            PositionType::Head => 4,
            PositionType::Racket => 5,
            PositionType::HandL => 6,
            PositionType::HandR => 7,
            PositionType::FootL => 8,
            PositionType::FootR => 9,
            PositionType::ForearmL => 10,
            PositionType::ForearmR => 11,
            PositionType::VestFront => 201,
            PositionType::VestBack => 202,
            PositionType::GloveL => 203,
            PositionType::GloveR => 204,
            PositionType::Custom1 => 251,
            PositionType::Custom2 => 252,
            PositionType::Custom3 => 253,
            PositionType::Custom4 => 254,
        }
    }
}

impl Enumerated for PositionType {
    open spec fn named(name: Seq<char>) -> Option<PositionType> {
        if name == "All"@ {
            Some(PositionType::All)
        } else if name == "Left"@ {
            Some(PositionType::Left)
        } else if name == "Right"@ {
            Some(PositionType::Right)
        } else if name == "Vest"@ {
            Some(PositionType::Vest)
        } else if name == "Head"@ {
            Some(PositionType::Head)
        } else if name == "Racket"@ {
            Some(PositionType::Racket)
        } else if name == "HandL"@ {
            Some(PositionType::HandL)
        } else if name == "HandR"@ {
            Some(PositionType::HandR)
        } else if name == "FootL"@ {
            Some(PositionType::FootL)
        } else if name == "FootR"@ {
            Some(PositionType::FootR)
        } else if name == "ForearmL"@ {
            Some(PositionType::ForearmL)
        } else if name == "ForearmR"@ {
            Some(PositionType::ForearmR)
        } else if name == "VestFront"@ {
            Some(PositionType::VestFront)
        } else if name == "VestBack"@ {
            Some(PositionType::VestBack)
        } else if name == "GloveL"@ {
            Some(PositionType::GloveL)
        } else if name == "GloveR"@ {
            Some(PositionType::GloveR)
        } else if name == "Custom1"@ {
            Some(PositionType::Custom1)
        } else if name == "Custom2"@ {
            Some(PositionType::Custom2)
        } else if name == "Custom3"@ {
            Some(PositionType::Custom3)
        } else if name == "Custom4"@ {
            Some(PositionType::Custom4)
        } else {
            None
        }
    }

    open spec fn name_of(self) -> Seq<char> {
        match self {
            PositionType::All => "All"@,
            PositionType::Left => "Left"@,
            PositionType::Right => "Right"@,
            PositionType::Vest => "Vest"@,
            PositionType::Head => "Head"@,
            PositionType::Racket => "Racket"@,
            PositionType::HandL => "HandL"@,
            PositionType::HandR => "HandR"@,
            PositionType::FootL => "FootL"@,
            PositionType::FootR => "FootR"@,
            PositionType::ForearmL => "ForearmL"@,
            PositionType::ForearmR => "ForearmR"@,
            PositionType::VestFront => "VestFront"@,
            PositionType::VestBack => "VestBack"@,
            PositionType::GloveL => "GloveL"@,
            PositionType::GloveR => "GloveR"@,
            PositionType::Custom1 => "Custom1"@,
            PositionType::Custom2 => "Custom2"@,
            PositionType::Custom3 => "Custom3"@,
            PositionType::Custom4 => "Custom4"@,
        }
    }

    fn parse(name: &str) -> (r: Option<PositionType>) {
        if same_text(name, "All") {
            Some(PositionType::All)
        } else if same_text(name, "Left") {
            Some(PositionType::Left)
        } else if same_text(name, "Right") {
            Some(PositionType::Right)
        } else if same_text(name, "Vest") {
            Some(PositionType::Vest)
        } else if same_text(name, "Head") {
            Some(PositionType::Head)
        } else if same_text(name, "Racket") {
            Some(PositionType::Racket)
        } else if same_text(name, "HandL") {
            Some(PositionType::HandL)
        } else if same_text(name, "HandR") {
            Some(PositionType::HandR)
        } else if same_text(name, "FootL") {
            Some(PositionType::FootL)
        } else if same_text(name, "FootR") {
            Some(PositionType::FootR)
        } else if same_text(name, "ForearmL") {
            Some(PositionType::ForearmL)
        } else if same_text(name, "ForearmR") {
            Some(PositionType::ForearmR)
        } else if same_text(name, "VestFront") {
            Some(PositionType::VestFront)
        } else if same_text(name, "VestBack") {
            Some(PositionType::VestBack)
        } else if same_text(name, "GloveL") {
            Some(PositionType::GloveL)
        } else if same_text(name, "GloveR") {
            Some(PositionType::GloveR)
        } else if same_text(name, "Custom1") {
            Some(PositionType::Custom1)
        } else if same_text(name, "Custom2") {
            Some(PositionType::Custom2)
        } else if same_text(name, "Custom3") {
            Some(PositionType::Custom3)
        } else if same_text(name, "Custom4") {
            Some(PositionType::Custom4)
        } else {
            None
        }
    }

    fn wire_name(self) -> (r: &'static str) {
        match self {
            PositionType::All => "All",
            PositionType::Left => "Left",
            PositionType::Right => "Right",
            PositionType::Vest => "Vest",
            PositionType::Head => "Head",
            PositionType::Racket => "Racket",
            PositionType::HandL => "HandL",
            PositionType::HandR => "HandR",
            PositionType::FootL => "FootL",
            PositionType::FootR => "FootR",
            PositionType::ForearmL => "ForearmL",
            PositionType::ForearmR => "ForearmR",
            PositionType::VestFront => "VestFront",
            PositionType::VestBack => "VestBack",
            PositionType::GloveL => "GloveL",
            PositionType::GloveR => "GloveR",
            PositionType::Custom1 => "Custom1",
            PositionType::Custom2 => "Custom2",
            PositionType::Custom3 => "Custom3",
            PositionType::Custom4 => "Custom4",
        }
    }

    proof fn lemma_name_round_trip(self) {
        reveal_strlit("All");
        reveal_strlit("Left");
        reveal_strlit("Right");
        reveal_strlit("Vest");
        reveal_strlit("Head");
        reveal_strlit("Racket");
        reveal_strlit("HandL");
        reveal_strlit("HandR");
        reveal_strlit("FootL");
        reveal_strlit("FootR");
        reveal_strlit("ForearmL");
        reveal_strlit("ForearmR");
        reveal_strlit("VestFront");
        reveal_strlit("VestBack");
        reveal_strlit("GloveL");
        reveal_strlit("GloveR");
        reveal_strlit("Custom1");
        reveal_strlit("Custom2");
        reveal_strlit("Custom3");
        reveal_strlit("Custom4");
        assert("All"@ =~= seq!['A', 'l', 'l']);
        assert("Left"@ =~= seq!['L', 'e', 'f', 't']);
        assert("Right"@ =~= seq!['R', 'i', 'g', 'h', 't']);
        assert("Vest"@ =~= seq!['V', 'e', 's', 't']);
        assert("Head"@ =~= seq!['H', 'e', 'a', 'd']);
        assert("Racket"@ =~= seq!['R', 'a', 'c', 'k', 'e', 't']);
        assert("HandL"@ =~= seq!['H', 'a', 'n', 'd', 'L']);
        assert("HandR"@ =~= seq!['H', 'a', 'n', 'd', 'R']);
        assert("FootL"@ =~= seq!['F', 'o', 'o', 't', 'L']);
        assert("FootR"@ =~= seq!['F', 'o', 'o', 't', 'R']);
        assert("ForearmL"@ =~= seq!['F', 'o', 'r', 'e', 'a', 'r', 'm', 'L']);
        assert("ForearmR"@ =~= seq!['F', 'o', 'r', 'e', 'a', 'r', 'm', 'R']);
        assert("VestFront"@ =~= seq!['V', 'e', 's', 't', 'F', 'r', 'o', 'n', 't']);
        assert("VestBack"@ =~= seq!['V', 'e', 's', 't', 'B', 'a', 'c', 'k']);
        assert("GloveL"@ =~= seq!['G', 'l', 'o', 'v', 'e', 'L']);
        assert("GloveR"@ =~= seq!['G', 'l', 'o', 'v', 'e', 'R']);
        assert("Custom1"@ =~= seq!['C', 'u', 's', 't', 'o', 'm', '1']);
        assert("Custom2"@ =~= seq!['C', 'u', 's', 't', 'o', 'm', '2']);
        assert("Custom3"@ =~= seq!['C', 'u', 's', 't', 'o', 'm', '3']);
        assert("Custom4"@ =~= seq!['C', 'u', 's', 't', 'o', 'm', '4']);
    }
}

/// The number of motor intensities that a status reply gives for a position.
pub const MOTORS_PER_POSITION: usize = 20;

/// The greatest motor intensity that a status reply gives.
pub const MAX_INTENSITY: u8 = 100;

/// The motor intensities at one body position, as the playback engine has
/// them: as many as the device has motors, each as the engine drives it.
#[derive(Clone, Debug, PartialEq, Eq)]
pub struct PositionMotors {
    pub position: PositionType,
    pub motors: Vec<u8>,
}

/// The mathematical value of a [`PositionMotors`].
pub struct PositionMotorsView {
    pub position: PositionType,
    pub motors: Seq<u8>,
}

impl View for PositionMotors {
    type V = PositionMotorsView;

    open spec fn view(&self) -> PositionMotorsView {
        PositionMotorsView { position: self.position, motors: self.motors@ }
    }
}

/// The state of the playback engine at one moment.
#[derive(Clone, Debug, PartialEq, Eq)]
pub struct EngineStateSnapshot {
    pub registered_keys: Vec<String>,
    pub active_keys: Vec<String>,
    pub connected_device_count: u32,
    pub connected_positions: Vec<PositionType>,
    pub motors: Vec<PositionMotors>,
}

/// The mathematical value of an [`EngineStateSnapshot`].
pub struct EngineStateSnapshotView {
    pub registered_keys: Seq<Seq<char>>,
    pub active_keys: Seq<Seq<char>>,
    pub connected_device_count: u32,
    pub connected_positions: Seq<PositionType>,
    pub motors: Seq<PositionMotorsView>,
}

impl View for EngineStateSnapshot {
    type V = EngineStateSnapshotView;

    open spec fn view(&self) -> EngineStateSnapshotView {
        EngineStateSnapshotView {
            registered_keys: views(self.registered_keys@),
            active_keys: views(self.active_keys@),
            connected_device_count: self.connected_device_count,
            connected_positions: self.connected_positions@,
            motors: views(self.motors@),
        }
    }
}

/// The motor intensities of one position in a status reply.
#[derive(Clone, Debug, PartialEq, Eq)]
pub struct PositionStatus {
    pub position: String,
    pub motors: Vec<u8>,
}

/// The mathematical value of a [`PositionStatus`].
pub struct PositionStatusView {
    pub position: Seq<char>,
    pub motors: Seq<u8>,
}

impl View for PositionStatus {
    type V = PositionStatusView;

    open spec fn view(&self) -> PositionStatusView {
        PositionStatusView { position: self.position@, motors: self.motors@ }
    }
}

/// The status reply that the server sends to a client.
#[derive(Clone, Debug, PartialEq, Eq)]
pub struct BHapticsWebsocketV2ServerMessage {
    pub registered_keys: Vec<String>,
    pub active_keys: Vec<String>,
    pub connected_device_count: u32,
    pub connected_positions: Vec<String>,
    pub status: Vec<PositionStatus>,
}

/// The mathematical value of a [`BHapticsWebsocketV2ServerMessage`].
pub struct ServerMessageView {
    pub registered_keys: Seq<Seq<char>>,
    pub active_keys: Seq<Seq<char>>,
    pub connected_device_count: u32,
    pub connected_positions: Seq<Seq<char>>,
    pub status: Seq<PositionStatusView>,
}

impl View for BHapticsWebsocketV2ServerMessage {
    type V = ServerMessageView;

    open spec fn view(&self) -> ServerMessageView {
        ServerMessageView {
            registered_keys: views(self.registered_keys@),
            active_keys: views(self.active_keys@),
            connected_device_count: self.connected_device_count,
            connected_positions: views(self.connected_positions@),
            status: views(self.status@),
        }
    }
}

/// The intensities that a reply gives for the motors `motors`: one for each
/// of [`MOTORS_PER_POSITION`] places, the engine's where it has one and zero
/// where it has none, and none above [`MAX_INTENSITY`].
pub open spec fn reported_motors(motors: Seq<u8>) -> Seq<u8> {
    Seq::new(
        MOTORS_PER_POSITION as nat,
        |i: int|
            if i < motors.len() {
                if motors[i] > MAX_INTENSITY {
                    MAX_INTENSITY
                } else {
                    motors[i]
                }
            } else {
                0u8
            },
    )
}

/// Whether the position of entry `i` is that of an earlier entry.
pub open spec fn repeats_position(entries: Seq<PositionMotorsView>, i: int) -> bool {
    exists|k: int| 0 <= k < i && (#[trigger] entries[k]).position == entries[i].position
}

/// The status of the first `n` entries: one line for each position, in the
/// order in which the positions first occur.
pub open spec fn status_among(entries: Seq<PositionMotorsView>, n: int) -> Seq<PositionStatusView>
    decreases n,
{
    if n <= 0 {
        Seq::empty()
    } else {
        let before = status_among(entries, n - 1);
        if repeats_position(entries, n - 1) {
            before
        } else {
            before.push(
                PositionStatusView {
                    position: entries[n - 1].position.name_of(),
                    motors: reported_motors(entries[n - 1].motors),
                },
            )
        }
    }
}

/// The names of positions, one by one.
pub open spec fn position_names(positions: Seq<PositionType>) -> Seq<Seq<char>> {
    Seq::new(positions.len(), |i: int| positions[i].name_of())
}

/// The status reply for a snapshot of the engine.
pub open spec fn status_of(snapshot: EngineStateSnapshotView) -> ServerMessageView {
    ServerMessageView {
        registered_keys: snapshot.registered_keys,
        active_keys: snapshot.active_keys,
        connected_device_count: snapshot.connected_device_count,
        connected_positions: position_names(snapshot.connected_positions),
        status: status_among(snapshot.motors, snapshot.motors.len() as int),
    }
}

impl PositionStatusView {
    /// The line has [`MOTORS_PER_POSITION`] intensities, none above
    /// [`MAX_INTENSITY`].
    pub open spec fn wf(self) -> bool {
        &&& self.motors.len() == MOTORS_PER_POSITION
        &&& forall|k: int| 0 <= k < self.motors.len() ==> #[trigger] self.motors[k] <= MAX_INTENSITY
    }
}

/// Every line is well formed.
pub open spec fn lines_well_formed(lines: Seq<PositionStatusView>) -> bool {
    forall|i: int| 0 <= i < lines.len() ==> (#[trigger] lines[i]).wf()
}

/// No position has two lines.
pub open spec fn one_line_each(lines: Seq<PositionStatusView>) -> bool {
    forall|i: int, j: int|
        0 <= i < j < lines.len() ==> (#[trigger] lines[i]).position
            != (#[trigger] lines[j]).position
}

/// Every line goes by the position of one of the first `n` entries.
pub open spec fn lines_drawn_from(
    lines: Seq<PositionStatusView>,
    entries: Seq<PositionMotorsView>,
    n: int,
) -> bool {
    forall|i: int|
        0 <= i < lines.len() ==> exists|k: int|
            0 <= k < n && (#[trigger] entries[k]).position.name_of()
                == (#[trigger] lines[i]).position
}

impl ServerMessageView {
    /// Every line of the status is well formed, and no position has two
    /// lines.
    pub open spec fn wf(self) -> bool {
        lines_well_formed(self.status) && one_line_each(self.status)
    }
}

/// Two positions of the same name are the same position.
pub proof fn lemma_position_names_differ(a: PositionType, b: PositionType)
    ensures
        a.name_of() == b.name_of() ==> a == b,
{
    a.lemma_name_round_trip();
    b.lemma_name_round_trip();
}

/// The status of the first `n` entries has well-formed lines, one for each
/// position among those entries.
pub proof fn lemma_status_among(entries: Seq<PositionMotorsView>, n: int)
    requires
        0 <= n <= entries.len(),
    ensures
        lines_well_formed(status_among(entries, n)),
        lines_drawn_from(status_among(entries, n), entries, n),
        one_line_each(status_among(entries, n)),
    decreases n,
{
    if n > 0 {
        lemma_status_among(entries, n - 1);
        let before = status_among(entries, n - 1);
        let now = status_among(entries, n);
        let last = entries[n - 1];
        assert forall|i: int| 0 <= i < now.len() implies (#[trigger] now[i]).wf() by {
            if i < before.len() {
                assert(now[i] == before[i]);
            } else {
                assert(now[i].motors == reported_motors(last.motors));
            }
        }
        assert forall|i: int| 0 <= i < now.len() implies exists|k: int|
            0 <= k < n && (#[trigger] entries[k]).position.name_of()
                == (#[trigger] now[i]).position by {
            if i < before.len() {
                assert(now[i] == before[i]);
                let k = choose|k: int|
                    0 <= k < n - 1 && (#[trigger] entries[k]).position.name_of()
                        == before[i].position;
                assert(0 <= k < n && entries[k].position.name_of() == now[i].position);
            } else {
                assert(last.position.name_of() == now[i].position);
            }
        }
        assert forall|i: int, j: int| 0 <= i < j < now.len() implies (#[trigger] now[i]).position
            != (#[trigger] now[j]).position by {
            assert(now[i] == before[i]);
            if j < before.len() {
                assert(now[j] == before[j]);
            } else {
                let k = choose|k: int|
                    0 <= k < n - 1 && (#[trigger] entries[k]).position.name_of()
                        == before[i].position;
                lemma_position_names_differ(entries[k].position, last.position);
            }
        }
    }
}

/// Brings the intensities of one position to the form of a reply.
fn report_motors(motors: &Vec<u8>) -> (r: Vec<u8>)
    ensures
        r@ == reported_motors(motors@),
{
    let mut out: Vec<u8> = Vec::new();
    let mut i: usize = 0;
    while i < MOTORS_PER_POSITION
        invariant
            i <= MOTORS_PER_POSITION,
            out@.len() == i,
            forall|k: int| 0 <= k < i ==> out@[k] == reported_motors(motors@)[k],
        decreases MOTORS_PER_POSITION - i,
    {
        let value = if i < motors.len() {
            if motors[i] > MAX_INTENSITY {
                MAX_INTENSITY
            } else {
                motors[i]
            }
        } else {
            0
        };
        out.push(value);
        i += 1;
    }
    assert(out@ =~= reported_motors(motors@));
    out
}

/// Whether the position of entry `i` is that of an earlier entry.
fn position_repeats(entries: &Vec<PositionMotors>, i: usize) -> (r: bool)
    requires
        i < entries@.len(),
    ensures
        r == repeats_position(views(entries@), i as int),
{
    let ghost all = views(entries@);
    let mut k: usize = 0;
    while k < i
        invariant
            k <= i,
            i < entries@.len(),
            all == views(entries@),
            forall|a: int| 0 <= a < k ==> (#[trigger] all[a]).position != all[i as int].position,
        decreases i - k,
    {
        if entries[k].position == entries[i].position {
            assert(all[k as int].position == all[i as int].position);
            return true;
        }
        k += 1;
    }
    false
}

/// Assembles the status reply for a snapshot of the playback engine. Keys
/// and the device count are passed on; positions are given by name; the
/// motors of each position are reported once, under the position's first
/// entry, in the fixed length and range of a reply.
pub fn build_status(snapshot: EngineStateSnapshot) -> (r: BHapticsWebsocketV2ServerMessage)
    ensures
        r@ == status_of(snapshot@),
        r@.wf(),
{
    let mut connected_positions: Vec<String> = Vec::new();
    let mut i: usize = 0;
    while i < snapshot.connected_positions.len()
        invariant
            i <= snapshot.connected_positions.len(),
            connected_positions@.len() == i,
            forall|k: int|
                0 <= k < i ==> (#[trigger] connected_positions@[k])@
                    == snapshot.connected_positions@[k].name_of(),
        decreases snapshot.connected_positions.len() - i,
    {
        connected_positions.push(String::from_str(snapshot.connected_positions[i].wire_name()));
        i += 1;
    }
    assert(views(connected_positions@) =~= position_names(snapshot.connected_positions@));
    let ghost entries = views(snapshot.motors@);
    let mut status: Vec<PositionStatus> = Vec::new();
    let mut j: usize = 0;
    assert(views(status@) =~= status_among(entries, 0));
    while j < snapshot.motors.len()
        invariant
            j <= snapshot.motors.len(),
            entries == views(snapshot.motors@),
            views(status@) == status_among(entries, j as int),
        decreases snapshot.motors.len() - j,
    {
        if !position_repeats(&snapshot.motors, j) {
            let ghost before = status@;
            let line = PositionStatus {
                position: String::from_str(snapshot.motors[j].position.wire_name()),
                motors: report_motors(&snapshot.motors[j].motors),
            };
            status.push(line);
            assert(views(status@) =~= views(before).push(line@));
        }
        j += 1;
    }
    proof {
        lemma_status_among(entries, entries.len() as int);
    }
    BHapticsWebsocketV2ServerMessage {
        registered_keys: snapshot.registered_keys,
        active_keys: snapshot.active_keys,
        connected_device_count: snapshot.connected_device_count,
        connected_positions,
        status,
    }
}

/// The array of strings that a list of texts is written as.
pub open spec fn texts_encoded(texts: Seq<Seq<char>>) -> JsonView {
    JsonView::Array(Seq::new(texts.len(), |i: int| JsonView::Text(texts[i])))
}

/// The array of numbers that a list of intensities is written as.
pub open spec fn motors_encoded(motors: Seq<u8>) -> JsonView {
    JsonView::Array(Seq::new(motors.len(), |i: int| numeral(motors[i] as nat)))
}

/// The object that the lines of a status are written as: one member for each
/// line, under the name of its position.
pub open spec fn lines_encoded(lines: Seq<PositionStatusView>) -> JsonView {
    JsonView::Object(
        Seq::new(
            lines.len(),
            |i: int| MemberView { name: lines[i].position, value: motors_encoded(lines[i].motors) },
        ),
    )
}

/// The JSON document that a status reply is written as.
pub open spec fn status_encoded(v: ServerMessageView) -> JsonView {
    JsonView::Object(
        seq![
            holding(Field::StatusRegisteredKeys, texts_encoded(v.registered_keys)),
            holding(Field::StatusActiveKeys, texts_encoded(v.active_keys)),
            holding(Field::StatusConnectedDeviceCount, numeral(v.connected_device_count as nat)),
            holding(Field::StatusConnectedPositions, texts_encoded(v.connected_positions)),
            holding(Field::StatusStatus, lines_encoded(v.status)),
        ],
    )
}

/// Writes a list of texts as an array of strings.
fn encode_texts(texts: &Vec<String>) -> (j: Json)
    ensures
        j@ == texts_encoded(views(texts@)),
{
    let mut out: Vec<Json> = Vec::new();
    let mut i: usize = 0;
    while i < texts.len()
        invariant
            i <= texts.len(),
            out@.len() == i,
            forall|k: int| 0 <= k < i ==> (#[trigger] out@[k])@ == JsonView::Text(texts@[k]@),
        decreases texts.len() - i,
    {
        out.push(Json::Text(texts[i].clone()));
        i += 1;
    }
    proof {
        lemma_array_view(out);
        assert(item_views(out@) =~= texts_encoded(views(texts@))->Array_0);
    }
    Json::Array(out)
}

/// Writes a list of intensities as an array of numbers.
fn encode_motors(motors: &Vec<u8>) -> (j: Json)
    ensures
        j@ == motors_encoded(motors@),
{
    let mut out: Vec<Json> = Vec::new();
    let mut i: usize = 0;
    while i < motors.len()
        invariant
            i <= motors.len(),
            out@.len() == i,
            forall|k: int| 0 <= k < i ==> (#[trigger] out@[k])@ == numeral(motors@[k] as nat),
        decreases motors.len() - i,
    {
        out.push(number(motors[i] as u64));
        i += 1;
    }
    proof {
        lemma_array_view(out);
        assert(item_views(out@) =~= motors_encoded(motors@)->Array_0);
    }
    Json::Array(out)
}

/// Writes the lines of a status as an object.
fn encode_lines(lines: &Vec<PositionStatus>) -> (j: Json)
    ensures
        j@ == lines_encoded(views(lines@)),
{
    let mut out: Vec<Member> = Vec::new();
    let mut i: usize = 0;
    while i < lines.len()
        invariant
            i <= lines.len(),
            out@.len() == i,
            forall|k: int|
                0 <= k < i ==> (#[trigger] out@[k])@ == (MemberView {
                    name: lines@[k].position@,
                    value: motors_encoded(lines@[k].motors@),
                }),
        decreases lines.len() - i,
    {
        out.push(
            Member { name: lines[i].position.clone(), value: encode_motors(&lines[i].motors) },
        );
        i += 1;
    }
    proof {
        lemma_object_view(out);
        assert(member_views(out@) =~= lines_encoded(views(lines@))->Object_0);
    }
    Json::Object(out)
}

impl BHapticsWebsocketV2ServerMessage {
    /// Writes the reply as a JSON document.
    pub fn to_json(&self) -> (j: Json)
        ensures
            j@ == status_encoded(self@),
    {
        let mut ms: Vec<Member> = Vec::new();
        ms.push(hold(Field::StatusRegisteredKeys, encode_texts(&self.registered_keys)));
        ms.push(hold(Field::StatusActiveKeys, encode_texts(&self.active_keys)));
        ms.push(
            hold(Field::StatusConnectedDeviceCount, number(self.connected_device_count as u64)),
        );
        ms.push(hold(Field::StatusConnectedPositions, encode_texts(&self.connected_positions)));
        ms.push(hold(Field::StatusStatus, encode_lines(&self.status)));
        proof {
            lemma_object_view(ms);
            assert(member_views(ms@) =~= status_encoded(self@)->Object_0);
        }
        Json::Object(ms)
    }
}

} // verus!
