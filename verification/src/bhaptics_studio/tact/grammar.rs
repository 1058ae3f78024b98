//! The wire grammar's field table.
//!
//! Every field of every message has one entry here: the names under which it
//! is accepted on the wire, the first of which is the name it is written
//! under. The table stands twice, as the specification `wire_names` and as
//! the executable `names`, which is proved to agree with it. Decoding
//! consults this table and nothing else, so a further alias is one more
//! string in the field's row of each, and no change to any decoder.

use vstd::prelude::*;
use crate::text::same_text;

verus! {

/// A field of a wire message.
#[derive(Clone, Copy, Debug, PartialEq, Eq, Structural)]
pub enum Field {
    /// The `Register` form of a client message: a list of entries.
    Register,
    /// The `Submit` form of a client message: a list of operations.
    Submit,
    /// Register entry: the key to bind the project to.
    EntryKey,
    /// Register entry: the project.
    EntryProject,
    /// Project: identifier.
    ProjectId,
    /// Project: description.
    ProjectDescription,
    /// Project: name.
    ProjectName,
    /// Project: media duration.
    ProjectMediaFileDuration,
    /// Project: device layout.
    ProjectLayout,
    /// Project: tracks.
    ProjectTracks,
    /// Project: creation time.
    ProjectCreatedAt,
    /// Project: last update time.
    ProjectUpdatedAt,
    /// Layout: device type.
    LayoutType,
    /// Layout: name.
    LayoutName,
    /// Layout: the named point lists.
    LayoutLayouts,
    /// Layout point: motor index.
    LayoutObjectIndex,
    /// Layout point: horizontal place.
    LayoutObjectX,
    /// Layout point: vertical place.
    LayoutObjectY,
    /// Track: enabled flag.
    TrackEnable,
    /// Track: effects.
    TrackEffects,
    /// Effect: name.
    EffectName,
    /// Effect: feedback per body position.
    EffectModes,
    /// Effect: start time.
    EffectStartTime,
    /// Effect: offset time.
    EffectOffsetTime,
    /// Effect mode: which of the two feedback kinds is active.
    ModeMode,
    /// Effect mode: dot feedback.
    ModeDotMode,
    /// Effect mode: path feedback.
    ModePathMode,
    /// Dot mode: whether consecutive dots are joined.
    DotModeDotConnected,
    /// Dot mode: feedback windows.
    DotModeFeedback,
    /// Dot window: start time.
    DotFeedbackStartTime,
    /// Dot window: end time.
    DotFeedbackEndTime,
    /// Dot window: playback curve.
    DotFeedbackPlaybackType,
    /// Dot window: points.
    DotFeedbackPointList,
    /// Path mode: feedback windows.
    PathModeFeedback,
    /// Path window: moving pattern.
    PathFeedbackMovingPattern,
    /// Path window: playback curve.
    PathFeedbackPlaybackType,
    /// Path window: visibility in the editor.
    PathFeedbackVisible,
    /// Path window: points.
    PathFeedbackPointList,
    /// Submit operation: the discriminator.
    SubmitType,
    /// Submit operation: the key it addresses.
    SubmitKey,
    /// Submit operation: the frame to play.
    SubmitFrame,
    /// Submit operation: playback parameters.
    SubmitParameters,
    /// Parameters: alternative key.
    ParametersAltKey,
    /// Parameters: start offset.
    ParametersStartTimeMillis,
    /// Parameters: scale pair.
    ParametersScaleOption,
    /// Parameters: rotation offsets.
    ParametersRotationOption,
    /// Scale: intensity factor.
    ScaleIntensity,
    /// Scale: duration factor.
    ScaleDuration,
    /// Rotation: horizontal angle offset.
    RotationOffsetAngleX,
    /// Rotation: vertical offset.
    RotationOffsetY,
    /// Frame: body position.
    FramePosition,
    /// Frame: path points.
    FramePathPoints,
    /// Frame: dot points.
    FrameDotPoints,
    /// Frame: duration.
    FrameDurationMillis,
    /// Path point: horizontal place.
    PathPointX,
    /// Path point: vertical place.
    PathPointY,
    /// Path point: intensity.
    PathPointIntensity,
    /// Dot point: motor index.
    DotPointIndex,
    /// Dot point: intensity.
    DotPointIntensity,
    /// Dot point: motor count.
    DotPointMotorCount,
    /// Status reply: registered keys.
    StatusRegisteredKeys,
    /// Status reply: active keys.
    StatusActiveKeys,
    /// Status reply: number of connected devices.
    StatusConnectedDeviceCount,
    /// Status reply: connected body positions.
    StatusConnectedPositions,
    /// Status reply: motor intensities per position.
    StatusStatus,
}

impl Field {
    /// The names under which the field is accepted, canonical name first.
    pub open spec fn wire_names(self) -> Seq<Seq<char>> {
        match self {
            Field::Register => seq!["Register"@],
            Field::Submit => seq!["Submit"@],
            Field::EntryKey => seq!["key"@, "Key"@],
            Field::EntryProject => seq!["project"@, "Project"@],
            Field::ProjectId => seq!["id"@],
            Field::ProjectDescription => seq!["description"@],
            Field::ProjectName => seq!["name"@],
            Field::ProjectMediaFileDuration => seq!["media_file_duration"@, "mediaFileDuration"@],
            Field::ProjectLayout => seq!["layout"@],
            Field::ProjectTracks => seq!["tracks"@],
            Field::ProjectCreatedAt => seq!["created_at"@, "createdAt"@],
            Field::ProjectUpdatedAt => seq!["updated_at"@, "updatedAt"@],
            Field::LayoutType => seq!["type"@, "Type"@],
            Field::LayoutName => seq!["name"@],
            Field::LayoutLayouts => seq!["layouts"@],
            Field::LayoutObjectIndex => seq!["index"@],
            Field::LayoutObjectX => seq!["x"@],
            Field::LayoutObjectY => seq!["y"@],
            Field::TrackEnable => seq!["enable"@, "Enable"@],
            Field::TrackEffects => seq!["effects"@, "Effects"@],
            Field::EffectName => seq!["name"@],
            Field::EffectModes => seq!["modes"@],
            Field::EffectStartTime => seq!["start_time"@, "startTime"@],
            Field::EffectOffsetTime => seq!["offset_time"@, "offsetTime"@],
            Field::ModeMode => seq!["mode"@],
            Field::ModeDotMode => seq!["dotMode"@],
            Field::ModePathMode => seq!["pathMode"@],
            Field::DotModeDotConnected => seq!["dot_connected"@, "dotConnected"@],
            Field::DotModeFeedback => seq!["feedback"@],
            Field::DotFeedbackStartTime => seq!["start_time"@, "startTime"@],
            Field::DotFeedbackEndTime => seq!["end_time"@, "endTime"@],
            Field::DotFeedbackPlaybackType => seq!["playback_type"@, "playbackType"@],
            Field::DotFeedbackPointList => seq!["point_list"@, "pointList"@],
            Field::PathModeFeedback => seq!["feedback"@],
            Field::PathFeedbackMovingPattern => seq!["moving_pattern"@, "movingPattern"@],
            Field::PathFeedbackPlaybackType => seq!["playback_type"@, "playbackType"@],
            Field::PathFeedbackVisible => seq!["visible"@],
            Field::PathFeedbackPointList => seq!["point_list"@, "pointList"@],
            Field::SubmitType => seq!["Type"@],
            Field::SubmitKey => seq!["key"@, "Key"@],
            Field::SubmitFrame => seq!["frame"@, "Frame"@],
            Field::SubmitParameters => seq!["parameters"@, "Parameters"@],
            Field::ParametersAltKey => seq!["altKey"@],
            Field::ParametersStartTimeMillis => seq!["startTimeMillis"@],
            Field::ParametersScaleOption => seq!["scaleOption"@],
            Field::ParametersRotationOption => seq!["rotationOption"@],
            Field::ScaleIntensity => seq!["intensity"@],
            Field::ScaleDuration => seq!["duration"@],
            Field::RotationOffsetAngleX => seq!["offsetAngleX"@],
            Field::RotationOffsetY => seq!["offset_y"@, "offsetY"@],
            Field::FramePosition => seq!["position"@, "Position"@],
            Field::FramePathPoints => seq!["path_points"@, "PathPoints"@],
            Field::FrameDotPoints => seq!["dot_points"@, "DotPoints"@],
            Field::FrameDurationMillis => seq!["duration_millis"@, "DurationMillis"@],
            Field::PathPointX => seq!["x"@, "X"@],
            Field::PathPointY => seq!["y"@, "Y"@],
            Field::PathPointIntensity => seq!["intensity"@, "Intensity"@],
            Field::DotPointIndex => seq!["index"@, "Index"@],
            Field::DotPointIntensity => seq!["intensity"@, "Intensity"@],
            Field::DotPointMotorCount => seq!["motor_count"@, "MotorCount"@],
            Field::StatusRegisteredKeys => seq!["RegisteredKeys"@],
            Field::StatusActiveKeys => seq!["ActiveKeys"@],
            Field::StatusConnectedDeviceCount => seq!["ConnectedDeviceCount"@],
            Field::StatusConnectedPositions => seq!["ConnectedPositions"@],
            Field::StatusStatus => seq!["Status"@],
        }
    }

    /// The name under which the field is written, and by which errors name it.
    pub open spec fn canonical(self) -> Seq<char> {
        self.wire_names()[0]
    }

    /// Whether `name` is one of the field's wire names.
    pub open spec fn accepts(self, name: Seq<char>) -> bool {
        self.wire_names().contains(name)
    }

    /// The table row of the field.
    pub fn names(self) -> (r: Vec<&'static str>)
        ensures
            r@.len() > 0,
            r@.len() == self.wire_names().len(),
            forall|i: int| 0 <= i < r@.len() ==> (#[trigger] r@[i])@ == self.wire_names()[i],
    {
        match self {
            Field::Register => vec!["Register"],
            Field::Submit => vec!["Submit"],
            Field::EntryKey => vec!["key", "Key"],
            Field::EntryProject => vec!["project", "Project"],
            Field::ProjectId => vec!["id"],
            Field::ProjectDescription => vec!["description"],
            Field::ProjectName => vec!["name"],
            Field::ProjectMediaFileDuration => vec!["media_file_duration", "mediaFileDuration"],
            Field::ProjectLayout => vec!["layout"],
            Field::ProjectTracks => vec!["tracks"],
            Field::ProjectCreatedAt => vec!["created_at", "createdAt"],
            Field::ProjectUpdatedAt => vec!["updated_at", "updatedAt"],
            Field::LayoutType => vec!["type", "Type"],
            Field::LayoutName => vec!["name"],
            Field::LayoutLayouts => vec!["layouts"],
            Field::LayoutObjectIndex => vec!["index"],
            Field::LayoutObjectX => vec!["x"],
            Field::LayoutObjectY => vec!["y"],
            Field::TrackEnable => vec!["enable", "Enable"],
            Field::TrackEffects => vec!["effects", "Effects"],
            Field::EffectName => vec!["name"],
            Field::EffectModes => vec!["modes"],
            Field::EffectStartTime => vec!["start_time", "startTime"],
            Field::EffectOffsetTime => vec!["offset_time", "offsetTime"],
            Field::ModeMode => vec!["mode"],
            Field::ModeDotMode => vec!["dotMode"],
            Field::ModePathMode => vec!["pathMode"],
            Field::DotModeDotConnected => vec!["dot_connected", "dotConnected"],
            Field::DotModeFeedback => vec!["feedback"],
            Field::DotFeedbackStartTime => vec!["start_time", "startTime"],
            Field::DotFeedbackEndTime => vec!["end_time", "endTime"],
            Field::DotFeedbackPlaybackType => vec!["playback_type", "playbackType"],
            Field::DotFeedbackPointList => vec!["point_list", "pointList"],
            Field::PathModeFeedback => vec!["feedback"],
            Field::PathFeedbackMovingPattern => vec!["moving_pattern", "movingPattern"],
            Field::PathFeedbackPlaybackType => vec!["playback_type", "playbackType"],
            Field::PathFeedbackVisible => vec!["visible"],
            Field::PathFeedbackPointList => vec!["point_list", "pointList"],
            Field::SubmitType => vec!["Type"],
            Field::SubmitKey => vec!["key", "Key"],
            Field::SubmitFrame => vec!["frame", "Frame"],
            Field::SubmitParameters => vec!["parameters", "Parameters"],
            Field::ParametersAltKey => vec!["altKey"],
            Field::ParametersStartTimeMillis => vec!["startTimeMillis"],
            Field::ParametersScaleOption => vec!["scaleOption"],
            Field::ParametersRotationOption => vec!["rotationOption"],
            Field::ScaleIntensity => vec!["intensity"],
            Field::ScaleDuration => vec!["duration"],
            Field::RotationOffsetAngleX => vec!["offsetAngleX"],
            Field::RotationOffsetY => vec!["offset_y", "offsetY"],
            Field::FramePosition => vec!["position", "Position"],
            Field::FramePathPoints => vec!["path_points", "PathPoints"],
            Field::FrameDotPoints => vec!["dot_points", "DotPoints"],
            Field::FrameDurationMillis => vec!["duration_millis", "DurationMillis"],
            Field::PathPointX => vec!["x", "X"],
            Field::PathPointY => vec!["y", "Y"],
            Field::PathPointIntensity => vec!["intensity", "Intensity"],
            Field::DotPointIndex => vec!["index", "Index"],
            Field::DotPointIntensity => vec!["intensity", "Intensity"],
            Field::DotPointMotorCount => vec!["motor_count", "MotorCount"],
            Field::StatusRegisteredKeys => vec!["RegisteredKeys"],
            Field::StatusActiveKeys => vec!["ActiveKeys"],
            Field::StatusConnectedDeviceCount => vec!["ConnectedDeviceCount"],
            Field::StatusConnectedPositions => vec!["ConnectedPositions"],
            Field::StatusStatus => vec!["Status"],
        }
    }

    /// Whether `name` is one of the field's wire names.
    pub fn admits(self, name: &str) -> (r: bool)
        ensures
            r == self.accepts(name@),
    {
        let names = self.names();
        let mut i: usize = 0;
        while i < names.len()
            invariant
                i <= names.len(),
                names@.len() == self.wire_names().len(),
                forall|k: int|
                    0 <= k < names@.len() ==> (#[trigger] names@[k])@ == self.wire_names()[k],
                forall|k: int| 0 <= k < i ==> self.wire_names()[k] != name@,
            decreases names.len() - i,
        {
            if same_text(names[i], name) {
                assert(self.wire_names()[i as int] == name@);
                return true;
            }
            assert(names@[i as int]@ == self.wire_names()[i as int]);
            i += 1;
        }
        false
    }

    /// The canonical name of the field.
    pub fn name(self) -> (r: &'static str)
        ensures
            r@ == self.canonical(),
    {
        let names = self.names();
        names[0]
    }
}

/// Whether two fields share no wire name.
pub open spec fn share_no_name(a: Field, b: Field) -> bool {
    forall|name: Seq<char>| !(#[trigger] a.accepts(name) && #[trigger] b.accepts(name))
}

/// Whether the fields of a message can be told apart by name: no name is a
/// wire name of two of them.
pub open spec fn unambiguous(fields: Seq<Field>) -> bool {
    forall|a: int, b: int|
        0 <= a < b < fields.len() ==> share_no_name(#[trigger] fields[a], #[trigger] fields[b])
}

/// Two fields whose wire names differ pair by pair share no name.
pub proof fn lemma_share_no_name(a: Field, b: Field)
    requires
        forall|i: int, j: int|
            0 <= i < a.wire_names().len() && 0 <= j < b.wire_names().len()
                ==> #[trigger] a.wire_names()[i] != #[trigger] b.wire_names()[j],
    ensures
        share_no_name(a, b),
{
    assert forall|name: Seq<char>| !(#[trigger] a.accepts(name) && #[trigger] b.accepts(name)) by {
        if a.accepts(name) && b.accepts(name) {
            let i = choose|i: int| 0 <= i < a.wire_names().len() && a.wire_names()[i] == name;
            let j = choose|j: int| 0 <= j < b.wire_names().len() && b.wire_names()[j] == name;
            assert(a.wire_names()[i] != b.wire_names()[j]);
        }
    }
}

/// A field accepts its canonical name.
pub proof fn lemma_accepts_canonical(field: Field)
    ensures
        field.accepts(field.canonical()),
{
    let names = field.wire_names();
    assert(names.len() > 0 && names[0] == field.canonical());
}

} // verus!
