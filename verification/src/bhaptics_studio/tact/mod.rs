//! The Tact protocol: the messages a client sends, and how they are read.
//!
//! A client message is either a list of projects to register under keys, or
//! a list of operations to carry out in order. The wire form is JSON; field
//! names come in more than one spelling, and keys come as strings or numbers.
//! Decoding accepts every form that the field table lists and rejects the
//! rest with a [`DecodeError`](error::DecodeError), never with a default.

pub mod decode;
pub mod error;
pub mod grammar;
pub mod project;
pub mod wire;

use vstd::prelude::*;
use crate::bhaptics_studio::tact::decode::{
    decimal_field, decimal_in, enumerated_field, enumerated_in, items, items_of, key_field,
    key_in, lemma_scan_insert, members, members_of, optional_key_field, optional_key_in,
    optional_u32_field, optional_u32_in, optional_u8_field, optional_u8_in, require, required,
    scan, u32_field, u32_in, Lookup,
};
use crate::bhaptics_studio::tact::error::{
    malformed, misshapen, result_view, unknown_tag, wrong, DecodeError, DecodeErrorView,
};
use crate::bhaptics_studio::tact::project::{Project, ProjectView};
use crate::bhaptics_studio::tact::grammar::{
    lemma_accepts_canonical, lemma_share_no_name, share_no_name, Field,
};
use crate::bhaptics_studio::tact::wire::{
    decode_list, hold, holding, lemma_list_itemwise, lemma_list_rejects, lemma_scan_canonical,
    list_field, list_in, list_of, nested_field, nested_in, number, numeral,
    optional_nested_field, optional_nested_in, views, Compose, Wire,
};
use crate::bhaptics_studio::ws::v2::model::PositionType;
use crate::document::{document_tree, parse};
use crate::enumerated::Enumerated;
use crate::json::{lemma_object_view, member_views, Decimal, Json, JsonView, Member, MemberView};
use crate::text::{is_number_text, lemma_unsigned_round_trip, same_text};

verus! {

/// A sample of feedback at a place given by coordinates, each from 0 to 1.
#[derive(Clone, Debug, PartialEq, Eq)]
pub struct PathPoint {
    pub x: Decimal,
    pub y: Decimal,
    pub intensity: Decimal,
}

/// The mathematical value of a [`PathPoint`].
pub struct PathPointView {
    pub x: Seq<char>,
    pub y: Seq<char>,
    pub intensity: Seq<char>,
}

impl View for PathPoint {
    type V = PathPointView;

    open spec fn view(&self) -> PathPointView {
        PathPointView { x: self.x@, y: self.y@, intensity: self.intensity@ }
    }
}

impl Wire for PathPoint {
    open spec fn fields() -> Seq<Field> {
        seq![Field::PathPointX, Field::PathPointY, Field::PathPointIntensity]
    }

    proof fn lemma_fields() {
        reveal_strlit("x");
        reveal_strlit("X");
        reveal_strlit("y");
        reveal_strlit("Y");
        reveal_strlit("intensity");
        reveal_strlit("Intensity");
        assert("x"@.len() == 1);
        assert("X"@.len() == 1);
        assert("y"@.len() == 1);
        assert("Y"@.len() == 1);
        assert("intensity"@.len() == 9);
        assert("Intensity"@.len() == 9);
        assert("x"@[0] == 'x');
        assert("y"@[0] == 'y');
        assert("X"@[0] == 'X');
        assert("Y"@[0] == 'Y');
        let fields = Self::fields();
        assert forall|a: int, b: int| 0 <= a < b < fields.len() implies share_no_name(
            #[trigger] fields[a],
            #[trigger] fields[b],
        ) by {
            lemma_share_no_name(fields[a], fields[b]);
        }
    }

    open spec fn decoded(j: JsonView, at: Field) -> Result<PathPointView, DecodeErrorView> {
        match members_of(j, at) {
            Err(e) => Err(e),
            Ok(ms) => {
                let x = decimal_field(ms, Field::PathPointX);
                let y = decimal_field(ms, Field::PathPointY);
                let intensity = decimal_field(ms, Field::PathPointIntensity);
                if x is Err {
                    Err(x->Err_0)
                } else if y is Err {
                    Err(y->Err_0)
                } else if intensity is Err {
                    Err(intensity->Err_0)
                } else {
                    Ok(PathPointView { x: x->Ok_0, y: y->Ok_0, intensity: intensity->Ok_0 })
                }
            },
        }
    }

    fn decode(j: &Json, at: Field) -> (r: Result<PathPoint, DecodeError>) {
        let ms = members(j, at)?;
        let x = decimal_in(ms, Field::PathPointX)?;
        let y = decimal_in(ms, Field::PathPointY)?;
        let intensity = decimal_in(ms, Field::PathPointIntensity)?;
        Ok(PathPoint { x, y, intensity })
    }
}

impl Compose for PathPoint {
    open spec fn valid(v: PathPointView) -> bool {
        &&& is_number_text(v.x)
        &&& is_number_text(v.y)
        &&& is_number_text(v.intensity)
    }

    open spec fn encoded(v: PathPointView) -> JsonView {
        JsonView::Object(
            seq![
                holding(Field::PathPointX, JsonView::Number(v.x)),
                holding(Field::PathPointY, JsonView::Number(v.y)),
                holding(Field::PathPointIntensity, JsonView::Number(v.intensity)),
            ],
        )
    }

    fn encode(&self) -> (j: Json) {
        let mut ms: Vec<Member> = Vec::new();
        ms.push(hold(Field::PathPointX, Json::Number(self.x.text.clone())));
        ms.push(hold(Field::PathPointY, Json::Number(self.y.text.clone())));
        ms.push(hold(Field::PathPointIntensity, Json::Number(self.intensity.text.clone())));
        proof {
            lemma_object_view(ms);
            assert(member_views(ms@) =~= Self::encoded(self@)->Object_0);
        }
        Json::Object(ms)
    }

    proof fn lemma_round_trip(v: PathPointView, at: Field) {
        let ms = Self::encoded(v)->Object_0;
        Self::lemma_fields();
        lemma_scan_canonical(ms, Self::fields(), 0);
        lemma_scan_canonical(ms, Self::fields(), 1);
        lemma_scan_canonical(ms, Self::fields(), 2);
    }

    proof fn lemma_decoded_valid(j: JsonView, at: Field) {
    }
}

/// A sample of feedback at one motor, given by its index.
#[derive(Clone, Debug, PartialEq, Eq)]
pub struct DotPoint {
    pub index: u32,
    pub intensity: Decimal,
    pub motor_count: Option<u8>,
}

/// The mathematical value of a [`DotPoint`].
pub struct DotPointView {
    pub index: u32,
    pub intensity: Seq<char>,
    pub motor_count: Option<u8>,
}

impl View for DotPoint {
    type V = DotPointView;

    open spec fn view(&self) -> DotPointView {
        DotPointView {
            index: self.index,
            intensity: self.intensity@,
            motor_count: self.motor_count,
        }
    }
}

impl Wire for DotPoint {
    open spec fn fields() -> Seq<Field> {
        seq![Field::DotPointIndex, Field::DotPointIntensity, Field::DotPointMotorCount]
    }

    proof fn lemma_fields() {
        reveal_strlit("index");
        reveal_strlit("Index");
        reveal_strlit("intensity");
        reveal_strlit("Intensity");
        reveal_strlit("motor_count");
        reveal_strlit("MotorCount");
        assert("index"@.len() == 5);
        assert("Index"@.len() == 5);
        assert("intensity"@.len() == 9);
        assert("Intensity"@.len() == 9);
        assert("motor_count"@.len() == 11);
        assert("MotorCount"@.len() == 10);
        let fields = Self::fields();
        assert forall|a: int, b: int| 0 <= a < b < fields.len() implies share_no_name(
            #[trigger] fields[a],
            #[trigger] fields[b],
        ) by {
            lemma_share_no_name(fields[a], fields[b]);
        }
    }

    open spec fn decoded(j: JsonView, at: Field) -> Result<DotPointView, DecodeErrorView> {
        match members_of(j, at) {
            Err(e) => Err(e),
            Ok(ms) => {
                let index = u32_field(ms, Field::DotPointIndex);
                let intensity = decimal_field(ms, Field::DotPointIntensity);
                let motor_count = optional_u8_field(ms, Field::DotPointMotorCount);
                if index is Err {
                    Err(index->Err_0)
                } else if intensity is Err {
                    Err(intensity->Err_0)
                } else if motor_count is Err {
                    Err(motor_count->Err_0)
                } else {
                    Ok(
                        DotPointView {
                            index: index->Ok_0,
                            intensity: intensity->Ok_0,
                            motor_count: motor_count->Ok_0,
                        },
                    )
                }
            },
        }
    }

    fn decode(j: &Json, at: Field) -> (r: Result<DotPoint, DecodeError>) {
        let ms = members(j, at)?;
        let index = u32_in(ms, Field::DotPointIndex)?;
        let intensity = decimal_in(ms, Field::DotPointIntensity)?;
        let motor_count = optional_u8_in(ms, Field::DotPointMotorCount)?;
        Ok(DotPoint { index, intensity, motor_count })
    }
}

impl Compose for DotPoint {
    open spec fn valid(v: DotPointView) -> bool {
        &&& is_number_text(v.intensity)
    }

    open spec fn encoded(v: DotPointView) -> JsonView {
        JsonView::Object(
            seq![
                holding(Field::DotPointIndex, numeral(v.index as nat)),
                holding(Field::DotPointIntensity, JsonView::Number(v.intensity)),
                holding(
                    Field::DotPointMotorCount,
                    match v.motor_count {
                        Some(n) => numeral(n as nat),
                        None => JsonView::Null,
                    },
                ),
            ],
        )
    }

    fn encode(&self) -> (j: Json) {
        let mut ms: Vec<Member> = Vec::new();
        ms.push(hold(Field::DotPointIndex, number(self.index as u64)));
        ms.push(hold(Field::DotPointIntensity, Json::Number(self.intensity.text.clone())));
        ms.push(
            hold(
                Field::DotPointMotorCount,
                match self.motor_count {
                    Some(n) => number(n as u64),
                    None => Json::Null,
                },
            ),
        );
        proof {
            lemma_object_view(ms);
            assert(member_views(ms@) =~= Self::encoded(self@)->Object_0);
        }
        Json::Object(ms)
    }

    proof fn lemma_round_trip(v: DotPointView, at: Field) {
        let ms = Self::encoded(v)->Object_0;
        Self::lemma_fields();
        lemma_scan_canonical(ms, Self::fields(), 0);
        lemma_unsigned_round_trip(v.index as nat, u32::MAX as nat);
        lemma_scan_canonical(ms, Self::fields(), 1);
        lemma_scan_canonical(ms, Self::fields(), 2);
        if v.motor_count is Some {
            lemma_unsigned_round_trip(v.motor_count->Some_0 as nat, u8::MAX as nat);
        }
    }

    proof fn lemma_decoded_valid(j: JsonView, at: Field) {
    }
}

/// An effect that is played at once, without being registered first. At most
/// one of the two point lists holds anything; a frame with both empty plays
/// nothing.
#[derive(Clone, Debug, PartialEq, Eq)]
pub struct SubmitFrame {
    pub position: PositionType,
    pub path_points: Vec<PathPoint>,
    pub dot_points: Vec<DotPoint>,
    pub duration_millis: u32,
}

/// The mathematical value of a [`SubmitFrame`].
pub struct SubmitFrameView {
    pub position: PositionType,
    pub path_points: Seq<PathPointView>,
    pub dot_points: Seq<DotPointView>,
    pub duration_millis: u32,
}

impl SubmitFrameView {
    /// A frame holds path points or dot points, never both.
    pub open spec fn wf(self) -> bool {
        self.path_points.len() == 0 || self.dot_points.len() == 0
    }
}

impl View for SubmitFrame {
    type V = SubmitFrameView;

    open spec fn view(&self) -> SubmitFrameView {
        SubmitFrameView {
            position: self.position,
            path_points: views(self.path_points@),
            dot_points: views(self.dot_points@),
            duration_millis: self.duration_millis,
        }
    }
}

impl Wire for SubmitFrame {
    open spec fn fields() -> Seq<Field> {
        seq![
            Field::FramePosition,
            Field::FramePathPoints,
            Field::FrameDotPoints,
            Field::FrameDurationMillis,
        ]
    }

    proof fn lemma_fields() {
        reveal_strlit("position");
        reveal_strlit("Position");
        reveal_strlit("path_points");
        reveal_strlit("PathPoints");
        reveal_strlit("dot_points");
        reveal_strlit("DotPoints");
        reveal_strlit("duration_millis");
        reveal_strlit("DurationMillis");
        assert("position"@.len() == 8);
        assert("Position"@.len() == 8);
        assert("path_points"@.len() == 11);
        assert("PathPoints"@.len() == 10);
        assert("dot_points"@.len() == 10);
        assert("DotPoints"@.len() == 9);
        assert("duration_millis"@.len() == 15);
        assert("DurationMillis"@.len() == 14);
        assert("PathPoints"@[0] == 'P');
        assert("dot_points"@[0] == 'd');
        let fields = Self::fields();
        assert forall|a: int, b: int| 0 <= a < b < fields.len() implies share_no_name(
            #[trigger] fields[a],
            #[trigger] fields[b],
        ) by {
            lemma_share_no_name(fields[a], fields[b]);
        }
    }

    open spec fn decoded(j: JsonView, at: Field) -> Result<SubmitFrameView, DecodeErrorView> {
        match members_of(j, at) {
            Err(e) => Err(e),
            Ok(ms) => {
                let position = enumerated_field::<PositionType>(ms, Field::FramePosition);
                let path_points = list_field::<PathPoint>(ms, Field::FramePathPoints);
                let dot_points = list_field::<DotPoint>(ms, Field::FrameDotPoints);
                let duration_millis = u32_field(ms, Field::FrameDurationMillis);
                if position is Err {
                    Err(position->Err_0)
                } else if path_points is Err {
                    Err(path_points->Err_0)
                } else if dot_points is Err {
                    Err(dot_points->Err_0)
                } else if duration_millis is Err {
                    Err(duration_millis->Err_0)
                } else if path_points->Ok_0.len() > 0 && dot_points->Ok_0.len() > 0 {
                    Err(wrong(at))
                } else {
                    Ok(
                        SubmitFrameView {
                            position: position->Ok_0,
                            path_points: path_points->Ok_0,
                            dot_points: dot_points->Ok_0,
                            duration_millis: duration_millis->Ok_0,
                        },
                    )
                }
            },
        }
    }

    fn decode(j: &Json, at: Field) -> (r: Result<SubmitFrame, DecodeError>) {
        let ms = members(j, at)?;
        let position = enumerated_in::<PositionType>(ms, Field::FramePosition)?;
        let path_points = list_in::<PathPoint>(ms, Field::FramePathPoints)?;
        let dot_points = list_in::<DotPoint>(ms, Field::FrameDotPoints)?;
        let duration_millis = u32_in(ms, Field::FrameDurationMillis)?;
        if path_points.len() > 0 && dot_points.len() > 0 {
            return Err(DecodeError::wrong(at));
        }
        Ok(SubmitFrame { position, path_points, dot_points, duration_millis })
    }
}

/// The pair of factors by which a registered project is scaled when played.
#[derive(Clone, Debug, PartialEq, Eq)]
pub struct RegisteredParametersScaleOption {
    pub intensity: Decimal,
    pub duration: Decimal,
}

/// The mathematical value of a [`RegisteredParametersScaleOption`].
pub struct RegisteredParametersScaleOptionView {
    pub intensity: Seq<char>,
    pub duration: Seq<char>,
}

impl View for RegisteredParametersScaleOption {
    type V = RegisteredParametersScaleOptionView;

    open spec fn view(&self) -> RegisteredParametersScaleOptionView {
        RegisteredParametersScaleOptionView {
            intensity: self.intensity@,
            duration: self.duration@,
        }
    }
}

impl Wire for RegisteredParametersScaleOption {
    open spec fn fields() -> Seq<Field> {
        seq![Field::ScaleIntensity, Field::ScaleDuration]
    }

    proof fn lemma_fields() {
        reveal_strlit("intensity");
        reveal_strlit("duration");
        assert("intensity"@.len() == 9);
        assert("duration"@.len() == 8);
        let fields = Self::fields();
        assert forall|a: int, b: int| 0 <= a < b < fields.len() implies share_no_name(
            #[trigger] fields[a],
            #[trigger] fields[b],
        ) by {
            lemma_share_no_name(fields[a], fields[b]);
        }
    }

    open spec fn decoded(j: JsonView, at: Field) -> Result<
        RegisteredParametersScaleOptionView,
        DecodeErrorView,
    > {
        match members_of(j, at) {
            Err(e) => Err(e),
            Ok(ms) => {
                let intensity = decimal_field(ms, Field::ScaleIntensity);
                let duration = decimal_field(ms, Field::ScaleDuration);
                if intensity is Err {
                    Err(intensity->Err_0)
                } else if duration is Err {
                    Err(duration->Err_0)
                } else {
                    Ok(
                        RegisteredParametersScaleOptionView {
                            intensity: intensity->Ok_0,
                            duration: duration->Ok_0,
                        },
                    )
                }
            },
        }
    }

    fn decode(j: &Json, at: Field) -> (r: Result<RegisteredParametersScaleOption, DecodeError>) {
        let ms = members(j, at)?;
        let intensity = decimal_in(ms, Field::ScaleIntensity)?;
        let duration = decimal_in(ms, Field::ScaleDuration)?;
        Ok(RegisteredParametersScaleOption { intensity, duration })
    }
}

/// The offsets by which a registered project is turned when played on a vest.
#[derive(Clone, Debug, PartialEq, Eq)]
pub struct RegisteredParametersRotationOption {
    pub offset_angle_x: Decimal,
    pub offset_y: Decimal,
}

/// The mathematical value of a [`RegisteredParametersRotationOption`].
pub struct RegisteredParametersRotationOptionView {
    pub offset_angle_x: Seq<char>,
    pub offset_y: Seq<char>,
}

impl View for RegisteredParametersRotationOption {
    type V = RegisteredParametersRotationOptionView;

    open spec fn view(&self) -> RegisteredParametersRotationOptionView {
        RegisteredParametersRotationOptionView {
            offset_angle_x: self.offset_angle_x@,
            offset_y: self.offset_y@,
        }
    }
}

impl Wire for RegisteredParametersRotationOption {
    open spec fn fields() -> Seq<Field> {
        seq![Field::RotationOffsetAngleX, Field::RotationOffsetY]
    }

    proof fn lemma_fields() {
        reveal_strlit("offsetAngleX");
        reveal_strlit("offset_y");
        reveal_strlit("offsetY");
        assert("offsetAngleX"@.len() == 12);
        assert("offset_y"@.len() == 8);
        assert("offsetY"@.len() == 7);
        let fields = Self::fields();
        assert forall|a: int, b: int| 0 <= a < b < fields.len() implies share_no_name(
            #[trigger] fields[a],
            #[trigger] fields[b],
        ) by {
            lemma_share_no_name(fields[a], fields[b]);
        }
    }

    open spec fn decoded(j: JsonView, at: Field) -> Result<
        RegisteredParametersRotationOptionView,
        DecodeErrorView,
    > {
        match members_of(j, at) {
            Err(e) => Err(e),
            Ok(ms) => {
                let offset_angle_x = decimal_field(ms, Field::RotationOffsetAngleX);
                let offset_y = decimal_field(ms, Field::RotationOffsetY);
                if offset_angle_x is Err {
                    Err(offset_angle_x->Err_0)
                } else if offset_y is Err {
                    Err(offset_y->Err_0)
                } else {
                    Ok(
                        RegisteredParametersRotationOptionView {
                            offset_angle_x: offset_angle_x->Ok_0,
                            offset_y: offset_y->Ok_0,
                        },
                    )
                }
            },
        }
    }

    fn decode(j: &Json, at: Field) -> (r: Result<RegisteredParametersRotationOption, DecodeError>) {
        let ms = members(j, at)?;
        let offset_angle_x = decimal_in(ms, Field::RotationOffsetAngleX)?;
        let offset_y = decimal_in(ms, Field::RotationOffsetY)?;
        Ok(RegisteredParametersRotationOption { offset_angle_x, offset_y })
    }
}

/// How a registered project is to be played. Every part may be left out,
/// which asks for the default.
#[derive(Clone, Debug, PartialEq, Eq)]
pub struct RegisteredParameters {
    pub alt_key: Option<String>,
    pub start_time_millis: Option<u32>,
    pub scale_option: Option<RegisteredParametersScaleOption>,
    pub rotation_option: Option<RegisteredParametersRotationOption>,
}

/// The mathematical value of a [`RegisteredParameters`].
pub struct RegisteredParametersView {
    pub alt_key: Option<Seq<char>>,
    pub start_time_millis: Option<u32>,
    pub scale_option: Option<RegisteredParametersScaleOptionView>,
    pub rotation_option: Option<RegisteredParametersRotationOptionView>,
}

impl RegisteredParametersView {
    /// The parameters that leave everything to the default.
    pub open spec fn unset() -> RegisteredParametersView {
        RegisteredParametersView {
            alt_key: None,
            start_time_millis: None,
            scale_option: None,
            rotation_option: None,
        }
    }
}

impl RegisteredParameters {
    /// The parameters that leave everything to the default.
    pub fn unset() -> (r: RegisteredParameters)
        ensures
            r@ == RegisteredParametersView::unset(),
    {
        RegisteredParameters {
            alt_key: None,
            start_time_millis: None,
            scale_option: None,
            rotation_option: None,
        }
    }
}

impl View for RegisteredParameters {
    type V = RegisteredParametersView;

    open spec fn view(&self) -> RegisteredParametersView {
        RegisteredParametersView {
            alt_key: match self.alt_key {
                Some(x) => Some(x@),
                None => None,
            },
            start_time_millis: self.start_time_millis,
            scale_option: match self.scale_option {
                Some(x) => Some(x@),
                None => None,
            },
            rotation_option: match self.rotation_option {
                Some(x) => Some(x@),
                None => None,
            },
        }
    }
}

impl Wire for RegisteredParameters {
    open spec fn fields() -> Seq<Field> {
        seq![
            Field::ParametersAltKey,
            Field::ParametersStartTimeMillis,
            Field::ParametersScaleOption,
            Field::ParametersRotationOption,
        ]
    }

    proof fn lemma_fields() {
        reveal_strlit("altKey");
        reveal_strlit("startTimeMillis");
        reveal_strlit("scaleOption");
        reveal_strlit("rotationOption");
        assert("altKey"@.len() == 6);
        assert("startTimeMillis"@.len() == 15);
        assert("scaleOption"@.len() == 11);
        assert("rotationOption"@.len() == 14);
        let fields = Self::fields();
        assert forall|a: int, b: int| 0 <= a < b < fields.len() implies share_no_name(
            #[trigger] fields[a],
            #[trigger] fields[b],
        ) by {
            lemma_share_no_name(fields[a], fields[b]);
        }
    }

    open spec fn decoded(j: JsonView, at: Field) -> Result<
        RegisteredParametersView,
        DecodeErrorView,
    > {
        match members_of(j, at) {
            Err(e) => Err(e),
            Ok(ms) => {
                let alt_key = optional_key_field(ms, Field::ParametersAltKey);
                let start_time_millis = optional_u32_field(ms, Field::ParametersStartTimeMillis);
                let scale_option = optional_nested_field::<RegisteredParametersScaleOption>(
                    ms,
                    Field::ParametersScaleOption,
                );
                let rotation_option = optional_nested_field::<RegisteredParametersRotationOption>(
                    ms,
                    Field::ParametersRotationOption,
                );
                if alt_key is Err {
                    Err(alt_key->Err_0)
                } else if start_time_millis is Err {
                    Err(start_time_millis->Err_0)
                } else if scale_option is Err {
                    Err(scale_option->Err_0)
                } else if rotation_option is Err {
                    Err(rotation_option->Err_0)
                } else {
                    Ok(
                        RegisteredParametersView {
                            alt_key: alt_key->Ok_0,
                            start_time_millis: start_time_millis->Ok_0,
                            scale_option: scale_option->Ok_0,
                            rotation_option: rotation_option->Ok_0,
                        },
                    )
                }
            },
        }
    }

    fn decode(j: &Json, at: Field) -> (r: Result<RegisteredParameters, DecodeError>) {
        let ms = members(j, at)?;
        let alt_key = optional_key_in(ms, Field::ParametersAltKey)?;
        let start_time_millis = optional_u32_in(ms, Field::ParametersStartTimeMillis)?;
        let scale_option = optional_nested_in::<RegisteredParametersScaleOption>(
            ms,
            Field::ParametersScaleOption,
        )?;
        let rotation_option = optional_nested_in::<RegisteredParametersRotationOption>(
            ms,
            Field::ParametersRotationOption,
        )?;
        Ok(RegisteredParameters { alt_key, start_time_millis, scale_option, rotation_option })
    }
}

/// One entry of a `Register` message: a project, and the key to bind it to.
#[derive(Clone, Debug, PartialEq, Eq)]
pub struct PlayerRegisterRequest {
    pub key: String,
    pub project: Project,
}

/// The mathematical value of a [`PlayerRegisterRequest`].
pub struct PlayerRegisterRequestView {
    pub key: Seq<char>,
    pub project: ProjectView,
}

impl View for PlayerRegisterRequest {
    type V = PlayerRegisterRequestView;

    open spec fn view(&self) -> PlayerRegisterRequestView {
        PlayerRegisterRequestView { key: self.key@, project: self.project@ }
    }
}

impl Wire for PlayerRegisterRequest {
    open spec fn fields() -> Seq<Field> {
        seq![Field::EntryKey, Field::EntryProject]
    }

    proof fn lemma_fields() {
        reveal_strlit("key");
        reveal_strlit("Key");
        reveal_strlit("project");
        reveal_strlit("Project");
        assert("key"@.len() == 3);
        assert("Key"@.len() == 3);
        assert("project"@.len() == 7);
        assert("Project"@.len() == 7);
        let fields = Self::fields();
        assert forall|a: int, b: int| 0 <= a < b < fields.len() implies share_no_name(
            #[trigger] fields[a],
            #[trigger] fields[b],
        ) by {
            lemma_share_no_name(fields[a], fields[b]);
        }
    }

    open spec fn decoded(j: JsonView, at: Field) -> Result<
        PlayerRegisterRequestView,
        DecodeErrorView,
    > {
        match members_of(j, at) {
            Err(e) => Err(e),
            Ok(ms) => {
                let key = key_field(ms, Field::EntryKey);
                let project = nested_field::<Project>(ms, Field::EntryProject);
                if key is Err {
                    Err(key->Err_0)
                } else if project is Err {
                    Err(project->Err_0)
                } else {
                    Ok(PlayerRegisterRequestView { key: key->Ok_0, project: project->Ok_0 })
                }
            },
        }
    }

    fn decode(j: &Json, at: Field) -> (r: Result<PlayerRegisterRequest, DecodeError>) {
        let ms = members(j, at)?;
        let key = key_in(ms, Field::EntryKey)?;
        let project = nested_in::<Project>(ms, Field::EntryProject)?;
        Ok(PlayerRegisterRequest { key, project })
    }
}

/// The kinds of operation that a `Submit` message can hold, as the `Type`
/// discriminator names them. Each kind is written under the first of its
/// names and read under all of them.
#[derive(Clone, Copy, Debug, PartialEq, Eq, Structural)]
pub enum SubmitKind {
    /// `turnOffAll`, also `TurnOffAll`.
    TurnOffAll,
    /// `turnOff`, also `TurnOff`.
    TurnOff,
    /// `frame`, also `Frame` and `SubmitFrame`.
    Frame,
    /// `key`, also `Key` and `SubmitRegistered`.
    Registered,
}

impl View for SubmitKind {
    type V = SubmitKind;

    open spec fn view(&self) -> SubmitKind {
        *self
    }
}

impl Enumerated for SubmitKind {
    open spec fn named(name: Seq<char>) -> Option<SubmitKind> {
        if name == "turnOffAll"@ || name == "TurnOffAll"@ {
            Some(SubmitKind::TurnOffAll)
        } else if name == "turnOff"@ || name == "TurnOff"@ {
            Some(SubmitKind::TurnOff)
        } else if name == "frame"@ || name == "Frame"@ || name == "SubmitFrame"@ {
            Some(SubmitKind::Frame)
        } else if name == "key"@ || name == "Key"@ || name == "SubmitRegistered"@ {
            Some(SubmitKind::Registered)
        } else {
            None
        }
    }

    open spec fn name_of(self) -> Seq<char> {
        match self {
            SubmitKind::TurnOffAll => "turnOffAll"@,
            SubmitKind::TurnOff => "turnOff"@,
            SubmitKind::Frame => "frame"@,
            SubmitKind::Registered => "key"@,
        }
    }

    fn parse(name: &str) -> (r: Option<SubmitKind>) {
        if same_text(name, "turnOffAll") || same_text(name, "TurnOffAll") {
            Some(SubmitKind::TurnOffAll)
        } else if same_text(name, "turnOff") || same_text(name, "TurnOff") {
            Some(SubmitKind::TurnOff)
        } else if same_text(name, "frame") || same_text(name, "Frame") || same_text(
            name,
            "SubmitFrame",
        ) {
            Some(SubmitKind::Frame)
        } else if same_text(name, "key") || same_text(name, "Key") || same_text(
            name,
            "SubmitRegistered",
        ) {
            Some(SubmitKind::Registered)
        } else {
            None
        }
    }

    fn wire_name(self) -> (r: &'static str) {
        match self {
            SubmitKind::TurnOffAll => "turnOffAll",
            SubmitKind::TurnOff => "turnOff",
            SubmitKind::Frame => "frame",
            SubmitKind::Registered => "key",
        }
    }

    proof fn lemma_name_round_trip(self) {
        reveal_strlit("turnOffAll");
        reveal_strlit("TurnOffAll");
        reveal_strlit("turnOff");
        reveal_strlit("TurnOff");
        reveal_strlit("frame");
        reveal_strlit("Frame");
        reveal_strlit("SubmitFrame");
        reveal_strlit("key");
        assert("turnOffAll"@.len() == 10);
        assert("TurnOffAll"@.len() == 10);
        assert("turnOff"@.len() == 7);
        assert("TurnOff"@.len() == 7);
        assert("frame"@.len() == 5);
        assert("Frame"@.len() == 5);
        assert("SubmitFrame"@.len() == 11);
        assert("key"@.len() == 3);
    }
}

/// One operation of a `Submit` message.
#[derive(Clone, Debug, PartialEq, Eq)]
pub enum PlayerSubmitRequest {
    /// Stop all feedback.
    TurnOffAll,
    /// Stop the feedback that goes by a key.
    TurnOff { key: String },
    /// Play a frame at once.
    SubmitFrame { key: String, frame: SubmitFrame },
    /// Play the project registered under a key.
    SubmitRegistered { key: String, parameters: RegisteredParameters },
}

/// The mathematical value of a [`PlayerSubmitRequest`].
pub enum PlayerSubmitRequestView {
    TurnOffAll,
    TurnOff { key: Seq<char> },
    SubmitFrame { key: Seq<char>, frame: SubmitFrameView },
    SubmitRegistered { key: Seq<char>, parameters: RegisteredParametersView },
}

impl View for PlayerSubmitRequest {
    type V = PlayerSubmitRequestView;

    open spec fn view(&self) -> PlayerSubmitRequestView {
        match self {
            PlayerSubmitRequest::TurnOffAll => PlayerSubmitRequestView::TurnOffAll,
            PlayerSubmitRequest::TurnOff { key } => PlayerSubmitRequestView::TurnOff { key: key@ },
            PlayerSubmitRequest::SubmitFrame {
                key,
                frame,
            } => PlayerSubmitRequestView::SubmitFrame { key: key@, frame: frame@ },
            PlayerSubmitRequest::SubmitRegistered {
                key,
                parameters,
            } => PlayerSubmitRequestView::SubmitRegistered { key: key@, parameters: parameters@ },
        }
    }
}

/// The kind of operation that the members of an object announce: the value of
/// the discriminator, which must be there, be a string, and name a kind.
pub open spec fn submit_kind_of(members: Seq<MemberView>) -> Result<SubmitKind, DecodeErrorView> {
    match required(members, Field::SubmitType) {
        Err(e) => Err(e),
        Ok(j) => match j {
            JsonView::Text(s) => match SubmitKind::named(s) {
                Some(kind) => Ok(kind),
                None => Err(unknown_tag(s)),
            },
            _ => Err(wrong(Field::SubmitType)),
        },
    }
}

/// The parameters of an operation that plays a registered project: those
/// given, or the unset ones where none are given.
pub open spec fn parameters_of(members: Seq<MemberView>) -> Result<
    RegisteredParametersView,
    DecodeErrorView,
> {
    match optional_nested_field::<RegisteredParameters>(members, Field::SubmitParameters) {
        Ok(Some(p)) => Ok(p),
        Ok(None) => Ok(RegisteredParametersView::unset()),
        Err(e) => Err(e),
    }
}

/// Reads the discriminator of an operation.
fn submit_kind(ms: &Vec<Member>) -> (r: Result<SubmitKind, DecodeError>)
    ensures
        result_view(r) == submit_kind_of(member_views(ms@)),
{
    match require(ms, Field::SubmitType)? {
        Json::Text(s) => match SubmitKind::parse(s.as_str()) {
            Some(kind) => Ok(kind),
            None => Err(DecodeError::unknown_tag(s.as_str())),
        },
        _ => Err(DecodeError::wrong(Field::SubmitType)),
    }
}

impl Wire for PlayerSubmitRequest {
    open spec fn fields() -> Seq<Field> {
        seq![Field::SubmitType, Field::SubmitKey, Field::SubmitFrame, Field::SubmitParameters]
    }

    proof fn lemma_fields() {
        reveal_strlit("Type");
        reveal_strlit("key");
        reveal_strlit("Key");
        reveal_strlit("frame");
        reveal_strlit("Frame");
        reveal_strlit("parameters");
        reveal_strlit("Parameters");
        assert("Type"@.len() == 4);
        assert("key"@.len() == 3);
        assert("Key"@.len() == 3);
        assert("frame"@.len() == 5);
        assert("Frame"@.len() == 5);
        assert("parameters"@.len() == 10);
        assert("Parameters"@.len() == 10);
        let fields = Self::fields();
        assert forall|a: int, b: int| 0 <= a < b < fields.len() implies share_no_name(
            #[trigger] fields[a],
            #[trigger] fields[b],
        ) by {
            lemma_share_no_name(fields[a], fields[b]);
        }
    }

    open spec fn decoded(j: JsonView, at: Field) -> Result<
        PlayerSubmitRequestView,
        DecodeErrorView,
    > {
        match members_of(j, at) {
            Err(e) => Err(e),
            Ok(ms) => match submit_kind_of(ms) {
                Err(e) => Err(e),
                Ok(SubmitKind::TurnOffAll) => Ok(PlayerSubmitRequestView::TurnOffAll),
                Ok(SubmitKind::TurnOff) => match key_field(ms, Field::SubmitKey) {
                    Err(e) => Err(e),
                    Ok(key) => Ok(PlayerSubmitRequestView::TurnOff { key }),
                },
                Ok(SubmitKind::Frame) => match key_field(ms, Field::SubmitKey) {
                    Err(e) => Err(e),
                    Ok(key) => match nested_field::<SubmitFrame>(ms, Field::SubmitFrame) {
                        Err(e) => Err(e),
                        Ok(frame) => Ok(PlayerSubmitRequestView::SubmitFrame { key, frame }),
                    },
                },
                Ok(SubmitKind::Registered) => match key_field(ms, Field::SubmitKey) {
                    Err(e) => Err(e),
                    Ok(key) => match parameters_of(ms) {
                        Err(e) => Err(e),
                        Ok(parameters) => Ok(
                            PlayerSubmitRequestView::SubmitRegistered { key, parameters },
                        ),
                    },
                },
            },
        }
    }

    fn decode(j: &Json, at: Field) -> (r: Result<PlayerSubmitRequest, DecodeError>) {
        let ms = members(j, at)?;
        match submit_kind(ms)? {
            SubmitKind::TurnOffAll => Ok(PlayerSubmitRequest::TurnOffAll),
            SubmitKind::TurnOff => {
                let key = key_in(ms, Field::SubmitKey)?;
                Ok(PlayerSubmitRequest::TurnOff { key })
            },
            SubmitKind::Frame => {
                let key = key_in(ms, Field::SubmitKey)?;
                let frame = nested_in::<SubmitFrame>(ms, Field::SubmitFrame)?;
                Ok(PlayerSubmitRequest::SubmitFrame { key, frame })
            },
            SubmitKind::Registered => {
                let key = key_in(ms, Field::SubmitKey)?;
                let parameters = match optional_nested_in::<RegisteredParameters>(
                    ms,
                    Field::SubmitParameters,
                )? {
                    Some(p) => p,
                    None => RegisteredParameters::unset(),
                };
                Ok(PlayerSubmitRequest::SubmitRegistered { key, parameters })
            },
        }
    }
}

/// A message from a client: projects to register, or operations to carry out.
#[derive(Clone, Debug, PartialEq, Eq)]
pub enum PlayerRequest {
    Register(Vec<PlayerRegisterRequest>),
    Submit(Vec<PlayerSubmitRequest>),
}

/// The mathematical value of a [`PlayerRequest`].
pub enum PlayerRequestView {
    Register(Seq<PlayerRegisterRequestView>),
    Submit(Seq<PlayerSubmitRequestView>),
}

impl View for PlayerRequest {
    type V = PlayerRequestView;

    open spec fn view(&self) -> PlayerRequestView {
        match self {
            PlayerRequest::Register(entries) => PlayerRequestView::Register(views(entries@)),
            PlayerRequest::Submit(operations) => PlayerRequestView::Submit(views(operations@)),
        }
    }
}

/// The message that a JSON document stands for. The document is an object
/// with one member, which goes by the name of one of the two forms and holds
/// a list; the list decodes item by item, in order, and the first item that
/// fails decides the error.
pub open spec fn request_of(j: JsonView) -> Result<PlayerRequestView, DecodeErrorView> {
    match j {
        JsonView::Object(ms) => if ms.len() != 1 {
            Err(misshapen())
        } else if Field::Register.accepts(ms[0].name) {
            match items_of(ms[0].value, Field::Register) {
                Err(e) => Err(e),
                Ok(trees) => match list_of::<PlayerRegisterRequest>(trees, Field::Register) {
                    Err(e) => Err(e),
                    Ok(entries) => Ok(PlayerRequestView::Register(entries)),
                },
            }
        } else if Field::Submit.accepts(ms[0].name) {
            match items_of(ms[0].value, Field::Submit) {
                Err(e) => Err(e),
                Ok(trees) => match list_of::<PlayerSubmitRequest>(trees, Field::Submit) {
                    Err(e) => Err(e),
                    Ok(operations) => Ok(PlayerRequestView::Submit(operations)),
                },
            }
        } else {
            Err(unknown_tag(ms[0].name))
        },
        _ => Err(misshapen()),
    }
}

/// Decodes a client message from a JSON document.
pub fn decode_request(j: &Json) -> (r: Result<PlayerRequest, DecodeError>)
    ensures
        result_view(r) == request_of(j@),
{
    match j.as_object() {
        None => Err(DecodeError::misshapen()),
        Some(ms) => {
            if ms.len() != 1 {
                return Err(DecodeError::misshapen());
            }
            let m = &ms[0];
            assert(member_views(ms@)[0] == m@);
            if Field::Register.admits(m.name.as_str()) {
                let trees = items(&m.value, Field::Register)?;
                let entries = decode_list::<PlayerRegisterRequest>(trees, Field::Register)?;
                Ok(PlayerRequest::Register(entries))
            } else if Field::Submit.admits(m.name.as_str()) {
                let trees = items(&m.value, Field::Submit)?;
                let operations = decode_list::<PlayerSubmitRequest>(trees, Field::Submit)?;
                Ok(PlayerRequest::Submit(operations))
            } else {
                Err(DecodeError::unknown_tag(m.name.as_str()))
            }
        },
    }
}

/// The message that bytes stand for: what their JSON document decodes to, or
/// the malformed-document error where they are none.
pub open spec fn message_of(bytes: Seq<u8>) -> Result<PlayerRequestView, DecodeErrorView> {
    match document_tree(bytes) {
        None => Err(malformed()),
        Some(j) => request_of(j),
    }
}

/// Decodes a client message from the bytes of one inbound frame.
pub fn decode_client_message(bytes: &[u8]) -> (r: Result<PlayerRequest, DecodeError>)
    ensures
        result_view(r) == message_of(bytes@),
{
    match parse(bytes) {
        None => Err(DecodeError::malformed()),
        Some(j) => decode_request(&j),
    }
}

/// Whatever frame decodes holds path points or dot points, never both.
pub proof fn law_decoded_frame_is_well_formed(j: JsonView, at: Field)
    ensures
        SubmitFrame::decoded(j, at) matches Ok(frame) ==> frame.wf(),
{
}

/// A project that a `Register` message holds loses nothing when it is
/// written back to the wire: the project of every entry is valid, and
/// decoding what it is written as gives the same project, every field of it
/// and every digit of every number.
pub proof fn law_registered_project_round_trip(j: JsonView, i: int)
    requires
        request_of(j) is Ok,
        request_of(j)->Ok_0 is Register,
        0 <= i < request_of(j)->Ok_0->Register_0.len(),
    ensures
        Project::valid(request_of(j)->Ok_0->Register_0[i].project),
        Project::decoded(
            Project::encoded(request_of(j)->Ok_0->Register_0[i].project),
            Field::EntryProject,
        ) == Ok::<ProjectView, DecodeErrorView>(request_of(j)->Ok_0->Register_0[i].project),
{
    let ms = j->Object_0;
    lemma_register_or_submit(ms[0].name);
    let trees = items_of(ms[0].value, Field::Register)->Ok_0;
    lemma_list_itemwise::<PlayerRegisterRequest>(trees, Field::Register);
    let entry = request_of(j)->Ok_0->Register_0[i];
    assert(PlayerRegisterRequest::decoded(trees[i], Field::Register) == Ok::<
        PlayerRegisterRequestView,
        DecodeErrorView,
    >(entry));
    let fields = members_of(trees[i], Field::Register)->Ok_0;
    Project::lemma_decoded_valid(
        required(fields, Field::EntryProject)->Ok_0,
        Field::EntryProject,
    );
    Project::lemma_round_trip(entry.project, Field::EntryProject);
}

/// No name is both that of the `Register` form and that of the `Submit` form.
proof fn lemma_register_or_submit(name: Seq<char>)
    ensures
        !(Field::Register.accepts(name) && Field::Submit.accepts(name)),
{
    reveal_strlit("Register");
    reveal_strlit("Submit");
    assert("Register"@.len() == 8);
    assert("Submit"@.len() == 6);
    lemma_share_no_name(Field::Register, Field::Submit);
}

/// An alternative key given as `null` and one left out are the same to the
/// decoder: parameters with a `null` alternative key, wherever among the
/// members it stands, decode to what they decode to without it.
pub proof fn law_null_alt_key_is_absent(members: Seq<MemberView>, at: int, field: Field)
    requires
        0 <= at <= members.len(),
        scan(members, Field::ParametersAltKey) is Absent,
    ensures
        RegisteredParameters::decoded(
            JsonView::Object(
                members.insert(
                    at,
                    MemberView {
                        name: Field::ParametersAltKey.canonical(),
                        value: JsonView::Null,
                    },
                ),
            ),
            field,
        ) == RegisteredParameters::decoded(JsonView::Object(members), field),
        RegisteredParameters::decoded(JsonView::Object(members), field) matches Ok(p)
            ==> p.alt_key is None,
{
    let m = MemberView { name: Field::ParametersAltKey.canonical(), value: JsonView::Null };
    let fields = RegisteredParameters::fields();
    RegisteredParameters::lemma_fields();
    lemma_accepts_canonical(Field::ParametersAltKey);
    assert(share_no_name(fields[0], fields[1]));
    assert(share_no_name(fields[0], fields[2]));
    assert(share_no_name(fields[0], fields[3]));
    lemma_scan_insert(members, at, m, Field::ParametersAltKey);
    lemma_scan_insert(members, at, m, Field::ParametersStartTimeMillis);
    lemma_scan_insert(members, at, m, Field::ParametersScaleOption);
    lemma_scan_insert(members, at, m, Field::ParametersRotationOption);
}

/// An operation whose `Type` names no kind of operation is rejected, and the
/// error gives the name.
pub proof fn law_unknown_type_is_rejected(members: Seq<MemberView>, tag: Seq<char>, at: Field)
    requires
        scan(members, Field::SubmitType) == Lookup::Found(JsonView::Text(tag)),
        SubmitKind::named(tag) is None,
    ensures
        PlayerSubmitRequest::decoded(JsonView::Object(members), at) == Err::<
            PlayerSubmitRequestView,
            DecodeErrorView,
        >(unknown_tag(tag)),
{
}

/// A `Submit` message with an operation that does not decode, such as one of
/// an unknown `Type`, is rejected as a whole: no operation of it is carried
/// out, and none is passed over in silence.
pub proof fn law_submit_rejects_bad_operation(name: Seq<char>, trees: Seq<JsonView>, i: int)
    requires
        Field::Submit.accepts(name),
        0 <= i < trees.len(),
        PlayerSubmitRequest::decoded(trees[i], Field::Submit) is Err,
    ensures
        request_of(
            JsonView::Object(seq![MemberView { name, value: JsonView::Array(trees) }]),
        ) is Err,
{
    lemma_register_or_submit(name);
    lemma_list_rejects::<PlayerSubmitRequest>(trees, Field::Submit, i);
}

} // verus!
