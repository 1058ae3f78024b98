//! Projects: authored collections of timed feedback tracks, as a client
//! registers them.

use vstd::prelude::*;
use crate::bhaptics_studio::tact::decode::{
    decimal_field, decimal_in, enumerated_field, enumerated_in, flag_field, flag_in, items,
    items_of, members, members_of, required, text_field, text_in, u64_field, u64_in, u8_field,
    u8_in,
};
use crate::bhaptics_studio::tact::error::{unknown_value, wrong, DecodeError, DecodeErrorView};
use crate::bhaptics_studio::tact::grammar::{lemma_share_no_name, share_no_name, Field};
use crate::bhaptics_studio::tact::wire::{
    all_entries_valid, all_valid, decode_list, distinct_keys, encode_list, encode_map, hold,
    holding, lemma_list_decoded_valid, lemma_list_round_trip, lemma_map_decoded_valid,
    lemma_map_round_trip, lemma_scan_canonical, list_encoded, list_field, list_in, list_of,
    map_encoded, map_field, map_in, nested_field, nested_in, number, numeral, views, Compose,
    Keyed, KeyedCompose, Wire,
};
use crate::bhaptics_studio::tact::{DotPoint, DotPointView, PathPoint, PathPointView};
use crate::bhaptics_studio::ws::v2::model::PositionType;
use crate::enumerated::Enumerated;
use crate::haptic_lib::EffectInterpolation;
use crate::json::{lemma_object_view, member_views, Decimal, Json, JsonView, Member, MemberView};
use crate::text::{is_number_text, lemma_unsigned_round_trip, same_text};

verus! {

/// Which of the two kinds of feedback an effect plays at a body position.
#[derive(Clone, Copy, Debug, PartialEq, Eq, Structural)]
pub enum HapticFeedbackMode {
    DotMode,
    PathMode,
}

impl View for HapticFeedbackMode {
    type V = HapticFeedbackMode;

    open spec fn view(&self) -> HapticFeedbackMode {
        *self
    }
}

impl Enumerated for HapticFeedbackMode {
    open spec fn named(name: Seq<char>) -> Option<HapticFeedbackMode> {
        if name == "DOT_MODE"@ {
            Some(HapticFeedbackMode::DotMode)
        } else if name == "PATH_MODE"@ {
            Some(HapticFeedbackMode::PathMode)
        } else {
            None
        }
    }

    open spec fn name_of(self) -> Seq<char> {
        match self {
            HapticFeedbackMode::DotMode => "DOT_MODE"@,
            HapticFeedbackMode::PathMode => "PATH_MODE"@,
        }
    }

    fn parse(name: &str) -> (r: Option<HapticFeedbackMode>) {
        if same_text(name, "DOT_MODE") {
            Some(HapticFeedbackMode::DotMode)
        } else if same_text(name, "PATH_MODE") {
            Some(HapticFeedbackMode::PathMode)
        } else {
            None
        }
    }

    fn wire_name(self) -> (r: &'static str) {
        match self {
            HapticFeedbackMode::DotMode => "DOT_MODE",
            HapticFeedbackMode::PathMode => "PATH_MODE",
        }
    }

    proof fn lemma_name_round_trip(self) {
        reveal_strlit("DOT_MODE");
        reveal_strlit("PATH_MODE");
        assert("DOT_MODE"@.len() == 8);
        assert("PATH_MODE"@.len() == 9);
    }
}

/// How a path of points is walked: at constant speed, or with a constant time
/// between points. The second is written `CONST_TDM` and also read from the
/// older spelling `CONST_T_D_M`.
#[derive(Clone, Copy, Debug, PartialEq, Eq, Structural)]
pub enum PathMovingPattern {
    ConstSpeed,
    ConstTDM,
}

impl View for PathMovingPattern {
    type V = PathMovingPattern;

    open spec fn view(&self) -> PathMovingPattern {
        *self
    }
}

impl Enumerated for PathMovingPattern {
    open spec fn named(name: Seq<char>) -> Option<PathMovingPattern> {
        if name == "CONST_SPEED"@ {
            Some(PathMovingPattern::ConstSpeed)
        } else if name == "CONST_TDM"@ || name == "CONST_T_D_M"@ {
            Some(PathMovingPattern::ConstTDM)
        } else {
            None
        }
    }

    open spec fn name_of(self) -> Seq<char> {
        match self {
            PathMovingPattern::ConstSpeed => "CONST_SPEED"@,
            PathMovingPattern::ConstTDM => "CONST_TDM"@,
        }
    }

    fn parse(name: &str) -> (r: Option<PathMovingPattern>) {
        if same_text(name, "CONST_SPEED") {
            Some(PathMovingPattern::ConstSpeed)
        } else if same_text(name, "CONST_TDM") || same_text(name, "CONST_T_D_M") {
            Some(PathMovingPattern::ConstTDM)
        } else {
            None
        }
    }

    fn wire_name(self) -> (r: &'static str) {
        match self {
            PathMovingPattern::ConstSpeed => "CONST_SPEED",
            PathMovingPattern::ConstTDM => "CONST_TDM",
        }
    }

    proof fn lemma_name_round_trip(self) {
        reveal_strlit("CONST_SPEED");
        reveal_strlit("CONST_TDM");
        assert("CONST_SPEED"@.len() == 11);
        assert("CONST_TDM"@.len() == 9);
    }
}

/// One named layout of a device: the places of its motors, in order.
#[derive(Clone, Debug, PartialEq, Eq)]
pub struct NamedLayout {
    pub name: String,
    pub points: Vec<ProjectLayoutObject>,
}

/// The mathematical value of a [`NamedLayout`].
pub struct NamedLayoutView {
    pub name: Seq<char>,
    pub points: Seq<ProjectLayoutObjectView>,
}

impl View for NamedLayout {
    type V = NamedLayoutView;

    open spec fn view(&self) -> NamedLayoutView {
        NamedLayoutView { name: self.name@, points: views(self.points@) }
    }
}

impl Keyed for NamedLayout {
    open spec fn entry_of(m: MemberView, at: Field) -> Result<NamedLayoutView, DecodeErrorView> {
        match items_of(m.value, at) {
            Err(e) => Err(e),
            Ok(trees) => match list_of::<ProjectLayoutObject>(trees, at) {
                Err(e) => Err(e),
                Ok(points) => Ok(NamedLayoutView { name: m.name, points }),
            },
        }
    }

    open spec fn same_key(a: NamedLayoutView, b: NamedLayoutView) -> bool {
        a.name == b.name
    }

    fn decode_entry(m: &Member, at: Field) -> (r: Result<NamedLayout, DecodeError>) {
        let points = decode_list::<ProjectLayoutObject>(items(&m.value, at)?, at)?;
        Ok(NamedLayout { name: m.name.clone(), points })
    }

    fn shares_key(&self, other: &NamedLayout) -> (r: bool) {
        same_text(self.name.as_str(), other.name.as_str())
    }
}

impl KeyedCompose for NamedLayout {
    open spec fn entry_valid(v: NamedLayoutView) -> bool {
        all_valid::<ProjectLayoutObject>(v.points)
    }

    open spec fn member_of(v: NamedLayoutView) -> MemberView {
        MemberView { name: v.name, value: list_encoded::<ProjectLayoutObject>(v.points) }
    }

    fn to_member(&self) -> (m: Member) {
        Member { name: self.name.clone(), value: encode_list::<ProjectLayoutObject>(&self.points) }
    }

    proof fn lemma_entry_round_trip(v: NamedLayoutView, at: Field) {
        lemma_list_round_trip::<ProjectLayoutObject>(v.points, at);
    }

    proof fn lemma_entry_decoded_valid(m: MemberView, at: Field) {
        if Self::entry_of(m, at) is Ok {
            lemma_list_decoded_valid::<ProjectLayoutObject>(items_of(m.value, at)->Ok_0, at);
        }
    }
}

/// What an effect does at one body position.
#[derive(Clone, Debug, PartialEq, Eq)]
pub struct PositionMode {
    pub position: PositionType,
    pub mode: HapticEffectMode,
}

/// The mathematical value of a [`PositionMode`].
pub struct PositionModeView {
    pub position: PositionType,
    pub mode: HapticEffectModeView,
}

impl View for PositionMode {
    type V = PositionModeView;

    open spec fn view(&self) -> PositionModeView {
        PositionModeView { position: self.position, mode: self.mode@ }
    }
}

impl Keyed for PositionMode {
    open spec fn entry_of(m: MemberView, at: Field) -> Result<PositionModeView, DecodeErrorView> {
        match PositionType::named(m.name) {
            None => Err(unknown_value(m.name)),
            Some(position) => match HapticEffectMode::decoded(m.value, at) {
                Err(e) => Err(e),
                Ok(mode) => Ok(PositionModeView { position, mode }),
            },
        }
    }

    open spec fn same_key(a: PositionModeView, b: PositionModeView) -> bool {
        a.position == b.position
    }

    fn decode_entry(m: &Member, at: Field) -> (r: Result<PositionMode, DecodeError>) {
        match PositionType::parse(m.name.as_str()) {
            None => Err(DecodeError::unknown_value(m.name.as_str())),
            Some(position) => {
                let mode = HapticEffectMode::decode(&m.value, at)?;
                Ok(PositionMode { position, mode })
            },
        }
    }

    fn shares_key(&self, other: &PositionMode) -> (r: bool) {
        self.position == other.position
    }
}

impl KeyedCompose for PositionMode {
    open spec fn entry_valid(v: PositionModeView) -> bool {
        HapticEffectMode::valid(v.mode)
    }

    open spec fn member_of(v: PositionModeView) -> MemberView {
        MemberView { name: v.position.name_of(), value: HapticEffectMode::encoded(v.mode) }
    }

    fn to_member(&self) -> (m: Member) {
        Member { name: String::from_str(self.position.wire_name()), value: self.mode.encode() }
    }

    proof fn lemma_entry_round_trip(v: PositionModeView, at: Field) {
        v.position.lemma_name_round_trip();
        HapticEffectMode::lemma_round_trip(v.mode, at);
    }

    proof fn lemma_entry_decoded_valid(m: MemberView, at: Field) {
        HapticEffectMode::lemma_decoded_valid(m.value, at);
    }
}

/// The place of one motor in a device layout.
#[derive(Clone, Debug, PartialEq, Eq)]
pub struct ProjectLayoutObject {
    pub index: u8,
    pub x: Decimal,
    pub y: Decimal,
}

/// The mathematical value of a [`ProjectLayoutObject`].
pub struct ProjectLayoutObjectView {
    pub index: u8,
    pub x: Seq<char>,
    pub y: Seq<char>,
}

impl View for ProjectLayoutObject {
    type V = ProjectLayoutObjectView;

    open spec fn view(&self) -> ProjectLayoutObjectView {
        ProjectLayoutObjectView { index: self.index, x: self.x@, y: self.y@ }
    }
}

impl Wire for ProjectLayoutObject {
    open spec fn fields() -> Seq<Field> {
        seq![Field::LayoutObjectIndex, Field::LayoutObjectX, Field::LayoutObjectY]
    }

    proof fn lemma_fields() {
        reveal_strlit("index");
        reveal_strlit("x");
        reveal_strlit("y");
        assert("index"@.len() == 5);
        assert("x"@.len() == 1);
        assert("y"@.len() == 1);
        assert("x"@[0] == 'x');
        assert("y"@[0] == 'y');
        let fields = Self::fields();
        assert forall|a: int, b: int| 0 <= a < b < fields.len() implies share_no_name(
            #[trigger] fields[a],
            #[trigger] fields[b],
        ) by {
            lemma_share_no_name(fields[a], fields[b]);
        }
    }

    open spec fn decoded(j: JsonView, at: Field) -> Result<
        ProjectLayoutObjectView,
        DecodeErrorView,
    > {
        match members_of(j, at) {
            Err(e) => Err(e),
            Ok(ms) => {
                let index = u8_field(ms, Field::LayoutObjectIndex);
                let x = decimal_field(ms, Field::LayoutObjectX);
                let y = decimal_field(ms, Field::LayoutObjectY);
                if index is Err {
                    Err(index->Err_0)
                } else if x is Err {
                    Err(x->Err_0)
                } else if y is Err {
                    Err(y->Err_0)
                } else {
                    Ok(ProjectLayoutObjectView { index: index->Ok_0, x: x->Ok_0, y: y->Ok_0 })
                }
            },
        }
    }

    fn decode(j: &Json, at: Field) -> (r: Result<ProjectLayoutObject, DecodeError>) {
        let ms = members(j, at)?;
        let index = u8_in(ms, Field::LayoutObjectIndex)?;
        let x = decimal_in(ms, Field::LayoutObjectX)?;
        let y = decimal_in(ms, Field::LayoutObjectY)?;
        Ok(ProjectLayoutObject { index, x, y })
    }
}

impl Compose for ProjectLayoutObject {
    open spec fn valid(v: ProjectLayoutObjectView) -> bool {
        &&& is_number_text(v.x)
        &&& is_number_text(v.y)
    }

    open spec fn encoded(v: ProjectLayoutObjectView) -> JsonView {
        JsonView::Object(
            seq![
                holding(Field::LayoutObjectIndex, numeral(v.index as nat)),
                holding(Field::LayoutObjectX, JsonView::Number(v.x)),
                holding(Field::LayoutObjectY, JsonView::Number(v.y)),
            ],
        )
    }

    fn encode(&self) -> (j: Json) {
        let mut ms: Vec<Member> = Vec::new();
        ms.push(hold(Field::LayoutObjectIndex, number(self.index as u64)));
        ms.push(hold(Field::LayoutObjectX, Json::Number(self.x.text.clone())));
        ms.push(hold(Field::LayoutObjectY, Json::Number(self.y.text.clone())));
        proof {
            lemma_object_view(ms);
            assert(member_views(ms@) =~= Self::encoded(self@)->Object_0);
        }
        Json::Object(ms)
    }

    proof fn lemma_round_trip(v: ProjectLayoutObjectView, at: Field) {
        let ms = Self::encoded(v)->Object_0;
        Self::lemma_fields();
        lemma_scan_canonical(ms, Self::fields(), 0);
        lemma_unsigned_round_trip(v.index as nat, u8::MAX as nat);
        lemma_scan_canonical(ms, Self::fields(), 1);
        lemma_scan_canonical(ms, Self::fields(), 2);
    }

    proof fn lemma_decoded_valid(j: JsonView, at: Field) {
    }
}

/// The device layout that a project was authored for: for each named
/// layout, the places of its motors. No two layouts have the same name.
#[derive(Clone, Debug, PartialEq, Eq)]
pub struct ProjectLayout {
    pub device_type: String,
    pub name: String,
    pub layouts: Vec<NamedLayout>,
}

/// The mathematical value of a [`ProjectLayout`].
pub struct ProjectLayoutView {
    pub device_type: Seq<char>,
    pub name: Seq<char>,
    pub layouts: Seq<NamedLayoutView>,
}

impl View for ProjectLayout {
    type V = ProjectLayoutView;

    open spec fn view(&self) -> ProjectLayoutView {
        ProjectLayoutView {
            device_type: self.device_type@,
            name: self.name@,
            layouts: views(self.layouts@),
        }
    }
}

impl Wire for ProjectLayout {
    open spec fn fields() -> Seq<Field> {
        seq![Field::LayoutType, Field::LayoutName, Field::LayoutLayouts]
    }

    proof fn lemma_fields() {
        reveal_strlit("type");
        reveal_strlit("Type");
        reveal_strlit("name");
        reveal_strlit("layouts");
        assert("type"@.len() == 4);
        assert("Type"@.len() == 4);
        assert("name"@.len() == 4);
        assert("layouts"@.len() == 7);
        assert("Type"@[0] == 'T');
        assert("name"@[0] == 'n');
        assert("type"@[0] == 't');
        let fields = Self::fields();
        assert forall|a: int, b: int| 0 <= a < b < fields.len() implies share_no_name(
            #[trigger] fields[a],
            #[trigger] fields[b],
        ) by {
            lemma_share_no_name(fields[a], fields[b]);
        }
    }

    open spec fn decoded(j: JsonView, at: Field) -> Result<ProjectLayoutView, DecodeErrorView> {
        match members_of(j, at) {
            Err(e) => Err(e),
            Ok(ms) => {
                let device_type = text_field(ms, Field::LayoutType);
                let name = text_field(ms, Field::LayoutName);
                let layouts = map_field::<NamedLayout>(ms, Field::LayoutLayouts);
                if device_type is Err {
                    Err(device_type->Err_0)
                } else if name is Err {
                    Err(name->Err_0)
                } else if layouts is Err {
                    Err(layouts->Err_0)
                } else {
                    Ok(
                        ProjectLayoutView {
                            device_type: device_type->Ok_0,
                            name: name->Ok_0,
                            layouts: layouts->Ok_0,
                        },
                    )
                }
            },
        }
    }

    fn decode(j: &Json, at: Field) -> (r: Result<ProjectLayout, DecodeError>) {
        let ms = members(j, at)?;
        let device_type = text_in(ms, Field::LayoutType)?;
        let name = text_in(ms, Field::LayoutName)?;
        let layouts = map_in::<NamedLayout>(ms, Field::LayoutLayouts)?;
        Ok(ProjectLayout { device_type, name, layouts })
    }
}

impl Compose for ProjectLayout {
    open spec fn valid(v: ProjectLayoutView) -> bool {
        &&& all_entries_valid::<NamedLayout>(v.layouts) && distinct_keys::<NamedLayout>(v.layouts)
    }

    open spec fn encoded(v: ProjectLayoutView) -> JsonView {
        JsonView::Object(
            seq![
                holding(Field::LayoutType, JsonView::Text(v.device_type)),
                holding(Field::LayoutName, JsonView::Text(v.name)),
                holding(Field::LayoutLayouts, map_encoded::<NamedLayout>(v.layouts)),
            ],
        )
    }

    fn encode(&self) -> (j: Json) {
        let mut ms: Vec<Member> = Vec::new();
        ms.push(hold(Field::LayoutType, Json::Text(self.device_type.clone())));
        ms.push(hold(Field::LayoutName, Json::Text(self.name.clone())));
        ms.push(hold(Field::LayoutLayouts, encode_map::<NamedLayout>(&self.layouts)));
        proof {
            lemma_object_view(ms);
            assert(member_views(ms@) =~= Self::encoded(self@)->Object_0);
        }
        Json::Object(ms)
    }

    proof fn lemma_round_trip(v: ProjectLayoutView, at: Field) {
        let ms = Self::encoded(v)->Object_0;
        Self::lemma_fields();
        lemma_scan_canonical(ms, Self::fields(), 0);
        lemma_scan_canonical(ms, Self::fields(), 1);
        lemma_scan_canonical(ms, Self::fields(), 2);
        lemma_map_round_trip::<NamedLayout>(v.layouts, Field::LayoutLayouts);
    }

    proof fn lemma_decoded_valid(j: JsonView, at: Field) {
        if Self::decoded(j, at) is Ok {
            let ms = members_of(j, at)->Ok_0;
            lemma_map_decoded_valid::<NamedLayout>(
                required(ms, Field::LayoutLayouts)->Ok_0,
                Field::LayoutLayouts,
            );
        }
    }
}

/// A time window of feedback on indexed motors. The window does not end
/// before it starts.
#[derive(Clone, Debug, PartialEq, Eq)]
pub struct DotModeFeedbackCollection {
    pub start_time: u64,
    pub end_time: u64,
    pub playback_type: EffectInterpolation,
    pub point_list: Vec<DotPoint>,
}

/// The mathematical value of a [`DotModeFeedbackCollection`].
pub struct DotModeFeedbackCollectionView {
    pub start_time: u64,
    pub end_time: u64,
    pub playback_type: EffectInterpolation,
    pub point_list: Seq<DotPointView>,
}

impl View for DotModeFeedbackCollection {
    type V = DotModeFeedbackCollectionView;

    open spec fn view(&self) -> DotModeFeedbackCollectionView {
        DotModeFeedbackCollectionView {
            start_time: self.start_time,
            end_time: self.end_time,
            playback_type: self.playback_type,
            point_list: views(self.point_list@),
        }
    }
}

impl Wire for DotModeFeedbackCollection {
    open spec fn fields() -> Seq<Field> {
        seq![
            Field::DotFeedbackStartTime,
            Field::DotFeedbackEndTime,
            Field::DotFeedbackPlaybackType,
            Field::DotFeedbackPointList,
        ]
    }

    proof fn lemma_fields() {
        reveal_strlit("start_time");
        reveal_strlit("startTime");
        reveal_strlit("end_time");
        reveal_strlit("endTime");
        reveal_strlit("playback_type");
        reveal_strlit("playbackType");
        reveal_strlit("point_list");
        reveal_strlit("pointList");
        assert("start_time"@.len() == 10);
        assert("startTime"@.len() == 9);
        assert("end_time"@.len() == 8);
        assert("endTime"@.len() == 7);
        assert("playback_type"@.len() == 13);
        assert("playbackType"@.len() == 12);
        assert("point_list"@.len() == 10);
        assert("pointList"@.len() == 9);
        assert("point_list"@[0] == 'p');
        assert("start_time"@[0] == 's');
        assert("pointList"@[0] == 'p');
        assert("startTime"@[0] == 's');
        let fields = Self::fields();
        assert forall|a: int, b: int| 0 <= a < b < fields.len() implies share_no_name(
            #[trigger] fields[a],
            #[trigger] fields[b],
        ) by {
            lemma_share_no_name(fields[a], fields[b]);
        }
    }

    open spec fn decoded(j: JsonView, at: Field) -> Result<
        DotModeFeedbackCollectionView,
        DecodeErrorView,
    > {
        match members_of(j, at) {
            Err(e) => Err(e),
            Ok(ms) => {
                let start_time = u64_field(ms, Field::DotFeedbackStartTime);
                let end_time = u64_field(ms, Field::DotFeedbackEndTime);
                let playback_type = enumerated_field::<EffectInterpolation>(
                    ms,
                    Field::DotFeedbackPlaybackType,
                );
                let point_list = list_field::<DotPoint>(ms, Field::DotFeedbackPointList);
                if start_time is Err {
                    Err(start_time->Err_0)
                } else if end_time is Err {
                    Err(end_time->Err_0)
                } else if playback_type is Err {
                    Err(playback_type->Err_0)
                } else if point_list is Err {
                    Err(point_list->Err_0)
                } else if start_time->Ok_0 > end_time->Ok_0 {
                    Err(wrong(at))
                } else {
                    Ok(
                        DotModeFeedbackCollectionView {
                            start_time: start_time->Ok_0,
                            end_time: end_time->Ok_0,
                            playback_type: playback_type->Ok_0,
                            point_list: point_list->Ok_0,
                        },
                    )
                }
            },
        }
    }

    fn decode(j: &Json, at: Field) -> (r: Result<DotModeFeedbackCollection, DecodeError>) {
        let ms = members(j, at)?;
        let start_time = u64_in(ms, Field::DotFeedbackStartTime)?;
        let end_time = u64_in(ms, Field::DotFeedbackEndTime)?;
        let playback_type = enumerated_in::<EffectInterpolation>(
            ms,
            Field::DotFeedbackPlaybackType,
        )?;
        let point_list = list_in::<DotPoint>(ms, Field::DotFeedbackPointList)?;
        if start_time > end_time {
            return Err(DecodeError::wrong(at));
        }
        Ok(DotModeFeedbackCollection { start_time, end_time, playback_type, point_list })
    }
}

impl Compose for DotModeFeedbackCollection {
    open spec fn valid(v: DotModeFeedbackCollectionView) -> bool {
        &&& all_valid::<DotPoint>(v.point_list)
        &&& v.start_time <= v.end_time
    }

    open spec fn encoded(v: DotModeFeedbackCollectionView) -> JsonView {
        JsonView::Object(
            seq![
                holding(Field::DotFeedbackStartTime, numeral(v.start_time as nat)),
                holding(Field::DotFeedbackEndTime, numeral(v.end_time as nat)),
                holding(Field::DotFeedbackPlaybackType, JsonView::Text(v.playback_type.name_of())),
                holding(Field::DotFeedbackPointList, list_encoded::<DotPoint>(v.point_list)),
            ],
        )
    }

    fn encode(&self) -> (j: Json) {
        let mut ms: Vec<Member> = Vec::new();
        ms.push(hold(Field::DotFeedbackStartTime, number(self.start_time)));
        ms.push(hold(Field::DotFeedbackEndTime, number(self.end_time)));
        ms.push(
            hold(
                Field::DotFeedbackPlaybackType,
                Json::Text(String::from_str(self.playback_type.wire_name())),
            ),
        );
        ms.push(hold(Field::DotFeedbackPointList, encode_list::<DotPoint>(&self.point_list)));
        proof {
            lemma_object_view(ms);
            assert(member_views(ms@) =~= Self::encoded(self@)->Object_0);
        }
        Json::Object(ms)
    }

    proof fn lemma_round_trip(v: DotModeFeedbackCollectionView, at: Field) {
        let ms = Self::encoded(v)->Object_0;
        Self::lemma_fields();
        lemma_scan_canonical(ms, Self::fields(), 0);
        lemma_unsigned_round_trip(v.start_time as nat, u64::MAX as nat);
        lemma_scan_canonical(ms, Self::fields(), 1);
        lemma_unsigned_round_trip(v.end_time as nat, u64::MAX as nat);
        lemma_scan_canonical(ms, Self::fields(), 2);
        v.playback_type.lemma_name_round_trip();
        lemma_scan_canonical(ms, Self::fields(), 3);
        lemma_list_round_trip::<DotPoint>(v.point_list, Field::DotFeedbackPointList);
    }

    proof fn lemma_decoded_valid(j: JsonView, at: Field) {
        if Self::decoded(j, at) is Ok {
            let ms = members_of(j, at)->Ok_0;
            lemma_list_decoded_valid::<DotPoint>(
                items_of(
                    required(ms, Field::DotFeedbackPointList)->Ok_0,
                    Field::DotFeedbackPointList,
                )->Ok_0,
                Field::DotFeedbackPointList,
            );
        }
    }
}

/// The dot feedback of an effect at one body position.
#[derive(Clone, Debug, PartialEq, Eq)]
pub struct DotMode {
    pub dot_connected: bool,
    pub feedback: Vec<DotModeFeedbackCollection>,
}

/// The mathematical value of a [`DotMode`].
pub struct DotModeView {
    pub dot_connected: bool,
    pub feedback: Seq<DotModeFeedbackCollectionView>,
}

impl View for DotMode {
    type V = DotModeView;

    open spec fn view(&self) -> DotModeView {
        DotModeView { dot_connected: self.dot_connected, feedback: views(self.feedback@) }
    }
}

impl Wire for DotMode {
    open spec fn fields() -> Seq<Field> {
        seq![Field::DotModeDotConnected, Field::DotModeFeedback]
    }

    proof fn lemma_fields() {
        reveal_strlit("dot_connected");
        reveal_strlit("dotConnected");
        reveal_strlit("feedback");
        assert("dot_connected"@.len() == 13);
        assert("dotConnected"@.len() == 12);
        assert("feedback"@.len() == 8);
        let fields = Self::fields();
        assert forall|a: int, b: int| 0 <= a < b < fields.len() implies share_no_name(
            #[trigger] fields[a],
            #[trigger] fields[b],
        ) by {
            lemma_share_no_name(fields[a], fields[b]);
        }
    }

    open spec fn decoded(j: JsonView, at: Field) -> Result<DotModeView, DecodeErrorView> {
        match members_of(j, at) {
            Err(e) => Err(e),
            Ok(ms) => {
                let dot_connected = flag_field(ms, Field::DotModeDotConnected);
                let feedback = list_field::<DotModeFeedbackCollection>(ms, Field::DotModeFeedback);
                if dot_connected is Err {
                    Err(dot_connected->Err_0)
                } else if feedback is Err {
                    Err(feedback->Err_0)
                } else {
                    Ok(
                        DotModeView {
                            dot_connected: dot_connected->Ok_0,
                            feedback: feedback->Ok_0,
                        },
                    )
                }
            },
        }
    }

    fn decode(j: &Json, at: Field) -> (r: Result<DotMode, DecodeError>) {
        let ms = members(j, at)?;
        let dot_connected = flag_in(ms, Field::DotModeDotConnected)?;
        let feedback = list_in::<DotModeFeedbackCollection>(ms, Field::DotModeFeedback)?;
        Ok(DotMode { dot_connected, feedback })
    }
}

impl Compose for DotMode {
    open spec fn valid(v: DotModeView) -> bool {
        &&& all_valid::<DotModeFeedbackCollection>(v.feedback)
    }

    open spec fn encoded(v: DotModeView) -> JsonView {
        JsonView::Object(
            seq![
                holding(Field::DotModeDotConnected, JsonView::Bool(v.dot_connected)),
                holding(
                    Field::DotModeFeedback,
                    list_encoded::<DotModeFeedbackCollection>(v.feedback),
                ),
            ],
        )
    }

    fn encode(&self) -> (j: Json) {
        let mut ms: Vec<Member> = Vec::new();
        ms.push(hold(Field::DotModeDotConnected, Json::Bool(self.dot_connected)));
        ms.push(
            hold(Field::DotModeFeedback, encode_list::<DotModeFeedbackCollection>(&self.feedback)),
        );
        proof {
            lemma_object_view(ms);
            assert(member_views(ms@) =~= Self::encoded(self@)->Object_0);
        }
        Json::Object(ms)
    }

    proof fn lemma_round_trip(v: DotModeView, at: Field) {
        let ms = Self::encoded(v)->Object_0;
        Self::lemma_fields();
        lemma_scan_canonical(ms, Self::fields(), 0);
        lemma_scan_canonical(ms, Self::fields(), 1);
        lemma_list_round_trip::<DotModeFeedbackCollection>(v.feedback, Field::DotModeFeedback);
    }

    proof fn lemma_decoded_valid(j: JsonView, at: Field) {
        if Self::decoded(j, at) is Ok {
            let ms = members_of(j, at)->Ok_0;
            lemma_list_decoded_valid::<DotModeFeedbackCollection>(
                items_of(required(ms, Field::DotModeFeedback)->Ok_0, Field::DotModeFeedback)->Ok_0,
                Field::DotModeFeedback,
            );
        }
    }
}

/// A window of feedback along a path of coordinates.
#[derive(Clone, Debug, PartialEq, Eq)]
pub struct PathModeFeedbackCollection {
    pub moving_pattern: PathMovingPattern,
    pub playback_type: EffectInterpolation,
    pub visible: bool,
    pub point_list: Vec<PathPoint>,
}

/// The mathematical value of a [`PathModeFeedbackCollection`].
pub struct PathModeFeedbackCollectionView {
    pub moving_pattern: PathMovingPattern,
    pub playback_type: EffectInterpolation,
    pub visible: bool,
    pub point_list: Seq<PathPointView>,
}

impl View for PathModeFeedbackCollection {
    type V = PathModeFeedbackCollectionView;

    open spec fn view(&self) -> PathModeFeedbackCollectionView {
        PathModeFeedbackCollectionView {
            moving_pattern: self.moving_pattern,
            playback_type: self.playback_type,
            visible: self.visible,
            point_list: views(self.point_list@),
        }
    }
}

impl Wire for PathModeFeedbackCollection {
    open spec fn fields() -> Seq<Field> {
        seq![
            Field::PathFeedbackMovingPattern,
            Field::PathFeedbackPlaybackType,
            Field::PathFeedbackVisible,
            Field::PathFeedbackPointList,
        ]
    }

    proof fn lemma_fields() {
        reveal_strlit("moving_pattern");
        reveal_strlit("movingPattern");
        reveal_strlit("playback_type");
        reveal_strlit("playbackType");
        reveal_strlit("visible");
        reveal_strlit("point_list");
        reveal_strlit("pointList");
        assert("moving_pattern"@.len() == 14);
        assert("movingPattern"@.len() == 13);
        assert("playback_type"@.len() == 13);
        assert("playbackType"@.len() == 12);
        assert("visible"@.len() == 7);
        assert("point_list"@.len() == 10);
        assert("pointList"@.len() == 9);
        assert("movingPattern"@[0] == 'm');
        assert("playback_type"@[0] == 'p');
        let fields = Self::fields();
        assert forall|a: int, b: int| 0 <= a < b < fields.len() implies share_no_name(
            #[trigger] fields[a],
            #[trigger] fields[b],
        ) by {
            lemma_share_no_name(fields[a], fields[b]);
        }
    }

    open spec fn decoded(j: JsonView, at: Field) -> Result<
        PathModeFeedbackCollectionView,
        DecodeErrorView,
    > {
        match members_of(j, at) {
            Err(e) => Err(e),
            Ok(ms) => {
                let moving_pattern = enumerated_field::<PathMovingPattern>(
                    ms,
                    Field::PathFeedbackMovingPattern,
                );
                let playback_type = enumerated_field::<EffectInterpolation>(
                    ms,
                    Field::PathFeedbackPlaybackType,
                );
                let visible = flag_field(ms, Field::PathFeedbackVisible);
                let point_list = list_field::<PathPoint>(ms, Field::PathFeedbackPointList);
                if moving_pattern is Err {
                    Err(moving_pattern->Err_0)
                } else if playback_type is Err {
                    Err(playback_type->Err_0)
                } else if visible is Err {
                    Err(visible->Err_0)
                } else if point_list is Err {
                    Err(point_list->Err_0)
                } else {
                    Ok(
                        PathModeFeedbackCollectionView {
                            moving_pattern: moving_pattern->Ok_0,
                            playback_type: playback_type->Ok_0,
                            visible: visible->Ok_0,
                            point_list: point_list->Ok_0,
                        },
                    )
                }
            },
        }
    }

    fn decode(j: &Json, at: Field) -> (r: Result<PathModeFeedbackCollection, DecodeError>) {
        let ms = members(j, at)?;
        let moving_pattern = enumerated_in::<PathMovingPattern>(
            ms,
            Field::PathFeedbackMovingPattern,
        )?;
        let playback_type = enumerated_in::<EffectInterpolation>(
            ms,
            Field::PathFeedbackPlaybackType,
        )?;
        let visible = flag_in(ms, Field::PathFeedbackVisible)?;
        let point_list = list_in::<PathPoint>(ms, Field::PathFeedbackPointList)?;
        Ok(PathModeFeedbackCollection { moving_pattern, playback_type, visible, point_list })
    }
}

impl Compose for PathModeFeedbackCollection {
    open spec fn valid(v: PathModeFeedbackCollectionView) -> bool {
        &&& all_valid::<PathPoint>(v.point_list)
    }

    open spec fn encoded(v: PathModeFeedbackCollectionView) -> JsonView {
        JsonView::Object(
            seq![
                holding(
                    Field::PathFeedbackMovingPattern,
                    JsonView::Text(v.moving_pattern.name_of()),
                ),
                holding(Field::PathFeedbackPlaybackType, JsonView::Text(v.playback_type.name_of())),
                holding(Field::PathFeedbackVisible, JsonView::Bool(v.visible)),
                holding(Field::PathFeedbackPointList, list_encoded::<PathPoint>(v.point_list)),
            ],
        )
    }

    fn encode(&self) -> (j: Json) {
        let mut ms: Vec<Member> = Vec::new();
        ms.push(
            hold(
                Field::PathFeedbackMovingPattern,
                Json::Text(String::from_str(self.moving_pattern.wire_name())),
            ),
        );
        ms.push(
            hold(
                Field::PathFeedbackPlaybackType,
                Json::Text(String::from_str(self.playback_type.wire_name())),
            ),
        );
        ms.push(hold(Field::PathFeedbackVisible, Json::Bool(self.visible)));
        ms.push(hold(Field::PathFeedbackPointList, encode_list::<PathPoint>(&self.point_list)));
        proof {
            lemma_object_view(ms);
            assert(member_views(ms@) =~= Self::encoded(self@)->Object_0);
        }
        Json::Object(ms)
    }

    proof fn lemma_round_trip(v: PathModeFeedbackCollectionView, at: Field) {
        let ms = Self::encoded(v)->Object_0;
        Self::lemma_fields();
        lemma_scan_canonical(ms, Self::fields(), 0);
        v.moving_pattern.lemma_name_round_trip();
        lemma_scan_canonical(ms, Self::fields(), 1);
        v.playback_type.lemma_name_round_trip();
        lemma_scan_canonical(ms, Self::fields(), 2);
        lemma_scan_canonical(ms, Self::fields(), 3);
        lemma_list_round_trip::<PathPoint>(v.point_list, Field::PathFeedbackPointList);
    }

    proof fn lemma_decoded_valid(j: JsonView, at: Field) {
        if Self::decoded(j, at) is Ok {
            let ms = members_of(j, at)->Ok_0;
            lemma_list_decoded_valid::<PathPoint>(
                items_of(
                    required(ms, Field::PathFeedbackPointList)->Ok_0,
                    Field::PathFeedbackPointList,
                )->Ok_0,
                Field::PathFeedbackPointList,
            );
        }
    }
}

/// The path feedback of an effect at one body position.
#[derive(Clone, Debug, PartialEq, Eq)]
pub struct PathMode {
    pub feedback: Vec<PathModeFeedbackCollection>,
}

/// The mathematical value of a [`PathMode`].
pub struct PathModeView {
    pub feedback: Seq<PathModeFeedbackCollectionView>,
}

impl View for PathMode {
    type V = PathModeView;

    open spec fn view(&self) -> PathModeView {
        PathModeView { feedback: views(self.feedback@) }
    }
}

impl Wire for PathMode {
    open spec fn fields() -> Seq<Field> {
        seq![Field::PathModeFeedback]
    }

    proof fn lemma_fields() {
        reveal_strlit("feedback");
        assert("feedback"@.len() == 8);
    }

    open spec fn decoded(j: JsonView, at: Field) -> Result<PathModeView, DecodeErrorView> {
        match members_of(j, at) {
            Err(e) => Err(e),
            Ok(ms) => {
                let feedback = list_field::<PathModeFeedbackCollection>(
                    ms,
                    Field::PathModeFeedback,
                );
                if feedback is Err {
                    Err(feedback->Err_0)
                } else {
                    Ok(PathModeView { feedback: feedback->Ok_0 })
                }
            },
        }
    }

    fn decode(j: &Json, at: Field) -> (r: Result<PathMode, DecodeError>) {
        let ms = members(j, at)?;
        let feedback = list_in::<PathModeFeedbackCollection>(ms, Field::PathModeFeedback)?;
        Ok(PathMode { feedback })
    }
}

impl Compose for PathMode {
    open spec fn valid(v: PathModeView) -> bool {
        &&& all_valid::<PathModeFeedbackCollection>(v.feedback)
    }

    open spec fn encoded(v: PathModeView) -> JsonView {
        JsonView::Object(
            seq![
                holding(
                    Field::PathModeFeedback,
                    list_encoded::<PathModeFeedbackCollection>(v.feedback),
                ),
            ],
        )
    }

    fn encode(&self) -> (j: Json) {
        let mut ms: Vec<Member> = Vec::new();
        ms.push(
            hold(
                Field::PathModeFeedback,
                encode_list::<PathModeFeedbackCollection>(&self.feedback),
            ),
        );
        proof {
            lemma_object_view(ms);
            assert(member_views(ms@) =~= Self::encoded(self@)->Object_0);
        }
        Json::Object(ms)
    }

    proof fn lemma_round_trip(v: PathModeView, at: Field) {
        let ms = Self::encoded(v)->Object_0;
        Self::lemma_fields();
        lemma_scan_canonical(ms, Self::fields(), 0);
        lemma_list_round_trip::<PathModeFeedbackCollection>(v.feedback, Field::PathModeFeedback);
    }

    proof fn lemma_decoded_valid(j: JsonView, at: Field) {
        if Self::decoded(j, at) is Ok {
            let ms = members_of(j, at)->Ok_0;
            lemma_list_decoded_valid::<PathModeFeedbackCollection>(
                items_of(
                    required(ms, Field::PathModeFeedback)->Ok_0,
                    Field::PathModeFeedback,
                )->Ok_0,
                Field::PathModeFeedback,
            );
        }
    }
}

/// What an effect does at one body position: its dot feedback, its path
/// feedback, and which of the two is played.
#[derive(Clone, Debug, PartialEq, Eq)]
pub struct HapticEffectMode {
    pub mode: HapticFeedbackMode,
    pub dot_mode: DotMode,
    pub path_mode: PathMode,
}

/// The mathematical value of a [`HapticEffectMode`].
pub struct HapticEffectModeView {
    pub mode: HapticFeedbackMode,
    pub dot_mode: DotModeView,
    pub path_mode: PathModeView,
}

impl View for HapticEffectMode {
    type V = HapticEffectModeView;

    open spec fn view(&self) -> HapticEffectModeView {
        HapticEffectModeView {
            mode: self.mode,
            dot_mode: self.dot_mode@,
            path_mode: self.path_mode@,
        }
    }
}

impl Wire for HapticEffectMode {
    open spec fn fields() -> Seq<Field> {
        seq![Field::ModeMode, Field::ModeDotMode, Field::ModePathMode]
    }

    proof fn lemma_fields() {
        reveal_strlit("mode");
        reveal_strlit("dotMode");
        reveal_strlit("pathMode");
        assert("mode"@.len() == 4);
        assert("dotMode"@.len() == 7);
        assert("pathMode"@.len() == 8);
        let fields = Self::fields();
        assert forall|a: int, b: int| 0 <= a < b < fields.len() implies share_no_name(
            #[trigger] fields[a],
            #[trigger] fields[b],
        ) by {
            lemma_share_no_name(fields[a], fields[b]);
        }
    }

    open spec fn decoded(j: JsonView, at: Field) -> Result<HapticEffectModeView, DecodeErrorView> {
        match members_of(j, at) {
            Err(e) => Err(e),
            Ok(ms) => {
                let mode = enumerated_field::<HapticFeedbackMode>(ms, Field::ModeMode);
                let dot_mode = nested_field::<DotMode>(ms, Field::ModeDotMode);
                let path_mode = nested_field::<PathMode>(ms, Field::ModePathMode);
                if mode is Err {
                    Err(mode->Err_0)
                } else if dot_mode is Err {
                    Err(dot_mode->Err_0)
                } else if path_mode is Err {
                    Err(path_mode->Err_0)
                } else {
                    Ok(
                        HapticEffectModeView {
                            mode: mode->Ok_0,
                            dot_mode: dot_mode->Ok_0,
                            path_mode: path_mode->Ok_0,
                        },
                    )
                }
            },
        }
    }

    fn decode(j: &Json, at: Field) -> (r: Result<HapticEffectMode, DecodeError>) {
        let ms = members(j, at)?;
        let mode = enumerated_in::<HapticFeedbackMode>(ms, Field::ModeMode)?;
        let dot_mode = nested_in::<DotMode>(ms, Field::ModeDotMode)?;
        let path_mode = nested_in::<PathMode>(ms, Field::ModePathMode)?;
        Ok(HapticEffectMode { mode, dot_mode, path_mode })
    }
}

impl Compose for HapticEffectMode {
    open spec fn valid(v: HapticEffectModeView) -> bool {
        &&& DotMode::valid(v.dot_mode)
        &&& PathMode::valid(v.path_mode)
    }

    open spec fn encoded(v: HapticEffectModeView) -> JsonView {
        JsonView::Object(
            seq![
                holding(Field::ModeMode, JsonView::Text(v.mode.name_of())),
                holding(Field::ModeDotMode, DotMode::encoded(v.dot_mode)),
                holding(Field::ModePathMode, PathMode::encoded(v.path_mode)),
            ],
        )
    }

    fn encode(&self) -> (j: Json) {
        let mut ms: Vec<Member> = Vec::new();
        ms.push(hold(Field::ModeMode, Json::Text(String::from_str(self.mode.wire_name()))));
        ms.push(hold(Field::ModeDotMode, self.dot_mode.encode()));
        ms.push(hold(Field::ModePathMode, self.path_mode.encode()));
        proof {
            lemma_object_view(ms);
            assert(member_views(ms@) =~= Self::encoded(self@)->Object_0);
        }
        Json::Object(ms)
    }

    proof fn lemma_round_trip(v: HapticEffectModeView, at: Field) {
        let ms = Self::encoded(v)->Object_0;
        Self::lemma_fields();
        lemma_scan_canonical(ms, Self::fields(), 0);
        v.mode.lemma_name_round_trip();
        lemma_scan_canonical(ms, Self::fields(), 1);
        DotMode::lemma_round_trip(v.dot_mode, Field::ModeDotMode);
        lemma_scan_canonical(ms, Self::fields(), 2);
        PathMode::lemma_round_trip(v.path_mode, Field::ModePathMode);
    }

    proof fn lemma_decoded_valid(j: JsonView, at: Field) {
        if Self::decoded(j, at) is Ok {
            let ms = members_of(j, at)->Ok_0;
            DotMode::lemma_decoded_valid(
                required(ms, Field::ModeDotMode)->Ok_0,
                Field::ModeDotMode,
            );
            PathMode::lemma_decoded_valid(
                required(ms, Field::ModePathMode)->Ok_0,
                Field::ModePathMode,
            );
        }
    }
}

/// One effect of a track: what it does at each body position, and when.
/// No body position comes twice.
#[derive(Clone, Debug, PartialEq, Eq)]
pub struct HapticEffect {
    pub name: String,
    pub modes: Vec<PositionMode>,
    pub start_time: u64,
    pub offset_time: u64,
}

/// The mathematical value of a [`HapticEffect`].
pub struct HapticEffectView {
    pub name: Seq<char>,
    pub modes: Seq<PositionModeView>,
    pub start_time: u64,
    pub offset_time: u64,
}

impl View for HapticEffect {
    type V = HapticEffectView;

    open spec fn view(&self) -> HapticEffectView {
        HapticEffectView {
            name: self.name@,
            modes: views(self.modes@),
            start_time: self.start_time,
            offset_time: self.offset_time,
        }
    }
}

impl Wire for HapticEffect {
    open spec fn fields() -> Seq<Field> {
        seq![Field::EffectName, Field::EffectModes, Field::EffectStartTime, Field::EffectOffsetTime]
    }

    proof fn lemma_fields() {
        reveal_strlit("name");
        reveal_strlit("modes");
        reveal_strlit("start_time");
        reveal_strlit("startTime");
        reveal_strlit("offset_time");
        reveal_strlit("offsetTime");
        assert("name"@.len() == 4);
        assert("modes"@.len() == 5);
        assert("start_time"@.len() == 10);
        assert("startTime"@.len() == 9);
        assert("offset_time"@.len() == 11);
        assert("offsetTime"@.len() == 10);
        assert("offsetTime"@[0] == 'o');
        assert("start_time"@[0] == 's');
        let fields = Self::fields();
        assert forall|a: int, b: int| 0 <= a < b < fields.len() implies share_no_name(
            #[trigger] fields[a],
            #[trigger] fields[b],
        ) by {
            lemma_share_no_name(fields[a], fields[b]);
        }
    }

    open spec fn decoded(j: JsonView, at: Field) -> Result<HapticEffectView, DecodeErrorView> {
        match members_of(j, at) {
            Err(e) => Err(e),
            Ok(ms) => {
                let name = text_field(ms, Field::EffectName);
                let modes = map_field::<PositionMode>(ms, Field::EffectModes);
                let start_time = u64_field(ms, Field::EffectStartTime);
                let offset_time = u64_field(ms, Field::EffectOffsetTime);
                if name is Err {
                    Err(name->Err_0)
                } else if modes is Err {
                    Err(modes->Err_0)
                } else if start_time is Err {
                    Err(start_time->Err_0)
                } else if offset_time is Err {
                    Err(offset_time->Err_0)
                } else {
                    Ok(
                        HapticEffectView {
                            name: name->Ok_0,
                            modes: modes->Ok_0,
                            start_time: start_time->Ok_0,
                            offset_time: offset_time->Ok_0,
                        },
                    )
                }
            },
        }
    }

    fn decode(j: &Json, at: Field) -> (r: Result<HapticEffect, DecodeError>) {
        let ms = members(j, at)?;
        let name = text_in(ms, Field::EffectName)?;
        let modes = map_in::<PositionMode>(ms, Field::EffectModes)?;
        let start_time = u64_in(ms, Field::EffectStartTime)?;
        let offset_time = u64_in(ms, Field::EffectOffsetTime)?;
        Ok(HapticEffect { name, modes, start_time, offset_time })
    }
}

impl Compose for HapticEffect {
    open spec fn valid(v: HapticEffectView) -> bool {
        &&& all_entries_valid::<PositionMode>(v.modes) && distinct_keys::<PositionMode>(v.modes)
    }

    open spec fn encoded(v: HapticEffectView) -> JsonView {
        JsonView::Object(
            seq![
                holding(Field::EffectName, JsonView::Text(v.name)),
                holding(Field::EffectModes, map_encoded::<PositionMode>(v.modes)),
                holding(Field::EffectStartTime, numeral(v.start_time as nat)),
                holding(Field::EffectOffsetTime, numeral(v.offset_time as nat)),
            ],
        )
    }

    fn encode(&self) -> (j: Json) {
        let mut ms: Vec<Member> = Vec::new();
        ms.push(hold(Field::EffectName, Json::Text(self.name.clone())));
        ms.push(hold(Field::EffectModes, encode_map::<PositionMode>(&self.modes)));
        ms.push(hold(Field::EffectStartTime, number(self.start_time)));
        ms.push(hold(Field::EffectOffsetTime, number(self.offset_time)));
        proof {
            lemma_object_view(ms);
            assert(member_views(ms@) =~= Self::encoded(self@)->Object_0);
        }
        Json::Object(ms)
    }

    proof fn lemma_round_trip(v: HapticEffectView, at: Field) {
        let ms = Self::encoded(v)->Object_0;
        Self::lemma_fields();
        lemma_scan_canonical(ms, Self::fields(), 0);
        lemma_scan_canonical(ms, Self::fields(), 1);
        lemma_map_round_trip::<PositionMode>(v.modes, Field::EffectModes);
        lemma_scan_canonical(ms, Self::fields(), 2);
        lemma_unsigned_round_trip(v.start_time as nat, u64::MAX as nat);
        lemma_scan_canonical(ms, Self::fields(), 3);
        lemma_unsigned_round_trip(v.offset_time as nat, u64::MAX as nat);
    }

    proof fn lemma_decoded_valid(j: JsonView, at: Field) {
        if Self::decoded(j, at) is Ok {
            let ms = members_of(j, at)->Ok_0;
            lemma_map_decoded_valid::<PositionMode>(
                required(ms, Field::EffectModes)->Ok_0,
                Field::EffectModes,
            );
        }
    }
}

/// One track of a project: its effects in order.
#[derive(Clone, Debug, PartialEq, Eq)]
pub struct ProjectTrack {
    pub enable: bool,
    pub effects: Vec<HapticEffect>,
}

/// The mathematical value of a [`ProjectTrack`].
pub struct ProjectTrackView {
    pub enable: bool,
    pub effects: Seq<HapticEffectView>,
}

impl View for ProjectTrack {
    type V = ProjectTrackView;

    open spec fn view(&self) -> ProjectTrackView {
        ProjectTrackView { enable: self.enable, effects: views(self.effects@) }
    }
}

impl Wire for ProjectTrack {
    open spec fn fields() -> Seq<Field> {
        seq![Field::TrackEnable, Field::TrackEffects]
    }

    proof fn lemma_fields() {
        reveal_strlit("enable");
        reveal_strlit("Enable");
        reveal_strlit("effects");
        reveal_strlit("Effects");
        assert("enable"@.len() == 6);
        assert("Enable"@.len() == 6);
        assert("effects"@.len() == 7);
        assert("Effects"@.len() == 7);
        let fields = Self::fields();
        assert forall|a: int, b: int| 0 <= a < b < fields.len() implies share_no_name(
            #[trigger] fields[a],
            #[trigger] fields[b],
        ) by {
            lemma_share_no_name(fields[a], fields[b]);
        }
    }

    open spec fn decoded(j: JsonView, at: Field) -> Result<ProjectTrackView, DecodeErrorView> {
        match members_of(j, at) {
            Err(e) => Err(e),
            Ok(ms) => {
                let enable = flag_field(ms, Field::TrackEnable);
                let effects = list_field::<HapticEffect>(ms, Field::TrackEffects);
                if enable is Err {
                    Err(enable->Err_0)
                } else if effects is Err {
                    Err(effects->Err_0)
                } else {
                    Ok(ProjectTrackView { enable: enable->Ok_0, effects: effects->Ok_0 })
                }
            },
        }
    }

    fn decode(j: &Json, at: Field) -> (r: Result<ProjectTrack, DecodeError>) {
        let ms = members(j, at)?;
        let enable = flag_in(ms, Field::TrackEnable)?;
        let effects = list_in::<HapticEffect>(ms, Field::TrackEffects)?;
        Ok(ProjectTrack { enable, effects })
    }
}

impl Compose for ProjectTrack {
    open spec fn valid(v: ProjectTrackView) -> bool {
        &&& all_valid::<HapticEffect>(v.effects)
    }

    open spec fn encoded(v: ProjectTrackView) -> JsonView {
        JsonView::Object(
            seq![
                holding(Field::TrackEnable, JsonView::Bool(v.enable)),
                holding(Field::TrackEffects, list_encoded::<HapticEffect>(v.effects)),
            ],
        )
    }

    fn encode(&self) -> (j: Json) {
        let mut ms: Vec<Member> = Vec::new();
        ms.push(hold(Field::TrackEnable, Json::Bool(self.enable)));
        ms.push(hold(Field::TrackEffects, encode_list::<HapticEffect>(&self.effects)));
        proof {
            lemma_object_view(ms);
            assert(member_views(ms@) =~= Self::encoded(self@)->Object_0);
        }
        Json::Object(ms)
    }

    proof fn lemma_round_trip(v: ProjectTrackView, at: Field) {
        let ms = Self::encoded(v)->Object_0;
        Self::lemma_fields();
        lemma_scan_canonical(ms, Self::fields(), 0);
        lemma_scan_canonical(ms, Self::fields(), 1);
        lemma_list_round_trip::<HapticEffect>(v.effects, Field::TrackEffects);
    }

    proof fn lemma_decoded_valid(j: JsonView, at: Field) {
        if Self::decoded(j, at) is Ok {
            let ms = members_of(j, at)->Ok_0;
            lemma_list_decoded_valid::<HapticEffect>(
                items_of(required(ms, Field::TrackEffects)->Ok_0, Field::TrackEffects)->Ok_0,
                Field::TrackEffects,
            );
        }
    }
}

/// An authored collection of timed feedback tracks.
#[derive(Clone, Debug, PartialEq, Eq)]
pub struct Project {
    pub id: String,
    pub description: String,
    pub name: String,
    pub media_file_duration: u64,
    pub layout: ProjectLayout,
    pub tracks: Vec<ProjectTrack>,
    pub created_at: u64,
    pub updated_at: u64,
}

/// The mathematical value of a [`Project`].
pub struct ProjectView {
    pub id: Seq<char>,
    pub description: Seq<char>,
    pub name: Seq<char>,
    pub media_file_duration: u64,
    pub layout: ProjectLayoutView,
    pub tracks: Seq<ProjectTrackView>,
    pub created_at: u64,
    pub updated_at: u64,
}

impl View for Project {
    type V = ProjectView;

    open spec fn view(&self) -> ProjectView {
        ProjectView {
            id: self.id@,
            description: self.description@,
            name: self.name@,
            media_file_duration: self.media_file_duration,
            layout: self.layout@,
            tracks: views(self.tracks@),
            created_at: self.created_at,
            updated_at: self.updated_at,
        }
    }
}

impl Wire for Project {
    open spec fn fields() -> Seq<Field> {
        seq![
            Field::ProjectId,
            Field::ProjectDescription,
            Field::ProjectName,
            Field::ProjectMediaFileDuration,
            Field::ProjectLayout,
            Field::ProjectTracks,
            Field::ProjectCreatedAt,
            Field::ProjectUpdatedAt,
        ]
    }

    proof fn lemma_fields() {
        reveal_strlit("id");
        reveal_strlit("description");
        reveal_strlit("name");
        reveal_strlit("media_file_duration");
        reveal_strlit("mediaFileDuration");
        reveal_strlit("layout");
        reveal_strlit("tracks");
        reveal_strlit("created_at");
        reveal_strlit("createdAt");
        reveal_strlit("updated_at");
        reveal_strlit("updatedAt");
        assert("id"@.len() == 2);
        assert("description"@.len() == 11);
        assert("name"@.len() == 4);
        assert("media_file_duration"@.len() == 19);
        assert("mediaFileDuration"@.len() == 17);
        assert("layout"@.len() == 6);
        assert("tracks"@.len() == 6);
        assert("created_at"@.len() == 10);
        assert("createdAt"@.len() == 9);
        assert("updated_at"@.len() == 10);
        assert("updatedAt"@.len() == 9);
        assert("layout"@[0] == 'l');
        assert("tracks"@[0] == 't');
        assert("created_at"@[0] == 'c');
        assert("updated_at"@[0] == 'u');
        assert("createdAt"@[0] == 'c');
        assert("updatedAt"@[0] == 'u');
        let fields = Self::fields();
        assert forall|a: int, b: int| 0 <= a < b < fields.len() implies share_no_name(
            #[trigger] fields[a],
            #[trigger] fields[b],
        ) by {
            lemma_share_no_name(fields[a], fields[b]);
        }
    }

    open spec fn decoded(j: JsonView, at: Field) -> Result<ProjectView, DecodeErrorView> {
        match members_of(j, at) {
            Err(e) => Err(e),
            Ok(ms) => {
                let id = text_field(ms, Field::ProjectId);
                let description = text_field(ms, Field::ProjectDescription);
                let name = text_field(ms, Field::ProjectName);
                let media_file_duration = u64_field(ms, Field::ProjectMediaFileDuration);
                let layout = nested_field::<ProjectLayout>(ms, Field::ProjectLayout);
                let tracks = list_field::<ProjectTrack>(ms, Field::ProjectTracks);
                let created_at = u64_field(ms, Field::ProjectCreatedAt);
                let updated_at = u64_field(ms, Field::ProjectUpdatedAt);
                if id is Err {
                    Err(id->Err_0)
                } else if description is Err {
                    Err(description->Err_0)
                } else if name is Err {
                    Err(name->Err_0)
                } else if media_file_duration is Err {
                    Err(media_file_duration->Err_0)
                } else if layout is Err {
                    Err(layout->Err_0)
                } else if tracks is Err {
                    Err(tracks->Err_0)
                } else if created_at is Err {
                    Err(created_at->Err_0)
                } else if updated_at is Err {
                    Err(updated_at->Err_0)
                } else {
                    Ok(
                        ProjectView {
                            id: id->Ok_0,
                            description: description->Ok_0,
                            name: name->Ok_0,
                            media_file_duration: media_file_duration->Ok_0,
                            layout: layout->Ok_0,
                            tracks: tracks->Ok_0,
                            created_at: created_at->Ok_0,
                            updated_at: updated_at->Ok_0,
                        },
                    )
                }
            },
        }
    }

    fn decode(j: &Json, at: Field) -> (r: Result<Project, DecodeError>) {
        let ms = members(j, at)?;
        let id = text_in(ms, Field::ProjectId)?;
        let description = text_in(ms, Field::ProjectDescription)?;
        let name = text_in(ms, Field::ProjectName)?;
        let media_file_duration = u64_in(ms, Field::ProjectMediaFileDuration)?;
        let layout = nested_in::<ProjectLayout>(ms, Field::ProjectLayout)?;
        let tracks = list_in::<ProjectTrack>(ms, Field::ProjectTracks)?;
        let created_at = u64_in(ms, Field::ProjectCreatedAt)?;
        let updated_at = u64_in(ms, Field::ProjectUpdatedAt)?;
        Ok(
            Project {
                id,
                description,
                name,
                media_file_duration,
                layout,
                tracks,
                created_at,
                updated_at,
            },
        )
    }
}

impl Compose for Project {
    open spec fn valid(v: ProjectView) -> bool {
        &&& ProjectLayout::valid(v.layout)
        &&& all_valid::<ProjectTrack>(v.tracks)
    }

    open spec fn encoded(v: ProjectView) -> JsonView {
        JsonView::Object(
            seq![
                holding(Field::ProjectId, JsonView::Text(v.id)),
                holding(Field::ProjectDescription, JsonView::Text(v.description)),
                holding(Field::ProjectName, JsonView::Text(v.name)),
                holding(Field::ProjectMediaFileDuration, numeral(v.media_file_duration as nat)),
                holding(Field::ProjectLayout, ProjectLayout::encoded(v.layout)),
                holding(Field::ProjectTracks, list_encoded::<ProjectTrack>(v.tracks)),
                holding(Field::ProjectCreatedAt, numeral(v.created_at as nat)),
                holding(Field::ProjectUpdatedAt, numeral(v.updated_at as nat)),
            ],
        )
    }

    fn encode(&self) -> (j: Json) {
        let mut ms: Vec<Member> = Vec::new();
        ms.push(hold(Field::ProjectId, Json::Text(self.id.clone())));
        ms.push(hold(Field::ProjectDescription, Json::Text(self.description.clone())));
        ms.push(hold(Field::ProjectName, Json::Text(self.name.clone())));
        ms.push(hold(Field::ProjectMediaFileDuration, number(self.media_file_duration)));
        ms.push(hold(Field::ProjectLayout, self.layout.encode()));
        ms.push(hold(Field::ProjectTracks, encode_list::<ProjectTrack>(&self.tracks)));
        ms.push(hold(Field::ProjectCreatedAt, number(self.created_at)));
        ms.push(hold(Field::ProjectUpdatedAt, number(self.updated_at)));
        proof {
            lemma_object_view(ms);
            assert(member_views(ms@) =~= Self::encoded(self@)->Object_0);
        }
        Json::Object(ms)
    }

    proof fn lemma_round_trip(v: ProjectView, at: Field) {
        let ms = Self::encoded(v)->Object_0;
        Self::lemma_fields();
        lemma_scan_canonical(ms, Self::fields(), 0);
        lemma_scan_canonical(ms, Self::fields(), 1);
        lemma_scan_canonical(ms, Self::fields(), 2);
        lemma_scan_canonical(ms, Self::fields(), 3);
        lemma_unsigned_round_trip(v.media_file_duration as nat, u64::MAX as nat);
        lemma_scan_canonical(ms, Self::fields(), 4);
        ProjectLayout::lemma_round_trip(v.layout, Field::ProjectLayout);
        lemma_scan_canonical(ms, Self::fields(), 5);
        lemma_list_round_trip::<ProjectTrack>(v.tracks, Field::ProjectTracks);
        lemma_scan_canonical(ms, Self::fields(), 6);
        lemma_unsigned_round_trip(v.created_at as nat, u64::MAX as nat);
        lemma_scan_canonical(ms, Self::fields(), 7);
        lemma_unsigned_round_trip(v.updated_at as nat, u64::MAX as nat);
    }

    proof fn lemma_decoded_valid(j: JsonView, at: Field) {
        if Self::decoded(j, at) is Ok {
            let ms = members_of(j, at)->Ok_0;
            ProjectLayout::lemma_decoded_valid(
                required(ms, Field::ProjectLayout)->Ok_0,
                Field::ProjectLayout,
            );
            lemma_list_decoded_valid::<ProjectTrack>(
                items_of(required(ms, Field::ProjectTracks)->Ok_0, Field::ProjectTracks)->Ok_0,
                Field::ProjectTracks,
            );
        }
    }
}

} // verus!
