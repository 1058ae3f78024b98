//! Reading values out of a JSON tree, field by field.
//!
//! Each reader comes in two forms: a spec function that says what the wire
//! value decodes to, and an executable function proved to compute it. The
//! readers of whole messages are composed from the ones here.

use vstd::prelude::*;
use crate::bhaptics_studio::tact::error::{
    missing, result_view, unknown_value, wrong, DecodeError, DecodeErrorView,
};
use crate::enumerated::Enumerated;
use crate::bhaptics_studio::tact::grammar::Field;
use crate::json::{item_views, member_views, Decimal, Json, JsonView, Member, MemberView};
use crate::text::{
    decimal_text, is_number, is_number_text, key_text, lemma_numeral_key, number_key,
    parse_unsigned, unsigned_value,
};

verus! {

/// What a search for a field in an object comes to.
pub enum Lookup<T> {
    /// No member goes by any of the field's names.
    Absent,
    /// Exactly one member does: its value.
    Found(T),
    /// More than one member does.
    Repeated,
}

/// The search for `field` among `members`.
pub open spec fn scan(members: Seq<MemberView>, field: Field) -> Lookup<JsonView>
    decreases members.len(),
{
    if members.len() == 0 {
        Lookup::Absent
    } else {
        let before = scan(members.drop_last(), field);
        if field.accepts(members.last().name) {
            match before {
                Lookup::Absent => Lookup::Found(members.last().value),
                _ => Lookup::Repeated,
            }
        } else {
            before
        }
    }
}

/// The view of a search result that borrows the value it found.
pub open spec fn lookup_view(r: Lookup<&Json>) -> Lookup<JsonView> {
    match r {
        Lookup::Absent => Lookup::Absent,
        Lookup::Found(j) => Lookup::Found(j@),
        Lookup::Repeated => Lookup::Repeated,
    }
}

/// Searches `members` for `field`.
pub fn find<'a>(members: &'a Vec<Member>, field: Field) -> (r: Lookup<&'a Json>)
    ensures
        lookup_view(r) == scan(member_views(members@), field),
{
    let mut r: Lookup<&'a Json> = Lookup::Absent;
    let mut i: usize = 0;
    let ghost all = member_views(members@);
    while i < members.len()
        invariant
            i <= members.len(),
            all == member_views(members@),
            lookup_view(r) == scan(all.take(i as int), field),
        decreases members.len() - i,
    {
        proof {
            assert(all.take(i + 1).drop_last() =~= all.take(i as int));
            assert(all.take(i + 1).last() == members@[i as int]@);
        }
        if field.admits(members[i].name.as_str()) {
            r = match r {
                Lookup::Absent => Lookup::Found(&members[i].value),
                _ => Lookup::Repeated,
            };
        }
        i += 1;
    }
    assert(all.take(members@.len() as int) =~= all);
    r
}

/// The value of a field that must be there: an absent field is missing, and
/// one that the object holds twice, under one spelling or under two, is
/// wrongly encoded. (An object that was parsed from bytes holds no name
/// twice, so there only two spellings of one field are met.)
pub open spec fn required(members: Seq<MemberView>, field: Field) -> Result<
    JsonView,
    DecodeErrorView,
> {
    match scan(members, field) {
        Lookup::Absent => Err(missing(field)),
        Lookup::Found(j) => Ok(j),
        Lookup::Repeated => Err(wrong(field)),
    }
}

/// The value of a field that may be left out: an absent field and one given
/// as `null` both read as `None`.
pub open spec fn optional(members: Seq<MemberView>, field: Field) -> Result<
    Option<JsonView>,
    DecodeErrorView,
> {
    match scan(members, field) {
        Lookup::Absent => Ok(None),
        Lookup::Found(j) => if j is Null {
            Ok(None)
        } else {
            Ok(Some(j))
        },
        Lookup::Repeated => Err(wrong(field)),
    }
}

/// Reads a field that must be there.
pub fn require<'a>(members: &'a Vec<Member>, field: Field) -> (r: Result<&'a Json, DecodeError>)
    ensures
        result_view(r) == required(member_views(members@), field),
{
    match find(members, field) {
        Lookup::Absent => Err(DecodeError::missing(field)),
        Lookup::Found(j) => Ok(j),
        Lookup::Repeated => Err(DecodeError::wrong(field)),
    }
}

/// Reads a field that may be left out.
pub fn maybe<'a>(members: &'a Vec<Member>, field: Field) -> (r: Result<
    Option<&'a Json>,
    DecodeError,
>)
    ensures
        match r {
            Ok(Some(j)) => optional(member_views(members@), field) == Ok::<
                Option<JsonView>,
                DecodeErrorView,
            >(Some(j@)),
            Ok(None) => optional(member_views(members@), field) == Ok::<
                Option<JsonView>,
                DecodeErrorView,
            >(None),
            Err(e) => optional(member_views(members@), field) == Err::<
                Option<JsonView>,
                DecodeErrorView,
            >(e@),
        },
{
    match find(members, field) {
        Lookup::Absent => Ok(None),
        Lookup::Found(j) => match j {
            Json::Null => Ok(None),
            _ => Ok(Some(j)),
        },
        Lookup::Repeated => Err(DecodeError::wrong(field)),
    }
}

/// A string.
pub open spec fn text_of(j: JsonView, field: Field) -> Result<Seq<char>, DecodeErrorView> {
    match j {
        JsonView::Text(s) => Ok(s),
        _ => Err(wrong(field)),
    }
}

/// A boolean.
pub open spec fn flag_of(j: JsonView, field: Field) -> Result<bool, DecodeErrorView> {
    match j {
        JsonView::Bool(b) => Ok(b),
        _ => Err(wrong(field)),
    }
}

/// Any number, as its decimal text. A number whose text is not that of a
/// JSON number, which no parsed tree holds, is wrongly encoded.
pub open spec fn decimal_of(j: JsonView, field: Field) -> Result<Seq<char>, DecodeErrorView> {
    match j {
        JsonView::Number(t) => if is_number_text(t) {
            Ok(t)
        } else {
            Err(wrong(field))
        },
        _ => Err(wrong(field)),
    }
}

/// An unsigned integer of at most `max`: a number whose text is a canonical
/// numeral within the bound.
pub open spec fn unsigned_of(j: JsonView, field: Field, max: nat) -> Result<nat, DecodeErrorView> {
    match j {
        JsonView::Number(t) => match unsigned_value(t, max) {
            Some(n) => Ok(n),
            None => Err(wrong(field)),
        },
        _ => Err(wrong(field)),
    }
}

/// An unsigned integer of 64 bits.
pub open spec fn u64_of(j: JsonView, field: Field) -> Result<u64, DecodeErrorView> {
    match unsigned_of(j, field, u64::MAX as nat) {
        Ok(n) => Ok(n as u64),
        Err(e) => Err(e),
    }
}

/// An unsigned integer of 32 bits.
pub open spec fn u32_of(j: JsonView, field: Field) -> Result<u32, DecodeErrorView> {
    match unsigned_of(j, field, u32::MAX as nat) {
        Ok(n) => Ok(n as u32),
        Err(e) => Err(e),
    }
}

/// An unsigned integer of 8 bits.
pub open spec fn u8_of(j: JsonView, field: Field) -> Result<u8, DecodeErrorView> {
    match unsigned_of(j, field, u8::MAX as nat) {
        Ok(n) => Ok(n as u8),
        Err(e) => Err(e),
    }
}

/// An identifier that the wire gives as a string or as a number: a string
/// stands for itself, a number for its decimal text without the `.0` of a
/// fraction of zero. So the numbers `5` and `5.0` and the string `"5"` are
/// one identifier.
pub open spec fn key_of(j: JsonView, field: Field) -> Result<Seq<char>, DecodeErrorView> {
    match j {
        JsonView::Text(s) => Ok(s),
        JsonView::Number(t) => Ok(key_text(t)),
        _ => Err(wrong(field)),
    }
}

/// An identifier that may also be `null`, which reads as no identifier.
pub open spec fn nullable_key_of(j: JsonView, field: Field) -> Result<
    Option<Seq<char>>,
    DecodeErrorView,
> {
    match j {
        JsonView::Null => Ok(None),
        JsonView::Text(s) => Ok(Some(s)),
        JsonView::Number(t) => Ok(Some(key_text(t))),
        _ => Err(wrong(field)),
    }
}

/// The items of an array.
pub open spec fn items_of(j: JsonView, field: Field) -> Result<Seq<JsonView>, DecodeErrorView> {
    match j {
        JsonView::Array(items) => Ok(items),
        _ => Err(wrong(field)),
    }
}

/// The members of an object.
pub open spec fn members_of(j: JsonView, field: Field) -> Result<Seq<MemberView>, DecodeErrorView> {
    match j {
        JsonView::Object(members) => Ok(members),
        _ => Err(wrong(field)),
    }
}

/// Reads a string.
pub fn text(j: &Json, field: Field) -> (r: Result<String, DecodeError>)
    ensures
        result_view(r) == text_of(j@, field),
{
    match j {
        Json::Text(s) => Ok(s.clone()),
        _ => Err(DecodeError::wrong(field)),
    }
}

/// Reads a boolean.
pub fn flag(j: &Json, field: Field) -> (r: Result<bool, DecodeError>)
    ensures
        result_view(r) == flag_of(j@, field),
{
    match j {
        Json::Bool(b) => Ok(*b),
        _ => Err(DecodeError::wrong(field)),
    }
}

/// Reads any number, keeping its text.
pub fn decimal(j: &Json, field: Field) -> (r: Result<Decimal, DecodeError>)
    ensures
        result_view(r) == decimal_of(j@, field),
{
    match j {
        Json::Number(t) => if is_number(t.as_str()) {
            Ok(Decimal { text: t.clone() })
        } else {
            Err(DecodeError::wrong(field))
        },
        _ => Err(DecodeError::wrong(field)),
    }
}

/// Reads an unsigned integer of at most `max`.
pub fn unsigned(j: &Json, field: Field, max: u64) -> (r: Result<u64, DecodeError>)
    ensures
        match r {
            Ok(v) => unsigned_of(j@, field, max as nat) == Ok::<nat, DecodeErrorView>(v as nat),
            Err(e) => unsigned_of(j@, field, max as nat) == Err::<nat, DecodeErrorView>(e@),
        },
{
    match j {
        Json::Number(t) => match parse_unsigned(t.as_str(), max) {
            Some(v) => Ok(v),
            None => Err(DecodeError::wrong(field)),
        },
        _ => Err(DecodeError::wrong(field)),
    }
}

/// Reads an unsigned integer of 64 bits.
pub fn unsigned64(j: &Json, field: Field) -> (r: Result<u64, DecodeError>)
    ensures
        result_view(r) == u64_of(j@, field),
{
    unsigned(j, field, u64::MAX)
}

/// Reads an unsigned integer of 32 bits.
pub fn unsigned32(j: &Json, field: Field) -> (r: Result<u32, DecodeError>)
    ensures
        result_view(r) == u32_of(j@, field),
{
    match unsigned(j, field, 0xffff_ffff) {
        Ok(v) => Ok(v as u32),
        Err(e) => Err(e),
    }
}

/// Reads an unsigned integer of 8 bits.
pub fn unsigned8(j: &Json, field: Field) -> (r: Result<u8, DecodeError>)
    ensures
        result_view(r) == u8_of(j@, field),
{
    match unsigned(j, field, 0xff) {
        Ok(v) => Ok(v as u8),
        Err(e) => Err(e),
    }
}

/// Reads an identifier given as a string or as a number.
pub fn key(j: &Json, field: Field) -> (r: Result<String, DecodeError>)
    ensures
        result_view(r) == key_of(j@, field),
{
    match j {
        Json::Text(s) => Ok(s.clone()),
        Json::Number(t) => Ok(number_key(t.as_str())),
        _ => Err(DecodeError::wrong(field)),
    }
}

/// Reads an identifier given as a string, as a number, or as `null`.
pub fn nullable_key(j: &Json, field: Field) -> (r: Result<Option<String>, DecodeError>)
    ensures
        match r {
            Ok(Some(s)) => nullable_key_of(j@, field) == Ok::<Option<Seq<char>>, DecodeErrorView>(
                Some(s@),
            ),
            Ok(None) => nullable_key_of(j@, field) == Ok::<Option<Seq<char>>, DecodeErrorView>(
                None,
            ),
            Err(e) => nullable_key_of(j@, field) == Err::<Option<Seq<char>>, DecodeErrorView>(e@),
        },
{
    match j {
        Json::Null => Ok(None),
        Json::Text(s) => Ok(Some(s.clone())),
        Json::Number(t) => Ok(Some(number_key(t.as_str()))),
        _ => Err(DecodeError::wrong(field)),
    }
}

/// Reads the items of an array.
pub fn items<'a>(j: &'a Json, field: Field) -> (r: Result<&'a Vec<Json>, DecodeError>)
    ensures
        match r {
            Ok(v) => items_of(j@, field) == Ok::<Seq<JsonView>, DecodeErrorView>(item_views(v@)),
            Err(e) => items_of(j@, field) == Err::<Seq<JsonView>, DecodeErrorView>(e@),
        },
{
    match j.as_array() {
        Some(v) => Ok(v),
        None => Err(DecodeError::wrong(field)),
    }
}

/// Reads the members of an object.
pub fn members<'a>(j: &'a Json, field: Field) -> (r: Result<&'a Vec<Member>, DecodeError>)
    ensures
        match r {
            Ok(v) => members_of(j@, field) == Ok::<Seq<MemberView>, DecodeErrorView>(
                member_views(v@),
            ),
            Err(e) => members_of(j@, field) == Err::<Seq<MemberView>, DecodeErrorView>(e@),
        },
{
    match j.as_object() {
        Some(v) => Ok(v),
        None => Err(DecodeError::wrong(field)),
    }
}

/// An enumerated value: a string that is one of the enumeration's names.
pub open spec fn enumerated_of<T: Enumerated>(j: JsonView, field: Field) -> Result<
    T,
    DecodeErrorView,
> {
    match j {
        JsonView::Text(s) => match T::named(s) {
            Some(v) => Ok(v),
            None => Err(unknown_value(s)),
        },
        _ => Err(wrong(field)),
    }
}

/// Reads an enumerated value.
pub fn enumerated<T: Enumerated>(j: &Json, field: Field) -> (r: Result<T, DecodeError>)
    ensures
        match r {
            Ok(v) => enumerated_of::<T>(j@, field) == Ok::<T, DecodeErrorView>(v),
            Err(e) => enumerated_of::<T>(j@, field) == Err::<T, DecodeErrorView>(e@),
        },
{
    match j {
        Json::Text(s) => match T::parse(s.as_str()) {
            Some(v) => Ok(v),
            None => Err(DecodeError::unknown_value(s.as_str())),
        },
        _ => Err(DecodeError::wrong(field)),
    }
}

/// The view of a result that may hold no value.
pub open spec fn optional_view<T: View>(r: Result<Option<T>, DecodeError>) -> Result<
    Option<T::V>,
    DecodeErrorView,
> {
    match r {
        Ok(Some(v)) => Ok(Some(v@)),
        Ok(None) => Ok(None),
        Err(e) => Err(e@),
    }
}

/// A required string field.
pub open spec fn text_field(members: Seq<MemberView>, field: Field) -> Result<
    Seq<char>,
    DecodeErrorView,
> {
    match required(members, field) {
        Ok(j) => text_of(j, field),
        Err(e) => Err(e),
    }
}

/// A required boolean field.
pub open spec fn flag_field(members: Seq<MemberView>, field: Field) -> Result<
    bool,
    DecodeErrorView,
> {
    match required(members, field) {
        Ok(j) => flag_of(j, field),
        Err(e) => Err(e),
    }
}

/// A required number field.
pub open spec fn decimal_field(members: Seq<MemberView>, field: Field) -> Result<
    Seq<char>,
    DecodeErrorView,
> {
    match required(members, field) {
        Ok(j) => decimal_of(j, field),
        Err(e) => Err(e),
    }
}

/// A required field of an unsigned integer of 64 bits.
pub open spec fn u64_field(members: Seq<MemberView>, field: Field) -> Result<
    u64,
    DecodeErrorView,
> {
    match required(members, field) {
        Ok(j) => u64_of(j, field),
        Err(e) => Err(e),
    }
}

/// A required field of an unsigned integer of 32 bits.
pub open spec fn u32_field(members: Seq<MemberView>, field: Field) -> Result<
    u32,
    DecodeErrorView,
> {
    match required(members, field) {
        Ok(j) => u32_of(j, field),
        Err(e) => Err(e),
    }
}

/// A required field of an unsigned integer of 8 bits.
pub open spec fn u8_field(members: Seq<MemberView>, field: Field) -> Result<u8, DecodeErrorView> {
    match required(members, field) {
        Ok(j) => u8_of(j, field),
        Err(e) => Err(e),
    }
}

/// A required identifier field.
pub open spec fn key_field(members: Seq<MemberView>, field: Field) -> Result<
    Seq<char>,
    DecodeErrorView,
> {
    match required(members, field) {
        Ok(j) => key_of(j, field),
        Err(e) => Err(e),
    }
}

/// A required field of an enumerated value.
pub open spec fn enumerated_field<T: Enumerated>(members: Seq<MemberView>, field: Field) -> Result<
    T,
    DecodeErrorView,
> {
    match required(members, field) {
        Ok(j) => enumerated_of::<T>(j, field),
        Err(e) => Err(e),
    }
}

/// An identifier field that may be left out or given as `null`.
pub open spec fn optional_key_field(members: Seq<MemberView>, field: Field) -> Result<
    Option<Seq<char>>,
    DecodeErrorView,
> {
    match scan(members, field) {
        Lookup::Absent => Ok(None),
        Lookup::Found(j) => nullable_key_of(j, field),
        Lookup::Repeated => Err(wrong(field)),
    }
}

/// A field of an unsigned integer of 32 bits that may be left out.
pub open spec fn optional_u32_field(members: Seq<MemberView>, field: Field) -> Result<
    Option<u32>,
    DecodeErrorView,
> {
    match optional(members, field) {
        Ok(Some(j)) => match u32_of(j, field) {
            Ok(v) => Ok(Some(v)),
            Err(e) => Err(e),
        },
        Ok(None) => Ok(None),
        Err(e) => Err(e),
    }
}

/// A field of an unsigned integer of 8 bits that may be left out.
pub open spec fn optional_u8_field(members: Seq<MemberView>, field: Field) -> Result<
    Option<u8>,
    DecodeErrorView,
> {
    match optional(members, field) {
        Ok(Some(j)) => match u8_of(j, field) {
            Ok(v) => Ok(Some(v)),
            Err(e) => Err(e),
        },
        Ok(None) => Ok(None),
        Err(e) => Err(e),
    }
}

/// Reads a required string field.
pub fn text_in(members: &Vec<Member>, field: Field) -> (r: Result<String, DecodeError>)
    ensures
        result_view(r) == text_field(member_views(members@), field),
{
    text(require(members, field)?, field)
}

/// Reads a required boolean field.
pub fn flag_in(members: &Vec<Member>, field: Field) -> (r: Result<bool, DecodeError>)
    ensures
        result_view(r) == flag_field(member_views(members@), field),
{
    flag(require(members, field)?, field)
}

/// Reads a required number field.
pub fn decimal_in(members: &Vec<Member>, field: Field) -> (r: Result<Decimal, DecodeError>)
    ensures
        result_view(r) == decimal_field(member_views(members@), field),
{
    decimal(require(members, field)?, field)
}

/// Reads a required field of an unsigned integer of 64 bits.
pub fn u64_in(members: &Vec<Member>, field: Field) -> (r: Result<u64, DecodeError>)
    ensures
        result_view(r) == u64_field(member_views(members@), field),
{
    unsigned64(require(members, field)?, field)
}

/// Reads a required field of an unsigned integer of 32 bits.
pub fn u32_in(members: &Vec<Member>, field: Field) -> (r: Result<u32, DecodeError>)
    ensures
        result_view(r) == u32_field(member_views(members@), field),
{
    unsigned32(require(members, field)?, field)
}

/// Reads a required field of an unsigned integer of 8 bits.
pub fn u8_in(members: &Vec<Member>, field: Field) -> (r: Result<u8, DecodeError>)
    ensures
        result_view(r) == u8_field(member_views(members@), field),
{
    unsigned8(require(members, field)?, field)
}

/// Reads a required identifier field.
pub fn key_in(members: &Vec<Member>, field: Field) -> (r: Result<String, DecodeError>)
    ensures
        result_view(r) == key_field(member_views(members@), field),
{
    key(require(members, field)?, field)
}

/// Reads a required field of an enumerated value.
pub fn enumerated_in<T: Enumerated>(members: &Vec<Member>, field: Field) -> (r: Result<
    T,
    DecodeError,
>)
    ensures
        match r {
            Ok(v) => enumerated_field::<T>(member_views(members@), field) == Ok::<
                T,
                DecodeErrorView,
            >(v),
            Err(e) => enumerated_field::<T>(member_views(members@), field) == Err::<
                T,
                DecodeErrorView,
            >(e@),
        },
{
    enumerated::<T>(require(members, field)?, field)
}

/// Reads an identifier field that may be left out or given as `null`.
pub fn optional_key_in(members: &Vec<Member>, field: Field) -> (r: Result<
    Option<String>,
    DecodeError,
>)
    ensures
        optional_view(r) == optional_key_field(member_views(members@), field),
{
    match find(members, field) {
        Lookup::Absent => Ok(None),
        Lookup::Found(j) => nullable_key(j, field),
        Lookup::Repeated => Err(DecodeError::wrong(field)),
    }
}

/// Reads a field of an unsigned integer of 32 bits that may be left out.
pub fn optional_u32_in(members: &Vec<Member>, field: Field) -> (r: Result<
    Option<u32>,
    DecodeError,
>)
    ensures
        optional_view(r) == optional_u32_field(member_views(members@), field),
{
    match maybe(members, field)? {
        Some(j) => Ok(Some(unsigned32(j, field)?)),
        None => Ok(None),
    }
}

/// Reads a field of an unsigned integer of 8 bits that may be left out.
pub fn optional_u8_in(members: &Vec<Member>, field: Field) -> (r: Result<Option<u8>, DecodeError>)
    ensures
        optional_view(r) == optional_u8_field(member_views(members@), field),
{
    match maybe(members, field)? {
        Some(j) => Ok(Some(unsigned8(j, field)?)),
        None => Ok(None),
    }
}

/// An identifier decodes to the same key whether the wire gives it as a
/// number or as the string of the text by which that number names: a number
/// reads as its text without the `.0` of a fraction of zero, and the string
/// of that text reads as the same.
pub proof fn law_key_number_or_string(text: Seq<char>, field: Field)
    ensures
        key_of(JsonView::Number(text), field) == Ok::<Seq<char>, DecodeErrorView>(key_text(text)),
        key_of(JsonView::Text(key_text(text)), field) == key_of(JsonView::Number(text), field),
        nullable_key_of(JsonView::Text(key_text(text)), field) == nullable_key_of(
            JsonView::Number(text),
            field,
        ),
{
}

/// The whole number `n` names the same key however the wire gives it: as
/// the number `n`, as the number `n.0`, or as the string of its numeral.
pub proof fn law_whole_number_key(n: nat, field: Field)
    ensures
        key_of(JsonView::Number(decimal_text(n)), field) == Ok::<Seq<char>, DecodeErrorView>(
            decimal_text(n),
        ),
        key_of(JsonView::Number(decimal_text(n) + seq!['.', '0']), field) == key_of(
            JsonView::Number(decimal_text(n)),
            field,
        ),
        key_of(JsonView::Text(decimal_text(n)), field) == key_of(
            JsonView::Number(decimal_text(n)),
            field,
        ),
{
    lemma_numeral_key(n);
}

/// A member that a field does not accept makes no difference to the search
/// for the field, wherever in the object it stands; a member that the field
/// accepts is what the search finds, where it found nothing before.
pub proof fn lemma_scan_insert(members: Seq<MemberView>, at: int, m: MemberView, field: Field)
    requires
        0 <= at <= members.len(),
    ensures
        !field.accepts(m.name) ==> scan(members.insert(at, m), field) == scan(members, field),
        field.accepts(m.name) && scan(members, field) is Absent ==> scan(
            members.insert(at, m),
            field,
        ) == Lookup::Found(m.value),
    decreases members.len() - at,
{
    let longer = members.insert(at, m);
    if at == members.len() {
        assert(longer.drop_last() =~= members);
        assert(longer.last() == m);
    } else {
        assert(longer.drop_last() =~= members.drop_last().insert(at, m));
        assert(longer.last() == members.last());
        lemma_scan_insert(members.drop_last(), at, m, field);
    }
}

} // verus!
