//! Values that are read from the wire as a whole: objects, and lists of them.

use vstd::prelude::*;
use crate::bhaptics_studio::tact::decode::{
    items, items_of, maybe, members, members_of, optional, optional_view, require, required,
    scan, Lookup,
};
use crate::bhaptics_studio::tact::error::{result_view, wrong, DecodeError, DecodeErrorView};
use crate::bhaptics_studio::tact::grammar::{
    lemma_accepts_canonical, share_no_name, unambiguous, Field,
};
use crate::json::{
    item_views, lemma_array_view, lemma_object_view, member_views, Json, JsonView, Member,
    MemberView,
};
use crate::text::{decimal_text, unsigned_text};

verus! {

/// A value with a wire form. `decoded` says which value a JSON tree stands
/// for, or why it stands for none; `decode` computes it.
pub trait Wire: View + Sized {
    /// The fields that the wire form is made of.
    spec fn fields() -> Seq<Field>;

    /// No name means two fields of the wire form.
    proof fn lemma_fields()
        ensures
            unambiguous(Self::fields()),
    ;

    /// What the tree `j`, standing under the field `at`, decodes to.
    spec fn decoded(j: JsonView, at: Field) -> Result<Self::V, DecodeErrorView>;

    /// Decodes the tree `j`, which stands under the field `at`.
    fn decode(j: &Json, at: Field) -> (r: Result<Self, DecodeError>)
        ensures
            result_view(r) == Self::decoded(j@, at),
    ;
}

/// The views of a sequence of values, item by item.
pub open spec fn views<T: View>(s: Seq<T>) -> Seq<T::V> {
    s.map_values(|t: T| t@)
}

/// The view of a decoded list.
pub open spec fn list_view<T: View>(r: Result<Vec<T>, DecodeError>) -> Result<
    Seq<T::V>,
    DecodeErrorView,
> {
    match r {
        Ok(v) => Ok(views(v@)),
        Err(e) => Err(e@),
    }
}

/// What a list of trees decodes to: the list of what each decodes to, or the
/// error of the first that fails.
pub open spec fn list_of<T: Wire>(trees: Seq<JsonView>, at: Field) -> Result<
    Seq<T::V>,
    DecodeErrorView,
>
    decreases trees.len(),
{
    if trees.len() == 0 {
        Ok(Seq::empty())
    } else {
        match list_of::<T>(trees.drop_last(), at) {
            Err(e) => Err(e),
            Ok(before) => match T::decoded(trees.last(), at) {
                Err(e) => Err(e),
                Ok(v) => Ok(before.push(v)),
            },
        }
    }
}

/// A required field that holds one value.
pub open spec fn nested_field<T: Wire>(members: Seq<MemberView>, field: Field) -> Result<
    T::V,
    DecodeErrorView,
> {
    match required(members, field) {
        Ok(j) => T::decoded(j, field),
        Err(e) => Err(e),
    }
}

/// A field that holds one value and may be left out.
pub open spec fn optional_nested_field<T: Wire>(members: Seq<MemberView>, field: Field) -> Result<
    Option<T::V>,
    DecodeErrorView,
> {
    match optional(members, field) {
        Ok(Some(j)) => match T::decoded(j, field) {
            Ok(v) => Ok(Some(v)),
            Err(e) => Err(e),
        },
        Ok(None) => Ok(None),
        Err(e) => Err(e),
    }
}

/// A required field that holds a list of values.
pub open spec fn list_field<T: Wire>(members: Seq<MemberView>, field: Field) -> Result<
    Seq<T::V>,
    DecodeErrorView,
> {
    match required(members, field) {
        Ok(j) => match items_of(j, field) {
            Ok(trees) => list_of::<T>(trees, field),
            Err(e) => Err(e),
        },
        Err(e) => Err(e),
    }
}

/// Decodes each of `trees`, stopping at the first that fails.
pub fn decode_list<T: Wire>(trees: &Vec<Json>, at: Field) -> (r: Result<Vec<T>, DecodeError>)
    ensures
        list_view(r) == list_of::<T>(item_views(trees@), at),
{
    let mut out: Vec<T> = Vec::new();
    let mut i: usize = 0;
    let ghost all = item_views(trees@);
    assert(all.take(0) =~= Seq::<JsonView>::empty());
    assert(views(out@) =~= Seq::<T::V>::empty());
    while i < trees.len()
        invariant
            i <= trees.len(),
            all == item_views(trees@),
            list_of::<T>(all.take(i as int), at) == Ok::<Seq<T::V>, DecodeErrorView>(views(out@)),
        decreases trees.len() - i,
    {
        proof {
            assert(all.take(i + 1).drop_last() =~= all.take(i as int));
            assert(all.take(i + 1).last() == trees@[i as int]@);
        }
        match T::decode(&trees[i], at) {
            Ok(v) => {
                let ghost before = out@;
                out.push(v);
                assert(views(out@) =~= views(before).push(v@));
            },
            Err(e) => {
                proof {
                    lemma_list_failure::<T>(all, at, i + 1);
                }
                return Err(e);
            },
        }
        i += 1;
    }
    assert(all.take(trees@.len() as int) =~= all);
    Ok(out)
}

/// Once a prefix of a list fails to decode, the whole list fails the same way.
pub proof fn lemma_list_failure<T: Wire>(trees: Seq<JsonView>, at: Field, k: int)
    requires
        0 <= k <= trees.len(),
        list_of::<T>(trees.take(k), at) is Err,
    ensures
        list_of::<T>(trees, at) == list_of::<T>(trees.take(k), at),
    decreases trees.len(),
{
    if k == trees.len() {
        assert(trees.take(k) =~= trees);
    } else {
        assert(trees.drop_last().take(k) =~= trees.take(k));
        lemma_list_failure::<T>(trees.drop_last(), at, k);
    }
}

/// A list with an item that does not decode does not decode.
pub proof fn lemma_list_rejects<T: Wire>(trees: Seq<JsonView>, at: Field, i: int)
    requires
        0 <= i < trees.len(),
        T::decoded(trees[i], at) is Err,
    ensures
        list_of::<T>(trees, at) is Err,
    decreases trees.len(),
{
    if i < trees.len() - 1 {
        lemma_list_rejects::<T>(trees.drop_last(), at, i);
    }
}

/// A list that decodes has as many values as it has items, and each value is
/// what the item in its place decodes to.
pub proof fn lemma_list_itemwise<T: Wire>(trees: Seq<JsonView>, at: Field)
    requires
        list_of::<T>(trees, at) is Ok,
    ensures
        list_of::<T>(trees, at)->Ok_0.len() == trees.len(),
        forall|i: int|
            0 <= i < trees.len() ==> T::decoded(#[trigger] trees[i], at) == Ok::<
                T::V,
                DecodeErrorView,
            >(list_of::<T>(trees, at)->Ok_0[i]),
    decreases trees.len(),
{
    if trees.len() > 0 {
        lemma_list_itemwise::<T>(trees.drop_last(), at);
        let values = list_of::<T>(trees, at)->Ok_0;
        assert forall|i: int| 0 <= i < trees.len() implies T::decoded(#[trigger] trees[i], at)
            == Ok::<T::V, DecodeErrorView>(values[i]) by {
            if i < trees.len() - 1 {
                assert(trees.drop_last()[i] == trees[i]);
            }
        }
    }
}

/// Reads a required field that holds one value.
pub fn nested_in<T: Wire>(members: &Vec<Member>, field: Field) -> (r: Result<T, DecodeError>)
    ensures
        result_view(r) == nested_field::<T>(member_views(members@), field),
{
    T::decode(require(members, field)?, field)
}

/// Reads a field that holds one value and may be left out.
pub fn optional_nested_in<T: Wire>(members: &Vec<Member>, field: Field) -> (r: Result<
    Option<T>,
    DecodeError,
>)
    ensures
        optional_view(r) == optional_nested_field::<T>(member_views(members@), field),
{
    match maybe(members, field)? {
        Some(j) => Ok(Some(T::decode(j, field)?)),
        None => Ok(None),
    }
}

/// Reads a required field that holds a list of values.
pub fn list_in<T: Wire>(members: &Vec<Member>, field: Field) -> (r: Result<Vec<T>, DecodeError>)
    ensures
        list_view(r) == list_field::<T>(member_views(members@), field),
{
    decode_list::<T>(items(require(members, field)?, field)?, field)
}

/// An entry of a JSON object that is used as a map: the member's name is the
/// entry's key, the member's value what the key stands for.
pub trait Keyed: View + Sized {
    /// What the member `m` of a map under the field `at` decodes to.
    spec fn entry_of(m: MemberView, at: Field) -> Result<Self::V, DecodeErrorView>;

    /// Whether two entries have the same key.
    spec fn same_key(a: Self::V, b: Self::V) -> bool;

    /// Decodes the member `m` of a map under the field `at`.
    fn decode_entry(m: &Member, at: Field) -> (r: Result<Self, DecodeError>)
        ensures
            result_view(r) == Self::entry_of(m@, at),
    ;

    /// Whether this entry and `other` have the same key.
    fn shares_key(&self, other: &Self) -> (r: bool)
        ensures
            r == Self::same_key(self@, other@),
    ;
}

/// What the members of a map decode to, entry by entry: the entries, or the
/// error of the first member that fails.
pub open spec fn entries_of<T: Keyed>(members: Seq<MemberView>, at: Field) -> Result<
    Seq<T::V>,
    DecodeErrorView,
>
    decreases members.len(),
{
    if members.len() == 0 {
        Ok(Seq::empty())
    } else {
        match entries_of::<T>(members.drop_last(), at) {
            Err(e) => Err(e),
            Ok(before) => match T::entry_of(members.last(), at) {
                Err(e) => Err(e),
                Ok(v) => Ok(before.push(v)),
            },
        }
    }
}

/// No two entries have the same key.
pub open spec fn distinct_keys<T: Keyed>(entries: Seq<T::V>) -> bool {
    forall|i: int, j: int|
        0 <= i < j < entries.len() ==> !T::same_key(#[trigger] entries[i], #[trigger] entries[j])
}

/// What a map decodes to: its entries in the order given, provided that each
/// decodes and no key comes twice.
pub open spec fn map_of<T: Keyed>(j: JsonView, at: Field) -> Result<Seq<T::V>, DecodeErrorView> {
    match members_of(j, at) {
        Err(e) => Err(e),
        Ok(ms) => match entries_of::<T>(ms, at) {
            Err(e) => Err(e),
            Ok(entries) => if distinct_keys::<T>(entries) {
                Ok(entries)
            } else {
                Err(wrong(at))
            },
        },
    }
}

/// A required field that holds a map.
pub open spec fn map_field<T: Keyed>(members: Seq<MemberView>, field: Field) -> Result<
    Seq<T::V>,
    DecodeErrorView,
> {
    match required(members, field) {
        Ok(j) => map_of::<T>(j, field),
        Err(e) => Err(e),
    }
}

/// Once a prefix of a map's members fails to decode, all of them fail the
/// same way.
pub proof fn lemma_entries_failure<T: Keyed>(members: Seq<MemberView>, at: Field, k: int)
    requires
        0 <= k <= members.len(),
        entries_of::<T>(members.take(k), at) is Err,
    ensures
        entries_of::<T>(members, at) == entries_of::<T>(members.take(k), at),
    decreases members.len(),
{
    if k == members.len() {
        assert(members.take(k) =~= members);
    } else {
        assert(members.drop_last().take(k) =~= members.take(k));
        lemma_entries_failure::<T>(members.drop_last(), at, k);
    }
}

/// Whether no two of `entries` have the same key.
fn keys_are_distinct<T: Keyed>(entries: &Vec<T>) -> (r: bool)
    ensures
        r == distinct_keys::<T>(views(entries@)),
{
    let ghost all = views(entries@);
    let mut j: usize = 0;
    while j < entries.len()
        invariant
            j <= entries.len(),
            all == views(entries@),
            forall|a: int, b: int|
                0 <= a < b < j ==> !T::same_key(#[trigger] all[a], #[trigger] all[b]),
        decreases entries.len() - j,
    {
        let mut i: usize = 0;
        while i < j
            invariant
                i <= j,
                j < entries.len(),
                all == views(entries@),
                forall|a: int| 0 <= a < i ==> !T::same_key(#[trigger] all[a], all[j as int]),
            decreases j - i,
        {
            if entries[i].shares_key(&entries[j]) {
                assert(T::same_key(all[i as int], all[j as int]));
                return false;
            }
            i += 1;
        }
        j += 1;
    }
    true
}

/// Decodes a map, entry by entry.
pub fn decode_map<T: Keyed>(j: &Json, at: Field) -> (r: Result<Vec<T>, DecodeError>)
    ensures
        list_view(r) == map_of::<T>(j@, at),
{
    let ms = members(j, at)?;
    let mut out: Vec<T> = Vec::new();
    let mut i: usize = 0;
    let ghost all = member_views(ms@);
    assert(all.take(0) =~= Seq::<MemberView>::empty());
    assert(views(out@) =~= Seq::<T::V>::empty());
    while i < ms.len()
        invariant
            i <= ms.len(),
            all == member_views(ms@),
            members_of(j@, at) == Ok::<Seq<MemberView>, DecodeErrorView>(all),
            entries_of::<T>(all.take(i as int), at) == Ok::<Seq<T::V>, DecodeErrorView>(
                views(out@),
            ),
        decreases ms.len() - i,
    {
        proof {
            assert(all.take(i + 1).drop_last() =~= all.take(i as int));
            assert(all.take(i + 1).last() == ms@[i as int]@);
        }
        match T::decode_entry(&ms[i], at) {
            Ok(v) => {
                let ghost before = out@;
                out.push(v);
                assert(views(out@) =~= views(before).push(v@));
            },
            Err(e) => {
                proof {
                    lemma_entries_failure::<T>(all, at, i + 1);
                }
                return Err(e);
            },
        }
        i += 1;
    }
    assert(all.take(ms@.len() as int) =~= all);
    if keys_are_distinct::<T>(&out) {
        Ok(out)
    } else {
        Err(DecodeError::wrong(at))
    }
}

/// Reads a required field that holds a map.
pub fn map_in<T: Keyed>(members: &Vec<Member>, field: Field) -> (r: Result<Vec<T>, DecodeError>)
    ensures
        list_view(r) == map_field::<T>(member_views(members@), field),
{
    decode_map::<T>(require(members, field)?, field)
}

/// The member that holds `value` under the canonical name of `field`.
pub open spec fn holding(field: Field, value: JsonView) -> MemberView {
    MemberView { name: field.canonical(), value }
}

/// The number `n` as a JSON value.
pub open spec fn numeral(n: nat) -> JsonView {
    JsonView::Number(decimal_text(n))
}

/// Makes the member that holds `value` under the canonical name of `field`.
pub fn hold(field: Field, value: Json) -> (m: Member)
    ensures
        m@ == holding(field, value@),
{
    Member { name: String::from_str(field.name()), value }
}

/// Makes the JSON value of the number `n`.
pub fn number(n: u64) -> (j: Json)
    ensures
        j@ == numeral(n as nat),
{
    Json::Number(unsigned_text(n))
}

/// A value that can also be written to the wire. Writing uses the canonical
/// name of every field, so that what was written decodes to the same value.
pub trait Compose: Wire {
    /// Whether `v` meets the invariants of its type.
    spec fn valid(v: Self::V) -> bool;

    /// The tree that `v` is written as.
    spec fn encoded(v: Self::V) -> JsonView;

    /// Writes the value as a tree.
    fn encode(&self) -> (j: Json)
        ensures
            j@ == Self::encoded(self@),
    ;

    /// A valid value that is written and read back is the same value.
    proof fn lemma_round_trip(v: Self::V, at: Field)
        requires
            Self::valid(v),
        ensures
            Self::decoded(Self::encoded(v), at) == Ok::<Self::V, DecodeErrorView>(v),
    ;

    /// Whatever decodes is valid.
    proof fn lemma_decoded_valid(j: JsonView, at: Field)
        ensures
            Self::decoded(j, at) is Ok ==> Self::valid(Self::decoded(j, at)->Ok_0),
    ;
}

/// An entry of a map that can also be written to the wire.
pub trait KeyedCompose: Keyed {
    /// Whether `v` meets the invariants of its type.
    spec fn entry_valid(v: Self::V) -> bool;

    /// The member that `v` is written as.
    spec fn member_of(v: Self::V) -> MemberView;

    /// Writes the entry as a member.
    fn to_member(&self) -> (m: Member)
        ensures
            m@ == Self::member_of(self@),
    ;

    /// A valid entry that is written and read back is the same entry.
    proof fn lemma_entry_round_trip(v: Self::V, at: Field)
        requires
            Self::entry_valid(v),
        ensures
            Self::entry_of(Self::member_of(v), at) == Ok::<Self::V, DecodeErrorView>(v),
    ;

    /// Whatever decodes is valid.
    proof fn lemma_entry_decoded_valid(m: MemberView, at: Field)
        ensures
            Self::entry_of(m, at) is Ok ==> Self::entry_valid(Self::entry_of(m, at)->Ok_0),
    ;
}

/// Every value of a list is valid.
pub open spec fn all_valid<T: Compose>(s: Seq<T::V>) -> bool {
    forall|i: int| 0 <= i < s.len() ==> T::valid(#[trigger] s[i])
}

/// Every entry of a map is valid.
pub open spec fn all_entries_valid<T: KeyedCompose>(s: Seq<T::V>) -> bool {
    forall|i: int| 0 <= i < s.len() ==> T::entry_valid(#[trigger] s[i])
}

/// The trees that the values of a list are written as.
pub open spec fn trees_of<T: Compose>(s: Seq<T::V>) -> Seq<JsonView> {
    Seq::new(s.len(), |i: int| T::encoded(s[i]))
}

/// The members that the entries of a map are written as.
pub open spec fn members_for<T: KeyedCompose>(s: Seq<T::V>) -> Seq<MemberView> {
    Seq::new(s.len(), |i: int| T::member_of(s[i]))
}

/// The array that a list is written as.
pub open spec fn list_encoded<T: Compose>(s: Seq<T::V>) -> JsonView {
    JsonView::Array(trees_of::<T>(s))
}

/// The object that a map is written as.
pub open spec fn map_encoded<T: KeyedCompose>(s: Seq<T::V>) -> JsonView {
    JsonView::Object(members_for::<T>(s))
}

/// Writes a list as an array.
pub fn encode_list<T: Compose>(list: &Vec<T>) -> (j: Json)
    ensures
        j@ == list_encoded::<T>(views(list@)),
{
    let mut out: Vec<Json> = Vec::new();
    let mut i: usize = 0;
    while i < list.len()
        invariant
            i <= list.len(),
            out@.len() == i,
            forall|k: int| 0 <= k < i ==> (#[trigger] out@[k])@ == T::encoded(list@[k]@),
        decreases list.len() - i,
    {
        out.push(list[i].encode());
        i += 1;
    }
    proof {
        lemma_array_view(out);
        assert(item_views(out@) =~= trees_of::<T>(views(list@)));
    }
    Json::Array(out)
}

/// Writes a map as an object.
pub fn encode_map<T: KeyedCompose>(map: &Vec<T>) -> (j: Json)
    ensures
        j@ == map_encoded::<T>(views(map@)),
{
    let mut out: Vec<Member> = Vec::new();
    let mut i: usize = 0;
    while i < map.len()
        invariant
            i <= map.len(),
            out@.len() == i,
            forall|k: int| 0 <= k < i ==> (#[trigger] out@[k])@ == T::member_of(map@[k]@),
        decreases map.len() - i,
    {
        out.push(map[i].to_member());
        i += 1;
    }
    proof {
        lemma_object_view(out);
        assert(member_views(out@) =~= members_for::<T>(views(map@)));
    }
    Json::Object(out)
}

/// A list of valid values that is written and read back is the same list.
pub proof fn lemma_list_round_trip<T: Compose>(s: Seq<T::V>, at: Field)
    requires
        all_valid::<T>(s),
    ensures
        list_of::<T>(trees_of::<T>(s), at) == Ok::<Seq<T::V>, DecodeErrorView>(s),
    decreases s.len(),
{
    let trees = trees_of::<T>(s);
    if s.len() == 0 {
        assert(s =~= Seq::<T::V>::empty());
    } else {
        assert(trees.drop_last() =~= trees_of::<T>(s.drop_last()));
        lemma_list_round_trip::<T>(s.drop_last(), at);
        T::lemma_round_trip(s.last(), at);
        assert(s.drop_last().push(s.last()) =~= s);
    }
}

/// Whatever list decodes holds valid values only.
pub proof fn lemma_list_decoded_valid<T: Compose>(trees: Seq<JsonView>, at: Field)
    ensures
        list_of::<T>(trees, at) is Ok ==> all_valid::<T>(list_of::<T>(trees, at)->Ok_0),
    decreases trees.len(),
{
    if trees.len() > 0 && list_of::<T>(trees, at) is Ok {
        lemma_list_decoded_valid::<T>(trees.drop_last(), at);
        T::lemma_decoded_valid(trees.last(), at);
    }
}

/// The members of a valid map, written and read back, are the same entries.
pub proof fn lemma_entries_round_trip<T: KeyedCompose>(s: Seq<T::V>, at: Field)
    requires
        all_entries_valid::<T>(s),
    ensures
        entries_of::<T>(members_for::<T>(s), at) == Ok::<Seq<T::V>, DecodeErrorView>(s),
    decreases s.len(),
{
    let ms = members_for::<T>(s);
    if s.len() == 0 {
        assert(s =~= Seq::<T::V>::empty());
    } else {
        assert(ms.drop_last() =~= members_for::<T>(s.drop_last()));
        lemma_entries_round_trip::<T>(s.drop_last(), at);
        T::lemma_entry_round_trip(s.last(), at);
        assert(s.drop_last().push(s.last()) =~= s);
    }
}

/// A valid map without a repeated key, written and read back, is the same map.
pub proof fn lemma_map_round_trip<T: KeyedCompose>(s: Seq<T::V>, at: Field)
    requires
        all_entries_valid::<T>(s),
        distinct_keys::<T>(s),
    ensures
        map_of::<T>(map_encoded::<T>(s), at) == Ok::<Seq<T::V>, DecodeErrorView>(s),
{
    lemma_entries_round_trip::<T>(s, at);
}

/// Whatever entries decode are valid.
pub proof fn lemma_entries_decoded_valid<T: KeyedCompose>(members: Seq<MemberView>, at: Field)
    ensures
        entries_of::<T>(members, at) is Ok ==> all_entries_valid::<T>(
            entries_of::<T>(members, at)->Ok_0,
        ),
    decreases members.len(),
{
    if members.len() > 0 && entries_of::<T>(members, at) is Ok {
        lemma_entries_decoded_valid::<T>(members.drop_last(), at);
        T::lemma_entry_decoded_valid(members.last(), at);
    }
}

/// Whatever map decodes holds valid entries, and no key twice.
pub proof fn lemma_map_decoded_valid<T: KeyedCompose>(j: JsonView, at: Field)
    ensures
        map_of::<T>(j, at) is Ok ==> all_entries_valid::<T>(map_of::<T>(j, at)->Ok_0)
            && distinct_keys::<T>(map_of::<T>(j, at)->Ok_0),
{
    if map_of::<T>(j, at) is Ok {
        lemma_entries_decoded_valid::<T>(members_of(j, at)->Ok_0, at);
    }
}

/// In an object whose members go by the canonical names of `fields`, in
/// their order, each field finds its own member, provided that the fields
/// can be told apart by name.
pub proof fn lemma_scan_canonical(members: Seq<MemberView>, fields: Seq<Field>, i: int)
    requires
        members.len() == fields.len(),
        0 <= i < fields.len(),
        forall|k: int|
            0 <= k < fields.len() ==> (#[trigger] members[k]).name == fields[k].canonical(),
        unambiguous(fields),
    ensures
        scan(members, fields[i]) == Lookup::Found(members[i].value),
{
    lemma_scan_prefix(members, fields, i, members.len() as int);
    assert(members.take(members.len() as int) =~= members);
}

proof fn lemma_scan_prefix(members: Seq<MemberView>, fields: Seq<Field>, i: int, n: int)
    requires
        members.len() == fields.len(),
        0 <= i < fields.len(),
        0 <= n <= members.len(),
        forall|k: int|
            0 <= k < fields.len() ==> (#[trigger] members[k]).name == fields[k].canonical(),
        unambiguous(fields),
    ensures
        scan(members.take(n), fields[i]) == if i < n {
            Lookup::Found(members[i].value)
        } else {
            Lookup::Absent
        },
    decreases n,
{
    if n > 0 {
        lemma_scan_prefix(members, fields, i, n - 1);
        assert(members.take(n).drop_last() =~= members.take(n - 1));
        assert(members.take(n).last() == members[n - 1]);
        lemma_accepts_canonical(fields[n - 1]);
        lemma_accepts_canonical(fields[i]);
        if i < n - 1 {
            assert(share_no_name(fields[i], fields[n - 1]));
        } else if i > n - 1 {
            assert(share_no_name(fields[n - 1], fields[i]));
        }
    }
}

} // verus!
