//! The property map: the host's tagged, heterogeneous key-value container.
//! A map holds, under each key, a list of values of one tag, and a sticky
//! error state: once an error message is set, the data is gone and every
//! read or write answers with that message until the map is cleared.

use crate::frame::{AudioFrame, VideoFrame};
use crate::function::Function;
use crate::key::{is_valid_key, Key, KeyStr};
use crate::vscore::Core;
use crate::vs::{VSMapAppendMode, VSPropertyType};
use crate::node::{AudioNode, VideoNode};
use vstd::prelude::*;

verus! {

/// Controls whether a setter replaces or extends the values under a key.
pub type AppendMode = VSMapAppendMode;

/// One element of a data-typed property: raw bytes, or printable text. The
/// distinction is the host's per-element type hint.
#[derive(Debug)]
pub enum DataItem {
    Binary(Vec<u8>),
    Utf8(String),
}

/// Spec-level image of one data element.
pub enum DataItemModel {
    Binary(Seq<u8>),
    Utf8(Seq<char>),
}

impl View for DataItem {
    type V = DataItemModel;

    open spec fn view(&self) -> DataItemModel {
        match self {
            DataItem::Binary(b) => DataItemModel::Binary(b@),
            DataItem::Utf8(s) => DataItemModel::Utf8(s@),
        }
    }
}

/// A single tagged value, as it is put into or comes out of a map.
///
/// A floating point value is carried as the bit pattern of its 64-bit IEEE
/// 754 encoding, so that storage is bit-exact and the numeric
/// interpretation stays with the caller.
#[derive(Debug)]
pub enum Value {
    Int(i64),
    /// The bit pattern of a 64-bit IEEE 754 floating point value.
    Float(u64),
    /// Arbitrary binary data.
    Data(Vec<u8>),
    Utf8(String),
    VideoNode(VideoNode),
    AudioNode(AudioNode),
    VideoFrame(VideoFrame),
    AudioFrame(AudioFrame),
    Function(Function),
}

/// Spec-level image of a single tagged value; handles appear as the object
/// ids they name.
pub enum ValueModel {
    Int(i64),
    Float(u64),
    Data(Seq<u8>),
    Utf8(Seq<char>),
    VideoNode(int),
    AudioNode(int),
    VideoFrame(int),
    AudioFrame(int),
    Function(int),
}

impl View for Value {
    type V = ValueModel;

    open spec fn view(&self) -> ValueModel {
        match self {
            Value::Int(x) => ValueModel::Int(*x),
            Value::Float(x) => ValueModel::Float(*x),
            Value::Data(b) => ValueModel::Data(b@),
            Value::Utf8(s) => ValueModel::Utf8(s@),
            Value::VideoNode(n) => ValueModel::VideoNode(n@),
            Value::AudioNode(n) => ValueModel::AudioNode(n@),
            Value::VideoFrame(f) => ValueModel::VideoFrame(f@),
            Value::AudioFrame(f) => ValueModel::AudioFrame(f@),
            Value::Function(f) => ValueModel::Function(f@),
        }
    }
}

/// The tag of a value: the property type its key is bound to.
pub open spec fn tag_of(v: ValueModel) -> VSPropertyType {
    match v {
        ValueModel::Int(_) => VSPropertyType::Int,
        ValueModel::Float(_) => VSPropertyType::Float,
        ValueModel::Data(_) => VSPropertyType::Data,
        ValueModel::Utf8(_) => VSPropertyType::Data,
        ValueModel::VideoNode(_) => VSPropertyType::VideoNode,
        ValueModel::AudioNode(_) => VSPropertyType::AudioNode,
        ValueModel::VideoFrame(_) => VSPropertyType::VideoFrame,
        ValueModel::AudioFrame(_) => VSPropertyType::AudioFrame,
        ValueModel::Function(_) => VSPropertyType::Function,
    }
}

/// The values stored under one key: a list of elements sharing one tag.
#[derive(Debug)]
enum Values {
    Ints(Vec<i64>),
    Floats(Vec<u64>),
    Data(Vec<DataItem>),
    VideoNodes(Vec<VideoNode>),
    AudioNodes(Vec<AudioNode>),
    VideoFrames(Vec<VideoFrame>),
    AudioFrames(Vec<AudioFrame>),
    Functions(Vec<Function>),
}

/// Spec-level image of the values stored under one key.
pub enum ValuesModel {
    Ints(Seq<i64>),
    Floats(Seq<u64>),
    Data(Seq<DataItemModel>),
    VideoNodes(Seq<int>),
    AudioNodes(Seq<int>),
    VideoFrames(Seq<int>),
    AudioFrames(Seq<int>),
    Functions(Seq<int>),
}

impl View for Values {
    type V = ValuesModel;

    closed spec fn view(&self) -> ValuesModel {
        match self {
            Values::Ints(v) => ValuesModel::Ints(v@),
            Values::Floats(v) => ValuesModel::Floats(v@),
            Values::Data(v) => ValuesModel::Data(v@.map_values(|d: DataItem| d@)),
            Values::VideoNodes(v) => ValuesModel::VideoNodes(v@.map_values(|n: VideoNode| n@)),
            Values::AudioNodes(v) => ValuesModel::AudioNodes(v@.map_values(|n: AudioNode| n@)),
            Values::VideoFrames(v) => ValuesModel::VideoFrames(v@.map_values(|f: VideoFrame| f@)),
            Values::AudioFrames(v) => ValuesModel::AudioFrames(v@.map_values(|f: AudioFrame| f@)),
            Values::Functions(v) => ValuesModel::Functions(v@.map_values(|f: Function| f@)),
        }
    }
}

/// The shared tag of the values stored under one key.
pub open spec fn values_tag(vs: ValuesModel) -> VSPropertyType {
    match vs {
        ValuesModel::Ints(_) => VSPropertyType::Int,
        ValuesModel::Floats(_) => VSPropertyType::Float,
        ValuesModel::Data(_) => VSPropertyType::Data,
        ValuesModel::VideoNodes(_) => VSPropertyType::VideoNode,
        ValuesModel::AudioNodes(_) => VSPropertyType::AudioNode,
        ValuesModel::VideoFrames(_) => VSPropertyType::VideoFrame,
        ValuesModel::AudioFrames(_) => VSPropertyType::AudioFrame,
        ValuesModel::Functions(_) => VSPropertyType::Function,
    }
}

/// Number of values stored under one key.
pub open spec fn values_len(vs: ValuesModel) -> int {
    match vs {
        ValuesModel::Ints(v) => v.len() as int,
        ValuesModel::Floats(v) => v.len() as int,
        ValuesModel::Data(v) => v.len() as int,
        ValuesModel::VideoNodes(v) => v.len() as int,
        ValuesModel::AudioNodes(v) => v.len() as int,
        ValuesModel::VideoFrames(v) => v.len() as int,
        ValuesModel::AudioFrames(v) => v.len() as int,
        ValuesModel::Functions(v) => v.len() as int,
    }
}

/// The value at index `i` under one key.
pub open spec fn value_at(vs: ValuesModel, i: int) -> ValueModel {
    match vs {
        ValuesModel::Ints(v) => ValueModel::Int(v[i]),
        ValuesModel::Floats(v) => ValueModel::Float(v[i]),
        ValuesModel::Data(v) => match v[i] {
            DataItemModel::Binary(b) => ValueModel::Data(b),
            DataItemModel::Utf8(s) => ValueModel::Utf8(s),
        },
        ValuesModel::VideoNodes(v) => ValueModel::VideoNode(v[i]),
        ValuesModel::AudioNodes(v) => ValueModel::AudioNode(v[i]),
        ValuesModel::VideoFrames(v) => ValueModel::VideoFrame(v[i]),
        ValuesModel::AudioFrames(v) => ValueModel::AudioFrame(v[i]),
        ValuesModel::Functions(v) => ValueModel::Function(v[i]),
    }
}

/// A one-element value list holding `v`.
pub open spec fn singleton_values(v: ValueModel) -> ValuesModel {
    match v {
        ValueModel::Int(x) => ValuesModel::Ints(seq![x]),
        ValueModel::Float(x) => ValuesModel::Floats(seq![x]),
        ValueModel::Data(b) => ValuesModel::Data(seq![DataItemModel::Binary(b)]),
        ValueModel::Utf8(s) => ValuesModel::Data(seq![DataItemModel::Utf8(s)]),
        ValueModel::VideoNode(n) => ValuesModel::VideoNodes(seq![n]),
        ValueModel::AudioNode(n) => ValuesModel::AudioNodes(seq![n]),
        ValueModel::VideoFrame(f) => ValuesModel::VideoFrames(seq![f]),
        ValueModel::AudioFrame(f) => ValuesModel::AudioFrames(seq![f]),
        ValueModel::Function(f) => ValuesModel::Functions(seq![f]),
    }
}

/// The value list `vs` extended by `v`; meaningful when the tags agree.
pub open spec fn values_push(vs: ValuesModel, v: ValueModel) -> ValuesModel {
    match (vs, v) {
        (ValuesModel::Ints(l), ValueModel::Int(x)) => ValuesModel::Ints(l.push(x)),
        (ValuesModel::Floats(l), ValueModel::Float(x)) => ValuesModel::Floats(l.push(x)),
        (ValuesModel::Data(l), ValueModel::Data(b)) => ValuesModel::Data(
            l.push(DataItemModel::Binary(b)),
        ),
        (ValuesModel::Data(l), ValueModel::Utf8(s)) => ValuesModel::Data(
            l.push(DataItemModel::Utf8(s)),
        ),
        (ValuesModel::VideoNodes(l), ValueModel::VideoNode(n)) => ValuesModel::VideoNodes(
            l.push(n),
        ),
        (ValuesModel::AudioNodes(l), ValueModel::AudioNode(n)) => ValuesModel::AudioNodes(
            l.push(n),
        ),
        (ValuesModel::VideoFrames(l), ValueModel::VideoFrame(f)) => ValuesModel::VideoFrames(
            l.push(f),
        ),
        (ValuesModel::AudioFrames(l), ValueModel::AudioFrame(f)) => ValuesModel::AudioFrames(
            l.push(f),
        ),
        (ValuesModel::Functions(l), ValueModel::Function(f)) => ValuesModel::Functions(l.push(f)),
        (other, _) => other,
    }
}

/// One key of a map together with its values.
#[derive(Debug)]
struct MapEntry {
    key: Key,
    vals: Values,
}

/// Spec-level image of a whole map: its entries, in insertion order, and
/// its sticky error state.
pub struct MapModel {
    pub entries: Seq<(Seq<char>, ValuesModel)>,
    pub error: Option<Seq<char>>,
}

impl MapModel {
    /// An empty map without an error state.
    pub open spec fn empty() -> MapModel {
        MapModel { entries: Seq::empty(), error: None }
    }

    /// Keys of distinct entries differ.
    pub open spec fn unique_keys(self) -> bool {
        forall|i: int, j: int|
            0 <= i < j < self.entries.len() ==> (#[trigger] self.entries[i]).0 != (
            #[trigger] self.entries[j]).0
    }

    /// Well-formedness: keys are distinct and valid, and all counts fit
    /// the host's index width.
    pub open spec fn wf(self) -> bool {
        &&& self.unique_keys()
        &&& forall|i: int|
            0 <= i < self.entries.len() ==> is_valid_key((#[trigger] self.entries[i]).0)
        &&& self.entries.len() <= i32::MAX
        &&& forall|i: int|
            0 <= i < self.entries.len() ==> values_len((#[trigger] self.entries[i]).1) <= i32::MAX
    }

    /// Whether some entry is keyed by `k`.
    pub open spec fn has_key(self, k: Seq<char>) -> bool {
        exists|i: int| 0 <= i < self.entries.len() && (#[trigger] self.entries[i]).0 == k
    }

    /// The index of the entry keyed by `k`.
    pub open spec fn key_index(self, k: Seq<char>) -> int {
        choose|i: int| 0 <= i < self.entries.len() && (#[trigger] self.entries[i]).0 == k
    }

    /// The values stored under `k`.
    pub open spec fn values_of(self, k: Seq<char>) -> ValuesModel {
        self.entries[self.key_index(k)].1
    }
}

/// In a well-formed map, an entry holding `k` at index `i` is the entry
/// `key_index` names.
pub proof fn lemma_key_index_unique(m: MapModel, k: Seq<char>, i: int)
    requires
        m.wf(),
        0 <= i < m.entries.len(),
        m.entries[i].0 == k,
    ensures
        m.has_key(k),
        m.key_index(k) == i,
{
    assert(m.has_key(k));
    let j = m.key_index(k);
    if i != j {
        assert(m.entries[i].0 != m.entries[j].0);
    }
}

/// The outcome of a map read, at the spec level.
pub enum PropertyErrorModel {
    KeyNotFound,
    InvalidType,
    IndexOutOfBound,
    MapError(Seq<char>),
}

/// The error taxonomy of the map accessors.
#[derive(Debug, PartialEq, Eq)]
pub enum MapPropertyError {
    /// The requested key was not found in the map.
    KeyNotFound,
    /// The wrong accessor was used to retrieve the property.
    InvalidType,
    /// The requested index was out of bounds.
    IndexOutOfBound,
    /// The map is in its sticky error state; the message is carried along.
    MapError(String),
}

impl View for MapPropertyError {
    type V = PropertyErrorModel;

    open spec fn view(&self) -> PropertyErrorModel {
        match self {
            MapPropertyError::KeyNotFound => PropertyErrorModel::KeyNotFound,
            MapPropertyError::InvalidType => PropertyErrorModel::InvalidType,
            MapPropertyError::IndexOutOfBound => PropertyErrorModel::IndexOutOfBound,
            MapPropertyError::MapError(s) => PropertyErrorModel::MapError(s@),
        }
    }
}

impl MapPropertyError {
    /// A short printable name of the error kind.
    pub fn kind_name(&self) -> (r: &'static str) {
        match self {
            MapPropertyError::KeyNotFound => "KeyNotFound",
            MapPropertyError::InvalidType => "InvalidType",
            MapPropertyError::IndexOutOfBound => "IndexOutOfBound",
            MapPropertyError::MapError(_) => "MapError",
        }
    }
}

/// What a read of `m` under `k` at `i` answers: the sticky error if one is
/// set, then key lookup, then bounds.
pub open spec fn spec_get(m: MapModel, k: Seq<char>, i: int) -> Result<
    ValueModel,
    PropertyErrorModel,
> {
    if m.error is Some {
        Err(PropertyErrorModel::MapError(m.error->0))
    } else if !m.has_key(k) {
        Err(PropertyErrorModel::KeyNotFound)
    } else if !(0 <= i < values_len(m.values_of(k))) {
        Err(PropertyErrorModel::IndexOutOfBound)
    } else {
        Ok(value_at(m.values_of(k), i))
    }
}

/// What a tag-checked read of `m` under `k` at `i` answers when the caller
/// asks for values of tag `tag`.
pub open spec fn spec_get_tagged(m: MapModel, k: Seq<char>, i: int, tag: VSPropertyType) -> Result<
    ValueModel,
    PropertyErrorModel,
> {
    if m.error is Some {
        Err(PropertyErrorModel::MapError(m.error->0))
    } else if !m.has_key(k) {
        Err(PropertyErrorModel::KeyNotFound)
    } else if values_tag(m.values_of(k)) != tag {
        Err(PropertyErrorModel::InvalidType)
    } else if !(0 <= i < values_len(m.values_of(k))) {
        Err(PropertyErrorModel::IndexOutOfBound)
    } else {
        Ok(value_at(m.values_of(k), i))
    }
}

/// Whether storing `v` under `k` with mode `mode` is accepted: appending
/// requires the existing tag (if any) to match the tag of `v`.
pub open spec fn set_ok(m: MapModel, k: Seq<char>, v: ValueModel, mode: VSMapAppendMode) -> bool {
    mode == VSMapAppendMode::Replace || !m.has_key(k) || values_tag(m.values_of(k)) == tag_of(v)
}

/// The map after its values under `k` are replaced wholesale by `vs` (the
/// entry keeps its place; a missing key is added at the end).
pub open spec fn spec_set_values(m: MapModel, k: Seq<char>, vs: ValuesModel) -> MapModel {
    if m.has_key(k) {
        MapModel { entries: m.entries.update(m.key_index(k), (k, vs)), error: m.error }
    } else {
        MapModel { entries: m.entries.push((k, vs)), error: m.error }
    }
}

/// The map after `v` is stored under `k`: replacing discards the old
/// values, appending extends them. Meaningful when `set_ok` holds.
pub open spec fn spec_set(m: MapModel, k: Seq<char>, v: ValueModel, mode: VSMapAppendMode) -> MapModel {
    if mode == VSMapAppendMode::Replace || !m.has_key(k) {
        spec_set_values(m, k, singleton_values(v))
    } else {
        spec_set_values(m, k, values_push(m.values_of(k), v))
    }
}

/// The map after the entry keyed `k` (if any) is removed.
pub open spec fn spec_delete(m: MapModel, k: Seq<char>) -> MapModel {
    if m.has_key(k) {
        MapModel {
            entries: m.entries.remove(m.key_index(k)),
            error: m.error,
        }
    } else {
        m
    }
}

/// The map after an error is set: the data is discarded and the sticky
/// error message takes its place.
pub open spec fn spec_set_error(m: MapModel, msg: Seq<char>) -> MapModel {
    MapModel { entries: Seq::empty(), error: Some(msg) }
}

/// Room for one more value: what a setter asks of its caller so that all
/// counts keep fitting the host's index width.
pub open spec fn set_fits(m: MapModel, k: Seq<char>, mode: VSMapAppendMode) -> bool {
    if m.has_key(k) {
        mode == VSMapAppendMode::Replace || values_len(m.values_of(k)) < i32::MAX
    } else {
        m.entries.len() < i32::MAX
    }
}

/// The length bound the host's index width puts on one stored payload.
pub open spec fn value_fits(v: ValueModel) -> bool {
    match v {
        ValueModel::Data(b) => b.len() <= i32::MAX,
        ValueModel::Utf8(s) => s.len() <= i32::MAX,
        _ => true,
    }
}

/// What a tag-checked read of a data element answers when the caller asks
/// for raw bytes: a printable element is refused.
pub open spec fn spec_get_binary(m: MapModel, k: Seq<char>, i: int) -> Result<
    Seq<u8>,
    PropertyErrorModel,
> {
    match spec_get_tagged(m, k, i, VSPropertyType::Data) {
        Ok(v) => match v {
            ValueModel::Data(b) => Ok(b),
            _ => Err(PropertyErrorModel::InvalidType),
        },
        Err(e) => Err(e),
    }
}

/// What a tag-checked read of a data element answers when the caller asks
/// for printable text: a raw binary element is refused.
pub open spec fn spec_get_utf8(m: MapModel, k: Seq<char>, i: int) -> Result<
    Seq<char>,
    PropertyErrorModel,
> {
    match spec_get_tagged(m, k, i, VSPropertyType::Data) {
        Ok(v) => match v {
            ValueModel::Utf8(s) => Ok(s),
            _ => Err(PropertyErrorModel::InvalidType),
        },
        Err(e) => Err(e),
    }
}

/// What a whole-array read of an integer key answers.
pub open spec fn spec_get_int_array(m: MapModel, k: Seq<char>) -> Result<
    Seq<i64>,
    PropertyErrorModel,
> {
    if m.error is Some {
        Err(PropertyErrorModel::MapError(m.error->0))
    } else if !m.has_key(k) {
        Err(PropertyErrorModel::KeyNotFound)
    } else {
        match m.values_of(k) {
            ValuesModel::Ints(l) => Ok(l),
            _ => Err(PropertyErrorModel::InvalidType),
        }
    }
}

/// What a whole-array read of a floating point key answers (elements are
/// bit patterns).
pub open spec fn spec_get_float_array(m: MapModel, k: Seq<char>) -> Result<
    Seq<u64>,
    PropertyErrorModel,
> {
    if m.error is Some {
        Err(PropertyErrorModel::MapError(m.error->0))
    } else if !m.has_key(k) {
        Err(PropertyErrorModel::KeyNotFound)
    } else {
        match m.values_of(k) {
            ValuesModel::Floats(l) => Ok(l),
            _ => Err(PropertyErrorModel::InvalidType),
        }
    }
}

/// The property tag of the values under `k`; `Unset` for a key the map
/// does not hold. The sticky error state does not hide tags.
pub open spec fn spec_get_type(m: MapModel, k: Seq<char>) -> VSPropertyType {
    if m.has_key(k) {
        values_tag(m.values_of(k))
    } else {
        VSPropertyType::Unset
    }
}

/// How handing a read value out affects the core: a handle value carries
/// one fresh reference to its object; a plain value leaves the core alone.
pub open spec fn spec_clone_for_value(c: crate::vscore::CoreModel, v: ValueModel) -> crate::vscore::CoreModel {
    match v {
        ValueModel::VideoNode(id) => c.spec_clone_obj(id),
        ValueModel::AudioNode(id) => c.spec_clone_obj(id),
        ValueModel::VideoFrame(id) => c.spec_clone_obj(id),
        ValueModel::AudioFrame(id) => c.spec_clone_obj(id),
        ValueModel::Function(id) => c.spec_clone_obj(id),
        _ => c,
    }
}

/// An empty value list of the given tag; meaningful for real tags.
pub open spec fn empty_values(t: VSPropertyType) -> ValuesModel {
    match t {
        VSPropertyType::Int => ValuesModel::Ints(Seq::empty()),
        VSPropertyType::Float => ValuesModel::Floats(Seq::empty()),
        VSPropertyType::Data => ValuesModel::Data(Seq::empty()),
        VSPropertyType::Function => ValuesModel::Functions(Seq::empty()),
        VSPropertyType::VideoNode => ValuesModel::VideoNodes(Seq::empty()),
        VSPropertyType::AudioNode => ValuesModel::AudioNodes(Seq::empty()),
        VSPropertyType::AudioFrame => ValuesModel::AudioFrames(Seq::empty()),
        VSPropertyType::VideoFrame => ValuesModel::VideoFrames(Seq::empty()),
        VSPropertyType::Unset => ValuesModel::Ints(Seq::empty()),
    }
}

/// An empty value list holds no values.
proof fn lemma_empty_values_view(t: VSPropertyType)
    ensures
        values_len(empty_values(t)) == 0,
{
}

/// A stored value list always carries one of the real tags.
pub proof fn lemma_values_tag_not_unset(vs: ValuesModel)
    ensures
        values_tag(vs) != VSPropertyType::Unset,
{
}

/// What `num_elements` answers.
pub open spec fn spec_num_elements(m: MapModel, k: Seq<char>) -> Result<int, PropertyErrorModel> {
    if m.error is Some {
        Err(PropertyErrorModel::MapError(m.error->0))
    } else if !m.has_key(k) {
        Err(PropertyErrorModel::KeyNotFound)
    } else {
        Ok(values_len(m.values_of(k)))
    }
}

/// Removing an entry keeps a map well formed.
pub proof fn lemma_delete_wf(m: MapModel, k: Seq<char>)
    requires
        m.wf(),
    ensures
        spec_delete(m, k).wf(),
{
    if m.has_key(k) {
        let idx = m.key_index(k);
        let a = m.entries.remove(idx);
        assert forall|i: int, j: int|
            0 <= i < j < a.len() implies (#[trigger] a[i]).0 != (#[trigger] a[j]).0 by {
            let pi = if i < idx {
                i
            } else {
                i + 1
            };
            let pj = if j < idx {
                j
            } else {
                j + 1
            };
            assert(a[i] == m.entries[pi]);
            assert(a[j] == m.entries[pj]);
            assert(m.entries[pi].0 != m.entries[pj].0);
        }
        assert forall|i: int|
            0 <= i < a.len() implies is_valid_key((#[trigger] a[i]).0) && values_len(a[i].1)
            <= i32::MAX by {
            let pi = if i < idx {
                i
            } else {
                i + 1
            };
            assert(a[i] == m.entries[pi]);
        }
    }
}

/// Replacing or adding the values under a valid key keeps a map well
/// formed, provided the new values and the entry count fit the host's
/// index width.
pub proof fn lemma_set_values_wf(m: MapModel, k: Seq<char>, vs: ValuesModel)
    requires
        m.wf(),
        is_valid_key(k),
        values_len(vs) <= i32::MAX,
        !m.has_key(k) ==> m.entries.len() < i32::MAX,
    ensures
        spec_set_values(m, k, vs).wf(),
{
    let out = spec_set_values(m, k, vs);
    if m.has_key(k) {
        let idx = m.key_index(k);
        assert forall|i: int, j: int|
            0 <= i < j < out.entries.len() implies (#[trigger] out.entries[i]).0 != (
        #[trigger] out.entries[j]).0 by {
            assert(m.entries[i].0 != m.entries[j].0);
        }
    }
}

/// Mapping a pushed sequence equals pushing the mapped element.
proof fn lemma_map_values_push<A, B>(s: Seq<A>, f: spec_fn(A) -> B, x: A)
    ensures
        s.push(x).map_values(f) == s.map_values(f).push(f(x)),
{
    assert(s.push(x).map_values(f) =~= s.map_values(f).push(f(x)));
}

impl Values {
    /// Number of stored elements.
    fn count(&self) -> (r: usize)
        ensures
            r == values_len(self@),
    {
        match self {
            Values::Ints(v) => v.len(),
            Values::Floats(v) => v.len(),
            Values::Data(v) => v.len(),
            Values::VideoNodes(v) => v.len(),
            Values::AudioNodes(v) => v.len(),
            Values::VideoFrames(v) => v.len(),
            Values::AudioFrames(v) => v.len(),
            Values::Functions(v) => v.len(),
        }
    }

    /// A one-element list holding `v`.
    fn singleton(v: Value) -> (r: Values)
        ensures
            r@ == singleton_values(v@),
    {
        match v {
            Value::Int(x) => {
                let mut l: Vec<i64> = Vec::new();
                l.push(x);
                proof {
                    assert(l@ =~= seq![x]);
                }
                Values::Ints(l)
            },
            Value::Float(x) => {
                let mut l: Vec<u64> = Vec::new();
                l.push(x);
                proof {
                    assert(l@ =~= seq![x]);
                }
                Values::Floats(l)
            },
            Value::Data(b) => {
                let ghost bv = b@;
                let mut l: Vec<DataItem> = Vec::new();
                l.push(DataItem::Binary(b));
                proof {
                    assert(l@.map_values(|d: DataItem| d@) =~= seq![DataItemModel::Binary(bv)]);
                }
                Values::Data(l)
            },
            Value::Utf8(s) => {
                let ghost sv = s@;
                let mut l: Vec<DataItem> = Vec::new();
                l.push(DataItem::Utf8(s));
                proof {
                    assert(l@.map_values(|d: DataItem| d@) =~= seq![DataItemModel::Utf8(sv)]);
                }
                Values::Data(l)
            },
            Value::VideoNode(n) => {
                let ghost nv = n@;
                let mut l: Vec<VideoNode> = Vec::new();
                l.push(n);
                proof {
                    assert(l@.map_values(|h: VideoNode| h@) =~= seq![nv]);
                }
                Values::VideoNodes(l)
            },
            Value::AudioNode(n) => {
                let ghost nv = n@;
                let mut l: Vec<AudioNode> = Vec::new();
                l.push(n);
                proof {
                    assert(l@.map_values(|h: AudioNode| h@) =~= seq![nv]);
                }
                Values::AudioNodes(l)
            },
            Value::VideoFrame(f) => {
                let ghost fv = f@;
                let mut l: Vec<VideoFrame> = Vec::new();
                l.push(f);
                proof {
                    assert(l@.map_values(|h: VideoFrame| h@) =~= seq![fv]);
                }
                Values::VideoFrames(l)
            },
            Value::AudioFrame(f) => {
                let ghost fv = f@;
                let mut l: Vec<AudioFrame> = Vec::new();
                l.push(f);
                proof {
                    assert(l@.map_values(|h: AudioFrame| h@) =~= seq![fv]);
                }
                Values::AudioFrames(l)
            },
            Value::Function(f) => {
                let ghost fv = f@;
                let mut l: Vec<Function> = Vec::new();
                l.push(f);
                proof {
                    assert(l@.map_values(|h: Function| h@) =~= seq![fv]);
                }
                Values::Functions(l)
            },
        }
    }


    /// A duplicate of one value list: plain values copied byte for byte,
    /// each handle duplicated into a fresh reference, so the core only
    /// gains references.
    fn duplicate(&self, core: &mut Core) -> (r: Values)
        ensures
            r@ == self@,
            crate::vscore::core_only_gained_refs(old(core)@, final(core)@),
    {
        match self {
            Values::Ints(v) => {
                proof {
                    crate::vscore::lemma_gained_refs_refl(old(core)@);
                }
                Values::Ints(vstd::slice::slice_to_vec(v.as_slice()))
            },
            Values::Floats(v) => {
                proof {
                    crate::vscore::lemma_gained_refs_refl(old(core)@);
                }
                Values::Floats(vstd::slice::slice_to_vec(v.as_slice()))
            },
            Values::Data(v) => {
                proof {
                    crate::vscore::lemma_gained_refs_refl(old(core)@);
                }
                let mut out: Vec<DataItem> = Vec::new();
                let mut i: usize = 0;
                proof {
                    assert(out@.map_values(|d: DataItem| d@) =~= v@.map_values(
                        |d: DataItem| d@,
                    ).take(0));
                }
                while i < v.len()
                    invariant
                        i <= v@.len(),
                        out@.map_values(|d: DataItem| d@) =~= v@.map_values(|d: DataItem| d@).take(
                            i as int,
                        ),
                    decreases v@.len() - i,
                {
                    let item = match &v[i] {
                        DataItem::Binary(b) => DataItem::Binary(
                            vstd::slice::slice_to_vec(b.as_slice()),
                        ),
                        DataItem::Utf8(t) => DataItem::Utf8(t.clone()),
                    };
                    let ghost pre = out@;
                    out.push(item);
                    proof {
                        assert(v@.map_values(|d: DataItem| d@).len() == v@.len());
                        assert(pre.map_values(|d: DataItem| d@).len() == v@.map_values(
                            |d: DataItem| d@,
                        ).take(i as int).len());
                        assert(v@.map_values(|d: DataItem| d@).take(i as int).len() == i as int);
                        assert(pre.map_values(|d: DataItem| d@).len() == pre.len());
                        assert(out@.len() == i + 1);
                        assert(out@[i as int]@ == v@[i as int]@);
                        assert(out@.map_values(|d: DataItem| d@) =~= v@.map_values(
                            |d: DataItem| d@,
                        ).take(i as int + 1));
                    }
                    i = i + 1;
                }
                proof {
                    assert(v@.map_values(|d: DataItem| d@).take(v@.len() as int) =~= v@.map_values(
                        |d: DataItem| d@,
                    ));
                }
                Values::Data(out)
            },
            Values::VideoNodes(v) => {
                let mut out: Vec<VideoNode> = Vec::new();
                let mut i: usize = 0;
                proof {
                    crate::vscore::lemma_gained_refs_refl(old(core)@);
                    assert(out@.map_values(|h: VideoNode| h@) =~= v@.map_values(
                        |h: VideoNode| h@,
                    ).take(0));
                }
                while i < v.len()
                    invariant
                        i <= v@.len(),
                        out@.map_values(|h: VideoNode| h@) =~= v@.map_values(|h: VideoNode| h@).take(
                            i as int,
                        ),
                        crate::vscore::core_only_gained_refs(old(core)@, core@),
                    decreases v@.len() - i,
                {
                    let id = v[i].id();
                    let ghost cpre = core@;
                    core.clone_obj(id);
                    proof {
                        crate::vscore::lemma_gained_refs_step(old(core)@, cpre, id as int);
                    }
                    let ghost pre = out@;
                    out.push(crate::node::VideoNode::from_id(id));
                    proof {
                        assert(v@.map_values(|h: VideoNode| h@).len() == v@.len());
                        assert(pre.map_values(|h: VideoNode| h@).len() == v@.map_values(
                            |h: VideoNode| h@,
                        ).take(i as int).len());
                        assert(v@.map_values(|h: VideoNode| h@).take(i as int).len() == i as int);
                        assert(pre.map_values(|h: VideoNode| h@).len() == pre.len());
                        assert(out@.len() == i + 1);
                        assert(out@[i as int]@ == v@[i as int]@);
                        assert(out@.map_values(|h: VideoNode| h@) =~= v@.map_values(
                            |h: VideoNode| h@,
                        ).take(i as int + 1));
                    }
                    i = i + 1;
                }
                proof {
                    assert(v@.map_values(|h: VideoNode| h@).take(v@.len() as int) =~= v@.map_values(
                        |h: VideoNode| h@,
                    ));
                }
                Values::VideoNodes(out)
            },            Values::AudioNodes(v) => {
                let mut out: Vec<AudioNode> = Vec::new();
                let mut i: usize = 0;
                proof {
                    crate::vscore::lemma_gained_refs_refl(old(core)@);
                    assert(out@.map_values(|h: AudioNode| h@) =~= v@.map_values(
                        |h: AudioNode| h@,
                    ).take(0));
                }
                while i < v.len()
                    invariant
                        i <= v@.len(),
                        out@.map_values(|h: AudioNode| h@) =~= v@.map_values(|h: AudioNode| h@).take(
                            i as int,
                        ),
                        crate::vscore::core_only_gained_refs(old(core)@, core@),
                    decreases v@.len() - i,
                {
                    let id = v[i].id();
                    let ghost cpre = core@;
                    core.clone_obj(id);
                    proof {
                        crate::vscore::lemma_gained_refs_step(old(core)@, cpre, id as int);
                    }
                    let ghost pre = out@;
                    out.push(crate::node::AudioNode::from_id(id));
                    proof {
                        assert(v@.map_values(|h: AudioNode| h@).len() == v@.len());
                        assert(pre.map_values(|h: AudioNode| h@).len() == v@.map_values(
                            |h: AudioNode| h@,
                        ).take(i as int).len());
                        assert(v@.map_values(|h: AudioNode| h@).take(i as int).len() == i as int);
                        assert(pre.map_values(|h: AudioNode| h@).len() == pre.len());
                        assert(out@.len() == i + 1);
                        assert(out@[i as int]@ == v@[i as int]@);
                        assert(out@.map_values(|h: AudioNode| h@) =~= v@.map_values(
                            |h: AudioNode| h@,
                        ).take(i as int + 1));
                    }
                    i = i + 1;
                }
                proof {
                    assert(v@.map_values(|h: AudioNode| h@).take(v@.len() as int) =~= v@.map_values(
                        |h: AudioNode| h@,
                    ));
                }
                Values::AudioNodes(out)
            },            Values::VideoFrames(v) => {
                let mut out: Vec<VideoFrame> = Vec::new();
                let mut i: usize = 0;
                proof {
                    crate::vscore::lemma_gained_refs_refl(old(core)@);
                    assert(out@.map_values(|h: VideoFrame| h@) =~= v@.map_values(
                        |h: VideoFrame| h@,
                    ).take(0));
                }
                while i < v.len()
                    invariant
                        i <= v@.len(),
                        out@.map_values(|h: VideoFrame| h@) =~= v@.map_values(|h: VideoFrame| h@).take(
                            i as int,
                        ),
                        crate::vscore::core_only_gained_refs(old(core)@, core@),
                    decreases v@.len() - i,
                {
                    let id = v[i].id();
                    let ghost cpre = core@;
                    core.clone_obj(id);
                    proof {
                        crate::vscore::lemma_gained_refs_step(old(core)@, cpre, id as int);
                    }
                    let ghost pre = out@;
                    out.push(crate::frame::VideoFrame::from_id(id));
                    proof {
                        assert(v@.map_values(|h: VideoFrame| h@).len() == v@.len());
                        assert(pre.map_values(|h: VideoFrame| h@).len() == v@.map_values(
                            |h: VideoFrame| h@,
                        ).take(i as int).len());
                        assert(v@.map_values(|h: VideoFrame| h@).take(i as int).len() == i as int);
                        assert(pre.map_values(|h: VideoFrame| h@).len() == pre.len());
                        assert(out@.len() == i + 1);
                        assert(out@[i as int]@ == v@[i as int]@);
                        assert(out@.map_values(|h: VideoFrame| h@) =~= v@.map_values(
                            |h: VideoFrame| h@,
                        ).take(i as int + 1));
                    }
                    i = i + 1;
                }
                proof {
                    assert(v@.map_values(|h: VideoFrame| h@).take(v@.len() as int) =~= v@.map_values(
                        |h: VideoFrame| h@,
                    ));
                }
                Values::VideoFrames(out)
            },            Values::AudioFrames(v) => {
                let mut out: Vec<AudioFrame> = Vec::new();
                let mut i: usize = 0;
                proof {
                    crate::vscore::lemma_gained_refs_refl(old(core)@);
                    assert(out@.map_values(|h: AudioFrame| h@) =~= v@.map_values(
                        |h: AudioFrame| h@,
                    ).take(0));
                }
                while i < v.len()
                    invariant
                        i <= v@.len(),
                        out@.map_values(|h: AudioFrame| h@) =~= v@.map_values(|h: AudioFrame| h@).take(
                            i as int,
                        ),
                        crate::vscore::core_only_gained_refs(old(core)@, core@),
                    decreases v@.len() - i,
                {
                    let id = v[i].id();
                    let ghost cpre = core@;
                    core.clone_obj(id);
                    proof {
                        crate::vscore::lemma_gained_refs_step(old(core)@, cpre, id as int);
                    }
                    let ghost pre = out@;
                    out.push(crate::frame::AudioFrame::from_id(id));
                    proof {
                        assert(v@.map_values(|h: AudioFrame| h@).len() == v@.len());
                        assert(pre.map_values(|h: AudioFrame| h@).len() == v@.map_values(
                            |h: AudioFrame| h@,
                        ).take(i as int).len());
                        assert(v@.map_values(|h: AudioFrame| h@).take(i as int).len() == i as int);
                        assert(pre.map_values(|h: AudioFrame| h@).len() == pre.len());
                        assert(out@.len() == i + 1);
                        assert(out@[i as int]@ == v@[i as int]@);
                        assert(out@.map_values(|h: AudioFrame| h@) =~= v@.map_values(
                            |h: AudioFrame| h@,
                        ).take(i as int + 1));
                    }
                    i = i + 1;
                }
                proof {
                    assert(v@.map_values(|h: AudioFrame| h@).take(v@.len() as int) =~= v@.map_values(
                        |h: AudioFrame| h@,
                    ));
                }
                Values::AudioFrames(out)
            },            Values::Functions(v) => {
                let mut out: Vec<Function> = Vec::new();
                let mut i: usize = 0;
                proof {
                    crate::vscore::lemma_gained_refs_refl(old(core)@);
                    assert(out@.map_values(|h: Function| h@) =~= v@.map_values(
                        |h: Function| h@,
                    ).take(0));
                }
                while i < v.len()
                    invariant
                        i <= v@.len(),
                        out@.map_values(|h: Function| h@) =~= v@.map_values(|h: Function| h@).take(
                            i as int,
                        ),
                        crate::vscore::core_only_gained_refs(old(core)@, core@),
                    decreases v@.len() - i,
                {
                    let id = v[i].id();
                    let ghost cpre = core@;
                    core.clone_obj(id);
                    proof {
                        crate::vscore::lemma_gained_refs_step(old(core)@, cpre, id as int);
                    }
                    let ghost pre = out@;
                    out.push(crate::function::Function::from_id(id));
                    proof {
                        assert(v@.map_values(|h: Function| h@).len() == v@.len());
                        assert(pre.map_values(|h: Function| h@).len() == v@.map_values(
                            |h: Function| h@,
                        ).take(i as int).len());
                        assert(v@.map_values(|h: Function| h@).take(i as int).len() == i as int);
                        assert(pre.map_values(|h: Function| h@).len() == pre.len());
                        assert(out@.len() == i + 1);
                        assert(out@[i as int]@ == v@[i as int]@);
                        assert(out@.map_values(|h: Function| h@) =~= v@.map_values(
                            |h: Function| h@,
                        ).take(i as int + 1));
                    }
                    i = i + 1;
                }
                proof {
                    assert(v@.map_values(|h: Function| h@).take(v@.len() as int) =~= v@.map_values(
                        |h: Function| h@,
                    ));
                }
                Values::Functions(out)
            },
        }
    }

    /// Appends `v` when its tag matches; a mismatched value is discarded
    /// and refused.
    fn push_value(&mut self, v: Value) -> (ok: bool)
        ensures
            ok == (values_tag(old(self)@) == tag_of(v@)),
            ok ==> final(self)@ == values_push(old(self)@, v@),
            !ok ==> final(self)@ == old(self)@,
    {
        match (&mut *self, v) {
            (Values::Ints(l), Value::Int(x)) => {
                l.push(x);
                true
            },
            (Values::Floats(l), Value::Float(x)) => {
                l.push(x);
                true
            },
            (Values::Data(l), Value::Data(b)) => {
                let ghost pre = l@;
                l.push(DataItem::Binary(b));
                proof {
                    lemma_map_values_push(pre, |d: DataItem| d@, DataItem::Binary(b));
                }
                true
            },
            (Values::Data(l), Value::Utf8(s)) => {
                let ghost pre = l@;
                let item = DataItem::Utf8(s);
                l.push(item);
                proof {
                    lemma_map_values_push(pre, |d: DataItem| d@, l@[l@.len() - 1]);
                }
                true
            },
            (Values::VideoNodes(l), Value::VideoNode(n)) => {
                let ghost pre = l@;
                l.push(n);
                proof {
                    lemma_map_values_push(pre, |h: VideoNode| h@, l@[l@.len() - 1]);
                }
                true
            },
            (Values::AudioNodes(l), Value::AudioNode(n)) => {
                let ghost pre = l@;
                l.push(n);
                proof {
                    lemma_map_values_push(pre, |h: AudioNode| h@, l@[l@.len() - 1]);
                }
                true
            },
            (Values::VideoFrames(l), Value::VideoFrame(f)) => {
                let ghost pre = l@;
                l.push(f);
                proof {
                    lemma_map_values_push(pre, |h: VideoFrame| h@, l@[l@.len() - 1]);
                }
                true
            },
            (Values::AudioFrames(l), Value::AudioFrame(f)) => {
                let ghost pre = l@;
                l.push(f);
                proof {
                    lemma_map_values_push(pre, |h: AudioFrame| h@, l@[l@.len() - 1]);
                }
                true
            },
            (Values::Functions(l), Value::Function(f)) => {
                let ghost pre = l@;
                l.push(f);
                proof {
                    lemma_map_values_push(pre, |h: Function| h@, l@[l@.len() - 1]);
                }
                true
            },
            (_, _) => false,
        }
    }
}

/// The property map: a tagged key-value container with a sticky error
/// state.
#[derive(Debug)]
pub struct VsMap {
    entries: Vec<MapEntry>,
    error: Option<String>,
}

impl View for VsMap {
    type V = MapModel;

    closed spec fn view(&self) -> MapModel {
        MapModel {
            entries: Seq::new(
                self.entries@.len(),
                |i: int| (self.entries@[i].key@, self.entries@[i].vals@),
            ),
            error: match self.error {
                Some(ref s) => Some(s@),
                None => None,
            },
        }
    }
}

impl VsMap {
    #[verifier::type_invariant]
    spec fn type_inv(&self) -> bool {
        self@.wf()
    }

    /// An empty map.
    pub fn new() -> (r: VsMap)
        ensures
            r@ == MapModel::empty(),
    {
        let r = VsMap { entries: Vec::new(), error: None };
        proof {
            assert(r@.entries =~= MapModel::empty().entries);
        }
        r
    }

    /// Number of keys.
    pub fn len(&self) -> (r: i32)
        ensures
            r == self@.entries.len(),
    {
        proof {
            use_type_invariant(self);
        }
        self.entries.len() as i32
    }

    /// Whether the map holds no keys.
    pub fn is_empty(&self) -> (r: bool)
        ensures
            r == (self@.entries.len() == 0),
    {
        self.len() == 0
    }

    /// Discards all data and any sticky error: the map is empty and
    /// usable afterwards.
    pub fn clear(&mut self)
        ensures
            final(self)@ == MapModel::empty(),
    {
        self.entries = Vec::new();
        self.error = None;
        proof {
            assert(self@.entries =~= MapModel::empty().entries);
        }
    }

    /// Discards all data and puts the map into its sticky error state,
    /// carrying `msg`.
    pub fn set_error(&mut self, msg: &str)
        ensures
            final(self)@ == spec_set_error(old(self)@, msg@),
    {
        self.entries = Vec::new();
        self.error = Some(msg.to_owned());
        proof {
            assert(self@.entries =~= spec_set_error(old(self)@, msg@).entries);
        }
    }

    /// The sticky error message, if one is set.
    pub fn get_error(&self) -> (r: Option<String>)
        ensures
            match r {
                Some(s) => self@.error == Some(s@),
                None => self@.error is None,
            },
    {
        match &self.error {
            Some(s) => Some(s.clone()),
            None => None,
        }
    }

    /// The index of the entry keyed by `key`, if one exists.
    fn find_idx(&self, key: &KeyStr) -> (r: Option<usize>)
        ensures
            match r {
                Some(i) => i < self@.entries.len() && self@.entries[i as int].0 == key@
                    && self@.has_key(key@) && self@.key_index(key@) == i,
                None => !self@.has_key(key@),
            },
    {
        proof {
            use_type_invariant(self);
        }
        let n = self.entries.len();
        let mut i: usize = 0;
        while i < n
            invariant
                i <= n,
                n == self.entries.len(),
                n == self@.entries.len(),
                self@.wf(),
                forall|j: int| 0 <= j < i ==> (#[trigger] self@.entries[j]).0 != key@,
                n == self.entries@.len(),
                forall|j: int|
                    0 <= j < n ==> (#[trigger] self@.entries[j]).0 == self.entries@[j].key@,
            decreases n - i,
        {
            if self.entries[i].key.same_as(key) {
                proof {
                    lemma_key_index_unique(self@, key@, i as int);
                }
                return Some(i);
            }
            i = i + 1;
        }
        proof {
            assert forall|j: int|
                0 <= j < self@.entries.len() implies (#[trigger] self@.entries[j]).0
                != key@ by {}
        }
        None
    }

    /// The key at `index`, in insertion order.
    pub fn get_key(&self, index: i32) -> (r: &KeyStr)
        requires
            0 <= index < self@.entries.len(),
        ensures
            r@ == self@.entries[index as int].0,
    {
        proof {
            use_type_invariant(self);
        }
        &self.entries[index as usize].key
    }

    /// Removes the entry keyed by `key`, if the map holds one. In the
    /// sticky error state the map holds no data and nothing happens.
    pub fn delete_key(&mut self, key: &KeyStr)
        ensures
            final(self)@ == spec_delete(old(self)@, key@),
    {
        proof {
            use_type_invariant(&*self);
        }
        match self.find_idx(key) {
            Some(i) => {
                let mut entries: Vec<MapEntry> = Vec::new();
                core::mem::swap(&mut entries, &mut self.entries);
                entries.remove(i);
                proof {
                    lemma_delete_wf(old(self)@, key@);
                    assert(Seq::new(
                        entries@.len(),
                        |x: int| (entries@[x].key@, entries@[x].vals@),
                    ) =~= spec_delete(old(self)@, key@).entries);
                }
                core::mem::swap(&mut entries, &mut self.entries);
            },
            None => {},
        }
    }

    /// Stores `val` under `key`. Replacing discards the previous values;
    /// appending requires the key's stored tag (if any) to match the tag of
    /// `val` and answers `InvalidType` otherwise, leaving the map
    /// unchanged. In the sticky error state nothing is stored and the
    /// error is answered. A refused value is discarded.
    pub fn set(&mut self, key: &KeyStr, val: Value, append: AppendMode) -> (r: Result<
        (),
        MapPropertyError,
    >)
        requires
            value_fits(val@),
            old(self)@.error is None ==> set_fits(old(self)@, key@, append),
        ensures
            ({
                let m = old(self)@;
                if m.error is Some {
                    &&& r matches Err(e) && e@ == PropertyErrorModel::MapError(m.error->0)
                    &&& final(self)@ == m
                } else if set_ok(m, key@, val@, append) {
                    &&& r is Ok
                    &&& final(self)@ == spec_set(m, key@, val@, append)
                } else {
                    &&& r matches Err(e) && e@ == PropertyErrorModel::InvalidType
                    &&& final(self)@ == m
                }
            }),
    {
        proof {
            use_type_invariant(&*self);
        }
        if let Some(msg) = &self.error {
            return Err(MapPropertyError::MapError(msg.clone()));
        }
        let ghost m0 = self@;
        let ghost vv = val@;
        let idx = self.find_idx(key);
        let mut entries: Vec<MapEntry> = Vec::new();
        core::mem::swap(&mut entries, &mut self.entries);
        let result: Result<(), MapPropertyError>;
        match idx {
            None => {
                let e = MapEntry { key: key.duplicate(), vals: Values::singleton(val) };
                entries.push(e);
                result = Ok(());
                proof {
                    lemma_set_values_wf(m0, key@, singleton_values(vv));
                    assert(Seq::new(
                        entries@.len(),
                        |x: int| (entries@[x].key@, entries@[x].vals@),
                    ) =~= spec_set(m0, key@, vv, append).entries);
                }
            },
            Some(i) => {
                let mut e = entries.remove(i);
                match append {
                    VSMapAppendMode::Replace => {
                        e.vals = Values::singleton(val);
                        entries.insert(i, e);
                        result = Ok(());
                        proof {
                            lemma_set_values_wf(m0, key@, singleton_values(vv));
                            assert(Seq::new(
                                entries@.len(),
                                |x: int| (entries@[x].key@, entries@[x].vals@),
                            ) =~= spec_set(m0, key@, vv, append).entries);
                        }
                    },
                    VSMapAppendMode::Append => {
                        let ok = e.vals.push_value(val);
                        entries.insert(i, e);
                        if ok {
                            result = Ok(());
                            proof {
                                lemma_set_values_wf(
                                    m0,
                                    key@,
                                    values_push(m0.values_of(key@), vv),
                                );
                                assert(Seq::new(
                                    entries@.len(),
                                    |x: int| (entries@[x].key@, entries@[x].vals@),
                                ) =~= spec_set(m0, key@, vv, append).entries);
                            }
                        } else {
                            result = Err(MapPropertyError::InvalidType);
                            proof {
                                assert(Seq::new(
                                    entries@.len(),
                                    |x: int| (entries@[x].key@, entries@[x].vals@),
                                ) =~= m0.entries);
                            }
                        }
                    },
                }
            },
        }
        core::mem::swap(&mut entries, &mut self.entries);
        result
    }

    /// Creates an empty entry of the given tag under `key`. The key must
    /// be new and the tag a real one.
    pub fn set_empty(&mut self, key: &KeyStr, type_: VSPropertyType)
        requires
            old(self)@.error is None,
            !old(self)@.has_key(key@),
            old(self)@.entries.len() < i32::MAX,
            type_ != VSPropertyType::Unset,
        ensures
            final(self)@ == spec_set_values(old(self)@, key@, empty_values(type_)),
    {
        proof {
            use_type_invariant(&*self);
        }
        let ghost m0 = self@;
        let vals = match type_ {
            VSPropertyType::Unset => vstd::pervasive::unreached(),
            VSPropertyType::Int => Values::Ints(Vec::new()),
            VSPropertyType::Float => Values::Floats(Vec::new()),
            VSPropertyType::Data => Values::Data(Vec::new()),
            VSPropertyType::Function => Values::Functions(Vec::new()),
            VSPropertyType::VideoNode => Values::VideoNodes(Vec::new()),
            VSPropertyType::AudioNode => Values::AudioNodes(Vec::new()),
            VSPropertyType::VideoFrame => Values::VideoFrames(Vec::new()),
            VSPropertyType::AudioFrame => Values::AudioFrames(Vec::new()),
        };
        proof {
            lemma_empty_values_view(type_);
            match &vals {
                Values::Ints(l) => {
                    assert(l@ =~= Seq::<i64>::empty());
                },
                Values::Floats(l) => {
                    assert(l@ =~= Seq::<u64>::empty());
                },
                Values::Data(l) => {
                    assert(l@.map_values(|d: DataItem| d@) =~= Seq::<DataItemModel>::empty());
                },
                Values::VideoNodes(l) => {
                    assert(l@.map_values(|h: VideoNode| h@) =~= Seq::<int>::empty());
                },
                Values::AudioNodes(l) => {
                    assert(l@.map_values(|h: AudioNode| h@) =~= Seq::<int>::empty());
                },
                Values::VideoFrames(l) => {
                    assert(l@.map_values(|h: VideoFrame| h@) =~= Seq::<int>::empty());
                },
                Values::AudioFrames(l) => {
                    assert(l@.map_values(|h: AudioFrame| h@) =~= Seq::<int>::empty());
                },
                Values::Functions(l) => {
                    assert(l@.map_values(|h: Function| h@) =~= Seq::<int>::empty());
                },
            }
            assert(vals@ == empty_values(type_));
        }
        let mut entries: Vec<MapEntry> = Vec::new();
        core::mem::swap(&mut entries, &mut self.entries);
        entries.push(MapEntry { key: key.duplicate(), vals });
        proof {
            lemma_set_values_wf(m0, key@, empty_values(type_));
            assert(Seq::new(entries@.len(), |x: int| (entries@[x].key@, entries@[x].vals@))
                =~= spec_set_values(m0, key@, empty_values(type_)).entries);
        }
        core::mem::swap(&mut entries, &mut self.entries);
    }

    /// The property tag of the values stored under `key`; `Unset` for a
    /// key the map does not hold.
    pub fn get_type(&self, key: &KeyStr) -> (r: VSPropertyType)
        ensures
            r == spec_get_type(self@, key@),
    {
        proof {
            use_type_invariant(self);
        }
        match self.find_idx(key) {
            Some(i) => match &self.entries[i].vals {
                Values::Ints(_) => VSPropertyType::Int,
                Values::Floats(_) => VSPropertyType::Float,
                Values::Data(_) => VSPropertyType::Data,
                Values::VideoNodes(_) => VSPropertyType::VideoNode,
                Values::AudioNodes(_) => VSPropertyType::AudioNode,
                Values::VideoFrames(_) => VSPropertyType::VideoFrame,
                Values::AudioFrames(_) => VSPropertyType::AudioFrame,
                Values::Functions(_) => VSPropertyType::Function,
            },
            None => VSPropertyType::Unset,
        }
    }

    /// Number of values stored under `key`.
    pub fn num_elements(&self, key: &KeyStr) -> (r: Result<i32, MapPropertyError>)
        ensures
            match r {
                Ok(n) => spec_num_elements(self@, key@) == Ok::<int, PropertyErrorModel>(n as int),
                Err(e) => spec_num_elements(self@, key@) == Err::<int, PropertyErrorModel>(e@),
            },
    {
        proof {
            use_type_invariant(self);
        }
        if let Some(msg) = &self.error {
            return Err(MapPropertyError::MapError(msg.clone()));
        }
        match self.find_idx(key) {
            Some(i) => Ok(self.entries[i].vals.count() as i32),
            None => Err(MapPropertyError::KeyNotFound),
        }
    }

    /// The integer stored under `key` at `index`.
    pub fn get_int(&self, key: &KeyStr, index: i32) -> (r: Result<i64, MapPropertyError>)
        ensures
            ({
                let g = spec_get_tagged(self@, key@, index as int, VSPropertyType::Int);
                match r {
                    Ok(x) => g == Ok::<ValueModel, PropertyErrorModel>(ValueModel::Int(x)),
                    Err(e) => g == Err::<ValueModel, PropertyErrorModel>(e@),
                }
            }),
    {
        proof {
            use_type_invariant(self);
        }
        if let Some(msg) = &self.error {
            return Err(MapPropertyError::MapError(msg.clone()));
        }
        match self.find_idx(key) {
            None => Err(MapPropertyError::KeyNotFound),
            Some(i) => match &self.entries[i].vals {
                Values::Ints(v) => {
                    if index < 0 || index as usize >= v.len() {
                        Err(MapPropertyError::IndexOutOfBound)
                    } else {
                        Ok(v[index as usize])
                    }
                },
                _ => Err(MapPropertyError::InvalidType),
            },
        }
    }

    /// The integer stored under `key` at `index`, clamped to the 32-bit
    /// range.
    pub fn get_int_saturated(&self, key: &KeyStr, index: i32) -> (r: Result<i32, MapPropertyError>)
        ensures
            ({
                let g = spec_get_tagged(self@, key@, index as int, VSPropertyType::Int);
                match r {
                    Ok(x) => (g matches Ok(v) && v matches ValueModel::Int(w) && x
                        == crate::utils::i32_saturated(w as int)),
                    Err(e) => g == Err::<ValueModel, PropertyErrorModel>(e@),
                }
            }),
    {
        match self.get_int(key, index) {
            Ok(x) => Ok(crate::utils::int64_to_int_s(x)),
            Err(e) => Err(e),
        }
    }

    /// The bit pattern of the floating point value stored under `key` at
    /// `index`.
    pub fn get_float(&self, key: &KeyStr, index: i32) -> (r: Result<u64, MapPropertyError>)
        ensures
            ({
                let g = spec_get_tagged(self@, key@, index as int, VSPropertyType::Float);
                match r {
                    Ok(x) => g == Ok::<ValueModel, PropertyErrorModel>(ValueModel::Float(x)),
                    Err(e) => g == Err::<ValueModel, PropertyErrorModel>(e@),
                }
            }),
    {
        proof {
            use_type_invariant(self);
        }
        if let Some(msg) = &self.error {
            return Err(MapPropertyError::MapError(msg.clone()));
        }
        match self.find_idx(key) {
            None => Err(MapPropertyError::KeyNotFound),
            Some(i) => match &self.entries[i].vals {
                Values::Floats(v) => {
                    if index < 0 || index as usize >= v.len() {
                        Err(MapPropertyError::IndexOutOfBound)
                    } else {
                        Ok(v[index as usize])
                    }
                },
                _ => Err(MapPropertyError::InvalidType),
            },
        }
    }

    /// The raw bytes stored under `key` at `index`; a printable element is
    /// refused as `InvalidType`.
    pub fn get_binary(&self, key: &KeyStr, index: i32) -> (r: Result<Vec<u8>, MapPropertyError>)
        ensures
            ({
                let g = spec_get_binary(self@, key@, index as int);
                match r {
                    Ok(b) => g == Ok::<Seq<u8>, PropertyErrorModel>(b@),
                    Err(e) => g == Err::<Seq<u8>, PropertyErrorModel>(e@),
                }
            }),
    {
        proof {
            use_type_invariant(self);
        }
        if let Some(msg) = &self.error {
            return Err(MapPropertyError::MapError(msg.clone()));
        }
        match self.find_idx(key) {
            None => Err(MapPropertyError::KeyNotFound),
            Some(i) => match &self.entries[i].vals {
                Values::Data(v) => {
                    if index < 0 || index as usize >= v.len() {
                        Err(MapPropertyError::IndexOutOfBound)
                    } else {
                        match &v[index as usize] {
                            DataItem::Binary(b) => Ok(vstd::slice::slice_to_vec(b.as_slice())),
                            DataItem::Utf8(_) => Err(MapPropertyError::InvalidType),
                        }
                    }
                },
                _ => Err(MapPropertyError::InvalidType),
            },
        }
    }

    /// The printable text stored under `key` at `index`; a raw binary
    /// element is refused as `InvalidType`.
    pub fn get_utf8(&self, key: &KeyStr, index: i32) -> (r: Result<String, MapPropertyError>)
        ensures
            ({
                let g = spec_get_utf8(self@, key@, index as int);
                match r {
                    Ok(s) => g == Ok::<Seq<char>, PropertyErrorModel>(s@),
                    Err(e) => g == Err::<Seq<char>, PropertyErrorModel>(e@),
                }
            }),
    {
        proof {
            use_type_invariant(self);
        }
        if let Some(msg) = &self.error {
            return Err(MapPropertyError::MapError(msg.clone()));
        }
        match self.find_idx(key) {
            None => Err(MapPropertyError::KeyNotFound),
            Some(i) => match &self.entries[i].vals {
                Values::Data(v) => {
                    if index < 0 || index as usize >= v.len() {
                        Err(MapPropertyError::IndexOutOfBound)
                    } else {
                        match &v[index as usize] {
                            DataItem::Utf8(s) => Ok(s.clone()),
                            DataItem::Binary(_) => Err(MapPropertyError::InvalidType),
                        }
                    }
                },
                _ => Err(MapPropertyError::InvalidType),
            },
        }
    }

    /// All integers stored under `key`, as one array.
    pub fn get_int_array(&self, key: &KeyStr) -> (r: Result<Vec<i64>, MapPropertyError>)
        ensures
            ({
                let g = spec_get_int_array(self@, key@);
                match r {
                    Ok(v) => g == Ok::<Seq<i64>, PropertyErrorModel>(v@),
                    Err(e) => g == Err::<Seq<i64>, PropertyErrorModel>(e@),
                }
            }),
    {
        proof {
            use_type_invariant(self);
        }
        if let Some(msg) = &self.error {
            return Err(MapPropertyError::MapError(msg.clone()));
        }
        match self.find_idx(key) {
            None => Err(MapPropertyError::KeyNotFound),
            Some(i) => match &self.entries[i].vals {
                Values::Ints(v) => Ok(vstd::slice::slice_to_vec(v.as_slice())),
                _ => Err(MapPropertyError::InvalidType),
            },
        }
    }

    /// The bit patterns of all floating point values stored under `key`,
    /// as one array.
    pub fn get_float_array(&self, key: &KeyStr) -> (r: Result<Vec<u64>, MapPropertyError>)
        ensures
            ({
                let g = spec_get_float_array(self@, key@);
                match r {
                    Ok(v) => g == Ok::<Seq<u64>, PropertyErrorModel>(v@),
                    Err(e) => g == Err::<Seq<u64>, PropertyErrorModel>(e@),
                }
            }),
    {
        proof {
            use_type_invariant(self);
        }
        if let Some(msg) = &self.error {
            return Err(MapPropertyError::MapError(msg.clone()));
        }
        match self.find_idx(key) {
            None => Err(MapPropertyError::KeyNotFound),
            Some(i) => match &self.entries[i].vals {
                Values::Floats(v) => Ok(vstd::slice::slice_to_vec(v.as_slice())),
                _ => Err(MapPropertyError::InvalidType),
            },
        }
    }

    /// Replaces the values under `key` wholesale by the given integers.
    pub fn set_int_array(&mut self, key: &KeyStr, val: Vec<i64>) -> (r: Result<
        (),
        MapPropertyError,
    >)
        requires
            val@.len() <= i32::MAX,
            old(self)@.error is None ==> set_fits(old(self)@, key@, VSMapAppendMode::Replace),
        ensures
            ({
                let m = old(self)@;
                if m.error is Some {
                    &&& r matches Err(e) && e@ == PropertyErrorModel::MapError(m.error->0)
                    &&& final(self)@ == m
                } else {
                    &&& r is Ok
                    &&& final(self)@ == spec_set_values(m, key@, ValuesModel::Ints(val@))
                }
            }),
    {
        self.set_values_whole(key, Values::Ints(val))
    }

    /// Replaces the values under `key` wholesale by the given floating
    /// point bit patterns.
    pub fn set_float_array(&mut self, key: &KeyStr, val: Vec<u64>) -> (r: Result<
        (),
        MapPropertyError,
    >)
        requires
            val@.len() <= i32::MAX,
            old(self)@.error is None ==> set_fits(old(self)@, key@, VSMapAppendMode::Replace),
        ensures
            ({
                let m = old(self)@;
                if m.error is Some {
                    &&& r matches Err(e) && e@ == PropertyErrorModel::MapError(m.error->0)
                    &&& final(self)@ == m
                } else {
                    &&& r is Ok
                    &&& final(self)@ == spec_set_values(m, key@, ValuesModel::Floats(val@))
                }
            }),
    {
        self.set_values_whole(key, Values::Floats(val))
    }

    /// Replaces the values under `key` wholesale.
    fn set_values_whole(&mut self, key: &KeyStr, vals: Values) -> (r: Result<
        (),
        MapPropertyError,
    >)
        requires
            values_len(vals@) <= i32::MAX,
            old(self)@.error is None ==> set_fits(old(self)@, key@, VSMapAppendMode::Replace),
        ensures
            ({
                let m = old(self)@;
                if m.error is Some {
                    &&& r matches Err(e) && e@ == PropertyErrorModel::MapError(m.error->0)
                    &&& final(self)@ == m
                } else {
                    &&& r is Ok
                    &&& final(self)@ == spec_set_values(m, key@, vals@)
                }
            }),
    {
        proof {
            use_type_invariant(&*self);
        }
        if let Some(msg) = &self.error {
            return Err(MapPropertyError::MapError(msg.clone()));
        }
        let ghost m0 = self@;
        let ghost vv = vals@;
        let idx = self.find_idx(key);
        let mut entries: Vec<MapEntry> = Vec::new();
        core::mem::swap(&mut entries, &mut self.entries);
        match idx {
            None => {
                let e = MapEntry { key: key.duplicate(), vals };
                entries.push(e);
            },
            Some(i) => {
                let mut e = entries.remove(i);
                e.vals = vals;
                entries.insert(i, e);
            },
        }
        proof {
            lemma_set_values_wf(m0, key@, vv);
            assert(Seq::new(entries@.len(), |x: int| (entries@[x].key@, entries@[x].vals@))
                =~= spec_set_values(m0, key@, vv).entries);
        }
        core::mem::swap(&mut entries, &mut self.entries);
        Ok(())
    }

    /// The value stored under `key` at `index`. A handle value comes out
    /// as a fresh reference: the core hands one more reference to the
    /// named object out to the caller.
    pub fn get(&self, key: &KeyStr, index: i32, core: &mut Core) -> (r: Result<
        Value,
        MapPropertyError,
    >)
        ensures
            match r {
                Ok(v) => spec_get(self@, key@, index as int) == Ok::<
                    ValueModel,
                    PropertyErrorModel,
                >(v@) && final(core)@ == spec_clone_for_value(old(core)@, v@),
                Err(e) => spec_get(self@, key@, index as int) == Err::<
                    ValueModel,
                    PropertyErrorModel,
                >(e@) && final(core)@ == old(core)@,
            },
    {
        proof {
            use_type_invariant(self);
        }
        if let Some(msg) = &self.error {
            return Err(MapPropertyError::MapError(msg.clone()));
        }
        let i = match self.find_idx(key) {
            Some(i) => i,
            None => {
                return Err(MapPropertyError::KeyNotFound);
            },
        };
        if index < 0 || index as usize >= self.entries[i].vals.count() {
            return Err(MapPropertyError::IndexOutOfBound);
        }
        let x = index as usize;
        match &self.entries[i].vals {
            Values::Ints(v) => Ok(Value::Int(v[x])),
            Values::Floats(v) => Ok(Value::Float(v[x])),
            Values::Data(v) => match &v[x] {
                DataItem::Binary(b) => Ok(Value::Data(vstd::slice::slice_to_vec(b.as_slice()))),
                DataItem::Utf8(s) => Ok(Value::Utf8(s.clone())),
            },
            Values::VideoNodes(v) => {
                let id = v[x].id();
                core.clone_obj(id);
                Ok(Value::VideoNode(crate::node::VideoNode::from_id(id)))
            },
            Values::AudioNodes(v) => {
                let id = v[x].id();
                core.clone_obj(id);
                Ok(Value::AudioNode(crate::node::AudioNode::from_id(id)))
            },
            Values::VideoFrames(v) => {
                let id = v[x].id();
                core.clone_obj(id);
                Ok(Value::VideoFrame(crate::frame::VideoFrame::from_id(id)))
            },
            Values::AudioFrames(v) => {
                let id = v[x].id();
                core.clone_obj(id);
                Ok(Value::AudioFrame(crate::frame::AudioFrame::from_id(id)))
            },
            Values::Functions(v) => {
                let id = v[x].id();
                core.clone_obj(id);
                Ok(Value::Function(crate::function::Function::from_id(id)))
            },
        }
    }

    /// The video node stored under `key` at `index`, as a fresh reference.
    pub fn get_video_node(&self, key: &KeyStr, index: i32, core: &mut Core) -> (r: Result<
        VideoNode,
        MapPropertyError,
    >)
        ensures
            match r {
                Ok(n) => spec_get_tagged(self@, key@, index as int, VSPropertyType::VideoNode)
                    == Ok::<ValueModel, PropertyErrorModel>(ValueModel::VideoNode(n@)) && final(core)@ == old(core)@.spec_clone_obj(n@),
                Err(e) => spec_get_tagged(self@, key@, index as int, VSPropertyType::VideoNode)
                    == Err::<ValueModel, PropertyErrorModel>(e@) && final(core)@ == old(core)@,
            },
    {
        proof {
            use_type_invariant(self);
        }
        if let Some(msg) = &self.error {
            return Err(MapPropertyError::MapError(msg.clone()));
        }
        match self.find_idx(key) {
            None => Err(MapPropertyError::KeyNotFound),
            Some(i) => match &self.entries[i].vals {
                Values::VideoNodes(v) => {
                    if index < 0 || index as usize >= v.len() {
                        Err(MapPropertyError::IndexOutOfBound)
                    } else {
                        let id = v[index as usize].id();
                        core.clone_obj(id);
                        Ok(crate::node::VideoNode::from_id(id))
                    }
                },
                _ => Err(MapPropertyError::InvalidType),
            },
        }
    }

    /// The audio node stored under `key` at `index`, as a fresh reference.
    pub fn get_audio_node(&self, key: &KeyStr, index: i32, core: &mut Core) -> (r: Result<
        AudioNode,
        MapPropertyError,
    >)
        ensures
            match r {
                Ok(n) => spec_get_tagged(self@, key@, index as int, VSPropertyType::AudioNode)
                    == Ok::<ValueModel, PropertyErrorModel>(ValueModel::AudioNode(n@)) && final(core)@ == old(core)@.spec_clone_obj(n@),
                Err(e) => spec_get_tagged(self@, key@, index as int, VSPropertyType::AudioNode)
                    == Err::<ValueModel, PropertyErrorModel>(e@) && final(core)@ == old(core)@,
            },
    {
        proof {
            use_type_invariant(self);
        }
        if let Some(msg) = &self.error {
            return Err(MapPropertyError::MapError(msg.clone()));
        }
        match self.find_idx(key) {
            None => Err(MapPropertyError::KeyNotFound),
            Some(i) => match &self.entries[i].vals {
                Values::AudioNodes(v) => {
                    if index < 0 || index as usize >= v.len() {
                        Err(MapPropertyError::IndexOutOfBound)
                    } else {
                        let id = v[index as usize].id();
                        core.clone_obj(id);
                        Ok(crate::node::AudioNode::from_id(id))
                    }
                },
                _ => Err(MapPropertyError::InvalidType),
            },
        }
    }

    /// The audio frame stored under `key` at `index`, as a fresh
    /// reference.
    pub fn get_audio_frame(&self, key: &KeyStr, index: i32, core: &mut Core) -> (r: Result<
        AudioFrame,
        MapPropertyError,
    >)
        ensures
            match r {
                Ok(f) => spec_get_tagged(self@, key@, index as int, VSPropertyType::AudioFrame)
                    == Ok::<ValueModel, PropertyErrorModel>(ValueModel::AudioFrame(f@)) && final(core)@ == old(core)@.spec_clone_obj(f@),
                Err(e) => spec_get_tagged(self@, key@, index as int, VSPropertyType::AudioFrame)
                    == Err::<ValueModel, PropertyErrorModel>(e@) && final(core)@ == old(core)@,
            },
    {
        proof {
            use_type_invariant(self);
        }
        if let Some(msg) = &self.error {
            return Err(MapPropertyError::MapError(msg.clone()));
        }
        match self.find_idx(key) {
            None => Err(MapPropertyError::KeyNotFound),
            Some(i) => match &self.entries[i].vals {
                Values::AudioFrames(v) => {
                    if index < 0 || index as usize >= v.len() {
                        Err(MapPropertyError::IndexOutOfBound)
                    } else {
                        let id = v[index as usize].id();
                        core.clone_obj(id);
                        Ok(crate::frame::AudioFrame::from_id(id))
                    }
                },
                _ => Err(MapPropertyError::InvalidType),
            },
        }
    }

    /// The video frame stored under `key` at `index`, as a fresh
    /// reference.
    pub fn get_video_frame(&self, key: &KeyStr, index: i32, core: &mut Core) -> (r: Result<
        VideoFrame,
        MapPropertyError,
    >)
        ensures
            match r {
                Ok(f) => spec_get_tagged(self@, key@, index as int, VSPropertyType::VideoFrame)
                    == Ok::<ValueModel, PropertyErrorModel>(ValueModel::VideoFrame(f@)) && final(core)@ == old(core)@.spec_clone_obj(f@),
                Err(e) => spec_get_tagged(self@, key@, index as int, VSPropertyType::VideoFrame)
                    == Err::<ValueModel, PropertyErrorModel>(e@) && final(core)@ == old(core)@,
            },
    {
        proof {
            use_type_invariant(self);
        }
        if let Some(msg) = &self.error {
            return Err(MapPropertyError::MapError(msg.clone()));
        }
        match self.find_idx(key) {
            None => Err(MapPropertyError::KeyNotFound),
            Some(i) => match &self.entries[i].vals {
                Values::VideoFrames(v) => {
                    if index < 0 || index as usize >= v.len() {
                        Err(MapPropertyError::IndexOutOfBound)
                    } else {
                        let id = v[index as usize].id();
                        core.clone_obj(id);
                        Ok(crate::frame::VideoFrame::from_id(id))
                    }
                },
                _ => Err(MapPropertyError::InvalidType),
            },
        }
    }

    /// The function stored under `key` at `index`, as a fresh reference.
    pub fn get_function(&self, key: &KeyStr, index: i32, core: &mut Core) -> (r: Result<
        Function,
        MapPropertyError,
    >)
        ensures
            match r {
                Ok(f) => spec_get_tagged(self@, key@, index as int, VSPropertyType::Function)
                    == Ok::<ValueModel, PropertyErrorModel>(ValueModel::Function(f@)) && final(core)@ == old(core)@.spec_clone_obj(f@),
                Err(e) => spec_get_tagged(self@, key@, index as int, VSPropertyType::Function)
                    == Err::<ValueModel, PropertyErrorModel>(e@) && final(core)@ == old(core)@,
            },
    {
        proof {
            use_type_invariant(self);
        }
        if let Some(msg) = &self.error {
            return Err(MapPropertyError::MapError(msg.clone()));
        }
        match self.find_idx(key) {
            None => Err(MapPropertyError::KeyNotFound),
            Some(i) => match &self.entries[i].vals {
                Values::Functions(v) => {
                    if index < 0 || index as usize >= v.len() {
                        Err(MapPropertyError::IndexOutOfBound)
                    } else {
                        let id = v[index as usize].id();
                        core.clone_obj(id);
                        Ok(crate::function::Function::from_id(id))
                    }
                },
                _ => Err(MapPropertyError::InvalidType),
            },
        }
    }

    /// Transfers ownership of a video node into the map; the map becomes
    /// the owner of that reference.
    pub fn consume_node(&mut self, key: &KeyStr, node: VideoNode, append: AppendMode) -> (r: Result<
        (),
        MapPropertyError,
    >)
        requires
            old(self)@.error is None ==> set_fits(old(self)@, key@, append),
        ensures
            ({
                let m = old(self)@;
                let v = ValueModel::VideoNode(node@);
                if m.error is Some {
                    &&& r matches Err(e) && e@ == PropertyErrorModel::MapError(m.error->0)
                    &&& final(self)@ == m
                } else if set_ok(m, key@, v, append) {
                    &&& r is Ok
                    &&& final(self)@ == spec_set(m, key@, v, append)
                } else {
                    &&& r matches Err(e) && e@ == PropertyErrorModel::InvalidType
                    &&& final(self)@ == m
                }
            }),
    {
        self.set(key, Value::VideoNode(node), append)
    }

    /// Transfers ownership of a video frame into the map; the map becomes
    /// the owner of that reference.
    pub fn consume_frame(&mut self, key: &KeyStr, frame: VideoFrame, append: AppendMode) -> (r:
        Result<(), MapPropertyError>)
        requires
            old(self)@.error is None ==> set_fits(old(self)@, key@, append),
        ensures
            ({
                let m = old(self)@;
                let v = ValueModel::VideoFrame(frame@);
                if m.error is Some {
                    &&& r matches Err(e) && e@ == PropertyErrorModel::MapError(m.error->0)
                    &&& final(self)@ == m
                } else if set_ok(m, key@, v, append) {
                    &&& r is Ok
                    &&& final(self)@ == spec_set(m, key@, v, append)
                } else {
                    &&& r matches Err(e) && e@ == PropertyErrorModel::InvalidType
                    &&& final(self)@ == m
                }
            }),
    {
        self.set(key, Value::VideoFrame(frame), append)
    }

    /// Transfers ownership of a function into the map; the map becomes the
    /// owner of that reference.
    pub fn consume_function(&mut self, key: &KeyStr, function: Function, append: AppendMode) -> (r:
        Result<(), MapPropertyError>)
        requires
            old(self)@.error is None ==> set_fits(old(self)@, key@, append),
        ensures
            ({
                let m = old(self)@;
                let v = ValueModel::Function(function@);
                if m.error is Some {
                    &&& r matches Err(e) && e@ == PropertyErrorModel::MapError(m.error->0)
                    &&& final(self)@ == m
                } else if set_ok(m, key@, v, append) {
                    &&& r is Ok
                    &&& final(self)@ == spec_set(m, key@, v, append)
                } else {
                    &&& r matches Err(e) && e@ == PropertyErrorModel::InvalidType
                    &&& final(self)@ == m
                }
            }),
    {
        self.set(key, Value::Function(function), append)
    }
    /// A duplicate of this map: the same keys, tags, values and error
    /// state. Every handle value is duplicated into a fresh reference, so
    /// the core only gains references.
    pub fn duplicate(&self, core: &mut Core) -> (r: VsMap)
        ensures
            r@ == self@,
            crate::vscore::core_only_gained_refs(old(core)@, final(core)@),
    {
        proof {
            use_type_invariant(self);
            crate::vscore::lemma_gained_refs_refl(old(core)@);
        }
        let mut entries: Vec<MapEntry> = Vec::new();
        let mut i: usize = 0;
        let len = self.entries.len();
        proof {
            assert(Seq::new(entries@.len(), |x: int| (entries@[x].key@, entries@[x].vals@))
                =~= self@.entries.take(0));
        }
        while i < len
            invariant
                i <= len,
                len == self.entries@.len(),
                len == self@.entries.len(),
                self@.wf(),
                forall|j: int|
                    0 <= j < len ==> (#[trigger] self@.entries[j]) == (
                        self.entries@[j].key@,
                        self.entries@[j].vals@,
                    ),
                Seq::new(entries@.len(), |x: int| (entries@[x].key@, entries@[x].vals@))
                    =~= self@.entries.take(i as int),
                crate::vscore::core_only_gained_refs(old(core)@, core@),
            decreases len - i,
        {
            let e = &self.entries[i];
            let ghost cpre = core@;
            let vals = e.vals.duplicate(core);
            proof {
                crate::vscore::lemma_gained_refs_trans(old(core)@, cpre, core@);
            }
            let ghost pre = entries@;
            entries.push(MapEntry { key: e.key.duplicate(), vals });
            proof {
                assert(Seq::new(pre.len(), |x: int| (pre[x].key@, pre[x].vals@)).len()
                    == self@.entries.take(i as int).len());
                assert(self@.entries.take(i as int).len() == i as int);
                assert(entries@.len() == i + 1);
                assert((entries@[i as int].key@, entries@[i as int].vals@)
                    == self@.entries[i as int]);
                assert(Seq::new(entries@.len(), |x: int| (entries@[x].key@, entries@[x].vals@))
                    =~= self@.entries.take(i as int + 1));
            }
            i = i + 1;
        }
        let error = match &self.error {
            Some(msg) => Some(msg.clone()),
            None => None,
        };
        let r = VsMap { entries, error };
        proof {
            assert(self@.entries.take(len as int) =~= self@.entries);
            assert(r@.entries =~= self@.entries);
        }
        r
    }
}

impl Default for VsMap {
    /// An empty map.
    fn default() -> (r: VsMap)
        ensures
            r@ == MapModel::empty(),
    {
        VsMap::new()
    }
}

/// After a value is stored under a key, that key's entry holds exactly the
/// given values; nothing else of the map changes.
proof fn lemma_set_values_at(m: MapModel, k: Seq<char>, vs: ValuesModel)
    requires
        m.unique_keys(),
    ensures
        ({
            let m1 = spec_set_values(m, k, vs);
            &&& m1.has_key(k)
            &&& m1.key_index(k) == (if m.has_key(k) {
                m.key_index(k)
            } else {
                m.entries.len() as int
            })
            &&& m1.values_of(k) == vs
            &&& m1.error == m.error
            &&& m1.unique_keys()
        }),
{
    let m1 = spec_set_values(m, k, vs);
    if m.has_key(k) {
        let idx = m.key_index(k);
        assert(m1.entries[idx].0 == k);
        assert(m1.has_key(k));
        let j = m1.key_index(k);
        assert(0 <= j < m1.entries.len() && m1.entries[j].0 == k);
        if j != idx {
            assert(m1.entries[j] == m.entries[j]);
            assert(m.entries[j].0 != m.entries[idx].0);
        }
        assert forall|a: int, b: int|
            0 <= a < b < m1.entries.len() implies (#[trigger] m1.entries[a]).0 != (
        #[trigger] m1.entries[b]).0 by {
            assert(m.entries[a].0 != m.entries[b].0);
            if a != idx && b != idx {
                assert(m1.entries[a] == m.entries[a]);
                assert(m1.entries[b] == m.entries[b]);
            }
        }
    } else {
        let idx = m.entries.len() as int;
        assert(m1.entries[idx].0 == k);
        assert(m1.has_key(k));
        let j = m1.key_index(k);
        assert(0 <= j < m1.entries.len() && m1.entries[j].0 == k);
        if j != idx {
            assert(m1.entries[j] == m.entries[j]);
            assert(m.has_key(k));
        }
        assert forall|a: int, b: int|
            0 <= a < b < m1.entries.len() implies (#[trigger] m1.entries[a]).0 != (
        #[trigger] m1.entries[b]).0 by {
            if b < idx {
                assert(m.entries[a].0 != m.entries[b].0);
            } else {
                assert(m1.entries[a] == m.entries[a]);
                if m1.entries[a].0 == k {
                    assert(m.has_key(k));
                }
            }
        }
    }
}

/// Map round trip: storing a value under a key with `Replace` and reading
/// index zero back under the same key gives the value unchanged —
/// bit-exact for numeric tags, element-exact for byte and text tags.
pub proof fn lemma_map_round_trip(m: MapModel, k: Seq<char>, v: ValueModel)
    requires
        m.wf(),
        m.error is None,
    ensures
        spec_get(spec_set(m, k, v, VSMapAppendMode::Replace), k, 0) == Ok::<
            ValueModel,
            PropertyErrorModel,
        >(v),
{
    lemma_set_values_at(m, k, singleton_values(v));
}

/// Map append: after `Replace` by one value and `Append` of a second value
/// of the same tag under one key, the key holds exactly two values and the
/// one at index one is the appended value, unchanged. Appending a value of
/// another tag is refused.
pub proof fn lemma_map_append(m: MapModel, k: Seq<char>, v1: ValueModel, v2: ValueModel)
    requires
        m.wf(),
        m.error is None,
    ensures
        ({
            let m1 = spec_set(m, k, v1, VSMapAppendMode::Replace);
            let m2 = spec_set(m1, k, v2, VSMapAppendMode::Append);
            &&& tag_of(v1) == tag_of(v2) ==> {
                &&& set_ok(m1, k, v2, VSMapAppendMode::Append)
                &&& spec_num_elements(m2, k) == Ok::<int, PropertyErrorModel>(2)
                &&& spec_get(m2, k, 1) == Ok::<ValueModel, PropertyErrorModel>(v2)
            }
            &&& tag_of(v1) != tag_of(v2) ==> !set_ok(m1, k, v2, VSMapAppendMode::Append)
        }),
{
    let m1 = spec_set(m, k, v1, VSMapAppendMode::Replace);
    lemma_set_values_at(m, k, singleton_values(v1));
    if tag_of(v1) == tag_of(v2) {
        lemma_set_values_at(m1, k, values_push(singleton_values(v1), v2));
    }
}

/// Map poisoning: after an error is set, every read on every key answers
/// the sticky error and `get_error` carries the message; clearing restores
/// normal (empty-map) operation.
pub proof fn lemma_map_poisoning(m: MapModel, msg: Seq<char>, k: Seq<char>, i: int)
    ensures
        ({
            let p = spec_set_error(m, msg);
            &&& spec_get(p, k, i) == Err::<ValueModel, PropertyErrorModel>(
                PropertyErrorModel::MapError(msg),
            )
            &&& p.error == Some(msg)
            &&& spec_get(MapModel::empty(), k, i) == Err::<ValueModel, PropertyErrorModel>(
                PropertyErrorModel::KeyNotFound,
            )
        }),
{
}

} // verus!
