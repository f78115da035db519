//! What the host and a module tell each other: descriptions, arguments,
//! records and results.

use vstd::prelude::*;
use vstd::std_specs::convert::TryFromSpecImpl;
use crate::ffi::types::buffer::ByteBuffer;
use crate::ffi::types::collections::{Array, Pairs, StringMap, lemma_map_of_push, map_of};
use crate::ffi::types::std_types::{CharString, MarshalError, Uint};
use crate::ffi::types::traits::ShallowCopy;
use crate::ffi::utils::strings::{cchar_to_string, lossy_text, marshal_text, str_to_cchar};

verus! {

/// The number by which the host knows one configured instance of a module.
pub type ModuleHandle = Uint;

/// What a library of modules is for.
#[derive(Clone, Copy, PartialEq, Eq, Structural, Debug)]
pub enum ModuleKind {
    /// Extracts, transforms or loads the data of a pipeline.
    Pipeline,
    /// Reacts to the events of the application.
    Listener,
}

/// How a library describes itself.
#[derive(Debug)]
pub struct LibInfo {
    pub api_version: Uint,
    pub id: CharString,
    pub kind: ModuleKind,
    pub name: CharString,
}

impl Clone for LibInfo {
    /// A description of its own that says the same.
    fn clone(&self) -> (copy: Self)
        ensures
            copy.api_version == self.api_version,
            copy.id@ == self.id@,
            copy.kind == self.kind,
            copy.name@ == self.name@,
    {
        LibInfo {
            api_version: self.api_version,
            id: self.id.clone(),
            kind: self.kind,
            name: self.name.clone(),
        }
    }
}

/// The place of a step in its pipeline.
#[derive(Clone, Copy, PartialEq, Eq, Structural, Debug)]
pub enum PipelineModuleKind {
    /// Produces the data itself; takes none from another step.
    Source,
    /// Takes data from the step before and hands its result to the step
    /// after.
    Transformation,
    /// Takes data and hands none on.
    Destination,
}

/// What every library is given when it is initialised. `T` is the callback
/// by which a step tells the host that it has terminated; it is called with
/// the step's handle.
#[derive(Debug)]
pub struct LibCommonInitArgs<T> {
    pub on_step_terminate_cb: T,
}

impl<T: Copy> Copy for LibCommonInitArgs<T> {
}

impl<T: Copy> Clone for LibCommonInitArgs<T> {
    fn clone(&self) -> (copy: Self)
        ensures
            copy == *self,
    {
        *self
    }
}

/// What a pipeline library is given when it is initialised. `D` is the
/// callback by which a step hands a record back to the host; it is called
/// with the step's handle and the record.
#[derive(Debug)]
pub struct LibPipelineInitArgs<T, D> {
    pub common: LibCommonInitArgs<T>,
    pub on_data_receive_cb: D,
}

impl<T: Copy, D: Copy> Copy for LibPipelineInitArgs<T, D> {
}

impl<T: Copy, D: Copy> Clone for LibPipelineInitArgs<T, D> {
    fn clone(&self) -> (copy: Self)
        ensures
            copy == *self,
    {
        *self
    }
}

/// What a listener library is given when it is initialised.
#[derive(Debug)]
pub struct LibListenerInitArgs<T> {
    pub common: LibCommonInitArgs<T>,
}

impl<T: Copy> Copy for LibListenerInitArgs<T> {
}

impl<T: Copy> Clone for LibListenerInitArgs<T> {
    fn clone(&self) -> (copy: Self)
        ensures
            copy == *self,
    {
        *self
    }
}

/// What a listener module is configured with.
#[derive(Clone, Copy, PartialEq, Eq, Structural, Debug)]
pub struct ModuleListenerConfigureArgs {
    pub module_handle: ModuleHandle,
}

/// What a pipeline module is configured with.
#[derive(Clone, Copy, PartialEq, Eq, Structural, Debug)]
pub struct ModulePipelineConfigureArgs {
    pub kind: PipelineModuleKind,
    pub module_handle: ModuleHandle,
}

/// One entry of a record's metadata: a name and a value, both boundary
/// texts.
#[derive(Debug)]
pub struct RecordMetadata {
    pub name: CharString,
    pub value: CharString,
}

impl View for RecordMetadata {
    type V = (Seq<u8>, Seq<u8>);

    open spec fn view(&self) -> (Seq<u8>, Seq<u8>) {
        (self.name@, self.value@)
    }
}

impl Clone for RecordMetadata {
    /// An entry of its own with the same name and value.
    fn clone(&self) -> (copy: Self)
        ensures
            copy@ == self@,
    {
        RecordMetadata { name: self.name.clone(), value: self.value.clone() }
    }
}

/// The boundary form of a name and a value. The name is looked at first.
pub open spec fn marshal_pair(pair: (Seq<char>, Seq<char>)) -> Result<
    (Seq<u8>, Seq<u8>),
    MarshalError,
> {
    match marshal_text(pair.0) {
        Err(e) => Err(e),
        Ok(name) => match marshal_text(pair.1) {
            Err(e) => Err(e),
            Ok(value) => Ok((name, value)),
        },
    }
}

impl RecordMetadata {
    /// The entry of a name and a value that are host texts.
    pub fn from_texts(name: &str, value: &str) -> (made: Result<RecordMetadata, MarshalError>)
        ensures
            made matches Ok(entry) ==> marshal_pair((name@, value@)) == Ok::<
                (Seq<u8>, Seq<u8>),
                MarshalError,
            >(entry@),
            made matches Err(e) ==> marshal_pair((name@, value@)) == Err::<
                (Seq<u8>, Seq<u8>),
                MarshalError,
            >(e),
    {
        let name = match str_to_cchar(name) {
            Ok(name) => name,
            Err(e) => {
                return Err(e);
            },
        };
        match str_to_cchar(value) {
            Ok(value) => Ok(RecordMetadata { name, value }),
            Err(e) => Err(e),
        }
    }
}

impl TryFrom<(String, String)> for RecordMetadata {
    type Error = MarshalError;

    /// The entry of a pair of a name and a value that are host texts.
    fn try_from(value: (String, String)) -> (made: Result<Self, MarshalError>)
        ensures
            made matches Ok(entry) ==> marshal_pair((value.0@, value.1@)) == Ok::<
                (Seq<u8>, Seq<u8>),
                MarshalError,
            >(entry@),
            made matches Err(e) ==> marshal_pair((value.0@, value.1@)) == Err::<
                (Seq<u8>, Seq<u8>),
                MarshalError,
            >(e),
    {
        RecordMetadata::from_texts(value.0.as_str(), value.1.as_str())
    }
}

impl TryFromSpecImpl<(String, String)> for RecordMetadata {
    open spec fn obeys_try_from_spec() -> bool {
        false
    }

    open spec fn try_from_spec(value: (String, String)) -> Result<Self, MarshalError> {
        arbitrary()
    }
}

/// The entries of a record's metadata, as pairs of a name's and a value's
/// bytes.
pub type MetadataView = Seq<(Seq<u8>, Seq<u8>)>;

/// The boundary form of pairs of host texts, in their order. The first text
/// that has no boundary form gives the error.
pub open spec fn marshal_pairs(pairs: Pairs) -> Result<MetadataView, MarshalError>
    decreases pairs.len(),
{
    if pairs.len() == 0 {
        Ok(Seq::empty())
    } else {
        match marshal_pairs(pairs.drop_last()) {
            Err(e) => Err(e),
            Ok(front) => match marshal_pair(pairs.last()) {
                Err(e) => Err(e),
                Ok(entry) => Ok(front.push(entry)),
            },
        }
    }
}

/// The host texts that metadata entries read as, in their order.
pub open spec fn unmarshal_pairs(metadata: MetadataView) -> Pairs {
    metadata.map_values(|entry: (Seq<u8>, Seq<u8>)| (lossy_text(entry.0), lossy_text(entry.1)))
}

/// Pairs have a boundary form where each of their texts has one, and then
/// it holds each text's bytes at the text's place.
pub proof fn lemma_marshal_pairs(pairs: Pairs)
    ensures
        marshal_pairs(pairs) is Ok <==> forall|i: int|
            0 <= i < pairs.len() ==> #[trigger] marshal_pair(pairs[i]) is Ok,
        marshal_pairs(pairs) matches Ok(metadata) ==> metadata.len() == pairs.len()
            && forall|i: int|
            0 <= i < pairs.len() ==> marshal_pair(pairs[i]) == Ok::<
                (Seq<u8>, Seq<u8>),
                MarshalError,
            >(#[trigger] metadata[i]),
    decreases pairs.len(),
{
    if pairs.len() > 0 {
        let front = pairs.drop_last();
        lemma_marshal_pairs(front);
        assert forall|i: int| 0 <= i < front.len() implies front[i] == pairs[i] by {}
        if marshal_pairs(pairs) is Ok {
            assert forall|i: int| 0 <= i < pairs.len() implies #[trigger] marshal_pair(
                pairs[i],
            ) is Ok by {
                if i < front.len() {
                    assert(marshal_pair(front[i]) is Ok);
                }
            }
        }
        if forall|i: int| 0 <= i < pairs.len() ==> #[trigger] marshal_pair(pairs[i]) is Ok {
            assert forall|i: int| 0 <= i < front.len() implies #[trigger] marshal_pair(
                front[i],
            ) is Ok by {
                assert(marshal_pair(pairs[i]) is Ok);
            }
            assert(marshal_pair(pairs[pairs.len() - 1]) is Ok);
        }
    }
}

/// Pairs that have a boundary form read back from it as themselves.
pub proof fn lemma_pairs_round_trip(pairs: Pairs)
    ensures
        marshal_pairs(pairs) matches Ok(metadata) ==> unmarshal_pairs(metadata) == pairs,
{
    lemma_marshal_pairs(pairs);
    if let Ok(metadata) = marshal_pairs(pairs) {
        assert forall|i: int| 0 <= i < pairs.len() implies unmarshal_pairs(metadata)[i]
            == pairs[i] by {
            assert(marshal_pair(pairs[i]) == Ok::<(Seq<u8>, Seq<u8>), MarshalError>(metadata[i]));
            crate::ffi::utils::strings::lemma_text_round_trip(pairs[i].0);
            crate::ffi::utils::strings::lemma_text_round_trip(pairs[i].1);
        }
        assert(unmarshal_pairs(metadata) =~= pairs);
    }
}

/// What a record holds: the bytes of its content, and its metadata.
pub struct RecordView {
    pub content: Seq<u8>,
    pub metadata: MetadataView,
}

/// The record of a content and of metadata that are the host's. There may
/// not be more metadata than a `Uint` counts, and each text of it must have
/// a boundary form.
pub open spec fn record_of(content: Seq<u8>, metadata: Pairs) -> Result<RecordView, MarshalError> {
    if metadata.len() > Uint::MAX {
        Err(MarshalError::TooManyItems(metadata.len() as usize))
    } else {
        match marshal_pairs(metadata) {
            Err(e) => Err(e),
            Ok(entries) => Ok(RecordView { content, metadata: entries }),
        }
    }
}

/// A record made of the host's containers gives them back: its content is
/// the content it was made of, byte for byte, and its metadata read as a
/// map is the map it was made of.
pub proof fn lemma_record_round_trip(content: Seq<u8>, metadata: Pairs)
    ensures
        record_of(content, metadata) matches Ok(record) ==> record.content == content
            && unmarshal_pairs(record.metadata) == metadata && map_of(
            unmarshal_pairs(record.metadata),
        ) == map_of(metadata),
{
    lemma_pairs_round_trip(metadata);
}

/// The unit of data that the stages of a pipeline hand to each other: a
/// content and the metadata that goes with it.
#[derive(Debug)]
pub struct Record {
    pub content: ByteBuffer,
    pub metadata: Array<RecordMetadata>,
}

impl View for Record {
    type V = RecordView;

    open spec fn view(&self) -> RecordView {
        RecordView {
            content: self.content@,
            metadata: self.metadata@.map_values(|entry: RecordMetadata| entry@),
        }
    }
}

impl Record {
    /// Makes a record of the host's own containers: the content's bytes, and
    /// the metadata as a map from names to values. The entries of the map
    /// become the metadata in the map's order.
    pub fn from_std_types(content: Vec<u8>, metadata: StringMap) -> (made: Result<
        Record,
        MarshalError,
    >)
        ensures
            made matches Ok(record) ==> record_of(content@, metadata.entries()) == Ok::<
                RecordView,
                MarshalError,
            >(record@),
            made matches Err(e) ==> record_of(content@, metadata.entries()) == Err::<
                RecordView,
                MarshalError,
            >(e),
    {
        let count: usize = metadata.len();
        if count > Uint::MAX as usize {
            return Err(MarshalError::TooManyItems(count));
        }
        let ghost pairs = metadata.entries();
        let mut entries: Vec<RecordMetadata> = Vec::new();
        let mut i: usize = 0;
        assert(entries@.map_values(|entry: RecordMetadata| entry@) =~= MetadataView::empty());
        while i < count
            invariant
                0 <= i <= count <= Uint::MAX,
                count == pairs.len(),
                pairs == metadata.entries(),
                marshal_pairs(pairs.take(i as int)) == Ok::<MetadataView, MarshalError>(
                    entries@.map_values(|entry: RecordMetadata| entry@),
                ),
                entries@.len() == i,
            decreases count - i,
        {
            let (name, value) = metadata.entry(i);
            let ghost done = entries@.map_values(|entry: RecordMetadata| entry@);
            let ghost next = pairs.take(i as int + 1);
            proof {
                assert(next.drop_last() =~= pairs.take(i as int));
                assert(next.last() == pairs[i as int]);
            }
            match RecordMetadata::from_texts(name.as_str(), value.as_str()) {
                Ok(entry) => {
                    entries.push(entry);
                    assert(entries@.map_values(|entry: RecordMetadata| entry@) =~= done.push(
                        entry@,
                    ));
                    assert(marshal_pairs(next) == Ok::<MetadataView, MarshalError>(
                        done.push(entry@),
                    ));
                },
                Err(e) => {
                    proof {
                        assert(marshal_pairs(next) == Err::<MetadataView, MarshalError>(e));
                        lemma_marshal_pairs_prefix_error(pairs, i as int + 1);
                    }
                    return Err(e);
                },
            }
            i += 1;
        }
        assert(pairs.take(count as int) =~= pairs);
        let record = Record { content: ByteBuffer::from(content), metadata: Array::from_vec(entries) };
        Ok(record)
    }

    /// The metadata as a map from names to values, each read as host text.
    /// Where a name occurs more than once, the map has the value of its last
    /// entry.
    pub fn get_metadata_as_hashmap(&self) -> (map: StringMap)
        ensures
            map@ == map_of(unmarshal_pairs(self@.metadata)),
    {
        let ghost pairs = unmarshal_pairs(self@.metadata);
        let mut map = StringMap::new();
        let count: Uint = self.metadata.len();
        let mut i: Uint = 0;
        while i < count
            invariant
                0 <= i <= count,
                count == self.metadata@.len(),
                pairs == unmarshal_pairs(self@.metadata),
                map@ == map_of(pairs.take(i as int)),
            decreases count - i,
        {
            let entry = self.metadata.get(i);
            let name = cchar_to_string(&entry.name);
            let value = cchar_to_string(&entry.value);
            proof {
                assert(pairs.take(i as int + 1) =~= pairs.take(i as int).push((name@, value@)));
                lemma_map_of_push(pairs.take(i as int), name@, value@);
            }
            map.insert(name, value);
            i += 1;
        }
        assert(pairs.take(count as int) =~= pairs);
        map
    }

    /// The number of bytes of the content.
    pub fn get_content_len(&self) -> (n: usize)
        ensures
            n == self@.content.len(),
    {
        self.content.len()
    }

    /// Lets go of the content and of the metadata: the record is empty
    /// afterwards.
    pub fn free_contents(&mut self)
        ensures
            final(self)@ == (RecordView { content: Seq::empty(), metadata: Seq::empty() }),
    {
        self.content.free_contents();
        self.metadata.free_contents();
        assert(self@.metadata =~= Seq::empty());
    }
}

/// Pairs of which a front part has no boundary form have none, for the same
/// reason.
pub proof fn lemma_marshal_pairs_prefix_error(pairs: Pairs, n: int)
    requires
        0 <= n <= pairs.len(),
        marshal_pairs(pairs.take(n)) is Err,
    ensures
        marshal_pairs(pairs) == marshal_pairs(pairs.take(n)),
    decreases pairs.len() - n,
{
    if n < pairs.len() {
        assert(pairs.take(n + 1).drop_last() =~= pairs.take(n));
        lemma_marshal_pairs_prefix_error(pairs, n + 1);
    } else {
        assert(pairs.take(n) =~= pairs);
    }
}

impl Clone for Record {
    /// A record with storage of its own, which holds the same content and
    /// metadata.
    fn clone(&self) -> (copy: Self)
        ensures
            copy@ == self@,
    {
        let count: Uint = self.metadata.len();
        let mut entries: Vec<RecordMetadata> = Vec::new();
        let mut i: Uint = 0;
        while i < count
            invariant
                0 <= i <= count,
                count == self.metadata@.len(),
                entries@.len() == i,
                forall|j: int| 0 <= j < i ==> (#[trigger] entries@[j])@ == self.metadata@[j]@,
            decreases count - i,
        {
            entries.push(self.metadata.get(i).clone());
            i += 1;
        }
        let copy = Record { content: self.content.clone(), metadata: Array::from_vec(entries) };
        assert(copy@.metadata =~= self@.metadata);
        copy
    }
}

impl ShallowCopy for Record {
    fn shallow_copy(&self) -> (copy: Self) {
        Record { content: self.content.shallow_copy(), metadata: self.metadata.shallow_copy() }
    }
}

/// How the configuration of a listener module ended.
#[derive(Debug)]
pub enum ModuleListenerConfigureFnResult {
    /// The module is configured.
    Success,
    /// It failed; the text says how.
    ErrorMisc(CharString),
}

/// How the configuration of a pipeline module ended.
#[derive(Debug)]
pub enum ModulePipelineConfigureFnResult {
    /// The module is configured.
    Success,
    /// The module cannot stand at the place in the pipeline that it was
    /// given.
    ErrorKindNotSupported,
    /// The module serves one step only and already serves the step with the
    /// given handle.
    ErrorMultipleStepsNotSupported(ModuleHandle),
    /// It failed; the text says how.
    ErrorMisc(CharString),
}

/// How the start of a step ended.
#[derive(Debug)]
pub enum StepStartFnResult {
    /// The step runs.
    Success,
    /// It failed; the text says how.
    ErrorMisc(CharString),
}

/// How handing a record to a step ended. The flag at the end of each
/// variant tells whether the step took the record: one that was not taken
/// is still its sender's to release.
#[derive(Debug)]
pub enum ModulePipelineProcessRecordFnResult {
    /// Nothing failed so far.
    Success(bool),
    /// No step is known by the given handle.
    ErrWrongModuleHandle(ModuleHandle, bool),
    /// The record could not be processed; the text says why.
    ErrMisc(CharString, bool),
}

impl ModulePipelineProcessRecordFnResult {
    /// Whether the step took the record.
    pub open spec fn consumed(self) -> bool {
        match self {
            ModulePipelineProcessRecordFnResult::Success(taken) => taken,
            ModulePipelineProcessRecordFnResult::ErrWrongModuleHandle(_, taken) => taken,
            ModulePipelineProcessRecordFnResult::ErrMisc(_, taken) => taken,
        }
    }
}

} // verus!
