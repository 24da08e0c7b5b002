//! The font catalog: every face of every font file, in the order in which
//! the files were found, under an index that never changes.
//!
//! Building the catalog parses each file for its faces and keeps what
//! describes them. The bytes of a face are not kept then: they are asked for
//! when the face is first used, held from then on, and never replaced. The
//! face parsed from them is kept beside them, so that the compiler gets the
//! same shared face on every lookup and nothing is read or parsed twice.

use vstd::prelude::*;
use vstd::string::*;

use crate::bytes::{copy_bytes, optional_bytes, seen};

verus! {

/// Whether a face is upright, italic or slanted.
#[derive(Clone, Copy, Debug, PartialEq, Eq, Structural)]
pub enum FontStyle {
    Normal,
    Italic,
    Oblique,
}

/// Why the catalog could not be built.
#[derive(Clone, Copy, Debug, PartialEq, Eq, Structural)]
pub enum FontCatalogError {
    /// The configured font source could not be read.
    SourceUnreadable,
}

/// Why a face or its bytes were not handed out.
#[derive(Clone, Copy, Debug, PartialEq, Eq, Structural)]
pub enum FontLoadError {
    /// No face has this index.
    IndexOutOfRange,
    /// The bytes of the face could not be had.
    LoadFailed,
}

/// What distinguishes a face: its family, its style and its weight, from
/// 100 (thin) to 900 (black).
#[derive(Debug)]
pub struct FontDescriptor {
    pub family: String,
    pub style: FontStyle,
    pub weight: u16,
}

/// What a descriptor stands for.
pub ghost struct DescriptorModel {
    pub family: Seq<char>,
    pub style: FontStyle,
    pub weight: u16,
}

impl View for FontDescriptor {
    type V = DescriptorModel;

    open spec fn view(&self) -> DescriptorModel {
        DescriptorModel { family: self.family@, style: self.style, weight: self.weight }
    }
}

impl FontDescriptor {
    /// A copy of the descriptor.
    pub fn duplicate(&self) -> (copy: FontDescriptor)
        ensures
            copy@ == self@,
    {
        FontDescriptor { family: self.family.clone(), style: self.style, weight: self.weight }
    }
}

/// One face found in a font file: its number within the file, and what
/// describes it.
#[derive(Debug)]
pub struct FontFace {
    pub number: u32,
    pub descriptor: FontDescriptor,
}

/// What a face found in a file stands for.
pub ghost struct FaceModel {
    pub number: u32,
    pub descriptor: DescriptorModel,
}

impl View for FontFace {
    type V = FaceModel;

    open spec fn view(&self) -> FaceModel {
        FaceModel { number: self.number, descriptor: self.descriptor@ }
    }
}

/// A font file as it was found: where, and what it holds.
#[derive(Debug)]
pub struct FontSource {
    pub path: String,
    pub data: Vec<u8>,
}

/// What a font file stands for.
pub ghost struct SourceModel {
    pub path: Seq<char>,
    pub data: Seq<u8>,
}

impl View for FontSource {
    type V = SourceModel;

    open spec fn view(&self) -> SourceModel {
        SourceModel { path: self.path@, data: self.data@ }
    }
}

/// What the catalog holds of one face: the file it came from, its number in
/// that file, what describes it, and its bytes once they were asked for.
pub ghost struct RecordModel {
    pub path: Seq<char>,
    pub number: u32,
    pub descriptor: DescriptorModel,
    pub bytes: Option<Seq<u8>>,
}

/// What the catalog decides when the bytes of a face are asked for.
pub ghost enum Demanded {
    /// The bytes are not handed out.
    Fail(FontLoadError),
    /// The bytes are held already.
    Cached(Seq<u8>),
    /// The file at this path is to be loaded.
    Load(Seq<char>),
}

/// The faces that `typst::text::Font::iter` yields for `data`, in its order,
/// each with its number in the file, its family, style and weight. What they
/// are is for the parser to say: nothing is known of them here but that the
/// same data have the same faces.
pub uninterp spec fn font_faces(data: Seq<u8>) -> Seq<FaceModel>;

/// Declares `typst::text::Font`, a parsed face as the compiler takes it.
/// Nothing is known of what it holds.
#[verifier::external_type_specification]
#[verifier::external_body]
pub struct ExFont(typst::text::Font);

/// What `typst::text::Font::new` makes of `data` and the number of a face in
/// them: the parsed face, or nothing where the data hold no such face. What it
/// is, is for the parser to say: nothing is known of it here but that the same
/// data and number give the same.
pub uninterp spec fn parsed_font(data: Seq<u8>, number: u32) -> Option<typst::text::Font>;

/// The views of a run of faces.
pub open spec fn face_models(faces: Seq<FontFace>) -> Seq<FaceModel> {
    faces.map_values(|face: FontFace| face@)
}

/// The views of a run of font files.
pub open spec fn source_models(sources: Seq<FontSource>) -> Seq<SourceModel> {
    sources.map_values(|source: FontSource| source@)
}

/// The records that one font file gives rise to: one for each face found in
/// it, in order, with no bytes yet.
pub open spec fn records_of(source: SourceModel) -> Seq<RecordModel> {
    font_faces(source.data).map_values(
        |face: FaceModel|
            RecordModel {
                path: source.path,
                number: face.number,
                descriptor: face.descriptor,
                bytes: None,
            },
    )
}

/// The records of a catalog built from `sources`: those of the first file,
/// then those of the second, and so on.
pub open spec fn built(sources: Seq<SourceModel>) -> Seq<RecordModel>
    decreases sources.len(),
{
    if sources.len() == 0 {
        Seq::empty()
    } else {
        built(sources.drop_last()) + records_of(sources.last())
    }
}

/// What describes each face of a catalog, by index.
pub open spec fn descriptors(records: Seq<RecordModel>) -> Seq<DescriptorModel> {
    records.map_values(|record: RecordModel| record.descriptor)
}

/// What the catalog decides when the bytes of face `index` are asked for.
pub open spec fn demanded(records: Seq<RecordModel>, index: int) -> Demanded {
    if !(0 <= index < records.len()) {
        Demanded::Fail(FontLoadError::IndexOutOfRange)
    } else {
        match records[index].bytes {
            Some(bytes) => Demanded::Cached(bytes),
            None => Demanded::Load(records[index].path),
        }
    }
}

/// What the catalog holds and answers once a load for face `index` has come
/// back with `loaded`. Bytes that are held win over bytes that come in.
pub open spec fn supplied(records: Seq<RecordModel>, index: int, loaded: Option<Seq<u8>>) -> (
    Seq<RecordModel>,
    Result<Seq<u8>, FontLoadError>,
) {
    if !(0 <= index < records.len()) {
        (records, Err(FontLoadError::IndexOutOfRange))
    } else {
        match (records[index].bytes, loaded) {
            (Some(held), _) => (records, Ok(held)),
            (None, Some(bytes)) => (
                records.update(
                    index,
                    RecordModel {
                        path: records[index].path,
                        number: records[index].number,
                        descriptor: records[index].descriptor,
                        bytes: Some(bytes),
                    },
                ),
                Ok(bytes),
            ),
            (None, None) => (records, Err(FontLoadError::LoadFailed)),
        }
    }
}

/// Whether `after` and `answer` are what a demand for the bytes of face
/// `index` may leave and give, from `before` and with `load` to do the
/// loading.
///
/// Where the bytes are to be loaded, `load` was called once, with the path
/// of the face's file, and state and answer are what `supplied` makes of what
/// it returned. In every other case the answer is the one that `demanded`
/// gives, and nothing changes.
pub open spec fn delivery<F: FnOnce(String) -> Option<Vec<u8>>>(
    before: Seq<RecordModel>,
    index: int,
    load: F,
    after: Seq<RecordModel>,
    answer: Result<Seq<u8>, FontLoadError>,
) -> bool {
    match demanded(before, index) {
        Demanded::Fail(error) => after == before && answer == Err::<Seq<u8>, FontLoadError>(error),
        Demanded::Cached(bytes) => after == before && answer == Ok::<Seq<u8>, FontLoadError>(
            bytes,
        ),
        Demanded::Load(at) => exists|path: String, loaded: Option<Vec<u8>>|
            {
                &&& path@ == at
                &&& #[trigger] call_ensures(load, (path,), loaded)
                &&& (after, answer) == supplied(before, index, optional_bytes(loaded))
            },
    }
}

/// The parsed face number `number` of `bytes`, or `LoadFailed` where the
/// bytes hold no such face.
pub open spec fn parsed(bytes: Seq<u8>, number: u32) -> Result<typst::text::Font, FontLoadError> {
    match parsed_font(bytes, number) {
        Some(font) => Ok(font),
        None => Err(FontLoadError::LoadFailed),
    }
}

/// Whether `after` and `answer` are what a demand for the parsed face
/// `index` may leave and give: state and bytes are those of a demand for its
/// bytes, and the answer is the face parsed from them, or the error that kept
/// the bytes back.
pub open spec fn font_delivery<F: FnOnce(String) -> Option<Vec<u8>>>(
    before: Seq<RecordModel>,
    index: int,
    load: F,
    after: Seq<RecordModel>,
    answer: Result<typst::text::Font, FontLoadError>,
) -> bool {
    exists|found: Result<Seq<u8>, FontLoadError>|
        {
            &&& #[trigger] delivery(before, index, load, after, found)
            &&& answer == match found {
                Ok(bytes) => parsed(bytes, before[index].number),
                Err(error) => Err::<typst::text::Font, FontLoadError>(error),
            }
        }
}

/// Whether `load` may be called for whatever a demand for the bytes of face
/// `index` from `before` has to load: the file the face came from.
pub open spec fn may_load<F: FnOnce(String) -> Option<Vec<u8>>>(
    before: Seq<RecordModel>,
    index: int,
    load: F,
) -> bool {
    forall|path: String|
        demanded(before, index) == Demanded::Load(path@) ==> #[trigger] call_requires(
            load,
            (path,),
        )
}

/// Once the bytes of a face were handed out, they are handed out again,
/// byte for byte, on every later demand: from the cache, with no load, and
/// whatever a load would return changes neither them nor the catalog.
pub proof fn lemma_bytes_stay(
    records: Seq<RecordModel>,
    index: int,
    first: Option<Seq<u8>>,
    second: Option<Seq<u8>>,
)
    requires
        supplied(records, index, first).1 is Ok,
    ensures
        ({
            let (after, answer) = supplied(records, index, first);
            &&& demanded(after, index) == Demanded::Cached(answer->Ok_0)
            &&& supplied(after, index, second) == (after, answer)
        }),
{
}

/// Once the bytes of a face were handed out, every later demand for the
/// parsed face gives the face parsed from those bytes: the same one each
/// time, whatever a load would return.
pub proof fn lemma_font_stays(
    records: Seq<RecordModel>,
    index: int,
    first: Option<Seq<u8>>,
    second: Option<Seq<u8>>,
)
    requires
        supplied(records, index, first).1 is Ok,
    ensures
        ({
            let (after, answer) = supplied(records, index, first);
            let (later, again) = supplied(after, index, second);
            &&& again is Ok
            &&& parsed(again->Ok_0, later[index].number) == parsed(
                answer->Ok_0,
                records[index].number,
            )
        }),
{
}

/// Handing out the bytes of one face leaves those of every other face as
/// they were.
pub proof fn lemma_other_faces_untouched(
    records: Seq<RecordModel>,
    index: int,
    loaded: Option<Seq<u8>>,
    other: int,
)
    requires
        other != index,
    ensures
        demanded(supplied(records, index, loaded).0, other) == demanded(records, other),
{
}

/// The number of faces and what describes each never change once the
/// catalog is built: a demand for bytes leaves file, number and descriptor of
/// every face, and so every index, as they were.
pub proof fn lemma_index_is_stable(records: Seq<RecordModel>, index: int, loaded: Option<Seq<u8>>)
    ensures
        ({
            let after = supplied(records, index, loaded).0;
            &&& after.len() == records.len()
            &&& descriptors(after) == descriptors(records)
            &&& forall|i: int|
                0 <= i < records.len() ==> (#[trigger] after[i]).path == records[i].path
                    && after[i].number == records[i].number
        }),
{
    let after = supplied(records, index, loaded).0;
    assert(descriptors(after) =~= descriptors(records));
}

/// A catalog built from more files begins with the catalog built from the
/// first of them: faces get their index in the order of discovery.
pub proof fn lemma_built_in_order(sources: Seq<SourceModel>, first: int)
    requires
        0 <= first <= sources.len(),
    ensures
        built(sources.take(first)).len() <= built(sources).len(),
        built(sources.take(first)) == built(sources).take(built(sources.take(first)).len() as int),
    decreases sources.len() - first,
{
    if first < sources.len() {
        assert(sources.take(first + 1).drop_last() =~= sources.take(first));
        lemma_built_in_order(sources, first + 1);
        let shorter = built(sources.take(first));
        let longer = built(sources.take(first + 1));
        assert(shorter =~= longer.take(shorter.len() as int));
        assert(longer.take(shorter.len() as int) =~= built(sources).take(longer.len() as int).take(
            shorter.len() as int,
        ));
        assert(built(sources).take(longer.len() as int).take(shorter.len() as int) =~= built(
            sources,
        ).take(shorter.len() as int));
    } else {
        assert(sources.take(first) =~= sources);
        assert(built(sources).take(built(sources).len() as int) =~= built(sources));
    }
}

/// One face of the catalog. Beside its bytes it keeps the face parsed from
/// them, once that was asked for, so that no face is parsed twice; every
/// value of this type keeps a parsed face only with the bytes it came from.
#[derive(Debug)]
pub struct FontRecord {
    path: String,
    number: u32,
    descriptor: FontDescriptor,
    bytes: Option<Vec<u8>>,
    font: Option<typst::text::Font>,
}

impl View for FontRecord {
    type V = RecordModel;

    closed spec fn view(&self) -> RecordModel {
        RecordModel {
            path: self.path@,
            number: self.number,
            descriptor: self.descriptor@,
            bytes: match self.bytes {
                Some(bytes) => Some(bytes@),
                None => None,
            },
        }
    }
}

impl FontRecord {
    #[verifier::type_invariant]
    spec fn font_is_of_bytes(self) -> bool {
        self.font matches Some(font) ==> self.bytes is Some && parsed_font(
            self.bytes->0@,
            self.number,
        ) == Some(font)
    }

    /// The file the face came from.
    pub fn path(&self) -> (path: &String)
        ensures
            path@ == self@.path,
    {
        &self.path
    }

    /// The number of the face within its file.
    pub fn number(&self) -> (number: u32)
        ensures
            number == self@.number,
    {
        self.number
    }

    /// What describes the face.
    pub fn descriptor(&self) -> (descriptor: &FontDescriptor)
        ensures
            descriptor@ == self@.descriptor,
    {
        &self.descriptor
    }
}

/// What the catalog decides when the bytes of a face are asked for.
#[derive(Debug)]
pub enum Demand {
    /// The bytes are not handed out.
    Fail(FontLoadError),
    /// The bytes are held already.
    Cached(Vec<u8>),
    /// The file at this path is to be loaded, and what came back handed to
    /// `FontCatalog::supply`.
    Load(String),
}

impl View for Demand {
    type V = Demanded;

    open spec fn view(&self) -> Demanded {
        match self {
            Demand::Fail(error) => Demanded::Fail(*error),
            Demand::Cached(bytes) => Demanded::Cached(bytes@),
            Demand::Load(path) => Demanded::Load(path@),
        }
    }
}

/// The faces of all font files, each under a fixed index.
#[derive(Debug)]
pub struct FontCatalog {
    records: Vec<FontRecord>,
}

impl View for FontCatalog {
    type V = Seq<RecordModel>;

    closed spec fn view(&self) -> Seq<RecordModel> {
        self.records@.map_values(|record: FontRecord| record@)
    }
}

impl FontCatalog {
    /// Builds the catalog from the font files that a scan found, in the order
    /// in which it found them; `None` says that the configured source could
    /// not be read, and is the only way to fail.
    ///
    /// Each file is parsed for its faces, and each face gets the next index.
    /// A file in which no face is found adds nothing; a catalog with no face
    /// at all is a catalog. No bytes are held yet.
    pub fn build(scanned: Option<Vec<FontSource>>) -> (catalog: Result<
        FontCatalog,
        FontCatalogError,
    >)
        ensures
            match scanned {
                Some(sources) => catalog is Ok && catalog->Ok_0@ == built(
                    source_models(sources@),
                ),
                None => catalog is Err && catalog->Err_0 == FontCatalogError::SourceUnreadable,
            },
    {
        let sources = match scanned {
            Some(sources) => sources,
            None => {
                return Err(FontCatalogError::SourceUnreadable);
            },
        };
        let mut catalog = FontCatalog { records: Vec::new() };
        let mut i: usize = 0;
        assert(source_models(sources@).take(0) =~= Seq::<SourceModel>::empty());
        assert(catalog@ =~= Seq::<RecordModel>::empty());
        while i < sources.len()
            invariant
                i <= sources.len(),
                catalog@ == built(source_models(sources@).take(i as int)),
            decreases sources.len() - i,
        {
            let source = &sources[i];
            let faces = parse_faces(&source.data);
            let ghost before = catalog@;
            let ghost expected = records_of(source@);
            let mut j: usize = 0;
            assert(expected.take(0) =~= Seq::<RecordModel>::empty());
            assert(before + expected.take(0) =~= before);
            while j < faces.len()
                invariant
                    j <= faces.len(),
                    face_models(faces@) == font_faces(source@.data),
                    expected == records_of(source@),
                    catalog@ == before + expected.take(j as int),
                decreases faces.len() - j,
            {
                let face = &faces[j];
                let record = FontRecord {
                    path: source.path.clone(),
                    number: face.number,
                    descriptor: face.descriptor.duplicate(),
                    bytes: None,
                    font: None,
                };
                proof {
                    assert(face_models(faces@)[j as int] == face@);
                    assert(record@ == expected[j as int]);
                }
                let ghost held = catalog@;
                catalog.records.push(record);
                proof {
                    assert(catalog@ =~= held.push(record@));
                    assert(expected.take(j + 1) =~= expected.take(j as int).push(
                        expected[j as int],
                    ));
                    assert(before + expected.take(j + 1) =~= (before + expected.take(
                        j as int,
                    )).push(expected[j as int]));
                }
                j = j + 1;
            }
            proof {
                let models = source_models(sources@);
                assert(expected.take(faces.len() as int) =~= expected);
                assert(models.take(i + 1).drop_last() =~= models.take(i as int));
                assert(models.take(i + 1).last() == source@);
            }
            i = i + 1;
        }
        assert(source_models(sources@).take(sources.len() as int) =~= source_models(sources@));
        Ok(catalog)
    }

    /// The number of faces.
    pub fn descriptor_count(&self) -> (count: usize)
        ensures
            count == self@.len(),
    {
        self.records.len()
    }

    /// What describes face `index`, or `IndexOutOfRange` where there is no
    /// such face.
    pub fn descriptor_at(&self, index: usize) -> (found: Result<&FontDescriptor, FontLoadError>)
        ensures
            index < self@.len() ==> found is Ok && found->Ok_0@ == self@[index as int].descriptor,
            index >= self@.len() ==> found is Err && found->Err_0
                == FontLoadError::IndexOutOfRange,
    {
        if index < self.records.len() {
            Ok(&self.records[index].descriptor)
        } else {
            Err(FontLoadError::IndexOutOfRange)
        }
    }

    /// Face `index` as the catalog holds it, or `IndexOutOfRange`.
    pub fn record_at(&self, index: usize) -> (found: Result<&FontRecord, FontLoadError>)
        ensures
            index < self@.len() ==> found is Ok && found->Ok_0@ == self@[index as int],
            index >= self@.len() ==> found is Err && found->Err_0
                == FontLoadError::IndexOutOfRange,
    {
        if index < self.records.len() {
            Ok(&self.records[index])
        } else {
            Err(FontLoadError::IndexOutOfRange)
        }
    }

    /// Decides what is to be done for the bytes of face `index`: nothing,
    /// because there is no such face; nothing, because they are held; or a
    /// load of the file the face came from.
    pub fn demand(&self, index: usize) -> (demand: Demand)
        ensures
            demand@ == demanded(self@, index as int),
    {
        if index >= self.records.len() {
            return Demand::Fail(FontLoadError::IndexOutOfRange);
        }
        match &self.records[index].bytes {
            Some(bytes) => Demand::Cached(copy_bytes(bytes)),
            None => Demand::Load(self.records[index].path.clone()),
        }
    }

    /// Takes what a load for face `index` came back with, and answers.
    ///
    /// Bytes that are held for the face are the answer, whatever came back:
    /// of two loads of one face the first wins. Otherwise bytes that came back
    /// are held from now on and are the answer, and a failed load fails with
    /// `LoadFailed` and leaves the catalog as it was.
    pub fn supply(&mut self, index: usize, loaded: Option<Vec<u8>>) -> (answer: Result<
        Vec<u8>,
        FontLoadError,
    >)
        ensures
            (final(self)@, seen(answer)) == supplied(
                old(self)@,
                index as int,
                optional_bytes(loaded),
            ),
    {
        if index >= self.records.len() {
            return Err(FontLoadError::IndexOutOfRange);
        }
        match &self.records[index].bytes {
            Some(bytes) => {
                return Ok(copy_bytes(bytes));
            },
            None => {},
        }
        match loaded {
            Some(bytes) => {
                let answer = copy_bytes(&bytes);
                let record = FontRecord {
                    path: self.records[index].path.clone(),
                    number: self.records[index].number,
                    descriptor: self.records[index].descriptor.duplicate(),
                    bytes: Some(bytes),
                    font: None,
                };
                self.records.set(index, record);
                assert(self@ =~= old(self)@.update(index as int, record@));
                Ok(answer)
            },
            None => Err(FontLoadError::LoadFailed),
        }
    }

    /// The bytes of face `index`.
    ///
    /// `load` is called at most once, and only where `demanded` says `Load`:
    /// with the path of the file the face came from, for a face whose bytes
    /// are not held. The answer and the new state are then what `supplied`
    /// makes of what it returned. In every other case the answer is the
    /// demand's, and nothing changes.
    pub fn bytes_at<F>(&mut self, index: usize, load: F) -> (answer: Result<
        Vec<u8>,
        FontLoadError,
    >) where F: FnOnce(String) -> Option<Vec<u8>>
        requires
            may_load(old(self)@, index as int, load),
        ensures
            delivery(old(self)@, index as int, load, final(self)@, seen(answer)),
    {
        match self.demand(index) {
            Demand::Fail(error) => Err(error),
            Demand::Cached(bytes) => Ok(bytes),
            Demand::Load(path) => {
                let ghost asked = path;
                let loaded = load(path);
                let ghost came = loaded;
                let answer = self.supply(index, loaded);
                assert(asked@ == demanded(old(self)@, index as int)->Load_0 && call_ensures(
                    load,
                    (asked,),
                    came,
                ) && (self@, seen(answer)) == supplied(
                    old(self)@,
                    index as int,
                    optional_bytes(came),
                ));
                answer
            },
        }
    }

    /// The parsed face `index`, as the compiler takes it.
    ///
    /// The bytes are those that `bytes_at` would hand out, loaded through
    /// `load` where they are not held, and held from then on. The face is
    /// parsed from them once and kept; every later demand is answered with
    /// the same face, with neither a load nor a parse. Bytes that hold no such
    /// face fail with `LoadFailed`.
    pub fn font_at<F>(&mut self, index: usize, load: F) -> (answer: Result<
        typst::text::Font,
        FontLoadError,
    >) where F: FnOnce(String) -> Option<Vec<u8>>
        requires
            may_load(old(self)@, index as int, load),
        ensures
            font_delivery(old(self)@, index as int, load, final(self)@, answer),
    {
        if index >= self.records.len() {
            assert(delivery(
                old(self)@,
                index as int,
                load,
                self@,
                Err::<Seq<u8>, FontLoadError>(FontLoadError::IndexOutOfRange),
            ));
            return Err(FontLoadError::IndexOutOfRange);
        }
        let record = &self.records[index];
        proof {
            use_type_invariant(record);
        }
        let number = record.number;
        match &record.font {
            Some(font) => {
                let answer = share_font(font);
                assert(delivery(
                    old(self)@,
                    index as int,
                    load,
                    self@,
                    Ok::<Seq<u8>, FontLoadError>(record.bytes->0@),
                ));
                return Ok(answer);
            },
            None => {},
        }
        match &record.bytes {
            Some(bytes) => {
                let ghost held = bytes@;
                let found = parse_font(bytes, number);
                let answer = match &found {
                    Some(font) => Ok(share_font(font)),
                    None => Err(FontLoadError::LoadFailed),
                };
                let kept = FontRecord {
                    path: record.path.clone(),
                    number,
                    descriptor: record.descriptor.duplicate(),
                    bytes: Some(copy_bytes(bytes)),
                    font: found,
                };
                self.records.set(index, kept);
                proof {
                    assert(self@ =~= old(self)@);
                    assert(delivery(
                        old(self)@,
                        index as int,
                        load,
                        self@,
                        Ok::<Seq<u8>, FontLoadError>(held),
                    ));
                }
                answer
            },
            None => {
                let path = record.path.clone();
                let ghost asked = path;
                let loaded = load(path);
                let ghost came = loaded;
                match loaded {
                    Some(data) => {
                        let found = parse_font(&data, number);
                        let answer = match &found {
                            Some(font) => Ok(share_font(font)),
                            None => Err(FontLoadError::LoadFailed),
                        };
                        let kept = FontRecord {
                            path: self.records[index].path.clone(),
                            number,
                            descriptor: self.records[index].descriptor.duplicate(),
                            bytes: Some(data),
                            font: found,
                        };
                        self.records.set(index, kept);
                        proof {
                            assert(self@ =~= old(self)@.update(index as int, kept@));
                            assert(asked@ == demanded(old(self)@, index as int)->Load_0
                                && call_ensures(load, (asked,), came) && (
                                self@,
                                Ok::<Seq<u8>, FontLoadError>(data@),
                            ) == supplied(old(self)@, index as int, optional_bytes(came)));
                            assert(delivery(
                                old(self)@,
                                index as int,
                                load,
                                self@,
                                Ok::<Seq<u8>, FontLoadError>(data@),
                            ));
                        }
                        answer
                    },
                    None => {
                        proof {
                            assert(asked@ == demanded(old(self)@, index as int)->Load_0
                                && call_ensures(load, (asked,), came) && (
                                self@,
                                Err::<Seq<u8>, FontLoadError>(FontLoadError::LoadFailed),
                            ) == supplied(old(self)@, index as int, optional_bytes(came)));
                            assert(delivery(
                                old(self)@,
                                index as int,
                                load,
                                self@,
                                Err::<Seq<u8>, FontLoadError>(FontLoadError::LoadFailed),
                            ));
                        }
                        Err(FontLoadError::LoadFailed)
                    },
                }
            },
        }
    }
}

/// Parses `data` through `typst::text::Font::iter` and describes each face
/// that it yields, in its order: number, family, style and weight as the
/// face's `FontInfo` has them. The contract names the result `font_faces` and
/// claims nothing more of it.
#[verifier::external_body]
fn parse_faces(data: &Vec<u8>) -> (faces: Vec<FontFace>)
    ensures
        face_models(faces@) == font_faces(data@),
{
    let fonts = typst::text::Font::iter(typst::foundations::Bytes::new(data.clone()));
    fonts.map(|font| {
        let style = match font.info().variant.style {
            typst::text::FontStyle::Normal => FontStyle::Normal,
            typst::text::FontStyle::Italic => FontStyle::Italic,
            typst::text::FontStyle::Oblique => FontStyle::Oblique,
        };
        let weight = font.info().variant.weight.to_number();
        let descriptor = FontDescriptor { family: font.info().family.clone(), style, weight };
        FontFace { number: font.index(), descriptor }
    }).collect()
}

/// Parses face `number` of `data` through `typst::text::Font::new`. The
/// contract names the result `parsed_font` and claims nothing more of it.
#[verifier::external_body]
fn parse_font(data: &Vec<u8>, number: u32) -> (font: Option<typst::text::Font>)
    ensures
        font == parsed_font(data@, number),
{
    typst::text::Font::new(typst::foundations::Bytes::new(data.clone()), number)
}

/// Another handle to the same parsed face, through `Clone::clone` of
/// `typst::text::Font`: the face itself is shared, not copied.
#[verifier::external_body]
fn share_font(font: &typst::text::Font) -> (shared: typst::text::Font)
    ensures
        shared == *font,
{
    font.clone()
}

} // verus!
