//! The compilation environment: everything the compiler may ask for during
//! one compile, behind one value.
//!
//! Library, font catalog and file cache live as long as the process; the
//! main source is set for each compile. Every lookup has one answer for one
//! state, and changes only the part of the state it is about.

use vstd::prelude::*;
use vstd::string::*;

use crate::bytes::{optional_bytes, seen};
use crate::clock::{answers, offset_in_range, offset_or_utc, CivilDateTime, Clock, ClockError};
use crate::files::{
    completion, may_read, planned, resolution, text_resolution, FileKey, FileResolutionError,
    FileResolver, Plan, Planned, ReadFailure, ResolverModel, VirtualFileId,
};
use crate::fonts::{
    delivery, demanded, font_delivery, may_load, supplied, Demand, FontCatalog, FontDescriptor,
    FontLoadError, FontRecord, RecordModel,
};
use crate::paths::contained_in;
use crate::source::{MainSource, MainSourceHolder, NoMainSourceSet, SourceId};
use crate::text::shown;

verus! {

/// Declares `typst::Library`, the compiler's standard definitions. Nothing is
/// known of what it holds; it is made once and handed out by reference.
#[verifier::external_type_specification]
#[verifier::external_body]
pub struct ExLibrary(typst::Library);

/// Largest magnitude, in hours, that an offset from UTC may have: one day.
pub const MAX_OFFSET_HOURS: i64 = 24;

/// Why the text of a source was not handed out.
#[derive(Clone, Copy, Debug, PartialEq, Eq, Structural)]
pub enum SourceLookupError {
    /// The main source was asked for and none is set.
    NoMainSourceSet,
    /// An auxiliary file was asked for and not served.
    File(FileResolutionError),
}

/// What an environment holds, as far as lookups can tell: the standard
/// library, the faces of the font catalog, the file resolver with its cache,
/// and the main source. The clock holds nothing and has no part in it.
pub ghost struct EnvironmentModel {
    pub library: typst::Library,
    pub fonts: Seq<RecordModel>,
    pub files: ResolverModel,
    pub main: Option<Seq<char>>,
}

/// As many minutes as there are in `hours` hours, where `hours` is at most
/// `MAX_OFFSET_HOURS` either way.
pub open spec fn minutes_in(hours: i64) -> i64 {
    (hours * 60) as i64
}

/// The answer to a lookup of the main source.
pub open spec fn main_answer(environment: EnvironmentModel) -> Result<
    Seq<char>,
    SourceLookupError,
> {
    match environment.main {
        Some(text) => Ok(text),
        None => Err(SourceLookupError::NoMainSourceSet),
    }
}

/// The environment after the bytes of a file were looked up and the read
/// came back with `outcome`.
pub open spec fn after_file(
    environment: EnvironmentModel,
    key: FileKey,
    outcome: Result<Seq<u8>, ReadFailure>,
) -> EnvironmentModel {
    EnvironmentModel {
        library: environment.library,
        fonts: environment.fonts,
        files: completion(environment.files, key, outcome).0,
        main: environment.main,
    }
}

/// The environment after the bytes of a face were looked up and the load
/// came back with `loaded`.
pub open spec fn after_font(
    environment: EnvironmentModel,
    index: int,
    loaded: Option<Seq<u8>>,
) -> EnvironmentModel {
    EnvironmentModel {
        library: environment.library,
        fonts: supplied(environment.fonts, index, loaded).0,
        files: environment.files,
        main: environment.main,
    }
}

/// Compiles do not see each other's main source. Take two environments over
/// the same fonts and files, each with a main source of its own. Whatever
/// font or file either one looks up, each goes on to answer with its own main
/// source, and both get the same answer for the same font or file.
pub proof fn lemma_compiles_are_isolated(
    one: EnvironmentModel,
    other: EnvironmentModel,
    key: FileKey,
    outcome: Result<Seq<u8>, ReadFailure>,
    index: int,
    loaded: Option<Seq<u8>>,
)
    requires
        one.fonts == other.fonts,
        one.files == other.files,
    ensures
        main_answer(after_file(one, key, outcome)) == main_answer(one),
        main_answer(after_font(one, index, loaded)) == main_answer(one),
        main_answer(after_file(other, key, outcome)) == main_answer(other),
        main_answer(after_font(other, index, loaded)) == main_answer(other),
        completion(one.files, key, outcome) == completion(other.files, key, outcome),
        supplied(one.fonts, index, loaded) == supplied(other.fonts, index, loaded),
        after_file(one, key, outcome).fonts == one.fonts,
        after_font(one, index, loaded).files == one.files,
        after_file(one, key, outcome).library == one.library,
        after_font(one, index, loaded).library == one.library,
{
}

/// Everything the compiler may ask for during a compile.
pub struct CompilationEnvironment {
    library: typst::Library,
    fonts: FontCatalog,
    files: FileResolver,
    main: MainSourceHolder,
    clock: Clock,
}

impl View for CompilationEnvironment {
    type V = EnvironmentModel;

    closed spec fn view(&self) -> EnvironmentModel {
        EnvironmentModel {
            library: self.library,
            fonts: self.fonts@,
            files: self.files@,
            main: self.main@,
        }
    }
}

impl CompilationEnvironment {
    /// An environment with the standard library, the given font catalog, a
    /// resolver for the files below `root` that has read nothing, and no main
    /// source.
    pub fn new(root: String, fonts: FontCatalog) -> (environment: CompilationEnvironment)
        ensures
            environment@.fonts == fonts@,
            environment@.files == (ResolverModel { root: root@, cache: Map::empty() }),
            environment@.main is None,
    {
        CompilationEnvironment {
            library: standard_library(),
            fonts,
            files: FileResolver::new(root),
            main: MainSourceHolder::new(),
            clock: Clock,
        }
    }

    /// The compiler's standard definitions: made once, with the environment,
    /// and the same on every call, whatever was looked up or set between.
    pub fn library(&self) -> (library: &typst::Library)
        ensures
            *library == self@.library,
    {
        &self.library
    }

    /// The number of faces in the font catalog.
    pub fn font_count(&self) -> (count: usize)
        ensures
            count == self@.fonts.len(),
    {
        self.fonts.descriptor_count()
    }

    /// What describes face `index`, or `IndexOutOfRange`.
    pub fn font_descriptor(&self, index: usize) -> (found: Result<&FontDescriptor, FontLoadError>)
        ensures
            index < self@.fonts.len() ==> found is Ok && found->Ok_0@
                == self@.fonts[index as int].descriptor,
            index >= self@.fonts.len() ==> found is Err && found->Err_0
                == FontLoadError::IndexOutOfRange,
    {
        self.fonts.descriptor_at(index)
    }

    /// Face `index` as the catalog holds it, or `IndexOutOfRange`.
    pub fn font_record(&self, index: usize) -> (found: Result<&FontRecord, FontLoadError>)
        ensures
            index < self@.fonts.len() ==> found is Ok && found->Ok_0@ == self@.fonts[index as int],
            index >= self@.fonts.len() ==> found is Err && found->Err_0
                == FontLoadError::IndexOutOfRange,
    {
        self.fonts.record_at(index)
    }

    /// Decides what is to be done for the bytes of face `index`.
    pub fn font_demand(&self, index: usize) -> (demand: Demand)
        ensures
            demand@ == demanded(self@.fonts, index as int),
    {
        self.fonts.demand(index)
    }

    /// Takes what a load for face `index` came back with, and answers. Files
    /// and main source stay as they are.
    pub fn font_supply(&mut self, index: usize, loaded: Option<Vec<u8>>) -> (answer: Result<
        Vec<u8>,
        FontLoadError,
    >)
        ensures
            final(self)@ == after_font(old(self)@, index as int, optional_bytes(loaded)),
            seen(answer) == supplied(old(self)@.fonts, index as int, optional_bytes(loaded)).1,
    {
        self.fonts.supply(index, loaded)
    }

    /// The bytes of face `index`, loaded through `load` on the first demand
    /// and held from then on. Files and main source stay as they are.
    pub fn font_bytes<F>(&mut self, index: usize, load: F) -> (answer: Result<
        Vec<u8>,
        FontLoadError,
    >) where F: FnOnce(String) -> Option<Vec<u8>>
        requires
            may_load(old(self)@.fonts, index as int, load),
        ensures
            delivery(old(self)@.fonts, index as int, load, final(self)@.fonts, seen(answer)),
            final(self)@.library == old(self)@.library,
            final(self)@.files == old(self)@.files,
            final(self)@.main == old(self)@.main,
    {
        self.fonts.bytes_at(index, load)
    }

    /// The parsed face `index`, as the compiler takes it: parsed once from
    /// the bytes that `font_bytes` would hand out, and kept. Files and main
    /// source stay as they are.
    pub fn font<F>(&mut self, index: usize, load: F) -> (answer: Result<
        typst::text::Font,
        FontLoadError,
    >) where F: FnOnce(String) -> Option<Vec<u8>>
        requires
            may_load(old(self)@.fonts, index as int, load),
        ensures
            font_delivery(old(self)@.fonts, index as int, load, final(self)@.fonts, answer),
            final(self)@.library == old(self)@.library,
            final(self)@.files == old(self)@.files,
            final(self)@.main == old(self)@.main,
    {
        self.fonts.font_at(index, load)
    }

    /// Decides what is to be done for the bytes of the file `id`.
    pub fn file_plan(&self, id: &VirtualFileId) -> (plan: Plan)
        ensures
            plan@ == planned(self@.files, id@),
            plan@ matches Planned::Read(path) ==> contained_in(self@.files.root, path),
    {
        self.files.plan(id)
    }

    /// Takes what a read for the file `id` came back with, and answers. Fonts
    /// and main source stay as they are.
    pub fn file_complete(&mut self, id: VirtualFileId, outcome: Result<Vec<u8>, ReadFailure>) -> (answer:
        Result<Vec<u8>, FileResolutionError>)
        ensures
            final(self)@ == after_file(old(self)@, id@, seen(outcome)),
            seen(answer) == completion(old(self)@.files, id@, seen(outcome)).1,
    {
        self.files.complete(id, outcome)
    }

    /// The bytes of the file `id`, read through `read` on the first lookup
    /// and held from then on. Fonts and main source stay as they are.
    pub fn file<F>(&mut self, id: VirtualFileId, read: F) -> (answer: Result<
        Vec<u8>,
        FileResolutionError,
    >) where F: FnOnce(String) -> Result<Vec<u8>, ReadFailure>
        requires
            may_read(old(self)@.files, id@, read),
        ensures
            resolution(old(self)@.files, id@, read, final(self)@.files, seen(answer)),
            final(self)@.library == old(self)@.library,
            final(self)@.fonts == old(self)@.fonts,
            final(self)@.main == old(self)@.main,
    {
        self.files.resolve(id, read)
    }

    /// The text of a source. The main source is answered as `main_answer`
    /// says, with no read and no change. A file is resolved as text; fonts
    /// and main source stay as they are.
    pub fn source<F>(&mut self, id: SourceId, read: F) -> (answer: Result<
        String,
        SourceLookupError,
    >) where F: FnOnce(String) -> Result<Vec<u8>, ReadFailure>
        requires
            id matches SourceId::File(file) ==> may_read(old(self)@.files, file@, read),
        ensures
            final(self)@.library == old(self)@.library,
            final(self)@.fonts == old(self)@.fonts,
            final(self)@.main == old(self)@.main,
            match id {
                SourceId::Main => final(self)@ == old(self)@ && shown(answer) == main_answer(
                    old(self)@,
                ),
                SourceId::File(file) => exists|found: Result<Seq<char>, FileResolutionError>|
                    {
                        &&& #[trigger] text_resolution(
                            old(self)@.files,
                            file@,
                            read,
                            final(self)@.files,
                            found,
                        )
                        &&& shown(answer) == match found {
                            Ok(text) => Ok::<Seq<char>, SourceLookupError>(text),
                            Err(error) => Err::<Seq<char>, SourceLookupError>(
                                SourceLookupError::File(error),
                            ),
                        }
                    },
            },
    {
        match id {
            SourceId::Main => match self.main.current() {
                Ok(source) => Ok(source.text().clone()),
                Err(_) => Err(SourceLookupError::NoMainSourceSet),
            },
            SourceId::File(file) => {
                let ghost key = file@;
                let found = self.files.resolve_text(file, read);
                assert(text_resolution(old(self)@.files, key, read, self@.files, shown(found)));
                match found {
                    Ok(text) => Ok(text),
                    Err(error) => Err(SourceLookupError::File(error)),
                }
            },
        }
    }

    /// Sets the main source for the compile to come. Fonts and files stay as
    /// they are.
    pub fn set_main(&mut self, markup_text: String)
        ensures
            final(self)@ == (EnvironmentModel {
                library: old(self)@.library,
                fonts: old(self)@.fonts,
                files: old(self)@.files,
                main: Some(markup_text@),
            }),
    {
        self.main.set(markup_text);
    }

    /// Drops the main source, as after a compile has returned. Fonts and
    /// files stay as they are.
    pub fn clear_main(&mut self)
        ensures
            final(self)@ == (EnvironmentModel {
                library: old(self)@.library,
                fonts: old(self)@.fonts,
                files: old(self)@.files,
                main: None,
            }),
    {
        self.main.clear();
    }

    /// The main source, or `NoMainSourceSet`.
    pub fn main_source(&self) -> (found: Result<&MainSource, NoMainSourceSet>)
        ensures
            match self@.main {
                Some(text) => found is Ok && found->Ok_0@ == text,
                None => found is Err,
            },
    {
        self.main.current()
    }

    /// The current date and time at `offset` minutes from UTC, as the clock
    /// gives it.
    pub fn now(&self, offset: Option<i64>) -> (result: Result<CivilDateTime, ClockError>)
        ensures
            exists|reading: Option<u64>| answers(reading, offset, result),
            !offset_in_range(offset_or_utc(offset)) <==> result == Err::<
                CivilDateTime,
                ClockError,
            >(ClockError::InvalidOffset),
            result matches Ok(found) ==> found.is_valid(),
    {
        self.clock.now(offset)
    }

    /// The current date and time at `offset_hours` hours from UTC: the form
    /// in which the compiler asks. An offset beyond a day either way fails
    /// with `InvalidOffset`; every other one is answered as `now` answers
    /// sixty times as many minutes.
    pub fn today(&self, offset_hours: Option<i64>) -> (result: Result<CivilDateTime, ClockError>)
        ensures
            match offset_hours {
                Some(hours) if hours < -MAX_OFFSET_HOURS || hours > MAX_OFFSET_HOURS => result
                    == Err::<CivilDateTime, ClockError>(ClockError::InvalidOffset),
                Some(hours) => exists|reading: Option<u64>|
                    #[trigger] answers(reading, Some(minutes_in(hours)), result),
                None => exists|reading: Option<u64>| answers(reading, None, result),
            },
            result matches Ok(found) ==> found.is_valid(),
    {
        match offset_hours {
            Some(hours) => {
                if hours < -MAX_OFFSET_HOURS || hours > MAX_OFFSET_HOURS {
                    Err(ClockError::InvalidOffset)
                } else {
                    let minutes: i64 = hours * 60;
                    let result = self.clock.now(Some(minutes));
                    proof {
                        let reading = choose|reading: Option<u64>|
                            answers(reading, Some(minutes), result);
                        assert(answers(reading, Some(minutes_in(hours)), result));
                    }
                    result
                }
            },
            None => self.clock.now(None),
        }
    }
}

/// Makes the compiler's standard definitions through
/// `typst::Library::default`. Nothing is claimed of them.
#[verifier::external_body]
fn standard_library() -> (library: typst::Library) {
    typst::Library::default()
}

} // verus!
