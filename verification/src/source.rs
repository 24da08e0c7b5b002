//! The main source: the one text that a compile starts from.

use vstd::prelude::*;
use vstd::string::*;

use crate::files::VirtualFileId;

verus! {

/// The error of asking for the main source before any was set.
#[derive(Clone, Copy, Debug, PartialEq, Eq, Structural)]
pub struct NoMainSourceSet;

/// What a compile may ask the text of: the main source, or an auxiliary
/// file. The main source is a variant of its own, so no file identifier,
/// however it is spelled, can stand for it.
#[derive(Debug)]
pub enum SourceId {
    Main,
    File(VirtualFileId),
}

/// The markup that one compile starts from.
#[derive(Debug)]
pub struct MainSource {
    text: String,
}

impl View for MainSource {
    type V = Seq<char>;

    closed spec fn view(&self) -> Seq<char> {
        self.text@
    }
}

impl MainSource {
    /// The main source with this markup.
    pub fn new(text: String) -> (source: MainSource)
        ensures
            source@ == text@,
    {
        MainSource { text }
    }

    /// The markup.
    pub fn text(&self) -> (text: &String)
        ensures
            text@ == self@,
    {
        &self.text
    }

    /// The identifier under which the compiler knows the main source.
    pub fn id(&self) -> (id: SourceId)
        ensures
            id is Main,
    {
        SourceId::Main
    }
}

/// Holds the main source of one compile at a time.
#[derive(Debug)]
pub struct MainSourceHolder {
    current: Option<MainSource>,
}

impl View for MainSourceHolder {
    type V = Option<Seq<char>>;

    closed spec fn view(&self) -> Option<Seq<char>> {
        match self.current {
            Some(source) => Some(source@),
            None => None,
        }
    }
}

impl MainSourceHolder {
    /// A holder in which no source is set.
    pub fn new() -> (holder: MainSourceHolder)
        ensures
            holder@ is None,
    {
        MainSourceHolder { current: None }
    }

    /// Sets the main source, in place of the one before if there was one.
    pub fn set(&mut self, markup_text: String)
        ensures
            final(self)@ == Some(markup_text@),
    {
        self.current = Some(MainSource::new(markup_text));
    }

    /// The main source, or `NoMainSourceSet` before the first `set` and
    /// after a `clear`.
    pub fn current(&self) -> (found: Result<&MainSource, NoMainSourceSet>)
        ensures
            match self@ {
                Some(text) => found is Ok && found->Ok_0@ == text,
                None => found is Err,
            },
    {
        match &self.current {
            Some(source) => Ok(source),
            None => Err(NoMainSourceSet),
        }
    }

    /// Drops the main source, as after a compile has returned.
    pub fn clear(&mut self)
        ensures
            final(self)@ is None,
    {
        self.current = None;
    }
}

} // verus!
