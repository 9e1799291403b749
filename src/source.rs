//! Source identities: where a unit of source text came from.
use vstd::prelude::*;

verus! {

/// A source baked into the program: its logical path in the bundle and its
/// bytes.
#[derive(Hash, PartialEq, Eq, Debug)]
pub struct SourceEmbed {
    pub path: String,
    pub data: Vec<u8>,
}

impl SourceEmbed {
    pub fn new(path: String, data: Vec<u8>) -> (r: Self)
        ensures
            r.path@ == path@,
            r.data@ == data@,
    {
        SourceEmbed { path, data }
    }

    pub fn duplicate(&self) -> (r: Self)
        ensures
            r.path@ == self.path@,
            r.data@ == self.data@,
    {
        let data = self.data.clone();
        assert(data@ =~= self.data@);
        SourceEmbed { path: self.path.clone(), data }
    }
}

/// The identity of a source. A physical path is held in canonical form, so
/// two references to one file give equal identities.
#[derive(Hash, PartialEq, Eq, Debug)]
pub enum SourceId {
    /// No referencing source: the start of an evaluation.
    Default,
    /// A regular file, by canonical absolute path.
    File(String),
    /// A directory, by canonical absolute path.
    Directory(String),
    /// Source text held only in memory, identified by itself.
    Virtual(String),
    /// An asset of the compiled-in bundle.
    Embed(SourceEmbed),
}

/// What a `SourceId` denotes.
pub enum SourceModel {
    Default,
    File(Seq<char>),
    Directory(Seq<char>),
    Virtual(Seq<char>),
    Embed(Seq<char>, Seq<u8>),
}

impl View for SourceId {
    type V = SourceModel;

    open spec fn view(&self) -> SourceModel {
        match self {
            SourceId::Default => SourceModel::Default,
            SourceId::File(p) => SourceModel::File(p@),
            SourceId::Directory(p) => SourceModel::Directory(p@),
            SourceId::Virtual(s) => SourceModel::Virtual(s@),
            SourceId::Embed(e) => SourceModel::Embed(e.path@, e.data@),
        }
    }
}

impl SourceId {
    /// Whether this is the "no referencing source" sentinel.
    pub fn is_default(&self) -> (r: bool)
        ensures
            r == (self is Default),
    {
        match self {
            SourceId::Default => true,
            _ => false,
        }
    }

    /// The filesystem path, present only for physical sources.
    pub fn path(&self) -> (r: Option<&String>)
        ensures
            match self {
                SourceId::File(p) => r == Some(p),
                SourceId::Directory(p) => r == Some(p),
                _ => r is None,
            },
    {
        match self {
            SourceId::File(p) => Some(p),
            SourceId::Directory(p) => Some(p),
            _ => None,
        }
    }

    /// A copy of this identity.
    pub fn duplicate(&self) -> (r: Self)
        ensures
            r@ == self@,
    {
        match self {
            SourceId::Default => SourceId::Default,
            SourceId::File(p) => SourceId::File(p.clone()),
            SourceId::Directory(p) => SourceId::Directory(p.clone()),
            SourceId::Virtual(s) => SourceId::Virtual(s.clone()),
            SourceId::Embed(e) => SourceId::Embed(e.duplicate()),
        }
    }
}

/// Where a lookup is made from, as a resolution hook sees it.
#[derive(Debug)]
pub enum FromSource {
    /// From an in-memory or bundled source: the key of the referencing source.
    Virtual(String),
    /// From a directory of the filesystem.
    Physical(String),
}

pub enum FromModel {
    Virtual(Seq<char>),
    Physical(Seq<char>),
}

impl View for FromSource {
    type V = FromModel;

    open spec fn view(&self) -> FromModel {
        match self {
            FromSource::Virtual(s) => FromModel::Virtual(s@),
            FromSource::Physical(d) => FromModel::Physical(d@),
        }
    }
}

/// Why an import could not be resolved or loaded.
#[derive(PartialEq, Eq, Debug)]
pub enum ResolveError {
    /// A relative lookup found nothing: the referencing source and the path.
    ImportFileNotFound(SourceId, String),
    /// An absolute path that does not exist.
    AbsoluteImportFileNotFound(String),
    /// Contents were asked of a directory.
    ImportIsADirectory(SourceId),
    /// A resolved file was gone when its bytes were asked for.
    ResolvedFileNotFound(SourceId),
    /// A failure of the operating system, with its message.
    ImportIo(String),
}

pub enum ErrorModel {
    ImportFileNotFound(SourceModel, Seq<char>),
    AbsoluteImportFileNotFound(Seq<char>),
    ImportIsADirectory(SourceModel),
    ResolvedFileNotFound(SourceModel),
    ImportIo(Seq<char>),
}

impl View for ResolveError {
    type V = ErrorModel;

    open spec fn view(&self) -> ErrorModel {
        match self {
            ResolveError::ImportFileNotFound(s, p) => ErrorModel::ImportFileNotFound(s@, p@),
            ResolveError::AbsoluteImportFileNotFound(p) => ErrorModel::AbsoluteImportFileNotFound(
                p@,
            ),
            ResolveError::ImportIsADirectory(s) => ErrorModel::ImportIsADirectory(s@),
            ResolveError::ResolvedFileNotFound(s) => ErrorModel::ResolvedFileNotFound(s@),
            ResolveError::ImportIo(m) => ErrorModel::ImportIo(m@),
        }
    }
}

impl ResolveError {
    pub fn duplicate(&self) -> (r: Self)
        ensures
            r@ == self@,
    {
        match self {
            ResolveError::ImportFileNotFound(s, p) => ResolveError::ImportFileNotFound(
                s.duplicate(),
                p.clone(),
            ),
            ResolveError::AbsoluteImportFileNotFound(p) => ResolveError::AbsoluteImportFileNotFound(
                p.clone(),
            ),
            ResolveError::ImportIsADirectory(s) => ResolveError::ImportIsADirectory(s.duplicate()),
            ResolveError::ResolvedFileNotFound(s) => ResolveError::ResolvedFileNotFound(
                s.duplicate(),
            ),
            ResolveError::ImportIo(m) => ResolveError::ImportIo(m.clone()),
        }
    }
}

/// The model of a resolution result.
pub open spec fn result_view(r: Result<SourceId, ResolveError>) -> Result<SourceModel, ErrorModel> {
    match r {
        Ok(s) => Ok(s@),
        Err(e) => Err(e@),
    }
}

} // verus!
