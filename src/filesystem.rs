//! The filesystem resolver, as steps. Each step decides from what is known so
//! far and names the next operation that the host performs on the filesystem;
//! the host feeds the answer to the next step.
use vstd::prelude::*;
use vstd::string::*;
use vstd::utf8::encode_utf8;
use crate::paths::{join, join_spec, parent, parent_spec};
use crate::source::{
    ErrorModel, FromModel, FromSource, ResolveError, SourceId, SourceModel, result_view,
};

verus! {

/// Whether a path names a regular file or a directory.
#[derive(PartialEq, Eq, Structural, Clone, Copy, Debug)]
pub enum Kind {
    File,
    Directory,
}

/// What a resolution needs next.
#[derive(Debug)]
pub enum Step {
    /// Resolution is over.
    Done(Result<SourceId, ResolveError>),
    /// Feed the process's current directory.
    CurrentDir,
    /// Offer the lookup to the resolution hook.
    AskHook(FromSource, String),
    /// Tell whether this path is a regular file.
    CheckFile(String),
    /// Look up this path's metadata.
    Metadata(String),
    /// Canonicalize this path, which is of this kind.
    Canonicalize(String, Kind),
}

pub enum StepModel {
    Done(Result<SourceModel, ErrorModel>),
    CurrentDir,
    AskHook(FromModel, Seq<char>),
    CheckFile(Seq<char>),
    Metadata(Seq<char>),
    Canonicalize(Seq<char>, Kind),
}

impl View for Step {
    type V = StepModel;

    open spec fn view(&self) -> StepModel {
        match self {
            Step::Done(r) => StepModel::Done(result_view(*r)),
            Step::CurrentDir => StepModel::CurrentDir,
            Step::AskHook(f, p) => StepModel::AskHook(f@, p@),
            Step::CheckFile(p) => StepModel::CheckFile(p@),
            Step::Metadata(p) => StepModel::Metadata(p@),
            Step::Canonicalize(p, k) => StepModel::Canonicalize(p@, *k),
        }
    }
}

/// What the filesystem reported of a path's metadata.
#[derive(Debug)]
pub enum MetaAnswer {
    File,
    Directory,
    NotFound,
    Failed(String),
}

/// What reading a file gave.
#[derive(Debug)]
pub enum ReadOutcome {
    Bytes(Vec<u8>),
    /// The file could not be opened.
    NotOpened,
    /// Reading failed, with the system's message.
    Failed(String),
}

/// What loading a source needs next.
#[derive(Debug)]
pub enum LoadStep {
    Done(Result<Vec<u8>, ResolveError>),
    /// Read the file at this path.
    ReadFile(String),
}

pub enum LoadModel {
    Done(Result<Seq<u8>, ErrorModel>),
    ReadFile(Seq<char>),
}

impl View for LoadStep {
    type V = LoadModel;

    open spec fn view(&self) -> LoadModel {
        match self {
            LoadStep::Done(Ok(b)) => LoadModel::Done(Ok(b@)),
            LoadStep::Done(Err(e)) => LoadModel::Done(Err(e@)),
            LoadStep::ReadFile(p) => LoadModel::ReadFile(p@),
        }
    }
}

/// The error of a relative lookup that found nothing.
pub open spec fn not_found(from: SourceModel, path: Seq<char>) -> StepModel {
    StepModel::Done(Err(ErrorModel::ImportFileNotFound(from, path)))
}

/// The directory that a relative lookup from a physical source starts in.
pub open spec fn base_dir(from: SourceModel) -> Option<Seq<char>> {
    match from {
        SourceModel::File(p) => Some(parent_spec(p)),
        SourceModel::Directory(d) => Some(d),
        _ => None,
    }
}

/// The first step of a relative lookup: join onto the base directory, ask
/// for the working directory, or fail for a source with no physical place.
pub open spec fn resolve_from_spec(from: SourceModel, path: Seq<char>) -> StepModel {
    match base_dir(from) {
        Some(d) => StepModel::CheckFile(join_spec(d, path)),
        None => if from is Default {
            StepModel::CurrentDir
        } else {
            not_found(from, path)
        },
    }
}

/// A relative lookup from a base directory: check the joined path.
pub open spec fn from_base_spec(base: Seq<char>, path: Seq<char>) -> StepModel {
    StepModel::CheckFile(join_spec(base, path))
}

pub open spec fn file_checked_spec(
    from: SourceModel,
    path: Seq<char>,
    candidate: Seq<char>,
    is_file: bool,
) -> StepModel {
    if is_file {
        StepModel::Canonicalize(candidate, Kind::File)
    } else {
        not_found(from, path)
    }
}

pub open spec fn canonical_spec(kind: Kind, canon: Result<Seq<char>, Seq<char>>) -> Result<
    SourceModel,
    ErrorModel,
> {
    match canon {
        Ok(c) => Ok(
            match kind {
                Kind::File => SourceModel::File(c),
                Kind::Directory => SourceModel::Directory(c),
            },
        ),
        Err(m) => Err(ErrorModel::ImportIo(m)),
    }
}

pub open spec fn string_result(r: Result<String, String>) -> Result<Seq<char>, Seq<char>> {
    match r {
        Ok(s) => Ok(s@),
        Err(m) => Err(m@),
    }
}

/// Starts a relative lookup of `path` from `from`.
pub fn resolve_from(from: &SourceId, path: &str) -> (r: Step)
    ensures
        r@ == resolve_from_spec(from@, path@),
{
    match from {
        SourceId::File(p) => {
            let dir = parent(p.as_str());
            Step::CheckFile(join(dir.as_str(), path))
        },
        SourceId::Directory(d) => Step::CheckFile(join(d.as_str(), path)),
        SourceId::Default => Step::CurrentDir,
        _ => Step::Done(Err(ResolveError::ImportFileNotFound(from.duplicate(), path.to_owned()))),
    }
}

/// Starts a lookup of `path` relative to no source.
pub fn resolve_from_default(path: &str) -> (r: Step)
    ensures
        r@ == resolve_from_spec(SourceModel::Default, path@),
        r@ == StepModel::CurrentDir,
{
    resolve_from(&SourceId::Default, path)
}

/// Goes on with a relative lookup once the working directory is known.
pub fn resolve_from_cwd(path: &str, cwd: Result<String, String>) -> (r: Step)
    ensures
        match string_result(cwd) {
            Ok(d) => r@ == from_base_spec(d, path@),
            Err(m) => r@ == StepModel::Done(Err(ErrorModel::ImportIo(m))),
        },
{
    match cwd {
        Ok(d) => Step::CheckFile(join(d.as_str(), path)),
        Err(m) => Step::Done(Err(ResolveError::ImportIo(m))),
    }
}

/// Goes on with a relative lookup once it is known whether the candidate
/// path is a regular file.
pub fn file_checked(from: &SourceId, path: &str, candidate: String, is_file: bool) -> (r: Step)
    ensures
        r@ == file_checked_spec(from@, path@, candidate@, is_file),
{
    if is_file {
        Step::Canonicalize(candidate, Kind::File)
    } else {
        Step::Done(Err(ResolveError::ImportFileNotFound(from.duplicate(), path.to_owned())))
    }
}

/// Starts the lookup of an absolute path: its metadata is needed.
pub fn resolve(path: &str) -> (r: Step)
    ensures
        r@ == StepModel::Metadata(path@),
{
    Step::Metadata(path.to_owned())
}

/// Goes on with an absolute lookup once the path's metadata is known.
pub fn metadata_known(path: &str, meta: MetaAnswer) -> (r: Step)
    ensures
        match meta {
            MetaAnswer::File => r@ == StepModel::Canonicalize(path@, Kind::File),
            MetaAnswer::Directory => r@ == StepModel::Canonicalize(path@, Kind::Directory),
            MetaAnswer::NotFound => r@ == StepModel::Done(
                Err(ErrorModel::AbsoluteImportFileNotFound(path@)),
            ),
            MetaAnswer::Failed(m) => r@ == StepModel::Done(Err(ErrorModel::ImportIo(m@))),
        },
{
    match meta {
        MetaAnswer::File => Step::Canonicalize(path.to_owned(), Kind::File),
        MetaAnswer::Directory => Step::Canonicalize(path.to_owned(), Kind::Directory),
        MetaAnswer::NotFound => Step::Done(
            Err(ResolveError::AbsoluteImportFileNotFound(path.to_owned())),
        ),
        MetaAnswer::Failed(m) => Step::Done(Err(ResolveError::ImportIo(m))),
    }
}

/// Ends a lookup with the canonical form of the found path.
pub fn canonicalized(kind: Kind, canon: Result<String, String>) -> (r: Result<
    SourceId,
    ResolveError,
>)
    ensures
        result_view(r) == canonical_spec(kind, string_result(canon)),
{
    match canon {
        Ok(c) => match kind {
            Kind::File => Ok(SourceId::File(c)),
            Kind::Directory => Ok(SourceId::Directory(c)),
        },
        Err(m) => Err(ResolveError::ImportIo(m)),
    }
}

/// How the contents of a source are had, before any reading.
pub open spec fn load_spec(id: SourceModel) -> LoadModel {
    match id {
        SourceModel::File(p) => LoadModel::ReadFile(p),
        SourceModel::Virtual(s) => LoadModel::Done(Ok(encode_utf8(s))),
        SourceModel::Embed(_, data) => LoadModel::Done(Ok(data)),
        _ => LoadModel::Done(Err(ErrorModel::ImportIsADirectory(id))),
    }
}

/// A directory, or no source at all, never gives contents: loading it fails
/// with the directory error naming it.
pub proof fn lemma_directory_load_rejected(id: SourceModel)
    requires
        id is Directory || id is Default,
    ensures
        load_spec(id) == LoadModel::Done(Err(ErrorModel::ImportIsADirectory(id))),
{
}

/// Starts loading the contents of `id`: a file is to be read; in-memory and
/// bundled sources give their bytes; a directory or no source is refused.
pub fn load_file_contents(id: &SourceId) -> (r: LoadStep)
    ensures
        r@ == load_spec(id@),
{
    match id {
        SourceId::File(p) => LoadStep::ReadFile(p.clone()),
        SourceId::Virtual(s) => LoadStep::Done(Ok(s.as_str().as_bytes_vec())),
        SourceId::Embed(e) => {
            let data = e.data.clone();
            assert(data@ =~= e.data@);
            LoadStep::Done(Ok(data))
        },
        _ => LoadStep::Done(Err(ResolveError::ImportIsADirectory(id.duplicate()))),
    }
}

/// Ends loading a file once it has been read.
pub fn file_read(id: &SourceId, outcome: ReadOutcome) -> (r: Result<Vec<u8>, ResolveError>)
    ensures
        match outcome {
            ReadOutcome::Bytes(b) => r is Ok && r->Ok_0@ == b@,
            ReadOutcome::NotOpened => r is Err && r->Err_0@ == ErrorModel::ResolvedFileNotFound(
                id@,
            ),
            ReadOutcome::Failed(m) => r is Err && r->Err_0@ == ErrorModel::ImportIo(m@),
        },
{
    match outcome {
        ReadOutcome::Bytes(b) => Ok(b),
        ReadOutcome::NotOpened => Err(ResolveError::ResolvedFileNotFound(id.duplicate())),
        ReadOutcome::Failed(m) => Err(ResolveError::ImportIo(m)),
    }
}

} // verus!
