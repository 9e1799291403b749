//! A resolver that offers every lookup to a user function (the hook) before
//! falling back to the filesystem.
use vstd::prelude::*;
use crate::filesystem::{
    LoadModel, LoadStep, Step, StepModel, base_dir, from_base_spec, load_file_contents as fs_load,
    load_spec, not_found, resolve_from_spec,
};
use crate::paths::{file_name, file_name_spec, join, parent, parent_spec};
use crate::source::{ErrorModel, FromModel, FromSource, ResolveError, SourceId, SourceModel};

verus! {

/// A resolver around a hook: a function that, given where a lookup is made
/// from and the requested path, may return a source, or nothing to defer.
pub struct FnImportResolver<F> {
    resolver: F,
}

/// The model of a hook's answer.
pub open spec fn answer_view(a: Result<Option<SourceId>, ResolveError>) -> Result<
    Option<SourceModel>,
    ErrorModel,
> {
    match a {
        Ok(Some(s)) => Ok(Some(s@)),
        Ok(None) => Ok(None),
        Err(e) => Err(e@),
    }
}

/// The first step of a relative lookup: a bundled source asks the hook with
/// its own key; a physical source asks it with its base directory.
pub open spec fn hook_resolve_from_spec(from: SourceModel, path: Seq<char>) -> StepModel {
    match from {
        SourceModel::Embed(key, _) => StepModel::AskHook(FromModel::Virtual(key), path),
        _ => match base_dir(from) {
            Some(d) => StepModel::AskHook(FromModel::Physical(d), path),
            None => if from is Default {
                StepModel::CurrentDir
            } else {
                not_found(from, path)
            },
        },
    }
}

/// After the hook answered a relative lookup: its source or its error stands;
/// where it declined, a physical lookup goes on in the filesystem and any
/// other fails.
pub open spec fn hook_answered_spec(
    from: SourceModel,
    path: Seq<char>,
    asked: FromModel,
    answer: Result<Option<SourceModel>, ErrorModel>,
) -> StepModel {
    match answer {
        Err(e) => StepModel::Done(Err(e)),
        Ok(Some(s)) => StepModel::Done(Ok(s)),
        Ok(None) => match asked {
            FromModel::Physical(d) => from_base_spec(d, path),
            FromModel::Virtual(_) => not_found(from, path),
        },
    }
}

/// The first step of an absolute lookup: the hook is asked for the file name
/// in the containing directory, where the path has a file name.
pub open spec fn hook_resolve_spec(path: Seq<char>) -> StepModel {
    match file_name_spec(path) {
        Some(n) => StepModel::AskHook(FromModel::Physical(parent_spec(path)), n),
        None => StepModel::Metadata(path),
    }
}

impl<F> FnImportResolver<F> {
    /// The hook this resolver offers lookups to.
    pub closed spec fn hook_fn(&self) -> F {
        self.resolver
    }

    pub fn new(func: F) -> (r: Self)
        ensures
            r.hook_fn() == func,
    {
        FnImportResolver { resolver: func }
    }

    /// The hook, for the host that calls it.
    pub fn hook(&self) -> (r: &F)
        ensures
            *r == self.hook_fn(),
    {
        &self.resolver
    }

    /// Starts a relative lookup of `path` from `from`.
    pub fn resolve_from(&self, from: &SourceId, path: &str) -> (r: Step)
        ensures
            r@ == hook_resolve_from_spec(from@, path@),
    {
        match from {
            SourceId::Embed(e) => Step::AskHook(FromSource::Virtual(e.path.clone()), path.to_owned()),
            SourceId::File(p) => Step::AskHook(FromSource::Physical(parent(p.as_str())), path.to_owned()),
            SourceId::Directory(d) => Step::AskHook(FromSource::Physical(d.clone()), path.to_owned()),
            SourceId::Default => Step::CurrentDir,
            SourceId::Virtual(_) => Step::Done(
                Err(ResolveError::ImportFileNotFound(from.duplicate(), path.to_owned())),
            ),
        }
    }

    /// Goes on with a lookup from no source once the working directory is
    /// known: the hook is asked with it.
    pub fn resolve_from_cwd(&self, path: &str, cwd: Result<String, String>) -> (r: Step)
        ensures
            match cwd {
                Ok(d) => r@ == StepModel::AskHook(FromModel::Physical(d@), path@),
                Err(m) => r@ == StepModel::Done(Err(ErrorModel::ImportIo(m@))),
            },
    {
        match cwd {
            Ok(d) => Step::AskHook(FromSource::Physical(d), path.to_owned()),
            Err(m) => Step::Done(Err(ResolveError::ImportIo(m))),
        }
    }

    /// Goes on with a relative lookup once the hook, asked with `asked`, has
    /// answered.
    pub fn hook_answered(
        &self,
        from: &SourceId,
        path: &str,
        asked: &FromSource,
        answer: Result<Option<SourceId>, ResolveError>,
    ) -> (r: Step)
        ensures
            r@ == hook_answered_spec(from@, path@, asked@, answer_view(answer)),
    {
        match answer {
            Err(e) => Step::Done(Err(e)),
            Ok(Some(s)) => Step::Done(Ok(s)),
            Ok(None) => match asked {
                FromSource::Physical(d) => Step::CheckFile(join(d.as_str(), path)),
                FromSource::Virtual(_) => Step::Done(
                    Err(ResolveError::ImportFileNotFound(from.duplicate(), path.to_owned())),
                ),
            },
        }
    }

    /// Starts the lookup of an absolute path.
    pub fn resolve(&self, path: &str) -> (r: Step)
        ensures
            r@ == hook_resolve_spec(path@),
    {
        match file_name(path) {
            Some(n) => Step::AskHook(FromSource::Physical(parent(path)), n),
            None => Step::Metadata(path.to_owned()),
        }
    }

    /// Goes on with an absolute lookup once the hook has answered: where it
    /// declined, the path's metadata is needed.
    pub fn resolve_hook_answered(
        &self,
        path: &str,
        answer: Result<Option<SourceId>, ResolveError>,
    ) -> (r: Step)
        ensures
            match answer_view(answer) {
                Err(e) => r@ == StepModel::Done(Err(e)),
                Ok(Some(s)) => r@ == StepModel::Done(Ok(s)),
                Ok(None) => r@ == StepModel::Metadata(path@),
            },
    {
        match answer {
            Err(e) => Step::Done(Err(e)),
            Ok(Some(s)) => Step::Done(Ok(s)),
            Ok(None) => Step::Metadata(path.to_owned()),
        }
    }

    /// Starts loading `id`: the hook plays no part in reading a source.
    pub fn load_file_contents(&self, id: &SourceId) -> (r: LoadStep)
        ensures
            r@ == load_spec(id@),
            id@ is Embed ==> r@ == LoadModel::Done(Ok(id@->Embed_1)),
    {
        fs_load(id)
    }
}

/// When the hook answers a lookup with a source, that source is the result:
/// no filesystem operation follows.
pub proof fn lemma_hook_precedence(
    from: SourceModel,
    path: Seq<char>,
    asked: FromModel,
    found: SourceModel,
)
    ensures
        hook_answered_spec(from, path, asked, Ok(Some(found))) == StepModel::Done(Ok(found)),
{
}

/// When the hook declines a lookup from a physical source, the lookup goes on
/// exactly as the filesystem resolver's own: the hook is asked with the
/// directory the filesystem resolver would search, and declining leads to the
/// filesystem resolver's step. For a lookup from no source both first ask for
/// the working directory, and then agree as well.
pub proof fn lemma_hook_fallback(from: SourceModel, path: Seq<char>, cwd: Seq<char>)
    requires
        !(from is Embed),
    ensures
        from is File || from is Directory ==> {
            let d = base_dir(from)->Some_0;
            &&& hook_resolve_from_spec(from, path) == StepModel::AskHook(
                FromModel::Physical(d),
                path,
            )
            &&& hook_answered_spec(from, path, FromModel::Physical(d), Ok(None))
                == resolve_from_spec(from, path)
        },
        from is Default ==> {
            &&& hook_resolve_from_spec(from, path) == StepModel::CurrentDir
            &&& resolve_from_spec(from, path) == StepModel::CurrentDir
            &&& hook_answered_spec(from, path, FromModel::Physical(cwd), Ok(None))
                == from_base_spec(cwd, path)
        },
        from is Virtual ==> hook_resolve_from_spec(from, path) == resolve_from_spec(from, path),
{
}

} // verus!
