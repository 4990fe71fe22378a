//! Which requests leave a trace in the log.

use vstd::prelude::*;

verus! {

/// The paths of a list, as values.
pub open spec fn paths_view(paths: Seq<String>) -> Seq<Seq<char>> {
    paths.map_values(|path: String| path@)
}

/// Makes request loggers that pass over a list of paths.
#[derive(Debug)]
pub struct RequestLogger {
    ignored_paths: Vec<String>,
}

impl Default for RequestLogger {
    fn default() -> (logger: Self)
        ensures
            logger.ignored() == Seq::<Seq<char>>::empty(),
    {
        let logger = RequestLogger { ignored_paths: Vec::new() };
        assert(logger.ignored() =~= Seq::<Seq<char>>::empty());
        logger
    }
}

impl RequestLogger {
    /// The paths that are passed over.
    pub closed spec fn ignored(&self) -> Seq<Seq<char>> {
        paths_view(self.ignored_paths@)
    }

    /// A logger that passes over requests to these paths.
    pub fn new_with_ignored_paths(paths: Vec<String>) -> (logger: Self)
        ensures
            logger.ignored() == paths_view(paths@),
    {
        Self { ignored_paths: paths }
    }

    /// The logger around one service, with the same list of paths.
    pub fn new_transform<S>(&self, service: S) -> (middleware: RequestLoggerMiddleware<S>)
        ensures
            middleware.ignored() == self.ignored(),
            middleware.inner() == service,
    {
        let mut ignored_paths: Vec<String> = Vec::new();
        let mut i: usize = 0;
        while i < self.ignored_paths.len()
            invariant
                i <= self.ignored_paths.len(),
                ignored_paths@ == self.ignored_paths@.take(i as int),
            decreases self.ignored_paths.len() - i,
        {
            ignored_paths.push(self.ignored_paths[i].clone());
            assert(ignored_paths@ =~= self.ignored_paths@.take(i + 1));
            i += 1;
        }
        assert(ignored_paths@ =~= self.ignored_paths@);
        RequestLoggerMiddleware { service, ignored_paths }
    }
}

/// A service with a logger around it.
pub struct RequestLoggerMiddleware<S> {
    service: S,
    ignored_paths: Vec<String>,
}

impl<S> RequestLoggerMiddleware<S> {
    /// The paths that are passed over.
    pub closed spec fn ignored(&self) -> Seq<Seq<char>> {
        paths_view(self.ignored_paths@)
    }

    /// The service inside.
    pub closed spec fn inner(&self) -> S {
        self.service
    }

    /// The service inside.
    pub fn service(&self) -> (service: &S)
        ensures
            *service == self.inner(),
    {
        &self.service
    }

    /// Whether a request to `path` is logged: it is, unless the path is one
    /// of those passed over. Paths are compared as they stand.
    pub fn should_log(&self, path: &str) -> (logged: bool)
        ensures
            logged <==> !self.ignored().contains(path@),
    {
        let wanted = path.to_owned();
        let mut i: usize = 0;
        while i < self.ignored_paths.len()
            invariant
                i <= self.ignored_paths.len(),
                wanted@ == path@,
                forall|j: int| 0 <= j < i ==> #[trigger] self.ignored()[j] != path@,
            decreases self.ignored_paths.len() - i,
        {
            if self.ignored_paths[i] == wanted {
                assert(self.ignored()[i as int] == path@);
                return false;
            }
            i += 1;
        }
        true
    }
}

} // verus!
