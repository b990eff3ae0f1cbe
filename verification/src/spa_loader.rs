//! An opinionated SPA (Single Page App) loader.
//!
//! The loader decides; its caller reads the disk and parses documents. The caller
//! starts with [`Loader::load`], hands each outcome of its work to
//! [`Loader::populate_from`] as an [`Event`], and does what the [`Action`] that comes
//! back asks for, until that is [`Action::Finish`] or an error.

pub mod content_type;
pub mod route_from_file_path;

use crate::bytes_cache::{bytes_from_vec, bytes_of, entries_after};
use crate::html_templating::dom::TemplateNodeLookup;
use crate::html_templating::template_element_filter::ScriptTag;
use crate::json_env_cfg::Env;
use crate::mem_fs_server::{Header, HeaderView, MemFsServer, Response, ResponseView, STATUS_OK};
use crate::spa_cfg_html::{template_script_type, HtmlTemplatingError};
use crate::spa_cfg_json::{Application, JsonTemplatingError};
use crate::spa_loader::content_type::{cached_media_type, content_type_of, Detector};
use crate::spa_loader::route_from_file_path::{path_clone, path_text, route_of, RouteError};
use crate::text::str_eq;
use bytes::Bytes;
use std::path::{PathBuf, StripPrefixError};
use vstd::prelude::*;
use vstd::string::StringExecFns;

verus! {

/// `std::io::Error`: the error of an operation on the disk, carried through as it is.
#[verifier::external_type_specification]
#[verifier::external_body]
pub struct ExIoError(std::io::Error);

/// `std::path::StripPrefixError`: the error of a path that does not lie below
/// another, carried through as it is.
#[verifier::external_type_specification]
#[verifier::external_body]
pub struct ExStripPrefixError(StripPrefixError);

/// The type used for the file size operations.
pub type FileSize = u64;

/// The path `path` relative to `base`; `None` where `base` is no prefix of `path`.
pub uninterp spec fn path_below(path: PathBuf, base: PathBuf) -> Option<PathBuf>;

/// An error that can occur while loading.
#[derive(Debug)]
pub enum LoadError {
    /// Unable to read the directory.
    ReadingDir(PathBuf, std::io::Error),
    /// Unable to read the directory entry.
    ReadingDirEntry(PathBuf, std::io::Error),
    /// Unable to read the directory entry metadata.
    ReadingDirEntryMetadata(PathBuf, std::io::Error),
    /// Unable to strip the root dir prefix.
    RootDirPrefixStrip(PathBuf, StripPrefixError),
    /// Unable to convert file path to a route.
    RouteConversion(PathBuf, RouteError),
    /// Unable to read a response body from a file.
    ReadingBody(PathBuf, std::io::Error),
    /// The max file size exceeded for a given file.
    MaxFileSizeExceeded(PathBuf, FileSize),
    /// The route was a duplicate.
    DuplicateRoute(PathBuf, String),
    /// The templating for a given file/route has failed.
    Templating(PathBuf, String, TemplatingError),
}

/// An error that can occur while templating.
#[derive(Debug)]
pub enum TemplatingError {
    /// HTML templating error.
    Html(HtmlTemplatingError),
    /// JSON templating error.
    Json(JsonTemplatingError),
}

/// An opinionated SPA code loader.
#[derive(Debug)]
pub struct Loader {
    /// The max size of the file to load.
    ///
    /// Encountering a file that exceeds this size will result in an error.
    ///
    /// This is a mandatory value, set to the [`FileSize::MAX`] to lift the limit.
    pub max_file_size: FileSize,
    /// The root directory that should contain all the files.
    ///
    /// Will be used as a prefix to strip from the file paths before converting them to routes.
    pub root_dir: PathBuf,
    /// Whether to use the root page as not found.
    ///
    /// Useful for the apps with dynamic routing.
    pub root_as_not_found: bool,
    /// Templating configuration for the root route.
    pub root_templating: Option<crate::spa_cfg_html::Engine>,
    /// Templating configuration for the `/config.json` route.
    pub config_json_templating: Option<crate::spa_cfg_json::Engine>,
}

/// A load in progress.
#[derive(Debug)]
pub struct Loading {
    /// The directories that are still to visit; the last one is visited next.
    dirs: Vec<PathBuf>,
    /// The server with the routes that were added so far.
    server: MemFsServer,
    /// The content type detector.
    content_type_detector: Detector,
}

/// A file that was found and whose route was free when it was found.
///
/// Only the loader makes such a value, so that its route is always one that the loader
/// has derived.
#[derive(Debug)]
pub struct PendingFile {
    /// The directory that holds the file.
    dir: PathBuf,
    /// The path of the file.
    path: PathBuf,
    /// The route of the file.
    route: String,
}

/// Whether a route begins with a slash.
pub open spec fn is_absolute(route: Seq<char>) -> bool {
    route.len() > 0 && route[0] == '/'
}

impl PendingFile {
    /// The route begins with a slash.
    #[verifier::type_invariant]
    spec fn route_is_absolute(&self) -> bool {
        is_absolute(self.route@)
    }

    /// The directory that holds the file.
    pub closed spec fn spec_dir(&self) -> PathBuf {
        self.dir
    }

    /// The path of the file.
    pub closed spec fn spec_path(&self) -> PathBuf {
        self.path
    }

    /// The route of the file.
    pub closed spec fn spec_route(&self) -> Seq<char> {
        self.route@
    }

    /// The directory that holds the file.
    pub fn dir(&self) -> (r: &PathBuf)
        ensures
            *r == self.spec_dir(),
    {
        &self.dir
    }

    /// The path of the file.
    pub fn path(&self) -> (r: &PathBuf)
        ensures
            *r == self.spec_path(),
    {
        &self.path
    }

    /// The route of the file, which begins with a slash.
    pub fn route(&self) -> (r: &str)
        ensures
            r@ == self.spec_route(),
            is_absolute(r@),
    {
        proof {
            use_type_invariant(self);
        }
        self.route.as_str()
    }
}

/// What the caller has done or found.
pub enum Event {
    /// Nothing yet: the load begins.
    Start,
    /// The directory was opened, or could not be.
    DirOpened(PathBuf, Result<(), std::io::Error>),
    /// The next entry of the directory was read: its path, or none where the
    /// directory has no further entry.
    DirEntry(PathBuf, Result<Option<PathBuf>, std::io::Error>),
    /// The metadata of the entry of the directory was read: whether the entry is a
    /// directory.
    Metadata(PathBuf, PathBuf, Result<bool, std::io::Error>),
    /// The file was read.
    Body(PendingFile, Result<Vec<u8>, std::io::Error>),
    /// The body of the file was parsed as HTML.
    Parsed(PendingFile, Vec<u8>, TemplateNodeLookup<ScriptTag>),
}

/// What the caller is to do next.
pub enum Action {
    /// Open the directory.
    ReadDir(PathBuf),
    /// Read the next entry of the directory.
    NextEntry(PathBuf),
    /// Read the metadata of the entry of the directory.
    ReadMetadata(PathBuf, PathBuf),
    /// Read the file.
    ReadBody(PendingFile),
    /// Parse the body of the file as HTML, with a lookup for the elements that the
    /// filter selects.
    ParseHtml(PendingFile, Vec<u8>, ScriptTag),
    /// Nothing: the load is complete.
    Finish,
}

/// The route of the root page.
pub open spec fn root_route() -> Seq<char> {
    "/"@
}

/// The route of the JSON configuration.
pub open spec fn config_json_route() -> Seq<char> {
    "/config.json"@
}

/// The name of the header that holds the content type.
pub open spec fn content_type_header() -> Seq<char> {
    "content-type"@
}

/// The response that is served for `route` where the file holds `body`: found, with
/// the content type of the route, where it has one, as its only header.
pub open spec fn asset(route: Seq<char>, body: Seq<u8>) -> ResponseView {
    ResponseView {
        status: STATUS_OK,
        headers: match content_type_of(route) {
            Some(content_type) => seq![(content_type_header(), content_type)],
            None => Seq::<HeaderView>::empty(),
        },
        body,
    }
}

/// `Path::strip_prefix`: the path relative to `base`, which must be a prefix of it.
#[verifier::external_body]
fn strip_prefix(path: &PathBuf, base: &PathBuf) -> (r: Result<PathBuf, StripPrefixError>)
    ensures
        match r {
            Ok(below) => path_below(*path, *base) == Some(below),
            Err(_) => path_below(*path, *base) is None,
        },
{
    path.strip_prefix(base).map(|below| below.to_path_buf())
}

impl Loading {
    /// The directories that are still to visit; the last one is visited next.
    pub closed spec fn queue(&self) -> Seq<PathBuf> {
        self.dirs@
    }

    /// The server with the routes that were added so far.
    pub closed spec fn table(&self) -> MemFsServer {
        self.server
    }

    /// The media types that the cache of content types holds.
    pub closed spec fn cache(&self) -> Seq<Seq<u8>> {
        self.content_type_detector.cache@
    }

    /// Whether the load is well-formed: no route occurs twice, every route begins with
    /// a slash, and the cache holds no media type twice. The loader keeps it so.
    pub open spec fn wf(&self) -> bool {
        &&& self.table().wf()
        &&& forall|route: Seq<char>| self.table().route(route) is Some ==> is_absolute(route)
        &&& crate::bytes_cache::distinct(self.cache())
    }

    /// Whether the load holds the same server and the same cache as `other`.
    pub open spec fn same_tables(&self, other: Self) -> bool {
        self.table() == other.table() && self.cache() == other.cache()
    }

    /// The directories that are still to visit; the last one is visited next.
    pub fn dirs(&self) -> (r: &Vec<PathBuf>)
        ensures
            r@ == self.queue(),
    {
        &self.dirs
    }

    /// The server with the routes that were added so far.
    pub fn server(&self) -> (r: &MemFsServer)
        ensures
            *r == self.table(),
    {
        &self.server
    }

    /// The server with the routes that were added: after the last step of a load, the
    /// server to serve.
    pub fn into_server(self) -> (r: MemFsServer)
        ensures
            r == self.table(),
    {
        self.server
    }
}

impl Loader {
    /// Whether the root page is templated.
    pub open spec fn templates_root(&self, route: Seq<char>) -> bool {
        route == root_route() && self.root_templating is Some
    }

    /// Whether the JSON configuration is templated.
    pub open spec fn templates_config_json(&self, route: Seq<char>) -> bool {
        route == config_json_route() && self.config_json_templating is Some
    }

    /// The response for paths that are not found, once the load is complete: that of
    /// the root page where this is asked for and there is a root page, else the one
    /// that the server had.
    pub open spec fn fallback_after(&self, server: MemFsServer) -> Option<ResponseView> {
        if self.root_as_not_found && server.route(root_route()) is Some {
            server.route(root_route())
        } else {
            server.fallback()
        }
    }

    /// Whether `after` and `action` are what follows `before` once a directory is
    /// exhausted: the directory that was queued last is visited next; where none is
    /// left, the load is complete, and the response for paths that are not found is
    /// installed.
    pub open spec fn visits_next(&self, before: Loading, after: Loading, action: Action) -> bool {
        if before.queue().len() > 0 {
            &&& action == Action::ReadDir(before.queue().last())
            &&& after.queue() == before.queue().drop_last()
            &&& after.same_tables(before)
        } else {
            &&& action is Finish
            &&& after.queue() == before.queue()
            &&& after.cache() == before.cache()
            &&& after.table().route_count() == before.table().route_count()
            &&& forall|path: Seq<char>| after.table().route(path) == before.table().route(path)
            &&& after.table().fallback() == self.fallback_after(before.table())
        }
    }

    /// Whether `r` is what follows for the file `path`, an entry of `dir`: the file is
    /// to be read where its path lies below the root directory, is unicode, and gives
    /// a route that no file has yet.
    pub open spec fn registers(
        &self,
        server: MemFsServer,
        dir: PathBuf,
        path: PathBuf,
        r: Result<Action, LoadError>,
    ) -> bool {
        match path_below(path, self.root_dir) {
            None => r is Err && r->Err_0 is RootDirPrefixStrip && r->Err_0->RootDirPrefixStrip_0
                == path,
            Some(below) => match path_text(below) {
                None => r == Err::<Action, LoadError>(
                    LoadError::RouteConversion(below, RouteError::NonUnicode(below)),
                ),
                Some(text) => if server.route(route_of(text)) is Some {
                    &&& r is Err
                    &&& r->Err_0 is DuplicateRoute
                    &&& r->Err_0->DuplicateRoute_0 == path
                    &&& r->Err_0->DuplicateRoute_1@ == route_of(text)
                } else {
                    &&& r is Ok
                    &&& r->Ok_0 is ReadBody
                    &&& r->Ok_0->ReadBody_0.spec_dir() == dir
                    &&& r->Ok_0->ReadBody_0.spec_path() == path
                    &&& r->Ok_0->ReadBody_0.spec_route() == route_of(text)
                },
            },
        }
    }

    /// Whether `after` and `r` are what follows `before` where the file `pending` is
    /// added with the body `body`: a file whose route is taken is refused, and nothing
    /// changes; else the route is served with the body and the content type of the
    /// route, every other route as before, and the next entry of the directory is
    /// asked for.
    pub open spec fn adds_route(
        &self,
        before: Loading,
        pending: PendingFile,
        body: Seq<u8>,
        after: Loading,
        r: Result<Action, LoadError>,
    ) -> bool {
        if before.table().route(pending.spec_route()) is Some {
            &&& r is Err
            &&& r->Err_0 is DuplicateRoute
            &&& r->Err_0->DuplicateRoute_0 == pending.spec_path()
            &&& r->Err_0->DuplicateRoute_1@ == pending.spec_route()
            &&& after == before
        } else {
            &&& r == Ok::<Action, LoadError>(Action::NextEntry(pending.spec_dir()))
            &&& after.queue() == before.queue()
            &&& after.table().route_count() == before.table().route_count() + 1
            &&& after.table().fallback() == before.table().fallback()
            &&& forall|path: Seq<char>|
                after.table().route(path) == if path == pending.spec_route() {
                    Some(asset(pending.spec_route(), body))
                } else {
                    before.table().route(path)
                }
            &&& after.cache() == match cached_media_type(pending.spec_route()) {
                Some(media_type) => entries_after(before.cache(), media_type),
                None => before.cache(),
            }
        }
    }

    /// Whether `r` is the failure of the templating of the file `pending`.
    pub open spec fn fails_templating(pending: PendingFile, r: Result<Action, LoadError>) -> bool {
        &&& r is Err
        &&& r->Err_0 is Templating
        &&& r->Err_0->Templating_0 == pending.spec_path()
        &&& r->Err_0->Templating_1@ == pending.spec_route()
    }

    /// Whether `after` and `r` are what follows `before` where the file `pending` was
    /// read with the outcome `result`: a file that is too large is refused; the root
    /// page, where it is templated, is to be parsed; the JSON configuration, where it
    /// is templated, is added as the engine leaves it; any other file is added as it is.
    pub open spec fn takes_body(
        &self,
        before: Loading,
        pending: PendingFile,
        result: Result<Vec<u8>, std::io::Error>,
        env: Env,
        after: Loading,
        r: Result<Action, LoadError>,
    ) -> bool {
        match result {
            Err(err) => r == Err::<Action, LoadError>(LoadError::ReadingBody(pending.spec_path(), err))
                && after == before,
            Ok(body) => if body@.len() > self.max_file_size {
                r == Err::<Action, LoadError>(
                    LoadError::MaxFileSizeExceeded(pending.spec_path(), body@.len() as u64),
                ) && after == before
            } else if self.templates_root(pending.spec_route()) {
                &&& r is Ok
                &&& r->Ok_0 is ParseHtml
                &&& r->Ok_0->ParseHtml_0 == pending
                &&& r->Ok_0->ParseHtml_1 == body
                &&& r->Ok_0->ParseHtml_2.script_type@ == template_script_type()
                &&& after == before
            } else if self.templates_config_json(pending.spec_route()) {
                match self.config_json_templating->0.application(body@, env) {
                    Application::Data(data) => self.adds_route(before, pending, data, after, r),
                    Application::Env { env_var, value } => {
                        &&& Self::fails_templating(pending, r)
                        &&& r->Err_0->Templating_2 is Json
                        &&& crate::json_env_cfg::is_env_error(
                            Err::<(), JsonTemplatingError>(r->Err_0->Templating_2->Json_0),
                            env_var,
                            value,
                        )
                        &&& after == before
                    },
                    Application::Unreadable => {
                        &&& Self::fails_templating(pending, r)
                        &&& r->Err_0->Templating_2 is Json
                        &&& r->Err_0->Templating_2->Json_0 is Json
                        &&& after == before
                    },
                }
            } else {
                self.adds_route(before, pending, body@, after, r)
            },
        }
    }

    /// Whether `after` and `r` are what follows `before` where the body of the file
    /// `pending` was parsed: where the root page is templated, it is added as the
    /// engine leaves it, or the engine's failure is reported; any other file is added
    /// as it is.
    pub open spec fn takes_parsed(
        &self,
        before: Loading,
        pending: PendingFile,
        body: Seq<u8>,
        lookup: TemplateNodeLookup<ScriptTag>,
        after: Loading,
        r: Result<Action, LoadError>,
    ) -> bool {
        if !self.templates_root(pending.spec_route()) {
            self.adds_route(before, pending, body, after, r)
        } else if lookup.template_element is Some {
            ||| exists|templated: Seq<u8>| self.adds_route(before, pending, templated, after, r)
            ||| {
                &&& Self::fails_templating(pending, r)
                &&& r->Err_0->Templating_2 is Html
                &&& !(r->Err_0->Templating_2->Html_0 is TemplateNotFound)
                &&& !(r->Err_0->Templating_2->Html_0 is HtmlParsing)
                &&& after == before
            }
        } else if self.root_templating->0.template_tag_presence is SkipIfNotFound {
            self.adds_route(before, pending, body, after, r)
        } else {
            &&& Self::fails_templating(pending, r)
            &&& r->Err_0->Templating_2 is Html
            &&& r->Err_0->Templating_2->Html_0 is TemplateNotFound
            &&& after == before
        }
    }

    /// Whether `after` and `r` are what follows `before` on `event`.
    pub open spec fn follows(
        &self,
        before: Loading,
        event: Event,
        env: Env,
        after: Loading,
        r: Result<Action, LoadError>,
    ) -> bool {
        match event {
            Event::Start => r is Ok && self.visits_next(before, after, r->Ok_0),
            Event::DirOpened(dir, Ok(())) => r == Ok::<Action, LoadError>(Action::NextEntry(dir))
                && after == before,
            Event::DirOpened(dir, Err(err)) => r == Err::<Action, LoadError>(
                LoadError::ReadingDir(dir, err),
            ) && after == before,
            Event::DirEntry(dir, Ok(None)) => r is Ok && self.visits_next(before, after, r->Ok_0),
            Event::DirEntry(dir, Ok(Some(path))) => r == Ok::<Action, LoadError>(
                Action::ReadMetadata(dir, path),
            ) && after == before,
            Event::DirEntry(dir, Err(err)) => r == Err::<Action, LoadError>(
                LoadError::ReadingDirEntry(dir, err),
            ) && after == before,
            Event::Metadata(dir, path, Ok(true)) => r == Ok::<Action, LoadError>(
                Action::NextEntry(dir),
            ) && after.queue() == before.queue().push(path) && after.same_tables(before),
            Event::Metadata(dir, path, Ok(false)) => self.registers(before.table(), dir, path, r)
                && after == before,
            Event::Metadata(dir, path, Err(err)) => r == Err::<Action, LoadError>(
                LoadError::ReadingDirEntryMetadata(path, err),
            ) && after == before,
            Event::Body(pending, result) => self.takes_body(before, pending, result, env, after, r),
            Event::Parsed(pending, body, lookup) => self.takes_parsed(
                before,
                pending,
                body@,
                lookup,
                after,
                r,
            ),
        }
    }

    /// No route is overwritten: a file whose route is taken is refused as a duplicate
    /// that names the file and the route, and the load stays as it is.
    pub proof fn taken_route_is_refused(
        &self,
        before: Loading,
        pending: PendingFile,
        body: Seq<u8>,
        after: Loading,
        r: Result<Action, LoadError>,
    )
        requires
            self.adds_route(before, pending, body, after, r),
            before.table().route(pending.spec_route()) is Some,
        ensures
            r is Err,
            r->Err_0 is DuplicateRoute,
            r->Err_0->DuplicateRoute_0 == pending.spec_path(),
            r->Err_0->DuplicateRoute_1@ == pending.spec_route(),
            after == before,
            forall|route: Seq<char>| after.table().route(route) == before.table().route(route),
    {
    }

    /// A route that is added is served from then on, and no other route changes.
    pub proof fn free_route_is_added(
        &self,
        before: Loading,
        pending: PendingFile,
        body: Seq<u8>,
        after: Loading,
        r: Result<Action, LoadError>,
    )
        requires
            self.adds_route(before, pending, body, after, r),
            before.table().route(pending.spec_route()) is None,
        ensures
            r is Ok,
            after.table().route(pending.spec_route()) == Some(asset(pending.spec_route(), body)),
            forall|route: Seq<char>|
                before.table().route(route) is Some ==> after.table().route(route)
                    == before.table().route(route),
    {
    }

    /// The size limit: a file that is larger than the limit is refused with its path and
    /// its size, and the load stays as it is; a file within the limit is never refused
    /// for its size.
    pub proof fn size_limit_is_kept(
        &self,
        before: Loading,
        pending: PendingFile,
        body: Vec<u8>,
        env: Env,
        after: Loading,
        r: Result<Action, LoadError>,
    )
        requires
            self.takes_body(before, pending, Ok(body), env, after, r),
        ensures
            body@.len() > self.max_file_size ==> r == Err::<Action, LoadError>(
                LoadError::MaxFileSizeExceeded(pending.spec_path(), body@.len() as u64),
            ) && after == before,
            body@.len() <= self.max_file_size ==> !(r is Err && r->Err_0 is MaxFileSizeExceeded),
    {
    }

    /// Only the root page and the JSON configuration are ever templated: a file of any
    /// other route that is within the size limit is added as it was read.
    pub proof fn other_routes_are_added_as_read(
        &self,
        before: Loading,
        pending: PendingFile,
        body: Vec<u8>,
        env: Env,
        after: Loading,
        r: Result<Action, LoadError>,
    )
        requires
            self.takes_body(before, pending, Ok(body), env, after, r),
            body@.len() <= self.max_file_size,
            pending.spec_route() != root_route(),
            pending.spec_route() != config_json_route(),
        ensures
            self.adds_route(before, pending, body@, after, r),
    {
    }

    /// Begin to load the SPA code: a load with the root directory as the only one to
    /// visit, and no routes.
    pub fn load(&self) -> (r: Loading)
        ensures
            r.wf(),
            r.queue() == seq![self.root_dir],
            r.table().route_count() == 0,
            r.table().fallback() is None,
            forall|path: Seq<char>| r.table().route(path) is None,
            r.cache() == Seq::<Seq<u8>>::empty(),
    {
        let mut dirs = Vec::new();
        dirs.push(path_clone(&self.root_dir));
        Loading { dirs, server: MemFsServer::new(), content_type_detector: Detector::new() }
    }

    /// Populate the server of the given load with the SPA code from the filesystem, one
    /// step at a time: take what the caller has done or found, and say what it is to
    /// do next.
    ///
    /// Any failure ends the load: after an error the load is not to be continued.
    pub fn populate_from(&self, loading: &mut Loading, event: Event, env: &Env) -> (r: Result<
        Action,
        LoadError,
    >)
        requires
            old(loading).wf(),
        ensures
            final(loading).wf(),
            self.follows(*old(loading), event, *env, *final(loading), r),
            r is Err && r->Err_0 is MaxFileSizeExceeded ==> self.max_file_size < FileSize::MAX,
    {
        match event {
            Event::Start => Ok(self.visit_next(loading)),
            Event::DirOpened(dir, Ok(())) => Ok(Action::NextEntry(dir)),
            Event::DirOpened(dir, Err(err)) => Err(LoadError::ReadingDir(dir, err)),
            Event::DirEntry(_, Ok(None)) => Ok(self.visit_next(loading)),
            Event::DirEntry(dir, Ok(Some(path))) => Ok(Action::ReadMetadata(dir, path)),
            Event::DirEntry(dir, Err(err)) => Err(LoadError::ReadingDirEntry(dir, err)),
            Event::Metadata(dir, path, Ok(true)) => {
                loading.dirs.push(path);
                Ok(Action::NextEntry(dir))
            },
            Event::Metadata(dir, path, Ok(false)) => self.register(&loading.server, dir, path),
            Event::Metadata(_, path, Err(err)) => Err(
                LoadError::ReadingDirEntryMetadata(path, err),
            ),
            Event::Body(pending, result) => self.take_body(loading, pending, result, env),
            Event::Parsed(pending, body, lookup) => self.take_parsed(
                loading,
                pending,
                body,
                &lookup,
                env,
            ),
        }
    }

    /// Visit the directory that was queued last; where none is left, complete the load.
    fn visit_next(&self, loading: &mut Loading) -> (action: Action)
        requires
            old(loading).wf(),
        ensures
            final(loading).wf(),
            self.visits_next(*old(loading), *final(loading), action),
    {
        match loading.dirs.pop() {
            Some(dir) => Action::ReadDir(dir),
            None => {
                // Use the root response for not found if requested.
                if self.root_as_not_found {
                    if let Some(root_response) = loading.server.get("/") {
                        let not_found = root_response.duplicate();
                        loading.server.set_not_found(not_found);
                    }
                }
                Action::Finish
            },
        }
    }

    /// Derive the route of a file and see that no file has it yet.
    fn register(&self, server: &MemFsServer, dir: PathBuf, path: PathBuf) -> (r: Result<
        Action,
        LoadError,
    >)
        ensures
            self.registers(*server, dir, path, r),
    {
        let route_path = match strip_prefix(&path, &self.root_dir) {
            Ok(stripped) => stripped,
            Err(err) => return Err(LoadError::RootDirPrefixStrip(path, err)),
        };
        let route = match crate::spa_loader::route_from_file_path::convert(&route_path) {
            Ok(route) => route,
            Err(err) => return Err(LoadError::RouteConversion(route_path, err)),
        };
        if server.get(route.as_str()).is_some() {
            return Err(LoadError::DuplicateRoute(path, route));
        }
        proof {
            crate::spa_loader::route_from_file_path::route_starts_with_slash(
                path_text(route_path).unwrap(),
            );
        }
        Ok(Action::ReadBody(PendingFile { dir, path, route }))
    }

    /// Take the body of a file: check its size, template it where its route asks for
    /// that, and add it.
    fn take_body(
        &self,
        loading: &mut Loading,
        pending: PendingFile,
        result: Result<Vec<u8>, std::io::Error>,
        env: &Env,
    ) -> (r: Result<Action, LoadError>)
        requires
            old(loading).wf(),
        ensures
            final(loading).wf(),
            self.takes_body(*old(loading), pending, result, *env, *final(loading), r),
            r is Err && r->Err_0 is MaxFileSizeExceeded ==> self.max_file_size < FileSize::MAX,
    {
        let mut body = match result {
            Ok(data) => data,
            Err(err) => return Err(LoadError::ReadingBody(pending.path, err)),
        };
        let file_size: FileSize = body.len() as u64;
        if file_size > self.max_file_size {
            return Err(LoadError::MaxFileSizeExceeded(pending.path, file_size));
        }
        if str_eq(pending.route.as_str(), "/") {
            if self.root_templating.is_some() {
                let filter = crate::spa_cfg_html::Engine::template_element_filter();
                return Ok(Action::ParseHtml(pending, body, filter));
            }
        }
        if str_eq(pending.route.as_str(), "/config.json") {
            if let Some(templating_engine) = &self.config_json_templating {
                if let Err(err) = templating_engine.apply(&mut body, env) {
                    return Err(
                        LoadError::Templating(pending.path, pending.route, TemplatingError::Json(err)),
                    );
                }
            }
        }
        self.add_route(loading, pending, body)
    }

    /// Take the parse of the root page: template the page where that is asked for,
    /// and add it.
    fn take_parsed(
        &self,
        loading: &mut Loading,
        pending: PendingFile,
        body: Vec<u8>,
        lookup: &TemplateNodeLookup<ScriptTag>,
        env: &Env,
    ) -> (r: Result<Action, LoadError>)
        requires
            old(loading).wf(),
        ensures
            final(loading).wf(),
            self.takes_parsed(*old(loading), pending, body@, *lookup, *final(loading), r),
    {
        let mut body = body;
        if str_eq(pending.route.as_str(), "/") {
            if let Some(templating_engine) = &self.root_templating {
                if let Err(err) = templating_engine.apply(&mut body, lookup, env) {
                    return Err(
                        LoadError::Templating(pending.path, pending.route, TemplatingError::Html(err)),
                    );
                }
            }
        }
        let r = self.add_route(loading, pending, body);
        assert(self.adds_route(*old(loading), pending, body@, *loading, r));
        r
    }

    /// Add the route of a file with its response: the body, and the content type of
    /// the route.
    fn add_route(&self, loading: &mut Loading, pending: PendingFile, body: Vec<u8>) -> (r: Result<
        Action,
        LoadError,
    >)
        requires
            old(loading).wf(),
        ensures
            final(loading).wf(),
            self.adds_route(*old(loading), pending, body@, *final(loading), r),
    {
        proof {
            use_type_invariant(&pending);
        }
        if loading.server.get(pending.route.as_str()).is_some() {
            return Err(LoadError::DuplicateRoute(pending.path, pending.route));
        }
        let maybe_content_type = loading.content_type_detector.detect(pending.route.as_str());
        let mut res = Response::new(bytes_from_vec(body));
        if let Some(content_type) = maybe_content_type {
            res.headers.push(Header { name: String::from_str("content-type"), value: content_type });
        }
        assert(res@ =~= asset(pending.route@, body@)) by {
            assert(crate::mem_fs_server::header_views(res.headers@) =~= asset(
                pending.route@,
                body@,
            ).headers);
        }
        let PendingFile { dir, path, route } = pending;
        match loading.server.insert(route, res) {
            Ok(()) => Ok(Action::NextEntry(dir)),
            Err(taken) => Err(LoadError::DuplicateRoute(path, taken)),
        }
    }
}

} // verus!
