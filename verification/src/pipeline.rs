//! The order in which a request is resolved, one filesystem question at a time.
//!
//! A `Pipeline` always has one question pending. The caller looks the answer
//! up on disk and hands it to `advance`, which gives either the pipeline with
//! its next question or the response. Nothing is remembered between requests.

use crate::content::{content_response, respond};
use crate::maintenance::{default_page, default_page_bytes, Mode};
use crate::paths::{
    global_marker, global_page, join, requested, requested_path, resolved, tenant_marker,
    tenant_page, with_index, MAINTENANCE_PAGE, MARKER_FILE,
};
use crate::response::{maintenance_response, Response, ResponseView};
use crate::tenant::{resolve_tenant, tenant_id};
use vstd::prelude::*;

verus! {

/// What the library reads of a request: the raw value of its `Host` header,
/// if it has one, and the path of its URI without the query.
#[derive(Clone, Debug)]
pub struct Request {
    pub host: Option<Vec<u8>>,
    pub path: String,
}

/// A question to the filesystem.
#[derive(Clone, Debug)]
pub enum Query {
    /// Is there anything at this path? A path that cannot be examined counts
    /// as absent.
    Exists(String),
    /// Is this path a directory?
    IsDirectory(String),
    /// What are the bytes of the file at this path?
    Read(String),
}

/// A `Query` over plain values.
pub enum QueryView {
    Exists(Seq<char>),
    IsDirectory(Seq<char>),
    Read(Seq<char>),
}

impl View for Query {
    type V = QueryView;

    open spec fn view(&self) -> QueryView {
        match self {
            Query::Exists(path) => QueryView::Exists(path@),
            Query::IsDirectory(path) => QueryView::IsDirectory(path@),
            Query::Read(path) => QueryView::Read(path@),
        }
    }
}

/// What the filesystem said to a `Query`.
#[derive(Clone, Debug)]
pub enum Answer {
    /// The answer to `Exists` and to `IsDirectory`.
    Flag(bool),
    /// The answer to `Read`: the bytes, or `None` where the file could not
    /// be read, whatever the reason.
    Contents(Option<Vec<u8>>),
}

/// An `Answer` over plain values.
pub enum AnswerView {
    Flag(bool),
    Contents(Option<Seq<u8>>),
}

impl View for Answer {
    type V = AnswerView;

    open spec fn view(&self) -> AnswerView {
        match self {
            Answer::Flag(flag) => AnswerView::Flag(*flag),
            Answer::Contents(Some(bytes)) => AnswerView::Contents(Some(bytes@)),
            Answer::Contents(None) => AnswerView::Contents(None),
        }
    }
}

impl AnswerView {
    /// The answer says yes. An answer of the other kind is no answer to a
    /// yes-or-no question and counts as no.
    pub open spec fn affirmed(self) -> bool {
        self == AnswerView::Flag(true)
    }

    /// The bytes that were read. An answer of the other kind is no answer to
    /// a read and counts as a failed one.
    pub open spec fn bytes(self) -> Option<Seq<u8>> {
        match self {
            AnswerView::Contents(contents) => contents,
            AnswerView::Flag(_) => None,
        }
    }
}

/// Where a request stands: the question that is pending.
#[derive(Debug)]
pub enum Stage {
    /// Is the marker under the web root present?
    GlobalMarker,
    /// Is the marker under the tenant's root present?
    TenantMarker,
    /// Maintenance is on; the tenant's page is being read.
    TenantPage(Mode),
    /// Maintenance is on and the tenant has no page; the shared one is being read.
    GlobalPage(Mode),
    /// Maintenance is off; is the requested place a directory?
    Directory,
    /// The file to serve is known and is being read.
    Content(String),
}

/// A `Stage` over plain values.
pub enum StageView {
    GlobalMarker,
    TenantMarker,
    TenantPage(Mode),
    GlobalPage(Mode),
    Directory,
    Content(Seq<char>),
}

impl View for Stage {
    type V = StageView;

    open spec fn view(&self) -> StageView {
        match self {
            Stage::GlobalMarker => StageView::GlobalMarker,
            Stage::TenantMarker => StageView::TenantMarker,
            Stage::TenantPage(mode) => StageView::TenantPage(*mode),
            Stage::GlobalPage(mode) => StageView::GlobalPage(*mode),
            Stage::Directory => StageView::Directory,
            Stage::Content(file) => StageView::Content(file@),
        }
    }
}

impl StageView {
    /// An upper bound on the answers that are still needed from this stage on.
    pub open spec fn steps_left(self) -> nat {
        match self {
            StageView::GlobalMarker => 4,
            StageView::TenantMarker => 3,
            StageView::TenantPage(_) => 2,
            StageView::GlobalPage(_) => 1,
            StageView::Directory => 2,
            StageView::Content(_) => 1,
        }
    }
}

/// One request on its way to a response.
#[derive(Debug)]
pub struct Pipeline {
    web_root: String,
    tenant: String,
    request_path: String,
    stage: Stage,
}

/// A `Pipeline` over plain values.
pub struct PipelineView {
    pub web_root: Seq<char>,
    pub tenant: Seq<char>,
    pub request_path: Seq<char>,
    pub stage: StageView,
}

impl View for Pipeline {
    type V = PipelineView;

    closed spec fn view(&self) -> PipelineView {
        PipelineView {
            web_root: self.web_root@,
            tenant: self.tenant@,
            request_path: self.request_path@,
            stage: self.stage@,
        }
    }
}

/// What one answer leads to.
#[derive(Debug)]
pub enum Step {
    /// Another question is pending.
    Continue(Pipeline),
    /// The request is resolved.
    Done(Response),
}

/// A `Step` over plain values.
pub enum StepView {
    Continue(PipelineView),
    Done(ResponseView),
}

impl View for Step {
    type V = StepView;

    open spec fn view(&self) -> StepView {
        match self {
            Step::Continue(pipeline) => StepView::Continue(pipeline@),
            Step::Done(response) => StepView::Done(response@),
        }
    }
}

/// The pipeline of a request that has just come in: the tenant is resolved
/// and the first question is whether the marker under the web root is present.
pub open spec fn started(web_root: Seq<char>, host: Option<Seq<u8>>, request_path: Seq<char>)
    -> PipelineView {
    PipelineView {
        web_root,
        tenant: tenant_id(host),
        request_path,
        stage: StageView::GlobalMarker,
    }
}

impl PipelineView {
    /// The same request at another stage.
    pub open spec fn at(self, stage: StageView) -> PipelineView {
        PipelineView { stage, ..self }
    }

    /// The question that is pending.
    pub open spec fn query(self) -> QueryView {
        match self.stage {
            StageView::GlobalMarker => QueryView::Exists(global_marker(self.web_root)),
            StageView::TenantMarker => QueryView::Exists(
                tenant_marker(self.web_root, self.tenant),
            ),
            StageView::TenantPage(_) => QueryView::Read(tenant_page(self.web_root, self.tenant)),
            StageView::GlobalPage(_) => QueryView::Read(global_page(self.web_root)),
            StageView::Directory => QueryView::IsDirectory(
                requested(self.web_root, self.tenant, self.request_path),
            ),
            StageView::Content(file) => QueryView::Read(file),
        }
    }

    /// The marker that switched maintenance mode on, once one was found.
    pub open spec fn mode(self) -> Option<Mode> {
        match self.stage {
            StageView::TenantPage(mode) => Some(mode),
            StageView::GlobalPage(mode) => Some(mode),
            _ => None,
        }
    }

    /// What the answer to the pending question leads to.
    ///
    /// A present marker turns to the maintenance pages, the one under the
    /// web root before the tenant's. The pages are tried in order, the
    /// tenant's first, and the built-in page closes the list. Without a
    /// marker the requested place is resolved and read.
    pub open spec fn next(self, answer: AnswerView) -> StepView {
        match self.stage {
            StageView::GlobalMarker => StepView::Continue(
                self.at(
                    if answer.affirmed() {
                        StageView::TenantPage(Mode::Global)
                    } else {
                        StageView::TenantMarker
                    },
                ),
            ),
            StageView::TenantMarker => StepView::Continue(
                self.at(
                    if answer.affirmed() {
                        StageView::TenantPage(Mode::Tenant)
                    } else {
                        StageView::Directory
                    },
                ),
            ),
            StageView::TenantPage(mode) => match answer.bytes() {
                Some(page) => StepView::Done(maintenance_response(page)),
                None => StepView::Continue(self.at(StageView::GlobalPage(mode))),
            },
            StageView::GlobalPage(_) => match answer.bytes() {
                Some(page) => StepView::Done(maintenance_response(page)),
                None => StepView::Done(maintenance_response(default_page())),
            },
            StageView::Directory => StepView::Continue(
                self.at(
                    StageView::Content(
                        resolved(
                            self.web_root,
                            self.tenant,
                            self.request_path,
                            answer.affirmed(),
                        ),
                    ),
                ),
            ),
            StageView::Content(file) => StepView::Done(content_response(file, answer.bytes())),
        }
    }
}

impl Answer {
    /// Tells whether the answer says yes.
    pub fn is_yes(&self) -> (yes: bool)
        ensures
            yes == self@.affirmed(),
    {
        match self {
            Answer::Flag(flag) => *flag,
            Answer::Contents(_) => false,
        }
    }

    /// Gives the bytes that were read, if any were.
    pub fn into_bytes(self) -> (bytes: Option<Vec<u8>>)
        ensures
            match bytes {
                Some(b) => self@.bytes() == Some(b@),
                None => self@.bytes() is None,
            },
    {
        match self {
            Answer::Contents(contents) => contents,
            Answer::Flag(_) => None,
        }
    }
}

impl Pipeline {
    /// Takes a request in: resolves its tenant and puts the first question.
    pub fn start(web_root: &str, request: &Request) -> (pipeline: Pipeline)
        ensures
            pipeline@ == started(
                web_root@,
                match request.host {
                    Some(value) => Some(value@),
                    None => None,
                },
                request.path@,
            ),
    {
        let tenant = match &request.host {
            Some(value) => resolve_tenant(Some(value.as_slice())),
            None => resolve_tenant(None),
        };
        Pipeline {
            web_root: web_root.to_owned(),
            tenant,
            request_path: request.path.clone(),
            stage: Stage::GlobalMarker,
        }
    }

    /// The tenant that the request was resolved to.
    pub fn tenant(&self) -> (tenant: &str)
        ensures
            tenant@ == self@.tenant,
    {
        self.tenant.as_str()
    }

    /// The marker that switched maintenance mode on, once one was found.
    pub fn mode(&self) -> (mode: Option<Mode>)
        ensures
            mode == self@.mode(),
    {
        match &self.stage {
            Stage::TenantPage(mode) => Some(*mode),
            Stage::GlobalPage(mode) => Some(*mode),
            _ => None,
        }
    }

    /// The question to put to the filesystem now.
    pub fn query(&self) -> (query: Query)
        ensures
            query@ == self@.query(),
    {
        match &self.stage {
            Stage::GlobalMarker => Query::Exists(join(self.web_root.as_str(), MARKER_FILE)),
            Stage::TenantMarker => {
                let root = join(self.web_root.as_str(), self.tenant.as_str());
                Query::Exists(join(root.as_str(), MARKER_FILE))
            },
            Stage::TenantPage(_) => {
                let root = join(self.web_root.as_str(), self.tenant.as_str());
                Query::Read(join(root.as_str(), MAINTENANCE_PAGE))
            },
            Stage::GlobalPage(_) => Query::Read(join(self.web_root.as_str(), MAINTENANCE_PAGE)),
            Stage::Directory => Query::IsDirectory(
                requested_path(
                    self.web_root.as_str(),
                    self.tenant.as_str(),
                    self.request_path.as_str(),
                ),
            ),
            Stage::Content(file) => Query::Read(file.clone()),
        }
    }

    /// Takes the answer to the pending question and moves on.
    ///
    /// Every answer leads strictly closer to the response, so a request is
    /// resolved after four answers at most, whatever they are.
    pub fn advance(self, answer: Answer) -> (step: Step)
        ensures
            step@ == self@.next(answer@),
            match step {
                Step::Continue(pipeline) => pipeline@.stage.steps_left() < self@.stage.steps_left(),
                Step::Done(_) => true,
            },
    {
        let Pipeline { web_root, tenant, request_path, stage } = self;
        match stage {
            Stage::GlobalMarker => {
                let stage = if answer.is_yes() {
                    Stage::TenantPage(Mode::Global)
                } else {
                    Stage::TenantMarker
                };
                Step::Continue(Pipeline { web_root, tenant, request_path, stage })
            },
            Stage::TenantMarker => {
                let stage = if answer.is_yes() {
                    Stage::TenantPage(Mode::Tenant)
                } else {
                    Stage::Directory
                };
                Step::Continue(Pipeline { web_root, tenant, request_path, stage })
            },
            Stage::TenantPage(mode) => match answer.into_bytes() {
                Some(page) => Step::Done(Response::maintenance(page)),
                None => Step::Continue(
                    Pipeline { web_root, tenant, request_path, stage: Stage::GlobalPage(mode) },
                ),
            },
            Stage::GlobalPage(_) => match answer.into_bytes() {
                Some(page) => Step::Done(Response::maintenance(page)),
                None => Step::Done(Response::maintenance(default_page_bytes())),
            },
            Stage::Directory => {
                let place = requested_path(
                    web_root.as_str(),
                    tenant.as_str(),
                    request_path.as_str(),
                );
                let file = with_index(place, request_path.as_str(), answer.is_yes());
                Step::Continue(
                    Pipeline { web_root, tenant, request_path, stage: Stage::Content(file) },
                )
            },
            Stage::Content(file) => Step::Done(respond(file.as_str(), answer.into_bytes())),
        }
    }
}

} // verus!
