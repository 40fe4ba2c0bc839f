//! What a request is answered with, stated against a disk that stands still.
//!
//! `FileSystem` is the disk as far as the library can ask about it, and
//! `served` says in one expression which response a request gets from it.
//! `outcome` runs the pipeline against such a disk; `theorem_pipeline_serves`
//! shows that the two agree.

use crate::content::{content_response, content_type_of, OCTET_STREAM};
use crate::maintenance::{default_page, mode_of, page_of, Mode};
use crate::paths::{
    global_marker, global_page, has_trailing_separator, lemma_trailing_separator_names_index,
    requested, resolved, tenant_marker, tenant_page, INDEX_FILE,
};
use crate::pipeline::{started, AnswerView, PipelineView, QueryView, StageView, StepView};
use crate::response::{
    empty_response, file_response, lemma_headers_by_name, maintenance_response, ResponseView,
    STATUS_OK, STATUS_UNAVAILABLE,
};
use crate::tenant::{
    ascii_text, decodable, is_visible, lemma_host_name_len_unique, tenant_id, DEFAULT_TENANT,
};
use vstd::prelude::*;

verus! {

/// The disk at one moment: the paths at which something is present, those
/// that are directories, and the bytes of the files that can be read. The
/// three are independent of each other: a path can be present and unreadable.
pub struct FileSystem {
    pub present: Set<Seq<char>>,
    pub directories: Set<Seq<char>>,
    pub files: Map<Seq<char>, Seq<u8>>,
}

impl FileSystem {
    /// The bytes of the file at `path`, where it can be read.
    pub open spec fn read(self, path: Seq<char>) -> Option<Seq<u8>> {
        if self.files.dom().contains(path) {
            Some(self.files[path])
        } else {
            None
        }
    }

    /// What this disk says to a question.
    pub open spec fn answer(self, query: QueryView) -> AnswerView {
        match query {
            QueryView::Exists(path) => AnswerView::Flag(self.present.contains(path)),
            QueryView::IsDirectory(path) => AnswerView::Flag(self.directories.contains(path)),
            QueryView::Read(path) => AnswerView::Contents(self.read(path)),
        }
    }

    /// The maintenance mode that the markers on this disk put a tenant in.
    pub open spec fn mode(self, web_root: Seq<char>, tenant: Seq<char>) -> Option<Mode> {
        mode_of(
            self.present.contains(global_marker(web_root)),
            self.present.contains(tenant_marker(web_root, tenant)),
        )
    }

    /// The page shown to a tenant in maintenance mode.
    pub open spec fn maintenance_page(self, web_root: Seq<char>, tenant: Seq<char>) -> Seq<u8> {
        page_of(self.read(tenant_page(web_root, tenant)), self.read(global_page(web_root)))
    }

    /// The file that a request path of a tenant is served from.
    pub open spec fn target(self, web_root: Seq<char>, tenant: Seq<char>, request_path: Seq<char>)
        -> Seq<char> {
        resolved(
            web_root,
            tenant,
            request_path,
            self.directories.contains(requested(web_root, tenant, request_path)),
        )
    }
}

/// The response to a request, given the disk: the maintenance page with
/// status 503 where a marker is present for the tenant, else the requested
/// file, or the empty response where that cannot be read.
pub open spec fn served(
    fs: FileSystem,
    web_root: Seq<char>,
    host: Option<Seq<u8>>,
    request_path: Seq<char>,
) -> ResponseView {
    let tenant = tenant_id(host);
    match fs.mode(web_root, tenant) {
        Some(_) => maintenance_response(fs.maintenance_page(web_root, tenant)),
        None => {
            let file = fs.target(web_root, tenant, request_path);
            content_response(file, fs.read(file))
        },
    }
}

/// The response that the pipeline reaches when `fs` answers its questions,
/// or `None` where `limit` answers are not enough.
pub open spec fn outcome(fs: FileSystem, pipeline: PipelineView, limit: nat) -> Option<
    ResponseView,
>
    decreases limit,
{
    if limit == 0 {
        None
    } else {
        match pipeline.next(fs.answer(pipeline.query())) {
            StepView::Done(response) => Some(response),
            StepView::Continue(then) => outcome(fs, then, (limit - 1) as nat),
        }
    }
}

/// Every answer brings a pipeline closer to its response: the stage that
/// follows needs fewer answers, and a stage that needs one gives the response.
pub proof fn lemma_answers_make_progress(pipeline: PipelineView, answer: AnswerView)
    ensures
        match pipeline.next(answer) {
            StepView::Continue(then) => then.stage.steps_left() < pipeline.stage.steps_left(),
            StepView::Done(_) => true,
        },
        pipeline.stage.steps_left() == 1 ==> pipeline.next(answer) is Done,
        1 <= pipeline.stage.steps_left() <= 4,
{
}

/// From any stage, on any disk, the pipeline reaches exactly one response
/// within the answers that the stage allows for, and more answers than that
/// change nothing.
pub proof fn theorem_pipeline_terminates(fs: FileSystem, pipeline: PipelineView, limit: nat)
    requires
        pipeline.stage.steps_left() <= limit,
    ensures
        outcome(fs, pipeline, limit) is Some,
        outcome(fs, pipeline, limit) == outcome(fs, pipeline, pipeline.stage.steps_left()),
    decreases limit,
{
    let answer = fs.answer(pipeline.query());
    lemma_answers_make_progress(pipeline, answer);
    match pipeline.next(answer) {
        StepView::Done(_) => {},
        StepView::Continue(then) => {
            theorem_pipeline_terminates(fs, then, (limit - 1) as nat);
            theorem_pipeline_terminates(fs, then, (pipeline.stage.steps_left() - 1) as nat);
        },
    }
}

/// A request that has just come in is resolved within four answers, and the
/// response is the one that `served` describes.
pub proof fn theorem_pipeline_serves(
    fs: FileSystem,
    web_root: Seq<char>,
    host: Option<Seq<u8>>,
    request_path: Seq<char>,
)
    ensures
        outcome(fs, started(web_root, host, request_path), 4) == Some(
            served(fs, web_root, host, request_path),
        ),
{
    let tenant = tenant_id(host);
    let first = started(web_root, host, request_path);
    reveal_with_fuel(outcome, 5);
    if fs.present.contains(global_marker(web_root)) {
        assert(first.next(fs.answer(first.query())) == StepView::Continue(
            first.at(StageView::TenantPage(Mode::Global)),
        ));
    } else {
        let second = first.at(StageView::TenantMarker);
        assert(first.next(fs.answer(first.query())) == StepView::Continue(second));
        if fs.present.contains(tenant_marker(web_root, tenant)) {
            assert(second.next(fs.answer(second.query())) == StepView::Continue(
                second.at(StageView::TenantPage(Mode::Tenant)),
            ));
        } else {
            let third = second.at(StageView::Directory);
            assert(second.next(fs.answer(second.query())) == StepView::Continue(third));
        }
    }
}

/// The pipeline learns the maintenance mode from the markers, the one under
/// the web root first: where that is present the mode is global whether or
/// not the tenant has a marker too, and the tenant's marker is not asked for.
pub proof fn theorem_mode_follows_markers(
    fs: FileSystem,
    web_root: Seq<char>,
    host: Option<Seq<u8>>,
    request_path: Seq<char>,
)
    ensures
        ({
            let first = started(web_root, host, request_path);
            match first.next(fs.answer(first.query())) {
                StepView::Done(_) => false,
                StepView::Continue(second) => if fs.present.contains(global_marker(web_root)) {
                    second.mode() == Some(Mode::Global) && second.mode() == fs.mode(
                        web_root,
                        tenant_id(host),
                    )
                } else {
                    match second.next(fs.answer(second.query())) {
                        StepView::Done(_) => false,
                        StepView::Continue(third) => third.mode() == fs.mode(
                            web_root,
                            tenant_id(host),
                        ),
                    }
                },
            }
        }),
{
}

/// The same request on the same disk gives the same response, however often
/// it is made and however many answers each run is allowed beyond four.
pub proof fn theorem_same_request_same_response(
    fs: FileSystem,
    web_root: Seq<char>,
    host: Option<Seq<u8>>,
    request_path: Seq<char>,
    first_limit: nat,
    second_limit: nat,
)
    requires
        first_limit >= 4,
        second_limit >= 4,
    ensures
        outcome(fs, started(web_root, host, request_path), first_limit) == outcome(
            fs,
            started(web_root, host, request_path),
            second_limit,
        ),
        outcome(fs, started(web_root, host, request_path), first_limit) == Some(
            served(fs, web_root, host, request_path),
        ),
{
    let first = started(web_root, host, request_path);
    theorem_pipeline_terminates(fs, first, first_limit);
    theorem_pipeline_terminates(fs, first, second_limit);
    theorem_pipeline_serves(fs, web_root, host, request_path);
}

/// While the marker under the web root is present, every request of every
/// tenant is answered with status 503 and `Retry-After: 300`, whether or not
/// the file it asks for is there.
pub proof fn theorem_global_marker_stops_everything(
    fs: FileSystem,
    web_root: Seq<char>,
    host: Option<Seq<u8>>,
    request_path: Seq<char>,
)
    requires
        fs.present.contains(global_marker(web_root)),
    ensures
        outcome(fs, started(web_root, host, request_path), 4) == Some(
            served(fs, web_root, host, request_path),
        ),
        served(fs, web_root, host, request_path).status == STATUS_UNAVAILABLE,
        served(fs, web_root, host, request_path).header("Retry-After"@) == Some("300"@),
        served(fs, web_root, host, request_path).header("Content-Type"@) == Some("text/html"@),
{
    theorem_pipeline_serves(fs, web_root, host, request_path);
    lemma_headers_by_name(
        Seq::empty(),
        fs.maintenance_page(web_root, tenant_id(host)),
        Seq::empty(),
    );
}

/// A marker under one tenant's root stops that tenant alone: its requests
/// get status 503, and those of a tenant without a marker of its own are
/// served as usual, with status 200.
pub proof fn theorem_tenant_marker_stops_its_tenant(
    fs: FileSystem,
    web_root: Seq<char>,
    host: Option<Seq<u8>>,
    request_path: Seq<char>,
    other_host: Option<Seq<u8>>,
    other_path: Seq<char>,
)
    requires
        !fs.present.contains(global_marker(web_root)),
        fs.present.contains(tenant_marker(web_root, tenant_id(host))),
        !fs.present.contains(tenant_marker(web_root, tenant_id(other_host))),
    ensures
        outcome(fs, started(web_root, host, request_path), 4) == Some(
            served(fs, web_root, host, request_path),
        ),
        served(fs, web_root, host, request_path).status == STATUS_UNAVAILABLE,
        served(fs, web_root, host, request_path).header("Retry-After"@) == Some("300"@),
        outcome(fs, started(web_root, other_host, other_path), 4) == Some(
            served(fs, web_root, other_host, other_path),
        ),
        served(fs, web_root, other_host, other_path).status == STATUS_OK,
        served(fs, web_root, other_host, other_path) == content_response(
            fs.target(web_root, tenant_id(other_host), other_path),
            fs.read(fs.target(web_root, tenant_id(other_host), other_path)),
        ),
{
    theorem_pipeline_serves(fs, web_root, host, request_path);
    theorem_pipeline_serves(fs, web_root, other_host, other_path);
    lemma_headers_by_name(
        Seq::empty(),
        fs.maintenance_page(web_root, tenant_id(host)),
        Seq::empty(),
    );
}

/// Outside maintenance mode, a request for a file that cannot be read is
/// answered with status 200, no body and no header, so no `Content-Type`.
pub proof fn theorem_missing_file_is_empty_ok(
    fs: FileSystem,
    web_root: Seq<char>,
    host: Option<Seq<u8>>,
    request_path: Seq<char>,
)
    requires
        fs.mode(web_root, tenant_id(host)) is None,
        fs.read(fs.target(web_root, tenant_id(host), request_path)) is None,
    ensures
        outcome(fs, started(web_root, host, request_path), 4) == Some(empty_response()),
        empty_response().status == STATUS_OK,
        empty_response().body.len() == 0,
        empty_response().header("Content-Type"@) is None,
{
    theorem_pipeline_serves(fs, web_root, host, request_path);
    lemma_headers_by_name(Seq::empty(), Seq::empty(), "Content-Type"@);
}

/// Outside maintenance mode, a file that can be read is served with status
/// 200, its bytes as the body and its content type as the only header; a
/// file without a `.` in its path goes out as `application/octet-stream`.
pub proof fn theorem_readable_file_is_served(
    fs: FileSystem,
    web_root: Seq<char>,
    host: Option<Seq<u8>>,
    request_path: Seq<char>,
)
    requires
        fs.mode(web_root, tenant_id(host)) is None,
        fs.read(fs.target(web_root, tenant_id(host), request_path)) is Some,
    ensures
        ({
            let file = fs.target(web_root, tenant_id(host), request_path);
            let response = file_response(content_type_of(file), fs.files[file]);
            &&& outcome(fs, started(web_root, host, request_path), 4) == Some(response)
            &&& response.status == STATUS_OK
            &&& response.body == fs.files[file]
            &&& response.header("Content-Type"@) == Some(content_type_of(file))
            &&& !file.contains('.') ==> response.header("Content-Type"@) == Some(OCTET_STREAM@)
        }),
{
    let file = fs.target(web_root, tenant_id(host), request_path);
    theorem_pipeline_serves(fs, web_root, host, request_path);
    lemma_headers_by_name(content_type_of(file), fs.files[file], Seq::empty());
}

/// A request path that ends with a separator gets the response of the index
/// file behind it: `/docs/` is answered as `/docs/index.html` is, as long
/// as nothing stands in the index file's place that is a directory.
pub proof fn theorem_trailing_separator_serves_index(
    fs: FileSystem,
    web_root: Seq<char>,
    host: Option<Seq<u8>>,
    request_path: Seq<char>,
)
    requires
        has_trailing_separator(request_path),
        !fs.directories.contains(
            requested(web_root, tenant_id(host), request_path + INDEX_FILE@),
        ),
    ensures
        served(fs, web_root, host, request_path) == served(
            fs,
            web_root,
            host,
            request_path + INDEX_FILE@,
        ),
{
    let tenant = tenant_id(host);
    lemma_trailing_separator_names_index(
        web_root,
        tenant,
        request_path,
        fs.directories.contains(requested(web_root, tenant, request_path)),
    );
}

/// In maintenance mode the body is the tenant's page where that can be read,
/// else the page under the web root where that can be read, else the
/// built-in page. Which marker switched the mode on makes no difference.
pub proof fn theorem_maintenance_page_order(
    fs: FileSystem,
    web_root: Seq<char>,
    host: Option<Seq<u8>>,
    request_path: Seq<char>,
)
    requires
        fs.mode(web_root, tenant_id(host)) is Some,
    ensures
        outcome(fs, started(web_root, host, request_path), 4) == Some(
            served(fs, web_root, host, request_path),
        ),
        fs.read(tenant_page(web_root, tenant_id(host))) is Some ==> Some(
            served(fs, web_root, host, request_path).body,
        ) == fs.read(tenant_page(web_root, tenant_id(host))),
        fs.read(tenant_page(web_root, tenant_id(host))) is None && fs.read(global_page(web_root))
            is Some ==> Some(served(fs, web_root, host, request_path).body) == fs.read(
            global_page(web_root),
        ),
        fs.read(tenant_page(web_root, tenant_id(host))) is None && fs.read(global_page(web_root))
            is None ==> served(fs, web_root, host, request_path).body == default_page(),
{
    theorem_pipeline_serves(fs, web_root, host, request_path);
}

/// A port behind the host name does not change the tenant: `name:port` and
/// `name` resolve to the same identifier, the name itself.
pub proof fn theorem_port_is_ignored(name: Seq<u8>, port: Seq<u8>)
    requires
        name.len() > 0,
        decodable(name),
        decodable(port),
        forall|i: int| 0 <= i < name.len() ==> name[i] != 58u8,
    ensures
        tenant_id(Some(name + seq![58u8] + port)) == tenant_id(Some(name)),
        tenant_id(Some(name)) == ascii_text(name),
{
    let with_port = name + seq![58u8] + port;
    assert(decodable(with_port)) by {
        assert forall|i: int| 0 <= i < with_port.len() implies is_visible(#[trigger] with_port[i]) by {
            if i < name.len() {
                assert(with_port[i] == name[i]);
            } else if i > name.len() {
                assert(with_port[i] == port[i - name.len() - 1]);
            }
        }
    }
    lemma_host_name_len_unique(name, name.len() as int);
    lemma_host_name_len_unique(with_port, name.len() as int);
    assert(with_port.take(name.len() as int) =~= name);
    assert(name.take(name.len() as int) =~= name);
}

/// A request without a `Host` header, or with an empty one, belongs to the
/// default tenant.
pub proof fn theorem_no_host_is_default_tenant()
    ensures
        tenant_id(None) == DEFAULT_TENANT@,
        tenant_id(Some(Seq::empty())) == DEFAULT_TENANT@,
{
}

} // verus!
