//! Paths as strings: joining, and the places that a request is looked up at.
//!
//! Joining follows the Unix rule of `PathBuf::push`: an absolute segment
//! replaces what came before it, any other is appended behind one separator.
//! Nothing else is normalised; `..` segments are kept as they are.

use vstd::prelude::*;
use vstd::string::*;

verus! {

/// The name of the file whose presence switches maintenance mode on.
pub const MARKER_FILE: &'static str = ".maintenance";

/// The name of the file that holds a maintenance page.
pub const MAINTENANCE_PAGE: &'static str = "maintenance.html";

/// The name of the file served for a directory.
pub const INDEX_FILE: &'static str = "index.html";

/// A path that starts at the root.
pub open spec fn is_absolute(path: Seq<char>) -> bool {
    path.len() > 0 && path[0] == '/'
}

/// A path whose last character is the separator.
pub open spec fn has_trailing_separator(path: Seq<char>) -> bool {
    path.len() > 0 && path[path.len() - 1] == '/'
}

/// `base` extended by `segment`.
pub open spec fn joined(base: Seq<char>, segment: Seq<char>) -> Seq<char> {
    if is_absolute(segment) {
        segment
    } else if base.len() == 0 || has_trailing_separator(base) {
        base + segment
    } else {
        base.push('/') + segment
    }
}

/// A path without its first character where that is the separator. Only one
/// separator is taken off.
pub open spec fn without_leading_separator(path: Seq<char>) -> Seq<char> {
    if is_absolute(path) {
        path.subrange(1, path.len() as int)
    } else {
        path
    }
}

/// The marker of maintenance for every tenant.
pub open spec fn global_marker(web_root: Seq<char>) -> Seq<char> {
    joined(web_root, MARKER_FILE@)
}

/// The marker of maintenance for one tenant.
pub open spec fn tenant_marker(web_root: Seq<char>, tenant: Seq<char>) -> Seq<char> {
    joined(joined(web_root, tenant), MARKER_FILE@)
}

/// The maintenance page shared by all tenants.
pub open spec fn global_page(web_root: Seq<char>) -> Seq<char> {
    joined(web_root, MAINTENANCE_PAGE@)
}

/// The maintenance page of one tenant.
pub open spec fn tenant_page(web_root: Seq<char>, tenant: Seq<char>) -> Seq<char> {
    joined(joined(web_root, tenant), MAINTENANCE_PAGE@)
}

/// The place a request path names under the tenant's root, before any index
/// file is considered.
pub open spec fn requested(web_root: Seq<char>, tenant: Seq<char>, request_path: Seq<char>) -> Seq<
    char,
> {
    joined(joined(web_root, tenant), without_leading_separator(request_path))
}

/// Whether the index file is served in place of `requested`: when that is a
/// directory, or when the request path as it came ends with a separator.
pub open spec fn wants_index(request_path: Seq<char>, is_directory: bool) -> bool {
    is_directory || has_trailing_separator(request_path)
}

/// The file to read for a request, given whether `requested` is a directory.
pub open spec fn resolved(
    web_root: Seq<char>,
    tenant: Seq<char>,
    request_path: Seq<char>,
    is_directory: bool,
) -> Seq<char> {
    let place = requested(web_root, tenant, request_path);
    if wants_index(request_path, is_directory) {
        joined(place, INDEX_FILE@)
    } else {
        place
    }
}

/// Tells whether a path starts with the separator.
pub fn starts_with_separator(path: &str) -> (r: bool)
    ensures
        r == is_absolute(path@),
{
    path.unicode_len() > 0 && path.get_char(0) == '/'
}

/// Tells whether a path ends with the separator.
pub fn ends_with_separator(path: &str) -> (r: bool)
    ensures
        r == has_trailing_separator(path@),
{
    let len: usize = path.unicode_len();
    len > 0 && path.get_char(len - 1) == '/'
}

/// Takes one leading separator off a path, so that joining it to a root keeps
/// the root.
pub fn strip_leading_separator(path: &str) -> (rest: &str)
    ensures
        rest@ == without_leading_separator(path@),
{
    if starts_with_separator(path) {
        path.substring_char(1, path.unicode_len())
    } else {
        path
    }
}

/// Extends `base` by `segment`.
pub fn join(base: &str, segment: &str) -> (path: String)
    ensures
        path@ == joined(base@, segment@),
{
    if starts_with_separator(segment) {
        return segment.to_owned();
    }
    let mut path = base.to_owned();
    if !(base.unicode_len() == 0 || ends_with_separator(base)) {
        proof {
            reveal_strlit("/");
        }
        path.append("/");
        assert(path@ =~= base@.push('/'));
    }
    path.append(segment);
    path
}

/// Builds the place that a request path names under the tenant's root.
pub fn requested_path(web_root: &str, tenant: &str, request_path: &str) -> (place: String)
    ensures
        place@ == requested(web_root@, tenant@, request_path@),
{
    let root = join(web_root, tenant);
    join(root.as_str(), strip_leading_separator(request_path))
}

/// Picks the file to read: the index file under `place` when `place` is a
/// directory or the request path ends with a separator, else `place` itself.
pub fn with_index(place: String, request_path: &str, is_directory: bool) -> (file: String)
    ensures
        file@ == if wants_index(request_path@, is_directory) {
            joined(place@, INDEX_FILE@)
        } else {
            place@
        },
{
    if is_directory || ends_with_separator(request_path) {
        join(place.as_str(), INDEX_FILE)
    } else {
        place
    }
}

/// The three file names are relative, so joining one to a directory appends
/// it and never replaces the directory.
pub proof fn lemma_file_names_relative()
    ensures
        !is_absolute(MARKER_FILE@),
        !is_absolute(MAINTENANCE_PAGE@),
        !is_absolute(INDEX_FILE@),
{
    reveal_strlit(".maintenance");
    reveal_strlit("maintenance.html");
    reveal_strlit("index.html");
}

/// A request path that ends with a separator is served from the same file as
/// the path that names the index file behind it: `/docs/` and
/// `/docs/index.html` lead to one place, unless the latter is a directory.
pub proof fn lemma_trailing_separator_names_index(
    web_root: Seq<char>,
    tenant: Seq<char>,
    request_path: Seq<char>,
    is_directory: bool,
)
    requires
        has_trailing_separator(request_path),
    ensures
        resolved(web_root, tenant, request_path, is_directory) == requested(
            web_root,
            tenant,
            request_path + INDEX_FILE@,
        ),
        resolved(web_root, tenant, request_path, is_directory) == resolved(
            web_root,
            tenant,
            request_path + INDEX_FILE@,
            false,
        ),
{
    lemma_file_names_relative();
    reveal_strlit("index.html");
    let root = joined(web_root, tenant);
    let named = request_path + INDEX_FILE@;
    let rest = without_leading_separator(request_path);
    assert(!has_trailing_separator(named)) by {
        assert(named[named.len() - 1] == INDEX_FILE@[INDEX_FILE@.len() - 1]);
    }
    assert(without_leading_separator(named) =~= rest + INDEX_FILE@);
    if rest.len() == 0 {
        assert(rest + INDEX_FILE@ =~= INDEX_FILE@);
        assert(root + rest =~= root);
        assert(root.push('/') + rest =~= root.push('/'));
        assert(root.push('/') + INDEX_FILE@ =~= joined(root.push('/'), INDEX_FILE@));
    } else {
        assert(rest[rest.len() - 1] == request_path[request_path.len() - 1]);
        assert((rest + INDEX_FILE@)[0] == rest[0]);
        let place = joined(root, rest);
        assert(place[place.len() - 1] == '/');
        assert(place + INDEX_FILE@ =~= joined(root, rest + INDEX_FILE@));
    }
}

} // verus!
