use vhost_static::maintenance::{Mode, DEFAULT_MAINTENANCE_HTML};
use vhost_static::pipeline::{Answer, Pipeline, Query, Request, Step};
use vhost_static::response::Response;

/// A disk held in memory: files with their bytes, directories, and paths
/// that are present but cannot be read.
#[derive(Default)]
struct Disk {
    files: Vec<(String, Vec<u8>)>,
    directories: Vec<String>,
    unreadable: Vec<String>,
}

impl Disk {
    fn file(mut self, path: &str, bytes: &[u8]) -> Disk {
        self.files.push((path.to_string(), bytes.to_vec()));
        self
    }

    fn directory(mut self, path: &str) -> Disk {
        self.directories.push(path.to_string());
        self
    }

    fn unreadable(mut self, path: &str) -> Disk {
        self.unreadable.push(path.to_string());
        self
    }

    fn read(&self, path: &str) -> Option<Vec<u8>> {
        self.files.iter().find(|(p, _)| p == path).map(|(_, bytes)| bytes.clone())
    }

    fn is_directory(&self, path: &str) -> bool {
        self.directories.iter().any(|p| p == path)
    }

    fn present(&self, path: &str) -> bool {
        self.read(path).is_some()
            || self.is_directory(path)
            || self.unreadable.iter().any(|p| p == path)
    }

    fn answer(&self, query: &Query) -> Answer {
        match query {
            Query::Exists(path) => Answer::Flag(self.present(path)),
            Query::IsDirectory(path) => Answer::Flag(self.is_directory(path)),
            Query::Read(path) => Answer::Contents(self.read(path)),
        }
    }
}

fn request(host: Option<&str>, path: &str) -> Request {
    Request { host: host.map(|h| h.as_bytes().to_vec()), path: path.to_string() }
}

/// Runs a request against the disk and gives the response with the
/// questions that were asked on the way.
fn trace(disk: &Disk, web_root: &str, host: Option<&str>, path: &str) -> (Response, Vec<String>) {
    let mut pipeline = Pipeline::start(web_root, &request(host, path));
    let mut asked = Vec::new();
    loop {
        let query = pipeline.query();
        asked.push(format!("{:?}", query));
        assert!(asked.len() <= 4, "more than four questions: {:?}", asked);
        match pipeline.advance(disk.answer(&query)) {
            Step::Continue(next) => pipeline = next,
            Step::Done(response) => return (response, asked),
        }
    }
}

fn serve(disk: &Disk, web_root: &str, host: Option<&str>, path: &str) -> Response {
    trace(disk, web_root, host, path).0
}

fn site() -> Disk {
    Disk::default()
        .directory("/tmp/root")
        .directory("/tmp/root/x")
        .directory("/tmp/root/x/")
        .file("/tmp/root/x/index.html", b"hi")
        .directory("/tmp/root/x/docs")
        .file("/tmp/root/x/docs/index.html", b"docs")
        .file("/tmp/root/x/logo.png", &[0x89, b'P', b'N', b'G'])
        .directory("/tmp/root/y")
        .directory("/tmp/root/y/")
        .file("/tmp/root/y/index.html", b"why")
}

#[test]
fn index_is_served_for_the_root_and_by_name() {
    let disk = site();
    for path in ["/", "/index.html"] {
        let r = serve(&disk, "/tmp/root", Some("x"), path);
        assert_eq!(r.status, 200, "{}", path);
        assert_eq!(r.body, b"hi", "{}", path);
        assert!(r.header("Content-Type").unwrap().starts_with("text/html"), "{}", path);
    }
}

#[test]
fn host_with_port_reaches_the_same_tenant() {
    let disk = site();
    let r = serve(&disk, "/tmp/root", Some("x:8080"), "/index.html");
    assert_eq!(r.status, 200);
    assert_eq!(r.body, b"hi");
    let r = serve(&disk, "/tmp/root", Some("y:80"), "/");
    assert_eq!(r.body, b"why");
}

#[test]
fn request_without_host_goes_to_the_default_tenant() {
    let disk = site().file("/tmp/root/default/index.html", b"fallback");
    let r = serve(&disk, "/tmp/root", None, "/index.html");
    assert_eq!(r.status, 200);
    assert_eq!(r.body, b"fallback");
    let pipeline = Pipeline::start("/tmp/root", &request(None, "/"));
    assert_eq!(pipeline.tenant(), "default");
    let pipeline = Pipeline::start(
        "/tmp/root",
        &Request { host: Some(vec![0xff, 0xfe]), path: "/".to_string() },
    );
    assert_eq!(pipeline.tenant(), "default");
}

#[test]
fn questions_of_a_plain_request() {
    let (r, asked) = trace(&site(), "/tmp/root", Some("x"), "/logo.png");
    assert_eq!(
        asked,
        vec![
            "Exists(\"/tmp/root/.maintenance\")",
            "Exists(\"/tmp/root/x/.maintenance\")",
            "IsDirectory(\"/tmp/root/x/logo.png\")",
            "Read(\"/tmp/root/x/logo.png\")",
        ]
    );
    assert_eq!(r.status, 200);
    assert_eq!(r.header("Content-Type"), Some("image/png"));
    assert_eq!(r.body, vec![0x89, b'P', b'N', b'G']);
}

#[test]
fn directory_without_trailing_separator_gets_its_index() {
    let (r, asked) = trace(&site(), "/tmp/root", Some("x"), "/docs");
    assert_eq!(asked[2], "IsDirectory(\"/tmp/root/x/docs\")");
    assert_eq!(asked[3], "Read(\"/tmp/root/x/docs/index.html\")");
    assert_eq!(r.status, 200);
    assert_eq!(r.body, b"docs");
    assert_eq!(r.header("Content-Type"), Some("text/html"));
}

#[test]
fn trailing_separator_asks_for_the_index_even_without_a_directory() {
    let (r, asked) = trace(&site(), "/tmp/root", Some("x"), "/new/");
    assert_eq!(asked[2], "IsDirectory(\"/tmp/root/x/new/\")");
    assert_eq!(asked[3], "Read(\"/tmp/root/x/new/index.html\")");
    assert_eq!(r.status, 200);
    assert!(r.body.is_empty());
    assert!(r.headers.is_empty());
}

#[test]
fn missing_file_is_empty_ok() {
    let r = serve(&site(), "/tmp/root", Some("x"), "/nope.html");
    assert_eq!(r.status, 200);
    assert_ne!(r.status, 404);
    assert!(r.body.is_empty());
    assert_eq!(r.header("Content-Type"), None);
    assert!(r.headers.is_empty());
}

#[test]
fn unknown_tenant_is_empty_ok() {
    let r = serve(&site(), "/tmp/root", Some("nobody.example"), "/index.html");
    assert_eq!(r.status, 200);
    assert!(r.body.is_empty());
    assert!(r.headers.is_empty());
}

#[test]
fn unreadable_file_is_empty_ok() {
    let disk = site().unreadable("/tmp/root/x/secret.html");
    let r = serve(&disk, "/tmp/root", Some("x"), "/secret.html");
    assert_eq!(r.status, 200);
    assert!(r.body.is_empty());
    assert!(r.headers.is_empty());
}

#[test]
fn global_marker_stops_every_tenant() {
    let disk = site().file("/tmp/root/.maintenance", b"");
    for host in [Some("x"), Some("y"), Some("nobody"), None, Some("x:8080")] {
        for path in ["/", "/index.html", "/nope.html", "/docs", ""] {
            let r = serve(&disk, "/tmp/root", host, path);
            assert_eq!(r.status, 503, "{:?} {}", host, path);
            assert_eq!(r.header("Retry-After"), Some("300"));
            assert_eq!(r.header("Content-Type"), Some("text/html"));
            assert_eq!(r.body, DEFAULT_MAINTENANCE_HTML.as_bytes());
        }
    }
}

#[test]
fn marker_counts_by_presence_not_content() {
    for disk in [
        site().file("/tmp/root/.maintenance", b"anything"),
        site().directory("/tmp/root/.maintenance"),
        site().unreadable("/tmp/root/.maintenance"),
    ] {
        assert_eq!(serve(&disk, "/tmp/root", Some("x"), "/").status, 503);
    }
}

#[test]
fn tenant_marker_stops_that_tenant_only() {
    let disk = site().file("/tmp/root/x/.maintenance", b"");
    let r = serve(&disk, "/tmp/root", Some("x"), "/index.html");
    assert_eq!(r.status, 503);
    assert_eq!(r.header("Retry-After"), Some("300"));
    let r = serve(&disk, "/tmp/root", Some("y"), "/index.html");
    assert_eq!(r.status, 200);
    assert_eq!(r.body, b"why");
    let r = serve(&disk, "/tmp/root", Some("y"), "/nope");
    assert_eq!(r.status, 200);
    assert!(r.body.is_empty());
}

#[test]
fn global_marker_is_looked_for_first() {
    let disk = site().file("/tmp/root/.maintenance", b"").file("/tmp/root/x/.maintenance", b"");
    let (r, asked) = trace(&disk, "/tmp/root", Some("x"), "/");
    assert_eq!(r.status, 503);
    assert_eq!(
        asked,
        vec![
            "Exists(\"/tmp/root/.maintenance\")",
            "Read(\"/tmp/root/x/maintenance.html\")",
            "Read(\"/tmp/root/maintenance.html\")",
        ]
    );
}

#[test]
fn mode_names_the_marker_that_was_found() {
    let start = || Pipeline::start("/tmp/root", &request(Some("x"), "/"));
    assert_eq!(start().mode(), None);
    let Step::Continue(p) = start().advance(Answer::Flag(true)) else { panic!("done too early") };
    assert_eq!(p.mode(), Some(Mode::Global));
    let Step::Continue(p) = p.advance(Answer::Contents(None)) else { panic!("done too early") };
    assert_eq!(p.mode(), Some(Mode::Global));
    let Step::Continue(p) = start().advance(Answer::Flag(false)) else { panic!("done too early") };
    assert_eq!(p.mode(), None);
    let Step::Continue(p) = p.advance(Answer::Flag(true)) else { panic!("done too early") };
    assert_eq!(p.mode(), Some(Mode::Tenant));
    let Step::Continue(p) = start().advance(Answer::Flag(false)) else { panic!("done too early") };
    let Step::Continue(p) = p.advance(Answer::Flag(false)) else { panic!("done too early") };
    assert_eq!(p.mode(), None);
}

#[test]
fn tenant_page_comes_before_the_global_page() {
    let disk = site()
        .file("/tmp/root/x/.maintenance", b"")
        .file("/tmp/root/x/maintenance.html", b"tenant page")
        .file("/tmp/root/maintenance.html", b"global page");
    let r = serve(&disk, "/tmp/root", Some("x"), "/");
    assert_eq!(r.status, 503);
    assert_eq!(r.body, b"tenant page");
    // The same under the global marker.
    let disk = disk.file("/tmp/root/.maintenance", b"");
    assert_eq!(serve(&disk, "/tmp/root", Some("x"), "/").body, b"tenant page");
    assert_eq!(serve(&disk, "/tmp/root", Some("y"), "/").body, b"global page");
}

#[test]
fn global_page_comes_before_the_built_in_page() {
    let disk = site()
        .file("/tmp/root/x/.maintenance", b"")
        .file("/tmp/root/maintenance.html", b"global page");
    let r = serve(&disk, "/tmp/root", Some("x"), "/");
    assert_eq!(r.status, 503);
    assert_eq!(r.body, b"global page");
    assert_eq!(r.header("Content-Type"), Some("text/html"));
}

#[test]
fn built_in_page_is_the_last_resort() {
    let disk = site().file("/tmp/root/x/.maintenance", b"");
    let r = serve(&disk, "/tmp/root", Some("x"), "/");
    assert_eq!(r.status, 503);
    assert_eq!(r.body, DEFAULT_MAINTENANCE_HTML.as_bytes());
}

#[test]
fn unreadable_tenant_page_falls_back_to_the_global_page() {
    let disk = site()
        .file("/tmp/root/.maintenance", b"")
        .unreadable("/tmp/root/x/maintenance.html")
        .file("/tmp/root/maintenance.html", b"global page");
    assert_eq!(serve(&disk, "/tmp/root", Some("x"), "/").body, b"global page");
}

#[test]
fn empty_maintenance_page_is_served_as_it_is() {
    let disk = site().file("/tmp/root/.maintenance", b"").file("/tmp/root/maintenance.html", b"");
    let r = serve(&disk, "/tmp/root", Some("x"), "/");
    assert_eq!(r.status, 503);
    assert!(r.body.is_empty());
}

#[test]
fn same_request_twice_gives_the_same_response() {
    let disks = [
        site(),
        site().file("/tmp/root/.maintenance", b""),
        site().file("/tmp/root/x/.maintenance", b"").file("/tmp/root/x/maintenance.html", b"m"),
    ];
    for disk in &disks {
        for path in ["/", "/index.html", "/logo.png", "/nope", "/docs", "/docs/"] {
            let first = serve(disk, "/tmp/root", Some("x"), path);
            let second = serve(disk, "/tmp/root", Some("x"), path);
            assert_eq!(first.status, second.status);
            assert_eq!(first.headers, second.headers);
            assert_eq!(first.body, second.body);
        }
    }
}

#[test]
fn every_run_ends_within_four_answers() {
    let flags = [Answer::Flag(false), Answer::Flag(true)];
    let answers = || {
        vec![
            Answer::Flag(false),
            Answer::Flag(true),
            Answer::Contents(None),
            Answer::Contents(Some(b"b".to_vec())),
        ]
    };
    assert_eq!(flags.len(), 2);
    // Every sequence of four answers, fitting the question or not.
    for code in 0..256usize {
        let picks = [code % 4, code / 4 % 4, code / 16 % 4, code / 64 % 4];
        let mut pipeline = Pipeline::start("/tmp/root", &request(Some("x"), "/a.txt"));
        let mut done = None;
        for pick in picks {
            match pipeline.advance(answers().swap_remove(pick)) {
                Step::Continue(next) => pipeline = next,
                Step::Done(response) => {
                    done = Some(response);
                    break;
                }
            }
        }
        let response = done.expect("no response after four answers");
        assert!(response.status == 200 || response.status == 503);
    }
}

#[test]
fn answer_of_the_wrong_kind_counts_as_a_failure() {
    let start = || Pipeline::start("/tmp/root", &request(Some("x"), "/a.txt"));
    // Bytes are no answer to "is the marker present": it counts as absent.
    let Step::Continue(p) = start().advance(Answer::Contents(Some(vec![1]))) else {
        panic!("done too early")
    };
    assert_eq!(format!("{:?}", p.query()), "Exists(\"/tmp/root/x/.maintenance\")");
    let Step::Continue(p) = p.advance(Answer::Flag(false)) else { panic!("done too early") };
    let Step::Continue(p) = p.advance(Answer::Flag(false)) else { panic!("done too early") };
    // A flag is no answer to a read: it counts as unreadable.
    let Step::Done(r) = p.advance(Answer::Flag(true)) else { panic!("not done") };
    assert_eq!(r.status, 200);
    assert!(r.body.is_empty());
    assert!(r.headers.is_empty());
}

#[test]
fn web_root_with_trailing_separator() {
    let disk = Disk::default().file("/srv/x/a.css", b"body{}");
    let r = serve(&disk, "/srv/", Some("x"), "/a.css");
    assert_eq!(r.status, 200);
    assert_eq!(r.body, b"body{}");
    assert_eq!(r.header("Content-Type"), Some("text/css"));
}

#[test]
fn paths_are_not_hardened() {
    let disk = site().file("/tmp/root/x/../y/index.html", b"other");
    let r = serve(&disk, "/tmp/root", Some("x"), "/../y/index.html");
    assert_eq!(r.body, b"other");
    let (_, asked) = trace(&site(), "/tmp/root", Some("x"), "//etc/passwd");
    assert_eq!(asked[3], "Read(\"/etc/passwd\")");
}
