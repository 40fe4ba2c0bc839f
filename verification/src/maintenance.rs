//! Maintenance mode: what switches it on, and the page it shows.

use vstd::prelude::*;
use vstd::string::*;

verus! {

/// The page shown during maintenance where neither the tenant nor the web
/// root supplies one.
pub const DEFAULT_MAINTENANCE_HTML: &'static str = r#"<!DOCTYPE html>
<html lang="en">
<head>
    <meta charset="UTF-8">
    <meta name="viewport" content="width=device-width, initial-scale=1.0">
    <title>Maintenance</title>
    <style>
        body {
            font-family: -apple-system, BlinkMacSystemFont, "Segoe UI", Roboto, "Helvetica Neue", Arial, sans-serif;
            background-color: #f7f9fb;
            color: #333;
            display: flex;
            align-items: center;
            justify-content: center;
            height: 100vh;
            margin: 0;
        }
        .container {
            text-align: center;
            background: white;
            padding: 40px;
            border-radius: 8px;
            box-shadow: 0 4px 6px rgba(0,0,0,0.1);
            max-width: 500px;
            width: 90%;
        }
        h1 { margin-bottom: 20px; font-size: 24px; color: #2d3748; }
        p { color: #718096; line-height: 1.5; }
    </style>
</head>
<body>
    <div class="container">
        <h1>We'll be back soon!</h1>
        <p>We're currently performing some scheduled maintenance. We should be back shortly. Thank you for your patience.</p>
    </div>
</body>
</html>"#;

/// Which marker switched maintenance mode on. The marker under the web root
/// is looked for first, so it is the one reported where both are present.
#[derive(Clone, Copy, Debug, PartialEq, Eq, Structural)]
pub enum Mode {
    /// The marker under the web root is present: every tenant is affected.
    Global,
    /// Only the marker under the tenant's root is present.
    Tenant,
}

/// The mode that the two markers give, or `None` where neither is present.
pub open spec fn mode_of(global_marker: bool, tenant_marker: bool) -> Option<Mode> {
    if global_marker {
        Some(Mode::Global)
    } else if tenant_marker {
        Some(Mode::Tenant)
    } else {
        None
    }
}

/// The bytes of the built-in maintenance page.
pub open spec fn default_page() -> Seq<u8> {
    DEFAULT_MAINTENANCE_HTML.spec_bytes()
}

/// The page to show, given what could be read of the tenant's page and of
/// the shared one: the tenant's first, then the shared one, then the built-in.
pub open spec fn page_of(tenant_page: Option<Seq<u8>>, global_page: Option<Seq<u8>>) -> Seq<u8> {
    match tenant_page {
        Some(page) => page,
        None => match global_page {
            Some(page) => page,
            None => default_page(),
        },
    }
}

/// Copies the built-in maintenance page.
pub fn default_page_bytes() -> (page: Vec<u8>)
    ensures
        page@ == default_page(),
{
    DEFAULT_MAINTENANCE_HTML.as_bytes_vec()
}

} // verus!
