//! The fixed documents the service serves: the homepage and the farewell
//! template. Both are baked in at build time and never re-read per request.

use vstd::prelude::*;

verus! {

/// The homepage document, served byte-identical on every request to the root
/// path.
pub const HOMEPAGE_HTML: &'static str = "<!DOCTYPE html>\n<html>\n<head>\n<meta charset=\"UTF-8\">\n<title>orb</title>\n</head>\n<body>\n<h1>Welcome to orb</h1>\n<p>Try /hey, /hey/{name} or /bye/{name}.</p>\n</body>\n</html>\n";

/// The farewell template. Its one placeholder, `name`, is filled in from the
/// request's path parameter when the page is rendered.
pub const BYE_TEMPLATE: &'static str = "<!DOCTYPE html>\n<html>\n<head>\n<meta charset=\"UTF-8\">\n<title>Bye</title>\n</head>\n<body>\n<h1>Bye {{ name }}!</h1>\n</body>\n</html>\n";

} // verus!
