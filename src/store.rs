//! Layout of the per-user template store.
use vstd::prelude::*;

verus! {

/// Directory under the home directory that holds this tool's data.
pub const STORE_DIR: &'static str = ".new-cli";

/// Subdirectory of `STORE_DIR` that holds the templates.
pub const TEMPLATE_DIR: &'static str = "template";

/// File written into a freshly created template directory.
pub const DEFAULT_TEMPLATE_FILE: &'static str = "index.html";

/// Content of the seeded default template.
pub const DEFAULT_TEMPLATE: &'static str = "<!DOCTYPE html>
<html lang=\"en\">
<head>
    <meta charset=\"UTF-8\">
    <meta name=\"viewport\" content=\"width=device-width, initial-scale=1.0\">
    <title>Document</title>
</head>
<body>

</body>
</html>
";

} // verus!
