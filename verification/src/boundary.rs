//! The transport boundary's pure half: the textual bodies of the error
//! catchers and the plan of routes and catchers that the adapter mounts.
//! The adapter itself (HTTP dispatch, catcher registration) stays outside
//! the core.

use vstd::prelude::*;
use vstd::string::StrSliceExecFns;
use vstd::string::StringExecFns;

verus! {

/// The routes the service mounts, in mount order.
#[derive(Clone, Copy, PartialEq, Eq, Debug)]
pub enum RouteKind {
    DownloadFile,
    DownloadFileNamed,
    DownloadFileInvalidFd,
    UploadFileRaw,
    UploadFileRawInvalid,
    UploadFileForm,
}

/// The catchers the service registers: the general set at the root, and the
/// file-specific not-found catcher under the download prefix.
#[derive(Clone, Copy, PartialEq, Eq, Debug)]
pub enum CatcherKind {
    NotFound,
    InvalidForm,
    ServerError,
    TooLarge,
    Default,
    FileNotFound,
}

/// The boundary plan: what the transport adapter mounts and registers.
pub struct BoundaryPlan {
    pub routes: Vec<RouteKind>,
    pub catchers: Vec<CatcherKind>,
}

/// Assemble the boundary plan: the six routes in mount order, the five
/// root catchers, then the download-prefix not-found catcher.
pub fn rocket() -> (plan: BoundaryPlan)
    ensures
        plan.routes@ == seq![
            RouteKind::DownloadFile,
            RouteKind::DownloadFileNamed,
            RouteKind::DownloadFileInvalidFd,
            RouteKind::UploadFileRaw,
            RouteKind::UploadFileRawInvalid,
            RouteKind::UploadFileForm,
        ],
        plan.catchers@ == seq![
            CatcherKind::NotFound,
            CatcherKind::InvalidForm,
            CatcherKind::ServerError,
            CatcherKind::TooLarge,
            CatcherKind::Default,
            CatcherKind::FileNotFound,
        ],
{
    let mut routes: Vec<RouteKind> = Vec::new();
    routes.push(RouteKind::DownloadFile);
    routes.push(RouteKind::DownloadFileNamed);
    routes.push(RouteKind::DownloadFileInvalidFd);
    routes.push(RouteKind::UploadFileRaw);
    routes.push(RouteKind::UploadFileRawInvalid);
    routes.push(RouteKind::UploadFileForm);
    let mut catchers: Vec<CatcherKind> = Vec::new();
    catchers.push(CatcherKind::NotFound);
    catchers.push(CatcherKind::InvalidForm);
    catchers.push(CatcherKind::ServerError);
    catchers.push(CatcherKind::TooLarge);
    catchers.push(CatcherKind::Default);
    catchers.push(CatcherKind::FileNotFound);
    proof {
        assert(routes@ =~= seq![
            RouteKind::DownloadFile,
            RouteKind::DownloadFileNamed,
            RouteKind::DownloadFileInvalidFd,
            RouteKind::UploadFileRaw,
            RouteKind::UploadFileRawInvalid,
            RouteKind::UploadFileForm,
        ]);
        assert(catchers@ =~= seq![
            CatcherKind::NotFound,
            CatcherKind::InvalidForm,
            CatcherKind::ServerError,
            CatcherKind::TooLarge,
            CatcherKind::Default,
            CatcherKind::FileNotFound,
        ]);
    }
    BoundaryPlan { routes, catchers }
}

/// The general not-found body, naming the requested path.
pub fn not_found(uri: &str) -> (r: String)
    ensures
        r@ == (
        "thread 'rocket-worker-thread' panicked at 'ENOENT: No such file or directory \"")@ + uri@
            + (
        "\"', src/main.rs:267:4\nnote: run with `RUST_BACKTRACE=1` environment variable to display a backtrace\n// Who left that .unwrap() in?")@,
{
    let mut r = String::new();
    r.append("thread 'rocket-worker-thread' panicked at 'ENOENT: No such file or directory \"");
    r.append(uri);
    r.append(
        "\"', src/main.rs:267:4\nnote: run with `RUST_BACKTRACE=1` environment variable to display a backtrace\n// Who left that .unwrap() in?",
    );
    proof {
        assert(r@ =~= (
        "thread 'rocket-worker-thread' panicked at 'ENOENT: No such file or directory \"")@ + uri@
            + (
        "\"', src/main.rs:267:4\nnote: run with `RUST_BACKTRACE=1` environment variable to display a backtrace\n// Who left that .unwrap() in?")@);
    }
    r
}

/// The not-found body under the download prefix, naming the path with the
/// four-character prefix stripped.
pub fn file_not_found(uri: &str) -> (r: String)
    requires
        uri@.len() >= 4,
    ensures
        r@ == ("ENOENT: No such file or directory: \"")@ + uri@.subrange(4, uri@.len() as int) + (
        "\"\n// I think we lost that one yesterday.")@,
{
    let n = uri.unicode_len();
    let tail = uri.substring_char(4, n);
    let mut r = String::new();
    r.append("ENOENT: No such file or directory: \"");
    r.append(tail);
    r.append("\"\n// I think we lost that one yesterday.");
    proof {
        assert(r@ =~= ("ENOENT: No such file or directory: \"")@ + uri@.subrange(
            4,
            uri@.len() as int,
        ) + ("\"\n// I think we lost that one yesterday.")@);
    }
    r
}

/// The body answered for an upload whose shape does not fit its route.
pub fn invalid_form() -> (r: &'static str)
    ensures
        r@ == ("EINVAL: Invalid argument\n")@,
{
    "EINVAL: Invalid argument\n"
}

/// The body answered for an upload over the configured size cap.
pub fn too_large() -> (r: &'static str)
    ensures
        r@ == ("ENOSPC: No space left on device\n// Maybe it's time to get a bigger hard drive?\n")@,
{
    "ENOSPC: No space left on device\n// Maybe it's time to get a bigger hard drive?\n"
}

/// The body answered for a storage or I/O fault.
pub fn server_error() -> (r: &'static str)
    ensures
        r@ == (
        "fish: Job 1, 'cargo run --release' terminated by signal SIGSEGV (Address boundary error)\n// Look idk what to say, println!() is not helping here.\n")@,
{
    "fish: Job 1, 'cargo run --release' terminated by signal SIGSEGV (Address boundary error)\n// Look idk what to say, println!() is not helping here.\n"
}

/// Any unclassified status is answered with the server-error body; the
/// adapter logs the status before answering.
pub fn default_error(status: u16) -> (r: &'static str)
    ensures
        r@ == (
        "fish: Job 1, 'cargo run --release' terminated by signal SIGSEGV (Address boundary error)\n// Look idk what to say, println!() is not helping here.\n")@,
{
    let _ = status;
    server_error()
}

} // verus!
