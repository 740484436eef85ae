use filedrop::boundary;
use filedrop::boundary::CatcherKind;
use filedrop::boundary::RouteKind;
use filedrop::errors::FileError;
use filedrop::errors::message_of;
use filedrop::errors::status_of;

#[test]
fn every_failure_class_maps_to_its_status() {
    assert_eq!(status_of(&FileError::StorageFault), 500);
    assert_eq!(status_of(&FileError::IoFault), 500);
    assert_eq!(status_of(&FileError::InvalidIdentifier), 400);
    assert_eq!(status_of(&FileError::NotFound), 404);
    assert_eq!(status_of(&FileError::InvalidForm), 422);
    assert_eq!(status_of(&FileError::TooLarge), 413);
}

#[test]
fn failure_bodies() {
    assert_eq!(
        message_of(&FileError::InvalidIdentifier),
        "EINVAL: invalid argument\n// sfc /scannow in progress check back later.\n"
    );
    assert_eq!(
        message_of(&FileError::InvalidForm),
        "EINVAL: invalid argument\n// You are probably lost. Try and go back to the start.\n"
    );
    assert_eq!(
        message_of(&FileError::IoFault),
        "EIO: I/O error\n// RAID0 on a RAM drive was not a smart idea.\n"
    );
    assert_eq!(
        message_of(&FileError::StorageFault),
        "EROFS: Read-only file system\n// I thought this error was impossible, but here we are.\n"
    );
}

#[test]
fn not_found_bodies_name_the_requested_path() {
    let body = boundary::not_found("/missing/path");
    assert!(body.contains("\"/missing/path\""));
    assert!(body.starts_with("thread 'rocket-worker-thread' panicked at 'ENOENT"));

    let body = boundary::file_not_found("/fd/xyz");
    assert_eq!(
        body,
        "ENOENT: No such file or directory: \"xyz\"\n// I think we lost that one yesterday."
    );
}

#[test]
fn catcher_bodies() {
    assert_eq!(boundary::invalid_form(), "EINVAL: Invalid argument\n");
    assert_eq!(
        boundary::too_large(),
        "ENOSPC: No space left on device\n// Maybe it's time to get a bigger hard drive?\n"
    );
    assert!(boundary::server_error().starts_with("fish: Job 1"));
    assert_eq!(boundary::default_error(418), boundary::server_error());
}

#[test]
fn the_boundary_plan_mounts_everything_once() {
    let plan = boundary::rocket();
    assert_eq!(
        plan.routes,
        vec![
            RouteKind::DownloadFile,
            RouteKind::DownloadFileNamed,
            RouteKind::DownloadFileInvalidFd,
            RouteKind::UploadFileRaw,
            RouteKind::UploadFileRawInvalid,
            RouteKind::UploadFileForm,
        ]
    );
    assert_eq!(
        plan.catchers,
        vec![
            CatcherKind::NotFound,
            CatcherKind::InvalidForm,
            CatcherKind::ServerError,
            CatcherKind::TooLarge,
            CatcherKind::Default,
            CatcherKind::FileNotFound,
        ]
    );
}

#[test]
fn buffer_helpers() {
    let a = vec![1u8, 2, 3];
    let b = filedrop::copy_bytes(&a);
    assert_eq!(a, b);
    assert!(filedrop::bytes_eq(&a, &b));
    assert!(!filedrop::bytes_eq(&a, &vec![1u8, 2]));
    assert!(!filedrop::bytes_eq(&a, &vec![1u8, 2, 4]));
}
