use filedrop::addr::IpAddress;
use filedrop::addr::bytes_to_ip;
use filedrop::addr::ip_to_bytes;
use filedrop::errors::FileError;
use filedrop::ident::FileDescriptor;
use filedrop::record::FileInfo;
use filedrop::record::display_filename;
use filedrop::record::effective_name;
use filedrop::record::record_from_row;
use filedrop::service::TransferService;
use filedrop::service::content_disposition;
use filedrop::service::download_url;
use filedrop::service::record_after_blob_write;

fn upload_addr() -> IpAddress {
    IpAddress::V4(vec![203, 0, 113, 5])
}

#[test]
fn upload_then_download_returns_the_content_and_name() {
    let mut service = TransferService::new(String::from("http://files.example"));
    let fd = FileDescriptor::mint();
    let content = b"the quick brown fox".to_vec();
    let url = service.upload(&fd, content.clone(), Some(String::from("a.txt")), &upload_addr());
    assert_eq!(url, format!("http://files.example/fd/{}\n", fd.render()));
    let (got, name) = service.download(&fd.render(), None).unwrap();
    assert_eq!(got, content);
    assert_eq!(name, "a.txt");
}

#[test]
fn override_name_wins_over_the_stored_name() {
    let mut service = TransferService::new(String::from("http://files.example"));
    let fd = FileDescriptor::mint();
    service.upload(&fd, vec![1, 2, 3], Some(String::from("a.txt")), &upload_addr());
    let (_, name) = service
        .download(&fd.render(), Some(String::from("other.bin")))
        .unwrap();
    assert_eq!(name, "other.bin");
}

#[test]
fn nameless_upload_falls_back_to_the_identifier_text() {
    let mut service = TransferService::new(String::from("http://files.example"));
    let fd = FileDescriptor::mint();
    service.upload(&fd, vec![9], None, &upload_addr());
    let (_, name) = service.download(&fd.render(), None).unwrap();
    assert_eq!(name, fd.render());
}

#[test]
fn unknown_identifier_is_not_found() {
    let mut service = TransferService::new(String::from("http://files.example"));
    let fd = FileDescriptor::mint();
    service.upload(&fd, vec![1], None, &upload_addr());
    let never_minted = "00000000-0000-4000-8000-000000000000";
    assert_eq!(
        service.download(never_minted, None),
        Err(FileError::NotFound)
    );
}

#[test]
fn malformed_identifier_never_reaches_storage() {
    let service = TransferService::new(String::from("http://files.example"));
    assert_eq!(
        service.download("not-a-uuid", None),
        Err(FileError::InvalidIdentifier)
    );
    assert_eq!(
        service.download("a/b", None),
        Err(FileError::InvalidIdentifier)
    );
    assert_eq!(
        service.download("a%2eb", None),
        Err(FileError::InvalidIdentifier)
    );
}

#[test]
fn failed_blob_write_inserts_no_record() {
    let fd = FileDescriptor::mint();
    let text = fd.render();
    let decision = record_after_blob_write(fd, Some(String::from("a.txt")), upload_addr(), false);
    assert!(decision.is_none());
    // nothing was handed to the index, so the identifier stays unknown
    let service = TransferService::new(String::from("http://files.example"));
    assert_eq!(service.download(&text, None), Err(FileError::NotFound));
}

#[test]
fn successful_blob_write_yields_the_record() {
    let fd = FileDescriptor::mint();
    let bytes = fd.to_bytes();
    let decision =
        record_after_blob_write(fd, Some(String::from("a.txt")), upload_addr(), true).unwrap();
    assert_eq!(decision.fd.to_bytes(), bytes);
    assert_eq!(decision.name, Some(String::from("a.txt")));
    assert_eq!(decision.upload_ip, upload_addr());
}

#[test]
fn two_uploads_stay_apart() {
    let mut service = TransferService::new(String::from("http://files.example"));
    let fd1 = FileDescriptor::mint();
    let fd2 = FileDescriptor::mint();
    service.upload(&fd1, b"one".to_vec(), Some(String::from("one.txt")), &upload_addr());
    service.upload(&fd2, b"two".to_vec(), None, &IpAddress::V6(vec![0xfe; 16]));
    let (c1, n1) = service.download(&fd1.render(), None).unwrap();
    let (c2, n2) = service.download(&fd2.render(), None).unwrap();
    assert_eq!((c1.as_slice(), n1.as_str()), (b"one".as_slice(), "one.txt"));
    assert_eq!((c2.as_slice(), n2.as_str()), (b"two".as_slice(), fd2.render().as_str()));
}

#[test]
fn address_round_trip() {
    let v4 = IpAddress::V4(vec![203, 0, 113, 5]);
    let v6 = IpAddress::V6(vec![
        0x20, 0x01, 0x0d, 0xb8, 0, 0, 0, 0, 0, 0, 0, 0, 0, 0, 0, 0x42,
    ]);
    assert_eq!(bytes_to_ip(&ip_to_bytes(&v4)), Some(v4));
    assert_eq!(bytes_to_ip(&ip_to_bytes(&v6)), Some(v6));
    assert_eq!(bytes_to_ip(&vec![1, 2, 3, 4, 5]), None);
    assert_eq!(bytes_to_ip(&vec![]), None);
}

#[test]
fn corrupt_stored_address_makes_the_row_absent() {
    let fd = FileDescriptor::mint();
    assert!(record_from_row(fd, Some(String::from("a.txt")), vec![1, 2, 3]).is_none());
    let fd = FileDescriptor::mint();
    let info = record_from_row(fd, Some(String::from("a.txt")), vec![203, 0, 113, 5]).unwrap();
    assert_eq!(info.upload_ip, IpAddress::V4(vec![203, 0, 113, 5]));
    assert_eq!(info.name, Some(String::from("a.txt")));
}

#[test]
fn record_assembly_keeps_its_parts() {
    let fd = FileDescriptor::mint();
    let bytes = fd.to_bytes();
    let info = FileInfo::new(fd, None, upload_addr());
    assert_eq!(info.fd.to_bytes(), bytes);
    assert_eq!(info.name, None);
    assert_eq!(info.upload_ip, upload_addr());
}

#[test]
fn display_name_resolution() {
    let fd = FileDescriptor::mint();
    assert_eq!(
        display_filename(&Some(String::from("a.txt")), &fd),
        "a.txt"
    );
    assert_eq!(display_filename(&None, &fd), fd.render());
    assert_eq!(
        effective_name(Some(String::from("o")), &Some(String::from("s"))),
        Some(String::from("o"))
    );
    assert_eq!(
        effective_name(None, &Some(String::from("s"))),
        Some(String::from("s"))
    );
    assert_eq!(effective_name(None, &None), None);
}

#[test]
fn url_and_header_construction() {
    let fd = FileDescriptor::parse("a1b2c3d4-e5f6-0718-2934-a5b6c7d8e9f0").unwrap();
    assert_eq!(
        download_url("http://files.example", &fd),
        "http://files.example/fd/a1b2c3d4-e5f6-0718-2934-a5b6c7d8e9f0"
    );
    assert_eq!(
        content_disposition("a.txt"),
        "attachment; filename=\"a.txt\""
    );
}
