use r_shell::editor::transfer::{
    download_to_path, missing_client, route_for, upload_from_path, Direction, Route, Transfer,
    TransferInput, TransferStage,
};

fn download() -> Transfer {
    download_to_path("c1".to_string(), "/etc/hosts".to_string(), "/tmp/hosts".to_string())
}

fn typed(name: Option<&str>) -> TransferInput {
    TransferInput::ConnectionType(name.map(|n| n.to_string()))
}

#[test]
fn routes_follow_the_connection_type() {
    assert_eq!(route_for(Some("SFTP")), Ok(Route::Sftp));
    assert_eq!(route_for(Some("FTP")), Ok(Route::Ftp));
    assert_eq!(route_for(None), Ok(Route::Ssh));
}

#[test]
fn other_types_are_refused() {
    assert_eq!(route_for(Some("S3")), Err("Unsupported protocol: S3".to_string()));
    assert_eq!(route_for(Some("sftp")), Err("Unsupported protocol: sftp".to_string()));
    assert_eq!(route_for(Some("")), Err("Unsupported protocol: ".to_string()));
}

#[test]
fn missing_clients_are_named() {
    assert_eq!(missing_client(Route::Sftp, "c1"), "SFTP connection not found");
    assert_eq!(missing_client(Route::Ftp, "c1"), "FTP connection not found");
    assert_eq!(missing_client(Route::Ssh, "c1"), "No connection found for 'c1'");
}

#[test]
fn a_download_goes_from_the_remote_to_the_local_path() {
    let transfer = download();
    assert_eq!(transfer.direction, Direction::Download);
    assert_eq!(transfer.source(), "/etc/hosts");
    assert_eq!(transfer.destination(), "/tmp/hosts");
    assert_eq!(transfer.stage, TransferStage::LookUpType);
}

#[test]
fn an_upload_goes_from_the_local_to_the_remote_path() {
    let transfer =
        upload_from_path("c1".to_string(), "/tmp/hosts".to_string(), "/etc/hosts".to_string());
    assert_eq!(transfer.direction, Direction::Upload);
    assert_eq!(transfer.source(), "/tmp/hosts");
    assert_eq!(transfer.destination(), "/etc/hosts");
}

#[test]
fn a_transfer_returns_what_its_client_returns() {
    for (name, route) in [(Some("SFTP"), Route::Sftp), (Some("FTP"), Route::Ftp), (None, Route::Ssh)]
    {
        let mut transfer = download();
        transfer.step(typed(name));
        assert_eq!(transfer.stage, TransferStage::LookUpClient(route));
        transfer.step(TransferInput::Client(true));
        assert_eq!(transfer.stage, TransferStage::Move(route));
        transfer.step(TransferInput::Moved(Ok(42)));
        assert_eq!(transfer.stage, TransferStage::Done(Ok(42)));
    }
}

#[test]
fn a_transfer_passes_on_the_error_of_its_client() {
    let mut transfer = download();
    transfer.step(typed(None));
    transfer.step(TransferInput::Client(true));
    transfer.step(TransferInput::Moved(Err("permission denied".to_string())));
    assert_eq!(transfer.stage, TransferStage::Done(Err("permission denied".to_string())));
}

#[test]
fn a_transfer_fails_without_a_client() {
    let mut transfer = download();
    transfer.step(typed(None));
    transfer.step(TransferInput::Client(false));
    assert_eq!(
        transfer.stage,
        TransferStage::Done(Err("No connection found for 'c1'".to_string()))
    );
}

#[test]
fn a_transfer_fails_on_an_unknown_protocol() {
    let mut transfer = download();
    transfer.step(typed(Some("RDP")));
    assert_eq!(transfer.stage, TransferStage::Done(Err("Unsupported protocol: RDP".to_string())));
    transfer.step(typed(None));
    assert_eq!(transfer.stage, TransferStage::Done(Err("Unsupported protocol: RDP".to_string())));
}
