//! The seams of the integration tests.
use ramflux_sdk::error::SdkError;
use ramflux_sdk::itest_bus_fault;
use ramflux_sdk::itest_bus_fault::BusFault;
use ramflux_sdk::itest_crash_seam;
use ramflux_sdk::itest_rfd_fault;
use ramflux_sdk::itest_rfd_fault::RfdFault;

#[test]
fn itest_bus_fault_parse_mode_maps_known_values_and_defaults_off() {
    assert_eq!(
        itest_bus_fault::parse_mode(Some("object-put-response")),
        itest_bus_fault::Mode::ObjectPutResponse
    );
    assert_eq!(itest_bus_fault::parse_mode(Some("unknown")), itest_bus_fault::Mode::Off);
    assert_eq!(itest_bus_fault::parse_mode(None), itest_bus_fault::Mode::Off);
}

#[test]
fn unarmed_process_never_drops() {
    // With no mode set the seam is inert for every method.
    let mut fault = BusFault::start(itest_bus_fault::parse_mode(None), false);
    assert_eq!(fault.should_drop_response("object.put").ok(), Some(false));
    assert_eq!(fault.should_drop_response("object.get").ok(), Some(false));
}

#[test]
fn armed_bus_seam_drops_one_response() {
    let mut fault = BusFault::start(itest_bus_fault::Mode::ObjectPutResponse, true);
    assert_eq!(fault.should_drop_response("object.get"), Ok(false));
    assert_eq!(fault.should_drop_response("object.put"), Ok(true));
    assert_eq!(fault.should_drop_response("object.put"), Ok(false));
    assert!(fault.claimed);
}

#[test]
fn armed_bus_seam_without_marker_fails_closed() {
    let mut fault = BusFault::start(itest_bus_fault::Mode::ObjectPutResponse, false);
    assert_eq!(
        fault.should_drop_response("object.put"),
        Err(SdkError::LocalBus("itest bus fault marker env unset".to_owned()))
    );
    assert_eq!(
        itest_bus_fault::marker_write_failed().message(),
        "local bus error: itest bus fault marker write failed"
    );
}

#[test]
fn itest_crash_seam_parse_mode_maps_known_values_and_defaults_off() {
    assert_eq!(
        itest_crash_seam::parse_mode(Some("upload-chunk-before-ack")),
        itest_crash_seam::Mode::UploadChunkBeforeAck
    );
    assert_eq!(
        itest_crash_seam::parse_mode(Some("download-after-write")),
        itest_crash_seam::Mode::DownloadAfterWrite
    );
    assert_eq!(itest_crash_seam::parse_mode(Some("unknown")), itest_crash_seam::Mode::Off);
    assert_eq!(itest_crash_seam::parse_mode(None), itest_crash_seam::Mode::Off);
}

#[test]
fn unarmed_seams_never_abort() {
    let mode = itest_crash_seam::parse_mode(None);
    assert!(!itest_crash_seam::maybe_abort_upload_before_ack(mode, usize::MAX, 0));
    assert!(!itest_crash_seam::maybe_abort_download_after_write(mode));
}

#[test]
fn armed_crash_seams_abort_at_their_point() {
    let upload = itest_crash_seam::Mode::UploadChunkBeforeAck;
    let download = itest_crash_seam::Mode::DownloadAfterWrite;
    assert!(!itest_crash_seam::maybe_abort_upload_before_ack(upload, 99, 100));
    assert!(itest_crash_seam::maybe_abort_upload_before_ack(upload, 100, 100));
    assert!(!itest_crash_seam::maybe_abort_upload_before_ack(download, 100, 100));
    assert!(itest_crash_seam::maybe_abort_download_after_write(download));
    assert!(!itest_crash_seam::maybe_abort_download_after_write(upload));
}

#[test]
fn crash_threshold_is_a_number_or_nothing() {
    assert_eq!(itest_crash_seam::after_bytes(Some("4096")), 4096);
    assert_eq!(itest_crash_seam::after_bytes(Some("+7")), 7);
    assert_eq!(itest_crash_seam::after_bytes(Some("many")), 0);
    assert_eq!(itest_crash_seam::after_bytes(Some("99999999999999999999999")), 0);
    assert_eq!(itest_crash_seam::after_bytes(None), 0);
}

#[test]
fn itest_rfd_fault_parse_mode_maps_known_values_and_defaults_off() {
    assert_eq!(itest_rfd_fault::parse_mode(Some("dm-send")), itest_rfd_fault::Mode::DmSend);
    assert_eq!(itest_rfd_fault::parse_mode(Some("owner-put")), itest_rfd_fault::Mode::OwnerPut);
    assert_eq!(
        itest_rfd_fault::parse_mode(Some("grantee-import")),
        itest_rfd_fault::Mode::GranteeImport
    );
    assert_eq!(itest_rfd_fault::parse_mode(Some("dm-recv")), itest_rfd_fault::Mode::DmRecv);
    assert_eq!(itest_rfd_fault::parse_mode(Some("unknown")), itest_rfd_fault::Mode::Off);
    assert_eq!(itest_rfd_fault::parse_mode(None), itest_rfd_fault::Mode::Off);
}

#[test]
fn barrier_off_point_is_noop() {
    let mut fault = RfdFault::start(itest_rfd_fault::parse_mode(None), false);
    assert!(fault.barrier(itest_rfd_fault::Mode::Off).is_ok());
    assert_eq!(fault, RfdFault::start(itest_rfd_fault::Mode::Off, false));
}

#[test]
fn armed_barrier_stops_once_at_its_point() {
    let mut fault = RfdFault::start(itest_rfd_fault::Mode::DmSend, true);
    assert_eq!(fault.barrier(itest_rfd_fault::Mode::DmRecv), Ok(false));
    assert_eq!(fault.barrier(itest_rfd_fault::Mode::DmSend), Ok(true));
    assert_eq!(fault.barrier(itest_rfd_fault::Mode::DmSend), Ok(false));
}

#[test]
fn armed_barrier_without_marker_fails_closed() {
    let mut fault = RfdFault::start(itest_rfd_fault::Mode::GranteeImport, false);
    assert_eq!(
        fault.barrier(itest_rfd_fault::Mode::GranteeImport),
        Err(SdkError::LocalBus("itest rfd fault marker env unset".to_owned()))
    );
    assert_eq!(
        itest_rfd_fault::marker_write_failed().message(),
        "local bus error: itest rfd fault marker write failed"
    );
}
