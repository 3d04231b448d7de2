//! Framing with and without compression, upgrade-path validation, and
//! error descriptions.

use physics_bridge::protocol::{
    BodyKind, Config, CreatedBody, Request, Response, SimEntry, TimestepMode, Vect,
};
use physics_bridge::transport::{
    classify_upgrade_path, frame_request, frame_response, unframe_request, unframe_response,
    ErrorKind, NetworkFault, SerializationFault, UpgradeDecision,
};

fn sample_request() -> Request {
    Request::BulkRequest(vec![
        Request::UpdateConfig(Config {
            gravity: Vect { x: 0, y: -9_810_000, z: 0 },
            timestep_mode: TimestepMode::Fixed { dt: 16_666, substeps: 1 },
        }),
        Request::CreateBodies(vec![CreatedBody {
            id: 4,
            body: BodyKind::Dynamic,
            transform: None,
            additional_mass_properties: None,
        }]),
    ])
}

fn sample_response() -> Response {
    Response::BulkResponse(vec![
        Response::ConfigUpdated,
        Response::RigidBodyHandles(vec![(4, 0)]),
        Response::SimulationResult(Vec::<SimEntry>::new()),
    ])
}

#[test]
fn framing_roundtrip_without_compression() {
    let req = sample_request();
    let bytes = frame_request(&req, false);
    assert_eq!(unframe_request(&bytes, false), Ok(req));
    let resp = sample_response();
    let bytes = frame_response(&resp, false);
    assert_eq!(unframe_response(&bytes, false), Ok(resp));
}

#[test]
fn framing_roundtrip_with_compression() {
    let req = sample_request();
    let bytes = frame_request(&req, true);
    // The compressed frame is a zlib stream, not the bare payload.
    assert_ne!(bytes, frame_request(&req, false));
    assert_eq!(unframe_request(&bytes, true), Ok(req));
    let resp = sample_response();
    let bytes = frame_response(&resp, true);
    assert_eq!(unframe_response(&bytes, true), Ok(resp));
}

#[test]
fn compressed_frame_is_rejected_when_read_bare() {
    let bytes = frame_request(&sample_request(), true);
    assert!(unframe_request(&bytes, false).is_err());
}

#[test]
fn bare_frame_is_rejected_when_read_compressed() {
    let bytes = frame_request(&sample_request(), false);
    assert_eq!(
        unframe_request(&bytes, true),
        Err(ErrorKind::Serialization(SerializationFault::CorruptStream))
    );
}

#[test]
fn garbage_frame_is_a_serialization_error() {
    assert_eq!(
        unframe_request(&vec![255u8, 1, 2, 3], false),
        Err(ErrorKind::Serialization(SerializationFault::MalformedFrame))
    );
}

#[test]
fn upgrade_path_rules() {
    assert_eq!(classify_upgrade_path(&b"/ws".to_vec()), UpgradeDecision::Accept);
    assert_eq!(classify_upgrade_path(&b"/".to_vec()), UpgradeDecision::BadRequest);
    assert_eq!(classify_upgrade_path(&b"/socket".to_vec()), UpgradeDecision::NotFound);
    assert_eq!(classify_upgrade_path(&b"".to_vec()), UpgradeDecision::NotFound);

    assert_eq!(UpgradeDecision::Accept.rejection_status(), None);
    assert_eq!(UpgradeDecision::BadRequest.rejection_status(), Some(400));
    assert_eq!(UpgradeDecision::NotFound.rejection_status(), Some(404));
    assert_eq!(
        UpgradeDecision::BadRequest.rejection_body(),
        Some("{\"error\": \"Access via websocket protocol\"}")
    );
    assert_eq!(UpgradeDecision::NotFound.rejection_body(), Some("{\"error\": \"Not found\"}"));
}

#[test]
fn error_descriptions_name_their_layer() {
    assert_eq!(
        ErrorKind::Serialization(SerializationFault::MalformedFrame).describe(),
        "serialization error: malformed frame"
    );
    assert_eq!(
        ErrorKind::Network(NetworkFault::ConnectionClosed).describe(),
        "network error: connection closed"
    );
}
