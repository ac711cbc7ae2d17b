use photobooth::booth::MyPhotobooth;
use photobooth::camera::{CameraDescriptor, WrappedCamera, WrappedContext};
use photobooth::http::{image_handler, Body};
use photobooth::listing::collect_models;
use photobooth::status::Status;

fn booth() -> MyPhotobooth<&'static str, u32> {
    MyPhotobooth::new("context")
}

#[test]
fn a_new_booth_is_empty() {
    let booth = booth();
    assert_eq!(*booth.context(), "context");
    assert_eq!(booth.get_preview_image(), None);
    assert_eq!(booth.get_capture_image(), None);
    assert!(!booth.get_status_previewing());
    assert!(!booth.has_camera());
    assert_eq!(booth.camera(), None);
}

#[test]
fn stored_images_are_read_back() {
    let mut booth = booth();
    booth.store_preview(vec![1, 2]);
    booth.store_image(vec![3]);
    assert_eq!(booth.get_preview_image(), Some(vec![1, 2]));
    assert_eq!(booth.get_capture_image(), Some(vec![3]));
    booth.store_preview(vec![4]);
    assert_eq!(booth.get_preview_image(), Some(vec![4]));
    assert_eq!(booth.get_capture_image(), Some(vec![3]));
}

#[test]
fn an_empty_image_is_no_image() {
    let mut booth = booth();
    booth.store_preview(vec![1]);
    booth.store_preview(Vec::new());
    booth.store_image(Vec::new());
    assert_eq!(booth.get_preview_image(), None);
    assert_eq!(booth.get_capture_image(), None);
}

#[test]
fn the_preview_status_is_read_back() {
    let mut booth = booth();
    booth.set_status_previewing(true);
    assert!(booth.get_status_previewing());
    booth.set_status_previewing(false);
    assert!(!booth.get_status_previewing());
}

#[test]
fn shutting_the_camera_down_keeps_the_rest() {
    let mut booth = booth();
    booth.set_camera(7);
    booth.store_image(vec![9]);
    booth.set_status_previewing(true);
    assert_eq!(booth.camera(), Some(7));
    booth.shutdown_camera();
    assert_eq!(booth.camera(), None);
    assert_eq!(booth.get_capture_image(), Some(vec![9]));
    assert!(booth.get_status_previewing());
    booth.shutdown_camera();
    assert!(!booth.has_camera());
}

#[test]
fn the_slot_holds_the_camera_that_was_set_last() {
    let mut slot: WrappedCamera<String> = WrappedCamera::default();
    assert_eq!(slot.inner(), None);
    slot.set("first".to_string());
    slot.set("second".to_string());
    assert!(slot.is_some());
    assert_eq!(slot.inner(), Some("second".to_string()));
    slot.clear();
    assert_eq!(slot.inner(), None);
}

#[test]
fn the_context_is_handed_out() {
    let context = WrappedContext::new(41);
    assert_eq!(*context.inner(), 41);
}

#[test]
fn statuses_carry_code_and_message() {
    let internal = Status::internal("broken".to_string());
    assert_eq!(internal.code, 13);
    assert_eq!(internal.message, "broken");
    let precondition = Status::failed_precondition("not now".to_string());
    assert_eq!(precondition.code, 9);
    assert_eq!(precondition.message, "not now");
}

#[test]
fn status_codes_are_those_of_grpc() {
    assert_eq!(tonic::Code::from_i32(photobooth::status::INTERNAL), tonic::Code::Internal);
    assert_eq!(
        tonic::Code::from_i32(photobooth::status::FAILED_PRECONDITION),
        tonic::Code::FailedPrecondition
    );
}

#[test]
fn models_keep_their_order() {
    let cameras = vec![
        CameraDescriptor { model: "B".to_string(), port: "usb:1".to_string() },
        CameraDescriptor { model: "A".to_string(), port: "usb:2".to_string() },
        CameraDescriptor { model: "B".to_string(), port: "usb:3".to_string() },
    ];
    assert_eq!(collect_models(&cameras), vec!["B", "A", "B"]);
    assert!(collect_models(&Vec::new()).is_empty());
}

#[test]
fn the_captured_image_is_served() {
    let mut booth = booth();
    booth.store_image(vec![255, 216]);
    let reply = image_handler(&booth);
    assert_eq!(reply.status, 200);
    assert_eq!(reply.content_type, "image/jpeg");
    assert_eq!(reply.body, Body::Bytes(vec![255, 216]));
}

#[test]
fn without_a_captured_image_nothing_is_found() {
    let mut booth = booth();
    booth.store_preview(vec![1]);
    let reply = image_handler(&booth);
    assert_eq!(reply.status, 404);
    assert_eq!(reply.content_type, "text/plain; charset=utf-8");
    assert_eq!(reply.body, Body::Text("No preview image available".to_string()));
}
