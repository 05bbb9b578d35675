use project_peril::engine::{EngineClock, MAX_DURATION_NANOS};
use project_peril::input::InputHandler;
use project_peril::render::{
    choose_surface_format, texture_setup, upload_plan, BufferSpec, TextureState, UploadPlan,
    ACCESS_TRANSFER_WRITE, BUFFER_USAGE_TRANSFER_DST, BUFFER_USAGE_TRANSFER_SRC, FORMAT_B8G8R8_UNORM,
    FORMAT_UNDEFINED, IMAGE_LAYOUT_TRANSFER_DST_OPTIMAL, IMAGE_LAYOUT_UNDEFINED, IMAGE_USAGE_TRANSFER_DST,
    MEMORY_PROPERTY_DEVICE_LOCAL, MEMORY_PROPERTY_HOST_COHERENT, MEMORY_PROPERTY_HOST_VISIBLE,
    PIPELINE_STAGE_TOP_OF_PIPE, PIPELINE_STAGE_TRANSFER,
};

const VERTEX_BUFFER_USAGE: u32 = 0x80;

#[test]
fn optimal_upload_goes_through_a_staging_buffer() {
    let (plan, size) = upload_plan(VERTEX_BUFFER_USAGE, MEMORY_PROPERTY_DEVICE_LOCAL, true, 32, 24);
    assert_eq!(size, 768);
    assert_eq!(
        plan,
        UploadPlan {
            host_buffer: BufferSpec {
                usage: BUFFER_USAGE_TRANSFER_SRC,
                properties: MEMORY_PROPERTY_HOST_VISIBLE | MEMORY_PROPERTY_HOST_COHERENT,
            },
            device_buffer: Some(BufferSpec {
                usage: BUFFER_USAGE_TRANSFER_DST | VERTEX_BUFFER_USAGE,
                properties: MEMORY_PROPERTY_DEVICE_LOCAL,
            }),
        }
    );
}

#[test]
fn direct_upload_uses_one_host_buffer() {
    let props = MEMORY_PROPERTY_HOST_VISIBLE | MEMORY_PROPERTY_HOST_COHERENT;
    let (plan, size) = upload_plan(VERTEX_BUFFER_USAGE, props, false, 4, 6);
    assert_eq!(size, 24);
    assert_eq!(plan.host_buffer, BufferSpec { usage: VERTEX_BUFFER_USAGE, properties: props });
    assert_eq!(plan.device_buffer, None);
    let (_, empty) = upload_plan(VERTEX_BUFFER_USAGE, props, false, 4, 0);
    assert_eq!(empty, 0);
}

fn sampled() -> TextureState {
    TextureState { access_mask: 0x20, layout: 5, stage: 0x80 }
}

#[test]
fn uploaded_texture_passes_through_transfer_layout() {
    let undefined = TextureState { access_mask: 0, layout: IMAGE_LAYOUT_UNDEFINED, stage: PIPELINE_STAGE_TOP_OF_PIPE };
    let transfer = TextureState {
        access_mask: ACCESS_TRANSFER_WRITE,
        layout: IMAGE_LAYOUT_TRANSFER_DST_OPTIMAL,
        stage: PIPELINE_STAGE_TRANSFER,
    };
    let setup = texture_setup(0x4, sampled(), true);
    assert_eq!(setup.usage, 0x4 | IMAGE_USAGE_TRANSFER_DST);
    assert_eq!(setup.transitions, vec![(undefined, transfer), (transfer, sampled())]);
}

#[test]
fn texture_without_data_moves_once() {
    let undefined = TextureState { access_mask: 0, layout: IMAGE_LAYOUT_UNDEFINED, stage: PIPELINE_STAGE_TOP_OF_PIPE };
    let setup = texture_setup(0x10, sampled(), false);
    assert_eq!(setup.usage, 0x10);
    assert_eq!(setup.transitions, vec![(undefined, sampled())]);
}

#[test]
fn surface_format_choice() {
    assert_eq!(choose_surface_format(&vec![]), None);
    assert_eq!(choose_surface_format(&vec![FORMAT_UNDEFINED]), Some(FORMAT_B8G8R8_UNORM));
    assert_eq!(choose_surface_format(&vec![44, 50]), Some(44));
    assert_eq!(choose_surface_format(&vec![50, FORMAT_UNDEFINED]), Some(50));
}

#[test]
fn clock_refuses_frames_past_the_longest_duration() {
    let mut c = EngineClock::new();
    assert!(c.can_advance(MAX_DURATION_NANOS));
    assert!(!c.can_advance(MAX_DURATION_NANOS + 1));
    c.advance(10);
    assert!(c.can_advance(MAX_DURATION_NANOS - 10));
    assert!(!c.can_advance(MAX_DURATION_NANOS - 9));
}

#[test]
fn mouse_delta_accumulates_until_taken() {
    let mut h: InputHandler<u32, u32> = InputHandler::new();
    assert_eq!(h.mouse_delta(), (0, 0));
    h.update_mouse_movement((3, -4));
    h.update_mouse_movement((-1, 10));
    assert_eq!(h.mouse_delta(), (2, 6));
    h.register_mouse_movement(7);
    assert_eq!(h.mouse_movement_tick(true), Some((2, 6)));
    assert_eq!(h.mouse_delta(), (0, 0));
}
