//! The renderer's choices among what the Vulkan device offers: memory types, the
//! device and queue family to render with, and the swapchain's shape. Flags are the
//! raw Vulkan bit masks.
use vstd::prelude::*;

verus! {

/// The graphics capability bit of a queue family's flags.
pub const QUEUE_GRAPHICS_BIT: u32 = 0x1;

/// The identity bit of a surface's transform flags.
pub const SURFACE_TRANSFORM_IDENTITY_BIT: u32 = 0x1;

/// The number of swapchain images the renderer asks for.
pub const DESIRED_IMAGE_COUNT: u32 = 3;

/// The most memory types a device reports.
pub const MAX_MEMORY_TYPES: usize = 32;

/// Whether bit `i` of `bits` is set.
pub open spec fn bit_set(bits: u32, i: u32) -> bool {
    (bits >> i) & 1u32 == 1u32
}

/// Whether memory type `i`, with property flags `flags[i]`, is allowed by `type_bits`
/// and has every property in `properties`.
pub open spec fn memory_type_suitable(flags: Seq<u32>, type_bits: u32, properties: u32, i: int) -> bool {
    &&& 0 <= i < flags.len()
    &&& bit_set(type_bits, i as u32)
    &&& flags[i] & properties == properties
}

/// The first memory type suited to a resource: allowed by the resource's type bits and
/// having all the requested properties. `None` when no type is suited.
pub fn find_memory_type(memory_type_flags: &Vec<u32>, mem_type_bits: u32, properties: u32) -> (r: Option<u32>)
    requires
        memory_type_flags@.len() <= MAX_MEMORY_TYPES,
    ensures
        match r {
            Some(i) => {
                &&& memory_type_suitable(memory_type_flags@, mem_type_bits, properties, i as int)
                &&& forall|j: int| 0 <= j < i ==> !memory_type_suitable(memory_type_flags@, mem_type_bits, properties, j)
            },
            None => forall|j: int|
                0 <= j < memory_type_flags@.len() ==> !memory_type_suitable(
                    memory_type_flags@,
                    mem_type_bits,
                    properties,
                    j,
                ),
        },
        r matches Some(i) ==> {
            &&& (i as int) < memory_type_flags@.len()
            &&& memory_type_flags@[i as int] & properties == properties
            &&& (mem_type_bits >> i) & 1u32 == 1u32
            &&& forall|j: int|
                0 <= j < i && (mem_type_bits >> (j as u32)) & 1u32 == 1u32 ==> #[trigger] memory_type_flags@[j]
                    & properties != properties
        },
        r is None ==> forall|j: int|
            0 <= j < memory_type_flags@.len() && (mem_type_bits >> (j as u32)) & 1u32 == 1u32
                ==> #[trigger] memory_type_flags@[j] & properties != properties,
{
    let n = memory_type_flags.len();
    let mut idx: usize = 0;
    while idx < n
        invariant
            n == memory_type_flags@.len(),
            n <= 32,
            0 <= idx <= n,
            forall|j: int| 0 <= j < idx ==> !memory_type_suitable(memory_type_flags@, mem_type_bits, properties, j),
            forall|j: int|
                0 <= j < idx && (mem_type_bits >> (j as u32)) & 1u32 == 1u32 ==> #[trigger] memory_type_flags@[j]
                    & properties != properties,
        decreases n - idx,
    {
        let i = idx as u32;
        let allowed = mem_type_bits & (1u32 << i) != 0;
        assert(allowed == bit_set(mem_type_bits, i)) by (bit_vector)
            requires
                i < 32,
                allowed == (mem_type_bits & (1u32 << i) != 0),
        ;
        if allowed && (memory_type_flags[idx] & properties) == properties {
            return Some(i);
        }
        idx = idx + 1;
    }
    None
}

/// Memory law: a memory type that is suited to a request is allowed by the request's
/// type bits and has every requested property bit.
pub proof fn law_suitable_memory_type_has_every_property(
    flags: Seq<u32>,
    type_bits: u32,
    properties: u32,
    i: int,
    b: u32,
)
    requires
        memory_type_suitable(flags, type_bits, properties, i),
        b < 32,
        (properties >> b) & 1u32 == 1u32,
    ensures
        0 <= i < flags.len(),
        (type_bits >> (i as u32)) & 1u32 == 1u32,
        (flags[i] >> b) & 1u32 == 1u32,
{
    let f = flags[i];
    assert((f >> b) & 1u32 == 1u32) by (bit_vector)
        requires
            f & properties == properties,
            b < 32,
            (properties >> b) & 1u32 == 1u32,
    ;
}

/// Whether a queue family with these flags can render.
pub open spec fn supports_graphics(queue_flags: u32) -> bool {
    queue_flags & QUEUE_GRAPHICS_BIT == QUEUE_GRAPHICS_BIT
}

/// The first of `families` that can render, if any.
fn graphics_family_from(families: &Vec<u32>) -> (r: Option<usize>)
    ensures
        match r {
            Some(f) => f < families@.len() && supports_graphics(families@[f as int]) && forall|g: int|
                0 <= g < f ==> !supports_graphics(#[trigger] families@[g]),
            None => forall|g: int| 0 <= g < families@.len() ==> !supports_graphics(#[trigger] families@[g]),
        },
{
    let n = families.len();
    let mut f: usize = 0;
    while f < n
        invariant
            n == families@.len(),
            0 <= f <= n,
            forall|g: int| 0 <= g < f ==> !supports_graphics(#[trigger] families@[g]),
        decreases n - f,
    {
        if families[f] & QUEUE_GRAPHICS_BIT == QUEUE_GRAPHICS_BIT {
            return Some(f);
        }
        f = f + 1;
    }
    None
}

/// The device to render with and its queue family: the first device, in the order
/// given, that has a queue family able to render, with its first such family.
/// `queue_family_flags[d]` lists the flags of device `d`'s queue families. `None` when
/// no device can render.
pub fn pick_physical_device(queue_family_flags: &Vec<Vec<u32>>) -> (r: Option<(usize, u32)>)
    requires
        forall|d: int| 0 <= d < queue_family_flags@.len() ==> (#[trigger] queue_family_flags@[d])@.len() <= u32::MAX,
    ensures
        match r {
            Some((d, f)) => {
                &&& d < queue_family_flags@.len()
                &&& f < queue_family_flags@[d as int]@.len()
                &&& supports_graphics(queue_family_flags@[d as int]@[f as int])
                &&& forall|g: int| 0 <= g < f ==> !supports_graphics(queue_family_flags@[d as int]@[g])
                &&& forall|e: int, g: int|
                    0 <= e < d && 0 <= g < queue_family_flags@[e]@.len() ==> !supports_graphics(
                        queue_family_flags@[e]@[g],
                    )
            },
            None => forall|e: int, g: int|
                0 <= e < queue_family_flags@.len() && 0 <= g < queue_family_flags@[e]@.len() ==> !supports_graphics(
                    queue_family_flags@[e]@[g],
                ),
        },
{
    let n = queue_family_flags.len();
    let mut d: usize = 0;
    while d < n
        invariant
            n == queue_family_flags@.len(),
            0 <= d <= n,
            forall|d2: int| 0 <= d2 < queue_family_flags@.len() ==> (#[trigger] queue_family_flags@[d2])@.len() <= u32::MAX,
            forall|e: int, g: int|
                0 <= e < d && 0 <= g < queue_family_flags@[e]@.len() ==> !supports_graphics(
                    queue_family_flags@[e]@[g],
                ),
        decreases n - d,
    {
        match graphics_family_from(&queue_family_flags[d]) {
            Some(f) => {
                return Some((d, f as u32));
            },
            None => {},
        }
        d = d + 1;
    }
    None
}

/// The number of swapchain images to ask for: three, or the surface's maximum when
/// it has one below three.
pub fn swapchain_image_count(min_image_count: u32, max_image_count: u32) -> (r: u32)
    requires
        min_image_count <= DESIRED_IMAGE_COUNT,
    ensures
        r == (if max_image_count > 0 && DESIRED_IMAGE_COUNT > max_image_count {
            max_image_count
        } else {
            DESIRED_IMAGE_COUNT
        }),
{
    let mut desired_image_count = DESIRED_IMAGE_COUNT;
    if max_image_count > 0 && desired_image_count > max_image_count {
        desired_image_count = max_image_count;
    }
    desired_image_count
}

/// Surface format: undefined, meaning the surface takes any format.
pub const FORMAT_UNDEFINED: i32 = 0;
/// Surface format: 8-bit blue, green, red, unsigned normalised.
pub const FORMAT_B8G8R8_UNORM: i32 = 30;

/// The surface format to present with, from the formats the surface reports: the
/// first one, with an undefined format (any format allowed) taken as 8-bit BGR.
pub fn choose_surface_format(formats: &Vec<i32>) -> (r: Option<i32>)
    ensures
        formats@.len() == 0 ==> r.is_none(),
        formats@.len() > 0 ==> r == Some(
            if formats@[0] == FORMAT_UNDEFINED { FORMAT_B8G8R8_UNORM } else { formats@[0] },
        ),
{
    if formats.len() == 0 {
        return None;
    }
    if formats[0] == FORMAT_UNDEFINED {
        Some(FORMAT_B8G8R8_UNORM)
    } else {
        Some(formats[0])
    }
}

/// The surface transform to present with: the identity when the surface supports it,
/// otherwise its current transform.
pub fn pre_transform(supported_transforms: u32, current_transform: u32) -> (r: u32)
    ensures
        r == (if supported_transforms & SURFACE_TRANSFORM_IDENTITY_BIT == SURFACE_TRANSFORM_IDENTITY_BIT {
            SURFACE_TRANSFORM_IDENTITY_BIT
        } else {
            current_transform
        }),
{
    if supported_transforms & SURFACE_TRANSFORM_IDENTITY_BIT == SURFACE_TRANSFORM_IDENTITY_BIT {
        SURFACE_TRANSFORM_IDENTITY_BIT
    } else {
        current_transform
    }
}

/// The synchronisation state of a texture: the access mask, image layout and pipeline
/// stage its contents were last used with (raw Vulkan values).
#[derive(Clone, Copy, PartialEq, Eq, Structural, Debug)]
pub struct TextureState {
    pub access_mask: u32,
    pub layout: i32,
    pub stage: u32,
}

/// The state after moving `state` to `target`, and the state left when there is a move
/// to make.
pub open spec fn texture_transition(state: TextureState, target: TextureState) -> (TextureState, Option<TextureState>) {
    (target, if state == target { None } else { Some(state) })
}

impl TextureState {
    /// Moves the texture to `target`. When it is already there nothing is to be done and
    /// `None` is returned; otherwise the state it leaves is returned, for the barrier
    /// that makes the move.
    pub fn transition_to(&mut self, target: TextureState) -> (from: Option<TextureState>)
        ensures
            (*final(self), from) == texture_transition(*old(self), target),
            *final(self) == target,
            *old(self) != target ==> from == Some(*old(self)),
            *old(self) == target ==> from.is_none(),
    {
        if self.access_mask == target.access_mask && self.layout == target.layout && self.stage == target.stage {
            return None;
        }
        let from = *self;
        *self = target;
        Some(from)
    }
}

/// Buffer usage bit: the buffer is the source of a transfer.
pub const BUFFER_USAGE_TRANSFER_SRC: u32 = 0x1;
/// Buffer usage bit: the buffer is the destination of a transfer.
pub const BUFFER_USAGE_TRANSFER_DST: u32 = 0x2;
/// Memory property bit: local to the device.
pub const MEMORY_PROPERTY_DEVICE_LOCAL: u32 = 0x1;
/// Memory property bit: mappable by the host.
pub const MEMORY_PROPERTY_HOST_VISIBLE: u32 = 0x2;
/// Memory property bit: host writes need no flush.
pub const MEMORY_PROPERTY_HOST_COHERENT: u32 = 0x4;
/// Image usage bit: the image is the destination of a transfer.
pub const IMAGE_USAGE_TRANSFER_DST: u32 = 0x2;
/// Access bit: written by a transfer.
pub const ACCESS_TRANSFER_WRITE: u32 = 0x1000;
/// Pipeline stage bit: the start of the pipeline.
pub const PIPELINE_STAGE_TOP_OF_PIPE: u32 = 0x1;
/// Pipeline stage bit: transfers.
pub const PIPELINE_STAGE_TRANSFER: u32 = 0x1000;
/// Image layout: undefined contents.
pub const IMAGE_LAYOUT_UNDEFINED: i32 = 0;
/// Image layout: optimal as a transfer destination.
pub const IMAGE_LAYOUT_TRANSFER_DST_OPTIMAL: i32 = 7;

/// Usage and memory properties of a buffer to create.
#[derive(Clone, Copy, PartialEq, Eq, Structural, Debug)]
pub struct BufferSpec {
    pub usage: u32,
    pub properties: u32,
}

/// How data is brought into a new buffer: the buffer written by the host, and, for a
/// device-optimal buffer, the buffer it is then copied into (the first one being a
/// staging buffer freed after the copy).
#[derive(Clone, Copy, PartialEq, Eq, Structural, Debug)]
pub struct UploadPlan {
    pub host_buffer: BufferSpec,
    pub device_buffer: Option<BufferSpec>,
}

/// The buffers an upload of `size_of_element * element_count` bytes uses: for an
/// optimal layout, a host-visible, coherent staging buffer that is a transfer source,
/// copied into a buffer with the requested properties that is also a transfer
/// destination; otherwise a single buffer with the requested usage and properties.
/// Also returns the size in bytes.
pub fn upload_plan(usage: u32, properties: u32, optimal_layout: bool, size_of_element: usize, element_count: usize) -> (r: (UploadPlan, u64))
    requires
        size_of_element * element_count <= u64::MAX,
        size_of_element * element_count <= usize::MAX,
        optimal_layout ==> properties & MEMORY_PROPERTY_DEVICE_LOCAL == MEMORY_PROPERTY_DEVICE_LOCAL,
        !optimal_layout ==> properties & (MEMORY_PROPERTY_HOST_VISIBLE | MEMORY_PROPERTY_HOST_COHERENT) == (
        MEMORY_PROPERTY_HOST_VISIBLE | MEMORY_PROPERTY_HOST_COHERENT),
    ensures
        r.1 == size_of_element * element_count,
        optimal_layout ==> r.0 == (UploadPlan {
            host_buffer: BufferSpec {
                usage: BUFFER_USAGE_TRANSFER_SRC,
                properties: MEMORY_PROPERTY_HOST_VISIBLE | MEMORY_PROPERTY_HOST_COHERENT,
            },
            device_buffer: Some(BufferSpec { usage: BUFFER_USAGE_TRANSFER_DST | usage, properties }),
        }),
        !optimal_layout ==> r.0 == (UploadPlan {
            host_buffer: BufferSpec { usage, properties },
            device_buffer: None,
        }),
{
    let size = (size_of_element * element_count) as u64;
    if optimal_layout {
        (
            UploadPlan {
                host_buffer: BufferSpec {
                    usage: BUFFER_USAGE_TRANSFER_SRC,
                    properties: MEMORY_PROPERTY_HOST_VISIBLE | MEMORY_PROPERTY_HOST_COHERENT,
                },
                device_buffer: Some(BufferSpec { usage: BUFFER_USAGE_TRANSFER_DST | usage, properties }),
            },
            size,
        )
    } else {
        (UploadPlan { host_buffer: BufferSpec { usage, properties }, device_buffer: None }, size)
    }
}

/// How a new texture is set up: its image usage, and the layout transitions that bring
/// it from undefined contents to its initial state. When it is filled from a buffer,
/// it is first moved to a transfer destination, the copy is made, and then it is moved
/// to its initial state; otherwise it is moved there at once.
pub struct TextureSetup {
    pub usage: u32,
    pub transitions: Vec<(TextureState, TextureState)>,
}

/// The state of a freshly created image.
pub open spec fn undefined_texture() -> TextureState {
    TextureState { access_mask: 0, layout: IMAGE_LAYOUT_UNDEFINED, stage: PIPELINE_STAGE_TOP_OF_PIPE }
}

/// The state of an image being filled by a transfer.
pub open spec fn transfer_target_texture() -> TextureState {
    TextureState { access_mask: ACCESS_TRANSFER_WRITE, layout: IMAGE_LAYOUT_TRANSFER_DST_OPTIMAL, stage: PIPELINE_STAGE_TRANSFER }
}

/// The setup of a texture with image usage `usage` and initial state `initial`, filled
/// from a buffer when `uploading` (see `TextureSetup`).
pub fn texture_setup(usage: u32, initial: TextureState, uploading: bool) -> (r: TextureSetup)
    ensures
        r.usage == (if uploading { usage | IMAGE_USAGE_TRANSFER_DST } else { usage }),
        uploading ==> r.transitions@ == seq![
            (undefined_texture(), transfer_target_texture()),
            (transfer_target_texture(), initial),
        ],
        !uploading ==> r.transitions@ == seq![(undefined_texture(), initial)],
{
    let undefined = TextureState { access_mask: 0, layout: IMAGE_LAYOUT_UNDEFINED, stage: PIPELINE_STAGE_TOP_OF_PIPE };
    let mut transitions: Vec<(TextureState, TextureState)> = Vec::new();
    if uploading {
        let target = TextureState {
            access_mask: ACCESS_TRANSFER_WRITE,
            layout: IMAGE_LAYOUT_TRANSFER_DST_OPTIMAL,
            stage: PIPELINE_STAGE_TRANSFER,
        };
        transitions.push((undefined, target));
        transitions.push((target, initial));
        assert(transitions@ =~= seq![(undefined_texture(), transfer_target_texture()), (transfer_target_texture(), initial)]);
        TextureSetup { usage: usage | IMAGE_USAGE_TRANSFER_DST, transitions }
    } else {
        transitions.push((undefined, initial));
        assert(transitions@ =~= seq![(undefined_texture(), initial)]);
        TextureSetup { usage, transitions }
    }
}

/// Texture law: a transition that moves the texture hands back exactly the state it
/// was in, every field of it, for the barrier's source side.
pub proof fn law_transition_returns_previous_state(state: TextureState, target: TextureState)
    requires
        state != target,
    ensures
        texture_transition(state, target).1 matches Some(from) && from.access_mask == state.access_mask
            && from.layout == state.layout && from.stage == state.stage,
{
}

/// Texture law: a transition ends in the target state, and a second transition to the
/// same target has nothing to do.
pub proof fn law_transition_idempotent(state: TextureState, target: TextureState)
    ensures
        texture_transition(state, target).0 == target,
        texture_transition(texture_transition(state, target).0, target).1.is_none(),
        texture_transition(state, target).1.is_none() <==> state == target,
{
}

} // verus!
