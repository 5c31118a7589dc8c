use frame_engine::light::light;
use frame_engine::matrix::Mat4;
use frame_engine::uniform::{
    BindingEntry, RegionKind, ResourceBindingSet, ShaderStage, UniformRegion, WriteError,
    EYE_POSITION_OFFSET, LIGHT_POSITION_OFFSET, MODEL_OFFSET, NORMAL_OFFSET,
    VIEW_PROJECTION_OFFSET,
};

fn singles(bytes: &[u8]) -> Vec<f32> {
    bytes
        .chunks(4)
        .map(|c| f32::from_ne_bytes([c[0], c[1], c[2], c[3]]))
        .collect()
}

fn matrix_of(values: [f32; 16]) -> Mat4 {
    let mut cells = [0u32; 16];
    for i in 0..16 {
        cells[i] = values[i].to_bits();
    }
    Mat4::from_cells(cells)
}

const IDENTITY: [f32; 16] = [
    1.0, 0.0, 0.0, 0.0, 0.0, 1.0, 0.0, 0.0, 0.0, 0.0, 1.0, 0.0, 0.0, 0.0, 0.0, 1.0,
];

#[test]
fn region_kinds_have_their_sizes_slots_and_stages() {
    assert_eq!(RegionKind::Vertex.size(), 192);
    assert_eq!(RegionKind::Fragment.size(), 32);
    assert_eq!(RegionKind::Light.size(), 48);
    assert_eq!(RegionKind::Vertex.slot(), 0);
    assert_eq!(RegionKind::Fragment.slot(), 1);
    assert_eq!(RegionKind::Light.slot(), 2);
    assert_eq!(RegionKind::Vertex.stage(), ShaderStage::Vertex);
    assert_eq!(RegionKind::Fragment.stage(), ShaderStage::Fragment);
    assert_eq!(RegionKind::Light.stage(), ShaderStage::Fragment);
}

#[test]
fn matrix_offsets_are_64_bytes_apart() {
    assert_eq!(MODEL_OFFSET, 0);
    assert_eq!(VIEW_PROJECTION_OFFSET, 64);
    assert_eq!(NORMAL_OFFSET, 128);
    assert_eq!(LIGHT_POSITION_OFFSET, 0);
    assert_eq!(EYE_POSITION_OFFSET, 16);
}

#[test]
fn new_region_is_zeroed() {
    let region = UniformRegion::<32>::new();
    assert_eq!(region.as_bytes(), &[0u8; 32][..]);
}

#[test]
fn write_places_the_words_in_machine_order() {
    let mut region = UniformRegion::<32>::new();
    assert_eq!(region.write(8, &[0x0102_0304, 0xA0B0_C0D0]), Ok(()));
    let mut expected = [0u8; 32];
    expected[8..12].copy_from_slice(&0x0102_0304u32.to_ne_bytes());
    expected[12..16].copy_from_slice(&0xA0B0_C0D0u32.to_ne_bytes());
    assert_eq!(region.as_bytes(), &expected[..]);
}

#[test]
fn write_leaves_the_rest_of_the_region() {
    let mut region = UniformRegion::<32>::new();
    assert_eq!(region.write(0, &[u32::MAX; 8]), Ok(()));
    assert_eq!(region.write(12, &[0]), Ok(()));
    let mut expected = [0xFFu8; 32];
    expected[12..16].copy_from_slice(&[0; 4]);
    assert_eq!(region.as_bytes(), &expected[..]);
}

#[test]
fn write_of_no_words_changes_nothing() {
    let mut region = UniformRegion::<32>::new();
    assert_eq!(region.write(32, &[]), Ok(()));
    assert_eq!(region.as_bytes(), &[0u8; 32][..]);
}

#[test]
fn write_up_to_the_last_byte_fits() {
    let mut region = UniformRegion::<32>::new();
    assert_eq!(region.write(28, &[7]), Ok(()));
    assert_eq!(&region.as_bytes()[28..], &7u32.to_ne_bytes()[..]);
}

#[test]
fn misaligned_write_is_refused() {
    let mut region = UniformRegion::<32>::new();
    assert_eq!(region.write(2, &[1]), Err(WriteError::Misaligned));
    assert_eq!(region.as_bytes(), &[0u8; 32][..]);
}

#[test]
fn misalignment_is_reported_before_overrun() {
    let mut region = UniformRegion::<32>::new();
    assert_eq!(region.write(33, &[1]), Err(WriteError::Misaligned));
}

#[test]
fn overrunning_write_is_refused() {
    let mut region = UniformRegion::<32>::new();
    assert_eq!(region.write(28, &[1, 2]), Err(WriteError::Overrun));
    assert_eq!(region.write(36, &[]), Err(WriteError::Overrun));
    assert_eq!(region.write(0, &[0; 9]), Err(WriteError::Overrun));
    assert_eq!(region.as_bytes(), &[0u8; 32][..]);
}

#[test]
fn allocated_set_is_zeroed_and_sized() {
    let set = ResourceBindingSet::allocate();
    assert_eq!(set.region(RegionKind::Vertex), &[0u8; 192][..]);
    assert_eq!(set.region(RegionKind::Fragment), &[0u8; 32][..]);
    assert_eq!(set.region(RegionKind::Light), &[0u8; 48][..]);
}

#[test]
fn slots_zero_to_two_are_bound() {
    let set = ResourceBindingSet::allocate();
    assert_eq!(set.at_slot(0).map(|b| b.len()), Some(192));
    assert_eq!(set.at_slot(1).map(|b| b.len()), Some(32));
    assert_eq!(set.at_slot(2).map(|b| b.len()), Some(48));
    assert_eq!(set.at_slot(3), None);
    assert_eq!(set.at_slot(u32::MAX), None);
}

#[test]
fn layout_lists_the_three_regions_in_slot_order() {
    let entries = ResourceBindingSet::layout();
    assert_eq!(
        entries,
        [
            BindingEntry { binding: 0, visibility: ShaderStage::Vertex, size: 192 },
            BindingEntry { binding: 1, visibility: ShaderStage::Fragment, size: 32 },
            BindingEntry { binding: 2, visibility: ShaderStage::Fragment, size: 48 },
        ]
    );
}

#[test]
fn identity_matrices_fill_the_first_two_blocks_with_identity() {
    let mut set = ResourceBindingSet::allocate();
    let identity = Mat4::identity();
    set.write_vertex_uniforms(&identity, &identity, &identity);
    let bytes = set.region(RegionKind::Vertex);
    assert_eq!(singles(&bytes[0..64]), IDENTITY.to_vec());
    assert_eq!(singles(&bytes[64..128]), IDENTITY.to_vec());
    assert_eq!(singles(&bytes[128..192]), IDENTITY.to_vec());
}

#[test]
fn each_matrix_lands_in_its_own_block() {
    let mut model = IDENTITY;
    let mut view_projection = IDENTITY;
    let mut normal = IDENTITY;
    for i in 0..16 {
        model[i] = 100.0 + i as f32;
        view_projection[i] = 200.0 + i as f32;
        normal[i] = -300.0 - i as f32;
    }
    let mut set = ResourceBindingSet::allocate();
    set.write_vertex_uniforms(&matrix_of(model), &matrix_of(view_projection), &matrix_of(normal));
    let bytes = set.region(RegionKind::Vertex);
    assert_eq!(singles(&bytes[0..64]), model.to_vec());
    assert_eq!(singles(&bytes[64..128]), view_projection.to_vec());
    assert_eq!(singles(&bytes[128..192]), normal.to_vec());
    assert_eq!(set.region(RegionKind::Fragment), &[0u8; 32][..]);
    assert_eq!(set.region(RegionKind::Light), &[0u8; 48][..]);
}

#[test]
fn vertex_uniforms_are_rewritten_in_place() {
    let mut set = ResourceBindingSet::allocate();
    let identity = Mat4::identity();
    let mut other = IDENTITY;
    other[12] = 5.0;
    set.write_vertex_uniforms(&matrix_of(other), &matrix_of(other), &matrix_of(other));
    set.write_vertex_uniforms(&identity, &identity, &identity);
    let bytes = set.region(RegionKind::Vertex);
    assert_eq!(singles(bytes), [IDENTITY, IDENTITY, IDENTITY].concat());
}

#[test]
fn positions_take_twelve_bytes_of_their_sixteen_byte_cells() {
    let mut set = ResourceBindingSet::allocate();
    set.fragment.bytes = [0xEE; 32];
    let light_position = [1.0f32.to_bits(), 2.0f32.to_bits(), 3.0f32.to_bits()];
    let eye_position = [(-4.0f32).to_bits(), 5.5f32.to_bits(), 6.25f32.to_bits()];
    set.write_fragment_uniforms(&light_position, &eye_position);
    let bytes = set.region(RegionKind::Fragment);
    assert_eq!(singles(&bytes[0..12]), vec![1.0, 2.0, 3.0]);
    assert_eq!(&bytes[12..16], &[0xEE; 4][..]);
    assert_eq!(singles(&bytes[16..28]), vec![-4.0, 5.5, 6.25]);
    assert_eq!(&bytes[28..32], &[0xEE; 4][..]);
    assert_eq!(set.region(RegionKind::Vertex), &[0u8; 192][..]);
    assert_eq!(set.region(RegionKind::Light), &[0u8; 48][..]);
}

#[test]
fn light_fills_its_region_colours_first() {
    let mut set = ResourceBindingSet::allocate();
    let l = light(
        [1.0f32.to_bits(), 0.0f32.to_bits(), 1.0f32.to_bits()],
        [1.0f32.to_bits(), 1.0f32.to_bits(), 0.0f32.to_bits()],
        0.1f32.to_bits(),
        0.6f32.to_bits(),
        0.7f32.to_bits(),
        30.0f32.to_bits(),
    );
    set.write_light_uniforms(&l);
    assert_eq!(
        singles(set.region(RegionKind::Light)),
        vec![1.0, 0.0, 1.0, 1.0, 1.0, 1.0, 0.0, 1.0, 0.1, 0.6, 0.7, 30.0]
    );
    assert_eq!(set.region(RegionKind::Vertex), &[0u8; 192][..]);
    assert_eq!(set.region(RegionKind::Fragment), &[0u8; 32][..]);
}
