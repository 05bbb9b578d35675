use project_peril::mesh::{cuboid_indices, quad_indices};
use project_peril::nurbs::{eval_limit, generate_knots, Order};
use project_peril::render::{
    find_memory_type, pick_physical_device, pre_transform, swapchain_image_count, TextureState,
};

#[test]
fn order_values() {
    assert_eq!(Order::LINEAR.value(), 2);
    assert_eq!(Order::QUADRATIC.value(), 3);
    assert_eq!(Order::CUBIC.value(), 4);
    assert_eq!(Order::QUARTIC.value(), 5);
}

#[test]
fn cubic_knots_over_eight_points() {
    let k = generate_knots(Order::CUBIC, 8);
    assert_eq!(k, vec![0, 0, 0, 0, 1, 2, 3, 4, 5, 5, 5, 5]);
    assert_eq!(eval_limit(&k), 5);
}

#[test]
fn knots_edge_cases() {
    assert_eq!(generate_knots(Order::LINEAR, 2), vec![0, 0, 1, 1]);
    assert_eq!(generate_knots(Order::QUARTIC, 5), vec![0, 0, 0, 0, 0, 1, 1, 1, 1, 1]);
    let k = generate_knots(Order::QUADRATIC, 6);
    assert_eq!(k, vec![0, 0, 0, 1, 2, 3, 4, 4, 4]);
    assert!(k.windows(2).all(|w| w[0] <= w[1]));
}

#[test]
fn mesh_indices() {
    assert_eq!(quad_indices(), vec![0, 1, 3, 0, 3, 2]);
    let c = cuboid_indices();
    assert_eq!(c.len(), 36);
    assert_eq!(&c[0..6], &[0, 1, 2, 2, 1, 3]);
    assert_eq!(&c[30..36], &[20, 21, 22, 22, 21, 23]);
    assert!(c.iter().enumerate().all(|(i, &v)| (v as usize) / 4 == i / 6));
}

#[test]
fn memory_type_selection() {
    let flags = vec![0b0001, 0b0110, 0b0111, 0b0110];
    assert_eq!(find_memory_type(&flags, 0b1111, 0b0110), Some(1));
    assert_eq!(find_memory_type(&flags, 0b1101, 0b0110), Some(2));
    assert_eq!(find_memory_type(&flags, 0b1000, 0b0110), Some(3));
    assert_eq!(find_memory_type(&flags, 0b0001, 0b0110), None);
    assert_eq!(find_memory_type(&flags, 0b1111, 0b1000), None);
    assert_eq!(find_memory_type(&flags, 0b1111, 0), Some(0));
    assert_eq!(find_memory_type(&vec![], 0xFFFF_FFFF, 0), None);
}

#[test]
fn device_selection() {
    let devices = vec![vec![0b1100], vec![0b0100, 0b0011, 0b0001], vec![0b0001]];
    assert_eq!(pick_physical_device(&devices), Some((1, 1)));
    assert_eq!(pick_physical_device(&vec![vec![], vec![0b0010]]), None);
    assert_eq!(pick_physical_device(&vec![]), None);
    assert_eq!(pick_physical_device(&vec![vec![0b1111]]), Some((0, 0)));
}

#[test]
fn swapchain_choices() {
    assert_eq!(swapchain_image_count(2, 0), 3);
    assert_eq!(swapchain_image_count(1, 2), 2);
    assert_eq!(swapchain_image_count(2, 8), 3);
    assert_eq!(swapchain_image_count(3, 3), 3);
    assert_eq!(pre_transform(0b0101, 0b0100), 0b0001);
    assert_eq!(pre_transform(0b0110, 0b0100), 0b0100);
}

#[test]
fn texture_transition_once() {
    let mut t = TextureState { access_mask: 0, layout: 0, stage: 1 };
    let target = TextureState { access_mask: 0x20, layout: 5, stage: 0x80 };
    assert_eq!(t.transition_to(target), Some(TextureState { access_mask: 0, layout: 0, stage: 1 }));
    assert_eq!(t, target);
    assert_eq!(t.transition_to(target), None);
    assert_eq!(t, target);
    let other = TextureState { access_mask: 0x20, layout: 5, stage: 0x40 };
    assert_eq!(t.transition_to(other), Some(target));
}
