use vpb::{device_extensions, find_memory_type_index, select_queue_family, QueueFamily};

const HOST_VISIBLE: u32 = 0x2;
const HOST_COHERENT: u32 = 0x4;
const DEVICE_LOCAL: u32 = 0x1;

#[test]
fn memory_type_needs_allowed_bit_and_all_flags() {
    let props = [DEVICE_LOCAL, HOST_VISIBLE, HOST_VISIBLE | HOST_COHERENT, DEVICE_LOCAL | HOST_VISIBLE | HOST_COHERENT];
    let wanted = HOST_VISIBLE | HOST_COHERENT;
    assert_eq!(find_memory_type_index(0b1111, &props, wanted), Some(2));
    assert_eq!(find_memory_type_index(0b1011, &props, wanted), Some(3));
    assert_eq!(find_memory_type_index(0b0011, &props, wanted), None);
    assert_eq!(find_memory_type_index(0b1111, &props, DEVICE_LOCAL), Some(0));
}

#[test]
fn memory_type_none_without_types() {
    assert_eq!(find_memory_type_index(u32::MAX, &[], 0), None);
}

#[test]
fn memory_type_index_thirty_one() {
    let mut props = vec![0u32; 32];
    props[31] = DEVICE_LOCAL;
    assert_eq!(find_memory_type_index(1 << 31, &props, DEVICE_LOCAL), Some(31));
    assert_eq!(find_memory_type_index(1 << 30, &props, DEVICE_LOCAL), None);
}

fn q(graphics: bool, present: bool) -> QueueFamily {
    QueueFamily { graphics, present }
}

#[test]
fn queue_family_first_that_draws_and_presents() {
    let devices = vec![
        vec![q(true, false), q(false, true)],
        vec![q(false, false), q(true, true), q(true, true)],
        vec![q(true, true)],
    ];
    assert_eq!(select_queue_family(&devices), Some((1, 1)));
}

#[test]
fn queue_family_none_when_no_device_fits() {
    assert_eq!(select_queue_family(&vec![vec![q(true, false)], vec![]]), None);
    assert_eq!(select_queue_family(&Vec::new()), None);
}

#[test]
fn device_asks_for_swapchain_extension() {
    assert_eq!(device_extensions(), vec!["VK_KHR_swapchain".to_string()]);
}
