use vpb::{BufferGO, BufferUsage, CrateDrawIndexedIndirectCommand, Extent2D, RequirementType};

#[test]
fn new_buffer_has_its_size_as_capacity() {
    let b = BufferGO::new(RequirementType::Buffer(256, BufferUsage::Vertex), "gpu");
    assert_eq!(b.count, 0);
    assert_eq!(b.capacity, 256);
    assert_eq!(b.buffer, "gpu");
}

#[test]
fn new_image_holds_four_bytes_per_pixel() {
    let b = BufferGO::new(RequirementType::Image(Extent2D { width: 32, height: 16 }), ());
    assert_eq!(b.capacity, 2048);
    assert_eq!(b.count, 0);
}

#[test]
fn update_that_fits_keeps_allocation() {
    let mut b = BufferGO::new(RequirementType::Buffer(100, BufferUsage::Index), 1u8);
    assert_eq!(b.update(60), None);
    assert_eq!(b.count, 60);
    assert_eq!(b.capacity, 100);
    assert_eq!(b.update(100), None);
    assert_eq!(b.count, 100);
    assert_eq!(b.requirement_type, RequirementType::Buffer(100, BufferUsage::Index));
}

#[test]
fn update_that_does_not_fit_doubles_capacity() {
    let mut b = BufferGO::new(RequirementType::Buffer(16, BufferUsage::Uniform), 1u8);
    assert_eq!(b.update(40), Some(64));
    assert_eq!(b.capacity, 64);
    assert_eq!(b.count, 40);
    assert_eq!(b.requirement_type, RequirementType::Buffer(64, BufferUsage::Uniform));
}

#[test]
fn update_one_byte_past_capacity_doubles_once() {
    let mut b = BufferGO::new(RequirementType::Buffer(4, BufferUsage::Vertex), ());
    assert_eq!(b.update(5), Some(8));
    assert_eq!(b.capacity, 8);
    assert_eq!(b.update(8), None);
    assert_eq!(b.update(33), Some(64));
}

#[test]
fn update_falls_back_to_exact_size_past_usize_max() {
    let start = usize::MAX / 2 + 1;
    let mut b = BufferGO::new(RequirementType::Buffer(start, BufferUsage::Staging), ());
    assert_eq!(b.update(start + 1), Some(start + 1));
    assert_eq!(b.capacity, start + 1);
}

#[test]
fn update_from_zero_capacity_grows() {
    let mut b = BufferGO::new(RequirementType::Buffer(0, BufferUsage::Staging), ());
    assert_eq!(b.update(4096), Some(4096));
    assert_eq!(b.capacity, 4096);
}

#[test]
fn empty_update_clears_count_only() {
    let mut b = BufferGO::new(RequirementType::Buffer(8, BufferUsage::Indirect), ());
    b.update(8);
    assert_eq!(b.update(0), None);
    assert_eq!(b.count, 0);
    assert_eq!(b.capacity, 8);
    let mut img = BufferGO::new(RequirementType::Image(Extent2D { width: 2, height: 2 }), ());
    assert_eq!(img.update(0), None);
    assert_eq!(img.capacity, 16);
}

#[test]
fn indirect_command_defaults_to_zero() {
    let c = CrateDrawIndexedIndirectCommand::default();
    assert_eq!(
        c,
        CrateDrawIndexedIndirectCommand {
            index_count: 0,
            instance_count: 0,
            first_index: 0,
            vertex_offset: 0,
            first_instance: 0,
        }
    );
}
