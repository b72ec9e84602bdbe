use vpb::{
    pool_sizes, BindingId, DDType, DDTypeImage, DDTypeImageArray, DDTypeUniform, DescriptorDescription,
    DescriptorKind, DescriptorWrite, ImageArrayState, ImageLayout, SetId,
};

fn sample_description() -> DescriptorDescription {
    DescriptorDescription::new(vec![
        DDType::Uniform(DDTypeUniform { binding: BindingId(0), size: 64 }),
        DDType::Image(DDTypeImage { binding: BindingId(1), file_abs: "/tex/a.png".to_string() }),
        DDType::ImageArray(DDTypeImageArray {
            binding: BindingId(2),
            ias: ImageArrayState { path: "/tex/arr".to_string(), textures: vec!["x".to_string()] },
        }),
    ])
}

#[test]
fn new_keeps_descriptor_order() {
    let d = sample_description();
    assert_eq!(d.dd_types.len(), 3);
    assert!(matches!(d.dd_types[0], DDType::Uniform(DDTypeUniform { binding: BindingId(0), size: 64 })));
    assert!(matches!(&d.dd_types[1], DDType::Image(i) if i.file_abs == "/tex/a.png"));
    assert!(matches!(&d.dd_types[2], DDType::ImageArray(a) if a.ias.path == "/tex/arr"));
}

#[test]
fn write_plan_one_write_per_descriptor() {
    let plan = sample_description().write_plan();
    assert_eq!(
        plan,
        vec![
            DescriptorWrite { binding: 0, kind: DescriptorKind::UniformBuffer { range: 64 } },
            DescriptorWrite {
                binding: 1,
                kind: DescriptorKind::CombinedImageSampler { layout: ImageLayout::ShaderReadOnlyOptimal },
            },
            DescriptorWrite {
                binding: 2,
                kind: DescriptorKind::CombinedImageSampler { layout: ImageLayout::ShaderReadOnlyOptimal },
            },
        ]
    );
}

#[test]
fn write_plan_of_empty_description_is_empty() {
    assert!(DescriptorDescription::new(Vec::new()).write_plan().is_empty());
}

#[test]
fn write_plan_is_the_same_for_every_frame() {
    let d = sample_description();
    assert_eq!(d.write_plan(), d.write_plan());
}

#[test]
fn ids_wrap_their_numbers() {
    assert_eq!(BindingId(7).0, 7);
    assert_eq!(SetId(3).0, 3);
    assert_eq!(SetId(3), SetId(3));
}

#[test]
fn pool_sizes_scale_with_frames() {
    let p = pool_sizes(3);
    assert_eq!(p.max_sets, 3072);
    assert_eq!(p.uniform_buffers, 3072);
    assert_eq!(p.combined_image_samplers, 3072);
    assert_eq!(pool_sizes(0).max_sets, 0);
}
