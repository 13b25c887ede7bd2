use triangle_renderer::resources::FrameResources;

#[test]
fn one_framebuffer_and_command_buffer_per_image() {
    let r = FrameResources::new(vec![10u32, 20, 30], |i: &u32| i + 1, |f: &u32| format!("draw {}", f));
    assert_eq!(r.image_count(), 3);
    assert_eq!(r.images_slice(), &[10, 20, 30]);
    assert_eq!(*r.framebuffer(1), 21);
    assert_eq!(r.command_buffer(2), "draw 31");
}

#[test]
fn recreation_rebuilds_for_new_images() {
    let mut r = FrameResources::new(vec![1u32, 2], |i: &u32| i * 10, |f: &u32| f + 5);
    r.recreate(vec![7, 8, 9, 10], |i: &u32| i * 100, |f: &u32| f + 1);
    assert_eq!(r.image_count(), 4);
    for k in 0..4 {
        assert_eq!(*r.framebuffer(k), (7 + k as u32) * 100);
        assert_eq!(*r.command_buffer(k), (7 + k as u32) * 100 + 1);
    }
    r.recreate(vec![], |i: &u32| *i, |f: &u32| *f);
    assert_eq!(r.image_count(), 0);
}
