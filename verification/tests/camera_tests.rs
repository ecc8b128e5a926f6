use mlx9064x::camera::resolution_correction;
use mlx9064x::camera::CameraModel;
use mlx9064x::register::AccessPattern;
use mlx9064x::register::FrameRate;
use mlx9064x::register::Resolution;
use mlx9064x::register::Subpage;

#[test]
fn model_dimensions() {
    assert_eq!(CameraModel::Mlx90640.height(), 24);
    assert_eq!(CameraModel::Mlx90640.width(), 32);
    assert_eq!(CameraModel::Mlx90640.num_pixels(), 768);
    assert_eq!(CameraModel::Mlx90640.pixel_buffer_len(), 1536);
    assert_eq!(CameraModel::Mlx90641.height(), 12);
    assert_eq!(CameraModel::Mlx90641.width(), 16);
    assert_eq!(CameraModel::Mlx90641.num_pixels(), 192);
    assert_eq!(CameraModel::Mlx90641.pixel_buffer_len(), 384);
}

#[test]
fn correction_is_one_at_calibrated_resolution() {
    let (n, d) = resolution_correction(Resolution::Eighteen, Resolution::Eighteen);
    assert_eq!(n, d);
}

#[test]
fn correction_ratios() {
    assert_eq!(resolution_correction(Resolution::Eighteen, Resolution::Sixteen), (4, 1));
    assert_eq!(resolution_correction(Resolution::Sixteen, Resolution::Nineteen), (1, 8));
    assert_eq!(resolution_correction(Resolution::Nineteen, Resolution::Seventeen), (8, 2));
}

#[test]
fn chess_pattern_assignment() {
    let m = CameraModel::Mlx90640;
    assert_eq!(m.pixel_subpage(AccessPattern::Chess, 0), Subpage::Zero);
    assert_eq!(m.pixel_subpage(AccessPattern::Chess, 1), Subpage::One);
    assert_eq!(m.pixel_subpage(AccessPattern::Chess, 32), Subpage::One);
    assert_eq!(m.pixel_subpage(AccessPattern::Chess, 33), Subpage::Zero);
    assert_eq!(m.pixel_subpage(AccessPattern::Interleave, 31), Subpage::Zero);
    assert_eq!(m.pixel_subpage(AccessPattern::Interleave, 32), Subpage::One);
    assert_eq!(CameraModel::Mlx90641.pixel_subpage(AccessPattern::Interleave, 16), Subpage::One);
}

#[test]
fn mlx90640_subpages_split_pixels_in_half() {
    let m = CameraModel::Mlx90640;
    for p in [AccessPattern::Chess, AccessPattern::Interleave] {
        let zero = m.pixels_in_subpage(Subpage::Zero, p);
        let one = m.pixels_in_subpage(Subpage::One, p);
        assert_eq!(zero.len(), 768);
        assert_eq!(one.len(), 768);
        for i in 0..m.num_pixels() {
            assert!(zero[i] != one[i]);
        }
        assert_eq!(zero.iter().filter(|b| **b).count(), 384);
    }
    let chess = m.pixels_in_subpage(Subpage::Zero, AccessPattern::Chess);
    assert!(chess[0] && !chess[1] && !chess[32] && chess[33]);
}

#[test]
fn mlx90641_reads_every_pixel_each_subpage() {
    let m = CameraModel::Mlx90641;
    for p in [AccessPattern::Chess, AccessPattern::Interleave] {
        for s in [Subpage::Zero, Subpage::One] {
            let v = m.pixels_in_subpage(s, p);
            assert_eq!(v.len(), 192);
            assert!(v.iter().all(|b| *b));
        }
    }
}

#[test]
fn power_on_defaults() {
    let d = CameraModel::Mlx90640.default_control_register();
    assert_eq!(d.raw(), 0x1901);
    assert!(d.use_subpages());
    assert!(!d.data_hold());
    assert!(!d.subpage_repeat());
    assert_eq!(d.subpage(), Subpage::Zero);
    assert_eq!(d.frame_rate(), FrameRate::Two);
    assert_eq!(d.resolution(), Resolution::Eighteen);
    assert_eq!(d.access_pattern(), AccessPattern::Chess);
    let d = CameraModel::Mlx90641.default_control_register();
    assert_eq!(d.raw(), 0x0901);
    assert_eq!(d.frame_rate(), FrameRate::Two);
    assert_eq!(d.resolution(), Resolution::Eighteen);
    assert_eq!(d.access_pattern(), AccessPattern::Interleave);
}

#[test]
fn buffers_fit_model() {
    assert!(CameraModel::Mlx90640.fits_buffers(24, 1536));
    assert!(!CameraModel::Mlx90640.fits_buffers(12, 384));
    assert!(CameraModel::Mlx90641.fits_buffers(12, 384));
    assert!(!CameraModel::Mlx90641.fits_buffers(12, 1536));
}
