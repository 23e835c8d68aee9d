use glutin::pixel_format::{PixelFormat, PixelFormatRequirements};

fn open_requirements() -> PixelFormatRequirements {
    PixelFormatRequirements {
        hardware_accelerated: None,
        color_bits: None,
        alpha_bits: None,
        depth_bits: None,
        stencil_bits: None,
        double_buffer: None,
        multisampling: None,
        stereoscopy: false,
        srgb: false,
    }
}

#[test]
fn open_requirements_get_backend_defaults() {
    let pf = PixelFormat::from_requirements(&open_requirements());
    assert_eq!(
        pf,
        PixelFormat {
            hardware_accelerated: true,
            color_bits: 24,
            alpha_bits: 8,
            depth_bits: 24,
            stencil_bits: 8,
            stereoscopy: false,
            double_buffer: true,
            multisampling: None,
            srgb: false,
        }
    );
}

#[test]
fn given_requirements_are_honoured() {
    let reqs = PixelFormatRequirements {
        hardware_accelerated: Some(false),
        color_bits: Some(16),
        alpha_bits: Some(0),
        depth_bits: Some(32),
        stencil_bits: Some(1),
        double_buffer: Some(false),
        multisampling: Some(4),
        stereoscopy: true,
        srgb: true,
    };
    let pf = PixelFormat::from_requirements(&reqs);
    assert!(!pf.hardware_accelerated);
    assert_eq!(pf.color_bits, 16);
    assert_eq!(pf.alpha_bits, 0);
    assert_eq!(pf.depth_bits, 32);
    assert_eq!(pf.stencil_bits, 1);
    assert!(!pf.double_buffer);
    assert_eq!(pf.multisampling, Some(4));
    assert!(pf.stereoscopy);
    assert!(pf.srgb);
}

#[test]
fn partly_given_requirements_mix_given_and_defaults() {
    let mut reqs = open_requirements();
    reqs.color_bits = Some(30);
    reqs.double_buffer = Some(false);
    let pf = PixelFormat::from_requirements(&reqs);
    assert_eq!(pf.color_bits, 30);
    assert!(!pf.double_buffer);
    assert_eq!(pf.alpha_bits, 8);
    assert_eq!(pf.depth_bits, 24);
    assert_eq!(pf.stencil_bits, 8);
    assert!(pf.hardware_accelerated);
}

#[test]
fn fully_specified_requirements_give_the_format_back() {
    let pf = PixelFormat {
        hardware_accelerated: false,
        color_bits: 8,
        alpha_bits: 2,
        depth_bits: 16,
        stencil_bits: 0,
        stereoscopy: true,
        double_buffer: false,
        multisampling: Some(8),
        srgb: true,
    };
    let reqs = PixelFormatRequirements {
        hardware_accelerated: Some(pf.hardware_accelerated),
        color_bits: Some(pf.color_bits),
        alpha_bits: Some(pf.alpha_bits),
        depth_bits: Some(pf.depth_bits),
        stencil_bits: Some(pf.stencil_bits),
        double_buffer: Some(pf.double_buffer),
        multisampling: pf.multisampling,
        stereoscopy: pf.stereoscopy,
        srgb: pf.srgb,
    };
    assert_eq!(PixelFormat::from_requirements(&reqs), pf);
}

#[test]
fn raw_context_format_is_fixed() {
    assert_eq!(
        PixelFormat::raw_context_format(),
        PixelFormat {
            hardware_accelerated: true,
            color_bits: 24,
            alpha_bits: 8,
            depth_bits: 24,
            stencil_bits: 8,
            stereoscopy: false,
            double_buffer: true,
            multisampling: None,
            srgb: true,
        }
    );
}
