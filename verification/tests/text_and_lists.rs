use miniquad_egl::attrib::AttributeList;
use miniquad_egl::consts;
use miniquad_egl::error::EglError;
use miniquad_egl::text::{append_decimal, append_hex4, extension_listed, parse_usize};

#[test]
fn extension_found_among_words() {
    let list = "EGL_EXT_platform_base EGL_KHR_create_context EGL_MESA_foo";
    assert!(extension_listed(list, "EGL_KHR_create_context"));
    assert!(extension_listed(list, "EGL_EXT_platform_base"));
    assert!(extension_listed(list, "EGL_MESA_foo"));
}

#[test]
fn extension_prefix_is_not_a_match() {
    let list = "EGL_KHR_create_context_no_error EGL_KHR_create";
    assert!(!extension_listed(list, "EGL_KHR_create_context"));
    assert!(!extension_listed(list, "KHR_create"));
}

#[test]
fn extension_separated_by_any_white_space() {
    assert!(extension_listed("\tA\n  B\r\nC\u{3000}D\u{a0}", "B"));
    assert!(extension_listed("A\u{3000}D", "D"));
    assert!(extension_listed("A\u{2029}D", "A"));
    assert!(!extension_listed("A\u{200b}D", "D"));
}

#[test]
fn extension_empty_name_or_list() {
    assert!(!extension_listed("A B", ""));
    assert!(!extension_listed("", "A"));
    assert!(!extension_listed("   ", "A"));
}

#[test]
fn parse_usize_like_from_str() {
    assert_eq!(parse_usize("0"), Some(0));
    assert_eq!(parse_usize("17"), Some(17));
    assert_eq!(parse_usize("+7"), Some(7));
    assert_eq!(parse_usize("007"), Some(7));
    assert_eq!(parse_usize(""), None);
    assert_eq!(parse_usize("+"), None);
    assert_eq!(parse_usize("-1"), None);
    assert_eq!(parse_usize(" 1"), None);
    assert_eq!(parse_usize("1 "), None);
    assert_eq!(parse_usize("++1"), None);
    assert_eq!(parse_usize("1a"), None);
    assert_eq!(parse_usize(&usize::MAX.to_string()), Some(usize::MAX));
    let over = format!("{}0", usize::MAX);
    assert_eq!(parse_usize(&over), None);
    for s in ["0", "12", "+3", "-3", "x", "", "99999999999999999999999"] {
        assert_eq!(parse_usize(s), s.parse::<usize>().ok());
    }
}

#[test]
fn hex4_like_format() {
    for v in [0u32, 5, 0x3001, 0x300c, 0xabc, 0x12345, u32::MAX] {
        let mut s = String::new();
        append_hex4(&mut s, v);
        assert_eq!(s, format!("{:04x}", v));
    }
    let mut s = String::from("0x");
    append_hex4(&mut s, 0x3003);
    assert_eq!(s, "0x3003");
}

#[test]
fn decimal_like_format() {
    for v in [0i32, 4, -3, 10, 123456, i32::MAX, i32::MIN] {
        let mut s = String::new();
        append_decimal(&mut s, v);
        assert_eq!(s, v.to_string());
    }
}

#[test]
fn egl_error_messages() {
    assert_eq!(EglError::NoDisplay.message(), "No display");
    assert_eq!(EglError::InitializeFailed.message(), "Failed to initialize context");
    assert_eq!(EglError::UnsupportedPlatform.message(), "No headless EGL platform is available");
    assert_eq!(EglError::BindApiFailed.message(), "Failed to bind the desktop OpenGL EGL API");
    assert_eq!(EglError::NoConfig.message(), "No compatible EGL pbuffer/OpenGL config was found");
    assert_eq!(EglError::CreateContextFailed.message(), "Failed to create desktop OpenGL context");
    assert_eq!(EglError::CreateSurfaceFailed.message(), "Failed to create EGL pbuffer surface");
    assert_eq!(EglError::MakeCurrentFailed.message(), "Failed to make EGL context current");
}

#[test]
fn headless_config_list() {
    let v = AttributeList::HeadlessConfig { alpha: true }.to_vec();
    assert_eq!(
        v,
        vec![12339, 1, 12352, 8, 12324, 8, 12323, 8, 12322, 8, 12321, 8, 12325, 16, 12326, 0, 12344]
    );
    let v = AttributeList::HeadlessConfig { alpha: false }.to_vec();
    assert_eq!(v[11], 0);
}

#[test]
fn window_config_list() {
    let v = AttributeList::WindowConfig { alpha: false, sample_count: 4 }.to_vec();
    assert_eq!(
        v,
        vec![12339, 4, 12324, 8, 12323, 8, 12322, 8, 12321, 0, 12325, 16, 12326, 0, 12337, 4, 12344]
    );
    let v = AttributeList::WindowConfig { alpha: true, sample_count: -1 }.to_vec();
    assert_eq!(v[15] as u32, (-1i32) as u32);
    assert_eq!(AttributeList::WindowContext.to_vec(), vec![12440, 2, 12344]);
}

#[test]
fn context_and_surface_lists() {
    assert_eq!(
        AttributeList::HeadlessContext { khr_create_context: true }.to_vec(),
        vec![0x3098, 3, 0x30FB, 1, 12344]
    );
    assert_eq!(AttributeList::HeadlessContext { khr_create_context: false }.to_vec(), vec![12344]);
    assert_eq!(AttributeList::Pbuffer { width: 640, height: 480 }.to_vec(), vec![12375, 640, 12374, 480, 12344]);
    assert_eq!(AttributeList::AngleContext.to_vec(), vec![12440, 3, 12344]);
}

#[test]
fn angle_lists() {
    assert_eq!(
        AttributeList::AngleDisplay { device: consts::EGL_PLATFORM_ANGLE_DEVICE_TYPE_D3D_WARP_ANGLE }.to_vec(),
        vec![0x3203, 0x3208, 0x3209, 0x320B, 12344]
    );
    assert_eq!(
        AttributeList::AngleConfig { alpha: true, samples: 4 }.to_vec(),
        vec![12339, 1, 12352, 0x40, 12324, 8, 12323, 8, 12322, 8, 12321, 8, 12325, 16, 12326, 8, 0x3032, 1, 12337, 4, 12344]
    );
    let v = AttributeList::AngleConfig { alpha: false, samples: 0 }.to_vec();
    assert_eq!(v[11], 0);
    assert_eq!(v[17], 0);
    assert_eq!(v[19], 0);
}
