use vstd::prelude::*;

verus! {

pub const EGL_SUCCESS: u32 = 12288;

pub const EGL_WINDOW_BIT: u32 = 4;
pub const EGL_PBUFFER_BIT: u32 = 1;
pub const EGL_OPENGL_BIT: u32 = 8;
pub const EGL_RENDERABLE_TYPE: u32 = 12352;
pub const EGL_OPENGL_API: u32 = 0x30A2;
pub const EGL_EXTENSIONS: u32 = 0x3055;
pub const EGL_CONTEXT_MAJOR_VERSION_KHR: u32 = 0x3098;
pub const EGL_CONTEXT_MINOR_VERSION_KHR: u32 = 0x30FB;
pub const EGL_PLATFORM_DEVICE_EXT: u32 = 0x313F;
pub const EGL_PLATFORM_SURFACELESS_MESA: u32 = 0x31DD;

pub const EGL_ALPHA_SIZE: u32 = 12321;
pub const EGL_BLUE_SIZE: u32 = 12322;
pub const EGL_GREEN_SIZE: u32 = 12323;
pub const EGL_RED_SIZE: u32 = 12324;
pub const EGL_DEPTH_SIZE: u32 = 12325;
pub const EGL_STENCIL_SIZE: u32 = 12326;
pub const EGL_SAMPLES: u32 = 12337;
pub const EGL_NATIVE_VISUAL_ID: u32 = 12334;
pub const EGL_WIDTH: u32 = 12375;
pub const EGL_HEIGHT: u32 = 12374;
pub const EGL_SURFACE_TYPE: u32 = 12339;
pub const EGL_NONE: u32 = 12344;
pub const EGL_CONTEXT_CLIENT_VERSION: u32 = 12440;

/// ANGLE and OpenGL ES values used by the Direct3D 11 backend.
pub const EGL_OPENGL_ES_API: u32 = 0x30A0;
pub const EGL_OPENGL_ES3_BIT: i32 = 0x0040;
pub const EGL_SAMPLE_BUFFERS: i32 = 0x3032;
pub const EGL_PLATFORM_ANGLE_ANGLE: u32 = 0x3202;
pub const EGL_PLATFORM_ANGLE_TYPE_ANGLE: i32 = 0x3203;
pub const EGL_PLATFORM_ANGLE_TYPE_D3D11_ANGLE: i32 = 0x3208;
pub const EGL_PLATFORM_ANGLE_DEVICE_TYPE_ANGLE: i32 = 0x3209;
pub const EGL_PLATFORM_ANGLE_DEVICE_TYPE_HARDWARE_ANGLE: i32 = 0x320A;
pub const EGL_PLATFORM_ANGLE_DEVICE_TYPE_D3D_WARP_ANGLE: i32 = 0x320B;

/// Number of configurations the config queries ask EGL for.
pub const CONFIG_CAPACITY: i32 = 32;

} // verus!
