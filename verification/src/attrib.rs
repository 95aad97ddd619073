use vstd::prelude::*;
use crate::consts;

verus! {

/// The smallest pbuffer dimension: a requested size below one becomes one.
pub open spec fn at_least_one(v: i32) -> i32 {
    if v < 1 { 1 } else { v }
}

/// `max(v, 1)`.
pub fn clamp_to_one(v: i32) -> (r: i32)
    ensures
        r == at_least_one(v),
{
    if v < 1 { 1 } else { v }
}

/// The attribute lists (consts::EGL_NONE terminated `EGLint` arrays) handed to EGL.
#[derive(Clone, Copy, Debug, PartialEq, Eq, Structural)]
pub enum AttributeList {
    /// Window surface config of `create_egl_context`. The list is built of `u32`
    /// values in memory; each one is read by EGL as the `EGLint` of the same bits,
    /// so the sample count appears unchanged.
    WindowConfig { alpha: bool, sample_count: i32 },
    /// Context attributes of `create_egl_context` (OpenGL ES 2).
    WindowContext,
    /// Pbuffer config of the headless desktop OpenGL context.
    HeadlessConfig { alpha: bool },
    /// Context attributes of the headless context: OpenGL 3.1 when
    /// the extension `EGL_KHR_create_context` is available, otherwise none.
    HeadlessContext { khr_create_context: bool },
    /// Pbuffer surface size.
    Pbuffer { width: i32, height: i32 },
    /// ANGLE platform display with the Direct3D 11 renderer and the given device type.
    AngleDisplay { device: i32 },
    /// ANGLE OpenGL ES 3 pbuffer config.
    AngleConfig { alpha: bool, samples: i32 },
    /// ANGLE context attributes (OpenGL ES 3).
    AngleContext,
}

/// The alpha size requested: 8 with alpha, 0 without.
pub open spec fn alpha_bits(alpha: bool) -> i32 {
    if alpha { 8 } else { 0 }
}

impl AttributeList {
    /// The `EGLint` values of the list, in order, `consts::EGL_NONE` last.
    pub open spec fn values(self) -> Seq<i32> {
        match self {
            AttributeList::WindowConfig { alpha, sample_count } => seq![
                consts::EGL_SURFACE_TYPE as i32, consts::EGL_WINDOW_BIT as i32,
                consts::EGL_RED_SIZE as i32, 8i32,
                consts::EGL_GREEN_SIZE as i32, 8i32,
                consts::EGL_BLUE_SIZE as i32, 8i32,
                consts::EGL_ALPHA_SIZE as i32, alpha_bits(alpha),
                consts::EGL_DEPTH_SIZE as i32, 16i32,
                consts::EGL_STENCIL_SIZE as i32, 0i32,
                consts::EGL_SAMPLES as i32, sample_count,
                consts::EGL_NONE as i32,
            ],
            AttributeList::WindowContext => seq![
                consts::EGL_CONTEXT_CLIENT_VERSION as i32, 2i32, consts::EGL_NONE as i32,
            ],
            AttributeList::HeadlessConfig { alpha } => seq![
                consts::EGL_SURFACE_TYPE as i32, consts::EGL_PBUFFER_BIT as i32,
                consts::EGL_RENDERABLE_TYPE as i32, consts::EGL_OPENGL_BIT as i32,
                consts::EGL_RED_SIZE as i32, 8i32,
                consts::EGL_GREEN_SIZE as i32, 8i32,
                consts::EGL_BLUE_SIZE as i32, 8i32,
                consts::EGL_ALPHA_SIZE as i32, alpha_bits(alpha),
                consts::EGL_DEPTH_SIZE as i32, 16i32,
                consts::EGL_STENCIL_SIZE as i32, 0i32,
                consts::EGL_NONE as i32,
            ],
            AttributeList::HeadlessContext { khr_create_context } => if khr_create_context {
                seq![
                    consts::EGL_CONTEXT_MAJOR_VERSION_KHR as i32, 3i32,
                    consts::EGL_CONTEXT_MINOR_VERSION_KHR as i32, 1i32,
                    consts::EGL_NONE as i32,
                ]
            } else {
                seq![consts::EGL_NONE as i32]
            },
            AttributeList::Pbuffer { width, height } => seq![
                consts::EGL_WIDTH as i32, width, consts::EGL_HEIGHT as i32, height, consts::EGL_NONE as i32,
            ],
            AttributeList::AngleDisplay { device } => seq![
                consts::EGL_PLATFORM_ANGLE_TYPE_ANGLE, consts::EGL_PLATFORM_ANGLE_TYPE_D3D11_ANGLE,
                consts::EGL_PLATFORM_ANGLE_DEVICE_TYPE_ANGLE, device,
                consts::EGL_NONE as i32,
            ],
            AttributeList::AngleConfig { alpha, samples } => seq![
                consts::EGL_SURFACE_TYPE as i32, consts::EGL_PBUFFER_BIT as i32,
                consts::EGL_RENDERABLE_TYPE as i32, consts::EGL_OPENGL_ES3_BIT,
                consts::EGL_RED_SIZE as i32, 8i32,
                consts::EGL_GREEN_SIZE as i32, 8i32,
                consts::EGL_BLUE_SIZE as i32, 8i32,
                consts::EGL_ALPHA_SIZE as i32, alpha_bits(alpha),
                consts::EGL_DEPTH_SIZE as i32, 16i32,
                consts::EGL_STENCIL_SIZE as i32, 8i32,
                consts::EGL_SAMPLE_BUFFERS, if samples > 0 { 1i32 } else { 0i32 },
                consts::EGL_SAMPLES as i32, samples,
                consts::EGL_NONE as i32,
            ],
            AttributeList::AngleContext => seq![
                consts::EGL_CONTEXT_CLIENT_VERSION as i32, 3i32, consts::EGL_NONE as i32,
            ],
        }
    }

    /// The list as an array for EGL.
    pub fn to_vec(&self) -> (v: Vec<i32>)
        ensures
            v@ == self.values(),
    {
        match *self {
            AttributeList::WindowConfig { alpha, sample_count } => {
                let a: i32 = if alpha { 8 } else { 0 };
                let v = vec![
                    consts::EGL_SURFACE_TYPE as i32, consts::EGL_WINDOW_BIT as i32,
                    consts::EGL_RED_SIZE as i32, 8i32,
                    consts::EGL_GREEN_SIZE as i32, 8i32,
                    consts::EGL_BLUE_SIZE as i32, 8i32,
                    consts::EGL_ALPHA_SIZE as i32, a,
                    consts::EGL_DEPTH_SIZE as i32, 16i32,
                    consts::EGL_STENCIL_SIZE as i32, 0i32,
                    consts::EGL_SAMPLES as i32, sample_count,
                    consts::EGL_NONE as i32,
                ];
                assert(v@ =~= self.values());
                v
            },
            AttributeList::WindowContext => {
                let v = vec![consts::EGL_CONTEXT_CLIENT_VERSION as i32, 2i32, consts::EGL_NONE as i32];
                assert(v@ =~= self.values());
                v
            },
            AttributeList::HeadlessConfig { alpha } => {
                let a: i32 = if alpha { 8 } else { 0 };
                let v = vec![
                    consts::EGL_SURFACE_TYPE as i32, consts::EGL_PBUFFER_BIT as i32,
                    consts::EGL_RENDERABLE_TYPE as i32, consts::EGL_OPENGL_BIT as i32,
                    consts::EGL_RED_SIZE as i32, 8i32,
                    consts::EGL_GREEN_SIZE as i32, 8i32,
                    consts::EGL_BLUE_SIZE as i32, 8i32,
                    consts::EGL_ALPHA_SIZE as i32, a,
                    consts::EGL_DEPTH_SIZE as i32, 16i32,
                    consts::EGL_STENCIL_SIZE as i32, 0i32,
                    consts::EGL_NONE as i32,
                ];
                assert(v@ =~= self.values());
                v
            },
            AttributeList::HeadlessContext { khr_create_context } => {
                if khr_create_context {
                    let v = vec![
                        consts::EGL_CONTEXT_MAJOR_VERSION_KHR as i32, 3i32,
                        consts::EGL_CONTEXT_MINOR_VERSION_KHR as i32, 1i32,
                        consts::EGL_NONE as i32,
                    ];
                    assert(v@ =~= self.values());
                    v
                } else {
                    let v = vec![consts::EGL_NONE as i32];
                    assert(v@ =~= self.values());
                    v
                }
            },
            AttributeList::Pbuffer { width, height } => {
                let v = vec![consts::EGL_WIDTH as i32, width, consts::EGL_HEIGHT as i32, height, consts::EGL_NONE as i32];
                assert(v@ =~= self.values());
                v
            },
            AttributeList::AngleDisplay { device } => {
                let v = vec![
                    consts::EGL_PLATFORM_ANGLE_TYPE_ANGLE, consts::EGL_PLATFORM_ANGLE_TYPE_D3D11_ANGLE,
                    consts::EGL_PLATFORM_ANGLE_DEVICE_TYPE_ANGLE, device,
                    consts::EGL_NONE as i32,
                ];
                assert(v@ =~= self.values());
                v
            },
            AttributeList::AngleConfig { alpha, samples } => {
                let a: i32 = if alpha { 8 } else { 0 };
                let sb: i32 = if samples > 0 { 1 } else { 0 };
                let v = vec![
                    consts::EGL_SURFACE_TYPE as i32, consts::EGL_PBUFFER_BIT as i32,
                    consts::EGL_RENDERABLE_TYPE as i32, consts::EGL_OPENGL_ES3_BIT,
                    consts::EGL_RED_SIZE as i32, 8i32,
                    consts::EGL_GREEN_SIZE as i32, 8i32,
                    consts::EGL_BLUE_SIZE as i32, 8i32,
                    consts::EGL_ALPHA_SIZE as i32, a,
                    consts::EGL_DEPTH_SIZE as i32, 16i32,
                    consts::EGL_STENCIL_SIZE as i32, 8i32,
                    consts::EGL_SAMPLE_BUFFERS, sb,
                    consts::EGL_SAMPLES as i32, samples,
                    consts::EGL_NONE as i32,
                ];
                assert(v@ =~= self.values());
                v
            },
            AttributeList::AngleContext => {
                let v = vec![consts::EGL_CONTEXT_CLIENT_VERSION as i32, 3i32, consts::EGL_NONE as i32];
                assert(v@ =~= self.values());
                v
            },
        }
    }
}


/// The window config list asks EGL for 8-bit red, green and blue channels, an
/// 8-bit alpha channel exactly when alpha was asked for (none otherwise), a 16-bit
/// depth buffer, no stencil buffer and the sample count given, each value right
/// after its attribute's name, and ends the list there.
pub proof fn lemma_window_config_list(alpha: bool, sample_count: i32)
    ensures
        ({
            let v = AttributeList::WindowConfig { alpha, sample_count }.values();
            &&& v.len() == 17
            &&& v[0] == consts::EGL_SURFACE_TYPE as i32 && v[1] == consts::EGL_WINDOW_BIT as i32
            &&& v[2] == consts::EGL_RED_SIZE as i32 && v[3] == 8
            &&& v[4] == consts::EGL_GREEN_SIZE as i32 && v[5] == 8
            &&& v[6] == consts::EGL_BLUE_SIZE as i32 && v[7] == 8
            &&& v[8] == consts::EGL_ALPHA_SIZE as i32 && (if alpha { v[9] == 8 } else { v[9] == 0 })
            &&& v[10] == consts::EGL_DEPTH_SIZE as i32 && v[11] == 16
            &&& v[12] == consts::EGL_STENCIL_SIZE as i32 && v[13] == 0
            &&& v[14] == consts::EGL_SAMPLES as i32 && v[15] == sample_count
            &&& v[16] == consts::EGL_NONE as i32
        }),
{
}

/// The headless pbuffer config list asks for a pbuffer surface rendering desktop
/// OpenGL, 8-bit colour channels, an 8-bit alpha channel exactly when alpha was
/// asked for (none otherwise), a 16-bit depth buffer and no stencil buffer.
pub proof fn lemma_headless_config_list(alpha: bool)
    ensures
        ({
            let v = AttributeList::HeadlessConfig { alpha }.values();
            &&& v.len() == 17
            &&& v[0] == consts::EGL_SURFACE_TYPE as i32 && v[1] == consts::EGL_PBUFFER_BIT as i32
            &&& v[2] == consts::EGL_RENDERABLE_TYPE as i32 && v[3] == consts::EGL_OPENGL_BIT as i32
            &&& v[4] == consts::EGL_RED_SIZE as i32 && v[5] == 8
            &&& v[6] == consts::EGL_GREEN_SIZE as i32 && v[7] == 8
            &&& v[8] == consts::EGL_BLUE_SIZE as i32 && v[9] == 8
            &&& v[10] == consts::EGL_ALPHA_SIZE as i32 && (if alpha { v[11] == 8 } else { v[11] == 0 })
            &&& v[12] == consts::EGL_DEPTH_SIZE as i32 && v[13] == 16
            &&& v[14] == consts::EGL_STENCIL_SIZE as i32 && v[15] == 0
            &&& v[16] == consts::EGL_NONE as i32
        }),
{
}

/// The ANGLE config list asks for a pbuffer surface rendering OpenGL ES 3, 8-bit
/// colour channels, an 8-bit alpha channel exactly when alpha was asked for, a
/// 16-bit depth and 8-bit stencil buffer, and multisampling (one sample buffer
/// with `samples` samples) exactly when `samples` is positive; otherwise no sample
/// buffer and `samples` samples.
pub proof fn lemma_angle_config_list(alpha: bool, samples: i32)
    ensures
        ({
            let v = AttributeList::AngleConfig { alpha, samples }.values();
            &&& v.len() == 21
            &&& v[0] == consts::EGL_SURFACE_TYPE as i32 && v[1] == consts::EGL_PBUFFER_BIT as i32
            &&& v[2] == consts::EGL_RENDERABLE_TYPE as i32 && v[3] == consts::EGL_OPENGL_ES3_BIT
            &&& v[4] == consts::EGL_RED_SIZE as i32 && v[5] == 8
            &&& v[6] == consts::EGL_GREEN_SIZE as i32 && v[7] == 8
            &&& v[8] == consts::EGL_BLUE_SIZE as i32 && v[9] == 8
            &&& v[10] == consts::EGL_ALPHA_SIZE as i32 && (if alpha { v[11] == 8 } else { v[11] == 0 })
            &&& v[12] == consts::EGL_DEPTH_SIZE as i32 && v[13] == 16
            &&& v[14] == consts::EGL_STENCIL_SIZE as i32 && v[15] == 8
            &&& v[16] == consts::EGL_SAMPLE_BUFFERS && (if samples > 0 { v[17] == 1 } else { v[17] == 0 })
            &&& v[18] == consts::EGL_SAMPLES as i32 && v[19] == samples
            &&& v[20] == consts::EGL_NONE as i32
        }),
{
}

} // verus!
