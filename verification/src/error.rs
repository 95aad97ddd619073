use vstd::prelude::*;

verus! {

/// Why a desktop or headless EGL context could not be created.
#[derive(Clone, Copy, Debug, PartialEq, Eq, Structural)]
pub enum EglError {
    NoDisplay,
    InitializeFailed,
    UnsupportedPlatform,
    BindApiFailed,
    NoConfig,
    CreateContextFailed,
    CreateSurfaceFailed,
    MakeCurrentFailed,
}

impl EglError {
    /// The human-readable description of the error.
    pub open spec fn message_text(self) -> Seq<char> {
        match self {
            EglError::NoDisplay => "No display"@,
            EglError::InitializeFailed => "Failed to initialize context"@,
            EglError::UnsupportedPlatform => "No headless EGL platform is available"@,
            EglError::BindApiFailed => "Failed to bind the desktop OpenGL EGL API"@,
            EglError::NoConfig => "No compatible EGL pbuffer/OpenGL config was found"@,
            EglError::CreateContextFailed => "Failed to create desktop OpenGL context"@,
            EglError::CreateSurfaceFailed => "Failed to create EGL pbuffer surface"@,
            EglError::MakeCurrentFailed => "Failed to make EGL context current"@,
        }
    }

    /// The human-readable description of the error (what `Display` prints).
    pub fn message(&self) -> (s: String)
        ensures
            s@ == self.message_text(),
    {
        match self {
            EglError::NoDisplay => String::from_str("No display"),
            EglError::InitializeFailed => String::from_str("Failed to initialize context"),
            EglError::UnsupportedPlatform => String::from_str(
                "No headless EGL platform is available",
            ),
            EglError::BindApiFailed => String::from_str(
                "Failed to bind the desktop OpenGL EGL API",
            ),
            EglError::NoConfig => String::from_str(
                "No compatible EGL pbuffer/OpenGL config was found",
            ),
            EglError::CreateContextFailed => String::from_str(
                "Failed to create desktop OpenGL context",
            ),
            EglError::CreateSurfaceFailed => String::from_str(
                "Failed to create EGL pbuffer surface",
            ),
            EglError::MakeCurrentFailed => String::from_str("Failed to make EGL context current"),
        }
    }
}

} // verus!
