//! The rendering context a texture belongs to, as the library tracks it.
use vstd::prelude::*;

use crate::error::{invalid, outcome, Error, ErrorView, Result};
use crate::text::contains_nul;
use crate::window::Window;

verus! {

/// Outcome of asking for a renderer backend by name: the name must not hold
/// a NUL character.
pub open spec fn backend_name_check(name: Seq<char>) -> Option<ErrorView> {
    if name.contains('\0') {
        invalid("name contains null byte"@)
    } else {
        None
    }
}

/// Outcome of handing debug text to the backend: it must not hold a NUL
/// character.
pub open spec fn debug_text_check(text: Seq<char>) -> Option<ErrorView> {
    if text.contains('\0') {
        invalid("text contains null byte"@)
    } else {
        None
    }
}

/// The backend of the operating system named `os` that a GPU renderer
/// falls back to when the "gpu" backend cannot be had.
pub open spec fn platform_backend(os: Seq<char>) -> Option<Seq<char>> {
    if os == "macos"@ {
        Some("metal"@)
    } else if os == "linux"@ {
        Some("vulkan"@)
    } else {
        None
    }
}

/// The names in a list of backend names.
pub open spec fn names(offered: Seq<String>) -> Seq<Seq<char>> {
    offered.map_values(|s: String| s@)
}

/// The backend a GPU renderer gets, among those `offered`: "gpu" when it
/// is there, else the platform's own backend when it is there, else the
/// default choice (`None`).
pub open spec fn gpu_backend_choice(os: Seq<char>, offered: Seq<Seq<char>>) -> Option<Seq<char>> {
    if offered.contains("gpu"@) {
        Some("gpu"@)
    } else {
        match platform_backend(os) {
            Some(b) => if offered.contains(b) {
                Some(b)
            } else {
                None
            },
            None => None,
        }
    }
}

/// Whether `name` is among the backend names `offered`.
fn offers(offered: &Vec<String>, name: &str) -> (b: bool)
    ensures
        b == names(offered@).contains(name@),
{
    let target = String::from_str(name);
    let mut i: usize = 0;
    while i < offered.len()
        invariant
            i <= offered.len(),
            target@ == name@,
            forall|j: int| 0 <= j < i ==> offered@[j]@ != name@,
        decreases offered.len() - i,
    {
        if offered[i] == target {
            assert(names(offered@)[i as int] == name@);
            return true;
        }
        i = i + 1;
    }
    assert forall|j: int| 0 <= j < names(offered@).len() implies names(offered@)[j] != name@ by {
        assert(names(offered@)[j] == offered@[j]@);
    }
    false
}

/// The platform fallback backend for the operating system named `os`.
fn platform_backend_name(os: &str) -> (b: Option<&'static str>)
    ensures
        match b {
            Some(n) => platform_backend(os@) == Some(n@),
            None => platform_backend(os@) is None,
        },
{
    let os_name = String::from_str(os);
    let macos = String::from_str("macos");
    let linux = String::from_str("linux");
    proof {
        reveal_strlit("metal");
        reveal_strlit("vulkan");
    }
    if os_name == macos {
        Some("metal")
    } else if os_name == linux {
        Some("vulkan")
    } else {
        None
    }
}

/// A rendering context and the backend it was asked for (`None`: the
/// backend's default choice).
pub struct Renderer {
    backend: Option<String>,
}

impl Renderer {
    pub closed spec fn spec_backend(&self) -> Option<Seq<char>> {
        match self.backend {
            Some(b) => Some(b@),
            None => None,
        }
    }

    /// The backend this renderer was asked for (`None`: the default choice).
    pub fn requested_backend(&self) -> (b: Option<&str>)
        ensures
            match b {
                Some(n) => self.spec_backend() == Some(n@),
                None => self.spec_backend() is None,
            },
    {
        match &self.backend {
            Some(n) => Some(n.as_str()),
            None => None,
        }
    }

    /// A renderer for `window` with the backend's default choice.
    pub fn new(window: &Window) -> (r: Result<Renderer>)
        ensures
            r matches Ok(rd) && rd.spec_backend() is None,
    {
        Ok(Renderer { backend: None })
    }

    /// A renderer for `window` using the named backend; refused when the
    /// name holds a NUL character.
    pub fn new_with_name(window: &Window, name: &str) -> (r: Result<Renderer>)
        ensures
            outcome(r) == backend_name_check(name@),
            r matches Ok(rd) ==> rd.spec_backend() == Some(name@),
    {
        if contains_nul(name) {
            return Err(Error::invalid_argument("name contains null byte"));
        }
        Ok(Renderer { backend: Some(String::from_str(name)) })
    }

    /// A renderer for `window` on the GPU: the "gpu" backend when the
    /// machine offers it, else the own backend of the operating system
    /// named `os` ("metal" on "macos", "vulkan" on "linux") when offered,
    /// else the default choice. `offered` names the backends the machine
    /// can create.
    pub fn new_gpu(window: &Window, os: &str, offered: &Vec<String>) -> (r: Result<Renderer>)
        ensures
            r matches Ok(rd) && rd.spec_backend() == gpu_backend_choice(os@, names(offered@)),
    {
        if offers(offered, "gpu") {
            proof {
                reveal_strlit("gpu");
            }
            return Ok(Renderer { backend: Some(String::from_str("gpu")) });
        }
        if let Some(b) = platform_backend_name(os) {
            if offers(offered, b) {
                return Ok(Renderer { backend: Some(String::from_str(b)) });
            }
        }
        Renderer::new(window)
    }

    /// Checks text for the debug-text primitive.
    pub fn check_debug_text(text: &str) -> (r: Result<()>)
        ensures
            outcome(r) == debug_text_check(text@),
    {
        if contains_nul(text) {
            return Err(Error::invalid_argument("text contains null byte"));
        }
        Ok(())
    }
}

} // verus!
