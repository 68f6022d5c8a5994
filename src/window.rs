use vstd::prelude::*;

verus! {

/// What the application window is created with.
#[derive(Debug, Clone)]
pub struct WindowProps {
    pub title: String,
    pub width: u32,
    pub height: u32,
}

impl Default for WindowProps {
    /// A 1280 by 720 window titled "BuffEngine".
    fn default() -> (r: Self)
        ensures
            r.title@ == "BuffEngine"@,
            r.width == 1280,
            r.height == 720,
    {
        WindowProps { title: "BuffEngine".to_owned(), width: 1280, height: 720 }
    }
}

} // verus!
